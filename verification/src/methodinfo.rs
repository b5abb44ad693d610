//! The description of one method of an interface: its name, its arguments
//! and how its result crosses the boundary.

use vstd::prelude::*;
use vstd::string::StringExecFns;
use crate::returnhandlers::{ReturnHandler, ReturnHandlerView};
use crate::tyhandlers::TypeHandler;

verus! {

/// The direction in which an argument crosses the boundary.
#[derive(Debug, Clone, Copy, PartialEq, Eq, Structural, Hash)]
pub enum Direction {
    In,
    Out,
    Retval,
}

/// An argument of the host method.
#[derive(Debug)]
pub struct RustArg {
    /// The name of the argument.
    pub name: String,
    /// The host type of the argument.
    pub ty: String,
    /// The marshaling contract of the argument.
    pub handler: TypeHandler,
}

/// The mathematical value of a `RustArg`.
pub struct RustArgView {
    pub name: Seq<char>,
    pub ty: Seq<char>,
    pub handler: TypeHandler,
}

impl DeepView for RustArg {
    type V = RustArgView;

    open spec fn deep_view(&self) -> RustArgView {
        RustArgView { name: self.name@, ty: self.ty@, handler: self.handler }
    }
}

impl Clone for RustArg {
    fn clone(&self) -> (copy: RustArg)
        ensures
            copy.deep_view() == self.deep_view(),
    {
        RustArg { name: self.name.clone(), ty: self.ty.clone(), handler: self.handler }
    }
}

/// An argument of the thunk: an argument of the host method, or the place
/// that receives a result, with its direction.
#[derive(Debug)]
pub struct ComArg {
    pub arg: RustArg,
    pub dir: Direction,
}

/// The mathematical value of a `ComArg`.
pub struct ComArgView {
    pub arg: RustArgView,
    pub dir: Direction,
}

impl DeepView for ComArg {
    type V = ComArgView;

    open spec fn deep_view(&self) -> ComArgView {
        ComArgView { arg: self.arg.deep_view(), dir: self.dir }
    }
}

impl ComArg {
    /// The host argument as a thunk argument of the given direction.
    pub fn from_rustarg(arg: RustArg, dir: Direction) -> (com_arg: ComArg)
        ensures
            com_arg.deep_view() == (ComArgView { arg: arg.deep_view(), dir }),
    {
        ComArg { arg, dir }
    }
}

/// A method of an interface as a host type implements it.
#[derive(Debug)]
pub struct ComMethodInfo {
    /// The name of the method.
    pub name: String,
    /// Whether the method only reads the host object.
    pub is_const: bool,
    /// The arguments of the host method, in declaration order.
    pub args: Vec<RustArg>,
    /// How the result crosses the boundary.
    pub returnhandler: ReturnHandler,
}

/// The mathematical value of a `ComMethodInfo`.
pub struct ComMethodInfoView {
    pub name: Seq<char>,
    pub is_const: bool,
    pub args: Seq<RustArgView>,
    pub returnhandler: ReturnHandlerView,
}

impl DeepView for ComMethodInfo {
    type V = ComMethodInfoView;

    open spec fn deep_view(&self) -> ComMethodInfoView {
        ComMethodInfoView {
            name: self.name@,
            is_const: self.is_const,
            args: self.args.deep_view(),
            returnhandler: self.returnhandler.deep_view(),
        }
    }
}

impl ComMethodInfoView {
    /// The arguments of the thunk: the arguments of the host method, each
    /// going in, then the places that receive the result.
    pub open spec fn raw_com_args(self) -> Seq<ComArgView> {
        Seq::new(
            self.args.len(),
            |i: int| ComArgView { arg: self.args[i], dir: Direction::In },
        ) + self.returnhandler.com_out_args()
    }
}

impl ComMethodInfo {
    /// The arguments of the thunk: the arguments of the host method, each
    /// going in, then the places that receive the result.
    pub fn raw_com_args(&self) -> (com_args: Vec<ComArg>)
        ensures
            com_args.deep_view() == self.deep_view().raw_com_args(),
    {
        let mut com_args: Vec<ComArg> = Vec::new();
        let mut i: usize = 0;
        while i < self.args.len()
            invariant
                i <= self.args.len(),
                com_args.len() == i,
                forall|k: int|
                    0 <= k < i ==> (#[trigger] com_args[k]).deep_view() == (ComArgView {
                        arg: self.args[k].deep_view(),
                        dir: Direction::In,
                    }),
            decreases self.args.len() - i,
        {
            com_args.push(ComArg::from_rustarg(self.args[i].clone(), Direction::In));
            i += 1;
        }
        let ghost ins = com_args.deep_view();
        let mut out_args = self.returnhandler.com_out_args();
        let ghost outs = out_args.deep_view();
        com_args.append(&mut out_args);
        proof {
            assert(com_args.deep_view() =~= ins + outs);
            assert(ins =~= Seq::new(
                self.deep_view().args.len(),
                |i: int| ComArgView { arg: self.deep_view().args[i], dir: Direction::In },
            ));
        }
        com_args
    }
}

} // verus!
