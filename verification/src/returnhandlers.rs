//! How the result of a host method crosses the boundary.

use vstd::prelude::*;
use vstd::string::StringExecFns;
use crate::methodinfo::{ComArg, ComArgView, Direction, RustArg, RustArgView};
use crate::text::join3;
use crate::tyhandlers::TypeHandler;

verus! {

/// How the result of a host method crosses the boundary.
#[derive(Debug)]
pub enum ReturnHandler {
    /// The method returns nothing.
    Void,
    /// The method returns a value; the thunk returns its wire value.
    ReturnOnly { ty: String, handler: TypeHandler },
    /// The method may fail. The thunk returns a status code and writes the
    /// wire value of the result through an out pointer.
    ErrorResult { retval_ty: String, handler: TypeHandler },
}

/// The mathematical value of a `ReturnHandler`.
pub enum ReturnHandlerView {
    Void,
    ReturnOnly { ty: Seq<char>, handler: TypeHandler },
    ErrorResult { retval_ty: Seq<char>, handler: TypeHandler },
}

impl DeepView for ReturnHandler {
    type V = ReturnHandlerView;

    open spec fn deep_view(&self) -> ReturnHandlerView {
        match self {
            ReturnHandler::Void => ReturnHandlerView::Void,
            ReturnHandler::ReturnOnly { ty, handler } => ReturnHandlerView::ReturnOnly {
                ty: ty@,
                handler: *handler,
            },
            ReturnHandler::ErrorResult { retval_ty, handler } => ReturnHandlerView::ErrorResult {
                retval_ty: retval_ty@,
                handler: *handler,
            },
        }
    }
}

impl ReturnHandlerView {
    /// The type that the thunk returns.
    pub open spec fn com_ty(self) -> Seq<char> {
        match self {
            ReturnHandlerView::Void => "()"@,
            ReturnHandlerView::ReturnOnly { ty, handler } => handler.spec_com_ty(ty),
            ReturnHandlerView::ErrorResult { .. } => "::intercom::HRESULT"@,
        }
    }

    /// The places that receive the result: one, named `__out`, where the
    /// method may fail, and none otherwise.
    pub open spec fn com_out_args(self) -> Seq<ComArgView> {
        match self {
            ReturnHandlerView::ErrorResult { retval_ty, handler } => seq![
                ComArgView {
                    arg: RustArgView { name: "__out"@, ty: retval_ty, handler },
                    dir: Direction::Retval,
                },
            ],
            _ => Seq::empty(),
        }
    }

    /// The last expression of the thunk, which turns the result of the host
    /// call, held under the given name, into what the thunk returns. Where
    /// the method failed, the out value is the zero value of its type.
    pub open spec fn rust_to_com_return(self, result: Seq<char>) -> Seq<char> {
        match self {
            ReturnHandlerView::Void => result,
            ReturnHandlerView::ReturnOnly { ty, handler } => handler.spec_rust_to_com(result),
            ReturnHandlerView::ErrorResult { retval_ty, handler } => "match "@ + result
                + " { Ok(v) => { *__out = "@ + handler.spec_rust_to_com("v"@)
                + "; ::intercom::S_OK } Err(e) => { *__out = ::intercom::ExternDefault::extern_default(); e.into() } }"@,
        }
    }
}

impl ReturnHandler {
    /// The type that the thunk returns.
    pub fn com_ty(&self) -> (ty: String)
        ensures
            ty@ == self.deep_view().com_ty(),
    {
        match self {
            ReturnHandler::Void => String::from_str("()"),
            ReturnHandler::ReturnOnly { ty, handler } => handler.com_ty(ty.as_str()),
            ReturnHandler::ErrorResult { .. } => String::from_str("::intercom::HRESULT"),
        }
    }

    /// The places that receive the result.
    pub fn com_out_args(&self) -> (out_args: Vec<ComArg>)
        ensures
            out_args.deep_view() == self.deep_view().com_out_args(),
    {
        let mut out_args: Vec<ComArg> = Vec::new();
        match self {
            ReturnHandler::ErrorResult { retval_ty, handler } => {
                out_args.push(
                    ComArg {
                        arg: RustArg {
                            name: String::from_str("__out"),
                            ty: retval_ty.clone(),
                            handler: *handler,
                        },
                        dir: Direction::Retval,
                    },
                );
                assert(out_args.deep_view() =~= self.deep_view().com_out_args());
            },
            _ => {
                assert(out_args.deep_view() =~= self.deep_view().com_out_args());
            },
        }
        out_args
    }

    /// The last expression of the thunk, which turns the result of the host
    /// call, held under the given name, into what the thunk returns.
    pub fn rust_to_com_return(&self, result: &str) -> (statement: String)
        ensures
            statement@ == self.deep_view().rust_to_com_return(result@),
    {
        match self {
            ReturnHandler::Void => String::from_str(result),
            ReturnHandler::ReturnOnly { ty, handler } => handler.rust_to_com(result),
            ReturnHandler::ErrorResult { retval_ty, handler } => {
                let mut statement = join3("match ", result, " { Ok(v) => { *__out = ");
                let value = handler.rust_to_com("v");
                statement.append(value.as_str());
                statement.append(
                    "; ::intercom::S_OK } Err(e) => { *__out = ::intercom::ExternDefault::extern_default(); e.into() } }",
                );
                statement
            },
        }
    }
}

} // verus!
