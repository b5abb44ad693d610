//! The thunks and the function table that are generated for the
//! implementation of an interface by a host type.
//!
//! A caller reaches the object through a pointer to the table pointer of one
//! interface. Each thunk gets the object back from that pointer by taking off
//! the offset of the interface's table pointer in the object, which is the
//! result of the function named in `Expansion::vtable_offset`.

use vstd::prelude::*;
use vstd::string::StringExecFns;
use crate::idents::{
    lemma_generated_names,
    method_impl,
    spec_method_impl,
    spec_vtable_instance,
    spec_vtable_offset,
    spec_vtable_struct,
    vtable_instance,
    vtable_offset,
    vtable_struct,
};
use crate::methodinfo::{ComArg, ComArgView, ComMethodInfo, ComMethodInfoView, Direction, RustArgView};
use crate::model::{
    ComImpl,
    ComImplView,
    ImplItem,
    ImplItemView,
    ParseError,
    lemma_parsed_names,
    lemma_reserved_shape,
    spec_is_name,
    spec_parse,
    spec_plain,
    spec_reserved,
};
use crate::text::{join, join2, join3, spec_join};

verus! {

/// A parameter of a thunk.
#[derive(Debug)]
pub struct ThunkParam {
    pub name: String,
    /// The type of the parameter: the wire type of an argument that goes
    /// in, a pointer to the wire type of one that comes out.
    pub ty: String,
    pub dir: Direction,
}

/// The mathematical value of a `ThunkParam`.
pub struct ThunkParamView {
    pub name: Seq<char>,
    pub ty: Seq<char>,
    pub dir: Direction,
}

impl DeepView for ThunkParam {
    type V = ThunkParamView;

    open spec fn deep_view(&self) -> ThunkParamView {
        ThunkParamView { name: self.name@, ty: self.ty@, dir: self.dir }
    }
}

/// What a thunk calls once it has the object back.
#[derive(Debug, Clone, Copy, PartialEq, Eq, Structural, Hash)]
pub enum ThunkTarget {
    /// A function of the object box, which takes the box by reference.
    ComBox,
    /// A function of the object box, which takes the address of the box.
    ComBoxPtr,
    /// A method of the host object, which it only reads.
    HostShared,
    /// A method of the host object, which it may change.
    HostExclusive,
}

/// A generated function with the protocol's calling convention.
#[derive(Debug)]
pub struct Thunk {
    /// The name of the function.
    pub name: String,
    /// What the function calls.
    pub target: ThunkTarget,
    /// The name of the function or method that it calls.
    pub callee: String,
    /// The parameters, the table pointer first.
    pub params: Vec<ThunkParam>,
    /// The type that the function returns.
    pub ret_ty: String,
    /// The statements that store what the arguments of the call borrow from.
    pub stack_variables: Vec<String>,
    /// The arguments of the call, in order.
    pub in_params: Vec<String>,
    /// The last expression, which turns the result of the call, held in
    /// `__result`, into what the function returns.
    pub return_statement: String,
}

/// The mathematical value of a `Thunk`.
pub struct ThunkView {
    pub name: Seq<char>,
    pub target: ThunkTarget,
    pub callee: Seq<char>,
    pub params: Seq<ThunkParamView>,
    pub ret_ty: Seq<char>,
    pub stack_variables: Seq<Seq<char>>,
    pub in_params: Seq<Seq<char>>,
    pub return_statement: Seq<char>,
}

impl DeepView for Thunk {
    type V = ThunkView;

    open spec fn deep_view(&self) -> ThunkView {
        ThunkView {
            name: self.name@,
            target: self.target,
            callee: self.callee@,
            params: self.params.deep_view(),
            ret_ty: self.ret_ty@,
            stack_variables: self.stack_variables.deep_view(),
            in_params: self.in_params.deep_view(),
            return_statement: self.return_statement@,
        }
    }
}

/// An entry of the function table: the name of the field and the name of
/// the thunk that it holds.
#[derive(Debug)]
pub struct VtableField {
    pub name: String,
    pub thunk: String,
}

/// The mathematical value of a `VtableField`.
pub struct VtableFieldView {
    pub name: Seq<char>,
    pub thunk: Seq<char>,
}

impl DeepView for VtableField {
    type V = VtableFieldView;

    open spec fn deep_view(&self) -> VtableFieldView {
        VtableFieldView { name: self.name@, thunk: self.thunk@ }
    }
}

/// What is generated for the implementation of an interface by a host type.
#[derive(Debug)]
pub struct Expansion {
    /// The name of the host type.
    pub struct_name: String,
    /// The name of the interface.
    pub interface_name: String,
    /// The name of the function that gives the offset of the interface's
    /// table pointer in the object. Every thunk takes it off the pointer it
    /// receives.
    pub vtable_offset: String,
    /// The thunks, in the order of the table's entries.
    pub thunks: Vec<Thunk>,
    /// The name of the type of the function table.
    pub vtable_struct: String,
    /// The name of the constant that holds the function table.
    pub vtable_instance: String,
    /// The entries of the function table, in order.
    pub vtable_fields: Vec<VtableField>,
}

/// The mathematical value of an `Expansion`.
pub struct ExpansionView {
    pub struct_name: Seq<char>,
    pub interface_name: Seq<char>,
    pub vtable_offset: Seq<char>,
    pub thunks: Seq<ThunkView>,
    pub vtable_struct: Seq<char>,
    pub vtable_instance: Seq<char>,
    pub vtable_fields: Seq<VtableFieldView>,
}

impl DeepView for Expansion {
    type V = ExpansionView;

    open spec fn deep_view(&self) -> ExpansionView {
        ExpansionView {
            struct_name: self.struct_name@,
            interface_name: self.interface_name@,
            vtable_offset: self.vtable_offset@,
            thunks: self.thunks.deep_view(),
            vtable_struct: self.vtable_struct@,
            vtable_instance: self.vtable_instance@,
            vtable_fields: self.vtable_fields.deep_view(),
        }
    }
}

/// The first parameter of every thunk: the pointer that the caller holds.
pub open spec fn spec_self_param() -> ThunkParamView {
    ThunkParamView { name: "self_vtable"@, ty: "::intercom::RawComPtr"@, dir: Direction::In }
}

/// The parameter for an argument: of the wire type where the argument goes
/// in, and a pointer to the wire type where it comes out.
pub open spec fn spec_com_param(arg: ComArgView) -> ThunkParamView {
    ThunkParamView {
        name: arg.arg.name,
        ty: match arg.dir {
            Direction::In => arg.arg.handler.spec_com_ty(arg.arg.ty),
            Direction::Out | Direction::Retval => "*mut "@ + arg.arg.handler.spec_com_ty(
                arg.arg.ty,
            ),
        },
        dir: arg.dir,
    }
}

/// The parameters of the thunk of a method: the table pointer, then one for
/// each argument of the thunk.
pub open spec fn spec_method_params(method: ComMethodInfoView) -> Seq<ThunkParamView> {
    seq![spec_self_param()] + Seq::new(
        method.raw_com_args().len(),
        |i: int| spec_com_param(method.raw_com_args()[i]),
    )
}

/// The statements that store what the conversions of the arguments borrow
/// from, in the order of the arguments.
pub open spec fn spec_stack_variables(args: Seq<RustArgView>) -> Seq<Seq<char>>
    decreases args.len(),
{
    if args.len() == 0 {
        Seq::empty()
    } else {
        let front = spec_stack_variables(args.drop_last());
        match args.last().handler.spec_com_to_rust(args.last().name).stack {
            Some(statement) => front.push(statement),
            None => front,
        }
    }
}

/// The arguments of the host call: the conversion of each argument.
pub open spec fn spec_in_params(args: Seq<RustArgView>) -> Seq<Seq<char>> {
    Seq::new(args.len(), |i: int| args[i].handler.spec_com_to_rust(args[i].name).conversion)
}

/// The thunk of a method.
pub open spec fn spec_method_thunk(
    struct_name: Seq<char>,
    interface_name: Seq<char>,
    method: ComMethodInfoView,
) -> ThunkView {
    ThunkView {
        name: spec_method_impl(struct_name, interface_name, method.name),
        target: if method.is_const {
            ThunkTarget::HostShared
        } else {
            ThunkTarget::HostExclusive
        },
        callee: method.name,
        params: spec_method_params(method),
        ret_ty: method.returnhandler.com_ty(),
        stack_variables: spec_stack_variables(method.args),
        in_params: spec_in_params(method.args),
        return_statement: method.returnhandler.rust_to_com_return("__result"@),
    }
}

/// The thunk that answers a capability query that arrives through the
/// interface's table.
pub open spec fn spec_query_interface_thunk(
    struct_name: Seq<char>,
    interface_name: Seq<char>,
) -> ThunkView {
    ThunkView {
        name: spec_method_impl(struct_name, interface_name, "query_interface"@),
        target: ThunkTarget::ComBox,
        callee: "query_interface"@,
        params: seq![
            spec_self_param(),
            ThunkParamView { name: "riid"@, ty: "::intercom::REFIID"@, dir: Direction::In },
            ThunkParamView {
                name: "out"@,
                ty: "*mut ::intercom::RawComPtr"@,
                dir: Direction::Out,
            },
        ],
        ret_ty: "::intercom::HRESULT"@,
        stack_variables: Seq::empty(),
        in_params: seq!["riid"@, "out"@],
        return_statement: "__result"@,
    }
}

/// The thunk that counts a reference up or down: `add_ref` for up and
/// `release_ptr` for down.
pub open spec fn spec_ref_count_thunk(
    struct_name: Seq<char>,
    interface_name: Seq<char>,
    field: Seq<char>,
    target: ThunkTarget,
    callee: Seq<char>,
) -> ThunkView {
    ThunkView {
        name: spec_method_impl(struct_name, interface_name, field),
        target,
        callee,
        params: seq![spec_self_param()],
        ret_ty: "u32"@,
        stack_variables: Seq::empty(),
        in_params: Seq::empty(),
        return_statement: "__result"@,
    }
}

/// The three thunks of the base protocol, in the order of the table.
pub open spec fn spec_base_thunks(struct_name: Seq<char>, interface_name: Seq<char>) -> Seq<
    ThunkView,
> {
    seq![
        spec_query_interface_thunk(struct_name, interface_name),
        spec_ref_count_thunk(
            struct_name,
            interface_name,
            "add_ref"@,
            ThunkTarget::ComBox,
            "add_ref"@,
        ),
        spec_ref_count_thunk(
            struct_name,
            interface_name,
            "release"@,
            ThunkTarget::ComBoxPtr,
            "release_ptr"@,
        ),
    ]
}

/// What is generated for an implementation: the three thunks of the base
/// protocol and one thunk for each method, in declaration order, and a
/// function table with one entry for each thunk, in the same order.
pub open spec fn spec_expand(imp: ComImplView) -> ExpansionView {
    let thunks = spec_base_thunks(imp.struct_name, imp.interface_name) + Seq::new(
        imp.methods.len(),
        |i: int| spec_method_thunk(imp.struct_name, imp.interface_name, imp.methods[i]),
    );
    ExpansionView {
        struct_name: imp.struct_name,
        interface_name: imp.interface_name,
        vtable_offset: spec_vtable_offset(imp.struct_name, imp.interface_name),
        thunks,
        vtable_struct: spec_vtable_struct(imp.interface_name),
        vtable_instance: spec_vtable_instance(imp.struct_name, imp.interface_name),
        vtable_fields: seq![
            VtableFieldView { name: "query_interface"@, thunk: thunks[0].name },
            VtableFieldView { name: "add_ref"@, thunk: thunks[1].name },
            VtableFieldView { name: "release"@, thunk: thunks[2].name },
        ] + Seq::new(
            imp.methods.len(),
            |i: int| VtableFieldView { name: imp.methods[i].name, thunk: thunks[3 + i].name },
        ),
    }
}

/// The function table of an implementation begins with the three entries of
/// the base protocol, goes on with one entry for each method in declaration
/// order, and its entry at each position holds the thunk at that position.
pub proof fn lemma_vtable_layout(imp: ComImplView)
    ensures
        spec_expand(imp).vtable_fields.len() == 3 + imp.methods.len(),
        spec_expand(imp).thunks.len() == 3 + imp.methods.len(),
        spec_expand(imp).vtable_fields[0].name == "query_interface"@,
        spec_expand(imp).vtable_fields[1].name == "add_ref"@,
        spec_expand(imp).vtable_fields[2].name == "release"@,
        forall|i: int|
            0 <= i < imp.methods.len() ==> (#[trigger] spec_expand(imp).vtable_fields[3 + i]).name
                == imp.methods[i].name,
        forall|k: int|
            0 <= k < 3 + imp.methods.len() ==> (#[trigger] spec_expand(imp).vtable_fields[k]).thunk
                == spec_expand(imp).thunks[k].name,
        forall|k: int|
            0 <= k < 3 + imp.methods.len() ==> (#[trigger] spec_expand(imp).thunks[k]).params.len()
                >= 1 && spec_expand(imp).thunks[k].params[0] == spec_self_param(),
{
}

/// The names of the three entries of the base protocol are names.
pub proof fn lemma_base_names()
    ensures
        spec_is_name("query_interface"@),
        spec_is_name("add_ref"@),
        spec_is_name("release"@),
{
    reveal_strlit("query_interface");
    reveal_strlit("add_ref");
    reveal_strlit("release");
    assert(spec_plain("query_interface"@));
    assert(spec_plain("add_ref"@));
    assert(spec_plain("release"@));
    if spec_reserved("query_interface"@) {
        lemma_reserved_shape("query_interface"@);
    }
    if spec_reserved("add_ref"@) {
        lemma_reserved_shape("add_ref"@);
    }
    if spec_reserved("release"@) {
        lemma_reserved_shape("release"@);
    }
}

/// Every name that is generated for a description that parses is a name:
/// the name of each thunk, the name of each entry of the function table, and
/// the names of the table's type, of its constant and of the function that
/// gives the offset.
pub proof fn lemma_expansion_names(item: ImplItemView)
    ensures
        spec_parse(item) matches Ok(imp) ==> {
            let expansion = spec_expand(imp);
            &&& spec_is_name(expansion.vtable_offset)
            &&& spec_is_name(expansion.vtable_struct)
            &&& spec_is_name(expansion.vtable_instance)
            &&& forall|k: int|
                0 <= k < expansion.thunks.len() ==> spec_is_name(
                    (#[trigger] expansion.thunks[k]).name,
                )
            &&& forall|k: int|
                0 <= k < expansion.vtable_fields.len() ==> spec_is_name(
                    (#[trigger] expansion.vtable_fields[k]).name,
                ) && spec_is_name(expansion.vtable_fields[k].thunk)
        },
{
    match spec_parse(item) {
        Ok(imp) => {
            lemma_parsed_names(item);
            lemma_base_names();
            let expansion = spec_expand(imp);
            let ty = imp.struct_name;
            let itf = imp.interface_name;
            lemma_generated_names(ty, itf, "query_interface"@);
            lemma_generated_names(ty, itf, "add_ref"@);
            lemma_generated_names(ty, itf, "release"@);
            assert forall|k: int| 0 <= k < expansion.thunks.len() implies spec_is_name(
                (#[trigger] expansion.thunks[k]).name,
            ) by {
                if k >= 3 {
                    lemma_generated_names(ty, itf, imp.methods[k - 3].name);
                }
            }
            assert forall|k: int| 0 <= k < expansion.vtable_fields.len() implies spec_is_name(
                (#[trigger] expansion.vtable_fields[k]).name,
            ) && spec_is_name(expansion.vtable_fields[k].thunk) by {
                assert(expansion.vtable_fields[k].thunk == expansion.thunks[k].name);
                if k >= 3 {
                    assert(expansion.vtable_fields[k].name == imp.methods[k - 3].name);
                }
            }
        },
        Err(_) => {},
    }
}

/// The first statement of every thunk: it takes the offset of the
/// interface's table pointer off the pointer that the caller holds, which
/// gives the address of the box.
pub open spec fn spec_recover_statement(struct_name: Seq<char>, vtable_offset: Seq<char>) -> Seq<
    char,
> {
    "let self_combox = (self_vtable as usize - "@ + vtable_offset
        + "()) as *mut ::intercom::ComBox<"@ + struct_name + ">;"@
}

/// The statement that gives the out parameter of that name the zero value of
/// its type.
pub open spec fn spec_zero_statement(name: Seq<char>) -> Seq<char> {
    "*"@ + name + " = ::intercom::ExternDefault::extern_default();"@
}

/// The statements that give every parameter that comes out the zero value
/// of its type, in the order of the parameters.
pub open spec fn spec_zero_statements(params: Seq<ThunkParamView>) -> Seq<Seq<char>>
    decreases params.len(),
{
    if params.len() == 0 {
        Seq::empty()
    } else {
        let front = spec_zero_statements(params.drop_last());
        if params.last().dir == Direction::In {
            front
        } else {
            front.push(spec_zero_statement(params.last().name))
        }
    }
}

/// The statement that borrows the host object from the box, for reading
/// only or for change. A thunk that calls the box itself has none.
pub open spec fn spec_borrow_statement(target: ThunkTarget, interface_name: Seq<char>) -> Option<
    Seq<char>,
> {
    match target {
        ThunkTarget::HostShared => Some(
            "let self_struct: &"@ + interface_name + " = &**self_combox;"@,
        ),
        ThunkTarget::HostExclusive => Some(
            "let self_struct: &mut "@ + interface_name + " = &mut **self_combox;"@,
        ),
        _ => None,
    }
}

/// The statement that makes the call and holds its result in `__result`.
pub open spec fn spec_call_statement(thunk: ThunkView, struct_name: Seq<char>) -> Seq<char> {
    match thunk.target {
        ThunkTarget::ComBox => "let __result = ::intercom::ComBox::<"@ + struct_name + ">::"@
            + thunk.callee + "("@ + spec_join(
            seq!["&mut *self_combox"@] + thunk.in_params,
            ", "@,
        ) + ");"@,
        ThunkTarget::ComBoxPtr => "let __result = ::intercom::ComBox::<"@ + struct_name + ">::"@
            + thunk.callee + "("@ + spec_join(seq!["self_combox"@] + thunk.in_params, ", "@)
            + ");"@,
        _ => "let __result = self_struct."@ + thunk.callee + "("@ + spec_join(
            thunk.in_params,
            ", "@,
        ) + ");"@,
    }
}

/// The body of a thunk, statement by statement, in the order in which they
/// run: get the box back, give every out parameter the zero value of its
/// type, store what the arguments borrow from, borrow the host object, make
/// the call, turn the result into what the thunk returns. A statement that
/// stores what an argument borrows from leaves the thunk with the status of
/// the failure where the argument has no host value, so the call is not made
/// and the out parameters stay zero.
pub open spec fn spec_body(
    thunk: ThunkView,
    struct_name: Seq<char>,
    interface_name: Seq<char>,
    vtable_offset: Seq<char>,
) -> Seq<Seq<char>> {
    seq![spec_recover_statement(struct_name, vtable_offset)] + spec_zero_statements(
        thunk.params,
    ) + thunk.stack_variables + (
    match spec_borrow_statement(thunk.target, interface_name) {
        Some(statement) => seq![statement],
        None => Seq::empty(),
    }) + seq![spec_call_statement(thunk, struct_name), thunk.return_statement]
}

/// The body of every thunk begins with the same statement, which takes the
/// offset of this interface off the pointer that the caller holds; the
/// statements that zero the out parameters come next, before anything that
/// can fail; and the body ends with the call and then the statement that
/// returns.
pub proof fn lemma_body_order(
    thunk: ThunkView,
    struct_name: Seq<char>,
    interface_name: Seq<char>,
    vtable_offset: Seq<char>,
)
    ensures
        ({
            let body = spec_body(thunk, struct_name, interface_name, vtable_offset);
            &&& body.len() >= 3
            &&& body[0] == spec_recover_statement(struct_name, vtable_offset)
            &&& body[body.len() - 2] == spec_call_statement(thunk, struct_name)
            &&& body[body.len() - 1] == thunk.return_statement
            &&& forall|i: int|
                0 <= i < spec_zero_statements(thunk.params).len() ==> #[trigger] body[1 + i]
                    == spec_zero_statements(thunk.params)[i]
            &&& forall|i: int|
                0 <= i < thunk.stack_variables.len() ==> #[trigger] body[1
                    + spec_zero_statements(thunk.params).len() + i] == thunk.stack_variables[i]
        }),
{
}

/// Every parameter that comes out is given the zero value in the body: its
/// statement is among the statements that zero.
pub proof fn lemma_every_out_is_zeroed(params: Seq<ThunkParamView>, i: int)
    requires
        0 <= i < params.len(),
        params[i].dir != Direction::In,
    ensures
        spec_zero_statements(params).contains(spec_zero_statement(params[i].name)),
    decreases params.len(),
{
    let front = spec_zero_statements(params.drop_last());
    if i == params.len() - 1 {
        assert(front.push(spec_zero_statement(params[i].name)).last() == spec_zero_statement(
            params[i].name,
        ));
    } else {
        lemma_every_out_is_zeroed(params.drop_last(), i);
        let k = choose|k: int|
            0 <= k < front.len() && front[k] == spec_zero_statement(params[i].name);
        if params.last().dir != Direction::In {
            assert(front.push(spec_zero_statement(params.last().name))[k] == front[k]);
        }
    }
}

fn clone_texts(texts: &Vec<String>, into: &mut Vec<String>)
    ensures
        final(into).deep_view() == old(into).deep_view() + texts.deep_view(),
{
    let ghost start = into.deep_view();
    let mut i: usize = 0;
    assert(into.deep_view() =~= start + texts.deep_view().take(0));
    while i < texts.len()
        invariant
            i <= texts.len(),
            into.deep_view() == start + texts.deep_view().take(i as int),
        decreases texts.len() - i,
    {
        let ghost before = into.deep_view();
        into.push(texts[i].clone());
        proof {
            assert(into.deep_view() =~= before.push(texts[i as int]@));
            assert(into.deep_view() =~= start + texts.deep_view().take(i + 1));
        }
        i += 1;
    }
    assert(texts.deep_view().take(i as int) =~= texts.deep_view());
}

impl Thunk {
    /// The statement that makes the call and holds its result in
    /// `__result`.
    pub fn call_statement(&self, struct_name: &str) -> (statement: String)
        ensures
            statement@ == spec_call_statement(self.deep_view(), struct_name@),
    {
        match self.target {
            ThunkTarget::ComBox | ThunkTarget::ComBoxPtr => {
                let mut args: Vec<String> = Vec::new();
                match self.target {
                    ThunkTarget::ComBox => {
                        args.push(String::from_str("&mut *self_combox"));
                        assert(args.deep_view() =~= seq!["&mut *self_combox"@]);
                    },
                    _ => {
                        args.push(String::from_str("self_combox"));
                        assert(args.deep_view() =~= seq!["self_combox"@]);
                    },
                }
                clone_texts(&self.in_params, &mut args);
                let mut statement = join3(
                    "let __result = ::intercom::ComBox::<",
                    struct_name,
                    ">::",
                );
                statement.append(self.callee.as_str());
                statement.append("(");
                statement.append(join(&args, ", ").as_str());
                statement.append(");");
                statement
            },
            _ => {
                let mut statement = join3("let __result = self_struct.", self.callee.as_str(), "(");
                statement.append(join(&self.in_params, ", ").as_str());
                statement.append(");");
                statement
            },
        }
    }

    /// The statements that give every parameter that comes out the zero
    /// value of its type.
    pub fn zero_statements(&self) -> (statements: Vec<String>)
        ensures
            statements.deep_view() == spec_zero_statements(self.deep_view().params),
    {
        let ghost params = self.deep_view().params;
        let mut statements: Vec<String> = Vec::new();
        let mut i: usize = 0;
        proof {
            assert(params.take(0) =~= Seq::empty());
            assert(statements.deep_view() =~= Seq::empty());
        }
        while i < self.params.len()
            invariant
                i <= self.params.len(),
                params == self.deep_view().params,
                statements.deep_view() == spec_zero_statements(params.take(i as int)),
            decreases self.params.len() - i,
        {
            let ghost before = statements.deep_view();
            proof {
                assert(params.take(i + 1).drop_last() =~= params.take(i as int));
                assert(params.take(i + 1).last() == self.params[i as int].deep_view());
            }
            match self.params[i].dir {
                Direction::In => {},
                _ => {
                    let statement = join3(
                        "*",
                        self.params[i].name.as_str(),
                        " = ::intercom::ExternDefault::extern_default();",
                    );
                    let ghost text = statement@;
                    statements.push(statement);
                    assert(statements.deep_view() =~= before.push(text));
                },
            }
            i += 1;
        }
        assert(params.take(i as int) =~= params);
        statements
    }

    /// The body of the thunk, statement by statement.
    pub fn body(&self, struct_name: &str, interface_name: &str, vtable_offset: &str) -> (body: Vec<
        String,
    >)
        ensures
            body.deep_view() == spec_body(
                self.deep_view(),
                struct_name@,
                interface_name@,
                vtable_offset@,
            ),
    {
        let mut recover = join3(
            "let self_combox = (self_vtable as usize - ",
            vtable_offset,
            "()) as *mut ::intercom::ComBox<",
        );
        recover.append(struct_name);
        recover.append(">;");
        let mut body: Vec<String> = Vec::new();
        body.push(recover);
        assert(body.deep_view() =~= seq![spec_recover_statement(struct_name@, vtable_offset@)]);
        let zeroes = self.zero_statements();
        clone_texts(&zeroes, &mut body);
        clone_texts(&self.stack_variables, &mut body);
        let ghost before_borrow = body.deep_view();
        match self.target {
            ThunkTarget::HostShared => {
                body.push(join3("let self_struct: &", interface_name, " = &**self_combox;"));
                assert(body.deep_view() =~= before_borrow + seq![
                    spec_borrow_statement(self.target, interface_name@)->0,
                ]);
            },
            ThunkTarget::HostExclusive => {
                body.push(
                    join3("let self_struct: &mut ", interface_name, " = &mut **self_combox;"),
                );
                assert(body.deep_view() =~= before_borrow + seq![
                    spec_borrow_statement(self.target, interface_name@)->0,
                ]);
            },
            _ => {
                assert(body.deep_view() =~= before_borrow + Seq::<Seq<char>>::empty());
            },
        }
        let ghost before_call = body.deep_view();
        let call = self.call_statement(struct_name);
        let ghost call_text = call@;
        body.push(call);
        body.push(self.return_statement.clone());
        assert(body.deep_view() =~= before_call + seq![call_text, self.return_statement@]);
        body
    }
}

impl Expansion {
    /// The body of the thunk at a position, statement by statement.
    pub fn body_of(&self, index: usize) -> (body: Vec<String>)
        requires
            index < self.thunks@.len(),
        ensures
            body.deep_view() == spec_body(
                self.deep_view().thunks[index as int],
                self.struct_name@,
                self.interface_name@,
                self.vtable_offset@,
            ),
    {
        self.thunks[index].body(
            self.struct_name.as_str(),
            self.interface_name.as_str(),
            self.vtable_offset.as_str(),
        )
    }
}

fn self_param() -> (param: ThunkParam)
    ensures
        param.deep_view() == spec_self_param(),
{
    ThunkParam {
        name: String::from_str("self_vtable"),
        ty: String::from_str("::intercom::RawComPtr"),
        dir: Direction::In,
    }
}

fn com_param(arg: &ComArg) -> (param: ThunkParam)
    ensures
        param.deep_view() == spec_com_param(arg.deep_view()),
{
    let com_ty = arg.arg.handler.com_ty(arg.arg.ty.as_str());
    let ty = match arg.dir {
        Direction::In => com_ty,
        Direction::Out | Direction::Retval => join2("*mut ", com_ty.as_str()),
    };
    ThunkParam { name: arg.arg.name.clone(), ty, dir: arg.dir }
}

fn method_params(method: &ComMethodInfo) -> (params: Vec<ThunkParam>)
    ensures
        params.deep_view() == spec_method_params(method.deep_view()),
{
    let com_args = method.raw_com_args();
    let ghost args = method.deep_view().raw_com_args();
    let mut params: Vec<ThunkParam> = Vec::new();
    params.push(self_param());
    let mut i: usize = 0;
    while i < com_args.len()
        invariant
            i <= com_args.len(),
            com_args.deep_view() == args,
            params.deep_view() =~= seq![spec_self_param()] + Seq::new(
                i as nat,
                |k: int| spec_com_param(args[k]),
            ),
        decreases com_args.len() - i,
    {
        let ghost before = params.deep_view();
        let param = com_param(&com_args[i]);
        let ghost last = param.deep_view();
        params.push(param);
        proof {
            assert(args[i as int] == com_args[i as int].deep_view());
            assert(params.deep_view() =~= before.push(last));
        }
        i += 1;
    }
    params
}

fn stack_variables(method: &ComMethodInfo) -> (statements: Vec<String>)
    ensures
        statements.deep_view() == spec_stack_variables(method.deep_view().args),
{
    let ghost args = method.deep_view().args;
    let mut statements: Vec<String> = Vec::new();
    let mut i: usize = 0;
    proof {
        assert(args.take(0) =~= Seq::empty());
        assert(statements.deep_view() =~= Seq::empty());
    }
    while i < method.args.len()
        invariant
            i <= method.args.len(),
            args == method.deep_view().args,
            statements.deep_view() == spec_stack_variables(args.take(i as int)),
        decreases method.args.len() - i,
    {
        let ghost before = statements.deep_view();
        proof {
            assert(args.take(i + 1).drop_last() =~= args.take(i as int));
            assert(args.take(i + 1).last() == method.args[i as int].deep_view());
        }
        let conversion = method.args[i].handler.com_to_rust(method.args[i].name.as_str());
        match conversion.stack {
            Some(statement) => {
                let ghost text = statement@;
                statements.push(statement);
                assert(statements.deep_view() =~= before.push(text));
            },
            None => {},
        }
        i += 1;
    }
    assert(args.take(i as int) =~= args);
    statements
}

fn in_params(method: &ComMethodInfo) -> (conversions: Vec<String>)
    ensures
        conversions.deep_view() == spec_in_params(method.deep_view().args),
{
    let ghost args = method.deep_view().args;
    let mut conversions: Vec<String> = Vec::new();
    let mut i: usize = 0;
    while i < method.args.len()
        invariant
            i <= method.args.len(),
            args == method.deep_view().args,
            conversions.deep_view() =~= Seq::new(
                i as nat,
                |k: int| args[k].handler.spec_com_to_rust(args[k].name).conversion,
            ),
        decreases method.args.len() - i,
    {
        let ghost before = conversions.deep_view();
        let conversion = method.args[i].handler.com_to_rust(method.args[i].name.as_str());
        let ghost last = conversion.conversion@;
        conversions.push(conversion.conversion);
        proof {
            assert(args[i as int] == method.args[i as int].deep_view());
            assert(conversions.deep_view() =~= before.push(last));
        }
        i += 1;
    }
    conversions
}

fn method_thunk(struct_name: &str, interface_name: &str, method: &ComMethodInfo) -> (thunk: Thunk)
    ensures
        thunk.deep_view() == spec_method_thunk(struct_name@, interface_name@, method.deep_view()),
{
    Thunk {
        name: method_impl(struct_name, interface_name, method.name.as_str()),
        target: if method.is_const {
            ThunkTarget::HostShared
        } else {
            ThunkTarget::HostExclusive
        },
        callee: method.name.clone(),
        params: method_params(method),
        ret_ty: method.returnhandler.com_ty(),
        stack_variables: stack_variables(method),
        in_params: in_params(method),
        return_statement: method.returnhandler.rust_to_com_return("__result"),
    }
}

fn query_interface_thunk(struct_name: &str, interface_name: &str) -> (thunk: Thunk)
    ensures
        thunk.deep_view() == spec_query_interface_thunk(struct_name@, interface_name@),
{
    let mut params: Vec<ThunkParam> = Vec::new();
    params.push(self_param());
    params.push(
        ThunkParam {
            name: String::from_str("riid"),
            ty: String::from_str("::intercom::REFIID"),
            dir: Direction::In,
        },
    );
    params.push(
        ThunkParam {
            name: String::from_str("out"),
            ty: String::from_str("*mut ::intercom::RawComPtr"),
            dir: Direction::Out,
        },
    );
    let mut in_params: Vec<String> = Vec::new();
    in_params.push(String::from_str("riid"));
    in_params.push(String::from_str("out"));
    let stack_variables: Vec<String> = Vec::new();
    let thunk = Thunk {
        name: method_impl(struct_name, interface_name, "query_interface"),
        target: ThunkTarget::ComBox,
        callee: String::from_str("query_interface"),
        params,
        ret_ty: String::from_str("::intercom::HRESULT"),
        stack_variables,
        in_params,
        return_statement: String::from_str("__result"),
    };
    proof {
        let spec = spec_query_interface_thunk(struct_name@, interface_name@);
        assert(thunk.deep_view().params =~= spec.params);
        assert(thunk.deep_view().in_params =~= spec.in_params);
        assert(thunk.deep_view().stack_variables =~= spec.stack_variables);
    }
    thunk
}

fn ref_count_thunk(
    struct_name: &str,
    interface_name: &str,
    field: &str,
    target: ThunkTarget,
    callee: &str,
) -> (thunk: Thunk)
    ensures
        thunk.deep_view() == spec_ref_count_thunk(
            struct_name@,
            interface_name@,
            field@,
            target,
            callee@,
        ),
{
    let mut params: Vec<ThunkParam> = Vec::new();
    params.push(self_param());
    let in_params: Vec<String> = Vec::new();
    let stack_variables: Vec<String> = Vec::new();
    let thunk = Thunk {
        name: method_impl(struct_name, interface_name, field),
        target,
        callee: String::from_str(callee),
        params,
        ret_ty: String::from_str("u32"),
        stack_variables,
        in_params,
        return_statement: String::from_str("__result"),
    };
    proof {
        let spec = spec_ref_count_thunk(struct_name@, interface_name@, field@, target, callee@);
        assert(thunk.deep_view().params =~= spec.params);
        assert(thunk.deep_view().in_params =~= spec.in_params);
        assert(thunk.deep_view().stack_variables =~= spec.stack_variables);
    }
    thunk
}

fn vtable_field(name: &str, thunk: &Thunk) -> (field: VtableField)
    ensures
        field.deep_view() == (VtableFieldView { name: name@, thunk: thunk.deep_view().name }),
{
    VtableField { name: String::from_str(name), thunk: thunk.name.clone() }
}

/// Generates the thunks and the function table for an implementation.
pub fn expand(imp: &ComImpl) -> (expansion: Expansion)
    ensures
        expansion.deep_view() == spec_expand(imp.deep_view()),
        expansion.thunks@.len() == 3 + imp.methods@.len(),
        expansion.vtable_fields@.len() == 3 + imp.methods@.len(),
{
    let struct_name = imp.struct_name.as_str();
    let interface_name = imp.interface_name.as_str();
    let ghost view = imp.deep_view();
    let ghost spec = spec_expand(view);

    let query_interface = query_interface_thunk(struct_name, interface_name);
    let add_ref = ref_count_thunk(
        struct_name,
        interface_name,
        "add_ref",
        ThunkTarget::ComBox,
        "add_ref",
    );
    let release = ref_count_thunk(
        struct_name,
        interface_name,
        "release",
        ThunkTarget::ComBoxPtr,
        "release_ptr",
    );

    let mut vtable_fields: Vec<VtableField> = Vec::new();
    vtable_fields.push(vtable_field("query_interface", &query_interface));
    vtable_fields.push(vtable_field("add_ref", &add_ref));
    vtable_fields.push(vtable_field("release", &release));

    let mut thunks: Vec<Thunk> = Vec::new();
    thunks.push(query_interface);
    thunks.push(add_ref);
    thunks.push(release);

    let mut i: usize = 0;
    while i < imp.methods.len()
        invariant
            i <= imp.methods.len(),
            view == imp.deep_view(),
            spec == spec_expand(view),
            struct_name@ == view.struct_name,
            interface_name@ == view.interface_name,
            thunks.deep_view() =~= spec.thunks.take(3 + i),
            vtable_fields.deep_view() =~= spec.vtable_fields.take(3 + i),
        decreases imp.methods.len() - i,
    {
        let ghost thunks_before = thunks.deep_view();
        let ghost fields_before = vtable_fields.deep_view();
        let thunk = method_thunk(struct_name, interface_name, &imp.methods[i]);
        let field = vtable_field(imp.methods[i].name.as_str(), &thunk);
        let ghost last_thunk = thunk.deep_view();
        let ghost last_field = field.deep_view();
        vtable_fields.push(field);
        thunks.push(thunk);
        proof {
            assert(view.methods[i as int] == imp.methods[i as int].deep_view());
            assert(thunks.deep_view() =~= thunks_before.push(last_thunk));
            assert(vtable_fields.deep_view() =~= fields_before.push(last_field));
            assert(spec.thunks[3 + i] == last_thunk);
            assert(spec.vtable_fields[3 + i] == last_field);
        }
        i += 1;
    }
    proof {
        assert(spec.thunks.take(3 + i) =~= spec.thunks);
        assert(spec.vtable_fields.take(3 + i) =~= spec.vtable_fields);
        assert(thunks.deep_view().len() == thunks@.len());
        assert(vtable_fields.deep_view().len() == vtable_fields@.len());
    }
    Expansion {
        struct_name: imp.struct_name.clone(),
        interface_name: imp.interface_name.clone(),
        vtable_offset: vtable_offset(struct_name, interface_name),
        thunks,
        vtable_struct: vtable_struct(interface_name),
        vtable_instance: vtable_instance(struct_name, interface_name),
        vtable_fields,
    }
}

/// Expands the implementation of an interface by a host type: reads the
/// description, then generates the thunks and the function table. Fails
/// where the description is wrong, with what `spec_parse` says of it.
pub fn expand_com_impl(item: &ImplItem) -> (expanded: Result<Expansion, ParseError>)
    ensures
        match spec_parse(item.deep_view()) {
            Ok(imp) => expanded matches Ok(expansion) && expansion.deep_view() == spec_expand(imp),
            Err(e) => expanded matches Err(error) && error == e,
        },
{
    match ComImpl::parse(item) {
        Ok(imp) => Ok(expand(&imp)),
        Err(e) => Err(e),
    }
}

} // verus!
