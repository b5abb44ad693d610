//! The implementation of an interface by a host type: what the front end
//! read from the source, and what the generator works on.

use vstd::prelude::*;
use vstd::string::StrSliceExecFns;
use crate::methodinfo::{ComMethodInfo, ComMethodInfoView, RustArg, RustArgView};
use crate::returnhandlers::{ReturnHandler, ReturnHandlerView};
use crate::tyhandlers::{get_ty_handler, spec_get_ty_handler};

verus! {

/// `syn::Error`: why `syn` could not read a text. It is carried through and
/// never looked into.
#[verifier::external_type_specification]
#[verifier::external_body]
pub struct ExSynError(syn::Error);

/// Whether a character may stand in a name: an ASCII letter, an ASCII digit
/// or `_`.
pub open spec fn spec_name_char(c: char) -> bool {
    ||| 'a' <= c <= 'z'
    ||| 'A' <= c <= 'Z'
    ||| '0' <= c <= '9'
    ||| c == '_'
}

/// Whether a text is made of characters that may stand in a name.
pub open spec fn spec_plain(text: Seq<char>) -> bool {
    forall|i: int| 0 <= i < text.len() ==> spec_name_char(#[trigger] text[i])
}

/// Whether a text is a word that `syn` takes for no identifier: `_` or a
/// word that the language keeps for itself.
pub open spec fn spec_reserved(text: Seq<char>) -> bool {
    ||| text == "_"@
    ||| text == "abstract"@
    ||| text == "as"@
    ||| text == "async"@
    ||| text == "await"@
    ||| text == "become"@
    ||| text == "box"@
    ||| text == "break"@
    ||| text == "const"@
    ||| text == "continue"@
    ||| text == "crate"@
    ||| text == "do"@
    ||| text == "dyn"@
    ||| text == "else"@
    ||| text == "enum"@
    ||| text == "extern"@
    ||| text == "false"@
    ||| text == "final"@
    ||| text == "fn"@
    ||| text == "for"@
    ||| text == "if"@
    ||| text == "impl"@
    ||| text == "in"@
    ||| text == "let"@
    ||| text == "loop"@
    ||| text == "macro"@
    ||| text == "match"@
    ||| text == "mod"@
    ||| text == "move"@
    ||| text == "mut"@
    ||| text == "override"@
    ||| text == "priv"@
    ||| text == "pub"@
    ||| text == "ref"@
    ||| text == "return"@
    ||| text == "Self"@
    ||| text == "self"@
    ||| text == "static"@
    ||| text == "struct"@
    ||| text == "super"@
    ||| text == "trait"@
    ||| text == "true"@
    ||| text == "try"@
    ||| text == "type"@
    ||| text == "typeof"@
    ||| text == "unsafe"@
    ||| text == "unsized"@
    ||| text == "use"@
    ||| text == "virtual"@
    ||| text == "where"@
    ||| text == "while"@
    ||| text == "yield"@
}

/// Whether a text is a name: it is not empty, it is made of ASCII letters,
/// ASCII digits and `_`, it does not begin with a digit, and it is no
/// reserved word.
pub open spec fn spec_is_name(text: Seq<char>) -> bool {
    &&& spec_plain(text)
    &&& text.len() > 0
    &&& !('0' <= text[0] <= '9')
    &&& !spec_reserved(text)
}

/// The name that a text holds: the text itself where it is a name.
pub open spec fn spec_read_name(text: Seq<char>) -> Option<Seq<char>> {
    if spec_is_name(text) {
        Some(text)
    } else {
        None
    }
}

/// Calls `syn::parse_str::<syn::Ident>` and, where it succeeds,
/// `to_string` on the identifier, on a text made of ASCII letters, ASCII
/// digits and `_` only. The contract claims what `syn` does with such a
/// text: it reads an identifier where the text is not empty, does not begin
/// with a digit and is none of the words that `syn` refuses, and the
/// identifier is then written as the text; it fails on every other such
/// text.
#[verifier::external_body]
fn parse_ident(text: &str) -> (parsed: Result<String, syn::Error>)
    requires
        spec_plain(text@),
    ensures
        match parsed {
            Ok(name) => spec_is_name(text@) && name@ == text@,
            Err(_) => !spec_is_name(text@),
        },
{
    match syn::parse_str::<syn::Ident>(text) {
        Ok(ident) => Ok(ident.to_string()),
        Err(error) => Err(error),
    }
}

/// What is wrong with the description of an implementation.
#[derive(Debug, Clone, Copy, PartialEq, Eq, Structural, Hash)]
pub enum ParseError {
    /// The name of the host type is no name.
    StructName,
    /// The name of the interface is no name.
    InterfaceName,
    /// The name of the method at this position is no name.
    MethodName { method: usize },
    /// The name of the argument at this position is no name.
    ArgName { method: usize, arg: usize },
    /// There is no marshaling contract for the type of the argument.
    ArgType { method: usize, arg: usize },
    /// There is no marshaling contract for the type of the result.
    ReturnType { method: usize },
}

/// An argument as the source declares it.
#[derive(Debug)]
pub struct ArgSig {
    pub name: String,
    pub ty: String,
}

/// The mathematical value of an `ArgSig`.
pub struct ArgSigView {
    pub name: Seq<char>,
    pub ty: Seq<char>,
}

impl DeepView for ArgSig {
    type V = ArgSigView;

    open spec fn deep_view(&self) -> ArgSigView {
        ArgSigView { name: self.name@, ty: self.ty@ }
    }
}

/// The result of a method as the source declares it.
#[derive(Debug)]
pub enum ReturnSig {
    /// The method returns nothing.
    Void,
    /// The method returns a value of this type.
    Value(String),
    /// The method returns a value of this type, or fails.
    Fallible(String),
}

/// The mathematical value of a `ReturnSig`.
pub enum ReturnSigView {
    Void,
    Value(Seq<char>),
    Fallible(Seq<char>),
}

impl DeepView for ReturnSig {
    type V = ReturnSigView;

    open spec fn deep_view(&self) -> ReturnSigView {
        match self {
            ReturnSig::Void => ReturnSigView::Void,
            ReturnSig::Value(ty) => ReturnSigView::Value(ty@),
            ReturnSig::Fallible(ty) => ReturnSigView::Fallible(ty@),
        }
    }
}

/// A method as the source declares it.
#[derive(Debug)]
pub struct MethodSig {
    pub name: String,
    /// Whether the method takes the host object by shared reference.
    pub is_const: bool,
    pub args: Vec<ArgSig>,
    pub ret: ReturnSig,
}

/// The mathematical value of a `MethodSig`.
pub struct MethodSigView {
    pub name: Seq<char>,
    pub is_const: bool,
    pub args: Seq<ArgSigView>,
    pub ret: ReturnSigView,
}

impl DeepView for MethodSig {
    type V = MethodSigView;

    open spec fn deep_view(&self) -> MethodSigView {
        MethodSigView {
            name: self.name@,
            is_const: self.is_const,
            args: self.args.deep_view(),
            ret: self.ret.deep_view(),
        }
    }
}

/// An implementation block as the source declares it.
#[derive(Debug)]
pub struct ImplItem {
    pub struct_name: String,
    pub interface_name: String,
    pub methods: Vec<MethodSig>,
}

/// The mathematical value of an `ImplItem`.
pub struct ImplItemView {
    pub struct_name: Seq<char>,
    pub interface_name: Seq<char>,
    pub methods: Seq<MethodSigView>,
}

impl DeepView for ImplItem {
    type V = ImplItemView;

    open spec fn deep_view(&self) -> ImplItemView {
        ImplItemView {
            struct_name: self.struct_name@,
            interface_name: self.interface_name@,
            methods: self.methods.deep_view(),
        }
    }
}

/// The implementation of an interface by a host type.
#[derive(Debug)]
pub struct ComImpl {
    pub struct_name: String,
    pub interface_name: String,
    pub methods: Vec<ComMethodInfo>,
}

/// The mathematical value of a `ComImpl`.
pub struct ComImplView {
    pub struct_name: Seq<char>,
    pub interface_name: Seq<char>,
    pub methods: Seq<ComMethodInfoView>,
}

impl DeepView for ComImpl {
    type V = ComImplView;

    open spec fn deep_view(&self) -> ComImplView {
        ComImplView {
            struct_name: self.struct_name@,
            interface_name: self.interface_name@,
            methods: self.methods.deep_view(),
        }
    }
}

/// The argument at position `arg` of the method at position `method`, with
/// the contract of its type; or what is wrong with it, the name before the
/// type.
pub open spec fn spec_parse_arg(sig: ArgSigView, method: int, arg: int) -> Result<
    RustArgView,
    ParseError,
> {
    match spec_read_name(sig.name) {
        None => Err(ParseError::ArgName { method: method as usize, arg: arg as usize }),
        Some(name) => match spec_get_ty_handler(sig.ty) {
            None => Err(ParseError::ArgType { method: method as usize, arg: arg as usize }),
            Some(handler) => Ok(RustArgView { name, ty: sig.ty, handler }),
        },
    }
}

/// The arguments of the method at position `method`, or what is wrong with
/// the first argument that something is wrong with.
pub open spec fn spec_parse_args(args: Seq<ArgSigView>, method: int) -> Result<
    Seq<RustArgView>,
    ParseError,
>
    decreases args.len(),
{
    if args.len() == 0 {
        Ok(Seq::empty())
    } else {
        match spec_parse_args(args.drop_last(), method) {
            Err(e) => Err(e),
            Ok(front) => match spec_parse_arg(args.last(), method, args.len() - 1) {
                Err(e) => Err(e),
                Ok(last) => Ok(front.push(last)),
            },
        }
    }
}

/// How the result of the method at position `method` crosses the boundary.
pub open spec fn spec_parse_return(sig: ReturnSigView, method: int) -> Result<
    ReturnHandlerView,
    ParseError,
> {
    match sig {
        ReturnSigView::Void => Ok(ReturnHandlerView::Void),
        ReturnSigView::Value(ty) => match spec_get_ty_handler(ty) {
            None => Err(ParseError::ReturnType { method: method as usize }),
            Some(handler) => Ok(ReturnHandlerView::ReturnOnly { ty, handler }),
        },
        ReturnSigView::Fallible(ty) => match spec_get_ty_handler(ty) {
            None => Err(ParseError::ReturnType { method: method as usize }),
            Some(handler) => Ok(ReturnHandlerView::ErrorResult { retval_ty: ty, handler }),
        },
    }
}

/// The method at position `method`, or what is wrong with it: the name
/// first, then the arguments in order, then the result.
pub open spec fn spec_parse_method(sig: MethodSigView, method: int) -> Result<
    ComMethodInfoView,
    ParseError,
> {
    match spec_read_name(sig.name) {
        None => Err(ParseError::MethodName { method: method as usize }),
        Some(name) => match spec_parse_args(sig.args, method) {
            Err(e) => Err(e),
            Ok(args) => match spec_parse_return(sig.ret, method) {
                Err(e) => Err(e),
                Ok(returnhandler) => Ok(
                    ComMethodInfoView { name, is_const: sig.is_const, args, returnhandler },
                ),
            },
        },
    }
}

/// The methods, or what is wrong with the first method that something is
/// wrong with.
pub open spec fn spec_parse_methods(methods: Seq<MethodSigView>) -> Result<
    Seq<ComMethodInfoView>,
    ParseError,
>
    decreases methods.len(),
{
    if methods.len() == 0 {
        Ok(Seq::empty())
    } else {
        match spec_parse_methods(methods.drop_last()) {
            Err(e) => Err(e),
            Ok(front) => match spec_parse_method(methods.last(), methods.len() - 1) {
                Err(e) => Err(e),
                Ok(last) => Ok(front.push(last)),
            },
        }
    }
}

/// The implementation that a description stands for, or what is wrong with
/// it: the name of the host type first, then the name of the interface, then
/// the methods in order.
pub open spec fn spec_parse(item: ImplItemView) -> Result<ComImplView, ParseError> {
    match spec_read_name(item.struct_name) {
        None => Err(ParseError::StructName),
        Some(struct_name) => match spec_read_name(item.interface_name) {
            None => Err(ParseError::InterfaceName),
            Some(interface_name) => match spec_parse_methods(item.methods) {
                Err(e) => Err(e),
                Ok(methods) => Ok(ComImplView { struct_name, interface_name, methods }),
            },
        },
    }
}

/// A reserved word has at most eight characters; one of seven begins with
/// `u` or `v`; and only the one of one character begins with `_`.
pub proof fn lemma_reserved_shape(text: Seq<char>)
    requires
        spec_reserved(text),
    ensures
        1 <= text.len() <= 8,
        text.len() == 7 ==> text[0] == 'u' || text[0] == 'v',
        text[0] == '_' ==> text.len() == 1,
{
    reveal_strlit("_");
    reveal_strlit("abstract");
    reveal_strlit("as");
    reveal_strlit("async");
    reveal_strlit("await");
    reveal_strlit("become");
    reveal_strlit("box");
    reveal_strlit("break");
    reveal_strlit("const");
    reveal_strlit("continue");
    reveal_strlit("crate");
    reveal_strlit("do");
    reveal_strlit("dyn");
    reveal_strlit("else");
    reveal_strlit("enum");
    reveal_strlit("extern");
    reveal_strlit("false");
    reveal_strlit("final");
    reveal_strlit("fn");
    reveal_strlit("for");
    reveal_strlit("if");
    reveal_strlit("impl");
    reveal_strlit("in");
    reveal_strlit("let");
    reveal_strlit("loop");
    reveal_strlit("macro");
    reveal_strlit("match");
    reveal_strlit("mod");
    reveal_strlit("move");
    reveal_strlit("mut");
    reveal_strlit("override");
    reveal_strlit("priv");
    reveal_strlit("pub");
    reveal_strlit("ref");
    reveal_strlit("return");
    reveal_strlit("Self");
    reveal_strlit("self");
    reveal_strlit("static");
    reveal_strlit("struct");
    reveal_strlit("super");
    reveal_strlit("trait");
    reveal_strlit("true");
    reveal_strlit("try");
    reveal_strlit("type");
    reveal_strlit("typeof");
    reveal_strlit("unsafe");
    reveal_strlit("unsized");
    reveal_strlit("use");
    reveal_strlit("virtual");
    reveal_strlit("where");
    reveal_strlit("while");
    reveal_strlit("yield");
    assert("_"@.len() == 1 && "_"@[0] == '_');
    assert("abstract"@.len() == 8 && "abstract"@[0] == 'a');
    assert("as"@.len() == 2 && "as"@[0] == 'a');
    assert("async"@.len() == 5 && "async"@[0] == 'a');
    assert("await"@.len() == 5 && "await"@[0] == 'a');
    assert("become"@.len() == 6 && "become"@[0] == 'b');
    assert("box"@.len() == 3 && "box"@[0] == 'b');
    assert("break"@.len() == 5 && "break"@[0] == 'b');
    assert("const"@.len() == 5 && "const"@[0] == 'c');
    assert("continue"@.len() == 8 && "continue"@[0] == 'c');
    assert("crate"@.len() == 5 && "crate"@[0] == 'c');
    assert("do"@.len() == 2 && "do"@[0] == 'd');
    assert("dyn"@.len() == 3 && "dyn"@[0] == 'd');
    assert("else"@.len() == 4 && "else"@[0] == 'e');
    assert("enum"@.len() == 4 && "enum"@[0] == 'e');
    assert("extern"@.len() == 6 && "extern"@[0] == 'e');
    assert("false"@.len() == 5 && "false"@[0] == 'f');
    assert("final"@.len() == 5 && "final"@[0] == 'f');
    assert("fn"@.len() == 2 && "fn"@[0] == 'f');
    assert("for"@.len() == 3 && "for"@[0] == 'f');
    assert("if"@.len() == 2 && "if"@[0] == 'i');
    assert("impl"@.len() == 4 && "impl"@[0] == 'i');
    assert("in"@.len() == 2 && "in"@[0] == 'i');
    assert("let"@.len() == 3 && "let"@[0] == 'l');
    assert("loop"@.len() == 4 && "loop"@[0] == 'l');
    assert("macro"@.len() == 5 && "macro"@[0] == 'm');
    assert("match"@.len() == 5 && "match"@[0] == 'm');
    assert("mod"@.len() == 3 && "mod"@[0] == 'm');
    assert("move"@.len() == 4 && "move"@[0] == 'm');
    assert("mut"@.len() == 3 && "mut"@[0] == 'm');
    assert("override"@.len() == 8 && "override"@[0] == 'o');
    assert("priv"@.len() == 4 && "priv"@[0] == 'p');
    assert("pub"@.len() == 3 && "pub"@[0] == 'p');
    assert("ref"@.len() == 3 && "ref"@[0] == 'r');
    assert("return"@.len() == 6 && "return"@[0] == 'r');
    assert("Self"@.len() == 4 && "Self"@[0] == 'S');
    assert("self"@.len() == 4 && "self"@[0] == 's');
    assert("static"@.len() == 6 && "static"@[0] == 's');
    assert("struct"@.len() == 6 && "struct"@[0] == 's');
    assert("super"@.len() == 5 && "super"@[0] == 's');
    assert("trait"@.len() == 5 && "trait"@[0] == 't');
    assert("true"@.len() == 4 && "true"@[0] == 't');
    assert("try"@.len() == 3 && "try"@[0] == 't');
    assert("type"@.len() == 4 && "type"@[0] == 't');
    assert("typeof"@.len() == 6 && "typeof"@[0] == 't');
    assert("unsafe"@.len() == 6 && "unsafe"@[0] == 'u');
    assert("unsized"@.len() == 7 && "unsized"@[0] == 'u');
    assert("use"@.len() == 3 && "use"@[0] == 'u');
    assert("virtual"@.len() == 7 && "virtual"@[0] == 'v');
    assert("where"@.len() == 5 && "where"@[0] == 'w');
    assert("while"@.len() == 5 && "while"@[0] == 'w');
    assert("yield"@.len() == 5 && "yield"@[0] == 'y');
}

/// The methods that are read are as many as were declared, and the name of
/// each is a name.
pub proof fn lemma_parsed_methods(methods: Seq<MethodSigView>)
    ensures
        spec_parse_methods(methods) matches Ok(parsed) ==> parsed.len() == methods.len()
            && forall|i: int| 0 <= i < parsed.len() ==> spec_is_name(#[trigger] parsed[i].name),
    decreases methods.len(),
{
    if methods.len() > 0 {
        lemma_parsed_methods(methods.drop_last());
    }
}

/// The names of an implementation that was read are names: that of the host
/// type, that of the interface and that of every method.
pub proof fn lemma_parsed_names(item: ImplItemView)
    ensures
        spec_parse(item) matches Ok(imp) ==> {
            &&& spec_is_name(imp.struct_name)
            &&& spec_is_name(imp.interface_name)
            &&& imp.methods.len() == item.methods.len()
            &&& forall|i: int|
                0 <= i < imp.methods.len() ==> spec_is_name(#[trigger] imp.methods[i].name)
        },
{
    lemma_parsed_methods(item.methods);
}

/// Whether a character may stand in a name.
pub fn is_name_char(c: char) -> (yes: bool)
    ensures
        yes == spec_name_char(c),
{
    (c >= 'a' && c <= 'z') || (c >= 'A' && c <= 'Z') || (c >= '0' && c <= '9') || c == '_'
}

/// Whether a text is made of characters that may stand in a name.
pub fn is_plain(text: &str) -> (yes: bool)
    ensures
        yes == spec_plain(text@),
{
    let len = text.unicode_len();
    let mut i: usize = 0;
    while i < len
        invariant
            i <= len,
            len == text@.len(),
            forall|k: int| 0 <= k < i ==> spec_name_char(#[trigger] text@[k]),
        decreases len - i,
    {
        if !is_name_char(text.get_char(i)) {
            return false;
        }
        i += 1;
    }
    true
}

/// The name that a text holds: the text itself, where it is made of ASCII
/// letters, ASCII digits and `_` and `syn` reads it as an identifier; `None`
/// for every other text.
pub fn parse_name(text: &str) -> (name: Option<String>)
    ensures
        name.deep_view() == spec_read_name(text@),
{
    if !is_plain(text) {
        return None;
    }
    match parse_ident(text) {
        Ok(name) => Some(name),
        Err(_) => None,
    }
}

fn parse_arg(sig: &ArgSig, method: usize, arg: usize) -> (parsed: Result<RustArg, ParseError>)
    ensures
        match parsed {
            Ok(a) => spec_parse_arg(sig.deep_view(), method as int, arg as int) == Ok::<
                RustArgView,
                ParseError,
            >(a.deep_view()),
            Err(e) => spec_parse_arg(sig.deep_view(), method as int, arg as int) == Err::<
                RustArgView,
                ParseError,
            >(e),
        },
{
    match parse_name(sig.name.as_str()) {
        None => Err(ParseError::ArgName { method, arg }),
        Some(name) => match get_ty_handler(sig.ty.as_str()) {
            None => Err(ParseError::ArgType { method, arg }),
            Some(handler) => Ok(RustArg { name, ty: sig.ty.clone(), handler }),
        },
    }
}

fn parse_return(sig: &ReturnSig, method: usize) -> (parsed: Result<ReturnHandler, ParseError>)
    ensures
        match parsed {
            Ok(r) => spec_parse_return(sig.deep_view(), method as int) == Ok::<
                ReturnHandlerView,
                ParseError,
            >(r.deep_view()),
            Err(e) => spec_parse_return(sig.deep_view(), method as int) == Err::<
                ReturnHandlerView,
                ParseError,
            >(e),
        },
{
    match sig {
        ReturnSig::Void => Ok(ReturnHandler::Void),
        ReturnSig::Value(ty) => match get_ty_handler(ty.as_str()) {
            None => Err(ParseError::ReturnType { method }),
            Some(handler) => Ok(ReturnHandler::ReturnOnly { ty: ty.clone(), handler }),
        },
        ReturnSig::Fallible(ty) => match get_ty_handler(ty.as_str()) {
            None => Err(ParseError::ReturnType { method }),
            Some(handler) => Ok(ReturnHandler::ErrorResult { retval_ty: ty.clone(), handler }),
        },
    }
}

fn parse_method(sig: &MethodSig, method: usize) -> (parsed: Result<ComMethodInfo, ParseError>)
    ensures
        match parsed {
            Ok(m) => spec_parse_method(sig.deep_view(), method as int) == Ok::<
                ComMethodInfoView,
                ParseError,
            >(m.deep_view()),
            Err(e) => spec_parse_method(sig.deep_view(), method as int) == Err::<
                ComMethodInfoView,
                ParseError,
            >(e),
        },
{
    let name = match parse_name(sig.name.as_str()) {
        None => { return Err(ParseError::MethodName { method }); },
        Some(name) => name,
    };
    let ghost sigs = sig.deep_view().args;
    let mut args: Vec<RustArg> = Vec::new();
    let mut i: usize = 0;
    proof {
        assert(sigs.take(0) =~= Seq::empty());
        assert(args.deep_view() =~= Seq::empty());
    }
    while i < sig.args.len()
        invariant
            i <= sig.args.len(),
            sigs == sig.deep_view().args,
            sigs.len() == sig.args.len(),
            spec_read_name(sig.name@) == Some(name@),
            spec_parse_args(sigs.take(i as int), method as int) == Ok::<
                Seq<RustArgView>,
                ParseError,
            >(args.deep_view()),
        decreases sig.args.len() - i,
    {
        let ghost before = args.deep_view();
        proof {
            assert(sigs.take(i + 1).drop_last() =~= sigs.take(i as int));
            assert(sigs.take(i + 1).last() == sig.args[i as int].deep_view());
        }
        match parse_arg(&sig.args[i], method, i) {
            Err(e) => {
                proof {
                    assert(spec_parse_args(sigs.take(i + 1), method as int) == Err::<
                        Seq<RustArgView>,
                        ParseError,
                    >(e));
                    lemma_parse_args_error(sigs, method as int, i + 1);
                }
                return Err(e);
            },
            Ok(arg) => {
                let ghost last = arg.deep_view();
                args.push(arg);
                assert(args.deep_view() =~= before.push(last));
            },
        }
        i += 1;
    }
    assert(sigs.take(i as int) =~= sigs);
    match parse_return(&sig.ret, method) {
        Err(e) => Err(e),
        Ok(returnhandler) => Ok(ComMethodInfo { name, is_const: sig.is_const, args, returnhandler }),
    }
}

/// What is wrong with the first arguments is wrong with all of them.
proof fn lemma_parse_args_error(args: Seq<ArgSigView>, method: int, n: int)
    requires
        0 <= n <= args.len(),
        spec_parse_args(args.take(n), method) is Err,
    ensures
        spec_parse_args(args, method) == spec_parse_args(args.take(n), method),
    decreases args.len() - n,
{
    if n < args.len() {
        assert(args.take(n + 1).drop_last() =~= args.take(n));
        lemma_parse_args_error(args, method, n + 1);
    } else {
        assert(args.take(n) =~= args);
    }
}

/// What is wrong with the first methods is wrong with all of them.
proof fn lemma_parse_methods_error(methods: Seq<MethodSigView>, n: int)
    requires
        0 <= n <= methods.len(),
        spec_parse_methods(methods.take(n)) is Err,
    ensures
        spec_parse_methods(methods) == spec_parse_methods(methods.take(n)),
    decreases methods.len() - n,
{
    if n < methods.len() {
        assert(methods.take(n + 1).drop_last() =~= methods.take(n));
        lemma_parse_methods_error(methods, n + 1);
    } else {
        assert(methods.take(n) =~= methods);
    }
}

impl ComImpl {
    /// Reads the description of an implementation: holds each name to the
    /// rules for names and finds the contract of each type. Fails on the
    /// first thing that is wrong, in the order of `spec_parse`.
    pub fn parse(item: &ImplItem) -> (parsed: Result<ComImpl, ParseError>)
        ensures
            match parsed {
                Ok(imp) => spec_parse(item.deep_view()) == Ok::<ComImplView, ParseError>(
                    imp.deep_view(),
                ),
                Err(e) => spec_parse(item.deep_view()) == Err::<ComImplView, ParseError>(e),
            },
    {
        let struct_name = match parse_name(item.struct_name.as_str()) {
            None => { return Err(ParseError::StructName); },
            Some(name) => name,
        };
        let interface_name = match parse_name(item.interface_name.as_str()) {
            None => { return Err(ParseError::InterfaceName); },
            Some(name) => name,
        };
        let ghost sigs = item.deep_view().methods;
        let mut methods: Vec<ComMethodInfo> = Vec::new();
        let mut i: usize = 0;
        proof {
            assert(sigs.take(0) =~= Seq::empty());
            assert(methods.deep_view() =~= Seq::empty());
        }
        while i < item.methods.len()
            invariant
                i <= item.methods.len(),
                sigs == item.deep_view().methods,
                sigs.len() == item.methods.len(),
                spec_read_name(item.struct_name@) == Some(struct_name@),
                spec_read_name(item.interface_name@) == Some(interface_name@),
                spec_parse_methods(sigs.take(i as int)) == Ok::<
                    Seq<ComMethodInfoView>,
                    ParseError,
                >(methods.deep_view()),
            decreases item.methods.len() - i,
        {
            let ghost before = methods.deep_view();
            proof {
                assert(sigs.take(i + 1).drop_last() =~= sigs.take(i as int));
                assert(sigs.take(i + 1).last() == item.methods[i as int].deep_view());
            }
            match parse_method(&item.methods[i], i) {
                Err(e) => {
                    proof {
                        assert(spec_parse_methods(sigs.take(i + 1)) == Err::<
                            Seq<ComMethodInfoView>,
                            ParseError,
                        >(e));
                        lemma_parse_methods_error(sigs, i + 1);
                    }
                    return Err(e);
                },
                Ok(method) => {
                    let ghost last = method.deep_view();
                    methods.push(method);
                    assert(methods.deep_view() =~= before.push(last));
                },
            }
            i += 1;
        }
        assert(sigs.take(i as int) =~= sigs);
        Ok(ComImpl { struct_name, interface_name, methods })
    }

    /// The name of the host type.
    pub fn struct_name(&self) -> (name: &String)
        ensures
            name == self.struct_name,
    {
        &self.struct_name
    }

    /// The name of the interface.
    pub fn interface_name(&self) -> (name: &String)
        ensures
            name == self.interface_name,
    {
        &self.interface_name
    }

    /// The methods, in declaration order.
    pub fn methods(&self) -> (methods: &Vec<ComMethodInfo>)
        ensures
            methods == self.methods,
    {
        &self.methods
    }
}

} // verus!
