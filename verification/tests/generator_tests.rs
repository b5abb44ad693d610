use intercom::com_impl::{expand, expand_com_impl, Expansion, Thunk, ThunkParam, ThunkTarget};
use intercom::idents::{method_impl, vtable_instance, vtable_offset, vtable_struct};
use intercom::methodinfo::{ComMethodInfo, Direction, RustArg};
use intercom::model::{
    is_name_char, is_plain, parse_name, ArgSig, ComImpl, ImplItem, MethodSig, ParseError, ReturnSig,
};
use intercom::returnhandlers::ReturnHandler;
use intercom::text::{join, join2, join3, str_eq};
use intercom::tyhandlers::{get_ty_handler, is_identity_type, is_text_type, TypeHandler};

fn arg(name: &str, ty: &str) -> ArgSig {
    ArgSig { name: name.to_string(), ty: ty.to_string() }
}

fn method(name: &str, is_const: bool, args: Vec<ArgSig>, ret: ReturnSig) -> MethodSig {
    MethodSig { name: name.to_string(), is_const, args, ret }
}

fn item(methods: Vec<MethodSig>) -> ImplItem {
    ImplItem { struct_name: "Foo".to_string(), interface_name: "IFoo".to_string(), methods }
}

fn params(expansion: &Expansion, thunk: usize) -> Vec<(String, String)> {
    expansion.thunks[thunk].params.iter().map(|p| (p.name.clone(), p.ty.clone())).collect()
}

fn pair(name: &str, ty: &str) -> (String, String) {
    (name.to_string(), ty.to_string())
}

#[test]
fn text_helpers() {
    assert!(str_eq("abc", "abc"));
    assert!(!str_eq("abc", "abd"));
    assert!(!str_eq("abc", "ab"));
    assert!(str_eq("", ""));
    assert_eq!(join2("ab", "cd"), "abcd");
    assert_eq!(join3("a", "", "c"), "ac");
}

#[test]
fn generated_names() {
    assert_eq!(vtable_struct("IFoo"), "__IFooVtbl");
    assert_eq!(vtable_instance("Foo", "IFoo"), "__Foo_IFooVtbl_INSTANCE");
    assert_eq!(vtable_offset("Foo", "IFoo"), "__Foo_IFooVtbl_offset");
    assert_eq!(method_impl("Foo", "IFoo", "bar"), "__Foo_IFoo_bar");
    assert_eq!(method_impl("", "", ""), "____");
}

#[test]
fn handlers_by_type_name() {
    assert_eq!(get_ty_handler("u32"), Some(TypeHandler::Identity));
    assert_eq!(get_ty_handler("f32"), Some(TypeHandler::Identity));
    assert_eq!(get_ty_handler("f64"), Some(TypeHandler::Identity));
    assert_eq!(get_ty_handler("()"), Some(TypeHandler::Identity));
    assert_eq!(get_ty_handler("HRESULT"), Some(TypeHandler::Identity));
    assert_eq!(get_ty_handler("GUID"), Some(TypeHandler::Identity));
    assert_eq!(get_ty_handler("TypeSystemName"), Some(TypeHandler::Identity));
    assert_eq!(get_ty_handler("RawComPtr"), Some(TypeHandler::Identity));
    assert_eq!(get_ty_handler("String"), Some(TypeHandler::Text));
    assert_eq!(get_ty_handler("str"), Some(TypeHandler::Text));
    assert_eq!(get_ty_handler("BString"), Some(TypeHandler::Text));
    assert_eq!(get_ty_handler("BStr"), Some(TypeHandler::Text));
    assert_eq!(get_ty_handler("ComItf"), Some(TypeHandler::ComItf));
    assert_eq!(get_ty_handler("Widget"), None);
    assert_eq!(get_ty_handler(""), None);
    assert_eq!(get_ty_handler("U32"), None);
}

#[test]
fn identity_and_text_types() {
    for ty in [
        "()", "i8", "i16", "i32", "i64", "isize", "u8", "u16", "u32", "u64", "usize", "f32",
        "f64", "bool", "HRESULT", "GUID", "TypeSystemName", "RawComPtr",
    ] {
        assert!(is_identity_type(ty));
        assert!(!is_text_type(ty));
    }
    for ty in ["BString", "BStr", "String", "str"] {
        assert!(is_text_type(ty));
        assert!(!is_identity_type(ty));
    }
    assert!(!is_identity_type("ComItf"));
    assert!(!is_text_type("ComItf"));
}

#[test]
fn wire_types() {
    assert_eq!(TypeHandler::Identity.com_ty("u32"), "u32");
    assert_eq!(TypeHandler::ComItf.com_ty("ComItf"), "::intercom::RawComPtr");
    assert_eq!(TypeHandler::Text.com_ty("String"), "::intercom::BSTR");
}

#[test]
fn conversions_from_the_wire() {
    let c = TypeHandler::Identity.com_to_rust("a");
    assert_eq!(c.conversion, "a.into()");
    assert_eq!(c.stack, None);
    let c = TypeHandler::ComItf.com_to_rust("itf");
    assert_eq!(c.conversion, "::intercom::ComItf::wrap(itf)");
    assert_eq!(c.stack, None);
    let c = TypeHandler::Text.com_to_rust("s");
    assert_eq!(c.conversion, "&__s_temporary");
    assert_eq!(
        c.stack,
        Some("let __s_temporary = match ::intercom::BStr::to_string(s) { Ok(v) => v, Err(e) => return e.into() };".to_string())
    );
}

#[test]
fn conversions_to_the_wire() {
    assert_eq!(TypeHandler::Identity.rust_to_com("r"), "r.into()");
    assert_eq!(TypeHandler::ComItf.rust_to_com("r"), "::intercom::ComItf::ptr(&r)");
    assert_eq!(TypeHandler::Text.rust_to_com("r"), "::intercom::BStr::from_string(&r)");
}

#[test]
fn return_types() {
    assert_eq!(ReturnHandler::Void.com_ty(), "()");
    let value = ReturnHandler::ReturnOnly { ty: "u16".to_string(), handler: TypeHandler::Identity };
    assert_eq!(value.com_ty(), "u16");
    let text = ReturnHandler::ReturnOnly { ty: "String".to_string(), handler: TypeHandler::Text };
    assert_eq!(text.com_ty(), "::intercom::BSTR");
    let fallible =
        ReturnHandler::ErrorResult { retval_ty: "u16".to_string(), handler: TypeHandler::Identity };
    assert_eq!(fallible.com_ty(), "::intercom::HRESULT");
}

#[test]
fn out_arguments() {
    assert!(ReturnHandler::Void.com_out_args().is_empty());
    let value = ReturnHandler::ReturnOnly { ty: "u16".to_string(), handler: TypeHandler::Identity };
    assert!(value.com_out_args().is_empty());
    let fallible =
        ReturnHandler::ErrorResult { retval_ty: "String".to_string(), handler: TypeHandler::Text };
    let outs = fallible.com_out_args();
    assert_eq!(outs.len(), 1);
    assert_eq!(outs[0].arg.name, "__out");
    assert_eq!(outs[0].arg.ty, "String");
    assert_eq!(outs[0].arg.handler, TypeHandler::Text);
    assert_eq!(outs[0].dir, Direction::Retval);
}

#[test]
fn return_statements() {
    assert_eq!(ReturnHandler::Void.rust_to_com_return("__result"), "__result");
    let value = ReturnHandler::ReturnOnly { ty: "u16".to_string(), handler: TypeHandler::Identity };
    assert_eq!(value.rust_to_com_return("__result"), "__result.into()");
    let fallible =
        ReturnHandler::ErrorResult { retval_ty: "u16".to_string(), handler: TypeHandler::Identity };
    assert_eq!(
        fallible.rust_to_com_return("__result"),
        "match __result { Ok(v) => { *__out = v.into(); ::intercom::S_OK } Err(e) => { *__out = ::intercom::ExternDefault::extern_default(); e.into() } }"
    );
}

#[test]
fn raw_com_args_are_inputs_then_outputs() {
    let info = ComMethodInfo {
        name: "m".to_string(),
        is_const: true,
        args: vec![
            RustArg { name: "a".to_string(), ty: "u32".to_string(), handler: TypeHandler::Identity },
            RustArg { name: "b".to_string(), ty: "str".to_string(), handler: TypeHandler::Text },
        ],
        returnhandler: ReturnHandler::ErrorResult {
            retval_ty: "bool".to_string(),
            handler: TypeHandler::Identity,
        },
    };
    let args = info.raw_com_args();
    let seen: Vec<(String, String, Direction)> =
        args.iter().map(|a| (a.arg.name.clone(), a.arg.ty.clone(), a.dir)).collect();
    assert_eq!(
        seen,
        vec![
            ("a".to_string(), "u32".to_string(), Direction::In),
            ("b".to_string(), "str".to_string(), Direction::In),
            ("__out".to_string(), "bool".to_string(), Direction::Retval),
        ]
    );
    let plain = ComMethodInfo {
        name: "n".to_string(),
        is_const: false,
        args: vec![],
        returnhandler: ReturnHandler::Void,
    };
    assert!(plain.raw_com_args().is_empty());
}

#[test]
fn name_characters() {
    for c in ['a', 'm', 'z', 'A', 'Q', 'Z', '0', '5', '9', '_'] {
        assert!(is_name_char(c));
    }
    for c in [' ', '#', '-', ':', '/', '`', '{', '@', '[', '\u{e9}', '\u{301}', '\u{3b1}'] {
        assert!(!is_name_char(c));
    }
}

#[test]
fn plain_texts() {
    assert!(is_plain(""));
    assert!(is_plain("Foo_9"));
    assert!(is_plain("9lives"));
    assert!(is_plain("fn"));
    assert!(!is_plain(" Foo"));
    assert!(!is_plain("r#type"));
    assert!(!is_plain("a-b"));
    assert!(!is_plain("caf\u{e9}"));
    assert!(!is_plain("e\u{301}"));
}

#[test]
fn names_are_read_as_identifiers() {
    assert_eq!(parse_name("Foo"), Some("Foo".to_string()));
    assert_eq!(parse_name("_under_score9"), Some("_under_score9".to_string()));
    assert_eq!(parse_name("__"), Some("__".to_string()));
    assert_eq!(parse_name("_0"), Some("_0".to_string()));
    assert_eq!(parse_name("selfish"), Some("selfish".to_string()));
    assert_eq!(parse_name("Fn"), Some("Fn".to_string()));
    assert_eq!(parse_name("r"), Some("r".to_string()));
    assert_eq!(parse_name(""), None);
    assert_eq!(parse_name("9lives"), None);
    assert_eq!(parse_name("0"), None);
    assert_eq!(parse_name("0x1F"), None);
    assert_eq!(parse_name("1e5"), None);
    assert_eq!(parse_name("_"), None);
}

#[test]
fn reserved_words_are_no_names() {
    for word in [
        "abstract", "as", "async", "await", "become", "box", "break", "const", "continue",
        "crate", "do", "dyn", "else", "enum", "extern", "false", "final", "fn", "for", "if",
        "impl", "in", "let", "loop", "macro", "match", "mod", "move", "mut", "override", "priv",
        "pub", "ref", "return", "Self", "self", "static", "struct", "super", "trait", "true",
        "try", "type", "typeof", "unsafe", "unsized", "use", "virtual", "where", "while", "yield",
    ] {
        assert_eq!(parse_name(word), None);
    }
}

#[test]
fn texts_with_other_characters_are_no_names() {
    assert_eq!(parse_name("  Foo "), None);
    assert_eq!(parse_name("/* note */ Foo"), None);
    assert_eq!(parse_name("r#type"), None);
    assert_eq!(parse_name("two words"), None);
    assert_eq!(parse_name("a-b"), None);
    assert_eq!(parse_name("Foo::Bar"), None);
    assert_eq!(parse_name("caf\u{e9}"), None);
    assert_eq!(parse_name("e\u{301}"), None);
}

#[test]
fn parse_keeps_the_description() {
    let imp = ComImpl::parse(&item(vec![method(
        "bar",
        true,
        vec![arg("a", "u32"), arg("s", "String")],
        ReturnSig::Fallible("u16".to_string()),
    )]))
    .unwrap();
    assert_eq!(imp.struct_name(), "Foo");
    assert_eq!(imp.interface_name(), "IFoo");
    assert_eq!(imp.methods().len(), 1);
    let m = &imp.methods()[0];
    assert_eq!(m.name, "bar");
    assert!(m.is_const);
    assert_eq!(m.args.len(), 2);
    assert_eq!(m.args[0].name, "a");
    assert_eq!(m.args[0].ty, "u32");
    assert_eq!(m.args[0].handler, TypeHandler::Identity);
    assert_eq!(m.args[1].name, "s");
    assert_eq!(m.args[1].handler, TypeHandler::Text);
    assert!(matches!(
        &m.returnhandler,
        ReturnHandler::ErrorResult { retval_ty, handler: TypeHandler::Identity } if retval_ty == "u16"
    ));
}

#[test]
fn parse_refuses_raw_and_padded_names() {
    let mut bad = item(vec![]);
    bad.struct_name = " Foo".to_string();
    assert_eq!(ComImpl::parse(&bad).err(), Some(ParseError::StructName));

    let mut bad = item(vec![]);
    bad.interface_name = "r#IFoo".to_string();
    assert_eq!(ComImpl::parse(&bad).err(), Some(ParseError::InterfaceName));

    let bad = item(vec![method("r#type", false, vec![], ReturnSig::Void)]);
    assert_eq!(ComImpl::parse(&bad).err(), Some(ParseError::MethodName { method: 0 }));

    let bad = item(vec![method("m", false, vec![arg("r#in", "u8")], ReturnSig::Void)]);
    assert_eq!(ComImpl::parse(&bad).err(), Some(ParseError::ArgName { method: 0, arg: 0 }));

    let bad = item(vec![method("m\u{e9}", false, vec![], ReturnSig::Void)]);
    assert_eq!(ComImpl::parse(&bad).err(), Some(ParseError::MethodName { method: 0 }));
}

#[test]
fn parse_errors() {
    let mut bad = item(vec![]);
    bad.struct_name = "1Foo".to_string();
    bad.interface_name = "also bad".to_string();
    assert_eq!(ComImpl::parse(&bad).err(), Some(ParseError::StructName));

    let mut bad = item(vec![method("fn", true, vec![], ReturnSig::Void)]);
    bad.interface_name = "".to_string();
    assert_eq!(ComImpl::parse(&bad).err(), Some(ParseError::InterfaceName));

    let bad = item(vec![
        method("ok", true, vec![], ReturnSig::Void),
        method("not ok", true, vec![arg("1", "u8")], ReturnSig::Value("Widget".to_string())),
    ]);
    assert_eq!(ComImpl::parse(&bad).err(), Some(ParseError::MethodName { method: 1 }));

    let bad = item(vec![
        method("ok", true, vec![arg("a", "u8")], ReturnSig::Void),
        method("m", true, vec![arg("a", "u8"), arg("b", "u8"), arg("", "Widget")], ReturnSig::Void),
    ]);
    assert_eq!(ComImpl::parse(&bad).err(), Some(ParseError::ArgName { method: 1, arg: 2 }));

    let bad = item(vec![method(
        "m",
        true,
        vec![arg("a", "u8"), arg("b", "Widget"), arg("", "u8")],
        ReturnSig::Void,
    )]);
    assert_eq!(ComImpl::parse(&bad).err(), Some(ParseError::ArgType { method: 0, arg: 1 }));

    let bad = item(vec![
        method("m", true, vec![], ReturnSig::Value("Widget".to_string())),
        method("", true, vec![], ReturnSig::Void),
    ]);
    assert_eq!(ComImpl::parse(&bad).err(), Some(ParseError::ReturnType { method: 0 }));

    let bad = item(vec![method("m", true, vec![], ReturnSig::Fallible("f".to_string()))]);
    assert_eq!(ComImpl::parse(&bad).err(), Some(ParseError::ReturnType { method: 0 }));
}

#[test]
fn parse_reports_the_first_error() {
    let bad = item(vec![
        method("m", true, vec![arg("a", "Widget")], ReturnSig::Value("Widget".to_string())),
        method("1", true, vec![], ReturnSig::Void),
    ]);
    assert_eq!(ComImpl::parse(&bad).err(), Some(ParseError::ArgType { method: 0, arg: 0 }));
}

#[test]
fn expansion_without_methods_is_the_base_protocol() {
    let expansion = expand_com_impl(&item(vec![])).unwrap();
    assert_eq!(expansion.struct_name, "Foo");
    assert_eq!(expansion.interface_name, "IFoo");
    assert_eq!(expansion.vtable_offset, "__Foo_IFooVtbl_offset");
    assert_eq!(expansion.vtable_struct, "__IFooVtbl");
    assert_eq!(expansion.vtable_instance, "__Foo_IFooVtbl_INSTANCE");
    assert_eq!(expansion.thunks.len(), 3);
    assert_eq!(expansion.vtable_fields.len(), 3);

    let qi = &expansion.thunks[0];
    assert_eq!(qi.name, "__Foo_IFoo_query_interface");
    assert_eq!(qi.target, ThunkTarget::ComBox);
    assert_eq!(qi.callee, "query_interface");
    assert_eq!(
        params(&expansion, 0),
        vec![
            pair("self_vtable", "::intercom::RawComPtr"),
            pair("riid", "::intercom::REFIID"),
            pair("out", "*mut ::intercom::RawComPtr"),
        ]
    );
    assert_eq!(qi.ret_ty, "::intercom::HRESULT");
    assert!(qi.stack_variables.is_empty());
    assert_eq!(qi.in_params, vec!["riid".to_string(), "out".to_string()]);
    assert_eq!(qi.return_statement, "__result");

    let add_ref = &expansion.thunks[1];
    assert_eq!(add_ref.name, "__Foo_IFoo_add_ref");
    assert_eq!(add_ref.target, ThunkTarget::ComBox);
    assert_eq!(add_ref.callee, "add_ref");
    assert_eq!(params(&expansion, 1), vec![pair("self_vtable", "::intercom::RawComPtr")]);
    assert_eq!(add_ref.ret_ty, "u32");
    assert!(add_ref.in_params.is_empty());

    let release = &expansion.thunks[2];
    assert_eq!(release.name, "__Foo_IFoo_release");
    assert_eq!(release.target, ThunkTarget::ComBoxPtr);
    assert_eq!(release.callee, "release_ptr");
    assert_eq!(release.ret_ty, "u32");
    assert_eq!(params(&expansion, 2), vec![pair("self_vtable", "::intercom::RawComPtr")]);

    let fields: Vec<(String, String)> =
        expansion.vtable_fields.iter().map(|f| (f.name.clone(), f.thunk.clone())).collect();
    assert_eq!(
        fields,
        vec![
            pair("query_interface", "__Foo_IFoo_query_interface"),
            pair("add_ref", "__Foo_IFoo_add_ref"),
            pair("release", "__Foo_IFoo_release"),
        ]
    );
}

#[test]
fn expansion_of_methods() {
    let expansion = expand_com_impl(&item(vec![
        method(
            "greet",
            true,
            vec![arg("count", "u32"), arg("name", "str"), arg("peer", "ComItf")],
            ReturnSig::Fallible("String".to_string()),
        ),
        method("reset", false, vec![], ReturnSig::Void),
        method("size", true, vec![arg("unit", "String")], ReturnSig::Value("u64".to_string())),
    ]))
    .unwrap();
    assert_eq!(expansion.thunks.len(), 6);
    assert_eq!(expansion.vtable_fields.len(), 6);

    let greet = &expansion.thunks[3];
    assert_eq!(greet.name, "__Foo_IFoo_greet");
    assert_eq!(greet.target, ThunkTarget::HostShared);
    assert_eq!(greet.callee, "greet");
    assert_eq!(
        params(&expansion, 3),
        vec![
            pair("self_vtable", "::intercom::RawComPtr"),
            pair("count", "u32"),
            pair("name", "::intercom::BSTR"),
            pair("peer", "::intercom::RawComPtr"),
            pair("__out", "*mut ::intercom::BSTR"),
        ]
    );
    assert_eq!(greet.ret_ty, "::intercom::HRESULT");
    assert_eq!(
        greet.stack_variables,
        vec!["let __name_temporary = match ::intercom::BStr::to_string(name) { Ok(v) => v, Err(e) => return e.into() };".to_string()]
    );
    assert_eq!(
        greet.in_params,
        vec![
            "count.into()".to_string(),
            "&__name_temporary".to_string(),
            "::intercom::ComItf::wrap(peer)".to_string(),
        ]
    );
    assert_eq!(
        greet.return_statement,
        "match __result { Ok(v) => { *__out = ::intercom::BStr::from_string(&v); ::intercom::S_OK } Err(e) => { *__out = ::intercom::ExternDefault::extern_default(); e.into() } }"
    );

    let reset = &expansion.thunks[4];
    assert_eq!(reset.name, "__Foo_IFoo_reset");
    assert_eq!(reset.target, ThunkTarget::HostExclusive);
    assert_eq!(params(&expansion, 4), vec![pair("self_vtable", "::intercom::RawComPtr")]);
    assert_eq!(reset.ret_ty, "()");
    assert!(reset.stack_variables.is_empty());
    assert!(reset.in_params.is_empty());
    assert_eq!(reset.return_statement, "__result");

    let size = &expansion.thunks[5];
    assert_eq!(size.name, "__Foo_IFoo_size");
    assert_eq!(size.target, ThunkTarget::HostShared);
    assert_eq!(
        params(&expansion, 5),
        vec![pair("self_vtable", "::intercom::RawComPtr"), pair("unit", "::intercom::BSTR")]
    );
    assert_eq!(size.ret_ty, "u64");
    assert_eq!(size.return_statement, "__result.into()");

    let fields: Vec<(String, String)> =
        expansion.vtable_fields.iter().map(|f| (f.name.clone(), f.thunk.clone())).collect();
    assert_eq!(
        fields,
        vec![
            pair("query_interface", "__Foo_IFoo_query_interface"),
            pair("add_ref", "__Foo_IFoo_add_ref"),
            pair("release", "__Foo_IFoo_release"),
            pair("greet", "__Foo_IFoo_greet"),
            pair("reset", "__Foo_IFoo_reset"),
            pair("size", "__Foo_IFoo_size"),
        ]
    );
    for (field, thunk) in expansion.vtable_fields.iter().zip(expansion.thunks.iter()) {
        assert_eq!(field.thunk, thunk.name);
    }
}

#[test]
fn generated_names_are_names() {
    let expansion = expand_com_impl(&item(vec![
        method("bar", false, vec![arg("text", "String")], ReturnSig::Void),
        method("_9", true, vec![], ReturnSig::Void),
    ]))
    .unwrap();
    let mut names = vec![
        expansion.vtable_offset.clone(),
        expansion.vtable_struct.clone(),
        expansion.vtable_instance.clone(),
    ];
    for thunk in expansion.thunks.iter() {
        names.push(thunk.name.clone());
    }
    for field in expansion.vtable_fields.iter() {
        names.push(field.name.clone());
        names.push(field.thunk.clone());
    }
    for name in names.iter() {
        assert_eq!(parse_name(name), Some(name.clone()));
    }
}

#[test]
fn expansion_fails_as_parsing_does() {
    let bad = item(vec![method("m", true, vec![arg("a", "Widget")], ReturnSig::Void)]);
    assert_eq!(expand_com_impl(&bad).err(), Some(ParseError::ArgType { method: 0, arg: 0 }));
    let mut bad = item(vec![]);
    bad.struct_name = "not a name".to_string();
    assert_eq!(expand_com_impl(&bad).err(), Some(ParseError::StructName));
}

#[test]
fn expand_is_the_second_half_of_expand_com_impl() {
    let description = item(vec![method("bar", true, vec![arg("a", "i8")], ReturnSig::Void)]);
    let imp = ComImpl::parse(&description).unwrap();
    let direct = expand(&imp);
    let whole = expand_com_impl(&description).unwrap();
    assert_eq!(direct.thunks.len(), whole.thunks.len());
    assert_eq!(direct.thunks[3].name, whole.thunks[3].name);
    assert_eq!(direct.thunks[3].in_params, vec!["a.into()".to_string()]);
    assert_eq!(direct.vtable_instance, whole.vtable_instance);
}

#[test]
fn join_puts_the_separator_between() {
    let none: Vec<String> = vec![];
    assert_eq!(join(&none, ", "), "");
    assert_eq!(join(&vec!["a".to_string()], ", "), "a");
    assert_eq!(join(&vec!["a".to_string(), "b".to_string()], ", "), "a, b");
    assert_eq!(
        join(&vec!["a".to_string(), "".to_string(), "c".to_string()], "--"),
        "a----c"
    );
    assert_eq!(join(&vec!["a".to_string(), "b".to_string(), "c".to_string()], ""), "abc");
}

#[test]
fn bodies_of_the_base_thunks() {
    let expansion = expand_com_impl(&item(vec![])).unwrap();
    assert_eq!(
        expansion.body_of(0),
        vec![
            "let self_combox = (self_vtable as usize - __Foo_IFooVtbl_offset()) as *mut ::intercom::ComBox<Foo>;".to_string(),
            "*out = ::intercom::ExternDefault::extern_default();".to_string(),
            "let __result = ::intercom::ComBox::<Foo>::query_interface(&mut *self_combox, riid, out);".to_string(),
            "__result".to_string(),
        ]
    );
    assert_eq!(
        expansion.body_of(1),
        vec![
            "let self_combox = (self_vtable as usize - __Foo_IFooVtbl_offset()) as *mut ::intercom::ComBox<Foo>;".to_string(),
            "let __result = ::intercom::ComBox::<Foo>::add_ref(&mut *self_combox);".to_string(),
            "__result".to_string(),
        ]
    );
    assert_eq!(
        expansion.body_of(2),
        vec![
            "let self_combox = (self_vtable as usize - __Foo_IFooVtbl_offset()) as *mut ::intercom::ComBox<Foo>;".to_string(),
            "let __result = ::intercom::ComBox::<Foo>::release_ptr(self_combox);".to_string(),
            "__result".to_string(),
        ]
    );
}

#[test]
fn bodies_of_method_thunks() {
    let expansion = expand_com_impl(&item(vec![
        method(
            "greet",
            true,
            vec![arg("count", "u32"), arg("name", "str")],
            ReturnSig::Value("bool".to_string()),
        ),
        method("reset", false, vec![], ReturnSig::Void),
    ]))
    .unwrap();
    assert_eq!(
        expansion.body_of(3),
        vec![
            "let self_combox = (self_vtable as usize - __Foo_IFooVtbl_offset()) as *mut ::intercom::ComBox<Foo>;".to_string(),
            "let __name_temporary = match ::intercom::BStr::to_string(name) { Ok(v) => v, Err(e) => return e.into() };".to_string(),
            "let self_struct: &IFoo = &**self_combox;".to_string(),
            "let __result = self_struct.greet(count.into(), &__name_temporary);".to_string(),
            "__result.into()".to_string(),
        ]
    );
    assert_eq!(
        expansion.body_of(4),
        vec![
            "let self_combox = (self_vtable as usize - __Foo_IFooVtbl_offset()) as *mut ::intercom::ComBox<Foo>;".to_string(),
            "let self_struct: &mut IFoo = &mut **self_combox;".to_string(),
            "let __result = self_struct.reset();".to_string(),
            "__result".to_string(),
        ]
    );
    assert_eq!(
        expansion.thunks[4].call_statement("Foo"),
        "let __result = self_struct.reset();"
    );
}

#[test]
fn every_thunk_recovers_the_box_in_the_same_way() {
    let expansion = expand_com_impl(&item(vec![
        method("a", true, vec![arg("x", "String")], ReturnSig::Void),
        method("b", false, vec![], ReturnSig::Fallible("u8".to_string())),
    ]))
    .unwrap();
    let first = expansion.body_of(0)[0].clone();
    for index in 0..expansion.thunks.len() {
        assert_eq!(expansion.body_of(index)[0], first);
    }
}

#[test]
fn parameters_carry_their_direction() {
    let expansion = expand_com_impl(&item(vec![method(
        "m",
        true,
        vec![arg("a", "u8")],
        ReturnSig::Fallible("u16".to_string()),
    )]))
    .unwrap();
    let dirs: Vec<Direction> = expansion.thunks[3].params.iter().map(|p| p.dir).collect();
    assert_eq!(dirs, vec![Direction::In, Direction::In, Direction::Retval]);
    let dirs: Vec<Direction> = expansion.thunks[0].params.iter().map(|p| p.dir).collect();
    assert_eq!(dirs, vec![Direction::In, Direction::In, Direction::Out]);
}

#[test]
fn out_parameters_are_zeroed_before_anything_can_fail() {
    let expansion = expand_com_impl(&item(vec![method(
        "m",
        false,
        vec![arg("text", "String")],
        ReturnSig::Fallible("u16".to_string()),
    )]))
    .unwrap();
    assert_eq!(
        expansion.thunks[3].zero_statements(),
        vec!["*__out = ::intercom::ExternDefault::extern_default();".to_string()]
    );
    assert_eq!(
        expansion.body_of(3),
        vec![
            "let self_combox = (self_vtable as usize - __Foo_IFooVtbl_offset()) as *mut ::intercom::ComBox<Foo>;".to_string(),
            "*__out = ::intercom::ExternDefault::extern_default();".to_string(),
            "let __text_temporary = match ::intercom::BStr::to_string(text) { Ok(v) => v, Err(e) => return e.into() };".to_string(),
            "let self_struct: &mut IFoo = &mut **self_combox;".to_string(),
            "let __result = self_struct.m(&__text_temporary);".to_string(),
            "match __result { Ok(v) => { *__out = v.into(); ::intercom::S_OK } Err(e) => { *__out = ::intercom::ExternDefault::extern_default(); e.into() } }".to_string(),
        ]
    );
    assert!(expansion.thunks[1].zero_statements().is_empty());
}

#[test]
fn zero_statements_follow_the_parameters() {
    let thunk = Thunk {
        name: "t".to_string(),
        target: ThunkTarget::HostShared,
        callee: "c".to_string(),
        params: vec![
            ThunkParam { name: "a".to_string(), ty: "*mut u8".to_string(), dir: Direction::Out },
            ThunkParam { name: "b".to_string(), ty: "u8".to_string(), dir: Direction::In },
            ThunkParam { name: "c".to_string(), ty: "*mut u8".to_string(), dir: Direction::Retval },
        ],
        ret_ty: "()".to_string(),
        stack_variables: vec!["let x = 1;".to_string()],
        in_params: vec!["p".to_string(), "q".to_string()],
        return_statement: "r".to_string(),
    };
    assert_eq!(
        thunk.zero_statements(),
        vec![
            "*a = ::intercom::ExternDefault::extern_default();".to_string(),
            "*c = ::intercom::ExternDefault::extern_default();".to_string(),
        ]
    );
    assert_eq!(
        thunk.body("S", "I", "off"),
        vec![
            "let self_combox = (self_vtable as usize - off()) as *mut ::intercom::ComBox<S>;".to_string(),
            "*a = ::intercom::ExternDefault::extern_default();".to_string(),
            "*c = ::intercom::ExternDefault::extern_default();".to_string(),
            "let x = 1;".to_string(),
            "let self_struct: &I = &**self_combox;".to_string(),
            "let __result = self_struct.c(p, q);".to_string(),
            "r".to_string(),
        ]
    );
}

#[test]
fn words_that_are_not_reserved_are_names() {
    for word in [
        "union", "gen", "auto", "default", "raw", "safe", "macro_rules", "dynamic", "Type",
        "SELF", "selfie", "r", "b", "br", "rb", "c", "cr", "e5", "x0", "i", "matches",
    ] {
        assert_eq!(parse_name(word), Some(word.to_string()));
    }
}

#[test]
fn texts_that_begin_with_a_digit_are_no_names() {
    for text in ["0", "0_", "0b", "0x", "0o", "0b2", "1_000", "1E5", "1e", "7up", "00", "9_", "1u8"] {
        assert!(is_plain(text));
        assert_eq!(parse_name(text), None);
    }
}

#[test]
fn long_names_are_names() {
    let long = "a_".repeat(2000);
    assert_eq!(parse_name(&long), Some(long.clone()));
}
