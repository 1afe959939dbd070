use async_debug::async_debug_impl;
use async_debug::error::{ErrorKind, Message, Span};
use async_debug::input::{AttrArg, AttrValue, Data, DeriveInput, Expr, Field, Fields, Generics, Variant};
use async_debug::tokens::render;

fn norm(s: &str) -> String {
    s.split_whitespace().collect::<Vec<_>>().join(" ")
}

fn flag(key: &str) -> AttrArg {
    AttrArg { key: key.to_string(), value: None }
}

/// `key = <path>`: a path reads both as an expression and as a type.
fn path_arg(key: &str, text: &str) -> AttrArg {
    AttrArg {
        key: key.to_string(),
        value: Some(AttrValue { text: text.to_string(), expr: Some(Expr::Path(text.to_string())), is_type: true }),
    }
}

/// `key = <type>` where the type is not an expression.
fn type_arg(key: &str, text: &str) -> AttrArg {
    AttrArg { key: key.to_string(), value: Some(AttrValue { text: text.to_string(), expr: None, is_type: true }) }
}

/// `key = <expr>` where the expression is a call.
fn call_arg(key: &str, text: &str) -> AttrArg {
    AttrArg {
        key: key.to_string(),
        value: Some(AttrValue { text: text.to_string(), expr: Some(Expr::Other(text.to_string())), is_type: false }),
    }
}

fn named(name: &str, ty: &str, attrs: Vec<AttrArg>) -> Field {
    Field { ident: Some(name.to_string()), ty: ty.to_string(), attrs }
}

fn positional(ty: &str, attrs: Vec<AttrArg>) -> Field {
    Field { ident: None, ty: ty.to_string(), attrs }
}

fn no_generics() -> Generics {
    Generics { impl_generics: String::new(), ty_generics: String::new(), where_clause: String::new() }
}

fn decl(name: &str, attrs: Vec<AttrArg>, data: Data) -> DeriveInput {
    DeriveInput { attrs, vis: String::new(), ident: name.to_string(), generics: no_generics(), data }
}

fn expand(input: DeriveInput) -> String {
    match async_debug_impl(input) {
        Ok(tokens) => norm(&render(&tokens)),
        Err(e) => panic!("unexpected diagnostics: {:?}", e.messages),
    }
}

fn diagnostics(input: DeriveInput) -> Vec<Message> {
    match async_debug_impl(input) {
        Ok(tokens) => panic!("unexpected output: {}", render(&tokens)),
        Err(e) => e.messages,
    }
}

fn field_span(variant: Option<&str>, index: usize) -> Span {
    Span::Field { variant: variant.map(|v| v.to_string()), index }
}

const VIEW_ATTRS: &str = "# [ derive ( Debug ) ] # [ allow ( dead_code ) ] # [ allow ( non_camel_case_types ) ] \
                          # [ automatically_derived ]";

fn one_field_record(ty_arg: &str, expr: &str) -> String {
    format!(
        "impl AsyncDebug for Input {{ }} # [ automatically_derived ] impl Input {{ async fn async_debug ( & self ) \
         -> async_debug_input :: Input < {ty_arg} , > {{ async_debug_input :: Input {{ test : {expr} , }} }} }} \
         mod async_debug_input {{ use super :: * ; {VIEW_ATTRS} pub struct Input < T_AsyncDebug_test , > \
         {{ pub ( super ) test : T_AsyncDebug_test , }} }}"
    )
}

#[test]
fn test_attr_async_call() {
    let input = decl(
        "Input",
        vec![],
        Data::Struct(Fields::Named(vec![named("test", "RwLock", vec![path_arg("async_call", "RwLock :: lock")])])),
    );
    let expected = one_field_record("& RwLock", "& RwLock :: lock ( & self . test ) . await");
    assert_eq!(expand(input), norm(&expected));
}

#[test]
fn test_attr_clone() {
    let input = decl("Input", vec![], Data::Struct(Fields::Named(vec![named("test", "RwLock", vec![flag("clone")])])));
    let expected = one_field_record("& RwLock", "& self . test . clone ( )");
    assert_eq!(expand(input), norm(&expected));
}

#[test]
fn test_attr_copy() {
    let input = decl("Input", vec![], Data::Struct(Fields::Named(vec![named("test", "RwLock", vec![flag("copy")])])));
    let expected = one_field_record("& RwLock", "& * self . test");
    assert_eq!(expand(input), norm(&expected));
}

#[test]
fn test_attr_ty() {
    let input = decl(
        "Input",
        vec![],
        Data::Struct(Fields::Named(vec![named("test", "RwLock", vec![path_arg("ty", "TestType")])])),
    );
    let expected = one_field_record("TestType", "self . test");
    assert_eq!(expand(input), norm(&expected));
}

#[test]
fn test_no_or_empty_attrs() {
    let input = decl(
        "Input",
        vec![],
        Data::Struct(Fields::Named(vec![named("test", "String", vec![]), named("empty", "u64", vec![])])),
    );
    let expected = format!(
        "impl AsyncDebug for Input {{ }} # [ automatically_derived ] impl Input {{ async fn async_debug ( & self ) \
         -> async_debug_input :: Input < & String , & u64 , > {{ async_debug_input :: Input {{ \
         test : & self . test , empty : & self . empty , }} }} }} \
         mod async_debug_input {{ use super :: * ; {VIEW_ATTRS} \
         pub struct Input < T_AsyncDebug_test , T_AsyncDebug_empty , > \
         {{ pub ( super ) test : T_AsyncDebug_test , pub ( super ) empty : T_AsyncDebug_empty , }} }}"
    );
    assert_eq!(expand(input), norm(&expected));
}

fn s1_input(attrs: Vec<AttrArg>) -> DeriveInput {
    decl(
        "R",
        attrs,
        Data::Struct(Fields::Named(vec![named("x", "String", vec![]), named("y", "u64", vec![])])),
    )
}

fn s1_expected(derive: &str) -> String {
    format!(
        "impl AsyncDebug for R {{ }} # [ automatically_derived ] impl R {{ async fn async_debug ( & self ) \
         -> async_debug_r :: R < & String , & u64 , > {{ async_debug_r :: R {{ x : & self . x , y : & self . y , }} }} }} \
         mod async_debug_r {{ use super :: * ; {derive} # [ allow ( dead_code ) ] # [ allow ( non_camel_case_types ) ] \
         # [ automatically_derived ] pub struct R < T_AsyncDebug_x , T_AsyncDebug_y , > \
         {{ pub ( super ) x : T_AsyncDebug_x , pub ( super ) y : T_AsyncDebug_y , }} }}"
    )
}

#[test]
fn named_record_without_directives() {
    assert_eq!(expand(s1_input(vec![])), norm(&s1_expected("# [ derive ( Debug ) ]")));
}

#[test]
fn disable_derive_debug_drops_the_derive_only() {
    assert_eq!(expand(s1_input(vec![flag("disable_derive_debug")])), norm(&s1_expected("")));
}

#[test]
fn async_call_clone_and_ty() {
    let input = decl(
        "R",
        vec![],
        Data::Struct(Fields::Named(vec![named(
            "inner",
            "Lock < String >",
            vec![path_arg("async_call", "Lock :: read"), flag("clone"), path_arg("ty", "String")],
        )])),
    );
    let out = expand(input);
    assert!(out.contains("-> async_debug_r :: R < String , >"));
    assert!(out.contains("inner : Lock :: read ( & self . inner ) . await . clone ( ) ,"));
    assert!(out.contains("pub ( super ) inner : T_AsyncDebug_inner ,"));
}

#[test]
fn positional_record_with_copy() {
    let input = decl(
        "R",
        vec![],
        Data::Struct(Fields::Unnamed(vec![positional("Cell < u128 >", vec![flag("copy"), path_arg("ty", "u128")])])),
    );
    let expected = format!(
        "impl AsyncDebug for R {{ }} # [ automatically_derived ] impl R {{ async fn async_debug ( & self ) \
         -> async_debug_r :: R < u128 , > {{ async_debug_r :: R ( * self . 0 , ) }} }} \
         mod async_debug_r {{ use super :: * ; {VIEW_ATTRS} pub struct R < T_AsyncDebug_0 , > \
         ( pub ( super ) T_AsyncDebug_0 , ) ; }}"
    );
    assert_eq!(expand(input), norm(&expected));
}

#[test]
fn tagged_union_with_mixed_variants() {
    let input = decl(
        "R",
        vec![],
        Data::Enum(vec![
            Variant {
                ident: "A".to_string(),
                fields: Fields::Named(vec![named("s", "String", vec![]), named("n", "u64", vec![])]),
            },
            Variant {
                ident: "B".to_string(),
                fields: Fields::Unnamed(vec![
                    positional("String", vec![]),
                    positional(
                        "Lock < u64 >",
                        vec![path_arg("async_call", "Lock :: read"), flag("clone"), path_arg("ty", "u64")],
                    ),
                ]),
            },
        ]),
    );
    let expected = format!(
        "impl AsyncDebug for R {{ }} # [ automatically_derived ] impl R {{ async fn async_debug ( & self ) \
         -> async_debug_r :: R < & String , & u64 , & String , u64 , > {{ match self {{ \
         Self :: A {{ s , n , }} => async_debug_r :: R :: A {{ s : & s , n : & n , }} , \
         Self :: B ( self_0 , self_1 , ) => async_debug_r :: R :: B ( & self_0 , Lock :: read ( & self_1 ) . await . clone ( ) , ) , \
         }} }} }} \
         mod async_debug_r {{ use super :: * ; {VIEW_ATTRS} \
         pub enum R < T_AsyncDebug_A_s , T_AsyncDebug_A_n , T_AsyncDebug_B_0 , T_AsyncDebug_B_1 , > {{ \
         A {{ s : T_AsyncDebug_A_s , n : T_AsyncDebug_A_n , }} , B ( T_AsyncDebug_B_0 , T_AsyncDebug_B_1 , ) , }} }}"
    );
    assert_eq!(expand(input), norm(&expected));
}

#[test]
fn multi_error_field_reports_every_problem() {
    let input = decl(
        "StructNamed",
        vec![],
        Data::Struct(Fields::Named(vec![
            named("string", "String", vec![]),
            named(
                "rw_lock",
                "RwLock < Vec < String > >",
                vec![
                    call_arg("async_call", "RwLock :: read ( )"),
                    flag("clone"),
                    flag("copy"),
                    type_arg("ty", "Vec < String >"),
                    flag("skip"),
                ],
            ),
        ])),
    );
    let messages = diagnostics(input);
    let kinds: Vec<ErrorKind> = messages.iter().map(|m| m.kind.duplicate()).collect();
    assert_eq!(kinds, vec![ErrorKind::SkipNotAlone, ErrorKind::CloneAndCopy, ErrorKind::AsyncCallNotPath]);
    assert!(messages.iter().all(|m| m.span == field_span(None, 1)));
    let texts: Vec<String> = messages.iter().map(|m| m.text()).collect();
    assert_eq!(
        texts,
        vec![
            "skip can only be used alone".to_string(),
            "clone and copy are mutually exclusive".to_string(),
            "async_call must be a path to a function".to_string(),
        ]
    );
}

#[test]
fn diagnostics_of_several_fields_are_combined() {
    let input = decl(
        "S",
        vec![],
        Data::Struct(Fields::Named(vec![
            named("a", "u8", vec![flag("clone"), flag("copy")]),
            named("b", "u8", vec![]),
            named("c", "u8", vec![flag("skip"), flag("copy")]),
        ])),
    );
    let messages = diagnostics(input);
    assert_eq!(
        messages,
        vec![
            Message { kind: ErrorKind::CloneAndCopy, span: field_span(None, 0) },
            Message { kind: ErrorKind::SkipNotAlone, span: field_span(None, 2) },
        ]
    );
}

#[test]
fn unit_variant_is_refused() {
    let input = decl(
        "E",
        vec![],
        Data::Enum(vec![
            Variant { ident: "A".to_string(), fields: Fields::Named(vec![named("s", "String", vec![])]) },
            Variant { ident: "B".to_string(), fields: Fields::Unit },
        ]),
    );
    let messages = diagnostics(input);
    assert_eq!(messages, vec![Message { kind: ErrorKind::UnitForm, span: Span::CallSite }]);
    assert_eq!(messages[0].text(), "unit forms are not supported");
}

#[test]
fn unit_record_is_refused() {
    let messages = diagnostics(decl("S", vec![], Data::Struct(Fields::Unit)));
    assert_eq!(messages, vec![Message { kind: ErrorKind::UnitForm, span: Span::CallSite }]);
}

#[test]
fn union_is_refused() {
    let messages = diagnostics(decl("U", vec![], Data::Union));
    assert_eq!(messages, vec![Message { kind: ErrorKind::Union, span: Span::CallSite }]);
    assert_eq!(messages[0].text(), "unions are not supported");
}

#[test]
fn clone_with_copy_is_refused() {
    let input = decl("S", vec![], Data::Struct(Fields::Named(vec![named("a", "u8", vec![flag("clone"), flag("copy")])])));
    let messages = diagnostics(input);
    assert_eq!(messages, vec![Message { kind: ErrorKind::CloneAndCopy, span: field_span(None, 0) }]);
    assert_eq!(messages[0].text(), "clone and copy are mutually exclusive");
}

#[test]
fn skip_with_another_key_is_refused() {
    for other in [path_arg("ty", "u8"), flag("clone"), flag("copy"), path_arg("async_call", "f")] {
        let input = decl("S", vec![], Data::Struct(Fields::Named(vec![named("a", "u8", vec![flag("skip"), other])])));
        let messages = diagnostics(input);
        assert_eq!(messages, vec![Message { kind: ErrorKind::SkipNotAlone, span: field_span(None, 0) }]);
        assert_eq!(messages[0].text(), "skip can only be used alone");
    }
}

#[test]
fn async_call_that_is_a_call_is_refused() {
    let input = decl(
        "S",
        vec![],
        Data::Struct(Fields::Named(vec![named("a", "Foo", vec![call_arg("async_call", "Foo :: bar ( )")])])),
    );
    let messages = diagnostics(input);
    assert_eq!(messages, vec![Message { kind: ErrorKind::AsyncCallNotPath, span: field_span(None, 0) }]);
    assert_eq!(messages[0].text(), "async_call must be a path to a function");
}

#[test]
fn unknown_and_malformed_options_are_refused() {
    let input = decl(
        "E",
        vec![],
        Data::Enum(vec![Variant {
            ident: "V".to_string(),
            fields: Fields::Unnamed(vec![positional(
                "u8",
                vec![flag("parse"), path_arg("clone", "x"), flag("ty"), type_arg("async_call", "Vec < u8 >")],
            )]),
        }]),
    );
    let messages = diagnostics(input);
    let span = field_span(Some("V"), 0);
    assert_eq!(
        messages,
        vec![
            Message { kind: ErrorKind::UnknownOption("parse".to_string()), span: span.duplicate() },
            Message { kind: ErrorKind::MalformedOption("clone".to_string()), span: span.duplicate() },
            Message { kind: ErrorKind::MalformedOption("ty".to_string()), span: span.duplicate() },
            Message { kind: ErrorKind::MalformedOption("async_call".to_string()), span },
        ]
    );
    assert_eq!(messages[0].text(), "unknown async_debug option: parse");
    assert_eq!(messages[1].text(), "malformed async_debug option: clone");
}

#[test]
fn type_level_options_are_checked() {
    let messages = diagnostics(s1_input(vec![flag("skip"), path_arg("disable_derive_debug", "x")]));
    assert_eq!(
        messages,
        vec![
            Message { kind: ErrorKind::UnknownOption("skip".to_string()), span: Span::CallSite },
            Message { kind: ErrorKind::MalformedOption("disable_derive_debug".to_string()), span: Span::CallSite },
        ]
    );
}

#[test]
fn skipped_field_leaves_no_trace() {
    let with_skip = decl(
        "R",
        vec![],
        Data::Struct(Fields::Named(vec![
            named("x", "String", vec![]),
            named("hidden", "Secret", vec![flag("skip")]),
            named("y", "u64", vec![]),
        ])),
    );
    let out = expand(with_skip);
    assert!(!out.contains("hidden"));
    assert!(!out.contains("Secret"));
    assert_eq!(out, norm(&s1_expected("# [ derive ( Debug ) ]")));
}

#[test]
fn variant_with_every_field_skipped_keeps_empty_braces() {
    let input = decl(
        "E",
        vec![],
        Data::Enum(vec![Variant {
            ident: "V".to_string(),
            fields: Fields::Named(vec![named("a", "u8", vec![flag("skip")])]),
        }]),
    );
    let out = expand(input);
    assert!(out.contains("Self :: V { a , } => async_debug_e :: E :: V { } ,"));
    assert!(out.contains("pub enum E < > { V { } , }"));
}

#[test]
fn one_suspension_point_per_async_call_in_source_order() {
    let input = decl(
        "R",
        vec![],
        Data::Struct(Fields::Named(vec![
            named("a", "L", vec![path_arg("async_call", "first")]),
            named("b", "u8", vec![]),
            named("c", "L", vec![path_arg("async_call", "second"), flag("clone"), path_arg("ty", "u8")]),
        ])),
    );
    let out = expand(input);
    assert_eq!(out.matches(" await ").count(), 2);
    let first = out.find("first ( & self . a ) . await").unwrap();
    let second = out.find("second ( & self . c ) . await . clone ( )").unwrap();
    assert!(first < second);
    assert!(out.contains("b : & self . b ,"));
}

#[test]
fn generics_and_where_clause_are_carried() {
    let input = DeriveInput {
        attrs: vec![],
        vis: "pub ( super )".to_string(),
        ident: "Mixed".to_string(),
        generics: Generics {
            impl_generics: "< T : AsRef < Path > >".to_string(),
            ty_generics: "< T >".to_string(),
            where_clause: "where T : Clone".to_string(),
        },
        data: Data::Struct(Fields::Named(vec![named("path", "T", vec![])])),
    };
    let out = expand(input);
    assert!(out.starts_with("impl < T : AsRef < Path > > AsyncDebug for Mixed < T > where T : Clone { }"));
    assert!(out.contains(
        "impl < T : AsRef < Path > > Mixed < T > where T : Clone { pub ( super ) async fn async_debug ( & self ) \
         -> async_debug_mixed :: Mixed < & T , > where T : Clone {"
    ));
    assert!(out.contains("pub ( super ) mod async_debug_mixed {"));
    assert!(out.contains("pub struct Mixed < T_AsyncDebug_path , >"));
}

#[test]
fn module_name_is_snake_case_of_type_name() {
    let input = decl("MyHTTPStruct", vec![], Data::Struct(Fields::Named(vec![named("a", "u8", vec![])])));
    let out = expand(input);
    assert!(out.contains("mod async_debug_my_http_struct {"));
    assert!(out.contains("-> async_debug_my_http_struct :: MyHTTPStruct < & u8 , >"));
}

#[test]
fn positional_indexes_past_nine() {
    let fields: Vec<Field> = (0..12).map(|_| positional("u8", vec![])).collect();
    let input = decl("E", vec![], Data::Enum(vec![Variant { ident: "V".to_string(), fields: Fields::Unnamed(fields) }]));
    let out = expand(input);
    assert!(out.contains("self_10 , self_11 , )"));
    assert!(out.contains("& self_11 , )"));
    assert!(out.contains("T_AsyncDebug_V_11 ,"));
    let record: Vec<Field> = (0..11).map(|_| positional("u8", vec![])).collect();
    let out = expand(decl("R", vec![], Data::Struct(Fields::Unnamed(record))));
    assert!(out.contains("& self . 10 , )"));
    assert!(out.contains("pub ( super ) T_AsyncDebug_10 ,"));
}

#[test]
fn regenerating_gives_identical_output() {
    assert_eq!(expand(s1_input(vec![])), expand(s1_input(vec![])));
}

#[test]
fn non_ascii_type_name_is_refused() {
    let input = decl("Grüße", vec![], Data::Struct(Fields::Named(vec![named("a", "u8", vec![])])));
    let messages = diagnostics(input);
    assert_eq!(messages, vec![Message { kind: ErrorKind::NonAsciiName, span: Span::CallSite }]);
    assert_eq!(messages[0].text(), "non-ASCII type names are not supported");
}
