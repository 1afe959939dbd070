use async_debug::attr_prop::AsyncDebug;
use async_debug::error::{Error, ErrorKind, IterCombineSynErrors, Message, Span};
use async_debug::fields::{AsyncDebugField, AsyncDebugFieldIdent};
use async_debug::input::{AttrArg, AttrValue, Expr, Field};
use async_debug::tokens::{render, Delim, Keyword, Punct, Token};
use async_debug::zip_result::ZipResult;

fn flag(key: &str) -> AttrArg {
    AttrArg { key: key.to_string(), value: None }
}

fn path_arg(key: &str, text: &str) -> AttrArg {
    AttrArg {
        key: key.to_string(),
        value: Some(AttrValue { text: text.to_string(), expr: Some(Expr::Path(text.to_string())), is_type: true }),
    }
}

#[test]
fn directives_read_from_empty_list() {
    let d = AsyncDebug::try_from_attributes(&vec![], &Span::CallSite).unwrap();
    assert!(d.async_call.is_none() && d.clone.is_none() && d.copy.is_none() && d.ty.is_none() && d.skip.is_none());
    assert!(d.validate(&Span::CallSite).is_ok());
}

#[test]
fn directives_read_every_key() {
    let attrs = vec![path_arg("async_call", "Lock :: read"), flag("clone"), path_arg("ty", "String")];
    let d = AsyncDebug::try_from_attributes(&attrs, &Span::CallSite).unwrap();
    match d.async_call {
        Some(Expr::Path(p)) => assert_eq!(p, "Lock :: read"),
        _ => panic!("async_call not read"),
    }
    assert!(d.clone.is_some());
    assert!(d.copy.is_none());
    assert_eq!(d.ty, Some("String".to_string()));
    assert!(d.skip.is_none());
}

#[test]
fn later_directive_replaces_earlier() {
    let attrs = vec![path_arg("ty", "A"), path_arg("ty", "B")];
    let d = AsyncDebug::try_from_attributes(&attrs, &Span::CallSite).unwrap();
    assert_eq!(d.ty, Some("B".to_string()));
}

#[test]
fn field_gets_its_address() {
    let named = Field { ident: Some("inner".to_string()), ty: "u8".to_string(), attrs: vec![] };
    let f = AsyncDebugField::new(named, None, 3).unwrap();
    assert_eq!(f.ident, AsyncDebugFieldIdent::Ident("inner".to_string()));
    assert_eq!(f.generic_argument_ident(), "T_AsyncDebug_inner");
    assert!(!f.custom_type());

    let unnamed = Field { ident: None, ty: "u8".to_string(), attrs: vec![path_arg("ty", "u16")] };
    let f = AsyncDebugField::new(unnamed, Some("Var".to_string()), 7).unwrap();
    assert_eq!(f.ident, AsyncDebugFieldIdent::Index(7));
    assert_eq!(f.generic_argument_ident(), "T_AsyncDebug_Var_7");
    assert!(f.custom_type());
}

#[test]
fn position_beyond_u32_is_refused() {
    let unnamed = Field { ident: None, ty: "u8".to_string(), attrs: vec![] };
    let index = (u32::MAX as usize) + 1;
    match AsyncDebugField::new(unnamed, None, index) {
        Ok(_) => panic!("an index past u32 was accepted"),
        Err(e) => {
            assert_eq!(
                e.messages,
                vec![Message { kind: ErrorKind::IndexOutOfRange, span: Span::Field { variant: None, index } }]
            );
            assert_eq!(e.messages[0].text(), "field index out of range");
        },
    }
}

#[test]
fn snapshot_type_defaults_to_borrow() {
    let field = Field { ident: Some("a".to_string()), ty: "Vec < u8 >".to_string(), attrs: vec![] };
    let f = AsyncDebugField::new(field, None, 0).unwrap();
    assert_eq!(render(&f.ty()).trim(), "& Vec < u8 >");
}

#[test]
fn zip_result_keeps_first_error() {
    let a: Result<u8, &str> = Ok(1);
    let b: Result<u16, &str> = Ok(2);
    assert_eq!(a.zip_result(b), Ok((1, 2)));
    let a: Result<u8, &str> = Err("first");
    let b: Result<u16, &str> = Err("second");
    assert_eq!(a.zip_result(b), Err("first"));
    let a: Result<u8, &str> = Ok(1);
    let b: Result<u16, &str> = Err("second");
    assert_eq!(a.zip_result(b), Err("second"));
}

#[test]
fn collect_syn_error_combines_every_failure() {
    let all_ok: Vec<Result<u8, Error>> = vec![Ok(1), Ok(2)];
    assert_eq!(all_ok.collect_syn_error().unwrap(), vec![1, 2]);
    let mixed: Vec<Result<u8, Error>> = vec![
        Err(Error::new_call_site(ErrorKind::UnitForm)),
        Ok(2),
        Err(Error::new(Span::Field { variant: None, index: 2 }, ErrorKind::CloneAndCopy)),
    ];
    match mixed.collect_syn_error() {
        Ok(_) => panic!("failures were dropped"),
        Err(e) => assert_eq!(
            e.messages,
            vec![
                Message { kind: ErrorKind::UnitForm, span: Span::CallSite },
                Message { kind: ErrorKind::CloneAndCopy, span: Span::Field { variant: None, index: 2 } },
            ]
        ),
    }
}

#[test]
fn render_writes_each_token() {
    let tokens = vec![
        Token::Keyword(Keyword::Pub),
        Token::Open(Delim::Paren),
        Token::Keyword(Keyword::Super),
        Token::Close(Delim::Paren),
        Token::Ident("x".to_string()),
        Token::Punct(Punct::Colon),
        Token::Index(305),
        Token::Punct(Punct::FatArrow),
        Token::Verbatim("Vec < u8 >".to_string()),
    ];
    assert_eq!(render(&tokens), "pub ( super ) x : 305 => Vec < u8 > ");
}
