//! Records with named fields.
use vstd::prelude::*;
use crate::common::{expansion_spec, view_head_spec, GenerationContext};
use crate::error::Error;
use crate::fields::{
    assignments_spec, convert_fields, distinct_names, field_entries, fields_errors, fields_of, generic_names,
    get_fields_type, get_new_generics, keyed, converted, snapshot_types, to_token_stream_impl_ident_body,
    view_fields_spec, AsyncDebugField, AsyncDebugFieldsMap,
};
use crate::input::Field;
use crate::tokens::{append_tokens, push_token, toks, Delim, Keyword, Punct, Token, TokenView};

verus! {

/// `self.`: how a record's fields are reached.
pub open spec fn self_prefix() -> Seq<TokenView> {
    seq![TokenView::Keyword(Keyword::SelfValue), TokenView::Punct(Punct::Dot)]
}

/// The tokens `self.`.
pub fn self_prefix_tokens() -> (r: Vec<Token>)
    ensures
        toks(r@) == self_prefix(),
{
    let mut out: Vec<Token> = Vec::new();
    push_token(&mut out, Token::Keyword(Keyword::SelfValue));
    push_token(&mut out, Token::Punct(Punct::Dot));
    assert(toks(out@) =~= self_prefix());
    out
}

/// The method body: `<module>::<Type> { <name>: <snapshot>, ... }`.
pub open spec fn struct_named_body(c: GenerationContext, fs: Seq<AsyncDebugField>) -> Seq<TokenView> {
    seq![
        TokenView::Ident(c.mod_ident@),
        TokenView::Punct(Punct::PathSep),
        TokenView::Ident(c.ident@),
        TokenView::Open(Delim::Brace),
    ] + assignments_spec(fs, self_prefix()) + seq![TokenView::Close(Delim::Brace)]
}

/// The view: `pub struct <Type><generics> { pub(super) <name>: <generic>, ... }`.
pub open spec fn struct_named_item(c: GenerationContext, fs: Seq<AsyncDebugField>) -> Seq<TokenView> {
    view_head_spec(c, Keyword::Struct, generic_names(fs)) + seq![TokenView::Open(Delim::Brace)]
        + view_fields_spec(fs) + seq![TokenView::Close(Delim::Brace)]
}

/// The whole output for a record with named fields.
pub open spec fn struct_named_spec(c: GenerationContext, fs: Seq<AsyncDebugField>) -> Seq<TokenView> {
    expansion_spec(c, snapshot_types(fs), struct_named_body(c, fs), struct_named_item(c, fs))
}

/// A record with named fields, ready to emit.
#[derive(Debug)]
pub struct AsyncDebugStructNamed {
    pub ctx: GenerationContext,
    pub fields: AsyncDebugFieldsMap,
}

impl AsyncDebugStructNamed {
    /// Normalises the record's fields; fails with every field's diagnostics.
    pub fn new(ctx: GenerationContext, fields: Vec<Field>) -> (r: Result<AsyncDebugStructNamed, Error>)
        ensures
            match r {
                Ok(s) => s.ctx == ctx && fields_errors(fields@, None).len() == 0 && (distinct_names(fields@)
                    ==> field_entries(s.fields) == keyed(converted(fields@, None))),
                Err(e) => fields_errors(fields@, None).len() > 0 && e.messages@ == fields_errors(fields@, None),
            },
    {
        let fields = convert_fields(fields, None)?;
        Ok(AsyncDebugStructNamed { ctx, fields })
    }

    /// Emits the marker impl, the method, and the view.
    pub fn to_token_stream(&self) -> (r: Vec<Token>)
        ensures
            toks(r@) == struct_named_spec(self.ctx, fields_of(self.fields)),
    {
        let ghost fs = fields_of(self.fields);
        let (names, types) = get_new_generics(&self.fields);
        let prefix = self_prefix_tokens();
        let mut body: Vec<Token> = Vec::new();
        push_token(&mut body, Token::Ident(self.ctx.mod_ident.clone()));
        push_token(&mut body, Token::Punct(Punct::PathSep));
        push_token(&mut body, Token::Ident(self.ctx.ident.clone()));
        push_token(&mut body, Token::Open(Delim::Brace));
        append_tokens(&mut body, to_token_stream_impl_ident_body(&self.fields, &prefix));
        push_token(&mut body, Token::Close(Delim::Brace));
        assert(toks(body@) =~= struct_named_body(self.ctx, fs));
        let mut item: Vec<Token> = Vec::new();
        self.ctx.view_head(&mut item, Keyword::Struct, &names);
        push_token(&mut item, Token::Open(Delim::Brace));
        append_tokens(&mut item, get_fields_type(&self.fields));
        push_token(&mut item, Token::Close(Delim::Brace));
        assert(toks(item@) =~= struct_named_item(self.ctx, fs));
        let ghost b = toks(body@);
        let ghost it = toks(item@);
        let mut out: Vec<Token> = Vec::new();
        self.ctx.marker_impl(&mut out);
        self.ctx.method_impl(&mut out, &types, body);
        self.ctx.view_module(&mut out, item);
        assert(toks(out@) =~= struct_named_spec(self.ctx, fs));
        out
    }
}

} // verus!
