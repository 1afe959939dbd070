//! Records with positional fields.
use vstd::prelude::*;
use crate::common::{expansion_spec, view_head_spec, GenerationContext};
use crate::error::Error;
use crate::fields::{
    assignments_spec, convert_fields, converted, distinct_names, field_entries, fields_errors, fields_of, generic_names,
    get_fields_type, get_new_generics, keyed, snapshot_types, to_token_stream_impl_ident_body, view_fields_spec,
    AsyncDebugField, AsyncDebugFieldsMap,
};
use crate::input::Field;
use crate::structs::named::{self_prefix, self_prefix_tokens};
use crate::tokens::{append_tokens, push_token, toks, Delim, Keyword, Punct, Token, TokenView};

verus! {

/// The method body: `<module>::<Type>(<snapshot>, ...)`.
pub open spec fn struct_unnamed_body(c: GenerationContext, fs: Seq<AsyncDebugField>) -> Seq<TokenView> {
    seq![
        TokenView::Ident(c.mod_ident@),
        TokenView::Punct(Punct::PathSep),
        TokenView::Ident(c.ident@),
        TokenView::Open(Delim::Paren),
    ] + assignments_spec(fs, self_prefix()) + seq![TokenView::Close(Delim::Paren)]
}

/// The view: `pub struct <Type><generics>(pub(super) <generic>, ...);`.
pub open spec fn struct_unnamed_item(c: GenerationContext, fs: Seq<AsyncDebugField>) -> Seq<TokenView> {
    view_head_spec(c, Keyword::Struct, generic_names(fs)) + seq![TokenView::Open(Delim::Paren)]
        + view_fields_spec(fs) + seq![TokenView::Close(Delim::Paren), TokenView::Punct(Punct::Semi)]
}

/// The whole output for a record with positional fields.
pub open spec fn struct_unnamed_spec(c: GenerationContext, fs: Seq<AsyncDebugField>) -> Seq<TokenView> {
    expansion_spec(c, snapshot_types(fs), struct_unnamed_body(c, fs), struct_unnamed_item(c, fs))
}

/// A record with positional fields, ready to emit.
#[derive(Debug)]
pub struct AsyncDebugStructUnnamed {
    pub ctx: GenerationContext,
    pub fields: AsyncDebugFieldsMap,
}

impl AsyncDebugStructUnnamed {
    /// Normalises the record's fields; fails with every field's diagnostics.
    pub fn new(ctx: GenerationContext, fields: Vec<Field>) -> (r: Result<AsyncDebugStructUnnamed, Error>)
        ensures
            match r {
                Ok(s) => s.ctx == ctx && fields_errors(fields@, None).len() == 0 && (distinct_names(fields@)
                    ==> field_entries(s.fields) == keyed(converted(fields@, None))),
                Err(e) => fields_errors(fields@, None).len() > 0 && e.messages@ == fields_errors(fields@, None),
            },
    {
        let fields = convert_fields(fields, None)?;
        Ok(AsyncDebugStructUnnamed { ctx, fields })
    }

    /// Emits the marker impl, the method, and the view.
    pub fn to_token_stream(&self) -> (r: Vec<Token>)
        ensures
            toks(r@) == struct_unnamed_spec(self.ctx, fields_of(self.fields)),
    {
        let ghost fs = fields_of(self.fields);
        let (names, types) = get_new_generics(&self.fields);
        let prefix = self_prefix_tokens();
        let mut body: Vec<Token> = Vec::new();
        push_token(&mut body, Token::Ident(self.ctx.mod_ident.clone()));
        push_token(&mut body, Token::Punct(Punct::PathSep));
        push_token(&mut body, Token::Ident(self.ctx.ident.clone()));
        push_token(&mut body, Token::Open(Delim::Paren));
        append_tokens(&mut body, to_token_stream_impl_ident_body(&self.fields, &prefix));
        push_token(&mut body, Token::Close(Delim::Paren));
        assert(toks(body@) =~= struct_unnamed_body(self.ctx, fs));
        let mut item: Vec<Token> = Vec::new();
        self.ctx.view_head(&mut item, Keyword::Struct, &names);
        push_token(&mut item, Token::Open(Delim::Paren));
        append_tokens(&mut item, get_fields_type(&self.fields));
        push_token(&mut item, Token::Close(Delim::Paren));
        push_token(&mut item, Token::Punct(Punct::Semi));
        assert(toks(item@) =~= struct_unnamed_item(self.ctx, fs));
        let mut out: Vec<Token> = Vec::new();
        self.ctx.marker_impl(&mut out);
        self.ctx.method_impl(&mut out, &types, body);
        self.ctx.view_module(&mut out, item);
        assert(toks(out@) =~= struct_unnamed_spec(self.ctx, fs));
        out
    }
}

} // verus!
