//! The parts of the output that every shape shares: the generation context,
//! the marker-trait impl, the method impl around a body, and the nested
//! module around the view.
use vstd::prelude::*;
use convert_case::{Case, Casing};
use crate::attr_struct_enum::{type_arg_errors, AsyncDebug as TypeDirectives};
use crate::error::{messages_at, Error, ErrorKind, Message, Span};
use crate::input::{DeriveInput, Generics};
use crate::tokens::{
    append_tokens, comma_list, ident_token, name_list, nested, push_comma_list, push_name_list, push_token,
    texts, toks, verbatim_token, Delim, Keyword, Punct, Token, TokenView,
};

verus! {

/// The snake-case form of a name, as convert_case computes it.
pub uninterp spec fn snake_case_of(s: Seq<char>) -> Seq<char>;

/// Whether every character of a name is ASCII.
pub open spec fn ascii_name(s: Seq<char>) -> bool {
    forall|i: int| 0 <= i < s.len() ==> (s[i] as u32) < 128
}

/// Whether every character of `s` is ASCII.
pub fn is_ascii_name(s: &String) -> (r: bool)
    ensures
        r == ascii_name(s@),
{
    let t = s.as_str();
    let n = t.unicode_len();
    let mut i: usize = 0;
    while i < n
        invariant
            n == s@.len(),
            t@ == s@,
            i <= n,
            forall|k: int| 0 <= k < i ==> (s@[k] as u32) < 128,
        decreases n - i,
    {
        let c = t.get_char(i);
        if c as u32 >= 128 {
            return false;
        }
        i = i + 1;
    }
    true
}

/// Relies on convert_case's `Casing::to_case` with `Case::Snake`: the result
/// is a function of the input text alone. It splits words at character
/// positions taken as byte offsets, which can panic on non-ASCII text, so
/// only ASCII names are handed to it.
#[verifier::external_body]
fn to_snake_case(s: &String) -> (r: String)
    requires
        ascii_name(s@),
    ensures
        r@ == snake_case_of(s@),
{
    s.to_case(Case::Snake)
}

/// The name of the nested module, given the snake-case form of the type name.
pub fn mod_ident_from_snake(snake: &String) -> (r: String)
    ensures
        r@ == "async_debug_"@ + snake@,
{
    let s = String::from_str("async_debug_");
    s.concat(snake.as_str())
}

/// The name of the nested module that holds the view of type `ident`.
pub fn get_async_debug_mod_ident(ident: &String) -> (r: String)
    requires
        ascii_name(ident@),
    ensures
        r@ == "async_debug_"@ + snake_case_of(ident@),
{
    let snake = to_snake_case(ident);
    mod_ident_from_snake(&snake)
}

/// A copy of a generics split.
pub fn clone_generics(g: &Generics) -> (r: Generics)
    ensures
        r == *g,
{
    Generics {
        impl_generics: g.impl_generics.clone(),
        ty_generics: g.ty_generics.clone(),
        where_clause: g.where_clause.clone(),
    }
}

/// The diagnostics of the declaration as a whole: ill-formed type-level
/// directives, else a name that is not ASCII.
pub open spec fn context_errors(input: DeriveInput) -> Seq<Message> {
    if type_arg_errors(input.attrs@).len() > 0 {
        messages_at(type_arg_errors(input.attrs@), Span::CallSite)
    } else if !ascii_name(input.ident@) {
        seq![Message { kind: ErrorKind::NonAsciiName, span: Span::CallSite }]
    } else {
        Seq::empty()
    }
}

/// What every shape handler reads from the declaration.
#[derive(Debug)]
pub struct GenerationContext {
    pub vis: String,
    pub ident: String,
    /// `async_debug_` followed by the snake-case type name.
    pub mod_ident: String,
    pub generics: Generics,
    /// Whether the view derives `Debug`.
    pub derive_debug: bool,
}

impl GenerationContext {
    /// Captures the context of a declaration; fails when its type-level
    /// directives are ill-formed, else when its name is not ASCII.
    pub fn new(input: &DeriveInput) -> (r: Result<GenerationContext, Error>)
        ensures
            match r {
                Ok(c) => {
                    &&& context_errors(*input).len() == 0
                    &&& c.vis == input.vis
                    &&& c.ident == input.ident
                    &&& c.generics == input.generics
                    &&& c.mod_ident@ == "async_debug_"@ + snake_case_of(input.ident@)
                    &&& c.derive_debug == (input.attrs@.len() == 0)
                },
                Err(e) => context_errors(*input).len() > 0 && e.messages@ == context_errors(*input),
            },
    {
        let attr = TypeDirectives::try_from_attributes(&input.attrs)?;
        if !is_ascii_name(&input.ident) {
            return Err(Error::new_call_site(ErrorKind::NonAsciiName));
        }
        Ok(GenerationContext {
            vis: input.vis.clone(),
            ident: input.ident.clone(),
            mod_ident: get_async_debug_mod_ident(&input.ident),
            generics: clone_generics(&input.generics),
            derive_debug: attr.disable_derive_debug.is_none(),
        })
    }
}

/// `impl <generics> AsyncDebug for <Type><args> <where-clause> {}`
pub open spec fn marker_impl_spec(c: GenerationContext) -> Seq<TokenView> {
    seq![
        TokenView::Keyword(Keyword::Impl),
        TokenView::Verbatim(c.generics.impl_generics@),
        TokenView::Ident("AsyncDebug"@),
        TokenView::Keyword(Keyword::For),
        TokenView::Ident(c.ident@),
        TokenView::Verbatim(c.generics.ty_generics@),
        TokenView::Verbatim(c.generics.where_clause@),
        TokenView::Open(Delim::Brace),
        TokenView::Close(Delim::Brace),
    ]
}

/// `<module>::<Type><arg, ...,>`: the view type applied to `args`.
pub open spec fn view_type_spec(c: GenerationContext, args: Seq<Seq<TokenView>>) -> Seq<TokenView> {
    seq![
        TokenView::Ident(c.mod_ident@),
        TokenView::Punct(Punct::PathSep),
        TokenView::Ident(c.ident@),
        TokenView::Punct(Punct::Lt),
    ] + comma_list(args) + seq![TokenView::Punct(Punct::Gt)]
}

/// The inherent impl that holds `async fn async_debug(&self)`, returning
/// the view applied to `args`, with `body` as the method body.
pub open spec fn method_impl_spec(
    c: GenerationContext,
    args: Seq<Seq<TokenView>>,
    body: Seq<TokenView>,
) -> Seq<TokenView> {
    seq![
        TokenView::Punct(Punct::Pound),
        TokenView::Open(Delim::Bracket),
        TokenView::Ident("automatically_derived"@),
        TokenView::Close(Delim::Bracket),
        TokenView::Keyword(Keyword::Impl),
        TokenView::Verbatim(c.generics.impl_generics@),
        TokenView::Ident(c.ident@),
        TokenView::Verbatim(c.generics.ty_generics@),
        TokenView::Verbatim(c.generics.where_clause@),
        TokenView::Open(Delim::Brace),
        TokenView::Verbatim(c.vis@),
        TokenView::Keyword(Keyword::Async),
        TokenView::Keyword(Keyword::Fn),
        TokenView::Ident("async_debug"@),
        TokenView::Open(Delim::Paren),
        TokenView::Punct(Punct::Amp),
        TokenView::Keyword(Keyword::SelfValue),
        TokenView::Close(Delim::Paren),
        TokenView::Punct(Punct::RArrow),
    ] + view_type_spec(c, args) + seq![
        TokenView::Verbatim(c.generics.where_clause@),
        TokenView::Open(Delim::Brace),
    ] + body + seq![TokenView::Close(Delim::Brace), TokenView::Close(Delim::Brace)]
}

/// `#[derive(Debug)]` when the view derives it, else nothing.
pub open spec fn derive_spec(c: GenerationContext) -> Seq<TokenView> {
    if c.derive_debug {
        seq![
            TokenView::Punct(Punct::Pound),
            TokenView::Open(Delim::Bracket),
            TokenView::Ident("derive"@),
            TokenView::Open(Delim::Paren),
            TokenView::Ident("Debug"@),
            TokenView::Close(Delim::Paren),
            TokenView::Close(Delim::Bracket),
        ]
    } else {
        Seq::empty()
    }
}

/// `#[allow(dead_code)] #[allow(non_camel_case_types)] #[automatically_derived]`
pub open spec fn allow_spec() -> Seq<TokenView> {
    seq![
        TokenView::Punct(Punct::Pound),
        TokenView::Open(Delim::Bracket),
        TokenView::Ident("allow"@),
        TokenView::Open(Delim::Paren),
        TokenView::Ident("dead_code"@),
        TokenView::Close(Delim::Paren),
        TokenView::Close(Delim::Bracket),
        TokenView::Punct(Punct::Pound),
        TokenView::Open(Delim::Bracket),
        TokenView::Ident("allow"@),
        TokenView::Open(Delim::Paren),
        TokenView::Ident("non_camel_case_types"@),
        TokenView::Close(Delim::Paren),
        TokenView::Close(Delim::Bracket),
        TokenView::Punct(Punct::Pound),
        TokenView::Open(Delim::Bracket),
        TokenView::Ident("automatically_derived"@),
        TokenView::Close(Delim::Bracket),
    ]
}

/// `pub struct <Type><name, ...,>` (or `pub enum ...`): the head of the view.
pub open spec fn view_head_spec(c: GenerationContext, kw: Keyword, names: Seq<Seq<char>>) -> Seq<TokenView> {
    seq![
        TokenView::Keyword(Keyword::Pub),
        TokenView::Keyword(kw),
        TokenView::Ident(c.ident@),
        TokenView::Punct(Punct::Lt),
    ] + name_list(names) + seq![TokenView::Punct(Punct::Gt)]
}

/// `<vis> mod <module> { use super::*; <attributes> <item> }`
pub open spec fn view_module_spec(c: GenerationContext, item: Seq<TokenView>) -> Seq<TokenView> {
    seq![
        TokenView::Verbatim(c.vis@),
        TokenView::Keyword(Keyword::Mod),
        TokenView::Ident(c.mod_ident@),
        TokenView::Open(Delim::Brace),
        TokenView::Keyword(Keyword::Use),
        TokenView::Keyword(Keyword::Super),
        TokenView::Punct(Punct::PathSep),
        TokenView::Punct(Punct::Star),
        TokenView::Punct(Punct::Semi),
    ] + derive_spec(c) + allow_spec() + item + seq![TokenView::Close(Delim::Brace)]
}

/// The whole output: marker impl, method impl, and the module holding the view.
pub open spec fn expansion_spec(
    c: GenerationContext,
    args: Seq<Seq<TokenView>>,
    body: Seq<TokenView>,
    item: Seq<TokenView>,
) -> Seq<TokenView> {
    marker_impl_spec(c) + method_impl_spec(c, args, body) + view_module_spec(c, item)
}

impl GenerationContext {
    /// Emits the marker-trait impl.
    pub fn marker_impl(&self, out: &mut Vec<Token>)
        ensures
            toks(final(out)@) == toks(old(out)@) + marker_impl_spec(*self),
    {
        let ghost start = toks(out@);
        push_token(out, Token::Keyword(Keyword::Impl));
        push_token(out, verbatim_token(&self.generics.impl_generics));
        push_token(out, ident_token("AsyncDebug"));
        push_token(out, Token::Keyword(Keyword::For));
        push_token(out, Token::Ident(self.ident.clone()));
        push_token(out, verbatim_token(&self.generics.ty_generics));
        push_token(out, verbatim_token(&self.generics.where_clause));
        push_token(out, Token::Open(Delim::Brace));
        push_token(out, Token::Close(Delim::Brace));
        assert(toks(out@) =~= start + marker_impl_spec(*self));
    }

    /// Emits the view type applied to `args`.
    pub fn view_type(&self, out: &mut Vec<Token>, args: &Vec<Vec<Token>>)
        ensures
            toks(final(out)@) == toks(old(out)@) + view_type_spec(*self, nested(args@)),
    {
        let ghost start = toks(out@);
        push_token(out, Token::Ident(self.mod_ident.clone()));
        push_token(out, Token::Punct(Punct::PathSep));
        push_token(out, Token::Ident(self.ident.clone()));
        push_token(out, Token::Punct(Punct::Lt));
        let ghost mid = toks(out@);
        push_comma_list(out, args);
        push_token(out, Token::Punct(Punct::Gt));
        assert(toks(out@) =~= start + view_type_spec(*self, nested(args@)));
    }

    /// Emits the method impl around `body`.
    pub fn method_impl(&self, out: &mut Vec<Token>, args: &Vec<Vec<Token>>, body: Vec<Token>)
        ensures
            toks(final(out)@) == toks(old(out)@) + method_impl_spec(*self, nested(args@), toks(body@)),
    {
        let ghost start = toks(out@);
        push_token(out, Token::Punct(Punct::Pound));
        push_token(out, Token::Open(Delim::Bracket));
        push_token(out, ident_token("automatically_derived"));
        push_token(out, Token::Close(Delim::Bracket));
        push_token(out, Token::Keyword(Keyword::Impl));
        push_token(out, verbatim_token(&self.generics.impl_generics));
        push_token(out, Token::Ident(self.ident.clone()));
        push_token(out, verbatim_token(&self.generics.ty_generics));
        push_token(out, verbatim_token(&self.generics.where_clause));
        push_token(out, Token::Open(Delim::Brace));
        push_token(out, verbatim_token(&self.vis));
        push_token(out, Token::Keyword(Keyword::Async));
        push_token(out, Token::Keyword(Keyword::Fn));
        push_token(out, ident_token("async_debug"));
        push_token(out, Token::Open(Delim::Paren));
        push_token(out, Token::Punct(Punct::Amp));
        push_token(out, Token::Keyword(Keyword::SelfValue));
        push_token(out, Token::Close(Delim::Paren));
        push_token(out, Token::Punct(Punct::RArrow));
        let ghost head = toks(out@);
        self.view_type(out, args);
        push_token(out, verbatim_token(&self.generics.where_clause));
        push_token(out, Token::Open(Delim::Brace));
        let ghost b = toks(body@);
        append_tokens(out, body);
        push_token(out, Token::Close(Delim::Brace));
        push_token(out, Token::Close(Delim::Brace));
        assert(toks(out@) =~= start + method_impl_spec(*self, nested(args@), b));
    }

    /// Emits the nested module around the view item `item`.
    pub fn view_module(&self, out: &mut Vec<Token>, item: Vec<Token>)
        ensures
            toks(final(out)@) == toks(old(out)@) + view_module_spec(*self, toks(item@)),
    {
        let ghost start = toks(out@);
        push_token(out, verbatim_token(&self.vis));
        push_token(out, Token::Keyword(Keyword::Mod));
        push_token(out, Token::Ident(self.mod_ident.clone()));
        push_token(out, Token::Open(Delim::Brace));
        push_token(out, Token::Keyword(Keyword::Use));
        push_token(out, Token::Keyword(Keyword::Super));
        push_token(out, Token::Punct(Punct::PathSep));
        push_token(out, Token::Punct(Punct::Star));
        push_token(out, Token::Punct(Punct::Semi));
        let ghost after_use = toks(out@);
        if self.derive_debug {
            push_token(out, Token::Punct(Punct::Pound));
            push_token(out, Token::Open(Delim::Bracket));
            push_token(out, ident_token("derive"));
            push_token(out, Token::Open(Delim::Paren));
            push_token(out, ident_token("Debug"));
            push_token(out, Token::Close(Delim::Paren));
            push_token(out, Token::Close(Delim::Bracket));
        }
        assert(toks(out@) =~= after_use + derive_spec(*self));
        let ghost after_derive = toks(out@);
        push_token(out, Token::Punct(Punct::Pound));
        push_token(out, Token::Open(Delim::Bracket));
        push_token(out, ident_token("allow"));
        push_token(out, Token::Open(Delim::Paren));
        push_token(out, ident_token("dead_code"));
        push_token(out, Token::Close(Delim::Paren));
        push_token(out, Token::Close(Delim::Bracket));
        push_token(out, Token::Punct(Punct::Pound));
        push_token(out, Token::Open(Delim::Bracket));
        push_token(out, ident_token("allow"));
        push_token(out, Token::Open(Delim::Paren));
        push_token(out, ident_token("non_camel_case_types"));
        push_token(out, Token::Close(Delim::Paren));
        push_token(out, Token::Close(Delim::Bracket));
        push_token(out, Token::Punct(Punct::Pound));
        push_token(out, Token::Open(Delim::Bracket));
        push_token(out, ident_token("automatically_derived"));
        push_token(out, Token::Close(Delim::Bracket));
        assert(toks(out@) =~= after_derive + allow_spec());
        let ghost it = toks(item@);
        append_tokens(out, item);
        push_token(out, Token::Close(Delim::Brace));
        assert(toks(out@) =~= start + view_module_spec(*self, it));
    }

    /// Emits the head of the view item.
    pub fn view_head(&self, out: &mut Vec<Token>, kw: Keyword, names: &Vec<String>)
        ensures
            toks(final(out)@) == toks(old(out)@) + view_head_spec(*self, kw, texts(names@)),
    {
        let ghost start = toks(out@);
        push_token(out, Token::Keyword(Keyword::Pub));
        push_token(out, Token::Keyword(kw));
        push_token(out, Token::Ident(self.ident.clone()));
        push_token(out, Token::Punct(Punct::Lt));
        push_name_list(out, names);
        push_token(out, Token::Punct(Punct::Gt));
        assert(toks(out@) =~= start + view_head_spec(*self, kw, texts(names@)));
    }
}

} // verus!
