//! The field model, and the services shared over an ordered group of fields.
use vstd::prelude::*;
use indexmap::IndexMap;
use crate::attr_prop::{arg_errors, directives_of, validation_errors, AsyncDebug};
use crate::error::{
    combined_messages, messages_at, Error, ErrorKind, IterCombineSynErrors, Message, Span,
};
use crate::input::{Expr, Field};
use crate::tokens::{
    append_tokens, concat, decimal, lemma_concat_push, nested, texts, extend_tokens, ident_token, push_decimal, push_token, toks, verbatim_token,
    Delim, Keyword, Punct, Token, TokenView,
};
use crate::zip_result::ZipResult;

verus! {

/// How a field is addressed: by name, or by position.
#[derive(Debug, PartialEq, Eq, Hash)]
pub enum AsyncDebugFieldIdent {
    Ident(String),
    Index(u32),
}

/// The mathematical value of a field address.
pub enum FieldIdentView {
    Ident(Seq<char>),
    Index(nat),
}

impl View for AsyncDebugFieldIdent {
    type V = FieldIdentView;

    open spec fn view(&self) -> FieldIdentView {
        match self {
            AsyncDebugFieldIdent::Ident(s) => FieldIdentView::Ident(s@),
            AsyncDebugFieldIdent::Index(n) => FieldIdentView::Index(*n as nat),
        }
    }
}

impl AsyncDebugFieldIdent {
    /// A copy of this address.
    pub fn duplicate(&self) -> (r: AsyncDebugFieldIdent)
        ensures
            r == *self,
    {
        match self {
            AsyncDebugFieldIdent::Ident(s) => AsyncDebugFieldIdent::Ident(s.clone()),
            AsyncDebugFieldIdent::Index(n) => AsyncDebugFieldIdent::Index(*n),
        }
    }
}

/// The text of a field address, as used inside synthetic names.
pub open spec fn ident_text(i: AsyncDebugFieldIdent) -> Seq<char> {
    match i {
        AsyncDebugFieldIdent::Ident(s) => s@,
        AsyncDebugFieldIdent::Index(n) => decimal(n as nat),
    }
}

/// A normalised field: the source field, the variant that owns it (none in
/// a record), its address, and its validated directives.
#[derive(Debug)]
pub struct AsyncDebugField {
    pub field: Field,
    pub variant_ident: Option<String>,
    pub ident: AsyncDebugFieldIdent,
    pub attr: AsyncDebug,
}

/// Where the diagnostics of a field are attached.
pub open spec fn field_span(variant: Option<String>, index: usize) -> Span {
    Span::Field { variant, index }
}

/// Whether the field can be addressed: named, or at a position that fits `u32`.
pub open spec fn ident_ok(field: Field, index: usize) -> bool {
    field.ident.is_some() || index <= u32::MAX
}

/// The address of a field that can be addressed.
pub open spec fn ident_of(field: Field, index: usize) -> AsyncDebugFieldIdent {
    match field.ident {
        Some(n) => AsyncDebugFieldIdent::Ident(n),
        None => AsyncDebugFieldIdent::Index(index as u32),
    }
}

/// The diagnostics of one field: an unaddressable position; else its
/// ill-formed directives; else the invariants its directives break.
pub open spec fn field_errors(field: Field, variant: Option<String>, index: usize) -> Seq<Message> {
    let span = field_span(variant, index);
    if !ident_ok(field, index) {
        messages_at(seq![ErrorKind::IndexOutOfRange], span)
    } else if arg_errors(field.attrs@).len() > 0 {
        messages_at(arg_errors(field.attrs@), span)
    } else {
        messages_at(validation_errors(directives_of(field.attrs@)), span)
    }
}

/// The normalised field built from a field without diagnostics.
pub open spec fn normalised(field: Field, variant: Option<String>, index: usize) -> AsyncDebugField {
    AsyncDebugField {
        field: field,
        variant_ident: variant,
        ident: ident_of(field, index),
        attr: directives_of(field.attrs@),
    }
}

/// The source text of an expression.
pub open spec fn expr_text(e: Expr) -> Seq<char> {
    match e {
        Expr::Path(s) => s@,
        Expr::Other(s) => s@,
    }
}

/// The synthetic generic parameter name of a field:
/// `T_AsyncDebug_<field>` in a record, `T_AsyncDebug_<variant>_<field>` in a variant.
pub open spec fn generic_name(f: AsyncDebugField) -> Seq<char> {
    match f.variant_ident {
        Some(v) => "T_AsyncDebug_"@ + v@ + "_"@ + ident_text(f.ident),
        None => "T_AsyncDebug_"@ + ident_text(f.ident),
    }
}

/// The snapshot type: `ty` when given, else a borrow of the field's type.
pub open spec fn snapshot_type(f: AsyncDebugField) -> Seq<TokenView> {
    match f.attr.ty {
        Some(t) => seq![TokenView::Verbatim(t@)],
        None => seq![TokenView::Punct(Punct::Amp), TokenView::Verbatim(f.field.ty@)],
    }
}

/// The local name bound to a positional field in a variant pattern.
pub open spec fn positional_local(n: nat) -> Seq<char> {
    "self_"@ + decimal(n)
}

/// How the field is reached after the prefix: its name, its position, or
/// for a positional field of a variant the local that the pattern binds.
pub open spec fn access_spec(f: AsyncDebugField) -> Seq<TokenView> {
    match f.ident {
        AsyncDebugFieldIdent::Ident(s) => seq![TokenView::Ident(s@)],
        AsyncDebugFieldIdent::Index(n) => if f.variant_ident.is_some() {
            seq![TokenView::Ident(positional_local(n as nat))]
        } else {
            seq![TokenView::Index(n as nat)]
        },
    }
}

/// `<call>(&<e>).await` when `async_call` is given, else `e`.
pub open spec fn call_wrapped(f: AsyncDebugField, e: Seq<TokenView>) -> Seq<TokenView> {
    match f.attr.async_call {
        Some(c) => seq![
            TokenView::Verbatim(expr_text(c)),
            TokenView::Open(Delim::Paren),
            TokenView::Punct(Punct::Amp),
        ] + e + seq![
            TokenView::Close(Delim::Paren),
            TokenView::Punct(Punct::Dot),
            TokenView::Keyword(Keyword::Await),
        ],
        None => e,
    }
}

/// `*<e>` for `copy`, `<e>.clone()` for `clone`, else `e`.
pub open spec fn duplicated(f: AsyncDebugField, e: Seq<TokenView>) -> Seq<TokenView> {
    if f.attr.copy.is_some() {
        seq![TokenView::Punct(Punct::Star)] + e
    } else if f.attr.clone.is_some() {
        e + seq![
            TokenView::Punct(Punct::Dot),
            TokenView::Ident("clone"@),
            TokenView::Open(Delim::Paren),
            TokenView::Close(Delim::Paren),
        ]
    } else {
        e
    }
}

/// The snapshot expression of a field reached through `prefix`.
pub open spec fn snapshot_expr_spec(f: AsyncDebugField, prefix: Seq<TokenView>) -> Seq<TokenView> {
    let e = duplicated(f, call_wrapped(f, prefix + access_spec(f)));
    if f.attr.ty.is_none() {
        seq![TokenView::Punct(Punct::Amp)] + e
    } else {
        e
    }
}

/// `<name>: <expr>,` for a named field, `<expr>,` for a positional one.
pub open spec fn snapshot_spec(f: AsyncDebugField, prefix: Seq<TokenView>) -> Seq<TokenView> {
    match f.ident {
        AsyncDebugFieldIdent::Ident(s) => seq![TokenView::Ident(s@), TokenView::Punct(Punct::Colon)]
            + snapshot_expr_spec(f, prefix) + seq![TokenView::Punct(Punct::Comma)],
        AsyncDebugFieldIdent::Index(_) => snapshot_expr_spec(f, prefix) + seq![
            TokenView::Punct(Punct::Comma),
        ],
    }
}

/// The declaration of the field inside the view: `pub(super)` for a record
/// field, then the name for a named field, then the synthetic generic.
pub open spec fn view_field_spec(f: AsyncDebugField) -> Seq<TokenView> {
    let vis: Seq<TokenView> = if f.variant_ident.is_none() {
        seq![
            TokenView::Keyword(Keyword::Pub),
            TokenView::Open(Delim::Paren),
            TokenView::Keyword(Keyword::Super),
            TokenView::Close(Delim::Paren),
        ]
    } else {
        Seq::empty()
    };
    let name: Seq<TokenView> = match f.ident {
        AsyncDebugFieldIdent::Ident(s) => seq![TokenView::Ident(s@), TokenView::Punct(Punct::Colon)],
        AsyncDebugFieldIdent::Index(_) => Seq::empty(),
    };
    vis + name + seq![TokenView::Ident(generic_name(f)), TokenView::Punct(Punct::Comma)]
}

/// Appends the text of a field address.
fn push_ident_text(out: &mut String, i: &AsyncDebugFieldIdent)
    ensures
        final(out)@ == old(out)@ + ident_text(*i),
{
    match i {
        AsyncDebugFieldIdent::Ident(s) => out.append(s.as_str()),
        AsyncDebugFieldIdent::Index(n) => push_decimal(out, *n),
    }
}

impl AsyncDebugField {
    /// Normalises one source field at position `index`, owned by the
    /// variant `variant_ident` (none in a record).
    pub fn new(field: Field, variant_ident: Option<String>, index: usize) -> (r: Result<AsyncDebugField, Error>)
        ensures
            match r {
                Ok(f) => field_errors(field, variant_ident, index).len() == 0 && f == normalised(
                    field,
                    variant_ident,
                    index,
                ),
                Err(e) => field_errors(field, variant_ident, index).len() > 0 && e.messages@
                    == field_errors(field, variant_ident, index),
            },
    {
        let span = Span::Field { variant: crate::error::clone_name(&variant_ident), index };
        let ident: Result<AsyncDebugFieldIdent, Error> = match &field.ident {
            Some(name) => Ok(AsyncDebugFieldIdent::Ident(name.clone())),
            None => if index <= u32::MAX as usize {
                Ok(AsyncDebugFieldIdent::Index(index as u32))
            } else {
                Err(Error::new(span.duplicate(), ErrorKind::IndexOutOfRange))
            },
        };
        let attr: Result<AsyncDebug, Error> = match AsyncDebug::try_from_attributes(&field.attrs, &span) {
            Ok(attr) => match attr.validate(&span) {
                Ok(()) => Ok(attr),
                Err(e) => Err(e),
            },
            Err(e) => Err(e),
        };
        proof {
            if ident is Err {
                assert(ident->Err_0.messages@ =~= field_errors(field, variant_ident, index));
            }
        }
        let (ident, attr) = ident.zip_result(attr)?;
        Ok(AsyncDebugField { field, variant_ident, ident, attr })
    }

    /// The snapshot type of this field.
    pub fn ty(&self) -> (r: Vec<Token>)
        ensures
            toks(r@) == snapshot_type(*self),
    {
        let mut out: Vec<Token> = Vec::new();
        match &self.attr.ty {
            Some(t) => {
                push_token(&mut out, verbatim_token(t));
            },
            None => {
                push_token(&mut out, Token::Punct(Punct::Amp));
                push_token(&mut out, verbatim_token(&self.field.ty));
            },
        }
        assert(toks(out@) =~= snapshot_type(*self));
        out
    }

    /// Whether the snapshot type was given by `ty`.
    pub fn custom_type(&self) -> (r: bool)
        ensures
            r == self.attr.ty.is_some(),
    {
        self.attr.ty.is_some()
    }

    /// The synthetic generic parameter name of this field.
    pub fn generic_argument_ident(&self) -> (r: String)
        ensures
            r@ == generic_name(*self),
    {
        let mut out = String::from_str("T_AsyncDebug_");
        match &self.variant_ident {
            Some(v) => {
                out.append(v.as_str());
                out.append("_");
            },
            None => {},
        }
        push_ident_text(&mut out, &self.ident);
        out
    }

    /// The declaration of this field inside the view.
    pub fn view_field(&self, out: &mut Vec<Token>)
        ensures
            toks(final(out)@) == toks(old(out)@) + view_field_spec(*self),
    {
        let ghost start = toks(out@);
        if self.variant_ident.is_none() {
            push_token(out, Token::Keyword(Keyword::Pub));
            push_token(out, Token::Open(Delim::Paren));
            push_token(out, Token::Keyword(Keyword::Super));
            push_token(out, Token::Close(Delim::Paren));
        }
        let ghost after_vis = toks(out@);
        match &self.ident {
            AsyncDebugFieldIdent::Ident(s) => {
                push_token(out, Token::Ident(s.clone()));
                push_token(out, Token::Punct(Punct::Colon));
            },
            AsyncDebugFieldIdent::Index(_) => {},
        }
        let ghost after_name = toks(out@);
        push_token(out, Token::Ident(self.generic_argument_ident()));
        push_token(out, Token::Punct(Punct::Comma));
        assert(toks(out@) =~= start + view_field_spec(*self));
    }

    /// The field access after the prefix.
    fn access(&self, out: &mut Vec<Token>)
        ensures
            toks(final(out)@) == toks(old(out)@) + access_spec(*self),
    {
        let ghost start = toks(out@);
        match &self.ident {
            AsyncDebugFieldIdent::Ident(s) => {
                push_token(out, Token::Ident(s.clone()));
            },
            AsyncDebugFieldIdent::Index(n) => {
                if self.variant_ident.is_some() {
                    let mut local = String::from_str("self_");
                    push_decimal(&mut local, *n);
                    push_token(out, Token::Ident(local));
                } else {
                    push_token(out, Token::Index(*n));
                }
            },
        }
        assert(toks(out@) =~= start + access_spec(*self));
    }

    /// The snapshot expression of this field reached through `prefix`.
    pub fn snapshot_expr(&self, prefix: &Vec<Token>) -> (r: Vec<Token>)
        ensures
            toks(r@) == snapshot_expr_spec(*self, toks(prefix@)),
    {
        let mut e: Vec<Token> = Vec::new();
        extend_tokens(&mut e, prefix);
        self.access(&mut e);
        assert(toks(e@) =~= toks(prefix@) + access_spec(*self));
        let ghost e0 = toks(e@);
        match &self.attr.async_call {
            Some(c) => {
                let mut w: Vec<Token> = Vec::new();
                let text = match c {
                    Expr::Path(s) => s,
                    Expr::Other(s) => s,
                };
                push_token(&mut w, verbatim_token(text));
                push_token(&mut w, Token::Open(Delim::Paren));
                push_token(&mut w, Token::Punct(Punct::Amp));
                append_tokens(&mut w, e);
                push_token(&mut w, Token::Close(Delim::Paren));
                push_token(&mut w, Token::Punct(Punct::Dot));
                push_token(&mut w, Token::Keyword(Keyword::Await));
                e = w;
            },
            None => {},
        }
        assert(toks(e@) =~= call_wrapped(*self, e0));
        let ghost e1 = toks(e@);
        if self.attr.copy.is_some() {
            let mut w: Vec<Token> = Vec::new();
            push_token(&mut w, Token::Punct(Punct::Star));
            append_tokens(&mut w, e);
            e = w;
        } else if self.attr.clone.is_some() {
            push_token(&mut e, Token::Punct(Punct::Dot));
            push_token(&mut e, ident_token("clone"));
            push_token(&mut e, Token::Open(Delim::Paren));
            push_token(&mut e, Token::Close(Delim::Paren));
        }
        assert(toks(e@) =~= duplicated(*self, e1));
        let ghost e2 = toks(e@);
        if !self.custom_type() {
            let mut w: Vec<Token> = Vec::new();
            push_token(&mut w, Token::Punct(Punct::Amp));
            append_tokens(&mut w, e);
            e = w;
        }
        assert(toks(e@) =~= snapshot_expr_spec(*self, toks(prefix@)));
        e
    }

    /// The snapshot of this field inside the view constructor:
    /// `<name>: <expr>,` or `<expr>,`.
    pub fn to_token_stream(&self, prefix: &Vec<Token>) -> (r: Vec<Token>)
        ensures
            toks(r@) == snapshot_spec(*self, toks(prefix@)),
    {
        let mut out: Vec<Token> = Vec::new();
        match &self.ident {
            AsyncDebugFieldIdent::Ident(s) => {
                push_token(&mut out, Token::Ident(s.clone()));
                push_token(&mut out, Token::Punct(Punct::Colon));
            },
            AsyncDebugFieldIdent::Index(_) => {},
        }
        let ghost head = toks(out@);
        let e = self.snapshot_expr(prefix);
        let ghost ev = toks(e@);
        append_tokens(&mut out, e);
        push_token(&mut out, Token::Punct(Punct::Comma));
        assert(toks(out@) =~= snapshot_spec(*self, toks(prefix@)));
        out
    }
}

/// indexmap's `IndexMap`, held opaque; what a map holds is named by
/// `field_entries` and `variant_entries`.
#[verifier::external_type_specification]
#[verifier::external_body]
#[verifier::reject_recursive_types(K)]
#[verifier::reject_recursive_types(V)]
#[verifier::reject_recursive_types(S)]
pub struct ExIndexMap<K, V, S>(IndexMap<K, V, S>);

/// The fields of a group, keyed by address, in source order.
pub type AsyncDebugFieldsMap = IndexMap<AsyncDebugFieldIdent, AsyncDebugField>;

/// The entries of a field map, in the map's order.
pub uninterp spec fn field_entries(
    m: IndexMap<AsyncDebugFieldIdent, AsyncDebugField>,
) -> Seq<(AsyncDebugFieldIdent, AsyncDebugField)>;

/// Relies on `IndexMap::new`: a new map has no entries.
#[verifier::external_body]
fn new_fields_map() -> (r: IndexMap<AsyncDebugFieldIdent, AsyncDebugField>)
    ensures
        field_entries(r).len() == 0,
{
    IndexMap::new()
}

/// Relies on `IndexMap::insert`: where an equal key is present it keeps its
/// place and takes the new value; otherwise the entry goes last. Keys are
/// equal exactly when their views are (the derived `Eq` and `Hash`).
#[verifier::external_body]
fn insert_field(
    m: &mut IndexMap<AsyncDebugFieldIdent, AsyncDebugField>,
    k: AsyncDebugFieldIdent,
    v: AsyncDebugField,
)
    ensures
        forall|i: int|
            0 <= i < field_entries(*old(m)).len() && (#[trigger] field_entries(*old(m))[i]).0@ == k@
                ==> field_entries(*final(m)) == field_entries(*old(m)).update(
                i,
                (field_entries(*old(m))[i].0, v),
            ),
        (forall|i: int|
            0 <= i < field_entries(*old(m)).len() ==> (#[trigger] field_entries(*old(m))[i]).0@ != k@)
            ==> field_entries(*final(m)) == field_entries(*old(m)).push((k, v)),
{
    m.insert(k, v);
}

/// Relies on `IndexMap::len`: the number of entries.
#[verifier::external_body]
fn fields_len(m: &IndexMap<AsyncDebugFieldIdent, AsyncDebugField>) -> (r: usize)
    ensures
        r == field_entries(*m).len(),
{
    m.len()
}

/// Relies on `IndexMap::get_index`: the entry at position `i` in the map's order.
#[verifier::external_body]
fn field_at(m: &IndexMap<AsyncDebugFieldIdent, AsyncDebugField>, i: usize) -> (r: Option<
    (&AsyncDebugFieldIdent, &AsyncDebugField),
>)
    ensures
        i < field_entries(*m).len() ==> r is Some && *r->Some_0.0 == field_entries(*m)[i as int].0
            && *r->Some_0.1 == field_entries(*m)[i as int].1,
        i >= field_entries(*m).len() ==> r is None,
{
    m.get_index(i)
}

/// The fields of a map, in order.
pub open spec fn fields_of(m: IndexMap<AsyncDebugFieldIdent, AsyncDebugField>) -> Seq<AsyncDebugField> {
    field_entries(m).map_values(|e: (AsyncDebugFieldIdent, AsyncDebugField)| e.1)
}

/// The fields without `skip`, in order.
pub open spec fn non_skipped(fs: Seq<AsyncDebugField>) -> Seq<AsyncDebugField>
    decreases fs.len(),
{
    if fs.len() == 0 {
        Seq::empty()
    } else if fs.last().attr.skip.is_some() {
        non_skipped(fs.drop_last())
    } else {
        non_skipped(fs.drop_last()).push(fs.last())
    }
}

/// The synthetic generic names of the fields without `skip`, in order.
pub open spec fn generic_names(fs: Seq<AsyncDebugField>) -> Seq<Seq<char>> {
    non_skipped(fs).map_values(|f: AsyncDebugField| generic_name(f))
}

/// The snapshot types of the fields without `skip`, in order.
pub open spec fn snapshot_types(fs: Seq<AsyncDebugField>) -> Seq<Seq<TokenView>> {
    non_skipped(fs).map_values(|f: AsyncDebugField| snapshot_type(f))
}

/// The view-field declarations of the fields without `skip`.
pub open spec fn view_fields_spec(fs: Seq<AsyncDebugField>) -> Seq<TokenView> {
    concat(non_skipped(fs).map_values(|f: AsyncDebugField| view_field_spec(f)))
}

/// The snapshots of the fields without `skip`, one per field, in order.
pub open spec fn assignment_list(fs: Seq<AsyncDebugField>, prefix: Seq<TokenView>) -> Seq<Seq<TokenView>> {
    non_skipped(fs).map_values(|f: AsyncDebugField| snapshot_spec(f, prefix))
}

/// The snapshots of the fields without `skip`, one after another.
pub open spec fn assignments_spec(fs: Seq<AsyncDebugField>, prefix: Seq<TokenView>) -> Seq<TokenView> {
    concat(assignment_list(fs, prefix))
}

/// One more field extends the fields without `skip` by it, unless skipped.
pub proof fn lemma_non_skipped_take(fs: Seq<AsyncDebugField>, i: int)
    requires
        0 <= i < fs.len(),
    ensures
        non_skipped(fs.take(i + 1)) == if fs[i].attr.skip.is_some() {
            non_skipped(fs.take(i))
        } else {
            non_skipped(fs.take(i)).push(fs[i])
        },
{
    assert(fs.take(i + 1).drop_last() =~= fs.take(i));
}

/// The generic parameter names and the snapshot types that instantiate them,
/// one of each per field without `skip`, aligned and in source order.
pub fn get_new_generics(fields: &AsyncDebugFieldsMap) -> (r: (Vec<String>, Vec<Vec<Token>>))
    ensures
        texts(r.0@) == generic_names(fields_of(*fields)),
        nested(r.1@) == snapshot_types(fields_of(*fields)),
{
    let ghost fs = fields_of(*fields);
    let mut names: Vec<String> = Vec::new();
    let mut types: Vec<Vec<Token>> = Vec::new();
    let n = fields_len(fields);
    let mut i: usize = 0;
    while i < n
        invariant
            n == fs.len(),
            fs == fields_of(*fields),
            i <= n,
            texts(names@) == generic_names(fs.take(i as int)),
            nested(types@) == snapshot_types(fs.take(i as int)),
        decreases n - i,
    {
        let (_, f) = field_at(fields, i).unwrap();
        assert(*f == fs[i as int]);
        proof {
            lemma_non_skipped_take(fs, i as int);
        }
        if f.attr.skip.is_none() {
            let name = f.generic_argument_ident();
            let ty = f.ty();
            let ghost old_names = names@;
            let ghost old_types = types@;
            names.push(name);
            types.push(ty);
            assert(texts(names@) =~= texts(old_names).push(generic_name(fs[i as int])));
            assert(nested(types@) =~= nested(old_types).push(snapshot_type(fs[i as int])));
            assert(generic_names(fs.take(i + 1)) =~= generic_names(fs.take(i as int)).push(
                generic_name(fs[i as int]),
            ));
            assert(snapshot_types(fs.take(i + 1)) =~= snapshot_types(fs.take(i as int)).push(
                snapshot_type(fs[i as int]),
            ));
        }
        i = i + 1;
    }
    assert(fs.take(n as int) =~= fs);
    (names, types)
}

/// The view-field declarations of the fields without `skip`.
pub fn get_fields_type(fields: &AsyncDebugFieldsMap) -> (r: Vec<Token>)
    ensures
        toks(r@) == view_fields_spec(fields_of(*fields)),
{
    let ghost fs = fields_of(*fields);
    let mut out: Vec<Token> = Vec::new();
    let n = fields_len(fields);
    let mut i: usize = 0;
    while i < n
        invariant
            n == fs.len(),
            fs == fields_of(*fields),
            i <= n,
            toks(out@) == view_fields_spec(fs.take(i as int)),
        decreases n - i,
    {
        let (_, f) = field_at(fields, i).unwrap();
        assert(*f == fs[i as int]);
        proof {
            lemma_non_skipped_take(fs, i as int);
        }
        if f.attr.skip.is_none() {
            f.view_field(&mut out);
            proof {
                let s = non_skipped(fs.take(i as int));
                assert(non_skipped(fs.take(i + 1)).map_values(|f: AsyncDebugField| view_field_spec(f))
                    =~= s.map_values(|f: AsyncDebugField| view_field_spec(f)).push(view_field_spec(fs[i as int])));
                lemma_concat_push(s.map_values(|f: AsyncDebugField| view_field_spec(f)), view_field_spec(fs[i as int]));
            }
        }
        i = i + 1;
    }
    assert(fs.take(n as int) =~= fs);
    out
}

/// The snapshots of the fields without `skip`, each reached through `prefix`.
pub fn to_token_stream_impl_ident_body(fields: &AsyncDebugFieldsMap, prefix: &Vec<Token>) -> (r: Vec<Token>)
    ensures
        toks(r@) == assignments_spec(fields_of(*fields), toks(prefix@)),
{
    let ghost fs = fields_of(*fields);
    let ghost p = toks(prefix@);
    let mut out: Vec<Token> = Vec::new();
    let n = fields_len(fields);
    let mut i: usize = 0;
    while i < n
        invariant
            n == fs.len(),
            fs == fields_of(*fields),
            p == toks(prefix@),
            i <= n,
            toks(out@) == assignments_spec(fs.take(i as int), p),
        decreases n - i,
    {
        let (_, f) = field_at(fields, i).unwrap();
        assert(*f == fs[i as int]);
        proof {
            lemma_non_skipped_take(fs, i as int);
        }
        if f.attr.skip.is_none() {
            let s = f.to_token_stream(prefix);
            append_tokens(&mut out, s);
            proof {
                assert(assignment_list(fs.take(i + 1), p) =~= assignment_list(fs.take(i as int), p).push(
                    snapshot_spec(fs[i as int], p),
                ));
                lemma_concat_push(assignment_list(fs.take(i as int), p), snapshot_spec(fs[i as int], p));
            }
        } else {
            assert(assignment_list(fs.take(i + 1), p) =~= assignment_list(fs.take(i as int), p));
        }
        i = i + 1;
    }
    assert(fs.take(n as int) =~= fs);
    out
}

/// No two named fields share a name.
pub open spec fn distinct_names(fields: Seq<Field>) -> bool {
    forall|a: int, b: int|
        0 <= a < b < fields.len() && (#[trigger] fields[a]).ident is Some && (#[trigger] fields[b]).ident is Some
            ==> fields[a].ident->Some_0@ != fields[b].ident->Some_0@
}

/// The diagnostics of a list of fields, field by field.
pub open spec fn fields_errors(fields: Seq<Field>, variant: Option<String>) -> Seq<Message>
    decreases fields.len(),
{
    if fields.len() == 0 {
        Seq::empty()
    } else {
        fields_errors(fields.drop_last(), variant) + field_errors(
            fields.last(),
            variant,
            (fields.len() - 1) as usize,
        )
    }
}

/// The normalised fields of a list without diagnostics.
pub open spec fn converted(fields: Seq<Field>, variant: Option<String>) -> Seq<AsyncDebugField> {
    Seq::new(fields.len(), |i: int| normalised(fields[i], variant, i as usize))
}

/// The entries that a field map holds for the given fields.
pub open spec fn keyed(fs: Seq<AsyncDebugField>) -> Seq<(AsyncDebugFieldIdent, AsyncDebugField)> {
    fs.map_values(|f: AsyncDebugField| (f.ident, f))
}

proof fn lemma_fields_errors_empty(fields: Seq<Field>, variant: Option<String>)
    ensures
        fields_errors(fields, variant).len() == 0 <==> forall|k: int|
            0 <= k < fields.len() ==> (#[trigger] field_errors(fields[k], variant, k as usize)).len() == 0,
    decreases fields.len(),
{
    if fields.len() > 0 {
        lemma_fields_errors_empty(fields.drop_last(), variant);
        assert forall|k: int| 0 <= k < fields.len() - 1 implies fields.drop_last()[k] == fields[k] by {}
    }
}

/// Normalises the fields of a record or variant. Every field's diagnostics
/// are reported together; without any, the map holds the normalised fields
/// in source order, each keyed by its address.
pub fn convert_fields(fields: Vec<Field>, variant_ident: Option<String>) -> (r: Result<AsyncDebugFieldsMap, Error>)
    ensures
        match r {
            Ok(m) => fields_errors(fields@, variant_ident).len() == 0 && (distinct_names(fields@)
                ==> field_entries(m) == keyed(converted(fields@, variant_ident))),
            Err(e) => fields_errors(fields@, variant_ident).len() > 0 && e.messages@ == fields_errors(
                fields@,
                variant_ident,
            ),
        },
{
    let ghost orig = fields@;
    let ghost variant = variant_ident;
    let total = fields.len();
    let mut rest = fields;
    let mut results: Vec<Result<AsyncDebugField, Error>> = Vec::new();
    let mut i: usize = 0;
    while rest.len() > 0
        invariant
            total == orig.len(),
            i + rest@.len() == orig.len(),
            rest@ == orig.subrange(i as int, orig.len() as int),
            variant == variant_ident,
            results@.len() == i,
            combined_messages(results@) == fields_errors(orig.take(i as int), variant),
            forall|k: int|
                0 <= k < i ==> ((#[trigger] results@[k]) is Ok <==> field_errors(orig[k], variant, k as usize).len()
                    == 0),
            forall|k: int|
                0 <= k < i && (#[trigger] results@[k]) is Ok ==> results@[k]->Ok_0 == normalised(
                    orig[k],
                    variant,
                    k as usize,
                ),
        decreases rest.len(),
    {
        let field = rest.remove(0);
        assert(field == orig[i as int]);
        assert(orig.take(i + 1).drop_last() =~= orig.take(i as int));
        let ghost before = results@;
        let res = AsyncDebugField::new(field, crate::error::clone_name(&variant_ident), i);
        results.push(res);
        assert(results@.drop_last() =~= before);
        i = i + 1;
    }
    assert(orig.take(i as int) =~= orig);
    proof {
        lemma_fields_errors_empty(orig, variant);
    }
    let values = match results.collect_syn_error() {
        Ok(v) => v,
        Err(e) => {
            proof {
                let k = choose|k: int| 0 <= k < i && !(results@[k] is Ok);
                assert(field_errors(orig[k], variant, k as usize).len() > 0);
            }
            return Err(e);
        },
    };
    assert forall|k: int| 0 <= k < orig.len() implies (#[trigger] field_errors(orig[k], variant, k as usize)).len()
        == 0 by {
        assert(results@[k] is Ok);
    }
    assert(values@ =~= converted(orig, variant)) by {
        assert forall|k: int| 0 <= k < values@.len() implies values@[k] == converted(orig, variant)[k] by {
            assert(results@[k] is Ok);
        }
    }
    let ghost cv = values@;
    let mut map = new_fields_map();
    let mut rest = values;
    let mut j: usize = 0;
    while rest.len() > 0
        invariant
            j + rest@.len() == cv.len(),
            cv.len() == orig.len(),
            total == orig.len(),
            forall|k: int| 0 <= k < orig.len() ==> (#[trigger] field_errors(orig[k], variant, k as usize)).len() == 0,
            cv == converted(orig, variant),
            rest@ == cv.subrange(j as int, cv.len() as int),
            distinct_names(orig) ==> field_entries(map) == keyed(cv.take(j as int)),
        decreases rest.len(),
    {
        let f = rest.remove(0);
        assert(f == cv[j as int]);
        let k = f.ident.duplicate();
        let ghost before = field_entries(map);
        insert_field(&mut map, k, f);
        proof {
            if distinct_names(orig) {
            assert forall|a: int| 0 <= a < before.len() implies (#[trigger] before[a]).0@ != cv[j as int].ident@ by {
                assert(before[a] == keyed(cv.take(j as int))[a]);
                assert(cv[a] == normalised(orig[a], variant, a as usize));
                assert(field_errors(orig[a], variant, a as usize).len() == 0);
                assert(field_errors(orig[j as int], variant, j).len() == 0);
                if orig[a].ident is Some && orig[j as int].ident is Some {
                    assert(orig[a].ident->Some_0@ != orig[j as int].ident->Some_0@);
                }
            }
            assert(keyed(cv.take(j + 1)) =~= keyed(cv.take(j as int)).push((cv[j as int].ident, cv[j as int])));
            }
        }
        j = j + 1;
    }
    assert(cv.take(j as int) =~= cv);
    Ok(map)
}

/// The name a match pattern binds a field to: its own name, or `self_<index>`.
pub open spec fn binding_name(f: AsyncDebugField) -> Seq<char> {
    match f.ident {
        AsyncDebugFieldIdent::Ident(s) => s@,
        AsyncDebugFieldIdent::Index(n) => positional_local(n as nat),
    }
}

/// The names a match pattern binds the fields to, skipped fields included.
pub open spec fn binding_names(fs: Seq<AsyncDebugField>) -> Seq<Seq<char>> {
    fs.map_values(|f: AsyncDebugField| binding_name(f))
}

/// The names a match pattern binds the fields of `fields` to.
pub fn get_binding_names(fields: &AsyncDebugFieldsMap) -> (r: Vec<String>)
    ensures
        texts(r@) == binding_names(fields_of(*fields)),
{
    let ghost fs = fields_of(*fields);
    let mut names: Vec<String> = Vec::new();
    let n = fields_len(fields);
    let mut i: usize = 0;
    while i < n
        invariant
            n == fs.len(),
            fs == fields_of(*fields),
            i <= n,
            texts(names@) == binding_names(fs.take(i as int)),
        decreases n - i,
    {
        let (_, f) = field_at(fields, i).unwrap();
        assert(*f == fs[i as int]);
        let name = match &f.ident {
            AsyncDebugFieldIdent::Ident(s) => s.clone(),
            AsyncDebugFieldIdent::Index(k) => {
                let mut local = String::from_str("self_");
                push_decimal(&mut local, *k);
                local
            },
        };
        let ghost old_names = names@;
        names.push(name);
        assert(texts(names@) =~= texts(old_names).push(binding_name(fs[i as int])));
        assert(binding_names(fs.take(i + 1)) =~= binding_names(fs.take(i as int)).push(binding_name(fs[i as int])));
        i = i + 1;
    }
    assert(fs.take(n as int) =~= fs);
    names
}

} // verus!
