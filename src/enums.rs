//! Tagged unions: one match arm and one view variant per source variant.
use vstd::prelude::*;
use indexmap::IndexMap;
use crate::common::{expansion_spec, view_head_spec, GenerationContext};
use crate::error::{combined_messages, Error, ErrorKind, IterCombineSynErrors, Message, Span};
use crate::fields::{
    assignments_spec, binding_names, converted, distinct_names, field_entries, fields_errors, fields_of,
    generic_names, get_binding_names, get_fields_type, get_new_generics, keyed, snapshot_types,
    to_token_stream_impl_ident_body, view_fields_spec, AsyncDebugField, AsyncDebugFieldsMap,
};
use crate::input::{Fields, Variant};
use crate::tokens::{
    append_tokens, concat, flat, lemma_concat_push, name_list, nested, push_name_list, push_token, texts, toks,
    Delim, Keyword, Punct, Token, TokenView,
};

pub mod named;
pub mod unnamed;

use self::named::AsyncDebugVariantNamed;
use self::unnamed::AsyncDebugVariantUnnamed;

verus! {

/// One match arm:
/// `Self::<V> <open> <bindings> <close> => <module>::<Type>::<V> <open> <snapshots> <close>,`.
pub open spec fn arm_spec(
    mod_ident: Seq<char>,
    enum_ident: Seq<char>,
    variant_ident: Seq<char>,
    d: Delim,
    fs: Seq<AsyncDebugField>,
) -> Seq<TokenView> {
    seq![
        TokenView::Keyword(Keyword::SelfType),
        TokenView::Punct(Punct::PathSep),
        TokenView::Ident(variant_ident),
        TokenView::Open(d),
    ] + name_list(binding_names(fs)) + seq![
        TokenView::Close(d),
        TokenView::Punct(Punct::FatArrow),
        TokenView::Ident(mod_ident),
        TokenView::Punct(Punct::PathSep),
        TokenView::Ident(enum_ident),
        TokenView::Punct(Punct::PathSep),
        TokenView::Ident(variant_ident),
        TokenView::Open(d),
    ] + assignments_spec(fs, Seq::empty()) + seq![TokenView::Close(d), TokenView::Punct(Punct::Comma)]
}

/// One view variant: `<V> <open> <view fields> <close>,`.
pub open spec fn view_variant_spec(variant_ident: Seq<char>, d: Delim, fs: Seq<AsyncDebugField>) -> Seq<TokenView> {
    seq![TokenView::Ident(variant_ident), TokenView::Open(d)] + view_fields_spec(fs) + seq![
        TokenView::Close(d),
        TokenView::Punct(Punct::Comma),
    ]
}

/// The match arm of a variant.
pub open spec fn arm_of(mod_ident: Seq<char>, enum_ident: Seq<char>, m: VariantModel) -> Seq<TokenView> {
    arm_spec(mod_ident, enum_ident, m.ident, m.delim, m.fields)
}

/// The view variant of a variant.
pub open spec fn view_variant_of(m: VariantModel) -> Seq<TokenView> {
    view_variant_spec(m.ident, m.delim, m.fields)
}

/// Emits one match arm.
pub fn emit_arm(
    mod_ident: &String,
    enum_ident: &String,
    variant_ident: &String,
    d: Delim,
    fields: &AsyncDebugFieldsMap,
) -> (r: Vec<Token>)
    ensures
        toks(r@) == arm_spec(mod_ident@, enum_ident@, variant_ident@, d, fields_of(*fields)),
{
    let ghost fs = fields_of(*fields);
    let mut out: Vec<Token> = Vec::new();
    push_token(&mut out, Token::Keyword(Keyword::SelfType));
    push_token(&mut out, Token::Punct(Punct::PathSep));
    push_token(&mut out, Token::Ident(variant_ident.clone()));
    push_token(&mut out, Token::Open(d));
    push_name_list(&mut out, &get_binding_names(fields));
    push_token(&mut out, Token::Close(d));
    push_token(&mut out, Token::Punct(Punct::FatArrow));
    push_token(&mut out, Token::Ident(mod_ident.clone()));
    push_token(&mut out, Token::Punct(Punct::PathSep));
    push_token(&mut out, Token::Ident(enum_ident.clone()));
    push_token(&mut out, Token::Punct(Punct::PathSep));
    push_token(&mut out, Token::Ident(variant_ident.clone()));
    push_token(&mut out, Token::Open(d));
    let empty: Vec<Token> = Vec::new();
    assert(toks(empty@) =~= Seq::<TokenView>::empty());
    append_tokens(&mut out, to_token_stream_impl_ident_body(fields, &empty));
    push_token(&mut out, Token::Close(d));
    push_token(&mut out, Token::Punct(Punct::Comma));
    assert(toks(out@) =~= arm_spec(mod_ident@, enum_ident@, variant_ident@, d, fs));
    out
}

/// Emits one view variant.
pub fn emit_view_variant(variant_ident: &String, d: Delim, fields: &AsyncDebugFieldsMap) -> (r: Vec<Token>)
    ensures
        toks(r@) == view_variant_spec(variant_ident@, d, fields_of(*fields)),
{
    let mut out: Vec<Token> = Vec::new();
    push_token(&mut out, Token::Ident(variant_ident.clone()));
    push_token(&mut out, Token::Open(d));
    append_tokens(&mut out, get_fields_type(fields));
    push_token(&mut out, Token::Close(d));
    push_token(&mut out, Token::Punct(Punct::Comma));
    assert(toks(out@) =~= view_variant_spec(variant_ident@, d, fields_of(*fields)));
    out
}

/// A variant ready to emit. Variants without fields are refused when built.
#[derive(Debug)]
pub enum AsyncDebugVariant {
    Named(AsyncDebugVariantNamed),
    Unnamed(AsyncDebugVariantUnnamed),
}

/// The diagnostics of one variant: its fields', or one for a unit variant.
pub open spec fn variant_errors(v: Variant) -> Seq<Message> {
    match v.fields {
        Fields::Named(fs) => fields_errors(fs@, Some(v.ident)),
        Fields::Unnamed(fs) => fields_errors(fs@, Some(v.ident)),
        Fields::Unit => seq![Message { kind: ErrorKind::UnitForm, span: Span::CallSite }],
    }
}

/// What the output reads of a variant: its name, its delimiter, its fields.
pub struct VariantModel {
    pub ident: Seq<char>,
    pub delim: Delim,
    pub fields: Seq<AsyncDebugField>,
}

/// The model of a source variant with named or positional fields.
pub open spec fn source_model(v: Variant) -> VariantModel {
    match v.fields {
        Fields::Named(fs) => VariantModel {
            ident: v.ident@,
            delim: Delim::Brace,
            fields: converted(fs@, Some(v.ident)),
        },
        Fields::Unnamed(fs) => VariantModel {
            ident: v.ident@,
            delim: Delim::Paren,
            fields: converted(fs@, Some(v.ident)),
        },
        Fields::Unit => VariantModel { ident: v.ident@, delim: Delim::Paren, fields: Seq::empty() },
    }
}

/// No two named fields of the variant share a name.
pub open spec fn variant_distinct_names(v: Variant) -> bool {
    match v.fields {
        Fields::Named(fs) => distinct_names(fs@),
        Fields::Unnamed(fs) => distinct_names(fs@),
        Fields::Unit => true,
    }
}

/// How a built variant relates to its source variant.
pub open spec fn built_from(b: AsyncDebugVariant, v: Variant) -> bool {
    match b {
        AsyncDebugVariant::Named(n) => {
            &&& v.fields is Named
            &&& n.variant_ident == v.ident
            &&& distinct_names(v.fields->Named_0@) ==> field_entries(n.fields) == keyed(
                converted(v.fields->Named_0@, Some(v.ident)),
            )
        },
        AsyncDebugVariant::Unnamed(u) => {
            &&& v.fields is Unnamed
            &&& u.variant_ident == v.ident
            &&& distinct_names(v.fields->Unnamed_0@) ==> field_entries(u.fields) == keyed(
                converted(v.fields->Unnamed_0@, Some(v.ident)),
            )
        },
    }
}

impl AsyncDebugVariant {
    /// The variant's name.
    pub open spec fn spec_ident(self) -> String {
        match self {
            AsyncDebugVariant::Named(n) => n.variant_ident,
            AsyncDebugVariant::Unnamed(u) => u.variant_ident,
        }
    }

    /// What the output reads of the variant.
    pub open spec fn model(self) -> VariantModel {
        match self {
            AsyncDebugVariant::Named(n) => VariantModel {
                ident: n.variant_ident@,
                delim: Delim::Brace,
                fields: fields_of(n.fields),
            },
            AsyncDebugVariant::Unnamed(u) => VariantModel {
                ident: u.variant_ident@,
                delim: Delim::Paren,
                fields: fields_of(u.fields),
            },
        }
    }

    /// Builds a variant; fails with the diagnostics of its fields, or for a
    /// unit variant.
    pub fn new(variant: Variant) -> (r: Result<AsyncDebugVariant, Error>)
        ensures
            match r {
                Ok(b) => variant_errors(variant).len() == 0 && built_from(b, variant),
                Err(e) => variant_errors(variant).len() > 0 && e.messages@ == variant_errors(variant),
            },
    {
        let Variant { ident, fields } = variant;
        match fields {
            Fields::Named(fs) => {
                let v = AsyncDebugVariantNamed::new(ident, fs)?;
                Ok(AsyncDebugVariant::Named(v))
            },
            Fields::Unnamed(fs) => {
                let v = AsyncDebugVariantUnnamed::new(ident, fs)?;
                Ok(AsyncDebugVariant::Unnamed(v))
            },
            Fields::Unit => Err(Error::new_call_site(ErrorKind::UnitForm)),
        }
    }

    /// A copy of the variant's name.
    pub fn ident(&self) -> (r: String)
        ensures
            r == self.spec_ident(),
    {
        match self {
            AsyncDebugVariant::Named(n) => n.variant_ident.clone(),
            AsyncDebugVariant::Unnamed(u) => u.variant_ident.clone(),
        }
    }

    /// The generic names and snapshot types of the variant's fields.
    pub fn get_new_generics(&self) -> (r: (Vec<String>, Vec<Vec<Token>>))
        ensures
            texts(r.0@) == generic_names(self.model().fields),
            nested(r.1@) == snapshot_types(self.model().fields),
    {
        match self {
            AsyncDebugVariant::Named(n) => get_new_generics(&n.fields),
            AsyncDebugVariant::Unnamed(u) => get_new_generics(&u.fields),
        }
    }

    /// The variant's match arm.
    pub fn to_token_stream_impl_ident_body(&self, mod_ident: &String, enum_ident: &String) -> (r: Vec<Token>)
        ensures
            toks(r@) == arm_of(mod_ident@, enum_ident@, self.model()),
    {
        match self {
            AsyncDebugVariant::Named(n) => n.to_token_stream_impl_ident_body(mod_ident, enum_ident),
            AsyncDebugVariant::Unnamed(u) => u.to_token_stream_impl_ident_body(mod_ident, enum_ident),
        }
    }

    /// The variant's view variant.
    pub fn to_token_stream(&self) -> (r: Vec<Token>)
        ensures
            toks(r@) == view_variant_of(self.model()),
    {
        match self {
            AsyncDebugVariant::Named(n) => n.to_token_stream(),
            AsyncDebugVariant::Unnamed(u) => u.to_token_stream(),
        }
    }
}

/// The variants of a union, keyed by name, in source order.
pub type AsyncDebugVariantsMap = IndexMap<String, AsyncDebugVariant>;

/// The entries of a variant map, in the map's order.
pub uninterp spec fn variant_entries(m: IndexMap<String, AsyncDebugVariant>) -> Seq<(String, AsyncDebugVariant)>;

/// Relies on `IndexMap::new`: a new map has no entries.
#[verifier::external_body]
fn new_variants_map() -> (r: IndexMap<String, AsyncDebugVariant>)
    ensures
        variant_entries(r).len() == 0,
{
    IndexMap::new()
}

/// Relies on `IndexMap::insert`: where an equal key is present it keeps its
/// place and takes the new value; otherwise the entry goes last. `String`
/// keys are equal exactly when their texts are.
#[verifier::external_body]
fn insert_variant(m: &mut IndexMap<String, AsyncDebugVariant>, k: String, v: AsyncDebugVariant)
    ensures
        forall|i: int|
            0 <= i < variant_entries(*old(m)).len() && (#[trigger] variant_entries(*old(m))[i]).0@ == k@
                ==> variant_entries(*final(m)) == variant_entries(*old(m)).update(
                i,
                (variant_entries(*old(m))[i].0, v),
            ),
        (forall|i: int|
            0 <= i < variant_entries(*old(m)).len() ==> (#[trigger] variant_entries(*old(m))[i]).0@ != k@)
            ==> variant_entries(*final(m)) == variant_entries(*old(m)).push((k, v)),
{
    m.insert(k, v);
}

/// Relies on `IndexMap::len`: the number of entries.
#[verifier::external_body]
fn variants_len(m: &IndexMap<String, AsyncDebugVariant>) -> (r: usize)
    ensures
        r == variant_entries(*m).len(),
{
    m.len()
}

/// Relies on `IndexMap::get_index`: the entry at position `i` in the map's order.
#[verifier::external_body]
fn variant_at(m: &IndexMap<String, AsyncDebugVariant>, i: usize) -> (r: Option<(&String, &AsyncDebugVariant)>)
    ensures
        i < variant_entries(*m).len() ==> r is Some && *r->Some_0.0 == variant_entries(*m)[i as int].0
            && *r->Some_0.1 == variant_entries(*m)[i as int].1,
        i >= variant_entries(*m).len() ==> r is None,
{
    m.get_index(i)
}

/// The variants of a map, in order.
pub open spec fn variants_of(m: IndexMap<String, AsyncDebugVariant>) -> Seq<AsyncDebugVariant> {
    variant_entries(m).map_values(|e: (String, AsyncDebugVariant)| e.1)
}

/// The diagnostics of a list of variants, variant by variant.
pub open spec fn variants_errors(vs: Seq<Variant>) -> Seq<Message>
    decreases vs.len(),
{
    if vs.len() == 0 {
        Seq::empty()
    } else {
        variants_errors(vs.drop_last()) + variant_errors(vs.last())
    }
}

/// No two variants share a name.
pub open spec fn distinct_variants(vs: Seq<Variant>) -> bool {
    forall|a: int, b: int| 0 <= a < b < vs.len() ==> (#[trigger] vs[a]).ident@ != (#[trigger] vs[b]).ident@
}

/// What the output reads of each built variant.
pub open spec fn models(vs: Seq<AsyncDebugVariant>) -> Seq<VariantModel> {
    vs.map_values(|v: AsyncDebugVariant| v.model())
}

/// The generic names of all variants' fields, variant by variant.
pub open spec fn enum_generic_names(ms: Seq<VariantModel>) -> Seq<Seq<char>> {
    flat(ms.map_values(|m: VariantModel| generic_names(m.fields)))
}

/// The snapshot types of all variants' fields, variant by variant.
pub open spec fn enum_snapshot_types(ms: Seq<VariantModel>) -> Seq<Seq<TokenView>> {
    flat(ms.map_values(|m: VariantModel| snapshot_types(m.fields)))
}

/// The method body: `match self { <arm> ... }`.
pub open spec fn enum_body(c: GenerationContext, ms: Seq<VariantModel>) -> Seq<TokenView> {
    seq![
        TokenView::Keyword(Keyword::Match),
        TokenView::Keyword(Keyword::SelfValue),
        TokenView::Open(Delim::Brace),
    ] + concat(ms.map_values(|m: VariantModel| arm_of(c.mod_ident@, c.ident@, m))) + seq![
        TokenView::Close(Delim::Brace),
    ]
}

/// The view: `pub enum <Type><generics> { <view variant> ... }`.
pub open spec fn enum_item(c: GenerationContext, ms: Seq<VariantModel>) -> Seq<TokenView> {
    view_head_spec(c, Keyword::Enum, enum_generic_names(ms)) + seq![TokenView::Open(Delim::Brace)] + concat(
        ms.map_values(|m: VariantModel| view_variant_of(m)),
    ) + seq![TokenView::Close(Delim::Brace)]
}

/// The whole output for a tagged union.
pub open spec fn enum_spec(c: GenerationContext, ms: Seq<VariantModel>) -> Seq<TokenView> {
    expansion_spec(c, enum_snapshot_types(ms), enum_body(c, ms), enum_item(c, ms))
}

/// A tagged union, ready to emit.
#[derive(Debug)]
pub struct AsyncDebugEnum {
    pub ctx: GenerationContext,
    pub variants: AsyncDebugVariantsMap,
}

proof fn lemma_variants_errors_empty(vs: Seq<Variant>)
    ensures
        variants_errors(vs).len() == 0 <==> forall|k: int|
            0 <= k < vs.len() ==> (#[trigger] variant_errors(vs[k])).len() == 0,
    decreases vs.len(),
{
    if vs.len() > 0 {
        lemma_variants_errors_empty(vs.drop_last());
        assert forall|k: int| 0 <= k < vs.len() - 1 implies vs.drop_last()[k] == vs[k] by {}
    }
}

impl AsyncDebugEnum {
    /// Builds every variant; fails with the diagnostics of all variants
    /// together. Without any, the map holds one built variant per source
    /// variant, in order, keyed by name.
    pub fn new(ctx: GenerationContext, variants: Vec<Variant>) -> (r: Result<AsyncDebugEnum, Error>)
        ensures
            match r {
                Ok(e) => {
                    &&& e.ctx == ctx
                    &&& variants_errors(variants@).len() == 0
                    &&& distinct_variants(variants@) ==> {
                        &&& variant_entries(e.variants).len() == variants@.len()
                        &&& forall|i: int|
                            0 <= i < variants@.len() ==> (#[trigger] variant_entries(e.variants)[i]).0
                                == variants@[i].ident && built_from(
                                variant_entries(e.variants)[i].1,
                                variants@[i],
                            )
                    }
                },
                Err(e) => variants_errors(variants@).len() > 0 && e.messages@ == variants_errors(variants@),
            },
    {
        let ghost orig = variants@;
        let total = variants.len();
        let mut rest = variants;
        let mut results: Vec<Result<AsyncDebugVariant, Error>> = Vec::new();
        let mut i: usize = 0;
        while rest.len() > 0
            invariant
                total == orig.len(),
                i + rest@.len() == orig.len(),
                rest@ == orig.subrange(i as int, orig.len() as int),
                results@.len() == i,
                combined_messages(results@) == variants_errors(orig.take(i as int)),
                forall|k: int|
                    0 <= k < i ==> ((#[trigger] results@[k]) is Ok <==> variant_errors(orig[k]).len() == 0),
                forall|k: int|
                    0 <= k < i && (#[trigger] results@[k]) is Ok ==> built_from(results@[k]->Ok_0, orig[k]),
            decreases rest.len(),
        {
            let variant = rest.remove(0);
            assert(variant == orig[i as int]);
            assert(orig.take(i + 1).drop_last() =~= orig.take(i as int));
            let ghost before = results@;
            let res = AsyncDebugVariant::new(variant);
            results.push(res);
            assert(results@.drop_last() =~= before);
            i = i + 1;
        }
        assert(orig.take(i as int) =~= orig);
        proof {
            lemma_variants_errors_empty(orig);
        }
        let built = match results.collect_syn_error() {
            Ok(v) => v,
            Err(e) => {
                proof {
                    let k = choose|k: int| 0 <= k < i && !(results@[k] is Ok);
                    assert(variant_errors(orig[k]).len() > 0);
                }
                return Err(e);
            },
        };
        assert forall|k: int| 0 <= k < orig.len() implies (#[trigger] variant_errors(orig[k])).len() == 0
            && built_from(built@[k], orig[k]) by {
            assert(results@[k] is Ok);
        }
        let ghost bv = built@;
        let mut map = new_variants_map();
        let mut rest = built;
        let mut j: usize = 0;
        while rest.len() > 0
            invariant
                j + rest@.len() == bv.len(),
                bv.len() == orig.len(),
                total == orig.len(),
                rest@ == bv.subrange(j as int, bv.len() as int),
                forall|k: int| 0 <= k < orig.len() ==> built_from(#[trigger] bv[k], orig[k]),
                distinct_variants(orig) ==> variant_entries(map).len() == j,
                distinct_variants(orig) ==> forall|k: int|
                    0 <= k < j ==> (#[trigger] variant_entries(map)[k]).0 == orig[k].ident
                        && variant_entries(map)[k].1 == bv[k],
            decreases rest.len(),
        {
            let v = rest.remove(0);
            assert(v == bv[j as int]);
            let k = v.ident();
            proof {
                assert(built_from(bv[j as int], orig[j as int]));
            }
            let ghost before = variant_entries(map);
            insert_variant(&mut map, k, v);
            proof {
                if distinct_variants(orig) {
                    assert forall|a: int| 0 <= a < before.len() implies (#[trigger] before[a]).0@ != k@ by {
                        assert(orig[a].ident@ != orig[j as int].ident@);
                    }
                }
            }
            j = j + 1;
        }
        Ok(AsyncDebugEnum { ctx, variants: map })
    }
}

impl AsyncDebugEnum {
    /// The generic names and snapshot types of every variant's fields,
    /// variant by variant, aligned.
    pub fn get_new_generics(&self) -> (r: (Vec<String>, Vec<Vec<Token>>))
        ensures
            texts(r.0@) == enum_generic_names(models(variants_of(self.variants))),
            nested(r.1@) == enum_snapshot_types(models(variants_of(self.variants))),
    {
        let ghost vs = variants_of(self.variants);
        let ghost ms = models(vs);
        let mut names: Vec<String> = Vec::new();
        let mut types: Vec<Vec<Token>> = Vec::new();
        let n = variants_len(&self.variants);
        let mut i: usize = 0;
        while i < n
            invariant
                n == vs.len(),
                vs == variants_of(self.variants),
                i <= n,
                ms == models(vs),
                texts(names@) == enum_generic_names(ms.take(i as int)),
                nested(types@) == enum_snapshot_types(ms.take(i as int)),
            decreases n - i,
        {
            let (_, v) = variant_at(&self.variants, i).unwrap();
            assert(*v == vs[i as int]);
            let (mut vn, mut vt) = v.get_new_generics();
            let ghost gn = texts(vn@);
            let ghost gt = nested(vt@);
            let ghost old_names = names@;
            let ghost old_types = types@;
            names.append(&mut vn);
            types.append(&mut vt);
            proof {
                assert(texts(names@) =~= texts(old_names) + gn);
                assert(nested(types@) =~= nested(old_types) + gt);
                let f1 = |m: VariantModel| generic_names(m.fields);
                let f2 = |m: VariantModel| snapshot_types(m.fields);
                assert(ms[i as int] == vs[i as int].model());
                assert(ms.take(i + 1).map_values(f1).drop_last() =~= ms.take(i as int).map_values(f1));
                assert(ms.take(i + 1).map_values(f2).drop_last() =~= ms.take(i as int).map_values(f2));
            }
            i = i + 1;
        }
        assert(ms.take(n as int) =~= ms);
        (names, types)
    }

    /// The match arms of every variant.
    pub fn to_token_stream_impl_ident_bodies(&self) -> (r: Vec<Token>)
        ensures
            toks(r@) == concat(
                models(variants_of(self.variants)).map_values(
                    |m: VariantModel| arm_of(self.ctx.mod_ident@, self.ctx.ident@, m),
                ),
            ),
    {
        let ghost vs = variants_of(self.variants);
        let ghost ms = models(vs);
        let ghost m = self.ctx.mod_ident@;
        let ghost e = self.ctx.ident@;
        let mut out: Vec<Token> = Vec::new();
        let n = variants_len(&self.variants);
        let mut i: usize = 0;
        while i < n
            invariant
                n == vs.len(),
                vs == variants_of(self.variants),
                ms == models(vs),
                m == self.ctx.mod_ident@,
                e == self.ctx.ident@,
                i <= n,
                toks(out@) == concat(ms.take(i as int).map_values(|x: VariantModel| arm_of(m, e, x))),
            decreases n - i,
        {
            let (_, v) = variant_at(&self.variants, i).unwrap();
            assert(*v == vs[i as int]);
            append_tokens(&mut out, v.to_token_stream_impl_ident_body(&self.ctx.mod_ident, &self.ctx.ident));
            proof {
                let f = |x: VariantModel| arm_of(m, e, x);
                assert(ms[i as int] == vs[i as int].model());
                assert(ms.take(i + 1).map_values(f) =~= ms.take(i as int).map_values(f).push(f(ms[i as int])));
                lemma_concat_push(ms.take(i as int).map_values(f), f(ms[i as int]));
            }
            i = i + 1;
        }
        assert(ms.take(n as int) =~= ms);
        out
    }

    /// The view variants of every variant.
    pub fn get_variants(&self) -> (r: Vec<Token>)
        ensures
            toks(r@) == concat(models(variants_of(self.variants)).map_values(|m: VariantModel| view_variant_of(m))),
    {
        let ghost vs = variants_of(self.variants);
        let ghost ms = models(vs);
        let mut out: Vec<Token> = Vec::new();
        let n = variants_len(&self.variants);
        let mut i: usize = 0;
        while i < n
            invariant
                n == vs.len(),
                vs == variants_of(self.variants),
                ms == models(vs),
                i <= n,
                toks(out@) == concat(ms.take(i as int).map_values(|m: VariantModel| view_variant_of(m))),
            decreases n - i,
        {
            let (_, v) = variant_at(&self.variants, i).unwrap();
            assert(*v == vs[i as int]);
            append_tokens(&mut out, v.to_token_stream());
            proof {
                let f = |m: VariantModel| view_variant_of(m);
                assert(ms[i as int] == vs[i as int].model());
                assert(ms.take(i + 1).map_values(f) =~= ms.take(i as int).map_values(f).push(f(ms[i as int])));
                lemma_concat_push(ms.take(i as int).map_values(f), f(ms[i as int]));
            }
            i = i + 1;
        }
        assert(ms.take(n as int) =~= ms);
        out
    }

    /// Emits the marker impl, the method, and the view.
    pub fn to_token_stream(&self) -> (r: Vec<Token>)
        ensures
            toks(r@) == enum_spec(self.ctx, models(variants_of(self.variants))),
    {
        let ghost vs = models(variants_of(self.variants));
        let (names, types) = self.get_new_generics();
        let mut body: Vec<Token> = Vec::new();
        push_token(&mut body, Token::Keyword(Keyword::Match));
        push_token(&mut body, Token::Keyword(Keyword::SelfValue));
        push_token(&mut body, Token::Open(Delim::Brace));
        append_tokens(&mut body, self.to_token_stream_impl_ident_bodies());
        push_token(&mut body, Token::Close(Delim::Brace));
        assert(toks(body@) =~= enum_body(self.ctx, vs));
        let mut item: Vec<Token> = Vec::new();
        self.ctx.view_head(&mut item, Keyword::Enum, &names);
        push_token(&mut item, Token::Open(Delim::Brace));
        append_tokens(&mut item, self.get_variants());
        push_token(&mut item, Token::Close(Delim::Brace));
        assert(toks(item@) =~= enum_item(self.ctx, vs));
        let mut out: Vec<Token> = Vec::new();
        self.ctx.marker_impl(&mut out);
        self.ctx.method_impl(&mut out, &types, body);
        self.ctx.view_module(&mut out, item);
        assert(toks(out@) =~= enum_spec(self.ctx, vs));
        out
    }
}

} // verus!
