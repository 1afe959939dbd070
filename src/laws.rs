//! Properties of the generated output, stated over the specification
//! functions that the generator's contracts use, and proved.
use vstd::prelude::*;
use crate::common::{
    expansion_spec, marker_impl_spec, method_impl_spec, snake_case_of, view_module_spec, view_type_spec,
    GenerationContext,
};
use crate::enums::{enum_body, enum_item, enum_snapshot_types, enum_generic_names, VariantModel};
use crate::fields::{
    access_spec, assignment_list, assignments_spec, call_wrapped, duplicated, generic_name, generic_names,
    non_skipped, snapshot_expr_spec, snapshot_type, snapshot_types, snapshot_spec, view_fields_spec,
    AsyncDebugField,
};
use crate::input::{Data, DeriveInput, Fields};
use crate::attr_prop::no_directives;
use crate::fields::converted;
use crate::structs::named::{struct_named_body, struct_named_item};
use crate::structs::unnamed::{struct_unnamed_body, struct_unnamed_item};
use crate::tokens::{concat, flat, Delim, Keyword, Punct, TokenView};
use crate::{context_of, output_spec, source_models};

verus! {

/// Whether a field takes part in the view.
pub open spec fn kept(f: AsyncDebugField) -> bool {
    f.attr.skip.is_none()
}

/// The fields without `skip`, in source order.
pub open spec fn kept_fields(fs: Seq<AsyncDebugField>) -> Seq<AsyncDebugField> {
    fs.filter(|f: AsyncDebugField| kept(f))
}

/// The fields that take part in the view are those without `skip`.
pub proof fn lemma_non_skipped_is_kept(fs: Seq<AsyncDebugField>)
    ensures
        non_skipped(fs) == kept_fields(fs),
    decreases fs.len(),
{
    reveal(Seq::filter);
    if fs.len() > 0 {
        lemma_non_skipped_is_kept(fs.drop_last());
    }
}

/// The view of a record has exactly one generic parameter per field
/// without `skip`: the synthetic name of that field, in source order.
pub proof fn law_view_generics_per_kept_field(fs: Seq<AsyncDebugField>)
    ensures
        generic_names(fs).len() == kept_fields(fs).len(),
        forall|i: int|
            0 <= i < kept_fields(fs).len() ==> generic_names(fs)[i] == generic_name(
                #[trigger] kept_fields(fs)[i],
            ),
{
    lemma_non_skipped_is_kept(fs);
}

/// The number of fields without `skip` over all variants.
pub open spec fn kept_count(ms: Seq<VariantModel>) -> nat
    decreases ms.len(),
{
    if ms.len() == 0 {
        0
    } else {
        kept_count(ms.drop_last()) + kept_fields(ms.last().fields).len()
    }
}

/// The view of a tagged union has exactly one generic parameter per field
/// without `skip`, over all its variants.
pub proof fn law_enum_view_generics_per_kept_field(ms: Seq<VariantModel>)
    ensures
        enum_generic_names(ms).len() == kept_count(ms),
    decreases ms.len(),
{
    if ms.len() > 0 {
        law_enum_view_generics_per_kept_field(ms.drop_last());
        law_view_generics_per_kept_field(ms.last().fields);
        let g = |m: VariantModel| generic_names(m.fields);
        assert(ms.map_values(g).drop_last() =~= ms.drop_last().map_values(g));
    }
}

/// The type arguments of the method's return type, for a declaration.
pub open spec fn method_args_of(data: Data) -> Seq<Seq<TokenView>> {
    match data {
        Data::Struct(Fields::Named(fs)) => snapshot_types(converted(fs@, None)),
        Data::Struct(Fields::Unnamed(fs)) => snapshot_types(converted(fs@, None)),
        Data::Enum(vs) => enum_snapshot_types(source_models(vs@)),
        _ => Seq::empty(),
    }
}

/// The body of the method, for a declaration.
pub open spec fn method_body_of(c: GenerationContext, data: Data) -> Seq<TokenView> {
    match data {
        Data::Struct(Fields::Named(fs)) => struct_named_body(c, converted(fs@, None)),
        Data::Struct(Fields::Unnamed(fs)) => struct_unnamed_body(c, converted(fs@, None)),
        Data::Enum(vs) => enum_body(c, source_models(vs@)),
        _ => Seq::empty(),
    }
}

/// The view item inside the nested module, for a declaration.
pub open spec fn view_item_of(c: GenerationContext, data: Data) -> Seq<TokenView> {
    match data {
        Data::Struct(Fields::Named(fs)) => struct_named_item(c, converted(fs@, None)),
        Data::Struct(Fields::Unnamed(fs)) => struct_unnamed_item(c, converted(fs@, None)),
        Data::Enum(vs) => enum_item(c, source_models(vs@)),
        _ => Seq::empty(),
    }
}

/// Whether the declaration has a shape the generator emits for.
pub open spec fn emitted_shape(data: Data) -> bool {
    match data {
        Data::Struct(Fields::Named(_)) => true,
        Data::Struct(Fields::Unnamed(_)) => true,
        Data::Enum(_) => true,
        _ => false,
    }
}

/// The output is the marker impl, then the method impl, then the nested
/// module holding the view.
pub proof fn lemma_output_parts(c: GenerationContext, data: Data)
    requires
        emitted_shape(data),
    ensures
        output_spec(c, data) == expansion_spec(c, method_args_of(data), method_body_of(c, data), view_item_of(c, data)),
{
}

/// The method returns the view type applied to the snapshot types of the
/// fields without `skip`, in source order (variant by variant in a union).
pub proof fn law_return_type(c: GenerationContext, data: Data)
    requires
        emitted_shape(data),
    ensures
        output_spec(c, data) == marker_impl_spec(c) + method_impl_spec(c, method_args_of(data), method_body_of(c, data))
            + view_module_spec(c, view_item_of(c, data)),
        method_impl_spec(c, method_args_of(data), method_body_of(c, data)).subrange(
            19,
            19 + view_type_spec(c, method_args_of(data)).len() as int,
        ) == view_type_spec(c, method_args_of(data)),
        match data {
            Data::Struct(Fields::Named(fs)) => method_args_of(data) == kept_fields(converted(fs@, None)).map_values(
                |f: AsyncDebugField| snapshot_type(f),
            ),
            Data::Struct(Fields::Unnamed(fs)) => method_args_of(data) == kept_fields(converted(fs@, None)).map_values(
                |f: AsyncDebugField| snapshot_type(f),
            ),
            Data::Enum(vs) => method_args_of(data) == flat(
                source_models(vs@).map_values(
                    |m: VariantModel| kept_fields(m.fields).map_values(|f: AsyncDebugField| snapshot_type(f)),
                ),
            ),
            _ => true,
        },
{
    let args = method_args_of(data);
    let body = method_body_of(c, data);
    assert(method_impl_spec(c, args, body).subrange(19, 19 + view_type_spec(c, args).len() as int) =~= view_type_spec(
        c,
        args,
    ));
    match data {
        Data::Struct(Fields::Named(fs)) => {
            lemma_non_skipped_is_kept(converted(fs@, None));
        },
        Data::Struct(Fields::Unnamed(fs)) => {
            lemma_non_skipped_is_kept(converted(fs@, None));
        },
        Data::Enum(vs) => {
            let ms = source_models(vs@);
            let f1 = |m: VariantModel| snapshot_types(m.fields);
            let f2 = |m: VariantModel| kept_fields(m.fields).map_values(|f: AsyncDebugField| snapshot_type(f));
            assert forall|i: int| 0 <= i < ms.len() implies ms.map_values(f1)[i] == ms.map_values(f2)[i] by {
                lemma_non_skipped_is_kept(ms[i].fields);
            }
            assert(ms.map_values(f1) =~= ms.map_values(f2));
        },
        _ => {},
    }
}

/// The constructor holds one snapshot per field without `skip`, in source
/// order, and nothing else.
pub proof fn law_constructor_per_kept_field(fs: Seq<AsyncDebugField>, prefix: Seq<TokenView>)
    ensures
        assignment_list(fs, prefix).len() == kept_fields(fs).len(),
        forall|i: int|
            0 <= i < kept_fields(fs).len() ==> assignment_list(fs, prefix)[i] == snapshot_spec(
                #[trigger] kept_fields(fs)[i],
                prefix,
            ),
        assignments_spec(fs, prefix) == concat(assignment_list(fs, prefix)),
{
    lemma_non_skipped_is_kept(fs);
}

/// Whether a token is a suspension point.
pub open spec fn is_await(t: TokenView) -> bool {
    t == TokenView::Keyword(Keyword::Await)
}

/// The number of suspension points in a token sequence.
pub open spec fn suspension_points(s: Seq<TokenView>) -> nat {
    s.filter(|t: TokenView| is_await(t)).len()
}

proof fn lemma_points_push(s: Seq<TokenView>, t: TokenView)
    ensures
        suspension_points(s.push(t)) == suspension_points(s) + if is_await(t) {
            1nat
        } else {
            0nat
        },
{
    reveal(Seq::filter);
    assert(s.push(t).drop_last() =~= s);
}

proof fn lemma_points_add(a: Seq<TokenView>, b: Seq<TokenView>)
    ensures
        suspension_points(a + b) == suspension_points(a) + suspension_points(b),
{
    Seq::filter_distributes_over_add(a, b, |t: TokenView| is_await(t));
}

proof fn lemma_points_empty()
    ensures
        suspension_points(Seq::<TokenView>::empty()) == 0,
{
    reveal(Seq::filter);
}

proof fn lemma_no_points(s: Seq<TokenView>)
    requires
        forall|i: int| 0 <= i < s.len() ==> !is_await(#[trigger] s[i]),
    ensures
        suspension_points(s) == 0,
    decreases s.len(),
{
    reveal(Seq::filter);
    if s.len() > 0 {
        lemma_no_points(s.drop_last());
    }
}

proof fn lemma_access_no_points(f: AsyncDebugField)
    ensures
        suspension_points(access_spec(f)) == 0,
{
    lemma_points_empty();
    lemma_points_push(Seq::empty(), access_spec(f)[0]);
    assert(access_spec(f) =~= Seq::<TokenView>::empty().push(access_spec(f)[0]));
}

/// A field with `async_call` has exactly one suspension point in its
/// snapshot expression, and a field without it has none.
pub proof fn law_async_call_suspends_once(f: AsyncDebugField, prefix: Seq<TokenView>)
    requires
        suspension_points(prefix) == 0,
    ensures
        suspension_points(snapshot_expr_spec(f, prefix)) == if f.attr.async_call is Some {
            1nat
        } else {
            0nat
        },
{
    let e0 = prefix + access_spec(f);
    lemma_access_no_points(f);
    lemma_points_add(prefix, access_spec(f));
    lemma_points_empty();
    let e1 = call_wrapped(f, e0);
    match f.attr.async_call {
        Some(c) => {
            let head = seq![
                TokenView::Verbatim(crate::fields::expr_text(c)),
                TokenView::Open(Delim::Paren),
                TokenView::Punct(Punct::Amp),
            ];
            let tail = seq![
                TokenView::Close(Delim::Paren),
                TokenView::Punct(Punct::Dot),
                TokenView::Keyword(Keyword::Await),
            ];
            lemma_no_points(head);
            lemma_no_points(tail.take(2));
            lemma_points_push(tail.take(2), tail[2]);
            assert(tail.take(2).push(tail[2]) =~= tail);
            assert(suspension_points(e0) == 0);
            assert(suspension_points(head) == 0);
            assert(suspension_points(tail) == 1);
            lemma_points_add(head, e0);
            lemma_points_add(head + e0, tail);
            assert(e1 == head + e0 + tail);
            assert(suspension_points(e1) == 1);
        },
        None => {},
    }
    let e2 = duplicated(f, e1);
    let star = seq![TokenView::Punct(Punct::Star)];
    lemma_points_push(Seq::empty(), star[0]);
    assert(seq![star[0]] =~= star);
    let clone_call = seq![
        TokenView::Punct(Punct::Dot),
        TokenView::Ident("clone"@),
        TokenView::Open(Delim::Paren),
        TokenView::Close(Delim::Paren),
    ];
    lemma_no_points(clone_call);
    lemma_points_add(star, e1);
    lemma_points_add(e1, clone_call);
    assert(suspension_points(star) == 0);
    assert(suspension_points(clone_call) == 0);
    if f.attr.copy is Some {
        assert(e2 == star + e1);
    } else if f.attr.clone is Some {
        assert(e2 == e1 + clone_call);
    }
    assert(suspension_points(e2) == suspension_points(e1));
    let amp = seq![TokenView::Punct(Punct::Amp)];
    lemma_points_push(Seq::empty(), amp[0]);
    assert(seq![amp[0]] =~= amp);
    lemma_points_add(amp, e2);
}

/// Without `ty`, `copy` and `clone`, the snapshot expression is a borrow:
/// of the field access itself when there is no `async_call`, else of the
/// awaited call on a borrow of it.
pub proof fn law_default_snapshot_is_borrow(f: AsyncDebugField, prefix: Seq<TokenView>)
    requires
        f.attr.ty is None,
        f.attr.copy is None,
        f.attr.clone is None,
    ensures
        snapshot_expr_spec(f, prefix) == seq![TokenView::Punct(Punct::Amp)] + call_wrapped(f, prefix + access_spec(f)),
        f.attr.async_call is None ==> snapshot_expr_spec(f, prefix) == seq![TokenView::Punct(Punct::Amp)] + prefix
            + access_spec(f),
{
    assert(seq![TokenView::Punct(Punct::Amp)] + (prefix + access_spec(f)) =~= seq![TokenView::Punct(Punct::Amp)]
        + prefix + access_spec(f));
}

/// A field with no directives is snapshotted by a borrow of its access,
/// with no suspension point and no duplication.
pub proof fn law_empty_directives(f: AsyncDebugField, prefix: Seq<TokenView>)
    requires
        f.attr == no_directives(),
        suspension_points(prefix) == 0,
    ensures
        snapshot_expr_spec(f, prefix) == seq![TokenView::Punct(Punct::Amp)] + prefix + access_spec(f),
        suspension_points(snapshot_expr_spec(f, prefix)) == 0,
{
    law_default_snapshot_is_borrow(f, prefix);
    law_async_call_suspends_once(f, prefix);
}

/// A field with `skip` contributes no generic parameter, no snapshot type,
/// no view field and no snapshot: the output is as if it were absent.
pub proof fn law_skipped_field_contributes_nothing(
    a: Seq<AsyncDebugField>,
    f: AsyncDebugField,
    b: Seq<AsyncDebugField>,
    prefix: Seq<TokenView>,
)
    requires
        f.attr.skip is Some,
    ensures
        generic_names(a + seq![f] + b) == generic_names(a + b),
        snapshot_types(a + seq![f] + b) == snapshot_types(a + b),
        view_fields_spec(a + seq![f] + b) == view_fields_spec(a + b),
        assignments_spec(a + seq![f] + b, prefix) == assignments_spec(a + b, prefix),
{
    reveal_with_fuel(Seq::filter, 2);
    let p = |g: AsyncDebugField| kept(g);
    lemma_non_skipped_is_kept(a + seq![f] + b);
    lemma_non_skipped_is_kept(a + b);
    Seq::filter_distributes_over_add(a + seq![f], b, p);
    Seq::filter_distributes_over_add(a, seq![f], p);
    Seq::filter_distributes_over_add(a, b, p);
    assert(seq![f].drop_last() =~= Seq::<AsyncDebugField>::empty());
    assert(seq![f].filter(p) =~= Seq::<AsyncDebugField>::empty());
    assert(kept_fields(a + seq![f] + b) =~= kept_fields(a + b));
}

/// The view is declared inside a module named `async_debug_` followed by
/// the snake-case type name, and is named like the source type.
pub proof fn law_view_in_nested_module(c: GenerationContext, input: DeriveInput)
    requires
        context_of(c, input),
        emitted_shape(input.data),
    ensures
        view_module_spec(c, view_item_of(c, input.data)).subrange(1, 3) == seq![
            TokenView::Keyword(Keyword::Mod),
            TokenView::Ident("async_debug_"@ + snake_case_of(input.ident@)),
        ],
        view_item_of(c, input.data)[2] == TokenView::Ident(input.ident@),
        output_spec(c, input.data).subrange(
            output_spec(c, input.data).len() - view_module_spec(c, view_item_of(c, input.data)).len(),
            output_spec(c, input.data).len() as int,
        ) == view_module_spec(c, view_item_of(c, input.data)),
{
    let item = view_item_of(c, input.data);
    let out = output_spec(c, input.data);
    let m = view_module_spec(c, item);
    assert(m.subrange(1, 3) =~= seq![
        TokenView::Keyword(Keyword::Mod),
        TokenView::Ident("async_debug_"@ + snake_case_of(input.ident@)),
    ]);
    lemma_output_parts(c, input.data);
    let front = marker_impl_spec(c) + method_impl_spec(c, method_args_of(input.data), method_body_of(c, input.data));
    assert(out == front + m);
    assert(out.subrange(out.len() - m.len(), out.len() as int) =~= m);
}

/// The marker impl and the method impl carry the declaration-site
/// generics, the use-site arguments and the where-clause of the source
/// type; the method repeats the where-clause after its return type.
pub proof fn law_impls_carry_generics(
    c: GenerationContext,
    args: Seq<Seq<TokenView>>,
    body: Seq<TokenView>,
)
    ensures
        marker_impl_spec(c)[1] == TokenView::Verbatim(c.generics.impl_generics@),
        marker_impl_spec(c)[5] == TokenView::Verbatim(c.generics.ty_generics@),
        marker_impl_spec(c)[6] == TokenView::Verbatim(c.generics.where_clause@),
        method_impl_spec(c, args, body)[5] == TokenView::Verbatim(c.generics.impl_generics@),
        method_impl_spec(c, args, body)[7] == TokenView::Verbatim(c.generics.ty_generics@),
        method_impl_spec(c, args, body)[8] == TokenView::Verbatim(c.generics.where_clause@),
        method_impl_spec(c, args, body)[19 + view_type_spec(c, args).len() as int] == TokenView::Verbatim(
            c.generics.where_clause@,
        ),
{
}

/// Two contexts captured from the same declaration give the same output:
/// regenerating from one input yields identical tokens.
pub proof fn law_regeneration_is_stable(c1: GenerationContext, c2: GenerationContext, input: DeriveInput)
    requires
        context_of(c1, input),
        context_of(c2, input),
        emitted_shape(input.data),
    ensures
        output_spec(c1, input.data) == output_spec(c2, input.data),
{
    let data = input.data;
    let args = method_args_of(data);
    lemma_output_parts(c1, data);
    lemma_output_parts(c2, data);
    assert(marker_impl_spec(c1) =~= marker_impl_spec(c2));
    assert(view_type_spec(c1, args) =~= view_type_spec(c2, args));
    let b1 = method_body_of(c1, data);
    let b2 = method_body_of(c2, data);
    let i1 = view_item_of(c1, data);
    let i2 = view_item_of(c2, data);
    match data {
        Data::Enum(vs) => {
            let ms = source_models(vs@);
            let f1 = |m: VariantModel| crate::enums::arm_of(c1.mod_ident@, c1.ident@, m);
            let f2 = |m: VariantModel| crate::enums::arm_of(c2.mod_ident@, c2.ident@, m);
            assert(ms.map_values(f1) =~= ms.map_values(f2));
        },
        _ => {},
    }
    assert(b1 =~= b2);
    match data {
        Data::Struct(Fields::Named(fs)) => {
            let n = generic_names(converted(fs@, None));
            assert(crate::common::view_head_spec(c1, Keyword::Struct, n) =~= crate::common::view_head_spec(c2, Keyword::Struct, n));
        },
        Data::Struct(Fields::Unnamed(fs)) => {
            let n = generic_names(converted(fs@, None));
            assert(crate::common::view_head_spec(c1, Keyword::Struct, n) =~= crate::common::view_head_spec(c2, Keyword::Struct, n));
        },
        Data::Enum(vs) => {
            let n = enum_generic_names(source_models(vs@));
            assert(crate::common::view_head_spec(c1, Keyword::Enum, n) =~= crate::common::view_head_spec(c2, Keyword::Enum, n));
        },
        _ => {},
    }
    assert(i1 =~= i2);
    assert(method_impl_spec(c1, args, b1) =~= method_impl_spec(c2, args, b2));
    assert(crate::common::derive_spec(c1) =~= crate::common::derive_spec(c2));
    assert(view_module_spec(c1, i1) =~= view_module_spec(c2, i2));
}

} // verus!
