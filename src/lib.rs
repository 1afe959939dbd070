//! Generator for asynchronous debug views.
//!
//! Given a record or tagged-union declaration whose fields carry
//! `async_debug` directives, the generator emits a marker-trait impl, an
//! `async fn async_debug(&self)` method, and a generic view type inside a
//! nested module `async_debug_<snake_case_name>`.
use vstd::prelude::*;

pub mod attr_prop;
pub mod attr_struct_enum;
pub mod common;
pub mod enums;
pub mod error;
pub mod fields;
pub mod input;
pub mod laws;
pub mod structs;
pub mod tokens;
pub mod zip_result;

use crate::common::{context_errors, snake_case_of, GenerationContext};
use crate::enums::{
    built_from, distinct_variants, enum_spec, models, source_model, variant_distinct_names, variant_entries,
    variants_errors, variants_of, AsyncDebugEnum, VariantModel,
};
use crate::error::{Error, ErrorKind, Message, Span};
use crate::fields::{converted, distinct_names, keyed, AsyncDebugField};
use crate::input::{Data, DeriveInput, Fields, Variant};
use crate::structs::named::struct_named_spec;
use crate::structs::unnamed::struct_unnamed_spec;
use crate::structs::{struct_errors, AsyncDebugStruct};
use crate::tokens::{toks, Token, TokenView};

verus! {

/// The diagnostics of a declaration: a union is refused; else those of the
/// declaration as a whole; else those of its record body or of its variants.
pub open spec fn generation_errors(input: DeriveInput) -> Seq<Message> {
    match input.data {
        Data::Union => seq![Message { kind: ErrorKind::Union, span: Span::CallSite }],
        Data::Struct(fields) => if context_errors(input).len() > 0 {
            context_errors(input)
        } else {
            struct_errors(fields)
        },
        Data::Enum(vs) => if context_errors(input).len() > 0 {
            context_errors(input)
        } else {
            variants_errors(vs@)
        },
    }
}

/// Whether `c` is the context captured from `input`.
pub open spec fn context_of(c: GenerationContext, input: DeriveInput) -> bool {
    &&& c.vis@ == input.vis@
    &&& c.ident@ == input.ident@
    &&& c.generics.impl_generics@ == input.generics.impl_generics@
    &&& c.generics.ty_generics@ == input.generics.ty_generics@
    &&& c.generics.where_clause@ == input.generics.where_clause@
    &&& c.mod_ident@ == "async_debug_"@ + snake_case_of(input.ident@)
    &&& c.derive_debug == (input.attrs@.len() == 0)
}

/// Names are unique where the language requires it: fields within a record
/// or variant, variants within a union.
pub open spec fn well_formed(input: DeriveInput) -> bool {
    match input.data {
        Data::Struct(Fields::Named(fs)) => distinct_names(fs@),
        Data::Struct(Fields::Unnamed(fs)) => distinct_names(fs@),
        Data::Enum(vs) => distinct_variants(vs@) && forall|i: int|
            0 <= i < vs@.len() ==> variant_distinct_names(#[trigger] vs@[i]),
        _ => true,
    }
}

/// The models of a union's source variants.
pub open spec fn source_models(vs: Seq<Variant>) -> Seq<VariantModel> {
    vs.map_values(|v: Variant| source_model(v))
}

/// The output for a declaration without diagnostics, in context `c`.
pub open spec fn output_spec(c: GenerationContext, data: Data) -> Seq<TokenView> {
    match data {
        Data::Struct(Fields::Named(fs)) => struct_named_spec(c, converted(fs@, None)),
        Data::Struct(Fields::Unnamed(fs)) => struct_unnamed_spec(c, converted(fs@, None)),
        Data::Enum(vs) => enum_spec(c, source_models(vs@)),
        _ => Seq::empty(),
    }
}

/// The fields of a map built from `fs` are `fs`.
pub proof fn lemma_keyed_fields(fs: Seq<AsyncDebugField>)
    ensures
        keyed(fs).map_values(|e: (crate::fields::AsyncDebugFieldIdent, AsyncDebugField)| e.1) == fs,
{
    assert(keyed(fs).map_values(|e: (crate::fields::AsyncDebugFieldIdent, AsyncDebugField)| e.1) =~= fs);
}

/// Generates the output for an annotated declaration, or the compound
/// diagnostic that replaces it.
pub fn async_debug_impl(input: DeriveInput) -> (r: Result<Vec<Token>, Error>)
    ensures
        match r {
            Ok(t) => generation_errors(input).len() == 0 && (well_formed(input) ==> exists|c: GenerationContext|
                context_of(c, input) && toks(t@) == #[trigger] output_spec(c, input.data)),
            Err(e) => generation_errors(input).len() > 0 && e.messages@ == generation_errors(input),
        },
{
    let ghost orig = input;
    match &input.data {
        Data::Union => {
            return Err(Error::new_call_site(ErrorKind::Union));
        },
        _ => {},
    }
    let ctx = GenerationContext::new(&input)?;
    let ghost c = ctx;
    let DeriveInput { attrs, vis, ident, generics, data } = input;
    match data {
        Data::Struct(fields) => {
            let s = AsyncDebugStruct::new(ctx, fields)?;
            let t = s.to_token_stream();
            proof {
                if well_formed(orig) {
                    match orig.data {
                        Data::Struct(Fields::Named(fs)) => {
                            lemma_keyed_fields(converted(fs@, None));
                        },
                        Data::Struct(Fields::Unnamed(fs)) => {
                            lemma_keyed_fields(converted(fs@, None));
                        },
                        _ => {},
                    }
                    assert(context_of(c, orig));
                    assert(toks(t@) == output_spec(c, orig.data));
                }
            }
            Ok(t)
        },
        Data::Enum(variants) => {
            let e = AsyncDebugEnum::new(ctx, variants);
            let e = e?;
            let t = e.to_token_stream();
            proof {
                if well_formed(orig) {
                    let vs = orig.data->Enum_0@;
                    let bs = variants_of(e.variants);
                    assert(models(bs) =~= source_models(vs)) by {
                        assert forall|i: int| 0 <= i < vs.len() implies models(bs)[i] == source_models(vs)[i] by {
                            assert(built_from(variant_entries(e.variants)[i].1, vs[i]));
                            assert(variant_distinct_names(vs[i]));
                            match vs[i].fields {
                                Fields::Named(fs) => {
                                    lemma_keyed_fields(converted(fs@, Some(vs[i].ident)));
                                },
                                Fields::Unnamed(fs) => {
                                    lemma_keyed_fields(converted(fs@, Some(vs[i].ident)));
                                },
                                Fields::Unit => {},
                            }
                        }
                    }
                    assert(context_of(c, orig));
                    assert(toks(t@) == output_spec(c, orig.data));
                }
            }
            Ok(t)
        },
        Data::Union => Err(Error::new_call_site(ErrorKind::Union)),
    }
}

} // verus!
