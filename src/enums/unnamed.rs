//! Variants with positional fields.
use vstd::prelude::*;
use crate::enums::{arm_spec, emit_arm, emit_view_variant, view_variant_spec};
use crate::error::Error;
use crate::fields::{
    convert_fields, converted, distinct_names, field_entries, fields_errors, fields_of, keyed, AsyncDebugFieldsMap,
};
use crate::input::Field;
use crate::tokens::{toks, Delim, Token};

verus! {

/// A variant with positional fields, ready to emit.
#[derive(Debug)]
pub struct AsyncDebugVariantUnnamed {
    pub variant_ident: String,
    pub fields: AsyncDebugFieldsMap,
}

impl AsyncDebugVariantUnnamed {
    /// Normalises the variant's fields; fails with every field's diagnostics.
    pub fn new(variant_ident: String, fields: Vec<Field>) -> (r: Result<
        AsyncDebugVariantUnnamed,
        Error,
    >)
        ensures
            match r {
                Ok(v) => {
                    &&& v.variant_ident == variant_ident
                    &&& fields_errors(fields@, Some(variant_ident)).len() == 0
                    &&& distinct_names(fields@) ==> field_entries(v.fields) == keyed(
                        converted(fields@, Some(variant_ident)),
                    )
                },
                Err(e) => fields_errors(fields@, Some(variant_ident)).len() > 0 && e.messages@ == fields_errors(
                    fields@,
                    Some(variant_ident),
                ),
            },
    {
        let fields = convert_fields(fields, Some(variant_ident.clone()))?;
        Ok(AsyncDebugVariantUnnamed { variant_ident, fields })
    }

    /// The match arm: `Self::<V>(self_0, ...) => <module>::<Type>::<V>(<snapshots>),`.
    pub fn to_token_stream_impl_ident_body(&self, mod_ident: &String, enum_ident: &String) -> (r: Vec<Token>)
        ensures
            toks(r@) == arm_spec(mod_ident@, enum_ident@, self.variant_ident@, Delim::Paren, fields_of(self.fields)),
    {
        emit_arm(mod_ident, enum_ident, &self.variant_ident, Delim::Paren, &self.fields)
    }

    /// The view variant: `<V>(<generic>, ...),`.
    pub fn to_token_stream(&self) -> (r: Vec<Token>)
        ensures
            toks(r@) == view_variant_spec(self.variant_ident@, Delim::Paren, fields_of(self.fields)),
    {
        emit_view_variant(&self.variant_ident, Delim::Paren, &self.fields)
    }
}

} // verus!
