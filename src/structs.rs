//! Records: named or positional fields; unit records are refused.
use vstd::prelude::*;
use crate::common::GenerationContext;
use crate::error::{Error, ErrorKind, Message, Span};
use crate::fields::{converted, distinct_names, field_entries, fields_errors, fields_of, keyed};
use crate::input::Fields;
use crate::tokens::{toks, Token, TokenView};

pub mod named;
pub mod unnamed;

use self::named::{struct_named_spec, AsyncDebugStructNamed};
use self::unnamed::{struct_unnamed_spec, AsyncDebugStructUnnamed};

verus! {

/// The diagnostics of a record body: its fields', or one for a unit record.
pub open spec fn struct_errors(fields: Fields) -> Seq<Message> {
    match fields {
        Fields::Named(fs) => fields_errors(fs@, None),
        Fields::Unnamed(fs) => fields_errors(fs@, None),
        Fields::Unit => seq![Message { kind: ErrorKind::UnitForm, span: Span::CallSite }],
    }
}

/// A record ready to emit.
#[derive(Debug)]
pub enum AsyncDebugStruct {
    Named(AsyncDebugStructNamed),
    Unnamed(AsyncDebugStructUnnamed),
}

impl AsyncDebugStruct {
    /// The output for this record.
    pub open spec fn spec_output(self) -> Seq<TokenView> {
        match self {
            AsyncDebugStruct::Named(n) => struct_named_spec(n.ctx, fields_of(n.fields)),
            AsyncDebugStruct::Unnamed(u) => struct_unnamed_spec(u.ctx, fields_of(u.fields)),
        }
    }

    /// Builds a record from its context and body; fails with the
    /// diagnostics of its fields, or for a unit record.
    pub fn new(ctx: GenerationContext, fields: Fields) -> (r: Result<AsyncDebugStruct, Error>)
        ensures
            match r {
                Ok(s) => struct_errors(fields).len() == 0 && match s {
                    AsyncDebugStruct::Named(n) => {
                        &&& fields is Named
                        &&& n.ctx == ctx
                        &&& distinct_names(fields->Named_0@) ==> field_entries(n.fields) == keyed(
                            converted(fields->Named_0@, None),
                        )
                    },
                    AsyncDebugStruct::Unnamed(u) => {
                        &&& fields is Unnamed
                        &&& u.ctx == ctx
                        &&& distinct_names(fields->Unnamed_0@) ==> field_entries(u.fields) == keyed(
                            converted(fields->Unnamed_0@, None),
                        )
                    },
                },
                Err(e) => struct_errors(fields).len() > 0 && e.messages@ == struct_errors(fields),
            },
    {
        match fields {
            Fields::Named(fs) => Ok(AsyncDebugStruct::Named(AsyncDebugStructNamed::new(ctx, fs)?)),
            Fields::Unnamed(fs) => Ok(AsyncDebugStruct::Unnamed(AsyncDebugStructUnnamed::new(ctx, fs)?)),
            Fields::Unit => Err(Error::new_call_site(ErrorKind::UnitForm)),
        }
    }

    /// Emits the marker impl, the method, and the view.
    pub fn to_token_stream(&self) -> (r: Vec<Token>)
        ensures
            toks(r@) == self.spec_output(),
    {
        match self {
            AsyncDebugStruct::Named(n) => n.to_token_stream(),
            AsyncDebugStruct::Unnamed(u) => u.to_token_stream(),
        }
    }
}

} // verus!
