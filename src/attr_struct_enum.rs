//! Type-level directives: `#[async_debug(disable_derive_debug)]`.
use vstd::prelude::*;
use crate::attr_prop::is_text;
use crate::error::{messages_at, Error, ErrorKind, Span};
use crate::input::AttrArg;

verus! {

/// The directives of a record or tagged union.
#[derive(Debug)]
pub struct AsyncDebug {
    /// Do not derive `Debug` on the view; the user supplies one.
    pub disable_derive_debug: Option<()>,
}

/// What is wrong with one type-level directive, if anything.
pub open spec fn type_arg_error(a: AttrArg) -> Option<ErrorKind> {
    if a.key@ == "disable_derive_debug"@ {
        if a.value.is_none() {
            None
        } else {
            Some(ErrorKind::MalformedOption(a.key))
        }
    } else {
        Some(ErrorKind::UnknownOption(a.key))
    }
}

/// The problems of a type-level directive list, in order.
pub open spec fn type_arg_errors(args: Seq<AttrArg>) -> Seq<ErrorKind>
    decreases args.len(),
{
    if args.len() == 0 {
        Seq::empty()
    } else {
        match type_arg_error(args.last()) {
            Some(e) => type_arg_errors(args.drop_last()).push(e),
            None => type_arg_errors(args.drop_last()),
        }
    }
}

impl AsyncDebug {
    /// Reads the type-level directives. Every ill-formed one is reported at
    /// the declaration; otherwise `disable_derive_debug` is set exactly when
    /// the list is not empty.
    pub fn try_from_attributes(attrs: &Vec<AttrArg>) -> (r: Result<AsyncDebug, Error>)
        ensures
            match r {
                Ok(d) => type_arg_errors(attrs@).len() == 0 && (d.disable_derive_debug.is_some()
                    <==> attrs@.len() > 0),
                Err(e) => type_arg_errors(attrs@).len() > 0 && e.messages@ == messages_at(
                    type_arg_errors(attrs@),
                    Span::CallSite,
                ),
            },
    {
        let mut errors: Vec<ErrorKind> = Vec::new();
        let mut i: usize = 0;
        while i < attrs.len()
            invariant
                i <= attrs.len(),
                errors@ == type_arg_errors(attrs@.take(i as int)),
            decreases attrs.len() - i,
        {
            let a = &attrs[i];
            proof {
                assert(attrs@.take(i + 1).drop_last() =~= attrs@.take(i as int));
            }
            if is_text(&a.key, "disable_derive_debug") {
                if a.value.is_some() {
                    errors.push(ErrorKind::MalformedOption(a.key.clone()));
                }
            } else {
                errors.push(ErrorKind::UnknownOption(a.key.clone()));
            }
            i = i + 1;
        }
        assert(attrs@.take(i as int) =~= attrs@);
        if errors.len() == 0 {
            if attrs.len() > 0 {
                Ok(AsyncDebug { disable_derive_debug: Some(()) })
            } else {
                Ok(AsyncDebug { disable_derive_debug: None })
            }
        } else {
            Err(Error::at(&Span::CallSite, errors))
        }
    }
}

} // verus!
