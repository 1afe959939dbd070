//! Field directives: `#[async_debug(async_call = <path>, clone, copy, ty = <type>, skip)]`.
use vstd::prelude::*;
use crate::error::{messages_at, Error, ErrorKind, Span};
use crate::input::{AttrArg, Expr};

verus! {

/// The directives of one field. A flag is `Some(())` when given.
#[derive(Debug)]
pub struct AsyncDebug {
    /// Awaited as `f(&value).await` to obtain the snapshot.
    pub async_call: Option<Expr>,
    /// Snapshot by `.clone()`.
    pub clone: Option<()>,
    /// Snapshot by dereference.
    pub copy: Option<()>,
    /// Source text of the snapshot type; by default a borrow of the field's type.
    pub ty: Option<String>,
    /// Leave the field out of the view.
    pub skip: Option<()>,
}

/// The recognised field directive keys.
#[derive(Clone, Copy, Debug, PartialEq, Eq, Structural)]
pub enum OptionKey {
    AsyncCall,
    Clone,
    Copy,
    Ty,
    Skip,
}

/// The key that a directive name stands for.
pub open spec fn key_of(k: Seq<char>) -> Option<OptionKey> {
    if k == "async_call"@ {
        Some(OptionKey::AsyncCall)
    } else if k == "clone"@ {
        Some(OptionKey::Clone)
    } else if k == "copy"@ {
        Some(OptionKey::Copy)
    } else if k == "ty"@ {
        Some(OptionKey::Ty)
    } else if k == "skip"@ {
        Some(OptionKey::Skip)
    } else {
        None
    }
}

/// The directive set with nothing given.
pub open spec fn no_directives() -> AsyncDebug {
    AsyncDebug { async_call: None, clone: None, copy: None, ty: None, skip: None }
}

/// What is wrong with one directive, if anything: an unknown key, a flag
/// given a payload, or `async_call` / `ty` without an expression / type.
pub open spec fn arg_error(a: AttrArg) -> Option<ErrorKind> {
    match key_of(a.key@) {
        None => Some(ErrorKind::UnknownOption(a.key)),
        Some(OptionKey::AsyncCall) => {
            if a.value.is_some() && a.value->Some_0.expr.is_some() {
                None
            } else {
                Some(ErrorKind::MalformedOption(a.key))
            }
        },
        Some(OptionKey::Ty) => {
            if a.value.is_some() && a.value->Some_0.is_type {
                None
            } else {
                Some(ErrorKind::MalformedOption(a.key))
            }
        },
        Some(_) => {
            if a.value.is_none() {
                None
            } else {
                Some(ErrorKind::MalformedOption(a.key))
            }
        },
    }
}

/// The problems of a directive list, in order.
pub open spec fn arg_errors(args: Seq<AttrArg>) -> Seq<ErrorKind>
    decreases args.len(),
{
    if args.len() == 0 {
        Seq::empty()
    } else {
        match arg_error(args.last()) {
            Some(e) => arg_errors(args.drop_last()).push(e),
            None => arg_errors(args.drop_last()),
        }
    }
}

/// The directive set after reading a well-formed directive `a`; a later
/// occurrence of a key replaces an earlier one.
pub open spec fn apply_arg(d: AsyncDebug, a: AttrArg) -> AsyncDebug {
    match key_of(a.key@) {
        Some(OptionKey::AsyncCall) => AsyncDebug { async_call: a.value->Some_0.expr, ..d },
        Some(OptionKey::Clone) => AsyncDebug { clone: Some(()), ..d },
        Some(OptionKey::Copy) => AsyncDebug { copy: Some(()), ..d },
        Some(OptionKey::Ty) => AsyncDebug { ty: Some(a.value->Some_0.text), ..d },
        Some(OptionKey::Skip) => AsyncDebug { skip: Some(()), ..d },
        None => d,
    }
}

/// The directive set that a well-formed directive list gives.
pub open spec fn directives_of(args: Seq<AttrArg>) -> AsyncDebug
    decreases args.len(),
{
    if args.len() == 0 {
        no_directives()
    } else {
        apply_arg(directives_of(args.drop_last()), args.last())
    }
}

/// The invariants a directive set breaks, in this order: `skip` with any
/// other directive, `clone` with `copy`, an `async_call` that is not a path.
pub open spec fn validation_errors(d: AsyncDebug) -> Seq<ErrorKind> {
    let skip_alone: Seq<ErrorKind> = if d.skip.is_some() && (d.async_call.is_some() || d.clone.is_some()
        || d.copy.is_some() || d.ty.is_some()) {
        seq![ErrorKind::SkipNotAlone]
    } else {
        Seq::empty()
    };
    let exclusive: Seq<ErrorKind> = if d.clone.is_some() && d.copy.is_some() {
        seq![ErrorKind::CloneAndCopy]
    } else {
        Seq::empty()
    };
    let path: Seq<ErrorKind> = match d.async_call {
        Some(Expr::Other(_)) => seq![ErrorKind::AsyncCallNotPath],
        _ => Seq::empty(),
    };
    skip_alone + exclusive + path
}

/// Whether `s` holds the text `lit`.
pub fn is_text(s: &String, lit: &str) -> (r: bool)
    ensures
        r == (s@ == lit@),
{
    let l = String::from_str(lit);
    *s == l
}

/// The key that a directive name stands for.
pub fn parse_key(k: &String) -> (r: Option<OptionKey>)
    ensures
        r == key_of(k@),
{
    if is_text(k, "async_call") {
        Some(OptionKey::AsyncCall)
    } else if is_text(k, "clone") {
        Some(OptionKey::Clone)
    } else if is_text(k, "copy") {
        Some(OptionKey::Copy)
    } else if is_text(k, "ty") {
        Some(OptionKey::Ty)
    } else if is_text(k, "skip") {
        Some(OptionKey::Skip)
    } else {
        None
    }
}

/// A copy of an expression.
pub fn clone_expr(e: &Expr) -> (r: Expr)
    ensures
        r == *e,
{
    match e {
        Expr::Path(s) => Expr::Path(s.clone()),
        Expr::Other(s) => Expr::Other(s.clone()),
    }
}

/// What is wrong with one directive, if anything.
pub fn check_arg(a: &AttrArg) -> (r: Option<ErrorKind>)
    ensures
        r == arg_error(*a),
{
    match parse_key(&a.key) {
        None => Some(ErrorKind::UnknownOption(a.key.clone())),
        Some(OptionKey::AsyncCall) => {
            match &a.value {
                Some(v) => match &v.expr {
                    Some(_) => None,
                    None => Some(ErrorKind::MalformedOption(a.key.clone())),
                },
                None => Some(ErrorKind::MalformedOption(a.key.clone())),
            }
        },
        Some(OptionKey::Ty) => {
            match &a.value {
                Some(v) => if v.is_type {
                    None
                } else {
                    Some(ErrorKind::MalformedOption(a.key.clone()))
                },
                None => Some(ErrorKind::MalformedOption(a.key.clone())),
            }
        },
        Some(_) => {
            match &a.value {
                None => None,
                Some(_) => Some(ErrorKind::MalformedOption(a.key.clone())),
            }
        },
    }
}

impl AsyncDebug {
    /// Reads the directives of a field. Every ill-formed directive is
    /// reported, each at `span`; otherwise the result is the directive set
    /// that the list gives (an empty list gives the empty set).
    pub fn try_from_attributes(attrs: &Vec<AttrArg>, span: &Span) -> (r: Result<AsyncDebug, Error>)
        ensures
            match r {
                Ok(d) => arg_errors(attrs@).len() == 0 && d == directives_of(attrs@),
                Err(e) => arg_errors(attrs@).len() > 0 && e.messages@ == messages_at(
                    arg_errors(attrs@),
                    *span,
                ),
            },
    {
        let mut d = AsyncDebug { async_call: None, clone: None, copy: None, ty: None, skip: None };
        let mut errors: Vec<ErrorKind> = Vec::new();
        let mut i: usize = 0;
        while i < attrs.len()
            invariant
                i <= attrs.len(),
                errors@ == arg_errors(attrs@.take(i as int)),
                errors@.len() == 0 ==> d == directives_of(attrs@.take(i as int)),
            decreases attrs.len() - i,
        {
            let a = &attrs[i];
            proof {
                assert(attrs@.take(i + 1).drop_last() =~= attrs@.take(i as int));
            }
            match check_arg(a) {
                Some(e) => {
                    errors.push(e);
                },
                None => {
                    match parse_key(&a.key) {
                        Some(OptionKey::AsyncCall) => {
                            let v = a.value.as_ref().unwrap();
                            let e = v.expr.as_ref().unwrap();
                            d.async_call = Some(clone_expr(e));
                        },
                        Some(OptionKey::Clone) => {
                            d.clone = Some(());
                        },
                        Some(OptionKey::Copy) => {
                            d.copy = Some(());
                        },
                        Some(OptionKey::Ty) => {
                            let v = a.value.as_ref().unwrap();
                            d.ty = Some(v.text.clone());
                        },
                        Some(OptionKey::Skip) => {
                            d.skip = Some(());
                        },
                        None => {},
                    }
                },
            }
            i = i + 1;
        }
        assert(attrs@.take(i as int) =~= attrs@);
        if errors.len() == 0 {
            Ok(d)
        } else {
            Err(Error::at(span, errors))
        }
    }

    /// Checks the invariants of a directive set; every broken one is
    /// reported, each at `span`.
    pub fn validate(&self, span: &Span) -> (r: Result<(), Error>)
        ensures
            r.is_ok() <==> validation_errors(*self).len() == 0,
            r is Err ==> r->Err_0.messages@ == messages_at(validation_errors(*self), *span),
    {
        let mut errors: Vec<ErrorKind> = Vec::new();
        if self.skip.is_some() && (self.async_call.is_some() || self.clone.is_some() || self.copy.is_some()
            || self.ty.is_some()) {
            errors.push(ErrorKind::SkipNotAlone);
        }
        if self.clone.is_some() && self.copy.is_some() {
            errors.push(ErrorKind::CloneAndCopy);
        }
        match &self.async_call {
            Some(Expr::Other(_)) => {
                errors.push(ErrorKind::AsyncCallNotPath);
            },
            _ => {},
        }
        assert(errors@ =~= validation_errors(*self));
        if errors.len() == 0 {
            Ok(())
        } else {
            Err(Error::at(span, errors))
        }
    }
}

} // verus!
