//! Diagnostics reported against the annotated declaration.
use vstd::prelude::*;

verus! {

/// What went wrong.
#[derive(Debug, PartialEq, Eq)]
pub enum ErrorKind {
    /// A directive key that is not recognised; carries the key.
    UnknownOption(String),
    /// A recognised key whose payload has the wrong form; carries the key.
    MalformedOption(String),
    SkipNotAlone,
    CloneAndCopy,
    AsyncCallNotPath,
    UnitForm,
    Union,
    IndexOutOfRange,
    /// The type name holds a character outside ASCII.
    NonAsciiName,
}

/// Where a diagnostic is attached.
#[derive(Debug, PartialEq, Eq)]
pub enum Span {
    /// The annotated declaration as a whole.
    CallSite,
    /// The field at position `index` of the record, or of the named variant.
    Field { variant: Option<String>, index: usize },
}

/// One diagnostic.
#[derive(Debug, PartialEq, Eq)]
pub struct Message {
    pub kind: ErrorKind,
    pub span: Span,
}

/// A compound diagnostic: every problem found, in the order found.
#[derive(Debug)]
pub struct Error {
    pub messages: Vec<Message>,
}

/// The diagnostics for `kinds`, all attached at `span`.
pub open spec fn messages_at(kinds: Seq<ErrorKind>, span: Span) -> Seq<Message> {
    kinds.map_values(|k: ErrorKind| Message { kind: k, span: span })
}

/// The text shown for a diagnostic.
pub open spec fn message_text(kind: ErrorKind) -> Seq<char> {
    match kind {
        ErrorKind::UnknownOption(k) => "unknown async_debug option: "@ + k@,
        ErrorKind::MalformedOption(k) => "malformed async_debug option: "@ + k@,
        ErrorKind::SkipNotAlone => "skip can only be used alone"@,
        ErrorKind::CloneAndCopy => "clone and copy are mutually exclusive"@,
        ErrorKind::AsyncCallNotPath => "async_call must be a path to a function"@,
        ErrorKind::UnitForm => "unit forms are not supported"@,
        ErrorKind::Union => "unions are not supported"@,
        ErrorKind::IndexOutOfRange => "field index out of range"@,
        ErrorKind::NonAsciiName => "non-ASCII type names are not supported"@,
    }
}

/// A copy of an optional name.
pub fn clone_name(n: &Option<String>) -> (r: Option<String>)
    ensures
        r == *n,
{
    match n {
        Some(s) => Some(s.clone()),
        None => None,
    }
}

impl Span {
    /// A copy of this span.
    pub fn duplicate(&self) -> (r: Span)
        ensures
            r == *self,
    {
        match self {
            Span::CallSite => Span::CallSite,
            Span::Field { variant, index } => Span::Field { variant: clone_name(variant), index: *index },
        }
    }
}

impl ErrorKind {
    /// A copy of this kind.
    pub fn duplicate(&self) -> (r: ErrorKind)
        ensures
            r == *self,
    {
        match self {
            ErrorKind::UnknownOption(k) => ErrorKind::UnknownOption(k.clone()),
            ErrorKind::MalformedOption(k) => ErrorKind::MalformedOption(k.clone()),
            ErrorKind::SkipNotAlone => ErrorKind::SkipNotAlone,
            ErrorKind::CloneAndCopy => ErrorKind::CloneAndCopy,
            ErrorKind::AsyncCallNotPath => ErrorKind::AsyncCallNotPath,
            ErrorKind::UnitForm => ErrorKind::UnitForm,
            ErrorKind::Union => ErrorKind::Union,
            ErrorKind::IndexOutOfRange => ErrorKind::IndexOutOfRange,
            ErrorKind::NonAsciiName => ErrorKind::NonAsciiName,
        }
    }
}

impl Message {
    /// The text shown for this diagnostic.
    pub fn text(&self) -> (r: String)
        ensures
            r@ == message_text(self.kind),
    {
        match &self.kind {
            ErrorKind::UnknownOption(k) => {
                let s = String::from_str("unknown async_debug option: ");
                s.concat(k.as_str())
            },
            ErrorKind::MalformedOption(k) => {
                let s = String::from_str("malformed async_debug option: ");
                s.concat(k.as_str())
            },
            ErrorKind::SkipNotAlone => String::from_str("skip can only be used alone"),
            ErrorKind::CloneAndCopy => String::from_str("clone and copy are mutually exclusive"),
            ErrorKind::AsyncCallNotPath => String::from_str("async_call must be a path to a function"),
            ErrorKind::UnitForm => String::from_str("unit forms are not supported"),
            ErrorKind::Union => String::from_str("unions are not supported"),
            ErrorKind::IndexOutOfRange => String::from_str("field index out of range"),
            ErrorKind::NonAsciiName => String::from_str("non-ASCII type names are not supported"),
        }
    }
}

impl Error {
    /// A diagnostic of one message.
    pub fn new(span: Span, kind: ErrorKind) -> (r: Error)
        ensures
            r.messages@ == seq![Message { kind, span }],
    {
        let mut messages: Vec<Message> = Vec::new();
        messages.push(Message { kind, span });
        Error { messages }
    }

    /// A diagnostic of one message attached to the whole declaration.
    pub fn new_call_site(kind: ErrorKind) -> (r: Error)
        ensures
            r.messages@ == seq![Message { kind, span: Span::CallSite }],
    {
        Error::new(Span::CallSite, kind)
    }

    /// A diagnostic of one message for each kind, all attached at `span`.
    pub fn at(span: &Span, kinds: Vec<ErrorKind>) -> (r: Error)
        ensures
            r.messages@ == messages_at(kinds@, *span),
    {
        let mut messages: Vec<Message> = Vec::new();
        let mut i: usize = 0;
        while i < kinds.len()
            invariant
                i <= kinds.len(),
                messages@ == messages_at(kinds@.take(i as int), *span),
            decreases kinds.len() - i,
        {
            messages.push(Message { kind: kinds[i].duplicate(), span: span.duplicate() });
            assert(messages_at(kinds@.take(i + 1), *span) =~= messages_at(kinds@.take(i as int), *span).push(
                Message { kind: kinds@[i as int], span: *span },
            ));
            i = i + 1;
        }
        assert(kinds@.take(i as int) =~= kinds@);
        Error { messages }
    }

    /// Adds the messages of `other` after those of `self`.
    pub fn combine(&mut self, other: Error)
        ensures
            final(self).messages@ == old(self).messages@ + other.messages@,
    {
        let mut other = other;
        self.messages.append(&mut other.messages);
    }
}

/// The messages of every failed result, in order.
pub open spec fn combined_messages<T>(s: Seq<Result<T, Error>>) -> Seq<Message>
    decreases s.len(),
{
    if s.len() == 0 {
        Seq::empty()
    } else {
        match s.last() {
            Ok(_) => combined_messages(s.drop_last()),
            Err(e) => combined_messages(s.drop_last()) + e.messages@,
        }
    }
}

/// Whether every result succeeded.
pub open spec fn all_ok<T>(s: Seq<Result<T, Error>>) -> bool {
    forall|i: int| 0 <= i < s.len() ==> (#[trigger] s[i]) is Ok
}

/// The values of results that all succeeded.
pub open spec fn ok_values<T>(s: Seq<Result<T, Error>>) -> Seq<T> {
    s.map_values(|r: Result<T, Error>| r->Ok_0)
}

/// Collects results: all the values if every one succeeded, else one
/// compound diagnostic holding the messages of every failure.
pub trait IterCombineSynErrors<T>: Sized {
    spec fn results(self) -> Seq<Result<T, Error>>;

    fn collect_syn_error(self) -> (r: Result<Vec<T>, Error>)
        ensures
            match r {
                Ok(v) => all_ok(self.results()) && v@ == ok_values(self.results()),
                Err(e) => !all_ok(self.results()) && e.messages@ == combined_messages(self.results()),
            },
    ;
}

impl<T> IterCombineSynErrors<T> for Vec<Result<T, Error>> {
    open spec fn results(self) -> Seq<Result<T, Error>> {
        self@
    }

    fn collect_syn_error(self) -> (r: Result<Vec<T>, Error>) {
        let ghost orig = self@;
        let mut rest = self;
        let total = rest.len();
        let mut values: Vec<T> = Vec::new();
        let mut failed = false;
        let mut error = Error { messages: Vec::new() };
        let mut i: usize = 0;
        while rest.len() > 0
            invariant
                i + rest@.len() == orig.len(),
                orig.len() == total,
                rest@ == orig.subrange(i as int, orig.len() as int),
                !failed ==> all_ok(orig.take(i as int)),
                !failed ==> values@ == ok_values(orig.take(i as int)),
                failed ==> !all_ok(orig.take(i as int)),
                error.messages@ == combined_messages(orig.take(i as int)),
            decreases rest.len(),
        {
            let item = rest.remove(0);
            assert(item == orig[i as int]);
            assert(orig.take(i + 1).drop_last() =~= orig.take(i as int));
            match item {
                Ok(v) => {
                    if !failed {
                        values.push(v);
                        assert(ok_values(orig.take(i + 1)) =~= ok_values(orig.take(i as int)).push(
                            orig[i as int]->Ok_0,
                        ));
                    }
                },
                Err(e) => {
                    failed = true;
                    error.combine(e);
                },
            }
            if failed {
                assert(!all_ok(orig.take(i + 1))) by {
                    if !all_ok(orig.take(i as int)) {
                        let k = choose|k: int| 0 <= k < i && !(orig.take(i as int)[k] is Ok);
                        assert(orig.take(i + 1)[k] == orig.take(i as int)[k]);
                    } else {
                        assert(orig.take(i + 1)[i as int] is Err);
                    }
                }
            }
            i = i + 1;
        }
        assert(orig.take(i as int) =~= orig);
        if failed {
            Err(error)
        } else {
            Ok(values)
        }
    }
}

} // verus!
