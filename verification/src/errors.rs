//! Collecting every fault of a declaration, each with the place it came from.

use crate::text::copy_str;
use vstd::prelude::*;

verus! {

/// A place in the text of a declaration.
#[derive(Copy, Clone, PartialEq, Eq, Structural, Hash, Debug)]
pub struct Span {
    /// The line, counted from one; zero where the place is not known.
    pub line: u32,
    /// The column, counted from zero.
    pub column: u32,
}

impl Span {
    /// The place of the declaration as a whole.
    pub fn call_site() -> (span: Span)
        ensures
            span == (Span { line: 0, column: 0 }),
    {
        Span { line: 0, column: 0 }
    }
}

/// One fault: what is wrong, and where.
#[derive(Debug)]
pub struct Diagnostic {
    /// What is wrong.
    pub message: String,
    /// Where it is wrong.
    pub span: Span,
}

/// One fault as a plain value.
pub struct DiagnosticView {
    /// What is wrong.
    pub message: Seq<char>,
    /// Where it is wrong.
    pub span: Span,
}

impl View for Diagnostic {
    type V = DiagnosticView;

    open spec fn view(&self) -> DiagnosticView {
        DiagnosticView { message: self.message@, span: self.span }
    }
}

/// The faults of a sequence of diagnostics as plain values.
pub open spec fn diagnostics_view(items: Seq<Diagnostic>) -> Seq<DiagnosticView> {
    items.map_values(|d: Diagnostic| d@)
}

/// One or more faults, reported together.
#[derive(Debug)]
pub struct Error {
    first: Diagnostic,
    rest: Vec<Diagnostic>,
}

impl View for Error {
    type V = Seq<DiagnosticView>;

    closed spec fn view(&self) -> Seq<DiagnosticView> {
        seq![self.first@] + diagnostics_view(self.rest@)
    }
}

impl Error {
    /// An error with one fault.
    pub fn new(span: Span, message: &str) -> (e: Error)
        ensures
            e@ == seq![DiagnosticView { message: message@, span }],
    {
        Error::new_owned(span, copy_str(message))
    }

    /// An error with one fault, whose message the caller has built.
    pub fn new_owned(span: Span, message: String) -> (e: Error)
        ensures
            e@ == seq![DiagnosticView { message: message@, span }],
    {
        let e = Error { first: Diagnostic { message, span }, rest: Vec::new() };
        assert(e@ =~= seq![DiagnosticView { message: message@, span }]);
        e
    }

    /// Adds the faults of another error behind those of this one.
    pub fn combine(&mut self, another: Error)
        ensures
            final(self)@ == old(self)@ + another@,
    {
        let Error { first, rest } = another;
        let mut rest = rest;
        let ghost mine = self.rest@;
        let ghost theirs = rest@;
        self.rest.push(first);
        self.rest.append(&mut rest);
        proof {
            assert(self.rest@ == mine.push(first) + theirs);
            assert(diagnostics_view(mine.push(first) + theirs) =~= diagnostics_view(mine) + (
            seq![first@] + diagnostics_view(theirs)));
            assert(final(self)@ =~= old(self)@ + another@);
        }
    }

    /// An error holds at least one fault.
    pub proof fn never_empty(&self)
        ensures
            self@.len() > 0,
    {
    }

    /// The number of faults.
    pub fn len(&self) -> (n: usize)
        requires
            self@.len() <= usize::MAX,
        ensures
            n == self@.len(),
            n > 0,
    {
        self.rest.len() + 1
    }

    /// The message of the fault at an index.
    pub fn message(&self, index: usize) -> (m: &str)
        requires
            index < self@.len(),
        ensures
            m@ == self@[index as int].message,
    {
        if index == 0 {
            self.first.message.as_str()
        } else {
            self.rest[index - 1].message.as_str()
        }
    }

    /// The place of the fault at an index.
    pub fn span(&self, index: usize) -> (s: Span)
        requires
            index < self@.len(),
        ensures
            s == self@[index as int].span,
    {
        if index == 0 {
            self.first.span
        } else {
            self.rest[index - 1].span
        }
    }
}

/// Gathers the faults that are found while a declaration is analysed.
pub struct CombinedErrors {
    error: Option<Error>,
}

impl View for CombinedErrors {
    type V = Seq<DiagnosticView>;

    closed spec fn view(&self) -> Seq<DiagnosticView> {
        match self.error {
            Some(e) => e@,
            None => Seq::<DiagnosticView>::empty(),
        }
    }
}

impl Default for CombinedErrors {
    fn default() -> (errors: CombinedErrors)
        ensures
            errors@ == Seq::<DiagnosticView>::empty(),
    {
        CombinedErrors { error: None }
    }
}

impl CombinedErrors {
    /// Adds the faults of an error behind those gathered so far.
    pub fn push(&mut self, error: Error)
        ensures
            final(self)@ == old(self)@ + error@,
    {
        match self.error.take() {
            Some(mut existing) => {
                existing.combine(error);
                self.error = Some(existing);
            },
            None => {
                assert(Seq::<DiagnosticView>::empty() + error@ =~= error@);
                self.error = Some(error);
            },
        }
    }

    /// Hands out the value where no fault was gathered, and all the faults
    /// where one was.
    pub fn into_result<T>(self, value: T) -> (r: Result<T, Error>)
        ensures
            self@.len() == 0 ==> r == Ok::<T, Error>(value),
            self@.len() > 0 ==> r is Err && r->Err_0@ == self@,
    {
        match self.error {
            Some(error) => {
                proof {
                    error.never_empty();
                }
                Err(error)
            },
            None => Ok(value),
        }
    }

    /// Whether no fault was gathered.
    pub fn is_empty(&self) -> (r: bool)
        ensures
            r == (self@.len() == 0),
    {
        match &self.error {
            Some(error) => {
                proof {
                    error.never_empty();
                }
                false
            },
            None => true,
        }
    }

    /// Adds one fault, found at the given place.
    pub fn msg(&mut self, span: Span, s: &str)
        ensures
            final(self)@ == old(self)@.push(DiagnosticView { message: s@, span }),
    {
        let e = Error::new(span, s);
        self.push(e);
        proof {
            assert(old(self)@ + seq![DiagnosticView { message: s@, span }] =~= old(self)@.push(
                DiagnosticView { message: s@, span },
            ));
        }
    }
}

/// The faults that a step adds by failing: those of its error, or none.
pub open spec fn faults_of(outcome: Result<(), Error>) -> Seq<DiagnosticView> {
    match outcome {
        Ok(_) => Seq::<DiagnosticView>::empty(),
        Err(e) => e@,
    }
}

/// A place at which a step reports faults, and the faults that the step has
/// reported there, in their order.
pub struct ErrorScope {
    span: Span,
    added: CombinedErrors,
}

impl View for ErrorScope {
    type V = Seq<DiagnosticView>;

    closed spec fn view(&self) -> Seq<DiagnosticView> {
        self.added@
    }
}

impl ErrorScope {
    /// The place at which the scope reports faults.
    pub closed spec fn spec_span(&self) -> Span {
        self.span
    }

    /// The place at which the scope reports faults.
    pub fn span(&self) -> (span: Span)
        ensures
            span == self.spec_span(),
    {
        self.span
    }

    /// Adds one fault at the place of the scope.
    pub fn msg(&mut self, s: &str)
        ensures
            final(self).spec_span() == old(self).spec_span(),
            final(self)@ == old(self)@.push(
                DiagnosticView { message: s@, span: old(self).spec_span() },
            ),
    {
        self.added.msg(self.span, s);
    }
}

impl CombinedErrors {
    /// Adds the faults of another collection behind those gathered so far.
    pub fn append(&mut self, other: CombinedErrors)
        ensures
            final(self)@ == old(self)@ + other@,
    {
        match other.error {
            Some(error) => {
                self.push(error);
            },
            None => {
                assert(self@ + Seq::<DiagnosticView>::empty() =~= self@);
            },
        }
    }

    /// Runs a step that may fail at the given place, and gathers its error
    /// where it does, so that the steps after it still run. The step is run
    /// once, with a scope of the given place that holds no fault yet.
    /// Afterwards the collection holds what it held before, then the faults
    /// that the step has reported through the scope, then those of the error
    /// of the step where it has failed.
    pub fn scope<F: FnOnce(&mut ErrorScope) -> Result<(), Error>>(&mut self, span: Span, f: F)
        requires
            forall|scope: &mut ErrorScope|
                scope.spec_span() == span && scope@ == Seq::<DiagnosticView>::empty()
                    ==> call_requires(f, (scope,)),
        ensures
            exists|scope: &mut ErrorScope, outcome: Result<(), Error>|
                #[trigger] call_ensures(f, (scope,), outcome) && scope.spec_span() == span && scope@
                    == Seq::<DiagnosticView>::empty() && final(self)@ == old(self)@ + final(scope)@
                    + faults_of(outcome),
            old(self)@.is_prefix_of(final(self)@),
    {
        let mut scope = ErrorScope { span, added: CombinedErrors::default() };
        assert(scope.spec_span() == span);
        assert(scope@ == Seq::<DiagnosticView>::empty());
        let outcome = f(&mut scope);
        let ErrorScope { span: _, added } = scope;
        self.append(added);
        match outcome {
            Ok(()) => {
                assert(self@ + faults_of(outcome) =~= self@);
            },
            Err(e) => {
                self.push(e);
            },
        }
    }
}

} // verus!
