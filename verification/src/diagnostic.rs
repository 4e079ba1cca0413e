//! Single diagnostics.

use vstd::prelude::*;

use crate::category::{ErrorCategory, ErrorSeverity};
use crate::location::SourceLocation;

verus! {

/// What a suggestion does to the text in its range.
#[derive(Debug)]
pub enum CompilerSuggestionOperation {
    InsertBefore,
    InsertAfter,
    Remove,
    Replace,
}

/// A suggestion for fixing an error.
#[derive(Debug)]
pub struct CompilerSuggestion {
    pub op: CompilerSuggestionOperation,
    pub range: (usize, usize),
    pub description: String,
    /// The text to insert; none where text is removed.
    pub text: Option<String>,
}

/// A detail of a diagnostic.
#[derive(Debug)]
pub enum CompilerDiagnosticDetail {
    Error {
        loc: Option<SourceLocation>,
        message: Option<String>,
        /// The name of the identifier at this location, if the error points to
        /// an identifier.
        identifier_name: Option<String>,
    },
    Hint { message: String },
}

/// A diagnostic with details of its own.
#[derive(Debug)]
pub struct CompilerDiagnostic {
    pub category: ErrorCategory,
    pub reason: String,
    pub description: Option<String>,
    pub details: Vec<CompilerDiagnosticDetail>,
    pub suggestions: Option<Vec<CompilerSuggestion>>,
}

/// An error with at most one location.
#[derive(Debug)]
pub struct CompilerErrorDetail {
    pub category: ErrorCategory,
    pub reason: String,
    pub description: Option<String>,
    pub loc: Option<SourceLocation>,
    pub suggestions: Option<Vec<CompilerSuggestion>>,
}

impl Clone for CompilerSuggestionOperation {
    fn clone(&self) -> (res: Self)
        ensures
            res == *self,
    {
        match self {
            CompilerSuggestionOperation::InsertBefore => CompilerSuggestionOperation::InsertBefore,
            CompilerSuggestionOperation::InsertAfter => CompilerSuggestionOperation::InsertAfter,
            CompilerSuggestionOperation::Remove => CompilerSuggestionOperation::Remove,
            CompilerSuggestionOperation::Replace => CompilerSuggestionOperation::Replace,
        }
    }
}

impl Clone for CompilerSuggestion {
    fn clone(&self) -> (res: Self)
        ensures
            res == *self,
    {
        CompilerSuggestion {
            op: self.op.clone(),
            range: self.range,
            description: self.description.clone(),
            text: self.text.clone(),
        }
    }
}

impl Clone for CompilerDiagnosticDetail {
    fn clone(&self) -> (res: Self)
        ensures
            res == *self,
    {
        match self {
            CompilerDiagnosticDetail::Error { loc, message, identifier_name } => {
                CompilerDiagnosticDetail::Error {
                    loc: *loc,
                    message: message.clone(),
                    identifier_name: identifier_name.clone(),
                }
            },
            CompilerDiagnosticDetail::Hint { message } => CompilerDiagnosticDetail::Hint {
                message: message.clone(),
            },
        }
    }
}

/// The suggestions in order, where there are any.
pub open spec fn suggestion_list(suggestions: Option<Vec<CompilerSuggestion>>) -> Option<
    Seq<CompilerSuggestion>,
> {
    match suggestions {
        Some(suggestions) => Some(suggestions@),
        None => None,
    }
}

impl Clone for CompilerDiagnostic {
    fn clone(&self) -> (res: Self)
        ensures
            res.copies(*self),
    {
        let res = CompilerDiagnostic {
            category: self.category,
            reason: self.reason.clone(),
            description: self.description.clone(),
            details: self.details.clone(),
            suggestions: self.suggestions.clone(),
        };
        assert(res.details@ =~= self.details@);
        assert(res.suggestions is Some ==> res.suggestions->0@ =~= self.suggestions->0@);
        res
    }
}

impl Clone for CompilerErrorDetail {
    fn clone(&self) -> (res: Self)
        ensures
            res.copies(*self),
    {
        let res = CompilerErrorDetail {
            category: self.category,
            reason: self.reason.clone(),
            description: self.description.clone(),
            loc: self.loc,
            suggestions: self.suggestions.clone(),
        };
        assert(res.suggestions is Some ==> res.suggestions->0@ =~= self.suggestions->0@);
        res
    }
}

impl CompilerDiagnosticDetail {
    /// The location of an error; a hint has none.
    pub open spec fn location(self) -> Option<SourceLocation> {
        match self {
            CompilerDiagnosticDetail::Error { loc, .. } => loc,
            CompilerDiagnosticDetail::Hint { .. } => None,
        }
    }
}

/// The location of the first detail that has one.
pub open spec fn first_location(details: Seq<CompilerDiagnosticDetail>) -> Option<SourceLocation>
    decreases details.len(),
{
    if details.len() == 0 {
        None
    } else if details[0].location() is Some {
        details[0].location()
    } else {
        first_location(details.skip(1))
    }
}

/// Details without a location in front change nothing about the first location.
proof fn lemma_first_location_skips(details: Seq<CompilerDiagnosticDetail>, count: int)
    requires
        0 <= count <= details.len(),
        forall|i: int| 0 <= i < count ==> (#[trigger] details[i]).location() is None,
    ensures
        first_location(details) == first_location(details.skip(count)),
    decreases count,
{
    if count == 0 {
        assert(details.skip(0) =~= details);
    } else {
        let rest = details.skip(1);
        assert forall|i: int| 0 <= i < count - 1 implies (#[trigger] rest[i]).location() is None by {
            assert(rest[i] == details[i + 1]);
        }
        lemma_first_location_skips(rest, count - 1);
        assert(rest.skip(count - 1) =~= details.skip(count));
        assert(details[0].location() is None);
    }
}

/// A first location is the location of a detail before which no detail has one,
/// and there is none only where no detail has a location.
pub proof fn lemma_first_location(details: Seq<CompilerDiagnosticDetail>)
    ensures
        first_location(details) is None <==> (forall|i: int|
            0 <= i < details.len() ==> (#[trigger] details[i]).location() is None),
        first_location(details) is Some ==> exists|i: int|
            {
                &&& 0 <= i < details.len()
                &&& (#[trigger] details[i]).location() == first_location(details)
                &&& forall|j: int| 0 <= j < i ==> (#[trigger] details[j]).location() is None
            },
    decreases details.len(),
{
    if details.len() > 0 {
        let rest = details.skip(1);
        lemma_first_location(rest);
        assert(forall|i: int| 0 <= i < rest.len() ==> (#[trigger] rest[i]) == details[i + 1]);
        if details[0].location() is None {
            if first_location(rest) is Some {
                let i = choose|i: int|
                    {
                        &&& 0 <= i < rest.len()
                        &&& (#[trigger] rest[i]).location() == first_location(rest)
                        &&& forall|j: int| 0 <= j < i ==> (#[trigger] rest[j]).location() is None
                    };
                assert(details[i + 1].location() == first_location(details));
                assert forall|j: int| 0 <= j < i + 1 implies (
                #[trigger] details[j]).location() is None by {
                    if j > 0 {
                        assert(rest[j - 1] == details[j]);
                    }
                }
            } else {
                assert forall|j: int| 0 <= j < details.len() implies (
                #[trigger] details[j]).location() is None by {
                    if j > 0 {
                        assert(rest[j - 1] == details[j]);
                    }
                }
            }
        } else {
            assert(details[0].location() == first_location(details));
        }
    }
}

impl CompilerErrorDetail {
    /// The two errors have the same content.
    pub open spec fn copies(self, original: Self) -> bool {
        &&& self.category == original.category
        &&& self.reason == original.reason
        &&& self.description == original.description
        &&& self.loc == original.loc
        &&& suggestion_list(self.suggestions) == suggestion_list(original.suggestions)
    }

    pub open spec fn spec_severity(&self) -> ErrorSeverity {
        self.category.severity()
    }

    pub open spec fn spec_logged_severity(&self) -> ErrorSeverity {
        self.category.logged_severity()
    }

    /// An error with nothing but a category and a reason.
    pub fn new(category: ErrorCategory, reason: impl Into<String>) -> (res: Self)
        ensures
            crate::text::converts_to(reason, res.reason),
            res == (CompilerErrorDetail {
                category,
                reason: res.reason,
                description: None,
                loc: None,
                suggestions: None,
            }),
    {
        CompilerErrorDetail {
            category,
            reason: reason.into(),
            description: None,
            loc: None,
            suggestions: None,
        }
    }

    /// This error with the given description.
    pub fn with_description(self, description: impl Into<String>) -> (res: Self)
        ensures
            res.description matches Some(text) && crate::text::converts_to(description, text),
            res == (CompilerErrorDetail { description: res.description, ..self }),
    {
        let mut detail = self;
        detail.description = Some(description.into());
        detail
    }

    /// This error at the given location.
    pub fn with_loc(self, loc: Option<SourceLocation>) -> (res: Self)
        ensures
            res == (CompilerErrorDetail { loc, ..self }),
    {
        let mut detail = self;
        detail.loc = loc;
        detail
    }

    /// The severity of the category.
    #[verifier::when_used_as_spec(spec_severity)]
    pub fn severity(&self) -> (res: ErrorSeverity)
        ensures
            res == self.category.severity(),
    {
        self.category.severity()
    }

    /// The logged severity of the category.
    #[verifier::when_used_as_spec(spec_logged_severity)]
    pub fn logged_severity(&self) -> (res: ErrorSeverity)
        ensures
            res == self.category.logged_severity(),
    {
        self.category.logged_severity()
    }
}

/// The one detail of a diagnostic that says `reason` at `loc`.
pub open spec fn reason_at(
    reason: String,
    loc: Option<SourceLocation>,
) -> CompilerDiagnosticDetail {
    CompilerDiagnosticDetail::Error { loc, message: Some(reason), identifier_name: None }
}

impl CompilerDiagnostic {
    /// The two diagnostics have the same content.
    pub open spec fn copies(self, original: Self) -> bool {
        &&& self.category == original.category
        &&& self.reason == original.reason
        &&& self.description == original.description
        &&& self.details@ == original.details@
        &&& suggestion_list(self.suggestions) == suggestion_list(original.suggestions)
    }

    pub open spec fn spec_severity(&self) -> ErrorSeverity {
        self.category.severity()
    }

    pub open spec fn spec_logged_severity(&self) -> ErrorSeverity {
        self.category.logged_severity()
    }

    /// The diagnostic says what `detail` says: its category, reason and
    /// description, and the reason once more, at its location, as the only
    /// detail. It has no suggestions.
    pub open spec fn restates(self, detail: CompilerErrorDetail) -> bool {
        &&& self.category == detail.category
        &&& self.reason == detail.reason
        &&& self.description == detail.description
        &&& self.details@ == seq![reason_at(detail.reason, detail.loc)]
        &&& self.suggestions is None
    }

    /// A diagnostic without details and suggestions.
    pub fn new(
        category: ErrorCategory,
        reason: impl Into<String>,
        description: Option<String>,
    ) -> (res: Self)
        ensures
            res.category == category,
            crate::text::converts_to(reason, res.reason),
            res.description == description,
            res.details@ == Seq::<CompilerDiagnosticDetail>::empty(),
            res.suggestions is None,
    {
        CompilerDiagnostic {
            category,
            reason: reason.into(),
            description,
            details: Vec::new(),
            suggestions: None,
        }
    }

    /// The severity of the category.
    #[verifier::when_used_as_spec(spec_severity)]
    pub fn severity(&self) -> (res: ErrorSeverity)
        ensures
            res == self.category.severity(),
    {
        self.category.severity()
    }

    /// The logged severity of the category.
    #[verifier::when_used_as_spec(spec_logged_severity)]
    pub fn logged_severity(&self) -> (res: ErrorSeverity)
        ensures
            res == self.category.logged_severity(),
    {
        self.category.logged_severity()
    }

    /// This diagnostic with one more detail, behind those it has.
    pub fn with_detail(self, detail: CompilerDiagnosticDetail) -> (res: Self)
        ensures
            res.details@ == self.details@.push(detail),
            res == (CompilerDiagnostic { details: res.details, ..self }),
    {
        let mut diagnostic = self;
        diagnostic.details.push(detail);
        diagnostic
    }

    /// A `Todo` diagnostic, with the reason at `loc` as its only detail.
    pub fn todo(reason: impl Into<String>, loc: Option<SourceLocation>) -> (res: Self)
        ensures
            res.category == ErrorCategory::Todo,
            crate::text::converts_to(reason, res.reason),
            res.description is None,
            res.details@ == seq![reason_at(res.reason, loc)],
            res.suggestions is None,
    {
        let reason: String = reason.into();
        let mut diagnostic = CompilerDiagnostic::new(ErrorCategory::Todo, reason.clone(), None);
        diagnostic.details.push(
            CompilerDiagnosticDetail::Error { loc, message: Some(reason), identifier_name: None },
        );
        diagnostic
    }

    /// The diagnostic that says what `detail` says.
    pub fn from_detail(detail: CompilerErrorDetail) -> (res: Self)
        ensures
            res.restates(detail),
    {
        CompilerDiagnostic::new(
            detail.category,
            detail.reason.clone(),
            detail.description,
        ).with_detail(
            CompilerDiagnosticDetail::Error {
                loc: detail.loc,
                message: Some(detail.reason),
                identifier_name: None,
            },
        )
    }

    /// The location of the first detail that has one.
    pub fn primary_location(&self) -> (res: Option<&SourceLocation>)
        ensures
            match res {
                Some(loc) => first_location(self.details@) == Some(*loc),
                None => first_location(self.details@) is None,
            },
    {
        let mut i: usize = 0;
        while i < self.details.len()
            invariant
                i <= self.details@.len(),
                forall|j: int| 0 <= j < i ==> (#[trigger] self.details@[j]).location() is None,
            decreases self.details@.len() - i,
        {
            if let CompilerDiagnosticDetail::Error { loc: Some(loc), .. } = &self.details[i] {
                proof {
                    lemma_first_location_skips(self.details@, i as int);
                    assert(self.details@.skip(i as int)[0] == self.details@[i as int]);
                }
                return Some(loc);
            }
            i += 1;
        }
        proof {
            lemma_first_location_skips(self.details@, i as int);
        }
        None
    }
}

} // verus!
