//! Aggregate errors: what a compilation reports as a whole.

use vstd::prelude::*;

use crate::category::{format_category_heading, ErrorCategory, ErrorSeverity};
use crate::diagnostic::{CompilerDiagnostic, CompilerErrorDetail};
use crate::location::SourceLocation;
use crate::text::push_decimal;

verus! {

/// Either a diagnostic with details of its own or an error with at most one
/// location.
#[derive(Debug)]
pub enum CompilerErrorOrDiagnostic {
    Diagnostic(CompilerDiagnostic),
    ErrorDetail(CompilerErrorDetail),
}

/// The main error type of the compiler: any number of diagnostics.
#[derive(Debug)]
pub struct CompilerError {
    pub details: Vec<CompilerErrorOrDiagnostic>,
    /// False for an error that was accumulated and is returned at the end of
    /// the pipeline, true for one that is thrown.
    pub is_thrown: bool,
}

impl Clone for CompilerErrorOrDiagnostic {
    fn clone(&self) -> (res: Self)
        ensures
            res.copies(*self),
    {
        match self {
            CompilerErrorOrDiagnostic::Diagnostic(d) => CompilerErrorOrDiagnostic::Diagnostic(
                d.clone(),
            ),
            CompilerErrorOrDiagnostic::ErrorDetail(d) => CompilerErrorOrDiagnostic::ErrorDetail(
                d.clone(),
            ),
        }
    }
}

impl Clone for CompilerError {
    fn clone(&self) -> (res: Self)
        ensures
            res.details@.len() == self.details@.len(),
            forall|i: int|
                0 <= i < res.details@.len() ==> (#[trigger] res.details@[i]).copies(
                    self.details@[i],
                ),
            res.is_thrown == self.is_thrown,
    {
        CompilerError { details: self.details.clone(), is_thrown: self.is_thrown }
    }
}

/// What is said before any location: heading, reason and description.
pub open spec fn summary_text(
    category: ErrorCategory,
    reason: Seq<char>,
    description: Option<String>,
) -> Seq<char> {
    crate::category::category_heading(category) + ": "@ + reason + match description {
        Some(description) => ". "@ + description@ + "."@,
        None => Seq::empty(),
    }
}

/// Where a location starts, as it is put behind a message.
pub open spec fn location_text(loc: Option<SourceLocation>) -> Seq<char> {
    match loc {
        Some(loc) => " ("@ + crate::text::decimal(loc.start.line as nat) + ":"@
            + crate::text::decimal(loc.start.column as nat) + ")"@,
        None => Seq::empty(),
    }
}

impl CompilerErrorOrDiagnostic {
    /// The two entries are of one kind and have the same content.
    pub open spec fn copies(self, original: Self) -> bool {
        match (self, original) {
            (
                CompilerErrorOrDiagnostic::Diagnostic(d),
                CompilerErrorOrDiagnostic::Diagnostic(from),
            ) => d.copies(from),
            (
                CompilerErrorOrDiagnostic::ErrorDetail(d),
                CompilerErrorOrDiagnostic::ErrorDetail(from),
            ) => d.copies(from),
            _ => false,
        }
    }

    pub open spec fn category(self) -> ErrorCategory {
        match self {
            CompilerErrorOrDiagnostic::Diagnostic(d) => d.category,
            CompilerErrorOrDiagnostic::ErrorDetail(d) => d.category,
        }
    }

    pub open spec fn reason(self) -> String {
        match self {
            CompilerErrorOrDiagnostic::Diagnostic(d) => d.reason,
            CompilerErrorOrDiagnostic::ErrorDetail(d) => d.reason,
        }
    }

    pub open spec fn description(self) -> Option<String> {
        match self {
            CompilerErrorOrDiagnostic::Diagnostic(d) => d.description,
            CompilerErrorOrDiagnostic::ErrorDetail(d) => d.description,
        }
    }

    /// The primary location of a diagnostic, or the location of an error.
    pub open spec fn location(self) -> Option<SourceLocation> {
        match self {
            CompilerErrorOrDiagnostic::Diagnostic(d) => crate::diagnostic::first_location(
                d.details@,
            ),
            CompilerErrorOrDiagnostic::ErrorDetail(d) => d.loc,
        }
    }

    /// "Heading: reason. Description."
    pub open spec fn summary(self) -> Seq<char> {
        summary_text(self.category(), self.reason()@, self.description())
    }

    /// "Heading: reason. Description. (line:column)"
    pub open spec fn event_line(self) -> Seq<char> {
        self.summary() + location_text(self.location())
    }

    pub open spec fn spec_severity(&self) -> ErrorSeverity {
        self.category().severity()
    }

    pub open spec fn spec_logged_severity(&self) -> ErrorSeverity {
        self.category().logged_severity()
    }

    /// The severity of the category.
    #[verifier::when_used_as_spec(spec_severity)]
    pub fn severity(&self) -> (res: ErrorSeverity)
        ensures
            res == self.category().severity(),
    {
        match self {
            CompilerErrorOrDiagnostic::Diagnostic(d) => d.severity(),
            CompilerErrorOrDiagnostic::ErrorDetail(d) => d.severity(),
        }
    }

    /// The logged severity of the category.
    #[verifier::when_used_as_spec(spec_logged_severity)]
    pub fn logged_severity(&self) -> (res: ErrorSeverity)
        ensures
            res == self.category().logged_severity(),
    {
        match self {
            CompilerErrorOrDiagnostic::Diagnostic(d) => d.logged_severity(),
            CompilerErrorOrDiagnostic::ErrorDetail(d) => d.logged_severity(),
        }
    }

    /// Whether the category is `Invariant`.
    fn is_invariant(&self) -> (res: bool)
        ensures
            res == (self.category() is Invariant),
    {
        let category = match self {
            CompilerErrorOrDiagnostic::Diagnostic(d) => d.category,
            CompilerErrorOrDiagnostic::ErrorDetail(d) => d.category,
        };
        category == ErrorCategory::Invariant
    }

    /// Appends the summary to `buffer`.
    fn push_summary(&self, buffer: &mut String)
        ensures
            final(buffer)@ == old(buffer)@ + self.summary(),
    {
        let (category, reason, description) = match self {
            CompilerErrorOrDiagnostic::Diagnostic(d) => (d.category, &d.reason, &d.description),
            CompilerErrorOrDiagnostic::ErrorDetail(d) => (d.category, &d.reason, &d.description),
        };
        buffer.append(format_category_heading(category));
        buffer.append(": ");
        buffer.append(reason.as_str());
        if let Some(description) = description {
            buffer.append(". ");
            buffer.append(description.as_str());
            buffer.append(".");
        }
        assert(buffer@ =~= old(buffer)@ + self.summary());
    }

    /// Appends the event line to `buffer`.
    fn push_event_line(&self, buffer: &mut String)
        ensures
            final(buffer)@ == old(buffer)@ + self.event_line(),
    {
        let loc: Option<SourceLocation> = match self {
            CompilerErrorOrDiagnostic::Diagnostic(d) => match d.primary_location() {
                Some(loc) => Some(*loc),
                None => None,
            },
            CompilerErrorOrDiagnostic::ErrorDetail(d) => d.loc,
        };
        self.push_summary(buffer);
        if let Some(loc) = loc {
            buffer.append(" (");
            push_decimal(buffer, loc.start.line);
            buffer.append(":");
            push_decimal(buffer, loc.start.column);
            buffer.append(")");
        }
        assert(buffer@ =~= old(buffer)@ + self.event_line());
    }
}

/// Some entry has severity `Error`.
pub open spec fn any_error(details: Seq<CompilerErrorOrDiagnostic>) -> bool {
    exists|i: int|
        0 <= i < details.len() && (#[trigger] details[i]).severity() == ErrorSeverity::Error
}

/// Some entry has category `Invariant`.
pub open spec fn any_invariant(details: Seq<CompilerErrorOrDiagnostic>) -> bool {
    exists|i: int| 0 <= i < details.len() && (#[trigger] details[i]).category() is Invariant
}

/// The event lines of the entries.
pub open spec fn event_lines(details: Seq<CompilerErrorOrDiagnostic>) -> Seq<Seq<char>> {
    details.map_values(|detail: CompilerErrorOrDiagnostic| detail.event_line())
}

/// The event lines, with an empty line between neighbours.
pub open spec fn event_text(details: Seq<CompilerErrorOrDiagnostic>) -> Seq<char> {
    crate::text::joined(event_lines(details), "\n\n"@)
}

/// The summaries, each on a line of its own.
pub open spec fn display_text(details: Seq<CompilerErrorOrDiagnostic>) -> Seq<char>
    decreases details.len(),
{
    if details.len() == 0 {
        Seq::empty()
    } else {
        display_text(details.drop_last()) + details.last().summary() + "\n"@
    }
}

/// The entry by which an error reports a diagnostic: a `Todo` as a flat error
/// at its primary location, any other diagnostic as it is.
pub open spec fn entry_of(diagnostic: CompilerDiagnostic) -> CompilerErrorOrDiagnostic {
    if diagnostic.category is Todo {
        CompilerErrorOrDiagnostic::ErrorDetail(
            CompilerErrorDetail {
                category: diagnostic.category,
                reason: diagnostic.reason,
                description: diagnostic.description,
                loc: crate::diagnostic::first_location(diagnostic.details@),
                suggestions: diagnostic.suggestions,
            },
        )
    } else {
        CompilerErrorOrDiagnostic::Diagnostic(diagnostic)
    }
}

/// The diagnostic stands for the first entry; where there is none, it reports
/// an unknown error of the compiler.
pub open spec fn stands_for_first(
    details: Seq<CompilerErrorOrDiagnostic>,
    diagnostic: CompilerDiagnostic,
) -> bool {
    if details.len() == 0 {
        &&& diagnostic.category is Invariant
        &&& diagnostic.reason@ == "Unknown compiler error"@
        &&& diagnostic.description is None
        &&& diagnostic.details@.len() == 0
        &&& diagnostic.suggestions is None
    } else {
        match details[0] {
            CompilerErrorOrDiagnostic::Diagnostic(d) => diagnostic == d,
            CompilerErrorOrDiagnostic::ErrorDetail(d) => diagnostic.restates(d),
        }
    }
}

impl CompilerError {
    /// A thrown error without entries.
    pub fn new() -> (res: Self)
        ensures
            res.details@ == Seq::<CompilerErrorOrDiagnostic>::empty(),
            res.is_thrown,
    {
        CompilerError { details: Vec::new(), is_thrown: true }
    }

    /// Adds a diagnostic behind the entries, unless its category is off.
    pub fn push_diagnostic(&mut self, diagnostic: CompilerDiagnostic)
        ensures
            final(self).details@ == (if diagnostic.severity() == ErrorSeverity::Off {
                old(self).details@
            } else {
                old(self).details@.push(CompilerErrorOrDiagnostic::Diagnostic(diagnostic))
            }),
            final(self).is_thrown == old(self).is_thrown,
    {
        if diagnostic.severity() != ErrorSeverity::Off {
            self.details.push(CompilerErrorOrDiagnostic::Diagnostic(diagnostic));
        }
    }

    /// Adds an error behind the entries, unless its category is off.
    pub fn push_error_detail(&mut self, detail: CompilerErrorDetail)
        ensures
            final(self).details@ == (if detail.severity() == ErrorSeverity::Off {
                old(self).details@
            } else {
                old(self).details@.push(CompilerErrorOrDiagnostic::ErrorDetail(detail))
            }),
            final(self).is_thrown == old(self).is_thrown,
    {
        if detail.severity() != ErrorSeverity::Off {
            self.details.push(CompilerErrorOrDiagnostic::ErrorDetail(detail));
        }
    }

    /// Whether some entry has severity `Error`.
    pub fn has_errors(&self) -> (res: bool)
        ensures
            res == any_error(self.details@),
    {
        let mut i: usize = 0;
        while i < self.details.len()
            invariant
                i <= self.details@.len(),
                forall|j: int|
                    0 <= j < i ==> (#[trigger] self.details@[j]).severity() != ErrorSeverity::Error,
            decreases self.details@.len() - i,
        {
            if self.details[i].severity() == ErrorSeverity::Error {
                assert(self.details@[i as int].severity() == ErrorSeverity::Error);
                return true;
            }
            i += 1;
        }
        false
    }

    /// Whether there is any entry.
    pub fn has_any_errors(&self) -> (res: bool)
        ensures
            res == (self.details@.len() > 0),
    {
        !self.details.is_empty()
    }

    /// Whether some entry has category `Invariant`.
    pub fn has_invariant_errors(&self) -> (res: bool)
        ensures
            res == any_invariant(self.details@),
    {
        let mut i: usize = 0;
        while i < self.details.len()
            invariant
                i <= self.details@.len(),
                forall|j: int| 0 <= j < i ==> !((#[trigger] self.details@[j]).category() is Invariant),
            decreases self.details@.len() - i,
        {
            if self.details[i].is_invariant() {
                assert(self.details@[i as int].category() is Invariant);
                return true;
            }
            i += 1;
        }
        false
    }

    /// Adds the entries of `other` behind those of this error.
    pub fn merge(&mut self, other: CompilerError)
        ensures
            final(self).details@ == old(self).details@ + other.details@,
            final(self).is_thrown == old(self).is_thrown,
    {
        let mut rest = other.details;
        self.details.append(&mut rest);
    }

    /// Whether no entry has category `Invariant`.
    pub fn is_all_non_invariant(&self) -> (res: bool)
        ensures
            res == (forall|i: int|
                0 <= i < self.details@.len() ==> !((
                #[trigger] self.details@[i]).category() is Invariant)),
    {
        !self.has_invariant_errors()
    }

    /// The error as the data of an event: for each entry
    /// `"Heading: reason. Description. (line:column)"`, joined by empty lines.
    pub fn to_string_for_event(&self) -> (res: String)
        ensures
            res@ == event_text(self.details@),
    {
        let mut buffer = String::new();
        let ghost lines = event_lines(self.details@);
        let mut i: usize = 0;
        while i < self.details.len()
            invariant
                i <= self.details@.len(),
                lines == event_lines(self.details@),
                buffer@ == crate::text::joined(lines.take(i as int), "\n\n"@),
            decreases self.details@.len() - i,
        {
            if i > 0 {
                buffer.append("\n\n");
            }
            self.details[i].push_event_line(&mut buffer);
            proof {
                let line = self.details@[i as int].event_line();
                assert(lines.take(i + 1) =~= lines.take(i as int) + seq![line]);
                if i > 0 {
                    crate::text::lemma_joined_concat(lines.take(i as int), seq![line], "\n\n"@);
                }
                assert(buffer@ =~= crate::text::joined(lines.take(i + 1), "\n\n"@));
            }
            i += 1;
        }
        assert(lines.take(i as int) =~= lines);
        buffer
    }

    /// The error as it is displayed: for each entry
    /// `"Heading: reason. Description."`, on a line of its own.
    pub fn to_string(&self) -> (res: String)
        ensures
            res@ == display_text(self.details@),
    {
        let mut buffer = String::new();
        let mut i: usize = 0;
        while i < self.details.len()
            invariant
                i <= self.details@.len(),
                buffer@ == display_text(self.details@.take(i as int)),
            decreases self.details@.len() - i,
        {
            self.details[i].push_summary(&mut buffer);
            buffer.append("\n");
            proof {
                let next = self.details@.take(i + 1);
                assert(next.drop_last() =~= self.details@.take(i as int));
                assert(next.last() == self.details@[i as int]);
            }
            i += 1;
        }
        assert(self.details@.take(i as int) =~= self.details@);
        buffer
    }
}

impl Default for CompilerError {
    fn default() -> (res: Self)
        ensures
            res.details@ == Seq::<CompilerErrorOrDiagnostic>::empty(),
            res.is_thrown,
    {
        CompilerError::new()
    }
}

impl From<CompilerError> for CompilerDiagnostic {
    /// The diagnostic of the first entry of an error.
    fn from(err: CompilerError) -> (res: Self)
        ensures
            stands_for_first(err.details@, res),
    {
        let mut details = err.details;
        if details.len() > 0 {
            match details.remove(0) {
                CompilerErrorOrDiagnostic::Diagnostic(d) => d,
                CompilerErrorOrDiagnostic::ErrorDetail(d) => CompilerDiagnostic::from_detail(d),
            }
        } else {
            CompilerDiagnostic::new(ErrorCategory::Invariant, "Unknown compiler error", None)
        }
    }
}

/// The contract of `from` says what comes out, up to the identity of strings.
impl vstd::std_specs::convert::FromSpecImpl<CompilerError> for CompilerDiagnostic {
    open spec fn obeys_from_spec() -> bool {
        false
    }

    open spec fn from_spec(err: CompilerError) -> Self {
        arbitrary()
    }
}

impl From<CompilerDiagnostic> for CompilerError {
    /// The thrown error that reports one diagnostic.
    fn from(diagnostic: CompilerDiagnostic) -> (res: Self)
        ensures
            res.details@ == seq![entry_of(diagnostic)],
            res.is_thrown,
    {
        let mut error = CompilerError::new();
        if diagnostic.category == ErrorCategory::Todo {
            let loc: Option<SourceLocation> = match diagnostic.primary_location() {
                Some(loc) => Some(*loc),
                None => None,
            };
            error.push_error_detail(
                CompilerErrorDetail {
                    category: diagnostic.category,
                    reason: diagnostic.reason,
                    description: diagnostic.description,
                    loc,
                    suggestions: diagnostic.suggestions,
                },
            );
        } else {
            error.push_diagnostic(diagnostic);
        }
        error
    }
}

/// The contract of `from` says what comes out, up to the identity of vectors.
impl vstd::std_specs::convert::FromSpecImpl<CompilerDiagnostic> for CompilerError {
    open spec fn obeys_from_spec() -> bool {
        false
    }

    open spec fn from_spec(diagnostic: CompilerDiagnostic) -> Self {
        arbitrary()
    }
}

/// Where there is an `Invariant` there is an error, and where there is an error
/// there is an entry. That no entry is an `Invariant` is the opposite of that
/// some entry is.
pub proof fn lemma_kinds_of_errors(details: Seq<CompilerErrorOrDiagnostic>)
    ensures
        any_invariant(details) ==> any_error(details),
        any_error(details) ==> details.len() > 0,
        !any_invariant(details) <==> (forall|i: int|
            0 <= i < details.len() ==> !((#[trigger] details[i]).category() is Invariant)),
{
    if any_invariant(details) {
        let i = choose|i: int|
            0 <= i < details.len() && (#[trigger] details[i]).category() is Invariant;
        assert(details[i].severity() == ErrorSeverity::Error);
    }
}

/// Merged errors have what either of them has.
pub proof fn lemma_merged_kinds(
    front: Seq<CompilerErrorOrDiagnostic>,
    back: Seq<CompilerErrorOrDiagnostic>,
)
    ensures
        any_error(front + back) <==> any_error(front) || any_error(back),
        any_invariant(front + back) <==> any_invariant(front) || any_invariant(back),
{
    let all = front + back;
    assert forall|i: int| 0 <= i < front.len() implies #[trigger] front[i] == all[i] by {}
    assert forall|i: int| 0 <= i < back.len() implies #[trigger] back[i] == all[front.len() + i] by {}
    if any_error(all) {
        let i = choose|i: int|
            0 <= i < all.len() && (#[trigger] all[i]).severity() == ErrorSeverity::Error;
        if i < front.len() {
            assert(front[i].severity() == ErrorSeverity::Error);
        } else {
            assert(back[i - front.len()].severity() == ErrorSeverity::Error);
        }
    }
    if any_invariant(all) {
        let i = choose|i: int| 0 <= i < all.len() && (#[trigger] all[i]).category() is Invariant;
        if i < front.len() {
            assert(front[i].category() is Invariant);
        } else {
            assert(back[i - front.len()].category() is Invariant);
        }
    }
}

/// Merged errors are displayed one after the other.
pub proof fn lemma_merged_display(
    front: Seq<CompilerErrorOrDiagnostic>,
    back: Seq<CompilerErrorOrDiagnostic>,
)
    ensures
        display_text(front + back) == display_text(front) + display_text(back),
    decreases back.len(),
{
    if back.len() == 0 {
        assert(front + back =~= front);
        assert(display_text(front) + display_text(back) =~= display_text(front));
    } else {
        lemma_merged_display(front, back.drop_last());
        assert((front + back).drop_last() =~= front + back.drop_last());
        assert((front + back).last() == back.last());
        assert(display_text(front + back) =~= display_text(front) + display_text(back));
    }
}

/// The event text of merged errors is that of the one, an empty line, and that
/// of the other. An error without entries adds nothing, not even the empty
/// line.
pub proof fn lemma_merged_event_text(
    front: Seq<CompilerErrorOrDiagnostic>,
    back: Seq<CompilerErrorOrDiagnostic>,
)
    ensures
        event_text(front + back) == (if front.len() == 0 {
            event_text(back)
        } else if back.len() == 0 {
            event_text(front)
        } else {
            event_text(front) + "\n\n"@ + event_text(back)
        }),
{
    if front.len() == 0 {
        assert(front + back =~= back);
    } else if back.len() == 0 {
        assert(front + back =~= front);
    } else {
        assert(event_lines(front + back) =~= event_lines(front) + event_lines(back));
        crate::text::lemma_joined_concat(event_lines(front), event_lines(back), "\n\n"@);
    }
}

/// A copy of an entry is reported as the entry is.
pub proof fn lemma_copies_are_reported_alike(
    copy: CompilerErrorOrDiagnostic,
    original: CompilerErrorOrDiagnostic,
)
    requires
        copy.copies(original),
    ensures
        copy.severity() == original.severity(),
        copy.logged_severity() == original.logged_severity(),
        copy.summary() == original.summary(),
        copy.event_line() == original.event_line(),
{
}

/// The entry by which an error reports a diagnostic says what the diagnostic
/// says, at the same location and with the same severity.
pub proof fn lemma_entry_says_the_same(diagnostic: CompilerDiagnostic)
    ensures
        entry_of(diagnostic).category() == diagnostic.category,
        entry_of(diagnostic).severity() == diagnostic.severity(),
        entry_of(diagnostic).logged_severity() == diagnostic.logged_severity(),
        entry_of(diagnostic).location() == crate::diagnostic::first_location(diagnostic.details@),
        entry_of(diagnostic).summary() == CompilerErrorOrDiagnostic::Diagnostic(
            diagnostic,
        ).summary(),
        entry_of(diagnostic).event_line() == CompilerErrorOrDiagnostic::Diagnostic(
            diagnostic,
        ).event_line(),
{
}

/// The diagnostic that stands for an error says what the first entry says, at
/// the same location and with the same severity.
pub proof fn lemma_stand_in_says_the_same(
    details: Seq<CompilerErrorOrDiagnostic>,
    diagnostic: CompilerDiagnostic,
)
    requires
        details.len() > 0,
        stands_for_first(details, diagnostic),
    ensures
        diagnostic.category == details[0].category(),
        diagnostic.severity() == details[0].severity(),
        diagnostic.logged_severity() == details[0].logged_severity(),
        crate::diagnostic::first_location(diagnostic.details@) == details[0].location(),
        CompilerErrorOrDiagnostic::Diagnostic(diagnostic).summary() == details[0].summary(),
        CompilerErrorOrDiagnostic::Diagnostic(diagnostic).event_line() == details[0].event_line(),
{
    if let CompilerErrorOrDiagnostic::ErrorDetail(d) = details[0] {
        reveal_with_fuel(crate::diagnostic::first_location, 2);
        assert(diagnostic.details@[0] == crate::diagnostic::reason_at(d.reason, d.loc));
        assert(diagnostic.details@.skip(1).len() == 0);
    }
}

/// A diagnostic turned into an error and back is the same diagnostic. The one
/// exception is `Todo`, which comes back with its category, reason, description
/// and primary location, and with the reason at that location as its only
/// detail.
pub proof fn lemma_diagnostic_round_trip(diagnostic: CompilerDiagnostic, back: CompilerDiagnostic)
    requires
        stands_for_first(seq![entry_of(diagnostic)], back),
    ensures
        !(diagnostic.category is Todo) ==> back == diagnostic,
        back.category == diagnostic.category,
        back.reason == diagnostic.reason,
        back.description == diagnostic.description,
        crate::diagnostic::first_location(back.details@) == crate::diagnostic::first_location(
            diagnostic.details@,
        ),
        diagnostic.category is Todo ==> back.details@ == seq![
            crate::diagnostic::reason_at(
                diagnostic.reason,
                crate::diagnostic::first_location(diagnostic.details@),
            ),
        ] && back.suggestions is None,
{
    lemma_stand_in_says_the_same(seq![entry_of(diagnostic)], back);
}

/// A diagnostic whose only detail is its reason, and which has no suggestions,
/// as `todo` makes it, comes back from an error with the same content.
pub proof fn lemma_plain_diagnostic_round_trip(
    diagnostic: CompilerDiagnostic,
    loc: Option<SourceLocation>,
    back: CompilerDiagnostic,
)
    requires
        diagnostic.details@ == seq![crate::diagnostic::reason_at(diagnostic.reason, loc)],
        diagnostic.suggestions is None,
        stands_for_first(seq![entry_of(diagnostic)], back),
    ensures
        back.copies(diagnostic),
{
    lemma_diagnostic_round_trip(diagnostic, back);
    reveal_with_fuel(crate::diagnostic::first_location, 2);
    assert(diagnostic.details@[0] == crate::diagnostic::reason_at(diagnostic.reason, loc));
    assert(diagnostic.details@.skip(1).len() == 0);
}

} // verus!
