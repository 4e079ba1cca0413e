//! Aggregate errors: what is in them, what they say, what they turn into.

#![allow(unused_imports)]

use vstd::prelude::*;

use crate::category::{format_category_heading, ErrorCategory};
use crate::diagnostic::{CompilerDiagnostic, CompilerDiagnosticDetail, CompilerErrorDetail};
use crate::error::{CompilerError, CompilerErrorOrDiagnostic};
use crate::location::SourceLocation;

verus! {

/// A new error is thrown and has no entries, however it is made.
pub proof fn law_new_error(made: CompilerError, default: CompilerError)
    requires
        call_ensures(CompilerError::new, (), made),
        call_ensures(<CompilerError as Default>::default, (), default),
    ensures
        made.details@.len() == 0,
        made.is_thrown,
        default.details@.len() == 0,
        default.is_thrown,
{
}

/// A diagnostic of any category is added as the last entry.
pub proof fn law_push_diagnostic(
    error: &mut CompilerError,
    diagnostic: CompilerDiagnostic,
    i: int,
)
    requires
        call_ensures(CompilerError::push_diagnostic, (error, diagnostic), ()),
    ensures
        final(error).is_thrown == old(error).is_thrown,
        final(error).details@.len() == old(error).details@.len() + 1,
        final(error).details@.last() == CompilerErrorOrDiagnostic::Diagnostic(diagnostic),
        0 <= i < old(error).details@.len() ==> final(error).details@[i] == old(error).details@[i],
{
}

/// An error detail of any category is added as the last entry.
pub proof fn law_push_error_detail(error: &mut CompilerError, detail: CompilerErrorDetail, i: int)
    requires
        call_ensures(CompilerError::push_error_detail, (error, detail), ()),
    ensures
        final(error).is_thrown == old(error).is_thrown,
        final(error).details@.len() == old(error).details@.len() + 1,
        final(error).details@.last() == CompilerErrorOrDiagnostic::ErrorDetail(detail),
        0 <= i < old(error).details@.len() ==> final(error).details@[i] == old(error).details@[i],
{
}

/// Merging puts the entries of the other error behind those of this one, in
/// their order, and does not change whether this one is thrown.
pub proof fn law_merge(error: &mut CompilerError, other: CompilerError, i: int, j: int)
    requires
        call_ensures(CompilerError::merge, (error, other), ()),
    ensures
        final(error).is_thrown == old(error).is_thrown,
        final(error).details@.len() == old(error).details@.len() + other.details@.len(),
        0 <= i < old(error).details@.len() ==> final(error).details@[i] == old(error).details@[i],
        0 <= j < other.details@.len() ==> final(error).details@[old(error).details@.len() + j]
            == other.details@[j],
{
}

/// An error has errors exactly when the category of some entry is none of the
/// four that skip compilation and not `Todo`.
pub proof fn law_has_errors(error: CompilerError, res: bool)
    requires
        call_ensures(CompilerError::has_errors, (&error,), res),
    ensures
        res <==> exists|i: int|
            0 <= i < error.details@.len() && {
                let category = match #[trigger] error.details@[i] {
                    CompilerErrorOrDiagnostic::Diagnostic(d) => d.category,
                    CompilerErrorOrDiagnostic::ErrorDetail(d) => d.category,
                };
                &&& category != ErrorCategory::EffectDependencies
                &&& category != ErrorCategory::IncompatibleLibrary
                &&& category != ErrorCategory::PreserveManualMemo
                &&& category != ErrorCategory::UnsupportedSyntax
                &&& category != ErrorCategory::Todo
            },
{
    let details = error.details@;
    if res {
        let i = choose|i: int|
            0 <= i < details.len() && (#[trigger] details[i]).severity()
                == crate::category::ErrorSeverity::Error;
        assert(details[i] == error.details@[i]);
    } else {
        assert forall|i: int| 0 <= i < details.len() implies (#[trigger] details[i]).severity()
            != crate::category::ErrorSeverity::Error by {}
    }
}

/// An error whose entries are all of categories that skip compilation, such as
/// `PreserveManualMemo`, or `Todo` has no errors.
pub proof fn law_skipped_compilation_is_no_error(error: CompilerError, res: bool)
    requires
        call_ensures(CompilerError::has_errors, (&error,), res),
        forall|i: int|
            0 <= i < error.details@.len() ==> {
                let category = match #[trigger] error.details@[i] {
                    CompilerErrorOrDiagnostic::Diagnostic(d) => d.category,
                    CompilerErrorOrDiagnostic::ErrorDetail(d) => d.category,
                };
                ||| category == ErrorCategory::EffectDependencies
                ||| category == ErrorCategory::IncompatibleLibrary
                ||| category == ErrorCategory::PreserveManualMemo
                ||| category == ErrorCategory::UnsupportedSyntax
                ||| category == ErrorCategory::Todo
            },
    ensures
        !res,
{
    law_has_errors(error, res);
}

/// An error has any errors exactly when it has an entry.
pub proof fn law_has_any_errors(error: CompilerError, res: bool)
    requires
        call_ensures(CompilerError::has_any_errors, (&error,), res),
    ensures
        res <==> error.details@.len() != 0,
{
}

/// An error has invariant errors exactly when the category of some entry, of
/// either kind, is `Invariant`; otherwise, and only then, it is all
/// non-invariant.
pub proof fn law_invariant_errors(error: CompilerError, found: bool, none_found: bool)
    requires
        call_ensures(CompilerError::has_invariant_errors, (&error,), found),
        call_ensures(CompilerError::is_all_non_invariant, (&error,), none_found),
    ensures
        found <==> exists|i: int|
            0 <= i < error.details@.len() && (match #[trigger] error.details@[i] {
                CompilerErrorOrDiagnostic::Diagnostic(d) => d.category,
                CompilerErrorOrDiagnostic::ErrorDetail(d) => d.category,
            }) == ErrorCategory::Invariant,
        none_found <==> !found,
{
    let details = error.details@;
    if found {
        let i = choose|i: int|
            0 <= i < details.len() && (#[trigger] details[i]).category() is Invariant;
        assert(details[i] == error.details@[i]);
    } else {
        assert forall|i: int| 0 <= i < details.len() implies !((
        #[trigger] details[i]).category() is Invariant) by {}
    }
}

/// What either of two errors has, the error with the entries of both has, and
/// nothing more.
pub proof fn law_parts_of_errors(
    front: CompilerError,
    back: CompilerError,
    whole: CompilerError,
    front_errors: bool,
    back_errors: bool,
    whole_errors: bool,
    front_invariant: bool,
    back_invariant: bool,
    whole_invariant: bool,
)
    requires
        whole.details@ == front.details@ + back.details@,
        call_ensures(CompilerError::has_errors, (&front,), front_errors),
        call_ensures(CompilerError::has_errors, (&back,), back_errors),
        call_ensures(CompilerError::has_errors, (&whole,), whole_errors),
        call_ensures(CompilerError::has_invariant_errors, (&front,), front_invariant),
        call_ensures(CompilerError::has_invariant_errors, (&back,), back_invariant),
        call_ensures(CompilerError::has_invariant_errors, (&whole,), whole_invariant),
    ensures
        whole_errors <==> front_errors || back_errors,
        whole_invariant <==> front_invariant || back_invariant,
        whole_invariant ==> whole_errors,
{
    crate::error::lemma_merged_kinds(front.details@, back.details@);
    crate::error::lemma_kinds_of_errors(whole.details@);
}

/// The event text of an error detail: heading, reason, description, and the line
/// and column where its location starts.
pub proof fn law_event_text_of_error_detail(
    error: CompilerError,
    detail: CompilerErrorDetail,
    heading: &'static str,
    text: String,
)
    requires
        error.details@ == seq![CompilerErrorOrDiagnostic::ErrorDetail(detail)],
        call_ensures(format_category_heading, (detail.category,), heading),
        call_ensures(CompilerError::to_string_for_event, (&error,), text),
    ensures
        text@ == heading@ + ": "@ + detail.reason@ + (match detail.description {
            Some(description) => ". "@ + description@ + "."@,
            None => Seq::<char>::empty(),
        }) + (match detail.loc {
            Some(loc) => " ("@ + crate::text::decimal(loc.start.line as nat) + ":"@
                + crate::text::decimal(loc.start.column as nat) + ")"@,
            None => Seq::<char>::empty(),
        }),
{
    let lines = crate::error::event_lines(error.details@);
    assert(lines.len() == 1 && lines[0] == error.details@[0].event_line());
}

/// The event text of a diagnostic: heading, reason, description, and the line
/// and column where its primary location starts.
pub proof fn law_event_text_of_diagnostic(
    error: CompilerError,
    diagnostic: CompilerDiagnostic,
    heading: &'static str,
    loc: Option<&SourceLocation>,
    text: String,
)
    requires
        error.details@ == seq![CompilerErrorOrDiagnostic::Diagnostic(diagnostic)],
        call_ensures(format_category_heading, (diagnostic.category,), heading),
        call_ensures(CompilerDiagnostic::primary_location, (&diagnostic,), loc),
        call_ensures(CompilerError::to_string_for_event, (&error,), text),
    ensures
        text@ == heading@ + ": "@ + diagnostic.reason@ + (match diagnostic.description {
            Some(description) => ". "@ + description@ + "."@,
            None => Seq::<char>::empty(),
        }) + (match loc {
            Some(loc) => " ("@ + crate::text::decimal(loc.start.line as nat) + ":"@
                + crate::text::decimal(loc.start.column as nat) + ")"@,
            None => Seq::<char>::empty(),
        }),
{
    let lines = crate::error::event_lines(error.details@);
    assert(lines.len() == 1 && lines[0] == error.details@[0].event_line());
}

/// Of a location, the event text shows where it starts and nothing else: errors
/// that differ in where their location ends, in its offsets or in its file have
/// the same event text.
pub proof fn law_event_text_shows_the_start(
    error: CompilerError,
    other: CompilerError,
    detail: CompilerErrorDetail,
    loc: SourceLocation,
    other_loc: SourceLocation,
    text: String,
    other_text: String,
)
    requires
        detail.loc == Some(loc),
        other_loc.start.line == loc.start.line,
        other_loc.start.column == loc.start.column,
        error.details@ == seq![CompilerErrorOrDiagnostic::ErrorDetail(detail)],
        other.details@ == seq![
            CompilerErrorOrDiagnostic::ErrorDetail(
                CompilerErrorDetail { loc: Some(other_loc), ..detail },
            ),
        ],
        call_ensures(CompilerError::to_string_for_event, (&error,), text),
        call_ensures(CompilerError::to_string_for_event, (&other,), other_text),
    ensures
        other_text@ == text@,
{
    let lines = crate::error::event_lines(error.details@);
    let other_lines = crate::error::event_lines(other.details@);
    assert(lines.len() == 1 && lines[0] == error.details@[0].event_line());
    assert(other_lines.len() == 1 && other_lines[0] == other.details@[0].event_line());
}

/// An error without entries has no event text. The entries of two errors taken
/// together have the text of the one, an empty line, and the text of the other.
pub proof fn law_event_text_of_parts(
    front: CompilerError,
    back: CompilerError,
    whole: CompilerError,
    front_text: String,
    back_text: String,
    whole_text: String,
)
    requires
        whole.details@ == front.details@ + back.details@,
        call_ensures(CompilerError::to_string_for_event, (&front,), front_text),
        call_ensures(CompilerError::to_string_for_event, (&back,), back_text),
        call_ensures(CompilerError::to_string_for_event, (&whole,), whole_text),
    ensures
        front.details@.len() == 0 ==> front_text@ == Seq::<char>::empty() && whole_text@
            == back_text@,
        back.details@.len() == 0 ==> back_text@ == Seq::<char>::empty() && whole_text@
            == front_text@,
        front.details@.len() > 0 && back.details@.len() > 0 ==> whole_text@ == front_text@
            + "\n\n"@ + back_text@,
{
    crate::error::lemma_merged_event_text(front.details@, back.details@);
}

/// Merging errors joins their event texts by an empty line.
pub proof fn law_event_text_of_merged(
    error: &mut CompilerError,
    other: CompilerError,
    before: CompilerError,
    after: CompilerError,
    before_text: String,
    other_text: String,
    after_text: String,
)
    requires
        call_ensures(CompilerError::merge, (error, other), ()),
        before == *old(error),
        after == *final(error),
        before.details@.len() > 0,
        other.details@.len() > 0,
        call_ensures(CompilerError::to_string_for_event, (&before,), before_text),
        call_ensures(CompilerError::to_string_for_event, (&other,), other_text),
        call_ensures(CompilerError::to_string_for_event, (&after,), after_text),
    ensures
        after_text@ == before_text@ + "\n\n"@ + other_text@,
{
    law_event_text_of_parts(before, other, after, before_text, other_text, after_text);
}

/// An error with one entry, of either kind, is displayed as heading, reason,
/// description where there is one, and a newline.
pub proof fn law_display_of_one_entry(
    error: CompilerError,
    category: ErrorCategory,
    reason: String,
    description: Option<String>,
    heading: &'static str,
    text: String,
)
    requires
        error.details@.len() == 1,
        match error.details@[0] {
            CompilerErrorOrDiagnostic::Diagnostic(d) => {
                d.category == category && d.reason == reason && d.description == description
            },
            CompilerErrorOrDiagnostic::ErrorDetail(d) => {
                d.category == category && d.reason == reason && d.description == description
            },
        },
        call_ensures(format_category_heading, (category,), heading),
        call_ensures(CompilerError::to_string, (&error,), text),
    ensures
        description matches Some(said) ==> text@ == heading@ + ": "@ + reason@ + ". "@ + said@
            + "."@ + "\n"@,
        description is None ==> text@ == heading@ + ": "@ + reason@ + "\n"@,
{
    let details = error.details@;
    assert(details.drop_last().len() == 0);
    assert(details.last() == details[0]);
    assert(crate::error::display_text(details.drop_last()) =~= Seq::<char>::empty());
    if let Some(said) = description {
        assert(text@ =~= heading@ + ": "@ + reason@ + ". "@ + said@ + "."@ + "\n"@);
    } else {
        assert(text@ =~= heading@ + ": "@ + reason@ + "\n"@);
    }
}

/// An entry is displayed as its event text without a location, and a newline: a
/// diagnostic and an error detail of the same words are displayed alike.
pub proof fn law_display_is_event_text_without_location(
    shown: CompilerError,
    unlocated: CompilerError,
    detail: CompilerErrorDetail,
    displayed: String,
    event: String,
)
    requires
        shown.details@.len() == 1,
        match shown.details@[0] {
            CompilerErrorOrDiagnostic::Diagnostic(d) => {
                d.category == detail.category && d.reason == detail.reason && d.description
                    == detail.description
            },
            CompilerErrorOrDiagnostic::ErrorDetail(d) => {
                d.category == detail.category && d.reason == detail.reason && d.description
                    == detail.description
            },
        },
        detail.loc is None,
        unlocated.details@ == seq![CompilerErrorOrDiagnostic::ErrorDetail(detail)],
        call_ensures(CompilerError::to_string, (&shown,), displayed),
        call_ensures(CompilerError::to_string_for_event, (&unlocated,), event),
    ensures
        displayed@ == event@ + "\n"@,
{
    let details = shown.details@;
    assert(details.drop_last().len() == 0);
    assert(details.last() == details[0]);
    assert(crate::error::display_text(details.drop_last()) =~= Seq::<char>::empty());
    let lines = crate::error::event_lines(unlocated.details@);
    assert(lines.len() == 1 && lines[0] == unlocated.details@[0].event_line());
    assert(displayed@ =~= event@ + "\n"@);
}

/// An error without entries is displayed as nothing. The entries of two errors
/// taken together are displayed one after the other.
pub proof fn law_display_of_parts(
    front: CompilerError,
    back: CompilerError,
    whole: CompilerError,
    front_text: String,
    back_text: String,
    whole_text: String,
)
    requires
        whole.details@ == front.details@ + back.details@,
        call_ensures(CompilerError::to_string, (&front,), front_text),
        call_ensures(CompilerError::to_string, (&back,), back_text),
        call_ensures(CompilerError::to_string, (&whole,), whole_text),
    ensures
        front.details@.len() == 0 ==> front_text@ == Seq::<char>::empty(),
        whole_text@ == front_text@ + back_text@,
{
    crate::error::lemma_merged_display(front.details@, back.details@);
}

/// A diagnostic becomes a thrown error with one entry: a `Todo` as an error
/// detail at its primary location, any other as it is.
pub proof fn law_error_of_diagnostic(
    diagnostic: CompilerDiagnostic,
    loc: Option<&SourceLocation>,
    error: CompilerError,
)
    requires
        call_ensures(CompilerDiagnostic::primary_location, (&diagnostic,), loc),
        call_ensures(<CompilerError as From<CompilerDiagnostic>>::from, (diagnostic,), error),
    ensures
        error.is_thrown,
        error.details@.len() == 1,
        diagnostic.category != ErrorCategory::Todo ==> error.details@[0]
            == CompilerErrorOrDiagnostic::Diagnostic(diagnostic),
        diagnostic.category == ErrorCategory::Todo ==> {
            &&& error.details@[0] matches CompilerErrorOrDiagnostic::ErrorDetail(detail)
            &&& detail.category == ErrorCategory::Todo
            &&& detail.reason == diagnostic.reason
            &&& detail.description == diagnostic.description
            &&& detail.suggestions == diagnostic.suggestions
            &&& detail.loc is Some <==> loc is Some
            &&& loc matches Some(at) ==> detail.loc == Some(*at)
        },
{
}

/// An error becomes the diagnostic of its first entry: that diagnostic itself,
/// or the one that `from_detail` makes of that error detail. An error without
/// entries becomes an unknown error of the compiler.
pub proof fn law_diagnostic_of_error(error: CompilerError, res: CompilerDiagnostic)
    requires
        call_ensures(<CompilerDiagnostic as From<CompilerError>>::from, (error,), res),
    ensures
        error.details@.len() == 0 ==> {
            &&& res.category == ErrorCategory::Invariant
            &&& res.reason@ == "Unknown compiler error"@
            &&& res.description is None
            &&& res.details@.len() == 0
            &&& res.suggestions is None
        },
        error.details@.len() > 0 ==> match error.details@[0] {
            CompilerErrorOrDiagnostic::Diagnostic(d) => res == d,
            CompilerErrorOrDiagnostic::ErrorDetail(d) => {
                &&& res.category == d.category
                &&& res.reason == d.reason
                &&& res.description == d.description
                &&& res.suggestions is None
                &&& res.details@.len() == 1
                &&& res.details@[0] == (CompilerDiagnosticDetail::Error {
                    loc: d.loc,
                    message: Some(d.reason),
                    identifier_name: None,
                })
            },
        },
{
}

/// A diagnostic that becomes an error and then a diagnostic again keeps its
/// category, reason, description and primary location; unless it is a `Todo`,
/// it comes back as it was.
pub proof fn law_diagnostic_round_trip(
    diagnostic: CompilerDiagnostic,
    loc: Option<&SourceLocation>,
    error: CompilerError,
    back: CompilerDiagnostic,
    back_loc: Option<&SourceLocation>,
)
    requires
        call_ensures(CompilerDiagnostic::primary_location, (&diagnostic,), loc),
        call_ensures(<CompilerError as From<CompilerDiagnostic>>::from, (diagnostic,), error),
        call_ensures(<CompilerDiagnostic as From<CompilerError>>::from, (error,), back),
        call_ensures(CompilerDiagnostic::primary_location, (&back,), back_loc),
    ensures
        back.category == diagnostic.category,
        back.reason == diagnostic.reason,
        back.description == diagnostic.description,
        back_loc == loc,
        diagnostic.category != ErrorCategory::Todo ==> back == diagnostic,
{
    assert(error.details@ =~= seq![crate::error::entry_of(diagnostic)]);
    crate::error::lemma_diagnostic_round_trip(diagnostic, back);
}

/// A diagnostic says the same in an error that it was put into and in one that
/// it was turned into.
pub proof fn law_conversion_keeps_the_event_text(
    diagnostic: CompilerDiagnostic,
    holder: CompilerError,
    converted: CompilerError,
    text: String,
    converted_text: String,
)
    requires
        holder.details@ == seq![CompilerErrorOrDiagnostic::Diagnostic(diagnostic)],
        call_ensures(<CompilerError as From<CompilerDiagnostic>>::from, (diagnostic,), converted),
        call_ensures(CompilerError::to_string_for_event, (&holder,), text),
        call_ensures(CompilerError::to_string_for_event, (&converted,), converted_text),
    ensures
        converted_text@ == text@,
{
    crate::error::lemma_entry_says_the_same(diagnostic);
    let lines = crate::error::event_lines(holder.details@);
    let converted_lines = crate::error::event_lines(converted.details@);
    assert(lines.len() == 1 && lines[0] == holder.details@[0].event_line());
    assert(converted_lines.len() == 1 && converted_lines[0]
        == converted.details@[0].event_line());
}

/// A clone of an entry is of the same kind and has the same fields.
pub proof fn law_cloned_entry(entry: CompilerErrorOrDiagnostic, clone: CompilerErrorOrDiagnostic)
    requires
        call_ensures(<CompilerErrorOrDiagnostic as Clone>::clone, (&entry,), clone),
    ensures
        match (entry, clone) {
            (
                CompilerErrorOrDiagnostic::Diagnostic(d),
                CompilerErrorOrDiagnostic::Diagnostic(copy),
            ) => {
                &&& copy.category == d.category
                &&& copy.reason == d.reason
                &&& copy.description == d.description
                &&& copy.details@ == d.details@
                &&& copy.suggestions is Some <==> d.suggestions is Some
                &&& d.suggestions matches Some(list) ==> copy.suggestions->0@ == list@
            },
            (
                CompilerErrorOrDiagnostic::ErrorDetail(d),
                CompilerErrorOrDiagnostic::ErrorDetail(copy),
            ) => {
                &&& copy.category == d.category
                &&& copy.reason == d.reason
                &&& copy.description == d.description
                &&& copy.loc == d.loc
                &&& copy.suggestions is Some <==> d.suggestions is Some
                &&& d.suggestions matches Some(list) ==> copy.suggestions->0@ == list@
            },
            _ => false,
        },
{
}

/// A clone of an error has its entries in their order, of the same kinds and
/// with the same fields, and is thrown if it is.
pub proof fn law_cloned_error(error: CompilerError, clone: CompilerError, i: int)
    requires
        call_ensures(<CompilerError as Clone>::clone, (&error,), clone),
    ensures
        clone.is_thrown == error.is_thrown,
        clone.details@.len() == error.details@.len(),
        0 <= i < error.details@.len() ==> match (error.details@[i], clone.details@[i]) {
            (
                CompilerErrorOrDiagnostic::Diagnostic(d),
                CompilerErrorOrDiagnostic::Diagnostic(copy),
            ) => {
                &&& copy.category == d.category
                &&& copy.reason == d.reason
                &&& copy.description == d.description
                &&& copy.details@ == d.details@
                &&& copy.suggestions is Some <==> d.suggestions is Some
                &&& d.suggestions matches Some(list) ==> copy.suggestions->0@ == list@
            },
            (
                CompilerErrorOrDiagnostic::ErrorDetail(d),
                CompilerErrorOrDiagnostic::ErrorDetail(copy),
            ) => {
                &&& copy.category == d.category
                &&& copy.reason == d.reason
                &&& copy.description == d.description
                &&& copy.loc == d.loc
                &&& copy.suggestions is Some <==> d.suggestions is Some
                &&& d.suggestions matches Some(list) ==> copy.suggestions->0@ == list@
            },
            _ => false,
        },
{
    if 0 <= i < error.details@.len() {
        assert(clone.details@[i].copies(error.details@[i]));
    }
}

/// An error and its clone say the same, in an event and on display.
pub proof fn law_clones_say_the_same(
    error: CompilerError,
    clone: CompilerError,
    event: String,
    clone_event: String,
    displayed: String,
    clone_displayed: String,
)
    requires
        call_ensures(<CompilerError as Clone>::clone, (&error,), clone),
        call_ensures(CompilerError::to_string_for_event, (&error,), event),
        call_ensures(CompilerError::to_string_for_event, (&clone,), clone_event),
        call_ensures(CompilerError::to_string, (&error,), displayed),
        call_ensures(CompilerError::to_string, (&clone,), clone_displayed),
    ensures
        clone_event@ == event@,
        clone_displayed@ == displayed@,
{
    assert forall|i: int| 0 <= i < error.details@.len() implies #[trigger] clone.details@[i].copies(
        error.details@[i],
    ) by {}
    assert(crate::error::event_lines(clone.details@) =~= crate::error::event_lines(error.details@));
    lemma_copies_are_displayed_alike(error.details@, clone.details@);
}

/// Lists whose entries are copies of each other are displayed alike.
proof fn lemma_copies_are_displayed_alike(
    details: Seq<CompilerErrorOrDiagnostic>,
    copies: Seq<CompilerErrorOrDiagnostic>,
)
    requires
        copies.len() == details.len(),
        forall|i: int|
            0 <= i < details.len() ==> (#[trigger] copies[i]).copies(details[i]),
    ensures
        crate::error::display_text(copies) == crate::error::display_text(details),
    decreases details.len(),
{
    if details.len() > 0 {
        assert forall|i: int| 0 <= i < details.len() - 1 implies (
        #[trigger] copies.drop_last()[i]).copies(details.drop_last()[i]) by {
            assert(copies[i].copies(details[i]));
        }
        lemma_copies_are_displayed_alike(details.drop_last(), copies.drop_last());
        assert(copies[details.len() - 1].copies(details[details.len() - 1]));
    }
}

} // verus!
