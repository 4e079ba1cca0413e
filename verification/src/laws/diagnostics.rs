//! Single diagnostics, field by field.

#![allow(unused_imports)]

use vstd::prelude::*;

use crate::category::ErrorCategory;
use crate::diagnostic::{
    CompilerDiagnostic, CompilerDiagnosticDetail, CompilerErrorDetail, CompilerSuggestion,
    CompilerSuggestionOperation,
};
use crate::location::SourceLocation;

verus! {

/// A new diagnostic has the category, reason and description that it is given,
/// and nothing else. A reason given as a slice is taken by its text, and one
/// given as a string is taken as it is.
pub proof fn law_new_diagnostic(
    category: ErrorCategory,
    slice: &str,
    text: String,
    description: Option<String>,
    of_slice: CompilerDiagnostic,
    of_text: CompilerDiagnostic,
)
    requires
        call_ensures(CompilerDiagnostic::new, (category, slice, description), of_slice),
        call_ensures(CompilerDiagnostic::new, (category, text, description), of_text),
    ensures
        of_slice.category == category,
        of_slice.reason@ == slice@,
        of_slice.description == description,
        of_slice.details@.len() == 0,
        of_slice.suggestions is None,
        of_text.category == category,
        of_text.reason == text,
        of_text.description == description,
        of_text.details@.len() == 0,
        of_text.suggestions is None,
{
}

/// One more detail comes behind those that are there, and nothing else changes.
pub proof fn law_with_detail(
    diagnostic: CompilerDiagnostic,
    detail: CompilerDiagnosticDetail,
    res: CompilerDiagnostic,
    i: int,
)
    requires
        call_ensures(CompilerDiagnostic::with_detail, (diagnostic, detail), res),
    ensures
        res.category == diagnostic.category,
        res.reason == diagnostic.reason,
        res.description == diagnostic.description,
        res.suggestions == diagnostic.suggestions,
        res.details@.len() == diagnostic.details@.len() + 1,
        res.details@[diagnostic.details@.len() as int] == detail,
        0 <= i < diagnostic.details@.len() ==> res.details@[i] == diagnostic.details@[i],
{
}

/// A `Todo` diagnostic has the reason that it is given, and one detail: an error
/// that says the reason at the location that it is given.
pub proof fn law_todo(
    slice: &str,
    text: String,
    loc: Option<SourceLocation>,
    of_slice: CompilerDiagnostic,
    of_text: CompilerDiagnostic,
)
    requires
        call_ensures(CompilerDiagnostic::todo, (slice, loc), of_slice),
        call_ensures(CompilerDiagnostic::todo, (text, loc), of_text),
    ensures
        of_slice.category == ErrorCategory::Todo,
        of_slice.reason@ == slice@,
        of_slice.description is None,
        of_slice.suggestions is None,
        of_slice.details@.len() == 1,
        of_slice.details@[0] == (CompilerDiagnosticDetail::Error {
            loc,
            message: Some(of_slice.reason),
            identifier_name: None,
        }),
        of_text.category == ErrorCategory::Todo,
        of_text.reason == text,
        of_text.description is None,
        of_text.suggestions is None,
        of_text.details@.len() == 1,
        of_text.details@[0] == (CompilerDiagnosticDetail::Error {
            loc,
            message: Some(text),
            identifier_name: None,
        }),
{
}

/// The diagnostic of an error detail has its category, reason and description,
/// and one detail: an error that says the reason at the location of the detail.
pub proof fn law_from_detail(detail: CompilerErrorDetail, res: CompilerDiagnostic)
    requires
        call_ensures(CompilerDiagnostic::from_detail, (detail,), res),
    ensures
        res.category == detail.category,
        res.reason == detail.reason,
        res.description == detail.description,
        res.suggestions is None,
        res.details@.len() == 1,
        res.details@[0] == (CompilerDiagnosticDetail::Error {
            loc: detail.loc,
            message: Some(detail.reason),
            identifier_name: None,
        }),
{
}

/// The primary location is that of the first error that has one, and there is
/// none only where no detail is an error with a location.
pub proof fn law_primary_location(diagnostic: CompilerDiagnostic, res: Option<&SourceLocation>)
    requires
        call_ensures(CompilerDiagnostic::primary_location, (&diagnostic,), res),
    ensures
        match res {
            None => forall|i: int|
                0 <= i < diagnostic.details@.len() ==> (
                #[trigger] diagnostic.details@[i] matches CompilerDiagnosticDetail::Error {
                    loc,
                    ..
                } ==> loc is None),
            Some(first) => exists|i: int|
                {
                    &&& 0 <= i < diagnostic.details@.len()
                    &&& #[trigger] diagnostic.details@[i] matches CompilerDiagnosticDetail::Error {
                        loc: Some(loc),
                        ..
                    } && loc == *first
                    &&& forall|j: int|
                        0 <= j < i ==> (
                        #[trigger] diagnostic.details@[j] matches CompilerDiagnosticDetail::Error {
                            loc,
                            ..
                        } ==> loc is None)
                },
        },
{
    let details = diagnostic.details@;
    crate::diagnostic::lemma_first_location(details);
    if res is Some {
        let i = choose|i: int|
            {
                &&& 0 <= i < details.len()
                &&& (#[trigger] details[i]).location() == crate::diagnostic::first_location(details)
                &&& forall|j: int| 0 <= j < i ==> (#[trigger] details[j]).location() is None
            };
        assert(details[i].location() == crate::diagnostic::first_location(details));
        assert forall|j: int| 0 <= j < i implies (
        #[trigger] details[j] matches CompilerDiagnosticDetail::Error { loc, .. } ==> loc is None) by {
            assert(details[j].location() is None);
        }
    } else {
        assert forall|j: int| 0 <= j < details.len() implies (
        #[trigger] details[j] matches CompilerDiagnosticDetail::Error { loc, .. } ==> loc is None) by {
            assert(details[j].location() is None);
        }
    }
}

/// The primary location is that of the first detail wherever that detail is an
/// error with a location. A hint in front, or an error without a location,
/// changes nothing. Without details there is none.
pub proof fn law_primary_location_skips_the_unlocated(
    diagnostic: CompilerDiagnostic,
    res: Option<&SourceLocation>,
    rest: CompilerDiagnostic,
    of_rest: Option<&SourceLocation>,
)
    requires
        diagnostic.details@.len() > 0 ==> rest.details@ == diagnostic.details@.skip(1),
        call_ensures(CompilerDiagnostic::primary_location, (&diagnostic,), res),
        call_ensures(CompilerDiagnostic::primary_location, (&rest,), of_rest),
    ensures
        diagnostic.details@.len() == 0 ==> res is None,
        diagnostic.details@.len() > 0 ==> res == match diagnostic.details@[0] {
            CompilerDiagnosticDetail::Error { loc: Some(at), .. } => Some(&at),
            _ => of_rest,
        },
{
}

/// A new error detail has the category and the reason that it is given, and
/// nothing else.
pub proof fn law_new_error_detail(
    category: ErrorCategory,
    slice: &str,
    text: String,
    of_slice: CompilerErrorDetail,
    of_text: CompilerErrorDetail,
)
    requires
        call_ensures(CompilerErrorDetail::new, (category, slice), of_slice),
        call_ensures(CompilerErrorDetail::new, (category, text), of_text),
    ensures
        of_slice.category == category,
        of_slice.reason@ == slice@,
        of_slice.description is None,
        of_slice.loc is None,
        of_slice.suggestions is None,
        of_text.category == category,
        of_text.reason == text,
        of_text.description is None,
        of_text.loc is None,
        of_text.suggestions is None,
{
}

/// `with_description` sets the description, whatever it was, and nothing else.
pub proof fn law_with_description(
    detail: CompilerErrorDetail,
    slice: &str,
    text: String,
    of_slice: CompilerErrorDetail,
    of_text: CompilerErrorDetail,
)
    requires
        call_ensures(CompilerErrorDetail::with_description, (detail, slice), of_slice),
        call_ensures(CompilerErrorDetail::with_description, (detail, text), of_text),
    ensures
        of_slice.description matches Some(description) && description@ == slice@,
        of_slice.category == detail.category,
        of_slice.reason == detail.reason,
        of_slice.loc == detail.loc,
        of_slice.suggestions == detail.suggestions,
        of_text.description == Some(text),
        of_text.category == detail.category,
        of_text.reason == detail.reason,
        of_text.loc == detail.loc,
        of_text.suggestions == detail.suggestions,
{
}

/// `with_loc` sets the location, whatever it was, and nothing else.
pub proof fn law_with_loc(
    detail: CompilerErrorDetail,
    loc: Option<SourceLocation>,
    res: CompilerErrorDetail,
)
    requires
        call_ensures(CompilerErrorDetail::with_loc, (detail, loc), res),
    ensures
        res.loc == loc,
        res.category == detail.category,
        res.reason == detail.reason,
        res.description == detail.description,
        res.suggestions == detail.suggestions,
{
}

/// Clones of the parts of a diagnostic are those parts.
pub proof fn law_cloned_parts(
    op: CompilerSuggestionOperation,
    op_clone: CompilerSuggestionOperation,
    suggestion: CompilerSuggestion,
    suggestion_clone: CompilerSuggestion,
    detail: CompilerDiagnosticDetail,
    detail_clone: CompilerDiagnosticDetail,
)
    requires
        call_ensures(<CompilerSuggestionOperation as Clone>::clone, (&op,), op_clone),
        call_ensures(<CompilerSuggestion as Clone>::clone, (&suggestion,), suggestion_clone),
        call_ensures(<CompilerDiagnosticDetail as Clone>::clone, (&detail,), detail_clone),
    ensures
        op_clone == op,
        suggestion_clone == suggestion,
        detail_clone == detail,
{
}

/// A clone of a diagnostic has its fields.
pub proof fn law_cloned_diagnostic(diagnostic: CompilerDiagnostic, clone: CompilerDiagnostic)
    requires
        call_ensures(<CompilerDiagnostic as Clone>::clone, (&diagnostic,), clone),
    ensures
        clone.category == diagnostic.category,
        clone.reason == diagnostic.reason,
        clone.description == diagnostic.description,
        clone.details@ == diagnostic.details@,
        clone.suggestions is Some <==> diagnostic.suggestions is Some,
        diagnostic.suggestions matches Some(list) ==> clone.suggestions->0@ == list@,
{
}

/// A clone of an error detail has its fields.
pub proof fn law_cloned_error_detail(detail: CompilerErrorDetail, clone: CompilerErrorDetail)
    requires
        call_ensures(<CompilerErrorDetail as Clone>::clone, (&detail,), clone),
    ensures
        clone.category == detail.category,
        clone.reason == detail.reason,
        clone.description == detail.description,
        clone.loc == detail.loc,
        clone.suggestions is Some <==> detail.suggestions is Some,
        detail.suggestions matches Some(list) ==> clone.suggestions->0@ == list@,
{
}

} // verus!
