//! Severities and headings, category by category.

#![allow(unused_imports)]

use vstd::prelude::*;

use crate::category::{format_category_heading, ErrorCategory, ErrorSeverity};
use crate::diagnostic::{CompilerDiagnostic, CompilerErrorDetail};
use crate::error::CompilerErrorOrDiagnostic;

verus! {

/// `severity` is a warning for four categories, a hint for `Todo`, and an error
/// for every other category.
pub proof fn law_severity(category: ErrorCategory, severity: ErrorSeverity)
    requires
        call_ensures(ErrorCategory::severity, (&category,), severity),
    ensures
        severity == ErrorSeverity::Warning <==> (category == ErrorCategory::EffectDependencies
            || category == ErrorCategory::IncompatibleLibrary || category
            == ErrorCategory::PreserveManualMemo || category == ErrorCategory::UnsupportedSyntax),
        severity == ErrorSeverity::Hint <==> category == ErrorCategory::Todo,
        severity != ErrorSeverity::Off,
{
}

/// `logged_severity` is a warning for three categories, a hint for `Todo`, and
/// an error for every other category, `PreserveManualMemo` among them.
pub proof fn law_logged_severity(category: ErrorCategory, severity: ErrorSeverity)
    requires
        call_ensures(ErrorCategory::logged_severity, (&category,), severity),
    ensures
        severity == ErrorSeverity::Warning <==> (category == ErrorCategory::EffectDependencies
            || category == ErrorCategory::IncompatibleLibrary || category
            == ErrorCategory::UnsupportedSyntax),
        severity == ErrorSeverity::Hint <==> category == ErrorCategory::Todo,
        severity != ErrorSeverity::Off,
{
}

/// The two severities of a category differ for `PreserveManualMemo` alone.
pub proof fn law_severities_differ_once(
    category: ErrorCategory,
    internal: ErrorSeverity,
    logged: ErrorSeverity,
)
    requires
        call_ensures(ErrorCategory::severity, (&category,), internal),
        call_ensures(ErrorCategory::logged_severity, (&category,), logged),
    ensures
        internal != logged <==> category == ErrorCategory::PreserveManualMemo,
{
}

/// A diagnostic has the severities of its category.
pub proof fn law_diagnostic_severity(
    diagnostic: CompilerDiagnostic,
    internal: ErrorSeverity,
    logged: ErrorSeverity,
    of_category: ErrorSeverity,
    logged_of_category: ErrorSeverity,
)
    requires
        call_ensures(CompilerDiagnostic::severity, (&diagnostic,), internal),
        call_ensures(CompilerDiagnostic::logged_severity, (&diagnostic,), logged),
        call_ensures(ErrorCategory::severity, (&diagnostic.category,), of_category),
        call_ensures(ErrorCategory::logged_severity, (&diagnostic.category,), logged_of_category),
    ensures
        internal == of_category,
        logged == logged_of_category,
{
}

/// An error detail has the severities of its category.
pub proof fn law_error_detail_severity(
    detail: CompilerErrorDetail,
    internal: ErrorSeverity,
    logged: ErrorSeverity,
    of_category: ErrorSeverity,
    logged_of_category: ErrorSeverity,
)
    requires
        call_ensures(CompilerErrorDetail::severity, (&detail,), internal),
        call_ensures(CompilerErrorDetail::logged_severity, (&detail,), logged),
        call_ensures(ErrorCategory::severity, (&detail.category,), of_category),
        call_ensures(ErrorCategory::logged_severity, (&detail.category,), logged_of_category),
    ensures
        internal == of_category,
        logged == logged_of_category,
{
}

/// An entry of an error has the severities of what it holds.
pub proof fn law_entry_severity(
    entry: CompilerErrorOrDiagnostic,
    internal: ErrorSeverity,
    logged: ErrorSeverity,
    category: ErrorCategory,
    of_category: ErrorSeverity,
    logged_of_category: ErrorSeverity,
)
    requires
        call_ensures(CompilerErrorOrDiagnostic::severity, (&entry,), internal),
        call_ensures(CompilerErrorOrDiagnostic::logged_severity, (&entry,), logged),
        category == (match entry {
            CompilerErrorOrDiagnostic::Diagnostic(d) => d.category,
            CompilerErrorOrDiagnostic::ErrorDetail(d) => d.category,
        }),
        call_ensures(ErrorCategory::severity, (&category,), of_category),
        call_ensures(ErrorCategory::logged_severity, (&category,), logged_of_category),
    ensures
        internal == of_category,
        logged == logged_of_category,
{
}

/// The heading is "Compilation Skipped" for four categories, "Invariant" and
/// "Todo" for the categories of that name, and "Error" for every other.
pub proof fn law_heading(category: ErrorCategory, heading: &'static str)
    requires
        call_ensures(format_category_heading, (category,), heading),
    ensures
        (category == ErrorCategory::EffectDependencies || category
            == ErrorCategory::IncompatibleLibrary || category == ErrorCategory::PreserveManualMemo
            || category == ErrorCategory::UnsupportedSyntax) ==> heading@ == "Compilation Skipped"@,
        category == ErrorCategory::Invariant ==> heading@ == "Invariant"@,
        category == ErrorCategory::Todo ==> heading@ == "Todo"@,
        (category != ErrorCategory::EffectDependencies && category
            != ErrorCategory::IncompatibleLibrary && category != ErrorCategory::PreserveManualMemo
            && category != ErrorCategory::UnsupportedSyntax && category != ErrorCategory::Invariant
            && category != ErrorCategory::Todo) ==> heading@ == "Error"@,
{
}

} // verus!
