//! Error categories, their severities and their headings.

use vstd::prelude::*;

verus! {

/// What kind of problem a diagnostic reports.
#[derive(Debug, Clone, Copy, PartialEq, Eq, Structural)]
pub enum ErrorCategory {
    Hooks,
    CapitalizedCalls,
    StaticComponents,
    UseMemo,
    VoidUseMemo,
    PreserveManualMemo,
    MemoDependencies,
    IncompatibleLibrary,
    Immutability,
    Globals,
    Refs,
    EffectDependencies,
    EffectExhaustiveDependencies,
    EffectSetState,
    EffectDerivationsOfState,
    ErrorBoundaries,
    Purity,
    RenderSetState,
    Invariant,
    Todo,
    Syntax,
    UnsupportedSyntax,
    Config,
    Gating,
    Suppression,
    FBT,
}

/// How severe a diagnostic is.
#[derive(Debug, Clone, Copy, PartialEq, Eq, Structural)]
pub enum ErrorSeverity {
    Error,
    Warning,
    Hint,
    Off,
}

impl ErrorCategory {
    /// The categories for which the compiler skips a function instead of
    /// reporting an error in it.
    pub open spec fn skips_compilation(&self) -> bool {
        ||| self is EffectDependencies
        ||| self is IncompatibleLibrary
        ||| self is PreserveManualMemo
        ||| self is UnsupportedSyntax
    }

    pub open spec fn spec_severity(&self) -> ErrorSeverity {
        if self.skips_compilation() {
            ErrorSeverity::Warning
        } else if self is Todo {
            ErrorSeverity::Hint
        } else {
            ErrorSeverity::Error
        }
    }

    pub open spec fn spec_logged_severity(&self) -> ErrorSeverity {
        if self is PreserveManualMemo {
            ErrorSeverity::Error
        } else {
            self.spec_severity()
        }
    }

    /// The severity that the compiler itself goes by: `Warning` where
    /// compilation is skipped, `Hint` for `Todo`, `Error` for all others.
    #[verifier::when_used_as_spec(spec_severity)]
    pub fn severity(&self) -> (res: ErrorSeverity)
        ensures
            res == self.spec_severity(),
    {
        match self {
            ErrorCategory::EffectDependencies
            | ErrorCategory::IncompatibleLibrary
            | ErrorCategory::PreserveManualMemo
            | ErrorCategory::UnsupportedSyntax => ErrorSeverity::Warning,
            ErrorCategory::Todo => ErrorSeverity::Hint,
            _ => ErrorSeverity::Error,
        }
    }

    /// The severity to use in logged output. `PreserveManualMemo` is a
    /// `Warning` internally, so that it does not trigger a panic threshold,
    /// but an `Error` in logged output; no other category differs.
    #[verifier::when_used_as_spec(spec_logged_severity)]
    pub fn logged_severity(&self) -> (res: ErrorSeverity)
        ensures
            res == self.spec_logged_severity(),
    {
        match self {
            ErrorCategory::PreserveManualMemo => ErrorSeverity::Error,
            _ => self.severity(),
        }
    }
}

/// The words with which a message of the given category begins.
pub open spec fn category_heading(category: ErrorCategory) -> Seq<char> {
    if category.skips_compilation() {
        "Compilation Skipped"@
    } else if category is Invariant {
        "Invariant"@
    } else if category is Todo {
        "Todo"@
    } else {
        "Error"@
    }
}

/// The heading of a message of the given category.
pub fn format_category_heading(category: ErrorCategory) -> (res: &'static str)
    ensures
        res@ == category_heading(category),
{
    match category {
        ErrorCategory::EffectDependencies
        | ErrorCategory::IncompatibleLibrary
        | ErrorCategory::PreserveManualMemo
        | ErrorCategory::UnsupportedSyntax => "Compilation Skipped",
        ErrorCategory::Invariant => "Invariant",
        ErrorCategory::Todo => "Todo",
        _ => "Error",
    }
}

/// No category is switched off, neither internally nor in logged output.
pub proof fn lemma_no_category_is_off(category: ErrorCategory)
    ensures
        category.severity() != ErrorSeverity::Off,
        category.logged_severity() != ErrorSeverity::Off,
{
}

/// The logged severity differs from the internal one for `PreserveManualMemo`
/// and for no other category.
pub proof fn lemma_logged_severity_differs_once(category: ErrorCategory)
    ensures
        category.logged_severity() != category.severity() <==> category is PreserveManualMemo,
{
}

/// The heading of a category agrees with its severity: "Compilation Skipped"
/// stands for the warnings, "Todo" for the hints, and "Invariant" and "Error"
/// together for the errors.
pub proof fn lemma_heading_shows_severity(category: ErrorCategory)
    ensures
        category_heading(category) == "Compilation Skipped"@ <==> category.severity()
            == ErrorSeverity::Warning,
        category_heading(category) == "Todo"@ <==> category.severity() == ErrorSeverity::Hint,
        category_heading(category) == "Invariant"@ <==> category is Invariant,
        category_heading(category) == "Error"@ || category_heading(category) == "Invariant"@
            <==> category.severity() == ErrorSeverity::Error,
{
    reveal_strlit("Compilation Skipped");
    reveal_strlit("Invariant");
    reveal_strlit("Todo");
    reveal_strlit("Error");
    assert("Compilation Skipped"@.len() == 19 && "Invariant"@.len() == 9 && "Todo"@.len() == 4
        && "Error"@.len() == 5);
}

} // verus!
