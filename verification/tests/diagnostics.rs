use react_compiler::{
    format_category_heading, CompilerDiagnostic, CompilerDiagnosticDetail, CompilerError,
    CompilerErrorDetail, CompilerErrorOrDiagnostic, CompilerSuggestion,
    CompilerSuggestionOperation, ErrorCategory, ErrorSeverity, Position, SourceLocation,
};

fn at(line: u32, column: u32) -> SourceLocation {
    let start = Position {
        line,
        column,
        index: None,
    };
    let end = Position {
        line,
        column: column + 1,
        index: None,
    };
    SourceLocation::new(start, end)
}

fn error_at(loc: Option<SourceLocation>) -> CompilerDiagnosticDetail {
    CompilerDiagnosticDetail::Error {
        loc,
        message: Some("here".to_string()),
        identifier_name: Some("x".to_string()),
    }
}

fn hint(message: &str) -> CompilerDiagnosticDetail {
    CompilerDiagnosticDetail::Hint {
        message: message.to_string(),
    }
}

fn suggestion() -> CompilerSuggestion {
    CompilerSuggestion {
        op: CompilerSuggestionOperation::Replace,
        range: (3, 9),
        description: "Use a ref".to_string(),
        text: Some("useRef()".to_string()),
    }
}

const CATEGORIES: [ErrorCategory; 26] = [
    ErrorCategory::Hooks,
    ErrorCategory::CapitalizedCalls,
    ErrorCategory::StaticComponents,
    ErrorCategory::UseMemo,
    ErrorCategory::VoidUseMemo,
    ErrorCategory::PreserveManualMemo,
    ErrorCategory::MemoDependencies,
    ErrorCategory::IncompatibleLibrary,
    ErrorCategory::Immutability,
    ErrorCategory::Globals,
    ErrorCategory::Refs,
    ErrorCategory::EffectDependencies,
    ErrorCategory::EffectExhaustiveDependencies,
    ErrorCategory::EffectSetState,
    ErrorCategory::EffectDerivationsOfState,
    ErrorCategory::ErrorBoundaries,
    ErrorCategory::Purity,
    ErrorCategory::RenderSetState,
    ErrorCategory::Invariant,
    ErrorCategory::Todo,
    ErrorCategory::Syntax,
    ErrorCategory::UnsupportedSyntax,
    ErrorCategory::Config,
    ErrorCategory::Gating,
    ErrorCategory::Suppression,
    ErrorCategory::FBT,
];

#[test]
fn severities_and_headings_of_every_category() {
    for category in CATEGORIES {
        let (severity, logged, heading) = match category {
            ErrorCategory::PreserveManualMemo => (
                ErrorSeverity::Warning,
                ErrorSeverity::Error,
                "Compilation Skipped",
            ),
            ErrorCategory::EffectDependencies
            | ErrorCategory::IncompatibleLibrary
            | ErrorCategory::UnsupportedSyntax => (
                ErrorSeverity::Warning,
                ErrorSeverity::Warning,
                "Compilation Skipped",
            ),
            ErrorCategory::Todo => (ErrorSeverity::Hint, ErrorSeverity::Hint, "Todo"),
            ErrorCategory::Invariant => (ErrorSeverity::Error, ErrorSeverity::Error, "Invariant"),
            _ => (ErrorSeverity::Error, ErrorSeverity::Error, "Error"),
        };
        assert_eq!(category.severity(), severity, "{category:?}");
        assert_eq!(category.logged_severity(), logged, "{category:?}");
        assert_eq!(format_category_heading(category), heading, "{category:?}");

        let detail = CompilerErrorDetail::new(category, "reason");
        assert_eq!(detail.severity(), severity);
        assert_eq!(detail.logged_severity(), logged);
        let diagnostic = CompilerDiagnostic::new(category, "reason", None);
        assert_eq!(diagnostic.severity(), severity);
        assert_eq!(diagnostic.logged_severity(), logged);

        let entries = [
            CompilerErrorOrDiagnostic::Diagnostic(diagnostic),
            CompilerErrorOrDiagnostic::ErrorDetail(detail),
        ];
        for entry in &entries {
            assert_eq!(entry.severity(), severity);
            assert_eq!(entry.logged_severity(), logged);
        }
    }
}

/// No category is off, so nothing that is pushed is dropped.
#[test]
fn every_category_can_be_pushed() {
    let mut error = CompilerError::new();
    for category in CATEGORIES {
        error.push_diagnostic(CompilerDiagnostic::new(category, "d", None));
        error.push_error_detail(CompilerErrorDetail::new(category, "e"));
    }
    assert_eq!(error.details.len(), 52);
    assert!(matches!(
        error.details[0],
        CompilerErrorOrDiagnostic::Diagnostic(_)
    ));
    assert!(matches!(
        error.details[51],
        CompilerErrorOrDiagnostic::ErrorDetail(_)
    ));
}

#[test]
fn builders_set_what_they_are_given() {
    let detail = CompilerErrorDetail::new(ErrorCategory::Hooks, "reason".to_string())
        .with_description("why")
        .with_loc(Some(at(5, 6)));
    assert_eq!(detail.category, ErrorCategory::Hooks);
    assert_eq!(detail.reason, "reason");
    assert_eq!(detail.description.as_deref(), Some("why"));
    assert_eq!(detail.loc, Some(at(5, 6)));
    assert!(detail.suggestions.is_none());
    assert_eq!(detail.with_loc(None).loc, None);

    let diagnostic = CompilerDiagnostic::new(ErrorCategory::Refs, "r", Some("d".to_string()))
        .with_detail(hint("first"))
        .with_detail(hint("second"));
    assert_eq!(diagnostic.reason, "r");
    assert_eq!(diagnostic.description.as_deref(), Some("d"));
    assert_eq!(diagnostic.details.len(), 2);
    match &diagnostic.details[1] {
        CompilerDiagnosticDetail::Hint { message } => assert_eq!(message, "second"),
        CompilerDiagnosticDetail::Error { .. } => panic!("expected a hint"),
    }
    assert!(diagnostic.suggestions.is_none());
}

#[test]
fn primary_location_is_the_first_one() {
    let none = CompilerDiagnostic::new(ErrorCategory::Refs, "r", None);
    assert_eq!(none.primary_location(), None);

    let unlocated = none
        .clone()
        .with_detail(hint("h"))
        .with_detail(error_at(None));
    assert_eq!(unlocated.primary_location(), None);

    let located = unlocated
        .with_detail(error_at(Some(at(2, 3))))
        .with_detail(error_at(Some(at(9, 9))));
    assert_eq!(located.primary_location(), Some(&at(2, 3)));
}

#[test]
fn todo_states_its_reason_at_its_location() {
    let todo = CompilerDiagnostic::todo("Handle spread", Some(at(7, 1)));
    assert_eq!(todo.category, ErrorCategory::Todo);
    assert_eq!(todo.reason, "Handle spread");
    assert_eq!(todo.description, None);
    assert!(todo.suggestions.is_none());
    assert_eq!(todo.details.len(), 1);
    match &todo.details[0] {
        CompilerDiagnosticDetail::Error {
            loc,
            message,
            identifier_name,
        } => {
            assert_eq!(*loc, Some(at(7, 1)));
            assert_eq!(message.as_deref(), Some("Handle spread"));
            assert_eq!(*identifier_name, None);
        }
        CompilerDiagnosticDetail::Hint { .. } => panic!("expected an error"),
    }
}

#[test]
fn from_detail_restates_the_detail() {
    let mut detail = CompilerErrorDetail::new(ErrorCategory::Globals, "reason")
        .with_description("why")
        .with_loc(Some(at(4, 2)));
    detail.suggestions = Some(vec![suggestion()]);
    let diagnostic = CompilerDiagnostic::from_detail(detail);
    assert_eq!(diagnostic.category, ErrorCategory::Globals);
    assert_eq!(diagnostic.reason, "reason");
    assert_eq!(diagnostic.description.as_deref(), Some("why"));
    assert_eq!(diagnostic.primary_location(), Some(&at(4, 2)));
    assert_eq!(diagnostic.details.len(), 1);
    assert!(diagnostic.suggestions.is_none());
}

#[test]
fn an_empty_error_is_thrown_and_has_nothing() {
    for error in [CompilerError::new(), CompilerError::default()] {
        assert!(error.is_thrown);
        assert!(!error.has_any_errors());
        assert!(!error.has_errors());
        assert!(!error.has_invariant_errors());
        assert!(error.is_all_non_invariant());
        assert_eq!(error.to_string_for_event(), "");
        assert_eq!(error.to_string(), "");
    }
}

#[test]
fn kinds_of_errors() {
    let mut error = CompilerError::new();
    error.push_error_detail(CompilerErrorDetail::new(ErrorCategory::Todo, "later"));
    error.push_diagnostic(CompilerDiagnostic::new(
        ErrorCategory::UnsupportedSyntax,
        "with",
        None,
    ));
    assert!(error.has_any_errors());
    assert!(!error.has_errors());
    assert!(!error.has_invariant_errors());
    assert!(error.is_all_non_invariant());

    error.push_error_detail(CompilerErrorDetail::new(ErrorCategory::Hooks, "hook"));
    assert!(error.has_errors());
    assert!(error.is_all_non_invariant());

    error.push_diagnostic(CompilerDiagnostic::new(
        ErrorCategory::Invariant,
        "broken",
        None,
    ));
    assert!(error.has_invariant_errors());
    assert!(!error.is_all_non_invariant());
}

fn sample() -> CompilerError {
    let mut error = CompilerError::new();
    error.push_error_detail(
        CompilerErrorDetail::new(ErrorCategory::Hooks, "Hooks must be called")
            .with_description("See the rules")
            .with_loc(Some(at(12, 40))),
    );
    error.push_diagnostic(
        CompilerDiagnostic::new(ErrorCategory::PreserveManualMemo, "Could not preserve", None)
            .with_detail(hint("h"))
            .with_detail(error_at(Some(at(4294967295, 0)))),
    );
    error.push_error_detail(CompilerErrorDetail::new(ErrorCategory::Invariant, "Oops"));
    error
}

#[test]
fn event_text_of_each_kind_of_entry() {
    assert_eq!(
        sample().to_string_for_event(),
        "Error: Hooks must be called. See the rules. (12:40)\n\n\
         Compilation Skipped: Could not preserve (4294967295:0)\n\n\
         Invariant: Oops"
    );
}

#[test]
fn display_text_has_a_line_for_each_entry() {
    assert_eq!(
        sample().to_string(),
        "Error: Hooks must be called. See the rules.\n\
         Compilation Skipped: Could not preserve\n\
         Invariant: Oops\n"
    );
}

#[test]
fn event_text_keeps_text_as_it_is() {
    let mut error = CompilerError::new();
    error.push_error_detail(CompilerErrorDetail::new(ErrorCategory::FBT, "é\n🙂 {}"));
    assert_eq!(error.to_string_for_event(), "Error: é\n🙂 {}");
}

#[test]
fn numbers_are_written_in_decimal() {
    for line in [0, 1, 9, 10, 11, 99, 100, 101, 1000, 65536, 4294967294] {
        let mut error = CompilerError::new();
        error.push_error_detail(
            CompilerErrorDetail::new(ErrorCategory::Todo, "t").with_loc(Some(at(line, 20))),
        );
        assert_eq!(error.to_string_for_event(), format!("Todo: t ({line}:20)"));
    }
}

#[test]
fn merging_appends_the_other_error() {
    let mut merged = sample();
    merged.is_thrown = false;
    let mut other = CompilerError::new();
    other.push_error_detail(CompilerErrorDetail::new(ErrorCategory::Todo, "later"));
    merged.merge(other.clone());
    assert!(!merged.is_thrown);
    assert_eq!(merged.details.len(), 4);
    assert_eq!(
        merged.to_string_for_event(),
        format!(
            "{}\n\n{}",
            sample().to_string_for_event(),
            other.to_string_for_event()
        )
    );
    assert_eq!(
        merged.to_string(),
        format!("{}{}", sample().to_string(), other.to_string())
    );
    assert!(merged.has_errors());
    assert!(merged.has_invariant_errors());

    let mut empty = CompilerError::new();
    empty.merge(sample());
    empty.merge(CompilerError::new());
    assert_eq!(empty.to_string_for_event(), sample().to_string_for_event());
}

#[test]
fn a_todo_becomes_a_flat_error() {
    let mut todo = CompilerDiagnostic::todo("Handle spread", Some(at(7, 1)));
    todo.description = Some("It is rare".to_string());
    todo.suggestions = Some(vec![suggestion()]);
    let error = CompilerError::from(todo);
    assert!(error.is_thrown);
    assert_eq!(error.details.len(), 1);
    match &error.details[0] {
        CompilerErrorOrDiagnostic::ErrorDetail(detail) => {
            assert_eq!(detail.category, ErrorCategory::Todo);
            assert_eq!(detail.reason, "Handle spread");
            assert_eq!(detail.description.as_deref(), Some("It is rare"));
            assert_eq!(detail.loc, Some(at(7, 1)));
            assert_eq!(detail.suggestions.as_ref().unwrap()[0].range, (3, 9));
        }
        CompilerErrorOrDiagnostic::Diagnostic(_) => panic!("expected an error detail"),
    }
    assert_eq!(
        error.to_string_for_event(),
        "Todo: Handle spread. It is rare. (7:1)"
    );
}

#[test]
fn other_diagnostics_stay_diagnostics() {
    let diagnostic = CompilerDiagnostic::new(ErrorCategory::Refs, "r", None)
        .with_detail(error_at(Some(at(1, 1))))
        .with_detail(hint("h"));
    let error = CompilerError::from(diagnostic);
    assert!(error.is_thrown);
    assert!(matches!(
        &error.details[0],
        CompilerErrorOrDiagnostic::Diagnostic(d) if d.details.len() == 2
    ));

    let back = CompilerDiagnostic::from(error);
    assert_eq!(back.category, ErrorCategory::Refs);
    assert_eq!(back.details.len(), 2);
}

#[test]
fn a_todo_round_trips() {
    let error: CompilerError = CompilerDiagnostic::todo("t", Some(at(7, 1))).into();
    let back: CompilerDiagnostic = error.into();
    assert_eq!(back.category, ErrorCategory::Todo);
    assert_eq!(back.reason, "t");
    assert_eq!(back.details.len(), 1);
    assert_eq!(back.primary_location(), Some(&at(7, 1)));
}

#[test]
fn the_first_entry_stands_for_an_error() {
    let diagnostic = CompilerDiagnostic::from(sample());
    assert_eq!(diagnostic.category, ErrorCategory::Hooks);
    assert_eq!(diagnostic.reason, "Hooks must be called");
    assert_eq!(diagnostic.description.as_deref(), Some("See the rules"));
    assert_eq!(diagnostic.primary_location(), Some(&at(12, 40)));
}

#[test]
fn an_empty_error_is_an_unknown_error() {
    let diagnostic = CompilerDiagnostic::from(CompilerError::new());
    assert_eq!(diagnostic.category, ErrorCategory::Invariant);
    assert_eq!(diagnostic.reason, "Unknown compiler error");
    assert_eq!(diagnostic.description, None);
    assert!(diagnostic.details.is_empty());
    assert!(diagnostic.suggestions.is_none());
}

#[test]
fn clones_have_the_same_content() {
    let mut error = sample();
    error.is_thrown = false;
    if let CompilerErrorOrDiagnostic::ErrorDetail(detail) = &mut error.details[0] {
        detail.suggestions = Some(vec![
            suggestion(),
            CompilerSuggestion {
                op: CompilerSuggestionOperation::Remove,
                range: (0, 1),
                description: "Drop it".to_string(),
                text: None,
            },
            CompilerSuggestion {
                op: CompilerSuggestionOperation::InsertBefore,
                ..suggestion()
            },
            CompilerSuggestion {
                op: CompilerSuggestionOperation::InsertAfter,
                ..suggestion()
            },
        ]);
    }
    assert_eq!(format!("{:?}", error.clone()), format!("{error:?}"));
}
