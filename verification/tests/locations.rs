use react_compiler::ast::location::{
    ast_loc_to_hir, hir_loc_to_ast, Position as AstPosition, SourceLocation as AstSourceLocation,
};
use react_compiler::{
    FilenameInterner, Position, SourceFilename, SourceLocation, SourceOffset, GENERATED_SOURCE,
};
use rustc_hash::FxHashSet;

fn ast_loc() -> AstSourceLocation {
    AstSourceLocation {
        start: AstPosition {
            line: 12,
            column: 4,
            index: Some(SourceOffset::new(211)),
        },
        end: AstPosition {
            line: 12,
            column: 27,
            index: Some(SourceOffset::new(234)),
        },
        filename: Some("src/Component.jsx".to_string()),
        identifier_name: None,
    }
}

fn position(line: u32, column: u32) -> Position {
    Position {
        line,
        column,
        index: None,
    }
}

/// Whatever `to_hir` drops cannot be recovered on the way back out.
#[test]
fn to_hir_preserves_every_field() {
    let mut interner = FilenameInterner::new();
    let hir = ast_loc().to_hir(&mut interner);

    assert_eq!(hir.start.line, 12);
    assert_eq!(hir.start.column, 4);
    assert_eq!(hir.start.index, Some(SourceOffset::new(211)));
    assert_eq!(hir.end.line, 12);
    assert_eq!(hir.end.column, 27);
    assert_eq!(hir.end.index, Some(SourceOffset::new(234)));
    assert_eq!(
        hir.filename.map(|f| f.as_str().to_string()),
        Some("src/Component.jsx".to_string())
    );
}

#[test]
fn ast_to_hir_to_ast_round_trips() {
    let mut interner = FilenameInterner::new();
    let original = ast_loc();
    let result = AstSourceLocation::from_hir(&original.to_hir(&mut interner));

    assert_eq!(result.start.line, original.start.line);
    assert_eq!(result.start.column, original.start.column);
    assert_eq!(result.start.index, original.start.index);
    assert_eq!(result.end.line, original.end.line);
    assert_eq!(result.end.column, original.end.column);
    assert_eq!(result.end.index, original.end.index);
    assert_eq!(result.filename, original.filename);
}

#[test]
fn locations_without_index_or_filename_round_trip_as_none() {
    let mut interner = FilenameInterner::new();
    let sparse = AstSourceLocation {
        start: AstPosition {
            line: 1,
            column: 0,
            index: None,
        },
        end: AstPosition {
            line: 1,
            column: 5,
            index: None,
        },
        filename: None,
        identifier_name: None,
    };

    let result = AstSourceLocation::from_hir(&sparse.to_hir(&mut interner));

    assert_eq!(result.start.index, None);
    assert_eq!(result.end.index, None);
    assert_eq!(result.filename, None);
}

/// Generated code stays unmapped, so that generated frames never blame user
/// code.
#[test]
fn generated_source_stays_unmapped_in_both_directions() {
    let mut interner = FilenameInterner::new();
    assert!(ast_loc_to_hir(None, &mut interner).is_none());
    assert!(hir_loc_to_ast(None).is_none());
    assert!(hir_loc_to_ast(GENERATED_SOURCE).is_none());
}

#[test]
fn optional_locations_are_converted() {
    let mut interner = FilenameInterner::new();
    let original = ast_loc();
    let hir = ast_loc_to_hir(Some(&original), &mut interner).unwrap();
    assert_eq!(hir.start.line, 12);
    assert_eq!(hir.end.column, 27);
    assert_eq!(hir.filename.unwrap().as_str(), "src/Component.jsx");

    let back = hir_loc_to_ast(Some(hir)).unwrap();
    assert_eq!(back.start.index.unwrap().get(), 211);
    assert_eq!(back.filename.as_deref(), Some("src/Component.jsx"));
}

/// The identifier name belongs to the syntax tree and does not come back.
#[test]
fn identifier_names_do_not_come_back() {
    let mut interner = FilenameInterner::new();
    let mut original = ast_loc();
    original.identifier_name = Some("useState".to_string());
    let copy = original.clone();
    assert_eq!(copy.identifier_name.as_deref(), Some("useState"));
    assert_eq!(copy.end.index, Some(SourceOffset::new(234)));

    let back = AstSourceLocation::from_hir(&original.to_hir(&mut interner));
    assert_eq!(back.identifier_name, None);
}

#[test]
fn hir_to_ast_to_hir_round_trips() {
    let mut interner = FilenameInterner::new();
    let filename = SourceFilename::new(&mut interner, "src/App.jsx");
    let original =
        SourceLocation::with_filename(position(3, 7), position(4, 0), Some(filename));
    let back = AstSourceLocation::from_hir(&original).to_hir(&mut interner);

    assert_eq!(back, original);
    assert!(std::ptr::eq(
        back.filename.unwrap().as_str(),
        filename.as_str()
    ));

    // Another interner stores a slice of its own; the locations are still equal.
    let mut other = FilenameInterner::default();
    let elsewhere = AstSourceLocation::from_hir(&original).to_hir(&mut other);
    assert_eq!(elsewhere, original);
    assert!(!std::ptr::eq(
        elsewhere.filename.unwrap().as_str(),
        filename.as_str()
    ));
}

#[test]
fn interning_returns_the_same_pointer_for_equal_names() {
    let mut interner = FilenameInterner::new();
    let a = SourceFilename::new(&mut interner, "src/Interned.jsx");
    let b = SourceFilename::new(&mut interner, "src/Interned.jsx");

    assert_eq!(a, b);
    assert!(std::ptr::eq(a.as_str(), b.as_str()));
}

#[test]
fn distinct_names_stay_distinct() {
    let mut interner = FilenameInterner::new();
    let a = SourceFilename::new(&mut interner, "src/One.jsx");
    let b = SourceFilename::new(&mut interner, "src/Two.jsx");

    assert_ne!(a, b);
    assert_eq!(a.as_str(), "src/One.jsx");
    assert_eq!(b.as_str(), "src/Two.jsx");
}

#[test]
fn interning_is_stable_under_further_names() {
    let mut interner = FilenameInterner::new();
    let first = SourceFilename::new(&mut interner, "src/Kept.jsx");
    for i in 0..100 {
        let name = format!("src/{i}.jsx");
        let filename = SourceFilename::new(&mut interner, &name);
        assert_eq!(filename.as_str(), name);
        assert_eq!(filename.to_string(), name);
    }
    let again = SourceFilename::new(&mut interner, "src/Kept.jsx");
    assert!(std::ptr::eq(first.as_str(), again.as_str()));
    assert_eq!(SourceFilename::new(&mut interner, "").as_str(), "");
}

#[test]
fn filenames_are_ordered_by_text() {
    let mut interner = FilenameInterner::new();
    let b = SourceFilename::new(&mut interner, "b.jsx");
    let a = SourceFilename::new(&mut interner, "a.jsx");
    assert!(a < b);
}

/// Two locations at the same line and column in different files are distinct
/// keys, which is what makes deduplication by location correct across files.
#[test]
fn filename_participates_in_equality_and_hashing() {
    let mut interner = FilenameInterner::new();
    let same_position = || (position(3, 7), position(3, 19));

    let (start, end) = same_position();
    let in_a = SourceLocation::with_filename(
        start,
        end,
        Some(SourceFilename::new(&mut interner, "a.jsx")),
    );
    let (start, end) = same_position();
    let in_b = SourceLocation::with_filename(
        start,
        end,
        Some(SourceFilename::new(&mut interner, "b.jsx")),
    );
    let (start, end) = same_position();
    let unattributed = SourceLocation::new(start, end);

    assert_ne!(in_a, in_b);
    assert_ne!(in_a, unattributed);

    let mut set = FxHashSet::default();
    set.insert(in_a);
    set.insert(in_b);
    set.insert(unattributed);
    assert_eq!(set.len(), 3);

    let (start, end) = same_position();
    let in_a_again = SourceLocation::with_filename(
        start,
        end,
        Some(SourceFilename::new(&mut interner, "a.jsx")),
    );
    assert_eq!(in_a, in_a_again);
    assert!(!set.insert(in_a_again));
}

#[test]
fn positions_participate_in_equality() {
    let base = SourceLocation::new(position(1, 2), position(3, 4));
    assert_eq!(base, SourceLocation::new(position(1, 2), position(3, 4)));
    assert_ne!(base, SourceLocation::new(position(1, 3), position(3, 4)));
    assert_ne!(base, SourceLocation::new(position(1, 2), position(5, 4)));
    let mut indexed = base;
    indexed.start.index = Some(SourceOffset::new(9));
    assert_ne!(base, indexed);
}

/// Offsets are equal when their numbers are.
#[test]
fn offsets_are_equal_by_number() {
    assert_eq!(SourceOffset::new(211), SourceOffset::new(211));
    assert_ne!(SourceOffset::new(211), SourceOffset::new(212));
    assert_eq!(SourceOffset::new(u32::MAX).get(), u32::MAX);
    let offset = SourceOffset::new(7);
    assert_eq!(SourceOffset::new(offset.get()), offset);
}
