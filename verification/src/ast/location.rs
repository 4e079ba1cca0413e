//! Source locations as the syntax tree holds them, and their conversion.

use vstd::prelude::*;

use crate::filename::{FilenameInterner, SourceFilename};
use crate::location::{Position as HirPosition, SourceLocation as HirSourceLocation, SourceOffset};

verus! {

/// A position in a source file.
#[derive(Debug)]
pub struct Position {
    pub line: u32,
    pub column: u32,
    /// The offset of this position in the source file, in the unit that the
    /// frontend reports.
    pub index: Option<SourceOffset>,
}

/// A stretch of source text, as a node of the syntax tree holds it.
#[derive(Debug)]
pub struct SourceLocation {
    pub start: Position,
    pub end: Position,
    pub filename: Option<String>,
    pub identifier_name: Option<String>,
}

impl Clone for Position {
    fn clone(&self) -> (res: Self)
        ensures
            res == *self,
    {
        Position { line: self.line, column: self.column, index: self.index }
    }
}

impl Clone for SourceLocation {
    fn clone(&self) -> (res: Self)
        ensures
            res == *self,
    {
        SourceLocation {
            start: self.start.clone(),
            end: self.end.clone(),
            filename: self.filename.clone(),
            identifier_name: self.identifier_name.clone(),
        }
    }
}

/// The text of an optional string.
pub open spec fn optional_text(text: Option<String>) -> Option<Seq<char>> {
    match text {
        Some(text) => Some(text@),
        None => None,
    }
}

impl Position {
    /// The same position in the intermediate representation.
    pub open spec fn spec_to_hir(self) -> HirPosition {
        HirPosition { line: self.line, column: self.column, index: self.index }
    }

    /// The syntax tree's form of a position.
    pub open spec fn spec_from_hir(position: HirPosition) -> Position {
        Position { line: position.line, column: position.column, index: position.index }
    }
}

impl SourceLocation {
    /// `hir` carries every field of this location but the identifier name. Its
    /// filename is interned, which turns `before` into `after`; without a
    /// filename, nothing is interned.
    pub open spec fn carried_over(
        self,
        before: Map<Seq<char>, SourceFilename>,
        after: Map<Seq<char>, SourceFilename>,
        hir: HirSourceLocation,
    ) -> bool {
        &&& hir.start == self.start.spec_to_hir()
        &&& hir.end == self.end.spec_to_hir()
        &&& match (self.filename, hir.filename) {
            (Some(name), Some(filename)) => crate::filename::interns(before, name@, after, filename),
            (None, None) => after == before,
            _ => false,
        }
    }

    /// This location carries every field of `hir`, and no identifier name.
    pub open spec fn materializes(self, hir: HirSourceLocation) -> bool {
        &&& self.start == Position::spec_from_hir(hir.start)
        &&& self.end == Position::spec_from_hir(hir.end)
        &&& optional_text(self.filename) == crate::location::filename_text(hir.filename)
        &&& self.identifier_name is None
    }

    /// This location in the intermediate representation, with line, column,
    /// offset and filename. Whatever were dropped here could not be recovered
    /// by `from_hir` on the way back.
    pub fn to_hir(&self, interner: &mut FilenameInterner) -> (res: HirSourceLocation)
        ensures
            self.carried_over(old(interner)@, final(interner)@, res),
    {
        let filename = match &self.filename {
            Some(name) => Some(SourceFilename::new(interner, name.as_str())),
            None => None,
        };
        HirSourceLocation {
            start: HirPosition {
                line: self.start.line,
                column: self.start.column,
                index: self.start.index,
            },
            end: HirPosition {
                line: self.end.line,
                column: self.end.column,
                index: self.end.index,
            },
            filename,
        }
    }

    /// A location for the syntax tree, from one of the intermediate
    /// representation. Source maps are made from such locations alone, so no
    /// provenance is dropped here.
    pub fn from_hir(loc: &HirSourceLocation) -> (res: Self)
        ensures
            res.materializes(*loc),
    {
        SourceLocation {
            start: Position {
                line: loc.start.line,
                column: loc.start.column,
                index: loc.start.index,
            },
            end: Position { line: loc.end.line, column: loc.end.column, index: loc.end.index },
            filename: match loc.filename {
                Some(filename) => Some(filename.as_str().to_string()),
                None => None,
            },
            identifier_name: None,
        }
    }
}

/// Converts an optional location of the syntax tree.
pub fn ast_loc_to_hir(loc: Option<&SourceLocation>, interner: &mut FilenameInterner) -> (res:
    Option<HirSourceLocation>)
    ensures
        match (loc, res) {
            (Some(loc), Some(hir)) => loc.carried_over(old(interner)@, final(interner)@, hir),
            (None, None) => final(interner)@ == old(interner)@,
            _ => false,
        },
{
    match loc {
        Some(loc) => Some(loc.to_hir(interner)),
        None => None,
    }
}

/// Converts an optional location of the intermediate representation.
///
/// Generated code has no location and gets none: it stays unmapped, so that
/// generated frames never blame user code.
pub fn hir_loc_to_ast(loc: Option<HirSourceLocation>) -> (res: Option<SourceLocation>)
    ensures
        match (loc, res) {
            (Some(hir), Some(loc)) => loc.materializes(hir),
            (None, None) => true,
            _ => false,
        },
{
    match loc {
        Some(loc) => Some(SourceLocation::from_hir(&loc)),
        None => None,
    }
}

/// A location of the syntax tree comes back from the intermediate
/// representation with every field but the identifier name.
pub proof fn lemma_ast_round_trip(
    original: SourceLocation,
    before: Map<Seq<char>, SourceFilename>,
    after: Map<Seq<char>, SourceFilename>,
    hir: HirSourceLocation,
    back: SourceLocation,
)
    requires
        original.carried_over(before, after, hir),
        back.materializes(hir),
    ensures
        back.start == original.start,
        back.end == original.end,
        optional_text(back.filename) == optional_text(original.filename),
        back.identifier_name is None,
{
}

/// A location of the intermediate representation comes back from the syntax
/// tree equal to what it was, and identical where its filename was interned
/// before.
pub proof fn lemma_hir_round_trip(
    original: HirSourceLocation,
    ast: SourceLocation,
    before: Map<Seq<char>, SourceFilename>,
    after: Map<Seq<char>, SourceFilename>,
    back: HirSourceLocation,
)
    requires
        ast.materializes(original),
        ast.carried_over(before, after, back),
    ensures
        back.same_as(original),
        (original.filename matches Some(filename) ==> before.contains_key(filename@)
            && before[filename@] == filename) ==> back == original && after == before,
{
}

/// Converting a location keeps every filename that was interned before.
pub proof fn lemma_conversion_keeps_filenames(
    loc: SourceLocation,
    before: Map<Seq<char>, SourceFilename>,
    after: Map<Seq<char>, SourceFilename>,
    hir: HirSourceLocation,
)
    requires
        loc.carried_over(before, after, hir),
    ensures
        before.submap_of(after),
{
}

} // verus!
