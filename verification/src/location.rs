//! Source locations as the compiler's intermediate representation holds them.

use vstd::prelude::*;

use crate::filename::SourceFilename;

verus! {

/// An offset in a source file, in the unit that the frontend reports: UTF-16
/// code units from a JavaScript parser, UTF-8 bytes from swc and oxc. Convert
/// it before indexing source text with it.
#[derive(Debug, Clone, Copy, PartialEq, Eq, Hash, Structural)]
pub struct SourceOffset(u32);

impl View for SourceOffset {
    type V = u32;

    closed spec fn view(&self) -> u32 {
        self.0
    }
}

impl SourceOffset {
    /// The one offset of the given number.
    pub closed spec fn spec_new(offset: u32) -> SourceOffset {
        SourceOffset(offset)
    }

    /// The offset of the given number.
    #[verifier::when_used_as_spec(spec_new)]
    pub fn new(offset: u32) -> (res: Self)
        ensures
            res == SourceOffset::spec_new(offset),
            res@ == offset,
    {
        SourceOffset(offset)
    }

    /// The offset as a number, in the frontend's unit.
    pub fn get(&self) -> (res: u32)
        ensures
            res == self@,
            *self == SourceOffset::spec_new(res),
    {
        self.0
    }
}

/// Offsets are equal when their numbers are, and each is the offset of its
/// number.
pub proof fn lemma_offset_equality(a: SourceOffset, b: SourceOffset)
    ensures
        a == b <==> a@ == b@,
        a == SourceOffset::spec_new(a@),
{
}

/// A position in a source file.
#[derive(Debug, Clone, Copy, PartialEq, Eq, Hash, Structural)]
pub struct Position {
    pub line: u32,
    pub column: u32,
    pub index: Option<SourceOffset>,
}

/// A stretch of source text, with the file it came from.
///
/// Locations carry the full provenance of the source construct they came from:
/// start and end line and column, offset, and the originating filename.
#[derive(Debug, Clone, Copy, Eq, Hash)]
pub struct SourceLocation {
    pub start: Position,
    pub end: Position,
    /// The source file this location came from, as the parser reports it.
    pub filename: Option<SourceFilename>,
}

/// The location of generated code: none.
pub const GENERATED_SOURCE: Option<SourceLocation> = None;

/// The text of an optional filename.
pub open spec fn filename_text(filename: Option<SourceFilename>) -> Option<Seq<char>> {
    match filename {
        Some(filename) => Some(filename@),
        None => None,
    }
}

impl SourceLocation {
    /// The two locations are the same stretch of the same file, or both of no
    /// file.
    pub open spec fn same_as(self, other: SourceLocation) -> bool {
        &&& self.start == other.start
        &&& self.end == other.end
        &&& filename_text(self.filename) == filename_text(other.filename)
    }

    /// A location without a filename. Prefer to carry the filename through from
    /// the original node whenever one is available.
    pub fn new(start: Position, end: Position) -> (res: Self)
        ensures
            res == (SourceLocation { start, end, filename: None }),
    {
        SourceLocation { start, end, filename: None }
    }

    /// A location from `start` to `end` in the given file.
    pub fn with_filename(start: Position, end: Position, filename: Option<SourceFilename>) -> (res:
        Self)
        ensures
            res == (SourceLocation { start, end, filename }),
    {
        SourceLocation { start, end, filename }
    }
}

impl PartialEq for SourceLocation {
    fn eq(&self, other: &Self) -> (res: bool) {
        let same_file = match (self.filename, other.filename) {
            (Some(filename), Some(other_filename)) => filename == other_filename,
            (None, None) => true,
            _ => false,
        };
        self.start == other.start && self.end == other.end && same_file
    }
}

impl vstd::std_specs::cmp::PartialEqSpecImpl for SourceLocation {
    open spec fn obeys_eq_spec() -> bool {
        true
    }

    open spec fn eq_spec(&self, other: &Self) -> bool {
        self.same_as(*other)
    }
}

/// Equality of locations is an equivalence.
pub proof fn lemma_location_equality_is_an_equivalence(
    a: SourceLocation,
    b: SourceLocation,
    c: SourceLocation,
)
    ensures
        a.same_as(a),
        a.same_as(b) ==> b.same_as(a),
        a.same_as(b) && b.same_as(c) ==> a.same_as(c),
{
}

/// The filename takes part in equality: at one position, locations in different
/// files are distinct, and so are one in a file and one in no file, while two in
/// the same file are equal.
pub proof fn lemma_filename_takes_part_in_equality(
    start: Position,
    end: Position,
    filename: Option<SourceFilename>,
    other: Option<SourceFilename>,
)
    ensures
        (SourceLocation { start, end, filename }).same_as(
            SourceLocation { start, end, filename: other },
        ) <==> filename_text(filename) == filename_text(other),
{
}

} // verus!
