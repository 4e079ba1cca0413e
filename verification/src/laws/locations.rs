//! Locations and their conversion, field by field.

#![allow(unused_imports)]

use vstd::prelude::*;

use crate::ast::location::{
    ast_loc_to_hir, hir_loc_to_ast, Position as AstPosition, SourceLocation as AstSourceLocation,
};
use crate::filename::{FilenameInterner, SourceFilename};
use crate::location::{Position, SourceLocation, SourceOffset};

verus! {

/// An offset is known by its number: it gives back the number that it was made
/// from, and offsets made from distinct numbers are distinct.
pub proof fn law_offset(a: u32, b: u32, of_a: SourceOffset, of_b: SourceOffset, number: u32)
    requires
        call_ensures(SourceOffset::new, (a,), of_a),
        call_ensures(SourceOffset::new, (b,), of_b),
        call_ensures(SourceOffset::get, (&of_a,), number),
    ensures
        number == a,
        of_a == of_b <==> a == b,
{
}

/// Offsets are equal when their numbers are.
pub proof fn law_offset_equality(a: SourceOffset, b: SourceOffset, of_a: u32, of_b: u32)
    requires
        call_ensures(SourceOffset::get, (&a,), of_a),
        call_ensures(SourceOffset::get, (&b,), of_b),
    ensures
        a == b <==> of_a == of_b,
{
}

/// A new location has the positions that it is given, in that order, and no
/// filename.
pub proof fn law_new_location(start: Position, end: Position, loc: SourceLocation)
    requires
        call_ensures(SourceLocation::new, (start, end), loc),
    ensures
        loc.start == start,
        loc.end == end,
        loc.filename is None,
{
}

/// A location with a filename has the positions and the filename that it is
/// given.
pub proof fn law_location_with_filename(
    start: Position,
    end: Position,
    filename: Option<SourceFilename>,
    loc: SourceLocation,
)
    requires
        call_ensures(SourceLocation::with_filename, (start, end, filename), loc),
    ensures
        loc.start == start,
        loc.end == end,
        loc.filename == filename,
{
}

/// `==` on locations compares all of line, column and offset at either end, and
/// the text of the filename.
pub proof fn law_location_equality(a: SourceLocation, b: SourceLocation, equal: bool)
    requires
        call_ensures(<SourceLocation as PartialEq>::eq, (&a, &b), equal),
    ensures
        equal <==> {
            &&& a.start.line == b.start.line
            &&& a.start.column == b.start.column
            &&& a.start.index == b.start.index
            &&& a.end.line == b.end.line
            &&& a.end.column == b.end.column
            &&& a.end.index == b.end.index
            &&& match (a.filename, b.filename) {
                (Some(in_a), Some(in_b)) => in_a@ == in_b@,
                (None, None) => true,
                _ => false,
            }
        },
{
}

/// `to_hir` carries every line, column and offset over to the field of the same
/// name, and the filename by its text. It interns this filename and no other.
pub proof fn law_to_hir(
    loc: AstSourceLocation,
    interner: &mut FilenameInterner,
    hir: SourceLocation,
    other: Seq<char>,
)
    requires
        call_ensures(AstSourceLocation::to_hir, (&loc, interner), hir),
    ensures
        hir.start.line == loc.start.line,
        hir.start.column == loc.start.column,
        hir.start.index == loc.start.index,
        hir.end.line == loc.end.line,
        hir.end.column == loc.end.column,
        hir.end.index == loc.end.index,
        hir.filename is Some <==> loc.filename is Some,
        loc.filename matches Some(name) ==> {
            &&& hir.filename->0@ == name@
            &&& final(interner)@.contains_key(name@)
            &&& final(interner)@[name@] == hir.filename->0
        },
        old(interner)@.contains_key(other) ==> final(interner)@.contains_key(other)
            && final(interner)@[other] == old(interner)@[other],
        final(interner)@.contains_key(other) && !old(interner)@.contains_key(other) ==> (
        loc.filename matches Some(name) && other == name@),
{
}

/// `to_hir` gives the filename that interning its text gives.
pub proof fn law_to_hir_interns(
    loc: AstSourceLocation,
    interner: &mut FilenameInterner,
    hir: SourceLocation,
    later: &mut FilenameInterner,
    name: &str,
    filename: SourceFilename,
)
    requires
        call_ensures(AstSourceLocation::to_hir, (&loc, interner), hir),
        loc.filename matches Some(text) && text@ == name@,
        later@ == final(interner)@,
        call_ensures(SourceFilename::new, (later, name), filename),
    ensures
        hir.filename == Some(filename),
{
}

/// `from_hir` carries every line, column and offset over to the field of the
/// same name, and the filename by its text, and sets no identifier name.
pub proof fn law_from_hir(hir: SourceLocation, loc: AstSourceLocation)
    requires
        call_ensures(AstSourceLocation::from_hir, (&hir,), loc),
    ensures
        loc.start.line == hir.start.line,
        loc.start.column == hir.start.column,
        loc.start.index == hir.start.index,
        loc.end.line == hir.end.line,
        loc.end.column == hir.end.column,
        loc.end.index == hir.end.index,
        loc.filename is Some <==> hir.filename is Some,
        hir.filename matches Some(filename) ==> loc.filename->0@ == filename@,
        loc.identifier_name is None,
{
}

/// An optional location of the syntax tree is converted as `to_hir` converts
/// it, field by field; where there is none, there is none.
pub proof fn law_ast_loc_to_hir(
    loc: AstSourceLocation,
    interner: &mut FilenameInterner,
    converted: Option<SourceLocation>,
    untouched: &mut FilenameInterner,
    of_none: Option<SourceLocation>,
    other: Seq<char>,
)
    requires
        call_ensures(ast_loc_to_hir, (Some(&loc), interner), converted),
        call_ensures(ast_loc_to_hir, (None::<&AstSourceLocation>, untouched), of_none),
    ensures
        of_none is None,
        final(untouched)@ == old(untouched)@,
        converted is Some,
        converted->0.start.line == loc.start.line,
        converted->0.start.column == loc.start.column,
        converted->0.start.index == loc.start.index,
        converted->0.end.line == loc.end.line,
        converted->0.end.column == loc.end.column,
        converted->0.end.index == loc.end.index,
        converted->0.filename is Some <==> loc.filename is Some,
        loc.filename matches Some(name) ==> {
            &&& converted->0.filename->0@ == name@
            &&& final(interner)@.contains_key(name@)
            &&& final(interner)@[name@] == converted->0.filename->0
        },
        loc.filename is None ==> final(interner)@ == old(interner)@,
        old(interner)@.contains_key(other) ==> final(interner)@.contains_key(other)
            && final(interner)@[other] == old(interner)@[other],
        final(interner)@.contains_key(other) && !old(interner)@.contains_key(other) ==> (
        loc.filename matches Some(name) && other == name@),
{
}

/// An optional location of the intermediate representation is converted as
/// `from_hir` converts it, field by field; generated code stays unmapped.
pub proof fn law_hir_loc_to_ast(
    hir: SourceLocation,
    converted: Option<AstSourceLocation>,
    of_none: Option<AstSourceLocation>,
)
    requires
        call_ensures(hir_loc_to_ast, (Some(hir),), converted),
        call_ensures(hir_loc_to_ast, (crate::location::GENERATED_SOURCE,), of_none),
    ensures
        of_none is None,
        converted is Some,
        converted->0.start.line == hir.start.line,
        converted->0.start.column == hir.start.column,
        converted->0.start.index == hir.start.index,
        converted->0.end.line == hir.end.line,
        converted->0.end.column == hir.end.column,
        converted->0.end.index == hir.end.index,
        converted->0.filename is Some <==> hir.filename is Some,
        hir.filename matches Some(filename) ==> converted->0.filename->0@ == filename@,
        converted->0.identifier_name is None,
{
}

/// A location of the syntax tree that goes through the intermediate
/// representation comes back with every field but the identifier name, and goes
/// in again as an equal location.
pub proof fn law_round_trip(
    loc: AstSourceLocation,
    interner: &mut FilenameInterner,
    hir: SourceLocation,
    back: AstSourceLocation,
    later: &mut FilenameInterner,
    again: SourceLocation,
    equal: bool,
)
    requires
        call_ensures(AstSourceLocation::to_hir, (&loc, interner), hir),
        call_ensures(AstSourceLocation::from_hir, (&hir,), back),
        call_ensures(AstSourceLocation::to_hir, (&back, later), again),
        call_ensures(<SourceLocation as PartialEq>::eq, (&again, &hir), equal),
    ensures
        back.start == loc.start,
        back.end == loc.end,
        back.filename is Some <==> loc.filename is Some,
        loc.filename matches Some(name) ==> back.filename->0@ == name@,
        equal,
{
}

/// A clone of a location of the syntax tree is that location.
pub proof fn law_cloned_ast_location(
    position: AstPosition,
    position_clone: AstPosition,
    loc: AstSourceLocation,
    clone: AstSourceLocation,
)
    requires
        call_ensures(<AstPosition as Clone>::clone, (&position,), position_clone),
        call_ensures(<AstSourceLocation as Clone>::clone, (&loc,), clone),
    ensures
        position_clone == position,
        clone == loc,
{
}

} // verus!
