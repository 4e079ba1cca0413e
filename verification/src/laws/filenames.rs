//! Interning, call by call.

#![allow(unused_imports)]

use vstd::prelude::*;

use crate::filename::{FilenameInterner, SourceFilename};

verus! {

/// An interner starts without filenames, however it is made.
pub proof fn law_interner_starts_empty(
    made: FilenameInterner,
    default: FilenameInterner,
    name: Seq<char>,
)
    requires
        call_ensures(FilenameInterner::new, (), made),
        call_ensures(<FilenameInterner as Default>::default, (), default),
    ensures
        !made@.contains_key(name),
        !default@.contains_key(name),
{
}

/// An interned filename reads as the name that it was made from, in whichever
/// way it is read.
pub proof fn law_filename_reads_as_its_name(
    interner: &mut FilenameInterner,
    name: &str,
    filename: SourceFilename,
    text: &'static str,
    shown: String,
)
    requires
        call_ensures(SourceFilename::new, (interner, name), filename),
        call_ensures(SourceFilename::as_str, (&filename,), text),
        call_ensures(SourceFilename::to_string, (&filename,), shown),
    ensures
        text@ == name@,
        shown@ == name@,
        filename@ == name@,
{
}

/// A filename reads as its text, in whichever way it is read.
pub proof fn law_filename_text(filename: SourceFilename, text: &'static str, shown: String)
    requires
        call_ensures(SourceFilename::as_str, (&filename,), text),
        call_ensures(SourceFilename::to_string, (&filename,), shown),
    ensures
        text@ == filename@,
        shown@ == filename@,
{
}

/// Interning a name that is interned gives the stored filename and changes
/// nothing. Interning another name stores it, and keeps all that was stored.
pub proof fn law_interning(
    interner: &mut FilenameInterner,
    name: &str,
    filename: SourceFilename,
    other: Seq<char>,
)
    requires
        call_ensures(SourceFilename::new, (interner, name), filename),
    ensures
        final(interner)@.contains_key(name@),
        final(interner)@[name@] == filename,
        old(interner)@.contains_key(name@) ==> filename == old(interner)@[name@],
        other != name@ ==> (final(interner)@.contains_key(other) <==> old(interner)@.contains_key(other)),
        old(interner)@.contains_key(other) ==> final(interner)@[other] == old(interner)@[other],
{
}

/// Two calls on one name give the same filename and the same slice, also with a
/// call on another name between them.
pub proof fn law_interning_twice(
    first: &mut FilenameInterner,
    between: &mut FilenameInterner,
    second: &mut FilenameInterner,
    name: &str,
    again: &str,
    other: &str,
    a: SourceFilename,
    b: SourceFilename,
    c: SourceFilename,
    a_text: &'static str,
    c_text: &'static str,
)
    requires
        name@ == again@,
        call_ensures(SourceFilename::new, (first, name), a),
        between@ == final(first)@,
        call_ensures(SourceFilename::new, (between, other), b),
        second@ == final(between)@,
        call_ensures(SourceFilename::new, (second, again), c),
        call_ensures(SourceFilename::as_str, (&a,), a_text),
        call_ensures(SourceFilename::as_str, (&c,), c_text),
    ensures
        c == a,
        c_text == a_text,
        other@ != name@ ==> b != a,
{
}

/// `==` on filenames is equality of the text that they read as.
pub proof fn law_filename_equality(
    a: SourceFilename,
    b: SourceFilename,
    a_text: &'static str,
    b_text: &'static str,
    equal: bool,
)
    requires
        call_ensures(SourceFilename::as_str, (&a,), a_text),
        call_ensures(SourceFilename::as_str, (&b,), b_text),
        call_ensures(<SourceFilename as PartialEq>::eq, (&a, &b), equal),
    ensures
        equal <==> a_text@ == b_text@,
{
}

} // verus!
