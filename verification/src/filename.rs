//! Interned source filenames.
//!
//! A source location is copied into every representation of a program, so it
//! cannot own its filename. The filenames that a process meets are bounded by
//! the number of modules it compiles: each is stored once, for good, and
//! referred to as `&'static str` from then on.

use rustc_hash::FxHashSet;
use vstd::prelude::*;

verus! {

/// The hasher of `FxHashSet`.
#[verifier::external_type_specification]
#[verifier::external_body]
pub struct ExFxBuildHasher(rustc_hash::FxBuildHasher);

/// The slices that a set of names holds, each under its text.
///
/// Such a set compares its elements by their text, so it holds at most one
/// slice of each text.
pub uninterp spec fn stored_names(names: FxHashSet<&'static str>) -> Map<Seq<char>, &'static str>;

/// `FxHashSet::default` gives a set that holds nothing.
#[verifier::external_body]
fn no_names() -> (res: FxHashSet<&'static str>)
    ensures
        stored_names(res).dom() == Set::<Seq<char>>::empty(),
{
    FxHashSet::default()
}

/// `FxHashSet::get` gives the stored slice that has the text of `name`, if the
/// set holds one.
#[verifier::external_body]
fn find_name(names: &FxHashSet<&'static str>, name: &str) -> (res: Option<&'static str>)
    ensures
        res == (if stored_names(*names).contains_key(name@) {
            Some(stored_names(*names)[name@])
        } else {
            None
        }),
        res matches Some(stored) ==> stored@ == name@,
{
    names.get(name).copied()
}

/// `FxHashSet::insert` adds the slice and returns `true`, unless the set holds
/// a slice of the same text: then the set stays as it is, with the slice that
/// it held, and the result is `false`.
#[verifier::external_body]
fn add_name(names: &mut FxHashSet<&'static str>, name: &'static str) -> (res: bool)
    ensures
        res == !stored_names(*old(names)).contains_key(name@),
        stored_names(*final(names)) == (if res {
            stored_names(*old(names)).insert(name@, name)
        } else {
            stored_names(*old(names))
        }),
{
    names.insert(name)
}

/// `String::leak` gives the text of the string for the rest of the process.
#[verifier::external_body]
fn leak_text(text: String) -> (res: &'static str)
    ensures
        res@ == text@,
{
    text.leak()
}

/// `==` on `str` compares the text.
pub assume_specification[ <str as PartialEq>::eq ](left: &str, right: &str) -> (res: bool)
    ensures
        res == (left@ == right@),
;

/// An interned source filename.
#[derive(Debug, Clone, Copy, Eq, Hash, PartialOrd, Ord)]
pub struct SourceFilename(&'static str);

/// The filenames interned so far.
#[derive(Debug)]
pub struct FilenameInterner {
    names: FxHashSet<&'static str>,
}

impl View for SourceFilename {
    type V = Seq<char>;

    /// The text of the filename.
    open spec fn view(&self) -> Seq<char> {
        self.slice()@
    }
}

impl View for FilenameInterner {
    type V = Map<Seq<char>, SourceFilename>;

    /// The interned filenames, each under its text.
    closed spec fn view(&self) -> Map<Seq<char>, SourceFilename> {
        stored_names(self.names).map_values(|name: &'static str| SourceFilename(name))
    }
}

/// Interning `name` turns `before` into `after` and gives `filename`: the
/// filename that `before` holds for this text, or a new one, which `after`
/// then holds beside all that `before` held.
pub open spec fn interns(
    before: Map<Seq<char>, SourceFilename>,
    name: Seq<char>,
    after: Map<Seq<char>, SourceFilename>,
    filename: SourceFilename,
) -> bool {
    &&& filename@ == name
    &&& if before.contains_key(name) {
        filename == before[name] && after == before
    } else {
        after == before.insert(name, filename)
    }
}

/// Every filename stands under its own text.
pub open spec fn keyed_by_text(filenames: Map<Seq<char>, SourceFilename>) -> bool {
    forall|name: Seq<char>| #[trigger]
        filenames.contains_key(name) ==> filenames[name]@ == name
}

impl FilenameInterner {
    /// An interner that holds no filename.
    pub fn new() -> (res: Self)
        ensures
            res@ == Map::<Seq<char>, SourceFilename>::empty(),
    {
        let res = FilenameInterner { names: no_names() };
        assert(res@ =~= Map::<Seq<char>, SourceFilename>::empty());
        res
    }
}

impl Default for FilenameInterner {
    fn default() -> (res: Self)
        ensures
            res@ == Map::<Seq<char>, SourceFilename>::empty(),
    {
        FilenameInterner::new()
    }
}

impl SourceFilename {
    /// The stored slice that this filename refers to.
    pub closed spec fn slice(&self) -> &'static str {
        self.0
    }

    /// The filename of the given text: the one that `interner` holds, or else a
    /// new one, which `interner` keeps.
    pub fn new(interner: &mut FilenameInterner, name: &str) -> (res: Self)
        ensures
            interns(old(interner)@, name@, final(interner)@, res),
    {
        if let Some(existing) = find_name(&interner.names, name) {
            return SourceFilename(existing);
        }
        let leaked: &'static str = leak_text(name.to_string());
        add_name(&mut interner.names, leaked);
        assert(interner@ =~= old(interner)@.insert(name@, SourceFilename(leaked)));
        SourceFilename(leaked)
    }

    /// The text of the filename.
    pub fn as_str(&self) -> (res: &'static str)
        ensures
            res == self.slice(),
            res@ == self@,
    {
        self.0
    }

    /// The filename as it is displayed: its text.
    pub fn to_string(&self) -> (res: String)
        ensures
            res@ == self@,
    {
        self.0.to_string()
    }
}

impl PartialEq for SourceFilename {
    fn eq(&self, other: &Self) -> (res: bool) {
        *self.0 == *other.0
    }
}

impl vstd::std_specs::cmp::PartialEqSpecImpl for SourceFilename {
    open spec fn obeys_eq_spec() -> bool {
        true
    }

    /// Filenames are equal when their texts are.
    open spec fn eq_spec(&self, other: &Self) -> bool {
        self@ == other@
    }
}

/// An interner starts with every filename under its own text, trivially, and
/// interning keeps it so.
pub proof fn lemma_interning_keeps_keys(
    before: Map<Seq<char>, SourceFilename>,
    name: Seq<char>,
    after: Map<Seq<char>, SourceFilename>,
    filename: SourceFilename,
)
    requires
        keyed_by_text(before),
        interns(before, name, after, filename),
    ensures
        keyed_by_text(Map::<Seq<char>, SourceFilename>::empty()),
        keyed_by_text(after),
{
}

/// Interning keeps every filename that was interned before.
pub proof fn lemma_interning_keeps_filenames(
    before: Map<Seq<char>, SourceFilename>,
    name: Seq<char>,
    after: Map<Seq<char>, SourceFilename>,
    filename: SourceFilename,
)
    requires
        interns(before, name, after, filename),
    ensures
        before.submap_of(after),
        after.contains_key(name),
        after[name] == filename,
{
}

/// Interning one name twice gives the very same filename, whatever was
/// interned in between, and the second time nothing is stored.
pub proof fn lemma_same_name_same_filename(
    before: Map<Seq<char>, SourceFilename>,
    name: Seq<char>,
    after: Map<Seq<char>, SourceFilename>,
    first: SourceFilename,
    later: Map<Seq<char>, SourceFilename>,
    end: Map<Seq<char>, SourceFilename>,
    second: SourceFilename,
)
    requires
        interns(before, name, after, first),
        after.submap_of(later),
        interns(later, name, end, second),
    ensures
        second == first,
        second.slice() == first.slice(),
        end == later,
{
    lemma_interning_keeps_filenames(before, name, after, first);
    assert(after.contains_key(name));
    assert(later.contains_key(name));
}

/// Filenames interned from distinct names stay distinct.
pub proof fn lemma_distinct_names_stay_distinct(
    before: Map<Seq<char>, SourceFilename>,
    name: Seq<char>,
    after: Map<Seq<char>, SourceFilename>,
    first: SourceFilename,
    later: Map<Seq<char>, SourceFilename>,
    other: Seq<char>,
    end: Map<Seq<char>, SourceFilename>,
    second: SourceFilename,
)
    requires
        interns(before, name, after, first),
        interns(later, other, end, second),
        name != other,
    ensures
        first != second,
        first@ != second@,
{
}

} // verus!
