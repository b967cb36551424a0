use crate::language::{languages, marker_of, registry, Language};
use crate::text::{contains_char, same_text};
use vstd::prelude::*;

verus! {

/// Whether `name` matches the glob `pattern`, as the `glob` crate decides.
pub uninterp spec fn glob_match(pattern: Seq<char>, name: Seq<char>) -> bool;

/// Relies on `glob::Pattern::new` and `glob::Pattern::matches` (default match
/// options): whether `name` matches `pattern`; a pattern that `glob` rejects
/// matches nothing.
#[verifier::external_body]
fn glob_matches(pattern: &str, name: &str) -> (r: bool)
    ensures
        r == glob_match(pattern@, name@),
{
    match glob::Pattern::new(pattern) {
        Ok(p) => p.matches(name),
        Err(_) => false,
    }
}

/// A marker holds a glob wildcard when it has one of `*`, `?` or `[`.
pub open spec fn has_wildcard(pattern: Seq<char>) -> bool {
    pattern.contains('*') || pattern.contains('?') || pattern.contains('[')
}

/// Whether the file name `name` satisfies the marker `pattern`: a glob match
/// for a marker with wildcards, the exact name otherwise.
pub open spec fn marker_matches(pattern: Seq<char>, name: Seq<char>) -> bool {
    if has_wildcard(pattern) {
        glob_match(pattern, name)
    } else {
        pattern == name
    }
}

/// One entry of the directory that detection scans.
#[derive(Clone, Debug)]
pub struct Entry {
    pub name: String,
    pub is_file: bool,
}

/// Whether some file among `entries` satisfies the marker `pattern`.
pub open spec fn marker_present(pattern: Seq<char>, entries: Seq<Entry>) -> bool {
    exists|i: int|
        0 <= i < entries.len() && (#[trigger] entries[i]).is_file && marker_matches(
            pattern,
            entries[i].name@,
        )
}

/// The ecosystems among `langs` whose marker is present in `entries`, in the
/// order of `langs`.
pub open spec fn detected_among(langs: Seq<Language>, entries: Seq<Entry>) -> Seq<Language>
    decreases langs.len(),
{
    if langs.len() == 0 {
        Seq::empty()
    } else {
        let rest = detected_among(langs.drop_last(), entries);
        if marker_present(marker_of(langs.last()), entries) {
            rest.push(langs.last())
        } else {
            rest
        }
    }
}

/// Whether the file name `name` satisfies the marker `pattern`.
pub fn matches_marker(pattern: &str, name: &str) -> (r: bool)
    ensures
        r == marker_matches(pattern@, name@),
{
    if contains_char(pattern, '*') || contains_char(pattern, '?') || contains_char(pattern, '[') {
        glob_matches(pattern, name)
    } else {
        same_text(pattern, name)
    }
}

/// Whether some file among `entries` satisfies the marker `file`.
pub fn marker_exists(file: &str, entries: &Vec<Entry>) -> (r: bool)
    ensures
        r == marker_present(file@, entries@),
{
    let mut i: usize = 0;
    while i < entries.len()
        invariant
            i <= entries@.len(),
            forall|k: int|
                0 <= k < i ==> !((#[trigger] entries@[k]).is_file && marker_matches(
                    file@,
                    entries@[k].name@,
                )),
        decreases entries@.len() - i,
    {
        if entries[i].is_file && matches_marker(file, entries[i].name.as_str()) {
            return true;
        }
        i = i + 1;
    }
    false
}

/// Appends `language` to `vec` when some file among `entries` satisfies its
/// marker `file`; a language is added once, however many files match.
pub fn add_if_exists(file: &str, language: Language, vec: &mut Vec<Language>, entries: &Vec<Entry>)
    ensures
        final(vec)@ == if marker_present(file@, entries@) {
            old(vec)@.push(language)
        } else {
            old(vec)@
        },
{
    if marker_exists(file, entries) {
        vec.push(language);
    }
}

/// The ecosystems of the registry whose marker is present among `entries`, in
/// registry order, each once.
pub fn detect(entries: &Vec<Entry>) -> (r: Vec<Language>)
    ensures
        r@ == detected_among(registry(), entries@),
        r@.no_duplicates(),
{
    proof {
        lemma_detect_distinct(entries@);
    }
    let table = languages();
    let mut all: Vec<Language> = Vec::new();
    let mut i: usize = 0;
    while i < table.len()
        invariant
            i <= table@.len(),
            table@.len() == registry().len(),
            forall|k: int|
                0 <= k < table@.len() ==> {
                    &&& (#[trigger] table@[k]).0 == registry()[k]
                    &&& table@[k].1@ == marker_of(table@[k].0)
                },
            all@ == detected_among(registry().subrange(0, i as int), entries@),
        decreases table@.len() - i,
    {
        let (language, file) = table[i];
        assert(registry().subrange(0, i + 1).drop_last() == registry().subrange(0, i as int));
        add_if_exists(file, language, &mut all, entries);
        i = i + 1;
    }
    assert(registry().subrange(0, i as int) == registry());
    all
}

/// With no file that satisfies any registry marker, nothing is detected.
pub proof fn lemma_nothing_detected(entries: Seq<Entry>)
    requires
        forall|k: int| 0 <= k < registry().len() ==> !marker_present(
            marker_of(#[trigger] registry()[k]),
            entries,
        ),
    ensures
        detected_among(registry(), entries).len() == 0,
{
    lemma_detected_subset(registry(), entries);
    let d = detected_among(registry(), entries);
    if d.len() > 0 {
        assert(registry().contains(d[0]));
        let k = choose|k: int| 0 <= k < registry().len() && registry()[k] == d[0];
        assert(!marker_present(marker_of(registry()[k]), entries));
    }
}

/// What is detected among `langs` is drawn from `langs`, and only languages
/// whose marker is present are drawn.
pub proof fn lemma_detected_subset(langs: Seq<Language>, entries: Seq<Entry>)
    ensures
        detected_among(langs, entries).len() <= langs.len(),
        forall|j: int|
            0 <= j < detected_among(langs, entries).len() ==> {
                &&& langs.contains(#[trigger] detected_among(langs, entries)[j])
                &&& marker_present(marker_of(detected_among(langs, entries)[j]), entries)
            },
    decreases langs.len(),
{
    if langs.len() > 0 {
        let prefix = langs.drop_last();
        lemma_detected_subset(prefix, entries);
        let d = detected_among(langs, entries);
        assert forall|j: int| 0 <= j < d.len() implies {
            &&& langs.contains(#[trigger] d[j])
            &&& marker_present(marker_of(d[j]), entries)
        } by {
            let rest = detected_among(prefix, entries);
            if j < rest.len() {
                assert(d[j] == rest[j]);
                let w = choose|w: int| 0 <= w < prefix.len() && prefix[w] == rest[j];
                assert(langs[w] == prefix[w]);
            } else {
                assert(d[j] == langs.last());
                assert(langs[langs.len() - 1] == langs.last());
            }
        }
    }
}

/// No ecosystem is listed twice in the registry.
pub proof fn lemma_registry_distinct()
    ensures
        registry().no_duplicates(),
{
    let r = registry();
    assert forall|i: int, j: int| 0 <= i < r.len() && 0 <= j < r.len() && i != j implies r[i]
        != r[j] by {
        assert(r[0] == Language::Rust);
        assert(r[1] == Language::Typescript);
        assert(r[2] == Language::Haskell);
        assert(r[3] == Language::D);
        assert(r[4] == Language::Javascript);
        assert(r[5] == Language::CSharp);
        assert(r[6] == Language::Maven);
        assert(r[7] == Language::Go);
        assert(r[8] == Language::Ruby);
        assert(r[9] == Language::Dart);
        assert(r[10] == Language::Gradle);
        assert(r[11] == Language::Kotlin);
        assert(r[12] == Language::Swift);
        assert(r[13] == Language::Php);
        assert(r[14] == Language::CMake);
        assert(r[15] == Language::Elixir);
        assert(r[16] == Language::Python);
    }
}

/// Detection among distinct languages lists each detected language once.
pub proof fn lemma_detected_distinct(langs: Seq<Language>, entries: Seq<Entry>)
    requires
        langs.no_duplicates(),
    ensures
        detected_among(langs, entries).no_duplicates(),
    decreases langs.len(),
{
    if langs.len() > 0 {
        let prefix = langs.drop_last();
        assert(prefix.no_duplicates()) by {
            assert forall|i: int, j: int|
                0 <= i < prefix.len() && 0 <= j < prefix.len() && i != j implies prefix[i]
                != prefix[j] by {
                assert(prefix[i] == langs[i] && prefix[j] == langs[j]);
            }
        }
        lemma_detected_distinct(prefix, entries);
        lemma_detected_subset(prefix, entries);
        let rest = detected_among(prefix, entries);
        let last = langs.last();
        assert(!rest.contains(last)) by {
            if rest.contains(last) {
                let j = choose|j: int| 0 <= j < rest.len() && rest[j] == last;
                assert(prefix.contains(rest[j]));
                let w = choose|w: int| 0 <= w < prefix.len() && prefix[w] == rest[j];
                assert(langs[w] == langs[langs.len() - 1]);
            }
        }
        let d = detected_among(langs, entries);
        if marker_present(marker_of(last), entries) {
            assert forall|i: int, j: int| 0 <= i < d.len() && 0 <= j < d.len() && i != j implies d[i]
                != d[j] by {
                if i < rest.len() && j < rest.len() {
                    assert(d[i] == rest[i] && d[j] == rest[j]);
                } else if i < rest.len() {
                    assert(d[i] == rest[i] && d[j] == last);
                } else {
                    assert(d[j] == rest[j] && d[i] == last);
                }
            }
        }
    }
}

/// What detection reports names each ecosystem at most once.
pub proof fn lemma_detect_distinct(entries: Seq<Entry>)
    ensures
        detected_among(registry(), entries).no_duplicates(),
{
    lemma_registry_distinct();
    lemma_detected_distinct(registry(), entries);
}

} // verus!
