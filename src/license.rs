use vstd::prelude::*;

verus! {

/// Whether `a` comes before `b`, or equals it, in the order of their
/// characters' code points, a prefix coming first.
pub open spec fn text_le(a: Seq<char>, b: Seq<char>) -> bool
    decreases a.len(),
{
    if a.len() == 0 {
        true
    } else if b.len() == 0 {
        false
    } else if a[0] != b[0] {
        (a[0] as u32) < (b[0] as u32)
    } else {
        text_le(a.drop_first(), b.drop_first())
    }
}

/// Whether `texts` are in ascending order.
pub open spec fn sorted_texts(texts: Seq<Seq<char>>) -> bool {
    forall|i: int| 0 <= i < texts.len() - 1 ==> text_le(#[trigger] texts[i], texts[i + 1])
}

/// The licenses offered for a new project, in the order they are written.
pub open spec fn license_names() -> Seq<Seq<char>> {
    seq![
        "MIT"@,
        "GPL-3.0"@,
        "AGPL-3.0"@,
        "Apache-2.0"@,
        "GPL-2.0"@,
        "BSD-3-Clause"@,
        "BSD-2-Clause"@,
        "MPL-2.0"@,
        "EPL-2.0"@,
        "Unlicense"@,
        "CC0-1.0"@,
        "Zlib"@,
        "Apache-2.0"@,
        "CC-BY-4.0"@,
    ]
}

/// Relies on `slice::sort` for `String`, which orders strings by their UTF-8
/// bytes, the same order as by code points: the same strings, ascending.
#[verifier::external_body]
fn sort_texts(v: &mut Vec<String>)
    ensures
        final(v).deep_view().to_multiset() == old(v).deep_view().to_multiset(),
        sorted_texts(final(v).deep_view()),
{
    v.sort();
}

/// The licenses offered for a new project, in ascending order.
pub fn get_licenses() -> (r: Vec<String>)
    ensures
        r.deep_view().to_multiset() == license_names().to_multiset(),
        sorted_texts(r.deep_view()),
{
    let mut licenses = vec![
        String::from_str("MIT"),
        String::from_str("GPL-3.0"),
        String::from_str("AGPL-3.0"),
        String::from_str("Apache-2.0"),
        String::from_str("GPL-2.0"),
        String::from_str("BSD-3-Clause"),
        String::from_str("BSD-2-Clause"),
        String::from_str("MPL-2.0"),
        String::from_str("EPL-2.0"),
        String::from_str("Unlicense"),
        String::from_str("CC0-1.0"),
        String::from_str("Zlib"),
        String::from_str("Apache-2.0"),
        String::from_str("CC-BY-4.0"),
    ];
    proof {
        assert(licenses.deep_view() =~= license_names());
    }
    sort_texts(&mut licenses);
    licenses
}

} // verus!
