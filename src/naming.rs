use vstd::prelude::*;
use crate::text::{chars_of, string_of};

verus! {

pub open spec fn ends_with_spec(s: Seq<char>, suffix: Seq<char>) -> bool {
    s.len() >= suffix.len() && s.subrange(s.len() - suffix.len(), s.len() as int) == suffix
}

/// `s` with every trailing repetition of `suffix` removed.
pub open spec fn trim_suffix_spec(s: Seq<char>, suffix: Seq<char>) -> Seq<char>
    decreases s.len(),
{
    if suffix.len() > 0 && ends_with_spec(s, suffix) {
        trim_suffix_spec(s.subrange(0, s.len() - suffix.len()), suffix)
    } else {
        s
    }
}

/// The source extensions that are stripped, in the order they are tried.
pub open spec fn source_extensions() -> Seq<Seq<char>> {
    seq![
        seq!['.', 'p', 'p', 'm'],
        seq!['.', 'p', 'n', 'g'],
        seq!['.', 'j', 'p', 'g'],
        seq!['.', 'j', 'p', 'e', 'g'],
        seq!['.', 'w', 'e', 'b', 'p'],
        seq!['.', 'b', 'm', 'p'],
        seq!['.', 'a', 'v', 'i', 'f'],
    ]
}

/// `s` after trimming the first `k` source extensions in turn.
pub open spec fn trim_extensions_spec(s: Seq<char>, k: nat) -> Seq<char>
    decreases k,
{
    if k == 0 {
        s
    } else {
        trim_suffix_spec(trim_extensions_spec(s, (k - 1) as nat), source_extensions()[k - 1])
    }
}

pub open spec fn stem_spec(filename: Seq<char>) -> Seq<char> {
    trim_extensions_spec(filename, 7)
}

/// The name of a converted item: its stem, a dot, the target format's name.
pub open spec fn output_filename_spec(filename: Seq<char>, format: Seq<char>) -> Seq<char> {
    stem_spec(filename) + seq!['.'] + format
}

fn ends_with_at(s: &Vec<char>, end: usize, suffix: &Vec<char>) -> (r: bool)
    requires
        end <= s@.len(),
    ensures
        r == ends_with_spec(s@.subrange(0, end as int), suffix@),
{
    let ghost p = s@.subrange(0, end as int);
    if suffix.len() > end {
        return false;
    }
    let start = end - suffix.len();
    let mut i: usize = 0;
    while i < suffix.len()
        invariant
            start + suffix@.len() == end,
            end <= s@.len(),
            p == s@.subrange(0, end as int),
            i <= suffix@.len(),
            forall|j: int| 0 <= j < i ==> s@[start + j] == suffix@[j],
        decreases suffix@.len() - i,
    {
        if s[start + i] != suffix[i] {
            assert(p.subrange(start as int, end as int)[i as int] != suffix@[i as int]);
            return false;
        }
        i = i + 1;
    }
    assert(p.subrange(start as int, end as int) =~= suffix@);
    true
}

/// The length that remains of `s[..end]` once every trailing `suffix` is removed.
fn trim_suffix_len(s: &Vec<char>, end: usize, suffix: &Vec<char>) -> (r: usize)
    requires
        end <= s@.len(),
        suffix@.len() > 0,
    ensures
        r <= end,
        s@.subrange(0, r as int) == trim_suffix_spec(s@.subrange(0, end as int), suffix@),
{
    let mut e = end;
    while ends_with_at(s, e, suffix)
        invariant
            e <= end <= s@.len(),
            suffix@.len() > 0,
            trim_suffix_spec(s@.subrange(0, e as int), suffix@) == trim_suffix_spec(s@.subrange(0, end as int), suffix@),
        decreases e,
    {
        let ghost p = s@.subrange(0, e as int);
        e = e - suffix.len();
        assert(p.subrange(0, p.len() - suffix@.len()) =~= s@.subrange(0, e as int));
    }
    e
}

/// The output filename of an item named `filename` converted to `format`:
/// each known source extension is stripped from its end (repeats included,
/// in a fixed order) and the target format's extension appended.
pub fn output_filename(filename: &str, format: &str) -> (r: String)
    ensures
        r@ == output_filename_spec(filename@, format@),
{
    let s = chars_of(filename);
    let exts: Vec<Vec<char>> = vec![
        vec!['.', 'p', 'p', 'm'],
        vec!['.', 'p', 'n', 'g'],
        vec!['.', 'j', 'p', 'g'],
        vec!['.', 'j', 'p', 'e', 'g'],
        vec!['.', 'w', 'e', 'b', 'p'],
        vec!['.', 'b', 'm', 'p'],
        vec!['.', 'a', 'v', 'i', 'f'],
    ];
    assert(exts@.len() == 7);
    assert(forall|k: int| 0 <= k < 7 ==> #[trigger] exts@[k]@ == source_extensions()[k]);
    let mut end = s.len();
    let mut k: usize = 0;
    assert(s@.subrange(0, end as int) =~= s@);
    while k < exts.len()
        invariant
            k <= exts@.len() == 7,
            end <= s@.len(),
            s@ == filename@,
            forall|k: int| 0 <= k < 7 ==> #[trigger] exts@[k]@ == source_extensions()[k],
            s@.subrange(0, end as int) == trim_extensions_spec(filename@, k as nat),
        decreases 7 - k,
    {
        end = trim_suffix_len(&s, end, &exts[k]);
        k = k + 1;
    }
    let mut out: Vec<char> = Vec::new();
    let mut i: usize = 0;
    while i < end
        invariant
            i <= end <= s@.len(),
            out@ == s@.subrange(0, i as int),
        decreases end - i,
    {
        out.push(s[i]);
        i = i + 1;
        assert(out@ =~= s@.subrange(0, i as int));
    }
    out.push('.');
    let f = chars_of(format);
    let mut j: usize = 0;
    let ghost base = out@;
    while j < f.len()
        invariant
            j <= f@.len(),
            out@ == base + f@.subrange(0, j as int),
        decreases f@.len() - j,
    {
        out.push(f[j]);
        j = j + 1;
        assert(out@ =~= base + f@.subrange(0, j as int));
    }
    assert(f@.subrange(0, f@.len() as int) =~= f@);
    string_of(&out)
}

} // verus!
