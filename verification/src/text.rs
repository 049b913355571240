//! Verified string helpers for asset ids: equality and the extraction of
//! the extension an id's loader is resolved by.

use vstd::prelude::*;
use vstd::string::StrSliceExecFns;

verus! {

/// Whether two string slices hold the same characters.
pub fn str_eq(a: &str, b: &str) -> (r: bool)
    ensures
        r == (a@ == b@),
{
    let alen = a.unicode_len();
    let blen = b.unicode_len();
    if alen != blen {
        proof {
            assert(a@ != b@);
        }
        return false;
    }
    let mut i: usize = 0;
    while i < alen
        invariant
            alen == a@.len(),
            alen == b@.len(),
            0 <= i <= alen,
            forall|j: int| 0 <= j < i ==> a@[j] == b@[j],
        decreases alen - i,
    {
        if a.get_char(i) != b.get_char(i) {
            proof {
                assert(a@[i as int] != b@[i as int]);
            }
            return false;
        }
        i = i + 1;
    }
    proof {
        assert(a@ =~= b@);
    }
    true
}

/// The index of the last occurrence of `c` in `s`, or -1.
pub open spec fn spec_last_index_of(s: Seq<char>, c: char) -> int
    decreases s.len(),
{
    if s.len() == 0 {
        -1
    } else if s.last() == c {
        s.len() - 1
    } else {
        spec_last_index_of(s.drop_last(), c)
    }
}

proof fn lemma_last_index_of_at(s: Seq<char>, c: char, k: int)
    requires
        0 <= k < s.len(),
        s[k] == c,
        forall|j: int| k < j < s.len() ==> s[j] != c,
    ensures
        spec_last_index_of(s, c) == k,
    decreases s.len(),
{
    if k == s.len() - 1 {
    } else {
        assert(s.last() != c);
        assert(s.drop_last()[k] == c);
        lemma_last_index_of_at(s.drop_last(), c, k);
    }
}

proof fn lemma_last_index_of_absent(s: Seq<char>, c: char)
    requires
        forall|j: int| 0 <= j < s.len() ==> s[j] != c,
    ensures
        spec_last_index_of(s, c) == -1,
    decreases s.len(),
{
    if s.len() > 0 {
        lemma_last_index_of_absent(s.drop_last(), c);
    }
}

/// Finds the last occurrence of `c`, reporting its index or -1.
fn last_index_of(s: &str, c: char) -> (r: i64)
    requires
        s@.len() < 0x8000_0000,
    ensures
        r == spec_last_index_of(s@, c),
        -1 <= r < s@.len(),
{
    let len = s.unicode_len();
    let mut i: usize = len;
    while i > 0
        invariant
            len == s@.len(),
            len < 0x8000_0000,
            0 <= i <= len,
            forall|j: int| i <= j < len ==> s@[j] != c,
        decreases i,
    {
        i = i - 1;
        if s.get_char(i) == c {
            proof {
                lemma_last_index_of_at(s@, c, i as int);
            }
            return i as i64;
        }
    }
    proof {
        lemma_last_index_of_absent(s@, c);
    }
    -1
}

/// The extension of an asset id: what follows the last dot of the last
/// path component, provided that dot is not the component's first
/// character; otherwise empty. The empty extension also stands for ids
/// with no extension at all.
pub open spec fn spec_ext_of(s: Seq<char>) -> Seq<char> {
    let slash = spec_last_index_of(s, '/');
    let dot = spec_last_index_of(s, '.');
    if dot > slash + 1 {
        s.subrange(dot + 1, s.len() as int)
    } else {
        Seq::empty()
    }
}

/// Extracts the extension loaders are keyed by; see [`spec_ext_of`].
pub fn ext_of(id: &str) -> (e: String)
    requires
        id@.len() < 0x8000_0000,
    ensures
        e@ == spec_ext_of(id@),
{
    let slash = last_index_of(id, '/');
    let dot = last_index_of(id, '.');
    if dot > slash + 1 {
        let from = (dot + 1) as usize;
        let to = id.unicode_len();
        let part = id.substring_char(from, to);
        <String as vstd::string::StringExecFns>::from_str(part)
    } else {
        proof {
            assert(spec_ext_of(id@) =~= Seq::<char>::empty());
        }
        String::new()
    }
}

} // verus!
