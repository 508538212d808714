use vstd::prelude::*;
use vstd::string::*;

verus! {

/// Whether `n` occurs in `h` starting exactly at position `i`.
pub open spec fn occurs_at(h: Seq<char>, n: Seq<char>, i: int) -> bool {
    0 <= i && i + n.len() <= h.len() && h.subrange(i, i + n.len()) == n
}

/// The position of the first occurrence of `n` in `h` at or after `from`.
pub open spec fn find_at(h: Seq<char>, n: Seq<char>, from: int) -> Option<int>
    recommends
        0 <= from,
    decreases h.len() - from,
{
    if from < 0 || from > h.len() {
        None
    } else if from + n.len() <= h.len() && h.subrange(from, from + n.len()) == n {
        Some(from)
    } else if from == h.len() {
        None
    } else {
        find_at(h, n, from + 1)
    }
}

/// What `find_at` returns: the first occurrence at or after `from`, or none
/// anywhere at or after `from`.
pub proof fn lemma_find_at_first(h: Seq<char>, n: Seq<char>, from: int)
    requires
        0 <= from,
    ensures
        match find_at(h, n, from) {
            Some(i) => from <= i && occurs_at(h, n, i) && (forall|j: int|
                from <= j < i ==> !occurs_at(h, n, j)),
            None => forall|j: int| from <= j ==> !occurs_at(h, n, j),
        },
    decreases h.len() - from,
{
    if from > h.len() {
    } else if from + n.len() <= h.len() && h.subrange(from, from + n.len()) == n {
    } else if from == h.len() {
    } else {
        lemma_find_at_first(h, n, from + 1);
    }
}

/// An occurrence at `i` with none before it pins `find_at` down to `i`.
pub proof fn lemma_find_at_some(h: Seq<char>, n: Seq<char>, from: int, i: int)
    requires
        0 <= from <= i,
        occurs_at(h, n, i),
        forall|j: int| from <= j < i ==> !occurs_at(h, n, j),
    ensures
        find_at(h, n, from) == Some(i),
    decreases h.len() - from,
{
    if from == i {
        assert(find_at(h, n, from) == Some(i));
    } else {
        assert(!occurs_at(h, n, from));
        lemma_find_at_some(h, n, from + 1, i);
        assert(find_at(h, n, from) == find_at(h, n, from + 1));
    }
}

/// No occurrence at or after `from` means `find_at` finds nothing.
pub proof fn lemma_find_at_none(h: Seq<char>, n: Seq<char>, from: int)
    requires
        0 <= from,
        forall|j: int| from <= j ==> !occurs_at(h, n, j),
    ensures
        find_at(h, n, from) == None::<int>,
{
    lemma_find_at_first(h, n, from);
    match find_at(h, n, from) {
        Some(i) => {
            assert(occurs_at(h, n, i));
        },
        None => {},
    }
}

/// First occurrence of `needle` in `hay` at or after `from`, by character index.
pub fn find_from(hay: &str, needle: &str, from: usize) -> (r: Option<usize>)
    requires
        from <= hay@.len(),
    ensures
        match r {
            Some(i) => find_at(hay@, needle@, from as int) == Some(i as int),
            None => find_at(hay@, needle@, from as int) == None::<int>,
        },
{
    let h_len = hay.unicode_len();
    let n_len = needle.unicode_len();
    let mut i = from;
    while n_len <= h_len && i <= h_len - n_len
        invariant
            from <= i <= h_len,
            h_len == hay@.len(),
            n_len == needle@.len(),
            forall|j: int| from <= j < i ==> !occurs_at(hay@, needle@, j),
        decreases h_len - i,
    {
        let mut k: usize = 0;
        let mut matched = true;
        while k < n_len && matched
            invariant
                0 <= k <= n_len,
                i + n_len <= h_len,
                h_len == hay@.len(),
                n_len == needle@.len(),
                matched ==> (forall|q: int| 0 <= q < k ==> hay@[i + q] == needle@[q]),
                !matched ==> exists|q: int| 0 <= q < n_len && hay@[i + q] != needle@[q],
            decreases n_len - k,
        {
            if hay.get_char(i + k) != needle.get_char(k) {
                matched = false;
                k = n_len;
            } else {
                k = k + 1;
            }
        }
        if matched {
            proof {
                assert(hay@.subrange(i as int, i + n_len) =~= needle@);
                lemma_find_at_some(hay@, needle@, from as int, i as int);
            }
            return Some(i);
        }
        proof {
            let q = choose|q: int| 0 <= q < n_len && hay@[i + q] != needle@[q];
            assert(hay@.subrange(i as int, i + n_len)[q] == hay@[i + q]);
            assert(!occurs_at(hay@, needle@, i as int));
        }
        i = i + 1;
    }
    proof {
        assert forall|j: int| from <= j implies !occurs_at(hay@, needle@, j) by {
            if j < i {
            } else {
                assert(j + needle@.len() > hay@.len() || !occurs_at(hay@, needle@, j));
            }
        }
        lemma_find_at_none(hay@, needle@, from as int);
    }
    None
}

/// Character-wise equality of two string slices.
pub fn str_eq(a: &str, b: &str) -> (r: bool)
    ensures
        r == (a@ == b@),
{
    let a_len = a.unicode_len();
    let b_len = b.unicode_len();
    if a_len != b_len {
        return false;
    }
    let mut i: usize = 0;
    while i < a_len
        invariant
            0 <= i <= a_len,
            a_len == a@.len(),
            a_len == b@.len(),
            forall|j: int| 0 <= j < i ==> a@[j] == b@[j],
        decreases a_len - i,
    {
        if a.get_char(i) != b.get_char(i) {
            return false;
        }
        i = i + 1;
    }
    proof {
        assert(a@ =~= b@);
    }
    true
}

/// ASCII lowercasing of a single character; other characters pass unchanged.
pub open spec fn lower_char(c: char) -> char {
    if 'A' <= c && c <= 'Z' {
        ((c as u8) + 32) as char
    } else {
        c
    }
}

/// ASCII lowercasing of a character sequence.
pub open spec fn lower_seq(s: Seq<char>) -> Seq<char> {
    s.map_values(|c: char| lower_char(c))
}

pub fn to_lower_char(c: char) -> (r: char)
    ensures
        r == lower_char(c),
{
    if c >= 'A' && c <= 'Z' {
        ((c as u8) + 32) as char
    } else {
        c
    }
}

/// Whether `s`, lowercased ASCII-wise, reads exactly as `kw`.
pub fn eq_ignore_ascii_case(s: &str, kw: &str) -> (r: bool)
    ensures
        r == (lower_seq(s@) == kw@),
{
    let s_len = s.unicode_len();
    let kw_len = kw.unicode_len();
    if s_len != kw_len {
        assert(lower_seq(s@).len() == s@.len());
        return false;
    }
    let mut i: usize = 0;
    while i < s_len
        invariant
            0 <= i <= s_len,
            s_len == s@.len(),
            s_len == kw@.len(),
            forall|j: int| 0 <= j < i ==> lower_char(s@[j]) == kw@[j],
        decreases s_len - i,
    {
        if to_lower_char(s.get_char(i)) != kw.get_char(i) {
            assert(lower_seq(s@)[i as int] != kw@[i as int]);
            return false;
        }
        i = i + 1;
    }
    proof {
        assert(lower_seq(s@) =~= kw@);
    }
    true
}

} // verus!
