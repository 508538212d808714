use vstd::prelude::*;
use vstd::string::*;

use crate::strutil::{find_at, find_from, lemma_find_at_first, lemma_find_at_none, lemma_find_at_some, occurs_at};

verus! {

/// The heading that marks the start of the tool-usage section in a document.
pub const SECTION_HEADING: &'static str = "## CLI Tool Usage";

/// The marker that opens the next top-level section after the spliced one.
pub const SECTION_BOUNDARY: &'static str = "\n## ";

/// No '#' character anywhere, so the text can introduce no heading.
pub open spec fn hash_free(s: Seq<char>) -> bool {
    forall|j: int| 0 <= j < s.len() ==> s[j] != '#'
}

/// No two adjacent '#' characters at or after position `k`.
pub open spec fn no_double_hash_from(s: Seq<char>, k: int) -> bool {
    forall|j: int| k <= j && j + 1 < s.len() ==> !(#[trigger] s[j] == '#' && s[j + 1] == '#')
}

/// A well-formed tool-usage section: it opens with the section heading and
/// repeats neither the heading nor a top-level boundary anywhere after it.
pub open spec fn section_wf(s: Seq<char>) -> bool {
    &&& s.len() >= SECTION_HEADING@.len()
    &&& s.subrange(0, SECTION_HEADING@.len() as int) == SECTION_HEADING@
    &&& no_double_hash_from(s, 1)
}

/// Concatenation preserves freedom from adjacent '#' pairs, provided neither
/// part ends in '#'.
pub proof fn lemma_no_double_hash_concat(a: Seq<char>, b: Seq<char>, k: int)
    requires
        0 <= k,
        no_double_hash_from(a, k),
        a.len() > 0 ==> a[a.len() - 1] != '#',
        no_double_hash_from(b, 0),
        b.len() > 0 ==> b[b.len() - 1] != '#',
    ensures
        no_double_hash_from(a + b, k),
        (a + b).len() > 0 ==> (a + b)[(a + b).len() - 1] != '#',
{
    let c = a + b;
    assert forall|j: int| k <= j && j + 1 < c.len() implies !(#[trigger] c[j] == '#' && c[j + 1]
        == '#') by {
        if j + 1 < a.len() {
            assert(c[j] == a[j] && c[j + 1] == a[j + 1]);
        } else if j + 1 == a.len() {
            assert(c[j] == a[j]);
        } else if j >= a.len() {
            assert(c[j] == b[j - a.len()] && c[j + 1] == b[j + 1 - a.len()]);
        } else {
            assert(c[j] == a[j] && c[j + 1] == b[0]);
            assert(j == a.len() - 1);
        }
    }
    if c.len() > 0 {
        if b.len() > 0 {
            assert(c[c.len() - 1] == b[b.len() - 1]);
        } else {
            assert(c[c.len() - 1] == a[a.len() - 1]);
        }
    }
}

/// The spliced document: the region from the first heading occurrence up to the
/// next top-level boundary (or the end) is replaced by `section`; when the
/// heading is absent the section is appended after a separating newline.
pub open spec fn spec_splice(base: Seq<char>, section: Seq<char>) -> Seq<char> {
    match find_at(base, SECTION_HEADING@, 0) {
        Some(i) => match find_at(base, SECTION_BOUNDARY@, i + 1) {
            Some(k) => base.subrange(0, i) + section + base.subrange(k, base.len() as int),
            None => base.subrange(0, i) + section,
        },
        None => base + "\n"@ + section,
    }
}

/// Replaces the tool-usage region of `base` with `section`: from the first
/// occurrence of the section heading up to the next top-level heading (or the
/// end of the document); when no heading is present, appends the section.
pub fn splice_section(base: &str, section: &str) -> (r: String)
    ensures
        r@ == spec_splice(base@, section@),
{
    proof {
        lemma_heading_facts();
    }
    let b_len = base.unicode_len();
    match find_from(base, SECTION_HEADING, 0) {
        Some(i) => {
            proof {
                lemma_find_at_first(base@, SECTION_HEADING@, 0);
            }
            let mut r = base.substring_char(0, i).to_owned();
            r.append(section);
            match find_from(base, SECTION_BOUNDARY, i + 1) {
                Some(k) => {
                    proof {
                        lemma_find_at_first(base@, SECTION_BOUNDARY@, i + 1);
                    }
                    r.append(base.substring_char(k, b_len));
                },
                None => {},
            }
            assert(r@ =~= spec_splice(base@, section@));
            r
        },
        None => {
            let mut r = base.to_owned();
            r.append("\n");
            r.append(section);
            assert(r@ =~= spec_splice(base@, section@));
            r
        },
    }
}

proof fn lemma_heading_facts()
    ensures
        SECTION_HEADING@.len() == 17,
        SECTION_HEADING@[0] == '#',
        SECTION_HEADING@[1] == '#',
        forall|q: int| 2 <= q < 17 ==> SECTION_HEADING@[q] != '#',
        forall|q: int| 0 <= q < 17 ==> SECTION_HEADING@[q] != '\n',
        SECTION_BOUNDARY@.len() == 4,
        SECTION_BOUNDARY@[0] == '\n',
        SECTION_BOUNDARY@[1] == '#',
        SECTION_BOUNDARY@[2] == '#',
        SECTION_BOUNDARY@[3] == ' ',
{
    reveal_strlit("## CLI Tool Usage");
    reveal_strlit("\n## ");
}

/// In `banner + pre + section + tail`, the first heading occurrence is exactly
/// where `section` begins, provided the banner holds no '#', no full heading
/// occurrence lies inside `pre`, and `section` is well formed.
proof fn lemma_first_heading(banner: Seq<char>, pre: Seq<char>, section: Seq<char>, tail: Seq<char>)
    requires
        hash_free(banner),
        forall|p: int| !occurs_at(pre, SECTION_HEADING@, p),
        section_wf(section),
    ensures
        find_at(banner + pre + section + tail, SECTION_HEADING@, 0) == Some(
            banner.len() + pre.len() as int,
        ),
{
    lemma_heading_facts();
    let n = SECTION_HEADING@;
    let out = banner + pre + section + tail;
    let ii = banner.len() + pre.len() as int;
    assert(section.subrange(0, 17) == n);
    assert forall|q: int| 0 <= q < 17 implies out[ii + q] == n[q] by {
        assert(section.subrange(0, 17)[q] == section[q]);
    }
    assert(occurs_at(out, n, ii)) by {
        assert(out.subrange(ii, ii + 17) =~= n);
    }
    assert forall|j: int| 0 <= j < ii implies !occurs_at(out, n, j) by {
        if occurs_at(out, n, j) {
            assert forall|q: int| 0 <= q < 17 implies out[j + q] == n[q] by {
                assert(out.subrange(j, j + 17)[q] == out[j + q]);
            }
            if j < banner.len() {
                assert(out[j + 0] == n[0]);
                assert(out[j] == banner[j]);
            } else {
                let p = j - banner.len();
                if j + 17 <= ii {
                    assert(occurs_at(pre, n, p)) by {
                        assert forall|q: int| 0 <= q < 17 implies pre.subrange(p, p + 17)[q] == n[q] by {
                            assert(out[j + q] == pre[p + q]);
                        }
                        assert(pre.subrange(p, p + 17) =~= n);
                    }
                } else {
                    let qs = ii - j;
                    assert(1 <= qs < 17);
                    assert(out[j + qs] == section[0]);
                    assert(section[0] == n[0]);
                    assert(n[qs] == '#');
                    assert(qs == 1);
                    assert(out[j + 2] == section[1]);
                    assert(section[1] == n[1]);
                    assert(n[2] != '#');
                }
            }
        }
    }
    lemma_find_at_some(out, n, 0, ii);
}

/// Between the start of `section` (exclusive) and its end, no top-level
/// boundary occurs in `prefix + section + tail`, provided the section has no
/// adjacent '#' after its first character and the tail opens with a newline.
proof fn lemma_no_boundary_in_section(prefix: Seq<char>, section: Seq<char>, tail: Seq<char>)
    requires
        no_double_hash_from(section, 1),
        tail.len() == 0 || tail[0] == '\n',
    ensures
        forall|j: int|
            prefix.len() + 1 <= j < prefix.len() + section.len() ==> !occurs_at(
                prefix + section + tail,
                SECTION_BOUNDARY@,
                j,
            ),
        tail.len() == 0 ==> forall|j: int|
            prefix.len() + 1 <= j ==> !occurs_at(prefix + section + tail, SECTION_BOUNDARY@, j),
{
    lemma_heading_facts();
    let sep = SECTION_BOUNDARY@;
    let out = prefix + section + tail;
    let ii = prefix.len() as int;
    let ll = prefix.len() + section.len() as int;
    assert forall|j: int| ii + 1 <= j && occurs_at(out, sep, j) implies !(j < ll) && !(tail.len()
        == 0) by {
        assert forall|q: int| 0 <= q < 4 implies out[j + q] == sep[q] by {
            assert(out.subrange(j, j + 4)[q] == out[j + q]);
        }
        if j + 2 < ll {
            assert(out[j + 1] == section[j + 1 - ii]);
            assert(out[j + 2] == section[j + 2 - ii]);
            assert(!(section[j + 1 - ii] == '#' && section[j + 2 - ii] == '#'));
        } else if j + 1 == ll {
            assert(out[j + 1] == tail[0]);
        } else if j + 2 == ll {
            assert(out[j + 2] == tail[0]);
        } else {
            assert(j >= ll);
            if tail.len() == 0 {
                assert(j + 4 <= out.len());
            }
        }
    }
}

/// Splicing a freshly composed document again with the same section leaves it
/// unchanged: the heading is found exactly where the section was placed, and
/// the replaced region is the section itself.
pub proof fn lemma_splice_stable(base: Seq<char>, section: Seq<char>, banner: Seq<char>)
    requires
        hash_free(banner),
        section_wf(section),
    ensures
        spec_splice(banner + spec_splice(base, section), section) == banner + spec_splice(
            base,
            section,
        ),
{
    lemma_heading_facts();
    let n = SECTION_HEADING@;
    let sep = SECTION_BOUNDARY@;
    let nl = "\n"@;
    let blen = base.len() as int;
    lemma_find_at_first(base, n, 0);
    match find_at(base, n, 0) {
        Some(i) => {
            let pre = base.subrange(0, i);
            assert(forall|p: int| !occurs_at(pre, n, p)) by {
                assert forall|p: int| occurs_at(pre, n, p) implies false by {
                    assert forall|q: int| 0 <= q < 17 implies base[p + q] == n[q] by {
                        assert(pre.subrange(p, p + 17)[q] == pre[p + q]);
                        assert(pre[p + q] == base[p + q]);
                    }
                    assert(base.subrange(p, p + 17) =~= n);
                    assert(occurs_at(base, n, p));
                }
            }
            lemma_find_at_first(base, sep, i + 1);
            match find_at(base, sep, i + 1) {
                Some(k) => {
                    let post = base.subrange(k, blen);
                    let mid = pre + section + post;
                    let out = banner + mid;
                    assert(out =~= banner + pre + section + post);
                    lemma_first_heading(banner, pre, section, post);
                    let ii = banner.len() + pre.len() as int;
                    assert(find_at(out, n, 0) == Some(ii));
                    let ll = ii + section.len() as int;
                    assert forall|q: int| 0 <= q < 4 implies base[k + q] == sep[q] by {
                        assert(base.subrange(k, k + 4)[q] == base[k + q]);
                    }
                    assert(post[0] == '\n');
                    lemma_no_boundary_in_section(banner + pre, section, post);
                    assert(occurs_at(out, sep, ll)) by {
                        assert forall|q: int| 0 <= q < 4 implies out.subrange(ll, ll + 4)[q]
                            == sep[q] by {
                            assert(out.subrange(ll, ll + 4)[q] == out[ll + q]);
                            assert(out[ll + q] == post[q]);
                            assert(post[q] == base[k + q]);
                        }
                        assert(out.subrange(ll, ll + 4) =~= sep);
                    }
                    assert forall|j: int| ii + 1 <= j < ll implies !occurs_at(out, sep, j) by {
                        assert((banner + pre).len() == ii);
                    }
                    lemma_find_at_some(out, sep, ii + 1, ll);
                    assert(spec_splice(out, section) == out.subrange(0, ii) + section
                        + out.subrange(ll, out.len() as int));
                    assert(out.subrange(0, ii) =~= banner + pre);
                    assert(out.subrange(ll, out.len() as int) =~= post);
                    assert(out.subrange(0, ii) + section + out.subrange(ll, out.len() as int)
                        =~= out);
                },
                None => {
                    let mid = pre + section;
                    let out = banner + mid;
                    assert(out =~= banner + pre + section + Seq::<char>::empty());
                    lemma_first_heading(banner, pre, section, Seq::<char>::empty());
                    let ii = banner.len() + pre.len() as int;
                    assert(find_at(out, n, 0) == Some(ii));
                    lemma_no_boundary_in_section(banner + pre, section, Seq::<char>::empty());
                    assert forall|j: int| ii + 1 <= j implies !occurs_at(out, sep, j) by {
                        assert((banner + pre).len() == ii);
                        assert(banner + pre + section + Seq::<char>::empty() =~= out);
                    }
                    lemma_find_at_none(out, sep, ii + 1);
                    assert(spec_splice(out, section) == out.subrange(0, ii) + section);
                    assert(out.subrange(0, ii) =~= banner + pre);
                    assert(out.subrange(0, ii) + section =~= out);
                },
            }
        },
        None => {
            let pre = base + nl;
            let out = banner + pre + section + Seq::<char>::empty();
            assert(out =~= banner + (base + nl + section));
            reveal_strlit("\n");
            assert(nl.len() == 1 && nl[0] == '\n');
            assert(forall|p: int| !occurs_at(pre, n, p)) by {
                assert forall|p: int| occurs_at(pre, n, p) implies false by {
                    assert forall|q: int| 0 <= q < 17 implies pre[p + q] == n[q] by {
                        assert(pre.subrange(p, p + 17)[q] == pre[p + q]);
                    }
                    if p + 17 <= blen {
                        assert(occurs_at(base, n, p)) by {
                            assert forall|q: int| 0 <= q < 17 implies base.subrange(p, p + 17)[q]
                                == n[q] by {
                                assert(pre[p + q] == base[p + q]);
                            }
                            assert(base.subrange(p, p + 17) =~= n);
                        }
                    } else {
                        let qs = blen - p;
                        assert(0 <= qs < 17);
                        assert(pre[p + qs] == nl[0]);
                        assert(n[qs] != '\n');
                    }
                }
            }
            lemma_first_heading(banner, pre, section, Seq::<char>::empty());
            let ii = banner.len() + pre.len() as int;
            assert(find_at(out, n, 0) == Some(ii));
            lemma_no_boundary_in_section(banner + pre, section, Seq::<char>::empty());
            assert forall|j: int| ii + 1 <= j implies !occurs_at(out, sep, j) by {
                assert((banner + pre).len() == ii);
                assert(banner + pre + section + Seq::<char>::empty() =~= out);
            }
            lemma_find_at_none(out, sep, ii + 1);
            assert(spec_splice(out, section) == out.subrange(0, ii) + section);
            assert(out.subrange(0, ii) =~= banner + pre);
            assert(out.subrange(0, ii) + section =~= out);
            assert(banner + spec_splice(base, section) =~= out);
        },
    }
}

} // verus!
