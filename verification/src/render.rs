//! The command template renderer.
//!
//! One command string is rendered per hostname by literal substring
//! substitution: every occurrence of the placeholder tag in the template is
//! replaced by the hostname, leftmost first and without overlap, with no
//! escaping and no recursive expansion. Rendering is pure and total; a tag
//! that never occurs in the template leaves it unchanged, which is valid (if
//! likely misconfigured) input rather than an error. An empty tag is also
//! valid: it matches at every character boundary of the template, including
//! both ends, so the hostname is interleaved between all characters.

use vstd::prelude::*;
use vstd::string::StrSliceExecFns;
use vstd::string::StringExecFns;

verus! {

/// The placeholder tag matches the template at character position `i`.
pub open spec fn matches_at(s: Seq<char>, tag: Seq<char>, i: int) -> bool {
    &&& 0 <= i
    &&& i + tag.len() <= s.len()
    &&& s.subrange(i, i + tag.len()) == tag
}

/// The tag occurs somewhere in the template.
pub open spec fn occurs_in(s: Seq<char>, tag: Seq<char>) -> bool {
    exists|i: int| matches_at(s, tag, i)
}

/// Leftmost, non-overlapping replacement of every occurrence of `tag` in `s`
/// by `host`. An empty tag matches before every character and at the very
/// end, so the result interleaves `host` around each character of `s`.
pub open spec fn replace_all(s: Seq<char>, tag: Seq<char>, host: Seq<char>) -> Seq<char>
    decreases s.len(),
{
    if s.len() == 0 {
        if tag.len() == 0 {
            host
        } else {
            Seq::<char>::empty()
        }
    } else if tag.len() > 0 && tag.len() <= s.len() && s.subrange(0, tag.len() as int) == tag {
        host + replace_all(s.skip(tag.len() as int), tag, host)
    } else if tag.len() == 0 {
        host + seq![s[0]] + replace_all(s.skip(1), tag, host)
    } else {
        seq![s[0]] + replace_all(s.skip(1), tag, host)
    }
}

/// Compare the tag against the template characters starting at position `i`.
fn tag_matches_at(template: &str, n: usize, tag: &str, tl: usize, i: usize) -> (r: bool)
    requires
        n == template@.len(),
        tl == tag@.len(),
        i + tl <= n,
    ensures
        r == matches_at(template@, tag@, i as int),
{
    let mut j: usize = 0;
    while j < tl
        invariant
            n == template@.len(),
            tl == tag@.len(),
            i + tl <= n,
            j <= tl,
            forall|k: int| 0 <= k < j ==> template@[i + k] == tag@[k],
        decreases tl - j,
    {
        if template.get_char(i + j) != tag.get_char(j) {
            assert(!matches_at(template@, tag@, i as int)) by {
                assert(template@.subrange(i as int, i + tl) != tag@) by {
                    if template@.subrange(i as int, i + tl) == tag@ {
                        assert(template@.subrange(i as int, i + tl)[j as int] == template@[i + j]);
                    }
                }
            }
            return false;
        }
        j += 1;
    }
    assert(template@.subrange(i as int, i + tl) =~= tag@);
    true
}

/// Render one command for one hostname: replace every occurrence of `tag` in
/// `template` by `host`. Pure and total; never fails, whatever the three
/// strings are.
pub fn render(template: &str, tag: &str, host: &str) -> (r: String)
    ensures
        r@ == replace_all(template@, tag@, host@),
{
    let n = template.unicode_len();
    let tl = tag.unicode_len();
    let mut out = String::new();
    let mut i: usize = 0;
    proof {
        assert(template@.skip(0) =~= template@);
        assert(out@ + replace_all(template@, tag@, host@) =~= replace_all(template@, tag@, host@));
    }
    while i < n
        invariant
            n == template@.len(),
            tl == tag@.len(),
            i <= n,
            out@ + replace_all(template@.skip(i as int), tag@, host@) == replace_all(
                template@,
                tag@,
                host@,
            ),
        decreases n - i,
    {
        let ghost rest = template@.skip(i as int);
        assert(rest.len() == n - i);
        if tl > 0 && tl <= n - i && tag_matches_at(template, n, tag, tl, i) {
            proof {
                assert(rest.subrange(0, tl as int) =~= template@.subrange(i as int, i + tl));
                assert(rest.skip(tl as int) =~= template@.skip(i + tl));
                assert(replace_all(rest, tag@, host@) == host@ + replace_all(
                    template@.skip(i + tl),
                    tag@,
                    host@,
                ));
            }
            out.append(host);
            proof {
                assert(out@ + replace_all(template@.skip(i + tl), tag@, host@) =~= replace_all(
                    template@,
                    tag@,
                    host@,
                ));
            }
            i += tl;
        } else {
            proof {
                assert(rest[0] == template@[i as int]);
                assert(rest.skip(1) =~= template@.skip(i + 1));
                if tl > 0 && tl <= n - i {
                    assert(rest.subrange(0, tl as int) =~= template@.subrange(i as int, i + tl));
                    assert(rest.subrange(0, tl as int) != tag@);
                }
            }
            if tl == 0 {
                assert(replace_all(rest, tag@, host@) == host@ + seq![template@[i as int]]
                    + replace_all(template@.skip(i + 1), tag@, host@));
                out.append(host);
            } else {
                assert(replace_all(rest, tag@, host@) == seq![template@[i as int]] + replace_all(
                    template@.skip(i + 1),
                    tag@,
                    host@,
                ));
            }
            let c = template.substring_char(i, i + 1);
            proof {
                assert(c@ =~= seq![template@[i as int]]);
            }
            out.append(c);
            proof {
                assert(out@ + replace_all(template@.skip(i + 1), tag@, host@) =~= replace_all(
                    template@,
                    tag@,
                    host@,
                ));
            }
            i += 1;
        }
    }
    proof {
        assert(template@.skip(i as int) =~= Seq::<char>::empty());
    }
    if tl == 0 {
        out.append(host);
        proof {
            assert(out@ =~= replace_all(template@, tag@, host@));
        }
    } else {
        proof {
            assert(out@ =~= replace_all(template@, tag@, host@));
        }
    }
    out
}

/// A tag that occurs nowhere in the template leaves it unchanged, for every
/// hostname: rendering with an absent (non-empty) tag is the identity on the
/// template.
pub proof fn lemma_absent_tag_renders_unchanged(s: Seq<char>, tag: Seq<char>, host: Seq<char>)
    requires
        tag.len() > 0,
        !occurs_in(s, tag),
    ensures
        replace_all(s, tag, host) == s,
    decreases s.len(),
{
    if s.len() == 0 {
        assert(replace_all(s, tag, host) =~= s);
    } else {
        assert(!matches_at(s, tag, 0));
        assert forall|i: int| !matches_at(s.skip(1), tag, i) by {
            if matches_at(s.skip(1), tag, i) {
                assert(s.skip(1).subrange(i, i + tag.len()) =~= s.subrange(i + 1, i + 1
                    + tag.len()));
                assert(matches_at(s, tag, i + 1));
            }
        }
        lemma_absent_tag_renders_unchanged(s.skip(1), tag, host);
        if tag.len() <= s.len() {
            assert(s.subrange(0, tag.len() as int) != tag);
        }
        assert(seq![s[0]] + s.skip(1) =~= s);
    }
}

} // verus!
