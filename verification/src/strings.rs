//! Character-level helpers: digit stripping, substring search and
//! lexicographic comparison, used by the version heuristics and by the
//! ordering of add-ons.

use core::cmp::Ordering;
use vstd::prelude::*;
use vstd::string::StrSliceExecFns;

verus! {

/// True of the ten decimal digit characters.
pub open spec fn is_digit(c: char) -> bool {
    48 <= c as u32 && c as u32 <= 57
}

/// The decimal digit characters of `s`, in order, all others removed.
pub open spec fn digits_of(s: Seq<char>) -> Seq<char>
    decreases s.len(),
{
    if s.len() == 0 {
        Seq::empty()
    } else {
        digits_of(s.drop_last()) + (if is_digit(s.last()) {
            seq![s.last()]
        } else {
            Seq::<char>::empty()
        })
    }
}

/// Collects the decimal digit characters of `s`, dropping everything else.
pub fn strip_non_digits(s: &str) -> (r: Vec<char>)
    ensures
        r@ == digits_of(s@),
{
    let n = s.unicode_len();
    let mut out: Vec<char> = Vec::new();
    let mut i: usize = 0;
    while i < n
        invariant
            n == s@.len(),
            i <= n,
            out@ == digits_of(s@.subrange(0, i as int)),
        decreases n - i,
    {
        let c = s.get_char(i);
        let u = c as u32;
        if 48 <= u && u <= 57 {
            out.push(c);
        }
        proof {
            let pre = s@.subrange(0, i as int);
            let cur = s@.subrange(0, i + 1 as int);
            assert(cur.drop_last() =~= pre);
            assert(cur.last() == s@[i as int]);
        }
        i = i + 1;
    }
    proof {
        assert(s@.subrange(0, n as int) =~= s@);
    }
    out
}

/// `needle` occurs in `hay` starting at offset `k`.
pub open spec fn is_substring_at(hay: Seq<char>, needle: Seq<char>, k: int) -> bool {
    0 <= k && k + needle.len() <= hay.len() && hay.subrange(k, k + needle.len()) == needle
}

/// `needle` occurs somewhere in `hay` as a contiguous run.
pub open spec fn is_substring(hay: Seq<char>, needle: Seq<char>) -> bool {
    exists|k: int| is_substring_at(hay, needle, k)
}

/// Decides whether `needle` is a contiguous run inside `hay`.
pub fn contains_chars(hay: &Vec<char>, needle: &Vec<char>) -> (r: bool)
    ensures
        r == is_substring(hay@, needle@),
{
    let hl = hay.len();
    let nl = needle.len();
    if nl > hl {
        proof {
            assert(forall|k: int| !is_substring_at(hay@, needle@, k));
        }
        return false;
    }
    if nl == 0 {
        proof {
            assert(hay@.subrange(0, 0) =~= needle@);
            assert(is_substring_at(hay@, needle@, 0));
        }
        return true;
    }
    let mut k: usize = 0;
    while k <= hl - nl
        invariant
            1 <= nl <= hl,
            hl == hay@.len(),
            nl == needle@.len(),
            k <= hl - nl + 1,
            forall|k2: int| 0 <= k2 < k ==> !is_substring_at(hay@, needle@, k2),
        decreases hl - nl + 1 - k,
    {
        let mut j: usize = 0;
        let mut matched = true;
        while j < nl
            invariant
                nl <= hl,
                hl == hay@.len(),
                nl == needle@.len(),
                k <= hl - nl,
                j <= nl,
                matched ==> forall|j2: int| 0 <= j2 < j ==> hay@[k + j2] == needle@[j2],
                !matched ==> !is_substring_at(hay@, needle@, k as int),
            decreases nl - j,
        {
            if hay[k + j] != needle[j] {
                proof {
                    let sub = hay@.subrange(k as int, k + nl);
                    assert(sub[j as int] == hay@[k + j]);
                    assert(sub != needle@);
                }
                matched = false;
                j = nl;
            } else {
                j = j + 1;
            }
        }
        if matched {
            proof {
                assert(hay@.subrange(k as int, k + nl) =~= needle@);
                assert(is_substring_at(hay@, needle@, k as int));
            }
            return true;
        }
        k = k + 1;
    }
    proof {
        assert(forall|k2: int| k <= k2 ==> !is_substring_at(hay@, needle@, k2));
    }
    false
}

/// Lexicographic order on character sequences, by code point; a proper
/// prefix comes first.
pub open spec fn lex_cmp(a: Seq<char>, b: Seq<char>) -> Ordering
    decreases a.len(),
{
    if a.len() == 0 && b.len() == 0 {
        Ordering::Equal
    } else if a.len() == 0 {
        Ordering::Less
    } else if b.len() == 0 {
        Ordering::Greater
    } else if (a[0] as u32) < (b[0] as u32) {
        Ordering::Less
    } else if (a[0] as u32) > (b[0] as u32) {
        Ordering::Greater
    } else {
        lex_cmp(a.drop_first(), b.drop_first())
    }
}

/// Compares two strings lexicographically by code point.
pub fn cmp_str(a: &str, b: &str) -> (r: Ordering)
    ensures
        r == lex_cmp(a@, b@),
{
    let al = a.unicode_len();
    let bl = b.unicode_len();
    let mut i: usize = 0;
    proof {
        assert(a@.skip(0) =~= a@);
        assert(b@.skip(0) =~= b@);
    }
    loop
        invariant
            al == a@.len(),
            bl == b@.len(),
            i <= al,
            i <= bl,
            lex_cmp(a@, b@) == lex_cmp(a@.skip(i as int), b@.skip(i as int)),
        decreases al - i,
    {
        if i == al && i == bl {
            return Ordering::Equal;
        }
        if i == al {
            return Ordering::Less;
        }
        if i == bl {
            return Ordering::Greater;
        }
        let ca = a.get_char(i);
        let cb = b.get_char(i);
        proof {
            let ra = a@.skip(i as int);
            let rb = b@.skip(i as int);
            assert(ra[0] == a@[i as int]);
            assert(rb[0] == b@[i as int]);
            assert(ra.drop_first() =~= a@.skip(i + 1 as int));
            assert(rb.drop_first() =~= b@.skip(i + 1 as int));
        }
        if (ca as u32) < (cb as u32) {
            return Ordering::Less;
        }
        if (ca as u32) > (cb as u32) {
            return Ordering::Greater;
        }
        i = i + 1;
    }
}

/// The opposite of an ordering outcome.
pub open spec fn reverse_ord(o: Ordering) -> Ordering {
    match o {
        Ordering::Less => Ordering::Greater,
        Ordering::Equal => Ordering::Equal,
        Ordering::Greater => Ordering::Less,
    }
}

/// Reverses an ordering outcome.
pub fn reverse_ordering(o: Ordering) -> (r: Ordering)
    ensures
        r == reverse_ord(o),
{
    match o {
        Ordering::Less => Ordering::Greater,
        Ordering::Equal => Ordering::Equal,
        Ordering::Greater => Ordering::Less,
    }
}

} // verus!
