//! Comparison of a program's output with the expected output.
//!
//! Both texts are compared as UTF-8 bytes: newline and space are single
//! bytes that never occur inside the encoding of another character, so
//! splitting and trimming them on bytes agrees with doing so on characters.
use vstd::prelude::*;
use vstd::string::StringSliceAdditionalSpecFns;

use crate::text::{lemma_split_from, lemma_split_nonempty, split};

verus! {

pub const NEWLINE: u8 = 10;

pub const SPACE: u8 = 32;

/// How lenient a comparison is.
#[derive(Clone, Copy, Debug, PartialEq, Eq, Structural)]
pub struct CompareOption {
    /// spaces at the end of a line are ignored
    pub allow_trailing_space: bool,
    /// newlines at the end of the text are ignored
    pub allow_trailing_blank_line: bool,
}

impl CompareOption {
    /// The lenient comparison: trailing spaces and trailing newlines are ignored.
    pub fn default() -> (r: Self)
        ensures
            r.allow_trailing_space,
            r.allow_trailing_blank_line,
    {
        CompareOption { allow_trailing_space: true, allow_trailing_blank_line: true }
    }
}

/// `s` without the copies of `c` at its end.
pub open spec fn trim_end(s: Seq<u8>, c: u8) -> Seq<u8>
    decreases s.len(),
{
    if s.len() > 0 && s.last() == c {
        trim_end(s.drop_last(), c)
    } else {
        s
    }
}

pub open spec fn lines_equal(a: Seq<u8>, b: Seq<u8>, opt: CompareOption) -> bool {
    if opt.allow_trailing_space {
        trim_end(a, SPACE) == trim_end(b, SPACE)
    } else {
        a == b
    }
}

pub open spec fn text_of(s: Seq<u8>, opt: CompareOption) -> Seq<u8> {
    if opt.allow_trailing_blank_line {
        trim_end(s, NEWLINE)
    } else {
        s
    }
}

/// Whether output `b` matches expected text `a`: each line of `a` equals
/// the line of `b` at the same place. Lines of `b` past the last line of `a`
/// are not looked at.
pub open spec fn texts_match(a: Seq<u8>, b: Seq<u8>, opt: CompareOption) -> bool {
    let la = split(text_of(a, opt), NEWLINE);
    let lb = split(text_of(b, opt), NEWLINE);
    la.len() <= lb.len() && forall|i: int| 0 <= i < la.len() ==> lines_equal(#[trigger] la[i], lb[i], opt)
}

/// The length of `s[..n]` without the copies of `c` at its end.
fn trimmed_end(s: &[u8], start: usize, n: usize, c: u8) -> (r: usize)
    requires
        start <= n <= s@.len(),
    ensures
        start <= r <= n,
        s@.subrange(start as int, r as int) == trim_end(s@.subrange(start as int, n as int), c),
{
    let mut t = n;
    while t > start && s[t - 1] == c
        invariant
            start <= t <= n <= s@.len(),
            trim_end(s@.subrange(start as int, t as int), c) == trim_end(s@.subrange(start as int, n as int), c),
        decreases t,
    {
        assert(s@.subrange(start as int, t as int).drop_last() =~= s@.subrange(start as int, t - 1));
        t = t - 1;
    }
    t
}

/// The first index from `p` on that holds `c`, or the length of `s[..n]`.
fn next_index_of(s: &[u8], p: usize, n: usize, c: u8) -> (r: usize)
    requires
        p <= n <= s@.len(),
    ensures
        p <= r <= n,
        forall|j: int| p <= j < r ==> s@[j] != c,
        r < n ==> s@[r as int] == c,
{
    let mut i = p;
    while i < n && s[i] != c
        invariant
            p <= i <= n <= s@.len(),
            forall|j: int| p <= j < i ==> s@[j] != c,
        decreases n - i,
    {
        i = i + 1;
    }
    i
}

/// Whether `a[sa..ea]` and `b[sb..eb]` hold the same bytes.
fn ranges_equal(a: &[u8], sa: usize, ea: usize, b: &[u8], sb: usize, eb: usize) -> (r: bool)
    requires
        sa <= ea <= a@.len(),
        sb <= eb <= b@.len(),
    ensures
        r == (a@.subrange(sa as int, ea as int) == b@.subrange(sb as int, eb as int)),
{
    if ea - sa != eb - sb {
        assert(a@.subrange(sa as int, ea as int).len() != b@.subrange(sb as int, eb as int).len());
        return false;
    }
    let ghost x = a@.subrange(sa as int, ea as int);
    let ghost y = b@.subrange(sb as int, eb as int);
    let mut i: usize = 0;
    while i < ea - sa
        invariant
            sa <= ea <= a@.len(),
            sb <= eb <= b@.len(),
            ea - sa == eb - sb,
            i <= ea - sa,
            x == a@.subrange(sa as int, ea as int),
            y == b@.subrange(sb as int, eb as int),
            forall|j: int| 0 <= j < i ==> #[trigger] x[j] == y[j],
        decreases ea - sa - i,
    {
        if a[sa + i] != b[sb + i] {
            assert(x[i as int] != y[i as int]);
            return false;
        }
        i = i + 1;
    }
    assert(x =~= y);
    true
}

/// Whether line `a[sa..ea]` equals line `b[sb..eb]` under `opt`.
fn line_matches(a: &[u8], sa: usize, ea: usize, b: &[u8], sb: usize, eb: usize, opt: CompareOption) -> (r: bool)
    requires
        sa <= ea <= a@.len(),
        sb <= eb <= b@.len(),
    ensures
        r == lines_equal(a@.subrange(sa as int, ea as int), b@.subrange(sb as int, eb as int), opt),
{
    if opt.allow_trailing_space {
        let ta = trimmed_end(a, sa, ea, SPACE);
        let tb = trimmed_end(b, sb, eb, SPACE);
        ranges_equal(a, sa, ta, b, sb, tb)
    } else {
        ranges_equal(a, sa, ea, b, sb, eb)
    }
}

/// Whether output `str_b` matches expected text `str_a`, line by line;
/// without an option the comparison ignores trailing spaces and trailing
/// newlines.
pub fn compare_two_str(str_a: &str, str_b: &str, compare_option: Option<CompareOption>) -> (r: bool)
    ensures
        r == texts_match(
            str_a.spec_bytes(),
            str_b.spec_bytes(),
            match compare_option {
                Some(o) => o,
                None => CompareOption { allow_trailing_space: true, allow_trailing_blank_line: true },
            },
        ),
{
    let opt = match compare_option {
        Some(o) => o,
        None => CompareOption::default(),
    };
    let a = str_a.as_bytes();
    let b = str_b.as_bytes();
    assert(opt == match compare_option {
        Some(o) => o,
        None => CompareOption { allow_trailing_space: true, allow_trailing_blank_line: true },
    });
    let (na, nb) = if opt.allow_trailing_blank_line {
        (trimmed_end(a, 0, a.len(), NEWLINE), trimmed_end(b, 0, b.len(), NEWLINE))
    } else {
        (a.len(), b.len())
    };
    let ghost ta = a@.take(na as int);
    let ghost tb = b@.take(nb as int);
    proof {
        assert(a@.subrange(0, a@.len() as int) =~= a@);
        assert(b@.subrange(0, b@.len() as int) =~= b@);
        assert(a@.subrange(0, na as int) =~= ta);
        assert(b@.subrange(0, nb as int) =~= tb);
        assert(ta.skip(0) =~= ta);
        assert(tb.skip(0) =~= tb);
    }
    let ghost la = split(ta, NEWLINE);
    let ghost lb = split(tb, NEWLINE);
    proof {
        lemma_split_nonempty(ta, NEWLINE);
        lemma_split_nonempty(tb, NEWLINE);
    }
    let mut pa: usize = 0;
    let mut pb: usize = 0;
    let ghost mut k: int = 0;
    loop
        invariant
            a@ == str_a.spec_bytes(),
            b@ == str_b.spec_bytes(),
            opt == match compare_option {
                Some(o) => o,
                None => CompareOption { allow_trailing_space: true, allow_trailing_blank_line: true },
            },
            na <= a@.len(),
            nb <= b@.len(),
            ta == a@.take(na as int),
            tb == b@.take(nb as int),
            la == split(ta, NEWLINE),
            lb == split(tb, NEWLINE),
            ta == text_of(a@, opt),
            tb == text_of(b@, opt),
            pa <= na,
            pb <= nb,
            0 <= k < la.len(),
            k < lb.len(),
            split(ta.skip(pa as int), NEWLINE) == la.skip(k),
            split(tb.skip(pb as int), NEWLINE) == lb.skip(k),
            forall|i: int| 0 <= i < k ==> lines_equal(#[trigger] la[i], lb[i], opt),
        decreases na - pa,
    {
        let ea = next_index_of(a, pa, na, NEWLINE);
        let eb = next_index_of(b, pb, nb, NEWLINE);
        proof {
            assert forall|j: int| pa <= j < ea implies ta[j] != NEWLINE by {}
            assert forall|j: int| pb <= j < eb implies tb[j] != NEWLINE by {}
            lemma_split_from(ta, NEWLINE, pa as int, ea as int);
            lemma_split_from(tb, NEWLINE, pb as int, eb as int);
            assert(la[k] == la.skip(k)[0]);
            assert(lb[k] == lb.skip(k)[0]);
            assert(ta.subrange(pa as int, ea as int) =~= a@.subrange(pa as int, ea as int));
            assert(tb.subrange(pb as int, eb as int) =~= b@.subrange(pb as int, eb as int));
        }
        if !line_matches(a, pa, ea, b, pb, eb, opt) {
            assert(!lines_equal(la[k], lb[k], opt));
            assert(!texts_match(a@, b@, opt));
            return false;
        }
        if ea == na {
            proof {
                assert(la.len() == k + 1) by {
                    assert(la.skip(k).len() == 1);
                }
            }
            return true;
        }
        if eb == nb {
            proof {
                assert(lb.len() == k + 1) by {
                    assert(lb.skip(k).len() == 1);
                }
                assert(la.skip(k).len() > 1) by {
                    lemma_split_nonempty(ta.skip(ea + 1), NEWLINE);
                }
                assert(la.len() > lb.len()) by {
                    assert(la.skip(k).len() == la.len() - k);
                }
                assert(!texts_match(a@, b@, opt));
            }
            return false;
        }
        proof {
            assert(la.skip(k).drop_first() =~= la.skip(k + 1));
            assert(lb.skip(k).drop_first() =~= lb.skip(k + 1));
            lemma_split_nonempty(ta.skip(ea + 1), NEWLINE);
            lemma_split_nonempty(tb.skip(eb + 1), NEWLINE);
        }
        pa = ea + 1;
        pb = eb + 1;
        proof {
            k = k + 1;
        }
    }
}

} // verus!
