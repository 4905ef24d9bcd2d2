//! Splitting a sequence at a separator, and decimal numerals.
use vstd::prelude::*;
use vstd::string::{StrSliceExecFns, StringExecFns};

verus! {

/// The pieces of `s` between the copies of `c`: one more piece than there
/// are copies of `c`, so an empty text is one empty piece.
pub open spec fn split<A>(s: Seq<A>, c: A) -> Seq<Seq<A>>
    decreases s.len(),
{
    if s.len() == 0 {
        seq![Seq::empty()]
    } else {
        let rest = split(s.drop_first(), c);
        if s[0] == c {
            seq![Seq::empty()] + rest
        } else {
            rest.update(0, seq![s[0]] + rest[0])
        }
    }
}

pub proof fn lemma_split_nonempty<A>(s: Seq<A>, c: A)
    ensures
        split(s, c).len() >= 1,
    decreases s.len(),
{
    if s.len() > 0 {
        lemma_split_nonempty(s.drop_first(), c);
    }
}

/// Splitting at the first copy of `c`, or at the end where there is none.
pub proof fn lemma_split_first<A>(s: Seq<A>, c: A, k: int)
    requires
        0 <= k <= s.len(),
        forall|j: int| 0 <= j < k ==> s[j] != c,
        k < s.len() ==> s[k] == c,
    ensures
        k == s.len() ==> split(s, c) == seq![s],
        k < s.len() ==> split(s, c) == seq![s.take(k)] + split(s.skip(k + 1), c),
    decreases k,
{
    if k == 0 {
        assert(s.take(0) =~= Seq::<A>::empty());
        if s.len() > 0 {
            assert(s.skip(1) =~= s.drop_first());
        } else {
            assert(s =~= Seq::<A>::empty());
        }
    } else {
        let t = s.drop_first();
        lemma_split_first(t, c, k - 1);
        lemma_split_nonempty(t, c);
        if k == s.len() {
            assert(seq![s[0]] + t =~= s);
            assert(split(s, c) =~= seq![s]);
        } else {
            assert(t.skip(k) =~= s.skip(k + 1));
            assert(seq![s[0]] + t.take(k - 1) =~= s.take(k));
            assert(split(s, c) =~= seq![s.take(k)] + split(s.skip(k + 1), c));
        }
    }
}

/// The line of `s` that starts at `p` ends at the first copy of `c` from
/// `p` on, or at the end of `s`.
pub proof fn lemma_split_from<A>(s: Seq<A>, c: A, p: int, e: int)
    requires
        0 <= p <= e <= s.len(),
        forall|j: int| p <= j < e ==> s[j] != c,
        e < s.len() ==> s[e] == c,
    ensures
        split(s.skip(p), c)[0] == s.subrange(p, e),
        e == s.len() ==> split(s.skip(p), c).len() == 1,
        e < s.len() ==> split(s.skip(p), c).drop_first() == split(s.skip(e + 1), c),
{
    let t = s.skip(p);
    lemma_split_first(t, c, e - p);
    if e == s.len() {
        assert(t =~= s.subrange(p, e));
    } else {
        assert(t.take(e - p) =~= s.subrange(p, e));
        assert(t.skip(e - p + 1) =~= s.skip(e + 1));
        assert((seq![t.take(e - p)] + split(s.skip(e + 1), c)).drop_first() =~= split(s.skip(e + 1), c));
    }
}


/// The characters of each string of a sequence.
pub open spec fn views(v: Seq<&str>) -> Seq<Seq<char>> {
    v.map_values(|x: &str| x@)
}

/// The pieces of `s` between the copies of `sep`, in order.
pub fn split_str<'a>(s: &'a str, sep: char) -> (r: Vec<&'a str>)
    ensures
        views(r@) == split(s@, sep),
        r@.len() >= 1,
{
    let n = s.unicode_len();
    let mut pieces: Vec<&'a str> = Vec::new();
    let mut p: usize = 0;
    proof {
        assert(s@.skip(0) =~= s@);
        assert(views(pieces@) + split(s@.skip(0), sep) =~= split(s@, sep));
    }
    loop
        invariant
            p <= n,
            n == s@.len(),
            views(pieces@) + split(s@.skip(p as int), sep) == split(s@, sep),
        decreases n - p,
    {
        let mut e = p;
        while e < n && s.get_char(e) != sep
            invariant
                p <= e <= n,
                n == s@.len(),
                forall|j: int| p <= j < e ==> s@[j] != sep,
            decreases n - e,
        {
            e = e + 1;
        }
        proof {
            lemma_split_from(s@, sep, p as int, e as int);
        }
        let piece = s.substring_char(p, e);
        let ghost before = pieces@;
        pieces.push(piece);
        proof {
            let rest = split(s@.skip(p as int), sep);
            lemma_split_nonempty(s@.skip(p as int), sep);
            assert(views(pieces@) =~= views(before).push(piece@));
            assert(rest =~= seq![rest[0]] + rest.drop_first());
        }
        if e == n {
            proof {
                let rest = split(s@.skip(p as int), sep);
                assert(rest =~= seq![piece@]);
                assert(views(pieces@) =~= split(s@, sep));
            }
            return pieces;
        }
        proof {
            assert(views(pieces@) + split(s@.skip(e + 1), sep) =~= split(s@, sep));
        }
        p = e + 1;
    }
}


/// Whether two strings hold the same characters.
pub fn same_text(a: &str, b: &str) -> (r: bool)
    ensures
        r == (a@ == b@),
{
    let n = a.unicode_len();
    if n != b.unicode_len() {
        return false;
    }
    let mut i: usize = 0;
    while i < n
        invariant
            n == a@.len(),
            n == b@.len(),
            i <= n,
            forall|j: int| 0 <= j < i ==> #[trigger] a@[j] == b@[j],
        decreases n - i,
    {
        if a.get_char(i) != b.get_char(i) {
            return false;
        }
        i = i + 1;
    }
    assert(a@ =~= b@);
    true
}

/// The numeral of a decimal digit.
pub open spec fn digit_char(d: int) -> char {
    if d == 0 { '0' }
    else if d == 1 { '1' }
    else if d == 2 { '2' }
    else if d == 3 { '3' }
    else if d == 4 { '4' }
    else if d == 5 { '5' }
    else if d == 6 { '6' }
    else if d == 7 { '7' }
    else if d == 8 { '8' }
    else { '9' }
}

/// The decimal numeral of `n`, without leading zeros.
pub open spec fn decimal(n: nat) -> Seq<char>
    decreases n,
{
    if n < 10 {
        seq![digit_char(n as int)]
    } else {
        decimal(n / 10).push(digit_char((n % 10) as int))
    }
}


/// Whether a character is a decimal digit.
pub open spec fn is_digit(c: char) -> bool {
    '0' <= c && c <= '9'
}

/// A numeral is non-empty and made of digits only.
pub proof fn lemma_decimal_digits(n: nat)
    ensures
        decimal(n).len() >= 1,
        n >= 10 ==> decimal(n).len() >= 2,
        forall|i: int| 0 <= i < decimal(n).len() ==> is_digit(#[trigger] decimal(n)[i]),
    decreases n,
{
    if n >= 10 {
        lemma_decimal_digits(n / 10);
    }
}

/// Different numbers have different numerals.
pub proof fn lemma_decimal_injective(a: nat, b: nat)
    requires
        decimal(a) == decimal(b),
    ensures
        a == b,
    decreases a,
{
    lemma_decimal_digits(a);
    lemma_decimal_digits(b);
    if a >= 10 && b >= 10 {
        assert(decimal(a).drop_last() =~= decimal(a / 10));
        assert(decimal(b).drop_last() =~= decimal(b / 10));
        lemma_decimal_injective(a / 10, b / 10);
        assert(decimal(a).last() == digit_char((a % 10) as int));
        assert(decimal(b).last() == digit_char((b % 10) as int));
        assert(a % 10 == b % 10);
        assert(a == 10 * (a / 10) + a % 10);
        assert(b == 10 * (b / 10) + b % 10);
    } else if a < 10 && b < 10 {
        assert(decimal(a)[0] == digit_char(a as int));
        assert(decimal(b)[0] == digit_char(b as int));
    }
}

fn digit_str(d: u128) -> (r: &'static str)
    requires
        d < 10,
    ensures
        r@ == seq![digit_char(d as int)],
{
    if d == 0 {
        proof { reveal_strlit("0"); }
        "0"
    } else if d == 1 {
        proof { reveal_strlit("1"); }
        "1"
    } else if d == 2 {
        proof { reveal_strlit("2"); }
        "2"
    } else if d == 3 {
        proof { reveal_strlit("3"); }
        "3"
    } else if d == 4 {
        proof { reveal_strlit("4"); }
        "4"
    } else if d == 5 {
        proof { reveal_strlit("5"); }
        "5"
    } else if d == 6 {
        proof { reveal_strlit("6"); }
        "6"
    } else if d == 7 {
        proof { reveal_strlit("7"); }
        "7"
    } else if d == 8 {
        proof { reveal_strlit("8"); }
        "8"
    } else {
        proof { reveal_strlit("9"); }
        "9"
    }
}

/// Appends the decimal numeral of `n` to `s`.
pub fn push_decimal(s: &mut String, n: u128)
    ensures
        final(s)@ == old(s)@ + decimal(n as nat),
    decreases n,
{
    if n >= 10 {
        push_decimal(s, n / 10);
    }
    s.append(digit_str(n % 10));
    proof {
        if n >= 10 {
            assert(old(s)@ + decimal((n / 10) as nat) + seq![digit_char((n % 10) as int)] =~= old(s)@ + decimal(n as nat));
        } else {
            assert(old(s)@ + seq![digit_char((n % 10) as int)] =~= old(s)@ + decimal(n as nat));
        }
    }
}

} // verus!
