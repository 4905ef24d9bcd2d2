//! Naming of the transient cgroup that holds one run.
use vstd::prelude::*;
use vstd::string::StringExecFns;

use crate::text::{decimal, is_digit, lemma_decimal_digits, lemma_decimal_injective, push_decimal};
use crate::timer::unix_timestamp;

verus! {

pub open spec fn cgroup_prefix() -> Seq<char> {
    "oj-cg-"@
}

/// The name of the cgroup of a run: `oj-cg-`, the decimal numeral of the
/// milliseconds since the unix epoch, `-`, and the decimal numeral of a
/// nonce that tells apart the runs of one millisecond.
pub open spec fn cgroup_name_of(ms: nat, nonce: nat) -> Seq<char> {
    cgroup_prefix() + decimal(ms) + seq!['-'] + decimal(nonce)
}

/// The name of the cgroup created at `ms` milliseconds since the unix epoch
/// by the run with `nonce`.
pub fn cgroup_name(ms: u128, nonce: u64) -> (r: String)
    ensures
        r@ == cgroup_name_of(ms as nat, nonce as nat),
{
    let mut s = String::from_str("oj-cg-");
    push_decimal(&mut s, ms);
    s.append("-");
    push_decimal(&mut s, nonce as u128);
    proof {
        reveal_strlit("-");
        assert(s@ =~= cgroup_name_of(ms as nat, nonce as nat));
    }
    s
}

/// Distinct runs get distinct cgroups: names made of different
/// (millisecond, nonce) pairs differ.
pub proof fn lemma_cgroup_names_distinct(ms1: nat, nonce1: nat, ms2: nat, nonce2: nat)
    requires
        ms1 != ms2 || nonce1 != nonce2,
    ensures
        cgroup_name_of(ms1, nonce1) != cgroup_name_of(ms2, nonce2),
{
    let s1 = cgroup_name_of(ms1, nonce1);
    let s2 = cgroup_name_of(ms2, nonce2);
    let p = cgroup_prefix().len() as int;
    let d1 = decimal(ms1);
    let d2 = decimal(ms2);
    let k1 = d1.len() as int;
    let k2 = d2.len() as int;
    lemma_decimal_digits(ms1);
    lemma_decimal_digits(ms2);
    if s1 == s2 {
        assert(!is_digit('-'));
        if k1 < k2 {
            assert(s1[p + k1] == '-');
            assert(s2[p + k1] == d2[k1]);
        } else if k2 < k1 {
            assert(s2[p + k2] == '-');
            assert(s1[p + k2] == d1[k2]);
        } else {
            assert(d1 =~= s1.subrange(p, p + k1));
            assert(d2 =~= s2.subrange(p, p + k2));
            lemma_decimal_injective(ms1, ms2);
            assert(decimal(nonce1) =~= s1.skip(p + k1 + 1));
            assert(decimal(nonce2) =~= s2.skip(p + k2 + 1));
            lemma_decimal_injective(nonce1, nonce2);
        }
    }
}

/// A fresh cgroup name from the current time and `nonce`, or `None` where
/// the system clock is set before the unix epoch.
pub fn gen_cgroup_name(nonce: u64) -> (r: Option<String>)
    ensures
        r is Some ==> exists|ms: u128| r->0@ == cgroup_name_of(ms as nat, nonce as nat),
{
    match unix_timestamp() {
        Some(ms) => Some(cgroup_name(ms, nonce)),
        None => None,
    }
}

} // verus!
