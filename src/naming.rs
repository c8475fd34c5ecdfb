//! Names of the entries that a generation writes: `initial_seed_<i>`, with
//! `i` in decimal.

use vstd::prelude::*;

verus! {

/// The character of one decimal digit.
pub open spec fn digit_char(d: nat) -> char {
    if d == 0 { '0' }
    else if d == 1 { '1' }
    else if d == 2 { '2' }
    else if d == 3 { '3' }
    else if d == 4 { '4' }
    else if d == 5 { '5' }
    else if d == 6 { '6' }
    else if d == 7 { '7' }
    else if d == 8 { '8' }
    else { '9' }
}

/// The decimal notation of `n`, most significant digit first, without
/// leading zeros.
pub open spec fn decimal_of(n: nat) -> Seq<char>
    decreases n,
{
    if n < 10 {
        seq![digit_char(n)]
    } else {
        decimal_of(n / 10).push(digit_char(n % 10))
    }
}

/// The prefix shared by the names of all generated seeds.
pub open spec fn seed_prefix() -> Seq<char> {
    seq!['i', 'n', 'i', 't', 'i', 'a', 'l', '_', 's', 'e', 'e', 'd', '_']
}

/// The name of the seed written for the 1-based index `i`.
pub open spec fn seed_name_of(i: nat) -> Seq<char> {
    seed_prefix() + decimal_of(i)
}

proof fn lemma_digit_char_injective(a: nat, b: nat)
    requires
        a < 10,
        b < 10,
        digit_char(a) == digit_char(b),
    ensures
        a == b,
{
}

proof fn lemma_decimal_nonempty(n: nat)
    ensures
        decimal_of(n).len() >= 1,
    decreases n,
{
    if n >= 10 {
        lemma_decimal_nonempty(n / 10);
    }
}

/// Distinct numbers have distinct decimal notations.
pub proof fn lemma_decimal_injective(a: nat, b: nat)
    requires
        decimal_of(a) == decimal_of(b),
    ensures
        a == b,
    decreases a,
{
    lemma_decimal_nonempty(a / 10);
    lemma_decimal_nonempty(b / 10);
    let da = decimal_of(a);
    let db = decimal_of(b);
    if a < 10 && b < 10 {
        assert(da[0] == db[0]);
        lemma_digit_char_injective(a, b);
    } else if a < 10 {
        assert(db.len() >= 2);
    } else if b < 10 {
        assert(da.len() >= 2);
    } else {
        assert(da.last() == db.last());
        lemma_digit_char_injective(a % 10, b % 10);
        assert(decimal_of(a / 10) == da.drop_last());
        assert(decimal_of(b / 10) == db.drop_last());
        lemma_decimal_injective(a / 10, b / 10);
    }
}

/// Distinct indices give distinct seed names.
pub proof fn lemma_seed_name_injective(a: nat, b: nat)
    requires
        seed_name_of(a) == seed_name_of(b),
    ensures
        a == b,
{
    let p = seed_prefix();
    assert(decimal_of(a) == seed_name_of(a).subrange(p.len() as int, seed_name_of(a).len() as int));
    assert(decimal_of(b) == seed_name_of(b).subrange(p.len() as int, seed_name_of(b).len() as int));
    lemma_decimal_injective(a, b);
}

fn digit_str(d: u32) -> (r: &'static str)
    requires
        d < 10,
    ensures
        r@ == seq![digit_char(d as nat)],
{
    proof {
        reveal_strlit("0");
        reveal_strlit("1");
        reveal_strlit("2");
        reveal_strlit("3");
        reveal_strlit("4");
        reveal_strlit("5");
        reveal_strlit("6");
        reveal_strlit("7");
        reveal_strlit("8");
        reveal_strlit("9");
    }
    if d == 0 { "0" }
    else if d == 1 { "1" }
    else if d == 2 { "2" }
    else if d == 3 { "3" }
    else if d == 4 { "4" }
    else if d == 5 { "5" }
    else if d == 6 { "6" }
    else if d == 7 { "7" }
    else if d == 8 { "8" }
    else { "9" }
}

/// Writes `n` in decimal.
pub fn decimal(n: u32) -> (r: String)
    ensures
        r@ == decimal_of(n as nat),
    decreases n,
{
    if n < 10 {
        String::from_str(digit_str(n))
    } else {
        let mut s = decimal(n / 10);
        s.append(digit_str(n % 10));
        s
    }
}

/// The name of the seed written for the 1-based index `i`.
pub fn seed_name(i: u32) -> (r: String)
    ensures
        r@ == seed_name_of(i as nat),
{
    let prefix = "initial_seed_";
    proof {
        reveal_strlit("initial_seed_");
    }
    let mut s = String::from_str(prefix);
    let digits = decimal(i);
    s.append(digits.as_str());
    s
}

} // verus!
