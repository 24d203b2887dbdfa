//! Generation of fresh names from a counter.
use vstd::prelude::*;
use vstd::string::StringExecFns;
use crate::syntax::Ident;

verus! {

broadcast use vstd::string::group_string_axioms;

/// The character of a decimal digit.
pub open spec fn digit_char(d: nat) -> char {
    if d == 0 {
        '0'
    } else if d == 1 {
        '1'
    } else if d == 2 {
        '2'
    } else if d == 3 {
        '3'
    } else if d == 4 {
        '4'
    } else if d == 5 {
        '5'
    } else if d == 6 {
        '6'
    } else if d == 7 {
        '7'
    } else if d == 8 {
        '8'
    } else {
        '9'
    }
}

/// The decimal representation of `n`, without leading zeros.
pub open spec fn decimal(n: nat) -> Seq<char>
    decreases n,
{
    if n < 10 {
        seq![digit_char(n)]
    } else {
        decimal(n / 10) + seq![digit_char(n % 10)]
    }
}

/// A character is a decimal digit.
pub open spec fn is_digit(c: char) -> bool {
    '0' <= c <= '9'
}

/// The name formed from `base`, a dot and the decimal form of `n`.
pub open spec fn dotted_name(base: Seq<char>, n: nat) -> Seq<char> {
    base + "."@ + decimal(n)
}

/// The name formed from `prefix`, a dollar sign and the decimal form of `n`.
pub open spec fn dollar_name(prefix: Seq<char>, n: nat) -> Seq<char> {
    prefix + "$"@ + decimal(n)
}

/// Every character of a decimal representation is a digit, and it is not empty.
pub proof fn lemma_decimal_digits(n: nat)
    ensures
        decimal(n).len() >= 1,
        forall|i: int| 0 <= i < decimal(n).len() ==> is_digit(#[trigger] decimal(n)[i]),
        n >= 10 ==> decimal(n).len() >= 2,
    decreases n,
{
    if n >= 10 {
        lemma_decimal_digits(n / 10);
        let d = decimal(n);
        assert forall|i: int| 0 <= i < d.len() implies is_digit(#[trigger] d[i]) by {
            if i < decimal(n / 10).len() {
                assert(d[i] == decimal(n / 10)[i]);
            }
        }
    }
}

/// Distinct numbers have distinct decimal representations.
pub proof fn lemma_decimal_injective(a: nat, b: nat)
    requires
        decimal(a) == decimal(b),
    ensures
        a == b,
    decreases a,
{
    lemma_decimal_digits(a);
    lemma_decimal_digits(b);
    let da = decimal(a);
    if a < 10 && b < 10 {
        assert(da[0] == decimal(b)[0]);
    } else if a >= 10 && b >= 10 {
        let pa = decimal(a / 10);
        let pb = decimal(b / 10);
        assert(da.last() == digit_char(a % 10));
        assert(decimal(b).last() == digit_char(b % 10));
        assert(da.drop_last() =~= pa);
        assert(decimal(b).drop_last() =~= pb);
        lemma_decimal_injective(a / 10, b / 10);
    }
}

/// Names made of a base, a dot and a number differ when the numbers differ.
pub proof fn lemma_dotted_name_distinct(b1: Seq<char>, n1: nat, b2: Seq<char>, n2: nat)
    requires
        n1 != n2,
    ensures
        dotted_name(b1, n1) != dotted_name(b2, n2),
{
    reveal_strlit(".");
    lemma_decimal_digits(n1);
    lemma_decimal_digits(n2);
    let s1 = dotted_name(b1, n1);
    let s2 = dotted_name(b2, n2);
    let d1 = decimal(n1);
    let d2 = decimal(n2);
    if s1 == s2 {
        let len = s1.len();
        if d1.len() == d2.len() {
            assert forall|i: int| 0 <= i < d1.len() implies d1[i] == d2[i] by {
                assert(s1[len - d1.len() + i] == d1[i]);
                assert(s2[len - d2.len() + i] == d2[i]);
            }
            assert(d1 =~= d2);
            lemma_decimal_injective(n1, n2);
        } else if d1.len() < d2.len() {
            assert(s1[len - d1.len() - 1] == '.');
            assert(s2[len - d1.len() - 1] == d2[d2.len() - d1.len() - 1]);
            assert(is_digit(d2[d2.len() - d1.len() - 1]));
        } else {
            assert(s2[len - d2.len() - 1] == '.');
            assert(s1[len - d2.len() - 1] == d1[d1.len() - d2.len() - 1]);
            assert(is_digit(d1[d1.len() - d2.len() - 1]));
        }
    }
}

/// Names made of one prefix, a dollar sign and a number differ when the
/// numbers differ.
pub proof fn lemma_dollar_name_injective(prefix: Seq<char>, n1: nat, n2: nat)
    requires
        dollar_name(prefix, n1) == dollar_name(prefix, n2),
    ensures
        n1 == n2,
{
    reveal_strlit("$");
    let s1 = dollar_name(prefix, n1);
    let s2 = dollar_name(prefix, n2);
    let start = prefix.len() + 1;
    assert(s1.subrange(start as int, s1.len() as int) =~= decimal(n1));
    assert(s2.subrange(start as int, s2.len() as int) =~= decimal(n2));
    lemma_decimal_injective(n1, n2);
}

/// The one-character string of a decimal digit.
fn digit_str(d: u64) -> (s: &'static str)
    requires
        d < 10,
    ensures
        s@ == seq![digit_char(d as nat)],
{
    if d == 0 {
        proof { reveal_strlit("0"); }
        "0"
    } else if d == 1 {
        proof { reveal_strlit("1"); }
        "1"
    } else if d == 2 {
        proof { reveal_strlit("2"); }
        "2"
    } else if d == 3 {
        proof { reveal_strlit("3"); }
        "3"
    } else if d == 4 {
        proof { reveal_strlit("4"); }
        "4"
    } else if d == 5 {
        proof { reveal_strlit("5"); }
        "5"
    } else if d == 6 {
        proof { reveal_strlit("6"); }
        "6"
    } else if d == 7 {
        proof { reveal_strlit("7"); }
        "7"
    } else if d == 8 {
        proof { reveal_strlit("8"); }
        "8"
    } else {
        proof { reveal_strlit("9"); }
        "9"
    }
}

/// The decimal representation of `n` as a string.
pub fn decimal_string(n: u64) -> (s: String)
    ensures
        s@ == decimal(n as nat),
    decreases n,
{
    if n < 10 {
        digit_str(n).to_string()
    } else {
        let mut s = decimal_string(n / 10);
        s.append(digit_str(n % 10));
        s
    }
}

/// A generator of fresh names, numbered by a counter.
pub struct Gensym(u64);

impl View for Gensym {
    type V = nat;

    closed spec fn view(&self) -> nat {
        self.0 as nat
    }
}

impl Gensym {
    /// A generator whose counter starts at zero.
    pub fn new() -> (g: Self)
        ensures
            g@ == 0,
    {
        Gensym(0)
    }

    /// A fresh name `$n` for the current counter `n`; the counter moves on.
    pub fn fresh(&mut self) -> (name: Ident)
        requires
            old(self)@ < u64::MAX,
        ensures
            name@ == dollar_name(Seq::empty(), old(self)@),
            final(self)@ == old(self)@ + 1,
    {
        proof { reveal_strlit("$"); }
        let mut name = "$".to_string();
        let digits = decimal_string(self.0);
        name.append(digits.as_str());
        self.0 += 1;
        assert(name@ =~= dollar_name(Seq::empty(), old(self)@));
        name
    }

    /// The name `name.n` for the current counter `n`; the counter moves on.
    pub fn inc_fresh(&mut self, name: &str) -> (r: Ident)
        requires
            old(self)@ < u64::MAX,
        ensures
            r@ == dotted_name(name@, old(self)@),
            final(self)@ == old(self)@ + 1,
    {
        let id = self.0;
        self.0 += 1;
        let mut r = name.to_string();
        r.append(".");
        let digits = decimal_string(id);
        r.append(digits.as_str());
        r
    }

    /// The name `prefix$n` for the current counter `n`; the counter moves on.
    pub fn fresh_with_prefix(&mut self, prefix: &str) -> (r: Ident)
        requires
            old(self)@ < u64::MAX,
        ensures
            r@ == dollar_name(prefix@, old(self)@),
            final(self)@ == old(self)@ + 1,
    {
        let mut r = prefix.to_string();
        r.append("$");
        let digits = decimal_string(self.0);
        r.append(digits.as_str());
        self.0 += 1;
        r
    }
}

} // verus!
