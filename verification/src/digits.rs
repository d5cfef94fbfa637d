//! Canonical decimal rendering and parsing of unsigned counters.
//!
//! The producer publishes its running counter as a decimal string and the
//! analyser parses it back; both directions are verified against the same
//! mathematical description of canonical decimal notation.

use vstd::prelude::*;

verus! {

/// The decimal digit character for a value below ten.
pub open spec fn spec_digit_char(d: int) -> char {
    if d == 0 {
        '0'
    } else if d == 1 {
        '1'
    } else if d == 2 {
        '2'
    } else if d == 3 {
        '3'
    } else if d == 4 {
        '4'
    } else if d == 5 {
        '5'
    } else if d == 6 {
        '6'
    } else if d == 7 {
        '7'
    } else if d == 8 {
        '8'
    } else {
        '9'
    }
}

/// The numeric value of a decimal digit character; ten for anything else.
pub open spec fn spec_digit_val(c: char) -> int {
    if c == '0' {
        0
    } else if c == '1' {
        1
    } else if c == '2' {
        2
    } else if c == '3' {
        3
    } else if c == '4' {
        4
    } else if c == '5' {
        5
    } else if c == '6' {
        6
    } else if c == '7' {
        7
    } else if c == '8' {
        8
    } else if c == '9' {
        9
    } else {
        10
    }
}

pub open spec fn is_digit_char(c: char) -> bool {
    spec_digit_val(c) < 10
}

/// Canonical decimal rendering of `n`, most significant digit first,
/// no sign and no leading zero.
pub open spec fn spec_decimal(n: nat) -> Seq<char>
    decreases n,
{
    if n < 10 {
        seq![spec_digit_char(n as int)]
    } else {
        spec_decimal(n / 10) + seq![spec_digit_char((n % 10) as int)]
    }
}

/// The number denoted by a digit string, most significant digit first.
pub open spec fn spec_dec_value(s: Seq<char>) -> int
    decreases s.len(),
{
    if s.len() == 0 {
        0
    } else {
        spec_dec_value(s.drop_last()) * 10 + spec_digit_val(s.last())
    }
}

pub open spec fn all_digits(s: Seq<char>) -> bool {
    forall|i: int| 0 <= i < s.len() ==> is_digit_char(#[trigger] s[i])
}

/// A string is canonical decimal when it is a non-empty run of digits
/// with no superfluous leading zero.
pub open spec fn is_canonical_decimal(s: Seq<char>) -> bool {
    &&& s.len() > 0
    &&& all_digits(s)
    &&& (s.len() > 1 ==> s[0] != '0')
}

fn digit_str(d: u64) -> (r: &'static str)
    requires
        d < 10,
    ensures
        r@ == seq![spec_digit_char(d as int)],
{
    let s: &'static str = if d == 0 {
        "0"
    } else if d == 1 {
        "1"
    } else if d == 2 {
        "2"
    } else if d == 3 {
        "3"
    } else if d == 4 {
        "4"
    } else if d == 5 {
        "5"
    } else if d == 6 {
        "6"
    } else if d == 7 {
        "7"
    } else if d == 8 {
        "8"
    } else {
        "9"
    };
    proof {
        reveal_strlit("0");
        reveal_strlit("1");
        reveal_strlit("2");
        reveal_strlit("3");
        reveal_strlit("4");
        reveal_strlit("5");
        reveal_strlit("6");
        reveal_strlit("7");
        reveal_strlit("8");
        reveal_strlit("9");
        assert(s@ =~= seq![spec_digit_char(d as int)]);
    }
    s
}

proof fn lemma_digit_char_val(d: int)
    requires
        0 <= d < 10,
    ensures
        spec_digit_val(spec_digit_char(d)) == d,
        is_digit_char(spec_digit_char(d)),
        (spec_digit_char(d) == '0') <==> (d == 0),
{
}

proof fn lemma_dec_value_nonneg(s: Seq<char>)
    ensures
        all_digits(s) ==> spec_dec_value(s) >= 0,
    decreases s.len(),
{
    if s.len() > 0 {
        lemma_dec_value_nonneg(s.drop_last());
        if all_digits(s) {
            assert(all_digits(s.drop_last())) by {
                assert(forall|i: int|
                    0 <= i < s.drop_last().len() ==> s.drop_last()[i] == #[trigger] s[i]);
            }
        }
    }
}

proof fn lemma_all_digits_take(s: Seq<char>, i: int)
    requires
        0 <= i <= s.len(),
        all_digits(s),
    ensures
        all_digits(s.take(i)),
{
    assert(forall|k: int| 0 <= k < i ==> s.take(i)[k] == #[trigger] s[k]);
}

/// Appending digits can only grow the denoted value.
proof fn lemma_dec_value_mono(s: Seq<char>, i: int, j: int)
    requires
        0 <= i <= j <= s.len(),
        all_digits(s),
    ensures
        spec_dec_value(s.take(i)) <= spec_dec_value(s.take(j)),
    decreases j - i,
{
    if i < j {
        lemma_dec_value_mono(s, i, j - 1);
        assert(s.take(j).drop_last() =~= s.take(j - 1));
        lemma_all_digits_take(s, j - 1);
        lemma_dec_value_nonneg(s.take(j - 1));
        assert(spec_dec_value(s.take(j)) == spec_dec_value(s.take(j - 1)) * 10 + spec_digit_val(
            s.take(j).last(),
        ));
        assert(is_digit_char(s[j - 1]));
    }
}

/// Render `n` in canonical decimal.
pub fn u64_to_decimal(n: u64) -> (s: String)
    ensures
        s@ == spec_decimal(n as nat),
    decreases n,
{
    if n < 10 {
        let s = String::from_str(digit_str(n));
        proof {
            assert(s@ =~= spec_decimal(n as nat));
        }
        s
    } else {
        let mut s = u64_to_decimal(n / 10);
        s.append(digit_str(n % 10));
        proof {
            assert(s@ =~= spec_decimal(n as nat));
        }
        s
    }
}

fn digit_value(c: char) -> (r: Option<u64>)
    ensures
        (r is Some) <==> is_digit_char(c),
        r matches Some(v) ==> v as int == spec_digit_val(c),
{
    if c == '0' {
        Some(0)
    } else if c == '1' {
        Some(1)
    } else if c == '2' {
        Some(2)
    } else if c == '3' {
        Some(3)
    } else if c == '4' {
        Some(4)
    } else if c == '5' {
        Some(5)
    } else if c == '6' {
        Some(6)
    } else if c == '7' {
        Some(7)
    } else if c == '8' {
        Some(8)
    } else if c == '9' {
        Some(9)
    } else {
        None
    }
}

/// Parse a canonical decimal string into a `u64`.
///
/// Returns `Some` exactly on non-empty digit runs without a superfluous
/// leading zero whose value fits in a `u64`; anything else — the producer
/// never emits it — is rejected.
pub fn parse_u64(s: &str) -> (r: Option<u64>)
    ensures
        (r is Some) <==> (is_canonical_decimal(s@) && spec_dec_value(s@) <= u64::MAX),
        r matches Some(v) ==> v as int == spec_dec_value(s@),
{
    let len = s.unicode_len();
    if len == 0 {
        return None;
    }
    if len > 1 && s.get_char(0) == '0' {
        return None;
    }
    let mut acc: u64 = 0;
    let mut i: usize = 0;
    while i < len
        invariant
            0 <= i <= len,
            len == s@.len(),
            s@.len() > 0,
            s@.len() > 1 ==> s@[0] != '0',
            all_digits(s@.take(i as int)),
            acc as int == spec_dec_value(s@.take(i as int)),
        decreases len - i,
    {
        let c = s.get_char(i);
        match digit_value(c) {
            None => {
                proof {
                    assert(!all_digits(s@)) by {
                        assert(s@[i as int] == c);
                    }
                }
                return None;
            },
            Some(dv) => {
                proof {
                    assert(s@.take(i as int + 1).drop_last() =~= s@.take(i as int));
                    assert(s@.take(i as int + 1).last() == s@[i as int]);
                    assert(spec_dec_value(s@.take(i as int + 1)) == acc as int * 10 + dv as int);
                }
                if acc > (u64::MAX - dv) / 10 {
                    proof {
                        vstd::arithmetic::div_mod::lemma_fundamental_div_mod(
                            (u64::MAX - dv) as int,
                            10,
                        );
                        assert(acc as int * 10 + dv as int > u64::MAX);
                        if is_canonical_decimal(s@) {
                            lemma_dec_value_mono(s@, i as int + 1, s@.len() as int);
                            assert(s@.take(s@.len() as int) =~= s@);
                            assert(spec_dec_value(s@) > u64::MAX);
                        }
                    }
                    return None;
                }
                proof {
                    vstd::arithmetic::div_mod::lemma_fundamental_div_mod(
                        (u64::MAX - dv) as int,
                        10,
                    );
                }
                acc = acc * 10 + dv;
            },
        }
        i = i + 1;
    }
    proof {
        assert(s@.take(len as int) =~= s@);
    }
    Some(acc)
}

/// Rendering then parsing is the identity: the canonical decimal form of
/// `n` is accepted by the parser and denotes `n` again.
pub proof fn lemma_decimal_round_trip(n: nat)
    ensures
        is_canonical_decimal(spec_decimal(n)),
        spec_dec_value(spec_decimal(n)) == n,
        spec_decimal(n).len() >= 1,
        n >= 10 ==> spec_decimal(n).len() >= 2,
    decreases n,
{
    if n < 10 {
        lemma_digit_char_val(n as int);
        let w = spec_decimal(n);
        assert(w.drop_last() =~= Seq::<char>::empty());
        assert(spec_dec_value(w) == spec_dec_value(w.drop_last()) * 10 + spec_digit_val(w.last()));
    } else {
        lemma_decimal_round_trip(n / 10);
        lemma_digit_char_val((n % 10) as int);
        let p = spec_decimal(n / 10);
        let w = spec_decimal(n);
        assert(w == p + seq![spec_digit_char((n % 10) as int)]);
        assert(w.drop_last() =~= p);
        assert(w.last() == spec_digit_char((n % 10) as int));
        assert(spec_dec_value(w) == spec_dec_value(p) * 10 + (n % 10));
        vstd::arithmetic::div_mod::lemma_fundamental_div_mod(n as int, 10);
        assert(all_digits(w)) by {
            assert(forall|i: int| 0 <= i < p.len() ==> #[trigger] w[i] == p[i]);
            assert(w[w.len() - 1] == spec_digit_char((n % 10) as int));
        }
        assert(w[0] == p[0]);
        if n / 10 < 10 {
            lemma_digit_char_val((n / 10) as int);
            assert(p[0] == spec_digit_char((n / 10) as int));
            assert(p[0] != '0');
        }
    }
}

} // verus!
