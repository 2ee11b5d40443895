//! Record identifiers: a short prefix followed by the decimal digits of a
//! counter value (`tr0`, `t12`, `col7`, ...).
use vstd::prelude::*;

verus! {

/// The ASCII character of decimal digit `d`.
pub open spec fn digit_char(d: nat) -> char {
    (48 + d) as char
}

/// The decimal representation of `n`, most significant digit first, with
/// no leading zeros (`0` is written `"0"`).
pub open spec fn decimal(n: nat) -> Seq<char>
    decreases n,
{
    if n < 10 {
        seq![digit_char(n)]
    } else {
        decimal(n / 10).push(digit_char(n % 10))
    }
}

/// The identifier made of `prefix` followed by the digits of `n`.
pub open spec fn record_id(prefix: Seq<char>, n: nat) -> Seq<char> {
    prefix + decimal(n)
}

fn digit_str(d: u64) -> (r: &'static str)
    requires
        d < 10,
    ensures
        r@ == seq![digit_char(d as nat)],
{
    proof {
        reveal_strlit("0");
        reveal_strlit("1");
        reveal_strlit("2");
        reveal_strlit("3");
        reveal_strlit("4");
        reveal_strlit("5");
        reveal_strlit("6");
        reveal_strlit("7");
        reveal_strlit("8");
        reveal_strlit("9");
    }
    match d {
        0 => "0",
        1 => "1",
        2 => "2",
        3 => "3",
        4 => "4",
        5 => "5",
        6 => "6",
        7 => "7",
        8 => "8",
        _ => "9",
    }
}

fn append_decimal(s: &mut String, n: u64)
    ensures
        final(s)@ == old(s)@ + decimal(n as nat),
    decreases n,
{
    if n >= 10 {
        append_decimal(s, n / 10);
    }
    s.append(digit_str(n % 10));
    proof {
        if n >= 10 {
            assert(old(s)@ + decimal((n / 10) as nat) + seq![digit_char((n % 10) as nat)] =~= old(s)@
                + decimal(n as nat));
        } else {
            assert(decimal(n as nat) == seq![digit_char(n as nat)]);
        }
    }
}

/// Formats the identifier `prefix` + decimal digits of `n`, without
/// leading zeros. Record prefixes are short words ("tr", "t", "col",
/// "sec", "guar").
pub(crate) fn format_record_id(prefix: &str, n: u64) -> (r: String)
    ensures
        r@ == record_id(prefix@, n as nat),
{
    let mut s = prefix.to_owned();
    append_decimal(&mut s, n);
    s
}

proof fn lemma_digit_char_injective(a: nat, b: nat)
    requires
        a < 10,
        b < 10,
        digit_char(a) == digit_char(b),
    ensures
        a == b,
{
    assert(digit_char(a) as int == 48 + a);
    assert(digit_char(b) as int == 48 + b);
}

/// Distinct counter values give distinct digit strings.
pub proof fn lemma_decimal_injective(a: nat, b: nat)
    requires
        decimal(a) == decimal(b),
    ensures
        a == b,
    decreases a,
{
    if a < 10 {
        if b >= 10 {
            lemma_decimal_len(b / 10);
            assert(decimal(b).len() >= 2);
        } else {
            assert(decimal(a) == seq![digit_char(a)]);
            assert(decimal(b) == seq![digit_char(b)]);
            assert(decimal(a)[0] == decimal(b)[0]);
            assert(decimal(a)[0] == digit_char(a));
            assert(digit_char(a) == digit_char(b));
            lemma_digit_char_injective(a, b);
        }
    } else {
        lemma_decimal_len(a / 10);
        if b < 10 {
            assert(decimal(a).len() >= 2);
        } else {
            assert(decimal(a).drop_last() == decimal(a / 10));
            assert(decimal(b).drop_last() == decimal(b / 10));
            lemma_decimal_injective(a / 10, b / 10);
            assert(decimal(a) == decimal(a / 10).push(digit_char(a % 10)));
            assert(decimal(b) == decimal(b / 10).push(digit_char(b % 10)));
            assert(decimal(a).last() == decimal(b).last());
            assert(decimal(a).last() == digit_char(a % 10));
            assert(digit_char(a % 10) == digit_char(b % 10));
            lemma_digit_char_injective(a % 10, b % 10);
        }
    }
}

proof fn lemma_decimal_len(n: nat)
    ensures
        decimal(n).len() >= 1,
    decreases n,
{
    if n >= 10 {
        lemma_decimal_len(n / 10);
    }
}

/// Identifiers with the same prefix and different counters differ.
pub proof fn lemma_record_id_injective(prefix: Seq<char>, a: nat, b: nat)
    requires
        record_id(prefix, a) == record_id(prefix, b),
    ensures
        a == b,
{
    let ra = record_id(prefix, a);
    let rb = record_id(prefix, b);
    assert(ra.skip(prefix.len() as int) =~= decimal(a));
    assert(rb.skip(prefix.len() as int) =~= decimal(b));
    lemma_decimal_injective(a, b);
}

} // verus!
