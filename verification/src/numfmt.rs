//! Decimal rendering of counts and assembly of report lines.

use vstd::prelude::*;
use vstd::string::StringExecFns;

verus! {

/// The decimal digit character for `d`.
pub open spec fn dec_char(d: nat) -> char {
    if d == 0 {
        '0'
    } else if d == 1 {
        '1'
    } else if d == 2 {
        '2'
    } else if d == 3 {
        '3'
    } else if d == 4 {
        '4'
    } else if d == 5 {
        '5'
    } else if d == 6 {
        '6'
    } else if d == 7 {
        '7'
    } else if d == 8 {
        '8'
    } else {
        '9'
    }
}

/// The decimal numeral of `n`, most significant digit first.
pub open spec fn dec_seq(n: nat) -> Seq<char>
    decreases n,
{
    if n < 10 {
        seq![dec_char(n)]
    } else {
        dec_seq(n / 10).push(dec_char(n % 10))
    }
}

/// Caps an abstract count at what a machine word can hold.
pub open spec fn clamped(n: nat) -> nat {
    if n > usize::MAX {
        usize::MAX as nat
    } else {
        n
    }
}

/// `label` followed by the decimal numeral of `n`.
pub open spec fn count_line(label: Seq<char>, n: nat) -> Seq<char> {
    label + dec_seq(n)
}

/// `label` followed by a fixed word for each of the two outcomes.
pub open spec fn status_line(label: Seq<char>, present: bool, yes: Seq<char>, no: Seq<char>) -> Seq<char> {
    label + (if present {
        yes
    } else {
        no
    })
}

/// Addition that stops at the largest machine word.
pub fn add_clamped(a: usize, b: usize) -> (r: usize)
    ensures
        r as nat == clamped(a as nat + b as nat),
{
    if a <= usize::MAX - b {
        a + b
    } else {
        usize::MAX
    }
}

fn push_digit(s: &mut String, d: usize)
    requires
        d < 10,
    ensures
        final(s)@ == old(s)@.push(dec_char(d as nat)),
{
    proof {
        reveal_strlit("0");
        reveal_strlit("1");
        reveal_strlit("2");
        reveal_strlit("3");
        reveal_strlit("4");
        reveal_strlit("5");
        reveal_strlit("6");
        reveal_strlit("7");
        reveal_strlit("8");
        reveal_strlit("9");
    }
    if d == 0 {
        s.append("0");
    } else if d == 1 {
        s.append("1");
    } else if d == 2 {
        s.append("2");
    } else if d == 3 {
        s.append("3");
    } else if d == 4 {
        s.append("4");
    } else if d == 5 {
        s.append("5");
    } else if d == 6 {
        s.append("6");
    } else if d == 7 {
        s.append("7");
    } else if d == 8 {
        s.append("8");
    } else {
        s.append("9");
    }
    proof {
        assert(s@ =~= old(s)@.push(dec_char(d as nat)));
    }
}

/// Appends the decimal numeral of `n` to `s`.
pub fn append_decimal(s: &mut String, n: usize)
    ensures
        final(s)@ == old(s)@ + dec_seq(n as nat),
    decreases n,
{
    if n < 10 {
        push_digit(s, n);
        proof {
            assert(s@ =~= old(s)@ + dec_seq(n as nat));
        }
    } else {
        append_decimal(s, n / 10);
        push_digit(s, n % 10);
        proof {
            assert(s@ =~= old(s)@ + dec_seq(n as nat));
        }
    }
}

/// Builds `label` followed by the decimal numeral of `n`.
pub fn make_count_line(label: &str, n: usize) -> (r: String)
    ensures
        r@ == count_line(label@, n as nat),
{
    let mut s = label.to_owned();
    append_decimal(&mut s, n);
    s
}

/// Builds `label` followed by `yes` or `no`, after `present`.
pub fn make_status_line(label: &str, present: bool, yes: &str, no: &str) -> (r: String)
    ensures
        r@ == status_line(label@, present, yes@, no@),
{
    let mut s = label.to_owned();
    if present {
        s.append(yes);
    } else {
        s.append(no);
    }
    s
}

} // verus!
