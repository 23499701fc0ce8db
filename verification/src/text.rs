//! Small verified helpers on strings.

use vstd::prelude::*;

verus! {

/// Character-for-character equality of two string slices.
pub fn str_eq(a: &str, b: &str) -> (r: bool)
    ensures
        r == (a@ == b@),
{
    let alen = a.unicode_len();
    let blen = b.unicode_len();
    if alen != blen {
        return false;
    }
    let mut i: usize = 0;
    while i < alen
        invariant
            alen == a@.len(),
            blen == b@.len(),
            alen == blen,
            i <= alen,
            forall|j: int| 0 <= j < i ==> a@[j] == b@[j],
        decreases alen - i,
    {
        let ca = a.get_char(i);
        let cb = b.get_char(i);
        if ca != cb {
            return false;
        }
        i = i + 1;
    }
    proof {
        assert(a@ =~= b@);
    }
    true
}

/// An ASCII decimal digit.
pub open spec fn is_ascii_digit(c: char) -> bool {
    ('0' as u32) <= (c as u32) && (c as u32) <= ('9' as u32)
}

/// The numeric value of one digit character.
pub open spec fn digit_value(c: char) -> nat {
    ((c as u32) - ('0' as u32)) as nat
}

/// The value of a digit string, most significant digit first.
pub open spec fn decimal_value(s: Seq<char>) -> nat
    decreases s.len(),
{
    if s.len() == 0 {
        0
    } else {
        decimal_value(s.drop_last()) * 10 + digit_value(s.last())
    }
}

/// The digits of a numeral: everything after an optional leading plus.
pub open spec fn numeral_digits(s: Seq<char>) -> Seq<char> {
    if s.len() > 0 && s[0] == '+' {
        s.drop_first()
    } else {
        s
    }
}

/// What parsing a string as an unsigned number yields: the value of its
/// digits when, after an optional leading plus, the string is a nonempty
/// run of ASCII digits whose value fits, and nothing otherwise.
pub open spec fn parsed_usize(s: Seq<char>) -> Option<usize> {
    let d = numeral_digits(s);
    if d.len() > 0 && (forall|i: int| 0 <= i < d.len() ==> is_ascii_digit(#[trigger] d[i]))
        && decimal_value(d) <= usize::MAX {
        Some(decimal_value(d) as usize)
    } else {
        None
    }
}

/// A longer digit string is worth at least as much as any of its prefixes.
proof fn lemma_decimal_value_prefix(d: Seq<char>, i: int)
    requires
        0 <= i <= d.len(),
    ensures
        decimal_value(d.subrange(0, i)) <= decimal_value(d),
    decreases d.len(),
{
    if i == d.len() {
        assert(d.subrange(0, i) =~= d);
    } else {
        lemma_decimal_value_prefix(d.drop_last(), i);
        assert(d.subrange(0, i) =~= d.drop_last().subrange(0, i));
    }
}

/// Parses a string as an unsigned decimal number, exactly as
/// `parsed_usize` reads it.
pub fn parse_usize(s: &str) -> (r: Option<usize>)
    ensures
        r == parsed_usize(s@),
{
    let n = s.unicode_len();
    if n == 0 {
        return None;
    }
    let first = s.get_char(0);
    let start: usize = if first == '+' {
        1
    } else {
        0
    };
    proof {
        assert(numeral_digits(s@) =~= s@.subrange(start as int, n as int));
    }
    if start == n {
        return None;
    }
    let mut acc: u128 = 0;
    let mut i: usize = start;
    while i < n
        invariant
            n == s@.len(),
            0 < n,
            start <= i <= n,
            start <= 1,
            numeral_digits(s@) =~= s@.subrange(start as int, n as int),
            forall|j: int| start <= j < i ==> is_ascii_digit(#[trigger] s@[j]),
            acc == decimal_value(s@.subrange(start as int, i as int)),
            acc <= usize::MAX as u128,
        decreases n - i,
    {
        let c = s.get_char(i);
        let cu = c as u32;
        if cu < '0' as u32 || cu > '9' as u32 {
            proof {
                let d = numeral_digits(s@);
                assert(d[i - start] == s@[i as int]);
                assert(!is_ascii_digit(d[i - start]));
            }
            return None;
        }
        let dv = (cu - '0' as u32) as u128;
        proof {
            let prefix = s@.subrange(start as int, i as int);
            let extended = s@.subrange(start as int, i + 1);
            assert(extended.drop_last() =~= prefix);
            assert(extended.last() == s@[i as int]);
            assert(dv == digit_value(s@[i as int]));
        }
        acc = acc * 10 + dv;
        if acc > usize::MAX as u128 {
            proof {
                let d = numeral_digits(s@);
                lemma_decimal_value_prefix(d, i + 1 - start);
                assert(d.subrange(0, i + 1 - start) =~= s@.subrange(start as int, i + 1));
                assert(decimal_value(d) > usize::MAX);
            }
            return None;
        }
        i = i + 1;
    }
    proof {
        let d = numeral_digits(s@);
        assert(d =~= s@.subrange(start as int, n as int));
        assert(forall|k: int| 0 <= k < d.len() ==> is_ascii_digit(#[trigger] d[k]));
        assert(decimal_value(d) == acc);
    }
    Some(acc as usize)
}

/// The character of one digit.
pub open spec fn digit_char(d: nat) -> char {
    if d == 0 {
        '0'
    } else if d == 1 {
        '1'
    } else if d == 2 {
        '2'
    } else if d == 3 {
        '3'
    } else if d == 4 {
        '4'
    } else if d == 5 {
        '5'
    } else if d == 6 {
        '6'
    } else if d == 7 {
        '7'
    } else if d == 8 {
        '8'
    } else {
        '9'
    }
}

/// The digits of a number, most significant first; zero has none.
pub open spec fn spec_digits(v: nat) -> Seq<char>
    decreases v,
{
    if v == 0 {
        Seq::empty()
    } else {
        spec_digits(v / 10).push(digit_char(v % 10))
    }
}

/// The decimal numeral of a number: its digits, or "0" for zero.
pub open spec fn spec_usize_numeral(v: nat) -> Seq<char> {
    if v == 0 {
        seq!['0']
    } else {
        spec_digits(v)
    }
}

/// The digits of a number are digit characters and are worth the number.
proof fn lemma_spec_digits_value(v: nat)
    ensures
        decimal_value(spec_digits(v)) == v,
        forall|i: int|
            0 <= i < spec_digits(v).len() ==> is_ascii_digit(#[trigger] spec_digits(v)[i]),
        v > 0 ==> spec_digits(v).len() > 0,
    decreases v,
{
    if v > 0 {
        lemma_spec_digits_value(v / 10);
        let s = spec_digits(v);
        assert(s.drop_last() =~= spec_digits(v / 10));
        assert(s.last() == digit_char(v % 10));
        assert(is_ascii_digit(digit_char(v % 10)));
        assert(digit_value(digit_char(v % 10)) == v % 10);
        assert(decimal_value(s) == (v / 10) * 10 + v % 10);
        assert forall|i: int| 0 <= i < s.len() implies is_ascii_digit(#[trigger] s[i]) by {
            if i < s.len() - 1 {
                assert(s[i] == spec_digits(v / 10)[i]);
            }
        }
    }
}

/// Printing a number and parsing the text gives the number back.
pub proof fn lemma_numeral_roundtrip(v: usize)
    ensures
        parsed_usize(spec_usize_numeral(v as nat)) == Some(v),
{
    let s = spec_usize_numeral(v as nat);
    lemma_spec_digits_value(v as nat);
    if v == 0 {
        assert(s =~= seq!['0']);
        assert(s[0] == '0');
        assert(!(s[0] == '+'));
        assert(numeral_digits(s) =~= s);
        assert(s.drop_last() =~= Seq::<char>::empty());
        assert(decimal_value(s) == 0);
        assert(forall|i: int| 0 <= i < s.len() ==> is_ascii_digit(#[trigger] s[i]));
    } else {
        assert(is_ascii_digit(s[0]));
        assert(!(s[0] == '+'));
        assert(numeral_digits(s) =~= s);
    }
}

/// One digit as text.
fn digit_str(d: usize) -> (r: &'static str)
    requires
        d < 10,
    ensures
        r@ == seq![digit_char(d as nat)],
{
    proof {
        reveal_strlit("0");
        reveal_strlit("1");
        reveal_strlit("2");
        reveal_strlit("3");
        reveal_strlit("4");
        reveal_strlit("5");
        reveal_strlit("6");
        reveal_strlit("7");
        reveal_strlit("8");
        reveal_strlit("9");
    }
    let r = match d {
        0 => "0",
        1 => "1",
        2 => "2",
        3 => "3",
        4 => "4",
        5 => "5",
        6 => "6",
        7 => "7",
        8 => "8",
        _ => "9",
    };
    proof {
        assert(r@ =~= seq![digit_char(d as nat)]);
    }
    r
}

/// Writes the digits of a number onto the end of a string.
fn push_digits(v: usize, out: &mut String)
    ensures
        final(out)@ == old(out)@ + spec_digits(v as nat),
    decreases v,
{
    if v == 0 {
        proof {
            assert(out@ =~= old(out)@ + spec_digits(0));
        }
        return;
    }
    push_digits(v / 10, out);
    let d = v % 10;
    out.append(digit_str(d));
    proof {
        assert(out@ =~= old(out)@ + spec_digits(v as nat));
    }
}

/// Renders a number as its decimal numeral.
pub fn usize_to_string(v: usize) -> (r: String)
    ensures
        r@ == spec_usize_numeral(v as nat),
{
    if v == 0 {
        let r = "0".to_owned();
        proof {
            reveal_strlit("0");
            assert(r@ =~= seq!['0']);
        }
        return r;
    }
    let mut out = String::new();
    push_digits(v, &mut out);
    proof {
        assert(out@ =~= spec_digits(v as nat));
    }
    out
}

} // verus!
