//! Verified text helpers: decimal numerals and hex encoding.

use vstd::prelude::*;
use vstd::string::StringExecFns;

verus! {

/// The sixteen digit characters.
pub open spec fn spec_digit_char(n: int) -> char {
    if n == 0 {
        '0'
    } else if n == 1 {
        '1'
    } else if n == 2 {
        '2'
    } else if n == 3 {
        '3'
    } else if n == 4 {
        '4'
    } else if n == 5 {
        '5'
    } else if n == 6 {
        '6'
    } else if n == 7 {
        '7'
    } else if n == 8 {
        '8'
    } else if n == 9 {
        '9'
    } else if n == 10 {
        'a'
    } else if n == 11 {
        'b'
    } else if n == 12 {
        'c'
    } else if n == 13 {
        'd'
    } else if n == 14 {
        'e'
    } else {
        'f'
    }
}

/// The digit character of a value below sixteen, as a one-character text.
pub fn digit_str(n: u8) -> (r: &'static str)
    requires
        n < 16,
    ensures
        r@ =~= seq![spec_digit_char(n as int)],
{
    proof {
        reveal_strlit("0");
        reveal_strlit("1");
        reveal_strlit("2");
        reveal_strlit("3");
        reveal_strlit("4");
        reveal_strlit("5");
        reveal_strlit("6");
        reveal_strlit("7");
        reveal_strlit("8");
        reveal_strlit("9");
        reveal_strlit("a");
        reveal_strlit("b");
        reveal_strlit("c");
        reveal_strlit("d");
        reveal_strlit("e");
        reveal_strlit("f");
    }
    match n {
        0 => "0",
        1 => "1",
        2 => "2",
        3 => "3",
        4 => "4",
        5 => "5",
        6 => "6",
        7 => "7",
        8 => "8",
        9 => "9",
        10 => "a",
        11 => "b",
        12 => "c",
        13 => "d",
        14 => "e",
        _ => "f",
    }
}

/// The lower-case hex text of a byte sequence, two digits per byte.
pub open spec fn spec_hex(bytes: Seq<u8>) -> Seq<char>
    decreases bytes.len(),
{
    if bytes.len() == 0 {
        Seq::empty()
    } else {
        spec_hex(bytes.drop_last()) + seq![
            spec_digit_char(bytes.last() as int / 16),
            spec_digit_char(bytes.last() as int % 16),
        ]
    }
}

/// Hex-encodes bytes, two lower-case digits per byte.
pub fn hex_encode(bytes: &Vec<u8>) -> (r: String)
    ensures
        r@ == spec_hex(bytes@),
{
    let mut out = String::new();
    let mut i: usize = 0;
    while i < bytes.len()
        invariant
            i <= bytes.len(),
            out@ == spec_hex(bytes@.take(i as int)),
        decreases bytes.len() - i,
    {
        proof {
            assert(bytes@.take(i as int + 1).drop_last() =~= bytes@.take(i as int));
            assert(bytes@.take(i as int + 1).last() == bytes@[i as int]);
        }
        let b = bytes[i];
        out.append(digit_str(b / 16));
        out.append(digit_str(b % 16));
        i += 1;
    }
    proof {
        assert(bytes@.take(bytes@.len() as int) =~= bytes@);
    }
    out
}

/// Whether a character is a decimal digit.
pub open spec fn spec_is_digit(c: char) -> bool {
    '0' <= c && c <= '9'
}

/// The value of a decimal digit character.
pub open spec fn spec_digit_val(c: char) -> int {
    c as int - '0' as int
}

/// Whether every character of a text is a decimal digit.
pub open spec fn spec_all_digits(s: Seq<char>) -> bool {
    forall|i: int| 0 <= i < s.len() ==> spec_is_digit(#[trigger] s[i])
}

/// The value of a decimal numeral.
pub open spec fn spec_dec(s: Seq<char>) -> int
    decreases s.len(),
{
    if s.len() == 0 {
        0
    } else {
        spec_dec(s.drop_last()) * 10 + spec_digit_val(s.last())
    }
}

/// A digit run's value is never negative.
pub proof fn lemma_dec_nonneg(s: Seq<char>)
    requires
        spec_all_digits(s),
    ensures
        spec_dec(s) >= 0,
    decreases s.len(),
{
    if s.len() > 0 {
        assert(spec_all_digits(s.drop_last())) by {
            assert(forall|i: int|
                0 <= i < s.len() - 1 ==> spec_is_digit(#[trigger] s.drop_last()[i]));
        }
        lemma_dec_nonneg(s.drop_last());
    }
}

/// Extending a digit run never shrinks its value.
pub proof fn lemma_dec_prefix_le(s: Seq<char>, j: int)
    requires
        spec_all_digits(s),
        0 <= j <= s.len(),
    ensures
        spec_dec(s.take(j)) <= spec_dec(s),
    decreases s.len() - j,
{
    if j < s.len() {
        lemma_dec_prefix_le(s, j + 1);
        assert(s.take(j + 1).drop_last() =~= s.take(j));
        assert(spec_all_digits(s.take(j))) by {
            assert(forall|i: int| 0 <= i < j ==> spec_is_digit(#[trigger] s.take(j)[i]));
        }
        lemma_dec_nonneg(s.take(j));
        assert(spec_dec(s.take(j + 1)) == spec_dec(s.take(j)) * 10 + spec_digit_val(
            s.take(j + 1).last(),
        ));
    } else {
        assert(s.take(j) =~= s);
    }
}

/// Parses a decimal numeral.  Succeeds exactly on non-empty all-digit
/// texts whose value fits; the result is the numeral's value.
pub fn parse_u32(s: &str) -> (r: Option<u32>)
    ensures
        match r {
            Some(n) => {
                &&& s@.len() > 0
                &&& spec_all_digits(s@)
                &&& n as int == spec_dec(s@)
            },
            None => s@.len() == 0 || !spec_all_digits(s@) || spec_dec(s@) > u32::MAX,
        },
{
    let len = s.unicode_len();
    if len == 0 {
        return None;
    }
    let mut acc: u32 = 0;
    let mut i: usize = 0;
    while i < len
        invariant
            i <= len,
            len == s@.len(),
            spec_all_digits(s@.take(i as int)),
            acc as int == spec_dec(s@.take(i as int)),
        decreases len - i,
    {
        let c = s.get_char(i);
        if c < '0' || c > '9' {
            return None;
        }
        let d = (c as u32) - ('0' as u32);
        proof {
            assert(s@.take(i as int + 1).drop_last() =~= s@.take(i as int));
            assert(s@.take(i as int + 1).last() == s@[i as int]);
            assert(forall|k: int|
                0 <= k < i + 1 ==> spec_is_digit(#[trigger] s@.take(i as int + 1)[k]));
        }
        if acc > (u32::MAX - d) / 10 {
            proof {
                assert(spec_dec(s@.take(i as int + 1)) > u32::MAX);
                if spec_all_digits(s@) {
                    lemma_dec_prefix_le(s@, i as int + 1);
                }
            }
            return None;
        }
        acc = acc * 10 + d;
        i += 1;
    }
    proof {
        assert(s@.take(len as int) =~= s@);
    }
    Some(acc)
}

/// The decimal numeral of a value.
pub open spec fn spec_fmt(n: int) -> Seq<char>
    decreases n,
{
    if n < 0 {
        Seq::empty()
    } else if n < 10 {
        seq![spec_digit_char(n)]
    } else {
        spec_fmt(n / 10) + seq![spec_digit_char(n % 10)]
    }
}

/// Writes a value as a decimal numeral.
pub fn format_u64(n: u64) -> (r: String)
    ensures
        r@ == spec_fmt(n as int),
    decreases n,
{
    if n < 10 {
        let d = digit_str(n as u8);
        let out = d.to_owned();
        proof {
            assert(out@ =~= spec_fmt(n as int));
        }
        out
    } else {
        let mut out = format_u64(n / 10);
        out.append(digit_str((n % 10) as u8));
        proof {
            assert(out@ =~= spec_fmt(n as int));
        }
        out
    }
}

/// A formatted numeral reads back to the value it was written from.
pub proof fn lemma_fmt_dec_roundtrip(n: int)
    requires
        n >= 0,
    ensures
        spec_fmt(n).len() > 0,
        spec_all_digits(spec_fmt(n)),
        spec_dec(spec_fmt(n)) == n,
    decreases n,
{
    if n < 10 {
        let s = seq![spec_digit_char(n)];
        assert(spec_fmt(n) =~= s);
        assert(s.drop_last() =~= Seq::<char>::empty());
        assert(s.last() == spec_digit_char(n));
        assert(spec_dec(s) == spec_dec(s.drop_last()) * 10 + spec_digit_val(s.last()));
        assert(spec_digit_val(spec_digit_char(n)) == n);
    } else {
        lemma_fmt_dec_roundtrip(n / 10);
        let s = spec_fmt(n);
        assert(s =~= spec_fmt(n / 10) + seq![spec_digit_char(n % 10)]);
        assert(s.drop_last() =~= spec_fmt(n / 10));
        assert(spec_all_digits(s)) by {
            assert(forall|i: int|
                0 <= i < s.len() - 1 ==> spec_is_digit(#[trigger] s[i]) && s[i] == spec_fmt(
                    n / 10,
                )[i]);
        }
        vstd::arithmetic::div_mod::lemma_fundamental_div_mod(n, 10);
    }
}

} // verus!
