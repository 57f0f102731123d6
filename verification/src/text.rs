//! Decimal text: rendering an integer as decimal digits and reading it back.
//!
//! The counter-state file and the wallpaper file names both carry a counter as
//! plain decimal text, so both the renderer and the parser live here, together
//! with the round-trip law that ties them.

use vstd::prelude::*;

verus! {

/// The character standing for one decimal digit value.
pub open spec fn digit_char(d: nat) -> char
    recommends
        d < 10,
{
    if d == 0 {
        '0'
    } else if d == 1 {
        '1'
    } else if d == 2 {
        '2'
    } else if d == 3 {
        '3'
    } else if d == 4 {
        '4'
    } else if d == 5 {
        '5'
    } else if d == 6 {
        '6'
    } else if d == 7 {
        '7'
    } else if d == 8 {
        '8'
    } else {
        '9'
    }
}

/// Decimal representation of `n`: most significant digit first, no leading
/// zeros, the single digit `'0'` for zero.
pub open spec fn dec_chars(n: nat) -> Seq<char>
    decreases n,
{
    if n < 10 {
        seq![digit_char(n)]
    } else {
        dec_chars(n / 10) + seq![digit_char(n % 10)]
    }
}

pub open spec fn is_digit(c: char) -> bool {
    '0' <= c && c <= '9'
}

/// Numeric value of one digit character.
pub open spec fn digit_val(c: char) -> nat
    recommends
        is_digit(c),
{
    ((c as int) - ('0' as int)) as nat
}

pub open spec fn all_digits(s: Seq<char>) -> bool {
    forall|i: int| 0 <= i < s.len() ==> is_digit(#[trigger] s[i])
}

/// Value of a digit string read as a decimal number (0 for the empty string).
pub open spec fn dec_val(s: Seq<char>) -> nat
    recommends
        all_digits(s),
    decreases s.len(),
{
    if s.len() == 0 {
        0
    } else {
        dec_val(s.drop_last()) * 10 + digit_val(s.last())
    }
}

/// The whitespace the parser strips from both ends of the stored text.
pub open spec fn is_space(c: char) -> bool {
    c == ' ' || c == '\t' || c == '\n' || c == '\r'
}

pub open spec fn trim_front(s: Seq<char>) -> Seq<char>
    decreases s.len(),
{
    if s.len() > 0 && is_space(s[0]) {
        trim_front(s.drop_first())
    } else {
        s
    }
}

pub open spec fn trim_back(s: Seq<char>) -> Seq<char>
    decreases s.len(),
{
    if s.len() > 0 && is_space(s.last()) {
        trim_back(s.drop_last())
    } else {
        s
    }
}

/// The text with leading and trailing whitespace removed.
pub open spec fn trimmed(s: Seq<char>) -> Seq<char> {
    trim_back(trim_front(s))
}

/// What parsing trimmed text as an unsigned decimal number yields: a value
/// exactly when the text is a nonempty run of digits whose value is wanted.
pub open spec fn dec_parse(s: Seq<char>) -> Option<nat> {
    let t = trimmed(s);
    if t.len() > 0 && all_digits(t) {
        Some(dec_val(t))
    } else {
        None
    }
}

fn digit_str(d: u8) -> (r: &'static str)
    requires
        d < 10,
    ensures
        r@ =~= seq![digit_char(d as nat)],
{
    proof {
        reveal_strlit("0");
        reveal_strlit("1");
        reveal_strlit("2");
        reveal_strlit("3");
        reveal_strlit("4");
        reveal_strlit("5");
        reveal_strlit("6");
        reveal_strlit("7");
        reveal_strlit("8");
        reveal_strlit("9");
    }
    match d {
        0 => "0",
        1 => "1",
        2 => "2",
        3 => "3",
        4 => "4",
        5 => "5",
        6 => "6",
        7 => "7",
        8 => "8",
        _ => "9",
    }
}

/// Renders `n` as decimal text, exactly as `dec_chars` describes it.
pub fn u64_to_dec_string(n: u64) -> (s: String)
    ensures
        s@ == dec_chars(n as nat),
    decreases n,
{
    if n < 10 {
        String::from_str(digit_str(n as u8))
    } else {
        proof {
            assert(n / 10 < n) by (nonlinear_arith)
                requires
                    n >= 10,
            ;
        }
        let mut s = u64_to_dec_string(n / 10);
        s.append(digit_str((n % 10) as u8));
        s
    }
}

/// Every digit string's value only grows when more digits follow it.
proof fn lemma_dec_val_prefix(s: Seq<char>, k: int)
    requires
        0 <= k <= s.len(),
    ensures
        dec_val(s.take(k)) <= dec_val(s),
    decreases s.len() - k,
{
    if k < s.len() {
        lemma_dec_val_prefix(s, k + 1);
        assert(s.take(k + 1).drop_last() =~= s.take(k));
        assert(s.take(k + 1).last() == s[k]);
        assert(dec_val(s.take(k)) <= dec_val(s.take(k + 1)));
    } else {
        assert(s.take(k) =~= s);
    }
}

/// Parses trimmed decimal text, returning its value when it is a nonempty
/// digit run whose value fits in `u64`, and nothing otherwise.
pub fn parse_dec_u64(s: &str) -> (r: Option<u64>)
    ensures
        match r {
            Some(v) => dec_parse(s@) == Some(v as nat),
            None => dec_parse(s@) is None || dec_parse(s@).unwrap() > u64::MAX,
        },
{
    let len: usize = s.unicode_len();
    let mut i: usize = 0;
    proof {
        assert(s@.skip(0) =~= s@);
    }
    while i < len && is_space_exec(s.get_char(i))
        invariant
            0 <= i <= len,
            len == s@.len(),
            trim_front(s@) == trim_front(s@.skip(i as int)),
        decreases len - i,
    {
        proof {
            assert(s@.skip(i as int).drop_first() =~= s@.skip(i as int + 1));
        }
        i = i + 1;
    }
    proof {
        assert(trim_front(s@.skip(i as int)) =~= s@.skip(i as int));
    }
    let mut j: usize = len;
    while j > i && is_space_exec(s.get_char(j - 1))
        invariant
            i <= j <= len,
            len == s@.len(),
            trim_front(s@) == s@.skip(i as int),
            trim_back(s@.subrange(i as int, j as int)) == trim_back(s@.skip(i as int)),
        decreases j,
    {
        proof {
            assert(s@.subrange(i as int, j as int).last() == s@[j - 1]);
            assert(s@.subrange(i as int, j as int).drop_last() =~= s@.subrange(
                i as int,
                j as int - 1,
            ));
        }
        j = j - 1;
    }
    proof {
        assert(s@.subrange(i as int, len as int) =~= s@.skip(i as int));
        assert(trim_back(s@.subrange(i as int, j as int)) =~= s@.subrange(i as int, j as int));
        assert(trimmed(s@) == s@.subrange(i as int, j as int));
    }
    if i == j {
        return None;
    }
    parse_digits_range(s, i, j)
}

/// Parses the characters of `s` between `from` and `to` as a run of decimal
/// digits: their value exactly when the run is nonempty, every character is a
/// digit and the value fits in `u64`, and nothing otherwise.
pub fn parse_digits_range(s: &str, from: usize, to: usize) -> (r: Option<u64>)
    requires
        from <= to <= s@.len(),
    ensures
        ({
            let t = s@.subrange(from as int, to as int);
            match r {
                Some(v) => t.len() > 0 && all_digits(t) && dec_val(t) == v as nat,
                None => !(t.len() > 0 && all_digits(t) && dec_val(t) <= u64::MAX as nat),
            }
        }),
{
    let ghost t = s@.subrange(from as int, to as int);
    if from == to {
        return None;
    }
    let mut value: u64 = 0;
    let mut k: usize = from;
    while k < to
        invariant
            from <= k <= to <= s@.len(),
            t == s@.subrange(from as int, to as int),
            from < to,
            all_digits(t.take(k - from)),
            value as nat == dec_val(t.take(k - from)),
        decreases to - k,
    {
        let c = s.get_char(k);
        proof {
            assert(t[k - from] == s@[k as int]);
        }
        if c < '0' || c > '9' {
            proof {
                assert(!is_digit(t[k - from]));
            }
            return None;
        }
        let d: u32 = (c as u32) - ('0' as u32);
        proof {
            assert(t.take(k - from + 1).drop_last() =~= t.take(k - from));
            assert(t.take(k - from + 1).last() == t[k - from]);
        }
        if value > (u64::MAX - (d as u64)) / 10 {
            proof {
                assert(dec_val(t.take(k - from + 1)) > u64::MAX) by (nonlinear_arith)
                    requires
                        dec_val(t.take(k - from + 1)) == dec_val(t.take(k - from)) * 10 + digit_val(
                            t[k - from],
                        ),
                        digit_val(t[k - from]) == d,
                        d <= 9,
                        dec_val(t.take(k - from)) == value,
                        value > (u64::MAX - (d as u64)) / 10,
                ;
                lemma_dec_val_prefix(t, k - from + 1);
            }
            return None;
        }
        proof {
            assert(value * 10 + d <= u64::MAX) by (nonlinear_arith)
                requires
                    value <= (u64::MAX - (d as u64)) / 10,
                    d <= 9,
            ;
        }
        value = value * 10 + (d as u64);
        k = k + 1;
    }
    proof {
        assert(t.take(to - from) =~= t);
    }
    Some(value)
}

fn is_space_exec(c: char) -> (r: bool)
    ensures
        r == is_space(c),
{
    c == ' ' || c == '\t' || c == '\n' || c == '\r'
}

/// The decimal rendering of any number is a nonempty digit run with that very
/// value and no surrounding whitespace: parsing what was rendered gives the
/// number back.
pub proof fn lemma_dec_roundtrip(n: nat)
    ensures
        dec_chars(n).len() >= 1,
        all_digits(dec_chars(n)),
        dec_val(dec_chars(n)) == n,
        dec_parse(dec_chars(n)) == Some(n),
    decreases n,
{
    if n < 10 {
        assert(dec_chars(n) =~= seq![digit_char(n)]);
        assert(dec_chars(n).drop_last() =~= Seq::<char>::empty());
        assert(dec_val(Seq::<char>::empty()) == 0);
        assert(dec_chars(n).last() == digit_char(n));
        assert(dec_val(dec_chars(n)) == digit_val(digit_char(n)));
    } else {
        lemma_dec_roundtrip(n / 10);
        let s = dec_chars(n);
        assert(s.drop_last() =~= dec_chars(n / 10));
        assert(s.last() == digit_char(n % 10));
        assert(dec_val(s) == (n / 10) * 10 + digit_val(digit_char(n % 10)));
        assert(digit_val(digit_char(n % 10)) == n % 10);
        assert((n / 10) * 10 + n % 10 == n) by (nonlinear_arith);
    }
    lemma_dec_chars_no_space(n);
    assert(trim_front(dec_chars(n)) == dec_chars(n));
    assert(trim_back(dec_chars(n)) == dec_chars(n));
}

proof fn lemma_dec_chars_no_space(n: nat)
    ensures
        forall|i: int|
            0 <= i < dec_chars(n).len() ==> is_digit(#[trigger] dec_chars(n)[i]) && !is_space(
                dec_chars(n)[i],
            ),
    decreases n,
{
    let s = dec_chars(n);
    if n < 10 {
        assert(s =~= seq![digit_char(n)]);
        assert(s[0] == digit_char(n));
        assert(is_digit(digit_char(n)) && !is_space(digit_char(n)));
    } else {
        lemma_dec_chars_no_space(n / 10);
        let a = dec_chars(n / 10);
        assert(s =~= a + seq![digit_char(n % 10)]);
        assert forall|i: int| 0 <= i < s.len() implies is_digit(#[trigger] s[i]) && !is_space(
            s[i],
        ) by {
            if i < a.len() {
                assert(s[i] == a[i]);
            } else {
                assert(s[i] == digit_char(n % 10));
            }
        }
    }
}

} // verus!
