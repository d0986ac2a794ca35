//! Decimal numbers and ASCII case folding on text.

use vstd::prelude::*;

verus! {

/// The text of an optional string.
pub open spec fn opt_text(o: Option<String>) -> Option<Seq<char>> {
    match o {
        Some(s) => Some(s@),
        None => None,
    }
}

/// The texts of a list of paths given as component lists.
pub open spec fn path_texts(paths: Seq<Vec<String>>) -> Seq<Seq<Seq<char>>> {
    paths.map_values(|p: Vec<String>| p@.map_values(|c: String| c@))
}

/// The character of a decimal digit `0..=9`.
pub open spec fn digit_char(d: nat) -> char {
    (d + 48) as char
}

/// Whether `c` is an ASCII decimal digit.
pub open spec fn is_digit(c: char) -> bool {
    48 <= (c as int) <= 57
}

/// The value of an ASCII decimal digit.
pub open spec fn digit_value(c: char) -> nat {
    ((c as int) - 48) as nat
}

/// The decimal representation of `n`, without sign or leading zeros.
pub open spec fn decimal(n: nat) -> Seq<char>
    decreases n,
{
    if n < 10 {
        seq![digit_char(n)]
    } else {
        decimal(n / 10).push(digit_char(n % 10))
    }
}

/// The value of a string of decimal digits (0 for the empty string).
pub open spec fn digits_value(s: Seq<char>) -> nat
    decreases s.len(),
{
    if s.len() == 0 {
        0
    } else {
        digits_value(s.drop_last()) * 10 + digit_value(s.last())
    }
}

/// Every character of `s` is a decimal digit.
pub open spec fn all_digits(s: Seq<char>) -> bool {
    forall|i: int| 0 <= i < s.len() ==> is_digit(#[trigger] s[i])
}

/// The digits of an unsigned number text: one leading `+` is dropped.
pub open spec fn unsigned_digits(s: Seq<char>) -> Seq<char> {
    if s.len() > 0 && s[0] == '+' {
        s.drop_first()
    } else {
        s
    }
}

/// How `str::parse::<u64>` reads a text: an optional `+`, then one or more
/// ASCII digits whose value fits in a `u64`.
pub open spec fn parsed_u64(s: Seq<char>) -> Option<u64> {
    let d = unsigned_digits(s);
    if d.len() > 0 && all_digits(d) && digits_value(d) <= u64::MAX {
        Some(digits_value(d) as u64)
    } else {
        None
    }
}

/// ASCII lowercase of one character; other characters are unchanged.
pub open spec fn ascii_lower(c: char) -> char {
    if 65 <= (c as int) <= 90 {
        ((c as int) + 32) as char
    } else {
        c
    }
}

/// ASCII lowercase of a text.
pub open spec fn ascii_lowercase(s: Seq<char>) -> Seq<char> {
    s.map_values(|c: char| ascii_lower(c))
}

/// A one-character text holding the digit `d`.
fn digit_str(d: u64) -> (s: &'static str)
    requires
        d < 10,
    ensures
        s@ == seq![digit_char(d as nat)],
{
    if d == 0 {
        proof { reveal_strlit("0"); }
        "0"
    } else if d == 1 {
        proof { reveal_strlit("1"); }
        "1"
    } else if d == 2 {
        proof { reveal_strlit("2"); }
        "2"
    } else if d == 3 {
        proof { reveal_strlit("3"); }
        "3"
    } else if d == 4 {
        proof { reveal_strlit("4"); }
        "4"
    } else if d == 5 {
        proof { reveal_strlit("5"); }
        "5"
    } else if d == 6 {
        proof { reveal_strlit("6"); }
        "6"
    } else if d == 7 {
        proof { reveal_strlit("7"); }
        "7"
    } else if d == 8 {
        proof { reveal_strlit("8"); }
        "8"
    } else {
        proof { reveal_strlit("9"); }
        "9"
    }
}

/// Formats `n` in decimal, as `format!("{n}")` does.
pub fn decimal_string(n: u64) -> (s: String)
    ensures
        s@ == decimal(n as nat),
    decreases n,
{
    let d = digit_str(n % 10);
    if n < 10 {
        String::from_str(d)
    } else {
        let mut s = decimal_string(n / 10);
        s.append(d);
        s
    }
}

proof fn lemma_digits_value_prefix(s: Seq<char>, j: int, k: int)
    requires
        0 <= j <= k <= s.len(),
    ensures
        digits_value(s.take(j)) <= digits_value(s.take(k)),
    decreases k - j,
{
    if j < k {
        lemma_digits_value_prefix(s, j, k - 1);
        assert(s.take(k).drop_last() =~= s.take(k - 1));
    }
}

/// Reads an unsigned decimal number as `str::parse::<u64>` does: an optional
/// leading `+`, then ASCII digits only, with no overflow.
pub fn parse_u64(text: &str) -> (r: Option<u64>)
    ensures
        r == parsed_u64(text@),
{
    let n = text.unicode_len();
    let ghost s = text@;
    let start: usize = if n > 0 && text.get_char(0) == '+' { 1 } else { 0 };
    let ghost d = unsigned_digits(s);
    assert(d =~= s.skip(start as int));
    if start >= n {
        return None;
    }
    let mut acc: u64 = 0;
    let mut i: usize = start;
    assert(d.take(0) =~= Seq::<char>::empty());
    while i < n
        invariant
            n == s.len(),
            s == text@,
            start <= i <= n,
            d == s.skip(start as int),
            d == unsigned_digits(s),
            d.len() == n - start,
            acc as nat == digits_value(d.take(i - start)),
            all_digits(d.take(i - start)),
        decreases n - i,
    {
        let c = text.get_char(i);
        let ghost k: int = i - start;
        assert(d[k] == c);
        if !('0' <= c && c <= '9') {
            assert(!is_digit(d[k]));
            assert(!all_digits(d));
            return None;
        }
        assert(d.take(k + 1).drop_last() =~= d.take(k));
        assert(d.take(k + 1).last() == c);
        let v = (c as u64) - 48;
        assert(digits_value(d.take(k + 1)) == digits_value(d.take(k)) * 10 + v);
        match acc.checked_mul(10) {
            Some(m) => match m.checked_add(v) {
                Some(next) => {
                    acc = next;
                },
                None => {
                    proof {
                        lemma_digits_value_prefix(d, k + 1, d.len() as int);
                        assert(d.take(d.len() as int) =~= d);
                    }
                    return None;
                },
            },
            None => {
                proof {
                    lemma_digits_value_prefix(d, k + 1, d.len() as int);
                    assert(d.take(d.len() as int) =~= d);
                }
                return None;
            },
        }
        assert(all_digits(d.take(k + 1))) by {
            assert forall|j: int| 0 <= j < k + 1 implies is_digit(#[trigger] d.take(k + 1)[j]) by {
                if j < k {
                    assert(d.take(k + 1)[j] == d.take(k)[j]);
                }
            }
        }
        i = i + 1;
    }
    assert(d.take(n - start) =~= d);
    Some(acc)
}

/// Whether `text`, folded to ASCII lowercase, equals `lower`.
pub fn equals_ascii_lowercase(text: &str, lower: &str) -> (r: bool)
    ensures
        r == (ascii_lowercase(text@) == lower@),
{
    let n = text.unicode_len();
    let m = lower.unicode_len();
    if n != m {
        assert(ascii_lowercase(text@).len() != lower@.len());
        return false;
    }
    let mut i: usize = 0;
    while i < n
        invariant
            n == text@.len(),
            n == lower@.len(),
            i <= n,
            forall|j: int| 0 <= j < i ==> ascii_lower(text@[j]) == lower@[j],
        decreases n - i,
    {
        let c = text.get_char(i);
        let folded = if 'A' <= c && c <= 'Z' { ((c as u8) + 32) as char } else { c };
        assert(folded == ascii_lower(c));
        if folded != lower.get_char(i) {
            assert(ascii_lowercase(text@)[i as int] != lower@[i as int]);
            return false;
        }
        i = i + 1;
    }
    assert(ascii_lowercase(text@) =~= lower@);
    true
}

proof fn lemma_digit_char(d: nat)
    requires
        d < 10,
    ensures
        is_digit(digit_char(d)),
        digit_value(digit_char(d)) == d,
        digit_char(d) != '+',
{
    assert((d + 48) as char as int == d + 48);
}

proof fn lemma_decimal_digits(n: nat)
    ensures
        decimal(n).len() > 0,
        all_digits(decimal(n)),
        digits_value(decimal(n)) == n,
    decreases n,
{
    if n < 10 {
        lemma_digit_char(n);
        assert(decimal(n).drop_last() =~= Seq::<char>::empty());
        assert(digits_value(Seq::<char>::empty()) == 0);
        assert(decimal(n).last() == digit_char(n));
    } else {
        lemma_decimal_digits(n / 10);
        lemma_digit_char(n % 10);
        let s = decimal(n);
        assert(s.drop_last() =~= decimal(n / 10));
        assert(s.last() == digit_char(n % 10));
        assert(digits_value(s) == digits_value(decimal(n / 10)) * 10 + digit_value(s.last()));
        assert((n / 10) * 10 + n % 10 == n);
        assert forall|i: int| 0 <= i < s.len() implies is_digit(#[trigger] s[i]) by {
            if i < s.len() - 1 {
                assert(s[i] == decimal(n / 10)[i]);
            }
        }
    }
}

/// A number written in decimal reads back as the same number: what the log
/// lines and URLs print, the number parser accepts and returns unchanged.
pub proof fn decimal_reads_back(n: u64)
    ensures
        parsed_u64(decimal(n as nat)) == Some(n),
{
    lemma_decimal_digits(n as nat);
    let s = decimal(n as nat);
    assert(is_digit(s[0]));
    assert(s[0] != '+');
    assert(unsigned_digits(s) == s);
}

/// Folding to ASCII lowercase keeps the length, turns `A`–`Z` into `a`–`z`
/// and leaves every other character as it is.
pub proof fn lowercase_folds_only_capitals(s: Seq<char>)
    ensures
        ascii_lowercase(s).len() == s.len(),
        forall|i: int|
            0 <= i < s.len() && 65 <= (s[i] as int) <= 90 ==> (#[trigger] ascii_lowercase(s)[i] as int)
                == (s[i] as int) + 32,
        forall|i: int|
            0 <= i < s.len() && !(65 <= (s[i] as int) <= 90) ==> #[trigger] ascii_lowercase(s)[i]
                == s[i],
{
    assert forall|i: int| 0 <= i < s.len() && 65 <= (s[i] as int) <= 90 implies (
    #[trigger] ascii_lowercase(s)[i] as int) == (s[i] as int) + 32 by {
        assert(((s[i] as int) + 32) as char as int == (s[i] as int) + 32);
    }
}

} // verus!
