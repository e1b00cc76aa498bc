//! Reading what an operator types: menu choices and fixed-point amounts.
//!
//! The text handed in is one line with surrounding whitespace removed.
use vstd::prelude::*;

verus! {

/// What the operator asks for at the main menu.
#[derive(PartialEq, Eq, Structural, Clone, Copy, Debug)]
pub enum MenuChoice {
    AddSalaried,
    AddHourly,
    AddCommissioned,
    ShowRoster,
    Quit,
}

/// The menu choice that a line names: a single digit from 1 to 5.
pub open spec fn menu_choice_of(s: Seq<char>) -> Option<MenuChoice> {
    if s.len() != 1 {
        None
    } else if s[0] == '1' {
        Some(MenuChoice::AddSalaried)
    } else if s[0] == '2' {
        Some(MenuChoice::AddHourly)
    } else if s[0] == '3' {
        Some(MenuChoice::AddCommissioned)
    } else if s[0] == '4' {
        Some(MenuChoice::ShowRoster)
    } else if s[0] == '5' {
        Some(MenuChoice::Quit)
    } else {
        None
    }
}

/// The menu choice named by `s`, or `None` for anything else.
pub fn parse_menu_choice(s: &str) -> (r: Option<MenuChoice>)
    ensures
        r == menu_choice_of(s@),
{
    if s.unicode_len() != 1 {
        return None;
    }
    let c = s.get_char(0);
    if c == '1' {
        Some(MenuChoice::AddSalaried)
    } else if c == '2' {
        Some(MenuChoice::AddHourly)
    } else if c == '3' {
        Some(MenuChoice::AddCommissioned)
    } else if c == '4' {
        Some(MenuChoice::ShowRoster)
    } else if c == '5' {
        Some(MenuChoice::Quit)
    } else {
        None
    }
}

pub open spec fn is_digit(c: char) -> bool {
    '0' <= c && c <= '9'
}

pub open spec fn all_digits(s: Seq<char>) -> bool {
    forall|i: int| 0 <= i < s.len() ==> is_digit(#[trigger] s[i])
}

pub open spec fn digit_value(c: char) -> nat {
    ((c as u32) - ('0' as u32)) as nat
}

/// The number written by a string of decimal digits.
pub open spec fn digits_value(s: Seq<char>) -> nat
    decreases s.len(),
{
    if s.len() == 0 {
        0
    } else {
        digits_value(s.drop_last()) * 10 + digit_value(s.last())
    }
}

/// The amount, in hundredths, that `s` writes: one or more digits, optionally
/// followed by `.` and one or two digits. `None` for any other text.
pub open spec fn hundredths_value(s: Seq<char>) -> Option<nat> {
    let n = s.len() as int;
    if n > 0 && all_digits(s) {
        Some(digits_value(s) * 100)
    } else if n >= 3 && s[n - 2] == '.' && all_digits(s.subrange(0, n - 2)) && is_digit(s[n - 1]) {
        Some(digits_value(s.subrange(0, n - 2)) * 100 + digit_value(s[n - 1]) * 10)
    } else if n >= 4 && s[n - 3] == '.' && all_digits(s.subrange(0, n - 3)) && all_digits(
        s.subrange(n - 2, n),
    ) {
        Some(digits_value(s.subrange(0, n - 3)) * 100 + digits_value(s.subrange(n - 2, n)))
    } else {
        None
    }
}

/// A prefix of a string of digits never writes a larger number.
proof fn lemma_digits_prefix_le(s: Seq<char>, k: int)
    requires
        all_digits(s),
        0 <= k <= s.len(),
    ensures
        digits_value(s.take(k)) <= digits_value(s),
    decreases s.len(),
{
    if k == s.len() {
        assert(s.take(k) =~= s);
    } else {
        lemma_digits_prefix_le(s.drop_last(), k);
        assert(s.drop_last().take(k) =~= s.take(k));
    }
}

/// The value of the digits `s[lo..hi]`, or `None` when one of them is not a
/// digit or the value exceeds `u32::MAX`.
fn parse_digits(s: &str, lo: usize, hi: usize) -> (r: Option<u64>)
    requires
        lo <= hi <= s@.len(),
    ensures
        r is Some <==> all_digits(s@.subrange(lo as int, hi as int)) && digits_value(
            s@.subrange(lo as int, hi as int),
        ) <= u32::MAX,
        r matches Some(v) ==> v == digits_value(s@.subrange(lo as int, hi as int)),
{
    let ghost whole = s@.subrange(lo as int, hi as int);
    let mut acc: u64 = 0;
    let mut i: usize = lo;
    assert(s@.subrange(lo as int, lo as int) =~= Seq::<char>::empty());
    while i < hi
        invariant
            lo <= i <= hi <= s@.len(),
            whole == s@.subrange(lo as int, hi as int),
            all_digits(s@.subrange(lo as int, i as int)),
            acc == digits_value(s@.subrange(lo as int, i as int)),
            acc <= u32::MAX,
        decreases hi - i,
    {
        let c = s.get_char(i);
        if c < '0' || c > '9' {
            assert(whole[i - lo] == c);
            return None;
        }
        let ghost next_part = s@.subrange(lo as int, i + 1);
        assert(next_part.drop_last() =~= s@.subrange(lo as int, i as int));
        assert(next_part.last() == c);
        let next = acc * 10 + (c as u32 - '0' as u32) as u64;
        if next > u32::MAX as u64 {
            proof {
                if all_digits(whole) {
                    lemma_digits_prefix_le(whole, i + 1 - lo);
                    assert(whole.take(i + 1 - lo) =~= next_part);
                }
            }
            return None;
        }
        acc = next;
        i = i + 1;
    }
    Some(acc)
}

/// Reads an amount with at most two decimals, such as `160`, `7.5` or
/// `1234.56`, as a whole number of hundredths. `None` when the text is not
/// of that form or the amount exceeds `u32::MAX` hundredths.
pub fn parse_hundredths(s: &str) -> (r: Option<u32>)
    ensures
        r is Some <==> (hundredths_value(s@) matches Some(v) && v <= u32::MAX),
        r matches Some(x) ==> hundredths_value(s@) == Some(x as nat),
{
    let n = s.unicode_len();
    if n == 0 {
        return None;
    }
    if n >= 3 && s.get_char(n - 2) == '.' {
        assert(!all_digits(s@));
        assert(!all_digits(s@.subrange(n - 2, n as int))) by {
            assert(s@.subrange(n - 2, n as int)[0] == '.');
        }
        let w = parse_digits(s, 0, n - 2);
        let f = parse_digits(s, n - 1, n);
        assert(s@.subrange(n - 1, n as int).drop_last() =~= Seq::<char>::empty());
        assert(digits_value(s@.subrange(n - 1, n as int)) == digit_value(s@[n - 1])) by {
            assert(s@.subrange(n - 1, n as int).last() == s@[n - 1]);
            assert(digits_value(Seq::<char>::empty()) == 0);
        }
        assert(all_digits(s@.subrange(n - 1, n as int)) == is_digit(s@[n - 1])) by {
            assert(s@.subrange(n - 1, n as int)[0] == s@[n - 1]);
        }
        match (w, f) {
            (Some(w), Some(f)) => {
                let v = w * 100 + f * 10;
                if v <= u32::MAX as u64 {
                    Some(v as u32)
                } else {
                    None
                }
            },
            _ => None,
        }
    } else if n >= 4 && s.get_char(n - 3) == '.' {
        assert(!all_digits(s@));
        let w = parse_digits(s, 0, n - 3);
        let f = parse_digits(s, n - 2, n);
        match (w, f) {
            (Some(w), Some(f)) => {
                let v = w * 100 + f;
                if v <= u32::MAX as u64 {
                    Some(v as u32)
                } else {
                    None
                }
            },
            _ => None,
        }
    } else {
        assert(s@.subrange(0, n as int) =~= s@);
        match parse_digits(s, 0, n) {
            Some(w) => {
                let v = w * 100;
                if v <= u32::MAX as u64 {
                    Some(v as u32)
                } else {
                    None
                }
            },
            None => None,
        }
    }
}

} // verus!
