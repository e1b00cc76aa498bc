//! Exact money amounts and their rendering as grouped currency text.
//!
//! Compensation values are held as whole numbers of *units*, where one unit is
//! a hundred-millionth of the currency. Every compensation formula of the
//! library is exact in this unit.
use vstd::prelude::*;

verus! {

/// Units in one cent.
pub const UNITS_PER_CENT: u128 = 1_000_000;

/// Half a cent, in units.
pub const HALF_CENT: u128 = 500_000;

/// The text of one decimal digit.
pub open spec fn digit_text(d: nat) -> Seq<char> {
    if d == 0 {
        "0"@
    } else if d == 1 {
        "1"@
    } else if d == 2 {
        "2"@
    } else if d == 3 {
        "3"@
    } else if d == 4 {
        "4"@
    } else if d == 5 {
        "5"@
    } else if d == 6 {
        "6"@
    } else if d == 7 {
        "7"@
    } else if d == 8 {
        "8"@
    } else {
        "9"@
    }
}

/// Plain decimal notation of `n`, without leading zeros.
pub open spec fn decimal_text(n: nat) -> Seq<char>
    decreases n,
{
    if n < 10 {
        digit_text(n)
    } else {
        decimal_text(n / 10) + digit_text(n % 10)
    }
}

/// The last three decimal digits of `n`, zero-padded.
pub open spec fn three_digits(n: nat) -> Seq<char> {
    digit_text(n / 100 % 10) + digit_text(n / 10 % 10) + digit_text(n % 10)
}

/// Decimal notation of `n` with its digits grouped by threes with commas.
pub open spec fn grouped_text(n: nat) -> Seq<char>
    decreases n,
{
    if n < 1000 {
        decimal_text(n)
    } else {
        grouped_text(n / 1000) + ","@ + three_digits(n % 1000)
    }
}

/// Currency text of a whole number of cents: `$`, grouped whole part, `.`,
/// exactly two decimal digits.
pub open spec fn cents_text(cents: nat) -> Seq<char> {
    "$"@ + grouped_text(cents / 100) + "."@ + digit_text(cents / 10 % 10) + digit_text(cents % 10)
}

/// `units` rounded to the nearest cent; an exact half goes to the even cent.
pub open spec fn rounded_cents(units: nat) -> nat {
    let q = units / (UNITS_PER_CENT as nat);
    let r = units % (UNITS_PER_CENT as nat);
    if r > HALF_CENT || (r == HALF_CENT && q % 2 == 1) {
        q + 1
    } else {
        q
    }
}

/// Currency text of an amount in units, rounded to the cent.
pub open spec fn currency_text(units: nat) -> Seq<char> {
    cents_text(rounded_cents(units))
}

fn digit_str(d: u128) -> (r: &'static str)
    requires
        d < 10,
    ensures
        r@ == digit_text(d as nat),
{
    if d == 0 {
        "0"
    } else if d == 1 {
        "1"
    } else if d == 2 {
        "2"
    } else if d == 3 {
        "3"
    } else if d == 4 {
        "4"
    } else if d == 5 {
        "5"
    } else if d == 6 {
        "6"
    } else if d == 7 {
        "7"
    } else if d == 8 {
        "8"
    } else {
        "9"
    }
}

fn append_decimal(out: &mut String, n: u128)
    ensures
        final(out)@ == old(out)@ + decimal_text(n as nat),
    decreases n,
{
    if n < 10 {
        out.append(digit_str(n));
    } else {
        append_decimal(out, n / 10);
        out.append(digit_str(n % 10));
        assert(final(out)@ =~= old(out)@ + decimal_text(n as nat));
    }
}

fn append_grouped(out: &mut String, n: u128)
    ensures
        final(out)@ == old(out)@ + grouped_text(n as nat),
    decreases n,
{
    if n < 1000 {
        append_decimal(out, n);
    } else {
        append_grouped(out, n / 1000);
        out.append(",");
        let m = n % 1000;
        out.append(digit_str(m / 100 % 10));
        out.append(digit_str(m / 10 % 10));
        out.append(digit_str(m % 10));
        assert(final(out)@ =~= old(out)@ + grouped_text(n as nat));
    }
}

/// Renders a whole number of cents as currency text, e.g. `123456780` cents
/// as `$1,234,567.80`.
pub fn format_cents(cents: u128) -> (r: String)
    ensures
        r@ == cents_text(cents as nat),
{
    let mut out = String::from_str("$");
    append_grouped(&mut out, cents / 100);
    out.append(".");
    out.append(digit_str(cents / 10 % 10));
    out.append(digit_str(cents % 10));
    assert(out@ =~= cents_text(cents as nat));
    out
}

/// Rounds an amount in units to the nearest cent, an exact half to the even
/// cent.
pub fn round_to_cents(units: u128) -> (r: u128)
    ensures
        r == rounded_cents(units as nat),
{
    let q = units / UNITS_PER_CENT;
    let rem = units % UNITS_PER_CENT;
    if rem > HALF_CENT || (rem == HALF_CENT && q % 2 == 1) {
        q + 1
    } else {
        q
    }
}

/// Renders an amount in units as currency text rounded to the cent:
/// `$`, the whole part grouped by threes with commas, `.`, two digits.
pub fn format_currency(units: u128) -> (r: String)
    ensures
        r@ == currency_text(units as nat),
{
    format_cents(round_to_cents(units))
}

} // verus!
