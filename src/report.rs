//! Per-employee and roster-wide payroll reports, returned as lines of text.
use vstd::prelude::*;
use crate::employee::Employee;
use crate::money::{currency_text, format_currency};

verus! {

/// Sum of the total annual compensation of every employee, in units.
pub open spec fn roster_total_spec(roster: Seq<Employee>) -> nat
    decreases roster.len(),
{
    if roster.len() == 0 {
        0
    } else {
        roster_total_spec(roster.drop_last()) + roster.last().total_spec()
    }
}

/// The text of each line.
pub open spec fn lines_view(lines: Seq<String>) -> Seq<Seq<char>> {
    lines.map_values(|s: String| s@)
}

/// The summary of one employee: name, category, monthly, annual, bonus and
/// total pay, each amount as currency text.
pub open spec fn employee_lines(e: Employee) -> Seq<Seq<char>> {
    seq![
        ""@,
        "=================================================="@,
        "        PAYROLL SUMMARY - "@ + e.heading_spec(),
        "=================================================="@,
        "Name:             "@ + e.name_view(),
        "Category:         "@ + e.label_spec(),
        "Monthly pay:      "@ + currency_text(e.monthly_spec()),
        "Annual pay:       "@ + currency_text(e.annual_spec()),
        "Bonus:            "@ + currency_text(e.bonus_spec()),
        "--------------------------------------------------"@,
        "ANNUAL TOTAL:     "@ + currency_text(e.total_spec()),
        "=================================================="@,
    ]
}

/// The summaries of the employees, in roster order.
pub open spec fn employees_lines(roster: Seq<Employee>) -> Seq<Seq<char>>
    decreases roster.len(),
{
    if roster.len() == 0 {
        seq![]
    } else {
        employees_lines(roster.drop_last()) + employee_lines(roster.last())
    }
}

/// The line reported for a roster without employees.
pub open spec fn empty_roster_lines() -> Seq<Seq<char>> {
    seq!["No employees registered."@]
}

/// The heading of a roster report.
pub open spec fn roster_header() -> Seq<Seq<char>> {
    seq![
        ""@,
        "============================================================"@,
        "                  PAYROLL OVERVIEW"@,
        "============================================================"@,
    ]
}

/// The closing lines of a roster report, with the grand total.
pub open spec fn roster_footer(total: nat) -> Seq<Seq<char>> {
    seq![
        ""@,
        "============================================================"@,
        "ANNUAL PAYROLL TOTAL: "@ + currency_text(total),
        "============================================================"@,
    ]
}

/// The whole roster report.
pub open spec fn roster_lines(roster: Seq<Employee>) -> Seq<Seq<char>> {
    if roster.len() == 0 {
        empty_roster_lines()
    } else {
        roster_header() + employees_lines(roster) + roster_footer(roster_total_spec(roster))
    }
}

fn labelled(label: &str, value: &str) -> (r: String)
    ensures
        r@ == label@ + value@,
{
    let mut s = String::from_str(label);
    s.append(value);
    s
}

fn labelled_amount(label: &str, units: u128) -> (r: String)
    ensures
        r@ == label@ + currency_text(units as nat),
{
    let amount = format_currency(units);
    labelled(label, amount.as_str())
}

/// Appends the summary lines of one employee to `out`.
fn push_employee_lines(out: &mut Vec<String>, e: &Employee)
    ensures
        lines_view(final(out)@) == lines_view(old(out)@) + employee_lines(*e),
{
    let name = e.name();
    out.push(String::from_str(""));
    out.push(String::from_str("=================================================="));
    out.push(labelled("        PAYROLL SUMMARY - ", e.category_heading()));
    out.push(String::from_str("=================================================="));
    out.push(labelled("Name:             ", name.as_str()));
    out.push(labelled("Category:         ", e.category_label()));
    out.push(labelled_amount("Monthly pay:      ", e.monthly_compensation()));
    out.push(labelled_amount("Annual pay:       ", e.annual_compensation()));
    out.push(labelled_amount("Bonus:            ", e.bonus()));
    out.push(String::from_str("--------------------------------------------------"));
    out.push(labelled_amount("ANNUAL TOTAL:     ", e.total_annual_compensation()));
    out.push(String::from_str("=================================================="));
    assert(lines_view(final(out)@) =~= lines_view(old(out)@) + employee_lines(*e));
}

/// The summary of one employee, line by line: name, category, and monthly,
/// annual, bonus and total pay as currency text.
pub fn render_individual_report(e: &Employee) -> (r: Vec<String>)
    ensures
        lines_view(r@) == employee_lines(*e),
{
    let mut out: Vec<String> = Vec::new();
    push_employee_lines(&mut out, e);
    assert(lines_view(out@) =~= lines_view(Seq::<String>::empty()) + employee_lines(*e));
    out
}

/// A longer prefix of a roster never has a smaller total.
proof fn lemma_prefix_total_le(roster: Seq<Employee>, i: int, j: int)
    requires
        0 <= i <= j <= roster.len(),
    ensures
        roster_total_spec(roster.take(i)) <= roster_total_spec(roster.take(j)),
    decreases j - i,
{
    if i < j {
        lemma_prefix_total_le(roster, i, j - 1);
        assert(roster.take(j).drop_last() =~= roster.take(j - 1));
    }
}

/// The grand total of the roster in units, or `None` exactly when it exceeds
/// `u128::MAX`.
pub fn roster_total(roster: &[Employee]) -> (r: Option<u128>)
    ensures
        r is Some <==> roster_total_spec(roster@) <= u128::MAX,
        r matches Some(t) ==> t == roster_total_spec(roster@),
{
    let mut acc: u128 = 0;
    let mut i: usize = 0;
    assert(roster@.take(0) =~= Seq::<Employee>::empty());
    while i < roster.len()
        invariant
            0 <= i <= roster@.len(),
            acc == roster_total_spec(roster@.take(i as int)),
        decreases roster@.len() - i,
    {
        let t = roster[i].total_annual_compensation();
        assert(roster@.take(i + 1).drop_last() =~= roster@.take(i as int));
        if acc > u128::MAX - t {
            proof {
                lemma_prefix_total_le(roster@, i + 1, roster@.len() as int);
                assert(roster@.take(roster@.len() as int) =~= roster@);
            }
            return None;
        }
        acc = acc + t;
        i = i + 1;
    }
    assert(roster@.take(i as int) =~= roster@);
    Some(acc)
}

/// The roster report, line by line. For a roster without employees it is the
/// single line "No employees registered."; otherwise a heading, the summary of
/// every employee in roster order, and the grand total of their total annual
/// compensation.
pub fn render_roster_report(roster: &[Employee]) -> (r: Vec<String>)
    requires
        roster_total_spec(roster@) <= u128::MAX,
    ensures
        lines_view(r@) == roster_lines(roster@),
{
    let mut out: Vec<String> = Vec::new();
    if roster.len() == 0 {
        out.push(String::from_str("No employees registered."));
        assert(lines_view(out@) =~= empty_roster_lines());
        return out;
    }
    out.push(String::from_str(""));
    out.push(String::from_str("============================================================"));
    out.push(String::from_str("                  PAYROLL OVERVIEW"));
    out.push(String::from_str("============================================================"));
    assert(lines_view(out@) =~= roster_header());
    let mut acc: u128 = 0;
    let mut i: usize = 0;
    assert(roster@.take(0) =~= Seq::<Employee>::empty());
    while i < roster.len()
        invariant
            0 <= i <= roster@.len(),
            roster_total_spec(roster@) <= u128::MAX,
            acc == roster_total_spec(roster@.take(i as int)),
            lines_view(out@) == roster_header() + employees_lines(roster@.take(i as int)),
        decreases roster@.len() - i,
    {
        proof {
            lemma_prefix_total_le(roster@, i + 1, roster@.len() as int);
            assert(roster@.take(roster@.len() as int) =~= roster@);
            assert(roster@.take(i + 1).drop_last() =~= roster@.take(i as int));
        }
        push_employee_lines(&mut out, &roster[i]);
        acc = acc + roster[i].total_annual_compensation();
        i = i + 1;
        assert(lines_view(out@) =~= roster_header() + employees_lines(roster@.take(i as int)));
    }
    assert(roster@.take(i as int) =~= roster@);
    out.push(String::from_str(""));
    out.push(String::from_str("============================================================"));
    out.push(labelled_amount("ANNUAL PAYROLL TOTAL: ", acc));
    out.push(String::from_str("============================================================"));
    assert(lines_view(out@) =~= roster_lines(roster@));
    out
}

/// The grand total is a fold over the roster: the total of two rosters placed
/// one after the other is the sum of their totals.
pub proof fn lemma_roster_total_concat(a: Seq<Employee>, b: Seq<Employee>)
    ensures
        roster_total_spec(a + b) == roster_total_spec(a) + roster_total_spec(b),
    decreases b.len(),
{
    if b.len() == 0 {
        assert(a + b =~= a);
    } else {
        lemma_roster_total_concat(a, b.drop_last());
        assert((a + b).drop_last() =~= a + b.drop_last());
        assert((a + b).last() == b.last());
    }
}

} // verus!
