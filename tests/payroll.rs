use payroll::employee::{CommissionedEmployee, Employee, HourlyEmployee, SalariedEmployee};
use payroll::money::{format_cents, format_currency, round_to_cents};
use payroll::report::{render_individual_report, render_roster_report, roster_total};

/// Units in one whole currency unit.
const UNIT: u128 = 100_000_000;

fn hourly(name: &str, rate_cents: u32, hours_hundredths: u32) -> Employee {
    Employee::Hourly(HourlyEmployee::new(name.to_string(), rate_cents, hours_hundredths))
}

fn salaried(name: &str, salary_cents: u32) -> Employee {
    Employee::Salaried(SalariedEmployee::new(name.to_string(), salary_cents))
}

fn commissioned(name: &str, base: u32, sales: u32, pct: u32) -> Employee {
    Employee::Commissioned(CommissionedEmployee::new(name.to_string(), base, sales, pct))
}

#[test]
fn hourly_monthly_is_rate_times_hours() {
    let e = hourly("Ana", 2000, 16000);
    assert_eq!(e.monthly_compensation(), 3200 * UNIT);
    let f = hourly("Luis", 1575, 1050);
    // 15.75 * 10.50 = 165.375
    assert_eq!(f.monthly_compensation(), 165_375 * UNIT / 1000);
    assert_eq!(hourly("Cero", 0, 16000).monthly_compensation(), 0);
}

#[test]
fn salaried_monthly_is_salary() {
    let e = salaried("Berta", 500000);
    assert_eq!(e.monthly_compensation(), 5000 * UNIT);
    assert_eq!(salaried("Carla", 123456).monthly_compensation(), 123456 * UNIT / 100);
}

#[test]
fn commissioned_monthly_is_base_plus_commission() {
    // 1000 + 10000 * 5 / 100 = 1500
    let e = commissioned("Dora", 100000, 1000000, 500);
    assert_eq!(e.monthly_compensation(), 1500 * UNIT);
    // 0 + 333.33 * 7.5 / 100 = 24.999750
    let f = commissioned("Eva", 0, 33333, 750);
    assert_eq!(f.monthly_compensation(), 24_999_750 * UNIT / 1_000_000);
}

#[test]
fn derived_amounts_for_every_model() {
    for e in [hourly("A", 2000, 16000), salaried("B", 500000), commissioned("C", 100000, 1000000, 500)] {
        let m = e.monthly_compensation();
        assert_eq!(e.annual_compensation(), 12 * m);
        assert_eq!(2 * e.bonus(), m);
        assert_eq!(e.total_annual_compensation(), e.annual_compensation() + e.bonus());
        assert_eq!(2 * e.total_annual_compensation(), 25 * m);
    }
}

#[test]
fn names_and_labels() {
    let h = hourly("Ana", 1, 1);
    let s = salaried("Berta", 1);
    let c = commissioned("Dora", 1, 1, 1);
    assert_eq!(h.name(), "Ana");
    assert_eq!(s.name(), "Berta");
    assert_eq!(c.name(), "Dora");
    assert_eq!(h.category_label(), "Hourly Employee");
    assert_eq!(s.category_label(), "Salaried Employee");
    assert_eq!(c.category_label(), "Commissioned Employee");
    assert_eq!(c.category_heading(), "COMMISSIONED EMPLOYEE");
}

#[test]
fn largest_inputs_do_not_overflow() {
    let m = u32::MAX as u128;
    let h = hourly("Max", u32::MAX, u32::MAX);
    assert_eq!(h.monthly_compensation(), m * m * 10_000);
    assert_eq!(2 * h.total_annual_compensation(), 25 * m * m * 10_000);
    let c = commissioned("Max", u32::MAX, u32::MAX, u32::MAX);
    assert_eq!(c.monthly_compensation(), m * 1_000_000 + m * m * 100);
}

#[test]
fn currency_representative_values() {
    assert_eq!(format_currency(0), "$0.00");
    assert_eq!(format_currency(5 * UNIT), "$5.00");
    assert_eq!(format_currency(12345 * UNIT / 10), "$1,234.50");
    assert_eq!(format_currency(1_000_000 * UNIT), "$1,000,000.00");
    assert_eq!(format_currency(12_345_678 * UNIT / 10), "$1,234,567.80");
}

#[test]
fn currency_grouping_edges() {
    assert_eq!(format_cents(99_999), "$999.99");
    assert_eq!(format_cents(100_000), "$1,000.00");
    assert_eq!(format_cents(100_005), "$1,000.05");
    assert_eq!(format_cents(1_000_001_000), "$10,000,010.00");
    assert_eq!(format_cents(7), "$0.07");
    assert_eq!(
        format_cents(u128::MAX),
        "$3,402,823,669,209,384,634,633,746,074,317,682,114.55"
    );
}

#[test]
fn currency_rounds_to_nearest_cent_half_to_even() {
    assert_eq!(round_to_cents(1_499_999), 1);
    assert_eq!(round_to_cents(1_500_001), 2);
    assert_eq!(round_to_cents(12_500_000), 12);
    assert_eq!(round_to_cents(13_500_000), 14);
    assert_eq!(format_currency(12_500_000), "$0.12");
    assert_eq!(format_currency(13_500_000), "$0.14");
    assert_eq!(format_currency(99_999_999), "$1.00");
}

#[test]
fn empty_roster_reports_no_employees() {
    let roster: Vec<Employee> = Vec::new();
    assert_eq!(render_roster_report(&roster), vec!["No employees registered.".to_string()]);
    assert_eq!(roster_total(&roster), Some(0));
}

#[test]
fn individual_report_lines() {
    let lines = render_individual_report(&hourly("Ana", 2000, 16000));
    assert_eq!(lines.len(), 12);
    assert_eq!(lines[2], "        PAYROLL SUMMARY - HOURLY EMPLOYEE");
    assert_eq!(lines[4], "Name:             Ana");
    assert_eq!(lines[5], "Category:         Hourly Employee");
    assert_eq!(lines[6], "Monthly pay:      $3,200.00");
    assert_eq!(lines[7], "Annual pay:       $38,400.00");
    assert_eq!(lines[8], "Bonus:            $1,600.00");
    assert_eq!(lines[10], "ANNUAL TOTAL:     $40,000.00");
}

#[test]
fn end_to_end_hourly_and_salaried() {
    let h = hourly("Ana", 2000, 16000);
    assert_eq!(format_currency(h.monthly_compensation()), "$3,200.00");
    assert_eq!(format_currency(h.annual_compensation()), "$38,400.00");
    assert_eq!(format_currency(h.bonus()), "$1,600.00");
    assert_eq!(format_currency(h.total_annual_compensation()), "$40,000.00");
    let s = salaried("Berta", 500000);
    assert_eq!(format_currency(s.monthly_compensation()), "$5,000.00");
    // twelve months plus half a month
    assert_eq!(format_currency(s.total_annual_compensation()), "$62,500.00");
    let roster = vec![h, s];
    assert_eq!(roster_total(&roster), Some(102_500 * UNIT));
    let lines = render_roster_report(&roster);
    assert_eq!(lines.len(), 4 + 12 + 12 + 4);
    assert_eq!(lines[2], "                  PAYROLL OVERVIEW");
    assert_eq!(lines[4 + 4], "Name:             Ana");
    assert_eq!(lines[16 + 4], "Name:             Berta");
    assert_eq!(lines[lines.len() - 2], "ANNUAL PAYROLL TOTAL: $102,500.00");
}

#[test]
fn roster_total_is_sum_of_totals() {
    let roster = vec![
        hourly("A", 1575, 1050),
        salaried("B", 123456),
        commissioned("C", 100000, 33333, 750),
    ];
    let sum: u128 = roster.iter().map(|e| e.total_annual_compensation()).sum();
    assert_eq!(roster_total(&roster), Some(sum));
    let reversed: Vec<Employee> = vec![
        commissioned("C", 100000, 33333, 750),
        salaried("B", 123456),
        hourly("A", 1575, 1050),
    ];
    assert_eq!(roster_total(&reversed), Some(sum));
    let lines = render_roster_report(&roster);
    assert_eq!(lines[lines.len() - 2], format!("ANNUAL PAYROLL TOTAL: {}", format_currency(sum)));
}
