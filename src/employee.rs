//! Employees and their compensation.
//!
//! Every input quantity is a fixed-point number with two decimals, held as a
//! whole number of hundredths: rates, salaries and sales in cents, hours in
//! hundredths of an hour, commission rates in hundredths of a percent.
//! Compensation comes out in units of a hundred-millionth of the currency
//! (see `money`), in which every formula below is exact.
use vstd::prelude::*;
use crate::money::UNITS_PER_CENT;

verus! {

/// Units per product of two hundredths (1/10_000 of the currency).
pub const UNITS_PER_TEN_THOUSANDTH: u128 = 10_000;

/// Units per product of cents and hundredths of a percent (1/1_000_000).
pub const UNITS_PER_MILLIONTH: u128 = 100;

/// Paid by the hour.
pub struct HourlyEmployee {
    pub name: String,
    /// Pay per hour, in cents.
    pub rate_cents: u32,
    /// Hours worked in a month, in hundredths of an hour.
    pub hours_hundredths: u32,
}

/// Paid a fixed monthly salary.
pub struct SalariedEmployee {
    pub name: String,
    /// Monthly salary, in cents.
    pub salary_cents: u32,
}

/// Paid a base salary plus a percentage of monthly sales.
pub struct CommissionedEmployee {
    pub name: String,
    /// Base monthly salary, in cents.
    pub base_cents: u32,
    /// Monthly sales volume, in cents.
    pub sales_cents: u32,
    /// Commission rate, in hundredths of a percent.
    pub commission_hundredths: u32,
}

/// An employee under exactly one of the three compensation models.
pub enum Employee {
    Hourly(HourlyEmployee),
    Salaried(SalariedEmployee),
    Commissioned(CommissionedEmployee),
}

/// Monthly pay of an hourly employee: rate times hours.
pub open spec fn hourly_monthly(rate_cents: nat, hours_hundredths: nat) -> nat {
    rate_cents * hours_hundredths * (UNITS_PER_TEN_THOUSANDTH as nat)
}

/// Monthly pay of a salaried employee: the salary itself.
pub open spec fn salaried_monthly(salary_cents: nat) -> nat {
    salary_cents * (UNITS_PER_CENT as nat)
}

/// Monthly pay of a commissioned employee: base plus sales times rate / 100.
pub open spec fn commissioned_monthly(base_cents: nat, sales_cents: nat, commission_hundredths: nat) -> nat {
    base_cents * (UNITS_PER_CENT as nat) + sales_cents * commission_hundredths
        * (UNITS_PER_MILLIONTH as nat)
}

/// Twelve months of pay.
pub open spec fn annual_of(monthly: nat) -> nat {
    12 * monthly
}

/// The year-end bonus: half a month of pay.
pub open spec fn bonus_of(monthly: nat) -> nat {
    monthly / 2
}

/// Twelve months of pay plus the bonus.
pub open spec fn total_of(monthly: nat) -> nat {
    annual_of(monthly) + bonus_of(monthly)
}

/// Largest monthly pay that the input ranges allow, in units (below 2^80).
pub const MAX_MONTHLY: u128 = 0x1_0000_0000_0000_0000_0000;

impl Employee {
    pub open spec fn name_view(&self) -> Seq<char> {
        match self {
            Employee::Hourly(e) => e.name@,
            Employee::Salaried(e) => e.name@,
            Employee::Commissioned(e) => e.name@,
        }
    }

    pub open spec fn monthly_spec(&self) -> nat {
        match self {
            Employee::Hourly(e) => hourly_monthly(e.rate_cents as nat, e.hours_hundredths as nat),
            Employee::Salaried(e) => salaried_monthly(e.salary_cents as nat),
            Employee::Commissioned(e) => commissioned_monthly(
                e.base_cents as nat,
                e.sales_cents as nat,
                e.commission_hundredths as nat,
            ),
        }
    }

    pub open spec fn annual_spec(&self) -> nat {
        annual_of(self.monthly_spec())
    }

    pub open spec fn bonus_spec(&self) -> nat {
        bonus_of(self.monthly_spec())
    }

    pub open spec fn total_spec(&self) -> nat {
        total_of(self.monthly_spec())
    }

    pub open spec fn label_spec(&self) -> Seq<char> {
        match self {
            Employee::Hourly(_) => "Hourly Employee"@,
            Employee::Salaried(_) => "Salaried Employee"@,
            Employee::Commissioned(_) => "Commissioned Employee"@,
        }
    }

    pub open spec fn heading_spec(&self) -> Seq<char> {
        match self {
            Employee::Hourly(_) => "HOURLY EMPLOYEE"@,
            Employee::Salaried(_) => "SALARIED EMPLOYEE"@,
            Employee::Commissioned(_) => "COMMISSIONED EMPLOYEE"@,
        }
    }
}

/// Monthly pay is even in units, so the bonus is exact, and bounded.
pub proof fn lemma_monthly_even_bounded(e: Employee)
    ensures
        e.monthly_spec() % 2 == 0,
        e.monthly_spec() < MAX_MONTHLY,
{
    let m = u32::MAX as nat;
    match e {
        Employee::Hourly(h) => {
            let (a, b) = (h.rate_cents as nat, h.hours_hundredths as nat);
            assert(a * b <= m * m) by (nonlinear_arith)
                requires a <= m, b <= m;
            assert(hourly_monthly(a, b) == (a * b * 5000) * 2) by (nonlinear_arith);
        },
        Employee::Salaried(s) => {
            assert(salaried_monthly(s.salary_cents as nat) == (s.salary_cents as nat * 500_000) * 2);
        },
        Employee::Commissioned(c) => {
            let (a, b, k) = (c.base_cents as nat, c.sales_cents as nat, c.commission_hundredths as nat);
            assert(b * k <= m * m) by (nonlinear_arith)
                requires b <= m, k <= m;
            assert(commissioned_monthly(a, b, k) == (a * 500_000 + b * k * 50) * 2) by (nonlinear_arith);
        },
    }
}

/// The derived amounts of any employee, whatever the model: annual pay is
/// twelve months of pay, the bonus is exactly half a month, and the total is
/// annual pay plus the bonus, that is twelve and a half months.
pub proof fn lemma_derived_compensation(e: Employee)
    ensures
        e.annual_spec() == 12 * e.monthly_spec(),
        2 * e.bonus_spec() == e.monthly_spec(),
        e.total_spec() == e.annual_spec() + e.bonus_spec(),
        2 * e.total_spec() == 25 * e.monthly_spec(),
{
    lemma_monthly_even_bounded(e);
}

impl HourlyEmployee {
    pub fn new(name: String, rate_cents: u32, hours_hundredths: u32) -> (r: Self)
        ensures
            r.name@ == name@,
            r.rate_cents == rate_cents,
            r.hours_hundredths == hours_hundredths,
    {
        HourlyEmployee { name, rate_cents, hours_hundredths }
    }

    /// Rate times hours, in units.
    pub fn monthly_compensation(&self) -> (r: u128)
        ensures
            r == hourly_monthly(self.rate_cents as nat, self.hours_hundredths as nat),
    {
        let m = u32::MAX as u128;
        let (a, b) = (self.rate_cents as u128, self.hours_hundredths as u128);
        assert(a * b <= m * m) by (nonlinear_arith)
            requires a <= m, b <= m;
        a * b * UNITS_PER_TEN_THOUSANDTH
    }
}

impl SalariedEmployee {
    pub fn new(name: String, salary_cents: u32) -> (r: Self)
        ensures
            r.name@ == name@,
            r.salary_cents == salary_cents,
    {
        SalariedEmployee { name, salary_cents }
    }

    /// The fixed salary, in units.
    pub fn monthly_compensation(&self) -> (r: u128)
        ensures
            r == salaried_monthly(self.salary_cents as nat),
    {
        self.salary_cents as u128 * UNITS_PER_CENT
    }
}

impl CommissionedEmployee {
    pub fn new(name: String, base_cents: u32, sales_cents: u32, commission_hundredths: u32) -> (r: Self)
        ensures
            r.name@ == name@,
            r.base_cents == base_cents,
            r.sales_cents == sales_cents,
            r.commission_hundredths == commission_hundredths,
    {
        CommissionedEmployee { name, base_cents, sales_cents, commission_hundredths }
    }

    /// Base plus sales times the commission rate over 100, in units.
    pub fn monthly_compensation(&self) -> (r: u128)
        ensures
            r == commissioned_monthly(
                self.base_cents as nat,
                self.sales_cents as nat,
                self.commission_hundredths as nat,
            ),
    {
        let m = u32::MAX as u128;
        let (b, k) = (self.sales_cents as u128, self.commission_hundredths as u128);
        assert(b * k <= m * m) by (nonlinear_arith)
            requires b <= m, k <= m;
        self.base_cents as u128 * UNITS_PER_CENT + b * k * UNITS_PER_MILLIONTH
    }
}

impl Employee {
    /// Monthly compensation under the employee's own model, in units.
    pub fn monthly_compensation(&self) -> (r: u128)
        ensures
            r == self.monthly_spec(),
    {
        match self {
            Employee::Hourly(e) => e.monthly_compensation(),
            Employee::Salaried(e) => e.monthly_compensation(),
            Employee::Commissioned(e) => e.monthly_compensation(),
        }
    }

    /// Twelve months of pay, in units.
    pub fn annual_compensation(&self) -> (r: u128)
        ensures
            r == self.annual_spec(),
    {
        proof { lemma_monthly_even_bounded(*self); }
        12 * self.monthly_compensation()
    }

    /// Half a month of pay, in units.
    pub fn bonus(&self) -> (r: u128)
        ensures
            r == self.bonus_spec(),
            2 * r == self.monthly_spec(),
    {
        proof { lemma_monthly_even_bounded(*self); }
        self.monthly_compensation() / 2
    }

    /// Annual compensation plus the bonus, in units.
    pub fn total_annual_compensation(&self) -> (r: u128)
        ensures
            r == self.total_spec(),
    {
        proof { lemma_monthly_even_bounded(*self); }
        self.annual_compensation() + self.bonus()
    }

    /// The employee's display name.
    pub fn name(&self) -> (r: String)
        ensures
            r@ == self.name_view(),
    {
        match self {
            Employee::Hourly(e) => e.name.clone(),
            Employee::Salaried(e) => e.name.clone(),
            Employee::Commissioned(e) => e.name.clone(),
        }
    }

    /// The fixed human-readable tag of the employee's model.
    pub fn category_label(&self) -> (r: &'static str)
        ensures
            r@ == self.label_spec(),
    {
        match self {
            Employee::Hourly(_) => "Hourly Employee",
            Employee::Salaried(_) => "Salaried Employee",
            Employee::Commissioned(_) => "Commissioned Employee",
        }
    }

    /// The tag of the employee's model in capitals, for report headings.
    pub fn category_heading(&self) -> (r: &'static str)
        ensures
            r@ == self.heading_spec(),
    {
        match self {
            Employee::Hourly(_) => "HOURLY EMPLOYEE",
            Employee::Salaried(_) => "SALARIED EMPLOYEE",
            Employee::Commissioned(_) => "COMMISSIONED EMPLOYEE",
        }
    }
}

} // verus!
