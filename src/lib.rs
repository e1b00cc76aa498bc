//! Payroll computation: employees with three compensation models, exact
//! compensation arithmetic, and report rendering with currency formatting.

pub mod money;
pub mod employee;
pub mod report;
pub mod input;
