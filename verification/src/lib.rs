//! Billing for a theatre company: pricing of performances, volume credits
//! and the plain-text statement for a customer's invoice.

pub mod catalog;
pub mod decimal;
pub mod model;
pub mod pricing;
pub mod sample;
pub mod statement;

pub use catalog::{play_for, Catalog};
pub use decimal::decimal_string;
pub use model::{Invoice, InvoiceView, Performance, PerformanceView, Play, PlayGenre, PlayView};
pub use pricing::{amount_for, volume_credits_for};
pub use sample::init;
pub use statement::{is_billable, statement};
