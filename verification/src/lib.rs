//! Stock quotes: the record of one quote, the request that asks a vendor for
//! it, the decoding of the vendor's answer, and the quote's reports.
//!
//! The crate performs no input or output and no floating-point arithmetic.
//! A caller sends the request and hands back what came of it, and emits the
//! lines of a report, evaluating the numbers that they end with.

pub mod decimal;
pub mod error;
pub mod float;
pub mod json;
pub mod report;
pub mod response;
pub mod stock;

pub use error::QuoteError;
pub use float::Float64;
pub use report::{Amount, ReportLine};
pub use response::ApiResponse;
pub use stock::{request_url, StockData};
