//! Settlement records of payment gateways, turned into one common payment row.
//!
//! Every gateway reports its settled transactions in a shape of its own; the
//! converters here map each of them onto [`payment::common::Payment`], the row
//! that is written to the settlement CSV file.

pub mod text;
pub mod date;
pub mod payment;
pub mod paycode;
