//! The gateways whose settlement records become [`common::Payment`] rows.

pub mod common;
pub mod kakaopay;
pub mod naverpay;
pub mod jinairpay;
pub mod tosspay;
pub mod payco;
pub mod util;
