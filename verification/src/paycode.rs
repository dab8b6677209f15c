//! The settlement companies that a run can be asked for.

use vstd::prelude::*;
use vstd::string::*;

verus! {

/// A settlement company, or all of them.
#[derive(Clone, Copy, Debug, PartialEq, Eq)]
pub enum PayCode {
    /// `TP`
    TossPay,
    /// `NK`
    KakaoPay,
    /// `NP`
    NaverPay,
    /// `PC`
    Payco,
    /// `JP`
    JinairPay,
    /// `ALL`
    All,
}

/// The company that a code names, if any.
pub open spec fn pay_code_of(code: Seq<char>) -> Option<PayCode> {
    if code == "TP"@ {
        Some(PayCode::TossPay)
    } else if code == "NK"@ {
        Some(PayCode::KakaoPay)
    } else if code == "NP"@ {
        Some(PayCode::NaverPay)
    } else if code == "PC"@ {
        Some(PayCode::Payco)
    } else if code == "JP"@ {
        Some(PayCode::JinairPay)
    } else if code == "ALL"@ {
        Some(PayCode::All)
    } else {
        None
    }
}

fn same_text(a: &String, b: &str) -> (r: bool)
    ensures
        r == (a@ == b@),
{
    let b = String::from_str(b);
    *a == b
}

/// Reads a company code (`TP`, `NK`, `NP`, `PC`, `JP` or `ALL`); any other
/// text is no supported code.
pub fn parse_pay_code(code: &str) -> (r: Option<PayCode>)
    ensures
        r == pay_code_of(code@),
{
    let code = String::from_str(code);
    if same_text(&code, "TP") {
        Some(PayCode::TossPay)
    } else if same_text(&code, "NK") {
        Some(PayCode::KakaoPay)
    } else if same_text(&code, "NP") {
        Some(PayCode::NaverPay)
    } else if same_text(&code, "PC") {
        Some(PayCode::Payco)
    } else if same_text(&code, "JP") {
        Some(PayCode::JinairPay)
    } else if same_text(&code, "ALL") {
        Some(PayCode::All)
    } else {
        None
    }
}

} // verus!
