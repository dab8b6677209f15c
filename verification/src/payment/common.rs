//! The settlement row that every gateway's records are converted into.

use vstd::prelude::*;
use vstd::string::*;
use crate::date::dashed_date;

verus! {

/// One settled payment, as a row of the settlement CSV file.
pub struct Payment {
    pub payment_id: String,
    pub gateway: String,
    pub settle_co: String,
    pub merchant_id: String,
    pub paid_date: String,
    pub rcv_date: String,
    pub sales_date: String,
    pub auth: String,
    pub card_no: String,
    pub sales_amt: i32,
    pub merchant_fee: i32,
    pub other_fee: i32,
    pub vat: i32,
    pub paid_amt: i32,
    pub cc_gubun: String,
    pub sales_gubun: String,
    pub maeib_gubun: String,
}

/// A [`Payment`] with its texts as character sequences.
pub struct PaymentView {
    pub payment_id: Seq<char>,
    pub gateway: Seq<char>,
    pub settle_co: Seq<char>,
    pub merchant_id: Seq<char>,
    pub paid_date: Seq<char>,
    pub rcv_date: Seq<char>,
    pub sales_date: Seq<char>,
    pub auth: Seq<char>,
    pub card_no: Seq<char>,
    pub sales_amt: i32,
    pub merchant_fee: i32,
    pub other_fee: i32,
    pub vat: i32,
    pub paid_amt: i32,
    pub cc_gubun: Seq<char>,
    pub sales_gubun: Seq<char>,
    pub maeib_gubun: Seq<char>,
}

impl View for Payment {
    type V = PaymentView;

    open spec fn view(&self) -> PaymentView {
        PaymentView {
            payment_id: self.payment_id@,
            gateway: self.gateway@,
            settle_co: self.settle_co@,
            merchant_id: self.merchant_id@,
            paid_date: self.paid_date@,
            rcv_date: self.rcv_date@,
            sales_date: self.sales_date@,
            auth: self.auth@,
            card_no: self.card_no@,
            sales_amt: self.sales_amt,
            merchant_fee: self.merchant_fee,
            other_fee: self.other_fee,
            vat: self.vat,
            paid_amt: self.paid_amt,
            cc_gubun: self.cc_gubun@,
            sales_gubun: self.sales_gubun@,
            maeib_gubun: self.maeib_gubun@,
        }
    }
}

/// The payment id of a settlement: the company code, `_SP_`, and the date.
pub open spec fn settle_payment_id(settle_co: Seq<char>, date: Seq<char>) -> Seq<char> {
    settle_co + "_SP_"@ + date
}

/// Builds the payment id `{settle_co}_SP_{date}`.
pub fn payment_id(settle_co: &str, date: &str) -> (r: String)
    ensures
        r@ == settle_payment_id(settle_co@, date@),
{
    let mut r = String::from_str(settle_co);
    r.append("_SP_");
    r.append(date);
    r
}

/// What every settlement row of company `settle_co` for the date text `date`
/// (`YYYYMMDD`) holds: the `SP` gateway, the company code, the id
/// `{settle_co}_SP_{date}`, and `date` as both its receive and its sales date.
pub open spec fn is_settlement_row(p: PaymentView, settle_co: Seq<char>, date: Seq<char>) -> bool {
    &&& p.gateway == "SP"@
    &&& p.settle_co == settle_co
    &&& p.payment_id == settle_payment_id(settle_co, date)
    &&& p.rcv_date == dashed_date(date)
    &&& p.sales_date == dashed_date(date)
}

} // verus!
