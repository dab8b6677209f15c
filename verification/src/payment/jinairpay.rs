//! Jinairpay (`JP`): settlements of a day, fetched once for each API key.

use vstd::prelude::*;
use vstd::string::*;
use crate::date::{dashed_date, date_text_ok, format_date};
use crate::payment::common::{is_settlement_row, payment_id, settle_payment_id, Payment, PaymentView};
use crate::text::{decimal_string, decimal_text};

verus! {

/// The answer of the Jinairpay settlement API.
pub struct JinairPaySettleData {
    pub total_count: i32,
    pub list: Vec<JinairPayTransactionItem>,
}

/// One Jinairpay settled transaction.
pub struct JinairPayTransactionItem {
    pub approve_date: String,
    pub cancel_date: String,
    pub settle_date: String,
    pub pgcode: String,
    pub user_id: String,
    pub user_name: String,
    pub tid: String,
    pub order_no: String,
    pub amount: i32,
    pub settle_amount: i32,
    pub status_code: i32,
    pub clientid: String,
    pub pay_type: i32,
    pub catid: String,
    pub usestate: i32,
    pub cid: String,
    pub company_regnum: String,
}

/// Whether the row of `trx` can be made: its two dates can be sliced and the
/// fee `amount - settle_amount` fits in `i32`.
pub open spec fn jinairpay_item_ok(trx: JinairPayTransactionItem) -> bool {
    &&& date_text_ok(trx.approve_date@)
    &&& date_text_ok(trx.settle_date@)
    &&& i32::MIN <= trx.amount - trx.settle_amount <= i32::MAX
}

/// The row of a Jinairpay transaction: the fee is what the settlement keeps
/// back of the amount.
pub open spec fn jinairpay_payment(trx: JinairPayTransactionItem) -> PaymentView {
    PaymentView {
        payment_id: settle_payment_id("JP"@, trx.approve_date@),
        gateway: "SP"@,
        settle_co: "JP"@,
        merchant_id: "IBSJPKRW"@,
        paid_date: dashed_date(trx.settle_date@),
        rcv_date: dashed_date(trx.approve_date@),
        sales_date: dashed_date(trx.approve_date@),
        auth: trx.cid@,
        card_no: Seq::empty(),
        sales_amt: trx.amount,
        merchant_fee: (trx.amount - trx.settle_amount) as i32,
        other_fee: 0,
        vat: 0,
        paid_amt: trx.settle_amount,
        cc_gubun: trx.pgcode@,
        sales_gubun: decimal_text(trx.usestate as int),
        maeib_gubun: Seq::empty(),
    }
}

/// Converts one Jinairpay transaction into a payment row.
pub fn convert_to_payment_jinairpay(trx: JinairPayTransactionItem) -> (p: Payment)
    requires
        jinairpay_item_ok(trx),
    ensures
        p@ == jinairpay_payment(trx),
        p.sales_amt == trx.amount,
        p.merchant_fee == trx.amount - trx.settle_amount,
        p.paid_amt == trx.settle_amount,
        p.other_fee == 0,
        p.vat == 0,
        p.auth@ == trx.cid@,
        p.cc_gubun@ == trx.pgcode@,
        p.sales_gubun@ == decimal_text(trx.usestate as int),
        p.paid_date@ == dashed_date(trx.settle_date@),
        p.sales_date@ == dashed_date(trx.approve_date@),
        p.rcv_date@ == p.sales_date@,
{
    let approved = format_date(trx.approve_date.as_str());
    Payment {
        payment_id: payment_id("JP", trx.approve_date.as_str()),
        gateway: String::from_str("SP"),
        settle_co: String::from_str("JP"),
        merchant_id: String::from_str("IBSJPKRW"),
        paid_date: format_date(trx.settle_date.as_str()),
        rcv_date: approved.clone(),
        sales_date: approved,
        auth: trx.cid,
        card_no: String::new(),
        sales_amt: trx.amount,
        merchant_fee: trx.amount - trx.settle_amount,
        other_fee: 0,
        vat: 0,
        paid_amt: trx.settle_amount,
        cc_gubun: trx.pgcode,
        sales_gubun: decimal_string(trx.usestate as i64),
        maeib_gubun: String::new(),
    }
}

/// Converts the transactions gathered over all API keys, in order.
pub fn jinairpay_payments(items: Vec<JinairPayTransactionItem>) -> (r: Vec<Payment>)
    requires
        forall|i: int| 0 <= i < items.len() ==> #[trigger] jinairpay_item_ok(items[i]),
    ensures
        r.len() == items.len(),
        forall|i: int| 0 <= i < r.len() ==> #[trigger] r[i]@ == jinairpay_payment(items[i]),
{
    let mut out: Vec<Payment> = Vec::new();
    for trx in it: items
        invariant
            forall|i: int| 0 <= i < it.seq().len() ==> #[trigger] jinairpay_item_ok(it.seq()[i]),
            out.len() == it.index(),
            forall|j: int| 0 <= j < out.len() ==> #[trigger] out[j]@ == jinairpay_payment(it.seq()[j]),
    {
        out.push(convert_to_payment_jinairpay(trx));
    }
    out
}

/// A Jinairpay row balances: the fee and the paid amount add up to the sales
/// amount.
pub proof fn lemma_jinairpay_balances(trx: JinairPayTransactionItem)
    requires
        jinairpay_item_ok(trx),
    ensures
        jinairpay_payment(trx).merchant_fee + jinairpay_payment(trx).paid_amt
            == jinairpay_payment(trx).sales_amt,
{
}

/// The request for the settlements of `sales_date`, as seen on `today`
/// (both `YYYYMMDD`).
pub fn jinairpay_settlement_url(sales_date: &str, today: &str) -> (r: String)
    ensures
        r@ == "https://pgapi.payletter.com/v1.0/payments/settle?client_id=jinair&date="@
            + sales_date@ + "&date_settle="@ + today@,
{
    let mut r = String::from_str(
        "https://pgapi.payletter.com/v1.0/payments/settle?client_id=jinair&date=",
    );
    r.append(sales_date);
    r.append("&date_settle=");
    r.append(today);
    r
}

/// A Jinairpay row is the settlement row of `JP` for the approval date.
pub proof fn lemma_jinairpay_row(trx: JinairPayTransactionItem)
    ensures
        is_settlement_row(jinairpay_payment(trx), "JP"@, trx.approve_date@),
{
}

/// A Jinairpay row is paid the settle amount and charged `amount -
/// settle_amount` as its fee, for every transaction, cancelled or not (the
/// cancel date plays no part); its sales amount is the amount.
pub proof fn lemma_jinairpay_amounts(trx: JinairPayTransactionItem)
    requires
        jinairpay_item_ok(trx),
    ensures
        jinairpay_payment(trx).paid_amt == trx.settle_amount,
        jinairpay_payment(trx).merchant_fee == trx.amount - trx.settle_amount,
        jinairpay_payment(trx).sales_amt == trx.amount,
        jinairpay_payment(trx).other_fee == 0,
        jinairpay_payment(trx).vat == 0,
        jinairpay_payment(trx).auth == trx.cid@,
        jinairpay_payment(trx).cc_gubun == trx.pgcode@,
        jinairpay_payment(trx).sales_gubun == decimal_text(trx.usestate as int),
        jinairpay_payment(trx).paid_date == dashed_date(trx.settle_date@),
{
}

/// Two Jinairpay transactions that differ only in their cancel date give the
/// same row.
pub proof fn lemma_jinairpay_ignores_cancel_date(
    trx: JinairPayTransactionItem,
    other: JinairPayTransactionItem,
)
    requires
        jinairpay_item_ok(trx),
        other == (JinairPayTransactionItem { cancel_date: other.cancel_date, ..trx }),
    ensures
        jinairpay_payment(other) == jinairpay_payment(trx),
{
}

} // verus!
