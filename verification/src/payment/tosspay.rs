//! Tosspay (`TP`): settlement details of a day, fetched once for each API key.

use vstd::prelude::*;
use vstd::string::*;
use crate::date::{dashed_date, date_text_ok, format_date};
use crate::payment::common::{is_settlement_row, payment_id, settle_payment_id, Payment, PaymentView};
use crate::text::{has_second_field, second_field, second_field_of};

verus! {

/// The answer of the Tosspay settlement API.
pub struct TossPaySettleData {
    pub transaction_list: Vec<TossPayTransactionItem>,
    pub next_cursor: String,
    pub total_amount: i32,
    pub total_fee: i32,
    pub total_vat: i32,
    pub total_fee_vat_sum: i32,
}

/// One Tosspay settled transaction; its fee and VAT are negative amounts.
pub struct TossPayTransactionItem {
    pub transaction_type: String,
    pub transaction_id: String,
    pub pay_token: String,
    pub product_desc: String,
    pub order_no: String,
    pub pay_method: String,
    pub amount: i32,
    pub fee: i32,
    pub vat: i32,
    pub fee_vat_sum: i32,
    pub settle_date: String,
    pub due_date: String,
}

/// Whether the row of `trx` can be made: its two dates can be sliced, its
/// order number has a second `_` field, the fee and the VAT can be negated and
/// `amount + fee + vat` stays within `i32` at each step.
pub open spec fn tosspay_item_ok(trx: TossPayTransactionItem) -> bool {
    &&& date_text_ok(trx.settle_date@)
    &&& date_text_ok(trx.due_date@)
    &&& has_second_field(trx.order_no@, '_')
    &&& trx.fee != i32::MIN
    &&& trx.vat != i32::MIN
    &&& i32::MIN <= trx.amount + trx.fee <= i32::MAX
    &&& i32::MIN <= trx.amount + trx.fee + trx.vat <= i32::MAX
}

/// The row of a Tosspay transaction: fee and VAT turn positive, and the paid
/// amount is the amount less both.
pub open spec fn tosspay_payment(trx: TossPayTransactionItem) -> PaymentView {
    PaymentView {
        payment_id: settle_payment_id("TP"@, trx.settle_date@),
        gateway: "SP"@,
        settle_co: "TP"@,
        merchant_id: "IBSTPKRW"@,
        paid_date: dashed_date(trx.due_date@),
        rcv_date: dashed_date(trx.settle_date@),
        sales_date: dashed_date(trx.settle_date@),
        auth: second_field(trx.order_no@, '_'),
        card_no: Seq::empty(),
        sales_amt: trx.amount,
        merchant_fee: (-trx.fee) as i32,
        other_fee: 0,
        vat: (-trx.vat) as i32,
        paid_amt: (trx.amount + trx.fee + trx.vat) as i32,
        cc_gubun: trx.pay_method@,
        sales_gubun: Seq::empty(),
        maeib_gubun: "OK"@,
    }
}

/// Converts one Tosspay transaction into a payment row; the authorization is
/// the second `_`-separated field of the order number.
pub fn convert_to_payment_tosspay(trx: TossPayTransactionItem) -> (p: Payment)
    requires
        tosspay_item_ok(trx),
    ensures
        p@ == tosspay_payment(trx),
        p.sales_amt == trx.amount,
        p.merchant_fee == -trx.fee,
        p.vat == -trx.vat,
        p.paid_amt == trx.amount + trx.fee + trx.vat,
        p.other_fee == 0,
        p.auth@ == second_field(trx.order_no@, '_'),
        p.cc_gubun@ == trx.pay_method@,
        p.paid_date@ == dashed_date(trx.due_date@),
        p.sales_date@ == dashed_date(trx.settle_date@),
        p.rcv_date@ == p.sales_date@,
{
    let auth = second_field_of(trx.order_no.as_str(), '_');
    let settled = format_date(trx.settle_date.as_str());
    Payment {
        payment_id: payment_id("TP", trx.settle_date.as_str()),
        gateway: String::from_str("SP"),
        settle_co: String::from_str("TP"),
        merchant_id: String::from_str("IBSTPKRW"),
        paid_date: format_date(trx.due_date.as_str()),
        rcv_date: settled.clone(),
        sales_date: settled,
        auth: auth,
        card_no: String::new(),
        sales_amt: trx.amount,
        merchant_fee: trx.fee * -1,
        other_fee: 0,
        vat: trx.vat * -1,
        paid_amt: trx.amount + trx.fee + trx.vat,
        cc_gubun: trx.pay_method,
        sales_gubun: String::new(),
        maeib_gubun: String::from_str("OK"),
    }
}

/// Converts the transactions gathered over all API keys, in order.
pub fn tosspay_payments(items: Vec<TossPayTransactionItem>) -> (r: Vec<Payment>)
    requires
        forall|i: int| 0 <= i < items.len() ==> #[trigger] tosspay_item_ok(items[i]),
    ensures
        r.len() == items.len(),
        forall|i: int| 0 <= i < r.len() ==> #[trigger] r[i]@ == tosspay_payment(items[i]),
{
    let mut out: Vec<Payment> = Vec::new();
    for trx in it: items
        invariant
            forall|i: int| 0 <= i < it.seq().len() ==> #[trigger] tosspay_item_ok(it.seq()[i]),
            out.len() == it.index(),
            forall|j: int| 0 <= j < out.len() ==> #[trigger] out[j]@ == tosspay_payment(it.seq()[j]),
    {
        out.push(convert_to_payment_tosspay(trx));
    }
    out
}

/// A Tosspay row balances: the paid amount, the fee and the VAT add up to the
/// sales amount.
pub proof fn lemma_tosspay_balances(trx: TossPayTransactionItem)
    requires
        tosspay_item_ok(trx),
    ensures
        tosspay_payment(trx).paid_amt + tosspay_payment(trx).merchant_fee
            + tosspay_payment(trx).vat == tosspay_payment(trx).sales_amt,
{
}

/// A Tosspay row is the settlement row of `TP` for the settle date.
pub proof fn lemma_tosspay_row(trx: TossPayTransactionItem)
    ensures
        is_settlement_row(tosspay_payment(trx), "TP"@, trx.settle_date@),
{
}

/// For every Tosspay transaction, whatever the sign of its amount (refunds
/// included), the row's merchant fee is `-fee`, its VAT is `-vat` and its paid
/// amount is `amount + fee + vat`.
pub proof fn lemma_tosspay_amounts(trx: TossPayTransactionItem)
    requires
        tosspay_item_ok(trx),
    ensures
        tosspay_payment(trx).merchant_fee == -trx.fee,
        tosspay_payment(trx).vat == -trx.vat,
        tosspay_payment(trx).paid_amt == trx.amount + trx.fee + trx.vat,
        tosspay_payment(trx).sales_amt == trx.amount,
        tosspay_payment(trx).other_fee == 0,
        tosspay_payment(trx).auth == second_field(trx.order_no@, '_'),
        tosspay_payment(trx).cc_gubun == trx.pay_method@,
        tosspay_payment(trx).paid_date == dashed_date(trx.due_date@),
{
}

} // verus!
