//! Kakaopay (`NK`): the settlement file of a day lists its transactions.

use vstd::prelude::*;
use vstd::string::*;
use crate::date::{dashed_date, date_text_ok, format_date};
use crate::payment::common::{is_settlement_row, payment_id, settle_payment_id, Payment, PaymentView};

verus! {

/// One transaction of the Kakaopay settlement file.
pub struct KakaoTransactionItem {
    pub cid: String,
    pub tid: String,
    pub aid: String,
    pub approved_at: String,
    pub partner_order_id: String,
    pub payment_method_type: String,
    pub payment_action_type: String,
    pub currency: String,
    pub amount: i32,
    pub point_amount: i32,
    pub discount_amount: i32,
    pub green_deposit: i32,
    pub fee: i32,
    pub fee_vat: i32,
    pub amount_payable: i32,
    pub deposit_date: String,
    pub payment_detail_action_type: String,
    pub interest_free_fee: i32,
    pub interest_free_fee_vat: i32,
}

/// The row of a Kakaopay transaction settled for `sales_date` (`YYYYMMDD`).
pub open spec fn kakaopay_payment(sales_date: Seq<char>, trx: KakaoTransactionItem) -> PaymentView {
    PaymentView {
        payment_id: settle_payment_id("NK"@, sales_date),
        gateway: "SP"@,
        settle_co: "NK"@,
        merchant_id: "IBSNKKRW"@,
        paid_date: trx.deposit_date@,
        rcv_date: dashed_date(sales_date),
        sales_date: dashed_date(sales_date),
        auth: trx.tid@,
        card_no: Seq::empty(),
        sales_amt: trx.amount,
        merchant_fee: trx.fee,
        other_fee: trx.interest_free_fee,
        vat: trx.fee_vat,
        paid_amt: trx.amount_payable,
        cc_gubun: trx.payment_method_type@,
        sales_gubun: trx.payment_action_type@,
        maeib_gubun: "OK"@,
    }
}

/// Converts one Kakaopay transaction, settled for `sales_date`, into a payment row.
pub fn convert_to_payment_kakaopay(sales_date: &str, trx: KakaoTransactionItem) -> (p: Payment)
    requires
        date_text_ok(sales_date@),
    ensures
        p@ == kakaopay_payment(sales_date@, trx),
        p.sales_amt == trx.amount,
        p.merchant_fee == trx.fee,
        p.other_fee == trx.interest_free_fee,
        p.vat == trx.fee_vat,
        p.paid_amt == trx.amount_payable,
        p.auth@ == trx.tid@,
        p.paid_date@ == trx.deposit_date@,
        p.cc_gubun@ == trx.payment_method_type@,
        p.sales_gubun@ == trx.payment_action_type@,
        p.sales_date@ == dashed_date(sales_date@),
        p.rcv_date@ == p.sales_date@,
{
    let day = format_date(sales_date);
    Payment {
        payment_id: payment_id("NK", sales_date),
        gateway: String::from_str("SP"),
        settle_co: String::from_str("NK"),
        merchant_id: String::from_str("IBSNKKRW"),
        paid_date: trx.deposit_date,
        rcv_date: day.clone(),
        sales_date: day,
        auth: trx.tid,
        card_no: String::new(),
        sales_amt: trx.amount,
        merchant_fee: trx.fee,
        other_fee: trx.interest_free_fee,
        vat: trx.fee_vat,
        paid_amt: trx.amount_payable,
        cc_gubun: trx.payment_method_type,
        sales_gubun: trx.payment_action_type,
        maeib_gubun: String::from_str("OK"),
    }
}

/// Converts the transactions of the settlement file for `sales_date`, in order.
pub fn kakaopay_payments(sales_date: &str, items: Vec<KakaoTransactionItem>) -> (r: Vec<Payment>)
    requires
        items.len() > 0 ==> date_text_ok(sales_date@),
    ensures
        r.len() == items.len(),
        forall|i: int| 0 <= i < r.len() ==> #[trigger] r[i]@ == kakaopay_payment(sales_date@, items[i]),
{
    let mut out: Vec<Payment> = Vec::new();
    for trx in it: items
        invariant
            it.seq().len() > 0 ==> date_text_ok(sales_date@),
            out.len() == it.index(),
            forall|j: int| 0 <= j < out.len() ==> #[trigger] out[j]@ == kakaopay_payment(sales_date@, it.seq()[j]),
    {
        out.push(convert_to_payment_kakaopay(sales_date, trx));
    }
    out
}

/// The request for the location of the settlement file of `sales_date`.
pub fn kakaopay_file_info_url(sales_date: &str, bucket_id: &str) -> (r: String)
    ensures
        r@ == "https://biz-dapi.kakaopay.com/files/v1/settlements/history?target_date="@
            + sales_date@ + "&bucket_id="@ + bucket_id@,
{
    let mut r = String::from_str(
        "https://biz-dapi.kakaopay.com/files/v1/settlements/history?target_date=",
    );
    r.append(sales_date);
    r.append("&bucket_id=");
    r.append(bucket_id);
    r
}

/// A Kakaopay row is the settlement row of `NK` for the settle date it was
/// made for.
pub proof fn lemma_kakaopay_row(sales_date: Seq<char>, trx: KakaoTransactionItem)
    ensures
        is_settlement_row(kakaopay_payment(sales_date, trx), "NK"@, sales_date),
{
}

/// The amounts of a Kakaopay row are the transaction's own, unchanged whatever
/// their sign (a cancelled transaction keeps its negative amounts): the sales
/// amount is the amount, the merchant fee the fee, the other fee the
/// interest-free fee, the VAT the fee VAT, and the paid amount the amount
/// payable. Its texts are the transaction's id, deposit date, payment method
/// and action.
pub proof fn lemma_kakaopay_copies_transaction(sales_date: Seq<char>, trx: KakaoTransactionItem)
    ensures
        kakaopay_payment(sales_date, trx).sales_amt == trx.amount,
        kakaopay_payment(sales_date, trx).merchant_fee == trx.fee,
        kakaopay_payment(sales_date, trx).other_fee == trx.interest_free_fee,
        kakaopay_payment(sales_date, trx).vat == trx.fee_vat,
        kakaopay_payment(sales_date, trx).paid_amt == trx.amount_payable,
        kakaopay_payment(sales_date, trx).auth == trx.tid@,
        kakaopay_payment(sales_date, trx).paid_date == trx.deposit_date@,
        kakaopay_payment(sales_date, trx).cc_gubun == trx.payment_method_type@,
        kakaopay_payment(sales_date, trx).sales_gubun == trx.payment_action_type@,
        kakaopay_payment(sales_date, trx).card_no.len() == 0,
{
}

} // verus!
