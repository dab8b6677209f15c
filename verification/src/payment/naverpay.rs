//! Naverpay (`NP`): settlements by case, fetched page by page for each API key.

use vstd::prelude::*;
use vstd::string::*;
use crate::date::{dashed_date, date_text_ok, format_date};
use crate::payment::common::{is_settlement_row, payment_id, settle_payment_id, Payment, PaymentView};
use crate::text::{decimal_string, decimal_text};

verus! {

/// The answer of the Naverpay settlement API.
pub struct NaverPayResponse {
    pub code: String,
    pub message: String,
    pub body: NaverPaySettleData,
}

/// One page of Naverpay settlements.
pub struct NaverPaySettleData {
    pub list: Vec<NaverPayTransactionItem>,
    pub total_count: i32,
    pub response_count: i32,
    pub total_page_count: Option<i32>,
    pub current_page: i32,
}

/// One Naverpay settlement case.
pub struct NaverPayTransactionItem {
    pub settle_basis_date: String,
    pub settle_expect_date: String,
    pub order_id: String,
    pub product_order_type: String,
    pub settle_type: String,
    pub pay_settle_amount: i32,
    pub total_commission_amount: i32,
    pub free_installment_commission_amount: i32,
    pub selling_interlock_commission_amount: i32,
    pub settle_expect_amount: i32,
}

/// Whether the row of `trx` can be made: its two dates can be sliced and the
/// two commissions that make up the other fee add up within `i32`.
pub open spec fn naverpay_item_ok(trx: NaverPayTransactionItem) -> bool {
    &&& date_text_ok(trx.settle_basis_date@)
    &&& date_text_ok(trx.settle_expect_date@)
    &&& i32::MIN <= trx.free_installment_commission_amount
        + trx.selling_interlock_commission_amount <= i32::MAX
}

/// The row of a Naverpay settlement case.
pub open spec fn naverpay_payment(trx: NaverPayTransactionItem) -> PaymentView {
    PaymentView {
        payment_id: settle_payment_id("NP"@, trx.settle_basis_date@),
        gateway: "SP"@,
        settle_co: "NP"@,
        merchant_id: "IBSNPKRW"@,
        paid_date: dashed_date(trx.settle_expect_date@),
        rcv_date: dashed_date(trx.settle_basis_date@),
        sales_date: dashed_date(trx.settle_basis_date@),
        auth: trx.order_id@,
        card_no: Seq::empty(),
        sales_amt: trx.pay_settle_amount,
        merchant_fee: trx.total_commission_amount,
        other_fee: (trx.free_installment_commission_amount
            + trx.selling_interlock_commission_amount) as i32,
        vat: 0,
        paid_amt: trx.settle_expect_amount,
        cc_gubun: trx.product_order_type@,
        sales_gubun: trx.settle_type@,
        maeib_gubun: "OK"@,
    }
}

/// Converts one Naverpay settlement case into a payment row.
pub fn convert_to_payment_naverpay(trx: NaverPayTransactionItem) -> (p: Payment)
    requires
        naverpay_item_ok(trx),
    ensures
        p@ == naverpay_payment(trx),
        p.sales_amt == trx.pay_settle_amount,
        p.merchant_fee == trx.total_commission_amount,
        p.other_fee == trx.free_installment_commission_amount
            + trx.selling_interlock_commission_amount,
        p.vat == 0,
        p.paid_amt == trx.settle_expect_amount,
        p.auth@ == trx.order_id@,
        p.cc_gubun@ == trx.product_order_type@,
        p.sales_gubun@ == trx.settle_type@,
        p.paid_date@ == dashed_date(trx.settle_expect_date@),
        p.sales_date@ == dashed_date(trx.settle_basis_date@),
        p.rcv_date@ == p.sales_date@,
{
    let basis = format_date(trx.settle_basis_date.as_str());
    Payment {
        payment_id: payment_id("NP", trx.settle_basis_date.as_str()),
        gateway: String::from_str("SP"),
        settle_co: String::from_str("NP"),
        merchant_id: String::from_str("IBSNPKRW"),
        paid_date: format_date(trx.settle_expect_date.as_str()),
        rcv_date: basis.clone(),
        sales_date: basis,
        auth: trx.order_id,
        card_no: String::new(),
        sales_amt: trx.pay_settle_amount,
        merchant_fee: trx.total_commission_amount,
        other_fee: trx.free_installment_commission_amount + trx.selling_interlock_commission_amount,
        vat: 0,
        paid_amt: trx.settle_expect_amount,
        cc_gubun: trx.product_order_type,
        sales_gubun: trx.settle_type,
        maeib_gubun: String::from_str("OK"),
    }
}

/// Converts the settlement cases gathered for one API key, in order.
pub fn naverpay_payments(items: Vec<NaverPayTransactionItem>) -> (r: Vec<Payment>)
    requires
        forall|i: int| 0 <= i < items.len() ==> #[trigger] naverpay_item_ok(items[i]),
    ensures
        r.len() == items.len(),
        forall|i: int| 0 <= i < r.len() ==> #[trigger] r[i]@ == naverpay_payment(items[i]),
{
    let mut out: Vec<Payment> = Vec::new();
    for trx in it: items
        invariant
            forall|i: int| 0 <= i < it.seq().len() ==> #[trigger] naverpay_item_ok(it.seq()[i]),
            out.len() == it.index(),
            forall|j: int| 0 <= j < out.len() ==> #[trigger] out[j]@ == naverpay_payment(it.seq()[j]),
    {
        out.push(convert_to_payment_naverpay(trx));
    }
    out
}

/// Where the page loop of one API key stands: the next page to ask for and the
/// number of pages known so far.
pub struct PageCursor {
    pub page_no: i32,
    pub total_page: i32,
}

impl PageCursor {
    /// The cursor before the first request: page 1 of 1.
    pub fn new() -> (c: PageCursor)
        ensures
            c.page_no == 1,
            c.total_page == 1,
    {
        PageCursor { page_no: 1, total_page: 1 }
    }

    /// Whether another page is to be asked for.
    pub fn has_next(&self) -> (r: bool)
        ensures
            r == (self.page_no <= self.total_page),
    {
        self.page_no <= self.total_page
    }

    /// Takes in a page that was received: its page count, when it reports one,
    /// becomes the number of pages, and the cursor moves to the next page.
    pub fn advance(&mut self, page: &NaverPaySettleData)
        requires
            old(self).page_no < i32::MAX,
        ensures
            final(self).page_no == old(self).page_no + 1,
            final(self).total_page == match page.total_page_count {
                Some(n) => n,
                None => old(self).total_page,
            },
    {
        self.total_page = match page.total_page_count {
            Some(n) => n,
            None => self.total_page,
        };
        self.page_no = self.page_no + 1;
    }
}

/// The request for page `page_no` of the settlements of `sales_date`.
pub fn naverpay_settlement_url(sales_date: &str, page_no: i32) -> (r: String)
    ensures
        r@ == "https://apis.naver.com/naverpaysettle-payment/naverpaysettle/v1/settlements/by-case?periodType=SETTLE_BASIS_DATE&startDate="@
            + sales_date@ + "&endDate="@ + sales_date@ + "&pageNumber="@ + decimal_text(
            page_no as int,
        ),
{
    let mut r = String::from_str(
        "https://apis.naver.com/naverpaysettle-payment/naverpaysettle/v1/settlements/by-case?periodType=SETTLE_BASIS_DATE&startDate=",
    );
    r.append(sales_date);
    r.append("&endDate=");
    r.append(sales_date);
    r.append("&pageNumber=");
    let page = decimal_string(page_no as i64);
    r.append(page.as_str());
    r
}

/// A Naverpay row is the settlement row of `NP` for the case's settle basis date.
pub proof fn lemma_naverpay_row(trx: NaverPayTransactionItem)
    ensures
        is_settlement_row(naverpay_payment(trx), "NP"@, trx.settle_basis_date@),
{
}

/// The other fee of a Naverpay row is the sum of the free-installment and the
/// selling-interlock commissions, whichever of them is zero; the sales amount,
/// the merchant fee and the paid amount are the case's settle amount, total
/// commission and expected settle amount, and the VAT is zero.
pub proof fn lemma_naverpay_amounts(trx: NaverPayTransactionItem)
    requires
        naverpay_item_ok(trx),
    ensures
        naverpay_payment(trx).other_fee == trx.free_installment_commission_amount
            + trx.selling_interlock_commission_amount,
        naverpay_payment(trx).sales_amt == trx.pay_settle_amount,
        naverpay_payment(trx).merchant_fee == trx.total_commission_amount,
        naverpay_payment(trx).paid_amt == trx.settle_expect_amount,
        naverpay_payment(trx).vat == 0,
        naverpay_payment(trx).auth == trx.order_id@,
        naverpay_payment(trx).cc_gubun == trx.product_order_type@,
        naverpay_payment(trx).sales_gubun == trx.settle_type@,
        naverpay_payment(trx).paid_date == dashed_date(trx.settle_expect_date@),
{
}

} // verus!
