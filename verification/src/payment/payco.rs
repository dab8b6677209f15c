//! Payco (`PC`): the trade check download, a tab-separated text with a header
//! line and one record per settled trade.

use vstd::prelude::*;
use vstd::string::*;
use crate::date::{dashed_date, date_text_ok, format_date};
use crate::payment::common::{is_settlement_row, payment_id, settle_payment_id, Payment, PaymentView};

verus! {

#[verifier::external_type_specification]
#[verifier::external_body]
pub struct ExCsvError(csv::Error);

/// Why a trade check download could not be read.
#[derive(Debug)]
pub enum PaycoError {
    /// The text is no well-formed tab-separated table.
    Records(csv::Error),
}

/// The records, after the header line, of `text` read as a tab-separated
/// table by the `csv` crate, or `None` where the crate reports an error.
pub uninterp spec fn tab_separated_records(text: Seq<char>) -> Option<Seq<Seq<Seq<char>>>>;

/// Trusted: `csv::ReaderBuilder` with a tab delimiter and a header line, read
/// from the bytes of `text` through `Reader::records`. On success the records'
/// fields are the name `tab_separated_records` of `text`; on an error the name
/// is `None`. Nothing is claimed of how the crate splits a text.
#[verifier::external_body]
fn read_tab_separated(text: &str) -> (r: Result<Vec<Vec<String>>, csv::Error>)
    ensures
        match r {
            Ok(records) => tab_separated_records(text@) == Some(records.deep_view()),
            Err(_) => tab_separated_records(text@) is None,
        },
{
    let mut reader = csv::ReaderBuilder::new().delimiter(b'\t').has_headers(true).from_reader(
        text.as_bytes(),
    );
    reader.records().map(|record| record.map(|fields| fields.iter().map(|f| f.to_string()).collect())).collect()
}

/// The records of a trade check download, each as its list of fields.
pub fn payco_records(text: &str) -> (r: Result<Vec<Vec<String>>, PaycoError>)
    ensures
        match r {
            Ok(records) => tab_separated_records(text@) == Some(records.deep_view()),
            Err(_) => tab_separated_records(text@) is None,
        },
{
    match read_tab_separated(text) {
        Ok(records) => Ok(records),
        Err(e) => Err(PaycoError::Records(e)),
    }
}

/// The four amounts of a trade record (fields 16, 17, 20 and 21), already
/// read as numbers.
#[derive(Clone, Copy, Debug, PartialEq, Eq)]
pub struct PaycoAmounts {
    pub sales_amt: i32,
    pub merchant_fee: i32,
    pub vat: i32,
    pub paid_amt: i32,
}

/// Whether the row of a trade record can be made: it has the 22 fields that
/// are read, and its fields 0 (the paid date) and 3 (the trade date) can be sliced.
pub open spec fn payco_record_ok(record: Seq<Seq<char>>) -> bool {
    &&& record.len() >= 22
    &&& date_text_ok(record[0])
    &&& date_text_ok(record[3])
}

/// The row of a Payco trade record.
pub open spec fn payco_payment(record: Seq<Seq<char>>, amounts: PaycoAmounts) -> PaymentView {
    PaymentView {
        payment_id: settle_payment_id("PC"@, record[0]),
        gateway: "SP"@,
        settle_co: "PC"@,
        merchant_id: "IBSPCKRW"@,
        paid_date: dashed_date(record[0]),
        rcv_date: dashed_date(record[3]),
        sales_date: dashed_date(record[3]),
        auth: record[10],
        card_no: Seq::empty(),
        sales_amt: amounts.sales_amt,
        merchant_fee: amounts.merchant_fee,
        other_fee: 0,
        vat: amounts.vat,
        paid_amt: amounts.paid_amt,
        cc_gubun: Seq::empty(),
        sales_gubun: Seq::empty(),
        maeib_gubun: "OK"@,
    }
}

/// Converts one Payco trade record into a payment row.
pub fn convert_to_payment_payco(record: &Vec<String>, amounts: PaycoAmounts) -> (p: Payment)
    requires
        payco_record_ok(record.deep_view()),
    ensures
        p@ == payco_payment(record.deep_view(), amounts),
        p.sales_amt == amounts.sales_amt,
        p.merchant_fee == amounts.merchant_fee,
        p.vat == amounts.vat,
        p.paid_amt == amounts.paid_amt,
        p.other_fee == 0,
        p.auth@ == record[10]@,
        p.paid_date@ == dashed_date(record[0]@),
        p.sales_date@ == dashed_date(record[3]@),
        p.rcv_date@ == p.sales_date@,
{
    assert(record.deep_view()[0] == record[0]@);
    assert(record.deep_view()[3] == record[3]@);
    assert(record.deep_view()[10] == record[10]@);
    let traded = format_date(record[3].as_str());
    Payment {
        payment_id: payment_id("PC", record[0].as_str()),
        gateway: String::from_str("SP"),
        settle_co: String::from_str("PC"),
        merchant_id: String::from_str("IBSPCKRW"),
        paid_date: format_date(record[0].as_str()),
        rcv_date: traded.clone(),
        sales_date: traded,
        auth: record[10].clone(),
        card_no: String::new(),
        sales_amt: amounts.sales_amt,
        merchant_fee: amounts.merchant_fee,
        other_fee: 0,
        vat: amounts.vat,
        paid_amt: amounts.paid_amt,
        cc_gubun: String::new(),
        sales_gubun: String::new(),
        maeib_gubun: String::from_str("OK"),
    }
}

/// Converts the trade records of a download, each with its amounts, in order.
pub fn payco_payments(records: &Vec<Vec<String>>, amounts: &Vec<PaycoAmounts>) -> (r: Vec<Payment>)
    requires
        records.len() == amounts.len(),
        forall|i: int| 0 <= i < records.len() ==> #[trigger] payco_record_ok(records[i].deep_view()),
    ensures
        r.len() == records.len(),
        forall|i: int|
            0 <= i < r.len() ==> #[trigger] r[i]@ == payco_payment(records[i].deep_view(), amounts[i]),
{
    let mut out: Vec<Payment> = Vec::new();
    let mut i: usize = 0;
    while i < records.len()
        invariant
            records.len() == amounts.len(),
            forall|k: int| 0 <= k < records.len() ==> #[trigger] payco_record_ok(records[k].deep_view()),
            i <= records.len(),
            out.len() == i,
            forall|j: int|
                0 <= j < i ==> #[trigger] out[j]@ == payco_payment(records[j].deep_view(), amounts[j]),
        decreases records.len() - i,
    {
        out.push(convert_to_payment_payco(&records[i], amounts[i]));
        i = i + 1;
    }
    out
}

/// The download request of the trade check of `sales_date` for the merchant
/// `customer_id`, authorized by `api_key`.
pub fn payco_download_url(customer_id: &str, sales_date: &str, api_key: &str) -> (r: String)
    ensures
        r@ == "https://api-partner-bill.payco.com/pgTradeCheck/download/pay?serviceCode="@
            + "SB_PAY_D"@ + "&mrcCode="@ + customer_id@ + "&ymd="@ + sales_date@ + "&token="@
            + api_key@ + "&version=1.0"@,
{
    let mut r = String::from_str(
        "https://api-partner-bill.payco.com/pgTradeCheck/download/pay?serviceCode=",
    );
    r.append("SB_PAY_D");
    r.append("&mrcCode=");
    r.append(customer_id);
    r.append("&ymd=");
    r.append(sales_date);
    r.append("&token=");
    r.append(api_key);
    r.append("&version=1.0");
    r
}

/// A Payco row is the settlement row of `PC` for its paid date (field 0)
/// whenever its trade date (field 3) is written as the same dashed date: the
/// id names the paid date while the row's dates are the trade date.
pub proof fn lemma_payco_row(record: Seq<Seq<char>>, amounts: PaycoAmounts)
    requires
        payco_record_ok(record),
        dashed_date(record[0]) == dashed_date(record[3]),
    ensures
        is_settlement_row(payco_payment(record, amounts), "PC"@, record[0]),
{
}

/// The amounts of a Payco row are the four amounts read from its record,
/// unchanged whatever their sign (refunds included); its authorization is
/// field 10 and its paid date field 0.
pub proof fn lemma_payco_amounts(record: Seq<Seq<char>>, amounts: PaycoAmounts)
    requires
        payco_record_ok(record),
    ensures
        payco_payment(record, amounts).sales_amt == amounts.sales_amt,
        payco_payment(record, amounts).merchant_fee == amounts.merchant_fee,
        payco_payment(record, amounts).vat == amounts.vat,
        payco_payment(record, amounts).paid_amt == amounts.paid_amt,
        payco_payment(record, amounts).other_fee == 0,
        payco_payment(record, amounts).auth == record[10],
        payco_payment(record, amounts).paid_date == dashed_date(record[0]),
{
}

} // verus!
