use settlement::date::{compact_date, format_date, CalendarDate};
use settlement::paycode::{parse_pay_code, PayCode};
use settlement::payment::jinairpay::jinairpay_settlement_url;
use settlement::payment::kakaopay::kakaopay_file_info_url;
use settlement::payment::naverpay::{naverpay_settlement_url, NaverPaySettleData, PageCursor};
use settlement::payment::payco::{payco_download_url, payco_records, PaycoError};
use settlement::payment::util::{api_key_var_name, authorization_value, csv_file_name, download_file_name};
use settlement::text::{decimal_string, second_field_of, slice_bytes};

#[test]
fn format_date_dashes_the_first_eight_bytes() {
    assert_eq!(format_date("20240105"), "2024-01-05");
    assert_eq!(format_date("20240105123000"), "2024-01-05");
    assert_eq!(format_date("2024-01-05"), "2024--0-1-");
    assert_eq!(format_date("abécdé"), "abé-cd-é");
}

#[test]
fn format_date_then_undash_gives_back_the_date() {
    let dashed = format_date("19991231");
    assert_eq!(dashed.len(), 10);
    assert_eq!(dashed.replace('-', ""), "19991231");
}

#[test]
fn slice_bytes_follows_utf8_offsets() {
    assert_eq!(slice_bytes("가나다", 3, 6), "나");
    assert_eq!(slice_bytes("abc", 1, 1), "");
    assert_eq!(slice_bytes("abc", 0, 3), "abc");
}

#[test]
fn decimal_text_of_extremes() {
    assert_eq!(decimal_string(0), "0");
    assert_eq!(decimal_string(9), "9");
    assert_eq!(decimal_string(10), "10");
    assert_eq!(decimal_string(-7), "-7");
    assert_eq!(decimal_string(i64::MAX), i64::MAX.to_string());
    assert_eq!(decimal_string(i64::MIN), i64::MIN.to_string());
}

#[test]
fn second_field_between_separators() {
    assert_eq!(second_field_of("a_bc_d", '_'), "bc");
    assert_eq!(second_field_of("a_bc", '_'), "bc");
    assert_eq!(second_field_of("__", '_'), "");
}

#[test]
fn compact_date_as_chrono_writes_it() {
    assert_eq!(compact_date(&CalendarDate { year: 2024, month: 1, day: 5 }), "20240105");
    assert_eq!(compact_date(&CalendarDate { year: 987, month: 12, day: 31 }), "09871231");
    assert_eq!(compact_date(&CalendarDate { year: -5, month: 3, day: 9 }), "-00050309");
    assert_eq!(compact_date(&CalendarDate { year: 12345, month: 6, day: 7 }), "+123450607");
}

#[test]
fn compact_date_pads_any_month_and_day() {
    assert_eq!(compact_date(&CalendarDate { year: 2024, month: 123, day: 4567 }), "20241234567");
    assert_eq!(compact_date(&CalendarDate { year: 0, month: 0, day: 0 }), "00000000");
}

#[test]
fn default_date_can_be_dashed() {
    let date = compact_date(&CalendarDate { year: 2024, month: 2, day: 27 });
    assert_eq!(date, "20240227");
    assert_eq!(format_date(&date), "2024-02-27");
}

#[test]
fn pay_codes() {
    assert_eq!(parse_pay_code("TP"), Some(PayCode::TossPay));
    assert_eq!(parse_pay_code("NK"), Some(PayCode::KakaoPay));
    assert_eq!(parse_pay_code("NP"), Some(PayCode::NaverPay));
    assert_eq!(parse_pay_code("PC"), Some(PayCode::Payco));
    assert_eq!(parse_pay_code("JP"), Some(PayCode::JinairPay));
    assert_eq!(parse_pay_code("ALL"), Some(PayCode::All));
    assert_eq!(parse_pay_code("SP"), None);
    assert_eq!(parse_pay_code("tp"), None);
    assert_eq!(parse_pay_code(""), None);
}

#[test]
fn request_texts() {
    assert_eq!(
        kakaopay_file_info_url("20240105", "B1"),
        "https://biz-dapi.kakaopay.com/files/v1/settlements/history?target_date=20240105&bucket_id=B1"
    );
    assert_eq!(
        naverpay_settlement_url("20240105", 12),
        "https://apis.naver.com/naverpaysettle-payment/naverpaysettle/v1/settlements/by-case?periodType=SETTLE_BASIS_DATE&startDate=20240105&endDate=20240105&pageNumber=12"
    );
    assert_eq!(
        jinairpay_settlement_url("20240105", "20240108"),
        "https://pgapi.payletter.com/v1.0/payments/settle?client_id=jinair&date=20240105&date_settle=20240108"
    );
    assert_eq!(
        payco_download_url("M1", "20240105", "KEY"),
        "https://api-partner-bill.payco.com/pgTradeCheck/download/pay?serviceCode=SB_PAY_D&mrcCode=M1&ymd=20240105&token=KEY&version=1.0"
    );
    assert_eq!(api_key_var_name("NP_APIKEY_", 5), "NP_APIKEY_5");
    assert_eq!(authorization_value("PLKEY", "abc"), "PLKEY abc");
    assert_eq!(csv_file_name("NK", "20240105"), "./data/_NK_SP_20240105.csv");
}

#[test]
fn download_names() {
    assert_eq!(download_file_name("/files/report.csv"), "report.csv");
    assert_eq!(download_file_name("/files/"), "tmp.bin");
    assert_eq!(download_file_name("/"), "tmp.bin");
    assert_eq!(download_file_name(""), "tmp.bin");
    assert_eq!(download_file_name("mailto-path"), "tmp.bin");
    assert_eq!(download_file_name("/a"), "a");
}

fn page(total: Option<i32>) -> NaverPaySettleData {
    NaverPaySettleData { list: vec![], total_count: 0, response_count: 0, total_page_count: total, current_page: 1 }
}

#[test]
fn paging_visits_each_page_once() {
    let mut cursor = PageCursor::new();
    let mut asked = vec![];
    let totals = [Some(3), None, Some(3)];
    let mut i = 0;
    while cursor.has_next() {
        asked.push(cursor.page_no);
        cursor.advance(&page(totals[i]));
        i += 1;
    }
    assert_eq!(asked, vec![1, 2, 3]);
}

#[test]
fn paging_without_count_stops_after_one_page() {
    let mut cursor = PageCursor::new();
    assert!(cursor.has_next());
    cursor.advance(&page(None));
    assert_eq!((cursor.page_no, cursor.total_page), (2, 1));
    assert!(!cursor.has_next());
}

#[test]
fn payco_records_skip_the_header() {
    let text = "a\tb\tc\n1\t2\t3\n4\t5\t6\n";
    let records = payco_records(text).unwrap();
    assert_eq!(records, vec![vec!["1", "2", "3"], vec!["4", "5", "6"]]);
    assert!(payco_records("only\theader\n").unwrap().is_empty());
}

#[test]
fn payco_records_refuse_ragged_tables() {
    match payco_records("a\tb\n1\t2\n3\n") {
        Err(PaycoError::Records(_)) => {}
        Ok(_) => panic!("a ragged table was read"),
    }
}
