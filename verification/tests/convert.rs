use settlement::payment::common::Payment;
use settlement::payment::jinairpay::{convert_to_payment_jinairpay, jinairpay_payments, JinairPayTransactionItem};
use settlement::payment::kakaopay::{convert_to_payment_kakaopay, kakaopay_payments, KakaoTransactionItem};
use settlement::payment::naverpay::{convert_to_payment_naverpay, naverpay_payments, NaverPayTransactionItem};
use settlement::payment::payco::{convert_to_payment_payco, payco_payments, PaycoAmounts};
use settlement::payment::tosspay::{convert_to_payment_tosspay, tosspay_payments, TossPayTransactionItem};

fn s(text: &str) -> String {
    text.to_string()
}

fn kakao_item(tid: &str, amount: i32) -> KakaoTransactionItem {
    KakaoTransactionItem {
        cid: s("C123"),
        tid: s(tid),
        aid: s("A1"),
        approved_at: s("2024-01-05T10:00:00"),
        partner_order_id: s("ORD-1"),
        payment_method_type: s("CARD"),
        payment_action_type: s("PAYMENT"),
        currency: s("KRW"),
        amount,
        point_amount: 0,
        discount_amount: 0,
        green_deposit: 0,
        fee: 330,
        fee_vat: 33,
        amount_payable: amount - 363,
        deposit_date: s("2024-01-10"),
        payment_detail_action_type: s("NORMAL"),
        interest_free_fee: 12,
        interest_free_fee_vat: 1,
    }
}

fn naver_item(order_id: &str) -> NaverPayTransactionItem {
    NaverPayTransactionItem {
        settle_basis_date: s("20240105"),
        settle_expect_date: s("20240108"),
        order_id: s(order_id),
        product_order_type: s("PROD_ORDER"),
        settle_type: s("NORMAL_SETTLE"),
        pay_settle_amount: 50000,
        total_commission_amount: -1500,
        free_installment_commission_amount: -200,
        selling_interlock_commission_amount: -300,
        settle_expect_amount: 48000,
    }
}

fn jinair_item(cid: &str, usestate: i32) -> JinairPayTransactionItem {
    JinairPayTransactionItem {
        approve_date: s("20240105"),
        cancel_date: s(""),
        settle_date: s("20240112"),
        pgcode: s("creditcard"),
        user_id: s("u1"),
        user_name: s("Kim"),
        tid: s("T1"),
        order_no: s("O1"),
        amount: 120000,
        settle_amount: 116400,
        status_code: 0,
        clientid: s("jinair"),
        pay_type: 1,
        catid: s("CAT"),
        usestate,
        cid: s(cid),
        company_regnum: s("000-00-00000"),
    }
}

fn toss_item(order_no: &str) -> TossPayTransactionItem {
    TossPayTransactionItem {
        transaction_type: s("PAY"),
        transaction_id: s("TX1"),
        pay_token: s("tok"),
        product_desc: s("ticket"),
        order_no: s(order_no),
        pay_method: s("TOSS_MONEY"),
        amount: 10000,
        fee: -300,
        vat: -30,
        fee_vat_sum: -330,
        settle_date: s("20240105"),
        due_date: s("20240109"),
    }
}

fn assert_common(p: &Payment, code: &str, merchant: &str, id: &str, day: &str) {
    assert_eq!(p.gateway, "SP");
    assert_eq!(p.settle_co, code);
    assert_eq!(p.merchant_id, merchant);
    assert_eq!(p.payment_id, id);
    assert_eq!(p.rcv_date, day);
    assert_eq!(p.sales_date, day);
    assert_eq!(p.card_no, "");
}

#[test]
fn kakaopay_row_takes_the_settle_date() {
    let p = convert_to_payment_kakaopay("20240105", kakao_item("T0001", 15000));
    assert_common(&p, "NK", "IBSNKKRW", "NK_SP_20240105", "2024-01-05");
    assert_eq!(p.paid_date, "2024-01-10");
    assert_eq!(p.auth, "T0001");
    assert_eq!(p.sales_amt, 15000);
    assert_eq!(p.merchant_fee, 330);
    assert_eq!(p.other_fee, 12);
    assert_eq!(p.vat, 33);
    assert_eq!(p.paid_amt, 15000 - 363);
    assert_eq!(p.cc_gubun, "CARD");
    assert_eq!(p.sales_gubun, "PAYMENT");
    assert_eq!(p.maeib_gubun, "OK");
}

#[test]
fn kakaopay_batch_keeps_order() {
    let rows = kakaopay_payments("20240105", vec![kakao_item("A", 1000), kakao_item("B", 2000)]);
    assert_eq!(rows.len(), 2);
    assert_eq!(rows[0].auth, "A");
    assert_eq!(rows[1].auth, "B");
    assert_eq!(rows[1].sales_amt, 2000);
    assert!(kakaopay_payments("20240105", vec![]).is_empty());
}

#[test]
fn naverpay_other_fee_adds_both_commissions() {
    let p = convert_to_payment_naverpay(naver_item("2024010512345"));
    assert_common(&p, "NP", "IBSNPKRW", "NP_SP_20240105", "2024-01-05");
    assert_eq!(p.paid_date, "2024-01-08");
    assert_eq!(p.auth, "2024010512345");
    assert_eq!(p.sales_amt, 50000);
    assert_eq!(p.merchant_fee, -1500);
    assert_eq!(p.other_fee, -500);
    assert_eq!(p.vat, 0);
    assert_eq!(p.paid_amt, 48000);
    assert_eq!(p.cc_gubun, "PROD_ORDER");
    assert_eq!(p.sales_gubun, "NORMAL_SETTLE");
    assert_eq!(p.maeib_gubun, "OK");
}

#[test]
fn naverpay_batch_keeps_order() {
    let rows = naverpay_payments(vec![naver_item("1"), naver_item("2"), naver_item("3")]);
    let auths: Vec<&str> = rows.iter().map(|p| p.auth.as_str()).collect();
    assert_eq!(auths, vec!["1", "2", "3"]);
}

#[test]
fn jinairpay_fee_is_what_settlement_keeps() {
    let p = convert_to_payment_jinairpay(jinair_item("CID9", 1));
    assert_common(&p, "JP", "IBSJPKRW", "JP_SP_20240105", "2024-01-05");
    assert_eq!(p.paid_date, "2024-01-12");
    assert_eq!(p.auth, "CID9");
    assert_eq!(p.sales_amt, 120000);
    assert_eq!(p.merchant_fee, 3600);
    assert_eq!(p.paid_amt, 116400);
    assert_eq!(p.merchant_fee + p.paid_amt, p.sales_amt);
    assert_eq!(p.other_fee, 0);
    assert_eq!(p.vat, 0);
    assert_eq!(p.cc_gubun, "creditcard");
    assert_eq!(p.sales_gubun, "1");
    assert_eq!(p.maeib_gubun, "");
}

#[test]
fn jinairpay_use_state_in_decimal() {
    assert_eq!(convert_to_payment_jinairpay(jinair_item("c", -12)).sales_gubun, "-12");
    assert_eq!(convert_to_payment_jinairpay(jinair_item("c", 0)).sales_gubun, "0");
    assert_eq!(convert_to_payment_jinairpay(jinair_item("c", i32::MIN)).sales_gubun, "-2147483648");
    assert_eq!(convert_to_payment_jinairpay(jinair_item("c", 305)).sales_gubun, "305");
    let rows = jinairpay_payments(vec![jinair_item("x", 1), jinair_item("y", 2)]);
    assert_eq!(rows[0].auth, "x");
    assert_eq!(rows[1].sales_gubun, "2");
}

#[test]
fn tosspay_auth_is_second_order_field() {
    let p = convert_to_payment_tosspay(toss_item("JINAIR_AB12CD_001"));
    assert_common(&p, "TP", "IBSTPKRW", "TP_SP_20240105", "2024-01-05");
    assert_eq!(p.paid_date, "2024-01-09");
    assert_eq!(p.auth, "AB12CD");
    assert_eq!(p.sales_amt, 10000);
    assert_eq!(p.merchant_fee, 300);
    assert_eq!(p.vat, 30);
    assert_eq!(p.paid_amt, 9670);
    assert_eq!(p.paid_amt + p.merchant_fee + p.vat, p.sales_amt);
    assert_eq!(p.cc_gubun, "TOSS_MONEY");
    assert_eq!(p.sales_gubun, "");
    assert_eq!(p.maeib_gubun, "OK");
}

#[test]
fn tosspay_auth_edge_fields() {
    assert_eq!(convert_to_payment_tosspay(toss_item("A_B")).auth, "B");
    assert_eq!(convert_to_payment_tosspay(toss_item("A_")).auth, "");
    assert_eq!(convert_to_payment_tosspay(toss_item("_x_y_z")).auth, "x");
    assert_eq!(convert_to_payment_tosspay(toss_item("주문_번호_1")).auth, "번호");
    let rows = tosspay_payments(vec![toss_item("a_1"), toss_item("b_2")]);
    assert_eq!(rows[0].auth, "1");
    assert_eq!(rows[1].auth, "2");
}

#[test]
fn payco_row_takes_paid_and_trade_dates() {
    let mut record: Vec<String> = (0..22).map(|i| format!("f{}", i)).collect();
    record[0] = s("20240110");
    record[3] = s("20240105");
    record[10] = s("AUTH77");
    let amounts = PaycoAmounts { sales_amt: 5000, merchant_fee: 150, vat: 15, paid_amt: 4835 };
    let p = convert_to_payment_payco(&record, amounts);
    assert_eq!(p.payment_id, "PC_SP_20240110");
    assert_eq!(p.gateway, "SP");
    assert_eq!(p.settle_co, "PC");
    assert_eq!(p.merchant_id, "IBSPCKRW");
    assert_eq!(p.paid_date, "2024-01-10");
    assert_eq!(p.rcv_date, "2024-01-05");
    assert_eq!(p.sales_date, "2024-01-05");
    assert_eq!(p.auth, "AUTH77");
    assert_eq!(p.card_no, "");
    assert_eq!((p.sales_amt, p.merchant_fee, p.other_fee, p.vat, p.paid_amt), (5000, 150, 0, 15, 4835));
    assert_eq!(p.cc_gubun, "");
    assert_eq!(p.sales_gubun, "");
    assert_eq!(p.maeib_gubun, "OK");
}

#[test]
fn payco_row_with_one_date_is_a_settlement_row() {
    let mut record: Vec<String> = (0..22).map(|i| format!("f{}", i)).collect();
    record[0] = s("20240105");
    record[3] = s("20240105");
    let amounts = PaycoAmounts { sales_amt: 1, merchant_fee: 0, vat: 0, paid_amt: 1 };
    let p = convert_to_payment_payco(&record, amounts);
    assert_common(&p, "PC", "IBSPCKRW", "PC_SP_20240105", "2024-01-05");
}

#[test]
fn payco_batch_pairs_records_with_amounts() {
    let record = |paid: &str, auth: &str| {
        let mut r: Vec<String> = (0..22).map(|i| format!("f{}", i)).collect();
        r[0] = s(paid);
        r[3] = s("20240105");
        r[10] = s(auth);
        r
    };
    let records = vec![record("20240110", "A"), record("20240111", "B")];
    let amounts = vec![
        PaycoAmounts { sales_amt: 100, merchant_fee: 3, vat: 0, paid_amt: 97 },
        PaycoAmounts { sales_amt: 200, merchant_fee: 6, vat: 1, paid_amt: 193 },
    ];
    let rows = payco_payments(&records, &amounts);
    assert_eq!(rows.len(), 2);
    assert_eq!((rows[0].auth.as_str(), rows[0].payment_id.as_str(), rows[0].sales_amt), ("A", "PC_SP_20240110", 100));
    assert_eq!((rows[1].auth.as_str(), rows[1].payment_id.as_str(), rows[1].vat), ("B", "PC_SP_20240111", 1));
    assert!(payco_payments(&vec![], &vec![]).is_empty());
}
