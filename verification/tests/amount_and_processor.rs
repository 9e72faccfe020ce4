use ecommerce_core::amount::{amount_represent_grain, Dec, DecParseError, PayLineAmountError};
use ecommerce_core::charge::{
    Charge3partyStripeModel, StripeCheckoutPaymentStatusModel, StripeSessionStatusModel,
};
use ecommerce_core::dto::{
    ShopLocationRepDto, StoreEmailRepDto, StorePhoneRepDto, StoreProfileReplicaDto,
};
use ecommerce_core::stripe_rsc::{
    AppProcessorErrorReason, CreateConnectAccount, CreateRefund, RefundResult, RefundStatus,
    RefundReason,
};
use ecommerce_core::types::{CountryCode, CurrencyDto};

#[test]
fn dec_parse_and_arithmetic() {
    let a = Dec::from_str("144").unwrap();
    assert_eq!((a.m, a.e), (144, 0));
    let b = Dec::from_str("-3.50").unwrap();
    assert_eq!((b.m, b.e), (-350, 2));
    let c = Dec::from_str("0.000000001").unwrap();
    assert_eq!((c.m, c.e), (1, 9));
    assert_eq!(Dec::from_str("").unwrap_err(), DecParseError::BadShape);
    assert_eq!(Dec::from_str("1..2").unwrap_err(), DecParseError::BadShape);
    assert_eq!(Dec::from_str("12.").unwrap_err(), DecParseError::BadShape);
    assert_eq!(Dec::from_str("1.0000000001").unwrap_err(), DecParseError::TooPrecise);
    assert_eq!(Dec::from_str("99999999999999999999").unwrap_err(), DecParseError::Overflow);

    let x = Dec::from_str("10.5").unwrap();
    let y = Dec::from_str("3.25").unwrap();
    let d = x.checked_sub(&y).unwrap();
    assert!(d.eq_value(&Dec::from_str("7.25").unwrap()));
    let s = x.checked_add(&y).unwrap();
    assert!(s.eq_value(&Dec::from_str("13.75").unwrap()));
    let p = y.checked_mul_u32(4).unwrap();
    assert!(p.eq_value(&Dec::from_str("13").unwrap()));
    assert!(Dec::from_str("2.0").unwrap().eq_value(&Dec::from_str("2").unwrap()));
    assert!(y.le(&x));
    assert!(!x.le(&y));
    assert!(Dec::from_str("-1").unwrap().is_sign_negative());
}

#[test]
fn amount_grain_representation() {
    // sixteen dollars in hundredths of a cent carried at eight extra digits
    let v = Dec::from_str("16").unwrap();
    let g = amount_represent_grain(&v, CurrencyDto::USD).unwrap();
    assert_eq!(g, 16_0_000_000_000);
    let w = Dec::from_str("0.01").unwrap();
    let g = amount_represent_grain(&w, CurrencyDto::USD).unwrap();
    assert_eq!(g, 100_000_000);
}

fn stripe_detail() -> Charge3partyStripeModel {
    Charge3partyStripeModel {
        checkout_session_id: "cs_123".to_string(),
        payment_intent_id: "pi_456".to_string(),
        transfer_group: "grp_789".to_string(),
        expiry: 1_700_003_600_000,
        session_state: StripeSessionStatusModel::open,
        payment_state: StripeCheckoutPaymentStatusModel::paid,
    }
}

#[test]
fn processor_amount_overflow_rejected() {
    let unit = Dec::from_str("92233720368.54").unwrap();
    let r = amount_represent_grain(&unit, CurrencyDto::USD);
    assert_eq!(r.unwrap_err(), PayLineAmountError::Overflow);
    // the refund request carrying this amount never forms, so no
    // processor call is issued for it
    let r = CreateRefund::try_from_parts(CurrencyDto::USD, &unit, &stripe_detail());
    assert!(matches!(r.unwrap_err(), AppProcessorErrorReason::AmountOverflow(_)));
}

#[test]
fn refund_request_needs_payment_intent() {
    let mut detail = stripe_detail();
    detail.payment_intent_id = String::new();
    let amt = Dec::from_str("48").unwrap();
    let r = CreateRefund::try_from_parts(CurrencyDto::USD, &amt, &detail);
    match r.unwrap_err() {
        AppProcessorErrorReason::ThirdParty(msg) => assert_eq!(msg.as_str(), "missing-payment-intent"),
        other => panic!("unexpected error {:?}", other),
    }
    let ok = CreateRefund::try_from_parts(CurrencyDto::USD, &amt, &stripe_detail()).unwrap();
    assert_eq!(ok.payment_intent.as_str(), "pi_456");
    assert_eq!(ok.amount_minor, 4800);
}

#[test]
fn refund_result_validation() {
    let amt = Dec::from_str("48").unwrap();
    let req = CreateRefund::try_from_parts(CurrencyDto::USD, &amt, &stripe_detail()).unwrap();
    let good = RefundResult {
        id: "re_1".to_string(),
        amount: 4800,
        reason: RefundReason::requested_by_customer,
        payment_intent: "pi_456".to_string(),
        status: RefundStatus::succeeded,
    };
    assert!(good.validate(&req).is_ok());
    let mut corrupted = good.clone();
    corrupted.payment_intent = "pi_999".to_string();
    match corrupted.validate(&req).unwrap_err() {
        AppProcessorErrorReason::ThirdParty(msg) => {
            assert_eq!(msg.as_str(), "corrupted-payment-intent:pi_999")
        }
        other => panic!("unexpected error {:?}", other),
    }
    let mut pending = good.clone();
    pending.status = RefundStatus::pending;
    match pending.validate(&req).unwrap_err() {
        AppProcessorErrorReason::ThirdParty(msg) => {
            assert_eq!(msg.as_str(), "refund-status:pending")
        }
        other => panic!("unexpected error {:?}", other),
    }
    let mut anon = good.clone();
    anon.id = String::new();
    match anon.validate(&req).unwrap_err() {
        AppProcessorErrorReason::ThirdParty(msg) => assert_eq!(msg.as_str(), "missing-refund-id"),
        other => panic!("unexpected error {:?}", other),
    }
}

fn store_profile() -> StoreProfileReplicaDto {
    StoreProfileReplicaDto {
        label: "Fruit Stand".to_string(),
        active: true,
        supervisor_id: 9,
        emails: Some(vec![
            StoreEmailRepDto { addr: "owner@stand.dev".to_string() },
            StoreEmailRepDto { addr: "support@stand.dev".to_string() },
        ]),
        phones: Some(vec![StorePhoneRepDto {
            country_code: "886".to_string(),
            line_number: "912345678".to_string(),
        }]),
        location: Some(ShopLocationRepDto {
            country: CountryCode::TW,
            locality: "Taipei".to_string(),
            street: "Main Rd".to_string(),
            detail: "stall 3".to_string(),
            floor: 1,
        }),
        staff: None,
    }
}

#[test]
fn onboard_account_from_store_profile() {
    let out = CreateConnectAccount::try_from_dto(store_profile()).unwrap();
    assert_eq!(out.country, CountryCode::TW);
    assert_eq!(out.email.as_str(), "owner@stand.dev");
    assert_eq!(out.business_profile.name.as_str(), "Fruit Stand");
    assert_eq!(out.business_profile.support_email.as_str(), "support@stand.dev");
    assert_eq!(out.business_profile.support_phone.as_str(), "912345678-886");
    assert!(out.capabilities.transfers.requested);

    let mut bad = store_profile();
    bad.active = false;
    bad.emails = Some(Vec::new());
    match CreateConnectAccount::try_from_dto(bad).unwrap_err() {
        AppProcessorErrorReason::InvalidStoreProfileDto(es) => {
            let es: Vec<String> = es;
            assert!(es.iter().any(|e| e.as_str() == "not-active"));
            assert!(es.iter().any(|e| e.as_str() == "missing-email"));
        }
        other => panic!("unexpected error {:?}", other),
    }
}
