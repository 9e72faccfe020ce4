use ecommerce_core::charge::{
    BuyerPayInState, Charge3partyModel, Charge3partyStripeModel, ChargeBuyerMetaModel,
    ChargeLineBuyerModel, StripeCheckoutPaymentStatusModel, StripeSessionStatusModel,
};
use ecommerce_core::amount::{Dec, PayLineAmountModel};
use ecommerce_core::charge_rows::{
    line_to_row, meta_to_row, row_to_line, row_to_meta, status_from_columns, status_to_columns,
};
use ecommerce_core::error::AppErrorCode;
use ecommerce_core::types::{BaseProductIdentity, ProductType};
use ecommerce_core::usecase::{encode_charge_id, try_parse_charge_id};

fn stripe_detail() -> Charge3partyStripeModel {
    Charge3partyStripeModel {
        checkout_session_id: "cs_123".to_string(),
        payment_intent_id: "pi_456".to_string(),
        transfer_group: "grp_789".to_string(),
        expiry: 1_700_003_600_000,
        session_state: StripeSessionStatusModel::open,
        payment_state: StripeCheckoutPaymentStatusModel::unpaid,
    }
}

#[test]
fn charge_state_progression_monotone() {
    let mut meta = ChargeBuyerMetaModel::from_parts("beadfeed".to_string(), 124, 1_700_000_000_000);
    assert_eq!(*meta.state(), BuyerPayInState::Initialized);
    meta.update_progress(&BuyerPayInState::ProcessorAccepted(1_700_000_001_000));
    assert_eq!(*meta.state(), BuyerPayInState::ProcessorAccepted(1_700_000_001_000));
    meta.update_progress(&BuyerPayInState::ProcessorCompleted(1_700_000_002_000));
    assert_eq!(*meta.state(), BuyerPayInState::ProcessorCompleted(1_700_000_002_000));
    // a backward transition is refused and leaves the state alone
    meta.update_progress(&BuyerPayInState::ProcessorAccepted(1_700_000_003_000));
    assert_eq!(*meta.state(), BuyerPayInState::ProcessorCompleted(1_700_000_002_000));
    // so is falling back to the initial state
    meta.update_progress(&BuyerPayInState::Initialized);
    assert_eq!(*meta.state(), BuyerPayInState::ProcessorCompleted(1_700_000_002_000));
    meta.update_progress(&BuyerPayInState::OrderAppSynced(1_700_000_004_000));
    assert_eq!(*meta.state(), BuyerPayInState::OrderAppSynced(1_700_000_004_000));
}

#[test]
fn charge_status_columns_roundtrip() {
    let state = BuyerPayInState::ProcessorCompleted(1_700_000_002_345);
    let (label, t_acc, t_cmp, t_syn) = status_to_columns(&state).unwrap();
    assert_eq!(label.as_str(), "ProcessorCompleted");
    assert_eq!(t_acc, None);
    assert_eq!(t_cmp, Some(1_700_000_002_345));
    assert_eq!(t_syn, None);
    let back = status_from_columns(label.as_str(), t_acc, t_cmp, t_syn).unwrap();
    assert_eq!(back, state);
    // the initial state is never stored
    assert!(status_to_columns(&BuyerPayInState::Initialized).is_err());
    // a label without its matching timestamp is corruption
    let bad = status_from_columns("ProcessorCompleted", Some(1), None, None);
    assert_eq!(bad.unwrap_err().0, AppErrorCode::DataCorruption);
    // an unknown label is corruption
    let bad = status_from_columns("Whatever", Some(1), Some(2), Some(3), );
    assert_eq!(bad.unwrap_err().0, AppErrorCode::DataCorruption);
}

#[test]
fn charge_meta_row_roundtrip() {
    let mut meta = ChargeBuyerMetaModel::from_parts("beadfeed".to_string(), 124, 1_700_000_000_000);
    meta.update_progress(&BuyerPayInState::ProcessorAccepted(1_700_000_001_234));
    meta.update_3party(Charge3partyModel::Stripe(stripe_detail()));
    let row = meta_to_row(&meta, "opaque-serialised-detail".to_string()).unwrap();
    assert_eq!(row.pay_method.as_str(), "Stripe");
    let back = row_to_meta(124, 1_700_000_000_000, &row, Some(stripe_detail())).unwrap();
    assert_eq!(back.oid().as_str(), "beadfeed");
    assert_eq!(back.owner(), 124);
    assert_eq!(back.create_time(), 1_700_000_000_000);
    assert_eq!(*back.state(), BuyerPayInState::ProcessorAccepted(1_700_000_001_234));
    assert_eq!(*back.method(), Charge3partyModel::Stripe(stripe_detail()));
    // a Stripe row whose detail did not decode is corruption
    let bad = row_to_meta(124, 1_700_000_000_000, &row, None);
    assert_eq!(bad.unwrap_err().0, AppErrorCode::DataCorruption);
    // an unknown pay-method label surfaces as an unsupported method
    let mut odd = row.clone();
    odd.pay_method = "Barter".to_string();
    let bad = row_to_meta(124, 1_700_000_000_000, &odd, Some(stripe_detail()));
    assert_eq!(bad.unwrap_err().0, AppErrorCode::PayMethodUnsupport);
}

#[test]
fn charge_line_row_roundtrip() {
    let line = ChargeLineBuyerModel::from_parts(
        BaseProductIdentity { store_id: 49, product_type: ProductType::Item, product_id: 195 },
        PayLineAmountModel {
            unit: Dec::from_str("16").unwrap(),
            total: Dec::from_str("144").unwrap(),
            qty: 9,
        },
        PayLineAmountModel {
            unit: Dec::from_str("16").unwrap(),
            total: Dec::from_str("48").unwrap(),
            qty: 3,
        },
    );
    let row = line_to_row(&line);
    assert_eq!(row.product_type_num, 1);
    let back = row_to_line(&row).unwrap();
    assert_eq!(back.pid, line.pid);
    assert_eq!(back.amount_orig(), line.amount_orig());
    assert_eq!(back.amount_refunded(), line.amount_refunded());
    // an unknown product type number is corruption
    let mut bad_row = row.clone();
    bad_row.product_type_num = 7;
    assert!(row_to_line(&bad_row).is_err());
}

#[test]
fn charge_token_roundtrip() {
    let token = encode_charge_id(124, 1_700_000_000_000);
    assert_eq!(token.len(), 24);
    let (owner, ctime) = try_parse_charge_id(token.as_str()).unwrap();
    assert_eq!(owner, 124);
    assert_eq!(ctime, 1_700_000_000_000);
    // not hex at all
    assert!(try_parse_charge_id("zz").is_err());
    // valid hex of the wrong length
    assert!(try_parse_charge_id("a0b1").is_err());
}
