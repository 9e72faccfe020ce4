use ecommerce_core::amount::{Dec, PayLineAmountModel};
use ecommerce_core::charge::{ChargeBuyerModel, ChargeBuyerMetaModel, ChargeLineBuyerModel, OrderCurrencySnapshot};
use ecommerce_core::dto::{
    ChargeAmountOlineDto, RefundCompletionOlineReqDto, RefundCompletionReqDto,
    RefundLineApprovalDto, RefundLineRejectDto, ReplicaPayAmountDto, StoreStaffRepDto,
};
use ecommerce_core::order::{OrderLineModel, OrderLineModelSet, OrderLinePriceModel, OrderLineQtyModel};
use ecommerce_core::refund::RefundReqResolutionModel;
use ecommerce_core::types::{BaseProductIdentity, CountryCode, CurrencyDto, ProductType};
use ecommerce_core::usecase::{
    charge_check_owner, charge_lines_validate, charge_on_lock_acquired, ChargeCreateUcError,
    MerchantProfileModel, MerchantReportChargeUseCase,
};

fn saved_order() -> OrderLineModelSet {
    OrderLineModelSet {
        order_id: "beadfeed".to_string(),
        owner_id: 124,
        create_time: 1_700_000_000_000,
        lines: vec![OrderLineModel {
            seller_id: 49,
            product_type: ProductType::Item,
            product_id: 195,
            reserved_until: 1_700_003_600_000,
            qty: OrderLineQtyModel { reserved: 9, paid: 2, paid_last_update: None },
            price: OrderLinePriceModel { unit: 16, total: 144 },
        }],
    }
}

fn claim(qty: u32, unit: &str, total: &str) -> ChargeAmountOlineDto {
    ChargeAmountOlineDto {
        seller_id: 49,
        product_id: 195,
        product_type: ProductType::Item,
        quantity: qty,
        amount: ReplicaPayAmountDto { unit: unit.to_string(), total: total.to_string() },
    }
}

#[test]
fn charge_claim_validation() {
    let saved = saved_order();
    // seven of nine are unpaid, so seven at the right price pass
    assert!(charge_lines_validate(&saved, &vec![claim(7, "16", "112")]).is_ok());
    // asking more than the unpaid remainder is refused
    let e = charge_lines_validate(&saved, &vec![claim(8, "16", "128")]).unwrap_err();
    assert!(matches!(e, ChargeCreateUcError::ClientBadRequest(_)));
    // a total that is not unit times quantity is refused
    let e = charge_lines_validate(&saved, &vec![claim(7, "16", "113")]).unwrap_err();
    assert!(matches!(e, ChargeCreateUcError::ClientBadRequest(_)));
    // an unknown product is refused
    let mut other = claim(1, "16", "16");
    other.product_id = 9999;
    let e = charge_lines_validate(&saved, &vec![other]).unwrap_err();
    assert!(matches!(e, ChargeCreateUcError::ClientBadRequest(_)));
}

#[test]
fn charge_owner_and_lock_decisions() {
    let saved = saved_order();
    assert!(charge_check_owner(&saved, 124, "beadfeed").is_ok());
    assert_eq!(
        charge_check_owner(&saved, 125, "beadfeed").unwrap_err(),
        ChargeCreateUcError::OrderOwnerMismatch
    );
    assert_eq!(
        charge_check_owner(&saved, 124, "feedbead").unwrap_err(),
        ChargeCreateUcError::OrderOwnerMismatch
    );
    assert!(charge_on_lock_acquired(true).is_ok());
    assert_eq!(
        charge_on_lock_acquired(false).unwrap_err(),
        ChargeCreateUcError::LoadOrderConflict
    );
}

#[test]
fn report_access_decision() {
    let uc = MerchantReportChargeUseCase::new(77);
    let now = 1_700_000_000_000;
    let prof = MerchantProfileModel {
        merchant_id: 49,
        supervisor_id: 9,
        staff: vec![StoreStaffRepDto { staff_id: 77, start_after: now - 1000, end_before: now + 1000 }],
    };
    assert!(uc.check_access(49, &Some(prof.clone()), now).is_ok());
    // outside the staff window the same caller is denied
    let r = uc.check_access(49, &Some(prof.clone()), now + 5000);
    assert!(matches!(r.unwrap_err(), ecommerce_core::usecase::MerchantReportChargeUcError::PermissionDenied(77)));
    // a missing merchant is reported as missing
    let r = uc.check_access(49, &None, now);
    assert!(matches!(r.unwrap_err(), ecommerce_core::usecase::MerchantReportChargeUcError::MissingMerchant(49)));
    // the supervisor always may
    let sup = MerchantReportChargeUseCase::new(9);
    assert!(sup.check_access(49, &Some(prof), now).is_ok());
}

fn charge_with_currencies() -> ChargeBuyerModel {
    let meta = ChargeBuyerMetaModel::from_parts("beadfeed".to_string(), 124, 1_700_000_000_000);
    let line = ChargeLineBuyerModel::from_parts(
        BaseProductIdentity { store_id: 49, product_type: ProductType::Item, product_id: 195 },
        PayLineAmountModel {
            unit: Dec::from_str("16").unwrap(),
            total: Dec::from_str("144").unwrap(),
            qty: 9,
        },
        PayLineAmountModel { unit: Dec::from_str("16").unwrap(), total: Dec::from_str("0").unwrap(), qty: 0 },
    );
    ChargeBuyerModel {
        meta,
        lines: vec![line],
        currency_snapshots: vec![
            (124, OrderCurrencySnapshot { label: CurrencyDto::TWD, rate: Dec::from_str("31.6").unwrap() }),
            (49, OrderCurrencySnapshot { label: CurrencyDto::USD, rate: Dec::from_str("1").unwrap() }),
        ],
    }
}

#[test]
fn refund_resolution_status_lookup() {
    let charge = charge_with_currencies();
    let t = 1_700_000_500_000;
    let req = RefundCompletionReqDto {
        lines: vec![RefundCompletionOlineReqDto {
            product_id: 195,
            product_type: ProductType::Item,
            time_issued: t,
            approval: RefundLineApprovalDto { quantity: 3, amount_total: "48".to_string() },
            reject: RefundLineRejectDto { damaged: 1, fraudulent: 0 },
        }],
    };
    let rsl = RefundReqResolutionModel::try_from_parts(49, &charge, &req).unwrap();
    let hit = rsl.get_status(49, ProductType::Item, 195, t);
    let (reject, amount) = hit.unwrap();
    assert_eq!(reject.damaged, 1);
    assert_eq!(amount.curr_round().qty, 3);
    assert!(amount.curr_round().total.eq_value(&Dec::from_str("48").unwrap()));
    assert_eq!(amount.accumulated().qty, 0);
    // an unresolved product has no status
    assert!(rsl.get_status(49, ProductType::Item, 999, t).is_none());
    // a missing merchant currency is refused
    let mut charge2 = charge_with_currencies();
    charge2.currency_snapshots.pop();
    let e = RefundReqResolutionModel::try_from_parts(49, &charge2, &req).unwrap_err();
    assert!(matches!(e, ecommerce_core::refund::RefundModelError::MissingCurrency(_, _)));
}

#[test]
fn product_type_and_country_codes() {
    assert_eq!(ecommerce_core::types::validate_product_type(1), Ok(ProductType::Item));
    assert_eq!(ecommerce_core::types::validate_product_type(2), Ok(ProductType::Package));
    assert_eq!(ecommerce_core::types::validate_product_type(9), Err(9));
    assert_eq!(ProductType::Package.to_num(), 2);
    assert_eq!(CountryCode::from_label("TW"), CountryCode::TW);
    assert_eq!(CountryCode::from_label("XX"), CountryCode::Unknown);
    assert_eq!(CountryCode::US.to_label().as_str(), "US");
}
