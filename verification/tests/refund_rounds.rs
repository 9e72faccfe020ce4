use ecommerce_core::amount::Dec;
use ecommerce_core::dto::{
    OrderLineReplicaRefundDto, RefundCompletionOlineReqDto, RefundCompletionReqDto,
    RefundLineApprovalDto, RefundLineRejectDto, ReplicaPayAmountDto,
};
use ecommerce_core::refund::{
    OLineRefundModel, OrderRefundModel, RefundLineQtyRejectModel, RefundModelError,
};
use ecommerce_core::types::ProductType;

fn parse_millis(s: &str) -> i64 {
    chrono::DateTime::parse_from_rfc3339(s).unwrap().timestamp_millis()
}

const REQ_TIME_TXT: &str = "2023-12-24T09:30:00+02:00";

fn seed_line() -> OLineRefundModel {
    let dto = OrderLineReplicaRefundDto {
        seller_id: 49,
        product_id: 195,
        product_type: ProductType::Item,
        create_time: REQ_TIME_TXT.to_string(),
        amount: ReplicaPayAmountDto { unit: "16".to_string(), total: "144".to_string() },
        qty: 9,
    };
    OLineRefundModel::try_from_dto(dto).unwrap()
}

fn completion(qty: u32, total: &str, rejected: u32) -> RefundCompletionReqDto {
    RefundCompletionReqDto {
        lines: vec![RefundCompletionOlineReqDto {
            product_id: 195,
            product_type: ProductType::Item,
            time_issued: parse_millis(REQ_TIME_TXT),
            approval: RefundLineApprovalDto { quantity: qty, amount_total: total.to_string() },
            reject: RefundLineRejectDto { damaged: rejected, fraudulent: 0 },
        }],
    }
}

fn dec_units(d: &Dec) -> i64 {
    // the numeric value scaled to two fraction digits, for exact checks
    assert!(d.e <= 2);
    let mut m = d.m;
    let mut e = d.e;
    while e < 2 {
        m *= 10;
        e += 1;
    }
    m
}

#[test]
fn refund_remaining_two_rounds() {
    let model = OrderRefundModel::from_parts("d00d".to_string(), vec![seed_line()]);
    // round one: approve three units for forty-eight, reject one
    let round1 = completion(3, "48", 1);
    let out = model.validate(49, &round1).unwrap();
    assert_eq!(out.len(), 1);
    let (ptype, pid, t, remain_qty, remain_amt) = out[0].clone();
    assert_eq!(ptype, ProductType::Item);
    assert_eq!(pid, 195);
    assert_eq!(t, parse_millis(REQ_TIME_TXT));
    assert_eq!(remain_qty, 5);
    // requested 144, approved 48, one rejected unit re-priced at 16
    assert_eq!(dec_units(&remain_amt), 8000);

    // carry the round into the stored line, then run round two
    let line1 = seed_line();
    let line2 = OLineRefundModel {
        pid: line1.pid,
        amount_req: line1.amount_req,
        time_req: line1.time_req,
        amount_refunded: ecommerce_core::amount::PayLineAmountModel {
            unit: Dec::from_str("16").unwrap(),
            total: Dec::from_str("48").unwrap(),
            qty: 3,
        },
        rejected: RefundLineQtyRejectModel(RefundLineRejectDto { damaged: 1, fraudulent: 0 }),
    };
    let model2 = OrderRefundModel::from_parts("d00d".to_string(), vec![line2]);
    let round2 = completion(2, "32", 0);
    let out2 = model2.validate(49, &round2).unwrap();
    assert_eq!(out2.len(), 1);
    let (_, _, _, remain_qty2, remain_amt2) = out2[0].clone();
    assert_eq!(remain_qty2, 3);
    // 144 minus 48 already refunded, minus 32 approved now
    assert_eq!(dec_units(&remain_amt2), 6400);
}

#[test]
fn refund_rejects_overdrawn_quantity() {
    let model = OrderRefundModel::from_parts("d00d".to_string(), vec![seed_line()]);
    let round = completion(10, "160", 0);
    let errs = model.validate(49, &round).unwrap_err();
    assert_eq!(errs.len(), 1);
    assert!(matches!(errs[0], RefundModelError::QtyInsufficient { .. }));
}

#[test]
fn refund_rejects_overdrawn_amount() {
    let model = OrderRefundModel::from_parts("d00d".to_string(), vec![seed_line()]);
    let round = completion(3, "145", 0);
    let errs = model.validate(49, &round).unwrap_err();
    assert_eq!(errs.len(), 1);
    assert!(matches!(errs[0], RefundModelError::AmountInsufficient { .. }));
}

#[test]
fn refund_missing_line_reported() {
    let model = OrderRefundModel::from_parts("d00d".to_string(), vec![seed_line()]);
    let mut round = completion(1, "16", 0);
    round.lines[0].product_id = 999;
    let errs = model.validate(49, &round).unwrap_err();
    assert_eq!(errs.len(), 1);
    assert!(matches!(errs[0], RefundModelError::MissingReqLine(_, _)));
}

#[test]
fn refund_replica_bad_amount_reported() {
    let dto = OrderLineReplicaRefundDto {
        seller_id: 49,
        product_id: 195,
        product_type: ProductType::Item,
        create_time: REQ_TIME_TXT.to_string(),
        amount: ReplicaPayAmountDto { unit: "16x".to_string(), total: "144".to_string() },
        qty: 9,
    };
    let err = OLineRefundModel::try_from_dto(dto).unwrap_err();
    assert!(matches!(err, RefundModelError::ParseOline { .. }));
}

#[test]
fn refund_replica_bad_time_reported() {
    let dto = OrderLineReplicaRefundDto {
        seller_id: 49,
        product_id: 195,
        product_type: ProductType::Item,
        create_time: "not-a-time".to_string(),
        amount: ReplicaPayAmountDto { unit: "16".to_string(), total: "144".to_string() },
        qty: 9,
    };
    let err = OLineRefundModel::try_from_dto(dto).unwrap_err();
    assert!(matches!(err, RefundModelError::ParseOline { .. }));
}
