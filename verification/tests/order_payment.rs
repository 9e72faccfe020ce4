use ecommerce_core::config::AppInMemoryDbCfg;
use ecommerce_core::dto::{
    BillingDto, ContactDto, OrderLinePaidUpdateDto, OrderLinePayUpdateErrorDto,
    OrderLinePayUpdateErrorReason, OrderPaymentUpdateDto, ShippingDto,
};
use ecommerce_core::order::{OrderInMemRepo, OrderLineModel, OrderLinePriceModel, OrderLineQtyModel};
use ecommerce_core::shared::AppDataStoreContext;
use ecommerce_core::types::ProductType;

const MOCK_CREATE_TIME: i64 = 1_700_000_000_000;

fn in_mem_repo_ds_setup(max_items: u32) -> OrderInMemRepo {
    let cfg = AppInMemoryDbCfg { alias: "utest".to_string(), max_items };
    let ds_ctx = AppDataStoreContext { in_mem: Some(cfg), sql_dbs: None };
    OrderInMemRepo::new(&ds_ctx, 0).unwrap()
}

fn ut_setup_orderlines(seller_ids: &[u32; 2]) -> Vec<OrderLineModel> {
    let reserved_until = MOCK_CREATE_TIME + 3_600_000;
    vec![
        OrderLineModel {
            seller_id: seller_ids[1],
            product_type: ProductType::Item,
            product_id: 190,
            reserved_until,
            qty: OrderLineQtyModel { reserved: 4, paid: 0, paid_last_update: None },
            price: OrderLinePriceModel { unit: 10, total: 40 },
        },
        OrderLineModel {
            seller_id: seller_ids[0],
            product_type: ProductType::Item,
            product_id: 190,
            reserved_until,
            qty: OrderLineQtyModel { reserved: 5, paid: 0, paid_last_update: None },
            price: OrderLinePriceModel { unit: 12, total: 60 },
        },
        OrderLineModel {
            seller_id: seller_ids[0],
            product_type: ProductType::Package,
            product_id: 190,
            reserved_until,
            qty: OrderLineQtyModel { reserved: 6, paid: 0, paid_last_update: None },
            price: OrderLinePriceModel { unit: 9, total: 54 },
        },
    ]
}

fn ut_setup_billing() -> BillingDto {
    BillingDto {
        contact: ContactDto {
            first_name: "Ben".to_string(),
            last_name: "Lo".to_string(),
            emails: vec!["ben@sample.dev".to_string()],
            phones: Vec::new(),
        },
        address: None,
    }
}

fn ut_setup_shipping() -> ShippingDto {
    ShippingDto {
        contact: ContactDto {
            first_name: "Ben".to_string(),
            last_name: "Lo".to_string(),
            emails: vec!["ben@sample.dev".to_string()],
            phones: Vec::new(),
        },
        address: None,
    }
}

fn ut_setup_saved_order() -> (OrderInMemRepo, String) {
    let mut o_repo = in_mem_repo_ds_setup(30);
    let (mock_usr_id, mock_seller_ids) = (124u32, [17u32, 38]);
    let mock_oid = "a0b1c2d3e4f5".to_string();
    let orderlines = ut_setup_orderlines(&mock_seller_ids);
    let billing = ut_setup_billing();
    let shipping = ut_setup_shipping();
    let result = o_repo.create(
        mock_oid.clone(),
        mock_usr_id,
        orderlines,
        MOCK_CREATE_TIME,
        billing,
        shipping,
    );
    assert!(result.is_ok());
    (o_repo, mock_oid)
}

fn parse_millis(s: &str) -> i64 {
    chrono::DateTime::parse_from_rfc3339(s).unwrap().timestamp_millis()
}

fn ut_setup_oline_new_payment() -> Vec<OrderLinePaidUpdateDto> {
    let paid_time: Vec<i64> = [
        "2023-11-17T09:23:50+05:00",
        "2023-11-16T11:49:00+05:00",
        "2023-11-16T18:09:51+08:00",
    ]
        .into_iter()
        .map(parse_millis)
        .collect();
    vec![
        OrderLinePaidUpdateDto {
            seller_id: 38,
            product_type: ProductType::Item,
            product_id: 190,
            qty: 1,
            time: paid_time[0],
        },
        OrderLinePaidUpdateDto {
            seller_id: 17,
            product_type: ProductType::Item,
            product_id: 190,
            qty: 1,
            time: paid_time[1],
        },
        OrderLinePaidUpdateDto {
            seller_id: 17,
            product_type: ProductType::Package,
            product_id: 190,
            qty: 2,
            time: paid_time[2],
        },
    ]
}

fn ut_usr_cb_ok(
    mut models: Vec<OrderLineModel>,
    data: Vec<OrderLinePaidUpdateDto>,
) -> (Vec<OrderLineModel>, Vec<OrderLinePayUpdateErrorDto>) {
    assert_eq!(models.len(), 3);
    for d in data.into_iter() {
        let result = models.iter_mut().find(|m| {
            m.seller_id == d.seller_id && m.product_id == d.product_id
                && m.product_type == d.product_type
        });
        assert!(result.is_some());
        let saved = result.unwrap();
        assert_eq!(saved.qty.paid, 0);
        assert!(saved.qty.paid_last_update.is_none());
        saved.qty.paid = d.qty;
        saved.qty.paid_last_update = Some(d.time);
    }
    (models, vec![])
}

#[test]
fn in_mem_update_lines_payment_ok() {
    let (mut o_repo, oid) = ut_setup_saved_order();
    let lines = ut_setup_oline_new_payment();
    let expect_times: Vec<(u32, ProductType, u32, i64)> = lines
        .iter()
        .map(|d| (d.seller_id, d.product_type, d.qty, d.time))
        .collect();
    let data = OrderPaymentUpdateDto { oid: oid.clone(), lines };
    let result = o_repo.update_lines_payment(data, ut_usr_cb_ok);
    assert!(result.is_ok());
    if let Ok(v) = result {
        assert_eq!(v.oid, oid);
        assert_eq!(v.lines.len(), 0);
    }
    let reloaded = o_repo.fetch_all_lines(oid.as_str()).unwrap();
    for (seller_id, ptype, qty, time) in expect_times.into_iter() {
        let line = reloaded
            .iter()
            .find(|m| m.seller_id == seller_id && m.product_type == ptype)
            .unwrap();
        assert_eq!(line.qty.paid, qty);
        assert_eq!(line.qty.paid_last_update, Some(time));
    }
}

fn ut_usr_cb_err(
    models: Vec<OrderLineModel>,
    _data: Vec<OrderLinePaidUpdateDto>,
) -> (Vec<OrderLineModel>, Vec<OrderLinePayUpdateErrorDto>) {
    assert_eq!(models.len(), 3);
    let errs = vec![
        OrderLinePayUpdateErrorDto {
            seller_id: 38,
            product_type: ProductType::Item,
            product_id: 190,
            reason: OrderLinePayUpdateErrorReason::ReservationExpired,
        },
        OrderLinePayUpdateErrorDto {
            seller_id: 17,
            product_type: ProductType::Package,
            product_id: 190,
            reason: OrderLinePayUpdateErrorReason::InvalidQuantity,
        },
        OrderLinePayUpdateErrorDto {
            seller_id: 17,
            product_type: ProductType::Item,
            product_id: 190,
            reason: OrderLinePayUpdateErrorReason::Omitted,
        },
    ];
    (models, errs)
}

#[test]
fn in_mem_update_lines_payment_usr_cb_err() {
    let (mut o_repo, oid) = ut_setup_saved_order();
    let mut lines = ut_setup_oline_new_payment();
    lines[1].qty = 9999;
    lines[2].time = parse_millis("1999-07-31T23:59:59+09:00");
    let data = OrderPaymentUpdateDto { oid: oid.clone(), lines };
    let result = o_repo.update_lines_payment(data, ut_usr_cb_err);
    assert!(result.is_ok());
    if let Ok(v) = result {
        assert_eq!(v.oid, oid);
        assert_eq!(v.lines.len(), 3);
    }
    let reloaded = o_repo.fetch_all_lines(oid.as_str()).unwrap();
    assert!(reloaded.iter().all(|m| m.qty.paid == 0));
}

#[test]
fn in_mem_update_lines_payment_dstore_err() {
}
