use ecommerce_core::config::AppInMemoryDbCfg;
use ecommerce_core::dto::{
    BillingDto, ContactDto, OrderLineCreateErrorReason, ShippingDto, StockLevelReturnDto,
    StockReturnItemDto,
};
use ecommerce_core::order::{OrderInMemRepo, OrderLineModel, OrderLinePriceModel, OrderLineQtyModel};
use ecommerce_core::shared::AppDataStoreContext;
use ecommerce_core::stock::{
    ReserveLineReq, StockLevelModel, StockLevelModelSet, StockQuantityModel,
};
use ecommerce_core::types::ProductType;

const NOW: i64 = 1_700_000_000_000;

fn bucket(store: u32, pid: u64, expiry: i64, total: u32, booked: u32, cancelled: u32) -> StockLevelModel {
    StockLevelModel {
        store_id: store,
        product_type: ProductType::Item,
        product_id: pid,
        expiry,
        quantity: StockQuantityModel { total, booked, cancelled },
    }
}

#[test]
fn reserve_skips_expired_buckets() {
    let mut set = StockLevelModelSet {
        stock: vec![
            bucket(17, 190, NOW - 1_000, 50, 0, 0),
            bucket(17, 190, NOW + 60_000, 5, 0, 0),
            bucket(17, 190, NOW + 30_000, 4, 0, 0),
        ],
    };
    let lines = vec![ReserveLineReq {
        store_id: 17,
        product_type: ProductType::Item,
        product_id: 190,
        qty: 6,
    }];
    let r = set.try_reserve(&lines, NOW);
    assert!(r.is_ok());
    // the expired bucket is untouched
    assert_eq!(set.stock[0].quantity.booked, 0);
    // the earlier unexpired expiry drains first
    assert_eq!(set.stock[2].quantity.booked, 4);
    assert_eq!(set.stock[1].quantity.booked, 2);
}

#[test]
fn reserve_all_or_nothing_rollback() {
    let orig = vec![
        bucket(17, 190, NOW + 60_000, 5, 1, 0),
        bucket(17, 191, NOW + 60_000, 2, 0, 0),
    ];
    let mut set = StockLevelModelSet { stock: orig.clone() };
    let lines = vec![
        ReserveLineReq { store_id: 17, product_type: ProductType::Item, product_id: 190, qty: 2 },
        ReserveLineReq { store_id: 17, product_type: ProductType::Item, product_id: 191, qty: 5 },
        ReserveLineReq { store_id: 17, product_type: ProductType::Item, product_id: 999, qty: 1 },
    ];
    let r = set.try_reserve(&lines, NOW);
    let errs = r.unwrap_err();
    assert_eq!(errs.len(), 2);
    assert_eq!(errs[0].reason, OrderLineCreateErrorReason::NotEnoughStock);
    assert_eq!(errs[1].reason, OrderLineCreateErrorReason::NotExist);
    // nothing was persisted
    assert_eq!(set.stock, orig);
}

#[test]
fn stock_return_moves_booked_to_cancelled() {
    let mut set = StockLevelModelSet {
        stock: vec![bucket(17, 190, NOW + 60_000, 10, 6, 1)],
    };
    let data = StockLevelReturnDto {
        order_id: "a0b1".to_string(),
        items: vec![StockReturnItemDto {
            store_id: 17,
            product_type: ProductType::Item,
            product_id: 190,
            expiry: NOW + 60_000,
            qty: 4,
        }],
    };
    let errs = set.try_return(&data);
    assert!(errs.is_empty());
    assert_eq!(set.stock[0].quantity.booked, 2);
    assert_eq!(set.stock[0].quantity.cancelled, 5);
    assert_eq!(set.stock[0].quantity.total, 10);

    // returning more than booked is refused and changes nothing
    let errs = set.try_return(&data);
    assert_eq!(errs.len(), 1);
    assert_eq!(set.stock[0].quantity.booked, 2);
}

fn repo_with_one_unpaid_order() -> (OrderInMemRepo, StockLevelModelSet) {
    let cfg = AppInMemoryDbCfg { alias: "utest".to_string(), max_items: 30 };
    let ds_ctx = AppDataStoreContext { in_mem: Some(cfg), sql_dbs: None };
    let mut repo = OrderInMemRepo::new(&ds_ctx, NOW - 120_000).unwrap();
    let contact = ContactDto {
        first_name: "Ben".to_string(),
        last_name: "Lo".to_string(),
        emails: Vec::new(),
        phones: Vec::new(),
    };
    let lines = vec![OrderLineModel {
        seller_id: 17,
        product_type: ProductType::Item,
        product_id: 190,
        reserved_until: NOW - 30_000,
        qty: OrderLineQtyModel { reserved: 6, paid: 2, paid_last_update: None },
        price: OrderLinePriceModel { unit: 10, total: 60 },
    }];
    repo.create(
        "beadfeed".to_string(),
        124,
        lines,
        NOW - 90_000,
        BillingDto { contact: contact.clone(), address: None },
        ShippingDto { contact, address: None },
    )
        .unwrap();
    let stock = StockLevelModelSet { stock: vec![bucket(17, 190, NOW + 60_000, 10, 6, 0)] };
    (repo, stock)
}

#[test]
fn discard_unpaid_job_idempotent() {
    let (mut repo, mut stock) = repo_with_one_unpaid_order();
    assert_eq!(repo.scheduled_job_last_time(), NOW - 120_000);
    let r = repo.discard_unpaid(&mut stock, NOW);
    assert!(r.is_ok());
    // the unpaid four units moved from booked to cancelled
    assert_eq!(stock.stock[0].quantity.booked, 2);
    assert_eq!(stock.stock[0].quantity.cancelled, 4);
    // the line's unpaid part is cancelled, and the watermark advanced
    let lines = repo.fetch_all_lines("beadfeed").unwrap();
    assert_eq!(lines[0].qty.reserved, 2);
    assert_eq!(lines[0].qty.paid, 2);
    assert_eq!(repo.scheduled_job_last_time(), NOW);

    // a second run over the same window finds nothing unpaid: the stock
    // stays exactly as it was
    repo.scheduled_job_time_update(NOW - 120_000);
    let snapshot = stock.stock.clone();
    let r = repo.discard_unpaid(&mut stock, NOW);
    assert!(r.is_ok());
    assert_eq!(stock.stock, snapshot);
    let lines = repo.fetch_all_lines("beadfeed").unwrap();
    assert_eq!(lines[0].qty.reserved, 2);
}
