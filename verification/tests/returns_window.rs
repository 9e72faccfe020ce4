use ecommerce_core::config::AppInMemoryDbCfg;
use ecommerce_core::oline_return::{
    OrderLineIdentity, OrderReturnAmount, OrderReturnInMemRepo, OrderReturnModel,
};
use ecommerce_core::shared::AppDataStoreContext;

fn parse_millis(s: &str) -> i64 {
    chrono::DateTime::parse_from_rfc3339(s).unwrap().timestamp_millis()
}

const SECS: i64 = 1000;
const MINS: i64 = 60 * SECS;

fn setup_repo() -> (OrderReturnInMemRepo, i64) {
    let cfg = AppInMemoryDbCfg { alias: "utest".to_string(), max_items: 50 };
    let ds_ctx = AppDataStoreContext { in_mem: Some(cfg), sql_dbs: None };
    let mut repo = OrderReturnInMemRepo::new(&ds_ctx).unwrap();
    let t = parse_millis("2021-09-18T20:54:09+03:40");
    let seeds: Vec<(&str, Vec<OrderReturnModel>)> = vec![
        (
            "0a991e",
            vec![OrderReturnModel {
                id_: OrderLineIdentity::from_parts(49, 195, 0),
                qty: vec![
                    (t + 51 * SECS, (3, amount(21, 63))),
                    (t + 34 * SECS, (1, amount(18, 18))),
                ],
            }],
        ),
        (
            "beef",
            vec![
                OrderReturnModel {
                    id_: OrderLineIdentity::from_parts(48, 574, 0),
                    qty: vec![
                        (t + 5 * MINS, (1, amount(16, 16))),
                        (t - 10 * MINS, (5, amount(13, 65))),
                    ],
                },
                OrderReturnModel {
                    id_: OrderLineIdentity::from_parts(18, 465, 0),
                    qty: vec![(t - 1 * SECS, (5, amount(15, 75)))],
                },
            ],
        ),
        (
            "50ba",
            vec![
                OrderReturnModel {
                    id_: OrderLineIdentity::from_parts(18, 465, 0),
                    qty: vec![(t - 41 * MINS, (1, amount(15, 15)))],
                },
                OrderReturnModel {
                    id_: OrderLineIdentity::from_parts(48, 574, 0),
                    qty: vec![
                        (t - 3 * SECS, (3, amount(13, 39))),
                        (t - 55 * SECS, (2, amount(13, 26))),
                    ],
                },
                OrderReturnModel {
                    id_: OrderLineIdentity::from_parts(49, 195, 0),
                    qty: vec![(t - 4 * SECS, (7, amount(16, 112)))],
                },
                OrderReturnModel {
                    id_: OrderLineIdentity::from_parts(49, 195, 2),
                    qty: vec![(t - 8 * SECS, (1, amount(18, 18)))],
                },
            ],
        ),
    ];
    for (oid, req_set) in seeds.into_iter() {
        let result = repo.create(oid, req_set);
        assert!(result.is_ok());
    }
    (repo, t)
}

fn fetch_by_ctime_common(
    repo: &OrderReturnInMemRepo,
    start: i64,
    end: i64,
    expect: Vec<(String, (u32, u64, u16, i64, u32, u32))>,
) {
    let fetched = repo.fetch_by_created_time(start, end).unwrap();
    assert_eq!(fetched.len(), expect.len());
    for (oid, (store, prod, seq, time, qty, total)) in expect.into_iter() {
        let hit = fetched.iter().find(|rec| {
            rec.oid == oid && rec.id_.store_id() == store && rec.id_.product_id() == prod
                && rec.id_.attrs_seq_num() == seq && rec.time == time
        });
        let hit = hit.unwrap();
        assert_eq!(hit.qty, qty);
        assert_eq!(hit.amount.total(), total);
    }
}

fn fetch_by_oid_ctime_common(
    repo: &OrderReturnInMemRepo,
    oid: &str,
    start: i64,
    end: i64,
    expect: Vec<(u32, u64, u16, i64, u32, u32)>,
) {
    let fetched = repo.fetch_by_oid_ctime(oid, start, end).unwrap();
    assert_eq!(fetched.len(), expect.len());
    for (store, prod, seq, time, qty, total) in expect.into_iter() {
        let hit = fetched.iter().find(|rec| {
            rec.id_.store_id() == store && rec.id_.product_id() == prod
                && rec.id_.attrs_seq_num() == seq && rec.time == time
        });
        let hit = hit.unwrap();
        assert_eq!(hit.qty, qty);
        assert_eq!(hit.amount.total(), total);
    }
}

#[test]
fn fetch_request_by_ctime_ok() {
    let (repo, t) = setup_repo();
    fetch_by_ctime_common(
        &repo,
        t + 33 * SECS,
        t + 6 * MINS,
        vec![
            ("0a991e".to_string(), (49, 195, 0, t + 51 * SECS, 3, 63)),
            ("0a991e".to_string(), (49, 195, 0, t + 34 * SECS, 1, 18)),
            ("beef".to_string(), (48, 574, 0, t + 5 * MINS, 1, 16)),
        ],
    );
    fetch_by_ctime_common(
        &repo,
        t - 42 * MINS,
        t - 9 * MINS,
        vec![
            ("50ba".to_string(), (18, 465, 0, t - 41 * MINS, 1, 15)),
            ("beef".to_string(), (48, 574, 0, t - 10 * MINS, 5, 65)),
        ],
    );
    fetch_by_oid_ctime_common(
        &repo,
        "50ba",
        t - 70 * SECS,
        t - 3 * SECS,
        vec![
            (48, 574, 0, t - 3 * SECS, 3, 39),
            (49, 195, 0, t - 4 * SECS, 7, 112),
            (49, 195, 2, t - 8 * SECS, 1, 18),
            (48, 574, 0, t - 55 * SECS, 2, 26),
        ],
    );
    fetch_by_oid_ctime_common(
        &repo,
        "beef",
        t - 2 * SECS,
        t + 6 * MINS,
        vec![
            (48, 574, 0, t + 5 * MINS, 1, 16),
            (18, 465, 0, t - 1 * SECS, 5, 75),
        ],
    );
}

#[test]
fn returns_create_counts_batches() {
    let (repo, t) = setup_repo();
    // every batch in the window of all time is stored
    let all = repo.fetch_by_created_time(t - 2 * 60 * MINS, t + 2 * 60 * MINS).unwrap();
    assert_eq!(all.len(), 10);
}

fn amount(unit: u32, total: u32) -> OrderReturnAmount {
    OrderReturnAmount { unit, total }
}

#[test]
fn fetch_request_by_id_ok() {
    let cfg = AppInMemoryDbCfg { alias: "utest".to_string(), max_items: 50 };
    let ds_ctx = AppDataStoreContext { in_mem: Some(cfg), sql_dbs: None };
    let mut repo = OrderReturnInMemRepo::new(&ds_ctx).unwrap();
    let mock_oid = "bee715dead";
    let mock_time = parse_millis("2021-09-18T20:54:09+03:40");
    let reqs = vec![
        OrderReturnModel {
            id_: OrderLineIdentity::from_parts(49, 195, 0),
            qty: vec![(mock_time, (7, amount(16, 112)))],
        },
        OrderReturnModel {
            id_: OrderLineIdentity::from_parts(48, 574, 0),
            qty: vec![
                (mock_time + 2 * SECS, (4, amount(13, 52))),
                (mock_time + 4 * SECS, (3, amount(13, 39))),
                (mock_time + 6 * SECS, (3, amount(13, 39))),
            ],
        },
        OrderReturnModel {
            id_: OrderLineIdentity::from_parts(18, 465, 0),
            qty: vec![
                (mock_time + 8 * SECS, (1, amount(15, 15))),
                (mock_time + 9 * SECS, (5, amount(15, 75))),
            ],
        },
        OrderReturnModel {
            id_: OrderLineIdentity::from_parts(49, 195, 2),
            qty: vec![(mock_time + 11 * SECS, (1, amount(18, 18)))],
        },
        OrderReturnModel {
            id_: OrderLineIdentity::from_parts(99, 999, 0),
            qty: vec![(mock_time + 13 * SECS, (2, amount(10, 20)))],
        },
    ];
    let result = repo.create(mock_oid, reqs);
    assert!(result.is_ok());
    if let Ok(num_saved) = result {
        assert_eq!(num_saved, 8);
    }
    let pids = vec![
        OrderLineIdentity::from_parts(49, 195, 0),
        OrderLineIdentity::from_parts(48, 574, 0),
        OrderLineIdentity::from_parts(18, 465, 0),
    ];
    let result = repo.fetch_by_pid(mock_oid, pids.clone());
    assert!(result.is_ok());
    if let Ok(fetched) = result {
        assert_eq!(fetched.len(), 3);
        for m in fetched.iter() {
            let combo = (m.id_.store_id(), m.id_.product_id(), m.id_.attrs_seq_num());
            let expect = match combo {
                (48, 574, 0) => (3, 10, 130),
                (49, 195, 0) => (1, 7, 112),
                (18, 465, 0) => (2, 6, 90),
                _others => (9999, 9999, 9999),
            };
            let total_returned = m.qty.iter().map(|(_, (q, _))| *q).sum::<u32>();
            let total_refund = m.qty.iter().map(|(_, (_, refund))| refund.total()).sum::<u32>();
            let actual = (m.qty.len(), total_returned, total_refund);
            assert_eq!(actual, expect);
        }
    }
    let one_hour = 60 * MINS;
    let reqs = vec![
        OrderReturnModel {
            id_: OrderLineIdentity::from_parts(49, 195, 0),
            qty: vec![(mock_time + one_hour, (2, amount(16, 32)))],
        },
        OrderReturnModel {
            id_: OrderLineIdentity::from_parts(49, 195, 1),
            qty: vec![(mock_time + one_hour + SECS, (2, amount(17, 34)))],
        },
        OrderReturnModel {
            id_: OrderLineIdentity::from_parts(49, 195, 2),
            qty: vec![(mock_time + one_hour + 2 * SECS, (1, amount(18, 18)))],
        },
    ];
    let result = repo.create(mock_oid, reqs);
    assert!(result.is_ok());
    if let Ok(num_saved) = result {
        assert_eq!(num_saved, 3);
    }
    let pids = vec![
        OrderLineIdentity::from_parts(49, 195, 2),
        OrderLineIdentity::from_parts(49, 195, 1),
        OrderLineIdentity::from_parts(49, 195, 0),
        OrderLineIdentity::from_parts(18, 465, 0),
    ];
    let result = repo.fetch_by_pid(mock_oid, pids.clone());
    assert!(result.is_ok());
    if let Ok(fetched) = result {
        assert_eq!(fetched.len(), 4);
        for m in fetched.iter() {
            let combo = (m.id_.store_id(), m.id_.product_id(), m.id_.attrs_seq_num());
            let expect = match combo {
                (18, 465, 0) => (2, 6, 90),
                (49, 195, 0) => (2, 9, 144),
                (49, 195, 1) => (1, 2, 34),
                (49, 195, 2) => (2, 2, 36),
                _others => (9999, 9999, 9999),
            };
            let total_returned = m.qty.iter().map(|(_, (q, _))| *q).sum::<u32>();
            let total_refund = m.qty.iter().map(|(_, (_, refund))| refund.total()).sum::<u32>();
            let actual = (m.qty.len(), total_returned, total_refund);
            assert_eq!(actual, expect);
        }
    }
}
