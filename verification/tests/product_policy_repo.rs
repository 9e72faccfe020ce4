use ecommerce_core::config::AppInMemoryDbCfg;
use ecommerce_core::error::AppErrorCode;
use ecommerce_core::product_policy::{
    ProductPolicyInMemRepo, ProductPolicyModel, ProductPolicyModelSet,
};
use ecommerce_core::shared::AppDataStoreContext;

const UTEST_INIT_DATA: [ProductPolicyModel; 7] = [
    ProductPolicyModel {
        usr_id: 123,
        product_id: 1556,
        auto_cancel_secs: 309,
        warranty_hours: 7400,
        async_stock_chk: true,
        is_create: true,
    },
    ProductPolicyModel {
        usr_id: 124,
        product_id: 9273,
        auto_cancel_secs: 900,
        warranty_hours: 7209,
        async_stock_chk: false,
        is_create: true,
    },
    ProductPolicyModel {
        usr_id: 123,
        product_id: 40051,
        auto_cancel_secs: 707,
        warranty_hours: 1295,
        async_stock_chk: true,
        is_create: true,
    },
    ProductPolicyModel {
        usr_id: 124,
        product_id: 1620,
        auto_cancel_secs: 1645,
        warranty_hours: 1918,
        async_stock_chk: false,
        is_create: true,
    },
    ProductPolicyModel {
        usr_id: 123,
        product_id: 14005,
        auto_cancel_secs: 77,
        warranty_hours: 5129,
        async_stock_chk: true,
        is_create: true,
    },
    ProductPolicyModel {
        usr_id: 124,
        product_id: 1622,
        auto_cancel_secs: 6451,
        warranty_hours: 9181,
        async_stock_chk: false,
        is_create: true,
    },
    ProductPolicyModel {
        usr_id: 124,
        product_id: 1622,
        auto_cancel_secs: 1178,
        warranty_hours: 11086,
        async_stock_chk: true,
        is_create: false,
    },
];

#[test]
fn in_mem_create_missing_dstore() {
    let ds_ctx = AppDataStoreContext { in_mem: None, sql_dbs: None };
    let result = ProductPolicyInMemRepo::new(&ds_ctx);
    assert_eq!(result.is_err(), true);
    let error = result.err().unwrap();
    assert_eq!(error.code, AppErrorCode::MissingDataStore);
    assert_eq!(error.detail, Some("in-memory".to_string()));
}

fn in_mem_repo_ds_setup() -> ProductPolicyInMemRepo {
    let cfg = AppInMemoryDbCfg { alias: "utest".to_string(), max_items: 20 };
    let ds_ctx = AppDataStoreContext { in_mem: Some(cfg), sql_dbs: None };
    let result = ProductPolicyInMemRepo::new(&ds_ctx);
    assert_eq!(result.is_ok(), true);
    result.unwrap()
}

#[test]
fn in_mem_save_fetch_ok_1() {
    let mut repo = in_mem_repo_ds_setup();
    let ppset = ProductPolicyModelSet { policies: UTEST_INIT_DATA[0..3].to_vec() };
    let result = repo.save(ppset);
    assert_eq!(result.is_ok(), true);
    let chosen_usr_id = 123;
    let chosen_ids = vec![14005u64, 1556, 40051];
    let result = repo.fetch(chosen_usr_id, chosen_ids);
    {
        assert_eq!(result.is_ok(), true);
        let modelset = result.unwrap();
        assert_eq!(modelset.policies.len(), 2);
        let exists = modelset
            .policies
            .iter()
            .find_map(|m| if m.product_id == 1556 { Some(m) } else { None });
        assert_eq!(exists.unwrap(), &UTEST_INIT_DATA[0]);
        let exists = modelset
            .policies
            .iter()
            .find_map(|m| if m.product_id == 40051 { Some(m) } else { None });
        assert_eq!(exists.unwrap(), &UTEST_INIT_DATA[2]);
        let exists = modelset.policies.iter().any(|m| m.product_id == 14005);
        assert_eq!(exists, false);
    }
    let ppset = ProductPolicyModelSet { policies: UTEST_INIT_DATA[3..6].to_vec() };
    let result = repo.save(ppset);
    assert_eq!(result.is_ok(), true);
    let chosen_usr_id = 124;
    let chosen_ids = vec![1622u64, 1620, 9273];
    let result = repo.fetch(chosen_usr_id, chosen_ids);
    {
        let modelset = result.unwrap();
        let exists = modelset
            .policies
            .iter()
            .find_map(|m| if m.product_id == 9273 { Some(m) } else { None });
        assert_eq!(exists.unwrap(), &UTEST_INIT_DATA[1]);
        let exists = modelset
            .policies
            .iter()
            .find_map(|m| if m.product_id == 1620 { Some(m) } else { None });
        assert_eq!(exists.unwrap(), &UTEST_INIT_DATA[3]);
        let exists = modelset
            .policies
            .iter()
            .find_map(|m| if m.product_id == 1622 { Some(m) } else { None });
        assert_eq!(exists.unwrap(), &UTEST_INIT_DATA[5]);
    }
}

#[test]
fn in_mem_save_fetch_ok_2() {
    let mut repo = in_mem_repo_ds_setup();
    let ppset = ProductPolicyModelSet { policies: vec![UTEST_INIT_DATA[5]] };
    let result = repo.save(ppset);
    assert_eq!(result.is_ok(), true);
    let ppset = ProductPolicyModelSet { policies: vec![UTEST_INIT_DATA[6]] };
    let result = repo.save(ppset);
    assert_eq!(result.is_ok(), true);

    let result = repo.fetch(124u32, vec![1622u64]);
    {
        assert_eq!(result.is_ok(), true);
        let modelset = result.unwrap();
        let fetched = modelset
            .policies
            .iter()
            .find_map(|m| if m.product_id == 1622 { Some(m) } else { None })
            .unwrap();
        assert_eq!(fetched, &UTEST_INIT_DATA[6]);
        assert_ne!(fetched, &UTEST_INIT_DATA[5]);
    }
}

#[test]
fn in_mem_save_empty_input() {
    let mut repo = in_mem_repo_ds_setup();
    let ppset = ProductPolicyModelSet { policies: Vec::new() };
    let result = repo.save(ppset);
    assert_eq!(result.is_err(), true);
    let error = result.err().unwrap();
    assert_eq!(error.code, AppErrorCode::EmptyInputData);
}
