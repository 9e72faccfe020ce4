use ecommerce_core::config::AppInMemoryDbCfg;
use ecommerce_core::dto::{
    ProdAttrPriceItemDto, ProdAttrPriceSetDto, ProdAttrValueDto, ProductPriceDeleteDto,
    ProductPriceDto, ProductPriceEditDto,
};
use ecommerce_core::error::AppErrorCode;
use ecommerce_core::price_repo::{EditProductPriceUseCase, ProductPriceInMemRepo};
use ecommerce_core::shared::AppDataStoreContext;
use ecommerce_core::types::{CurrencyDto, ProductType};

fn price_edit(product_id: u64, price: u32) -> ProductPriceEditDto {
    ProductPriceEditDto {
        price,
        start_after: 1_700_000_000_000,
        end_before: 1_800_000_000_000,
        product_type: ProductType::Item,
        product_id,
        attributes: ProdAttrPriceSetDto { extra_charge: Vec::new(), last_update: 1_700_000_000_000 },
    }
}

fn repo_with_product_1622() -> ProductPriceInMemRepo {
    let cfg = AppInMemoryDbCfg { alias: "utest".to_string(), max_items: 20 };
    let ds_ctx = AppDataStoreContext { in_mem: Some(cfg), sql_dbs: None };
    let mut repo = ProductPriceInMemRepo::new(&ds_ctx).unwrap();
    let data = ProductPriceDto {
        s_id: 124,
        rm_all: false,
        deleting: ProductPriceDeleteDto {
            items: None,
            pkgs: None,
            item_type: ProductType::Item,
            pkg_type: ProductType::Package,
        },
        updating: Vec::new(),
        creating: vec![price_edit(1622, 399)],
    };
    EditProductPriceUseCase::execute(&mut repo, data).unwrap();
    repo
}

#[test]
fn price_update_rejects_unknown_product() {
    let mut repo = repo_with_product_1622();
    // the stored entry reads back as an existing one
    let fetched = repo.fetch(124, vec![1622u64]).unwrap();
    assert_eq!(fetched.items.len(), 1);

    let data = ProductPriceDto {
        s_id: 124,
        rm_all: false,
        deleting: ProductPriceDeleteDto {
            items: None,
            pkgs: None,
            item_type: ProductType::Item,
            pkg_type: ProductType::Package,
        },
        updating: vec![price_edit(1622, 410), price_edit(9999, 500)],
        creating: Vec::new(),
    };
    let err = EditProductPriceUseCase::execute(&mut repo, data).unwrap_err();
    assert_eq!(err.code, AppErrorCode::InvalidInput);
    assert_eq!(err.detail, Some("updating-data-to-nonexist-obj".to_string()));
    // no entry was mutated
    let fetched = repo.fetch(124, vec![1622u64, 9999]).unwrap();
    assert_eq!(fetched.items.len(), 1);
    assert_eq!(fetched.items[0].base_price(), 399);
}

#[test]
fn price_update_applies_and_creates() {
    let mut repo = repo_with_product_1622();
    let data = ProductPriceDto {
        s_id: 124,
        rm_all: false,
        deleting: ProductPriceDeleteDto {
            items: None,
            pkgs: None,
            item_type: ProductType::Item,
            pkg_type: ProductType::Package,
        },
        updating: vec![price_edit(1622, 410)],
        creating: vec![price_edit(7788, 150)],
    };
    EditProductPriceUseCase::execute(&mut repo, data).unwrap();
    let fetched = repo.fetch(124, vec![1622u64, 7788]).unwrap();
    assert_eq!(fetched.items.len(), 2);
    let p1622 = fetched.items.iter().find(|m| m.product_id() == 1622).unwrap();
    assert_eq!(p1622.base_price(), 410);
    let p7788 = fetched.items.iter().find(|m| m.product_id() == 7788).unwrap();
    assert_eq!(p7788.base_price(), 150);
}

#[test]
fn price_attrs_duplicate_pair_rejected() {
    let mut repo = repo_with_product_1622();
    let mut edit = price_edit(1622, 410);
    let item = ProdAttrPriceItemDto {
        label_id: "colour".to_string(),
        value: ProdAttrValueDto::Str("red".to_string()),
        price: 5,
    };
    edit.attributes.extra_charge = vec![item.clone(), item];
    let data = ProductPriceDto {
        s_id: 124,
        rm_all: false,
        deleting: ProductPriceDeleteDto {
            items: None,
            pkgs: None,
            item_type: ProductType::Item,
            pkg_type: ProductType::Package,
        },
        updating: vec![edit],
        creating: Vec::new(),
    };
    let err = EditProductPriceUseCase::execute(&mut repo, data).unwrap_err();
    assert_eq!(err.code, AppErrorCode::InvalidInput);
    // read directly, the rejection names the offending key
    let item = ProdAttrPriceItemDto {
        label_id: "colour".to_string(),
        value: ProdAttrValueDto::Str("red".to_string()),
        price: 5,
    };
    let dup_set = ProdAttrPriceSetDto {
        extra_charge: vec![item.clone(), item],
        last_update: 1_700_000_000_000,
    };
    let err = ecommerce_core::pricing::ProdAttriPriceModel::try_from_dto(&dup_set).unwrap_err();
    assert_eq!(err.detail, Some("prod-price-dup-attrval: colour-red".to_string()));
}

#[test]
fn price_delete_all_drops_store() {
    let mut repo = repo_with_product_1622();
    let data = ProductPriceDto {
        s_id: 124,
        rm_all: true,
        deleting: ProductPriceDeleteDto {
            items: None,
            pkgs: None,
            item_type: ProductType::Item,
            pkg_type: ProductType::Package,
        },
        updating: Vec::new(),
        creating: Vec::new(),
    };
    EditProductPriceUseCase::execute(&mut repo, data).unwrap();
    let fetched = repo.fetch(124, vec![1622u64]).unwrap();
    assert_eq!(fetched.items.len(), 0);
    assert_eq!(fetched.currency, CurrencyDto::Unknown);
}
