use vstd::prelude::*;
use crate::dto::{ProductPriceDeleteDto, ProductPriceDto, ProductPriceEditDto};
use crate::error::{AppError, AppErrorCode};
use crate::pricing::{
    created_view, price_view, spec_apply_price_edits, spec_creating_ok, PriceView,
    ProductPriceModel, ProductPriceModelSet,
};
use crate::shared::AppDataStoreContext;
use crate::types::{CurrencyDto, ProductType};

verus! {

/// The product-price repository backed by the in-memory store: one price
/// list per store.
#[derive(Debug)]
pub struct ProductPriceInMemRepo {
    stores: Vec<ProductPriceModelSet>,
    max_items: u32,
}

impl ProductPriceInMemRepo {
    pub closed spec fn spec_stores(self) -> Seq<ProductPriceModelSet> {
        self.stores@
    }

    /// The configured capacity of one store's price list.
    pub closed spec fn spec_max_items(self) -> int {
        self.max_items as int
    }

    /// Opens the repository on the in-memory data store; a context
    /// without one cannot back it.
    pub fn new(ds: &AppDataStoreContext) -> (r: Result<ProductPriceInMemRepo, AppError>)
        ensures
            r is Ok <==> ds.in_mem is Some,
            r is Ok ==> r->Ok_0.spec_stores().len() == 0 && r->Ok_0.spec_max_items()
                == ds.in_mem->0.max_items,
            r is Err ==> r->Err_0.code == AppErrorCode::MissingDataStore && r->Err_0.detail
                is Some && r->Err_0.detail->0@ == "in-memory"@,
    {
        proof {
            reveal_strlit("in-memory");
        }
        match &ds.in_mem {
            Some(cfg) => Ok(ProductPriceInMemRepo { stores: Vec::new(), max_items: cfg.max_items }),
            None => Err(
                AppError {
                    code: AppErrorCode::MissingDataStore,
                    detail: Some(String::from_str("in-memory")),
                },
            ),
        }
    }

    /// The price entries of one store among the asked product ids; a
    /// store never written yet reads as an empty list without a settled
    /// currency.
    #[verifier::loop_isolation(false)]
    pub fn fetch(&self, store_id: u32, ids: Vec<u64>) -> (r: Result<ProductPriceModelSet, AppError>)
        ensures
            r is Ok,
            r->Ok_0.store_id == store_id,
            r->Ok_0.currency == (match spec_find_store_full(self.spec_stores(), store_id) {
                Some(i) => self.spec_stores()[i].currency,
                None => CurrencyDto::Unknown,
            }),
            r->Ok_0.views() =~= (match spec_find_store_full(self.spec_stores(), store_id) {
                Some(i) => self.spec_stores()[i].views().filter(
                    |v: PriceView| ids@.contains(v.product_id),
                ),
                None => Seq::<PriceView>::empty(),
            }),
    {
        let found = self.find_store_full(store_id);
        match found {
            Some(si) => {
                let st = &self.stores[si];
                let mut out: Vec<ProductPriceModel> = Vec::new();
                let n = st.items.len();
                let mut i: usize = 0;
                proof {
                    reveal(Seq::filter);
                    assert(st.items@.take(0int).map_values(|m: ProductPriceModel| price_view(m))
                        =~= Seq::<PriceView>::empty());
                }
                while i < n
                    invariant
                        0 <= i <= n == st.items@.len(),
                        out@.map_values(|m: ProductPriceModel| price_view(m)) =~= st.items@.take(
                            i as int,
                        ).map_values(|m: ProductPriceModel| price_view(m)).filter(
                            |v: PriceView| ids@.contains(v.product_id),
                        ),
                    decreases n - i,
                {
                    let p = &st.items[i];
                    let mut hit = false;
                    let m = ids.len();
                    let mut j: usize = 0;
                    while j < m
                        invariant
                            0 <= j <= m,
                            hit <==> (exists|t: int| 0 <= t < j && ids@[t] == p.product_id),
                        decreases m - j,
                    {
                        if ids[j] == p.product_id {
                            hit = true;
                        }
                        j = j + 1;
                    }
                    let ghost pre_views = out@.map_values(|mm: ProductPriceModel| price_view(mm));
                    if hit {
                        out.push(clone_price_model(p));
                        proof {
                            assert(out@.map_values(|mm: ProductPriceModel| price_view(mm))
                                =~= pre_views.push(price_view(st.items@[i as int])));
                        }
                    }
                    proof {
                        reveal(Seq::filter);
                        let tpre = st.items@.take(i as int).map_values(
                            |mm: ProductPriceModel| price_view(mm),
                        );
                        let tpost = st.items@.take(i + 1int).map_values(
                            |mm: ProductPriceModel| price_view(mm),
                        );
                        assert(tpost.drop_last() =~= tpre);
                        assert(tpost.last() == price_view(st.items@[i as int]));
                    }
                    i = i + 1;
                }
                proof {
                    assert(st.items@.take(n as int) =~= st.items@);
                }
                Ok(ProductPriceModelSet { store_id, currency: st.currency, items: out })
            },
            None => Ok(
                ProductPriceModelSet {
                    store_id,
                    currency: CurrencyDto::Unknown,
                    items: Vec::new(),
                },
            ),
        }
    }

    /// Finds the stored list of one store, exposing the index for specs.
    #[verifier::loop_isolation(false)]
    fn find_store_full(&self, store_id: u32) -> (r: Option<usize>)
        ensures
            match r {
                Some(i) => spec_find_store_full(self.spec_stores(), store_id) == Some(i as int)
                    && 0 <= i < self.spec_stores().len(),
                None => spec_find_store_full(self.spec_stores(), store_id) is None,
            },
    {
        let n = self.stores.len();
        let mut i: usize = 0;
        proof {
            assert(self.stores@.skip(0int) =~= self.stores@);
        }
        while i < n
            invariant
                0 <= i <= n,
                spec_find_store_full(self.spec_stores(), store_id) == (match spec_find_store_full(
                    self.stores@.skip(i as int),
                    store_id,
                ) {
                    Some(k) => Some(k + i),
                    None => None,
                }),
            decreases n - i,
        {
            proof {
                let rest = self.stores@.skip(i as int);
                assert(rest[0] == self.stores@[i as int]);
                assert(rest.skip(1) =~= self.stores@.skip(i + 1int));
            }
            if self.stores[i].store_id == store_id {
                return Some(i);
            }
            i = i + 1;
        }
        proof {
            assert(self.stores@.skip(n as int) =~= Seq::<ProductPriceModelSet>::empty());
        }
        None
    }

    /// Writes one store's edited list back: the edited entries replace
    /// the stored entries of their products, new entries are appended,
    /// the fresh-creation marks are cleared, and the store's currency
    /// moves; a store never written yet is created whole. A merged list
    /// past the configured capacity is refused whole.
    #[verifier::loop_isolation(false)]
    pub fn save(&mut self, updated_set: ProductPriceModelSet) -> (r: Result<(), AppError>)
        ensures
            r is Ok <==> spec_saved_items(old(self).spec_stores(), updated_set).len() <= old(
                self,
            ).spec_max_items(),
            r is Err ==> r->Err_0.code == AppErrorCode::ExceedingMaxLimit && *final(self) == *old(
                self,
            ),
            r is Ok ==> ({
                let stores0 = old(self).spec_stores();
                let stores1 = final(self).spec_stores();
                match spec_find_store_full(stores0, updated_set.store_id) {
                    Some(si) => {
                        &&& stores1.len() == stores0.len()
                        &&& (forall|k: int|
                            0 <= k < stores0.len() && k != si ==> #[trigger] stores1[k]
                                == stores0[k])
                        &&& stores1[si].store_id == updated_set.store_id
                        &&& stores1[si].currency == updated_set.currency
                        &&& stores1[si].views() =~= spec_saved_items(stores0, updated_set)
                    },
                    None => {
                        &&& stores1.len() == stores0.len() + 1
                        &&& (forall|k: int|
                            0 <= k < stores0.len() ==> #[trigger] stores1[k] == stores0[k])
                        &&& stores1.last().store_id == updated_set.store_id
                        &&& stores1.last().currency == updated_set.currency
                        &&& stores1.last().views() =~= spec_saved_items(stores0, updated_set)
                    },
                }
            }),
    {
        let ghost stores0 = self.stores@;
        let ghost inc_views = updated_set.views().map_values(|v: PriceView| spec_settle_view(v));
        let ghost base_views = (match spec_find_store_full(stores0, updated_set.store_id) {
            Some(i) => stores0[i].views(),
            None => Seq::<PriceView>::empty(),
        });
        let found = self.find_store_full(updated_set.store_id);
        // the fresh-creation mark is cleared once an entry is written
        let ProductPriceModelSet { store_id, currency, items } = updated_set;
        let mut settled: Vec<ProductPriceModel> = Vec::new();
        let nr0 = items.len();
        let mut raw = items;
        let ghost raw0 = raw@;
        let mut t: usize = 0;
        proof {
            assert(raw@.skip(0int) =~= raw@);
        }
        while raw.len() > 0
            invariant
                0 <= t <= nr0 == raw0.len(),
                raw@ =~= raw0.skip(t as int),
                settled@.len() == t,
                settled@.map_values(|m: ProductPriceModel| price_view(m)) =~= raw0.take(
                    t as int,
                ).map_values(|m: ProductPriceModel| price_view(m)).map_values(
                    |v: PriceView| spec_settle_view(v),
                ),
            decreases raw@.len(),
        {
            let mut m = raw.remove(0);
            proof {
                assert(m == raw0[t as int]);
                assert(raw@ =~= raw0.skip(t + 1int));
            }
            let ghost pre_map = settled@.map_values(|mm: ProductPriceModel| price_view(mm));
            m.is_create = false;
            settled.push(m);
            proof {
                assert(price_view(settled@.last()) == spec_settle_view(
                    price_view(raw0[t as int]),
                ));
                assert(settled@.map_values(|mm: ProductPriceModel| price_view(mm)) =~= pre_map.push(
                    spec_settle_view(price_view(raw0[t as int])),
                ));
                assert(raw0.take(t + 1int) =~= raw0.take(t as int).push(raw0[t as int]));
                assert(raw0.take(t + 1int).map_values(|mm: ProductPriceModel| price_view(mm))
                    =~= raw0.take(t as int).map_values(|mm: ProductPriceModel| price_view(mm)).push(
                    price_view(raw0[t as int]),
                ));
                assert(raw0.take(t + 1int).map_values(|mm: ProductPriceModel| price_view(mm)).map_values(
                    |v: PriceView| spec_settle_view(v),
                ) =~= raw0.take(t as int).map_values(|mm: ProductPriceModel| price_view(mm)).map_values(
                    |v: PriceView| spec_settle_view(v),
                ).push(spec_settle_view(price_view(raw0[t as int]))));
            }
            t = t + 1;
        }
        proof {
            assert(raw0.take(raw0.len() as int) =~= raw0);
            assert(settled@.map_values(|m: ProductPriceModel| price_view(m)) =~= inc_views);
        }
        let mut merged: Vec<ProductPriceModel> = match found {
            Some(si) => clone_items(&self.stores[si].items),
            None => Vec::new(),
        };
        proof {
            assert(merged@.map_values(|m: ProductPriceModel| price_view(m)) =~= base_views);
        }
        let mut inc = settled;
        let ghost inc0 = inc@;
        let mut u: usize = 0;
        proof {
            assert(inc@.skip(0int) =~= inc@);
            assert(inc_views.skip(0int) =~= inc_views);
        }
        while inc.len() > 0
            invariant
                0 <= u <= inc0.len(),
                inc@ =~= inc0.skip(u as int),
                inc0.map_values(|m: ProductPriceModel| price_view(m)) =~= inc_views,
                u <= inc_views.len(),
                spec_merge_items(base_views, inc_views) =~= spec_merge_items(
                    merged@.map_values(|m: ProductPriceModel| price_view(m)),
                    inc_views.skip(u as int),
                ),
            decreases inc@.len(),
        {
            let it = inc.remove(0);
            proof {
                assert(it == inc0[u as int]);
                assert(inc@ =~= inc0.skip(u + 1int));
                assert(inc_views[u as int] == price_view(it));
                assert(inc_views.skip(u as int)[0] == inc_views[u as int]);
                assert(inc_views.skip(u as int).skip(1) =~= inc_views.skip(u + 1int));
            }
            let ghost views_pre = merged@.map_values(|m: ProductPriceModel| price_view(m));
            match find_any_price(&merged, it.product_id) {
                Some(i) => {
                    merged.set(i, it);
                    proof {
                        assert(merged@.map_values(|m: ProductPriceModel| price_view(m))
                            =~= views_pre.update(i as int, inc_views[u as int]));
                    }
                },
                None => {
                    merged.push(it);
                    proof {
                        assert(merged@.map_values(|m: ProductPriceModel| price_view(m))
                            =~= views_pre.push(inc_views[u as int]));
                    }
                },
            }
            u = u + 1;
        }
        proof {
            assert(inc_views.skip(inc0.len() as int) =~= Seq::<PriceView>::empty());
            assert(merged@.map_values(|m: ProductPriceModel| price_view(m)) =~= spec_merge_items(
                base_views,
                inc_views,
            ));
            assert(spec_merge_items(base_views, inc_views) =~= spec_saved_items(
                stores0,
                updated_set,
            ));
        }
        if merged.len() > self.max_items as usize {
            return Err(AppError { code: AppErrorCode::ExceedingMaxLimit, detail: None });
        }
        match found {
            Some(si) => {
                let old_store = self.stores.remove(si);
                let ghost after_remove = self.stores@;
                let rebuilt = ProductPriceModelSet { store_id, currency, items: merged };
                self.stores.insert(si, rebuilt);
                proof {
                    assert forall|k: int|
                        0 <= k < stores0.len() && k != si implies #[trigger] self.stores@[k]
                        == stores0[k] by {
                        if k < si {
                            assert(after_remove[k] == stores0[k]);
                        } else {
                            assert(after_remove[k - 1] == stores0[k]);
                        }
                    }
                }
                Ok(())
            },
            None => {
                let fresh = ProductPriceModelSet { store_id, currency, items: merged };
                self.stores.push(fresh);
                Ok(())
            },
        }
    }

    /// Drops one store's whole price list.
    #[verifier::loop_isolation(false)]
    pub fn delete_all(&mut self, store_id: u32) -> (r: Result<(), AppError>)
        ensures
            r is Ok,
            forall|k: int|
                0 <= k < final(self).spec_stores().len() ==> (#[trigger] final(self).spec_stores()[k]).store_id
                    != store_id,
    {
        let mut i: usize = 0;
        while i < self.stores.len()
            invariant
                0 <= i <= self.stores@.len(),
                forall|k: int|
                    0 <= k < i ==> (#[trigger] self.stores@[k]).store_id != store_id,
            decreases self.stores@.len() - i,
        {
            if self.stores[i].store_id == store_id {
                self.stores.remove(i);
            } else {
                i = i + 1;
            }
        }
        Ok(())
    }

    /// Drops the listed products from one store's price list; a request
    /// naming no list at all is empty input, and a store never written
    /// yet has nothing to drop.
    #[verifier::loop_isolation(false)]
    pub fn delete(&mut self, store_id: u32, ids: ProductPriceDeleteDto) -> (r: Result<
        (),
        AppError,
    >)
        ensures
            r is Ok <==> (ids.items is Some || ids.pkgs is Some),
            r is Err ==> r->Err_0.code == AppErrorCode::EmptyInputData && *final(self) == *old(
                self,
            ),
            r is Ok ==> ({
                let stores0 = old(self).spec_stores();
                let stores1 = final(self).spec_stores();
                match spec_find_store_full(stores0, store_id) {
                    Some(si) => {
                        &&& stores1.len() == stores0.len()
                        &&& (forall|k: int|
                            0 <= k < stores0.len() && k != si ==> #[trigger] stores1[k]
                                == stores0[k])
                        &&& stores1[si].store_id == stores0[si].store_id
                        &&& stores1[si].currency == stores0[si].currency
                        &&& stores1[si].items@ =~= stores0[si].items@.filter(
                            |m: ProductPriceModel| !spec_in_delete_lists(ids, m.product_id),
                        )
                    },
                    None => stores1 == stores0,
                }
            }),
    {
        if ids.items.is_none() && ids.pkgs.is_none() {
            return Err(AppError { code: AppErrorCode::EmptyInputData, detail: None });
        }
        let ghost stores0 = self.stores@;
        let found = self.find_store_full(store_id);
        let si = match found {
            Some(si) => si,
            None => {
                return Ok(());
            },
        };
        let old_store = self.stores.remove(si);
        let ghost after_remove = self.stores@;
        let ProductPriceModelSet { store_id: sid, currency, items } = old_store;
        let ghost items0 = items@;
        let mut kept: Vec<ProductPriceModel> = Vec::new();
        let n0 = items.len();
        let mut rest = items;
        let mut t: usize = 0;
        proof {
            reveal(Seq::filter);
            assert(rest@.skip(0int) =~= rest@);
            assert(items0.take(0int).filter(
                |m: ProductPriceModel| !spec_in_delete_lists(ids, m.product_id),
            ) =~= Seq::<ProductPriceModel>::empty());
        }
        while rest.len() > 0
            invariant
                0 <= t <= n0 == items0.len(),
                rest@ =~= items0.skip(t as int),
                kept@ =~= items0.take(t as int).filter(
                    |m: ProductPriceModel| !spec_in_delete_lists(ids, m.product_id),
                ),
            decreases rest@.len(),
        {
            let it = rest.remove(0);
            proof {
                assert(it == items0[t as int]);
                assert(rest@ =~= items0.skip(t + 1int));
            }
            let mut hit = false;
            match &ids.items {
                Some(v) => {
                    let m = v.len();
                    let mut j: usize = 0;
                    while j < m
                        invariant
                            0 <= j <= m == v@.len(),
                            hit <==> (exists|w: int| 0 <= w < j && v@[w] == it.product_id),
                        decreases m - j,
                    {
                        if v[j] == it.product_id {
                            hit = true;
                        }
                        j = j + 1;
                    }
                },
                None => {},
            }
            let items_hit = hit;
            match &ids.pkgs {
                Some(v) => {
                    let m = v.len();
                    let mut j: usize = 0;
                    while j < m
                        invariant
                            0 <= j <= m == v@.len(),
                            hit <==> items_hit || (exists|w: int|
                                0 <= w < j && v@[w] == it.product_id),
                        decreases m - j,
                    {
                        if v[j] == it.product_id {
                            hit = true;
                        }
                        j = j + 1;
                    }
                },
                None => {},
            }
            proof {
                assert(hit == spec_in_delete_lists(ids, items0[t as int].product_id));
            }
            if !hit {
                kept.push(it);
            }
            proof {
                reveal(Seq::filter);
                let tpost = items0.take(t + 1int);
                assert(tpost.drop_last() =~= items0.take(t as int));
                assert(tpost.last() == items0[t as int]);
            }
            t = t + 1;
        }
        proof {
            assert(items0.take(n0 as int) =~= items0);
        }
        self.stores.insert(si, ProductPriceModelSet { store_id: sid, currency, items: kept });
        proof {
            assert forall|k: int|
                0 <= k < stores0.len() && k != si implies #[trigger] self.stores@[k]
                == stores0[k] by {
                if k < si {
                    assert(after_remove[k] == stores0[k]);
                } else {
                    assert(after_remove[k - 1] == stores0[k]);
                }
            }
        }
        Ok(())
    }
}


/// Entry-by-entry copy of a stored price list.
#[verifier::loop_isolation(false)]
fn clone_items(v: &Vec<ProductPriceModel>) -> (r: Vec<ProductPriceModel>)
    ensures
        r@.map_values(|m: ProductPriceModel| price_view(m)) =~= v@.map_values(
            |m: ProductPriceModel| price_view(m),
        ),
{
    let mut out: Vec<ProductPriceModel> = Vec::new();
    let n = v.len();
    let mut i: usize = 0;
    while i < n
        invariant
            0 <= i <= n,
            out@.len() == i,
            forall|k: int|
                0 <= k < i ==> price_view(#[trigger] out@[k]) == price_view(v@[k]),
        decreases n - i,
    {
        out.push(clone_price_model(&v[i]));
        i = i + 1;
    }
    proof {
        assert(out@.map_values(|m: ProductPriceModel| price_view(m)) =~= v@.map_values(
            |m: ProductPriceModel| price_view(m),
        ));
    }
    out
}

/// Entry-by-entry copy of one stored price entry.
fn clone_price_model(m: &ProductPriceModel) -> (r: ProductPriceModel)
    ensures
        price_view(r) == price_view(*m),
{
    let pricing = match &m.attributes.pricing {
        Some(v) => {
            let mut out: Vec<crate::dto::ProdAttrPriceItemDto> = Vec::new();
            let n = v.len();
            let mut i: usize = 0;
            while i < n
                invariant
                    0 <= i <= n == v@.len(),
                    out@.len() == i,
                    forall|k: int|
                        0 <= k < i ==> crate::pricing::attr_item_view(#[trigger] out@[k])
                            == crate::pricing::attr_item_view(v@[k]),
                decreases n - i,
            {
                let value = match &v[i].value {
                    crate::dto::ProdAttrValueDto::Int(x) => crate::dto::ProdAttrValueDto::Int(*x),
                    crate::dto::ProdAttrValueDto::Str(s) => crate::dto::ProdAttrValueDto::Str(
                        s.clone(),
                    ),
                    crate::dto::ProdAttrValueDto::Bool(b) => crate::dto::ProdAttrValueDto::Bool(
                        *b,
                    ),
                };
                out.push(
                    crate::dto::ProdAttrPriceItemDto {
                        label_id: v[i].label_id.clone(),
                        value,
                        price: v[i].price,
                    },
                );
                i = i + 1;
            }
            proof {
                assert(out@.map_values(
                    |it: crate::dto::ProdAttrPriceItemDto| crate::pricing::attr_item_view(it),
                ) =~= v@.map_values(
                    |it: crate::dto::ProdAttrPriceItemDto| crate::pricing::attr_item_view(it),
                ));
            }
            Some(out)
        },
        None => None,
    };
    ProductPriceModel {
        price: m.price,
        start_after: m.start_after,
        end_before: m.end_before,
        product_id: m.product_id,
        attributes: crate::pricing::ProdAttriPriceModel {
            pricing,
            last_update: m.attributes.last_update,
        },
        is_create: m.is_create,
    }
}

/// Index of the stored price list of one store.
pub open spec fn spec_find_store_full(s: Seq<ProductPriceModelSet>, store_id: u32) -> Option<int>
    decreases s.len(),
{
    if s.len() == 0 {
        None
    } else if s[0].store_id == store_id {
        Some(0int)
    } else {
        match spec_find_store_full(s.skip(1), store_id) {
            Some(i) => Some(i + 1),
            None => None,
        }
    }
}


/// A price entry as it settles into storage: the fresh-creation mark is
/// cleared once written.
pub open spec fn spec_settle_view(v: PriceView) -> PriceView {
    PriceView {
        price: v.price,
        start_after: v.start_after,
        end_before: v.end_before,
        product_id: v.product_id,
        attrs: v.attrs,
        is_create: false,
    }
}

/// Index of the first stored entry of one product, created or not.
pub open spec fn spec_find_any_price(s: Seq<PriceView>, product_id: u64) -> Option<int>
    decreases s.len(),
{
    if s.len() == 0 {
        None
    } else if s[0].product_id == product_id {
        Some(0int)
    } else {
        match spec_find_any_price(s.skip(1), product_id) {
            Some(i) => Some(i + 1),
            None => None,
        }
    }
}

/// An edited list written over a stored one: each incoming entry replaces
/// the first stored entry of its product, or is appended where none
/// exists.
pub open spec fn spec_merge_items(items: Seq<PriceView>, inc: Seq<PriceView>) -> Seq<PriceView>
    decreases inc.len(),
{
    if inc.len() == 0 {
        items
    } else {
        match spec_find_any_price(items, inc[0].product_id) {
            Some(i) => spec_merge_items(items.update(i, inc[0]), inc.skip(1)),
            None => spec_merge_items(items.push(inc[0]), inc.skip(1)),
        }
    }
}

/// The item list a save of the given entries leaves in one store: the
/// stored items of that store (none for a fresh store) merged with the
/// settled incoming entries.
pub open spec fn spec_saved_items_v(
    stores: Seq<ProductPriceModelSet>,
    store_id: u32,
    inc_views: Seq<PriceView>,
) -> Seq<PriceView> {
    let inc = inc_views.map_values(|v: PriceView| spec_settle_view(v));
    match spec_find_store_full(stores, store_id) {
        Some(i) => spec_merge_items(stores[i].views(), inc),
        None => spec_merge_items(Seq::empty(), inc),
    }
}

/// The item list one save leaves in the store.
pub open spec fn spec_saved_items(
    stores: Seq<ProductPriceModelSet>,
    updated: ProductPriceModelSet,
) -> Seq<PriceView> {
    spec_saved_items_v(stores, updated.store_id, updated.views())
}

/// Whether a product is named by a delete request.
pub open spec fn spec_in_delete_lists(ids: ProductPriceDeleteDto, product_id: u64) -> bool {
    (match ids.items {
        Some(v) => v@.contains(product_id),
        None => false,
    }) || (match ids.pkgs {
        Some(v) => v@.contains(product_id),
        None => false,
    })
}

/// Finds the first stored entry of one product, created or not.
#[verifier::loop_isolation(false)]
fn find_any_price(items: &Vec<ProductPriceModel>, product_id: u64) -> (r: Option<usize>)
    ensures
        ({
            let views = items@.map_values(|m: ProductPriceModel| price_view(m));
            match r {
                Some(i) => spec_find_any_price(views, product_id) == Some(i as int) && 0 <= i
                    < items@.len(),
                None => spec_find_any_price(views, product_id) is None,
            }
        }),
{
    let ghost views = items@.map_values(|m: ProductPriceModel| price_view(m));
    let n = items.len();
    let mut i: usize = 0;
    proof {
        assert(views.skip(0int) =~= views);
    }
    while i < n
        invariant
            0 <= i <= n == items@.len(),
            spec_find_any_price(views, product_id) == (match spec_find_any_price(
                views.skip(i as int),
                product_id,
            ) {
                Some(k) => Some(k + i),
                None => None,
            }),
        decreases n - i,
    {
        proof {
            let rest = views.skip(i as int);
            assert(rest[0] == views[i as int]);
            assert(rest.skip(1) =~= views.skip(i + 1int));
        }
        if items[i].product_id == product_id {
            return Some(i);
        }
        i = i + 1;
    }
    proof {
        assert(views.skip(n as int) =~= Seq::<PriceView>::empty());
    }
    None
}

/// The item views an edit request's load step yields: the stored entries
/// of the touched products, from the store's list if one exists.
pub open spec fn spec_fetched_views(
    stores: Seq<ProductPriceModelSet>,
    s_id: u32,
    updating: Seq<ProductPriceEditDto>,
) -> Seq<PriceView> {
    let ids = updating.map_values(|d: ProductPriceEditDto| d.product_id);
    match spec_find_store_full(stores, s_id) {
        Some(i) => stores[i].views().filter(|v: PriceView| ids.contains(v.product_id)),
        None => Seq::<PriceView>::empty(),
    }
}

/// The staff-portal use case that edits one store's price list: a
/// removal request drops the whole store or the listed products, and an
/// edit request loads the stored entries of the touched products, applies
/// the updates and creations, and saves the result.
pub struct EditProductPriceUseCase {}

impl EditProductPriceUseCase {
    /// Runs one edit request against the repository: `rm_all` drops the
    /// store; a request with delete lists drops those products; otherwise
    /// the loaded entries take the updates, the creations are appended,
    /// and the merged list is saved — failing as invalid input where an
    /// update misses or an attribute set is bad, and as over the limit
    /// where the merged list exceeds the store's capacity.
    pub fn execute(repo: &mut ProductPriceInMemRepo, data: ProductPriceDto) -> (r: Result<
        (),
        AppError,
    >)
        ensures
            data.rm_all ==> r is Ok && (forall|k: int|
                0 <= k < final(repo).spec_stores().len()
                    ==> (#[trigger] final(repo).spec_stores()[k]).store_id != data.s_id),
            !data.rm_all && (data.deleting.items is Some || data.deleting.pkgs is Some) ==> r is Ok
                && (match spec_find_store_full(old(repo).spec_stores(), data.s_id) {
                Some(si) => final(repo).spec_stores()[si].items@ =~= old(repo).spec_stores()[si].items@.filter(
                    |m: ProductPriceModel| !spec_in_delete_lists(data.deleting, m.product_id),
                ),
                None => final(repo).spec_stores() == old(repo).spec_stores(),
            }),
            !data.rm_all && data.deleting.items is None && data.deleting.pkgs is None ==> ({
                let stores0 = old(repo).spec_stores();
                let fetched = spec_fetched_views(stores0, data.s_id, data.updating@);
                let edited = spec_apply_price_edits(fetched, data.updating@);
                &&& (r is Ok <==> edited is Some && spec_creating_ok(data.creating@)
                    && spec_saved_items_v(
                    stores0,
                    data.s_id,
                    edited->0 + data.creating@.map_values(
                        |d: ProductPriceEditDto| created_view(d),
                    ),
                ).len() <= old(repo).spec_max_items())
                &&& (r is Err ==> r->Err_0.code == AppErrorCode::InvalidInput || r->Err_0.code
                    == AppErrorCode::ExceedingMaxLimit)
                &&& (r is Ok ==> ({
                    let saved = spec_saved_items_v(
                        stores0,
                        data.s_id,
                        edited->0 + data.creating@.map_values(
                            |d: ProductPriceEditDto| created_view(d),
                        ),
                    );
                    match spec_find_store_full(stores0, data.s_id) {
                        Some(si) => final(repo).spec_stores()[si].views() =~= saved && final(repo).spec_stores()[si].currency == stores0[si].currency,
                        None => final(repo).spec_stores().last().views() =~= saved && final(repo).spec_stores().last().currency == CurrencyDto::Unknown,
                    }
                }))
            }),
    {
        if data.rm_all {
            repo.delete_all(data.s_id)
        } else if data.deleting.items.is_some() || data.deleting.pkgs.is_some() {
            repo.delete(data.s_id, data.deleting)
        } else {
            let mut ids: Vec<u64> = Vec::new();
            let n = data.updating.len();
            let mut i: usize = 0;
            while i < n
                invariant
                    0 <= i <= n == data.updating@.len(),
                    ids@ =~= data.updating@.take(i as int).map_values(
                        |d: ProductPriceEditDto| d.product_id,
                    ),
                decreases n - i,
            {
                ids.push(data.updating[i].product_id);
                proof {
                    assert(data.updating@.take(i + 1int) =~= data.updating@.take(i as int).push(
                        data.updating@[i as int],
                    ));
                    assert(data.updating@.take(i + 1int).map_values(
                        |d: ProductPriceEditDto| d.product_id,
                    ) =~= data.updating@.take(i as int).map_values(
                        |d: ProductPriceEditDto| d.product_id,
                    ).push(data.updating@[i as int].product_id));
                }
                i = i + 1;
            }
            proof {
                assert(data.updating@.take(n as int) =~= data.updating@);
                assert(ids@ =~= data.updating@.map_values(
                    |d: ProductPriceEditDto| d.product_id,
                ));
            }
            let previous_saved = match repo.fetch(data.s_id, ids) {
                Ok(v) => v,
                Err(e) => {
                    return Err(e);
                },
            };
            proof {
                assert(previous_saved.views() =~= spec_fetched_views(
                    repo.spec_stores(),
                    data.s_id,
                    data.updating@,
                ));
            }
            let currency = previous_saved.currency;
            let ghost fetched = previous_saved.views();
            let updated = match previous_saved.update(data.updating, data.creating, currency) {
                Ok(v) => v,
                Err(e) => {
                    return Err(e);
                },
            };
            proof {
                let stores0 = repo.spec_stores();
                let edited = spec_apply_price_edits(
                    spec_fetched_views(stores0, data.s_id, data.updating@),
                    data.updating@,
                );
                assert(fetched == spec_fetched_views(stores0, data.s_id, data.updating@));
                assert(updated.views() == edited->0 + data.creating@.map_values(
                    |d: ProductPriceEditDto| created_view(d),
                ));
                assert(updated.views().map_values(|v: PriceView| spec_settle_view(v)) == (
                edited->0 + data.creating@.map_values(
                    |d: ProductPriceEditDto| created_view(d),
                )).map_values(|v: PriceView| spec_settle_view(v)));
                assert(spec_saved_items(stores0, updated) == spec_saved_items_v(
                    stores0,
                    data.s_id,
                    edited->0 + data.creating@.map_values(
                        |d: ProductPriceEditDto| created_view(d),
                    ),
                ));
            }
            repo.save(updated)
        }
    }
}

} // verus!
