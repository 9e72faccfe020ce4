use vstd::prelude::*;
use crate::error::{AppError, AppErrorCode};
use crate::shared::AppDataStoreContext;

verus! {

/// Purchase policy of one product under one staff user: when an unpaid
/// order auto-cancels, how long the warranty runs, and whether stock is
/// checked asynchronously.
#[derive(Clone, Copy, Debug, PartialEq, Eq, Structural)]
pub struct ProductPolicyModel {
    pub usr_id: u32,
    pub product_id: u64,
    pub auto_cancel_secs: u32,
    pub warranty_hours: u32,
    pub async_stock_chk: bool,
    pub is_create: bool,
}

/// A batch of policies moved together.
#[derive(Clone, Debug, PartialEq, Eq)]
pub struct ProductPolicyModelSet {
    pub policies: Vec<ProductPolicyModel>,
}

/// The policy repository's operation set: whatever backs it must hand out
/// exactly the stored policies asked for and write batches by
/// replace-or-append, within its capacity.
pub trait AbstProductPolicyRepo {
    spec fn policy_rows(&self) -> Seq<ProductPolicyModel>;

    spec fn policy_cap(&self) -> int;

    fn fetch(&self, usr_id: u32, ids: Vec<u64>) -> (r: Result<ProductPolicyModelSet, AppError>)
        ensures
            r is Ok,
            r->Ok_0.policies@ =~= self.policy_rows().filter(
                |m: ProductPolicyModel| m.usr_id == usr_id && ids@.contains(m.product_id),
            );

    fn save(&mut self, ppset: ProductPolicyModelSet) -> (r: Result<(), AppError>)
        ensures
            r is Ok <==> ppset.policies@.len() > 0 && spec_save_policies(
                old(self).policy_rows(),
                ppset.policies@,
            ).len() <= old(self).policy_cap(),
            r is Err ==> final(self).policy_rows() == old(self).policy_rows(),
            r is Ok ==> final(self).policy_rows() == spec_save_policies(
                old(self).policy_rows(),
                ppset.policies@,
            );
}

/// Index of the stored policy keyed by the same user and product.
pub open spec fn spec_find_policy(s: Seq<ProductPolicyModel>, usr_id: u32, product_id: u64) -> Option<
    int,
>
    decreases s.len(),
{
    if s.len() == 0 {
        None
    } else if s[0].usr_id == usr_id && s[0].product_id == product_id {
        Some(0int)
    } else {
        match spec_find_policy(s.skip(1), usr_id, product_id) {
            Some(i) => Some(i + 1),
            None => None,
        }
    }
}

/// One policy written into the stored rows: it replaces the row of its
/// key, or is appended where none exists.
pub open spec fn spec_upsert_policy(s: Seq<ProductPolicyModel>, p: ProductPolicyModel) -> Seq<
    ProductPolicyModel,
> {
    match spec_find_policy(s, p.usr_id, p.product_id) {
        Some(i) => s.update(i, p),
        None => s.push(p),
    }
}

/// A whole batch written in order.
pub open spec fn spec_save_policies(
    s: Seq<ProductPolicyModel>,
    ps: Seq<ProductPolicyModel>,
) -> Seq<ProductPolicyModel>
    decreases ps.len(),
{
    if ps.len() == 0 {
        s
    } else {
        spec_save_policies(spec_upsert_policy(s, ps[0]), ps.skip(1))
    }
}

/// The product-policy repository backed by the in-memory store.
#[derive(Clone, Debug)]
pub struct ProductPolicyInMemRepo {
    rows: Vec<ProductPolicyModel>,
    max_items: u32,
}

impl ProductPolicyInMemRepo {
    pub closed spec fn spec_rows(self) -> Seq<ProductPolicyModel> {
        self.rows@
    }

    /// The configured capacity of the table.
    pub closed spec fn spec_max_items(self) -> int {
        self.max_items as int
    }

    /// Opens the repository on the in-memory data store; a context
    /// without one cannot back it.
    pub fn new(ds: &AppDataStoreContext) -> (r: Result<ProductPolicyInMemRepo, AppError>)
        ensures
            r is Ok <==> ds.in_mem is Some,
            r is Ok ==> r->Ok_0.spec_rows().len() == 0 && r->Ok_0.spec_max_items()
                == ds.in_mem->0.max_items,
            r is Err ==> r->Err_0.code == AppErrorCode::MissingDataStore && r->Err_0.detail
                is Some && r->Err_0.detail->0@ == "in-memory"@,
    {
        proof {
            reveal_strlit("in-memory");
        }
        match &ds.in_mem {
            Some(cfg) => Ok(ProductPolicyInMemRepo { rows: Vec::new(), max_items: cfg.max_items }),
            None => Err(
                AppError {
                    code: AppErrorCode::MissingDataStore,
                    detail: Some(String::from_str("in-memory")),
                },
            ),
        }
    }

    /// Saves a batch of policies: each one replaces the stored row of its
    /// key or is appended. An empty batch is refused as empty input, and
    /// a batch that would push the table past its configured capacity is
    /// refused whole.
    #[verifier::loop_isolation(false)]
    pub fn save(&mut self, ppset: ProductPolicyModelSet) -> (r: Result<(), AppError>)
        ensures
            r is Ok <==> ppset.policies@.len() > 0 && spec_save_policies(
                old(self).spec_rows(),
                ppset.policies@,
            ).len() <= old(self).spec_max_items(),
            r is Err ==> *final(self) == *old(self) && (r->Err_0.code == (
            if ppset.policies@.len() == 0 {
                AppErrorCode::EmptyInputData
            } else {
                AppErrorCode::ExceedingMaxLimit
            })),
            r is Ok ==> final(self).spec_rows() == spec_save_policies(
                old(self).spec_rows(),
                ppset.policies@,
            ) && final(self).spec_max_items() == old(self).spec_max_items(),
    {
        if ppset.policies.len() == 0 {
            return Err(AppError { code: AppErrorCode::EmptyInputData, detail: None });
        }
        let mut work = clone_policies(&self.rows);
        let n = ppset.policies.len();
        let mut k: usize = 0;
        proof {
            assert(ppset.policies@.skip(0int) =~= ppset.policies@);
        }
        while k < n
            invariant
                0 <= k <= n,
                spec_save_policies(old(self).spec_rows(), ppset.policies@) == spec_save_policies(
                    work@,
                    ppset.policies@.skip(k as int),
                ),
            decreases n - k,
        {
            proof {
                let rest = ppset.policies@.skip(k as int);
                assert(rest[0] == ppset.policies@[k as int]);
                assert(rest.skip(1) =~= ppset.policies@.skip(k + 1int));
            }
            let p = ppset.policies[k];
            match find_policy(&work, p.usr_id, p.product_id) {
                Some(i) => {
                    work.set(i, p);
                },
                None => {
                    work.push(p);
                },
            }
            k = k + 1;
        }
        proof {
            assert(ppset.policies@.skip(n as int) =~= Seq::<ProductPolicyModel>::empty());
        }
        if work.len() > self.max_items as usize {
            return Err(AppError { code: AppErrorCode::ExceedingMaxLimit, detail: None });
        }
        self.rows = work;
        Ok(())
    }

    /// The stored policies of one user among the asked product ids.
    #[verifier::loop_isolation(false)]
    pub fn fetch(&self, usr_id: u32, ids: Vec<u64>) -> (r: Result<ProductPolicyModelSet, AppError>)
        ensures
            r is Ok,
            r->Ok_0.policies@ =~= self.spec_rows().filter(
                |m: ProductPolicyModel| m.usr_id == usr_id && ids@.contains(m.product_id),
            ),
    {
        let mut out: Vec<ProductPolicyModel> = Vec::new();
        let n = self.rows.len();
        let mut i: usize = 0;
        proof {
            reveal(Seq::filter);
            assert(self.rows@.take(0int).filter(
                |m: ProductPolicyModel| m.usr_id == usr_id && ids@.contains(m.product_id),
            ) =~= Seq::<ProductPolicyModel>::empty());
        }
        while i < n
            invariant
                0 <= i <= n,
                out@ =~= self.rows@.take(i as int).filter(
                    |m: ProductPolicyModel| m.usr_id == usr_id && ids@.contains(m.product_id),
                ),
            decreases n - i,
        {
            let p = self.rows[i];
            let mut hit = false;
            let m = ids.len();
            let mut j: usize = 0;
            while j < m
                invariant
                    0 <= j <= m,
                    hit <==> (exists|t: int| 0 <= t < j && ids@[t] == p.product_id),
                decreases m - j,
            {
                if ids[j] == p.product_id {
                    hit = true;
                }
                j = j + 1;
            }
            if p.usr_id == usr_id && hit {
                out.push(p);
            }
            proof {
                reveal(Seq::filter);
                let tpre = self.rows@.take(i as int);
                let tpost = self.rows@.take(i + 1int);
                assert(tpost.drop_last() =~= tpre);
                assert(tpost.last() == self.rows@[i as int]);
            }
            i = i + 1;
        }
        proof {
            assert(self.rows@.take(n as int) =~= self.rows@);
        }
        Ok(ProductPolicyModelSet { policies: out })
    }
}


/// Finds the stored row of one key.
#[verifier::loop_isolation(false)]
fn find_policy(rows: &Vec<ProductPolicyModel>, usr_id: u32, product_id: u64) -> (r: Option<usize>)
    ensures
        match r {
            Some(i) => spec_find_policy(rows@, usr_id, product_id) == Some(i as int) && 0 <= i
                < rows@.len(),
            None => spec_find_policy(rows@, usr_id, product_id) is None,
        },
{
    let n = rows.len();
    let mut i: usize = 0;
    proof {
        assert(rows@.skip(0int) =~= rows@);
    }
    while i < n
        invariant
            0 <= i <= n,
            spec_find_policy(rows@, usr_id, product_id) == (match spec_find_policy(
                rows@.skip(i as int),
                usr_id,
                product_id,
            ) {
                Some(k) => Some(k + i),
                None => None,
            }),
        decreases n - i,
    {
        proof {
            let rest = rows@.skip(i as int);
            assert(rest[0] == rows@[i as int]);
            assert(rest.skip(1) =~= rows@.skip(i + 1int));
        }
        let p = &rows[i];
        if p.usr_id == usr_id && p.product_id == product_id {
            return Some(i);
        }
        i = i + 1;
    }
    proof {
        assert(rows@.skip(n as int) =~= Seq::<ProductPolicyModel>::empty());
    }
    None
}

/// Row-by-row copy of the stored policies.
fn clone_policies(v: &Vec<ProductPolicyModel>) -> (r: Vec<ProductPolicyModel>)
    ensures
        r@ =~= v@,
{
    let mut out: Vec<ProductPolicyModel> = Vec::new();
    let n = v.len();
    let mut i: usize = 0;
    while i < n
        invariant
            0 <= i <= n == v@.len(),
            out@ =~= v@.take(i as int),
        decreases n - i,
    {
        out.push(v[i]);
        proof {
            assert(v@.take(i + 1int) =~= v@.take(i as int).push(v@[i as int]));
        }
        i = i + 1;
    }
    proof {
        assert(v@.take(n as int) =~= v@);
    }
    out
}

impl AbstProductPolicyRepo for ProductPolicyInMemRepo {
    closed spec fn policy_rows(&self) -> Seq<ProductPolicyModel> {
        self.rows@
    }

    closed spec fn policy_cap(&self) -> int {
        self.max_items as int
    }

    fn fetch(&self, usr_id: u32, ids: Vec<u64>) -> Result<ProductPolicyModelSet, AppError> {
        ProductPolicyInMemRepo::fetch(self, usr_id, ids)
    }

    fn save(&mut self, ppset: ProductPolicyModelSet) -> Result<(), AppError> {
        ProductPolicyInMemRepo::save(self, ppset)
    }
}

} // verus!
