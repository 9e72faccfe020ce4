use vstd::prelude::*;
use crate::error::{AppError, AppErrorCode};
use crate::shared::AppDataStoreContext;

verus! {

/// Identity of one order line in return bookkeeping: the seller, the
/// product, and the sequence number of the attribute combination sold.
#[derive(Clone, Copy, Debug, PartialEq, Eq, Structural)]
pub struct OrderLineIdentity {
    store_id: u32,
    product_id: u64,
    attrs_seq_num: u16,
}

impl OrderLineIdentity {
    pub closed spec fn spec_store_id(self) -> u32 {
        self.store_id
    }

    pub closed spec fn spec_product_id(self) -> u64 {
        self.product_id
    }

    pub closed spec fn spec_attrs_seq_num(self) -> u16 {
        self.attrs_seq_num
    }

    pub fn from_parts(store_id: u32, product_id: u64, attrs_seq_num: u16) -> (r: OrderLineIdentity)
        ensures
            r.spec_store_id() == store_id,
            r.spec_product_id() == product_id,
            r.spec_attrs_seq_num() == attrs_seq_num,
    {
        OrderLineIdentity { store_id, product_id, attrs_seq_num }
    }

    pub fn store_id(&self) -> (r: u32)
        ensures
            r == self.spec_store_id(),
    {
        self.store_id
    }

    pub fn product_id(&self) -> (r: u64)
        ensures
            r == self.spec_product_id(),
    {
        self.product_id
    }

    pub fn attrs_seq_num(&self) -> (r: u16)
        ensures
            r == self.spec_attrs_seq_num(),
    {
        self.attrs_seq_num
    }
}

/// Money refunded with one returned batch, in the order currency's minor
/// units.
#[derive(Clone, Copy, Debug, PartialEq, Eq, Structural)]
pub struct OrderReturnAmount {
    pub unit: u32,
    pub total: u32,
}

impl OrderReturnAmount {
    /// The refunded total of this batch.
    pub fn total(&self) -> (r: u32)
        ensures
            r == self.total,
    {
        self.total
    }
}

/// Returned batches of one order line: for each issue time (milliseconds)
/// the quantity handed back and the money refunded with it.
#[derive(Clone, Debug, PartialEq, Eq)]
pub struct OrderReturnModel {
    pub id_: OrderLineIdentity,
    pub qty: Vec<(i64, (u32, OrderReturnAmount))>,
}

/// One stored return record: the order it belongs to and the line's
/// batches.
#[derive(Clone, Debug, PartialEq, Eq)]
pub struct OrderReturnRecord {
    pub oid: String,
    pub id_: OrderLineIdentity,
    pub time: i64,
    pub qty: u32,
    pub amount: OrderReturnAmount,
}

/// The order-return repository backed by the in-memory store: one row per
/// returned batch.
#[derive(Debug)]
pub struct OrderReturnInMemRepo {
    rows: Vec<OrderReturnRecord>,
    max_items: u32,
}

impl OrderReturnInMemRepo {
    pub closed spec fn spec_rows(self) -> Seq<OrderReturnRecord> {
        self.rows@
    }

    /// The configured capacity of the table.
    pub closed spec fn spec_max_items(self) -> int {
        self.max_items as int
    }

    /// Opens the repository on the in-memory data store; a context
    /// without one cannot back it.
    pub fn new(ds: &AppDataStoreContext) -> (r: Result<OrderReturnInMemRepo, AppError>)
        ensures
            r is Ok <==> ds.in_mem is Some,
            r is Ok ==> r->Ok_0.spec_rows().len() == 0 && r->Ok_0.spec_max_items()
                == ds.in_mem->0.max_items,
            r is Err ==> r->Err_0.code == AppErrorCode::MissingDataStore && r->Err_0.detail
                is Some && r->Err_0.detail->0@ == "in-memory"@,
    {
        proof {
            reveal_strlit("in-memory");
        }
        match &ds.in_mem {
            Some(cfg) => Ok(OrderReturnInMemRepo { rows: Vec::new(), max_items: cfg.max_items }),
            None => Err(
                AppError {
                    code: AppErrorCode::MissingDataStore,
                    detail: Some(String::from_str("in-memory")),
                },
            ),
        }
    }

    /// Saves the returned batches of one order and reports how many
    /// batches were written: one row per batch, appended in request
    /// order. A batch count that would push the table past its configured
    /// capacity is refused whole.
    #[verifier::loop_isolation(false)]
    pub fn create(&mut self, oid: &str, reqs: Vec<OrderReturnModel>) -> (r: Result<
        usize,
        AppError,
    >)
        ensures
            r is Ok <==> old(self).spec_rows().len() + spec_batch_count(reqs@) <= old(self).spec_max_items(),
            r is Err ==> r->Err_0.code == AppErrorCode::ExceedingMaxLimit && *final(self) == *old(
                self,
            ),
            r is Ok ==> r->Ok_0 == spec_batch_count(reqs@) && final(self).spec_rows().map_values(
                |rec: OrderReturnRecord| spec_rec_view(rec),
            ) =~= old(self).spec_rows().map_values(|rec: OrderReturnRecord| spec_rec_view(rec))
                + spec_return_rows(
                oid@,
                reqs@.map_values(|m: OrderReturnModel| (m.id_, m.qty@)),
            ),
    {
        let ghost rows0 = self.rows@;
        let rows0_len = self.rows.len();
        let nr = reqs.len();
        let cap: u64 = self.max_items as u64;
        if (rows0_len as u64) > cap {
            proof {
                lemma_batch_count_mono(reqs@, 0);
            }
            return Err(AppError { code: AppErrorCode::ExceedingMaxLimit, detail: None });
        }
        let mut planned: u64 = rows0_len as u64;
        let mut t: usize = 0;
        proof {
            assert(reqs@.take(0int) =~= Seq::<OrderReturnModel>::empty());
        }
        while t < nr
            invariant
                0 <= t <= nr,
                planned == rows0.len() + spec_batch_count(reqs@.take(t as int)),
                planned <= cap,
            decreases nr - t,
        {
            proof {
                assert(reqs@.take(t + 1int).drop_last() =~= reqs@.take(t as int));
            }
            let np = reqs[t].qty.len() as u64;
            if np > cap - planned {
                proof {
                    lemma_batch_count_mono(reqs@, t + 1int);
                }
                return Err(AppError { code: AppErrorCode::ExceedingMaxLimit, detail: None });
            }
            planned = planned + np;
            t = t + 1;
        }
        proof {
            assert(reqs@.take(nr as int) =~= reqs@);
        }
        let mut count: usize = 0;
        let n = reqs.len();
        let mut rest = reqs;
        proof {
            assert(rest@.skip(0int) =~= rest@);
        }
        let ghost reqs0 = rest@;
        let ghost rviews = reqs0.map_values(|m: OrderReturnModel| (m.id_, m.qty@));
        proof {
            assert(rviews.skip(0int) =~= rviews);
        }
        let mut i: usize = 0;
        while rest.len() > 0
            invariant
                0 <= i <= n == reqs0.len(),
                rows0_len == rows0.len(),
                rest@ =~= reqs0.skip(i as int),
                count == spec_batch_count(reqs0.take(i as int)),
                count <= self.rows@.len(),
                self.rows@.len() == rows0.len() + count,
                rows0.map_values(|rec: OrderReturnRecord| spec_rec_view(rec)) + spec_return_rows(
                    oid@,
                    rviews,
                ) =~= self.rows@.map_values(|rec: OrderReturnRecord| spec_rec_view(rec))
                    + spec_return_rows(oid@, rviews.skip(i as int)),
            decreases rest@.len(),
        {
            let m = rest.remove(0);
            proof {
                assert(m == reqs0[i as int]);
                assert(rest@ =~= reqs0.skip(i + 1int));
                assert(reqs0.take(i + 1int).drop_last() =~= reqs0.take(i as int));
                assert(rviews[i as int] == (m.id_, m.qty@));
                assert(rviews.skip(i as int)[0] == rviews[i as int]);
                assert(rviews.skip(i as int).skip(1) =~= rviews.skip(i + 1int));
            }
            let OrderReturnModel { id_, qty } = m;
            let mut batches = qty;
            let nb = batches.len();
            let ghost b0 = batches@;
            let ghost rows_pre = self.rows@;
            let mut j: usize = 0;
            while batches.len() > 0
                invariant
                    0 <= j <= nb == b0.len(),
                    batches@ =~= b0.skip(j as int),
                    count + j <= self.rows@.len(),
                    self.rows@.len() == rows_pre.len() + j,
                    self.rows@.map_values(|rec: OrderReturnRecord| spec_rec_view(rec))
                        =~= rows_pre.map_values(|rec: OrderReturnRecord| spec_rec_view(rec))
                        + spec_rows_of_req(oid@, id_, b0.take(j as int)),
                decreases batches@.len(),
            {
                let (bt, (q, amount)) = batches.remove(0);
                proof {
                    assert(batches@ =~= b0.skip(j + 1int));
                    assert(b0[j as int] == (bt, (q, amount)));
                    assert(b0.take(j + 1int) =~= b0.take(j as int).push(b0[j as int]));
                }
                let ghost rows_mid = self.rows@;
                self.rows.push(
                    OrderReturnRecord { oid: oid.to_owned(), id_, time: bt, qty: q, amount },
                );
                proof {
                    assert(self.rows@.map_values(|rec: OrderReturnRecord| spec_rec_view(rec))
                        =~= rows_mid.map_values(|rec: OrderReturnRecord| spec_rec_view(rec)).push(
                        spec_rec_view(self.rows@.last()),
                    ));
                    assert(spec_rows_of_req(oid@, id_, b0.take(j + 1int)) =~= spec_rows_of_req(
                        oid@,
                        id_,
                        b0.take(j as int),
                    ).push((oid@, id_, bt, q, amount)));
                }
                j = j + 1;
            }
            proof {
                assert(b0.take(b0.len() as int) =~= b0);
                assert(j == b0.len());
            }
            count = self.rows.len() - rows0_len;
            i = i + 1;
        }
        proof {
            assert(reqs0.skip(n as int) =~= Seq::<OrderReturnModel>::empty());
            assert(reqs0.take(n as int) =~= reqs0);
            assert(rviews.skip(n as int) =~= Seq::<
                (OrderLineIdentity, Seq<(i64, (u32, OrderReturnAmount))>),
            >::empty());
        }
        Ok(count)
    }

    /// The stored batches of one order under the asked line identities,
    /// merged into one model per identity, in the order asked; an
    /// identity with no stored batch yields no model.
    #[verifier::loop_isolation(false)]
    pub fn fetch_by_pid(&self, oid: &str, pids: Vec<OrderLineIdentity>) -> (r: Result<
        Vec<OrderReturnModel>,
        AppError,
    >)
        ensures
            r is Ok,
            r->Ok_0@.map_values(|m: OrderReturnModel| (m.id_, m.qty@)) =~= spec_fetch_by_pid(
                self.spec_rows(),
                oid@,
                pids@,
            ),
    {
        let mut out: Vec<OrderReturnModel> = Vec::new();
        let np = pids.len();
        let mut k: usize = 0;
        proof {
            assert(pids@.skip(0int) =~= pids@);
        }
        while k < np
            invariant
                0 <= k <= np,
                spec_fetch_by_pid(self.spec_rows(), oid@, pids@) =~= out@.map_values(
                    |m: OrderReturnModel| (m.id_, m.qty@),
                ) + spec_fetch_by_pid(self.spec_rows(), oid@, pids@.skip(k as int)),
            decreases np - k,
        {
            proof {
                let rest = pids@.skip(k as int);
                assert(rest[0] == pids@[k as int]);
                assert(rest.skip(1) =~= pids@.skip(k + 1int));
            }
            let pid = pids[k];
            let mut qty: Vec<(i64, (u32, OrderReturnAmount))> = Vec::new();
            let n = self.rows.len();
            let mut i: usize = 0;
            proof {
                assert(spec_pid_batches(self.rows@.take(0int), oid@, pid) =~= Seq::<
                    (i64, (u32, OrderReturnAmount)),
                >::empty());
            }
            while i < n
                invariant
                    0 <= i <= n,
                    qty@ =~= spec_pid_batches(self.rows@.take(i as int), oid@, pid),
                decreases n - i,
            {
                let rec = &self.rows[i];
                let same_oid = rec.oid.as_str().to_owned() == oid.to_owned();
                if same_oid && rec.id_ == pid {
                    qty.push((rec.time, (rec.qty, rec.amount)));
                }
                proof {
                    let tpost = self.rows@.take(i + 1int);
                    assert(tpost.drop_last() =~= self.rows@.take(i as int));
                    assert(tpost.last() == self.rows@[i as int]);
                }
                i = i + 1;
            }
            proof {
                assert(self.rows@.take(n as int) =~= self.rows@);
            }
            let ghost out_pre = out@;
            if qty.len() > 0 {
                let ghost qv = qty@;
                out.push(OrderReturnModel { id_: pid, qty });
                proof {
                    assert(out@.map_values(|m: OrderReturnModel| (m.id_, m.qty@))
                        =~= out_pre.map_values(|m: OrderReturnModel| (m.id_, m.qty@)).push(
                        (pid, qv),
                    ));
                }
            }
            k = k + 1;
        }
        proof {
            assert(pids@.skip(np as int) =~= Seq::<OrderLineIdentity>::empty());
        }
        Ok(out)
    }

    /// The stored batches whose issue time lies inside `(start, end]`,
    /// each with the order it belongs to.
    #[verifier::loop_isolation(false)]
    pub fn fetch_by_created_time(&self, start: i64, end: i64) -> (r: Result<
        Vec<OrderReturnRecord>,
        AppError,
    >)
        ensures
            r is Ok,
            r->Ok_0@ =~= self.spec_rows().filter(
                |rec: OrderReturnRecord| start < rec.time <= end,
            ),
    {
        let mut out: Vec<OrderReturnRecord> = Vec::new();
        let n = self.rows.len();
        let mut i: usize = 0;
        proof {
            reveal(Seq::filter);
            assert(self.rows@.take(0int).filter(
                |rec: OrderReturnRecord| start < rec.time <= end,
            ) =~= Seq::<OrderReturnRecord>::empty());
        }
        while i < n
            invariant
                0 <= i <= n == self.rows@.len(),
                out@ =~= self.rows@.take(i as int).filter(
                    |rec: OrderReturnRecord| start < rec.time <= end,
                ),
            decreases n - i,
        {
            let rec = &self.rows[i];
            if start < rec.time && rec.time <= end {
                out.push(clone_record(rec));
                proof {
                    assert(out@.last() == self.rows@[i as int]);
                }
            }
            proof {
                reveal(Seq::filter);
                let tpre = self.rows@.take(i as int);
                let tpost = self.rows@.take(i + 1int);
                assert(tpost.drop_last() =~= tpre);
                assert(tpost.last() == self.rows@[i as int]);
            }
            i = i + 1;
        }
        proof {
            assert(self.rows@.take(n as int) =~= self.rows@);
        }
        Ok(out)
    }

    /// The stored batches of one order whose issue time lies inside
    /// `(start, end]`.
    #[verifier::loop_isolation(false)]
    pub fn fetch_by_oid_ctime(&self, oid: &str, start: i64, end: i64) -> (r: Result<
        Vec<OrderReturnRecord>,
        AppError,
    >)
        ensures
            r is Ok,
            r->Ok_0@ =~= self.spec_rows().filter(
                |rec: OrderReturnRecord| rec.oid@ == oid@ && start < rec.time <= end,
            ),
    {
        let mut out: Vec<OrderReturnRecord> = Vec::new();
        let n = self.rows.len();
        let mut i: usize = 0;
        proof {
            reveal(Seq::filter);
            assert(self.rows@.take(0int).filter(
                |rec: OrderReturnRecord| rec.oid@ == oid@ && start < rec.time <= end,
            ) =~= Seq::<OrderReturnRecord>::empty());
        }
        while i < n
            invariant
                0 <= i <= n == self.rows@.len(),
                out@ =~= self.rows@.take(i as int).filter(
                    |rec: OrderReturnRecord| rec.oid@ == oid@ && start < rec.time <= end,
                ),
            decreases n - i,
        {
            let rec = &self.rows[i];
            let same_oid = rec.oid.as_str().to_owned() == oid.to_owned();
            if same_oid && start < rec.time && rec.time <= end {
                out.push(clone_record(rec));
                proof {
                    assert(out@.last() == self.rows@[i as int]);
                }
            }
            proof {
                reveal(Seq::filter);
                let tpre = self.rows@.take(i as int);
                let tpost = self.rows@.take(i + 1int);
                assert(tpost.drop_last() =~= tpre);
                assert(tpost.last() == self.rows@[i as int]);
            }
            i = i + 1;
        }
        proof {
            assert(self.rows@.take(n as int) =~= self.rows@);
        }
        Ok(out)
    }
}



/// Ghost image of one stored row.
pub open spec fn spec_rec_view(rec: OrderReturnRecord) -> (
    Seq<char>,
    OrderLineIdentity,
    i64,
    u32,
    OrderReturnAmount,
) {
    (rec.oid@, rec.id_, rec.time, rec.qty, rec.amount)
}

/// The rows one request line appends, one per batch, in batch order.
pub open spec fn spec_rows_of_req(
    oid: Seq<char>,
    id_: OrderLineIdentity,
    batches: Seq<(i64, (u32, OrderReturnAmount))>,
) -> Seq<(Seq<char>, OrderLineIdentity, i64, u32, OrderReturnAmount)> {
    batches.map_values(
        |b: (i64, (u32, OrderReturnAmount))| (oid, id_, b.0, b.1.0, b.1.1),
    )
}

/// The rows a whole request list appends, in request order.
pub open spec fn spec_return_rows(
    oid: Seq<char>,
    reqs: Seq<(OrderLineIdentity, Seq<(i64, (u32, OrderReturnAmount))>)>,
) -> Seq<(Seq<char>, OrderLineIdentity, i64, u32, OrderReturnAmount)>
    decreases reqs.len(),
{
    if reqs.len() == 0 {
        Seq::empty()
    } else {
        spec_rows_of_req(oid, reqs[0].0, reqs[0].1) + spec_return_rows(oid, reqs.skip(1))
    }
}

/// The stored batches of one order line, in storage order.
pub open spec fn spec_pid_batches(
    rows: Seq<OrderReturnRecord>,
    oid: Seq<char>,
    pid: OrderLineIdentity,
) -> Seq<(i64, (u32, OrderReturnAmount))>
    decreases rows.len(),
{
    if rows.len() == 0 {
        Seq::empty()
    } else {
        spec_pid_batches(rows.drop_last(), oid, pid) + (if rows.last().oid@ == oid
            && rows.last().id_ == pid {
            seq![(rows.last().time, (rows.last().qty, rows.last().amount))]
        } else {
            Seq::empty()
        })
    }
}

/// The models a by-identity fetch yields: one per asked identity with
/// stored batches, in the order asked.
pub open spec fn spec_fetch_by_pid(
    rows: Seq<OrderReturnRecord>,
    oid: Seq<char>,
    pids: Seq<OrderLineIdentity>,
) -> Seq<(OrderLineIdentity, Seq<(i64, (u32, OrderReturnAmount))>)>
    decreases pids.len(),
{
    if pids.len() == 0 {
        Seq::empty()
    } else {
        (if spec_pid_batches(rows, oid, pids[0]).len() > 0 {
            seq![(pids[0], spec_pid_batches(rows, oid, pids[0]))]
        } else {
            Seq::empty()
        }) + spec_fetch_by_pid(rows, oid, pids.skip(1))
    }
}


/// Appending more request lines never lowers the batch count.
pub proof fn lemma_batch_count_mono(reqs: Seq<OrderReturnModel>, t: int)
    requires
        0 <= t <= reqs.len(),
    ensures
        spec_batch_count(reqs.take(t)) <= spec_batch_count(reqs),
    decreases reqs.len() - t,
{
    if t < reqs.len() {
        assert(reqs.take(t + 1).drop_last() =~= reqs.take(t));
        lemma_batch_count_mono(reqs, t + 1);
    } else {
        assert(reqs.take(t) =~= reqs);
    }
}

/// Batches counted over a whole request list.
pub open spec fn spec_batch_count(reqs: Seq<OrderReturnModel>) -> int
    decreases reqs.len(),
{
    if reqs.len() == 0 {
        0
    } else {
        spec_batch_count(reqs.drop_last()) + reqs.last().qty@.len()
    }
}

/// Row-by-row copy of one stored record.
fn clone_record(rec: &OrderReturnRecord) -> (r: OrderReturnRecord)
    ensures
        r == *rec,
{
    OrderReturnRecord {
        oid: rec.oid.clone(),
        id_: rec.id_,
        time: rec.time,
        qty: rec.qty,
        amount: rec.amount,
    }
}

} // verus!
