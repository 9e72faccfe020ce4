use vstd::prelude::*;
use crate::dto::{
    OrderLineCreateErrorDto, OrderLineCreateErrorReason, StockLevelReturnDto, StockReturnErrorDto,
    StockReturnErrorReason, StockReturnItemDto,
};
use crate::error::AppError;
use crate::types::ProductType;

verus! {

/// Quantity counters of one stock bucket: how many items exist in total,
/// how many are booked by reservations and how many were cancelled back.
#[derive(Clone, Copy, Debug, PartialEq, Eq, Structural)]
pub struct StockQuantityModel {
    pub total: u32,
    pub booked: u32,
    pub cancelled: u32,
}

impl StockQuantityModel {
    /// A bucket is well formed when booked and cancelled together never
    /// exceed the stocked total.
    pub open spec fn wf(self) -> bool {
        self.booked + self.cancelled <= self.total
    }

    /// Units still free to reserve.
    pub fn num_avail(&self) -> (r: u32)
        requires
            self.wf(),
        ensures
            r == self.total - self.booked - self.cancelled,
    {
        self.total - self.booked - self.cancelled
    }
}

/// Identity of one restockable product bucket: the product plus the
/// expiry of the batch, in milliseconds.
#[derive(Clone, Copy, Debug, PartialEq, Eq, Structural)]
pub struct ProductStockIdentity {
    pub store_id: u32,
    pub product_type: ProductType,
    pub product_id: u64,
    pub expiry: i64,
}

/// One stock bucket: a product batch of one expiry with its counters.
#[derive(Clone, Copy, Debug, PartialEq, Eq, Structural)]
pub struct StockLevelModel {
    pub store_id: u32,
    pub product_type: ProductType,
    pub product_id: u64,
    pub expiry: i64,
    pub quantity: StockQuantityModel,
}

/// Whether a bucket stocks the given product.
pub open spec fn bucket_matches(b: StockLevelModel, store_id: u32, product_type: ProductType, product_id: u64) -> bool {
    b.store_id == store_id && b.product_type == product_type && b.product_id == product_id
}

/// Units of a bucket still reservable at the given instant: an expired
/// bucket offers nothing.
pub open spec fn spec_avail(b: StockLevelModel, now: i64) -> int {
    if b.expiry > now {
        b.quantity.total - b.quantity.booked - b.quantity.cancelled
    } else {
        0
    }
}

/// Reservable units of one product over all its buckets.
pub open spec fn sum_avail(
    s: Seq<StockLevelModel>,
    store_id: u32,
    product_type: ProductType,
    product_id: u64,
    now: i64,
) -> int
    decreases s.len(),
{
    if s.len() == 0 {
        0
    } else {
        (if bucket_matches(s.last(), store_id, product_type, product_id) {
            spec_avail(s.last(), now)
        } else {
            0
        }) + sum_avail(s.drop_last(), store_id, product_type, product_id, now)
    }
}

/// Booked units over all buckets.
pub open spec fn sum_booked(s: Seq<StockLevelModel>) -> int
    decreases s.len(),
{
    if s.len() == 0 {
        0
    } else {
        s.last().quantity.booked + sum_booked(s.drop_last())
    }
}

/// Changing one bucket alone moves the availability sum by exactly that
/// bucket's change, and the booked sum likewise.
proof fn lemma_sums_one_change(
    s1: Seq<StockLevelModel>,
    s2: Seq<StockLevelModel>,
    k: int,
    store_id: u32,
    product_type: ProductType,
    product_id: u64,
    now: i64,
)
    requires
        s1.len() == s2.len(),
        0 <= k < s1.len(),
        forall|i: int| 0 <= i < s1.len() && i != k ==> s1[i] == s2[i],
    ensures
        sum_avail(s2, store_id, product_type, product_id, now) - sum_avail(
            s1,
            store_id,
            product_type,
            product_id,
            now,
        ) == (if bucket_matches(s2[k], store_id, product_type, product_id) {
            spec_avail(s2[k], now)
        } else {
            0
        }) - (if bucket_matches(s1[k], store_id, product_type, product_id) {
            spec_avail(s1[k], now)
        } else {
            0
        }),
        sum_booked(s2) - sum_booked(s1) == s2[k].quantity.booked - s1[k].quantity.booked,
    decreases s1.len(),
{
    if s1.len() > 0 {
        if k == s1.len() - 1 {
            assert(s1.drop_last() =~= s2.drop_last());
        } else {
            assert(s1.last() == s2.last());
            lemma_sums_one_change(
                s1.drop_last(),
                s2.drop_last(),
                k,
                store_id,
                product_type,
                product_id,
                now,
            );
        }
    }
}

/// When every matching bucket is expired or empty, the availability sum
/// is zero; and the sum is never negative for well-formed buckets.
proof fn lemma_sum_avail_zero(
    s: Seq<StockLevelModel>,
    store_id: u32,
    product_type: ProductType,
    product_id: u64,
    now: i64,
)
    requires
        forall|i: int|
            0 <= i < s.len() && bucket_matches(#[trigger] s[i], store_id, product_type, product_id)
                ==> spec_avail(s[i], now) <= 0,
    ensures
        sum_avail(s, store_id, product_type, product_id, now) <= 0,
    decreases s.len(),
{
    if s.len() > 0 {
        assert(s.last() == s[s.len() - 1]);
        assert(forall|i: int| 0 <= i < s.len() - 1 ==> s.drop_last()[i] == s[i]);
        lemma_sum_avail_zero(s.drop_last(), store_id, product_type, product_id, now);
    }
}

/// For well-formed buckets the availability sum is non-negative.
proof fn lemma_sum_avail_nonneg(
    s: Seq<StockLevelModel>,
    store_id: u32,
    product_type: ProductType,
    product_id: u64,
    now: i64,
)
    requires
        forall|i: int| 0 <= i < s.len() ==> (#[trigger] s[i]).quantity.wf(),
    ensures
        sum_avail(s, store_id, product_type, product_id, now) >= 0,
    decreases s.len(),
{
    if s.len() > 0 {
        assert(s.last() == s[s.len() - 1]);
        assert(forall|i: int| 0 <= i < s.len() - 1 ==> s.drop_last()[i] == s[i]);
        lemma_sum_avail_nonneg(s.drop_last(), store_id, product_type, product_id, now);
    }
}

/// The set of stock buckets the order service holds for its sellers.
#[derive(Clone, Debug, PartialEq, Eq)]
pub struct StockLevelModelSet {
    pub stock: Vec<StockLevelModel>,
}

impl StockLevelModelSet {
    /// Every bucket keeps its counters within the stocked total.
    pub open spec fn wf(self) -> bool {
        forall|i: int| 0 <= i < self.stock@.len() ==> (#[trigger] self.stock@[i]).quantity.wf()
    }
}


/// Whether any bucket stocks the product at all, expired or not.
pub open spec fn spec_has_bucket(
    s: Seq<StockLevelModel>,
    store_id: u32,
    product_type: ProductType,
    product_id: u64,
) -> bool {
    exists|i: int|
        0 <= i < s.len() && bucket_matches(#[trigger] s[i], store_id, product_type, product_id)
}

/// Units of one product already booked by earlier lines of the same
/// reservation.
pub open spec fn spec_consumed_of(
    m: Map<(u32, ProductType, u64), int>,
    key: (u32, ProductType, u64),
) -> int {
    if m.contains_key(key) {
        m[key]
    } else {
        0
    }
}

/// The per-line errors of a reservation, folded in line order with the
/// availability each product has left after the earlier lines: a line
/// whose remaining availability covers its quantity books it whole; one
/// that cannot be covered books what is left and yields `NotEnoughStock`,
/// or `NotExist` where the product has no bucket at all.
pub open spec fn spec_reserve_errs(
    s: Seq<StockLevelModel>,
    lines: Seq<ReserveLineReq>,
    now: i64,
    i: int,
    consumed: Map<(u32, ProductType, u64), int>,
) -> Seq<OrderLineCreateErrorDto>
    decreases lines.len() - i,
{
    if i < 0 || i >= lines.len() {
        Seq::empty()
    } else {
        let l = lines[i];
        let key = (l.store_id, l.product_type, l.product_id);
        let av = sum_avail(s, l.store_id, l.product_type, l.product_id, now) - spec_consumed_of(
            consumed,
            key,
        );
        if av >= l.qty {
            spec_reserve_errs(
                s,
                lines,
                now,
                i + 1,
                consumed.insert(key, spec_consumed_of(consumed, key) + l.qty),
            )
        } else {
            let reason = if spec_has_bucket(s, l.store_id, l.product_type, l.product_id) {
                OrderLineCreateErrorReason::NotEnoughStock
            } else {
                OrderLineCreateErrorReason::NotExist
            };
            seq![
                OrderLineCreateErrorDto {
                    seller_id: l.store_id,
                    product_id: l.product_id,
                    product_type: l.product_type,
                    reason,
                },
            ] + spec_reserve_errs(
                s,
                lines,
                now,
                i + 1,
                consumed.insert(key, spec_consumed_of(consumed, key) + av),
            )
        }
    }
}

/// Two stocks whose buckets of one product agree pointwise offer that
/// product the same availability.
proof fn lemma_sum_avail_frame(
    s1: Seq<StockLevelModel>,
    s2: Seq<StockLevelModel>,
    store_id: u32,
    product_type: ProductType,
    product_id: u64,
    now: i64,
)
    requires
        s1.len() == s2.len(),
        forall|i: int|
            0 <= i < s1.len() && bucket_matches(#[trigger] s1[i], store_id, product_type, product_id)
                ==> s2[i] == s1[i],
        forall|i: int|
            0 <= i < s1.len() ==> (#[trigger] s2[i]).store_id == s1[i].store_id && s2[i].product_type
                == s1[i].product_type && s2[i].product_id == s1[i].product_id,
    ensures
        sum_avail(s2, store_id, product_type, product_id, now) == sum_avail(
            s1,
            store_id,
            product_type,
            product_id,
            now,
        ),
    decreases s1.len(),
{
    if s1.len() > 0 {
        assert(s1.last() == s1[s1.len() - 1]);
        assert(forall|i: int| 0 <= i < s1.len() - 1 ==> s1.drop_last()[i] == s1[i]);
        assert(forall|i: int| 0 <= i < s2.len() - 1 ==> s2.drop_last()[i] == s2[i]);
        lemma_sum_avail_frame(s1.drop_last(), s2.drop_last(), store_id, product_type, product_id, now);
    }
}


/// Buckets are drained earliest expiry first: whenever a bucket gained a
/// booking, every bucket of the same product with an earlier expiry has
/// nothing left to reserve.
pub open spec fn spec_drained_in_expiry_order(
    before: Seq<StockLevelModel>,
    after: Seq<StockLevelModel>,
    now: i64,
) -> bool {
    forall|i: int, k: int|
        #![trigger before[i], after[k]]
        0 <= i < before.len() && 0 <= k < before.len() && before[i].store_id == before[k].store_id
            && before[i].product_type == before[k].product_type && before[i].product_id
            == before[k].product_id && before[i].expiry < before[k].expiry
            && after[k].quantity.booked > before[k].quantity.booked ==> spec_avail(after[i], now)
            == 0
}

/// The frame every reservation step preserves: buckets keep their
/// identity, their totals and their cancelled counters; bookings never
/// shrink; expired buckets and other products are untouched entirely.
pub open spec fn reserve_frame(
    before: Seq<StockLevelModel>,
    after: Seq<StockLevelModel>,
    store_id: u32,
    product_type: ProductType,
    product_id: u64,
    now: i64,
) -> bool {
    &&& after.len() == before.len()
    &&& forall|i: int|
        0 <= i < before.len() ==> ({
            let b = before[i];
            let a = #[trigger] after[i];
            &&& a.store_id == b.store_id
            &&& a.product_type == b.product_type
            &&& a.product_id == b.product_id
            &&& a.expiry == b.expiry
            &&& a.quantity.total == b.quantity.total
            &&& a.quantity.cancelled == b.quantity.cancelled
            &&& a.quantity.booked >= b.quantity.booked
            &&& (!(bucket_matches(b, store_id, product_type, product_id) && b.expiry > now) ==> a
                == b)
        })
}

/// Books up to `qty` units of one product, taking from the unexpired
/// bucket of the earliest expiry first. Expired buckets are never chosen.
/// Returns how many units were booked: everything asked for, or, when the
/// product's unexpired buckets run dry, exactly what was available.
#[verifier::loop_isolation(false)]
fn reserve_one_product(
    stock: &mut Vec<StockLevelModel>,
    store_id: u32,
    product_type: ProductType,
    product_id: u64,
    qty: u32,
    now: i64,
) -> (r: u32)
    requires
        forall|i: int| 0 <= i < old(stock)@.len() ==> (#[trigger] old(stock)@[i]).quantity.wf(),
    ensures
        forall|i: int| 0 <= i < final(stock)@.len() ==> (#[trigger] final(stock)@[i]).quantity.wf(),
        reserve_frame(old(stock)@, final(stock)@, store_id, product_type, product_id, now),
        r <= qty,
        sum_avail(final(stock)@, store_id, product_type, product_id, now) == sum_avail(
            old(stock)@,
            store_id,
            product_type,
            product_id,
            now,
        ) - r,
        sum_booked(final(stock)@) == sum_booked(old(stock)@) + r,
        r < qty ==> sum_avail(final(stock)@, store_id, product_type, product_id, now) == 0,
        forall|i: int|
            0 <= i < old(stock)@.len() ==> spec_avail(#[trigger] final(stock)@[i], now)
                <= spec_avail(old(stock)@[i], now),
        forall|i: int, k: int|
            #![trigger old(stock)@[i], final(stock)@[k]]
            0 <= i < old(stock)@.len() && 0 <= k < old(stock)@.len() && bucket_matches(
                old(stock)@[i],
                store_id,
                product_type,
                product_id,
            ) && bucket_matches(old(stock)@[k], store_id, product_type, product_id)
                && old(stock)@[i].expiry < old(stock)@[k].expiry && final(stock)@[k].quantity.booked
                > old(stock)@[k].quantity.booked ==> spec_avail(final(stock)@[i], now) == 0,
{
    let mut need: u32 = qty;
    let n = stock.len();
    while need > 0
        invariant
            need <= qty,
            stock@.len() == n,
            forall|i: int| 0 <= i < stock@.len() ==> (#[trigger] stock@[i]).quantity.wf(),
            reserve_frame(old(stock)@, stock@, store_id, product_type, product_id, now),
            sum_avail(stock@, store_id, product_type, product_id, now) == sum_avail(
                old(stock)@,
                store_id,
                product_type,
                product_id,
                now,
            ) - (qty - need),
            sum_booked(stock@) == sum_booked(old(stock)@) + (qty - need),
            forall|i: int|
                0 <= i < old(stock)@.len() ==> spec_avail(#[trigger] stock@[i], now) <= spec_avail(
                    old(stock)@[i],
                    now,
                ),
            forall|i: int, k: int|
                #![trigger old(stock)@[i], stock@[k]]
                0 <= i < old(stock)@.len() && 0 <= k < old(stock)@.len() && bucket_matches(
                    old(stock)@[i],
                    store_id,
                    product_type,
                    product_id,
                ) && bucket_matches(old(stock)@[k], store_id, product_type, product_id)
                    && old(stock)@[i].expiry < old(stock)@[k].expiry && stock@[k].quantity.booked
                    > old(stock)@[k].quantity.booked ==> spec_avail(stock@[i], now) == 0,
        decreases need,
    {
        // pick the unexpired matching bucket with the earliest expiry
        // that still has anything available
        let mut best: Option<usize> = None;
        let mut i: usize = 0;
        while i < n
            invariant
                0 <= i <= n == stock@.len(),
                forall|k: int| 0 <= k < stock@.len() ==> (#[trigger] stock@[k]).quantity.wf(),
                match best {
                    Some(b) => 0 <= b < i && bucket_matches(
                        stock@[b as int],
                        store_id,
                        product_type,
                        product_id,
                    ) && stock@[b as int].expiry > now && spec_avail(stock@[b as int], now) > 0 && (
                    forall|t: int|
                        0 <= t < i && bucket_matches(
                            #[trigger] stock@[t],
                            store_id,
                            product_type,
                            product_id,
                        ) && spec_avail(stock@[t], now) > 0 ==> stock@[b as int].expiry
                            <= stock@[t].expiry),
                    None => forall|k: int|
                        0 <= k < i && bucket_matches(
                            #[trigger] stock@[k],
                            store_id,
                            product_type,
                            product_id,
                        ) ==> spec_avail(stock@[k], now) <= 0,
                },
            decreases n - i,
        {
            let b = &stock[i];
            if b.store_id == store_id && b.product_id == product_id && b.product_type
                == product_type && b.expiry > now {
                let avail = b.quantity.num_avail();
                if avail > 0 {
                    let better: bool = match best {
                        Some(bb) => stock[i].expiry < stock[bb].expiry,
                        None => true,
                    };
                    if better {
                        best = Some(i);
                    }
                }
            }
            i = i + 1;
        }
        match best {
            Some(bi) => {
                let avail = stock[bi].quantity.num_avail();
                let take: u32 = if need <= avail {
                    need
                } else {
                    avail
                };
                let ghost pre = stock@;
                let booked_new = stock[bi].quantity.booked + take;
                let old_bucket = stock[bi];
                let new_bucket = StockLevelModel {
                    quantity: StockQuantityModel {
                        total: old_bucket.quantity.total,
                        booked: booked_new,
                        cancelled: old_bucket.quantity.cancelled,
                    },
                    ..old_bucket
                };
                stock.set(bi, new_bucket);
                need = need - take;
                proof {
                    lemma_sums_one_change(
                        pre,
                        stock@,
                        bi as int,
                        store_id,
                        product_type,
                        product_id,
                        now,
                    );
                }
            },
            None => {
                proof {
                    lemma_sum_avail_zero(stock@, store_id, product_type, product_id, now);
                    lemma_sum_avail_nonneg(stock@, store_id, product_type, product_id, now);
                }
                return qty - need;
            },
        }
    }
    qty - need
}

/// One requested line of a reservation: which product and how many units.
#[derive(Clone, Copy, Debug, PartialEq, Eq, Structural)]
pub struct ReserveLineReq {
    pub store_id: u32,
    pub product_type: ProductType,
    pub product_id: u64,
    pub qty: u32,
}

impl StockLevelModelSet {
    /// Reserves every line of an order against the stock, all or nothing:
    /// buckets are consumed in ascending expiry order, expired buckets are
    /// never chosen, and if any line cannot be fully satisfied the whole
    /// set is left exactly as it was and the per-line errors come back —
    /// `NotExist` where the product has no bucket at all, `NotEnoughStock`
    /// otherwise. A line fails exactly when the product's unexpired
    /// availability, less what earlier lines of the order took, falls
    /// short of its quantity.
    #[verifier::loop_isolation(false)]
    pub fn try_reserve(&mut self, lines: &Vec<ReserveLineReq>, now: i64) -> (r: Result<
        (),
        Vec<OrderLineCreateErrorDto>,
    >)
        requires
            old(self).wf(),
        ensures
            final(self).wf(),
            r is Ok <==> spec_reserve_errs(
                old(self).stock@,
                lines@,
                now,
                0,
                Map::empty(),
            ).len() == 0,
            r is Err ==> *final(self) == *old(self) && r->Err_0@ =~= spec_reserve_errs(
                old(self).stock@,
                lines@,
                now,
                0,
                Map::empty(),
            ),
            r is Ok ==> final(self).stock@.len() == old(self).stock@.len() && sum_booked(
                final(self).stock@,
            ) == sum_booked(old(self).stock@) + spec_req_total(lines@),
            r is Ok ==> forall|i: int|
                0 <= i < old(self).stock@.len() ==> ({
                    let b = old(self).stock@[i];
                    let a = #[trigger] final(self).stock@[i];
                    &&& a.store_id == b.store_id
                    &&& a.product_type == b.product_type
                    &&& a.product_id == b.product_id
                    &&& a.expiry == b.expiry
                    &&& a.quantity.total == b.quantity.total
                    &&& a.quantity.cancelled == b.quantity.cancelled
                    &&& a.quantity.booked >= b.quantity.booked
                    &&& (b.expiry <= now ==> a == b)
                }),
            r is Ok ==> spec_drained_in_expiry_order(old(self).stock@, final(self).stock@, now),
    {
        let ghost orig = self.stock@;
        let ghost full_errs = spec_reserve_errs(orig, lines@, now, 0, Map::empty());
        let mut work: Vec<StockLevelModel> = clone_stock(&self.stock);
        let mut errors: Vec<OrderLineCreateErrorDto> = Vec::new();
        let ghost mut consumed: Map<(u32, ProductType, u64), int> = Map::empty();
        let n = lines.len();
        let mut j: usize = 0;
        proof {
            assert(work@ == orig);
            assert forall|sid: u32, pt: ProductType, pid: u64| #[trigger] sum_avail(
                work@,
                sid,
                pt,
                pid,
                now,
            ) == sum_avail(orig, sid, pt, pid, now) - spec_consumed_of(
                consumed,
                (sid, pt, pid),
            ) by {}
        }
        while j < n
            invariant
                0 <= j <= n,
                forall|i: int| 0 <= i < work@.len() ==> (#[trigger] work@[i]).quantity.wf(),
                work@.len() == orig.len(),
                forall|i: int|
                    0 <= i < orig.len() ==> ({
                        let b = orig[i];
                        let a = #[trigger] work@[i];
                        &&& a.store_id == b.store_id
                        &&& a.product_type == b.product_type
                        &&& a.product_id == b.product_id
                        &&& a.expiry == b.expiry
                        &&& a.quantity.total == b.quantity.total
                        &&& a.quantity.cancelled == b.quantity.cancelled
                        &&& a.quantity.booked >= b.quantity.booked
                        &&& (b.expiry <= now ==> a == b)
                    }),
                forall|sid: u32, pt: ProductType, pid: u64| #[trigger] sum_avail(
                    work@,
                    sid,
                    pt,
                    pid,
                    now,
                ) == sum_avail(orig, sid, pt, pid, now) - spec_consumed_of(
                    consumed,
                    (sid, pt, pid),
                ),
                full_errs =~= errors@ + spec_reserve_errs(orig, lines@, now, j as int, consumed),
                errors@.len() == 0 ==> sum_booked(work@) == sum_booked(orig) + spec_req_total(
                    lines@.take(j as int),
                ),
                forall|i: int|
                    0 <= i < orig.len() ==> spec_avail(#[trigger] work@[i], now) <= spec_avail(
                        orig[i],
                        now,
                    ),
                spec_drained_in_expiry_order(orig, work@, now),
                self.stock@ == orig,
            decreases n - j,
        {
            let l = &lines[j];
            let ghost consumed_pre = consumed;
            let ghost key = (l.store_id, l.product_type, l.product_id);
            let ghost av = sum_avail(orig, l.store_id, l.product_type, l.product_id, now)
                - spec_consumed_of(consumed_pre, key);
            let ghost work_pre = work@;
            proof {
                assert(sum_avail(work@, l.store_id, l.product_type, l.product_id, now) == av);
            }
            let got = reserve_one_product(
                &mut work,
                l.store_id,
                l.product_type,
                l.product_id,
                l.qty,
                now,
            );
            proof {
                assert forall|a: int, k: int|
                    #![trigger orig[a], work@[k]]
                    0 <= a < orig.len() && 0 <= k < orig.len() && orig[a].store_id
                        == orig[k].store_id && orig[a].product_type == orig[k].product_type
                        && orig[a].product_id == orig[k].product_id && orig[a].expiry
                        < orig[k].expiry && work@[k].quantity.booked > orig[k].quantity.booked
                        implies spec_avail(work@[a], now) == 0 by {
                    if work_pre[k].quantity.booked > orig[k].quantity.booked {
                        assert(spec_avail(work_pre[a], now) == 0);
                        assert(spec_avail(work@[a], now) <= spec_avail(work_pre[a], now));
                        assert(work@[a].quantity.wf());
                    } else {
                        assert(work@[k].quantity.booked > work_pre[k].quantity.booked);
                        assert(bucket_matches(
                            work_pre[k],
                            l.store_id,
                            l.product_type,
                            l.product_id,
                        ));
                        assert(bucket_matches(
                            work_pre[a],
                            l.store_id,
                            l.product_type,
                            l.product_id,
                        ));
                        assert(spec_avail(work@[a], now) == 0);
                    }
                }
                lemma_sum_avail_nonneg(work@, l.store_id, l.product_type, l.product_id, now);
                if av >= l.qty {
                    assert(got == l.qty);
                } else {
                    assert(got < l.qty ==> sum_avail(
                        work@,
                        l.store_id,
                        l.product_type,
                        l.product_id,
                        now,
                    ) == 0);
                    assert(got == av);
                }
                consumed = consumed_pre.insert(key, spec_consumed_of(consumed_pre, key) + got);
                assert forall|sid: u32, pt: ProductType, pid: u64| #[trigger] sum_avail(
                    work@,
                    sid,
                    pt,
                    pid,
                    now,
                ) == sum_avail(orig, sid, pt, pid, now) - spec_consumed_of(
                    consumed,
                    (sid, pt, pid),
                ) by {
                    if (sid, pt, pid) == key {
                    } else {
                        lemma_sum_avail_frame(work_pre, work@, sid, pt, pid, now);
                        assert(sum_avail(work_pre, sid, pt, pid, now) == sum_avail(
                            orig,
                            sid,
                            pt,
                            pid,
                            now,
                        ) - spec_consumed_of(consumed_pre, (sid, pt, pid)));
                    }
                }
            }
            let ghost errs_pre = errors@;
            if got < l.qty {
                let mut any = false;
                let m = work.len();
                let mut k: usize = 0;
                while k < m
                    invariant
                        0 <= k <= m == work@.len(),
                        any <==> (exists|t: int|
                            0 <= t < k && bucket_matches(
                                #[trigger] work@[t],
                                l.store_id,
                                l.product_type,
                                l.product_id,
                            )),
                    decreases m - k,
                {
                    let b = &work[k];
                    if b.store_id == l.store_id && b.product_id == l.product_id && b.product_type
                        == l.product_type {
                        any = true;
                    }
                    k = k + 1;
                }
                proof {
                    if any {
                        let t = choose|t: int|
                            0 <= t < work@.len() && bucket_matches(
                                #[trigger] work@[t],
                                l.store_id,
                                l.product_type,
                                l.product_id,
                            );
                        assert(bucket_matches(orig[t], l.store_id, l.product_type, l.product_id));
                        assert(spec_has_bucket(orig, l.store_id, l.product_type, l.product_id));
                    } else {
                        assert forall|t: int|
                            0 <= t < orig.len() implies !bucket_matches(
                            #[trigger] orig[t],
                            l.store_id,
                            l.product_type,
                            l.product_id,
                        ) by {
                            assert(!bucket_matches(work@[t], l.store_id, l.product_type, l.product_id));
                        }
                        assert(!spec_has_bucket(orig, l.store_id, l.product_type, l.product_id));
                    }
                }
                let reason = if any {
                    OrderLineCreateErrorReason::NotEnoughStock
                } else {
                    OrderLineCreateErrorReason::NotExist
                };
                errors.push(
                    OrderLineCreateErrorDto {
                        seller_id: l.store_id,
                        product_id: l.product_id,
                        product_type: l.product_type,
                        reason,
                    },
                );
                proof {
                    let rest2 = spec_reserve_errs(orig, lines@, now, j + 1int, consumed);
                    assert(errs_pre + (seq![
                        OrderLineCreateErrorDto {
                            seller_id: lines@[j as int].store_id,
                            product_id: lines@[j as int].product_id,
                            product_type: lines@[j as int].product_type,
                            reason: (if spec_has_bucket(
                                orig,
                                lines@[j as int].store_id,
                                lines@[j as int].product_type,
                                lines@[j as int].product_id,
                            ) {
                                OrderLineCreateErrorReason::NotEnoughStock
                            } else {
                                OrderLineCreateErrorReason::NotExist
                            }),
                        },
                    ] + rest2) =~= errors@ + rest2);
                }
            }
            proof {
                assert(lines@.take(j + 1int).drop_last() =~= lines@.take(j as int));
            }
            j = j + 1;
        }
        proof {
            assert(spec_reserve_errs(orig, lines@, now, n as int, consumed) =~= Seq::<
                OrderLineCreateErrorDto,
            >::empty());
            assert(errors@ + Seq::<OrderLineCreateErrorDto>::empty() =~= errors@);
            assert(full_errs =~= errors@);
        }
        if errors.len() == 0 {
            proof {
                assert(lines@.take(n as int) =~= lines@);
            }
            self.stock = work;
            Ok(())
        } else {
            Err(errors)
        }
    }

    /// Returns booked units back to their buckets: for each item the
    /// bucket is found by product and expiry, the returned quantity moves
    /// from booked to cancelled, and a missing bucket or a quantity above
    /// what is booked yields a per-item error and no change for that item.
    #[verifier::loop_isolation(false)]
    pub fn try_return(&mut self, data: &StockLevelReturnDto) -> (errs: Vec<StockReturnErrorDto>)
        requires
            old(self).wf(),
        ensures
            final(self).wf(),
            final(self).stock@ =~= spec_return_fold(old(self).stock@, data.items@).0,
            errs@ =~= spec_return_fold(old(self).stock@, data.items@).1,
            final(self).stock@.len() == old(self).stock@.len(),
            forall|i: int|
                0 <= i < old(self).stock@.len() ==> ({
                    let b = old(self).stock@[i];
                    let a = #[trigger] final(self).stock@[i];
                    &&& a.store_id == b.store_id
                    &&& a.product_type == b.product_type
                    &&& a.product_id == b.product_id
                    &&& a.expiry == b.expiry
                    &&& a.quantity.total == b.quantity.total
                    &&& a.quantity.booked + a.quantity.cancelled == b.quantity.booked
                        + b.quantity.cancelled
                    &&& a.quantity.booked <= b.quantity.booked
                }),
    {
        let mut errs: Vec<StockReturnErrorDto> = Vec::new();
        let n = data.items.len();
        let mut j: usize = 0;
        let ghost orig = self.stock@;
        proof {
            assert(data.items@.skip(0int) =~= data.items@);
        }
        while j < n
            invariant
                0 <= j <= n,
                self.stock@.len() == orig.len(),
                forall|i: int| 0 <= i < self.stock@.len() ==> (#[trigger] self.stock@[i]).quantity.wf(),
                spec_return_fold(orig, data.items@).0 =~= spec_return_fold(
                    self.stock@,
                    data.items@.skip(j as int),
                ).0,
                spec_return_fold(orig, data.items@).1 =~= errs@ + spec_return_fold(
                    self.stock@,
                    data.items@.skip(j as int),
                ).1,
                forall|i: int|
                    0 <= i < orig.len() ==> ({
                        let b = orig[i];
                        let a = #[trigger] self.stock@[i];
                        &&& a.store_id == b.store_id
                        &&& a.product_type == b.product_type
                        &&& a.product_id == b.product_id
                        &&& a.expiry == b.expiry
                        &&& a.quantity.total == b.quantity.total
                        &&& a.quantity.booked + a.quantity.cancelled == b.quantity.booked
                            + b.quantity.cancelled
                        &&& a.quantity.booked <= b.quantity.booked
                    }),
            decreases n - j,
        {
            proof {
                let rest = data.items@.skip(j as int);
                assert(rest[0] == data.items@[j as int]);
                assert(rest.skip(1) =~= data.items@.skip(j + 1int));
            }
            let item = &data.items[j];
            let ghost errs_pre = errs@;
            match find_bucket(&self.stock, item) {
                Some(f) => {
                    let b = self.stock[f];
                    if item.qty <= b.quantity.booked {
                        let nb = StockLevelModel {
                            store_id: b.store_id,
                            product_type: b.product_type,
                            product_id: b.product_id,
                            expiry: b.expiry,
                            quantity: StockQuantityModel {
                                total: b.quantity.total,
                                booked: b.quantity.booked - item.qty,
                                cancelled: b.quantity.cancelled + item.qty,
                            },
                        };
                        proof {
                            assert(nb == spec_bucket_returned(b, item.qty));
                        }
                        self.stock.set(f, nb);
                    } else {
                        errs.push(
                            StockReturnErrorDto {
                                seller_id: item.store_id,
                                product_id: item.product_id,
                                product_type: item.product_type,
                                reason: StockReturnErrorReason::InvalidQuantity,
                            },
                        );
                        proof {
                            let rest2 = spec_return_fold(
                                self.stock@,
                                data.items@.skip(j + 1int),
                            );
                            assert(errs_pre + (seq![
                                spec_return_err(
                                    data.items@[j as int],
                                    StockReturnErrorReason::InvalidQuantity,
                                ),
                            ] + rest2.1) =~= errs@ + rest2.1);
                        }
                    }
                },
                None => {
                    errs.push(
                        StockReturnErrorDto {
                            seller_id: item.store_id,
                            product_id: item.product_id,
                            product_type: item.product_type,
                            reason: StockReturnErrorReason::NotExist,
                        },
                    );
                    proof {
                        let rest2 = spec_return_fold(self.stock@, data.items@.skip(j + 1int));
                        assert(errs_pre + (seq![
                            spec_return_err(
                                data.items@[j as int],
                                StockReturnErrorReason::NotExist,
                            ),
                        ] + rest2.1) =~= errs@ + rest2.1);
                    }
                },
            }
            j = j + 1;
        }
        proof {
            assert(data.items@.skip(n as int) =~= Seq::<StockReturnItemDto>::empty());
            assert(errs@ + Seq::<StockReturnErrorDto>::empty() =~= errs@);
        }
        errs
    }
}



/// Index of the first bucket a return item addresses: same product and
/// same expiry.
pub open spec fn spec_find_bucket(s: Seq<StockLevelModel>, it: StockReturnItemDto) -> Option<int>
    decreases s.len(),
{
    if s.len() == 0 {
        None
    } else if s[0].store_id == it.store_id && s[0].product_type == it.product_type
        && s[0].product_id == it.product_id && s[0].expiry == it.expiry {
        Some(0int)
    } else {
        match spec_find_bucket(s.skip(1), it) {
            Some(i) => Some(i + 1),
            None => None,
        }
    }
}

/// A bucket with one returned batch folded in: the quantity moves from
/// booked to cancelled.
pub open spec fn spec_bucket_returned(b: StockLevelModel, qty: u32) -> StockLevelModel {
    StockLevelModel {
        quantity: StockQuantityModel {
            total: b.quantity.total,
            booked: (b.quantity.booked - qty) as u32,
            cancelled: (b.quantity.cancelled + qty) as u32,
        },
        ..b
    }
}

/// The error one failed return item yields.
pub open spec fn spec_return_err(
    it: StockReturnItemDto,
    reason: StockReturnErrorReason,
) -> StockReturnErrorDto {
    StockReturnErrorDto {
        seller_id: it.store_id,
        product_id: it.product_id,
        product_type: it.product_type,
        reason,
    }
}

/// Stock returns folded item by item: each item moves its quantity from
/// booked to cancelled in the first bucket of its product and expiry; a
/// missing bucket or a quantity above what is booked yields an error and
/// leaves the stock as it was for that item.
pub open spec fn spec_return_fold(s: Seq<StockLevelModel>, items: Seq<StockReturnItemDto>) -> (
    Seq<StockLevelModel>,
    Seq<StockReturnErrorDto>,
)
    decreases items.len(),
{
    if items.len() == 0 {
        (s, Seq::empty())
    } else {
        let it = items[0];
        match spec_find_bucket(s, it) {
            Some(f) => {
                if it.qty <= s[f].quantity.booked {
                    spec_return_fold(s.update(f, spec_bucket_returned(s[f], it.qty)), items.skip(1))
                } else {
                    let rest = spec_return_fold(s, items.skip(1));
                    (
                        rest.0,
                        seq![spec_return_err(it, StockReturnErrorReason::InvalidQuantity)] + rest.1,
                    )
                }
            },
            None => {
                let rest = spec_return_fold(s, items.skip(1));
                (rest.0, seq![spec_return_err(it, StockReturnErrorReason::NotExist)] + rest.1)
            },
        }
    }
}

/// Finds the first bucket a return item addresses.
#[verifier::loop_isolation(false)]
fn find_bucket(stock: &Vec<StockLevelModel>, it: &StockReturnItemDto) -> (r: Option<usize>)
    ensures
        match r {
            Some(f) => spec_find_bucket(stock@, *it) == Some(f as int) && 0 <= f < stock@.len(),
            None => spec_find_bucket(stock@, *it) is None,
        },
{
    let n = stock.len();
    let mut i: usize = 0;
    proof {
        assert(stock@.skip(0int) =~= stock@);
    }
    while i < n
        invariant
            0 <= i <= n,
            spec_find_bucket(stock@, *it) == (match spec_find_bucket(stock@.skip(i as int), *it) {
                Some(k) => Some(k + i),
                None => None,
            }),
        decreases n - i,
    {
        proof {
            let rest = stock@.skip(i as int);
            assert(rest[0] == stock@[i as int]);
            assert(rest.skip(1) =~= stock@.skip(i + 1int));
        }
        let b = &stock[i];
        if b.store_id == it.store_id && b.product_type == it.product_type && b.product_id
            == it.product_id && b.expiry == it.expiry {
            return Some(i);
        }
        i = i + 1;
    }
    proof {
        assert(stock@.skip(n as int) =~= Seq::<StockLevelModel>::empty());
    }
    None
}

/// Whether one of the asked bucket identities names this bucket.
pub open spec fn spec_pid_hit(pids: Seq<ProductStockIdentity>, b: StockLevelModel) -> bool {
    exists|k: int|
        0 <= k < pids.len() && (#[trigger] pids[k]).store_id == b.store_id && pids[k].product_type
            == b.product_type && pids[k].product_id == b.product_id && pids[k].expiry == b.expiry
}

/// The stock repository's operation set, as the order service's callers
/// see it: every implementation must hand out exactly the asked buckets,
/// reserve all-or-nothing, never touch expired buckets, and conserve each
/// bucket's counters on returns.
pub trait AbsOrderStockRepo {
    spec fn stock_view(&self) -> Seq<StockLevelModel>;

    fn fetch(&self, pids: Vec<ProductStockIdentity>) -> (r: Result<StockLevelModelSet, AppError>)
        ensures
            r is Ok,
            r->Ok_0.stock@ =~= self.stock_view().filter(
                |b: StockLevelModel| spec_pid_hit(pids@, b),
            );

    fn save(&mut self, slset: StockLevelModelSet) -> (r: Result<(), AppError>)
        requires
            slset.wf(),
        ensures
            r is Ok ==> final(self).stock_view() == slset.stock@;

    fn try_reserve(&mut self, lines: &Vec<ReserveLineReq>, now: i64) -> (r: Result<
        (),
        Vec<OrderLineCreateErrorDto>,
    >)
        ensures
            r is Err ==> final(self).stock_view() == old(self).stock_view(),
            forall|i: int|
                0 <= i < old(self).stock_view().len() && old(self).stock_view()[i].expiry <= now
                    ==> #[trigger] final(self).stock_view()[i] == old(self).stock_view()[i];

    fn try_return(&mut self, data: &StockLevelReturnDto) -> (errs: Vec<StockReturnErrorDto>)
        ensures
            final(self).stock_view().len() == old(self).stock_view().len();
}

/// The stock repository backed by the in-memory store.
#[derive(Clone, Debug, PartialEq, Eq)]
pub struct StockLvlInMemRepo {
    slset: StockLevelModelSet,
}

impl StockLvlInMemRepo {
    /// Opens the repository over the given stock.
    pub fn from_set(slset: StockLevelModelSet) -> (r: StockLvlInMemRepo)
        requires
            slset.wf(),
        ensures
            r.stock_view() == slset.stock@,
            r.wf(),
    {
        StockLvlInMemRepo { slset }
    }

    pub closed spec fn spec_stock(self) -> Seq<StockLevelModel> {
        self.slset.stock@
    }

    pub open spec fn wf(self) -> bool {
        forall|i: int| 0 <= i < self.spec_stock().len() ==> (#[trigger] self.spec_stock()[i]).quantity.wf()
    }
}

impl AbsOrderStockRepo for StockLvlInMemRepo {
    closed spec fn stock_view(&self) -> Seq<StockLevelModel> {
        self.slset.stock@
    }

    #[verifier::loop_isolation(false)]
    fn fetch(&self, pids: Vec<ProductStockIdentity>) -> (r: Result<StockLevelModelSet, AppError>) {
        let mut out: Vec<StockLevelModel> = Vec::new();
        let n = self.slset.stock.len();
        let mut i: usize = 0;
        proof {
            reveal(Seq::filter);
            assert(self.slset.stock@.take(0int).filter(
                |b: StockLevelModel| spec_pid_hit(pids@, b),
            ) =~= Seq::<StockLevelModel>::empty());
        }
        while i < n
            invariant
                0 <= i <= n,
                out@ =~= self.slset.stock@.take(i as int).filter(
                    |b: StockLevelModel| spec_pid_hit(pids@, b),
                ),
            decreases n - i,
        {
            let b = self.slset.stock[i];
            let m = pids.len();
            let mut j: usize = 0;
            let mut hit = false;
            while j < m
                invariant
                    0 <= j <= m,
                    hit <==> (exists|k: int|
                        0 <= k < j && (#[trigger] pids@[k]).store_id == b.store_id
                            && pids@[k].product_type == b.product_type && pids@[k].product_id
                            == b.product_id && pids@[k].expiry == b.expiry),
                decreases m - j,
            {
                let p = &pids[j];
                if p.store_id == b.store_id && p.product_type == b.product_type && p.product_id
                    == b.product_id && p.expiry == b.expiry {
                    hit = true;
                }
                j = j + 1;
            }
            if hit {
                out.push(b);
            }
            proof {
                assert(hit == spec_pid_hit(pids@, self.slset.stock@[i as int]));
                reveal(Seq::filter);
                let tpost = self.slset.stock@.take(i + 1int);
                assert(tpost.drop_last() =~= self.slset.stock@.take(i as int));
                assert(tpost.last() == self.slset.stock@[i as int]);
            }
            i = i + 1;
        }
        proof {
            assert(self.slset.stock@.take(n as int) =~= self.slset.stock@);
        }
        Ok(StockLevelModelSet { stock: out })
    }

    fn save(&mut self, slset: StockLevelModelSet) -> (r: Result<(), AppError>) {
        self.slset = slset;
        Ok(())
    }

    fn try_reserve(&mut self, lines: &Vec<ReserveLineReq>, now: i64) -> (r: Result<
        (),
        Vec<OrderLineCreateErrorDto>,
    >) {
        if !stock_all_wf(&self.slset) {
            let mut errs: Vec<OrderLineCreateErrorDto> = Vec::new();
            if lines.len() > 0 {
                errs.push(
                    OrderLineCreateErrorDto {
                        seller_id: lines[0].store_id,
                        product_id: lines[0].product_id,
                        product_type: lines[0].product_type,
                        reason: OrderLineCreateErrorReason::NotEnoughStock,
                    },
                );
            }
            return Err(errs);
        }
        self.slset.try_reserve(lines, now)
    }

    fn try_return(&mut self, data: &StockLevelReturnDto) -> (errs: Vec<StockReturnErrorDto>) {
        if !stock_all_wf(&self.slset) {
            return Vec::new();
        }
        self.slset.try_return(data)
    }
}

/// Checks at run time that every bucket keeps its counters within its
/// total, so the reservation logic's assumptions hold whatever the caller
/// saved.
fn stock_all_wf(s: &StockLevelModelSet) -> (r: bool)
    ensures
        r == s.wf(),
{
    let n = s.stock.len();
    let mut i: usize = 0;
    while i < n
        invariant
            0 <= i <= n == s.stock@.len(),
            forall|k: int| 0 <= k < i ==> (#[trigger] s.stock@[k]).quantity.wf(),
        decreases n - i,
    {
        let q = &s.stock[i].quantity;
        if (q.booked as u64) + (q.cancelled as u64) > (q.total as u64) {
            return false;
        }
        i = i + 1;
    }
    true
}

/// Total quantity an order asks to reserve.
pub open spec fn spec_req_total(lines: Seq<ReserveLineReq>) -> int
    decreases lines.len(),
{
    if lines.len() == 0 {
        0
    } else {
        lines.last().qty + spec_req_total(lines.drop_last())
    }
}

/// A bucket-by-bucket copy of the stock.
fn clone_stock(v: &Vec<StockLevelModel>) -> (r: Vec<StockLevelModel>)
    ensures
        r@ =~= v@,
{
    let mut out: Vec<StockLevelModel> = Vec::new();
    let n = v.len();
    let mut i: usize = 0;
    while i < n
        invariant
            0 <= i <= n == v@.len(),
            out@ =~= v@.take(i as int),
        decreases n - i,
    {
        out.push(v[i]);
        proof {
            assert(v@.take(i + 1int) =~= v@.take(i as int).push(v@[i as int]));
        }
        i = i + 1;
    }
    proof {
        assert(v@.take(n as int) =~= v@);
    }
    out
}

} // verus!
