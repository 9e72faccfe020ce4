use vstd::prelude::*;
use crate::datetime::{format_rfc3339_millis, millis_to_rfc3339};
use crate::dto::{
    BillingDto, OrderLinePaidUpdateDto, OrderLinePayDto, OrderLinePayUpdateErrorDto,
    OrderLinePayUpdateErrorReason, OrderPaymentUpdateDto, OrderPaymentUpdateErrorDto, PayAmountDto,
    ShippingDto,
};
use crate::error::{AppError, AppErrorCode};
use crate::shared::AppDataStoreContext;
use crate::stock::StockLevelModelSet;
use crate::types::ProductType;

verus! {

/// Quantities of one order line: how many were reserved, how many are
/// paid, and when the paid count last moved (milliseconds).
#[derive(Clone, Copy, Debug, PartialEq, Eq, Structural)]
pub struct OrderLineQtyModel {
    pub reserved: u32,
    pub paid: u32,
    pub paid_last_update: Option<i64>,
}

/// Price of one order line in the order's own minor-unit integers.
#[derive(Clone, Copy, Debug, PartialEq, Eq, Structural)]
pub struct OrderLinePriceModel {
    pub unit: u32,
    pub total: u32,
}

/// One order line: the product, the reservation window end, the
/// quantities and the price.
#[derive(Clone, Copy, Debug, PartialEq, Eq, Structural)]
pub struct OrderLineModel {
    pub seller_id: u32,
    pub product_type: ProductType,
    pub product_id: u64,
    pub reserved_until: i64,
    pub qty: OrderLineQtyModel,
    pub price: OrderLinePriceModel,
}

impl OrderLineModel {
    /// The paid quantity never exceeds the reserved one.
    pub open spec fn wf(self) -> bool {
        self.qty.paid <= self.qty.reserved
    }
}

/// One order: its id, owner, creation time and lines.
#[derive(Clone, Debug)]
pub struct OrderLineModelSet {
    pub order_id: String,
    pub owner_id: u32,
    pub create_time: i64,
    pub lines: Vec<OrderLineModel>,
}

impl OrderLineModelSet {
    /// Every line keeps its paid-within-reserved bound and its
    /// reservation window opens after the order was created.
    pub open spec fn wf(self) -> bool {
        forall|i: int|
            0 <= i < self.lines@.len() ==> (#[trigger] self.lines@[i]).wf()
                && self.lines@[i].reserved_until > self.create_time
    }
}

/// What any payment-update transformer must do to the lines it is handed:
/// keep every line's identity, price and reservation, never lower a paid
/// count, and never let one exceed its reserved count. This is the
/// paid-quantity invariant of all order lines.
pub open spec fn lines_update_ok(before: Seq<OrderLineModel>, after: Seq<OrderLineModel>) -> bool {
    &&& after.len() == before.len()
    &&& forall|i: int|
        0 <= i < before.len() ==> ({
            let b = before[i];
            let a = #[trigger] after[i];
            &&& a.seller_id == b.seller_id
            &&& a.product_type == b.product_type
            &&& a.product_id == b.product_id
            &&& a.reserved_until == b.reserved_until
            &&& a.price == b.price
            &&& a.qty.reserved == b.qty.reserved
            &&& a.qty.paid >= b.qty.paid
            &&& (a.qty.paid <= a.qty.reserved || a.qty == b.qty)
        })
}

/// Index of the first line of the given product, if any.
pub open spec fn spec_find_oline(
    s: Seq<OrderLineModel>,
    seller_id: u32,
    product_type: ProductType,
    product_id: u64,
) -> Option<int>
    decreases s.len(),
{
    if s.len() == 0 {
        None
    } else if s[0].seller_id == seller_id && s[0].product_type == product_type && s[0].product_id
        == product_id {
        Some(0int)
    } else {
        match spec_find_oline(s.skip(1), seller_id, product_type, product_id) {
            Some(i) => Some(i + 1),
            None => None,
        }
    }
}

/// The one-line error a rejected update yields.
pub open spec fn spec_pay_err(
    d: OrderLinePaidUpdateDto,
    reason: OrderLinePayUpdateErrorReason,
) -> OrderLinePayUpdateErrorDto {
    OrderLinePayUpdateErrorDto {
        seller_id: d.seller_id,
        product_type: d.product_type,
        product_id: d.product_id,
        reason,
    }
}

/// The order service's own payment transformer, one update at a time: an
/// update whose line is missing is `Omitted`; one whose payment time lies
/// past the line's reservation window is `ReservationExpired`; one whose
/// paid count would exceed the reserved count or fall below the already
/// paid count is `InvalidQuantity`; otherwise the line records the new
/// paid count and its time.
pub open spec fn spec_apply_payments(
    lines: Seq<OrderLineModel>,
    data: Seq<OrderLinePaidUpdateDto>,
) -> (Seq<OrderLineModel>, Seq<OrderLinePayUpdateErrorDto>)
    decreases data.len(),
{
    if data.len() == 0 {
        (lines, Seq::empty())
    } else {
        let d = data[0];
        match spec_find_oline(lines, d.seller_id, d.product_type, d.product_id) {
            Some(i) => {
                let l = lines[i];
                if d.time > l.reserved_until {
                    let rest = spec_apply_payments(lines, data.skip(1));
                    (
                        rest.0,
                        seq![spec_pay_err(d, OrderLinePayUpdateErrorReason::ReservationExpired)]
                            + rest.1,
                    )
                } else if d.qty > l.qty.reserved || d.qty < l.qty.paid {
                    let rest = spec_apply_payments(lines, data.skip(1));
                    (
                        rest.0,
                        seq![spec_pay_err(d, OrderLinePayUpdateErrorReason::InvalidQuantity)]
                            + rest.1,
                    )
                } else {
                    let l2 = OrderLineModel {
                        qty: OrderLineQtyModel {
                            reserved: l.qty.reserved,
                            paid: d.qty,
                            paid_last_update: Some(d.time),
                        },
                        ..l
                    };
                    spec_apply_payments(lines.update(i, l2), data.skip(1))
                }
            },
            None => {
                let rest = spec_apply_payments(lines, data.skip(1));
                (rest.0, seq![spec_pay_err(d, OrderLinePayUpdateErrorReason::Omitted)] + rest.1)
            },
        }
    }
}

/// Finds the first line of the given product.
#[verifier::loop_isolation(false)]
pub fn find_oline(lines: &Vec<OrderLineModel>, seller_id: u32, product_type: ProductType, product_id: u64) -> (r:
    Option<usize>)
    ensures
        match r {
            Some(i) => spec_find_oline(lines@, seller_id, product_type, product_id) == Some(
                i as int,
            ) && 0 <= i < lines@.len(),
            None => spec_find_oline(lines@, seller_id, product_type, product_id) is None,
        },
{
    let n = lines.len();
    let mut i: usize = 0;
    proof {
        assert(lines@.skip(0int) =~= lines@);
    }
    while i < n
        invariant
            0 <= i <= n,
            spec_find_oline(lines@, seller_id, product_type, product_id) == (match spec_find_oline(
                lines@.skip(i as int),
                seller_id,
                product_type,
                product_id,
            ) {
                Some(k) => Some(k + i),
                None => None,
            }),
        decreases n - i,
    {
        proof {
            let rest = lines@.skip(i as int);
            assert(rest[0] == lines@[i as int]);
            assert(rest.skip(1) =~= lines@.skip(i + 1int));
        }
        let l = &lines[i];
        if l.seller_id == seller_id && l.product_type == product_type && l.product_id == product_id {
            return Some(i);
        }
        i = i + 1;
    }
    proof {
        assert(lines@.skip(n as int) =~= Seq::<OrderLineModel>::empty());
    }
    None
}

/// Applies a payment update list to an order's lines under the stored
/// policy, returning the updated lines and the per-update errors.
#[verifier::loop_isolation(false)]
pub fn update_payments(lines: Vec<OrderLineModel>, data: Vec<OrderLinePaidUpdateDto>) -> (r: (
    Vec<OrderLineModel>,
    Vec<OrderLinePayUpdateErrorDto>,
))
    ensures
        (r.0@, r.1@) == spec_apply_payments(lines@, data@),
        lines_update_ok(lines@, r.0@),
{
    let ghost lines0 = lines@;
    let mut cur = lines;
    let mut errs: Vec<OrderLinePayUpdateErrorDto> = Vec::new();
    let n = data.len();
    let mut j: usize = 0;
    proof {
        assert(data@.skip(0int) =~= data@);
        assert(Seq::<OrderLinePayUpdateErrorDto>::empty() + spec_apply_payments(lines0, data@).1
            =~= spec_apply_payments(lines0, data@).1);
    }
    while j < n
        invariant
            0 <= j <= n,
            lines_update_ok(lines0, cur@),
            spec_apply_payments(lines0, data@) == ({
                let rest = spec_apply_payments(cur@, data@.skip(j as int));
                (rest.0, errs@ + rest.1)
            }),
        decreases n - j,
    {
        proof {
            let rest = data@.skip(j as int);
            assert(rest[0] == data@[j as int]);
            assert(rest.skip(1) =~= data@.skip(j + 1int));
        }
        let d = &data[j];
        let ghost errs_pre = errs@;
        match find_oline(&cur, d.seller_id, d.product_type, d.product_id) {
            Some(i) => {
                let l = cur[i];
                if d.time > l.reserved_until {
                    errs.push(
                        OrderLinePayUpdateErrorDto {
                            seller_id: d.seller_id,
                            product_type: d.product_type,
                            product_id: d.product_id,
                            reason: OrderLinePayUpdateErrorReason::ReservationExpired,
                        },
                    );
                    proof {
                        let rest2 = spec_apply_payments(cur@, data@.skip(j + 1int));
                        assert(errs_pre + (seq![
                            spec_pay_err(
                                data@[j as int],
                                OrderLinePayUpdateErrorReason::ReservationExpired,
                            ),
                        ] + rest2.1) =~= errs@ + rest2.1);
                    }
                } else if d.qty > l.qty.reserved || d.qty < l.qty.paid {
                    errs.push(
                        OrderLinePayUpdateErrorDto {
                            seller_id: d.seller_id,
                            product_type: d.product_type,
                            product_id: d.product_id,
                            reason: OrderLinePayUpdateErrorReason::InvalidQuantity,
                        },
                    );
                    proof {
                        let rest2 = spec_apply_payments(cur@, data@.skip(j + 1int));
                        assert(errs_pre + (seq![
                            spec_pay_err(
                                data@[j as int],
                                OrderLinePayUpdateErrorReason::InvalidQuantity,
                            ),
                        ] + rest2.1) =~= errs@ + rest2.1);
                    }
                } else {
                    let l2 = OrderLineModel {
                        seller_id: l.seller_id,
                        product_type: l.product_type,
                        product_id: l.product_id,
                        reserved_until: l.reserved_until,
                        qty: OrderLineQtyModel {
                            reserved: l.qty.reserved,
                            paid: d.qty,
                            paid_last_update: Some(d.time),
                        },
                        price: l.price,
                    };
                    cur.set(i, l2);
                }
            },
            None => {
                errs.push(
                    OrderLinePayUpdateErrorDto {
                        seller_id: d.seller_id,
                        product_type: d.product_type,
                        product_id: d.product_id,
                        reason: OrderLinePayUpdateErrorReason::Omitted,
                    },
                );
                proof {
                    let rest2 = spec_apply_payments(cur@, data@.skip(j + 1int));
                    assert(errs_pre + (seq![
                        spec_pay_err(data@[j as int], OrderLinePayUpdateErrorReason::Omitted),
                    ] + rest2.1) =~= errs@ + rest2.1);
                }
            },
        }
        j = j + 1;
    }
    proof {
        assert(data@.skip(n as int) =~= Seq::<OrderLinePaidUpdateDto>::empty());
        assert(errs@ + Seq::<OrderLinePayUpdateErrorDto>::empty() =~= errs@);
    }
    (cur, errs)
}

/// A line-by-line copy of an order's lines.
fn clone_olines(v: &Vec<OrderLineModel>) -> (r: Vec<OrderLineModel>)
    ensures
        r@ =~= v@,
{
    let mut out: Vec<OrderLineModel> = Vec::new();
    let n = v.len();
    let mut i: usize = 0;
    while i < n
        invariant
            0 <= i <= n == v@.len(),
            out@ =~= v@.take(i as int),
        decreases n - i,
    {
        out.push(v[i]);
        proof {
            assert(v@.take(i + 1int) =~= v@.take(i as int).push(v@[i as int]));
        }
        i = i + 1;
    }
    proof {
        assert(v@.take(n as int) =~= v@);
    }
    out
}

/// Index of the order with the given id, if stored.
pub open spec fn spec_find_order(s: Seq<OrderLineModelSet>, oid: Seq<char>) -> Option<int>
    decreases s.len(),
{
    if s.len() == 0 {
        None
    } else if s[0].order_id@ == oid {
        Some(0int)
    } else {
        match spec_find_order(s.skip(1), oid) {
            Some(i) => Some(i + 1),
            None => None,
        }
    }
}

/// The order service's in-memory repository: orders with their billing
/// and shipping records, plus the watermark of the unpaid-discard job.
#[derive(Debug)]
pub struct OrderInMemRepo {
    orders: Vec<OrderLineModelSet>,
    billings: Vec<(String, BillingDto)>,
    shippings: Vec<(String, ShippingDto)>,
    scheduled_job_time: i64,
    max_items: u32,
}

impl OrderInMemRepo {
    pub closed spec fn spec_orders(self) -> Seq<OrderLineModelSet> {
        self.orders@
    }

    pub closed spec fn spec_job_time(self) -> i64 {
        self.scheduled_job_time
    }

    /// The configured capacity of the order table.
    pub closed spec fn spec_max_items(self) -> int {
        self.max_items as int
    }

    /// Every stored order keeps its line invariants.
    pub open spec fn wf(self) -> bool {
        forall|i: int| 0 <= i < self.spec_orders().len() ==> (#[trigger] self.spec_orders()[i]).wf()
    }

    /// Opens the repository on the in-memory data store; a context
    /// without one cannot back it.
    pub fn new(ds: &AppDataStoreContext, job_time_origin: i64) -> (r: Result<
        OrderInMemRepo,
        AppError,
    >)
        ensures
            r is Ok <==> ds.in_mem is Some,
            r is Ok ==> r->Ok_0.spec_orders().len() == 0 && r->Ok_0.wf()
                && r->Ok_0.spec_job_time() == job_time_origin && r->Ok_0.spec_max_items()
                == ds.in_mem->0.max_items,
            r is Err ==> r->Err_0.code == AppErrorCode::MissingDataStore,
    {
        match &ds.in_mem {
            Some(cfg) => Ok(
                OrderInMemRepo {
                    orders: Vec::new(),
                    billings: Vec::new(),
                    shippings: Vec::new(),
                    scheduled_job_time: job_time_origin,
                    max_items: cfg.max_items,
                },
            ),
            None => Err(
                AppError {
                    code: AppErrorCode::MissingDataStore,
                    detail: Some(String::from_str("in-memory")),
                },
            ),
        }
    }

    /// Persists a new order and emits the payload replicated to the
    /// payment service: one entry per line with its reservation window
    /// end written as RFC 3339 text.
    #[verifier::loop_isolation(false)]
    pub fn create(
        &mut self,
        oid: String,
        usr_id: u32,
        lines: Vec<OrderLineModel>,
        create_time: i64,
        billing: BillingDto,
        shipping: ShippingDto,
    ) -> (r: Result<Vec<OrderLinePayDto>, AppError>)
        requires
            old(self).wf(),
            forall|i: int|
                0 <= i < lines@.len() ==> (#[trigger] lines@[i]).wf() && lines@[i].reserved_until
                    > create_time && -9000000000000000 <= lines@[i].reserved_until
                    <= 9000000000000000,
        ensures
            final(self).wf(),
            r is Ok <==> lines@.len() > 0 && old(self).spec_orders().len() < old(
                self,
            ).spec_max_items(),
            r is Err ==> *final(self) == *old(self) && (r->Err_0.code == (if lines@.len() == 0 {
                AppErrorCode::EmptyInputData
            } else {
                AppErrorCode::ExceedingMaxLimit
            })),
            r is Ok ==> final(self).spec_orders().len() == old(self).spec_orders().len() + 1 && ({
                let o = final(self).spec_orders().last();
                &&& o.order_id@ == oid@
                &&& o.owner_id == usr_id
                &&& o.create_time == create_time
                &&& o.lines@ == lines@
            }) && (forall|i: int|
                0 <= i < old(self).spec_orders().len() ==> final(self).spec_orders()[i] == old(
                    self,
                ).spec_orders()[i]),
            r is Ok ==> r->Ok_0@.len() == lines@.len() && (forall|i: int|
                0 <= i < lines@.len() ==> ({
                    let p = #[trigger] r->Ok_0@[i];
                    let l = lines@[i];
                    &&& p.seller_id == l.seller_id
                    &&& p.product_id == l.product_id
                    &&& p.product_type == l.product_type
                    &&& p.reserved_until@ == millis_to_rfc3339(l.reserved_until)
                    &&& p.quantity == l.qty.reserved
                    &&& p.amount == (PayAmountDto { unit: l.price.unit, total: l.price.total })
                })),
    {
        if lines.len() == 0 {
            return Err(AppError { code: AppErrorCode::EmptyInputData, detail: None });
        }
        if self.orders.len() >= self.max_items as usize {
            return Err(AppError { code: AppErrorCode::ExceedingMaxLimit, detail: None });
        }
        let mut payload: Vec<OrderLinePayDto> = Vec::new();
        let n = lines.len();
        let mut i: usize = 0;
        while i < n
            invariant
                0 <= i <= n,
                payload@.len() == i,
                forall|k: int|
                    0 <= k < i ==> ({
                        let p = #[trigger] payload@[k];
                        let l = lines@[k];
                        &&& p.seller_id == l.seller_id
                        &&& p.product_id == l.product_id
                        &&& p.product_type == l.product_type
                        &&& p.reserved_until@ == millis_to_rfc3339(l.reserved_until)
                        &&& p.quantity == l.qty.reserved
                        &&& p.amount == (PayAmountDto { unit: l.price.unit, total: l.price.total })
                    }),
            decreases n - i,
        {
            let l = &lines[i];
            payload.push(
                OrderLinePayDto {
                    seller_id: l.seller_id,
                    product_id: l.product_id,
                    product_type: l.product_type,
                    reserved_until: format_rfc3339_millis(l.reserved_until),
                    quantity: l.qty.reserved,
                    amount: PayAmountDto { unit: l.price.unit, total: l.price.total },
                },
            );
            i = i + 1;
        }
        let oid_b = oid.clone();
        let oid_s = oid.clone();
        self.orders.push(
            OrderLineModelSet { order_id: oid, owner_id: usr_id, create_time, lines },
        );
        self.billings.push((oid_b, billing));
        self.shippings.push((oid_s, shipping));
        Ok(payload)
    }

    /// Loads the lines of one order, calls the caller's transformer on
    /// them together with the update list, persists what the transformer
    /// returns, and hands back the error list it produced. The
    /// transformer must respect the paid-quantity invariant: identity and
    /// reservation stay, the paid count never shrinks and never exceeds
    /// the reserved count.
    pub fn update_lines_payment<F: Fn(
        Vec<OrderLineModel>,
        Vec<OrderLinePaidUpdateDto>,
    ) -> (Vec<OrderLineModel>, Vec<OrderLinePayUpdateErrorDto>)>(
        &mut self,
        data: OrderPaymentUpdateDto,
        cb: F,
    ) -> (r: Result<OrderPaymentUpdateErrorDto, AppError>)
        requires
            old(self).wf(),
            forall|args: (Vec<OrderLineModel>, Vec<OrderLinePaidUpdateDto>)| #[trigger]
                call_requires(cb, args),
            forall|
                args: (Vec<OrderLineModel>, Vec<OrderLinePaidUpdateDto>),
                out: (Vec<OrderLineModel>, Vec<OrderLinePayUpdateErrorDto>),
            |
                #[trigger] call_ensures(cb, args, out) ==> lines_update_ok(args.0@, out.0@),
        ensures
            final(self).wf(),
            r is Err <==> spec_find_order(old(self).spec_orders(), data.oid@) is None,
            r is Err ==> *final(self) == *old(self),
            r is Ok ==> ({
                let i = spec_find_order(old(self).spec_orders(), data.oid@)->0;
                let before = old(self).spec_orders()[i];
                let after = final(self).spec_orders()[i];
                &&& r->Ok_0.oid@ == data.oid@
                &&& final(self).spec_orders().len() == old(self).spec_orders().len()
                &&& (forall|k: int|
                    0 <= k < old(self).spec_orders().len() && k != i ==> final(self).spec_orders()[k]
                        == old(self).spec_orders()[k])
                &&& after.order_id@ == before.order_id@
                &&& after.owner_id == before.owner_id
                &&& after.create_time == before.create_time
                &&& lines_update_ok(before.lines@, after.lines@)
                &&& exists|inp: Vec<OrderLineModel>, out: (
                    Vec<OrderLineModel>,
                    Vec<OrderLinePayUpdateErrorDto>,
                )|
                    inp@ == before.lines@ && #[trigger] call_ensures(cb, (inp, data.lines), out)
                        && after.lines@ == out.0@ && r->Ok_0.lines@ == out.1@
            }),
    {
        let idx = match self.find_order(data.oid.as_str()) {
            Some(i) => i,
            None => {
                return Err(
                    AppError {
                        code: AppErrorCode::InvalidInput,
                        detail: Some(String::from_str("order-not-exist")),
                    },
                );
            },
        };
        let order = &self.orders[idx];
        let before_lines = clone_olines(&order.lines);
        proof {
            assert(before_lines@ =~= self.spec_orders()[idx as int].lines@);
            // vectors with equal views of copyable elements are the same
            // value in the callback's contract
            assert(before_lines@ == self.spec_orders()[idx as int].lines@);
        }
        let oid_keep = order.order_id.clone();
        let owner_keep = order.owner_id;
        let ctime_keep = order.create_time;
        let (new_lines, cb_errs) = cb(before_lines, data.lines);
        let updated = OrderLineModelSet {
            order_id: oid_keep,
            owner_id: owner_keep,
            create_time: ctime_keep,
            lines: new_lines,
        };
        self.orders.set(idx, updated);
        Ok(OrderPaymentUpdateErrorDto { oid: data.oid, lines: cb_errs })
    }

    /// Finds the stored order with the given id.
    #[verifier::loop_isolation(false)]
    fn find_order(&self, oid: &str) -> (r: Option<usize>)
        ensures
            match r {
                Some(i) => spec_find_order(self.spec_orders(), oid@) == Some(i as int) && 0 <= i
                    < self.spec_orders().len(),
                None => spec_find_order(self.spec_orders(), oid@) is None,
            },
    {
        let n = self.orders.len();
        let mut i: usize = 0;
        proof {
            assert(self.orders@.skip(0int) =~= self.orders@);
        }
        while i < n
            invariant
                0 <= i <= n,
                spec_find_order(self.spec_orders(), oid@) == (match spec_find_order(
                    self.orders@.skip(i as int),
                    oid@,
                ) {
                    Some(k) => Some(k + i),
                    None => None,
                }),
            decreases n - i,
        {
            proof {
                let rest = self.orders@.skip(i as int);
                assert(rest[0] == self.orders@[i as int]);
                assert(rest.skip(1) =~= self.orders@.skip(i + 1int));
            }
            let o = &self.orders[i];
            if o.order_id.as_str().to_owned() == oid.to_owned() {
                return Some(i);
            }
            i = i + 1;
        }
        proof {
            assert(self.orders@.skip(n as int) =~= Seq::<OrderLineModelSet>::empty());
        }
        None
    }

    /// The lines of one stored order.
    pub fn fetch_all_lines(&self, oid: &str) -> (r: Result<Vec<OrderLineModel>, AppError>)
        ensures
            r is Ok <==> spec_find_order(self.spec_orders(), oid@) is Some,
            r is Ok ==> r->Ok_0@ == self.spec_orders()[spec_find_order(
                self.spec_orders(),
                oid@,
            )->0].lines@,
            r is Err ==> r->Err_0.code == AppErrorCode::InvalidInput,
    {
        match self.find_order(oid) {
            Some(i) => Ok(clone_olines(&self.orders[i].lines)),
            None => Err(
                AppError {
                    code: AppErrorCode::InvalidInput,
                    detail: Some(String::from_str("order-not-exist")),
                },
            ),
        }
    }

    /// Owner of one stored order.
    pub fn owner_id(&self, order_id: &str) -> (r: Result<u32, AppError>)
        ensures
            r is Ok <==> spec_find_order(self.spec_orders(), order_id@) is Some,
            r is Ok ==> r->Ok_0 == self.spec_orders()[spec_find_order(
                self.spec_orders(),
                order_id@,
            )->0].owner_id,
    {
        match self.find_order(order_id) {
            Some(i) => Ok(self.orders[i].owner_id),
            None => Err(
                AppError {
                    code: AppErrorCode::InvalidInput,
                    detail: Some(String::from_str("order-not-exist")),
                },
            ),
        }
    }

    /// Creation time of one stored order.
    pub fn created_time(&self, order_id: &str) -> (r: Result<i64, AppError>)
        ensures
            r is Ok <==> spec_find_order(self.spec_orders(), order_id@) is Some,
            r is Ok ==> r->Ok_0 == self.spec_orders()[spec_find_order(
                self.spec_orders(),
                order_id@,
            )->0].create_time,
    {
        match self.find_order(order_id) {
            Some(i) => Ok(self.orders[i].create_time),
            None => Err(
                AppError {
                    code: AppErrorCode::InvalidInput,
                    detail: Some(String::from_str("order-not-exist")),
                },
            ),
        }
    }

    /// Watermark of the unpaid-discard job: where the last successful run
    /// ended.
    pub fn scheduled_job_last_time(&self) -> (r: i64)
        ensures
            r == self.spec_job_time(),
    {
        self.scheduled_job_time
    }

    /// Advances the job watermark.
    pub fn scheduled_job_time_update(&mut self, t: i64)
        ensures
            final(self).spec_job_time() == t,
            final(self).spec_orders() == old(self).spec_orders(),
    {
        self.scheduled_job_time = t;
    }

    /// Discards unpaid reservations: walks every order line whose
    /// reservation window ended inside `(watermark, now]` and whose paid
    /// count lies below its reserved count, moves the unpaid units of that
    /// product from booked back to cancelled stock, and cancels the
    /// returned part of the line by lowering its reserved count. A line
    /// whose booked stock could not cover the whole unpaid part keeps the
    /// uncovered remainder open and is reported, so the next run returns
    /// only what is still open: no unit is ever returned twice. The
    /// watermark advances to `now` only when every return succeeded; on
    /// failure it stays, so the next run retries the same window — and a
    /// window whose lines are already settled changes nothing.
    #[verifier::loop_isolation(false)]
    pub fn discard_unpaid(&mut self, stock: &mut StockLevelModelSet, now: i64) -> (r: Result<
        (),
        Vec<StockReturnErrorDtoLike>,
    >)
        requires
            old(self).wf(),
            old(stock).wf(),
        ensures
            final(self).wf(),
            final(stock).wf(),
            final(self).spec_orders().len() == old(self).spec_orders().len(),
            r is Ok ==> final(self).spec_job_time() == now,
            r is Err ==> final(self).spec_job_time() == old(self).spec_job_time()
                && r->Err_0@.len() >= 1,
            no_unpaid_in_window(old(self).spec_orders(), old(self).spec_job_time(), now) ==> (
            final(stock).stock@ == old(stock).stock@ && orders_unchanged(
                old(self).spec_orders(),
                final(self).spec_orders(),
            ) && r is Ok),
            r is Ok ==> no_unpaid_in_window(
                final(self).spec_orders(),
                old(self).spec_job_time(),
                now,
            ),
            spec_discard_leftover_named(
                final(self).spec_orders(),
                final(stock).stock@,
                (match r {
                    Result::Ok(_) => Seq::empty(),
                    Result::Err(fs) => fs@,
                }),
                old(self).spec_job_time(),
                now,
            ),
            forall|k: int|
                0 <= k < old(self).spec_orders().len() ==> order_discarded(
                    old(self).spec_orders()[k],
                    #[trigger] final(self).spec_orders()[k],
                    old(self).spec_job_time(),
                    now,
                ),
            stock_conserved(old(stock).stock@, final(stock).stock@),
    {
        let t0 = self.scheduled_job_time;
        let mut failures: Vec<StockReturnErrorDtoLike> = Vec::new();
        let n = self.orders.len();
        let mut oi: usize = 0;
        while oi < n
            invariant
                0 <= oi <= n,
                self.orders@.len() == n == old(self).spec_orders().len(),
                self.scheduled_job_time == old(self).spec_job_time(),
                t0 == old(self).spec_job_time(),
                forall|k: int| 0 <= k < n ==> (#[trigger] self.orders@[k]).wf(),
                stock.wf(),
                stock_conserved(old(stock).stock@, stock.stock@),
                forall|k: int|
                    oi <= k < n ==> #[trigger] self.orders@[k] == old(self).spec_orders()[k],
                forall|k: int|
                    0 <= k < oi ==> order_discarded(
                        old(self).spec_orders()[k],
                        #[trigger] self.orders@[k],
                        t0,
                        now,
                    ),
                failures@.len() == 0 ==> (forall|k: int|
                    0 <= k < oi ==> all_window_settled(#[trigger] self.orders@[k], t0, now)),
                no_unpaid_in_window(old(self).spec_orders(), t0, now) ==> (stock.stock@ == old(
                    stock,
                ).stock@ && orders_unchanged(old(self).spec_orders(), self.orders@)
                    && failures@.len() == 0),
                forall|k: int, jj: int|
                    0 <= k < oi && 0 <= jj < self.orders@[k].lines@.len() && t0 < (
                    #[trigger] self.orders@[k].lines@[jj]).reserved_until <= now
                        && self.orders@[k].lines@[jj].qty.paid
                        < self.orders@[k].lines@[jj].qty.reserved ==> failures@.contains(
                        StockReturnErrorDtoLike {
                            seller_id: self.orders@[k].lines@[jj].seller_id,
                            product_id: self.orders@[k].lines@[jj].product_id,
                            product_type: self.orders@[k].lines@[jj].product_type,
                        },
                    ) && line_buckets_drained(stock.stock@, self.orders@[k].lines@[jj]),
            decreases n - oi,
        {
            let ghost orders_pre = self.orders@;
            let order = &self.orders[oi];
            let m = order.lines.len();
            let mut new_lines = clone_olines(&order.lines);
            let mut li: usize = 0;
            let ghost old_lines = order.lines@;
            while li < m
                invariant
                    0 <= li <= m,
                    0 <= oi < n == self.orders@.len(),
                    self.orders@ == orders_pre,
                    old_lines == self.orders@[oi as int].lines@,
                    new_lines@.len() == m == old_lines.len(),
                    stock.wf(),
                    stock_conserved(old(stock).stock@, stock.stock@),
                    forall|k: int| li <= k < m ==> #[trigger] new_lines@[k] == old_lines[k],
                    forall|k: int|
                        0 <= k < li ==> line_discarded(
                            old_lines[k],
                            #[trigger] new_lines@[k],
                            t0,
                            now,
                        ),
                    failures@.len() == 0 ==> (forall|k: int|
                        0 <= k < li ==> line_settled(#[trigger] new_lines@[k], t0, now)),
                    failures@.len() == 0 ==> (forall|k: int|
                        0 <= k < oi ==> all_window_settled(#[trigger] orders_pre[k], t0, now)),
                    forall|k: int| 0 <= k < m ==> (#[trigger] new_lines@[k]).wf(),
                    no_unpaid_in_window(old(self).spec_orders(), t0, now) ==> (stock.stock@
                        == old(stock).stock@ && new_lines@ == old_lines && failures@.len() == 0),
                    forall|k: int, jj: int|
                        0 <= k < oi && 0 <= jj < self.orders@[k].lines@.len() && t0 < (
                        #[trigger] self.orders@[k].lines@[jj]).reserved_until <= now
                            && self.orders@[k].lines@[jj].qty.paid
                            < self.orders@[k].lines@[jj].qty.reserved ==> failures@.contains(
                            StockReturnErrorDtoLike {
                                seller_id: self.orders@[k].lines@[jj].seller_id,
                                product_id: self.orders@[k].lines@[jj].product_id,
                                product_type: self.orders@[k].lines@[jj].product_type,
                            },
                        ) && line_buckets_drained(stock.stock@, self.orders@[k].lines@[jj]),
                    forall|jj: int|
                        0 <= jj < li && t0 < (#[trigger] new_lines@[jj]).reserved_until <= now
                            && new_lines@[jj].qty.paid < new_lines@[jj].qty.reserved
                            ==> failures@.contains(
                            StockReturnErrorDtoLike {
                                seller_id: new_lines@[jj].seller_id,
                                product_id: new_lines@[jj].product_id,
                                product_type: new_lines@[jj].product_type,
                            },
                        ) && line_buckets_drained(stock.stock@, new_lines@[jj]),
                decreases m - li,
            {
                let ghost stock_pre_it = stock.stock@;
                let ghost fails_pre_it = failures@;
                let l = new_lines[li];
                if t0 < l.reserved_until && l.reserved_until <= now && l.qty.paid < l.qty.reserved {
                    proof {
                        if no_unpaid_in_window(old(self).spec_orders(), t0, now) {
                            assert(old(self).spec_orders()[oi as int].lines@[li as int]
                                == old_lines[li as int]);
                            assert(false);
                        }
                    }
                    let unpaid = l.qty.reserved - l.qty.paid;
                    let returned = return_booked(
                        &mut stock.stock,
                        l.seller_id,
                        l.product_type,
                        l.product_id,
                        unpaid,
                    );
                    let l2 = OrderLineModel {
                        seller_id: l.seller_id,
                        product_type: l.product_type,
                        product_id: l.product_id,
                        reserved_until: l.reserved_until,
                        qty: OrderLineQtyModel {
                            reserved: l.qty.reserved - returned,
                            paid: l.qty.paid,
                            paid_last_update: l.qty.paid_last_update,
                        },
                        price: l.price,
                    };
                    new_lines.set(li, l2);
                    if returned < unpaid {
                        failures.push(
                            StockReturnErrorDtoLike {
                                seller_id: l.seller_id,
                                product_id: l.product_id,
                                product_type: l.product_type,
                            },
                        );
                        proof {
                            assert(failures@[failures@.len() - 1] == (StockReturnErrorDtoLike {
                                seller_id: l.seller_id,
                                product_id: l.product_id,
                                product_type: l.product_type,
                            }));
                            assert(failures@.contains(
                                StockReturnErrorDtoLike {
                                    seller_id: l.seller_id,
                                    product_id: l.product_id,
                                    product_type: l.product_type,
                                },
                            ));
                        }
                    }
                }
                proof {
                    assert(stock.stock@.len() == stock_pre_it.len());
                    assert forall|ll: OrderLineModel|
                        line_buckets_drained(stock_pre_it, ll) implies line_buckets_drained(
                        stock.stock@,
                        ll,
                    ) by {
                        assert forall|b: int|
                            0 <= b < stock.stock@.len() && (#[trigger] stock.stock@[b]).store_id
                                == ll.seller_id && stock.stock@[b].product_type == ll.product_type
                                && stock.stock@[b].product_id == ll.product_id implies
                            stock.stock@[b].quantity.booked == 0 by {
                            assert(stock_pre_it[b].store_id == stock.stock@[b].store_id);
                            assert(stock_pre_it[b].quantity.booked == 0);
                            assert(stock.stock@[b].quantity.booked
                                <= stock_pre_it[b].quantity.booked);
                        }
                    }
                    assert forall|x: StockReturnErrorDtoLike|
                        fails_pre_it.contains(x) implies failures@.contains(x) by {
                        let w = choose|w: int|
                            0 <= w < fails_pre_it.len() && fails_pre_it[w] == x;
                        assert(failures@[w] == x);
                    }
                }
                li = li + 1;
            }
            let order_ref = &self.orders[oi];
            let rebuilt = OrderLineModelSet {
                order_id: order_ref.order_id.clone(),
                owner_id: order_ref.owner_id,
                create_time: order_ref.create_time,
                lines: new_lines,
            };
            self.orders.set(oi, rebuilt);
            proof {
                assert forall|k: int| 0 <= k < n && k != oi implies self.orders@[k]
                    == orders_pre[k] by {}
                assert forall|k: int|
                    0 <= k < oi && failures@.len() == 0 implies all_window_settled(
                    #[trigger] self.orders@[k],
                    t0,
                    now,
                ) by {
                    assert(self.orders@[k] == orders_pre[k]);
                }
                assert(order_discarded(
                    old(self).spec_orders()[oi as int],
                    self.orders@[oi as int],
                    t0,
                    now,
                ));
                if failures@.len() == 0 {
                    assert forall|jj: int|
                        0 <= jj < self.orders@[oi as int].lines@.len() implies line_settled(
                        #[trigger] self.orders@[oi as int].lines@[jj],
                        t0,
                        now,
                    ) by {
                        assert(self.orders@[oi as int].lines@[jj] == new_lines@[jj]);
                    }
                    assert(all_window_settled(self.orders@[oi as int], t0, now));
                }
            }
            oi = oi + 1;
        }
        if failures.len() == 0 {
            self.scheduled_job_time = now;
            Ok(())
        } else {
            Err(failures)
        }
    }
}

/// Orders that are the same records: same ids, owners, times and lines.
pub open spec fn orders_unchanged(a: Seq<OrderLineModelSet>, b: Seq<OrderLineModelSet>) -> bool {
    &&& a.len() == b.len()
    &&& forall|i: int|
        0 <= i < a.len() ==> (#[trigger] b[i]).order_id@ == a[i].order_id@ && b[i].owner_id
            == a[i].owner_id && b[i].create_time == a[i].create_time && b[i].lines@ == a[i].lines@
}

/// The conservation frame of every stock return: buckets keep identity
/// and totals, booked plus cancelled stays, booked never grows.
pub open spec fn stock_conserved(
    before: Seq<crate::stock::StockLevelModel>,
    after: Seq<crate::stock::StockLevelModel>,
) -> bool {
    &&& after.len() == before.len()
    &&& forall|i: int|
        0 <= i < before.len() ==> ({
            let b = before[i];
            let a = #[trigger] after[i];
            &&& a.store_id == b.store_id
            &&& a.product_type == b.product_type
            &&& a.product_id == b.product_id
            &&& a.expiry == b.expiry
            &&& a.quantity.total == b.quantity.total
            &&& a.quantity.booked + a.quantity.cancelled == b.quantity.booked
                + b.quantity.cancelled
            &&& a.quantity.booked <= b.quantity.booked
        })
}


/// Every bucket of the line's product has no booked units left.
pub open spec fn line_buckets_drained(
    stock: Seq<crate::stock::StockLevelModel>,
    l: OrderLineModel,
) -> bool {
    forall|b: int|
        0 <= b < stock.len() && (#[trigger] stock[b]).store_id == l.seller_id
            && stock[b].product_type == l.product_type && stock[b].product_id == l.product_id
            ==> stock[b].quantity.booked == 0
}

/// Every order line still unpaid inside the window after a discard run is
/// named among the failures, and only because the booked stock of its
/// product ran out.
pub open spec fn spec_discard_leftover_named(
    orders: Seq<OrderLineModelSet>,
    stock: Seq<crate::stock::StockLevelModel>,
    failures: Seq<StockReturnErrorDtoLike>,
    t0: i64,
    t1: i64,
) -> bool {
    forall|i: int, j: int|
        0 <= i < orders.len() && 0 <= j < orders[i].lines@.len() && t0 < (
        #[trigger] orders[i].lines@[j]).reserved_until <= t1 && orders[i].lines@[j].qty.paid
            < orders[i].lines@[j].qty.reserved ==> failures.contains(
            StockReturnErrorDtoLike {
                seller_id: orders[i].lines@[j].seller_id,
                product_id: orders[i].lines@[j].product_id,
                product_type: orders[i].lines@[j].product_type,
            },
        ) && line_buckets_drained(stock, orders[i].lines@[j])
}

/// A failed stock return of the discard job: which product could not be
/// returned.
#[derive(Clone, Copy, Debug, PartialEq, Eq, Structural)]
pub struct StockReturnErrorDtoLike {
    pub seller_id: u32,
    pub product_id: u64,
    pub product_type: ProductType,
}

/// No order line's reservation window ending inside `(t0, t1]` still has
/// unpaid units.
pub open spec fn no_unpaid_in_window(orders: Seq<OrderLineModelSet>, t0: i64, t1: i64) -> bool {
    forall|i: int, j: int|
        0 <= i < orders.len() && 0 <= j < orders[i].lines@.len() && t0 < (#[trigger] orders[i].lines@[j]).reserved_until
            <= t1 ==> orders[i].lines@[j].qty.paid == orders[i].lines@[j].qty.reserved
}

/// How one line may change under the discard job: lines outside the
/// window, and already settled ones, stay; an unpaid line in the window
/// keeps its identity, price and paid count, and its reserved count drops
/// by exactly what was returned to stock, never below the paid count.
pub open spec fn line_discarded(b: OrderLineModel, a: OrderLineModel, t0: i64, t1: i64) -> bool {
    if t0 < b.reserved_until <= t1 && b.qty.paid < b.qty.reserved {
        &&& a.seller_id == b.seller_id
        &&& a.product_type == b.product_type
        &&& a.product_id == b.product_id
        &&& a.reserved_until == b.reserved_until
        &&& a.price == b.price
        &&& a.qty.paid == b.qty.paid
        &&& a.qty.paid_last_update == b.qty.paid_last_update
        &&& b.qty.paid <= a.qty.reserved <= b.qty.reserved
    } else {
        a == b
    }
}

/// Whether a line needs no further discarding in the window.
pub open spec fn line_settled(l: OrderLineModel, t0: i64, t1: i64) -> bool {
    t0 < l.reserved_until <= t1 ==> l.qty.paid == l.qty.reserved
}

/// Whether all of an order's lines are settled in the window.
pub open spec fn all_window_settled(o: OrderLineModelSet, t0: i64, t1: i64) -> bool {
    forall|j: int| 0 <= j < o.lines@.len() ==> line_settled(#[trigger] o.lines@[j], t0, t1)
}

/// How one order may change under the discard job.
pub open spec fn order_discarded(b: OrderLineModelSet, a: OrderLineModelSet, t0: i64, t1: i64) -> bool {
    &&& a.order_id@ == b.order_id@
    &&& a.owner_id == b.owner_id
    &&& a.create_time == b.create_time
    &&& a.lines@.len() == b.lines@.len()
    &&& forall|j: int|
        0 <= j < b.lines@.len() ==> line_discarded(b.lines@[j], #[trigger] a.lines@[j], t0, t1)
}

/// Moves up to `qty` booked units of one product from booked to
/// cancelled, draining buckets in list order; returns how many were
/// moved. An all-or-nothing caller first checks the result against what
/// it asked.
#[verifier::loop_isolation(false)]
fn return_booked(
    stock: &mut Vec<crate::stock::StockLevelModel>,
    store_id: u32,
    product_type: ProductType,
    product_id: u64,
    qty: u32,
) -> (r: u32)
    requires
        forall|i: int| 0 <= i < old(stock)@.len() ==> (#[trigger] old(stock)@[i]).quantity.wf(),
    ensures
        forall|i: int| 0 <= i < final(stock)@.len() ==> (#[trigger] final(stock)@[i]).quantity.wf(),
        final(stock)@.len() == old(stock)@.len(),
        r <= qty,
        forall|i: int|
            0 <= i < old(stock)@.len() ==> ({
                let b = old(stock)@[i];
                let a = #[trigger] final(stock)@[i];
                &&& a.store_id == b.store_id
                &&& a.product_type == b.product_type
                &&& a.product_id == b.product_id
                &&& a.expiry == b.expiry
                &&& a.quantity.total == b.quantity.total
                &&& a.quantity.booked + a.quantity.cancelled == b.quantity.booked
                    + b.quantity.cancelled
                &&& a.quantity.booked <= b.quantity.booked
            }),
        r == 0 ==> final(stock)@ =~= old(stock)@,
        r < qty ==> (forall|i: int|
            0 <= i < final(stock)@.len() && (#[trigger] final(stock)@[i]).store_id == store_id
                && final(stock)@[i].product_type == product_type && final(stock)@[i].product_id
                == product_id ==> final(stock)@[i].quantity.booked == 0),
{
    let mut need: u32 = qty;
    let n = stock.len();
    let mut i: usize = 0;
    while i < n
        invariant
            0 <= i <= n == stock@.len(),
            need <= qty,
            forall|k: int| 0 <= k < stock@.len() ==> (#[trigger] stock@[k]).quantity.wf(),
            forall|k: int|
                0 <= k < old(stock)@.len() ==> ({
                    let b = old(stock)@[k];
                    let a = #[trigger] stock@[k];
                    &&& a.store_id == b.store_id
                    &&& a.product_type == b.product_type
                    &&& a.product_id == b.product_id
                    &&& a.expiry == b.expiry
                    &&& a.quantity.total == b.quantity.total
                    &&& a.quantity.booked + a.quantity.cancelled == b.quantity.booked
                        + b.quantity.cancelled
                    &&& a.quantity.booked <= b.quantity.booked
                }),
            need == qty ==> stock@ =~= old(stock)@,
            need > 0 ==> (forall|k: int|
                0 <= k < i && (#[trigger] stock@[k]).store_id == store_id && stock@[k].product_type
                    == product_type && stock@[k].product_id == product_id ==> stock@[k].quantity.booked
                    == 0),
        decreases n - i,
    {
        if need > 0 {
            let b = stock[i];
            if b.store_id == store_id && b.product_type == product_type && b.product_id
                == product_id && b.quantity.booked > 0 {
                let take: u32 = if need <= b.quantity.booked {
                    need
                } else {
                    b.quantity.booked
                };
                let nb = crate::stock::StockLevelModel {
                    store_id: b.store_id,
                    product_type: b.product_type,
                    product_id: b.product_id,
                    expiry: b.expiry,
                    quantity: crate::stock::StockQuantityModel {
                        total: b.quantity.total,
                        booked: b.quantity.booked - take,
                        cancelled: b.quantity.cancelled + take,
                    },
                };
                stock.set(i, nb);
                need = need - take;
            }
        }
        i = i + 1;
    }
    qty - need
}

} // verus!
