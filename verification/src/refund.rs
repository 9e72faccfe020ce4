use vstd::prelude::*;
use crate::amount::{
    pow10, spec_parse_dec, Dec, PayLineAmountError, PayLineAmountModel, DEC_MAX_SCALE,
};
use crate::charge::{ChargeBuyerModel, ChargeLineBuyerModel, OrderCurrencySnapshot};
use crate::datetime::{parse_rfc3339_millis, rfc3339_to_millis};
use crate::dto::{
    OrderLineReplicaRefundDto, RefundCompletionOlineReqDto, RefundCompletionReqDto,
    RefundLineRejectDto,
};
use crate::types::{BaseProductIdentity, ProductType};

verus! {

/// Why one replicated refund line could not be read.
#[derive(Clone, Debug, PartialEq, Eq)]
pub enum RefundErrorParseOline {
    CreateTime(String),
    Amount(PayLineAmountError),
}

/// Everything that can go wrong while reading a refund replica or
/// validating a merchant's completion against it.
#[derive(Clone, Debug, PartialEq, Eq)]
pub enum RefundModelError {
    ParseOline { pid: BaseProductIdentity, reason: RefundErrorParseOline },
    QtyInsufficient { pid: BaseProductIdentity, num_avail: u32, num_req: u32 },
    AmountInsufficient { pid: BaseProductIdentity, num_avail: Dec, num_req: Dec },
    MissingReqLine(BaseProductIdentity, i64),
    MissingCurrency(String, u32),
}

/// Quantities of one line a merchant has rejected to refund, kept by
/// reason.
#[derive(Clone, Copy, Debug, PartialEq, Eq, Structural)]
pub struct RefundLineQtyRejectModel(pub RefundLineRejectDto);

/// Sum of the rejected quantities of one reject record, over all reasons.
pub open spec fn qty_rej_sum(r: RefundLineRejectDto) -> int {
    r.damaged + r.fraudulent
}

impl RefundLineQtyRejectModel {
    /// Total quantity rejected, over all reasons.
    pub fn total_qty(&self) -> (r: u32)
        requires
            qty_rej_sum(self.0) <= u32::MAX,
        ensures
            r == qty_rej_sum(self.0),
    {
        self.0.damaged + self.0.fraudulent
    }

    pub fn from_dto(d: &RefundLineRejectDto) -> (r: RefundLineQtyRejectModel)
        ensures
            r.0 == *d,
    {
        RefundLineQtyRejectModel(*d)
    }
}

impl Default for RefundLineQtyRejectModel {
    /// No quantity rejected yet, under any reason.
    fn default() -> (r: RefundLineQtyRejectModel)
        ensures
            r.0.damaged == 0 && r.0.fraudulent == 0,
    {
        RefundLineQtyRejectModel(RefundLineRejectDto { damaged: 0, fraudulent: 0 })
    }
}

/// Amount resolved against one refund line: what had accumulated before
/// this round, and what this round grants.
#[derive(Clone, Copy, Debug)]
pub struct RefundLineResolveAmountModel {
    accumulated: PayLineAmountModel,
    curr_round: PayLineAmountModel,
}

impl RefundLineResolveAmountModel {
    pub closed spec fn spec_accumulated(self) -> PayLineAmountModel {
        self.accumulated
    }

    pub closed spec fn spec_curr_round(self) -> PayLineAmountModel {
        self.curr_round
    }

    pub fn curr_round(&self) -> (r: &PayLineAmountModel)
        ensures
            *r == self.spec_curr_round(),
    {
        &self.curr_round
    }

    pub fn accumulated(&self) -> (r: &PayLineAmountModel)
        ensures
            *r == self.spec_accumulated(),
    {
        &self.accumulated
    }

    /// Builds the resolve amount of one round: the previously refunded
    /// amount carries over as `accumulated`, and the granted quantity and
    /// total of this round, at the same unit price, become `curr_round`.
    pub fn from_parts(prev_rfd: &PayLineAmountModel, qty: u32, amt_tot: Dec) -> (r:
        RefundLineResolveAmountModel)
        ensures
            r.spec_accumulated() == *prev_rfd,
            r.spec_curr_round() == (PayLineAmountModel { unit: prev_rfd.unit, total: amt_tot, qty }),
    {
        let accumulated = PayLineAmountModel {
            unit: prev_rfd.unit,
            total: prev_rfd.total,
            qty: prev_rfd.qty,
        };
        let curr_round = PayLineAmountModel { unit: prev_rfd.unit, total: amt_tot, qty };
        RefundLineResolveAmountModel { accumulated, curr_round }
    }
}

/// One order line of a buyer's refund request, with the history of what
/// has been refunded or rejected of it so far.
#[derive(Clone, Debug)]
pub struct OLineRefundModel {
    pub pid: BaseProductIdentity,
    pub amount_req: PayLineAmountModel,
    pub time_req: i64,
    pub amount_refunded: PayLineAmountModel,
    pub rejected: RefundLineQtyRejectModel,
}

/// The larger of two scales.
pub open spec fn emax2(a: u32, b: u32) -> u32 {
    if a >= b {
        a
    } else {
        b
    }
}

/// Whether a difference of two scale-nine images still fits a 64-bit
/// mantissa at the given common scale: the condition under which the
/// checked subtraction of the two amounts succeeds.
pub open spec fn sub_fits9(av: int, bv: int, emax: u32) -> bool {
    -0x7fffffffffffffff * pow10((DEC_MAX_SCALE - emax) as nat) <= av - bv <= 0x7fffffffffffffff
        * pow10((DEC_MAX_SCALE - emax) as nat)
}

/// Scale-nine image of the value a textual amount denotes; meaningful
/// only where the text parses.
pub open spec fn parsed_v9(s: Seq<char>) -> int {
    match spec_parse_dec(s) {
        Ok((neg, m, f)) => (if neg {
            -m
        } else {
            m
        }) * pow10((DEC_MAX_SCALE - f) as nat),
        Err(_) => 0,
    }
}

/// Scale a textual amount carries; meaningful only where the text parses.
pub open spec fn parsed_scale(s: Seq<char>) -> u32 {
    match spec_parse_dec(s) {
        Ok((neg, m, f)) => f as u32,
        Err(_) => 0,
    }
}

impl OLineRefundModel {
    /// The refund ceilings of spec'd behaviour: what has been refunded
    /// plus what has been rejected never exceeds what the buyer asked,
    /// in quantity and in amount.
    pub open spec fn wf(self) -> bool {
        &&& self.amount_req.wf()
        &&& self.amount_refunded.wf()
        &&& self.amount_refunded.qty + qty_rej_sum(self.rejected.0) <= self.amount_req.qty
        &&& 0 <= self.amount_refunded.total.v9() <= self.amount_req.total.v9()
        &&& 0 <= self.amount_req.unit.v9()
    }

    /// Quantity of this line still open after this completion round:
    /// the requested quantity minus everything refunded, rejected,
    /// approved in this round and rejected in this round.
    pub open spec fn spec_remain_qty(self, d: RefundCompletionOlineReqDto) -> int {
        self.amount_req.qty - self.amount_refunded.qty - qty_rej_sum(self.rejected.0)
            - d.approval.quantity - qty_rej_sum(d.reject)
    }

    /// The error reported for the first quantity subtraction that
    /// underflows.
    pub open spec fn spec_remain_qty_err(self, d: RefundCompletionOlineReqDto) -> RefundModelError {
        let q0 = self.amount_req.qty as int;
        let q1 = q0 - self.amount_refunded.qty;
        let q2 = q1 - qty_rej_sum(self.rejected.0);
        let q3 = q2 - d.approval.quantity;
        if q1 < 0 {
            RefundModelError::QtyInsufficient {
                pid: self.pid,
                num_avail: self.amount_req.qty,
                num_req: self.amount_refunded.qty,
            }
        } else if q2 < 0 {
            RefundModelError::QtyInsufficient {
                pid: self.pid,
                num_avail: q1 as u32,
                num_req: qty_rej_sum(self.rejected.0) as u32,
            }
        } else if q3 < 0 {
            RefundModelError::QtyInsufficient {
                pid: self.pid,
                num_avail: q2 as u32,
                num_req: d.approval.quantity,
            }
        } else {
            RefundModelError::QtyInsufficient {
                pid: self.pid,
                num_avail: q3 as u32,
                num_req: qty_rej_sum(d.reject) as u32,
            }
        }
    }

    /// Quantity still open after this round, each subtraction checked.
    pub fn estimate_remain_quantity(&self, data: &RefundCompletionOlineReqDto) -> (r: Result<
        u32,
        RefundModelError,
    >)
        requires
            qty_rej_sum(self.rejected.0) <= u32::MAX,
            qty_rej_sum(data.reject) <= u32::MAX,
        ensures
            r is Ok <==> self.spec_remain_qty(*data) >= 0,
            r is Ok ==> r->Ok_0 == self.spec_remain_qty(*data),
            r is Err ==> r->Err_0 == self.spec_remain_qty_err(*data),
    {
        let rej_old: u32 = self.rejected.0.damaged + self.rejected.0.fraudulent;
        let rej_new: u32 = data.reject.damaged + data.reject.fraudulent;
        if self.amount_req.qty < self.amount_refunded.qty {
            return Err(
                RefundModelError::QtyInsufficient {
                    pid: self.pid,
                    num_avail: self.amount_req.qty,
                    num_req: self.amount_refunded.qty,
                },
            );
        }
        let q1 = self.amount_req.qty - self.amount_refunded.qty;
        if q1 < rej_old {
            return Err(
                RefundModelError::QtyInsufficient { pid: self.pid, num_avail: q1, num_req: rej_old },
            );
        }
        let q2 = q1 - rej_old;
        if q2 < data.approval.quantity {
            return Err(
                RefundModelError::QtyInsufficient {
                    pid: self.pid,
                    num_avail: q2,
                    num_req: data.approval.quantity,
                },
            );
        }
        let q3 = q2 - data.approval.quantity;
        if q3 < rej_new {
            return Err(
                RefundModelError::QtyInsufficient { pid: self.pid, num_avail: q3, num_req: rej_new },
            );
        }
        Ok(q3 - rej_new)
    }

    /// Scale of the running amount after the first subtraction.
    pub open spec fn spec_amt_e1(self) -> u32 {
        emax2(self.amount_req.total.e, self.amount_refunded.total.e)
    }

    /// Scale of the running amount after subtracting the approval.
    pub open spec fn spec_amt_e2(self, d: RefundCompletionOlineReqDto) -> u32 {
        emax2(self.spec_amt_e1(), parsed_scale(d.approval.amount_total@))
    }

    /// Scale of the running amount after subtracting the re-priced
    /// rejected quantity.
    pub open spec fn spec_amt_e3(self, d: RefundCompletionOlineReqDto) -> u32 {
        emax2(self.spec_amt_e2(d), self.amount_req.unit.e)
    }

    /// Whether the whole amount chain of this completion round goes
    /// through: the approval total parses, every subtraction fits, and no
    /// intermediate remainder is negative.
    pub open spec fn spec_amt_ok(self, d: RefundCompletionOlineReqDto) -> bool {
        let rfd = self.amount_refunded.total.v9();
        let req = self.amount_req.total.v9();
        let aprv = parsed_v9(d.approval.amount_total@);
        let rejv = self.amount_req.unit.v9() * qty_rej_sum(d.reject);
        &&& spec_parse_dec(d.approval.amount_total@) is Ok
        &&& sub_fits9(req, rfd, self.spec_amt_e1())
        &&& req - rfd >= 0
        &&& sub_fits9(req - rfd, aprv, self.spec_amt_e2(d))
        &&& req - rfd - aprv >= 0
        &&& sub_fits9(req - rfd - aprv, rejv, self.spec_amt_e3(d))
        &&& req - rfd - aprv - rejv >= 0
    }

    /// The amount still open after this round, at scale nine.
    pub open spec fn spec_amt_remain_v9(self, d: RefundCompletionOlineReqDto) -> int {
        self.amount_req.total.v9() - self.amount_refunded.total.v9() - parsed_v9(
            d.approval.amount_total@,
        ) - self.amount_req.unit.v9() * qty_rej_sum(d.reject)
    }

    /// Amount of this line still open after this completion round. Each
    /// subtraction is checked and must stay non-negative; a subtraction
    /// that underflows or turns negative reports the amount as
    /// insufficient, and an approval total that does not parse reports
    /// the line as unreadable.
    pub fn estimate_remain_amount(&self, data: &RefundCompletionOlineReqDto) -> (r: Result<
        Dec,
        RefundModelError,
    >)
        requires
            self.amount_req.wf(),
            self.amount_refunded.wf(),
            qty_rej_sum(data.reject) <= u32::MAX,
            -0x7fffffffffffffff <= self.amount_req.unit.m * qty_rej_sum(data.reject)
                <= 0x7fffffffffffffff,
        ensures
            r is Ok <==> self.spec_amt_ok(*data),
            r is Ok ==> r->Ok_0.wf() && r->Ok_0.v9() == self.spec_amt_remain_v9(*data)
                && r->Ok_0.e == self.spec_amt_e3(*data),
            r is Err ==> (r->Err_0 matches RefundModelError::ParseOline { pid, .. } && pid
                == self.pid && !(spec_parse_dec(data.approval.amount_total@) is Ok)) || (
            r->Err_0 matches RefundModelError::AmountInsufficient { pid, .. } && pid == self.pid
                && spec_parse_dec(data.approval.amount_total@) is Ok),
    {
        let amt_new_aprv = match Dec::from_str(data.approval.amount_total.as_str()) {
            Ok(v) => v,
            Err(e) => {
                return Err(
                    RefundModelError::ParseOline {
                        pid: self.pid,
                        reason: RefundErrorParseOline::Amount(
                            PayLineAmountError::ParseTotal(data.approval.amount_total.clone(), e),
                        ),
                    },
                );
            },
        };
        let qty_discard: u32 = data.reject.damaged + data.reject.fraudulent;
        let rej_amt = match self.amount_req.unit.checked_mul_u32(qty_discard) {
            Some(v) => v,
            None => {
                // unreachable under the stated bound on unit times the
                // rejected quantity
                return Err(
                    RefundModelError::AmountInsufficient {
                        pid: self.pid,
                        num_avail: self.amount_req.unit,
                        num_req: self.amount_req.unit,
                    },
                );
            },
        };
        let a1 = match self.amount_req.total.checked_sub(&self.amount_refunded.total) {
            Some(v) => v,
            None => {
                return Err(
                    RefundModelError::AmountInsufficient {
                        pid: self.pid,
                        num_avail: self.amount_req.total,
                        num_req: self.amount_refunded.total,
                    },
                );
            },
        };
        if a1.is_sign_negative() {
            return Err(
                RefundModelError::AmountInsufficient {
                    pid: self.pid,
                    num_avail: self.amount_req.total,
                    num_req: self.amount_refunded.total,
                },
            );
        }
        let a2 = match a1.checked_sub(&amt_new_aprv) {
            Some(v) => v,
            None => {
                return Err(
                    RefundModelError::AmountInsufficient {
                        pid: self.pid,
                        num_avail: a1,
                        num_req: amt_new_aprv,
                    },
                );
            },
        };
        if a2.is_sign_negative() {
            return Err(
                RefundModelError::AmountInsufficient {
                    pid: self.pid,
                    num_avail: a1,
                    num_req: amt_new_aprv,
                },
            );
        }
        let a3 = match a2.checked_sub(&rej_amt) {
            Some(v) => v,
            None => {
                return Err(
                    RefundModelError::AmountInsufficient {
                        pid: self.pid,
                        num_avail: a2,
                        num_req: rej_amt,
                    },
                );
            },
        };
        if a3.is_sign_negative() {
            return Err(
                RefundModelError::AmountInsufficient { pid: self.pid, num_avail: a2, num_req: rej_amt },
            );
        }
        Ok(a3)
    }

    /// Quantity and amount still open after this round; the quantity is
    /// checked first, as the stored order of the two estimates.
    pub fn estimate_remains(&self, data: &RefundCompletionOlineReqDto) -> (r: Result<
        (u32, Dec),
        RefundModelError,
    >)
        requires
            self.amount_req.wf(),
            self.amount_refunded.wf(),
            qty_rej_sum(self.rejected.0) <= u32::MAX,
            qty_rej_sum(data.reject) <= u32::MAX,
            -0x7fffffffffffffff <= self.amount_req.unit.m * qty_rej_sum(data.reject)
                <= 0x7fffffffffffffff,
        ensures
            r is Ok <==> self.spec_remain_qty(*data) >= 0 && self.spec_amt_ok(*data),
            r is Ok ==> r->Ok_0.0 == self.spec_remain_qty(*data) && r->Ok_0.1.wf()
                && r->Ok_0.1.v9() == self.spec_amt_remain_v9(*data),
            r is Err && self.spec_remain_qty(*data) < 0 ==> r->Err_0 == self.spec_remain_qty_err(
                *data,
            ),
            r is Err && self.spec_remain_qty(*data) >= 0 ==> (r->Err_0 matches
                RefundModelError::ParseOline { pid, .. } && pid == self.pid && !(spec_parse_dec(
                data.approval.amount_total@,
            ) is Ok)) || (r->Err_0 matches RefundModelError::AmountInsufficient { pid, .. } && pid
                == self.pid && spec_parse_dec(data.approval.amount_total@) is Ok),
    {
        let qty = self.estimate_remain_quantity(data)?;
        let amt_tot = self.estimate_remain_amount(data)?;
        Ok((qty, amt_tot))
    }

    /// Reads one replicated refund line. The request time must be a valid
    /// RFC 3339 timestamp and both amounts must be well-formed,
    /// non-negative decimal numerals; nothing has been refunded or
    /// rejected of a line just read.
    pub fn try_from_dto(value: OrderLineReplicaRefundDto) -> (r: Result<
        OLineRefundModel,
        RefundModelError,
    >)
        ensures
            r is Ok <==> rfc3339_to_millis(value.create_time@) is Some && spec_parse_dec(
                value.amount.unit@,
            ) is Ok && spec_parse_dec(value.amount.total@) is Ok && parsed_v9(value.amount.unit@)
                >= 0 && parsed_v9(value.amount.total@) >= 0,
            r is Ok ==> spec_parsed_line_ok(r->Ok_0, value),
            r is Err ==> (r->Err_0 matches RefundModelError::ParseOline { pid, .. } && pid == (
            BaseProductIdentity {
                store_id: value.seller_id,
                product_type: value.product_type,
                product_id: value.product_id,
            })),
    {
        let pid = BaseProductIdentity {
            store_id: value.seller_id,
            product_type: value.product_type,
            product_id: value.product_id,
        };
        let time_req = match parse_rfc3339_millis(value.create_time.as_str()) {
            Some(t) => t,
            None => {
                return Err(
                    RefundModelError::ParseOline {
                        pid,
                        reason: RefundErrorParseOline::CreateTime(value.create_time),
                    },
                );
            },
        };
        let unit = match Dec::from_str(value.amount.unit.as_str()) {
            Ok(v) => v,
            Err(e) => {
                return Err(
                    RefundModelError::ParseOline {
                        pid,
                        reason: RefundErrorParseOline::Amount(
                            PayLineAmountError::ParseUnit(value.amount.unit, e),
                        ),
                    },
                );
            },
        };
        if unit.is_sign_negative() {
            return Err(
                RefundModelError::ParseOline {
                    pid,
                    reason: RefundErrorParseOline::Amount(
                        PayLineAmountError::ParseUnit(
                            value.amount.unit,
                            crate::amount::DecParseError::BadShape,
                        ),
                    ),
                },
            );
        }
        let total = match Dec::from_str(value.amount.total.as_str()) {
            Ok(v) => v,
            Err(e) => {
                return Err(
                    RefundModelError::ParseOline {
                        pid,
                        reason: RefundErrorParseOline::Amount(
                            PayLineAmountError::ParseTotal(value.amount.total, e),
                        ),
                    },
                );
            },
        };
        if total.is_sign_negative() {
            return Err(
                RefundModelError::ParseOline {
                    pid,
                    reason: RefundErrorParseOline::Amount(
                        PayLineAmountError::ParseTotal(
                            value.amount.total,
                            crate::amount::DecParseError::BadShape,
                        ),
                    ),
                },
            );
        }
        let amount_req = PayLineAmountModel { unit, total, qty: value.qty };
        let amount_refunded = PayLineAmountModel::zero();
        let rejected = RefundLineQtyRejectModel::default();
        Ok(OLineRefundModel { pid, amount_req, time_req, amount_refunded, rejected })
    }

    pub fn into_parts(self) -> (r: (
        BaseProductIdentity,
        PayLineAmountModel,
        i64,
        PayLineAmountModel,
        RefundLineQtyRejectModel,
    ))
        ensures
            r.0 == self.pid,
            r.1 == self.amount_req,
            r.2 == self.time_req,
            r.3 == self.amount_refunded,
            r.4 == self.rejected,
    {
        let OLineRefundModel { pid, amount_req, time_req, amount_refunded, rejected } = self;
        (pid, amount_req, time_req, amount_refunded, rejected)
    }
}

/// Whether a stored refund line answers the given product and request
/// time.
pub open spec fn line_matches(line: OLineRefundModel, key: BaseProductIdentity, t: i64) -> bool {
    line.pid == key && line.time_req == t
}

/// Index of the first stored line answering the key and time, if any.
pub open spec fn spec_find_line(s: Seq<OLineRefundModel>, key: BaseProductIdentity, t: i64) -> Option<
    int,
>
    decreases s.len(),
{
    if s.len() == 0 {
        None
    } else if line_matches(s[0], key, t) {
        Some(0int)
    } else {
        match spec_find_line(s.skip(1), key, t) {
            Some(i) => Some(i + 1),
            None => None,
        }
    }
}

pub broadcast proof fn lemma_find_line_props(s: Seq<OLineRefundModel>, key: BaseProductIdentity, t: i64)
    ensures
        #![trigger spec_find_line(s, key, t)]
        (spec_find_line(s, key, t) is Some ==> 0 <= spec_find_line(s, key, t)->0 < s.len()
            && line_matches(s[spec_find_line(s, key, t)->0], key, t)),
        (spec_find_line(s, key, t) is None ==> forall|i: int|
            0 <= i < s.len() ==> !line_matches(#[trigger] s[i], key, t)),
    decreases s.len(),
{
    if s.len() > 0 {
        lemma_find_line_props(s.skip(1), key, t);
        if !line_matches(s[0], key, t) {
            match spec_find_line(s.skip(1), key, t) {
                Some(i) => {
                    assert(s.skip(1)[i] == s[i + 1]);
                },
                None => {
                    assert forall|i: int| 0 <= i < s.len() implies !line_matches(s[i], key, t) by {
                        if i > 0 {
                            assert(s.skip(1)[i - 1] == s[i]);
                        }
                    }
                },
            }
        }
    }
}

/// A buyer's refund request for one order, line by line.
#[derive(Clone, Debug)]
pub struct OrderRefundModel {
    id: String,
    lines: Vec<OLineRefundModel>,
}

impl OrderRefundModel {
    pub closed spec fn spec_id(self) -> Seq<char> {
        self.id@
    }

    pub closed spec fn spec_lines(self) -> Seq<OLineRefundModel> {
        self.lines@
    }

    /// Every stored line keeps its refund ceilings.
    pub open spec fn wf(self) -> bool {
        forall|i: int| 0 <= i < self.spec_lines().len() ==> (#[trigger] self.spec_lines()[i]).wf()
    }

    pub fn from_parts(oid: String, lines: Vec<OLineRefundModel>) -> (r: OrderRefundModel)
        ensures
            r.spec_id() == oid@,
            r.spec_lines() == lines@,
    {
        OrderRefundModel { id: oid, lines }
    }

    pub fn into_parts(self) -> (r: (String, Vec<OLineRefundModel>))
        ensures
            r.0@ == self.spec_id(),
            r.1@ == self.spec_lines(),
    {
        let OrderRefundModel { id, lines } = self;
        (id, lines)
    }

    pub fn num_lines(&self) -> (r: usize)
        ensures
            r == self.spec_lines().len(),
    {
        self.lines.len()
    }

    /// Reads a whole refund replica. All lines must read cleanly; the
    /// errors of every unreadable line come back together.
    pub fn try_from_dto(oid: String, d_lines: Vec<OrderLineReplicaRefundDto>) -> (r: Result<
        OrderRefundModel,
        Vec<RefundModelError>,
    >)
        ensures
            r is Ok <==> (forall|i: int|
                0 <= i < d_lines@.len() ==> spec_oline_dto_ok(#[trigger] d_lines@[i])),
            r is Ok ==> ({
                let m = r->Ok_0;
                &&& m.spec_id() == oid@
                &&& m.spec_lines().len() == d_lines@.len()
                &&& (forall|i: int|
                    0 <= i < d_lines@.len() ==> spec_parsed_line_ok(
                        #[trigger] m.spec_lines()[i],
                        d_lines@[i],
                    ))
                &&& m.wf()
            }),
            r is Err ==> r->Err_0@.len() >= 1,
    {
        let ghost orig = d_lines@;
        let n = d_lines.len();
        let mut rest = d_lines;
        let mut errs: Vec<RefundModelError> = Vec::new();
        let mut lines: Vec<OLineRefundModel> = Vec::new();
        let mut k: usize = 0;
        while rest.len() > 0
            invariant
                0 <= k <= n == orig.len(),
                rest@ =~= orig.skip(k as int),
                rest@.len() == n - k,
                errs@.len() == 0 ==> lines@.len() == k,
                errs@.len() == 0 <==> (forall|j: int|
                    0 <= j < k ==> spec_oline_dto_ok(#[trigger] orig[j])),
                errs@.len() == 0 ==> (forall|j: int|
                    0 <= j < k ==> spec_parsed_line_ok(#[trigger] lines@[j], orig[j])),
                forall|j: int| 0 <= j < lines@.len() ==> (#[trigger] lines@[j]).wf(),
            decreases rest@.len(),
        {
            let d = rest.remove(0);
            proof {
                assert(d == orig[k as int]);
                assert(rest@ =~= orig.skip(k + 1int));
            }
            match OLineRefundModel::try_from_dto(d) {
                Ok(m) => {
                    lines.push(m);
                },
                Err(e) => {
                    errs.push(e);
                },
            }
            k = k + 1;
        }
        if errs.len() == 0 {
            Ok(OrderRefundModel { id: oid, lines })
        } else {
            Err(errs)
        }
    }

    /// Validates one merchant's completion request against the stored
    /// refund lines, purely: nothing is changed whether it passes or
    /// fails. For each completion line the matching stored line is found
    /// by product and request time — a missing pair fails the line — and
    /// the quantity and amount still open after the round are computed,
    /// each subtraction checked. All lines must pass for the result to be
    /// `Ok`; otherwise every failing line's error comes back.
    pub fn validate(&self, merchant_id: u32, data: &RefundCompletionReqDto) -> (r: Result<
        Vec<(ProductType, u64, i64, u32, Dec)>,
        Vec<RefundModelError>,
    >)
        requires
            self.wf(),
            forall|j: int|
                0 <= j < data.lines@.len() ==> qty_rej_sum((#[trigger] data.lines@[j]).reject)
                    <= u32::MAX,
            forall|j: int|
                0 <= j < data.lines@.len() ==> ({
                    let key = cmpl_line_key(merchant_id, data.lines@[j]);
                    match spec_find_line(self.spec_lines(), key, (#[trigger] data.lines@[j]).time_issued) {
                        Some(i) => -0x7fffffffffffffff <= self.spec_lines()[i].amount_req.unit.m
                            * qty_rej_sum(data.lines@[j].reject) <= 0x7fffffffffffffff,
                        None => true,
                    }
                }),
        ensures
            r is Ok <==> (forall|j: int|
                0 <= j < data.lines@.len() ==> spec_cmpl_line_ok(
                    self.spec_lines(),
                    merchant_id,
                    #[trigger] data.lines@[j],
                )),
            r is Ok ==> r->Ok_0@.len() == data.lines@.len(),
            r is Ok ==> (forall|j: int|
                0 <= j < data.lines@.len() ==> ({
                    let d = #[trigger] data.lines@[j];
                    let line = self.spec_lines()[spec_find_line(
                        self.spec_lines(),
                        cmpl_line_key(merchant_id, d),
                        d.time_issued,
                    )->0];
                    let out = r->Ok_0@[j];
                    &&& out.0 == d.product_type
                    &&& out.1 == d.product_id
                    &&& out.2 == d.time_issued
                    &&& out.3 == line.spec_remain_qty(d)
                    &&& out.4.wf() && out.4.v9() == line.spec_amt_remain_v9(d)
                })),
            r is Err ==> r->Err_0@.len() >= 1 && r->Err_0@.len() == spec_cmpl_failures(
                self.spec_lines(),
                merchant_id,
                data.lines@,
            ).len() && (forall|k: int|
                0 <= k < r->Err_0@.len() ==> spec_cmpl_err_ok(
                    self.spec_lines(),
                    merchant_id,
                    spec_cmpl_failures(self.spec_lines(), merchant_id, data.lines@)[k],
                    #[trigger] r->Err_0@[k],
                )),
    {
        broadcast use lemma_find_line_props;

        let mut errors: Vec<RefundModelError> = Vec::new();
        let mut valid_amt_qty: Vec<(ProductType, u64, i64, u32, Dec)> = Vec::new();
        let n = data.lines.len();
        let mut j: usize = 0;
        while j < n
            invariant
                0 <= j <= n == data.lines@.len(),
                self.wf(),
                forall|t: int|
                    0 <= t < data.lines@.len() ==> qty_rej_sum((#[trigger] data.lines@[t]).reject)
                        <= u32::MAX,
                forall|t: int|
                    0 <= t < data.lines@.len() ==> ({
                        let key = cmpl_line_key(merchant_id, data.lines@[t]);
                        match spec_find_line(self.spec_lines(), key, (#[trigger] data.lines@[t]).time_issued) {
                            Some(i) => -0x7fffffffffffffff
                                <= self.spec_lines()[i].amount_req.unit.m * qty_rej_sum(
                                data.lines@[t].reject,
                            ) <= 0x7fffffffffffffff,
                            None => true,
                        }
                    }),
                errors@.len() == 0 ==> valid_amt_qty@.len() == j,
                errors@.len() == 0 <==> (forall|t: int|
                    0 <= t < j ==> spec_cmpl_line_ok(
                        self.spec_lines(),
                        merchant_id,
                        #[trigger] data.lines@[t],
                    )),
                errors@.len() == spec_cmpl_failures(
                    self.spec_lines(),
                    merchant_id,
                    data.lines@.take(j as int),
                ).len(),
                forall|k: int|
                    0 <= k < errors@.len() ==> spec_cmpl_err_ok(
                        self.spec_lines(),
                        merchant_id,
                        spec_cmpl_failures(
                            self.spec_lines(),
                            merchant_id,
                            data.lines@.take(j as int),
                        )[k],
                        #[trigger] errors@[k],
                    ),
                errors@.len() == 0 ==> (forall|t: int|
                    0 <= t < j ==> ({
                        let d = #[trigger] data.lines@[t];
                        let line = self.spec_lines()[spec_find_line(
                            self.spec_lines(),
                            cmpl_line_key(merchant_id, d),
                            d.time_issued,
                        )->0];
                        let out = valid_amt_qty@[t];
                        &&& out.0 == d.product_type
                        &&& out.1 == d.product_id
                        &&& out.2 == d.time_issued
                        &&& out.3 == line.spec_remain_qty(d)
                        &&& out.4.wf() && out.4.v9() == line.spec_amt_remain_v9(d)
                    })),
            decreases n - j,
        {
            let d = &data.lines[j];
            let key = BaseProductIdentity {
                store_id: merchant_id,
                product_type: d.product_type,
                product_id: d.product_id,
            };
            let found = self.find_line(&key, d.time_issued);
            match found {
                Some(idx) => {
                    proof {
                        assert(*d == data.lines@[j as int]);
                        assert(key == cmpl_line_key(merchant_id, data.lines@[j as int]));
                        lemma_find_line_props(self.spec_lines(), key, d.time_issued);
                        assert(spec_find_line(self.spec_lines(), key, d.time_issued) == Some(
                            idx as int,
                        ));
                        assert((idx as int) < self.spec_lines().len());
                        assert(self.spec_lines()[idx as int].wf());
                        assert(qty_rej_sum(data.lines@[j as int].reject) <= u32::MAX);
                    }
                    let line = &self.lines[idx];
                    match line.estimate_remains(d) {
                        Err(e) => {
                            errors.push(e);
                        },
                        Ok((qty, amt_tot)) => {
                            valid_amt_qty.push(
                                (d.product_type, d.product_id, d.time_issued, qty, amt_tot),
                            );
                        },
                    }
                },
                None => {
                    errors.push(RefundModelError::MissingReqLine(key, d.time_issued));
                },
            }
            proof {
                reveal(Seq::filter);
                let pred = |dd: RefundCompletionOlineReqDto|
                    !spec_cmpl_line_ok(self.spec_lines(), merchant_id, dd);
                let tpost = data.lines@.take(j + 1int);
                assert(tpost.drop_last() =~= data.lines@.take(j as int));
                assert(tpost.last() == data.lines@[j as int]);
            }
            j = j + 1;
        }
        proof {
            assert(data.lines@.take(n as int) =~= data.lines@);
        }
        if errors.len() == 0 {
            Ok(valid_amt_qty)
        } else {
            Err(errors)
        }
    }

    /// First stored line answering the key and time, as its index.
    fn find_line(&self, key: &BaseProductIdentity, t: i64) -> (r: Option<usize>)
        ensures
            match r {
                Some(i) => spec_find_line(self.spec_lines(), *key, t) == Some(i as int),
                None => spec_find_line(self.spec_lines(), *key, t) is None,
            },
    {
        let n = self.lines.len();
        let mut i: usize = 0;
        proof {
            assert(self.spec_lines().skip(0int) =~= self.spec_lines());
        }
        while i < n
            invariant
                0 <= i <= n == self.spec_lines().len(),
                spec_find_line(self.spec_lines(), *key, t) == (match spec_find_line(
                    self.spec_lines().skip(i as int),
                    *key,
                    t,
                ) {
                    Some(k) => Some(k + i),
                    None => None,
                }),
            decreases n - i,
        {
            let line = &self.lines[i];
            proof {
                let rest = self.spec_lines().skip(i as int);
                assert(rest[0] == self.spec_lines()[i as int]);
                assert(rest.skip(1) =~= self.spec_lines().skip(i + 1int));
            }
            if line.pid == *key && line.time_req == t {
                return Some(i);
            }
            i = i + 1;
        }
        proof {
            assert(self.spec_lines().skip(n as int) =~= Seq::<OLineRefundModel>::empty());
        }
        None
    }

    /// Distinct sellers that the stored refund lines touch.
    pub fn merchant_ids(&self) -> (r: Vec<u32>)
        ensures
            forall|id: u32|
                #[trigger] r@.contains(id) <==> (exists|i: int|
                    0 <= i < self.spec_lines().len() && (#[trigger] self.spec_lines()[i]).pid.store_id
                        == id),
            forall|a: int, b: int| 0 <= a < b < r@.len() ==> r@[a] != r@[b],
    {
        let mut out: Vec<u32> = Vec::new();
        let n = self.lines.len();
        let mut i: usize = 0;
        while i < n
            invariant
                0 <= i <= n == self.spec_lines().len(),
                forall|id: u32|
                    #[trigger] out@.contains(id) <==> (exists|k: int|
                        0 <= k < i && (#[trigger] self.spec_lines()[k]).pid.store_id == id),
                forall|a: int, b: int| 0 <= a < b < out@.len() ==> out@[a] != out@[b],
            decreases n - i,
        {
            let sid = self.lines[i].pid.store_id;
            let mut present = false;
            let m = out.len();
            let mut k: usize = 0;
            while k < m
                invariant
                    0 <= k <= m == out@.len(),
                    present <==> (exists|t: int| 0 <= t < k && out@[t] == sid),
                decreases m - k,
            {
                if out[k] == sid {
                    present = true;
                }
                k = k + 1;
            }
            if !present {
                let ghost old_out = out@;
                out.push(sid);
                proof {
                    let lines_s = self.spec_lines();
                    assert forall|id: u32| #[trigger] out@.contains(id) implies (exists|t: int|
                        0 <= t < i + 1 && lines_s[t].pid.store_id == id) by {
                        let w = choose|w: int| 0 <= w < out@.len() && out@[w] == id;
                        if w < out@.len() - 1 {
                            assert(old_out[w] == id);
                            assert(old_out.contains(id));
                        } else {
                            assert(id == sid);
                            assert(lines_s[i as int].pid.store_id == id);
                        }
                    }
                    assert forall|id: u32| (exists|t: int|
                        0 <= t < i + 1 && lines_s[t].pid.store_id == id) implies #[trigger] out@.contains(
                        id,
                    ) by {
                        let t = choose|t: int| 0 <= t < i + 1 && lines_s[t].pid.store_id == id;
                        if t < i {
                            assert(old_out.contains(id));
                            let w = choose|w: int| 0 <= w < old_out.len() && old_out[w] == id;
                            assert(out@[w] == id);
                        } else {
                            assert(out@[out@.len() - 1] == sid);
                        }
                        assert(out@.contains(id));
                    }
                }
            } else {
                proof {
                    assert(out@.contains(sid));
                    assert(self.spec_lines()[i as int].pid.store_id == sid);
                }
            }
            i = i + 1;
        }
        out
    }
}

/// What a cleanly read refund line holds: the dto's identity, request
/// time and amounts, with nothing refunded or rejected yet.
pub open spec fn spec_parsed_line_ok(line: OLineRefundModel, value: OrderLineReplicaRefundDto) -> bool {
    &&& line.pid == (BaseProductIdentity {
        store_id: value.seller_id,
        product_type: value.product_type,
        product_id: value.product_id,
    })
    &&& line.time_req == rfc3339_to_millis(value.create_time@)->0
    &&& line.amount_req.qty == value.qty
    &&& line.amount_req.unit.v9() == parsed_v9(value.amount.unit@)
    &&& line.amount_req.total.v9() == parsed_v9(value.amount.total@)
    &&& line.amount_refunded.qty == 0
    &&& line.amount_refunded.total.v9() == 0
    &&& qty_rej_sum(line.rejected.0) == 0
    &&& line.wf()
}

/// Whether one replicated refund line reads cleanly.
pub open spec fn spec_oline_dto_ok(d: OrderLineReplicaRefundDto) -> bool {
    &&& rfc3339_to_millis(d.create_time@) is Some
    &&& spec_parse_dec(d.amount.unit@) is Ok
    &&& spec_parse_dec(d.amount.total@) is Ok
    &&& parsed_v9(d.amount.unit@) >= 0
    &&& parsed_v9(d.amount.total@) >= 0
}

/// The stored-line key a completion line addresses under one merchant.
pub open spec fn cmpl_line_key(merchant_id: u32, d: RefundCompletionOlineReqDto) -> BaseProductIdentity {
    BaseProductIdentity {
        store_id: merchant_id,
        product_type: d.product_type,
        product_id: d.product_id,
    }
}

/// Whether an error is the right report for one failing completion line:
/// a missing stored line is reported as such; a quantity underflow is the
/// exact quantity error of its first failing subtraction; an amount
/// failure names the product, as an unreadable approval or an
/// insufficient amount.
pub open spec fn spec_cmpl_err_ok(
    lines: Seq<OLineRefundModel>,
    merchant_id: u32,
    d: RefundCompletionOlineReqDto,
    e: RefundModelError,
) -> bool {
    let key = cmpl_line_key(merchant_id, d);
    match spec_find_line(lines, key, d.time_issued) {
        None => e == RefundModelError::MissingReqLine(key, d.time_issued),
        Some(i) => {
            if lines[i].spec_remain_qty(d) < 0 {
                e == lines[i].spec_remain_qty_err(d)
            } else {
                (e matches RefundModelError::ParseOline { pid, .. } && pid == key && !(
                spec_parse_dec(d.approval.amount_total@) is Ok)) || (e matches
                    RefundModelError::AmountInsufficient { pid, .. } && pid == key && spec_parse_dec(
                    d.approval.amount_total@,
                ) is Ok)
            }
        },
    }
}

/// The completion lines one validation pass rejects, in request order.
pub open spec fn spec_cmpl_failures(
    lines: Seq<OLineRefundModel>,
    merchant_id: u32,
    ds: Seq<RefundCompletionOlineReqDto>,
) -> Seq<RefundCompletionOlineReqDto> {
    ds.filter(|d: RefundCompletionOlineReqDto| !spec_cmpl_line_ok(lines, merchant_id, d))
}

/// Whether one completion line passes validation: its stored line exists
/// and both estimates go through.
pub open spec fn spec_cmpl_line_ok(
    lines: Seq<OLineRefundModel>,
    merchant_id: u32,
    d: RefundCompletionOlineReqDto,
) -> bool {
    match spec_find_line(lines, cmpl_line_key(merchant_id, d), d.time_issued) {
        Some(i) => lines[i].spec_remain_qty(d) >= 0 && lines[i].spec_amt_ok(d),
        None => false,
    }
}


/// Half of the 64-bit mantissa range: amounts kept within this bound at
/// scale nine can be subtracted from one another at any scale without
/// overflowing a checked operation.
pub open spec fn amt_ok9(v: int) -> bool {
    -0x3fffffffffffffff <= v <= 0x3fffffffffffffff
}

/// Whether a completion line addresses the product of a charge line.
pub open spec fn line_req_matches(cpid: BaseProductIdentity, r: RefundCompletionOlineReqDto) -> bool {
    r.product_id == cpid.product_id && r.product_type == cpid.product_type
}

/// Ghost image of one resolution line, carrying its amounts at scale
/// nine.
pub struct RslItemView {
    pub pid: BaseProductIdentity,
    pub time_req: i64,
    pub reject: RefundLineRejectDto,
    pub qty_fetched: int,
    pub total_fetched_v9: int,
    pub accumulated: PayLineAmountModel,
    pub unit: Dec,
}

/// The resolution lines one charge line yields for a completion request,
/// walking the request lines in order with the still-refundable quantity
/// and amount of the charge line: each matching request line fetches at
/// most what remains (quantity and total separately), the remainder
/// shrinks only when a positive quantity was fetched, and rounds that
/// neither fetch nor reject anything are dropped.
pub open spec fn spec_rsl_fold(
    c: ChargeLineBuyerModel,
    reqs: Seq<RefundCompletionOlineReqDto>,
    rq: int,
    rt9: int,
) -> Seq<RslItemView>
    decreases reqs.len(),
{
    if reqs.len() == 0 {
        Seq::empty()
    } else {
        let r = reqs[0];
        if line_req_matches(c.pid, r) {
            let a9 = parsed_v9(r.approval.amount_total@);
            let qf = if rq <= r.approval.quantity {
                rq
            } else {
                r.approval.quantity as int
            };
            let tf = if rt9 <= a9 {
                rt9
            } else {
                a9
            };
            let rq2 = if qf > 0 {
                rq - qf
            } else {
                rq
            };
            let rt2 = if qf > 0 {
                rt9 - tf
            } else {
                rt9
            };
            let rest = spec_rsl_fold(c, reqs.skip(1), rq2, rt2);
            if qf + qty_rej_sum(r.reject) > 0 {
                seq![
                    RslItemView {
                        pid: c.pid,
                        time_req: r.time_issued,
                        reject: r.reject,
                        qty_fetched: qf,
                        total_fetched_v9: tf,
                        accumulated: c.spec_amount_refunded(),
                        unit: c.spec_amount_refunded().unit,
                    },
                ] + rest
            } else {
                rest
            }
        } else {
            spec_rsl_fold(c, reqs.skip(1), rq, rt9)
        }
    }
}

/// The preconditions under which a charge line can be resolved against a
/// completion request without overflow: the line is well formed, its
/// total is bounded, and every matching request line carries a parseable,
/// non-negative, bounded approval total and a bounded reject count.
pub open spec fn rsl_line_req_ok(c: ChargeLineBuyerModel, reqs: Seq<RefundCompletionOlineReqDto>) -> bool {
    &&& c.wf()
    &&& amt_ok9(c.spec_amount_orig().total.v9())
    &&& forall|j: int|
        0 <= j < reqs.len() && line_req_matches(c.pid, #[trigger] reqs[j]) ==> ({
            let s = reqs[j].approval.amount_total@;
            &&& spec_parse_dec(s) is Ok
            &&& 0 <= parsed_v9(s)
            &&& amt_ok9(parsed_v9(s))
            &&& qty_rej_sum(reqs[j].reject) <= u32::MAX
        })
}

/// One line of a resolution: which product and request time it answers,
/// what is rejected, and the amount granted this round on top of the
/// accumulated history.
#[derive(Clone, Debug)]
pub struct RefundLineReqResolutionModel {
    pub pid: BaseProductIdentity,
    pub time_req: i64,
    pub qty_reject: RefundLineQtyRejectModel,
    pub amount: RefundLineResolveAmountModel,
}

/// Ghost image of one resolution line.
pub open spec fn rsl_item_view(m: RefundLineReqResolutionModel) -> RslItemView {
    RslItemView {
        pid: m.pid,
        time_req: m.time_req,
        reject: m.qty_reject.0,
        qty_fetched: m.amount.spec_curr_round().qty as int,
        total_fetched_v9: m.amount.spec_curr_round().total.v9(),
        accumulated: m.amount.spec_accumulated(),
        unit: m.amount.spec_curr_round().unit,
    }
}

impl RefundLineReqResolutionModel {
    /// Resolves one charge line against every request line addressing its
    /// product, consuming the still-refundable quantity and amount in the
    /// order the request lines arrive.
    #[verifier::loop_isolation(false)]
    pub fn to_vec(c: &ChargeLineBuyerModel, cmplt_req: &RefundCompletionReqDto) -> (out: Vec<
        RefundLineReqResolutionModel,
    >)
        requires
            rsl_line_req_ok(*c, cmplt_req.lines@),
        ensures
            out@.map_values(|m: RefundLineReqResolutionModel| rsl_item_view(m)) =~= spec_rsl_fold(
                *c,
                cmplt_req.lines@,
                c.spec_amount_orig().qty - c.spec_amount_refunded().qty,
                c.spec_amount_orig().total.v9() - c.spec_amount_refunded().total.v9(),
            ),
            forall|k: int|
                0 <= k < out@.len() ==> (#[trigger] out@[k]).amount.spec_curr_round().total.wf(),
    {
        let amt_prev_refunded = c.amount_refunded();
        let mut amt_remain = c.amount_remain();
        let mut out: Vec<RefundLineReqResolutionModel> = Vec::new();
        let n = cmplt_req.lines.len();
        let mut i: usize = 0;
        let ghost reqs = cmplt_req.lines@;
        let ghost fold0 = spec_rsl_fold(
            *c,
            reqs,
            c.spec_amount_orig().qty - c.spec_amount_refunded().qty,
            c.spec_amount_orig().total.v9() - c.spec_amount_refunded().total.v9(),
        );
        proof {
            assert(reqs.skip(0int) =~= reqs);
        }
        while i < n
            invariant
                0 <= i <= n,
                amt_remain.total.wf(),
                0 <= amt_remain.total.v9(),
                amt_ok9(amt_remain.total.v9()),
                fold0 =~= out@.map_values(|m: RefundLineReqResolutionModel| rsl_item_view(m))
                    + spec_rsl_fold(
                    *c,
                    reqs.skip(i as int),
                    amt_remain.qty as int,
                    amt_remain.total.v9(),
                ),
                forall|k: int|
                    0 <= k < out@.len() ==> (#[trigger] out@[k]).amount.spec_curr_round().total.wf(),
            decreases n - i,
        {
            let r = &cmplt_req.lines[i];
            proof {
                let rest = reqs.skip(i as int);
                assert(rest[0] == reqs[i as int]);
                assert(rest.skip(1) =~= reqs.skip(i + 1int));
            }
            let ghost rq: int = amt_remain.qty as int;
            let ghost rt9: int = amt_remain.total.v9();
            let ghost out_pre = out@;
            if r.product_id == c.pid.product_id && r.product_type == c.pid.product_type {
                proof {
                    assert(line_req_matches(c.pid, reqs[i as int]));
                }
                let amt_tot_req = match Dec::from_str(r.approval.amount_total.as_str()) {
                    Ok(v) => v,
                    Err(_) => {
                        proof {
                            assert(false);
                        }
                        Dec::zero()
                    },
                };
                proof {
                    assert(amt_tot_req.v9() == parsed_v9(reqs[i as int].approval.amount_total@));
                    assert(0 <= amt_tot_req.v9() && amt_ok9(amt_tot_req.v9()));
                }
                let qty_fetched: u32 = if amt_remain.qty <= r.approval.quantity {
                    amt_remain.qty
                } else {
                    r.approval.quantity
                };
                let tot_amt_fetched: Dec = if amt_remain.total.le(&amt_tot_req) {
                    amt_remain.total
                } else {
                    amt_tot_req
                };
                let ghost a9: int = parsed_v9(reqs[i as int].approval.amount_total@);
                let ghost tf: int = if rt9 <= a9 {
                    rt9
                } else {
                    a9
                };
                proof {
                    assert(tot_amt_fetched.v9() == tf);
                    assert(0 <= tf <= rt9);
                }
                if qty_fetched > 0 {
                    amt_remain.qty = amt_remain.qty - qty_fetched;
                    proof {
                        let emax = emax2(amt_remain.total.e, tot_amt_fetched.e);
                        let p = pow10((DEC_MAX_SCALE - emax) as nat);
                        crate::amount::lemma_pow10_pos((DEC_MAX_SCALE - emax) as nat);
                        assert(0 <= amt_remain.total.v9() - tot_amt_fetched.v9()
                            <= 0x3fffffffffffffff);
                        assert(0x7fffffffffffffff * p >= 0x7fffffffffffffff) by (nonlinear_arith)
                            requires
                                p >= 1,
                        ;
                        assert(-0x7fffffffffffffff * p <= 0) by (nonlinear_arith)
                            requires
                                p >= 1,
                        ;
                    }
                    amt_remain.total = match amt_remain.total.checked_sub(&tot_amt_fetched) {
                        Some(v) => v,
                        None => {
                            proof {
                                assert(false);
                            }
                            Dec::zero()
                        },
                    };
                }
                let rej_total: u64 = (r.reject.damaged as u64) + (r.reject.fraudulent as u64);
                let keep: bool = (qty_fetched as u64) + rej_total > 0;
                if keep {
                    let item = RefundLineReqResolutionModel {
                        pid: c.pid,
                        time_req: r.time_issued,
                        qty_reject: RefundLineQtyRejectModel::from_dto(&r.reject),
                        amount: RefundLineResolveAmountModel::from_parts(
                            amt_prev_refunded,
                            qty_fetched,
                            tot_amt_fetched,
                        ),
                    };
                    out.push(item);
                    proof {
                        let view_fn = |m: RefundLineReqResolutionModel| rsl_item_view(m);
                        let pushed = rsl_item_view(out@[out@.len() - 1]);
                        assert(out@.map_values(view_fn) =~= out_pre.map_values(view_fn).push(
                            pushed,
                        ));
                        let single = seq![
                            RslItemView {
                                pid: c.pid,
                                time_req: reqs[i as int].time_issued,
                                reject: reqs[i as int].reject,
                                qty_fetched: if rq <= reqs[i as int].approval.quantity {
                                    rq
                                } else {
                                    reqs[i as int].approval.quantity as int
                                },
                                total_fetched_v9: tf,
                                accumulated: c.spec_amount_refunded(),
                                unit: c.spec_amount_refunded().unit,
                            },
                        ];
                        assert(pushed == single[0]);
                        assert(out_pre.map_values(view_fn) + (single + spec_rsl_fold(
                            *c,
                            reqs.skip(i + 1int),
                            amt_remain.qty as int,
                            amt_remain.total.v9(),
                        )) =~= out@.map_values(view_fn) + spec_rsl_fold(
                            *c,
                            reqs.skip(i + 1int),
                            amt_remain.qty as int,
                            amt_remain.total.v9(),
                        ));
                    }
                }
            }
            i = i + 1;
        }
        proof {
            assert(reqs.skip(n as int) =~= Seq::<RefundCompletionOlineReqDto>::empty());
        }
        out
    }
}


/// Resolution lines of every charge line of one merchant, in charge-line
/// order.
pub open spec fn spec_rsl_all(
    lines: Seq<ChargeLineBuyerModel>,
    merchant_id: u32,
    reqs: Seq<RefundCompletionOlineReqDto>,
) -> Seq<RslItemView>
    decreases lines.len(),
{
    if lines.len() == 0 {
        Seq::empty()
    } else {
        (if lines[0].pid.store_id == merchant_id {
            spec_rsl_fold(
                lines[0],
                reqs,
                lines[0].spec_amount_orig().qty - lines[0].spec_amount_refunded().qty,
                lines[0].spec_amount_orig().total.v9() - lines[0].spec_amount_refunded().total.v9(),
            )
        } else {
            Seq::empty()
        }) + spec_rsl_all(lines.skip(1), merchant_id, reqs)
    }
}

/// Index of the first resolution line answering the key and time, if any.
pub open spec fn spec_find_rsl(
    s: Seq<RefundLineReqResolutionModel>,
    key: BaseProductIdentity,
    t: i64,
) -> Option<int>
    decreases s.len(),
{
    if s.len() == 0 {
        None
    } else if s[0].pid == key && s[0].time_req == t {
        Some(0int)
    } else {
        match spec_find_rsl(s.skip(1), key, t) {
            Some(i) => Some(i + 1),
            None => None,
        }
    }
}

/// What one merchant completion round resolves to against one charge:
/// the parties' currency snapshots and the per-line grants.
#[derive(Clone, Debug)]
pub struct RefundReqResolutionModel {
    buyer_usr_id: u32,
    charged_ctime: i64,
    currency_buyer: OrderCurrencySnapshot,
    currency_merc: OrderCurrencySnapshot,
    lines: Vec<RefundLineReqResolutionModel>,
}

impl RefundReqResolutionModel {
    pub closed spec fn spec_buyer_usr_id(self) -> u32 {
        self.buyer_usr_id
    }

    pub closed spec fn spec_charged_ctime(self) -> i64 {
        self.charged_ctime
    }

    pub closed spec fn spec_currency_buyer(self) -> OrderCurrencySnapshot {
        self.currency_buyer
    }

    pub closed spec fn spec_currency_merc(self) -> OrderCurrencySnapshot {
        self.currency_merc
    }

    pub closed spec fn spec_rsl_lines(self) -> Seq<RefundLineReqResolutionModel> {
        self.lines@
    }

    /// Builds the resolution of one merchant's completion against one
    /// charge: both parties' currency snapshots must be on the charge,
    /// and every charge line of the merchant is resolved in order.
    #[verifier::loop_isolation(false)]
    pub fn try_from_parts(
        merchant_id: u32,
        charge_m: &ChargeBuyerModel,
        cmplt_req: &RefundCompletionReqDto,
    ) -> (r: Result<RefundReqResolutionModel, RefundModelError>)
        requires
            forall|i: int|
                0 <= i < charge_m.lines@.len() && (#[trigger] charge_m.lines@[i]).pid.store_id
                    == merchant_id ==> rsl_line_req_ok(charge_m.lines@[i], cmplt_req.lines@),
        ensures
            r is Ok <==> charge_m.spec_currency_of(charge_m.meta.spec_owner()) is Some
                && charge_m.spec_currency_of(merchant_id) is Some,
            r is Ok ==> ({
                let m = r->Ok_0;
                &&& m.spec_buyer_usr_id() == charge_m.meta.spec_owner()
                &&& m.spec_charged_ctime() == charge_m.meta.spec_create_time()
                &&& m.spec_currency_buyer() == charge_m.spec_currency_of(
                    charge_m.meta.spec_owner(),
                )->0
                &&& m.spec_currency_merc() == charge_m.spec_currency_of(merchant_id)->0
                &&& m.spec_rsl_lines().map_values(
                    |x: RefundLineReqResolutionModel| rsl_item_view(x),
                ) =~= spec_rsl_all(charge_m.lines@, merchant_id, cmplt_req.lines@)
            }),
            r is Err && charge_m.spec_currency_of(charge_m.meta.spec_owner()) is None ==> (
            r->Err_0 matches RefundModelError::MissingCurrency(s, id) && s@ == "buyer-id"@ && id
                == charge_m.meta.spec_owner()),
            r is Err && charge_m.spec_currency_of(charge_m.meta.spec_owner()) is Some ==> (
            r->Err_0 matches RefundModelError::MissingCurrency(s, id) && s@ == "merchant-id"@ && id
                == merchant_id),
    {
        let buyer_usr_id = charge_m.meta.owner();
        let currency_b = match charge_m.get_buyer_currency() {
            Some(v) => v,
            None => {
                return Err(
                    RefundModelError::MissingCurrency(String::from_str("buyer-id"), buyer_usr_id),
                );
            },
        };
        let currency_m = match charge_m.get_seller_currency(merchant_id) {
            Some(v) => v,
            None => {
                return Err(
                    RefundModelError::MissingCurrency(String::from_str("merchant-id"), merchant_id),
                );
            },
        };
        let mut lines: Vec<RefundLineReqResolutionModel> = Vec::new();
        let n = charge_m.lines.len();
        let mut i: usize = 0;
        proof {
            assert(charge_m.lines@.skip(0int) =~= charge_m.lines@);
        }
        while i < n
            invariant
                0 <= i <= n,
                spec_rsl_all(charge_m.lines@, merchant_id, cmplt_req.lines@) =~= lines@.map_values(
                    |x: RefundLineReqResolutionModel| rsl_item_view(x),
                ) + spec_rsl_all(charge_m.lines@.skip(i as int), merchant_id, cmplt_req.lines@),
            decreases n - i,
        {
            let cline = &charge_m.lines[i];
            let ghost lines_pre = lines@;
            proof {
                let rest = charge_m.lines@.skip(i as int);
                assert(rest[0] == charge_m.lines@[i as int]);
                assert(rest.skip(1) =~= charge_m.lines@.skip(i + 1int));
            }
            if cline.pid.store_id == merchant_id {
                let mut part = RefundLineReqResolutionModel::to_vec(cline, cmplt_req);
                proof {
                    let view_fn = |x: RefundLineReqResolutionModel| rsl_item_view(x);
                    assert((lines_pre + part@).map_values(view_fn) =~= lines_pre.map_values(view_fn)
                        + part@.map_values(view_fn));
                }
                lines.append(&mut part);
            }
            i = i + 1;
        }
        proof {
            assert(charge_m.lines@.skip(n as int) =~= Seq::<ChargeLineBuyerModel>::empty());
        }
        Ok(
            RefundReqResolutionModel {
                buyer_usr_id,
                charged_ctime: charge_m.meta.create_time(),
                currency_buyer: currency_b,
                currency_merc: currency_m,
                lines,
            },
        )
    }

    /// The rejected quantities and resolve amounts recorded against one
    /// product and request time, if this resolution touched it.
    pub fn get_status(
        &self,
        merchant_id: u32,
        product_type: ProductType,
        product_id: u64,
        time_req: i64,
    ) -> (r: Option<(&RefundLineRejectDto, &RefundLineResolveAmountModel)>)
        ensures
            ({
                let key = BaseProductIdentity { store_id: merchant_id, product_type, product_id };
                match spec_find_rsl(self.spec_rsl_lines(), key, time_req) {
                    Some(i) => (r matches Some(p) && *p.0 == self.spec_rsl_lines()[i].qty_reject.0
                        && *p.1 == self.spec_rsl_lines()[i].amount),
                    None => r is None,
                }
            }),
    {
        let key = BaseProductIdentity { store_id: merchant_id, product_type, product_id };
        let n = self.lines.len();
        let mut i: usize = 0;
        proof {
            assert(self.lines@.skip(0int) =~= self.lines@);
        }
        while i < n
            invariant
                0 <= i <= n == self.lines@.len(),
                spec_find_rsl(self.lines@, key, time_req) == (match spec_find_rsl(
                    self.lines@.skip(i as int),
                    key,
                    time_req,
                ) {
                    Some(k) => Some(k + i),
                    None => None,
                }),
                key == (BaseProductIdentity { store_id: merchant_id, product_type, product_id }),
            decreases n - i,
        {
            proof {
                let rest = self.lines@.skip(i as int);
                assert(rest[0] == self.lines@[i as int]);
                assert(rest.skip(1) =~= self.lines@.skip(i + 1int));
            }
            let line = &self.lines[i];
            if line.pid == key && line.time_req == time_req {
                return Some((&line.qty_reject.0, &line.amount));
            }
            i = i + 1;
        }
        proof {
            assert(self.lines@.skip(n as int) =~= Seq::<RefundLineReqResolutionModel>::empty());
        }
        None
    }
}


/// The refund line one validated completion round leaves behind: the
/// approved quantity and amount join the refunded history, and the
/// rejected quantities join the reject record.
pub open spec fn spec_line_after_round(
    line: OLineRefundModel,
    d: RefundCompletionOlineReqDto,
    new_total: Dec,
) -> OLineRefundModel {
    OLineRefundModel {
        pid: line.pid,
        amount_req: line.amount_req,
        time_req: line.time_req,
        amount_refunded: PayLineAmountModel {
            unit: line.amount_refunded.unit,
            total: new_total,
            qty: (line.amount_refunded.qty + d.approval.quantity) as u32,
        },
        rejected: RefundLineQtyRejectModel(
            RefundLineRejectDto {
                damaged: (line.rejected.0.damaged + d.reject.damaged) as u32,
                fraudulent: (line.rejected.0.fraudulent + d.reject.fraudulent) as u32,
            },
        ),
    }
}

/// Across any sequence of completion rounds the refund ceilings hold:
/// a round that validation lets through leaves the line with its
/// refunded and rejected quantities still within the requested quantity,
/// and its refunded amount still within the requested amount.
pub proof fn lemma_refund_ceilings_preserved(
    line: OLineRefundModel,
    d: RefundCompletionOlineReqDto,
    new_total: Dec,
)
    requires
        line.wf(),
        line.spec_remain_qty(d) >= 0,
        line.spec_amt_ok(d),
        parsed_v9(d.approval.amount_total@) >= 0,
        new_total.wf(),
        new_total.v9() == line.amount_refunded.total.v9() + parsed_v9(d.approval.amount_total@),
    ensures
        spec_line_after_round(line, d, new_total).wf(),
{
    let after = spec_line_after_round(line, d, new_total);
    assert(after.amount_refunded.qty + qty_rej_sum(after.rejected.0) <= after.amount_req.qty);
    let u9 = line.amount_req.unit.v9();
    let qd = qty_rej_sum(d.reject);
    let rejv = u9 * qd;
    assert(rejv >= 0) by (nonlinear_arith)
        requires
            rejv == u9 * qd,
            u9 >= 0,
            qd >= 0,
    ;
    assert(line.amount_req.total.v9() - line.amount_refunded.total.v9() - parsed_v9(
        d.approval.amount_total@,
    ) - rejv >= 0);
    assert(0 <= after.amount_refunded.total.v9() <= after.amount_req.total.v9());
}

} // verus!
