use vstd::prelude::*;
use crate::amount::{Dec, PayLineAmountModel};
use crate::types::{BaseProductIdentity, CurrencyDto};

verus! {

/// Exchange-rate snapshot of one party, taken at order creation and
/// never changed afterwards.
#[derive(Clone, Copy, Debug)]
pub struct OrderCurrencySnapshot {
    pub label: CurrencyDto,
    pub rate: Dec,
}

/// Progress of a buyer's pay-in. Each state past `Initialized` carries
/// the millisecond timestamp of the transition that reached it.
#[derive(Clone, Copy, Debug, PartialEq, Eq, Structural)]
pub enum BuyerPayInState {
    Initialized,
    ProcessorAccepted(i64),
    ProcessorCompleted(i64),
    OrderAppSynced(i64),
}

impl BuyerPayInState {
    /// Position of the state in the forward-only progression.
    pub open spec fn rank(self) -> int {
        match self {
            BuyerPayInState::Initialized => 0,
            BuyerPayInState::ProcessorAccepted(_) => 1,
            BuyerPayInState::ProcessorCompleted(_) => 2,
            BuyerPayInState::OrderAppSynced(_) => 3,
        }
    }

    /// The transition timestamp, absent only in the initial state.
    pub open spec fn spec_time(self) -> Option<i64> {
        match self {
            BuyerPayInState::Initialized => None,
            BuyerPayInState::ProcessorAccepted(t) => Some(t),
            BuyerPayInState::ProcessorCompleted(t) => Some(t),
            BuyerPayInState::OrderAppSynced(t) => Some(t),
        }
    }

    pub fn to_rank(&self) -> (r: u8)
        ensures
            r == self.rank(),
    {
        match self {
            BuyerPayInState::Initialized => 0,
            BuyerPayInState::ProcessorAccepted(_) => 1,
            BuyerPayInState::ProcessorCompleted(_) => 2,
            BuyerPayInState::OrderAppSynced(_) => 3,
        }
    }
}

/// How far one capability of a merchant's processor account has come.
#[derive(Clone, Copy, Debug, PartialEq, Eq, Structural)]
pub enum StripeAccountCapableState {
    active,
    inactive,
    pending,
}

/// The capabilities of a merchant's processor account.
#[derive(Clone, Copy, Debug, PartialEq, Eq, Structural)]
pub struct StripeAccountCapabilityModel {
    pub transfers: StripeAccountCapableState,
}

/// Status of the processor-side checkout session.
#[derive(Clone, Copy, Debug, PartialEq, Eq, Structural)]
pub enum StripeSessionStatusModel {
    open,
    complete,
    expired,
}

/// Status of the payment within the checkout session.
#[derive(Clone, Copy, Debug, PartialEq, Eq, Structural)]
pub enum StripeCheckoutPaymentStatusModel {
    no_payment_required,
    paid,
    unpaid,
}

/// Processor-side identifiers and status of one charge, as held for the
/// Stripe-like processor.
#[derive(Clone, Debug, PartialEq, Eq)]
pub struct Charge3partyStripeModel {
    pub checkout_session_id: String,
    pub payment_intent_id: String,
    pub transfer_group: String,
    pub expiry: i64,
    pub session_state: StripeSessionStatusModel,
    pub payment_state: StripeCheckoutPaymentStatusModel,
}

/// Which processor holds the charge, with that processor's own state.
/// Unknown labels on load sink to `Unknown` and are reported as an
/// unsupported pay method.
#[derive(Clone, Debug, PartialEq, Eq)]
pub enum Charge3partyModel {
    Stripe(Charge3partyStripeModel),
    Unknown,
}

/// Top-level facts of one charge: who pays, when it was created (seconds
/// truncated to the storage precision), which order it pays, how far the
/// pay-in has progressed and through which processor.
#[derive(Clone, Debug)]
pub struct ChargeBuyerMetaModel {
    oid: String,
    owner: u32,
    create_time: i64,
    state: BuyerPayInState,
    method: Charge3partyModel,
}

impl ChargeBuyerMetaModel {
    pub closed spec fn spec_oid(self) -> Seq<char> {
        self.oid@
    }

    pub closed spec fn spec_owner(self) -> u32 {
        self.owner
    }

    pub closed spec fn spec_create_time(self) -> i64 {
        self.create_time
    }

    pub closed spec fn spec_state(self) -> BuyerPayInState {
        self.state
    }

    pub closed spec fn spec_method(self) -> Charge3partyModel {
        self.method
    }

    /// A fresh charge meta for the given order, buyer and creation time,
    /// not yet offered to any processor.
    pub fn from_parts(oid: String, owner: u32, create_time: i64) -> (r: ChargeBuyerMetaModel)
        ensures
            r.spec_oid() == oid@,
            r.spec_owner() == owner,
            r.spec_create_time() == create_time,
            r.spec_state() == BuyerPayInState::Initialized,
            r.spec_method() == Charge3partyModel::Unknown,
    {
        ChargeBuyerMetaModel {
            oid,
            owner,
            create_time,
            state: BuyerPayInState::Initialized,
            method: Charge3partyModel::Unknown,
        }
    }

    pub fn owner(&self) -> (r: u32)
        ensures
            r == self.spec_owner(),
    {
        self.owner
    }

    pub fn create_time(&self) -> (r: i64)
        ensures
            r == self.spec_create_time(),
    {
        self.create_time
    }

    pub fn oid(&self) -> (r: &String)
        ensures
            r@ == self.spec_oid(),
    {
        &self.oid
    }

    pub fn state(&self) -> (r: &BuyerPayInState)
        ensures
            *r == self.spec_state(),
    {
        &self.state
    }

    pub fn method(&self) -> (r: &Charge3partyModel)
        ensures
            *r == self.spec_method(),
    {
        &self.method
    }

    pub fn into_parts(self) -> (r: (u32, i64, String, BuyerPayInState, Charge3partyModel))
        ensures
            r.0 == self.spec_owner(),
            r.1 == self.spec_create_time(),
            r.2@ == self.spec_oid(),
            r.3 == self.spec_state(),
            r.4 == self.spec_method(),
    {
        let ChargeBuyerMetaModel { oid, owner, create_time, state, method } = self;
        (owner, create_time, oid, state, method)
    }

    /// Moves the pay-in state forward. A state that does not lie strictly
    /// ahead of the current one is refused: progression is monotone and a
    /// backward transition leaves the charge exactly as it was.
    pub fn update_progress(&mut self, new_state: &BuyerPayInState)
        ensures
            final(self).spec_state() == if new_state.rank() > old(self).spec_state().rank() {
                *new_state
            } else {
                old(self).spec_state()
            },
            final(self).spec_state().rank() >= old(self).spec_state().rank(),
            final(self).spec_oid() == old(self).spec_oid(),
            final(self).spec_owner() == old(self).spec_owner(),
            final(self).spec_create_time() == old(self).spec_create_time(),
            final(self).spec_method() == old(self).spec_method(),
    {
        let new_rank = new_state.to_rank();
        let cur_rank = self.state.to_rank();
        if new_rank > cur_rank {
            self.state = *new_state;
        }
    }

    /// Replaces the processor-side descriptor.
    pub fn update_3party(&mut self, method: Charge3partyModel)
        ensures
            final(self).spec_method() == method,
            final(self).spec_state() == old(self).spec_state(),
            final(self).spec_oid() == old(self).spec_oid(),
            final(self).spec_owner() == old(self).spec_owner(),
            final(self).spec_create_time() == old(self).spec_create_time(),
    {
        self.method = method;
    }
}

/// One charge line: the product it pays, the original amount, and what
/// has been refunded of it so far.
#[derive(Clone, Debug)]
pub struct ChargeLineBuyerModel {
    pub pid: BaseProductIdentity,
    pub amount_orig: PayLineAmountModel,
    pub amount_refunded: PayLineAmountModel,
}

impl ChargeLineBuyerModel {
    /// The refunded part never exceeds the original, in quantity or in
    /// amount, and all amounts are non-negative with the refunded total
    /// at a scale no finer than the original's.
    pub open spec fn wf(self) -> bool {
        &&& self.spec_amount_orig().wf()
        &&& self.spec_amount_refunded().wf()
        &&& self.spec_amount_refunded().qty <= self.spec_amount_orig().qty
        &&& 0 <= self.spec_amount_refunded().total.v9() <= self.spec_amount_orig().total.v9()
        &&& 0 <= self.spec_amount_orig().unit.v9()
        &&& self.spec_amount_refunded().total.e <= self.spec_amount_orig().total.e
    }

    pub open spec fn spec_amount_orig(self) -> PayLineAmountModel {
        self.amount_orig
    }

    pub open spec fn spec_amount_refunded(self) -> PayLineAmountModel {
        self.amount_refunded
    }

    pub fn from_parts(
        pid: BaseProductIdentity,
        amount_orig: PayLineAmountModel,
        amount_refunded: PayLineAmountModel,
    ) -> (r: ChargeLineBuyerModel)
        ensures
            r.pid == pid,
            r.spec_amount_orig() == amount_orig,
            r.spec_amount_refunded() == amount_refunded,
    {
        ChargeLineBuyerModel { pid, amount_orig, amount_refunded }
    }

    pub fn amount_orig(&self) -> (r: &PayLineAmountModel)
        ensures
            *r == self.spec_amount_orig(),
    {
        &self.amount_orig
    }

    pub fn amount_refunded(&self) -> (r: &PayLineAmountModel)
        ensures
            *r == self.spec_amount_refunded(),
    {
        &self.amount_refunded
    }

    pub fn into_parts(self) -> (r: (BaseProductIdentity, PayLineAmountModel, PayLineAmountModel))
        ensures
            r.0 == self.pid,
            r.1 == self.spec_amount_orig(),
            r.2 == self.spec_amount_refunded(),
    {
        let ChargeLineBuyerModel { pid, amount_orig, amount_refunded } = self;
        (pid, amount_orig, amount_refunded)
    }

    /// What remains refundable of this line: the original minus what has
    /// been refunded, at the unit price of the original.
    pub fn amount_remain(&self) -> (r: PayLineAmountModel)
        requires
            self.wf(),
        ensures
            r.wf(),
            r.qty == self.spec_amount_orig().qty - self.spec_amount_refunded().qty,
            r.total.v9() == self.spec_amount_orig().total.v9()
                - self.spec_amount_refunded().total.v9(),
            r.unit == self.spec_amount_orig().unit,
            r.total.v9() >= 0,
    {
        let qty = self.amount_orig.qty - self.amount_refunded.qty;
        proof {
            crate::amount::lemma_pow10_pos(
                (crate::amount::DEC_MAX_SCALE - self.amount_orig.total.e) as nat,
            );
            lemma_sub_fits_when_bounded(self.amount_orig.total, self.amount_refunded.total);
        }
        let total = match self.amount_orig.total.checked_sub(&self.amount_refunded.total) {
            Some(t) => t,
            None => Dec::zero(),
        };
        PayLineAmountModel { unit: self.amount_orig.unit, total, qty }
    }
}

/// When `0 <= b <= a` component-wise at scale nine and `b` is no finer
/// scaled than `a`, the difference `a - b` fits a 64-bit mantissa at the
/// common scale, so the checked subtraction succeeds.
proof fn lemma_sub_fits_when_bounded(a: Dec, b: Dec)
    requires
        a.wf(),
        b.wf(),
        0 <= b.v9() <= a.v9(),
        b.e <= a.e,
    ensures
        ({
            let p = crate::amount::pow10((crate::amount::DEC_MAX_SCALE - a.e) as nat);
            -0x7fffffffffffffff * p <= a.v9() - b.v9() <= 0x7fffffffffffffff * p
        }),
{
    let p = crate::amount::pow10((crate::amount::DEC_MAX_SCALE - a.e) as nat);
    crate::amount::lemma_pow10_pos((crate::amount::DEC_MAX_SCALE - a.e) as nat);
    assert(a.v9() - b.v9() <= a.v9());
    assert(a.v9() == a.m * p);
    assert(a.m * p <= 0x7fffffffffffffff * p) by (nonlinear_arith)
        requires
            a.m <= 0x7fffffffffffffff,
            p >= 1,
    ;
    assert(0 <= a.v9() - b.v9());
    assert(-0x7fffffffffffffff * p <= 0) by (nonlinear_arith)
        requires
            p >= 1,
    ;
}

/// The first snapshot in the list recorded under the given user, if any.
pub open spec fn spec_first_currency(
    s: Seq<(u32, OrderCurrencySnapshot)>,
    usr_id: u32,
) -> Option<OrderCurrencySnapshot>
    decreases s.len(),
{
    if s.len() == 0 {
        None
    } else if s[0].0 == usr_id {
        Some(s[0].1)
    } else {
        spec_first_currency(s.skip(1), usr_id)
    }
}

/// One buyer's charge in full: meta facts, the charged lines, and the
/// currency snapshot of the buyer and of every seller involved.
#[derive(Clone, Debug)]
pub struct ChargeBuyerModel {
    pub meta: ChargeBuyerMetaModel,
    pub lines: Vec<ChargeLineBuyerModel>,
    pub currency_snapshots: Vec<(u32, OrderCurrencySnapshot)>,
}

impl ChargeBuyerModel {
    pub open spec fn wf(self) -> bool {
        forall|i: int| 0 <= i < self.lines.len() ==> #[trigger] self.lines[i].wf()
    }

    /// The snapshot recorded for the given user, if any; the first entry
    /// wins as entries are keyed uniquely when built.
    pub open spec fn spec_currency_of(self, usr_id: u32) -> Option<OrderCurrencySnapshot> {
        spec_first_currency(self.currency_snapshots@, usr_id)
    }

    fn currency_of(&self, usr_id: u32) -> (r: Option<OrderCurrencySnapshot>)
        ensures
            r == self.spec_currency_of(usr_id),
    {
        let n = self.currency_snapshots.len();
        let mut i: usize = 0;
        proof {
            assert(self.currency_snapshots@.skip(0int) =~= self.currency_snapshots@);
        }
        while i < n
            invariant
                0 <= i <= n == self.currency_snapshots.len(),
                spec_first_currency(self.currency_snapshots@, usr_id) == spec_first_currency(
                    self.currency_snapshots@.skip(i as int),
                    usr_id,
                ),
            decreases n - i,
        {
            let entry = &self.currency_snapshots[i];
            proof {
                let rest = self.currency_snapshots@.skip(i as int);
                assert(rest[0] == self.currency_snapshots@[i as int]);
                assert(rest.skip(1) =~= self.currency_snapshots@.skip(i + 1int));
            }
            if entry.0 == usr_id {
                return Some(entry.1);
            }
            i = i + 1;
        }
        proof {
            assert(self.currency_snapshots@.skip(n as int) =~= Seq::<(
                u32,
                OrderCurrencySnapshot,
            )>::empty());
        }
        None
    }

    /// Currency snapshot of the buyer who owns this charge.
    pub fn get_buyer_currency(&self) -> (r: Option<OrderCurrencySnapshot>)
        ensures
            r == self.spec_currency_of(self.meta.spec_owner()),
    {
        self.currency_of(self.meta.owner())
    }

    /// Currency snapshot of one seller.
    pub fn get_seller_currency(&self, merchant_id: u32) -> (r: Option<OrderCurrencySnapshot>)
        ensures
            r == self.spec_currency_of(merchant_id),
    {
        self.currency_of(merchant_id)
    }
}


/// Every state past the initial one carries its transition timestamp.
pub proof fn lemma_noninitial_state_has_time(state: BuyerPayInState)
    requires
        state.rank() >= 1,
    ensures
        state.spec_time() is Some,
{
}

} // verus!
