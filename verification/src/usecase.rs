use vstd::prelude::*;
use crate::amount::{spec_parse_dec, Dec};
use crate::charge_rows::AppRepoError;
use crate::dto::{ChargeAmountOlineDto, StoreStaffRepDto};
use crate::error::AppErrorCode;
use crate::hexstr::{bytes_of_hex, hex_of_bytes, hex_seq, unhex_seq};
use crate::order::{spec_find_oline, OrderLineModel, OrderLineModelSet};
use crate::refund::parsed_v9;

verus! {

/// The twelve token bytes of one charge: the owner, then the creation
/// time in milliseconds, both big-endian.
pub open spec fn spec_token_bytes(owner: u32, ctime: i64) -> Seq<u8> {
    seq![
        (owner >> 24) as u8,
        (owner >> 16) as u8,
        (owner >> 8) as u8,
        owner as u8,
        ((ctime as u64) >> 56) as u8,
        ((ctime as u64) >> 48) as u8,
        ((ctime as u64) >> 40) as u8,
        ((ctime as u64) >> 32) as u8,
        ((ctime as u64) >> 24) as u8,
        ((ctime as u64) >> 16) as u8,
        ((ctime as u64) >> 8) as u8,
        (ctime as u64) as u8,
    ]
}

/// Writes the charge token of one charge: the owner and creation time as
/// lower-case hex text.
pub fn encode_charge_id(owner: u32, ctime: i64) -> (r: String)
    ensures
        r@ == hex_seq(spec_token_bytes(owner, ctime)),
{
    let mut b: Vec<u8> = Vec::new();
    b.push((owner >> 24) as u8);
    b.push((owner >> 16) as u8);
    b.push((owner >> 8) as u8);
    b.push(owner as u8);
    let t = ctime as u64;
    b.push((t >> 56) as u8);
    b.push((t >> 48) as u8);
    b.push((t >> 40) as u8);
    b.push((t >> 32) as u8);
    b.push((t >> 24) as u8);
    b.push((t >> 16) as u8);
    b.push((t >> 8) as u8);
    b.push(t as u8);
    proof {
        assert(b@ =~= spec_token_bytes(owner, ctime));
    }
    hex_of_bytes(b.as_slice())
}

/// Reads a charge token back: valid lower-case hex of exactly twelve
/// bytes, split into the owner and the creation time.
pub fn try_parse_charge_id(id_serial: &str) -> (r: Result<(u32, i64), (AppErrorCode, String)>)
    ensures
        r is Ok <==> unhex_seq(id_serial@) is Some && unhex_seq(id_serial@)->0.len() == 12,
        r is Ok ==> spec_token_bytes(r->Ok_0.0, r->Ok_0.1) =~= unhex_seq(id_serial@)->0,
        r is Err ==> r->Err_0.0 == AppErrorCode::InvalidInput,
{
    let b = match bytes_of_hex(id_serial) {
        Some(v) => v,
        None => {
            return Err((AppErrorCode::InvalidInput, String::from_str("charge-id-not-hex")));
        },
    };
    if b.len() != 12 {
        return Err((AppErrorCode::InvalidInput, String::from_str("charge-id-wrong-length")));
    }
    let owner: u32 = ((b[0] as u32) << 24) | ((b[1] as u32) << 16) | ((b[2] as u32) << 8) | (
    b[3] as u32);
    let t: u64 = ((b[4] as u64) << 56) | ((b[5] as u64) << 48) | ((b[6] as u64) << 40) | ((
    b[7] as u64) << 32) | ((b[8] as u64) << 24) | ((b[9] as u64) << 16) | ((b[10] as u64) << 8) | (
    b[11] as u64);
    let ctime: i64 = t as i64;
    proof {
        lemma_u32_bytes_roundtrip(b@[0], b@[1], b@[2], b@[3]);
        lemma_u64_bytes_roundtrip(
            b@[4],
            b@[5],
            b@[6],
            b@[7],
            b@[8],
            b@[9],
            b@[10],
            b@[11],
        );
        assert(spec_token_bytes(owner, ctime) =~= b@);
    }
    Ok((owner, ctime))
}

/// Reassembling four bytes big-endian and splitting again gives the same
/// bytes.
proof fn lemma_u32_bytes_roundtrip(b0: u8, b1: u8, b2: u8, b3: u8)
    ensures
        ({
            let x = ((b0 as u32) << 24) | ((b1 as u32) << 16) | ((b2 as u32) << 8) | (b3 as u32);
            (x >> 24) as u8 == b0 && (x >> 16) as u8 == b1 && (x >> 8) as u8 == b2 && x as u8 == b3
        }),
{
    let x = ((b0 as u32) << 24) | ((b1 as u32) << 16) | ((b2 as u32) << 8) | (b3 as u32);
    assert((x >> 24) as u8 == b0 && (x >> 16) as u8 == b1 && (x >> 8) as u8 == b2 && x as u8 == b3)
        by (bit_vector)
        requires
            x == ((b0 as u32) << 24) | ((b1 as u32) << 16) | ((b2 as u32) << 8) | (b3 as u32),
    ;
}

/// Reassembling eight bytes big-endian and splitting again gives the same
/// bytes.
proof fn lemma_u64_bytes_roundtrip(b0: u8, b1: u8, b2: u8, b3: u8, b4: u8, b5: u8, b6: u8, b7: u8)
    ensures
        ({
            let x = ((b0 as u64) << 56) | ((b1 as u64) << 48) | ((b2 as u64) << 40) | ((
            b3 as u64) << 32) | ((b4 as u64) << 24) | ((b5 as u64) << 16) | ((b6 as u64) << 8) | (
            b7 as u64);
            let y = (x as i64) as u64;
            (y >> 56) as u8 == b0 && (y >> 48) as u8 == b1 && (y >> 40) as u8 == b2 && (y >> 32) as u8
                == b3 && (y >> 24) as u8 == b4 && (y >> 16) as u8 == b5 && (y >> 8) as u8 == b6 && y as u8
                == b7
        }),
{
    let x = ((b0 as u64) << 56) | ((b1 as u64) << 48) | ((b2 as u64) << 40) | ((b3 as u64) << 32) | (
    (b4 as u64) << 24) | ((b5 as u64) << 16) | ((b6 as u64) << 8) | (b7 as u64);
    let y = (x as i64) as u64;
    assert(y == x) by (bit_vector)
        requires
            y == (x as i64) as u64,
    ;
    assert((x >> 56) as u8 == b0 && (x >> 48) as u8 == b1 && (x >> 40) as u8 == b2 && (x >> 32) as u8
        == b3 && (x >> 24) as u8 == b4 && (x >> 16) as u8 == b5 && (x >> 8) as u8 == b6 && x as u8
        == b7) by (bit_vector)
        requires
            x == ((b0 as u64) << 56) | ((b1 as u64) << 48) | ((b2 as u64) << 40) | ((b3 as u64)
                << 32) | ((b4 as u64) << 24) | ((b5 as u64) << 16) | ((b6 as u64) << 8) | (
            b7 as u64),
    ;
}

/// Every charge token reads back to the owner and creation time it was
/// written from.
pub proof fn lemma_charge_token_roundtrip(owner: u32, ctime: i64)
    ensures
        unhex_seq(hex_seq(spec_token_bytes(owner, ctime))) == Some(spec_token_bytes(owner, ctime)),
        hex_seq(spec_token_bytes(owner, ctime)).len() == 24,
{
    crate::hexstr::lemma_unhex_hex(spec_token_bytes(owner, ctime));
}

/// Everything create-charge can answer a client with, beyond success.
#[derive(Clone, Debug, PartialEq, Eq)]
pub enum ChargeCreateUcError {
    OrderOwnerMismatch,
    ClientBadRequest(Vec<ChargeLineValidateError>),
    OrderNotExist,
    LockCacheError,
    LoadOrderConflict,
    LoadOrderInternalError(String),
    LoadOrderByteCorruption(String),
    RpcBillingParseError(String),
    RpcOlineParseError(Vec<String>),
    ExternalProcessorError(String),
    DataStoreError(AppRepoError),
}

/// Why one claimed charge line was refused against the stored order.
#[derive(Clone, Copy, Debug, PartialEq, Eq, Structural)]
pub enum ChargeLineValidateError {
    LineMissing,
    QtyExceedsRemaining,
    AmountMismatch,
    AmountUnreadable,
}

/// Whether the unit mantissa of a claimed line times its quantity stays
/// within the amount range.
pub open spec fn spec_claim_mul_fits(d: ChargeAmountOlineDto) -> bool {
    match spec_parse_dec(d.amount.unit@) {
        Ok((neg, m, f)) => m * d.quantity <= 0x7fffffffffffffff,
        Err(_) => true,
    }
}

/// Whether one claimed line passes against the stored order lines: its
/// product exists, the claimed quantity fits in what is reserved but not
/// yet paid, both amounts parse, the unit price scales within range, and
/// the claimed total is exactly the claimed unit times the quantity.
pub open spec fn spec_claim_ok(lines: Seq<OrderLineModel>, d: ChargeAmountOlineDto) -> bool {
    match spec_find_oline(lines, d.seller_id, d.product_type, d.product_id) {
        Some(i) => {
            &&& d.quantity <= lines[i].qty.reserved - lines[i].qty.paid
            &&& spec_parse_dec(d.amount.unit@) is Ok
            &&& spec_parse_dec(d.amount.total@) is Ok
            &&& spec_claim_mul_fits(d)
            &&& parsed_v9(d.amount.total@) == parsed_v9(d.amount.unit@) * d.quantity
        },
        None => false,
    }
}

/// Validates the charge lines a client claims against the stored unpaid
/// order lines, purely: every line must name a stored product, ask no
/// more than the unpaid remainder, and carry a total that is exactly its
/// unit price times its quantity. All failing lines come back together as
/// a bad request.
#[verifier::loop_isolation(false)]
pub fn charge_lines_validate(saved: &OrderLineModelSet, lines: &Vec<ChargeAmountOlineDto>) -> (r:
    Result<(), ChargeCreateUcError>)
    requires
        saved.wf(),
    ensures
        r is Ok <==> (forall|j: int|
            0 <= j < lines@.len() ==> spec_claim_ok(saved.lines@, #[trigger] lines@[j])),
        r is Err ==> (r->Err_0 matches ChargeCreateUcError::ClientBadRequest(es) && es@.len() >= 1),
{
    let mut errors: Vec<ChargeLineValidateError> = Vec::new();
    let n = lines.len();
    let mut j: usize = 0;
    while j < n
        invariant
            0 <= j <= n,
            errors@.len() == 0 <==> (forall|t: int|
                0 <= t < j ==> spec_claim_ok(saved.lines@, #[trigger] lines@[t])),
        decreases n - j,
    {
        let d = &lines[j];
        let ghost errs_pre = errors@;
        let mut line_ok = false;
        match crate::order::find_oline(&saved.lines, d.seller_id, d.product_type, d.product_id) {
            Some(i) => {
                let l = &saved.lines[i];
                let remaining = l.qty.reserved - l.qty.paid;
                if d.quantity > remaining {
                    errors.push(ChargeLineValidateError::QtyExceedsRemaining);
                } else {
                    let unit = Dec::from_str(d.amount.unit.as_str());
                    let total = Dec::from_str(d.amount.total.as_str());
                    match (unit, total) {
                        (Ok(u), Ok(t)) => {
                            match u.checked_mul_u32(d.quantity) {
                                Some(expect) => {
                                    if !t.eq_value(&expect) {
                                        errors.push(ChargeLineValidateError::AmountMismatch);
                                    } else {
                                        line_ok = true;
                                        proof {
                                            let ghost mm = spec_parse_dec(
                                                lines@[j as int].amount.unit@,
                                            )->Ok_0.1;
                                            crate::amount::lemma_parse_dec_ok(
                                                lines@[j as int].amount.unit@,
                                            );
                                            assert(u.m == mm || u.m == -mm);
                                            assert(mm * d.quantity >= 0) by (nonlinear_arith)
                                                requires
                                                    mm >= 0,
                                                    d.quantity >= 0,
                                            ;
                                            assert((-mm) * d.quantity == -(mm * d.quantity))
                                                by (nonlinear_arith);
                                            assert(spec_claim_mul_fits(lines@[j as int]));
                                            assert(t.v9() == parsed_v9(
                                                lines@[j as int].amount.total@,
                                            ));
                                            assert(u.v9() == parsed_v9(
                                                lines@[j as int].amount.unit@,
                                            ));
                                            assert(expect.v9() == u.v9() * d.quantity);
                                            assert(spec_claim_ok(saved.lines@, lines@[j as int]));
                                        }
                                    }
                                },
                                None => {
                                    errors.push(ChargeLineValidateError::AmountMismatch);
                                    proof {
                                        let ghost mm = spec_parse_dec(
                                            lines@[j as int].amount.unit@,
                                        )->Ok_0.1;
                                        crate::amount::lemma_parse_dec_ok(
                                            lines@[j as int].amount.unit@,
                                        );
                                        assert(u.m == mm || u.m == -mm);
                                        assert(mm * d.quantity >= 0) by (nonlinear_arith)
                                            requires
                                                mm >= 0,
                                                d.quantity >= 0,
                                        ;
                                        assert((-mm) * d.quantity == -(mm * d.quantity))
                                            by (nonlinear_arith);
                                        assert(!spec_claim_mul_fits(lines@[j as int]));
                                    }
                                },
                            }
                        },
                        _ => {
                            errors.push(ChargeLineValidateError::AmountUnreadable);
                        },
                    }
                }
            },
            None => {
                errors.push(ChargeLineValidateError::LineMissing);
            },
        }
        proof {
            if line_ok {
                assert(errors@ == errs_pre);
            } else {
                assert(errors@.len() > errs_pre.len());
                assert(!spec_claim_ok(saved.lines@, lines@[j as int]));
            }
        }
        j = j + 1;
    }
    if errors.len() == 0 {
        Ok(())
    } else {
        Err(ChargeCreateUcError::ClientBadRequest(errors))
    }
}

/// The cross-check of a pulled order replica against the client's claim:
/// the replica must name the same order and owner, else the caller is not
/// authorised for it.
pub fn charge_check_owner(olines: &OrderLineModelSet, usr_id: u32, oid: &str) -> (r: Result<
    (),
    ChargeCreateUcError,
>)
    ensures
        r is Ok <==> olines.order_id@ == oid@ && olines.owner_id == usr_id,
        r is Err ==> r->Err_0 == ChargeCreateUcError::OrderOwnerMismatch,
{
    let same_oid = olines.order_id.as_str().to_owned() == oid.to_owned();
    if !same_oid || olines.owner_id != usr_id {
        Err(ChargeCreateUcError::OrderOwnerMismatch)
    } else {
        Ok(())
    }
}

/// The decision after trying the single-flight order lock: contention
/// answers the client immediately as a conflict, to retry.
pub fn charge_on_lock_acquired(success: bool) -> (r: Result<(), ChargeCreateUcError>)
    ensures
        r is Ok <==> success,
        r is Err ==> r->Err_0 == ChargeCreateUcError::LoadOrderConflict,
{
    if success {
        Ok(())
    } else {
        Err(ChargeCreateUcError::LoadOrderConflict)
    }
}


/// What a successful create-charge answers the client with: the token
/// that names the charge from now on and whether the pay-in already
/// completed in the same call.
#[derive(Clone, Debug, PartialEq, Eq)]
pub struct ChargeCreateUcResult {
    pub charge_token: String,
    pub completed: bool,
}

/// The create-charge use case: who asks and which order they pay. The
/// caller performs the repository, lock, RPC and processor calls around
/// it; the validation and every decision between those calls are the use
/// case's own functions.
#[derive(Clone, Debug, PartialEq, Eq)]
pub struct ChargeCreateUseCase {
    pub usr_id: u32,
    pub order_id: String,
}

impl ChargeCreateUseCase {
    pub fn new(usr_id: u32, order_id: String) -> (r: ChargeCreateUseCase)
        ensures
            r.usr_id == usr_id,
            r.order_id@ == order_id@,
    {
        ChargeCreateUseCase { usr_id, order_id }
    }

    /// Validates the client's claimed lines against the stored unpaid
    /// order, exactly as the stored-order path of create-charge does.
    pub fn try_load_order(&self, saved: &OrderLineModelSet, lines: &Vec<ChargeAmountOlineDto>) -> (r:
        Result<(), ChargeCreateUcError>)
        requires
            saved.wf(),
        ensures
            r is Ok <==> (forall|j: int|
                0 <= j < lines@.len() ==> spec_claim_ok(saved.lines@, #[trigger] lines@[j])),
            r is Err ==> (r->Err_0 matches ChargeCreateUcError::ClientBadRequest(es) && es@.len()
                >= 1),
    {
        charge_lines_validate(saved, lines)
    }

    /// Cross-checks a freshly pulled order replica against the claim and
    /// validates the lines, exactly as the replica path of create-charge
    /// does: an owner or order mismatch is an authorisation failure and
    /// wins over any per-line error.
    pub fn try_save_order(&self, olines: &OrderLineModelSet, lines: &Vec<ChargeAmountOlineDto>) -> (r:
        Result<(), ChargeCreateUcError>)
        requires
            olines.wf(),
        ensures
            r is Ok <==> olines.order_id@ == self.order_id@ && olines.owner_id == self.usr_id && (
            forall|j: int| 0 <= j < lines@.len() ==> spec_claim_ok(olines.lines@, #[trigger] lines@[j])),
            (olines.order_id@ != self.order_id@ || olines.owner_id != self.usr_id) ==> r
                == Err::<(), ChargeCreateUcError>(ChargeCreateUcError::OrderOwnerMismatch),
            r is Err && olines.order_id@ == self.order_id@ && olines.owner_id == self.usr_id ==> (
            r->Err_0 matches ChargeCreateUcError::ClientBadRequest(es) && es@.len() >= 1),
    {
        charge_check_owner(olines, self.usr_id, self.order_id.as_str())?;
        charge_lines_validate(olines, lines)
    }

    /// The token the new charge is answered with.
    pub fn charge_token(&self, create_time: i64) -> (r: String)
        ensures
            r@ == hex_seq(spec_token_bytes(self.usr_id, create_time)),
    {
        encode_charge_id(self.usr_id, create_time)
    }
}

/// A merchant's profile as pulled for reporting: who supervises it and
/// which staff may act for it, each within a validity window
/// (milliseconds).
#[derive(Clone, Debug, PartialEq, Eq)]
pub struct MerchantProfileModel {
    pub merchant_id: u32,
    pub supervisor_id: u32,
    pub staff: Vec<StoreStaffRepDto>,
}

impl MerchantProfileModel {
    /// Whether a user may read this merchant's reports at the given
    /// instant: its supervisor always may; staff only within their
    /// validity window.
    #[verifier::loop_isolation(false)]
    pub fn valid_staff(&self, staff_usr_id: u32, now: i64) -> (r: bool)
        ensures
            r <==> (staff_usr_id == self.supervisor_id || (exists|i: int|
                0 <= i < self.staff@.len() && (#[trigger] self.staff@[i]).staff_id == staff_usr_id
                    && self.staff@[i].start_after <= now < self.staff@[i].end_before)),
    {
        if staff_usr_id == self.supervisor_id {
            return true;
        }
        let n = self.staff.len();
        let mut i: usize = 0;
        while i < n
            invariant
                0 <= i <= n,
                forall|k: int|
                    0 <= k < i ==> !((#[trigger] self.staff@[k]).staff_id == staff_usr_id
                        && self.staff@[k].start_after <= now < self.staff@[k].end_before),
            decreases n - i,
        {
            let s = &self.staff[i];
            if s.staff_id == staff_usr_id && s.start_after <= now && now < s.end_before {
                return true;
            }
            i = i + 1;
        }
        false
    }
}

/// Why a merchant's charge report cannot be served.
#[derive(Clone, Debug, PartialEq, Eq)]
pub enum MerchantReportChargeUcError {
    DataStore(AppRepoError),
    MissingMerchant(u32),
    PermissionDenied(u32),
}

/// The reporting use case: who asks, for which merchant. The caller
/// fetches the merchant profile and the charges; the access decision and
/// the roll-up are the use case's own.
#[derive(Clone, Debug, PartialEq, Eq)]
pub struct MerchantReportChargeUseCase {
    pub authed_usr_id: u32,
}

impl MerchantReportChargeUseCase {
    pub fn new(authed_usr_id: u32) -> (r: MerchantReportChargeUseCase)
        ensures
            r.authed_usr_id == authed_usr_id,
    {
        MerchantReportChargeUseCase { authed_usr_id }
    }

    /// The access decision of the report: a missing merchant is reported
    /// as such, and a caller who is neither supervisor nor active staff
    /// is denied.
    pub fn check_access(
        &self,
        merchant_id: u32,
        merc_prof: &Option<MerchantProfileModel>,
        now: i64,
    ) -> (r: Result<(), MerchantReportChargeUcError>)
        ensures
            r is Ok <==> (merc_prof matches Some(p) && (self.authed_usr_id == p.supervisor_id || (
            exists|i: int|
                0 <= i < p.staff@.len() && (#[trigger] p.staff@[i]).staff_id == self.authed_usr_id
                    && p.staff@[i].start_after <= now < p.staff@[i].end_before))),
            r is Err ==> r->Err_0 == (if merc_prof is None {
                MerchantReportChargeUcError::MissingMerchant(merchant_id)
            } else {
                MerchantReportChargeUcError::PermissionDenied(self.authed_usr_id)
            }),
    {
        match merc_prof {
            Some(p) => {
                if p.valid_staff(self.authed_usr_id, now) {
                    Ok(())
                } else {
                    Err(MerchantReportChargeUcError::PermissionDenied(self.authed_usr_id))
                }
            },
            None => Err(MerchantReportChargeUcError::MissingMerchant(merchant_id)),
        }
    }
}

} // verus!
