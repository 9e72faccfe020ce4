use vstd::prelude::*;
use crate::charge::{BuyerPayInState, Charge3partyModel, Charge3partyStripeModel, ChargeBuyerMetaModel, ChargeLineBuyerModel};
use crate::amount::PayLineAmountModel;
use crate::error::AppErrorCode;
use crate::hexstr::{bytes_of_hex, hex_of_bytes, hex_seq, unhex_seq};
use crate::types::{BaseProductIdentity, ProductType};

verus! {

/// Which repository operation an error belongs to.
#[derive(Clone, Copy, Debug, PartialEq, Eq, Structural)]
pub enum AppRepoErrorFnLabel {
    CreateCharge,
    FetchChargeMeta,
    UpdateChargeProgress,
}

/// What exactly went wrong inside a repository operation.
#[derive(Clone, Debug, PartialEq, Eq)]
pub enum AppRepoErrorDetail {
    OrderIDparse(String),
    ChargeStatus(BuyerPayInState),
    PayMethodUnsupport(String),
    DataRowParse(String),
}

/// One repository failure: the operation, the error kind, and the detail
/// that localises it.
#[derive(Clone, Debug, PartialEq, Eq)]
pub struct AppRepoError {
    pub fn_label: AppRepoErrorFnLabel,
    pub code: AppErrorCode,
    pub detail: AppRepoErrorDetail,
}

/// The persisted image of one charge's top-level facts, column by column:
/// the order id as raw bytes, the state label with its three nullable
/// transition timestamps, the pay-method label and the processor detail
/// as opaque serialised text.
#[derive(Clone, Debug, PartialEq, Eq)]
pub struct ChargeMetaRow {
    pub oid: Vec<u8>,
    pub state_label: String,
    pub processor_accepted_time: Option<i64>,
    pub processor_completed_time: Option<i64>,
    pub orderapp_synced_time: Option<i64>,
    pub pay_method: String,
    pub detail_3rdparty: String,
}

/// The stored columns of a pay-in state: its label and the three nullable
/// transition timestamps, of which exactly the reached one is set.
pub open spec fn spec_status_columns(state: BuyerPayInState) -> (Seq<char>, Option<i64>, Option<
    i64,
>, Option<i64>) {
    match state {
        BuyerPayInState::Initialized => ("Initialized"@, None, None, None),
        BuyerPayInState::ProcessorAccepted(t) => ("ProcessorAccepted"@, Some(t), None, None),
        BuyerPayInState::ProcessorCompleted(t) => ("ProcessorCompleted"@, None, Some(t), None),
        BuyerPayInState::OrderAppSynced(t) => ("OrderAppSynced"@, None, None, Some(t)),
    }
}

/// The pay-in state the stored columns denote: the label picks the state
/// and the matching timestamp column must be set; anything else is
/// unreadable.
pub open spec fn spec_status_parse(
    label: Seq<char>,
    t_acc: Option<i64>,
    t_cmp: Option<i64>,
    t_syn: Option<i64>,
) -> Option<BuyerPayInState> {
    if label == "ProcessorAccepted"@ {
        match t_acc {
            Some(t) => Some(BuyerPayInState::ProcessorAccepted(t)),
            None => None,
        }
    } else if label == "ProcessorCompleted"@ {
        match t_cmp {
            Some(t) => Some(BuyerPayInState::ProcessorCompleted(t)),
            None => None,
        }
    } else if label == "OrderAppSynced"@ {
        match t_syn {
            Some(t) => Some(BuyerPayInState::OrderAppSynced(t)),
            None => None,
        }
    } else {
        None
    }
}

/// Writes a pay-in state as its stored columns. The initial state is
/// never stored this way and is refused as invalid input.
pub fn status_to_columns(state: &BuyerPayInState) -> (r: Result<
    (String, Option<i64>, Option<i64>, Option<i64>),
    AppRepoError,
>)
    ensures
        r is Ok <==> state.rank() >= 1,
        r is Ok ==> ({
            let cols = spec_status_columns(*state);
            &&& r->Ok_0.0@ == cols.0
            &&& r->Ok_0.1 == cols.1
            &&& r->Ok_0.2 == cols.2
            &&& r->Ok_0.3 == cols.3
        }),
        r is Err ==> r->Err_0.code == AppErrorCode::InvalidInput && r->Err_0.detail == (
        AppRepoErrorDetail::ChargeStatus(*state)) && r->Err_0.fn_label
            == AppRepoErrorFnLabel::CreateCharge,
{
    match state {
        BuyerPayInState::Initialized => Err(
            AppRepoError {
                fn_label: AppRepoErrorFnLabel::CreateCharge,
                code: AppErrorCode::InvalidInput,
                detail: AppRepoErrorDetail::ChargeStatus(*state),
            },
        ),
        BuyerPayInState::ProcessorAccepted(t) => Ok(
            (String::from_str("ProcessorAccepted"), Some(*t), None, None),
        ),
        BuyerPayInState::ProcessorCompleted(t) => Ok(
            (String::from_str("ProcessorCompleted"), None, Some(*t), None),
        ),
        BuyerPayInState::OrderAppSynced(t) => Ok(
            (String::from_str("OrderAppSynced"), None, None, Some(*t)),
        ),
    }
}

/// Reads a pay-in state back from its stored columns; a label without its
/// matching timestamp, or an unknown label, is data corruption.
pub fn status_from_columns(
    label: &str,
    t_acc: Option<i64>,
    t_cmp: Option<i64>,
    t_syn: Option<i64>,
) -> (r: Result<BuyerPayInState, (AppErrorCode, AppRepoErrorDetail)>)
    ensures
        r is Ok <==> spec_status_parse(label@, t_acc, t_cmp, t_syn) is Some,
        r is Ok ==> Some(r->Ok_0) == spec_status_parse(label@, t_acc, t_cmp, t_syn),
        r is Err ==> r->Err_0.0 == AppErrorCode::DataCorruption && (r->Err_0.1 matches
            AppRepoErrorDetail::DataRowParse(msg) && msg@ == (if label@ == "ProcessorAccepted"@ {
            "3pty-accepted-missing-time"@
        } else if label@ == "ProcessorCompleted"@ {
            "3pty-completed-missing-time"@
        } else if label@ == "OrderAppSynced"@ {
            "orderapp-synced-missing-time"@
        } else {
            "invalid-buy-in-state"@
        })),
{
    let l = label.to_owned();
    if l == String::from_str("ProcessorAccepted") {
        match t_acc {
            Some(t) => Ok(BuyerPayInState::ProcessorAccepted(t)),
            None => Err(
                (
                    AppErrorCode::DataCorruption,
                    AppRepoErrorDetail::DataRowParse(
                        String::from_str("3pty-accepted-missing-time"),
                    ),
                ),
            ),
        }
    } else if l == String::from_str("ProcessorCompleted") {
        match t_cmp {
            Some(t) => Ok(BuyerPayInState::ProcessorCompleted(t)),
            None => Err(
                (
                    AppErrorCode::DataCorruption,
                    AppRepoErrorDetail::DataRowParse(
                        String::from_str("3pty-completed-missing-time"),
                    ),
                ),
            ),
        }
    } else if l == String::from_str("OrderAppSynced") {
        match t_syn {
            Some(t) => Ok(BuyerPayInState::OrderAppSynced(t)),
            None => Err(
                (
                    AppErrorCode::DataCorruption,
                    AppRepoErrorDetail::DataRowParse(
                        String::from_str("orderapp-synced-missing-time"),
                    ),
                ),
            ),
        }
    } else {
        Err(
            (
                AppErrorCode::DataCorruption,
                AppRepoErrorDetail::DataRowParse(String::from_str("invalid-buy-in-state")),
            ),
        )
    }
}

/// Every stored pay-in state reads back exactly as it was written: the
/// label and its matching timestamp reconstruct the state, bit-exact on
/// the timestamp.
pub proof fn lemma_status_roundtrip(state: BuyerPayInState)
    requires
        state.rank() >= 1,
    ensures
        ({
            let cols = spec_status_columns(state);
            spec_status_parse(cols.0, cols.1, cols.2, cols.3) == Some(state)
        }),
{
    reveal_strlit("ProcessorAccepted");
    reveal_strlit("ProcessorCompleted");
    reveal_strlit("OrderAppSynced");
    assert("ProcessorAccepted"@.len() == 17);
    assert("ProcessorCompleted"@.len() == 18);
    assert("OrderAppSynced"@.len() == 14);
}

/// Writes the pay-method of a charge as its stored label. Only a known
/// processor can be stored; the unknown sink is refused as unsupported.
pub fn method_to_label(method: &Charge3partyModel) -> (r: Result<
    String,
    (AppErrorCode, AppRepoErrorDetail),
>)
    ensures
        r is Ok <==> method matches Charge3partyModel::Stripe(_),
        r is Ok ==> r->Ok_0@ == "Stripe"@,
        r is Err ==> r->Err_0.0 == AppErrorCode::InvalidInput && (r->Err_0.1 matches
            AppRepoErrorDetail::PayMethodUnsupport(s) && s@ == "unknown"@),
{
    match method {
        Charge3partyModel::Stripe(_) => Ok(String::from_str("Stripe")),
        Charge3partyModel::Unknown => Err(
            (
                AppErrorCode::InvalidInput,
                AppRepoErrorDetail::PayMethodUnsupport(String::from_str("unknown")),
            ),
        ),
    }
}

/// Reads the pay-method back from its stored label and the decoded
/// processor detail. The caller decodes the detail text of a Stripe row
/// beforehand and hands the outcome in. An unknown label surfaces as an
/// unsupported pay method; a Stripe label whose detail did not decode is
/// data corruption.
pub fn method_from_parts(label: &str, detail_parsed: Option<Charge3partyStripeModel>) -> (r:
    Result<Charge3partyModel, (AppErrorCode, AppRepoErrorDetail)>)
    ensures
        r is Ok <==> (label@ == "Stripe"@ && detail_parsed is Some),
        r is Ok ==> r->Ok_0 == Charge3partyModel::Stripe(detail_parsed->0),
        r is Err && label@ != "Stripe"@ ==> r->Err_0.0 == AppErrorCode::PayMethodUnsupport && (
        r->Err_0.1 matches AppRepoErrorDetail::PayMethodUnsupport(s) && s@ == label@),
        r is Err && label@ == "Stripe"@ ==> r->Err_0.0 == AppErrorCode::DataCorruption && (
        r->Err_0.1 matches AppRepoErrorDetail::DataRowParse(msg) && msg@
            == "unreadable-3pty-detail"@),
{
    let l = label.to_owned();
    if l == String::from_str("Stripe") {
        match detail_parsed {
            Some(m) => Ok(Charge3partyModel::Stripe(m)),
            None => Err(
                (
                    AppErrorCode::DataCorruption,
                    AppRepoErrorDetail::DataRowParse(String::from_str("unreadable-3pty-detail")),
                ),
            ),
        }
    } else {
        Err(
            (
                AppErrorCode::PayMethodUnsupport,
                AppRepoErrorDetail::PayMethodUnsupport(label.to_owned()),
            ),
        )
    }
}

/// Writes a charge's top-level facts as their persisted row. The order id
/// must be lower-case hex, the state must lie past the initial one, and
/// the method must name a known processor; the serialised processor
/// detail is produced by the caller and stored opaquely.
pub fn meta_to_row(meta: &ChargeBuyerMetaModel, detail_serial: String) -> (r: Result<
    ChargeMetaRow,
    AppRepoError,
>)
    ensures
        r is Ok <==> unhex_seq(meta.spec_oid()) is Some && meta.spec_state().rank() >= 1
            && meta.spec_method() matches Charge3partyModel::Stripe(_),
        r is Ok ==> ({
            let row = r->Ok_0;
            let cols = spec_status_columns(meta.spec_state());
            &&& row.oid@ == unhex_seq(meta.spec_oid())->0
            &&& row.state_label@ == cols.0
            &&& row.processor_accepted_time == cols.1
            &&& row.processor_completed_time == cols.2
            &&& row.orderapp_synced_time == cols.3
            &&& row.pay_method@ == "Stripe"@
            &&& row.detail_3rdparty == detail_serial
        }),
{
    let oid_b = match bytes_of_hex(meta.oid().as_str()) {
        Some(b) => b,
        None => {
            return Err(
                AppRepoError {
                    fn_label: AppRepoErrorFnLabel::CreateCharge,
                    code: AppErrorCode::InvalidInput,
                    detail: AppRepoErrorDetail::OrderIDparse(
                        String::from_str("order-id-not-hex"),
                    ),
                },
            );
        },
    };
    let (state_label, t_acc, t_cmp, t_syn) = status_to_columns(meta.state())?;
    let pay_method = match method_to_label(meta.method()) {
        Ok(l) => l,
        Err((code, detail)) => {
            return Err(
                AppRepoError { fn_label: AppRepoErrorFnLabel::CreateCharge, code, detail },
            );
        },
    };
    Ok(
        ChargeMetaRow {
            oid: oid_b,
            state_label,
            processor_accepted_time: t_acc,
            processor_completed_time: t_cmp,
            orderapp_synced_time: t_syn,
            pay_method,
            detail_3rdparty: detail_serial,
        },
    )
}

/// Reads a charge's top-level facts back from their persisted row, under
/// the key columns it was stored with. The caller decodes the processor
/// detail text beforehand and hands the outcome in.
pub fn row_to_meta(
    owner: u32,
    create_time: i64,
    row: &ChargeMetaRow,
    detail_parsed: Option<Charge3partyStripeModel>,
) -> (r: Result<ChargeBuyerMetaModel, (AppErrorCode, AppRepoErrorDetail)>)
    ensures
        r is Ok <==> spec_status_parse(
            row.state_label@,
            row.processor_accepted_time,
            row.processor_completed_time,
            row.orderapp_synced_time,
        ) is Some && row.pay_method@ == "Stripe"@ && detail_parsed is Some,
        r is Ok ==> ({
            let m = r->Ok_0;
            &&& m.spec_oid() == hex_seq(row.oid@)
            &&& m.spec_owner() == owner
            &&& m.spec_create_time() == create_time
            &&& Some(m.spec_state()) == spec_status_parse(
                row.state_label@,
                row.processor_accepted_time,
                row.processor_completed_time,
                row.orderapp_synced_time,
            )
            &&& m.spec_method() == Charge3partyModel::Stripe(detail_parsed->0)
        }),
        r is Err ==> r->Err_0.0 == AppErrorCode::DataCorruption || (r->Err_0.0
            == AppErrorCode::PayMethodUnsupport && spec_status_parse(
            row.state_label@,
            row.processor_accepted_time,
            row.processor_completed_time,
            row.orderapp_synced_time,
        ) is Some && row.pay_method@ != "Stripe"@),
{
    let oid = hex_of_bytes(row.oid.as_slice());
    let state = status_from_columns(
        row.state_label.as_str(),
        row.processor_accepted_time,
        row.processor_completed_time,
        row.orderapp_synced_time,
    )?;
    let method = method_from_parts(row.pay_method.as_str(), detail_parsed)?;
    let mut obj = ChargeBuyerMetaModel::from_parts(oid, owner, create_time);
    obj.update_progress(&state);
    obj.update_3party(method);
    Ok(obj)
}

/// The persisted image of one charge line, with the original and the
/// already-refunded amounts column by column.
#[derive(Clone, Debug, PartialEq, Eq)]
pub struct ChargeLineRow {
    pub store_id: u32,
    pub product_type_num: u8,
    pub product_id: u64,
    pub amt_unit: crate::amount::Dec,
    pub amt_total: crate::amount::Dec,
    pub qty: u32,
    pub rfd_unit: crate::amount::Dec,
    pub rfd_total: crate::amount::Dec,
    pub rfd_qty: u32,
}

/// Writes one charge line as its persisted row.
pub fn line_to_row(line: &ChargeLineBuyerModel) -> (r: ChargeLineRow)
    ensures
        r.store_id == line.pid.store_id,
        r.product_type_num == line.pid.product_type.spec_to_num(),
        r.product_id == line.pid.product_id,
        r.amt_unit == line.spec_amount_orig().unit,
        r.amt_total == line.spec_amount_orig().total,
        r.qty == line.spec_amount_orig().qty,
        r.rfd_unit == line.spec_amount_refunded().unit,
        r.rfd_total == line.spec_amount_refunded().total,
        r.rfd_qty == line.spec_amount_refunded().qty,
{
    let orig = line.amount_orig();
    let rfd = line.amount_refunded();
    ChargeLineRow {
        store_id: line.pid.store_id,
        product_type_num: line.pid.product_type.to_num(),
        product_id: line.pid.product_id,
        amt_unit: orig.unit,
        amt_total: orig.total,
        qty: orig.qty,
        rfd_unit: rfd.unit,
        rfd_total: rfd.total,
        rfd_qty: rfd.qty,
    }
}

/// Reads one charge line back from its persisted row; an unknown product
/// type number is data corruption.
pub fn row_to_line(row: &ChargeLineRow) -> (r: Result<
    ChargeLineBuyerModel,
    (AppErrorCode, AppRepoErrorDetail),
>)
    ensures
        r is Ok <==> (row.product_type_num == 1 || row.product_type_num == 2),
        r is Ok ==> ({
            let line = r->Ok_0;
            &&& line.pid == (BaseProductIdentity {
                store_id: row.store_id,
                product_type: ProductType::spec_from_num(row.product_type_num),
                product_id: row.product_id,
            })
            &&& line.spec_amount_orig() == (PayLineAmountModel {
                unit: row.amt_unit,
                total: row.amt_total,
                qty: row.qty,
            })
            &&& line.spec_amount_refunded() == (PayLineAmountModel {
                unit: row.rfd_unit,
                total: row.rfd_total,
                qty: row.rfd_qty,
            })
        }),
        r is Err ==> r->Err_0.0 == AppErrorCode::DataCorruption,
{
    let product_type = match crate::types::validate_product_type(row.product_type_num) {
        Ok(t) => t,
        Err(_) => {
            return Err(
                (
                    AppErrorCode::DataCorruption,
                    AppRepoErrorDetail::DataRowParse(String::from_str("invalid-product-type")),
                ),
            );
        },
    };
    let pid = BaseProductIdentity {
        store_id: row.store_id,
        product_type,
        product_id: row.product_id,
    };
    let amount_orig = PayLineAmountModel { unit: row.amt_unit, total: row.amt_total, qty: row.qty };
    let amount_refunded = PayLineAmountModel {
        unit: row.rfd_unit,
        total: row.rfd_total,
        qty: row.rfd_qty,
    };
    Ok(ChargeLineBuyerModel::from_parts(pid, amount_orig, amount_refunded))
}

/// Every stored charge line reads back exactly as it was written: the
/// product identity and both amounts survive the row unchanged.
pub proof fn lemma_line_roundtrip(pt: ProductType)
    requires
        pt == ProductType::Item || pt == ProductType::Package,
    ensures
        ProductType::spec_from_num(pt.spec_to_num()) == pt,
{
}


/// A stored charge survives the row unchanged: the state columns read
/// back to the same state, and the order-id text written from the stored
/// bytes is the text the bytes were read from.
pub proof fn lemma_charge_meta_roundtrip(state: BuyerPayInState, oid_text: Seq<char>)
    requires
        state.rank() >= 1,
        unhex_seq(oid_text) is Some,
    ensures
        ({
            let cols = spec_status_columns(state);
            spec_status_parse(cols.0, cols.1, cols.2, cols.3) == Some(state)
        }),
        hex_seq(unhex_seq(oid_text)->0) =~= oid_text,
{
    lemma_status_roundtrip(state);
    crate::hexstr::lemma_hex_unhex(oid_text);
}

} // verus!
