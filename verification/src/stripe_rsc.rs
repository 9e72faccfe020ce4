use vstd::prelude::*;
use crate::amount::{amount_represent_grain, grain_e8, Dec, PayLineAmountError};
use crate::charge::{Charge3partyStripeModel, ChargeLineBuyerModel, StripeAccountCapableState, StripeAccountCapabilityModel};
use crate::dto::{
    ShopLocationRepDto, StoreOnboardStripeReqDto, StoreProfileReplicaDto, StripeCheckoutUImodeDto,
};
use crate::types::{CountryCode, CurrencyDto};

verus! {

/// Why a processor call could not even be prepared.
#[derive(Clone, Debug, PartialEq, Eq)]
pub enum AppProcessorErrorReason {
    InvalidStoreProfileDto(Vec<String>),
    AmountOverflow(PayLineAmountError),
    ThirdParty(String),
}

/// Mode of a processor checkout session; only plain payment is used.
#[derive(Clone, Copy, Debug, PartialEq, Eq, Structural)]
pub enum CheckoutSessionMode {
    Payment,
}

/// Which checkout surface the session is prepared for.
#[derive(Clone, Copy, Debug, PartialEq, Eq, Structural)]
pub enum CheckoutSessionUiMode {
    Embedded,
    Hosted,
}

impl CheckoutSessionUiMode {
    /// The surface a client request asks for.
    pub fn from_dto(value: &StripeCheckoutUImodeDto) -> (r: CheckoutSessionUiMode)
        ensures
            r == (match *value {
                StripeCheckoutUImodeDto::EmbeddedJs => CheckoutSessionUiMode::Embedded,
                StripeCheckoutUImodeDto::RedirectPage => CheckoutSessionUiMode::Hosted,
            }),
    {
        match value {
            StripeCheckoutUImodeDto::EmbeddedJs => CheckoutSessionUiMode::Embedded,
            StripeCheckoutUImodeDto::RedirectPage => CheckoutSessionUiMode::Hosted,
        }
    }
}

/// Group tag of a separate-charge payment, for later payout accounting.
#[derive(Clone, Debug, PartialEq, Eq)]
pub struct CreateCheckoutSessionPaymentIntentData {
    pub transfer_group: Option<String>,
}

#[derive(Clone, Debug, PartialEq, Eq)]
pub struct CreateCheckoutSessionProductData {
    pub name: String,
}

/// Price of one checkout line: the unit amount is carried as the
/// fixed-point grain count of the amount model and rendered to the
/// processor's decimal text at the wire boundary.
#[derive(Clone, Debug, PartialEq, Eq)]
pub struct CreateCheckoutSessionPriceData {
    pub product_data: CreateCheckoutSessionProductData,
    pub currency: CurrencyDto,
    pub unit_amount_grain: i64,
}

impl CreateCheckoutSessionPriceData {
    /// Prices one charge line for the checkout session; an amount beyond
    /// the processor's 64-bit fixed-point range fails as overflow.
    pub fn new(
        cline: &ChargeLineBuyerModel,
        currency_label: CurrencyDto,
        product_name: String,
    ) -> (r: Result<CreateCheckoutSessionPriceData, PayLineAmountError>)
        requires
            cline.spec_amount_orig().unit.wf(),
        ensures
            r is Ok <==> -0x7fffffffffffffff <= grain_e8(
                cline.spec_amount_orig().unit,
                currency_label.spec_fraction_scale(),
            ) <= 0x7fffffffffffffff,
            r is Ok ==> r->Ok_0.unit_amount_grain == grain_e8(
                cline.spec_amount_orig().unit,
                currency_label.spec_fraction_scale(),
            ) && r->Ok_0.currency == currency_label && r->Ok_0.product_data.name == product_name,
    {
        let amt_unit_represent = amount_represent_grain(&cline.amount_orig().unit, currency_label)?;
        Ok(
            CreateCheckoutSessionPriceData {
                product_data: CreateCheckoutSessionProductData { name: product_name },
                currency: currency_label,
                unit_amount_grain: amt_unit_represent,
            },
        )
    }
}

/// One checkout line: its price data and the quantity bought.
#[derive(Clone, Debug, PartialEq, Eq)]
pub struct CreateCheckoutSessionLineItem {
    pub price_data: CreateCheckoutSessionPriceData,
    pub quantity: u32,
}

impl CreateCheckoutSessionLineItem {
    pub fn from_parts(
        currency_label: CurrencyDto,
        cline: &ChargeLineBuyerModel,
        product_name: String,
    ) -> (r: Result<CreateCheckoutSessionLineItem, PayLineAmountError>)
        requires
            cline.spec_amount_orig().unit.wf(),
        ensures
            r is Ok <==> -0x7fffffffffffffff <= grain_e8(
                cline.spec_amount_orig().unit,
                currency_label.spec_fraction_scale(),
            ) <= 0x7fffffffffffffff,
            r is Ok ==> r->Ok_0.quantity == cline.spec_amount_orig().qty
                && r->Ok_0.price_data.currency == currency_label
                && r->Ok_0.price_data.unit_amount_grain == grain_e8(
                cline.spec_amount_orig().unit,
                currency_label.spec_fraction_scale(),
            ),
    {
        let quantity = cline.amount_orig().qty;
        let price_data = CreateCheckoutSessionPriceData::new(cline, currency_label, product_name)?;
        Ok(CreateCheckoutSessionLineItem { price_data, quantity })
    }
}

/// Kind of processor account opened for a merchant.
#[derive(Clone, Copy, Debug, PartialEq, Eq, Structural)]
pub enum ConnectAccountType {
    express,
}

impl Default for ConnectAccountType {
    fn default() -> (r: ConnectAccountType)
        ensures
            r == ConnectAccountType::express,
    {
        ConnectAccountType::express
    }
}

#[derive(Clone, Copy, Debug, PartialEq, Eq, Structural)]
pub struct AccountCapabilityReqFlag {
    pub requested: bool,
}

#[derive(Clone, Copy, Debug, PartialEq, Eq, Structural)]
pub struct AccountCapabilityRequest {
    pub transfers: AccountCapabilityReqFlag,
}

impl Default for AccountCapabilityRequest {
    /// Transfers are the one capability asked of every merchant account.
    fn default() -> (r: AccountCapabilityRequest)
        ensures
            r.transfers.requested,
    {
        AccountCapabilityRequest { transfers: AccountCapabilityReqFlag { requested: true } }
    }
}

/// Support address of a merchant's business profile; the street and the
/// floor number are kept apart and joined at the wire boundary.
#[derive(Clone, Debug, PartialEq, Eq)]
pub struct AccountBusinessAddress {
    pub country: CountryCode,
    pub city: String,
    pub street: String,
    pub floor: i16,
    pub line2: String,
}

impl AccountBusinessAddress {
    pub fn from_dto(value: ShopLocationRepDto) -> (r: AccountBusinessAddress)
        ensures
            r.country == value.country,
            r.city == value.locality,
            r.street == value.street,
            r.floor == value.floor,
            r.line2 == value.detail,
    {
        let ShopLocationRepDto { country, locality, street, detail, floor } = value;
        AccountBusinessAddress { country, city: locality, street, floor, line2: detail }
    }
}

#[derive(Clone, Debug, PartialEq, Eq)]
pub struct AccountBusinessProfile {
    pub name: String,
    pub support_address: AccountBusinessAddress,
    pub support_email: String,
    pub support_phone: String,
}

impl AccountBusinessProfile {
    pub fn from_parts(
        name: String,
        support_email: String,
        support_phone: String,
        location: ShopLocationRepDto,
    ) -> (r: AccountBusinessProfile)
        ensures
            r.name == name,
            r.support_email == support_email,
            r.support_phone == support_phone,
            r.support_address.country == location.country,
    {
        let support_address = AccountBusinessAddress::from_dto(location);
        AccountBusinessProfile { name, support_address, support_email, support_phone }
    }
}

#[derive(Clone, Debug, PartialEq, Eq)]
pub struct AccountRequirement {
    pub currently_due: Vec<String>,
    pub disabled_reason: Option<String>,
}

#[derive(Clone, Debug, PartialEq, Eq)]
pub struct AccountToSAccept {
    pub date: Option<i64>,
    pub service_agreement: String,
}

impl Default for AccountToSAccept {
    /// A recipient agreement, not yet accepted.
    fn default() -> (r: AccountToSAccept)
        ensures
            r.date is None,
            r.service_agreement@ == "recipient"@,
    {
        AccountToSAccept { date: None, service_agreement: String::from_str("recipient") }
    }
}

#[derive(Clone, Debug, PartialEq, Eq)]
pub struct AccountPayoutSchedule {
    pub delay_days: i16,
    pub interval: String,
}

impl Default for AccountPayoutSchedule {
    /// Daily payouts, held for a week.
    fn default() -> (r: AccountPayoutSchedule)
        ensures
            r.delay_days == 7,
            r.interval@ == "daily"@,
    {
        AccountPayoutSchedule { delay_days: 7, interval: String::from_str("daily") }
    }
}

#[derive(Clone, Debug, PartialEq, Eq)]
pub struct AccountSettingPayout {
    pub schedule: AccountPayoutSchedule,
    pub debit_negative_balances: bool,
}

impl Default for AccountSettingPayout {
    fn default() -> (r: AccountSettingPayout)
        ensures
            r.schedule.delay_days == 7,
            !r.debit_negative_balances,
    {
        AccountSettingPayout { schedule: AccountPayoutSchedule::default(), debit_negative_balances: false }
    }
}

#[derive(Clone, Debug, PartialEq, Eq)]
pub struct AccountSettings {
    pub payouts: AccountSettingPayout,
}

impl Default for AccountSettings {
    fn default() -> (r: AccountSettings)
        ensures
            r.payouts.schedule.delay_days == 7,
    {
        AccountSettings { payouts: AccountSettingPayout::default() }
    }
}

/// The request that opens a processor account for one merchant.
#[derive(Clone, Debug, PartialEq, Eq)]
pub struct CreateConnectAccount {
    pub type_: ConnectAccountType,
    pub country: CountryCode,
    pub email: String,
    pub capabilities: AccountCapabilityRequest,
    pub business_profile: AccountBusinessProfile,
    pub tos_acceptance: AccountToSAccept,
    pub settings: AccountSettings,
}

/// The defect tags an unusable store replica is reported with, in the
/// order the checks run.
pub open spec fn spec_profile_tags(v: StoreProfileReplicaDto) -> Seq<Seq<char>> {
    (if !v.active {
        seq!["not-active"@]
    } else {
        Seq::empty()
    }) + (if v.label@.len() == 0 {
        seq!["label-empty"@]
    } else {
        Seq::empty()
    }) + (if !(v.emails is Some && v.emails->0@.len() > 0) {
        seq!["missing-email"@]
    } else {
        Seq::empty()
    }) + (if !(v.phones is Some && v.phones->0@.len() > 0) {
        seq!["missing-phone"@]
    } else {
        Seq::empty()
    }) + (if v.location is None {
        seq!["missing-location-addr"@]
    } else {
        Seq::empty()
    })
}

/// Whether a store replica can be onboarded at all: it is active, named,
/// and carries at least one email, one phone and a location.
pub open spec fn store_profile_ok(v: StoreProfileReplicaDto) -> bool {
    &&& v.active
    &&& v.label@.len() > 0
    &&& v.emails is Some && v.emails->0@.len() > 0
    &&& v.phones is Some && v.phones->0@.len() > 0
    &&& v.location is Some
}

impl CreateConnectAccount {
    /// Builds the account-opening request from a store replica. Every
    /// defect of the replica is reported together: an inactive store, an
    /// empty label, a missing email, a missing phone, a missing address.
    /// The first email becomes the account email, the second (or the
    /// first again) the support email, and the first phone joins its
    /// number and country code for support.
    pub fn try_from_dto(value: StoreProfileReplicaDto) -> (r: Result<
        CreateConnectAccount,
        AppProcessorErrorReason,
    >)
        ensures
            r is Ok <==> store_profile_ok(value),
            r is Ok ==> ({
                let out = r->Ok_0;
                &&& out.type_ == ConnectAccountType::express
                &&& out.country == value.location->0.country
                &&& out.email == value.emails->0@[0].addr
                &&& out.capabilities.transfers.requested
                &&& out.tos_acceptance.date is None
                &&& out.business_profile.name == value.label
                &&& out.business_profile.support_email == (if value.emails->0@.len() > 1 {
                    value.emails->0@[1].addr
                } else {
                    value.emails->0@[0].addr
                })
                &&& out.business_profile.support_phone@ == value.phones->0@[0].line_number@ + "-"@
                    + value.phones->0@[0].country_code@
                &&& out.business_profile.support_address.country == value.location->0.country
            }),
            r is Err ==> (r->Err_0 matches AppProcessorErrorReason::InvalidStoreProfileDto(es)
                && es@.map_values(|t: String| t@) =~= spec_profile_tags(value) && es@.len() > 0),
    {
        let StoreProfileReplicaDto { label, active, supervisor_id: _, emails, phones, location, staff: _ } =
            value;
        let mut err_detail: Vec<String> = Vec::new();
        if !active {
            err_detail.push(String::from_str("not-active"));
        }
        if label.as_str().is_empty() {
            err_detail.push(String::from_str("label-empty"));
        }
        let emails_ok: bool = match &emails {
            Some(ems) => ems.len() > 0,
            None => false,
        };
        if !emails_ok {
            err_detail.push(String::from_str("missing-email"));
        }
        let phones_ok: bool = match &phones {
            Some(phs) => phs.len() > 0,
            None => false,
        };
        if !phones_ok {
            err_detail.push(String::from_str("missing-phone"));
        }
        if location.is_none() {
            err_detail.push(String::from_str("missing-location-addr"));
        }
        if err_detail.len() == 0 {
            let ems = match emails {
                Some(v) => v,
                None => {
                    proof {
                        assert(false);
                    }
                    Vec::new()
                },
            };
            let phs = match phones {
                Some(v) => v,
                None => {
                    proof {
                        assert(false);
                    }
                    Vec::new()
                },
            };
            let loc = match location {
                Some(v) => v,
                None => {
                    proof {
                        assert(false);
                    }
                    ShopLocationRepDto {
                        country: CountryCode::Unknown,
                        locality: String::new(),
                        street: String::new(),
                        detail: String::new(),
                        floor: 0,
                    }
                },
            };
            let country = loc.country;
            let email = ems[0].addr.clone();
            let email2 = if ems.len() > 1 {
                ems[1].addr.clone()
            } else {
                email.clone()
            };
            let phone = phs[0].line_number.clone().concat("-").concat(
                phs[0].country_code.as_str(),
            );
            let business_profile = AccountBusinessProfile::from_parts(label, email2, phone, loc);
            Ok(
                CreateConnectAccount {
                    type_: ConnectAccountType::default(),
                    country,
                    email,
                    capabilities: AccountCapabilityRequest::default(),
                    tos_acceptance: AccountToSAccept::default(),
                    business_profile,
                    settings: AccountSettings::default(),
                },
            )
        } else {
            proof {
                assert(err_detail@.map_values(|t: String| t@) =~= spec_profile_tags(value));
            }
            Err(AppProcessorErrorReason::InvalidStoreProfileDto(err_detail))
        }
    }
}

/// A merchant's processor account as the processor reports it back.
#[derive(Clone, Debug, PartialEq, Eq)]
pub struct ConnectAccount {
    pub id: String,
    pub type_: ConnectAccountType,
    pub country: CountryCode,
    pub email: Option<String>,
    pub capabilities: StripeAccountCapabilityModel,
    pub requirements: AccountRequirement,
    pub tos_acceptance: AccountToSAccept,
    pub charges_enabled: bool,
    pub payouts_enabled: bool,
    pub details_submitted: bool,
    pub created: i64,
    pub settings: AccountSettings,
}

impl ConnectAccount {
    /// Whether the merchant has finished onboarding: details submitted,
    /// payouts enabled, terms accepted, and the transfers capability
    /// active.
    pub fn onboarding_complete(&self) -> (r: bool)
        ensures
            r <==> (self.details_submitted && self.payouts_enabled && self.tos_acceptance.date
                is Some && self.capabilities.transfers == StripeAccountCapableState::active),
    {
        let tx_active: bool = match self.capabilities.transfers {
            StripeAccountCapableState::active => true,
            _ => false,
        };
        self.details_submitted && self.payouts_enabled && self.tos_acceptance.date.is_some()
            && tx_active
    }
}

/// Kind of onboarding link asked from the processor.
#[derive(Clone, Copy, Debug, PartialEq, Eq, Structural)]
pub enum AccountLinkType {
    account_onboarding,
}

impl Default for AccountLinkType {
    fn default() -> (r: AccountLinkType)
        ensures
            r == AccountLinkType::account_onboarding,
    {
        AccountLinkType::account_onboarding
    }
}

/// The request for a merchant's onboarding link.
#[derive(Clone, Debug, PartialEq, Eq)]
pub struct CreateAccountLink {
    pub refresh_url: String,
    pub return_url: String,
    pub account: String,
    pub type_: AccountLinkType,
}

impl CreateAccountLink {
    pub fn from_parts(req: StoreOnboardStripeReqDto, account: &str) -> (r: CreateAccountLink)
        ensures
            r.refresh_url == req.refresh_url,
            r.return_url == req.return_url,
            r.account@ == account@,
            r.type_ == AccountLinkType::account_onboarding,
    {
        let StoreOnboardStripeReqDto { refresh_url, return_url } = req;
        CreateAccountLink {
            refresh_url,
            return_url,
            account: account.to_owned(),
            type_: AccountLinkType::default(),
        }
    }
}

/// The onboarding link the processor answers with.
#[derive(Clone, Debug, PartialEq, Eq)]
pub struct AccountLink {
    pub expires_at: i64,
    pub url: String,
}

/// The merchant-side payout facts a transfer is drawn from.
#[derive(Clone, Debug, PartialEq, Eq)]
pub struct PayoutInnerModel {
    pub merchant_id: u32,
    pub amount_base: Dec,
}

impl PayoutInnerModel {
    pub fn amount_base(&self) -> (r: Dec)
        ensures
            r == self.amount_base,
    {
        self.amount_base
    }
}

/// Processor-side identifiers of a merchant payout.
#[derive(Clone, Debug, PartialEq, Eq)]
pub struct Payout3partyStripeModel {
    pub connect_account: String,
    pub transfer_group: String,
}

impl Payout3partyStripeModel {
    pub fn connect_account(&self) -> (r: &String)
        ensures
            r == &self.connect_account,
    {
        &self.connect_account
    }

    pub fn transfer_group(&self) -> (r: &String)
        ensures
            r == &self.transfer_group,
    {
        &self.transfer_group
    }
}

/// A fund movement to one merchant's account, in settlement currency
/// minor units.
#[derive(Clone, Debug, PartialEq, Eq)]
pub struct CreateTransfer {
    pub currency: CurrencyDto,
    pub destination: String,
    pub amount: i64,
    pub transfer_group: String,
}

impl CreateTransfer {
    /// Draws a transfer from a payout: the base amount converts to the
    /// settlement currency's fixed-point form; an amount beyond the
    /// 64-bit range fails as overflow. The grain count is truncated to
    /// whole minor units for the wire.
    pub fn try_from_parts(pm: &PayoutInnerModel, p3pt: &Payout3partyStripeModel) -> (r: Result<
        CreateTransfer,
        AppProcessorErrorReason,
    >)
        requires
            pm.amount_base.wf(),
        ensures
            r is Ok <==> -0x7fffffffffffffff <= grain_e8(
                pm.amount_base,
                CurrencyDto::USD.spec_fraction_scale(),
            ) <= 0x7fffffffffffffff,
            r is Ok ==> r->Ok_0.currency == CurrencyDto::USD && r->Ok_0.amount == grain_to_minor(
                grain_e8(pm.amount_base, CurrencyDto::USD.spec_fraction_scale()),
            ) && r->Ok_0.destination == p3pt.connect_account
                && r->Ok_0.transfer_group == p3pt.transfer_group,
            r is Err ==> r->Err_0 matches AppProcessorErrorReason::AmountOverflow(_),
    {
        let grain = match amount_represent_grain(&pm.amount_base, CurrencyDto::USD) {
            Ok(v) => v,
            Err(e) => {
                return Err(AppProcessorErrorReason::AmountOverflow(e));
            },
        };
        let amount = truncate_grain(grain);
        Ok(
            CreateTransfer {
                amount,
                currency: CurrencyDto::USD,
                destination: p3pt.connect_account().clone(),
                transfer_group: p3pt.transfer_group().clone(),
            },
        )
    }
}

/// Whole minor units of a grain count, rounded toward zero.
pub open spec fn grain_to_minor(g: int) -> int {
    crate::amount::trunc_div(g, 100000000)
}

/// Truncates a fixed-point grain count to whole minor units.
pub fn truncate_grain(g: i64) -> (r: i64)
    ensures
        r == grain_to_minor(g as int),
{
    let gi: i128 = g as i128;
    let q: i128 = if gi >= 0 {
        gi / 100000000
    } else {
        -((-gi) / 100000000)
    };
    q as i64
}

/// A transfer as the processor reports it back.
#[derive(Clone, Debug, PartialEq, Eq)]
pub struct Transfer {
    pub id: String,
    pub destination: String,
    pub amount: i64,
    pub transfer_group: String,
}

impl Transfer {
    /// The reported minor-unit amount as a decimal value at the
    /// settlement currency's scale.
    pub fn amount_decimal(&self) -> (r: Dec)
        ensures
            r.m == self.amount && r.e == CurrencyDto::USD.spec_fraction_scale(),
    {
        let scale = CurrencyDto::USD.amount_fraction_scale();
        Dec::new(self.amount, scale)
    }
}

/// Why a refund is sent to the processor.
#[derive(Clone, Copy, Debug, PartialEq, Eq, Structural)]
pub enum RefundReason {
    requested_by_customer,
}

/// State of a processor-side refund.
#[derive(Clone, Copy, Debug, PartialEq, Eq, Structural)]
pub enum RefundStatus {
    pending,
    requires_action,
    succeeded,
    failed,
    canceled,
}

impl RefundStatus {
    /// Stable label of the status, used in diagnostics.
    pub fn label(&self) -> (r: &'static str)
        ensures
            r@ == self.spec_label(),
    {
        match self {
            RefundStatus::pending => "pending",
            RefundStatus::requires_action => "requires_action",
            RefundStatus::succeeded => "succeeded",
            RefundStatus::failed => "failed",
            RefundStatus::canceled => "canceled",
        }
    }

    pub open spec fn spec_label(self) -> Seq<char> {
        match self {
            RefundStatus::pending => "pending"@,
            RefundStatus::requires_action => "requires_action"@,
            RefundStatus::succeeded => "succeeded"@,
            RefundStatus::failed => "failed"@,
            RefundStatus::canceled => "canceled"@,
        }
    }
}

/// A refund sent to the processor: whole minor units of the buyer's
/// currency, rounded toward zero.
#[derive(Clone, Debug, PartialEq, Eq)]
pub struct CreateRefund {
    pub payment_intent: String,
    pub amount_minor: i64,
    pub reason: RefundReason,
}

impl CreateRefund {
    /// Draws a refund from the current round's resolved total: the charge
    /// must carry its payment intent, and the amount must fit the 64-bit
    /// fixed-point range.
    pub fn try_from_parts(
        currency_label: CurrencyDto,
        amt_orig: &Dec,
        chrg_3pty: &Charge3partyStripeModel,
    ) -> (r: Result<CreateRefund, AppProcessorErrorReason>)
        requires
            amt_orig.wf(),
        ensures
            r is Ok <==> chrg_3pty.payment_intent_id@.len() > 0 && -0x7fffffffffffffff <= grain_e8(
                *amt_orig,
                currency_label.spec_fraction_scale(),
            ) <= 0x7fffffffffffffff,
            r is Ok ==> r->Ok_0.payment_intent == chrg_3pty.payment_intent_id
                && r->Ok_0.amount_minor == grain_to_minor(
                grain_e8(*amt_orig, currency_label.spec_fraction_scale()),
            ) && r->Ok_0.reason == RefundReason::requested_by_customer,
            r is Err && chrg_3pty.payment_intent_id@.len() == 0 ==> (r->Err_0 matches
                AppProcessorErrorReason::ThirdParty(msg) && msg@ == "missing-payment-intent"@),
            r is Err && chrg_3pty.payment_intent_id@.len() > 0 ==> r->Err_0 matches
                AppProcessorErrorReason::AmountOverflow(_),
    {
        if chrg_3pty.payment_intent_id.as_str().is_empty() {
            return Err(
                AppProcessorErrorReason::ThirdParty(String::from_str("missing-payment-intent")),
            );
        }
        let grain = match amount_represent_grain(amt_orig, currency_label) {
            Ok(v) => v,
            Err(e) => {
                return Err(AppProcessorErrorReason::AmountOverflow(e));
            },
        };
        Ok(
            CreateRefund {
                payment_intent: chrg_3pty.payment_intent_id.clone(),
                amount_minor: truncate_grain(grain),
                reason: RefundReason::requested_by_customer,
            },
        )
    }
}

/// A refund as the processor reports it back.
#[derive(Clone, Debug, PartialEq, Eq)]
pub struct RefundResult {
    pub id: String,
    pub amount: i64,
    pub reason: RefundReason,
    pub payment_intent: String,
    pub status: RefundStatus,
}

impl RefundResult {
    /// Validates the processor's reply against the request that was sent:
    /// the refund must carry an id, answer the same payment intent, and
    /// have succeeded; anything else is a third-party fault naming what
    /// was wrong.
    pub fn validate(&self, req: &CreateRefund) -> (r: Result<(), AppProcessorErrorReason>)
        ensures
            r is Ok <==> self.id@.len() > 0 && self.payment_intent@ == req.payment_intent@
                && self.status == RefundStatus::succeeded,
            r is Err ==> (r->Err_0 matches AppProcessorErrorReason::ThirdParty(msg) && msg@ == (
            if self.id@.len() == 0 {
                "missing-refund-id"@
            } else if self.payment_intent@ != req.payment_intent@ {
                "corrupted-payment-intent:"@ + self.payment_intent@
            } else {
                "refund-status:"@ + self.status.spec_label()
            })),
    {
        if self.id.as_str().is_empty() {
            return Err(AppProcessorErrorReason::ThirdParty(String::from_str("missing-refund-id")));
        }
        if !(self.payment_intent == req.payment_intent) {
            let msg = String::from_str("corrupted-payment-intent:").concat(
                self.payment_intent.as_str(),
            );
            return Err(AppProcessorErrorReason::ThirdParty(msg));
        }
        let ok: bool = match self.status {
            RefundStatus::succeeded => true,
            _ => false,
        };
        if !ok {
            let msg = String::from_str("refund-status:").concat(self.status.label());
            return Err(AppProcessorErrorReason::ThirdParty(msg));
        }
        Ok(())
    }
}

} // verus!
