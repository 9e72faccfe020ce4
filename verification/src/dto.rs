use vstd::prelude::*;
use crate::types::{CountryCode, ProductType};

verus! {

// ---------------------------------------------------------------------
// shared billing / contact payloads
// ---------------------------------------------------------------------
/// Amount of one order line as the order service replicates it: price of
/// one unit and the line total, in the order's currency minor-free form.
#[derive(Clone, Copy, Debug, PartialEq, Eq, Structural)]
pub struct PayAmountDto {
    pub unit: u32,
    pub total: u32,
}

/// Reply detail for a numeric field that fell outside its allowed range.
#[derive(Clone, Copy, Debug, PartialEq, Eq, Structural)]
pub struct GenericRangeErrorDto {
    pub max_: u16,
    pub min_: u16,
    pub given: u32,
}

#[derive(Clone, Debug, PartialEq, Eq)]
pub struct PhoneNumberDto {
    pub nation: u16,
    pub number: String,
}

#[derive(Clone, Debug, PartialEq, Eq)]
pub struct ContactDto {
    pub first_name: String,
    pub last_name: String,
    pub emails: Vec<String>,
    pub phones: Vec<PhoneNumberDto>,
}

#[derive(Clone, Debug, PartialEq, Eq)]
pub struct PhyAddrDto {
    pub country: CountryCode,
    pub region: String,
    pub city: String,
    pub distinct: String,
    pub street_name: Option<String>,
    pub detail: String,
}

#[derive(Clone, Debug, PartialEq, Eq)]
pub struct BillingDto {
    pub contact: ContactDto,
    pub address: Option<PhyAddrDto>,
}

/// One order line replicated to the payment service when a charge is
/// created. `reserved_until` is an RFC 3339 timestamp.
#[derive(Clone, Debug, PartialEq, Eq)]
pub struct OrderLinePayDto {
    pub seller_id: u32,
    pub product_id: u64,
    pub product_type: ProductType,
    pub reserved_until: String,
    pub quantity: u32,
    pub amount: PayAmountDto,
}

// ---------------------------------------------------------------------
// product price editing
// ---------------------------------------------------------------------
/// Value of one product attribute, as the storefront sends it.
#[derive(Clone, Debug, PartialEq, Eq)]
pub enum ProdAttrValueDto {
    Int(i32),
    Str(String),
    Bool(bool),
}

/// Extra charge of one attribute choice on top of a base price.
#[derive(Clone, Debug, PartialEq, Eq)]
pub struct ProdAttrPriceItemDto {
    pub label_id: String,
    pub value: ProdAttrValueDto,
    pub price: i32,
}

/// Full attribute-pricing set of one product, replacing whatever was
/// stored before; `last_update` is a millisecond timestamp.
#[derive(Clone, Debug, PartialEq, Eq)]
pub struct ProdAttrPriceSetDto {
    pub extra_charge: Vec<ProdAttrPriceItemDto>,
    pub last_update: i64,
}

/// One product price to create or update. The two bounds are millisecond
/// timestamps delimiting when the price is in force.
#[derive(Clone, Debug, PartialEq, Eq)]
pub struct ProductPriceEditDto {
    pub price: u32,
    pub start_after: i64,
    pub end_before: i64,
    pub product_type: ProductType,
    pub product_id: u64,
    pub attributes: ProdAttrPriceSetDto,
}

/// Which price entries of one store to drop.
#[derive(Clone, Debug, PartialEq, Eq)]
pub struct ProductPriceDeleteDto {
    pub items: Option<Vec<u64>>,
    pub pkgs: Option<Vec<u64>>,
    pub item_type: ProductType,
    pub pkg_type: ProductType,
}

/// One store's full price-edit request.
#[derive(Clone, Debug, PartialEq, Eq)]
pub struct ProductPriceDto {
    pub s_id: u32,
    pub rm_all: bool,
    pub deleting: ProductPriceDeleteDto,
    pub updating: Vec<ProductPriceEditDto>,
    pub creating: Vec<ProductPriceEditDto>,
}

// ---------------------------------------------------------------------
// stock level
// ---------------------------------------------------------------------
/// Inventory edit pushed by the inventory application; a negative
/// `qty_add` cancels stock. `expiry` is a millisecond timestamp.
#[derive(Clone, Debug, PartialEq, Eq, Structural)]
pub struct InventoryEditStockLevelDto {
    pub qty_add: i32,
    pub store_id: u32,
    pub product_type: ProductType,
    pub product_id: u64,
    pub expiry: i64,
}

#[derive(Clone, Copy, Debug, PartialEq, Eq, Structural)]
pub struct StockQuantityPresentDto {
    pub total: u32,
    pub booked: u32,
    pub cancelled: u32,
}

#[derive(Clone, Debug, PartialEq, Eq, Structural)]
pub struct StockLevelPresentDto {
    pub quantity: StockQuantityPresentDto,
    pub store_id: u32,
    pub product_type: ProductType,
    pub product_id: u64,
    pub expiry: i64,
}

/// One returned quantity of one product, bound for a stock bucket of the
/// given expiry.
#[derive(Clone, Debug, PartialEq, Eq, Structural)]
pub struct StockReturnItemDto {
    pub store_id: u32,
    pub product_type: ProductType,
    pub product_id: u64,
    pub expiry: i64,
    pub qty: u32,
}

/// Stock handed back from an order: the unpaid or refunded quantities.
#[derive(Clone, Debug, PartialEq, Eq)]
pub struct StockLevelReturnDto {
    pub order_id: String,
    pub items: Vec<StockReturnItemDto>,
}

#[derive(Clone, Copy, Debug, PartialEq, Eq, Structural)]
pub enum StockReturnErrorReason {
    NotExist,
    InvalidQuantity,
}

#[derive(Clone, Debug, PartialEq, Eq, Structural)]
pub struct StockReturnErrorDto {
    pub seller_id: u32,
    pub product_id: u64,
    pub product_type: ProductType,
    pub reason: StockReturnErrorReason,
}

// ---------------------------------------------------------------------
// order line creation / payment update
// ---------------------------------------------------------------------
#[derive(Clone, Copy, Debug, PartialEq, Eq, Structural)]
pub enum OrderLineCreateErrorReason {
    NotEnoughStock,
    NotExist,
}

#[derive(Clone, Debug, PartialEq, Eq, Structural)]
pub struct OrderLineCreateErrorDto {
    pub seller_id: u32,
    pub product_id: u64,
    pub product_type: ProductType,
    pub reason: OrderLineCreateErrorReason,
}

/// Quantity of one order line newly paid, with the payment time in
/// milliseconds.
#[derive(Clone, Debug, PartialEq, Eq, Structural)]
pub struct OrderLinePaidUpdateDto {
    pub seller_id: u32,
    pub product_type: ProductType,
    pub product_id: u64,
    pub qty: u32,
    pub time: i64,
}

#[derive(Clone, Debug, PartialEq, Eq)]
pub struct OrderPaymentUpdateDto {
    pub oid: String,
    pub lines: Vec<OrderLinePaidUpdateDto>,
}

#[derive(Clone, Copy, Debug, PartialEq, Eq, Structural)]
pub enum OrderLinePayUpdateErrorReason {
    ReservationExpired,
    InvalidQuantity,
    Omitted,
}

#[derive(Clone, Debug, PartialEq, Eq, Structural)]
pub struct OrderLinePayUpdateErrorDto {
    pub seller_id: u32,
    pub product_type: ProductType,
    pub product_id: u64,
    pub reason: OrderLinePayUpdateErrorReason,
}

#[derive(Clone, Debug, PartialEq, Eq)]
pub struct OrderPaymentUpdateErrorDto {
    pub oid: String,
    pub lines: Vec<OrderLinePayUpdateErrorDto>,
}

/// Shipping details of one order.
#[derive(Clone, Debug, PartialEq, Eq)]
pub struct ShippingDto {
    pub contact: ContactDto,
    pub address: Option<PhyAddrDto>,
}

// ---------------------------------------------------------------------
// refund
// ---------------------------------------------------------------------
/// Amount fields as the payment-side replicas carry them: exact decimal
/// numerals in text.
#[derive(Clone, Debug, PartialEq, Eq)]
pub struct ReplicaPayAmountDto {
    pub unit: String,
    pub total: String,
}

/// One order line of a buyer's refund request, replicated from the order
/// service. `create_time` is an RFC 3339 timestamp of the request.
#[derive(Clone, Debug, PartialEq, Eq)]
pub struct OrderLineReplicaRefundDto {
    pub seller_id: u32,
    pub product_id: u64,
    pub product_type: ProductType,
    pub create_time: String,
    pub amount: ReplicaPayAmountDto,
    pub qty: u32,
}

/// Reasons a merchant may reject part of a refund request.
#[derive(Clone, Copy, Debug, PartialEq, Eq, Structural)]
pub enum RefundRejectReasonDto {
    Damaged,
    Fraudulent,
}

/// Quantities rejected for each reason.
#[derive(Clone, Copy, Debug, PartialEq, Eq, Structural)]
pub struct RefundLineRejectDto {
    pub damaged: u32,
    pub fraudulent: u32,
}

/// Quantity and amount a merchant approves for refund in one round.
#[derive(Clone, Debug, PartialEq, Eq)]
pub struct RefundLineApprovalDto {
    pub quantity: u32,
    pub amount_total: String,
}

/// One line of a merchant's refund completion: which requested line it
/// answers (`time_issued` in milliseconds), what is approved and what is
/// rejected.
#[derive(Clone, Debug, PartialEq, Eq)]
pub struct RefundCompletionOlineReqDto {
    pub product_id: u64,
    pub product_type: ProductType,
    pub time_issued: i64,
    pub approval: RefundLineApprovalDto,
    pub reject: RefundLineRejectDto,
}

impl RefundCompletionOlineReqDto {
    /// Total quantity the merchant rejects on this line, over all reasons.
    pub fn total_qty_rejected(&self) -> (r: u32)
        requires
            self.reject.damaged + self.reject.fraudulent <= u32::MAX,
        ensures
            r == self.reject.damaged + self.reject.fraudulent,
    {
        self.reject.damaged + self.reject.fraudulent
    }
}

#[derive(Clone, Debug, PartialEq, Eq)]
pub struct RefundCompletionReqDto {
    pub lines: Vec<RefundCompletionOlineReqDto>,
}

// ---------------------------------------------------------------------
// store / onboarding replicas
// ---------------------------------------------------------------------
#[derive(Clone, Debug, PartialEq, Eq)]
pub struct StoreEmailRepDto {
    pub addr: String,
}

#[derive(Clone, Debug, PartialEq, Eq)]
pub struct StorePhoneRepDto {
    pub country_code: String,
    pub line_number: String,
}

#[derive(Clone, Debug, PartialEq, Eq)]
pub struct ShopLocationRepDto {
    pub country: CountryCode,
    pub locality: String,
    pub street: String,
    pub detail: String,
    pub floor: i16,
}

#[derive(Clone, Debug, PartialEq, Eq)]
pub struct StoreStaffRepDto {
    pub staff_id: u32,
    pub start_after: i64,
    pub end_before: i64,
}

/// Replica of one merchant's store profile, pulled when onboarding the
/// merchant with the payment processor.
#[derive(Clone, Debug, PartialEq, Eq)]
pub struct StoreProfileReplicaDto {
    pub label: String,
    pub active: bool,
    pub supervisor_id: u32,
    pub emails: Option<Vec<StoreEmailRepDto>>,
    pub phones: Option<Vec<StorePhoneRepDto>>,
    pub location: Option<ShopLocationRepDto>,
    pub staff: Option<Vec<StoreStaffRepDto>>,
}

/// Return and refresh pages a merchant is sent to while onboarding.
#[derive(Clone, Debug, PartialEq, Eq)]
pub struct StoreOnboardStripeReqDto {
    pub refresh_url: String,
    pub return_url: String,
}

// ---------------------------------------------------------------------
// charge creation
// ---------------------------------------------------------------------
/// Which checkout surface the client asked the processor to prepare.
#[derive(Clone, Copy, Debug, PartialEq, Eq, Structural)]
pub enum StripeCheckoutUImodeDto {
    EmbeddedJs,
    RedirectPage,
}

/// One order line the client claims to pay, with the amount it expects.
#[derive(Clone, Debug, PartialEq, Eq)]
pub struct ChargeAmountOlineDto {
    pub seller_id: u32,
    pub product_id: u64,
    pub product_type: ProductType,
    pub quantity: u32,
    pub amount: ReplicaPayAmountDto,
}

} // verus!
