use vstd::prelude::*;

verus! {

/// Kind of a sellable product. Persisted as a single unsigned byte;
/// unknown byte values are kept in the `Unknown` sink so that input
/// validation can report exactly what was received.
#[derive(Clone, Copy, Debug, PartialEq, Eq, Structural)]
pub enum ProductType {
    Item,
    Package,
    Unknown(u8),
}

impl ProductType {
    /// Numeric label of each product type in serialised form.
    pub open spec fn spec_to_num(self) -> u8 {
        match self {
            ProductType::Item => 1,
            ProductType::Package => 2,
            ProductType::Unknown(v) => v,
        }
    }

    /// Product type a serialised byte stands for.
    pub open spec fn spec_from_num(v: u8) -> ProductType {
        if v == 1 {
            ProductType::Item
        } else if v == 2 {
            ProductType::Package
        } else {
            ProductType::Unknown(v)
        }
    }

    pub fn to_num(self) -> (r: u8)
        ensures
            r == self.spec_to_num(),
    {
        match self {
            ProductType::Item => 1,
            ProductType::Package => 2,
            ProductType::Unknown(v) => v,
        }
    }

    pub fn from_num(v: u8) -> (r: ProductType)
        ensures
            r == ProductType::spec_from_num(v),
    {
        if v == 1 {
            ProductType::Item
        } else if v == 2 {
            ProductType::Package
        } else {
            ProductType::Unknown(v)
        }
    }
}

/// Checks a serialised product-type byte, accepting only the known kinds.
/// Unknown byte values are rejected with the list of accepted numbers, as
/// the inbound deserialiser reports them.
pub fn validate_product_type(v: u8) -> (r: Result<ProductType, u8>)
    ensures
        (v == 1 || v == 2) <==> r is Ok,
        r is Ok ==> r->Ok_0 == ProductType::spec_from_num(v),
        r is Err ==> r->Err_0 == v,
{
    let t = ProductType::from_num(v);
    match t {
        ProductType::Unknown(uv) => Err(uv),
        _ => Ok(t),
    }
}

/// Country of a buyer, seller or shop address, with an `Unknown` sink for
/// any label the service does not recognise.
#[derive(Clone, Copy, Debug, PartialEq, Eq, Structural)]
pub enum CountryCode {
    TW,
    TH,
    IN,
    ID,
    US,
    Unknown,
}

impl CountryCode {
    /// Symbolic label written on output.
    pub fn to_label(self) -> (r: String)
        ensures
            self == CountryCode::TW ==> r@ == "TW"@,
            self == CountryCode::TH ==> r@ == "TH"@,
            self == CountryCode::IN ==> r@ == "IN"@,
            self == CountryCode::ID ==> r@ == "ID"@,
            self == CountryCode::US ==> r@ == "US"@,
            self == CountryCode::Unknown ==> r@ == "Unknown"@,
    {
        match self {
            CountryCode::TW => String::from_str("TW"),
            CountryCode::TH => String::from_str("TH"),
            CountryCode::IN => String::from_str("IN"),
            CountryCode::ID => String::from_str("ID"),
            CountryCode::US => String::from_str("US"),
            CountryCode::Unknown => String::from_str("Unknown"),
        }
    }

    /// Country a character sequence names; anything unrecognised sinks
    /// to `Unknown`.
    pub open spec fn spec_from_label(s: Seq<char>) -> CountryCode {
        if s == "TW"@ {
            CountryCode::TW
        } else if s == "TH"@ {
            CountryCode::TH
        } else if s == "IN"@ {
            CountryCode::IN
        } else if s == "ID"@ {
            CountryCode::ID
        } else if s == "US"@ {
            CountryCode::US
        } else {
            CountryCode::Unknown
        }
    }

    /// Country a symbolic label stands for; anything unrecognised sinks
    /// to `Unknown`.
    pub fn from_label(value: &str) -> (r: CountryCode)
        ensures
            r == CountryCode::spec_from_label(value@),
    {
        let v = value.to_owned();
        if v == String::from_str("TW") {
            CountryCode::TW
        } else if v == String::from_str("TH") {
            CountryCode::TH
        } else if v == String::from_str("IN") {
            CountryCode::IN
        } else if v == String::from_str("ID") {
            CountryCode::ID
        } else if v == String::from_str("US") {
            CountryCode::US
        } else {
            CountryCode::Unknown
        }
    }
}

/// Currencies the services settle in, together with the number of
/// fraction digits each currency's minor unit carries.
#[derive(Clone, Copy, Debug, PartialEq, Eq, Structural)]
pub enum CurrencyDto {
    INR,
    IDR,
    THB,
    TWD,
    USD,
    Unknown,
}

impl CurrencyDto {
    /// Number of decimal digits of the currency's minor unit.
    pub open spec fn spec_fraction_scale(self) -> u32 {
        match self {
            CurrencyDto::INR => 2,
            CurrencyDto::IDR => 2,
            CurrencyDto::THB => 2,
            CurrencyDto::TWD => 2,
            CurrencyDto::USD => 2,
            CurrencyDto::Unknown => 0,
        }
    }

    pub fn amount_fraction_scale(self) -> (r: u32)
        ensures
            r == self.spec_fraction_scale(),
            r <= 4,
    {
        match self {
            CurrencyDto::INR => 2,
            CurrencyDto::IDR => 2,
            CurrencyDto::THB => 2,
            CurrencyDto::TWD => 2,
            CurrencyDto::USD => 2,
            CurrencyDto::Unknown => 0,
        }
    }
}

/// Identity of one product within one seller's store.
#[derive(Clone, Copy, Debug, PartialEq, Eq, Structural)]
pub struct BaseProductIdentity {
    pub store_id: u32,
    pub product_type: ProductType,
    pub product_id: u64,
}

} // verus!
