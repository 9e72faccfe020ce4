use vstd::prelude::*;
use crate::dto::{
    ProdAttrPriceItemDto, ProdAttrPriceSetDto, ProdAttrValueDto, ProductPriceDeleteDto,
    ProductPriceDto, ProductPriceEditDto,
};
use crate::error::{AppError, AppErrorCode};
use crate::shared::AppDataStoreContext;
use crate::types::CurrencyDto;

verus! {

/// Ghost image of an attribute value, with text as characters.
pub enum AttrValView {
    I(i32),
    S(Seq<char>),
    B(bool),
}

/// Ghost image of an attribute value.
pub open spec fn attr_val_view(v: ProdAttrValueDto) -> AttrValView {
    match v {
        ProdAttrValueDto::Int(x) => AttrValView::I(x),
        ProdAttrValueDto::Str(s) => AttrValView::S(s@),
        ProdAttrValueDto::Bool(b) => AttrValView::B(b),
    }
}

/// Ghost image of one attribute-price choice.
pub open spec fn attr_item_view(it: ProdAttrPriceItemDto) -> (Seq<char>, AttrValView, i32) {
    (it.label_id@, attr_val_view(it.value), it.price)
}


/// Decimal text of a non-negative number.
pub open spec fn spec_udec(n: int) -> Seq<char>
    decreases n,
{
    if n < 10 {
        seq![((48 + (if n < 0 { 0 } else { n }) % 10) as u8) as char]
    } else {
        spec_udec(n / 10) + seq![((48 + n % 10) as u8) as char]
    }
}

/// Decimal text of a signed number.
pub open spec fn spec_idec(n: int) -> Seq<char> {
    if n < 0 {
        seq!['-'] + spec_udec(-n)
    } else {
        spec_udec(n)
    }
}

/// One decimal digit as a one-character text.
fn dec_digit_str(v: u32) -> (r: &'static str)
    requires
        v < 10,
    ensures
        r@ =~= seq![((48 + v) as u8) as char],
{
    proof {
        reveal_strlit("0");
        reveal_strlit("1");
        reveal_strlit("2");
        reveal_strlit("3");
        reveal_strlit("4");
        reveal_strlit("5");
        reveal_strlit("6");
        reveal_strlit("7");
        reveal_strlit("8");
        reveal_strlit("9");
    }
    match v {
        0 => "0",
        1 => "1",
        2 => "2",
        3 => "3",
        4 => "4",
        5 => "5",
        6 => "6",
        7 => "7",
        8 => "8",
        _ => "9",
    }
}

/// Writes a non-negative number as decimal text.
fn u32_dec_str(n: u32) -> (r: String)
    ensures
        r@ =~= spec_udec(n as int),
    decreases n,
{
    if n < 10 {
        dec_digit_str(n).to_owned()
    } else {
        let high = u32_dec_str(n / 10);
        high.concat(dec_digit_str(n % 10))
    }
}

/// Writes a signed number as decimal text.
fn i32_dec_str(n: i32) -> (r: String)
    ensures
        r@ =~= spec_idec(n as int),
{
    if n >= 0 {
        u32_dec_str(n as u32)
    } else {
        let mag: u32 = (-(n as i64)) as u32;
        proof {
            reveal_strlit("-");
        }
        String::from_str("-").concat(u32_dec_str(mag).as_str())
    }
}

/// Text of an attribute value inside a map key.
pub open spec fn spec_attr_val_str(v: ProdAttrValueDto) -> Seq<char> {
    match v {
        ProdAttrValueDto::Int(x) => spec_idec(x as int),
        ProdAttrValueDto::Str(s) => s@,
        ProdAttrValueDto::Bool(b) => (if b {
            "true"@
        } else {
            "false"@
        }),
    }
}

/// The map key one attribute choice is stored under: the label and the
/// value's text, joined by a dash.
pub open spec fn spec_attr_key(it: ProdAttrPriceItemDto) -> Seq<char> {
    it.label_id@ + "-"@ + spec_attr_val_str(it.value)
}

/// Writes the map key of one attribute choice.
fn attr_key_string(it: &ProdAttrPriceItemDto) -> (r: String)
    ensures
        r@ =~= spec_attr_key(*it),
{
    proof {
        reveal_strlit("-");
        reveal_strlit("true");
        reveal_strlit("false");
    }
    let val_str: String = match &it.value {
        ProdAttrValueDto::Int(x) => i32_dec_str(*x),
        ProdAttrValueDto::Str(s) => s.clone(),
        ProdAttrValueDto::Bool(b) => (if *b {
            String::from_str("true")
        } else {
            String::from_str("false")
        }),
    };
    it.label_id.clone().concat("-").concat(val_str.as_str())
}

/// Index of the first attribute choice whose key repeats an earlier one.
pub open spec fn spec_first_dup(items: Seq<ProdAttrPriceItemDto>, c: int) -> Option<int>
    decreases items.len() - c,
{
    if c < 0 || c >= items.len() {
        None
    } else if exists|a: int| 0 <= a < c && attr_key_veq(#[trigger] items[a], items[c]) {
        Some(c)
    } else {
        spec_first_dup(items, c + 1)
    }
}

/// Whether two attribute choices are stored under the same map key.
pub open spec fn attr_key_veq(a: ProdAttrPriceItemDto, b: ProdAttrPriceItemDto) -> bool {
    spec_attr_key(a) == spec_attr_key(b)
}

/// Whether an attribute set carries no duplicate `(label, value)` pair.
pub open spec fn no_dup_attrs(items: Seq<ProdAttrPriceItemDto>) -> bool {
    forall|i: int, j: int|
        0 <= i < j < items.len() ==> !attr_key_veq(#[trigger] items[i], #[trigger] items[j])
}

/// Attribute pricing of one product as stored: the choices, or nothing
/// where the product has none, plus when they last changed.
#[derive(Clone, Debug, PartialEq, Eq)]
pub struct ProdAttriPriceModel {
    pub pricing: Option<Vec<ProdAttrPriceItemDto>>,
    pub last_update: i64,
}

/// Ghost image of stored attribute pricing.
pub open spec fn attrs_model_view(m: ProdAttriPriceModel) -> (
    Option<Seq<(Seq<char>, AttrValView, i32)>>,
    i64,
) {
    (
        match m.pricing {
            Some(v) => Some(v@.map_values(|it: ProdAttrPriceItemDto| attr_item_view(it))),
            None => None,
        },
        m.last_update,
    )
}

/// Ghost image the attribute set of an edit request should store as.
pub open spec fn attrs_dto_view(d: ProdAttrPriceSetDto) -> (
    Option<Seq<(Seq<char>, AttrValView, i32)>>,
    i64,
) {
    (
        if d.extra_charge@.len() == 0 {
            None
        } else {
            Some(d.extra_charge@.map_values(|it: ProdAttrPriceItemDto| attr_item_view(it)))
        },
        d.last_update,
    )
}

/// One attribute choice copied for storage.
fn clone_attr_item(it: &ProdAttrPriceItemDto) -> (r: ProdAttrPriceItemDto)
    ensures
        attr_item_view(r) == attr_item_view(*it),
{
    let value = match &it.value {
        ProdAttrValueDto::Int(v) => ProdAttrValueDto::Int(*v),
        ProdAttrValueDto::Str(s) => ProdAttrValueDto::Str(s.clone()),
        ProdAttrValueDto::Bool(b) => ProdAttrValueDto::Bool(*b),
    };
    ProdAttrPriceItemDto { label_id: it.label_id.clone(), value, price: it.price }
}

impl ProdAttriPriceModel {
    /// Reads the attribute pricing of an edit request, rebuilding the
    /// stored set from scratch; a duplicate `{label}-{value}` key is
    /// invalid input, reported with the offending key.
    #[verifier::loop_isolation(false)]
    pub fn try_from_dto(d: &ProdAttrPriceSetDto) -> (r: Result<ProdAttriPriceModel, AppError>)
        ensures
            r is Ok <==> no_dup_attrs(d.extra_charge@),
            r is Ok ==> attrs_model_view(r->Ok_0) == attrs_dto_view(*d),
            r is Err ==> r->Err_0.code == AppErrorCode::InvalidInput && r->Err_0.detail is Some
                && r->Err_0.detail->0@ == "prod-price-dup-attrval: "@ + spec_attr_key(
                d.extra_charge@[spec_first_dup(d.extra_charge@, 0)->0],
            ),
    {
        if d.extra_charge.len() == 0 {
            return Ok(ProdAttriPriceModel { pricing: None, last_update: d.last_update });
        }
        let n = d.extra_charge.len();
        let mut out: Vec<ProdAttrPriceItemDto> = Vec::new();
        let mut j: usize = 0;
        while j < n
            invariant
                0 <= j <= n,
                out@.len() == j,
                forall|k: int|
                    0 <= k < j ==> attr_item_view(#[trigger] out@[k]) == attr_item_view(
                        d.extra_charge@[k],
                    ),
                forall|a: int, b: int|
                    0 <= a < b < j ==> !attr_key_veq(
                        #[trigger] d.extra_charge@[a],
                        #[trigger] d.extra_charge@[b],
                    ),
                spec_first_dup(d.extra_charge@, 0) == spec_first_dup(d.extra_charge@, j as int),
            decreases n - j,
        {
            let it = &d.extra_charge[j];
            let key_j = attr_key_string(it);
            let mut k: usize = 0;
            while k < j
                invariant
                    0 <= k <= j < n,
                    key_j@ =~= spec_attr_key(d.extra_charge@[j as int]),
                    forall|a: int|
                        0 <= a < k ==> !attr_key_veq(
                            #[trigger] d.extra_charge@[a],
                            d.extra_charge@[j as int],
                        ),
                decreases j - k,
            {
                let seen = &d.extra_charge[k];
                let key_k = attr_key_string(seen);
                if key_k == key_j {
                    proof {
                        assert(attr_key_veq(
                            d.extra_charge@[k as int],
                            d.extra_charge@[j as int],
                        ));
                        assert(spec_first_dup(d.extra_charge@, j as int) == Some(j as int));
                        assert(!no_dup_attrs(d.extra_charge@));
                    }
                    let detail = String::from_str("prod-price-dup-attrval: ").concat(
                        key_j.as_str(),
                    );
                    proof {
                        reveal_strlit("prod-price-dup-attrval: ");
                    }
                    return Err(
                        AppError { code: AppErrorCode::InvalidInput, detail: Some(detail) },
                    );
                }
                k = k + 1;
            }
            proof {
                assert(!(exists|a: int|
                    0 <= a < j && attr_key_veq(
                        #[trigger] d.extra_charge@[a],
                        d.extra_charge@[j as int],
                    )));
            }
            out.push(clone_attr_item(it));
            j = j + 1;
        }
        proof {
            assert(out@.map_values(|it: ProdAttrPriceItemDto| attr_item_view(it))
                =~= d.extra_charge@.map_values(|it: ProdAttrPriceItemDto| attr_item_view(it)));
        }
        Ok(ProdAttriPriceModel { pricing: Some(out), last_update: d.last_update })
    }
}

/// The stored price of one product in one store: the base price, when it
/// is in force, and the attribute pricing, together with whether the
/// entry was newly created by the pending edit.
#[derive(Clone, Debug, PartialEq, Eq)]
pub struct ProductPriceModel {
    pub price: u32,
    pub start_after: i64,
    pub end_before: i64,
    pub product_id: u64,
    pub attributes: ProdAttriPriceModel,
    pub is_create: bool,
}

/// Ghost image of one stored price entry.
pub struct PriceView {
    pub price: u32,
    pub start_after: i64,
    pub end_before: i64,
    pub product_id: u64,
    pub attrs: (Option<Seq<(Seq<char>, AttrValView, i32)>>, i64),
    pub is_create: bool,
}

pub open spec fn price_view(m: ProductPriceModel) -> PriceView {
    PriceView {
        price: m.price,
        start_after: m.start_after,
        end_before: m.end_before,
        product_id: m.product_id,
        attrs: attrs_model_view(m.attributes),
        is_create: m.is_create,
    }
}

/// The image an edit leaves on an existing entry.
pub open spec fn edited_view(v: PriceView, d: ProductPriceEditDto) -> PriceView {
    PriceView {
        price: d.price,
        start_after: d.start_after,
        end_before: d.end_before,
        product_id: v.product_id,
        attrs: attrs_dto_view(d.attributes),
        is_create: v.is_create,
    }
}

/// The image a creating edit stores as a fresh entry.
pub open spec fn created_view(d: ProductPriceEditDto) -> PriceView {
    PriceView {
        price: d.price,
        start_after: d.start_after,
        end_before: d.end_before,
        product_id: d.product_id,
        attrs: attrs_dto_view(d.attributes),
        is_create: true,
    }
}

impl ProductPriceModel {
    /// Reads one creating edit as a fresh entry.
    pub fn try_from_dto(d: &ProductPriceEditDto) -> (r: Result<ProductPriceModel, AppError>)
        ensures
            r is Ok <==> no_dup_attrs(d.attributes.extra_charge@),
            r is Ok ==> price_view(r->Ok_0) == created_view(*d),
            r is Err ==> r->Err_0.code == AppErrorCode::InvalidInput,
    {
        let attributes = ProdAttriPriceModel::try_from_dto(&d.attributes)?;
        Ok(
            ProductPriceModel {
                price: d.price,
                product_id: d.product_id,
                start_after: d.start_after,
                end_before: d.end_before,
                attributes,
                is_create: true,
            },
        )
    }

    pub fn product_id(&self) -> (r: u64)
        ensures
            r == self.product_id,
    {
        self.product_id
    }

    pub fn base_price(&self) -> (r: u32)
        ensures
            r == self.price,
    {
        self.price
    }

    /// Applies one edit in place: price and the in-force window move
    /// first; a bad attribute set then fails the edit, leaving the
    /// already-moved fields as they are.
    fn update(&mut self, d: &ProductPriceEditDto) -> (r: Result<(), AppError>)
        ensures
            r is Ok <==> no_dup_attrs(d.attributes.extra_charge@),
            r is Ok ==> price_view(*final(self)) == edited_view(price_view(*old(self)), *d),
            final(self).product_id == old(self).product_id && final(self).is_create == old(
                self,
            ).is_create,
            r is Err ==> r->Err_0.code == AppErrorCode::InvalidInput,
    {
        self.price = d.price;
        self.end_before = d.end_before;
        self.start_after = d.start_after;
        let new_attrs = ProdAttriPriceModel::try_from_dto(&d.attributes)?;
        self.attributes = new_attrs;
        Ok(())
    }
}

/// Index of the first existing (not newly created) entry of one product.
pub open spec fn spec_find_price(s: Seq<PriceView>, product_id: u64) -> Option<int>
    decreases s.len(),
{
    if s.len() == 0 {
        None
    } else if s[0].product_id == product_id && !s[0].is_create {
        Some(0int)
    } else {
        match spec_find_price(s.skip(1), product_id) {
            Some(i) => Some(i + 1),
            None => None,
        }
    }
}

/// The edits applied in order to the stored entries: each must hit an
/// existing entry and carry a clean attribute set, else the whole pass
/// fails.
pub open spec fn spec_apply_price_edits(
    items: Seq<PriceView>,
    updating: Seq<ProductPriceEditDto>,
) -> Option<Seq<PriceView>>
    decreases updating.len(),
{
    if updating.len() == 0 {
        Some(items)
    } else {
        let d = updating[0];
        match spec_find_price(items, d.product_id) {
            Some(i) => {
                if no_dup_attrs(d.attributes.extra_charge@) {
                    spec_apply_price_edits(
                        items.update(i, edited_view(items[i], d)),
                        updating.skip(1),
                    )
                } else {
                    None
                }
            },
            None => None,
        }
    }
}

/// Whether every creating edit carries a clean attribute set.
pub open spec fn spec_creating_ok(creating: Seq<ProductPriceEditDto>) -> bool {
    forall|i: int|
        0 <= i < creating.len() ==> no_dup_attrs((#[trigger] creating[i]).attributes.extra_charge@)
}

/// One store's price list.
#[derive(Clone, Debug, PartialEq, Eq)]
pub struct ProductPriceModelSet {
    pub store_id: u32,
    pub currency: CurrencyDto,
    pub items: Vec<ProductPriceModel>,
}

impl ProductPriceModelSet {
    pub open spec fn views(self) -> Seq<PriceView> {
        self.items@.map_values(|m: ProductPriceModel| price_view(m))
    }

    /// Applies a price-edit request to the store's list: every updating
    /// entry must hit an existing entry of its product and rebuild its
    /// attribute set cleanly — otherwise the request is invalid input
    /// aimed at a non-existent object — and the creating entries are
    /// appended only when all updates succeeded; the store's currency
    /// moves to the new one.
    #[verifier::loop_isolation(false)]
    pub fn update(
        self,
        updating: Vec<ProductPriceEditDto>,
        creating: Vec<ProductPriceEditDto>,
        new_currency: CurrencyDto,
    ) -> (r: Result<ProductPriceModelSet, AppError>)
        ensures
            r is Ok <==> spec_apply_price_edits(self.views(), updating@) is Some
                && spec_creating_ok(creating@),
            r is Ok ==> ({
                let out = r->Ok_0;
                &&& out.store_id == self.store_id
                &&& out.currency == new_currency
                &&& out.views() =~= spec_apply_price_edits(self.views(), updating@)->0
                    + creating@.map_values(|d: ProductPriceEditDto| created_view(d))
            }),
            r is Err ==> r->Err_0.code == AppErrorCode::InvalidInput,
            r is Err && spec_apply_price_edits(self.views(), updating@) is None ==> r->Err_0.detail
                is Some && r->Err_0.detail->0@ == "updating-data-to-nonexist-obj"@,
    {
        let ProductPriceModelSet { store_id, currency, mut items } = self;
        let ghost views0 = items@.map_values(|m: ProductPriceModel| price_view(m));
        let nu = updating.len();
        let mut j: usize = 0;
        proof {
            assert(updating@.skip(0int) =~= updating@);
        }
        while j < nu
            invariant
                0 <= j <= nu,
                spec_apply_price_edits(views0, updating@) == spec_apply_price_edits(
                    items@.map_values(|m: ProductPriceModel| price_view(m)),
                    updating@.skip(j as int),
                ),
            decreases nu - j,
        {
            proof {
                let rest = updating@.skip(j as int);
                assert(rest[0] == updating@[j as int]);
                assert(rest.skip(1) =~= updating@.skip(j + 1int));
            }
            let d = &updating[j];
            let found = find_price(&items, d.product_id);
            match found {
                Some(i) => {
                    let ghost views_pre = items@.map_values(
                        |m: ProductPriceModel| price_view(m),
                    );
                    let mut entry = items.remove(i);
                    let upd = entry.update(d);
                    items.insert(i, entry);
                    proof {
                        assert(items@.map_values(|m: ProductPriceModel| price_view(m))
                            =~= views_pre.update(i as int, price_view(items@[i as int])));
                    }
                    match upd {
                        Ok(_) => {},
                        Err(e) => {
                            return Err(
                                AppError {
                                    code: AppErrorCode::InvalidInput,
                                    detail: Some(
                                        String::from_str("updating-data-to-nonexist-obj"),
                                    ),
                                },
                            );
                        },
                    }
                },
                None => {
                    return Err(
                        AppError {
                            code: AppErrorCode::InvalidInput,
                            detail: Some(String::from_str("updating-data-to-nonexist-obj")),
                        },
                    );
                },
            }
            j = j + 1;
        }
        proof {
            assert(updating@.skip(nu as int) =~= Seq::<ProductPriceEditDto>::empty());
        }
        let nc = creating.len();
        let mut k: usize = 0;
        let ghost after_updates = items@.map_values(|m: ProductPriceModel| price_view(m));
        while k < nc
            invariant
                0 <= k <= nc,
                spec_creating_ok(creating@.take(k as int)),
                items@.map_values(|m: ProductPriceModel| price_view(m)) =~= after_updates
                    + creating@.take(k as int).map_values(
                    |d: ProductPriceEditDto| created_view(d),
                ),
            decreases nc - k,
        {
            let c = &creating[k];
            let m = match ProductPriceModel::try_from_dto(c) {
                Ok(m) => m,
                Err(e) => {
                    proof {
                        assert(!no_dup_attrs(creating@[k as int].attributes.extra_charge@));
                        assert(!spec_creating_ok(creating@));
                    }
                    return Err(e);
                },
            };
            let ghost views_pre2 = items@.map_values(|mm: ProductPriceModel| price_view(mm));
            items.push(m);
            proof {
                assert(items@.map_values(|mm: ProductPriceModel| price_view(mm)) =~= views_pre2.push(
                    price_view(items@.last()),
                ));
                assert(creating@.take(k + 1int).map_values(
                    |d: ProductPriceEditDto| created_view(d),
                ) =~= creating@.take(k as int).map_values(|d: ProductPriceEditDto| created_view(d)).push(
                    created_view(creating@[k as int]),
                ));
                assert(views_pre2.push(price_view(items@.last())) =~= after_updates + creating@.take(
                    k + 1int,
                ).map_values(|d: ProductPriceEditDto| created_view(d)));
            }
            k = k + 1;
        }
        proof {
            assert(creating@.take(nc as int) =~= creating@);
        }
        Ok(ProductPriceModelSet { store_id, currency: new_currency, items })
    }
}

/// Finds the first existing entry of one product.
#[verifier::loop_isolation(false)]
fn find_price(items: &Vec<ProductPriceModel>, product_id: u64) -> (r: Option<usize>)
    ensures
        ({
            let views = items@.map_values(|m: ProductPriceModel| price_view(m));
            match r {
                Some(i) => spec_find_price(views, product_id) == Some(i as int) && 0 <= i
                    < items@.len(),
                None => spec_find_price(views, product_id) is None,
            }
        }),
{
    let ghost views = items@.map_values(|m: ProductPriceModel| price_view(m));
    let n = items.len();
    let mut i: usize = 0;
    proof {
        assert(views.skip(0int) =~= views);
    }
    while i < n
        invariant
            0 <= i <= n == items@.len(),
            spec_find_price(views, product_id) == (match spec_find_price(
                views.skip(i as int),
                product_id,
            ) {
                Some(k) => Some(k + i),
                None => None,
            }),
        decreases n - i,
    {
        proof {
            let rest = views.skip(i as int);
            assert(rest[0] == views[i as int]);
            assert(rest.skip(1) =~= views.skip(i + 1int));
        }
        let p = &items[i];
        if p.product_id == product_id && !p.is_create {
            return Some(i);
        }
        i = i + 1;
    }
    proof {
        assert(views.skip(n as int) =~= Seq::<PriceView>::empty());
    }
    None
}

} // verus!
