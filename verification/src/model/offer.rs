//! Offers: their records and the statements that list and look them up.
use vstd::prelude::*;

use super::iden::{OfferIden, ShopIden};
use super::query::{
    image_columns, kinds_of, price_columns, spec_gathered, spec_group_by, spec_joined_columns,
    spec_joins, GroupKey, GroupKeyView, Join,
    opt_view, owned_by, spec_order_of, spec_select_all, spec_write, Column, Condition,
    ConditionView, Order, OrderTerm, Rank, RankView, SelectPlan, SelectPlanView, Value, ValueView,
    WriteKind, WritePlan, WritePlanView, restricts, writes, writes_column,
};
use super::record::{
    is_of_kind, lemma_read_fields_kinds, read_record, records_from_array, spec_read_record,
    spec_read_record_array, AsRecord, Field, FieldKind, FieldView,
};
use crate::api::{Direction, OffersFilterField, OffersOrderByField};
use crate::db::DbError;
use crate::text::{parse_trimmed_bool, spec_parse_trimmed_bool, spec_trim};

verus! {

/// An image of an offer as it comes with the offer.
#[derive(Debug)]
pub struct OfferImageAsRel {
    pub offer_image_id: u128,
    pub image_url_path: String,
    pub ordering: i64,
}

/// The price of an offer as it comes with the offer.
#[derive(Debug)]
pub struct OfferPriceAsRel {
    pub offer_price_id: u128,
    pub currency: String,
    pub price_type: String,
    pub billing_scheme: String,
    pub unit_amount: u32,
    pub recurring_interval: Option<String>,
    pub recurring_interval_count: Option<u32>,
}

/// The images of an offer as they come with it.
#[derive(Debug)]
pub struct OfferImageAsRelVec(pub Vec<OfferImageAsRel>);

/// The prices of an offer as they come with it.
#[derive(Debug)]
pub struct OfferPriceAsRelVec(pub Vec<OfferPriceAsRel>);

/// The kinds of the fields of an image's record: its id, its path and its
/// ordering.
pub open spec fn offer_image_kinds() -> Seq<FieldKind> {
    seq![FieldKind::Uuid, FieldKind::Text, FieldKind::Int8]
}

/// The kinds of the fields of a price's record: its id, currency, type,
/// billing scheme, amount, and its recurring interval and count.
pub open spec fn offer_price_kinds() -> Seq<FieldKind> {
    seq![
        FieldKind::Uuid,
        FieldKind::Text,
        FieldKind::Text,
        FieldKind::Text,
        FieldKind::Int8,
        FieldKind::OptText,
        FieldKind::OptInt8,
    ]
}

/// Whether the amount and the interval count of a price's record fit in 32
/// bits without sign.
pub open spec fn offer_price_fits(fs: Seq<FieldView>) -> bool {
    &&& fs[4] matches FieldView::Int8(a) && 0 <= a <= u32::MAX
    &&& fs[6] matches FieldView::OptInt8(c) && (c matches Some(n) ==> 0 <= n <= u32::MAX)
}

/// An optional count as a value of a record.
pub open spec fn opt_count_field(c: Option<u32>) -> Option<i64> {
    match c {
        Some(n) => Some(n as i64),
        None => None,
    }
}

impl AsRecord for OfferImageAsRel {
    open spec fn record_fields(&self) -> Seq<FieldView> {
        seq![
            FieldView::Uuid(self.offer_image_id),
            FieldView::Text(self.image_url_path@),
            FieldView::Int8(self.ordering),
        ]
    }

    open spec fn spec_record(raw: Seq<u8>) -> Option<Seq<FieldView>> {
        spec_read_record(raw, offer_image_kinds())
    }

    fn from_record(raw: &[u8]) -> (r: Option<OfferImageAsRel>) {
        let kinds = vec![FieldKind::Uuid, FieldKind::Text, FieldKind::Int8];
        assert(kinds@ =~= offer_image_kinds());
        let mut fields = match read_record(raw, kinds.as_slice()) {
            Some(fs) => fs,
            None => {
                return None;
            },
        };
        proof {
            lemma_read_fields_kinds(raw@, 4, offer_image_kinds());
            assert(is_of_kind(fields@.map_values(|f: Field| f@)[0], offer_image_kinds()[0]));
            assert(is_of_kind(fields@.map_values(|f: Field| f@)[1], offer_image_kinds()[1]));
            assert(is_of_kind(fields@.map_values(|f: Field| f@)[2], offer_image_kinds()[2]));
        }
        let ghost fs = fields@;
        let ordering = fields.pop();
        let image_url_path = fields.pop();
        let offer_image_id = fields.pop();
        match (offer_image_id, image_url_path, ordering) {
            (Some(Field::Uuid(offer_image_id)), Some(Field::Text(image_url_path)), Some(Field::Int8(ordering))) => {
                let r = OfferImageAsRel { offer_image_id, image_url_path, ordering };
                assert(r.record_fields() =~= fs.map_values(|f: Field| f@));
                Some(r)
            },
            _ => None,
        }
    }
}

impl AsRecord for OfferPriceAsRel {
    open spec fn record_fields(&self) -> Seq<FieldView> {
        seq![
            FieldView::Uuid(self.offer_price_id),
            FieldView::Text(self.currency@),
            FieldView::Text(self.price_type@),
            FieldView::Text(self.billing_scheme@),
            FieldView::Int8(self.unit_amount as i64),
            FieldView::OptText(opt_view(self.recurring_interval)),
            FieldView::OptInt8(opt_count_field(self.recurring_interval_count)),
        ]
    }

    open spec fn spec_record(raw: Seq<u8>) -> Option<Seq<FieldView>> {
        match spec_read_record(raw, offer_price_kinds()) {
            Some(fs) => if offer_price_fits(fs) {
                Some(fs)
            } else {
                None
            },
            None => None,
        }
    }

    fn from_record(raw: &[u8]) -> (r: Option<OfferPriceAsRel>) {
        let kinds = vec![
            FieldKind::Uuid,
            FieldKind::Text,
            FieldKind::Text,
            FieldKind::Text,
            FieldKind::Int8,
            FieldKind::OptText,
            FieldKind::OptInt8,
        ];
        assert(kinds@ =~= offer_price_kinds());
        let mut fields = match read_record(raw, kinds.as_slice()) {
            Some(fs) => fs,
            None => {
                return None;
            },
        };
        let ghost vs = fields@.map_values(|f: Field| f@);
        proof {
            lemma_read_fields_kinds(raw@, 4, offer_price_kinds());
            assert(is_of_kind(vs[0], offer_price_kinds()[0]));
            assert(is_of_kind(vs[1], offer_price_kinds()[1]));
            assert(is_of_kind(vs[2], offer_price_kinds()[2]));
            assert(is_of_kind(vs[3], offer_price_kinds()[3]));
            assert(is_of_kind(vs[4], offer_price_kinds()[4]));
            assert(is_of_kind(vs[5], offer_price_kinds()[5]));
            assert(is_of_kind(vs[6], offer_price_kinds()[6]));
        }
        let count = fields.pop();
        let interval = fields.pop();
        let amount = fields.pop();
        let billing_scheme = fields.pop();
        let price_type = fields.pop();
        let currency = fields.pop();
        let id = fields.pop();
        match (id, currency, price_type, billing_scheme, amount, interval, count) {
            (
                Some(Field::Uuid(offer_price_id)),
                Some(Field::Text(currency)),
                Some(Field::Text(price_type)),
                Some(Field::Text(billing_scheme)),
                Some(Field::Int8(amount)),
                Some(Field::OptText(recurring_interval)),
                Some(Field::OptInt8(count)),
            ) => {
                if amount < 0 || amount > u32::MAX as i64 {
                    return None;
                }
                let recurring_interval_count = match count {
                    Some(c) => {
                        if c < 0 || c > u32::MAX as i64 {
                            return None;
                        }
                        Some(c as u32)
                    },
                    None => None,
                };
                let r = OfferPriceAsRel {
                    offer_price_id,
                    currency,
                    price_type,
                    billing_scheme,
                    unit_amount: amount as u32,
                    recurring_interval,
                    recurring_interval_count,
                };
                assert(r.record_fields() =~= vs);
                Some(r)
            },
            _ => None,
        }
    }
}

impl OfferImageAsRelVec {
    /// The images that the array `raw` of image records gives, in order; an
    /// element that is `NULL` or not an image's record is left out, and an
    /// array of more than one dimension, or none, gives nothing.
    pub fn from_array(raw: &[u8]) -> (r: Option<OfferImageAsRelVec>)
        ensures
            match r {
                Some(v) => spec_read_record_array(
                    raw@,
                    |b: Seq<u8>| OfferImageAsRel::spec_record(b),
                ) == Some(v.0@.map_values(|x: OfferImageAsRel| x.record_fields())),
                None => spec_read_record_array(raw@, |b: Seq<u8>| OfferImageAsRel::spec_record(b)) is None,
            },
    {
        match records_from_array::<OfferImageAsRel>(raw) {
            Some(v) => Some(OfferImageAsRelVec(v)),
            None => None,
        }
    }
}

impl OfferPriceAsRelVec {
    /// The prices that the array `raw` of price records gives, in order; an
    /// element that is `NULL`, not a price's record, or one whose amount or
    /// interval count does not fit in 32 bits without sign, is left out, and
    /// an array of more than one dimension, or none, gives nothing.
    pub fn from_array(raw: &[u8]) -> (r: Option<OfferPriceAsRelVec>)
        ensures
            match r {
                Some(v) => spec_read_record_array(
                    raw@,
                    |b: Seq<u8>| OfferPriceAsRel::spec_record(b),
                ) == Some(v.0@.map_values(|x: OfferPriceAsRel| x.record_fields())),
                None => spec_read_record_array(raw@, |b: Seq<u8>| OfferPriceAsRel::spec_record(b)) is None,
            },
    {
        match records_from_array::<OfferPriceAsRel>(raw) {
            Some(v) => Some(OfferPriceAsRelVec(v)),
            None => None,
        }
    }
}

/// An offer as it is stored, with its shop's name, slug and domain, its
/// images and its price; its times in seconds since the Unix epoch.
#[derive(Debug)]
pub struct Offer {
    pub offer_id: u128,
    pub shop_id: u128,
    pub shop_name: String,
    pub shop_slug: String,
    pub shop_domain: Option<String>,
    pub user_id: String,
    pub created_at: i64,
    pub updated_at: i64,
    pub name: String,
    pub description: String,
    pub is_active: bool,
    pub is_featured: bool,
    pub type_: Option<String>,
    pub images: Vec<OfferImageAsRel>,
    pub price: Option<OfferPriceAsRel>,
}

/// The order term for listing offers by `field` in `direction`.
pub open spec fn spec_offer_order_term(field: OffersOrderByField, direction: Direction) -> OrderTerm {
    let order = spec_order_of(direction == Direction::Desc);
    match field {
        OffersOrderByField::Unspecified | OffersOrderByField::CreatedAt => OrderTerm::Column(
            Column::Offer(OfferIden::CreatedAt),
            order,
        ),
        OffersOrderByField::UpdatedAt => OrderTerm::Column(
            Column::Offer(OfferIden::UpdatedAt),
            order,
        ),
        OffersOrderByField::Name => OrderTerm::Column(Column::Offer(OfferIden::Name), order),
        OffersOrderByField::Random => OrderTerm::Random,
    }
}

/// The rank of the name of an offer against the query `q`.
pub open spec fn offer_name_rank(q: Seq<char>) -> RankView {
    RankView { column: Column::Offer(OfferIden::NameTs), query: q, alias: "name_ts_rank"@ }
}

/// The rank of the description of an offer against the query `q`.
pub open spec fn offer_description_rank(q: Seq<char>) -> RankView {
    RankView {
        column: Column::Offer(OfferIden::DescriptionTs),
        query: q,
        alias: "description_ts_rank"@,
    }
}

/// What a listing of offers is filtered on: a text query on the name, the
/// description or either, the type of the offers, or whether they are featured.
#[derive(Clone, Copy, Debug, PartialEq, Eq, Structural)]
pub enum OfferFilterField {
    Unspecified,
    Name,
    Description,
    NameAndDescription,
    Type,
    IsFeatured,
}

impl OfferFilterField {
    /// The filter that a filter field of the commerce protocol asks for.
    pub open spec fn spec_from_protocol(f: OffersFilterField) -> OfferFilterField {
        match f {
            OffersFilterField::Unspecified => OfferFilterField::Unspecified,
            OffersFilterField::Name => OfferFilterField::Name,
            OffersFilterField::Description => OfferFilterField::Description,
            OffersFilterField::NameAndDescription => OfferFilterField::NameAndDescription,
        }
    }

    /// The filter that the filter field `f` of the commerce protocol asks for.
    /// That protocol has no field for the type of an offer or for whether it
    /// is featured: those filters are named only by this type.
    pub fn from_protocol(f: OffersFilterField) -> (r: OfferFilterField)
        ensures
            r == Self::spec_from_protocol(f),
    {
        match f {
            OffersFilterField::Unspecified => OfferFilterField::Unspecified,
            OffersFilterField::Name => OfferFilterField::Name,
            OffersFilterField::Description => OfferFilterField::Description,
            OffersFilterField::NameAndDescription => OfferFilterField::NameAndDescription,
        }
    }
}

/// `plan` filtered by the query `q` on `field`; nothing where a query on
/// whether offers are featured is not a boolean.
pub open spec fn spec_offer_filter(
    plan: SelectPlanView,
    field: OfferFilterField,
    q: Seq<char>,
) -> Option<SelectPlanView> {
    match field {
        OfferFilterField::Unspecified => Some(plan),
        OfferFilterField::Name => Some(
            plan.with_rank(offer_name_rank(q)).with_condition(
                ConditionView::Matches(Column::Offer(OfferIden::NameTs), q),
            ),
        ),
        OfferFilterField::Description => Some(
            plan.with_rank(offer_description_rank(q)).with_condition(
                ConditionView::Matches(Column::Offer(OfferIden::DescriptionTs), q),
            ),
        ),
        OfferFilterField::NameAndDescription => Some(
            plan.with_rank(offer_name_rank(q)).with_rank(offer_description_rank(q)).with_condition(
                ConditionView::MatchesEither(
                    Column::Offer(OfferIden::NameTs),
                    Column::Offer(OfferIden::DescriptionTs),
                    q,
                ),
            ),
        ),
        OfferFilterField::Type => Some(
            plan.with_condition(
                ConditionView::Eq(Column::Offer(OfferIden::Type), ValueView::Text(q)),
            ),
        ),
        OfferFilterField::IsFeatured => match spec_parse_trimmed_bool(q) {
            Some(b) => Some(
                plan.with_condition(
                    ConditionView::Eq(Column::Offer(OfferIden::IsFeatured), ValueView::Bool(b)),
                ),
            ),
            None => None,
        },
    }
}

/// The condition that keeps the offers that are active or belong to `user`.
pub open spec fn offer_visible_to(user: Option<Seq<char>>) -> ConditionView {
    ConditionView::ActiveOrOwnedBy(
        Column::Offer(OfferIden::IsActive),
        Column::Offer(OfferIden::UserId),
        user,
    )
}

/// The rows of a listing of offers before filtering: those of the shop and
/// the user where they are given, among those visible to the requesting user.
pub open spec fn spec_offer_scope(
    base: SelectPlanView,
    shop_id: Option<u128>,
    user_id: Option<Seq<char>>,
    request_user_id: Option<Seq<char>>,
) -> SelectPlanView {
    let p1 = match shop_id {
        Some(s) => base.with_condition(
            ConditionView::Eq(Column::Offer(OfferIden::ShopId), ValueView::Uuid(s)),
        ),
        None => base,
    };
    let p2 = match user_id {
        Some(u) => p1.with_condition(
            ConditionView::Eq(Column::Offer(OfferIden::UserId), ValueView::Text(u)),
        ),
        None => p1,
    };
    p2.with_condition(offer_visible_to(request_user_id))
}

/// The statement that lists offers; nothing where the filter is refused.
pub open spec fn spec_offer_list(
    shop_id: Option<u128>,
    user_id: Option<Seq<char>>,
    limit: u64,
    offset: u64,
    filter: Option<(OfferFilterField, Seq<char>)>,
    order_by: Option<(OffersOrderByField, Direction)>,
    request_user_id: Option<Seq<char>>,
) -> Option<SelectPlanView> {
    let p2 = spec_offer_scope(spec_select_all(Column::Offer(OfferIden::Table), true), shop_id, user_id, request_user_id);
    let p3 = match filter {
        Some((f, q)) => spec_offer_filter(p2, f, q),
        None => Some(p2),
    };
    match p3 {
        None => None,
        Some(p3) => {
            let p4 = match order_by {
                Some((f, d)) => p3.with_order(spec_offer_order_term(f, d)),
                None => p3,
            };
            Some(p4.with_page(limit, offset))
        },
    }
}

/// The statement that counts the offers of a listing; nothing where the
/// filter is refused.
pub open spec fn spec_offer_count(
    shop_id: Option<u128>,
    user_id: Option<Seq<char>>,
    filter: Option<(OfferFilterField, Seq<char>)>,
    request_user_id: Option<Seq<char>>,
) -> Option<SelectPlanView> {
    let p2 = spec_offer_scope(
        spec_select_all(Column::Offer(OfferIden::Table), false).with_group(
            GroupKeyView::Column(Column::Offer(OfferIden::OfferId)),
        ),
        shop_id,
        user_id,
        request_user_id,
    );
    match filter {
        Some((f, q)) => spec_offer_filter(p2, f, q),
        None => Some(p2),
    }
}

/// Whether `r` refused the filter query as an argument.
pub open spec fn refuses_filter_query<T>(r: Result<T, DbError>) -> bool {
    r matches Err(DbError::Argument(m)) && m@ == "filter.query"@
}

fn clone_opt(s: Option<&String>) -> (r: Option<String>)
    ensures
        r == (match s {
            Some(t) => Some(*t),
            None => None,
        }),
{
    match s {
        Some(t) => Some(t.clone()),
        None => None,
    }
}

/// The view of an optional borrowed text.
pub open spec fn opt_ref_view(s: Option<&String>) -> Option<Seq<char>> {
    match s {
        Some(u) => Some(u@),
        None => None,
    }
}

/// The view of an optional filter.
pub open spec fn filter_view(f: Option<(OfferFilterField, String)>) -> Option<
    (OfferFilterField, Seq<char>),
> {
    match f {
        Some((f, q)) => Some((f, q@)),
        None => None,
    }
}

impl Offer {
    const NAME_TS_RANK_ALIAS: &'static str = "name_ts_rank";

    const DESCRIPTION_TS_RANK_ALIAS: &'static str = "description_ts_rank";

    /// Orders the listing by `order_by_field` in `order_by_direction`; an
    /// unspecified field orders by creation, an unspecified direction
    /// ascends, and a random order ignores the direction.
    pub fn add_order_by(
        query: &mut SelectPlan,
        order_by_field: OffersOrderByField,
        order_by_direction: Direction,
    )
        ensures
            final(query)@ == old(query)@.with_order(
                spec_offer_order_term(order_by_field, order_by_direction),
            ),
    {
        let order = match order_by_direction {
            Direction::Unspecified | Direction::Asc => Order::Asc,
            Direction::Desc => Order::Desc,
        };
        let term = match order_by_field {
            OffersOrderByField::Unspecified | OffersOrderByField::CreatedAt => OrderTerm::Column(
                Column::Offer(OfferIden::CreatedAt),
                order,
            ),
            OffersOrderByField::UpdatedAt => OrderTerm::Column(
                Column::Offer(OfferIden::UpdatedAt),
                order,
            ),
            OffersOrderByField::Name => OrderTerm::Column(Column::Offer(OfferIden::Name), order),
            OffersOrderByField::Random => OrderTerm::Random,
        };
        query.add_order(term);
    }

    /// Keeps the offers that match the filter: a text query on name,
    /// description or either, an offer type, or whether they are featured
    /// (`true` or `false`, white space aside; anything else is refused).
    pub fn add_filter(
        query: &mut SelectPlan,
        filter_field: OfferFilterField,
        filter_query: String,
    ) -> (r: Result<(), DbError>)
        ensures
            spec_offer_filter(old(query)@, filter_field, filter_query@) matches Some(p) ==> (r is Ok
                && final(query)@ == p),
            spec_offer_filter(old(query)@, filter_field, filter_query@) is None ==> (
            refuses_filter_query(r) && final(query)@ == old(query)@),
    {
        proof {
            reveal_strlit("name_ts_rank");
            reveal_strlit("description_ts_rank");
        }
        match filter_field {
            OfferFilterField::Unspecified => {},
            OfferFilterField::Name => {
                query.add_rank(
                    Rank {
                        column: Column::Offer(OfferIden::NameTs),
                        query: filter_query.clone(),
                        alias: Self::NAME_TS_RANK_ALIAS,
                    },
                );
                query.add_condition(
                    Condition::Matches(Column::Offer(OfferIden::NameTs), filter_query),
                );
            },
            OfferFilterField::Description => {
                query.add_rank(
                    Rank {
                        column: Column::Offer(OfferIden::DescriptionTs),
                        query: filter_query.clone(),
                        alias: Self::DESCRIPTION_TS_RANK_ALIAS,
                    },
                );
                query.add_condition(
                    Condition::Matches(Column::Offer(OfferIden::DescriptionTs), filter_query),
                );
            },
            OfferFilterField::NameAndDescription => {
                query.add_rank(
                    Rank {
                        column: Column::Offer(OfferIden::NameTs),
                        query: filter_query.clone(),
                        alias: Self::NAME_TS_RANK_ALIAS,
                    },
                );
                query.add_rank(
                    Rank {
                        column: Column::Offer(OfferIden::DescriptionTs),
                        query: filter_query.clone(),
                        alias: Self::DESCRIPTION_TS_RANK_ALIAS,
                    },
                );
                query.add_condition(
                    Condition::MatchesEither(
                        Column::Offer(OfferIden::NameTs),
                        Column::Offer(OfferIden::DescriptionTs),
                        filter_query,
                    ),
                );
            },
            OfferFilterField::Type => {
                query.add_condition(
                    Condition::Eq(Column::Offer(OfferIden::Type), Value::Text(filter_query)),
                );
            },
            OfferFilterField::IsFeatured => {
                match parse_trimmed_bool(filter_query.as_str()) {
                    Some(b) => {
                        query.add_condition(
                            Condition::Eq(Column::Offer(OfferIden::IsFeatured), Value::Bool(b)),
                        );
                    },
                    None => {
                        return Err(DbError::Argument(String::from_str("filter.query")));
                    },
                }
            },
        }
        Ok(())
    }

    fn add_scope(
        query: &mut SelectPlan,
        shop_id: Option<u128>,
        user_id: Option<&String>,
        request_user_id: Option<&String>,
    )
        ensures
            final(query)@ == spec_offer_scope(
                old(query)@,
                shop_id,
                opt_ref_view(user_id),
                opt_ref_view(request_user_id),
            ),
    {
        if let Some(shop_id) = shop_id {
            query.add_condition(Condition::Eq(Column::Offer(OfferIden::ShopId), Value::Uuid(shop_id)));
        }
        if let Some(user_id) = user_id {
            query.add_condition(
                Condition::Eq(Column::Offer(OfferIden::UserId), Value::Text(user_id.clone())),
            );
        }
        query.add_condition(
            Condition::ActiveOrOwnedBy(
                Column::Offer(OfferIden::IsActive),
                Column::Offer(OfferIden::UserId),
                clone_opt(request_user_id),
            ),
        );
    }

    /// The statement that lists offers: those of the shop and the user where
    /// they are given, among those visible to the requesting user, filtered
    /// and ordered as asked, one page of them, with their relations.
    #[allow(clippy::too_many_arguments)]
    pub fn list_query(
        shop_id: Option<u128>,
        user_id: Option<&String>,
        limit: u64,
        offset: u64,
        filter: Option<(OfferFilterField, String)>,
        order_by: Option<(OffersOrderByField, Direction)>,
        request_user_id: Option<&String>,
    ) -> (r: Result<SelectPlan, DbError>)
        ensures
            spec_offer_list(
                shop_id,
                opt_ref_view(user_id),
                limit,
                offset,
                filter_view(filter),
                order_by,
                opt_ref_view(request_user_id),
            ) matches Some(p) ==> (r matches Ok(q) && q@ == p),
            spec_offer_list(
                shop_id,
                opt_ref_view(user_id),
                limit,
                offset,
                filter_view(filter),
                order_by,
                opt_ref_view(request_user_id),
            ) is None ==> refuses_filter_query(r),
            r matches Ok(q) ==> q@.joins == spec_joins(Column::Offer(OfferIden::Table))
                && q@.gathered == spec_gathered(Column::Offer(OfferIden::Table))
                && q@.joined_columns == spec_joined_columns(Column::Offer(OfferIden::Table))
                && q@.group_by == spec_group_by(Column::Offer(OfferIden::Table)),
    {
        let mut query = SelectPlan::select_all(Column::Offer(OfferIden::Table), true);
        Self::add_scope(&mut query, shop_id, user_id, request_user_id);
        if let Some((filter_field, filter_query)) = filter {
            Self::add_filter(&mut query, filter_field, filter_query)?;
        }
        if let Some((order_by_field, order_by_direction)) = order_by {
            Self::add_order_by(&mut query, order_by_field, order_by_direction);
        }
        query.set_page(limit, offset);
        Ok(query)
    }

    /// The statement that counts the offers that a listing selects.
    pub fn count_query(
        shop_id: Option<u128>,
        user_id: Option<&String>,
        filter: Option<(OfferFilterField, String)>,
        request_user_id: Option<&String>,
    ) -> (r: Result<SelectPlan, DbError>)
        ensures
            spec_offer_count(
                shop_id,
                opt_ref_view(user_id),
                filter_view(filter),
                opt_ref_view(request_user_id),
            ) matches Some(p) ==> (r matches Ok(q) && q@ == p),
            spec_offer_count(
                shop_id,
                opt_ref_view(user_id),
                filter_view(filter),
                opt_ref_view(request_user_id),
            ) is None ==> refuses_filter_query(r),
            r matches Ok(q) ==> q@.group_by == seq![
                GroupKeyView::Column(Column::Offer(OfferIden::OfferId)),
            ],
    {
        let mut query = SelectPlan::select_all(Column::Offer(OfferIden::Table), false);
        query.add_group(GroupKey::Column(Column::Offer(OfferIden::OfferId)));
        Self::add_scope(&mut query, shop_id, user_id, request_user_id);
        if let Some((filter_field, filter_query)) = filter {
            Self::add_filter(&mut query, filter_field, filter_query)?;
        }
        Ok(query)
    }

    /// The statement that looks up the offer `offer_id`, with its relations,
    /// if it is active or belongs to `user_id`.
    pub fn get_query(offer_id: u128, user_id: Option<&String>) -> (r: SelectPlan)
        ensures
            r@ == spec_select_all(Column::Offer(OfferIden::Table), true).with_condition(
                ConditionView::Eq(Column::Offer(OfferIden::OfferId), ValueView::Uuid(offer_id)),
            ).with_condition(offer_visible_to(opt_ref_view(user_id))),
    {
        let mut query = SelectPlan::select_all(Column::Offer(OfferIden::Table), true);
        query.add_condition(Condition::Eq(Column::Offer(OfferIden::OfferId), Value::Uuid(offer_id)));
        query.add_condition(
            Condition::ActiveOrOwnedBy(
                Column::Offer(OfferIden::IsActive),
                Column::Offer(OfferIden::UserId),
                clone_opt(user_id),
            ),
        );
        query
    }

    /// The statement that looks up the offer `offer_id` of the user
    /// `user_id`, with its relations, active or not.
    pub fn get_for_user_query(user_id: &String, offer_id: u128) -> (r: SelectPlan)
        ensures
            r@ == spec_select_all(Column::Offer(OfferIden::Table), true).with_condition(
                ConditionView::Eq(Column::Offer(OfferIden::OfferId), ValueView::Uuid(offer_id)),
            ).with_condition(
                ConditionView::Eq(Column::Offer(OfferIden::UserId), ValueView::Text(user_id@)),
            ),
    {
        let mut query = SelectPlan::select_all(Column::Offer(OfferIden::Table), true);
        query.add_condition(Condition::Eq(Column::Offer(OfferIden::OfferId), Value::Uuid(offer_id)));
        query.add_condition(
            Condition::Eq(Column::Offer(OfferIden::UserId), Value::Text(user_id.clone())),
        );
        query
    }
}

/// The statement that updates the fields given of the offer `offer_id` of
/// `user_id`, and only an offer of that user.
pub open spec fn spec_offer_update(
    user_id: Seq<char>,
    offer_id: u128,
    name: Option<Seq<char>>,
    description: Option<Seq<char>>,
    is_active: Option<bool>,
    type_: Option<Seq<char>>,
    is_featured: Option<bool>,
) -> WritePlanView {
    spec_write(WriteKind::Update, Column::Offer(OfferIden::Table), true).set_opt(
        Column::Offer(OfferIden::Name),
        match name {
            Some(v) => Some(ValueView::Text(v)),
            None => None,
        },
    ).set_opt(
        Column::Offer(OfferIden::Description),
        match description {
            Some(v) => Some(ValueView::Text(v)),
            None => None,
        },
    ).set_opt(
        Column::Offer(OfferIden::IsActive),
        match is_active {
            Some(v) => Some(ValueView::Bool(v)),
            None => None,
        },
    ).set_opt(
        Column::Offer(OfferIden::Type),
        match type_ {
            Some(v) => Some(ValueView::Text(v)),
            None => None,
        },
    ).set_opt(
        Column::Offer(OfferIden::IsFeatured),
        match is_featured {
            Some(v) => Some(ValueView::Bool(v)),
            None => None,
        },
    ).with_condition(owned_by(Column::Offer(OfferIden::UserId), user_id)).with_condition(
        ConditionView::Eq(Column::Offer(OfferIden::OfferId), ValueView::Uuid(offer_id)),
    )
}

/// The statement that deactivates the offers of the shop `shop_id` of
/// `user_id`, and only offers of that user.
pub open spec fn spec_offer_deactivate_for_shop(user_id: Seq<char>, shop_id: u128) -> WritePlanView {
    spec_write(WriteKind::Update, Column::Offer(OfferIden::Table), false).set(
        Column::Offer(OfferIden::IsActive),
        ValueView::Bool(false),
    ).with_condition(owned_by(Column::Offer(OfferIden::UserId), user_id)).with_condition(
        ConditionView::Eq(Column::Offer(OfferIden::ShopId), ValueView::Uuid(shop_id)),
    )
}

/// The statement that deletes the offer `offer_id` of `user_id`, and only an
/// offer of that user.
pub open spec fn spec_offer_delete(user_id: Seq<char>, offer_id: u128) -> WritePlanView {
    spec_write(WriteKind::Delete, Column::Offer(OfferIden::Table), false).with_condition(
        owned_by(Column::Offer(OfferIden::UserId), user_id),
    ).with_condition(ConditionView::Eq(Column::Offer(OfferIden::OfferId), ValueView::Uuid(offer_id)))
}

impl Offer {
    /// The statement that creates an offer of `user_id` in the shop
    /// `shop_id`; a missing description is stored empty.
    pub fn create_query(
        shop_id: u128,
        user_id: &String,
        name: String,
        description: Option<String>,
        type_: &str,
        is_featured: bool,
    ) -> (r: WritePlan)
        ensures
            r@ == spec_write(WriteKind::Insert, Column::Offer(OfferIden::Table), true).set(
                Column::Offer(OfferIden::ShopId),
                ValueView::Uuid(shop_id),
            ).set(Column::Offer(OfferIden::UserId), ValueView::Text(user_id@)).set(
                Column::Offer(OfferIden::Name),
                ValueView::Text(name@),
            ).set(
                Column::Offer(OfferIden::Description),
                ValueView::Text(
                    match description {
                        Some(d) => d@,
                        None => seq![],
                    },
                ),
            ).set(Column::Offer(OfferIden::Type), ValueView::Text(type_@)).set(
                Column::Offer(OfferIden::IsFeatured),
                ValueView::Bool(is_featured),
            ),
    {
        let mut q = WritePlan::new(WriteKind::Insert, Column::Offer(OfferIden::Table), true);
        q.set(Column::Offer(OfferIden::ShopId), Value::Uuid(shop_id));
        q.set(Column::Offer(OfferIden::UserId), Value::Text(user_id.clone()));
        q.set(Column::Offer(OfferIden::Name), Value::Text(name));
        let description = match description {
            Some(d) => d,
            None => String::new(),
        };
        q.set(Column::Offer(OfferIden::Description), Value::Text(description));
        q.set(Column::Offer(OfferIden::Type), Value::Text(type_.to_owned()));
        q.set(Column::Offer(OfferIden::IsFeatured), Value::Bool(is_featured));
        q
    }

    /// The statement that updates the fields given of the offer `offer_id` of
    /// `user_id`.
    #[allow(clippy::too_many_arguments)]
    pub fn update_query(
        user_id: &String,
        offer_id: u128,
        name: Option<String>,
        description: Option<String>,
        is_active: Option<bool>,
        type_: Option<&str>,
        is_featured: Option<bool>,
    ) -> (r: WritePlan)
        ensures
            r@ == spec_offer_update(
                user_id@,
                offer_id,
                opt_view(name),
                opt_view(description),
                is_active,
                match type_ {
                    Some(t) => Some(t@),
                    None => None,
                },
                is_featured,
            ),
    {
        let mut q = WritePlan::new(WriteKind::Update, Column::Offer(OfferIden::Table), true);
        if let Some(name) = name {
            q.set(Column::Offer(OfferIden::Name), Value::Text(name));
        }
        if let Some(description) = description {
            q.set(Column::Offer(OfferIden::Description), Value::Text(description));
        }
        if let Some(is_active) = is_active {
            q.set(Column::Offer(OfferIden::IsActive), Value::Bool(is_active));
        }
        if let Some(type_) = type_ {
            q.set(Column::Offer(OfferIden::Type), Value::Text(type_.to_owned()));
        }
        if let Some(is_featured) = is_featured {
            q.set(Column::Offer(OfferIden::IsFeatured), Value::Bool(is_featured));
        }
        q.add_condition(
            Condition::Eq(Column::Offer(OfferIden::UserId), Value::Text(user_id.clone())),
        );
        q.add_condition(Condition::Eq(Column::Offer(OfferIden::OfferId), Value::Uuid(offer_id)));
        q
    }

    /// The statement that deactivates the offers of the shop `shop_id` of
    /// `user_id`.
    pub fn deactivate_for_shop_query(user_id: &String, shop_id: u128) -> (r: WritePlan)
        ensures
            r@ == spec_offer_deactivate_for_shop(user_id@, shop_id),
    {
        let mut q = WritePlan::new(WriteKind::Update, Column::Offer(OfferIden::Table), false);
        q.set(Column::Offer(OfferIden::IsActive), Value::Bool(false));
        q.add_condition(
            Condition::Eq(Column::Offer(OfferIden::UserId), Value::Text(user_id.clone())),
        );
        q.add_condition(Condition::Eq(Column::Offer(OfferIden::ShopId), Value::Uuid(shop_id)));
        q
    }

    /// The statement that deletes the offer `offer_id` of `user_id`.
    pub fn delete_query(user_id: &String, offer_id: u128) -> (r: WritePlan)
        ensures
            r@ == spec_offer_delete(user_id@, offer_id),
    {
        let mut q = WritePlan::new(WriteKind::Delete, Column::Offer(OfferIden::Table), false);
        q.add_condition(
            Condition::Eq(Column::Offer(OfferIden::UserId), Value::Text(user_id.clone())),
        );
        q.add_condition(Condition::Eq(Column::Offer(OfferIden::OfferId), Value::Uuid(offer_id)));
        q
    }
}

/// An offer is updated, deactivated or deleted only by the user it belongs
/// to: the statements keep only the rows of that user.
pub proof fn lemma_offer_writes_are_owned(
    user_id: Seq<char>,
    offer_id: u128,
    shop_id: u128,
    name: Option<Seq<char>>,
    description: Option<Seq<char>>,
    is_active: Option<bool>,
    type_: Option<Seq<char>>,
    is_featured: Option<bool>,
)
    ensures
        spec_offer_update(
            user_id,
            offer_id,
            name,
            description,
            is_active,
            type_,
            is_featured,
        ).conditions.contains(owned_by(Column::Offer(OfferIden::UserId), user_id)),
        spec_offer_deactivate_for_shop(user_id, shop_id).conditions.contains(
            owned_by(Column::Offer(OfferIden::UserId), user_id),
        ),
        spec_offer_delete(user_id, offer_id).conditions.contains(
            owned_by(Column::Offer(OfferIden::UserId), user_id),
        ),
{
    let o = owned_by(Column::Offer(OfferIden::UserId), user_id);
    assert(spec_offer_update(user_id, offer_id, name, description, is_active, type_, is_featured).conditions[0] == o);
    assert(spec_offer_deactivate_for_shop(user_id, shop_id).conditions[0] == o);
    assert(spec_offer_delete(user_id, offer_id).conditions[0] == o);
}

/// Every statement that lists or counts offers keeps only the offers that are
/// active or belong to the requesting user.
pub proof fn lemma_offer_list_shows_only_visible(
    shop_id: Option<u128>,
    user_id: Option<Seq<char>>,
    limit: u64,
    offset: u64,
    filter: Option<(OfferFilterField, Seq<char>)>,
    order_by: Option<(OffersOrderByField, Direction)>,
    request_user_id: Option<Seq<char>>,
)
    ensures
        spec_offer_list(shop_id, user_id, limit, offset, filter, order_by, request_user_id) matches Some(
            p,
        ) ==> p.conditions.contains(offer_visible_to(request_user_id)),
        spec_offer_count(shop_id, user_id, filter, request_user_id) matches Some(p)
            ==> p.conditions.contains(offer_visible_to(request_user_id)),
{
    let s1 = spec_offer_scope(spec_select_all(Column::Offer(OfferIden::Table), true), shop_id, user_id, request_user_id);
    let s2 = spec_offer_scope(spec_select_all(Column::Offer(OfferIden::Table), false), shop_id, user_id, request_user_id);
    let k1 = s1.conditions.len() - 1;
    let k2 = s2.conditions.len() - 1;
    assert(s1.conditions[k1] == offer_visible_to(request_user_id));
    assert(s2.conditions[k2] == offer_visible_to(request_user_id));
    if let Some((f, q)) = filter {
        lemma_filter_keeps_conditions(s1, f, q, k1);
        lemma_filter_keeps_conditions(s2, f, q, k2);
    }
    if let Some(p) = spec_offer_list(shop_id, user_id, limit, offset, filter, order_by, request_user_id) {
        assert(p.conditions[k1] == offer_visible_to(request_user_id));
    }
    if let Some(p) = spec_offer_count(shop_id, user_id, filter, request_user_id) {
        assert(p.conditions[k2] == offer_visible_to(request_user_id));
    }
}

proof fn lemma_filter_keeps_conditions(p: SelectPlanView, f: OfferFilterField, q: Seq<char>, k: int)
    requires
        0 <= k < p.conditions.len(),
    ensures
        spec_offer_filter(p, f, q) matches Some(r) ==> (k < r.conditions.len() && r.conditions[k]
            == p.conditions[k]),
{
}

/// Whether `out` holds the images of `orig`, each once, ordered by their
/// `ordering`, images of equal `ordering` in the order they had.
pub open spec fn is_stable_sort_by_ordering(out: Seq<OfferImageAsRel>, orig: Seq<OfferImageAsRel>) -> bool {
    exists|perm: Seq<int>| is_stable_sort_witness(out, orig, perm)
}

/// `perm` tells where in `orig` each image of `out` was.
pub open spec fn is_stable_sort_witness(
    out: Seq<OfferImageAsRel>,
    orig: Seq<OfferImageAsRel>,
    perm: Seq<int>,
) -> bool {
    &&& out.len() == orig.len()
    &&& perm.len() == out.len()
    &&& forall|i: int| 0 <= i < perm.len() ==> 0 <= #[trigger] perm[i] < orig.len()
    &&& forall|i: int, j: int| 0 <= i < j < perm.len() ==> perm[i] != perm[j]
    &&& forall|i: int| 0 <= i < out.len() ==> #[trigger] out[i] == orig[perm[i]]
    &&& forall|i: int, j: int| 0 <= i < j < out.len() ==> out[i].ordering <= out[j].ordering
    &&& forall|i: int, j: int|
        0 <= i < j < out.len() && out[i].ordering == out[j].ordering ==> perm[i] < perm[j]
}

impl Offer {
    /// The images of an offer in the order they are shown: by their
    /// `ordering`, images of equal `ordering` in the order they came.
    pub fn sort_images(images: Vec<OfferImageAsRel>) -> (r: Vec<OfferImageAsRel>)
        ensures
            is_stable_sort_by_ordering(r@, images@),
    {
        let ghost orig = images@;
        let n = images.len();
        let mut input = images;
        let mut out: Vec<OfferImageAsRel> = Vec::new();
        let ghost mut perm: Seq<int> = seq![];
        let mut m: usize = 0;
        while m < n
            invariant
                n == orig.len(),
                m <= n,
                input@ == orig.subrange(m as int, n as int),
                out@.len() == m,
                perm.len() == m,
                forall|i: int| 0 <= i < m ==> 0 <= #[trigger] perm[i] < m,
                forall|i: int, j: int| 0 <= i < j < m ==> perm[i] != perm[j],
                forall|i: int| 0 <= i < m ==> #[trigger] out@[i] == orig[perm[i]],
                forall|i: int, j: int| 0 <= i < j < m ==> out@[i].ordering <= out@[j].ordering,
                forall|i: int, j: int|
                    0 <= i < j < m && out@[i].ordering == out@[j].ordering ==> perm[i] < perm[j],
            decreases n - m,
        {
            let e = input.remove(0);
            assert(e == orig[m as int]);
            let key = e.ordering;
            let mut pos: usize = 0;
            while pos < out.len() && out[pos].ordering <= key
                invariant
                    pos <= out@.len(),
                    forall|i: int| 0 <= i < pos ==> out@[i].ordering <= key,
                decreases out@.len() - pos,
            {
                pos = pos + 1;
            }
            let ghost old_out = out@;
            let ghost old_perm = perm;
            assert(forall|i: int| pos <= i < old_out.len() ==> old_out[i].ordering > key) by {
                assert forall|i: int| pos <= i < old_out.len() implies old_out[i].ordering > key by {
                    if pos < old_out.len() {
                        assert(old_out[pos as int].ordering > key);
                        if i > pos {
                            assert(old_out[pos as int].ordering <= old_out[i].ordering);
                        }
                    }
                }
            }
            out.insert(pos, e);
            proof {
                perm = old_perm.insert(pos as int, m as int);
                assert forall|i: int| 0 <= i < m + 1 implies #[trigger] out@[i] == orig[perm[i]] by {
                    if i < pos {
                        assert(out@[i] == old_out[i]);
                        assert(perm[i] == old_perm[i]);
                    } else if i > pos {
                        assert(out@[i] == old_out[i - 1]);
                        assert(perm[i] == old_perm[i - 1]);
                    }
                }
                assert forall|i: int| 0 <= i < m + 1 implies 0 <= #[trigger] perm[i] < m + 1 by {
                    if i < pos {
                        assert(perm[i] == old_perm[i]);
                    } else if i > pos {
                        assert(perm[i] == old_perm[i - 1]);
                    }
                }
                assert forall|i: int, j: int| 0 <= i < j < m + 1 implies perm[i] != perm[j] by {
                    if i < pos && j < pos {
                    } else if i < pos && j == pos {
                        assert(perm[i] == old_perm[i]);
                    } else if i < pos && j > pos {
                        assert(perm[i] == old_perm[i]);
                        assert(perm[j] == old_perm[j - 1]);
                    } else if i == pos {
                        assert(perm[j] == old_perm[j - 1]);
                    } else {
                        assert(perm[i] == old_perm[i - 1]);
                        assert(perm[j] == old_perm[j - 1]);
                    }
                }
                assert forall|i: int, j: int| 0 <= i < j < m + 1 implies out@[i].ordering
                    <= out@[j].ordering by {
                    if i < pos && j < pos {
                    } else if i < pos && j == pos {
                        assert(out@[i] == old_out[i]);
                    } else if i < pos && j > pos {
                        assert(out@[i] == old_out[i]);
                        assert(out@[j] == old_out[j - 1]);
                    } else if i == pos {
                        assert(out@[j] == old_out[j - 1]);
                    } else {
                        assert(out@[i] == old_out[i - 1]);
                        assert(out@[j] == old_out[j - 1]);
                    }
                }
                assert forall|i: int, j: int|
                    0 <= i < j < m + 1 && out@[i].ordering == out@[j].ordering implies perm[i]
                    < perm[j] by {
                    if i < pos && j < pos {
                    } else if i < pos && j == pos {
                        assert(perm[i] == old_perm[i]);
                    } else if i < pos && j > pos {
                        assert(out@[i] == old_out[i]);
                        assert(out@[j] == old_out[j - 1]);
                        assert(perm[i] == old_perm[i]);
                        assert(perm[j] == old_perm[j - 1]);
                    } else if i == pos {
                        assert(out@[j] == old_out[j - 1]);
                    } else {
                        assert(out@[i] == old_out[i - 1]);
                        assert(out@[j] == old_out[j - 1]);
                        assert(perm[i] == old_perm[i - 1]);
                        assert(perm[j] == old_perm[j - 1]);
                    }
                }
                assert(input@ =~= orig.subrange(m + 1, n as int));
            }
            m = m + 1;
        }
        assert(is_stable_sort_witness(out@, orig, perm));
        out
    }
}

/// The records that the array column `raw` of an offer's relation gives,
/// where the column is there and reads as such an array.
pub open spec fn column_records(
    raw: Option<&[u8]>,
    decode: spec_fn(Seq<u8>) -> Option<Seq<FieldView>>,
) -> Option<Seq<Seq<FieldView>>> {
    match raw {
        Some(b) => spec_read_record_array(b@, decode),
        None => None,
    }
}

/// The records that the images `v` are read from.
pub open spec fn image_records(v: Seq<OfferImageAsRel>) -> Seq<Seq<FieldView>> {
    v.map_values(|x: OfferImageAsRel| x.record_fields())
}

impl Offer {
    /// The images that come with an offer in the column `raw`, sorted by
    /// their `ordering`, images of equal `ordering` in the order of the
    /// array; none where the column is `NULL` or does not read as an array of
    /// image records.
    pub fn images_from_column(raw: Option<&[u8]>) -> (r: Vec<OfferImageAsRel>)
        ensures
            match column_records(raw, |b: Seq<u8>| OfferImageAsRel::spec_record(b)) {
                Some(fss) => exists|v: Seq<OfferImageAsRel>|
                    #[trigger] image_records(v) == fss && is_stable_sort_by_ordering(r@, v),
                None => r@.len() == 0,
            },
    {
        let images = match raw {
            Some(b) => match OfferImageAsRelVec::from_array(b) {
                Some(v) => v.0,
                None => Vec::new(),
            },
            None => Vec::new(),
        };
        let ghost v = images@;
        let r = Offer::sort_images(images);
        proof {
            assert(image_records(v) == v.map_values(|x: OfferImageAsRel| x.record_fields()));
            if column_records(raw, |b: Seq<u8>| OfferImageAsRel::spec_record(b)) is None {
                let w = choose|perm: Seq<int>| is_stable_sort_witness(r@, v, perm);
                assert(is_stable_sort_witness(r@, v, w));
            }
        }
        r
    }

    /// The price that comes with an offer in the column `raw`: the first of
    /// the array's price records; none where there is none, or the column is
    /// `NULL` or does not read as an array of price records.
    pub fn price_from_column(raw: Option<&[u8]>) -> (r: Option<OfferPriceAsRel>)
        ensures
            match column_records(raw, |b: Seq<u8>| OfferPriceAsRel::spec_record(b)) {
                Some(fss) => if fss.len() > 0 {
                    r matches Some(p) && p.record_fields() == fss[0]
                } else {
                    r is None
                },
                None => r is None,
            },
    {
        let mut prices = match raw {
            Some(b) => match OfferPriceAsRelVec::from_array(b) {
                Some(v) => v.0,
                None => {
                    return None;
                },
            },
            None => {
                return None;
            },
        };
        if prices.len() == 0 {
            None
        } else {
            Some(prices.remove(0))
        }
    }
}

/// Whether the listed offers are grouped, after their id, by the `i`-th
/// joined column, and that column is one of the offer's shop.
pub open spec fn groups_by_shop_column(i: int) -> bool {
    let j = spec_joined_columns(Column::Offer(OfferIden::Table))[i];
    &&& spec_group_by(Column::Offer(OfferIden::Table))[i + 1] == GroupKeyView::Alias(j.alias)
    &&& j.column.spec_table_name() == Column::Shop(ShopIden::Table).spec_table_name()
}

/// Listed offers come one row per offer, with their relations: the rows are
/// grouped by the offer's id and, beyond it, only by the columns of the one
/// shop joined by the offer's shop id; the relations gathered with each offer
/// are read back by the decoders of images and prices, each gathered column
/// holding a value of the kind that the decoder reads at its place.
pub proof fn lemma_offer_relations_read_back()
    ensures
        spec_group_by(Column::Offer(OfferIden::Table))[0] == GroupKeyView::Column(
            Column::Offer(OfferIden::OfferId),
        ),
        spec_group_by(Column::Offer(OfferIden::Table)).len() == 1 + spec_joined_columns(
            Column::Offer(OfferIden::Table),
        ).len(),
        forall|i: int|
            0 <= i < spec_joined_columns(Column::Offer(OfferIden::Table)).len()
                ==> #[trigger] groups_by_shop_column(i),
        spec_joins(Column::Offer(OfferIden::Table))[2] == (Join {
            table: Column::Shop(ShopIden::Table),
            key: Column::Shop(ShopIden::ShopId),
            on: Column::Offer(OfferIden::ShopId),
        }),
        spec_gathered(Column::Offer(OfferIden::Table))[0].columns == image_columns(),
        spec_gathered(Column::Offer(OfferIden::Table))[1].columns == price_columns(),
        kinds_of(image_columns()) == offer_image_kinds().map_values(|k: FieldKind| Some(k)),
        kinds_of(price_columns()) == offer_price_kinds().map_values(|k: FieldKind| Some(k)),
{
    assert(kinds_of(image_columns()) =~= offer_image_kinds().map_values(|k: FieldKind| Some(k)));
    assert(kinds_of(price_columns()) =~= offer_price_kinds().map_values(|k: FieldKind| Some(k)));
}

/// Ordering offers by a field orders them by that field's column: creation
/// time (also where no field is named), update time or name, ascending unless
/// descending is asked; or at random.
pub proof fn lemma_offer_order_terms(d: Direction)
    ensures
        ({
            let o = if d == Direction::Desc { Order::Desc } else { Order::Asc };
            &&& spec_offer_order_term(OffersOrderByField::Unspecified, d) == OrderTerm::Column(
                Column::Offer(OfferIden::CreatedAt),
                o,
            )
            &&& spec_offer_order_term(OffersOrderByField::CreatedAt, d) == OrderTerm::Column(
                Column::Offer(OfferIden::CreatedAt),
                o,
            )
            &&& spec_offer_order_term(OffersOrderByField::UpdatedAt, d) == OrderTerm::Column(
                Column::Offer(OfferIden::UpdatedAt),
                o,
            )
            &&& spec_offer_order_term(OffersOrderByField::Name, d) == OrderTerm::Column(
                Column::Offer(OfferIden::Name),
                o,
            )
            &&& spec_offer_order_term(OffersOrderByField::Random, d) == OrderTerm::Random
        }),
{
}

/// A filter on offers searches the columns it names and changes nothing else
/// of the statement: a text query ranks and matches the name, the
/// description or either; a type keeps the offers of that type; `true` or
/// `false` (white space aside) keeps the offers featured or not, and any
/// other query on featured offers is refused; no field filters nothing.
pub proof fn lemma_offer_filter_searches_named_columns(plan: SelectPlanView, q: Seq<char>)
    ensures
        spec_offer_filter(plan, OfferFilterField::Unspecified, q) == Some(plan),
        spec_offer_filter(plan, OfferFilterField::Name, q) == Some(
            SelectPlanView {
                ranks: plan.ranks.push(
                    RankView {
                        column: Column::Offer(OfferIden::NameTs),
                        query: q,
                        alias: "name_ts_rank"@,
                    },
                ),
                conditions: plan.conditions.push(
                    ConditionView::Matches(Column::Offer(OfferIden::NameTs), q),
                ),
                ..plan
            },
        ),
        spec_offer_filter(plan, OfferFilterField::Description, q) == Some(
            SelectPlanView {
                ranks: plan.ranks.push(
                    RankView {
                        column: Column::Offer(OfferIden::DescriptionTs),
                        query: q,
                        alias: "description_ts_rank"@,
                    },
                ),
                conditions: plan.conditions.push(
                    ConditionView::Matches(Column::Offer(OfferIden::DescriptionTs), q),
                ),
                ..plan
            },
        ),
        spec_offer_filter(plan, OfferFilterField::NameAndDescription, q) == Some(
            SelectPlanView {
                ranks: plan.ranks.push(
                    RankView {
                        column: Column::Offer(OfferIden::NameTs),
                        query: q,
                        alias: "name_ts_rank"@,
                    },
                ).push(
                    RankView {
                        column: Column::Offer(OfferIden::DescriptionTs),
                        query: q,
                        alias: "description_ts_rank"@,
                    },
                ),
                conditions: plan.conditions.push(
                    ConditionView::MatchesEither(
                        Column::Offer(OfferIden::NameTs),
                        Column::Offer(OfferIden::DescriptionTs),
                        q,
                    ),
                ),
                ..plan
            },
        ),
        spec_offer_filter(plan, OfferFilterField::Type, q) == Some(
            SelectPlanView {
                conditions: plan.conditions.push(
                    ConditionView::Eq(Column::Offer(OfferIden::Type), ValueView::Text(q)),
                ),
                ..plan
            },
        ),
        spec_trim(q) == "true"@ ==> spec_offer_filter(plan, OfferFilterField::IsFeatured, q) == Some(
            SelectPlanView {
                conditions: plan.conditions.push(
                    ConditionView::Eq(Column::Offer(OfferIden::IsFeatured), ValueView::Bool(true)),
                ),
                ..plan
            },
        ),
        spec_trim(q) == "false"@ ==> spec_offer_filter(plan, OfferFilterField::IsFeatured, q) == Some(
            SelectPlanView {
                conditions: plan.conditions.push(
                    ConditionView::Eq(Column::Offer(OfferIden::IsFeatured), ValueView::Bool(false)),
                ),
                ..plan
            },
        ),
        spec_trim(q) != "true"@ && spec_trim(q) != "false"@ ==> spec_offer_filter(
            plan,
            OfferFilterField::IsFeatured,
            q,
        ) is None,
{
    reveal_strlit("true");
    reveal_strlit("false");
    assert("true"@.len() != "false"@.len());
}

/// A listing of offers selects from the offers, answers the page asked for,
/// keeps only the offers of the shop and of the user asked for, is ordered
/// by the one term asked for (or none), and is ranked only where a text
/// filter is asked for; it is refused only for a query on featured offers
/// that is not a boolean. Counting keeps the same offers, unpaged.
pub proof fn lemma_offer_list_pages_and_orders(
    shop_id: Option<u128>,
    user_id: Option<Seq<char>>,
    limit: u64,
    offset: u64,
    filter: Option<(OfferFilterField, Seq<char>)>,
    order_by: Option<(OffersOrderByField, Direction)>,
    request_user_id: Option<Seq<char>>,
)
    ensures
        (filter matches Some((f, q)) && f == OfferFilterField::IsFeatured && spec_trim(q) != "true"@
            && spec_trim(q) != "false"@) <==> spec_offer_list(
            shop_id,
            user_id,
            limit,
            offset,
            filter,
            order_by,
            request_user_id,
        ) is None,
        spec_offer_list(shop_id, user_id, limit, offset, filter, order_by, request_user_id) is None
            <==> spec_offer_count(shop_id, user_id, filter, request_user_id) is None,
        spec_offer_list(shop_id, user_id, limit, offset, filter, order_by, request_user_id) matches Some(
            p,
        ) ==> {
            &&& p.table == Column::Offer(OfferIden::Table)
            &&& p.limit == Some(limit)
            &&& p.offset == Some(offset)
            &&& (shop_id matches Some(s) ==> p.conditions.contains(
                ConditionView::Eq(Column::Offer(OfferIden::ShopId), ValueView::Uuid(s)),
            ))
            &&& (user_id matches Some(u) ==> p.conditions.contains(
                ConditionView::Eq(Column::Offer(OfferIden::UserId), ValueView::Text(u)),
            ))
            &&& (order_by matches Some((f, d)) ==> p.order == seq![spec_offer_order_term(f, d)])
            &&& (order_by is None ==> p.order.len() == 0)
            &&& (filter is None ==> p.ranks.len() == 0)
        },
        spec_offer_count(shop_id, user_id, filter, request_user_id) matches Some(c) ==> {
            &&& c.table == Column::Offer(OfferIden::Table)
            &&& c.limit is None
            &&& c.offset is None
            &&& (shop_id matches Some(s) ==> c.conditions.contains(
                ConditionView::Eq(Column::Offer(OfferIden::ShopId), ValueView::Uuid(s)),
            ))
            &&& (user_id matches Some(u) ==> c.conditions.contains(
                ConditionView::Eq(Column::Offer(OfferIden::UserId), ValueView::Text(u)),
            ))
        },
{
    let s1 = spec_offer_scope(spec_select_all(Column::Offer(OfferIden::Table), true), shop_id, user_id, request_user_id);
    let s2 = spec_offer_scope(
        spec_select_all(Column::Offer(OfferIden::Table), false).with_group(
            GroupKeyView::Column(Column::Offer(OfferIden::OfferId)),
        ),
        shop_id,
        user_id,
        request_user_id,
    );
    if let Some(s) = shop_id {
        assert(s1.conditions[0] == ConditionView::Eq(Column::Offer(OfferIden::ShopId), ValueView::Uuid(s)));
        assert(s2.conditions[0] == ConditionView::Eq(Column::Offer(OfferIden::ShopId), ValueView::Uuid(s)));
    }
    if let Some(u) = user_id {
        let k: int = if shop_id is Some { 1 } else { 0 };
        assert(s1.conditions[k] == ConditionView::Eq(Column::Offer(OfferIden::UserId), ValueView::Text(u)));
        assert(s2.conditions[k] == ConditionView::Eq(Column::Offer(OfferIden::UserId), ValueView::Text(u)));
    }
    if let Some((f, q)) = filter {
        lemma_offer_filter_searches_named_columns(s1, q);
        lemma_offer_filter_searches_named_columns(s2, q);
        lemma_filter_keeps_conditions_all(s1, f, q);
        lemma_filter_keeps_conditions_all(s2, f, q);
    }
    if let Some(p) = spec_offer_list(shop_id, user_id, limit, offset, filter, order_by, request_user_id) {
        if let Some((f, d)) = order_by {
            assert(p.order =~= seq![spec_offer_order_term(f, d)]);
        }
    }
}

proof fn lemma_filter_keeps_conditions_all(p: SelectPlanView, f: OfferFilterField, q: Seq<char>)
    ensures
        spec_offer_filter(p, f, q) matches Some(r) ==> (forall|c: ConditionView|
            p.conditions.contains(c) ==> #[trigger] r.conditions.contains(c)) && r.table == p.table
            && r.limit == p.limit && r.offset == p.offset && r.order == p.order,
        f != OfferFilterField::Name && f != OfferFilterField::Description && f
            != OfferFilterField::NameAndDescription ==> (spec_offer_filter(p, f, q) matches Some(r)
            ==> r.ranks == p.ranks),
{
    broadcast use vstd::seq_lib::lemma_seq_contains_after_push;

}

/// An update of an offer writes each field it is given to that field's
/// column and nothing to the column of a field it is not given; it updates
/// the offers table, and only the offer `offer_id` of `user_id`.
pub proof fn lemma_offer_update_writes_given_fields(
    user_id: Seq<char>,
    offer_id: u128,
    name: Option<Seq<char>>,
    description: Option<Seq<char>>,
    is_active: Option<bool>,
    type_: Option<Seq<char>>,
    is_featured: Option<bool>,
)
    ensures
        ({
            let p = spec_offer_update(user_id, offer_id, name, description, is_active, type_, is_featured);
            &&& p.kind == WriteKind::Update
            &&& p.table == Column::Offer(OfferIden::Table)
            &&& restricts(p, ConditionView::Eq(Column::Offer(OfferIden::UserId), ValueView::Text(user_id)))
            &&& restricts(p, ConditionView::Eq(Column::Offer(OfferIden::OfferId), ValueView::Uuid(offer_id)))
            &&& (name matches Some(v) ==> writes(p, Column::Offer(OfferIden::Name), ValueView::Text(v)))
            &&& (name is None ==> !writes_column(p, Column::Offer(OfferIden::Name)))
            &&& (description matches Some(v) ==> writes(
                p,
                Column::Offer(OfferIden::Description),
                ValueView::Text(v),
            ))
            &&& (description is None ==> !writes_column(p, Column::Offer(OfferIden::Description)))
            &&& (is_active matches Some(v) ==> writes(
                p,
                Column::Offer(OfferIden::IsActive),
                ValueView::Bool(v),
            ))
            &&& (is_active is None ==> !writes_column(p, Column::Offer(OfferIden::IsActive)))
            &&& (type_ matches Some(v) ==> writes(p, Column::Offer(OfferIden::Type), ValueView::Text(v)))
            &&& (type_ is None ==> !writes_column(p, Column::Offer(OfferIden::Type)))
            &&& (is_featured matches Some(v) ==> writes(
                p,
                Column::Offer(OfferIden::IsFeatured),
                ValueView::Bool(v),
            ))
            &&& (is_featured is None ==> !writes_column(p, Column::Offer(OfferIden::IsFeatured)))
        }),
{
    broadcast use vstd::seq_lib::lemma_seq_contains_after_push, vstd::seq_lib::lemma_seq_empty_contains_nothing;

}

/// Deactivating the offers of a shop writes only that they are inactive,
/// to the offers of that shop of that user; deleting an offer deletes only
/// the offer `offer_id` of `user_id`.
pub proof fn lemma_offer_deactivate_and_delete(user_id: Seq<char>, shop_id: u128, offer_id: u128)
    ensures
        ({
            let p = spec_offer_deactivate_for_shop(user_id, shop_id);
            &&& p.kind == WriteKind::Update
            &&& p.table == Column::Offer(OfferIden::Table)
            &&& p.values == seq![(Column::Offer(OfferIden::IsActive), ValueView::Bool(false))]
            &&& restricts(p, ConditionView::Eq(Column::Offer(OfferIden::UserId), ValueView::Text(user_id)))
            &&& restricts(p, ConditionView::Eq(Column::Offer(OfferIden::ShopId), ValueView::Uuid(shop_id)))
        }),
        ({
            let p = spec_offer_delete(user_id, offer_id);
            &&& p.kind == WriteKind::Delete
            &&& p.table == Column::Offer(OfferIden::Table)
            &&& restricts(p, ConditionView::Eq(Column::Offer(OfferIden::UserId), ValueView::Text(user_id)))
            &&& restricts(p, ConditionView::Eq(Column::Offer(OfferIden::OfferId), ValueView::Uuid(offer_id)))
        }),
{
    broadcast use vstd::seq_lib::lemma_seq_contains_after_push;

    assert(spec_offer_deactivate_for_shop(user_id, shop_id).values =~= seq![
        (Column::Offer(OfferIden::IsActive), ValueView::Bool(false)),
    ]);
}

/// The images of an offer, once sorted, are as many as before, each one of
/// them, in ascending `ordering`, two images of equal `ordering` in the
/// order they came.
pub proof fn lemma_sorted_images_ascend(out: Seq<OfferImageAsRel>, orig: Seq<OfferImageAsRel>)
    requires
        is_stable_sort_by_ordering(out, orig),
    ensures
        out.len() == orig.len(),
        forall|i: int| 0 <= i < out.len() ==> orig.contains(#[trigger] out[i]),
        forall|i: int, j: int|
            0 <= i < j < out.len() ==> (#[trigger] out[i]).ordering <= (#[trigger] out[j]).ordering,
        exists|perm: Seq<int>|
            perm.len() == out.len() && (forall|i: int, j: int|
                0 <= i < j < out.len() && (#[trigger] out[i]).ordering == (#[trigger] out[j]).ordering
                    ==> perm[i] < perm[j]) && (forall|i: int|
                0 <= i < out.len() ==> 0 <= #[trigger] perm[i] < orig.len() && out[i] == orig[perm[i]]),
{
    let perm = choose|perm: Seq<int>| is_stable_sort_witness(out, orig, perm);
    assert forall|i: int| 0 <= i < out.len() implies orig.contains(#[trigger] out[i]) by {
        assert(0 <= perm[i] < orig.len());
        assert(out[i] == orig[perm[i]]);
    }
}

/// A refused filter query is answered as an argument error naming
/// `filter.query`.
pub proof fn lemma_refused_filter_query<T>(r: Result<T, DbError>)
    ensures
        refuses_filter_query(r) <==> (r matches Err(DbError::Argument(m)) && m@ == "filter.query"@),
{
}

} // verus!
