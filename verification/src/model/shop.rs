//! Shops: their records and the statements that list and look them up.
use vstd::prelude::*;

use super::iden::ShopIden;
use super::query::{
    customization_columns, kinds_of, spec_gathered, spec_group_by, spec_joins, GroupKeyView,
    opt_text_to_value, opt_text_value, opt_view, owned_by, spec_order_of, spec_select_all,
    spec_write, Column, Condition, ConditionView, Order, OrderTerm, Rank, RankView, SelectPlan,
    SelectPlanView, Value, ValueView, WriteKind, WritePlan, WritePlanView, restricts, writes,
    writes_column,
};
use super::record::{spec_read_record_array, AsRecord, FieldKind};
use super::shop_customization::{customization_kinds, ShopCustomizationAsRel, ShopCustomizationAsRelVec};
use crate::api::{Direction, ShopsFilterField, ShopsOrderByField};

verus! {

/// A shop as it is stored, its times in seconds since the Unix epoch.
#[derive(Debug)]
pub struct Shop {
    pub shop_id: u128,
    pub user_id: String,
    pub created_at: i64,
    pub updated_at: i64,
    pub slug: String,
    pub domain: Option<String>,
    pub name: String,
    pub description: Option<String>,
    pub platform_fee_percent: u32,
    pub minimum_platform_fee_cent: u32,
    pub customization: Option<ShopCustomizationAsRel>,
    pub is_active: bool,
    pub contact_email_address: Option<String>,
    pub client_id: Option<String>,
    /// The website the shop was created for, where there is one.
    pub website_id: Option<String>,
}

/// The order term for listing shops by `field` in `direction`.
pub open spec fn spec_shop_order_term(field: ShopsOrderByField, direction: Direction) -> OrderTerm {
    let order = spec_order_of(direction == Direction::Desc);
    match field {
        ShopsOrderByField::Unspecified | ShopsOrderByField::CreatedAt => OrderTerm::Column(
            Column::Shop(ShopIden::CreatedAt),
            order,
        ),
        ShopsOrderByField::UpdatedAt => OrderTerm::Column(Column::Shop(ShopIden::UpdatedAt), order),
        ShopsOrderByField::Name => OrderTerm::Column(Column::Shop(ShopIden::Name), order),
        ShopsOrderByField::Random => OrderTerm::Random,
    }
}

/// The rank of the name of a shop against the query `q`.
pub open spec fn shop_name_rank(q: Seq<char>) -> RankView {
    RankView { column: Column::Shop(ShopIden::NameTs), query: q, alias: "name_ts_rank"@ }
}

/// The rank of the description of a shop against the query `q`.
pub open spec fn shop_description_rank(q: Seq<char>) -> RankView {
    RankView {
        column: Column::Shop(ShopIden::DescriptionTs),
        query: q,
        alias: "description_ts_rank"@,
    }
}

/// `plan` filtered by the text query `q` on `field`, ranked by how well each
/// searched column matches.
pub open spec fn spec_shop_filter(
    plan: SelectPlanView,
    field: ShopsFilterField,
    q: Seq<char>,
) -> SelectPlanView {
    match field {
        ShopsFilterField::Unspecified => plan,
        ShopsFilterField::Name => plan.with_rank(shop_name_rank(q)).with_condition(
            ConditionView::Matches(Column::Shop(ShopIden::NameTs), q),
        ),
        ShopsFilterField::Description => plan.with_rank(shop_description_rank(q)).with_condition(
            ConditionView::Matches(Column::Shop(ShopIden::DescriptionTs), q),
        ),
        ShopsFilterField::NameAndDescription => plan.with_rank(shop_name_rank(q)).with_rank(
            shop_description_rank(q),
        ).with_condition(
            ConditionView::MatchesEither(
                Column::Shop(ShopIden::NameTs),
                Column::Shop(ShopIden::DescriptionTs),
                q,
            ),
        ),
    }
}

/// The condition that keeps the shops that are active or belong to `user`.
pub open spec fn shop_visible_to(user: Option<Seq<char>>) -> ConditionView {
    ConditionView::ActiveOrOwnedBy(Column::Shop(ShopIden::IsActive), Column::Shop(ShopIden::UserId), user)
}

/// The statement that lists shops.
pub open spec fn spec_shop_list(
    user_id: Option<Seq<char>>,
    limit: u64,
    offset: u64,
    filter: Option<(ShopsFilterField, Seq<char>)>,
    order_by: Option<(ShopsOrderByField, Direction)>,
    extended: bool,
    request_user_id: Option<Seq<char>>,
) -> SelectPlanView {
    let p0 = spec_select_all(Column::Shop(ShopIden::Table), extended);
    let p1 = match user_id {
        Some(u) => p0.with_condition(
            ConditionView::Eq(Column::Shop(ShopIden::UserId), ValueView::Text(u)),
        ),
        None => p0,
    };
    let p2 = match filter {
        Some((f, q)) => spec_shop_filter(p1, f, q),
        None => p1,
    };
    let p3 = match order_by {
        Some((f, d)) => p2.with_order(spec_shop_order_term(f, d)),
        None => p2,
    };
    p3.with_condition(shop_visible_to(request_user_id)).with_page(limit, offset)
}

/// The statement that looks up one shop by the column `key` holding `value`,
/// among the shops visible to `user_id`.
pub open spec fn spec_shop_lookup(
    key: ShopIden,
    value: ValueView,
    user_id: Option<Seq<char>>,
    extended: bool,
) -> SelectPlanView {
    spec_select_all(Column::Shop(ShopIden::Table), extended).with_condition(ConditionView::Eq(Column::Shop(key), value)).with_condition(
    shop_visible_to(user_id))
}

fn clone_opt(s: Option<&String>) -> (r: Option<String>)
    ensures
        r == (match s {
            Some(t) => Some(*t),
            None => None,
        }),
{
    match s {
        Some(t) => Some(t.clone()),
        None => None,
    }
}

impl Shop {
    const NAME_TS_RANK_ALIAS: &'static str = "name_ts_rank";

    const DESCRIPTION_TS_RANK_ALIAS: &'static str = "description_ts_rank";

    /// Orders the listing by `order_by_field` in `order_by_direction`; an
    /// unspecified field orders by creation, an unspecified direction
    /// ascends, and a random order ignores the direction.
    pub fn add_order_by(
        query: &mut SelectPlan,
        order_by_field: ShopsOrderByField,
        order_by_direction: Direction,
    )
        ensures
            final(query)@ == old(query)@.with_order(
                spec_shop_order_term(order_by_field, order_by_direction),
            ),
    {
        let order = match order_by_direction {
            Direction::Unspecified | Direction::Asc => Order::Asc,
            Direction::Desc => Order::Desc,
        };
        let term = match order_by_field {
            ShopsOrderByField::Unspecified | ShopsOrderByField::CreatedAt => OrderTerm::Column(
                Column::Shop(ShopIden::CreatedAt),
                order,
            ),
            ShopsOrderByField::UpdatedAt => OrderTerm::Column(
                Column::Shop(ShopIden::UpdatedAt),
                order,
            ),
            ShopsOrderByField::Name => OrderTerm::Column(Column::Shop(ShopIden::Name), order),
            ShopsOrderByField::Random => OrderTerm::Random,
        };
        query.add_order(term);
    }

    /// Keeps the shops whose name, description or either matches the text
    /// query, and selects how well each searched column matches.
    pub fn add_filter(query: &mut SelectPlan, filter_field: ShopsFilterField, filter_query: String)
        ensures
            final(query)@ == spec_shop_filter(old(query)@, filter_field, filter_query@),
    {
        proof {
            reveal_strlit("name_ts_rank");
            reveal_strlit("description_ts_rank");
        }
        match filter_field {
            ShopsFilterField::Unspecified => {},
            ShopsFilterField::Name => {
                query.add_rank(
                    Rank {
                        column: Column::Shop(ShopIden::NameTs),
                        query: filter_query.clone(),
                        alias: Self::NAME_TS_RANK_ALIAS,
                    },
                );
                query.add_condition(Condition::Matches(Column::Shop(ShopIden::NameTs), filter_query));
            },
            ShopsFilterField::Description => {
                query.add_rank(
                    Rank {
                        column: Column::Shop(ShopIden::DescriptionTs),
                        query: filter_query.clone(),
                        alias: Self::DESCRIPTION_TS_RANK_ALIAS,
                    },
                );
                query.add_condition(
                    Condition::Matches(Column::Shop(ShopIden::DescriptionTs), filter_query),
                );
            },
            ShopsFilterField::NameAndDescription => {
                query.add_rank(
                    Rank {
                        column: Column::Shop(ShopIden::NameTs),
                        query: filter_query.clone(),
                        alias: Self::NAME_TS_RANK_ALIAS,
                    },
                );
                query.add_rank(
                    Rank {
                        column: Column::Shop(ShopIden::DescriptionTs),
                        query: filter_query.clone(),
                        alias: Self::DESCRIPTION_TS_RANK_ALIAS,
                    },
                );
                query.add_condition(
                    Condition::MatchesEither(
                        Column::Shop(ShopIden::NameTs),
                        Column::Shop(ShopIden::DescriptionTs),
                        filter_query,
                    ),
                );
            },
        }
    }

    /// The statement that lists shops: those of `user_id` where it is given,
    /// filtered and ordered as asked, among those visible to the requesting
    /// user, one page of them.
    #[allow(clippy::too_many_arguments)]
    pub fn list_query(
        user_id: Option<&String>,
        limit: u64,
        offset: u64,
        filter: Option<(ShopsFilterField, String)>,
        order_by: Option<(ShopsOrderByField, Direction)>,
        extended: bool,
        request_user_id: Option<&String>,
    ) -> (r: SelectPlan)
        ensures
            r@ == spec_shop_list(
                match user_id {
                    Some(u) => Some(u@),
                    None => None,
                },
                limit,
                offset,
                match filter {
                    Some((f, q)) => Some((f, q@)),
                    None => None,
                },
                order_by,
                extended,
                match request_user_id {
                    Some(u) => Some(u@),
                    None => None,
                },
            ),
    {
        let mut query = SelectPlan::select_all(Column::Shop(ShopIden::Table), extended);
        if let Some(user_id) = user_id {
            query.add_condition(
                Condition::Eq(Column::Shop(ShopIden::UserId), Value::Text(user_id.clone())),
            );
        }
        if let Some((filter_field, filter_query)) = filter {
            Self::add_filter(&mut query, filter_field, filter_query);
        }
        if let Some((order_by_field, order_by_direction)) = order_by {
            Self::add_order_by(&mut query, order_by_field, order_by_direction);
        }
        query.add_condition(
            Condition::ActiveOrOwnedBy(
                Column::Shop(ShopIden::IsActive),
                Column::Shop(ShopIden::UserId),
                clone_opt(request_user_id),
            ),
        );
        query.set_page(limit, offset);
        query
    }

    /// The statement that looks up the shop with id `shop_id`, if it is
    /// active or belongs to `user_id`.
    pub fn get_query(shop_id: u128, user_id: Option<&String>, extended: bool) -> (r: SelectPlan)
        ensures
            r@ == spec_shop_lookup(
                ShopIden::ShopId,
                ValueView::Uuid(shop_id),
                match user_id {
                    Some(u) => Some(u@),
                    None => None,
                },
                extended,
            ),
    {
        Self::lookup_query(ShopIden::ShopId, Value::Uuid(shop_id), user_id, extended)
    }

    /// The statement that looks up the shop with the slug `slug`, if it is
    /// active or belongs to `user_id`.
    pub fn get_by_slug_query(slug: &String, user_id: Option<&String>, extended: bool) -> (r:
        SelectPlan)
        ensures
            r@ == spec_shop_lookup(
                ShopIden::Slug,
                ValueView::Text(slug@),
                match user_id {
                    Some(u) => Some(u@),
                    None => None,
                },
                extended,
            ),
    {
        Self::lookup_query(ShopIden::Slug, Value::Text(slug.clone()), user_id, extended)
    }

    /// The statement that looks up the shop on the domain `domain`, if it is
    /// active or belongs to `user_id`.
    pub fn get_by_domain_query(domain: &String, user_id: Option<&String>, extended: bool) -> (r:
        SelectPlan)
        ensures
            r@ == spec_shop_lookup(
                ShopIden::Domain,
                ValueView::Text(domain@),
                match user_id {
                    Some(u) => Some(u@),
                    None => None,
                },
                extended,
            ),
    {
        Self::lookup_query(ShopIden::Domain, Value::Text(domain.clone()), user_id, extended)
    }

    fn lookup_query(key: ShopIden, value: Value, user_id: Option<&String>, extended: bool) -> (r:
        SelectPlan)
        ensures
            r@ == spec_shop_lookup(
                key,
                value@,
                match user_id {
                    Some(u) => Some(u@),
                    None => None,
                },
                extended,
            ),
    {
        let mut query = SelectPlan::select_all(Column::Shop(ShopIden::Table), extended);
        query.add_condition(Condition::Eq(Column::Shop(key), value));
        query.add_condition(
            Condition::ActiveOrOwnedBy(
                Column::Shop(ShopIden::IsActive),
                Column::Shop(ShopIden::UserId),
                clone_opt(user_id),
            ),
        );
        query
    }
}

/// The statement that updates the shop `shop_id` of `user_id`: it writes the
/// fields given, and only a shop of that user.
pub open spec fn spec_shop_update(
    user_id: Seq<char>,
    shop_id: u128,
    name: Option<Seq<char>>,
    slug: Option<Seq<char>>,
    description: Option<Seq<char>>,
    platform_fee_percent: Option<u32>,
    minimum_platform_fee_cent: Option<u32>,
    is_active: Option<bool>,
    contact_email_address: Option<Seq<char>>,
) -> WritePlanView {
    spec_write(WriteKind::Update, Column::Shop(ShopIden::Table), true).set_opt(
        Column::Shop(ShopIden::Name),
        match name {
            Some(v) => Some(ValueView::Text(v)),
            None => None,
        },
    ).set_opt(
        Column::Shop(ShopIden::Slug),
        match slug {
            Some(v) => Some(ValueView::Text(v)),
            None => None,
        },
    ).set_opt(
        Column::Shop(ShopIden::Description),
        match description {
            Some(v) => Some(ValueView::Text(v)),
            None => None,
        },
    ).set_opt(
        Column::Shop(ShopIden::PlatformFeePercent),
        match platform_fee_percent {
            Some(v) => Some(ValueView::Int(v as i64)),
            None => None,
        },
    ).set_opt(
        Column::Shop(ShopIden::MinimumPlatformFeeCent),
        match minimum_platform_fee_cent {
            Some(v) => Some(ValueView::Int(v as i64)),
            None => None,
        },
    ).set_opt(
        Column::Shop(ShopIden::IsActive),
        match is_active {
            Some(v) => Some(ValueView::Bool(v)),
            None => None,
        },
    ).set_opt(
        Column::Shop(ShopIden::ContactEmailAddress),
        match contact_email_address {
            Some(v) => Some(ValueView::Text(v)),
            None => None,
        },
    ).with_condition(owned_by(Column::Shop(ShopIden::UserId), user_id)).with_condition(
        ConditionView::Eq(Column::Shop(ShopIden::ShopId), ValueView::Uuid(shop_id)),
    )
}

/// The statement that deletes the shop `shop_id` of `user_id`, and only a
/// shop of that user.
pub open spec fn spec_shop_delete(user_id: Seq<char>, shop_id: u128) -> WritePlanView {
    spec_write(WriteKind::Delete, Column::Shop(ShopIden::Table), true).with_condition(
        owned_by(Column::Shop(ShopIden::UserId), user_id),
    ).with_condition(ConditionView::Eq(Column::Shop(ShopIden::ShopId), ValueView::Uuid(shop_id)))
}

impl Shop {
    /// The statement that creates a shop of `user_id`; a missing description
    /// is stored empty.
    pub fn create_query(
        user_id: &String,
        name: &String,
        slug: &String,
        description: Option<String>,
        platform_fee_percent: u32,
        minimum_platform_fee_cent: u32,
    ) -> (r: WritePlan)
        ensures
            r@ == spec_write(WriteKind::Insert, Column::Shop(ShopIden::Table), true).set(
                Column::Shop(ShopIden::UserId),
                ValueView::Text(user_id@),
            ).set(Column::Shop(ShopIden::Name), ValueView::Text(name@)).set(
                Column::Shop(ShopIden::Slug),
                ValueView::Text(slug@),
            ).set(
                Column::Shop(ShopIden::Description),
                ValueView::Text(
                    match description {
                        Some(d) => d@,
                        None => seq![],
                    },
                ),
            ).set(
                Column::Shop(ShopIden::PlatformFeePercent),
                ValueView::Int(platform_fee_percent as i64),
            ).set(
                Column::Shop(ShopIden::MinimumPlatformFeeCent),
                ValueView::Int(minimum_platform_fee_cent as i64),
            ),
    {
        let mut q = WritePlan::new(WriteKind::Insert, Column::Shop(ShopIden::Table), true);
        q.set(Column::Shop(ShopIden::UserId), Value::Text(user_id.clone()));
        q.set(Column::Shop(ShopIden::Name), Value::Text(name.clone()));
        q.set(Column::Shop(ShopIden::Slug), Value::Text(slug.clone()));
        let description = match description {
            Some(d) => d,
            None => String::new(),
        };
        q.set(Column::Shop(ShopIden::Description), Value::Text(description));
        q.set(Column::Shop(ShopIden::PlatformFeePercent), Value::Int(platform_fee_percent as i64));
        q.set(
            Column::Shop(ShopIden::MinimumPlatformFeeCent),
            Value::Int(minimum_platform_fee_cent as i64),
        );
        q
    }

    /// The statement that updates the fields given of the shop `shop_id` of
    /// `user_id`.
    #[allow(clippy::too_many_arguments)]
    pub fn update_query(
        user_id: &String,
        shop_id: u128,
        name: Option<String>,
        slug: Option<String>,
        description: Option<String>,
        platform_fee_percent: Option<u32>,
        minimum_platform_fee_cent: Option<u32>,
        is_active: Option<bool>,
        contact_email_address: Option<String>,
    ) -> (r: WritePlan)
        ensures
            r@ == spec_shop_update(
                user_id@,
                shop_id,
                opt_view(name),
                opt_view(slug),
                opt_view(description),
                platform_fee_percent,
                minimum_platform_fee_cent,
                is_active,
                opt_view(contact_email_address),
            ),
    {
        let mut q = WritePlan::new(WriteKind::Update, Column::Shop(ShopIden::Table), true);
        if let Some(name) = name {
            q.set(Column::Shop(ShopIden::Name), Value::Text(name));
        }
        if let Some(slug) = slug {
            q.set(Column::Shop(ShopIden::Slug), Value::Text(slug));
        }
        if let Some(description) = description {
            q.set(Column::Shop(ShopIden::Description), Value::Text(description));
        }
        if let Some(pfp) = platform_fee_percent {
            q.set(Column::Shop(ShopIden::PlatformFeePercent), Value::Int(pfp as i64));
        }
        if let Some(mpfc) = minimum_platform_fee_cent {
            q.set(Column::Shop(ShopIden::MinimumPlatformFeeCent), Value::Int(mpfc as i64));
        }
        if let Some(is_active) = is_active {
            q.set(Column::Shop(ShopIden::IsActive), Value::Bool(is_active));
        }
        if let Some(contact_email_address) = contact_email_address {
            q.set(Column::Shop(ShopIden::ContactEmailAddress), Value::Text(contact_email_address));
        }
        q.add_condition(Condition::Eq(Column::Shop(ShopIden::UserId), Value::Text(user_id.clone())));
        q.add_condition(Condition::Eq(Column::Shop(ShopIden::ShopId), Value::Uuid(shop_id)));
        q
    }

    /// The statement that sets (or clears) the domain of the shop `shop_id`.
    pub fn update_domain_query(shop_id: u128, domain: Option<String>) -> (r: WritePlan)
        ensures
            r@ == spec_write(WriteKind::Update, Column::Shop(ShopIden::Table), true).set(
                Column::Shop(ShopIden::Domain),
                ValueView::OptText(opt_view(domain)),
            ).with_condition(
                ConditionView::Eq(Column::Shop(ShopIden::ShopId), ValueView::Uuid(shop_id)),
            ),
    {
        let mut q = WritePlan::new(WriteKind::Update, Column::Shop(ShopIden::Table), true);
        q.set(Column::Shop(ShopIden::Domain), Value::OptText(domain));
        q.add_condition(Condition::Eq(Column::Shop(ShopIden::ShopId), Value::Uuid(shop_id)));
        q
    }

    /// The statement that deletes the shop `shop_id` of `user_id`.
    pub fn delete_query(user_id: &String, shop_id: u128) -> (r: WritePlan)
        ensures
            r@ == spec_shop_delete(user_id@, shop_id),
    {
        let mut q = WritePlan::new(WriteKind::Delete, Column::Shop(ShopIden::Table), true);
        q.add_condition(Condition::Eq(Column::Shop(ShopIden::UserId), Value::Text(user_id.clone())));
        q.add_condition(Condition::Eq(Column::Shop(ShopIden::ShopId), Value::Uuid(shop_id)));
        q
    }
}

/// A shop is updated or deleted only by the user it belongs to: the
/// statements keep only the rows of that user.
pub proof fn lemma_shop_writes_are_owned(
    user_id: Seq<char>,
    shop_id: u128,
    name: Option<Seq<char>>,
    slug: Option<Seq<char>>,
    description: Option<Seq<char>>,
    platform_fee_percent: Option<u32>,
    minimum_platform_fee_cent: Option<u32>,
    is_active: Option<bool>,
    contact_email_address: Option<Seq<char>>,
)
    ensures
        spec_shop_update(
            user_id,
            shop_id,
            name,
            slug,
            description,
            platform_fee_percent,
            minimum_platform_fee_cent,
            is_active,
            contact_email_address,
        ).conditions.contains(owned_by(Column::Shop(ShopIden::UserId), user_id)),
        spec_shop_delete(user_id, shop_id).conditions.contains(
            owned_by(Column::Shop(ShopIden::UserId), user_id),
        ),
{
    let u = spec_shop_update(
        user_id,
        shop_id,
        name,
        slug,
        description,
        platform_fee_percent,
        minimum_platform_fee_cent,
        is_active,
        contact_email_address,
    );
    assert(u.conditions[0] == owned_by(Column::Shop(ShopIden::UserId), user_id));
    assert(spec_shop_delete(user_id, shop_id).conditions[0] == owned_by(
        Column::Shop(ShopIden::UserId),
        user_id,
    ));
}

/// Every statement that lists shops keeps only the shops that are active or
/// belong to the requesting user.
pub proof fn lemma_shop_list_shows_only_visible(
    user_id: Option<Seq<char>>,
    limit: u64,
    offset: u64,
    filter: Option<(ShopsFilterField, Seq<char>)>,
    order_by: Option<(ShopsOrderByField, Direction)>,
    extended: bool,
    request_user_id: Option<Seq<char>>,
)
    ensures
        spec_shop_list(
            user_id,
            limit,
            offset,
            filter,
            order_by,
            extended,
            request_user_id,
        ).conditions.contains(shop_visible_to(request_user_id)),
{
    let p = spec_shop_list(user_id, limit, offset, filter, order_by, extended, request_user_id);
    assert(p.conditions.last() == shop_visible_to(request_user_id));
}

impl Shop {
    /// The customization that comes with a shop in the column `raw`: the
    /// first of the array's customization records; none where there is none,
    /// or the column is `NULL` or does not read as an array of customization
    /// records.
    pub fn customization_from_column(raw: Option<&[u8]>) -> (r: Option<ShopCustomizationAsRel>)
        ensures
            match raw {
                Some(b) => match spec_read_record_array(
                    b@,
                    |b: Seq<u8>| ShopCustomizationAsRel::spec_record(b),
                ) {
                    Some(fss) => if fss.len() > 0 {
                        r matches Some(c) && c.record_fields() == fss[0]
                    } else {
                        r is None
                    },
                    None => r is None,
                },
                None => r is None,
            },
    {
        let mut customizations = match raw {
            Some(b) => match ShopCustomizationAsRelVec::from_array(b) {
                Some(v) => v.0,
                None => {
                    return None;
                },
            },
            None => {
                return None;
            },
        };
        if customizations.len() == 0 {
            None
        } else {
            Some(customizations.remove(0))
        }
    }
}

/// The customization gathered with each shop listed with its relations is
/// read back by the customization decoder: each gathered column holds a
/// value of the kind that the decoder reads at its place, and the shops are
/// grouped by their id, one row per shop.
pub proof fn lemma_shop_relations_read_back()
    ensures
        spec_gathered(Column::Shop(ShopIden::Table))[0].columns == customization_columns(),
        kinds_of(customization_columns()) == customization_kinds().map_values(
            |k: FieldKind| Some(k),
        ),
        spec_joins(Column::Shop(ShopIden::Table)).len() == 1,
        spec_group_by(Column::Shop(ShopIden::Table)) == seq![
            GroupKeyView::Column(Column::Shop(ShopIden::ShopId)),
        ],
{
    assert(kinds_of(customization_columns()) =~= customization_kinds().map_values(
        |k: FieldKind| Some(k),
    ));
}

/// The statement that creates the shop of the website `website_id` for
/// `user_id`: named `name`, with the website id as its slug, and the lowest
/// platform fees allowed.
pub open spec fn spec_shop_create_for_website(
    user_id: Seq<char>,
    name: Seq<char>,
    website_id: Seq<char>,
    platform_fee_percent: u32,
    minimum_platform_fee_cent: u32,
) -> WritePlanView {
    spec_write(WriteKind::Insert, Column::Shop(ShopIden::Table), true).set(
        Column::Shop(ShopIden::UserId),
        ValueView::Text(user_id),
    ).set(Column::Shop(ShopIden::Name), ValueView::Text(name)).set(
        Column::Shop(ShopIden::Slug),
        ValueView::Text(website_id),
    ).set(Column::Shop(ShopIden::WebsiteId), ValueView::Text(website_id)).set(
        Column::Shop(ShopIden::PlatformFeePercent),
        ValueView::Int(platform_fee_percent as i64),
    ).set(
        Column::Shop(ShopIden::MinimumPlatformFeeCent),
        ValueView::Int(minimum_platform_fee_cent as i64),
    )
}

/// The statement that deletes the shop of the website `website_id`.
pub open spec fn spec_shop_delete_for_website(website_id: Seq<char>) -> WritePlanView {
    spec_write(WriteKind::Delete, Column::Shop(ShopIden::Table), false).with_condition(
        ConditionView::Eq(Column::Shop(ShopIden::WebsiteId), ValueView::Text(website_id)),
    )
}

impl Shop {
    /// The statement that looks up the shop of the website `website_id`.
    pub fn get_by_website_id_query(website_id: &String) -> (r: SelectPlan)
        ensures
            r@ == spec_select_all(Column::Shop(ShopIden::Table), false).with_condition(
                ConditionView::Eq(Column::Shop(ShopIden::WebsiteId), ValueView::Text(website_id@)),
            ),
    {
        let mut q = SelectPlan::select_all(Column::Shop(ShopIden::Table), false);
        q.add_condition(
            Condition::Eq(Column::Shop(ShopIden::WebsiteId), Value::Text(website_id.clone())),
        );
        q
    }

    /// The statement that creates the shop of the website `website_id` for
    /// `user_id`, named `name`, with the website id as its slug.
    pub fn create_for_website_query(
        user_id: &String,
        name: &String,
        website_id: &String,
        platform_fee_percent: u32,
        minimum_platform_fee_cent: u32,
    ) -> (r: WritePlan)
        ensures
            r@ == spec_shop_create_for_website(
                user_id@,
                name@,
                website_id@,
                platform_fee_percent,
                minimum_platform_fee_cent,
            ),
    {
        let mut q = WritePlan::new(WriteKind::Insert, Column::Shop(ShopIden::Table), true);
        q.set(Column::Shop(ShopIden::UserId), Value::Text(user_id.clone()));
        q.set(Column::Shop(ShopIden::Name), Value::Text(name.clone()));
        q.set(Column::Shop(ShopIden::Slug), Value::Text(website_id.clone()));
        q.set(Column::Shop(ShopIden::WebsiteId), Value::Text(website_id.clone()));
        q.set(Column::Shop(ShopIden::PlatformFeePercent), Value::Int(platform_fee_percent as i64));
        q.set(
            Column::Shop(ShopIden::MinimumPlatformFeeCent),
            Value::Int(minimum_platform_fee_cent as i64),
        );
        q
    }

    /// The statement that deletes the shop of the website `website_id`.
    pub fn delete_for_website_id_query(website_id: &String) -> (r: WritePlan)
        ensures
            r@ == spec_shop_delete_for_website(website_id@),
    {
        let mut q = WritePlan::new(WriteKind::Delete, Column::Shop(ShopIden::Table), false);
        q.add_condition(
            Condition::Eq(Column::Shop(ShopIden::WebsiteId), Value::Text(website_id.clone())),
        );
        q
    }
}

/// Ordering shops by a field orders them by that field's column: creation
/// time (also where no field is named), update time or name, ascending unless
/// descending is asked; or at random.
pub proof fn lemma_shop_order_terms(d: Direction)
    ensures
        ({
            let o = if d == Direction::Desc { Order::Desc } else { Order::Asc };
            &&& spec_shop_order_term(ShopsOrderByField::Unspecified, d) == OrderTerm::Column(
                Column::Shop(ShopIden::CreatedAt),
                o,
            )
            &&& spec_shop_order_term(ShopsOrderByField::CreatedAt, d) == OrderTerm::Column(
                Column::Shop(ShopIden::CreatedAt),
                o,
            )
            &&& spec_shop_order_term(ShopsOrderByField::UpdatedAt, d) == OrderTerm::Column(
                Column::Shop(ShopIden::UpdatedAt),
                o,
            )
            &&& spec_shop_order_term(ShopsOrderByField::Name, d) == OrderTerm::Column(
                Column::Shop(ShopIden::Name),
                o,
            )
            &&& spec_shop_order_term(ShopsOrderByField::Random, d) == OrderTerm::Random
        }),
{
}

/// A text filter on shops searches the columns it names: the name, the
/// description, or either, ranking each searched column against the query
/// under its alias, and changes nothing else of the statement; no field
/// filters nothing.
pub proof fn lemma_shop_filter_searches_named_columns(plan: SelectPlanView, q: Seq<char>)
    ensures
        spec_shop_filter(plan, ShopsFilterField::Unspecified, q) == plan,
        spec_shop_filter(plan, ShopsFilterField::Name, q) == (SelectPlanView {
            ranks: plan.ranks.push(
                RankView { column: Column::Shop(ShopIden::NameTs), query: q, alias: "name_ts_rank"@ },
            ),
            conditions: plan.conditions.push(ConditionView::Matches(Column::Shop(ShopIden::NameTs), q)),
            ..plan
        }),
        spec_shop_filter(plan, ShopsFilterField::Description, q) == (SelectPlanView {
            ranks: plan.ranks.push(
                RankView {
                    column: Column::Shop(ShopIden::DescriptionTs),
                    query: q,
                    alias: "description_ts_rank"@,
                },
            ),
            conditions: plan.conditions.push(
                ConditionView::Matches(Column::Shop(ShopIden::DescriptionTs), q),
            ),
            ..plan
        }),
        spec_shop_filter(plan, ShopsFilterField::NameAndDescription, q) == (SelectPlanView {
            ranks: plan.ranks.push(
                RankView { column: Column::Shop(ShopIden::NameTs), query: q, alias: "name_ts_rank"@ },
            ).push(
                RankView {
                    column: Column::Shop(ShopIden::DescriptionTs),
                    query: q,
                    alias: "description_ts_rank"@,
                },
            ),
            conditions: plan.conditions.push(
                ConditionView::MatchesEither(
                    Column::Shop(ShopIden::NameTs),
                    Column::Shop(ShopIden::DescriptionTs),
                    q,
                ),
            ),
            ..plan
        }),
{
}

/// A listing of shops selects from the shops, answers the page asked for,
/// keeps only the shops of the user asked for, is ordered by the one term
/// asked for (or none), and is ranked only where a text filter is asked for.
pub proof fn lemma_shop_list_pages_and_orders(
    user_id: Option<Seq<char>>,
    limit: u64,
    offset: u64,
    filter: Option<(ShopsFilterField, Seq<char>)>,
    order_by: Option<(ShopsOrderByField, Direction)>,
    extended: bool,
    request_user_id: Option<Seq<char>>,
)
    ensures
        ({
            let p = spec_shop_list(user_id, limit, offset, filter, order_by, extended, request_user_id);
            &&& p.table == Column::Shop(ShopIden::Table)
            &&& p.limit == Some(limit)
            &&& p.offset == Some(offset)
            &&& (user_id matches Some(u) ==> p.conditions.contains(
                ConditionView::Eq(Column::Shop(ShopIden::UserId), ValueView::Text(u)),
            ))
            &&& (order_by matches Some((f, d)) ==> p.order == seq![spec_shop_order_term(f, d)])
            &&& (order_by is None ==> p.order.len() == 0)
            &&& (filter is None ==> p.ranks.len() == 0)
        }),
{
    let p0 = spec_select_all(Column::Shop(ShopIden::Table), extended);
    let p = spec_shop_list(user_id, limit, offset, filter, order_by, extended, request_user_id);
    if let Some(u) = user_id {
        assert(p.conditions[0] == ConditionView::Eq(Column::Shop(ShopIden::UserId), ValueView::Text(u)));
    }
    if let Some((f, q)) = filter {
        let p1 = match user_id {
            Some(u) => p0.with_condition(
                ConditionView::Eq(Column::Shop(ShopIden::UserId), ValueView::Text(u)),
            ),
            None => p0,
        };
        lemma_shop_filter_searches_named_columns(p1, q);
    }
    if let Some((f, d)) = order_by {
        assert(p.order =~= seq![spec_shop_order_term(f, d)]);
    }
}

/// An update of a shop writes each field it is given to that field's column
/// and nothing to the column of a field it is not given; it updates the
/// shops table, and only the shop `shop_id` of `user_id`.
pub proof fn lemma_shop_update_writes_given_fields(
    user_id: Seq<char>,
    shop_id: u128,
    name: Option<Seq<char>>,
    slug: Option<Seq<char>>,
    description: Option<Seq<char>>,
    platform_fee_percent: Option<u32>,
    minimum_platform_fee_cent: Option<u32>,
    is_active: Option<bool>,
    contact_email_address: Option<Seq<char>>,
)
    ensures
        ({
            let p = spec_shop_update(
                user_id,
                shop_id,
                name,
                slug,
                description,
                platform_fee_percent,
                minimum_platform_fee_cent,
                is_active,
                contact_email_address,
            );
            &&& p.kind == WriteKind::Update
            &&& p.table == Column::Shop(ShopIden::Table)
            &&& restricts(p, ConditionView::Eq(Column::Shop(ShopIden::UserId), ValueView::Text(user_id)))
            &&& restricts(p, ConditionView::Eq(Column::Shop(ShopIden::ShopId), ValueView::Uuid(shop_id)))
            &&& (name matches Some(v) ==> writes(p, Column::Shop(ShopIden::Name), ValueView::Text(v)))
            &&& (name is None ==> !writes_column(p, Column::Shop(ShopIden::Name)))
            &&& (slug matches Some(v) ==> writes(p, Column::Shop(ShopIden::Slug), ValueView::Text(v)))
            &&& (slug is None ==> !writes_column(p, Column::Shop(ShopIden::Slug)))
            &&& (description matches Some(v) ==> writes(
                p,
                Column::Shop(ShopIden::Description),
                ValueView::Text(v),
            ))
            &&& (description is None ==> !writes_column(p, Column::Shop(ShopIden::Description)))
            &&& (platform_fee_percent matches Some(v) ==> writes(
                p,
                Column::Shop(ShopIden::PlatformFeePercent),
                ValueView::Int(v as i64),
            ))
            &&& (platform_fee_percent is None ==> !writes_column(
                p,
                Column::Shop(ShopIden::PlatformFeePercent),
            ))
            &&& (minimum_platform_fee_cent matches Some(v) ==> writes(
                p,
                Column::Shop(ShopIden::MinimumPlatformFeeCent),
                ValueView::Int(v as i64),
            ))
            &&& (minimum_platform_fee_cent is None ==> !writes_column(
                p,
                Column::Shop(ShopIden::MinimumPlatformFeeCent),
            ))
            &&& (is_active matches Some(v) ==> writes(
                p,
                Column::Shop(ShopIden::IsActive),
                ValueView::Bool(v),
            ))
            &&& (is_active is None ==> !writes_column(p, Column::Shop(ShopIden::IsActive)))
            &&& (contact_email_address matches Some(v) ==> writes(
                p,
                Column::Shop(ShopIden::ContactEmailAddress),
                ValueView::Text(v),
            ))
            &&& (contact_email_address is None ==> !writes_column(
                p,
                Column::Shop(ShopIden::ContactEmailAddress),
            ))
        }),
{
    broadcast use vstd::seq_lib::lemma_seq_contains_after_push, vstd::seq_lib::lemma_seq_empty_contains_nothing;

}

/// The shop of a new website is created for its user, under the website's
/// name, with the website id as its slug and as the website it belongs to,
/// and with the fees given.
pub proof fn lemma_shop_create_for_website_writes(
    user_id: Seq<char>,
    name: Seq<char>,
    website_id: Seq<char>,
    platform_fee_percent: u32,
    minimum_platform_fee_cent: u32,
)
    ensures
        ({
            let p = spec_shop_create_for_website(
                user_id,
                name,
                website_id,
                platform_fee_percent,
                minimum_platform_fee_cent,
            );
            &&& p.kind == WriteKind::Insert
            &&& p.table == Column::Shop(ShopIden::Table)
            &&& writes(p, Column::Shop(ShopIden::UserId), ValueView::Text(user_id))
            &&& writes(p, Column::Shop(ShopIden::Name), ValueView::Text(name))
            &&& writes(p, Column::Shop(ShopIden::Slug), ValueView::Text(website_id))
            &&& writes(p, Column::Shop(ShopIden::WebsiteId), ValueView::Text(website_id))
            &&& writes(
                p,
                Column::Shop(ShopIden::PlatformFeePercent),
                ValueView::Int(platform_fee_percent as i64),
            )
            &&& writes(
                p,
                Column::Shop(ShopIden::MinimumPlatformFeeCent),
                ValueView::Int(minimum_platform_fee_cent as i64),
            )
        }),
        spec_shop_delete_for_website(website_id).kind == WriteKind::Delete,
        spec_shop_delete_for_website(website_id).table == Column::Shop(ShopIden::Table),
        spec_shop_delete_for_website(website_id).conditions == seq![
            ConditionView::Eq(Column::Shop(ShopIden::WebsiteId), ValueView::Text(website_id)),
        ],
{
    broadcast use vstd::seq_lib::lemma_seq_contains_after_push, vstd::seq_lib::lemma_seq_empty_contains_nothing;

    assert(spec_shop_delete_for_website(website_id).conditions =~= seq![
        ConditionView::Eq(Column::Shop(ShopIden::WebsiteId), ValueView::Text(website_id)),
    ]);
}

/// Looking a shop up by a column and a value selects from the shops the rows
/// whose column holds the value, among the shops visible to the user asking
/// (active ones, and the user's own), unordered and unpaged.
pub proof fn lemma_shop_lookup_selects_by_key(
    key: ShopIden,
    value: ValueView,
    user_id: Option<Seq<char>>,
    extended: bool,
)
    ensures
        ({
            let p = spec_shop_lookup(key, value, user_id, extended);
            &&& p.table == Column::Shop(ShopIden::Table)
            &&& p.conditions == seq![
                ConditionView::Eq(Column::Shop(key), value),
                ConditionView::ActiveOrOwnedBy(
                    Column::Shop(ShopIden::IsActive),
                    Column::Shop(ShopIden::UserId),
                    user_id,
                ),
            ]
            &&& p.order.len() == 0
            &&& p.ranks.len() == 0
            &&& p.limit is None
            &&& p.offset is None
        }),
{
    let p = spec_shop_lookup(key, value, user_id, extended);
    assert(p.conditions =~= seq![
        ConditionView::Eq(Column::Shop(key), value),
        ConditionView::ActiveOrOwnedBy(
            Column::Shop(ShopIden::IsActive),
            Column::Shop(ShopIden::UserId),
            user_id,
        ),
    ]);
}

/// Deleting a shop deletes from the shops only the shop `shop_id` of
/// `user_id`.
pub proof fn lemma_shop_delete_removes_one_owned_shop(user_id: Seq<char>, shop_id: u128)
    ensures
        ({
            let p = spec_shop_delete(user_id, shop_id);
            &&& p.kind == WriteKind::Delete
            &&& p.table == Column::Shop(ShopIden::Table)
            &&& p.values.len() == 0
            &&& p.conditions == seq![
                ConditionView::Eq(Column::Shop(ShopIden::UserId), ValueView::Text(user_id)),
                ConditionView::Eq(Column::Shop(ShopIden::ShopId), ValueView::Uuid(shop_id)),
            ]
        }),
{
    assert(spec_shop_delete(user_id, shop_id).conditions =~= seq![
        ConditionView::Eq(Column::Shop(ShopIden::UserId), ValueView::Text(user_id)),
        ConditionView::Eq(Column::Shop(ShopIden::ShopId), ValueView::Uuid(shop_id)),
    ]);
}

} // verus!
