//! Descriptions of the statements that list and look up records: which rows
//! they keep, what they rank by, and in what order they answer.
use vstd::prelude::*;

use super::iden::{
    OfferIden, OfferImageIden, OfferPriceIden, ShippingRateIden, ShopCustomizationIden,
    ShopDomainIden, ShopIden,
};
use super::record::FieldKind;

verus! {

/// A column of a table that statements filter or order on.
#[derive(Clone, Copy, Debug, PartialEq, Eq, Structural)]
pub enum Column {
    Shop(ShopIden),
    Offer(OfferIden),
    OfferImage(OfferImageIden),
    OfferPrice(OfferPriceIden),
    ShippingRate(ShippingRateIden),
    ShopCustomization(ShopCustomizationIden),
    ShopDomain(ShopDomainIden),
}

impl Column {
    /// The SQL name of the table of the column.
    pub open spec fn spec_table_name(self) -> Seq<char> {
        match self {
            Column::Shop(_) => ShopIden::Table.spec_name(),
            Column::Offer(_) => OfferIden::Table.spec_name(),
            Column::OfferImage(_) => OfferImageIden::Table.spec_name(),
            Column::OfferPrice(_) => OfferPriceIden::Table.spec_name(),
            Column::ShippingRate(_) => ShippingRateIden::Table.spec_name(),
            Column::ShopCustomization(_) => ShopCustomizationIden::Table.spec_name(),
            Column::ShopDomain(_) => ShopDomainIden::Table.spec_name(),
        }
    }

    /// The SQL name of the column (of the table, for a `Table` column).
    pub open spec fn spec_column_name(self) -> Seq<char> {
        match self {
            Column::Shop(c) => c.spec_name(),
            Column::Offer(c) => c.spec_name(),
            Column::OfferImage(c) => c.spec_name(),
            Column::OfferPrice(c) => c.spec_name(),
            Column::ShippingRate(c) => c.spec_name(),
            Column::ShopCustomization(c) => c.spec_name(),
            Column::ShopDomain(c) => c.spec_name(),
        }
    }

    /// The SQL name of the table of the column.
    pub fn table_name(&self) -> (r: &'static str)
        ensures
            r@ == self.spec_table_name(),
    {
        match self {
            Column::Shop(_) => ShopIden::Table.as_str(),
            Column::Offer(_) => OfferIden::Table.as_str(),
            Column::OfferImage(_) => OfferImageIden::Table.as_str(),
            Column::OfferPrice(_) => OfferPriceIden::Table.as_str(),
            Column::ShippingRate(_) => ShippingRateIden::Table.as_str(),
            Column::ShopCustomization(_) => ShopCustomizationIden::Table.as_str(),
            Column::ShopDomain(_) => ShopDomainIden::Table.as_str(),
        }
    }

    /// The SQL name of the column (of the table, for a `Table` column).
    pub fn column_name(&self) -> (r: &'static str)
        ensures
            r@ == self.spec_column_name(),
    {
        match self {
            Column::Shop(c) => c.as_str(),
            Column::Offer(c) => c.as_str(),
            Column::OfferImage(c) => c.as_str(),
            Column::OfferPrice(c) => c.as_str(),
            Column::ShippingRate(c) => c.as_str(),
            Column::ShopCustomization(c) => c.as_str(),
            Column::ShopDomain(c) => c.as_str(),
        }
    }
}

/// A sort order.
#[derive(Clone, Copy, Debug, PartialEq, Eq, Structural)]
pub enum Order {
    Asc,
    Desc,
}

/// A value that a column is compared with.
#[derive(Debug)]
pub enum Value {
    Uuid(u128),
    Text(String),
    Bool(bool),
    Int(i64),
    /// A text or `NULL`.
    OptText(Option<String>),
    /// An integer or `NULL`.
    OptInt(Option<i64>),
}

/// A value, with its text as characters.
pub enum ValueView {
    Uuid(u128),
    Text(Seq<char>),
    Bool(bool),
    Int(i64),
    OptText(Option<Seq<char>>),
    OptInt(Option<i64>),
}

impl View for Value {
    type V = ValueView;

    open spec fn view(&self) -> ValueView {
        match self {
            Value::Uuid(u) => ValueView::Uuid(*u),
            Value::Text(s) => ValueView::Text(s@),
            Value::Bool(b) => ValueView::Bool(*b),
            Value::Int(i) => ValueView::Int(*i),
            Value::OptText(o) => ValueView::OptText(opt_view(*o)),
            Value::OptInt(o) => ValueView::OptInt(*o),
        }
    }
}

/// A condition that the rows of a statement must meet.
#[derive(Debug)]
pub enum Condition {
    /// The column holds the value.
    Eq(Column, Value),
    /// The text search column matches the plain text query
    /// (`plainto_tsquery` with the `simple` configuration).
    Matches(Column, String),
    /// One of the two text search columns matches the plain text query.
    MatchesEither(Column, Column, String),
    /// The row is active, or it belongs to the given user (where there is
    /// one).
    ActiveOrOwnedBy(Column, Column, Option<String>),
}

/// A condition, with its texts as characters.
pub enum ConditionView {
    Eq(Column, ValueView),
    Matches(Column, Seq<char>),
    MatchesEither(Column, Column, Seq<char>),
    ActiveOrOwnedBy(Column, Column, Option<Seq<char>>),
}

impl View for Condition {
    type V = ConditionView;

    open spec fn view(&self) -> ConditionView {
        match self {
            Condition::Eq(c, v) => ConditionView::Eq(*c, v@),
            Condition::Matches(c, q) => ConditionView::Matches(*c, q@),
            Condition::MatchesEither(a, b, q) => ConditionView::MatchesEither(*a, *b, q@),
            Condition::ActiveOrOwnedBy(a, u, o) => ConditionView::ActiveOrOwnedBy(
                *a,
                *u,
                match o {
                    Some(s) => Some(s@),
                    None => None,
                },
            ),
        }
    }
}

/// A selected rank: how well a text search column matches a plain text
/// query (`ts_rank`), answered under the alias.
#[derive(Debug)]
pub struct Rank {
    pub column: Column,
    pub query: String,
    pub alias: &'static str,
}

/// A rank, with its texts as characters.
pub struct RankView {
    pub column: Column,
    pub query: Seq<char>,
    pub alias: Seq<char>,
}

impl View for Rank {
    type V = RankView;

    open spec fn view(&self) -> RankView {
        RankView { column: self.column, query: self.query@, alias: self.alias@ }
    }
}

/// A term of the order in which rows are answered.
#[derive(Clone, Copy, Debug, PartialEq, Eq, Structural)]
pub enum OrderTerm {
    Column(Column, Order),
    Random,
}

/// A table joined to the selected rows: its rows whose column `key` holds
/// the value of the selected row's column `on`.
#[derive(Clone, Copy, Debug, PartialEq, Eq, Structural)]
pub struct Join {
    pub table: Column,
    pub key: Column,
    pub on: Column,
}

/// The columns of the joined rows of a table, gathered into one array of
/// records (`array_agg` of the tuple of the columns, in order) answered under
/// the alias.
#[derive(Debug)]
pub struct Gathered {
    pub columns: Vec<Column>,
    pub alias: &'static str,
}

/// A gathered relation, with its alias as characters.
pub struct GatheredView {
    pub columns: Seq<Column>,
    pub alias: Seq<char>,
}

impl View for Gathered {
    type V = GatheredView;

    open spec fn view(&self) -> GatheredView {
        GatheredView { columns: self.columns@, alias: self.alias@ }
    }
}

/// A column of a joined table answered under the alias.
#[derive(Debug)]
pub struct JoinedColumn {
    pub column: Column,
    pub alias: &'static str,
}

/// A joined column, with its alias as characters.
pub struct JoinedColumnView {
    pub column: Column,
    pub alias: Seq<char>,
}

impl View for JoinedColumn {
    type V = JoinedColumnView;

    open spec fn view(&self) -> JoinedColumnView {
        JoinedColumnView { column: self.column, alias: self.alias@ }
    }
}

/// What the answered rows are grouped by: a column, or an answered alias.
#[derive(Debug)]
pub enum GroupKey {
    Column(Column),
    Alias(&'static str),
}

/// A group key, with its alias as characters.
pub enum GroupKeyView {
    Column(Column),
    Alias(Seq<char>),
}

impl View for GroupKey {
    type V = GroupKeyView;

    open spec fn view(&self) -> GroupKeyView {
        match self {
            GroupKey::Column(c) => GroupKeyView::Column(*c),
            GroupKey::Alias(a) => GroupKeyView::Alias(a@),
        }
    }
}

/// A statement that selects rows of one table.
#[derive(Debug)]
pub struct SelectPlan {
    /// The table whose rows are selected (the `Table` column of its columns):
    /// every column of it is answered.
    pub table: Column,
    /// The tables joined to the selected rows, each by a left join.
    pub joins: Vec<Join>,
    /// The relations gathered into arrays with each answered row.
    pub gathered: Vec<Gathered>,
    /// The columns of joined tables answered with each row.
    pub joined_columns: Vec<JoinedColumn>,
    /// What the rows are grouped by: one answered row per group.
    pub group_by: Vec<GroupKey>,
    /// Conditions that every row meets, all of them.
    pub conditions: Vec<Condition>,
    /// Ranks selected with each row.
    pub ranks: Vec<Rank>,
    /// The order of the rows, the first term first.
    pub order: Vec<OrderTerm>,
    pub limit: Option<u64>,
    pub offset: Option<u64>,
}

/// A select statement, with its texts as characters.
pub struct SelectPlanView {
    pub table: Column,
    pub joins: Seq<Join>,
    pub gathered: Seq<GatheredView>,
    pub joined_columns: Seq<JoinedColumnView>,
    pub group_by: Seq<GroupKeyView>,
    pub conditions: Seq<ConditionView>,
    pub ranks: Seq<RankView>,
    pub order: Seq<OrderTerm>,
    pub limit: Option<u64>,
    pub offset: Option<u64>,
}

impl View for SelectPlan {
    type V = SelectPlanView;

    open spec fn view(&self) -> SelectPlanView {
        SelectPlanView {
            table: self.table,
            joins: self.joins@,
            gathered: self.gathered@.map_values(|g: Gathered| g@),
            joined_columns: self.joined_columns@.map_values(|j: JoinedColumn| j@),
            group_by: self.group_by@.map_values(|k: GroupKey| k@),
            conditions: self.conditions@.map_values(|c: Condition| c@),
            ranks: self.ranks@.map_values(|r: Rank| r@),
            order: self.order@,
            limit: self.limit,
            offset: self.offset,
        }
    }
}

/// The alias of a shop's customizations gathered with it.
pub const SHOP_CUSTOMIZATION_ALIAS: &'static str = "shop_customization";

/// The alias of an offer's images gathered with it.
pub const OFFER_IMAGES_ALIAS: &'static str = "images";

/// The alias of an offer's prices gathered with it.
pub const OFFER_PRICES_ALIAS: &'static str = "prices";

/// The alias of the name of an offer's shop.
pub const SHOP_NAME_ALIAS: &'static str = "shop_name";

/// The alias of the slug of an offer's shop.
pub const SHOP_SLUG_ALIAS: &'static str = "shop_slug";

/// The alias of the domain of an offer's shop.
pub const SHOP_DOMAIN_ALIAS: &'static str = "shop_domain";

/// The columns of a shop's customization gathered with the shop.
pub open spec fn customization_columns() -> Seq<Column> {
    seq![
        Column::ShopCustomization(ShopCustomizationIden::LogoImageLightUrlPath),
        Column::ShopCustomization(ShopCustomizationIden::LogoImageDarkUrlPath),
        Column::ShopCustomization(ShopCustomizationIden::BannerImageLightUrlPath),
        Column::ShopCustomization(ShopCustomizationIden::BannerImageDarkUrlPath),
        Column::ShopCustomization(ShopCustomizationIden::PrimaryColor),
        Column::ShopCustomization(ShopCustomizationIden::LayoutType),
    ]
}

/// The columns of an offer's images gathered with the offer.
pub open spec fn image_columns() -> Seq<Column> {
    seq![
        Column::OfferImage(OfferImageIden::OfferImageId),
        Column::OfferImage(OfferImageIden::ImageUrlPath),
        Column::OfferImage(OfferImageIden::Position),
    ]
}

/// The columns of an offer's prices gathered with the offer.
pub open spec fn price_columns() -> Seq<Column> {
    seq![
        Column::OfferPrice(OfferPriceIden::OfferPriceId),
        Column::OfferPrice(OfferPriceIden::Currency),
        Column::OfferPrice(OfferPriceIden::PriceType),
        Column::OfferPrice(OfferPriceIden::BillingScheme),
        Column::OfferPrice(OfferPriceIden::UnitAmount),
        Column::OfferPrice(OfferPriceIden::RecurringInterval),
        Column::OfferPrice(OfferPriceIden::RecurringIntervalCount),
    ]
}

/// The tables joined to the rows of `table` when its relations are selected:
/// a shop's customization; an offer's images, prices and shop.
pub open spec fn spec_joins(table: Column) -> Seq<Join> {
    match table {
        Column::Shop(_) => seq![
            Join {
                table: Column::ShopCustomization(ShopCustomizationIden::Table),
                key: Column::ShopCustomization(ShopCustomizationIden::ShopId),
                on: Column::Shop(ShopIden::ShopId),
            },
        ],
        Column::Offer(_) => seq![
            Join {
                table: Column::OfferImage(OfferImageIden::Table),
                key: Column::OfferImage(OfferImageIden::OfferId),
                on: Column::Offer(OfferIden::OfferId),
            },
            Join {
                table: Column::OfferPrice(OfferPriceIden::Table),
                key: Column::OfferPrice(OfferPriceIden::OfferId),
                on: Column::Offer(OfferIden::OfferId),
            },
            Join {
                table: Column::Shop(ShopIden::Table),
                key: Column::Shop(ShopIden::ShopId),
                on: Column::Offer(OfferIden::ShopId),
            },
        ],
        _ => seq![],
    }
}

/// The relations gathered with the rows of `table`.
pub open spec fn spec_gathered(table: Column) -> Seq<GatheredView> {
    match table {
        Column::Shop(_) => seq![
            GatheredView { columns: customization_columns(), alias: "shop_customization"@ },
        ],
        Column::Offer(_) => seq![
            GatheredView { columns: image_columns(), alias: "images"@ },
            GatheredView { columns: price_columns(), alias: "prices"@ },
        ],
        _ => seq![],
    }
}

/// The columns of joined tables answered with the rows of `table`: an
/// offer's shop's name, slug and domain.
pub open spec fn spec_joined_columns(table: Column) -> Seq<JoinedColumnView> {
    match table {
        Column::Offer(_) => seq![
            JoinedColumnView { column: Column::Shop(ShopIden::Name), alias: "shop_name"@ },
            JoinedColumnView { column: Column::Shop(ShopIden::Slug), alias: "shop_slug"@ },
            JoinedColumnView { column: Column::Shop(ShopIden::Domain), alias: "shop_domain"@ },
        ],
        _ => seq![],
    }
}

/// What the rows of `table` with their relations are grouped by: the row's
/// id, and for an offer the columns of its one shop.
pub open spec fn spec_group_by(table: Column) -> Seq<GroupKeyView> {
    match table {
        Column::Shop(_) => seq![GroupKeyView::Column(Column::Shop(ShopIden::ShopId))],
        Column::Offer(_) => seq![
            GroupKeyView::Column(Column::Offer(OfferIden::OfferId)),
            GroupKeyView::Alias("shop_name"@),
            GroupKeyView::Alias("shop_slug"@),
            GroupKeyView::Alias("shop_domain"@),
        ],
        _ => seq![],
    }
}

/// The kind of value that a gathered column holds in the records Postgres
/// sends for it.
pub open spec fn column_kind(c: Column) -> Option<FieldKind> {
    match c {
        Column::OfferImage(OfferImageIden::OfferImageId) => Some(FieldKind::Uuid),
        Column::OfferImage(OfferImageIden::ImageUrlPath) => Some(FieldKind::Text),
        Column::OfferImage(OfferImageIden::Position) => Some(FieldKind::Int8),
        Column::OfferPrice(OfferPriceIden::OfferPriceId) => Some(FieldKind::Uuid),
        Column::OfferPrice(OfferPriceIden::Currency) => Some(FieldKind::Text),
        Column::OfferPrice(OfferPriceIden::PriceType) => Some(FieldKind::Text),
        Column::OfferPrice(OfferPriceIden::BillingScheme) => Some(FieldKind::Text),
        Column::OfferPrice(OfferPriceIden::UnitAmount) => Some(FieldKind::Int8),
        Column::OfferPrice(OfferPriceIden::RecurringInterval) => Some(FieldKind::OptText),
        Column::OfferPrice(OfferPriceIden::RecurringIntervalCount) => Some(FieldKind::OptInt8),
        Column::ShopCustomization(ShopCustomizationIden::LogoImageLightUrlPath) => Some(
            FieldKind::OptText,
        ),
        Column::ShopCustomization(ShopCustomizationIden::LogoImageDarkUrlPath) => Some(
            FieldKind::OptText,
        ),
        Column::ShopCustomization(ShopCustomizationIden::BannerImageLightUrlPath) => Some(
            FieldKind::OptText,
        ),
        Column::ShopCustomization(ShopCustomizationIden::BannerImageDarkUrlPath) => Some(
            FieldKind::OptText,
        ),
        Column::ShopCustomization(ShopCustomizationIden::PrimaryColor) => Some(FieldKind::OptText),
        Column::ShopCustomization(ShopCustomizationIden::LayoutType) => Some(FieldKind::Text),
        _ => None,
    }
}

/// The kinds of the values that the columns `cs` hold.
pub open spec fn kinds_of(cs: Seq<Column>) -> Seq<Option<FieldKind>> {
    cs.map_values(|c: Column| column_kind(c))
}

/// The view of an optional text.
pub open spec fn opt_view(o: Option<String>) -> Option<Seq<char>> {
    match o {
        Some(s) => Some(s@),
        None => None,
    }
}

/// The sort order of a requested direction: descending only when asked.
pub open spec fn spec_order_of(desc: bool) -> Order {
    if desc {
        Order::Desc
    } else {
        Order::Asc
    }
}

impl SelectPlanView {
    /// The plan with one more condition.
    pub open spec fn with_condition(self, c: ConditionView) -> SelectPlanView {
        SelectPlanView { conditions: self.conditions.push(c), ..self }
    }

    /// The plan with one more rank.
    pub open spec fn with_rank(self, r: RankView) -> SelectPlanView {
        SelectPlanView { ranks: self.ranks.push(r), ..self }
    }

    /// The plan with one more order term.
    pub open spec fn with_order(self, t: OrderTerm) -> SelectPlanView {
        SelectPlanView { order: self.order.push(t), ..self }
    }

    /// The plan that answers at most `limit` rows after skipping `offset`.
    pub open spec fn with_page(self, limit: u64, offset: u64) -> SelectPlanView {
        SelectPlanView { limit: Some(limit), offset: Some(offset), ..self }
    }

    /// The plan grouped also by `k`.
    pub open spec fn with_group(self, k: GroupKeyView) -> SelectPlanView {
        SelectPlanView { group_by: self.group_by.push(k), ..self }
    }
}

/// A plan that selects every row of `table`, with its relations (joined,
/// gathered and grouped) or without.
pub open spec fn spec_select_all(table: Column, with_relations: bool) -> SelectPlanView {
    SelectPlanView {
        table,
        joins: if with_relations { spec_joins(table) } else { seq![] },
        gathered: if with_relations { spec_gathered(table) } else { seq![] },
        joined_columns: if with_relations { spec_joined_columns(table) } else { seq![] },
        group_by: if with_relations { spec_group_by(table) } else { seq![] },
        conditions: seq![],
        ranks: seq![],
        order: seq![],
        limit: None,
        offset: None,
    }
}

/// The relations selected with the rows of `table`.
fn relations_of(table: Column) -> (r: (Vec<Join>, Vec<Gathered>, Vec<JoinedColumn>, Vec<GroupKey>))
    ensures
        r.0@ == spec_joins(table),
        r.1@.map_values(|g: Gathered| g@) == spec_gathered(table),
        r.2@.map_values(|j: JoinedColumn| j@) == spec_joined_columns(table),
        r.3@.map_values(|k: GroupKey| k@) == spec_group_by(table),
{
    proof {
        reveal_strlit("shop_customization");
        reveal_strlit("images");
        reveal_strlit("prices");
        reveal_strlit("shop_name");
        reveal_strlit("shop_slug");
        reveal_strlit("shop_domain");
    }
    match table {
        Column::Shop(_) => {
            let joins = vec![
                Join {
                    table: Column::ShopCustomization(ShopCustomizationIden::Table),
                    key: Column::ShopCustomization(ShopCustomizationIden::ShopId),
                    on: Column::Shop(ShopIden::ShopId),
                },
            ];
            let columns = vec![
                Column::ShopCustomization(ShopCustomizationIden::LogoImageLightUrlPath),
                Column::ShopCustomization(ShopCustomizationIden::LogoImageDarkUrlPath),
                Column::ShopCustomization(ShopCustomizationIden::BannerImageLightUrlPath),
                Column::ShopCustomization(ShopCustomizationIden::BannerImageDarkUrlPath),
                Column::ShopCustomization(ShopCustomizationIden::PrimaryColor),
                Column::ShopCustomization(ShopCustomizationIden::LayoutType),
            ];
            assert(columns@ =~= customization_columns());
            let gathered = vec![Gathered { columns, alias: SHOP_CUSTOMIZATION_ALIAS }];
            let group_by = vec![GroupKey::Column(Column::Shop(ShopIden::ShopId))];
            let joined: Vec<JoinedColumn> = Vec::new();
            assert(joins@ =~= spec_joins(table));
            assert(gathered@.map_values(|g: Gathered| g@) =~= spec_gathered(table));
            assert(joined@.map_values(|j: JoinedColumn| j@) =~= spec_joined_columns(table));
            assert(group_by@.map_values(|k: GroupKey| k@) =~= spec_group_by(table));
            (joins, gathered, joined, group_by)
        },
        Column::Offer(_) => {
            let joins = vec![
                Join {
                    table: Column::OfferImage(OfferImageIden::Table),
                    key: Column::OfferImage(OfferImageIden::OfferId),
                    on: Column::Offer(OfferIden::OfferId),
                },
                Join {
                    table: Column::OfferPrice(OfferPriceIden::Table),
                    key: Column::OfferPrice(OfferPriceIden::OfferId),
                    on: Column::Offer(OfferIden::OfferId),
                },
                Join {
                    table: Column::Shop(ShopIden::Table),
                    key: Column::Shop(ShopIden::ShopId),
                    on: Column::Offer(OfferIden::ShopId),
                },
            ];
            let images = vec![
                Column::OfferImage(OfferImageIden::OfferImageId),
                Column::OfferImage(OfferImageIden::ImageUrlPath),
                Column::OfferImage(OfferImageIden::Position),
            ];
            assert(images@ =~= image_columns());
            let prices = vec![
                Column::OfferPrice(OfferPriceIden::OfferPriceId),
                Column::OfferPrice(OfferPriceIden::Currency),
                Column::OfferPrice(OfferPriceIden::PriceType),
                Column::OfferPrice(OfferPriceIden::BillingScheme),
                Column::OfferPrice(OfferPriceIden::UnitAmount),
                Column::OfferPrice(OfferPriceIden::RecurringInterval),
                Column::OfferPrice(OfferPriceIden::RecurringIntervalCount),
            ];
            assert(prices@ =~= price_columns());
            let gathered = vec![
                Gathered { columns: images, alias: OFFER_IMAGES_ALIAS },
                Gathered { columns: prices, alias: OFFER_PRICES_ALIAS },
            ];
            let joined = vec![
                JoinedColumn { column: Column::Shop(ShopIden::Name), alias: SHOP_NAME_ALIAS },
                JoinedColumn { column: Column::Shop(ShopIden::Slug), alias: SHOP_SLUG_ALIAS },
                JoinedColumn { column: Column::Shop(ShopIden::Domain), alias: SHOP_DOMAIN_ALIAS },
            ];
            let group_by = vec![
                GroupKey::Column(Column::Offer(OfferIden::OfferId)),
                GroupKey::Alias(SHOP_NAME_ALIAS),
                GroupKey::Alias(SHOP_SLUG_ALIAS),
                GroupKey::Alias(SHOP_DOMAIN_ALIAS),
            ];
            assert(joins@ =~= spec_joins(table));
            assert(gathered@.map_values(|g: Gathered| g@) =~= spec_gathered(table));
            assert(joined@.map_values(|j: JoinedColumn| j@) =~= spec_joined_columns(table));
            assert(group_by@.map_values(|k: GroupKey| k@) =~= spec_group_by(table));
            (joins, gathered, joined, group_by)
        },
        _ => {
            let joins: Vec<Join> = Vec::new();
            let gathered: Vec<Gathered> = Vec::new();
            let joined: Vec<JoinedColumn> = Vec::new();
            let group_by: Vec<GroupKey> = Vec::new();
            assert(joins@ =~= spec_joins(table));
            assert(gathered@.map_values(|g: Gathered| g@) =~= spec_gathered(table));
            assert(joined@.map_values(|j: JoinedColumn| j@) =~= spec_joined_columns(table));
            assert(group_by@.map_values(|k: GroupKey| k@) =~= spec_group_by(table));
            (joins, gathered, joined, group_by)
        },
    }
}

impl SelectPlan {
    /// A plan that selects every row of `table`, with its relations (joined,
    /// gathered and grouped) or without.
    pub fn select_all(table: Column, with_relations: bool) -> (r: SelectPlan)
        ensures
            r@ == spec_select_all(table, with_relations),
    {
        let (joins, gathered, joined_columns, group_by) = if with_relations {
            relations_of(table)
        } else {
            (Vec::new(), Vec::new(), Vec::new(), Vec::new())
        };
        let r = SelectPlan {
            table,
            joins,
            gathered,
            joined_columns,
            group_by,
            conditions: Vec::new(),
            ranks: Vec::new(),
            order: Vec::new(),
            limit: None,
            offset: None,
        };
        assert(r@.joins =~= spec_select_all(table, with_relations).joins);
        assert(r@.gathered =~= spec_select_all(table, with_relations).gathered);
        assert(r@.joined_columns =~= spec_select_all(table, with_relations).joined_columns);
        assert(r@.group_by =~= spec_select_all(table, with_relations).group_by);
        assert(r@.conditions =~= seq![]);
        assert(r@.ranks =~= seq![]);
        r
    }

    /// Groups the rows also by `k`.
    pub fn add_group(&mut self, k: GroupKey)
        ensures
            final(self)@ == old(self)@.with_group(k@),
    {
        self.group_by.push(k);
        assert(self@.group_by =~= old(self)@.group_by.push(k@));
    }

    /// Adds a condition.
    pub fn add_condition(&mut self, c: Condition)
        ensures
            final(self)@ == old(self)@.with_condition(c@),
    {
        self.conditions.push(c);
        assert(self@.conditions =~= old(self)@.conditions.push(c@));
    }

    /// Adds a rank.
    pub fn add_rank(&mut self, r: Rank)
        ensures
            final(self)@ == old(self)@.with_rank(r@),
    {
        self.ranks.push(r);
        assert(self@.ranks =~= old(self)@.ranks.push(r@));
    }

    /// Adds an order term.
    pub fn add_order(&mut self, t: OrderTerm)
        ensures
            final(self)@ == old(self)@.with_order(t),
    {
        self.order.push(t);
    }

    /// Answers at most `limit` rows after skipping `offset`.
    pub fn set_page(&mut self, limit: u64, offset: u64)
        ensures
            final(self)@ == old(self)@.with_page(limit, offset),
    {
        self.limit = Some(limit);
        self.offset = Some(offset);
    }
}

/// The kind of a statement that writes rows.
#[derive(Clone, Copy, Debug, PartialEq, Eq, Structural)]
pub enum WriteKind {
    Insert,
    Update,
    Delete,
}

/// What an insert does with a row that conflicts on `columns`: nothing where
/// `update_columns` is empty, else it updates those columns.
#[derive(Debug)]
pub struct OnConflict {
    pub columns: Vec<Column>,
    pub update_columns: Vec<Column>,
}

/// A statement that writes rows of one table.
#[derive(Debug)]
pub struct WritePlan {
    pub kind: WriteKind,
    /// The table written (the `Table` column of its columns).
    pub table: Column,
    /// The columns inserted or updated and their values, in order.
    pub values: Vec<(Column, Value)>,
    /// Conditions that every updated or deleted row meets, all of them.
    pub conditions: Vec<Condition>,
    pub on_conflict: Option<OnConflict>,
    /// Whether the written rows are answered.
    pub returning: bool,
}

/// A write statement, with its texts as characters.
pub struct WritePlanView {
    pub kind: WriteKind,
    pub table: Column,
    pub values: Seq<(Column, ValueView)>,
    pub conditions: Seq<ConditionView>,
    pub on_conflict: Option<(Seq<Column>, Seq<Column>)>,
    pub returning: bool,
}

impl View for WritePlan {
    type V = WritePlanView;

    open spec fn view(&self) -> WritePlanView {
        WritePlanView {
            kind: self.kind,
            table: self.table,
            values: self.values@.map_values(|cv: (Column, Value)| (cv.0, cv.1@)),
            conditions: self.conditions@.map_values(|c: Condition| c@),
            on_conflict: match self.on_conflict {
                Some(o) => Some((o.columns@, o.update_columns@)),
                None => None,
            },
            returning: self.returning,
        }
    }
}

/// A write of `kind` on `table` that writes nothing yet.
pub open spec fn spec_write(kind: WriteKind, table: Column, returning: bool) -> WritePlanView {
    WritePlanView {
        kind,
        table,
        values: seq![],
        conditions: seq![],
        on_conflict: None,
        returning,
    }
}

impl WritePlanView {
    /// The statement that also writes `v` to `c`.
    pub open spec fn set(self, c: Column, v: ValueView) -> WritePlanView {
        WritePlanView { values: self.values.push((c, v)), ..self }
    }

    /// The statement that also writes `v` to `c` where there is a value.
    pub open spec fn set_opt(self, c: Column, v: Option<ValueView>) -> WritePlanView {
        match v {
            Some(v) => self.set(c, v),
            None => self,
        }
    }

    /// The statement with one more condition.
    pub open spec fn with_condition(self, c: ConditionView) -> WritePlanView {
        WritePlanView { conditions: self.conditions.push(c), ..self }
    }

    /// The statement with the given conflict handling.
    pub open spec fn with_on_conflict(self, columns: Seq<Column>, update_columns: Seq<Column>) -> WritePlanView {
        WritePlanView { on_conflict: Some((columns, update_columns)), ..self }
    }
}

impl WritePlan {
    /// A write of `kind` on `table` that writes nothing yet.
    pub fn new(kind: WriteKind, table: Column, returning: bool) -> (r: WritePlan)
        ensures
            r@ == spec_write(kind, table, returning),
    {
        let r = WritePlan {
            kind,
            table,
            values: Vec::new(),
            conditions: Vec::new(),
            on_conflict: None,
            returning,
        };
        assert(r@.values =~= seq![]);
        assert(r@.conditions =~= seq![]);
        r
    }

    /// Also writes `v` to `c`.
    pub fn set(&mut self, c: Column, v: Value)
        ensures
            final(self)@ == old(self)@.set(c, v@),
    {
        self.values.push((c, v));
        assert(self@.values =~= old(self)@.values.push((c, v@)));
    }

    /// Adds a condition.
    pub fn add_condition(&mut self, c: Condition)
        ensures
            final(self)@ == old(self)@.with_condition(c@),
    {
        self.conditions.push(c);
        assert(self@.conditions =~= old(self)@.conditions.push(c@));
    }

    /// Sets the conflict handling.
    pub fn set_on_conflict(&mut self, columns: Vec<Column>, update_columns: Vec<Column>)
        ensures
            final(self)@ == old(self)@.with_on_conflict(columns@, update_columns@),
    {
        self.on_conflict = Some(OnConflict { columns, update_columns });
    }
}

/// The condition that keeps the rows whose column `c` holds the text `user`.
pub open spec fn owned_by(c: Column, user: Seq<char>) -> ConditionView {
    ConditionView::Eq(c, ValueView::Text(user))
}

/// The view of an optional text as a value.
pub open spec fn opt_text_value(o: Option<String>) -> Option<ValueView> {
    match o {
        Some(s) => Some(ValueView::Text(s@)),
        None => None,
    }
}

/// The text `o` as a value to write, where there is one.
pub fn opt_text_to_value(o: Option<String>) -> (r: Option<Value>)
    ensures
        match r {
            Some(v) => opt_text_value(o) == Some(v@),
            None => opt_text_value(o) is None,
        },
{
    match o {
        Some(s) => Some(Value::Text(s)),
        None => None,
    }
}

/// Whether the statement `p` writes the value `v` to the column `c`.
pub open spec fn writes(p: WritePlanView, c: Column, v: ValueView) -> bool {
    p.values.contains((c, v))
}

/// Whether the statement `p` writes anything to the column `c`.
pub open spec fn writes_column(p: WritePlanView, c: Column) -> bool {
    exists|v: ValueView| #[trigger] p.values.contains((c, v))
}

/// Whether the statement `p` keeps only the rows for which `c` holds.
pub open spec fn restricts(p: WritePlanView, c: ConditionView) -> bool {
    p.conditions.contains(c)
}

/// The relations of a shop are its customization, joined where the
/// customization's shop is the shop; those of an offer are its images and its
/// prices, joined where their offer is the offer, and its shop, joined where
/// the shop is the offer's shop, whose name, slug and domain come with the
/// offer.
pub proof fn lemma_relations_joined_by_their_keys()
    ensures
        spec_joins(Column::Shop(ShopIden::Table)) == seq![
            Join {
                table: Column::ShopCustomization(ShopCustomizationIden::Table),
                key: Column::ShopCustomization(ShopCustomizationIden::ShopId),
                on: Column::Shop(ShopIden::ShopId),
            },
        ],
        spec_joins(Column::Offer(OfferIden::Table)) == seq![
            Join {
                table: Column::OfferImage(OfferImageIden::Table),
                key: Column::OfferImage(OfferImageIden::OfferId),
                on: Column::Offer(OfferIden::OfferId),
            },
            Join {
                table: Column::OfferPrice(OfferPriceIden::Table),
                key: Column::OfferPrice(OfferPriceIden::OfferId),
                on: Column::Offer(OfferIden::OfferId),
            },
            Join {
                table: Column::Shop(ShopIden::Table),
                key: Column::Shop(ShopIden::ShopId),
                on: Column::Offer(OfferIden::ShopId),
            },
        ],
        spec_joined_columns(Column::Offer(OfferIden::Table)) == seq![
            JoinedColumnView { column: Column::Shop(ShopIden::Name), alias: "shop_name"@ },
            JoinedColumnView { column: Column::Shop(ShopIden::Slug), alias: "shop_slug"@ },
            JoinedColumnView { column: Column::Shop(ShopIden::Domain), alias: "shop_domain"@ },
        ],
        spec_joined_columns(Column::Shop(ShopIden::Table)).len() == 0,
{
}

} // verus!
