use commerce::api::{Direction, OffersOrderByField, ShopsFilterField, ShopsOrderByField};
use commerce::db::DbError;
use commerce::model::iden::{
    OfferIden, OfferImageIden, OfferPriceIden, ShippingRateIden, ShopCustomizationIden, ShopDomainIden,
    ShopIden,
};
use commerce::model::offer::{Offer, OfferFilterField};
use commerce::model::offer_image::OfferImage;
use commerce::model::offer_price::OfferPrice;
use commerce::model::query::{
    Column, Condition, GroupKey, Join, Order, OrderTerm, Value, WriteKind, WritePlan,
};
use commerce::model::shipping_rate::ShippingRate;
use commerce::model::shop::Shop;
use commerce::model::shop_customization::ShopCustomization;
use commerce::model::shop_domain::ShopDomain;

fn owned_by(plan: &WritePlan, column: Column, user: &str) -> bool {
    plan.conditions
        .iter()
        .any(|c| matches!(c, Condition::Eq(col, Value::Text(u)) if *col == column && u == user))
}

#[test]
fn shop_listing_keeps_only_visible_shops() {
    let me = "me".to_string();
    let q = Shop::list_query(
        Some(&"owner".to_string()),
        10,
        20,
        Some((ShopsFilterField::Name, "bikes".to_string())),
        Some((ShopsOrderByField::UpdatedAt, Direction::Desc)),
        true,
        Some(&me),
    );
    assert_eq!(q.table, Column::Shop(ShopIden::Table));
    assert_eq!(q.joins.len(), 1);
    assert_eq!(q.gathered[0].alias, "shop_customization");
    assert_eq!(q.gathered[0].columns.len(), 6);
    assert!(matches!(q.group_by[..], [GroupKey::Column(Column::Shop(ShopIden::ShopId))]));
    assert_eq!((q.limit, q.offset), (Some(10), Some(20)));
    assert_eq!(q.order, vec![OrderTerm::Column(Column::Shop(ShopIden::UpdatedAt), Order::Desc)]);
    assert_eq!(q.ranks.len(), 1);
    assert_eq!(q.ranks[0].alias, "name_ts_rank");
    assert_eq!(q.conditions.len(), 3);
    assert!(matches!(&q.conditions[0], Condition::Eq(Column::Shop(ShopIden::UserId), Value::Text(u)) if u == "owner"));
    assert!(matches!(&q.conditions[1], Condition::Matches(Column::Shop(ShopIden::NameTs), s) if s == "bikes"));
    assert!(matches!(
        &q.conditions[2],
        Condition::ActiveOrOwnedBy(Column::Shop(ShopIden::IsActive), Column::Shop(ShopIden::UserId), Some(u)) if u == "me"
    ));
    let anonymous = Shop::list_query(None, 5, 0, None, None, false, None);
    assert_eq!(anonymous.conditions.len(), 1);
    assert!(matches!(&anonymous.conditions[0], Condition::ActiveOrOwnedBy(_, _, None)));
    assert!(anonymous.joins.is_empty() && anonymous.gathered.is_empty() && anonymous.group_by.is_empty());
}

#[test]
fn shop_filters_rank_what_they_search() {
    let q = Shop::list_query(None, 1, 0, Some((ShopsFilterField::NameAndDescription, "x".to_string())), None, false, None);
    assert_eq!(q.ranks.len(), 2);
    assert_eq!(q.ranks[1].alias, "description_ts_rank");
    assert!(matches!(&q.conditions[0], Condition::MatchesEither(Column::Shop(ShopIden::NameTs), Column::Shop(ShopIden::DescriptionTs), s) if s == "x"));
    let random = Shop::list_query(None, 1, 0, None, Some((ShopsOrderByField::Random, Direction::Asc)), false, None);
    assert_eq!(random.order, vec![OrderTerm::Random]);
}

#[test]
fn offer_filter_on_featured_needs_a_boolean() {
    let q = Offer::list_query(None, None, 10, 0, Some((OfferFilterField::IsFeatured, " true ".to_string())), None, None)
        .unwrap();
    assert!(q.conditions.iter().any(|c| matches!(c, Condition::Eq(Column::Offer(OfferIden::IsFeatured), Value::Bool(true)))));
    let err = Offer::list_query(None, None, 10, 0, Some((OfferFilterField::IsFeatured, "yes".to_string())), None, None)
        .unwrap_err();
    assert!(matches!(err, DbError::Argument(m) if m == "filter.query"));
    let count = Offer::count_query(Some(3), None, Some((OfferFilterField::Type, "PHYSICAL".to_string())), None).unwrap();
    assert!(count.joins.is_empty() && count.gathered.is_empty());
    assert!(matches!(count.group_by[..], [GroupKey::Column(Column::Offer(OfferIden::OfferId))]));
    assert_eq!((count.limit, count.offset), (None, None));
    assert!(count.conditions.iter().any(|c| matches!(c, Condition::Eq(Column::Offer(OfferIden::ShopId), Value::Uuid(3)))));
    assert!(count.conditions.iter().any(|c| matches!(c, Condition::Eq(Column::Offer(OfferIden::Type), Value::Text(t)) if t == "PHYSICAL")));
}

#[test]
fn offer_listing_orders_and_pages() {
    let q = Offer::list_query(
        Some(1),
        Some(&"u".to_string()),
        7,
        14,
        None,
        Some((OffersOrderByField::CreatedAt, Direction::Asc)),
        None,
    )
    .unwrap();
    assert_eq!(q.order, vec![OrderTerm::Column(Column::Offer(OfferIden::CreatedAt), Order::Asc)]);
    assert_eq!((q.limit, q.offset), (Some(7), Some(14)));
    assert!(q.conditions.iter().any(|c| matches!(c, Condition::ActiveOrOwnedBy(_, _, None))));
}

#[test]
fn writes_are_limited_to_the_owner() {
    let u = "owner".to_string();
    assert!(owned_by(&Shop::delete_query(&u, 1), Column::Shop(ShopIden::UserId), "owner"));
    let update = Shop::update_query(&u, 1, Some("n".to_string()), None, None, Some(7), None, Some(false), None);
    assert!(owned_by(&update, Column::Shop(ShopIden::UserId), "owner"));
    assert_eq!(update.kind, WriteKind::Update);
    assert_eq!(update.values.len(), 3);
    assert!(owned_by(&Offer::delete_query(&u, 2), Column::Offer(OfferIden::UserId), "owner"));
    assert!(owned_by(&Offer::deactivate_for_shop_query(&u, 2), Column::Offer(OfferIden::UserId), "owner"));
    assert!(owned_by(&OfferImage::delete_query(&u, 3), Column::OfferImage(OfferImageIden::UserId), "owner"));
    assert!(owned_by(&OfferPrice::delete_query(&u, 3), Column::OfferPrice(OfferPriceIden::UserId), "owner"));
    assert!(owned_by(&ShippingRate::delete_query(4, &u), Column::ShippingRate(ShippingRateIden::UserId), "owner"));
    assert!(owned_by(&ShopDomain::delete_query(&u, 5, &"d".to_string()), Column::ShopDomain(ShopDomainIden::UserId), "owner"));
    assert!(owned_by(
        &ShopCustomization::delete_query(6, &u),
        Column::ShopCustomization(ShopCustomizationIden::UserId),
        "owner"
    ));
}

#[test]
fn shop_creation_stores_an_empty_description_where_none_is_given() {
    let q = Shop::create_query(&"u".to_string(), &"Name".to_string(), &"slug".to_string(), None, 5, 100);
    assert_eq!(q.kind, WriteKind::Insert);
    assert!(q.returning);
    assert!(q.values.iter().any(|(c, v)| *c == Column::Shop(ShopIden::Description) && matches!(v, Value::Text(d) if d.is_empty())));
    assert!(q.values.iter().any(|(c, v)| *c == Column::Shop(ShopIden::PlatformFeePercent) && matches!(v, Value::Int(5))));
}

#[test]
fn customization_statements() {
    let u = "u".to_string();
    let create = ShopCustomization::create_query(9, &u);
    assert_eq!(create.kind, WriteKind::Insert);
    assert!(!create.returning);
    let conflict = create.on_conflict.as_ref().unwrap();
    assert_eq!(conflict.columns, vec![Column::ShopCustomization(ShopCustomizationIden::ShopId)]);
    assert!(conflict.update_columns.is_empty());

    let put = ShopCustomization::put_query(9, &u, None, "FEATURED".to_string());
    assert!(put.returning);
    assert_eq!(put.values.len(), 4);
    assert!(matches!(&put.values[2], (Column::ShopCustomization(ShopCustomizationIden::PrimaryColor), Value::OptText(None))));
    assert_eq!(put.on_conflict.as_ref().unwrap().update_columns.len(), 4);

    let logo = ShopCustomization::update_logo_image_url_paths_query(9, &u, Some(Some("p".to_string())), None);
    assert_eq!(logo.values.len(), 1);
    assert!(matches!(&logo.values[0], (Column::ShopCustomization(ShopCustomizationIden::LogoImageLightUrlPath), Value::OptText(Some(p))) if p == "p"));
    assert!(owned_by(&logo, Column::ShopCustomization(ShopCustomizationIden::UserId), "u"));

    let cleared = ShopCustomization::update_banner_image_url_paths_query(9, &u, Some(None), Some(None));
    assert_eq!(cleared.values.len(), 2);
    assert!(matches!(&cleared.values[1], (Column::ShopCustomization(ShopCustomizationIden::BannerImageDarkUrlPath), Value::OptText(None))));

    let get = ShopCustomization::get_query(9);
    assert!(matches!(&get.conditions[0], Condition::Eq(Column::ShopCustomization(ShopCustomizationIden::ShopId), Value::Uuid(9))));
}

#[test]
fn domain_statements() {
    let u = "u".to_string();
    let create = ShopDomain::create_query(&u, 1, &"d.example".to_string(), "PENDING");
    assert_eq!(create.values.len(), 4);
    assert!(matches!(&create.values[3], (Column::ShopDomain(ShopDomainIden::Status), Value::Text(s)) if s == "PENDING"));
    let found = ShopDomain::get_by_domain_query(&"d.example".to_string());
    assert!(matches!(&found.conditions[0], Condition::Eq(Column::ShopDomain(ShopDomainIden::Domain), Value::Text(d)) if d == "d.example"));
}

#[test]
fn columns_name_their_table() {
    let c = Column::ShopCustomization(ShopCustomizationIden::LogoImageLightUrlPath);
    assert_eq!(c.table_name(), "shop_customizations");
    assert_eq!(c.column_name(), "logo_image_light_url_path");
    let o = Column::OfferImage(OfferImageIden::Position);
    assert_eq!(o.table_name(), "offer_images");
    assert_eq!(o.column_name(), "ordering");
    assert_eq!(Column::Shop(ShopIden::Table).column_name(), "shops");
    assert_eq!(Column::ShippingRate(ShippingRateIden::SpecificCountries).table_name(), "shipping_rates");
}

#[test]
fn domain_of_a_shop_and_shipping_rates_of_an_offer() {
    let q = Shop::update_domain_query(5, Some("d.example".to_string()));
    assert_eq!(q.kind, WriteKind::Update);
    assert!(matches!(&q.values[0], (Column::Shop(ShopIden::Domain), Value::OptText(Some(d))) if d == "d.example"));
    assert!(matches!(&q.conditions[0], Condition::Eq(Column::Shop(ShopIden::ShopId), Value::Uuid(5))));
    let cleared = Shop::update_domain_query(5, None);
    assert!(matches!(&cleared.values[0], (_, Value::OptText(None))));
    let all = ShippingRate::delete_all_query(&"u".to_string(), 8);
    assert_eq!(all.kind, WriteKind::Delete);
    assert!(owned_by(&all, Column::ShippingRate(ShippingRateIden::UserId), "u"));
    assert!(all
        .conditions
        .iter()
        .any(|c| matches!(c, Condition::Eq(Column::ShippingRate(ShippingRateIden::OfferId), Value::Uuid(8)))));
}

#[test]
fn offers_are_listed_one_row_each_with_their_relations() {
    let q = Offer::list_query(None, None, 10, 0, None, None, None).unwrap();
    assert_eq!(
        q.joins,
        vec![
            Join {
                table: Column::OfferImage(OfferImageIden::Table),
                key: Column::OfferImage(OfferImageIden::OfferId),
                on: Column::Offer(OfferIden::OfferId),
            },
            Join {
                table: Column::OfferPrice(OfferPriceIden::Table),
                key: Column::OfferPrice(OfferPriceIden::OfferId),
                on: Column::Offer(OfferIden::OfferId),
            },
            Join {
                table: Column::Shop(ShopIden::Table),
                key: Column::Shop(ShopIden::ShopId),
                on: Column::Offer(OfferIden::ShopId),
            },
        ]
    );
    let aliases: Vec<&str> = q.gathered.iter().map(|g| g.alias).collect();
    assert_eq!(aliases, vec!["images", "prices"]);
    assert_eq!(q.gathered[0].columns[2], Column::OfferImage(OfferImageIden::Position));
    assert_eq!(q.gathered[1].columns.len(), 7);
    let joined: Vec<&str> = q.joined_columns.iter().map(|j| j.alias).collect();
    assert_eq!(joined, vec!["shop_name", "shop_slug", "shop_domain"]);
    assert!(matches!(
        q.group_by[..],
        [
            GroupKey::Column(Column::Offer(OfferIden::OfferId)),
            GroupKey::Alias("shop_name"),
            GroupKey::Alias("shop_slug"),
            GroupKey::Alias("shop_domain")
        ]
    ));
}

#[test]
fn shops_of_websites() {
    let w = "site-1".to_string();
    let get = Shop::get_by_website_id_query(&w);
    assert!(matches!(&get.conditions[..], [Condition::Eq(Column::Shop(ShopIden::WebsiteId), Value::Text(s))] if s == "site-1"));
    let create = Shop::create_for_website_query(&"u".to_string(), &"My site".to_string(), &w, 5, 100);
    assert_eq!(create.kind, WriteKind::Insert);
    assert!(matches!(&create.values[2], (Column::Shop(ShopIden::Slug), Value::Text(s)) if s == "site-1"));
    assert!(matches!(&create.values[3], (Column::Shop(ShopIden::WebsiteId), Value::Text(s)) if s == "site-1"));
    assert!(matches!(&create.values[4], (Column::Shop(ShopIden::PlatformFeePercent), Value::Int(5))));
    let delete = Shop::delete_for_website_id_query(&w);
    assert_eq!(delete.kind, WriteKind::Delete);
    assert!(matches!(&delete.conditions[..], [Condition::Eq(Column::Shop(ShopIden::WebsiteId), Value::Text(s))] if s == "site-1"));
}
