use commerce::api::{
    Direction, MarketBoothsFilterField, MarketBoothsOrderByField, OffersFilterField,
    OffersOrderByField, ShopsFilterField, ShopsOrderByField,
};

#[test]
fn direction_names() {
    assert_eq!(Direction::Unspecified.as_str_name(), "DIRECTION_UNSPECIFIED");
    assert_eq!(Direction::Asc.as_str_name(), "DIRECTION_ASC");
    assert_eq!(Direction::Desc.as_str_name(), "DIRECTION_DESC");
    assert_eq!(Direction::from_str_name("DIRECTION_ASC"), Some(Direction::Asc));
    assert_eq!(Direction::from_str_name("DIRECTION_DESC"), Some(Direction::Desc));
    assert_eq!(Direction::from_str_name("DIRECTION_UNSPECIFIED"), Some(Direction::Unspecified));
    assert_eq!(Direction::from_str_name("direction_asc"), None);
    assert_eq!(Direction::from_str_name(""), None);
}

#[test]
fn direction_name_round_trip() {
    for d in [Direction::Unspecified, Direction::Asc, Direction::Desc] {
        assert_eq!(Direction::from_str_name(d.as_str_name()), Some(d));
        assert_eq!(Direction::from_i32(d.to_i32()), Some(d));
    }
}

#[test]
fn direction_numbers() {
    assert_eq!(Direction::from_i32(0), Some(Direction::Unspecified));
    assert_eq!(Direction::from_i32(1), Some(Direction::Asc));
    assert_eq!(Direction::from_i32(2), Some(Direction::Desc));
    assert_eq!(Direction::from_i32(3), None);
    assert_eq!(Direction::from_i32(-1), None);
    assert_eq!(Direction::from_i32_or_default(7), Direction::Unspecified);
    assert_eq!(Direction::Desc.to_i32(), 2);
}

#[test]
fn market_booth_enum_names() {
    assert_eq!(
        MarketBoothsOrderByField::Random.as_str_name(),
        "MARKET_BOOTHS_ORDER_BY_FIELD_RANDOM"
    );
    assert_eq!(
        MarketBoothsOrderByField::from_str_name("MARKET_BOOTHS_ORDER_BY_FIELD_CREATED_AT"),
        Some(MarketBoothsOrderByField::CreatedAt)
    );
    assert_eq!(
        MarketBoothsFilterField::NameAndDescription.as_str_name(),
        "MARKET_BOOTHS_FILTER_FIELD_NAME_AND_DESCRIPTION"
    );
    assert_eq!(
        MarketBoothsFilterField::from_str_name("MARKET_BOOTHS_FILTER_FIELD_DESCRIPTION"),
        Some(MarketBoothsFilterField::Description)
    );
    assert_eq!(MarketBoothsFilterField::from_str_name("MARKET_BOOTHS_FILTER_FIELD"), None);
    for f in [
        MarketBoothsOrderByField::Unspecified,
        MarketBoothsOrderByField::CreatedAt,
        MarketBoothsOrderByField::UpdatedAt,
        MarketBoothsOrderByField::Name,
        MarketBoothsOrderByField::Random,
    ] {
        assert_eq!(MarketBoothsOrderByField::from_str_name(f.as_str_name()), Some(f));
        assert_eq!(MarketBoothsOrderByField::from_i32(f.to_i32()), Some(f));
    }
}

#[test]
fn offer_enum_names() {
    assert_eq!(OffersOrderByField::Name.as_str_name(), "OFFERS_ORDER_BY_FIELD_NAME");
    assert_eq!(
        OffersOrderByField::from_str_name("OFFERS_ORDER_BY_FIELD_UPDATED_AT"),
        Some(OffersOrderByField::UpdatedAt)
    );
    assert_eq!(OffersFilterField::Description.as_str_name(), "OFFERS_FILTER_FIELD_DESCRIPTION");
    assert_eq!(
        OffersFilterField::from_str_name("OFFERS_FILTER_FIELD_NAME_AND_DESCRIPTION"),
        Some(OffersFilterField::NameAndDescription)
    );
    for f in [
        OffersFilterField::Unspecified,
        OffersFilterField::Name,
        OffersFilterField::Description,
        OffersFilterField::NameAndDescription,
    ] {
        assert_eq!(OffersFilterField::from_str_name(f.as_str_name()), Some(f));
        assert_eq!(OffersFilterField::from_i32(f.to_i32()), Some(f));
    }
    assert_eq!(OffersFilterField::from_i32(4), None);
    assert_eq!(OffersFilterField::from_str_name("OFFERS_FILTER_FIELD_TYPE"), None);
    assert_eq!(OffersFilterField::from_str_name("OFFERS_FILTER_FIELD_IS_FEATURED"), None);
    assert_eq!(OffersFilterField::from_i32_or_default(42), OffersFilterField::Unspecified);
}

#[test]
fn shop_enum_numbers() {
    assert_eq!(ShopsOrderByField::from_i32(4), Some(ShopsOrderByField::Random));
    assert_eq!(ShopsOrderByField::from_i32(5), None);
    assert_eq!(ShopsFilterField::from_i32(3), Some(ShopsFilterField::NameAndDescription));
    assert_eq!(ShopsFilterField::from_i32(0), Some(ShopsFilterField::Unspecified));
    assert_eq!(ShopsFilterField::Name.to_i32(), 1);
}
