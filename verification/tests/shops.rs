use commerce::api::{Direction, ShopsFilterField, ShopsOrderByField};
use commerce::images::ImageService;
use commerce::model::shop_customization::ShopCustomization;
use commerce::services::shop::{ShopLookup, ShopService, ShopsFilter, ShopsOrderBy};
use commerce::services::{PaginationRequest, PaginationResponse};
use commerce::Code;

const SHOP: &str = "67e55044-10b1-426f-9247-bb680e5fe0c8";

fn service() -> ShopService {
    ShopService::new(ImageService::new("https://img/".to_string(), 1000), 5, 100)
}

fn customization(logo: Option<&str>, banner: Option<&str>) -> ShopCustomization {
    ShopCustomization {
        shop_id: 1,
        user_id: "u".to_string(),
        created_at: 0,
        updated_at: 0,
        logo_image_light_url_path: logo.map(|s| s.to_string()),
        logo_image_dark_url_path: Some("logo-dark".to_string()),
        banner_image_light_url_path: banner.map(|s| s.to_string()),
        banner_image_dark_url_path: Some("banner-dark".to_string()),
        primary_color: None,
        layout_type: "FEATURED".to_string(),
    }
}

#[test]
fn platform_fees_default_to_the_lowest_allowed() {
    let s = service();
    assert_eq!(s.platform_fee_percent(None).unwrap(), 5);
    assert_eq!(s.platform_fee_percent(Some(5)).unwrap(), 5);
    assert_eq!(s.platform_fee_percent(Some(99)).unwrap(), 99);
    let low = s.platform_fee_percent(Some(4)).unwrap_err();
    assert_eq!((low.code, low.message.as_str()), (Code::InvalidArgument, "platform_fee_percent"));
    assert!(s.platform_fee_percent(Some(100)).is_err());
    assert_eq!(s.minimum_platform_fee_cent(None).unwrap(), 100);
    assert_eq!(s.minimum_platform_fee_cent(Some(250)).unwrap(), 250);
    let low = s.minimum_platform_fee_cent(Some(99)).unwrap_err();
    assert_eq!(low.message, "minimum_platform_fee_cent");
}

#[test]
fn create_shop_checks_slug_then_fees() {
    let s = service();
    assert_eq!(s.check_create_shop("my-shop", None, None).unwrap(), (5, 100));
    assert_eq!(s.check_create_shop("my-shop", Some(10), Some(200)).unwrap(), (10, 200));
    let bad_slug = s.check_create_shop("my shop", Some(1), None).unwrap_err();
    assert_eq!(bad_slug.code, Code::InvalidArgument);
    assert_eq!(bad_slug.message, "invalid character ' '");
    let bad_fee = s.check_create_shop("ok", Some(1), Some(1)).unwrap_err();
    assert_eq!(bad_fee.message, "platform_fee_percent");
    let bad_min = s.check_create_shop("ok", None, Some(1)).unwrap_err();
    assert_eq!(bad_min.message, "minimum_platform_fee_cent");
}

#[test]
fn update_shop_checks_in_order() {
    let s = service();
    let (id, deactivate) = s.check_update_shop(SHOP, None, None, None, Some(false)).unwrap();
    assert_eq!(id, 0x67e5504410b1426f9247bb680e5fe0c8);
    assert!(deactivate);
    let (_, deactivate) = s.check_update_shop(SHOP, Some("new-slug"), Some(20), Some(150), Some(true)).unwrap();
    assert!(!deactivate);
    let (_, deactivate) = s.check_update_shop(SHOP, None, None, None, None).unwrap();
    assert!(!deactivate);
    assert_eq!(s.check_update_shop("nope", Some("a b"), None, None, None).unwrap_err().message, "invalid character ' '");
    assert_eq!(
        s.check_update_shop("nope", None, None, None, None).unwrap_err().message,
        "field shop_id is not a valid UUID v4"
    );
    assert_eq!(s.check_update_shop(SHOP, None, Some(100), None, None).unwrap_err().message, "platform_fee_percent");
    assert_eq!(
        s.check_update_shop(SHOP, None, None, Some(0), None).unwrap_err().message,
        "minimum_platform_fee_cent"
    );
}

#[test]
fn shop_lookup_takes_the_first_key_given() {
    let by_id = ShopService::shop_lookup(Some(SHOP.to_string()), Some("d".to_string()), None, None).unwrap();
    assert!(matches!(by_id, ShopLookup::ById(0x67e5504410b1426f9247bb680e5fe0c8)));
    let by_domain =
        ShopService::shop_lookup(None, Some("shop.example".to_string()), Some("s".to_string()), None).unwrap();
    assert!(matches!(by_domain, ShopLookup::ByDomain(d) if d == "shop.example"));
    let by_slug = ShopService::shop_lookup(None, None, Some("s".to_string()), Some("w".to_string())).unwrap();
    assert!(matches!(by_slug, ShopLookup::BySlug(s) if s == "s"));
    let by_site = ShopService::shop_lookup(None, None, None, Some("w".to_string())).unwrap();
    assert!(matches!(by_site, ShopLookup::ByWebsiteId(w) if w == "w"));
    let none = ShopService::shop_lookup(None, None, None, None).unwrap_err();
    assert_eq!(none.message, "provide one of shop_id, slug or domain");
    let bad = ShopService::shop_lookup(Some("x".to_string()), None, None, None).unwrap_err();
    assert_eq!(bad.message, "field shop_id is not a valid UUID v4");
}

#[test]
fn owner_must_match_where_asked() {
    let found = "alice".to_string();
    assert!(ShopService::check_owner(&found, None).is_ok());
    assert!(ShopService::check_owner(&found, Some("alice".to_string())).is_ok());
    let err = ShopService::check_owner(&found, Some("bob".to_string())).unwrap_err();
    assert_eq!((err.code, err.message.as_str()), (Code::NotFound, ""));
}

#[test]
fn list_shops_accepts_and_refuses() {
    let args = ShopService::check_list_shops(
        Some(PaginationRequest { page: 2, size: 5 }),
        Some(ShopsFilter { field: 3, query: " shoes ".to_string() }),
        Some(ShopsOrderBy { field: 4, direction: 2 }),
    )
    .unwrap();
    assert_eq!((args.limit, args.offset), (5, 5));
    assert_eq!(args.pagination, PaginationResponse { page: 2, size: 5, total_elements: 0 });
    assert_eq!(args.filter, Some((ShopsFilterField::NameAndDescription, " shoes ".to_string())));
    assert_eq!(args.order_by, Some((ShopsOrderByField::Random, Direction::Desc)));

    let msg = |f: Option<ShopsFilter>, o: Option<ShopsOrderBy>| {
        ShopService::check_list_shops(None, f, o).unwrap_err().message
    };
    assert_eq!(msg(None, None), "filter,order_by");
    assert_eq!(msg(Some(ShopsFilter { field: 0, query: "x".to_string() }), None), "filter.field");
    assert_eq!(msg(Some(ShopsFilter { field: 1, query: " \t".to_string() }), None), "filter.query");
    assert_eq!(msg(Some(ShopsFilter { field: 9, query: "x".to_string() }), None), "filter.field");
    assert_eq!(msg(None, Some(ShopsOrderBy { field: 9, direction: 1 })), "order_by.field");
    assert_eq!(msg(None, Some(ShopsOrderBy { field: 1, direction: 9 })), "order_by.direction");
    let page = ShopService::check_list_shops(Some(PaginationRequest { page: 0, size: 5 }), None, None).unwrap_err();
    assert_eq!(page.message, "pagination.page less than 1");
}

#[test]
fn deleting_a_shop_removes_its_light_images() {
    let paths = ShopService::images_to_remove_on_delete(&customization(Some("logo"), Some("banner")));
    assert_eq!(paths, vec!["logo".to_string(), "banner".to_string()]);
    let paths = ShopService::images_to_remove_on_delete(&customization(None, Some("banner")));
    assert_eq!(paths, vec!["banner".to_string()]);
    assert!(ShopService::images_to_remove_on_delete(&customization(None, None)).is_empty());
}
