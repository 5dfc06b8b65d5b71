use commerce::images::ImageService;
use commerce::model::shop_customization::ShopCustomization;
use commerce::services::shop_customization::ShopCustomizationService;
use commerce::services::shop_domain::{AddDomain, ShopDomainService};
use commerce::Code;

const PNG: [u8; 6] = [0x89, 0x50, 0x4E, 0x47, 0, 0];

fn service() -> ShopCustomizationService {
    ShopCustomizationService::new(ImageService::new("https://img/".to_string(), 100))
}

fn is_uuid(s: &str) -> bool {
    let parts: Vec<&str> = s.split('-').collect();
    parts.iter().map(|p| p.len()).collect::<Vec<_>>() == vec![8, 4, 4, 4, 12]
        && s.chars().all(|c| c == '-' || c.is_ascii_hexdigit())
}

#[test]
fn image_paths_are_under_user_and_shop() {
    let p = ShopCustomizationService::gen_image_path(&"user".to_string(), 0x10);
    let prefix = "user/00000000-0000-0000-0000-000000000010/";
    assert!(p.starts_with(prefix));
    let name = &p[prefix.len()..];
    assert!(is_uuid(name));
    assert_eq!(&name[14..15], "4");
    assert!("89ab".contains(&name[19..20]));
    let q = ShopCustomizationService::gen_image_path(&"user".to_string(), 0x10);
    assert_ne!(p, q);
}

#[test]
fn putting_an_image_replaces_the_stored_one() {
    let s = service();
    let plan = s.plan_image_put(&"u".to_string(), 1, &Some("old".to_string()), Some(&PNG)).unwrap();
    assert_eq!(plan.remove, Some("old".to_string()));
    assert!(plan.path.unwrap().starts_with("u/00000000-0000-0000-0000-000000000001/"));
    let nothing = s.plan_image_put(&"u".to_string(), 1, &Some("old".to_string()), None).unwrap();
    assert_eq!((nothing.remove, nothing.path), (None, None));
    let fresh = s.plan_image_put(&"u".to_string(), 1, &None, Some(&PNG)).unwrap();
    assert_eq!(fresh.remove, None);
    let bad = s.plan_image_put(&"u".to_string(), 1, &None, Some(&[1, 2, 3])).unwrap_err();
    assert_eq!((bad.code, bad.message.as_str()), (Code::InvalidArgument, "image"));
    let big = vec![0x89u8; 200];
    let big = s.plan_image_put(&"u".to_string(), 1, &None, Some(&big)).unwrap_err();
    assert_eq!((big.code, big.message.as_str()), (Code::ResourceExhausted, "image"));
}

#[test]
fn removing_images_removes_light_and_dark() {
    let r = ShopCustomizationService::images_to_remove(&Some("l".to_string()), &Some("d".to_string()));
    assert_eq!(r, vec!["l".to_string(), "d".to_string()]);
    let r = ShopCustomizationService::images_to_remove(&None, &Some("d".to_string()));
    assert_eq!(r, vec!["d".to_string()]);
    let c = ShopCustomization {
        shop_id: 1,
        user_id: "u".to_string(),
        created_at: 0,
        updated_at: 0,
        logo_image_light_url_path: Some("logo".to_string()),
        logo_image_dark_url_path: Some("logo-dark".to_string()),
        banner_image_light_url_path: None,
        banner_image_dark_url_path: Some("banner-dark".to_string()),
        primary_color: None,
        layout_type: "x".to_string(),
    };
    assert_eq!(ShopCustomizationService::images_removed_on_delete(&c), vec!["logo".to_string()]);
}

#[test]
fn a_shop_has_one_domain() {
    let d = "shop.example".to_string();
    assert_eq!(ShopDomainService::decide_add_domain(None, &d).unwrap(), AddDomain::Create);
    assert_eq!(ShopDomainService::decide_add_domain(Some(&d), &d).unwrap(), AddDomain::AlreadyAdded);
    let other = "other.example".to_string();
    let err = ShopDomainService::decide_add_domain(Some(&other), &d).unwrap_err();
    assert_eq!((err.code, err.message.as_str()), (Code::AlreadyExists, "other.example"));
}
