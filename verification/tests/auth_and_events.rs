use commerce::auth::get_auth_token;
use commerce::model::iden::ShopIden;
use commerce::model::query::{Column, Condition, Value, WriteKind};
use commerce::subscribers::{WebsiteAction, WebsiteEvent, WebsitesSubscriber};

#[test]
fn auth_token_follows_first_space() {
    assert_eq!(get_auth_token(Some("Bearer abc.def")), Some("abc.def".to_string()));
    assert_eq!(get_auth_token(Some("Bearer a b")), Some("a b".to_string()));
    assert_eq!(get_auth_token(Some("Bearer ")), Some("".to_string()));
    assert_eq!(get_auth_token(Some("token")), None);
    assert_eq!(get_auth_token(None), None);
}

#[test]
fn website_events() {
    assert_eq!(
        WebsitesSubscriber::website_action("websites.website.upsert", false),
        WebsiteAction::CreateShop
    );
    assert_eq!(
        WebsitesSubscriber::website_action("websites.website.upsert", true),
        WebsiteAction::Nothing
    );
    assert_eq!(
        WebsitesSubscriber::website_action("websites.website.delete", true),
        WebsiteAction::DeleteShop
    );
    assert_eq!(
        WebsitesSubscriber::website_action("websites.website.delete", false),
        WebsiteAction::Nothing
    );
    assert_eq!(WebsitesSubscriber::website_action("upsert", false), WebsiteAction::CreateShop);
    assert_eq!(
        WebsitesSubscriber::website_action("websites.website.other", false),
        WebsiteAction::Nothing
    );
    assert!(WebsitesSubscriber::is_website_change("websites.website.delete"));
    assert!(!WebsitesSubscriber::is_website_change("websites.website."));
}

#[test]
fn website_events_write_the_shop() {
    let s = WebsitesSubscriber::new(7, 250);
    let w = WebsiteEvent { website_id: "w1".to_string(), user_id: "owner".to_string(), name: "Site".to_string() };
    let create = s.website_write("websites.website.upsert", false, &w).unwrap();
    assert_eq!(create.kind, WriteKind::Insert);
    assert!(matches!(&create.values[0], (Column::Shop(ShopIden::UserId), Value::Text(u)) if u == "owner"));
    assert!(matches!(&create.values[1], (Column::Shop(ShopIden::Name), Value::Text(n)) if n == "Site"));
    assert!(matches!(&create.values[4], (_, Value::Int(7))));
    assert!(matches!(&create.values[5], (_, Value::Int(250))));
    assert!(s.website_write("websites.website.upsert", true, &w).is_none());
    let delete = s.website_write("websites.website.delete", true, &w).unwrap();
    assert_eq!(delete.kind, WriteKind::Delete);
    assert!(matches!(&delete.conditions[0], Condition::Eq(Column::Shop(ShopIden::WebsiteId), Value::Text(x)) if x == "w1"));
    assert!(s.website_write("websites.website.delete", false, &w).is_none());
    assert!(s.website_write("websites.website.other", false, &w).is_none());
}
