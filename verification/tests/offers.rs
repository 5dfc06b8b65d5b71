use commerce::api::{Direction, OffersFilterField, OffersOrderByField};
use commerce::images::ImageService;
use commerce::model::offer::{Offer, OfferFilterField, OfferImageAsRel};
use commerce::model::query::{Column, Value};
use commerce::Code;
use commerce::services::offer::{OfferService, OffersFilter, OffersOrderBy};
use commerce::services::PaginationRequest;

const SHOP: &str = "67e55044-10b1-426f-9247-bb680e5fe0c8";

fn image(id: u128, ordering: i64) -> OfferImageAsRel {
    OfferImageAsRel { offer_image_id: id, image_url_path: format!("p{id}"), ordering }
}

#[test]
fn list_offers_needs_a_filter_an_order_or_a_shop() {
    let err = OfferService::check_list_offers(None, None, None, None).unwrap_err();
    assert_eq!(err.message, "filter,order_by");
    let args = OfferService::check_list_offers(Some(SHOP.to_string()), None, None, None).unwrap();
    assert_eq!(args.shop_id, Some(0x67e5504410b1426f9247bb680e5fe0c8));
    assert_eq!((args.limit, args.offset), (10, 0));
    let bad = OfferService::check_list_offers(Some("shop".to_string()), None, None, None).unwrap_err();
    assert_eq!(bad.message, "field shop_id is not a valid UUID v4");
}

#[test]
fn list_offers_reads_unknown_numbers_as_unspecified() {
    let args = OfferService::check_list_offers(
        None,
        Some(PaginationRequest { page: 4, size: 3 }),
        Some(OffersFilter { field: 77, query: "q".to_string() }),
        Some(OffersOrderBy { field: 77, direction: 77 }),
    )
    .unwrap();
    assert_eq!((args.limit, args.offset), (3, 9));
    assert_eq!(args.filter, Some((OfferFilterField::Unspecified, "q".to_string())));
    assert_eq!(args.order_by, Some((OffersOrderByField::Unspecified, Direction::Unspecified)));
    let args = OfferService::check_list_offers(
        None,
        None,
        Some(OffersFilter { field: 2, query: "tea".to_string() }),
        Some(OffersOrderBy { field: 3, direction: 1 }),
    )
    .unwrap();
    assert_eq!(args.filter, Some((OfferFilterField::Description, "tea".to_string())));
    assert_eq!(args.order_by, Some((OffersOrderByField::Name, Direction::Asc)));
    for field in [4, 5] {
        let args = OfferService::check_list_offers(
            None,
            None,
            Some(OffersFilter { field, query: "true".to_string() }),
            None,
        )
        .unwrap();
        assert_eq!(args.filter, Some((OfferFilterField::Unspecified, "true".to_string())));
    }
}

#[test]
fn offer_filters_of_the_protocol() {
    assert_eq!(OfferFilterField::from_protocol(OffersFilterField::Unspecified), OfferFilterField::Unspecified);
    assert_eq!(OfferFilterField::from_protocol(OffersFilterField::Name), OfferFilterField::Name);
    assert_eq!(OfferFilterField::from_protocol(OffersFilterField::Description), OfferFilterField::Description);
    assert_eq!(
        OfferFilterField::from_protocol(OffersFilterField::NameAndDescription),
        OfferFilterField::NameAndDescription
    );
}

#[test]
fn image_paths_of_offers() {
    let path = OfferService::build_image_path(&"user".to_string(), 1, 2, 0xff);
    assert_eq!(
        path,
        "user/00000000-0000-0000-0000-000000000001/00000000-0000-0000-0000-000000000002/00000000-0000-0000-0000-0000000000ff"
    );
}

#[test]
fn offer_images_answer_with_urls() {
    let s = OfferService::new(ImageService::new("https://img/".to_string(), 10));
    let r = s.offer_images_to_response(vec![image(0xab, 2), image(1, -1)]);
    assert_eq!(r.len(), 2);
    assert_eq!(r[0].offer_image_id, "00000000-0000-0000-0000-0000000000ab");
    assert_eq!(r[0].image_url, "https://img/p171");
    assert_eq!(r[0].ordering, 2);
    assert_eq!(r[1].image_url, "https://img/p1");
    assert_eq!(r[1].ordering, -1);
}

#[test]
fn images_sort_stably_by_ordering() {
    let sorted = Offer::sort_images(vec![image(1, 3), image(2, 1), image(3, 3), image(4, 1), image(5, 0)]);
    let ids: Vec<u128> = sorted.iter().map(|i| i.offer_image_id).collect();
    assert_eq!(ids, vec![5, 2, 4, 1, 3]);
    assert!(Offer::sort_images(Vec::new()).is_empty());
}

fn offer(shop_id: u128) -> Offer {
    Offer {
        offer_id: 2,
        shop_id,
        shop_name: String::new(),
        shop_slug: String::new(),
        shop_domain: None,
        user_id: "user".to_string(),
        created_at: 0,
        updated_at: 0,
        name: "o".to_string(),
        description: String::new(),
        is_active: true,
        is_featured: false,
        type_: None,
        images: Vec::new(),
        price: None,
    }
}

#[test]
fn adding_an_image_refuses_in_order() {
    let s = OfferService::new(ImageService::new("https://img/".to_string(), 10));
    let png = [0x89u8, 0x50, 0x4E, 0x47, 0];
    let missing = s.check_add_image(None, "bad").unwrap_err();
    assert_eq!((missing.code, missing.message.as_str()), (Code::InvalidArgument, "image"));
    let invalid = s.check_add_image(Some(&[1, 2, 3]), "bad").unwrap_err();
    assert_eq!((invalid.code, invalid.message.as_str()), (Code::InvalidArgument, "image"));
    let large = s.check_add_image(Some(&[0x89u8; 20]), "bad").unwrap_err();
    assert_eq!(large.code, Code::ResourceExhausted);
    let bad_id = s.check_add_image(Some(&png), "bad").unwrap_err();
    assert_eq!(bad_id.message, "field offer_id is not a valid UUID v4");
    assert_eq!(s.check_add_image(Some(&png), SHOP).unwrap(), 0x67e5504410b1426f9247bb680e5fe0c8);
}

#[test]
fn adding_an_image_to_an_owned_offer_stores_it_under_its_shop() {
    let user = "user".to_string();
    let err = OfferService::plan_add_image(&user, None, 2, 0).unwrap_err();
    assert_eq!((err.code, err.message.as_str()), (Code::NotFound, "offer"));
    let o = offer(1);
    let (id, path, plan) = OfferService::plan_add_image(&user, Some(&o), 2, 3).unwrap();
    assert_eq!(path, OfferService::build_image_path(&user, 1, 2, id));
    assert_eq!((id >> 76) & 0xf, 4);
    assert_eq!((id >> 62) & 0x3, 2);
    assert!(matches!(&plan.values[0], (_, Value::Uuid(v)) if *v == id));
    assert!(matches!(&plan.values[3], (_, Value::Text(p)) if *p == path));
    assert!(matches!(&plan.values[4], (Column::OfferImage(_), Value::Int(3))));
}
