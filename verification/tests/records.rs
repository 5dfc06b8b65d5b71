use commerce::model::offer::{Offer, OfferImageAsRel, OfferImageAsRelVec, OfferPriceAsRel, OfferPriceAsRelVec};
use commerce::model::record::{read_record, AsRecord, Field, FieldKind};
use commerce::model::shop::Shop;
use commerce::model::shop_customization::{ShopCustomizationAsRel, ShopCustomizationAsRelVec};

const UUID: u32 = 2950;
const TEXT: u32 = 25;
const VARCHAR: u32 = 1043;
const INT8: u32 = 20;
const INT4: u32 = 23;
const RECORD: u32 = 2249;

fn record(fields: &[(u32, Option<Vec<u8>>)]) -> Vec<u8> {
    let mut out = Vec::new();
    out.extend_from_slice(&(fields.len() as i32).to_be_bytes());
    for (oid, value) in fields {
        out.extend_from_slice(&oid.to_be_bytes());
        match value {
            Some(b) => {
                out.extend_from_slice(&(b.len() as i32).to_be_bytes());
                out.extend_from_slice(b);
            }
            None => out.extend_from_slice(&(-1i32).to_be_bytes()),
        }
    }
    out
}

fn array(elements: &[Option<Vec<u8>>]) -> Vec<u8> {
    let mut out = Vec::new();
    let dims: i32 = if elements.is_empty() { 0 } else { 1 };
    out.extend_from_slice(&dims.to_be_bytes());
    let has_nulls = elements.iter().any(|e| e.is_none()) as i32;
    out.extend_from_slice(&has_nulls.to_be_bytes());
    out.extend_from_slice(&RECORD.to_be_bytes());
    if !elements.is_empty() {
        out.extend_from_slice(&(elements.len() as i32).to_be_bytes());
        out.extend_from_slice(&1i32.to_be_bytes());
    }
    for e in elements {
        match e {
            Some(b) => {
                out.extend_from_slice(&(b.len() as i32).to_be_bytes());
                out.extend_from_slice(b);
            }
            None => out.extend_from_slice(&(-1i32).to_be_bytes()),
        }
    }
    out
}

fn uuid_bytes(v: u128) -> Option<Vec<u8>> {
    Some(v.to_be_bytes().to_vec())
}

fn text(s: &str) -> Option<Vec<u8>> {
    Some(s.as_bytes().to_vec())
}

fn int8(v: i64) -> Option<Vec<u8>> {
    Some(v.to_be_bytes().to_vec())
}

fn image_record(id: u128, path: &str, ordering: i64) -> Vec<u8> {
    record(&[(UUID, uuid_bytes(id)), (TEXT, text(path)), (INT8, int8(ordering))])
}

fn price_record(amount: i64, interval: Option<&str>, count: Option<i64>) -> Vec<u8> {
    record(&[
        (UUID, uuid_bytes(7)),
        (TEXT, text("EUR")),
        (TEXT, text("RECURRING")),
        (VARCHAR, text("PER_UNIT")),
        (INT8, int8(amount)),
        (TEXT, interval.and_then(text)),
        (INT8, count.and_then(int8)),
    ])
}

#[test]
fn read_record_reads_each_kind() {
    let raw = record(&[
        (UUID, uuid_bytes(0x0102030405060708090a0b0c0d0e0f10)),
        (TEXT, text("héllo")),
        (TEXT, None),
        (INT8, int8(-5)),
        (INT8, None),
    ]);
    let kinds = [FieldKind::Uuid, FieldKind::Text, FieldKind::OptText, FieldKind::Int8, FieldKind::OptInt8];
    let fields = read_record(&raw, &kinds).unwrap();
    assert_eq!(fields.len(), 5);
    assert!(matches!(fields[0], Field::Uuid(0x0102030405060708090a0b0c0d0e0f10)));
    assert!(matches!(&fields[1], Field::Text(s) if s == "héllo"));
    assert!(matches!(fields[2], Field::OptText(None)));
    assert!(matches!(fields[3], Field::Int8(-5)));
    assert!(matches!(fields[4], Field::OptInt8(None)));
}

#[test]
fn read_record_refuses_what_does_not_fit() {
    let kinds = [FieldKind::Text];
    // NULL where a value is needed.
    assert!(read_record(&record(&[(TEXT, None)]), &kinds).is_none());
    // A type that is not read as text.
    assert!(read_record(&record(&[(INT4, text("1"))]), &kinds).is_none());
    // Bytes that are not UTF-8.
    assert!(read_record(&record(&[(TEXT, Some(vec![0xff, 0xfe]))]), &kinds).is_none());
    // A value that runs past the end.
    let mut short = record(&[(TEXT, text("abc"))]);
    short.pop();
    assert!(read_record(&short, &kinds).is_none());
    // No field count at all.
    assert!(read_record(&[0, 0], &kinds).is_none());
    // A UUID of the wrong length, an integer of the wrong length.
    assert!(read_record(&record(&[(UUID, Some(vec![1, 2, 3]))]), &[FieldKind::Uuid]).is_none());
    assert!(read_record(&record(&[(INT8, Some(vec![1, 2, 3, 4]))]), &[FieldKind::Int8]).is_none());
}

#[test]
fn read_record_leaves_later_fields_unread() {
    let raw = record(&[(TEXT, text("a")), (INT4, Some(vec![0, 0, 0, 1]))]);
    let fields = read_record(&raw, &[FieldKind::Text]).unwrap();
    assert_eq!(fields.len(), 1);
}

#[test]
fn offer_image_from_record() {
    let img = OfferImageAsRel::from_record(&image_record(42, "u/s/o/i", 3)).unwrap();
    assert_eq!(img.offer_image_id, 42);
    assert_eq!(img.image_url_path, "u/s/o/i");
    assert_eq!(img.ordering, 3);
}

#[test]
fn offer_price_from_record_checks_ranges() {
    let p = OfferPriceAsRel::from_record(&price_record(1999, Some("MONTH"), Some(3))).unwrap();
    assert_eq!(p.offer_price_id, 7);
    assert_eq!(p.currency, "EUR");
    assert_eq!(p.price_type, "RECURRING");
    assert_eq!(p.billing_scheme, "PER_UNIT");
    assert_eq!(p.unit_amount, 1999);
    assert_eq!(p.recurring_interval, Some("MONTH".to_string()));
    assert_eq!(p.recurring_interval_count, Some(3));
    let once = OfferPriceAsRel::from_record(&price_record(0, None, None)).unwrap();
    assert_eq!(once.recurring_interval, None);
    assert_eq!(once.recurring_interval_count, None);
    assert!(OfferPriceAsRel::from_record(&price_record(-1, None, None)).is_none());
    assert!(OfferPriceAsRel::from_record(&price_record(1 << 32, None, None)).is_none());
    assert!(OfferPriceAsRel::from_record(&price_record(1, None, Some(-2))).is_none());
}

#[test]
fn customization_from_record() {
    let raw = record(&[
        (TEXT, text("logo")),
        (TEXT, None),
        (TEXT, text("banner")),
        (TEXT, None),
        (TEXT, text("#fff")),
        (TEXT, text("FEATURED")),
    ]);
    let c = ShopCustomizationAsRel::from_record(&raw).unwrap();
    assert_eq!(c.logo_image_light_url_path, Some("logo".to_string()));
    assert_eq!(c.logo_image_dark_url_path, None);
    assert_eq!(c.banner_image_light_url_path, Some("banner".to_string()));
    assert_eq!(c.banner_image_dark_url_path, None);
    assert_eq!(c.primary_color, Some("#fff".to_string()));
    assert_eq!(c.layout_type, "FEATURED");
}

#[test]
fn arrays_keep_the_records_that_read() {
    let raw = array(&[
        Some(image_record(1, "a", 2)),
        None,
        Some(record(&[(TEXT, text("not an image"))])),
        Some(image_record(2, "b", 1)),
    ]);
    let v = OfferImageAsRelVec::from_array(&raw).unwrap().0;
    assert_eq!(v.len(), 2);
    assert_eq!(v[0].offer_image_id, 1);
    assert_eq!(v[1].offer_image_id, 2);
    let empty = OfferImageAsRelVec::from_array(&array(&[])).unwrap().0;
    assert!(empty.is_empty());
    let prices = OfferPriceAsRelVec::from_array(&array(&[
        Some(price_record(-1, None, None)),
        Some(price_record(5, None, None)),
    ]))
    .unwrap()
    .0;
    assert_eq!(prices.len(), 1);
    assert_eq!(prices[0].unit_amount, 5);
}

#[test]
fn arrays_of_two_dimensions_or_broken_arrays_give_nothing() {
    let mut raw = Vec::new();
    raw.extend_from_slice(&2i32.to_be_bytes());
    raw.extend_from_slice(&0i32.to_be_bytes());
    raw.extend_from_slice(&RECORD.to_be_bytes());
    for _ in 0..2 {
        raw.extend_from_slice(&1i32.to_be_bytes());
        raw.extend_from_slice(&1i32.to_be_bytes());
    }
    let rec = image_record(1, "a", 0);
    raw.extend_from_slice(&(rec.len() as i32).to_be_bytes());
    raw.extend_from_slice(&rec);
    assert!(OfferImageAsRelVec::from_array(&raw).is_none());
    assert!(ShopCustomizationAsRelVec::from_array(&[0, 0, 0]).is_none());
}

#[test]
fn offer_images_from_column_are_sorted_by_ordering() {
    let raw = array(&[
        Some(image_record(1, "a", 5)),
        Some(image_record(2, "b", 1)),
        Some(image_record(3, "c", 5)),
        Some(image_record(4, "d", 0)),
    ]);
    let images = Offer::images_from_column(Some(&raw));
    let ids: Vec<u128> = images.iter().map(|i| i.offer_image_id).collect();
    assert_eq!(ids, vec![4, 2, 1, 3]);
    assert!(Offer::images_from_column(None).is_empty());
    assert!(Offer::images_from_column(Some(&[1, 2])).is_empty());
}

#[test]
fn offer_price_from_column_is_the_first() {
    let raw = array(&[Some(price_record(10, None, None)), Some(price_record(20, None, None))]);
    assert_eq!(Offer::price_from_column(Some(&raw)).unwrap().unit_amount, 10);
    assert!(Offer::price_from_column(Some(&array(&[]))).is_none());
    assert!(Offer::price_from_column(None).is_none());
}

#[test]
fn shop_customization_from_column_is_the_first() {
    let c = record(&[
        (TEXT, None),
        (TEXT, None),
        (TEXT, None),
        (TEXT, None),
        (TEXT, None),
        (TEXT, text("OFFERS")),
    ]);
    let raw = array(&[None, Some(c)]);
    let found = Shop::customization_from_column(Some(&raw)).unwrap();
    assert_eq!(found.layout_type, "OFFERS");
    assert!(Shop::customization_from_column(Some(&array(&[None]))).is_none());
}

#[test]
fn field_types_must_be_read_as_their_kind() {
    let uuid_as_text = record(&[(TEXT, uuid_bytes(1))]);
    assert!(read_record(&uuid_as_text, &[FieldKind::Uuid]).is_none());
    let int4 = record(&[(INT4, int8(1))]);
    assert!(read_record(&int4, &[FieldKind::Int8]).is_none());
    let varchar = record(&[(VARCHAR, text("v"))]);
    assert!(matches!(&read_record(&varchar, &[FieldKind::Text]).unwrap()[0], Field::Text(s) if s == "v"));
    let negative_oid = record(&[(u32::MAX, text("v"))]);
    assert!(read_record(&negative_oid, &[FieldKind::Text]).is_none());
}
