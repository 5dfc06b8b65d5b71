use commerce::services::{
    get_limit_offset_from_pagination, parse_uuid, uuid_err_to_grpc_status, validate_slug,
    PaginationRequest, PaginationResponse,
};
use commerce::{i64_to_i32, Code};

#[test]
fn pagination_defaults_to_first_page_of_ten() {
    let (limit, offset, page) = get_limit_offset_from_pagination(None).unwrap();
    assert_eq!(limit, 10);
    assert_eq!(offset, 0);
    assert_eq!(page, PaginationResponse { page: 1, size: 10, total_elements: 0 });
}

#[test]
fn pagination_computes_offset() {
    let (limit, offset, page) =
        get_limit_offset_from_pagination(Some(PaginationRequest { page: 3, size: 25 })).unwrap();
    assert_eq!(limit, 25);
    assert_eq!(offset, 50);
    assert_eq!(page, PaginationResponse { page: 3, size: 25, total_elements: 0 });
}

#[test]
fn pagination_refuses_page_zero() {
    let err =
        get_limit_offset_from_pagination(Some(PaginationRequest { page: 0, size: 25 })).unwrap_err();
    assert_eq!(err.code, Code::InvalidArgument);
    assert_eq!(err.message, "pagination.page less than 1");
}

#[test]
fn uuid_parsing() {
    let v = parse_uuid("67e55044-10b1-426f-9247-bb680e5fe0c8", "shop_id").unwrap();
    assert_eq!(v, 0x67e5504410b1426f9247bb680e5fe0c8u128);
    let err = parse_uuid("not-a-uuid", "shop_id").unwrap_err();
    assert_eq!(err.code, Code::InvalidArgument);
    assert_eq!(err.message, "field shop_id is not a valid UUID v4");
    let status = uuid_err_to_grpc_status("offer_id");
    assert_eq!(status.message, "field offer_id is not a valid UUID v4");
}

#[test]
fn slugs() {
    assert!(validate_slug("my-shop_1+!").is_ok());
    assert!(validate_slug("").is_ok());
    let err = validate_slug("my shop").unwrap_err();
    assert_eq!(err.code, Code::InvalidArgument);
    assert_eq!(err.message, "invalid character ' '");
    let err = validate_slug("shop0").unwrap_err();
    assert_eq!(err.message, "invalid character '0'");
    let err = validate_slug("ab/c.d").unwrap_err();
    assert_eq!(err.message, "invalid character '/'");
}

#[test]
fn i64_to_i32_checks_range() {
    assert_eq!(i64_to_i32(42).unwrap(), 42);
    assert_eq!(i64_to_i32(-2147483648).unwrap(), i32::MIN);
    let err = i64_to_i32(2147483648).unwrap_err();
    assert_eq!(err.code, Code::Internal);
    assert_eq!(err.message, "");
}
