//! The decisions of the offer service: which requests it accepts, and how it
//! answers them.
use vstd::prelude::*;

use super::{
    get_limit_offset_from_pagination, pagination_fits, parse_uuid, uuid_error_message,
    PaginationRequest, PaginationResponse, DEFAULT_PAGE_SIZE,
};
use crate::api::{Direction, OffersFilterField, OffersOrderByField};
use crate::ids::{uuid_hyphenated, uuid_parse_str, uuid_to_string};
use crate::images::ImageService;
use crate::ids::{is_v4, new_v4};
use crate::model::offer::{Offer, OfferFilterField, OfferImageAsRel};
use crate::model::offer_image::{spec_offer_image_create, OfferImage};
use crate::model::query::WritePlan;
use crate::services::shop_customization::accepts_image;
use crate::status::{fails_with, Code, Status};

verus! {

/// The filter of a listing of offers as requested.
#[derive(Debug)]
pub struct OffersFilter {
    pub field: i32,
    pub query: String,
}

/// The order of a listing of offers as requested.
#[derive(Clone, Copy, Debug, PartialEq, Eq, Structural)]
pub struct OffersOrderBy {
    pub field: i32,
    pub direction: i32,
}

/// An image of an offer as it is answered.
#[derive(Debug)]
pub struct OfferImageResponse {
    pub offer_image_id: String,
    pub image_url: String,
    pub ordering: i64,
}

/// What a listing of offers asks for, once accepted.
#[derive(Debug)]
pub struct ListOffersArgs {
    pub limit: u32,
    pub offset: u32,
    pub pagination: PaginationResponse,
    pub shop_id: Option<u128>,
    pub filter: Option<(OfferFilterField, String)>,
    pub order_by: Option<(OffersOrderByField, Direction)>,
}

/// Where offer images are served from.
pub struct OfferService {
    pub image_service: ImageService,
}

/// The filter that the field number `n` of a requested filter asks for: the
/// number is read as a filter field of the commerce protocol, as its protobuf
/// getter reads it, so unknown numbers read as unspecified. The protocol has
/// no number for a filter on the type of an offer or on whether it is
/// featured, so a request never asks for one.
pub open spec fn offers_filter_field_of(n: i32) -> OfferFilterField {
    OfferFilterField::spec_from_protocol(
        match OffersFilterField::spec_from_i32(n) {
            Some(f) => f,
            None => OffersFilterField::Unspecified,
        },
    )
}

/// The outcome of a listing request: what it asks for, or the status it is
/// refused with.
pub open spec fn spec_list_offers(
    shop_id: Option<Seq<char>>,
    pagination: Option<PaginationRequest>,
    filter: Option<(i32, Seq<char>)>,
    order_by: Option<OffersOrderBy>,
) -> Result<
    (
        u32,
        u32,
        PaginationResponse,
        Option<u128>,
        Option<(OfferFilterField, Seq<char>)>,
        Option<(OffersOrderByField, Direction)>,
    ),
    Seq<char>,
> {
    if pagination matches Some(p) && p.page < 1 {
        Err("pagination.page less than 1"@)
    } else if filter is None && order_by is None && shop_id is None {
        Err("filter,order_by"@)
    } else if shop_id matches Some(s) && uuid_parse_str(s) is None {
        Err(uuid_error_message("shop_id"@))
    } else {
        let (limit, offset, page) = match pagination {
            Some(p) => (p.size, ((p.page - 1) * p.size) as u32, PaginationResponse {
                page: p.page,
                size: p.size,
                total_elements: 0,
            }),
            None => (DEFAULT_PAGE_SIZE, 0u32, PaginationResponse {
                page: 1,
                size: DEFAULT_PAGE_SIZE,
                total_elements: 0,
            }),
        };
        Ok(
            (
                limit,
                offset,
                page,
                match shop_id {
                    Some(s) => uuid_parse_str(s),
                    None => None,
                },
                match filter {
                    Some((f, q)) => Some((offers_filter_field_of(f), q)),
                    None => None,
                },
                match order_by {
                    Some(o) => Some(
                        (
                            match OffersOrderByField::spec_from_i32(o.field) {
                                Some(f) => f,
                                None => OffersOrderByField::Unspecified,
                            },
                            match Direction::spec_from_i32(o.direction) {
                                Some(d) => d,
                                None => Direction::Unspecified,
                            },
                        ),
                    ),
                    None => None,
                },
            ),
        )
    }
}

/// The view of an accepted listing request.
pub open spec fn list_offers_args_view(a: ListOffersArgs) -> (
    u32,
    u32,
    PaginationResponse,
    Option<u128>,
    Option<(OfferFilterField, Seq<char>)>,
    Option<(OffersOrderByField, Direction)>,
) {
    (
        a.limit,
        a.offset,
        a.pagination,
        a.shop_id,
        match a.filter {
            Some((f, q)) => Some((f, q@)),
            None => None,
        },
        a.order_by,
    )
}

/// The path under which an image of an offer is stored.
pub open spec fn spec_image_path(user_id: Seq<char>, shop_id: u128, offer_id: u128, offer_image_id: u128) -> Seq<
    char,
> {
    user_id + "/"@ + uuid_hyphenated(shop_id) + "/"@ + uuid_hyphenated(offer_id) + "/"@
        + uuid_hyphenated(offer_image_id)
}

impl OfferService {
    /// An offer service serving images with `image_service`.
    pub fn new(image_service: ImageService) -> (r: OfferService)
        ensures
            r.image_service == image_service,
    {
        OfferService { image_service }
    }

    /// Accepts a request to list offers and gives its page, shop, filter and
    /// order; a listing names a filter, an order or a shop.
    pub fn check_list_offers(
        shop_id: Option<String>,
        pagination: Option<PaginationRequest>,
        filter: Option<OffersFilter>,
        order_by: Option<OffersOrderBy>,
    ) -> (r: Result<ListOffersArgs, Status>)
        requires
            pagination_fits(pagination),
        ensures
            spec_list_offers(
                match shop_id {
                    Some(s) => Some(s@),
                    None => None,
                },
                pagination,
                match filter {
                    Some(f) => Some((f.field, f.query@)),
                    None => None,
                },
                order_by,
            ) matches Ok(a) ==> (r matches Ok(b) && list_offers_args_view(b) == a),
            spec_list_offers(
                match shop_id {
                    Some(s) => Some(s@),
                    None => None,
                },
                pagination,
                match filter {
                    Some(f) => Some((f.field, f.query@)),
                    None => None,
                },
                order_by,
            ) matches Err(m) ==> fails_with(r, Code::InvalidArgument, m),
    {
        let (limit, offset, page) = match get_limit_offset_from_pagination(pagination) {
            Ok(x) => x,
            Err(e) => {
                return Err(e);
            },
        };
        if filter.is_none() && order_by.is_none() && shop_id.is_none() {
            return Err(Status::invalid_argument("filter,order_by"));
        }
        let filter = match filter {
            Some(f) => Some(
                (OfferFilterField::from_protocol(OffersFilterField::from_i32_or_default(f.field)), f.query),
            ),
            None => None,
        };
        let order_by = match order_by {
            Some(o) => Some(
                (
                    OffersOrderByField::from_i32_or_default(o.field),
                    Direction::from_i32_or_default(o.direction),
                ),
            ),
            None => None,
        };
        let shop_id = match shop_id {
            Some(id) => match parse_uuid(id.as_str(), "shop_id") {
                Ok(v) => Some(v),
                Err(e) => {
                    return Err(e);
                },
            },
            None => None,
        };
        Ok(ListOffersArgs { limit, offset, pagination: page, shop_id, filter, order_by })
    }

    /// The path under which an image of an offer is stored:
    /// `user/shop/offer/image`.
    /// The first refusal of a request to add an image to the offer
    /// `offer_id`: a missing image, then one the image service refuses, then
    /// an offer id that is not a UUID. Where none applies, the offer's id.
    pub fn check_add_image(&self, image: Option<&[u8]>, offer_id: &str) -> (r: Result<u128, Status>)
        ensures
            image is None ==> fails_with(r, Code::InvalidArgument, "image"@),
            image matches Some(d) ==> (d@.len() >= self.image_service.max_size ==> fails_with(
                r,
                Code::ResourceExhausted,
                "image"@,
            )),
            image matches Some(d) ==> ((d@.len() < self.image_service.max_size && !accepts_image(
                &self.image_service,
                d@,
            )) ==> fails_with(r, Code::InvalidArgument, "image"@)),
            image matches Some(d) ==> (accepts_image(&self.image_service, d@) ==> match uuid_parse_str(
                offer_id@,
            ) {
                Some(v) => r == Ok::<u128, Status>(v),
                None => fails_with(r, Code::InvalidArgument, uuid_error_message("offer_id"@)),
            }),
    {
        let data = match image {
            Some(d) => d,
            None => {
                return Err(Status::invalid_argument("image"));
            },
        };
        match self.image_service.validate_image(data) {
            Ok(()) => {},
            Err(e) => {
                return Err(e);
            },
        }
        parse_uuid(offer_id, "offer_id")
    }

    /// What adding an image to the offer `offer_id` of `user_id` writes,
    /// where `offer` is that offer as found among the user's: a refusal where
    /// it was not found; else a new random (version 4) image id, the path the image is
    /// stored at (under the user, the offer's shop and the offer) and the
    /// statement that stores the image there in the place `ordering`.
    pub fn plan_add_image(user_id: &String, offer: Option<&Offer>, offer_id: u128, ordering: i64) -> (r:
        Result<(u128, String, WritePlan), Status>)
        ensures
            offer is None ==> fails_with(r, Code::NotFound, "offer"@),
            offer matches Some(o) ==> (r matches Ok((id, path, plan)) && is_v4(id) && path@ == spec_image_path(
                user_id@,
                o.shop_id,
                offer_id,
                id,
            ) && plan@ == spec_offer_image_create(id, offer_id, user_id@, path@, ordering)),
    {
        let offer = match offer {
            Some(o) => o,
            None => {
                return Err(Status::not_found("offer"));
            },
        };
        let offer_image_id = new_v4();
        let path = Self::build_image_path(user_id, offer.shop_id, offer_id, offer_image_id);
        let plan = OfferImage::create_query(offer_image_id, offer_id, user_id, &path, ordering);
        Ok((offer_image_id, path, plan))
    }

    pub fn build_image_path(user_id: &String, shop_id: u128, offer_id: u128, offer_image_id: u128) -> (r:
        String)
        ensures
            r@ == spec_image_path(user_id@, shop_id, offer_id, offer_image_id),
    {
        let mut path = user_id.clone();
        path.append("/");
        path.append(uuid_to_string(shop_id).as_str());
        path.append("/");
        path.append(uuid_to_string(offer_id).as_str());
        path.append("/");
        path.append(uuid_to_string(offer_image_id).as_str());
        path
    }

    /// The images of an offer as they are answered: each with its id, the URL
    /// it is served from and its ordering, in the same order.
    pub fn offer_images_to_response(&self, offer_images: Vec<OfferImageAsRel>) -> (r: Vec<
        OfferImageResponse,
    >)
        ensures
            r@.len() == offer_images@.len(),
            forall|i: int|
                0 <= i < r@.len() ==> {
                    &&& (#[trigger] r@[i]).offer_image_id@ == uuid_hyphenated(
                        offer_images@[i].offer_image_id,
                    )
                    &&& r@[i].image_url@ == self.image_service.base_url@
                        + offer_images@[i].image_url_path@
                    &&& r@[i].ordering == offer_images@[i].ordering
                },
    {
        let mut r: Vec<OfferImageResponse> = Vec::new();
        let n = offer_images.len();
        let mut i: usize = 0;
        while i < n
            invariant
                n == offer_images@.len(),
                i <= n,
                r@.len() == i,
                forall|k: int|
                    0 <= k < i ==> {
                        &&& (#[trigger] r@[k]).offer_image_id@ == uuid_hyphenated(
                            offer_images@[k].offer_image_id,
                        )
                        &&& r@[k].image_url@ == self.image_service.base_url@
                            + offer_images@[k].image_url_path@
                        &&& r@[k].ordering == offer_images@[k].ordering
                    },
            decreases n - i,
        {
            let oi = &offer_images[i];
            r.push(
                OfferImageResponse {
                    offer_image_id: uuid_to_string(oi.offer_image_id),
                    image_url: self.image_service.get_image_url(&oi.image_url_path),
                    ordering: oi.ordering,
                },
            );
            i = i + 1;
        }
        r
    }
}

/// An accepted listing of offers answers the page asked for, ten offers from
/// the first where none is asked, the shop whose id is asked for, the filter
/// asked for (a name, description or both, or none, by the number of the
/// protocol's filter field) and the order asked for, its numbers read as the
/// field and direction with those numbers, unknown ones as unspecified. A
/// listing that names no filter, order or shop is refused, as is a page below
/// 1 or a shop id that is not a UUID.
pub proof fn lemma_list_offers_reads_request(
    shop_id: Option<Seq<char>>,
    pagination: Option<PaginationRequest>,
    filter: Option<(i32, Seq<char>)>,
    order_by: Option<OffersOrderBy>,
)
    requires
        pagination_fits(pagination),
    ensures
        !(pagination matches Some(p) && p.page < 1) && filter is None && order_by is None
            && shop_id is None ==> spec_list_offers(shop_id, pagination, filter, order_by) is Err,
        !(pagination matches Some(p) && p.page < 1) && (shop_id matches Some(s) && uuid_parse_str(
            s,
        ) is None) ==> spec_list_offers(shop_id, pagination, filter, order_by) is Err,
        pagination matches Some(p) && p.page < 1 ==> spec_list_offers(
            shop_id,
            pagination,
            filter,
            order_by,
        ) is Err,
        spec_list_offers(shop_id, pagination, filter, order_by) matches Ok(
            (limit, offset, page, sid, f, o),
        ) ==> {
            &&& (pagination matches Some(p) ==> limit == p.size && offset == (p.page - 1) * p.size
                && page == PaginationResponse { page: p.page, size: p.size, total_elements: 0 })
            &&& (pagination is None ==> limit == 10 && offset == 0 && page == PaginationResponse {
                page: 1,
                size: 10,
                total_elements: 0,
            })
            &&& (shop_id is None ==> sid is None)
            &&& (shop_id matches Some(s) ==> sid == uuid_parse_str(s) && sid is Some)
            &&& (filter is None ==> f is None)
            &&& (filter matches Some((n, q)) ==> f == Some(
                (
                    if n == 1 {
                        OfferFilterField::Name
                    } else if n == 2 {
                        OfferFilterField::Description
                    } else if n == 3 {
                        OfferFilterField::NameAndDescription
                    } else {
                        OfferFilterField::Unspecified
                    },
                    q,
                ),
            ))
            &&& (order_by is None ==> o is None)
            &&& (order_by matches Some(ob) ==> (o matches Some((of, od)) && (OffersOrderByField::spec_from_i32(
                ob.field,
            ) is Some ==> of.spec_to_i32() == ob.field) && (OffersOrderByField::spec_from_i32(
                ob.field,
            ) is None ==> of == OffersOrderByField::Unspecified) && (Direction::spec_from_i32(
                ob.direction,
            ) is Some ==> od.spec_to_i32() == ob.direction) && (Direction::spec_from_i32(
                ob.direction,
            ) is None ==> od == Direction::Unspecified)))
        },
{
    if let Some(p) = pagination {
        if p.page >= 1 {
            assert((p.page - 1) * p.size >= 0) by (nonlinear_arith)
                requires
                    p.page >= 1,
            ;
        }
    }
}

/// An image of an offer is stored under its owner, then the offer's shop,
/// then the offer, then the image, each id in its hyphenated form, separated
/// by `/`.
pub proof fn lemma_image_path_layout(user_id: Seq<char>, shop_id: u128, offer_id: u128, offer_image_id: u128)
    ensures
        spec_image_path(user_id, shop_id, offer_id, offer_image_id) == user_id + seq!['/']
            + uuid_hyphenated(shop_id) + seq!['/'] + uuid_hyphenated(offer_id) + seq!['/']
            + uuid_hyphenated(offer_image_id),
{
    reveal_strlit("/");
    assert("/"@ =~= seq!['/']);
}

} // verus!
