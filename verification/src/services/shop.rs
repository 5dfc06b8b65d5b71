//! The decisions of the shop service: which requests it accepts, and what it
//! does with them.
use vstd::prelude::*;

use super::{
    get_limit_offset_from_pagination, pagination_fits, parse_uuid, refuses_slug, uuid_error_message,
    validate_slug, is_valid_slug, PaginationRequest, PaginationResponse, DEFAULT_PAGE_SIZE,
};
use crate::api::{Direction, ShopsFilterField, ShopsOrderByField};
use crate::ids::uuid_parse_str;
use crate::images::ImageService;
use crate::model::shop_customization::ShopCustomization;
use crate::status::{fails_with, Code, Status};
use crate::text::{spec_trim, trim_is_empty};

verus! {

/// The filter of a listing as requested: a field number and a text query.
#[derive(Debug)]
pub struct ShopsFilter {
    pub field: i32,
    pub query: String,
}

/// The order of a listing as requested: a field number and a direction number.
#[derive(Clone, Copy, Debug, PartialEq, Eq, Structural)]
pub struct ShopsOrderBy {
    pub field: i32,
    pub direction: i32,
}

/// How a requested shop is looked up.
#[derive(Debug)]
pub enum ShopLookup {
    ById(u128),
    ByDomain(String),
    BySlug(String),
    ByWebsiteId(String),
}

/// What a listing of shops asks for, once accepted.
#[derive(Debug)]
pub struct ListShopsArgs {
    pub limit: u32,
    pub offset: u32,
    pub pagination: PaginationResponse,
    pub filter: Option<(ShopsFilterField, String)>,
    pub order_by: Option<(ShopsOrderByField, Direction)>,
}

/// The fee limits of the platform and where shop images are served from.
pub struct ShopService {
    pub image_service: ImageService,
    pub allowed_min_platform_fee_percent: u32,
    pub allowed_min_minimum_platform_fee_cent: u32,
}

/// The platform fee a shop asks for, once accepted: the lowest one allowed
/// where none is asked; one below it or of 100 percent or more is refused.
pub open spec fn spec_platform_fee_percent(allowed_min: u32, requested: Option<u32>) -> Option<u32> {
    match requested {
        Some(p) => if p < allowed_min || p >= 100 {
            None
        } else {
            Some(p)
        },
        None => Some(allowed_min),
    }
}

/// The minimum platform fee a shop asks for, once accepted: the lowest one
/// allowed where none is asked; one below it is refused.
pub open spec fn spec_minimum_platform_fee_cent(allowed_min: u32, requested: Option<u32>) -> Option<
    u32,
> {
    match requested {
        Some(m) => if m < allowed_min {
            None
        } else {
            Some(m)
        },
        None => Some(allowed_min),
    }
}

/// The outcome of a listing request: what it asks for, or the message it is
/// refused with.
pub open spec fn spec_list_shops(
    pagination: Option<PaginationRequest>,
    filter: Option<(i32, Seq<char>)>,
    order_by: Option<ShopsOrderBy>,
) -> Result<
    (
        u32,
        u32,
        PaginationResponse,
        Option<(ShopsFilterField, Seq<char>)>,
        Option<(ShopsOrderByField, Direction)>,
    ),
    Seq<char>,
> {
    if pagination matches Some(p) && p.page < 1 {
        Err("pagination.page less than 1"@)
    } else if filter is None && order_by is None {
        Err("filter,order_by"@)
    } else if filter matches Some((f, q)) && f < 1 {
        Err("filter.field"@)
    } else if filter matches Some((f, q)) && spec_trim(q).len() == 0 {
        Err("filter.query"@)
    } else if filter matches Some((f, q)) && ShopsFilterField::spec_from_i32(f) is None {
        Err("filter.field"@)
    } else if order_by matches Some(o) && ShopsOrderByField::spec_from_i32(o.field) is None {
        Err("order_by.field"@)
    } else if order_by matches Some(o) && Direction::spec_from_i32(o.direction) is None {
        Err("order_by.direction"@)
    } else {
        let (limit, offset, page) = match pagination {
            Some(p) => (p.size, ((p.page - 1) * p.size) as u32, PaginationResponse {
                page: p.page,
                size: p.size,
                total_elements: 0,
            }),
            None => (DEFAULT_PAGE_SIZE, 0u32, PaginationResponse {
                page: 1,
                size: DEFAULT_PAGE_SIZE,
                total_elements: 0,
            }),
        };
        Ok(
            (
                limit,
                offset,
                page,
                match filter {
                    Some((f, q)) => Some((ShopsFilterField::spec_from_i32(f)->0, q)),
                    None => None,
                },
                match order_by {
                    Some(o) => Some(
                        (
                            ShopsOrderByField::spec_from_i32(o.field)->0,
                            Direction::spec_from_i32(o.direction)->0,
                        ),
                    ),
                    None => None,
                },
            ),
        )
    }
}

/// The view of a requested filter.
pub open spec fn shops_filter_view(f: &Option<ShopsFilter>) -> Option<(i32, Seq<char>)> {
    match f {
        Some(f) => Some((f.field, f.query@)),
        None => None,
    }
}

/// The view of an accepted listing request.
pub open spec fn list_shops_args_view(a: ListShopsArgs) -> (
    u32,
    u32,
    PaginationResponse,
    Option<(ShopsFilterField, Seq<char>)>,
    Option<(ShopsOrderByField, Direction)>,
) {
    (
        a.limit,
        a.offset,
        a.pagination,
        match a.filter {
            Some((f, q)) => Some((f, q@)),
            None => None,
        },
        a.order_by,
    )
}

impl ShopService {
    /// A shop service with the given image service and fee limits.
    pub fn new(
        image_service: ImageService,
        allowed_min_platform_fee_percent: u32,
        allowed_min_minimum_platform_fee_cent: u32,
    ) -> (r: ShopService)
        ensures
            r.allowed_min_platform_fee_percent == allowed_min_platform_fee_percent,
            r.allowed_min_minimum_platform_fee_cent == allowed_min_minimum_platform_fee_cent,
            r.image_service == image_service,
    {
        ShopService {
            image_service,
            allowed_min_platform_fee_percent,
            allowed_min_minimum_platform_fee_cent,
        }
    }

    /// Accepts a slug made of slug characters only.
    pub fn validate_slug(slug: &str) -> (r: Result<(), Status>)
        ensures
            is_valid_slug(slug@) ==> r is Ok,
            !is_valid_slug(slug@) ==> refuses_slug(r, slug@),
    {
        validate_slug(slug)
    }

    /// The platform fee of a new shop: the one asked for, or the lowest one
    /// allowed.
    pub fn platform_fee_percent(&self, requested: Option<u32>) -> (r: Result<u32, Status>)
        ensures
            spec_platform_fee_percent(self.allowed_min_platform_fee_percent, requested) matches Some(
                p,
            ) ==> r == Ok::<u32, Status>(p),
            spec_platform_fee_percent(self.allowed_min_platform_fee_percent, requested) is None
                ==> fails_with(r, Code::InvalidArgument, "platform_fee_percent"@),
    {
        match requested {
            Some(pfp) => {
                if pfp < self.allowed_min_platform_fee_percent || pfp >= 100 {
                    return Err(Status::invalid_argument("platform_fee_percent"));
                }
                Ok(pfp)
            },
            None => Ok(self.allowed_min_platform_fee_percent),
        }
    }

    /// The minimum platform fee of a new shop: the one asked for, or the
    /// lowest one allowed.
    pub fn minimum_platform_fee_cent(&self, requested: Option<u32>) -> (r: Result<u32, Status>)
        ensures
            spec_minimum_platform_fee_cent(self.allowed_min_minimum_platform_fee_cent, requested) matches Some(
                m,
            ) ==> r == Ok::<u32, Status>(m),
            spec_minimum_platform_fee_cent(self.allowed_min_minimum_platform_fee_cent, requested)
                is None ==> fails_with(r, Code::InvalidArgument, "minimum_platform_fee_cent"@),
    {
        match requested {
            Some(mpfc) => {
                if mpfc < self.allowed_min_minimum_platform_fee_cent {
                    return Err(Status::invalid_argument("minimum_platform_fee_cent"));
                }
                Ok(mpfc)
            },
            None => Ok(self.allowed_min_minimum_platform_fee_cent),
        }
    }

    /// Accepts a request to create a shop and gives its platform fee and
    /// minimum platform fee; refuses an invalid slug first, then a fee out of
    /// bounds, then a minimum fee too low.
    pub fn check_create_shop(
        &self,
        slug: &str,
        platform_fee_percent: Option<u32>,
        minimum_platform_fee_cent: Option<u32>,
    ) -> (r: Result<(u32, u32), Status>)
        ensures
            !is_valid_slug(slug@) ==> refuses_slug(
                match r {
                    Ok(_) => Ok(()),
                    Err(e) => Err(e),
                },
                slug@,
            ),
            is_valid_slug(slug@) ==> (match (
                spec_platform_fee_percent(self.allowed_min_platform_fee_percent, platform_fee_percent),
                spec_minimum_platform_fee_cent(
                    self.allowed_min_minimum_platform_fee_cent,
                    minimum_platform_fee_cent,
                ),
            ) {
                (None, _) => fails_with(r, Code::InvalidArgument, "platform_fee_percent"@),
                (Some(_), None) => fails_with(r, Code::InvalidArgument, "minimum_platform_fee_cent"@),
                (Some(p), Some(m)) => r == Ok::<(u32, u32), Status>((p, m)),
            }),
    {
        match Self::validate_slug(slug) {
            Ok(()) => {},
            Err(e) => {
                return Err(e);
            },
        }
        let pfp = match self.platform_fee_percent(platform_fee_percent) {
            Ok(p) => p,
            Err(e) => {
                return Err(e);
            },
        };
        let mpfc = match self.minimum_platform_fee_cent(minimum_platform_fee_cent) {
            Ok(m) => m,
            Err(e) => {
                return Err(e);
            },
        };
        Ok((pfp, mpfc))
    }

    /// Accepts a request to update a shop and gives the shop's id and whether
    /// its offers are to be deactivated (when the shop is); refuses an invalid
    /// slug first, then an id that is not a UUID, then a fee out of bounds,
    /// then a minimum fee too low.
    pub fn check_update_shop(
        &self,
        shop_id: &str,
        slug: Option<&str>,
        platform_fee_percent: Option<u32>,
        minimum_platform_fee_cent: Option<u32>,
        is_active: Option<bool>,
    ) -> (r: Result<(u128, bool), Status>)
        ensures
            slug matches Some(s) ==> (!is_valid_slug(s@) ==> refuses_slug(
                match r {
                    Ok(_) => Ok(()),
                    Err(e) => Err(e),
                },
                s@,
            )),
            !(slug matches Some(s) && !is_valid_slug(s@)) ==> (match uuid_parse_str(shop_id@) {
                None => fails_with(r, Code::InvalidArgument, uuid_error_message("shop_id"@)),
                Some(id) => if platform_fee_percent matches Some(p) && (p
                    < self.allowed_min_platform_fee_percent || p >= 100) {
                    fails_with(r, Code::InvalidArgument, "platform_fee_percent"@)
                } else if minimum_platform_fee_cent matches Some(m) && m
                    < self.allowed_min_minimum_platform_fee_cent {
                    fails_with(r, Code::InvalidArgument, "minimum_platform_fee_cent"@)
                } else {
                    r == Ok::<(u128, bool), Status>((id, is_active == Some(false)))
                },
            }),
    {
        if let Some(slug) = slug {
            match Self::validate_slug(slug) {
                Ok(()) => {},
                Err(e) => {
                    return Err(e);
                },
            }
        }
        let shop_id = match parse_uuid(shop_id, "shop_id") {
            Ok(id) => id,
            Err(e) => {
                return Err(e);
            },
        };
        if let Some(pfp) = platform_fee_percent {
            if pfp < self.allowed_min_platform_fee_percent || pfp >= 100 {
                return Err(Status::invalid_argument("platform_fee_percent"));
            }
        }
        if let Some(mpfc) = minimum_platform_fee_cent {
            if mpfc < self.allowed_min_minimum_platform_fee_cent {
                return Err(Status::invalid_argument("minimum_platform_fee_cent"));
            }
        }
        let deactivate = match is_active {
            Some(a) => !a,
            None => false,
        };
        Ok((shop_id, deactivate))
    }

    /// How to look up the shop that a request asks for: by the first of
    /// id, domain, slug and website that it gives.
    pub fn shop_lookup(
        shop_id: Option<String>,
        domain: Option<String>,
        slug: Option<String>,
        website_id: Option<String>,
    ) -> (r: Result<ShopLookup, Status>)
        ensures
            shop_id matches Some(s) ==> (match uuid_parse_str(s@) {
                Some(v) => r matches Ok(ShopLookup::ById(w)) && w == v,
                None => fails_with(r, Code::InvalidArgument, uuid_error_message("shop_id"@)),
            }),
            shop_id is None && domain is Some ==> (r matches Ok(ShopLookup::ByDomain(d)) && d@
                == domain->0@),
            shop_id is None && domain is None && slug is Some ==> (r matches Ok(
                ShopLookup::BySlug(s),
            ) && s@ == slug->0@),
            shop_id is None && domain is None && slug is None && website_id is Some ==> (r matches Ok(
                ShopLookup::ByWebsiteId(w),
            ) && w@ == website_id->0@),
            shop_id is None && domain is None && slug is None && website_id is None ==> fails_with(
                r,
                Code::InvalidArgument,
                "provide one of shop_id, slug or domain"@,
            ),
    {
        match (shop_id, domain, slug, website_id) {
            (Some(shop_id), _, _, _) => match parse_uuid(shop_id.as_str(), "shop_id") {
                Ok(id) => Ok(ShopLookup::ById(id)),
                Err(e) => Err(e),
            },
            (_, Some(domain), _, _) => Ok(ShopLookup::ByDomain(domain)),
            (_, _, Some(slug), _) => Ok(ShopLookup::BySlug(slug)),
            (_, _, _, Some(website_id)) => Ok(ShopLookup::ByWebsiteId(website_id)),
            (None, None, None, None) => Err(
                Status::invalid_argument("provide one of shop_id, slug or domain"),
            ),
        }
    }

    /// A shop found for a request that names an owner is answered only when
    /// it belongs to that owner; otherwise it is not found.
    pub fn check_owner(found_user_id: &String, owner: Option<String>) -> (r: Result<(), Status>)
        ensures
            owner matches Some(o) && o@ != found_user_id@ ==> fails_with(r, Code::NotFound, ""@),
            !(owner matches Some(o) && o@ != found_user_id@) ==> r is Ok,
    {
        match owner {
            Some(o) => {
                if o == *found_user_id {
                    Ok(())
                } else {
                    Err(Status::not_found(""))
                }
            },
            None => Ok(()),
        }
    }

    /// Accepts a request to list shops and gives its page, filter and order.
    pub fn check_list_shops(
        pagination: Option<PaginationRequest>,
        filter: Option<ShopsFilter>,
        order_by: Option<ShopsOrderBy>,
    ) -> (r: Result<ListShopsArgs, Status>)
        requires
            pagination_fits(pagination),
        ensures
            spec_list_shops(pagination, shops_filter_view(&filter), order_by) matches Ok(a) ==> (
            r matches Ok(b) && list_shops_args_view(b) == a),
            spec_list_shops(pagination, shops_filter_view(&filter), order_by) matches Err(m)
                ==> fails_with(r, Code::InvalidArgument, m),
    {
        let ghost fv = shops_filter_view(&filter);
        let (limit, offset, page) = match get_limit_offset_from_pagination(pagination) {
            Ok(x) => x,
            Err(e) => {
                return Err(e);
            },
        };
        if filter.is_none() && order_by.is_none() {
            return Err(Status::invalid_argument("filter,order_by"));
        }
        let filter = match filter {
            Some(f) => {
                if f.field < 1 {
                    return Err(Status::invalid_argument("filter.field"));
                } else if trim_is_empty(f.query.as_str()) {
                    return Err(Status::invalid_argument("filter.query"));
                } else {
                    match ShopsFilterField::from_i32(f.field) {
                        Some(field) => Some((field, f.query)),
                        None => {
                            return Err(Status::invalid_argument("filter.field"));
                        },
                    }
                }
            },
            None => None,
        };
        let order_by = match order_by {
            Some(o) => {
                let field = match ShopsOrderByField::from_i32(o.field) {
                    Some(f) => f,
                    None => {
                        return Err(Status::invalid_argument("order_by.field"));
                    },
                };
                let direction = match Direction::from_i32(o.direction) {
                    Some(d) => d,
                    None => {
                        return Err(Status::invalid_argument("order_by.direction"));
                    },
                };
                Some((field, direction))
            },
            None => None,
        };
        Ok(ListShopsArgs { limit, offset, pagination: page, filter, order_by })
    }

    /// The images removed with a shop: the light logo and the light banner.
    pub fn images_to_remove_on_delete(customization: &ShopCustomization) -> (r: Vec<String>)
        ensures
            r@.map_values(|s: String| s@) == image_paths(
                customization.logo_image_light_url_path,
                customization.banner_image_light_url_path,
            ),
    {
        let mut r: Vec<String> = Vec::new();
        if let Some(p) = &customization.logo_image_light_url_path {
            r.push(p.clone());
        }
        if let Some(p) = &customization.banner_image_light_url_path {
            r.push(p.clone());
        }
        assert(r@.map_values(|s: String| s@) =~= image_paths(
            customization.logo_image_light_url_path,
            customization.banner_image_light_url_path,
        ));
        r
    }
}

/// The paths among `a` and `b` that are there, in that order.
pub open spec fn image_paths(a: Option<String>, b: Option<String>) -> Seq<Seq<char>> {
    let sa = match a {
        Some(p) => seq![p@],
        None => seq![],
    };
    let sb = match b {
        Some(p) => seq![p@],
        None => seq![],
    };
    sa + sb
}

/// The platform fees of a shop are those asked for where they are allowed,
/// and the lowest allowed where none is asked: a percentage from the lowest
/// allowed up to, not including, 100; a minimum in cents from the lowest
/// allowed up. Others are refused.
pub proof fn lemma_shop_fees(allowed_min: u32, requested: u32)
    ensures
        spec_platform_fee_percent(allowed_min, None) == Some(allowed_min),
        spec_platform_fee_percent(allowed_min, Some(requested)) == (if allowed_min <= requested
            && requested < 100 {
            Some(requested)
        } else {
            None
        }),
        spec_minimum_platform_fee_cent(allowed_min, None) == Some(allowed_min),
        spec_minimum_platform_fee_cent(allowed_min, Some(requested)) == (if allowed_min
            <= requested {
            Some(requested)
        } else {
            None
        }),
{
}

/// An accepted listing of shops answers the page asked for, ten shops from
/// the first where none is asked, and keeps the filter and the order asked
/// for, their numbers read as the fields and direction with those numbers; a
/// filter names a field and a query that is not blank. A listing that names
/// neither a filter nor an order is refused, as is a page below 1.
pub proof fn lemma_list_shops_reads_request(
    pagination: Option<PaginationRequest>,
    filter: Option<(i32, Seq<char>)>,
    order_by: Option<ShopsOrderBy>,
)
    requires
        pagination_fits(pagination),
    ensures
        pagination matches Some(p) && p.page < 1 ==> spec_list_shops(pagination, filter, order_by)
            == Err::<(u32, u32, PaginationResponse, Option<(ShopsFilterField, Seq<char>)>, Option<(ShopsOrderByField, Direction)>), Seq<char>>(
            "pagination.page less than 1"@,
        ),
        !(pagination matches Some(p) && p.page < 1) && filter is None && order_by is None
            ==> spec_list_shops(pagination, filter, order_by) == Err::<(u32, u32, PaginationResponse, Option<(ShopsFilterField, Seq<char>)>, Option<(ShopsOrderByField, Direction)>), Seq<char>>(
            "filter,order_by"@,
        ),
        !(pagination matches Some(p) && p.page < 1) && (filter matches Some((n, q)) && n < 1)
            ==> spec_list_shops(pagination, filter, order_by) == Err::<(u32, u32, PaginationResponse, Option<(ShopsFilterField, Seq<char>)>, Option<(ShopsOrderByField, Direction)>), Seq<char>>(
            "filter.field"@,
        ),
        !(pagination matches Some(p) && p.page < 1) && (filter matches Some((n, q)) && n >= 1
            && spec_trim(q).len() == 0) ==> spec_list_shops(pagination, filter, order_by) == Err::<(u32, u32, PaginationResponse, Option<(ShopsFilterField, Seq<char>)>, Option<(ShopsOrderByField, Direction)>), Seq<char>>(
            "filter.query"@,
        ),
        spec_list_shops(pagination, filter, order_by) matches Ok((limit, offset, page, f, o)) ==> {
            &&& (pagination matches Some(p) ==> limit == p.size && offset == (p.page - 1) * p.size
                && page == PaginationResponse { page: p.page, size: p.size, total_elements: 0 })
            &&& (pagination is None ==> limit == 10 && offset == 0 && page == PaginationResponse {
                page: 1,
                size: 10,
                total_elements: 0,
            })
            &&& (filter is None <==> f is None)
            &&& (filter matches Some((n, q)) ==> n >= 1 && spec_trim(q).len() > 0 && (f matches Some(
                (ff, fq),
            ) && ff.spec_to_i32() == n && fq == q))
            &&& (order_by is None <==> o is None)
            &&& (order_by matches Some(ob) ==> (o matches Some((of, od)) && of.spec_to_i32()
                == ob.field && od.spec_to_i32() == ob.direction))
        },
{
    if let Some(p) = pagination {
        if p.page >= 1 {
            assert((p.page - 1) * p.size >= 0) by (nonlinear_arith)
                requires
                    p.page >= 1,
            ;
        }
    }
}

/// The paths there among two optional paths are each one that is there, the
/// first before the second, and nothing else.
pub proof fn lemma_image_paths_keeps_each_given(a: Option<String>, b: Option<String>)
    ensures
        image_paths(a, b).len() == (if a is Some { 1int } else { 0 }) + (if b is Some { 1int } else { 0 }),
        a matches Some(p) ==> image_paths(a, b)[0] == p@,
        b matches Some(q) ==> image_paths(a, b)[image_paths(a, b).len() - 1] == q@,
{
}

} // verus!
