//! The decisions of the shop customization service: where uploaded logos and
//! banners are stored, and which stored images are removed.
use vstd::prelude::*;

use crate::ids::{is_v4, new_v4, uuid_hyphenated, uuid_to_string};
use crate::images::{spec_is_jpeg, spec_is_jpeg2000, spec_is_png, ImageService};
use crate::model::shop_customization::ShopCustomization;
use crate::status::{fails_with, Code, Status};

verus! {

/// What putting one image of a shop does: the stored image it replaces, and
/// the path under which the new one is stored.
#[derive(Debug)]
pub struct ImagePut {
    pub remove: Option<String>,
    pub path: Option<String>,
}

/// Where shop images are served from.
pub struct ShopCustomizationService {
    pub image_service: ImageService,
}

/// Whether `path` is a path under which an image of the shop `shop_id` of
/// `user_id` is stored: `user/shop/` and a random (version 4) UUID.
pub open spec fn is_shop_image_path(path: Seq<char>, user_id: Seq<char>, shop_id: u128) -> bool {
    exists|v: u128|
        is_v4(v) && path == user_id + "/"@ + uuid_hyphenated(shop_id) + "/"@ + uuid_hyphenated(v)
}

/// Whether `data` is an image that the image service accepts.
pub open spec fn accepts_image(s: &ImageService, data: Seq<u8>) -> bool {
    data.len() < s.max_size && (spec_is_jpeg(data) || spec_is_jpeg2000(data) || spec_is_png(data))
}

/// The paths among `a` and `b` that are there, in that order.
pub open spec fn present_paths(a: Option<String>, b: Option<String>) -> Seq<Seq<char>> {
    let sa = match a {
        Some(p) => seq![p@],
        None => seq![],
    };
    let sb = match b {
        Some(p) => seq![p@],
        None => seq![],
    };
    sa + sb
}

/// The paths among `a` and `b` that are there.
pub fn present_paths_of(a: &Option<String>, b: &Option<String>) -> (r: Vec<String>)
    ensures
        r@.map_values(|s: String| s@) == present_paths(*a, *b),
{
    let mut r: Vec<String> = Vec::new();
    if let Some(p) = a {
        r.push(p.clone());
    }
    if let Some(p) = b {
        r.push(p.clone());
    }
    assert(r@.map_values(|s: String| s@) =~= present_paths(*a, *b));
    r
}

impl ShopCustomizationService {
    /// A shop customization service serving images with `image_service`.
    pub fn new(image_service: ImageService) -> (r: ShopCustomizationService)
        ensures
            r.image_service == image_service,
    {
        ShopCustomizationService { image_service }
    }

    /// A new path for an image of the shop `shop_id` of `user_id`: under the
    /// user and the shop, named by a random (version 4) UUID.
    pub fn gen_image_path(user_id: &String, shop_id: u128) -> (r: String)
        ensures
            is_shop_image_path(r@, user_id@, shop_id),
    {
        let name = new_v4();
        let mut path = user_id.clone();
        path.append("/");
        path.append(uuid_to_string(shop_id).as_str());
        path.append("/");
        path.append(uuid_to_string(name).as_str());
        assert(is_v4(name) && path@ == user_id@ + "/"@ + uuid_hyphenated(shop_id) + "/"@
            + uuid_hyphenated(name));
        path
    }

    /// What putting one image (light or dark, logo or banner) does: nothing
    /// where no image is sent; else the image must be accepted, the stored
    /// one it replaces is removed, and it is stored under a new path.
    pub fn plan_image_put(
        &self,
        user_id: &String,
        shop_id: u128,
        existing: &Option<String>,
        image: Option<&[u8]>,
    ) -> (r: Result<ImagePut, Status>)
        ensures
            image is None ==> (r matches Ok(p) && p.remove is None && p.path is None),
            image matches Some(d) ==> (accepts_image(&self.image_service, d@) ==> (r matches Ok(p)
                && p.remove == *existing && (p.path matches Some(np) && is_shop_image_path(
                np@,
                user_id@,
                shop_id,
            )))),
            image matches Some(d) ==> (d@.len() >= self.image_service.max_size ==> fails_with(
                r,
                Code::ResourceExhausted,
                "image"@,
            )),
            image matches Some(d) ==> ((d@.len() < self.image_service.max_size
                && !accepts_image(&self.image_service, d@)) ==> fails_with(
                r,
                Code::InvalidArgument,
                "image"@,
            )),
    {
        match image {
            None => Ok(ImagePut { remove: None, path: None }),
            Some(data) => {
                match self.image_service.validate_image(data) {
                    Ok(()) => {},
                    Err(e) => {
                        return Err(e);
                    },
                }
                let remove = existing.clone();
                let path = Self::gen_image_path(user_id, shop_id);
                Ok(ImagePut { remove, path: Some(path) })
            },
        }
    }

    /// The stored images that removing a logo (or a banner) removes: its light
    /// and its dark image, where they are there.
    pub fn images_to_remove(light: &Option<String>, dark: &Option<String>) -> (r: Vec<String>)
        ensures
            r@.map_values(|s: String| s@) == present_paths(*light, *dark),
    {
        present_paths_of(light, dark)
    }

    /// The stored images that deleting a customization removes: its light
    /// logo and its light banner.
    pub fn images_removed_on_delete(customization: &ShopCustomization) -> (r: Vec<String>)
        ensures
            r@.map_values(|s: String| s@) == present_paths(
                customization.logo_image_light_url_path,
                customization.banner_image_light_url_path,
            ),
    {
        present_paths_of(
            &customization.logo_image_light_url_path,
            &customization.banner_image_light_url_path,
        )
    }
}

/// The paths there among two optional paths are each one that is there, the
/// first before the second, and nothing else.
pub proof fn lemma_present_paths_keeps_each_given(a: Option<String>, b: Option<String>)
    ensures
        present_paths(a, b).len() == (if a is Some { 1int } else { 0 }) + (if b is Some { 1int } else { 0 }),
        a matches Some(p) ==> present_paths(a, b)[0] == p@,
        b matches Some(q) ==> present_paths(a, b)[present_paths(a, b).len() - 1] == q@,
{
}

} // verus!
