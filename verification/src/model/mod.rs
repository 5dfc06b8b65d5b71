//! Records of the database and the statements that read them.
pub mod iden;
pub mod query;
pub mod record;
pub mod shop;
pub mod shop_customization;
pub mod offer;
pub mod offer_image;
pub mod offer_price;
pub mod shipping_rate;
pub mod shop_domain;
