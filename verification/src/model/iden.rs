//! The tables of the database and their columns, by their SQL names.
use vstd::prelude::*;

verus! {

/// Columns of the `shops` table. `Table` stands for the table itself.
#[derive(Clone, Copy, Debug, PartialEq, Eq, Structural)]
pub enum ShopIden {
    Table,
    ShopId,
    UserId,
    CreatedAt,
    UpdatedAt,
    Slug,
    Domain,
    Name,
    NameTs,
    Description,
    DescriptionTs,
    PlatformFeePercent,
    MinimumPlatformFeeCent,
    IsActive,
    ContactEmailAddress,
    ClientId,
    WebsiteId,
}

impl ShopIden {
    /// The SQL name of the table or column.
    pub open spec fn spec_name(self) -> Seq<char> {
        match self {
            ShopIden::Table => "shops"@,
            ShopIden::ShopId => "shop_id"@,
            ShopIden::UserId => "user_id"@,
            ShopIden::CreatedAt => "created_at"@,
            ShopIden::UpdatedAt => "updated_at"@,
            ShopIden::Slug => "slug"@,
            ShopIden::Domain => "domain"@,
            ShopIden::Name => "name"@,
            ShopIden::NameTs => "name_ts"@,
            ShopIden::Description => "description"@,
            ShopIden::DescriptionTs => "description_ts"@,
            ShopIden::PlatformFeePercent => "platform_fee_percent"@,
            ShopIden::MinimumPlatformFeeCent => "minimum_platform_fee_cent"@,
            ShopIden::IsActive => "is_active"@,
            ShopIden::ContactEmailAddress => "contact_email_address"@,
            ShopIden::ClientId => "client_id"@,
            ShopIden::WebsiteId => "website_id"@,
        }
    }

    /// The SQL name of the table or column.
    pub fn as_str(&self) -> (r: &'static str)
        ensures
            r@ == self.spec_name(),
    {
        match self {
            ShopIden::Table => "shops",
            ShopIden::ShopId => "shop_id",
            ShopIden::UserId => "user_id",
            ShopIden::CreatedAt => "created_at",
            ShopIden::UpdatedAt => "updated_at",
            ShopIden::Slug => "slug",
            ShopIden::Domain => "domain",
            ShopIden::Name => "name",
            ShopIden::NameTs => "name_ts",
            ShopIden::Description => "description",
            ShopIden::DescriptionTs => "description_ts",
            ShopIden::PlatformFeePercent => "platform_fee_percent",
            ShopIden::MinimumPlatformFeeCent => "minimum_platform_fee_cent",
            ShopIden::IsActive => "is_active",
            ShopIden::ContactEmailAddress => "contact_email_address",
            ShopIden::ClientId => "client_id",
            ShopIden::WebsiteId => "website_id",
        }
    }
}

/// Columns of the `offers` table. `Table` stands for the table itself.
#[derive(Clone, Copy, Debug, PartialEq, Eq, Structural)]
pub enum OfferIden {
    Table,
    OfferId,
    ShopId,
    UserId,
    CreatedAt,
    UpdatedAt,
    Name,
    NameTs,
    Description,
    DescriptionTs,
    Type,
    IsActive,
    IsFeatured,
}

impl OfferIden {
    /// The SQL name of the table or column.
    pub open spec fn spec_name(self) -> Seq<char> {
        match self {
            OfferIden::Table => "offers"@,
            OfferIden::OfferId => "offer_id"@,
            OfferIden::ShopId => "shop_id"@,
            OfferIden::UserId => "user_id"@,
            OfferIden::CreatedAt => "created_at"@,
            OfferIden::UpdatedAt => "updated_at"@,
            OfferIden::Name => "name"@,
            OfferIden::NameTs => "name_ts"@,
            OfferIden::Description => "description"@,
            OfferIden::DescriptionTs => "description_ts"@,
            OfferIden::Type => "type_"@,
            OfferIden::IsActive => "is_active"@,
            OfferIden::IsFeatured => "is_featured"@,
        }
    }

    /// The SQL name of the table or column.
    pub fn as_str(&self) -> (r: &'static str)
        ensures
            r@ == self.spec_name(),
    {
        match self {
            OfferIden::Table => "offers",
            OfferIden::OfferId => "offer_id",
            OfferIden::ShopId => "shop_id",
            OfferIden::UserId => "user_id",
            OfferIden::CreatedAt => "created_at",
            OfferIden::UpdatedAt => "updated_at",
            OfferIden::Name => "name",
            OfferIden::NameTs => "name_ts",
            OfferIden::Description => "description",
            OfferIden::DescriptionTs => "description_ts",
            OfferIden::Type => "type_",
            OfferIden::IsActive => "is_active",
            OfferIden::IsFeatured => "is_featured",
        }
    }
}

/// Columns of the `offer_images` table. `Table` stands for the table itself.
#[derive(Clone, Copy, Debug, PartialEq, Eq, Structural)]
pub enum OfferImageIden {
    Table,
    OfferImageId,
    OfferId,
    UserId,
    CreatedAt,
    UpdatedAt,
    ImageUrlPath,
    Position,
}

impl OfferImageIden {
    /// The SQL name of the table or column.
    pub open spec fn spec_name(self) -> Seq<char> {
        match self {
            OfferImageIden::Table => "offer_images"@,
            OfferImageIden::OfferImageId => "offer_image_id"@,
            OfferImageIden::OfferId => "offer_id"@,
            OfferImageIden::UserId => "user_id"@,
            OfferImageIden::CreatedAt => "created_at"@,
            OfferImageIden::UpdatedAt => "updated_at"@,
            OfferImageIden::ImageUrlPath => "image_url_path"@,
            OfferImageIden::Position => "ordering"@,
        }
    }

    /// The SQL name of the table or column.
    pub fn as_str(&self) -> (r: &'static str)
        ensures
            r@ == self.spec_name(),
    {
        match self {
            OfferImageIden::Table => "offer_images",
            OfferImageIden::OfferImageId => "offer_image_id",
            OfferImageIden::OfferId => "offer_id",
            OfferImageIden::UserId => "user_id",
            OfferImageIden::CreatedAt => "created_at",
            OfferImageIden::UpdatedAt => "updated_at",
            OfferImageIden::ImageUrlPath => "image_url_path",
            OfferImageIden::Position => "ordering",
        }
    }
}

/// Columns of the `offer_prices` table. `Table` stands for the table itself.
#[derive(Clone, Copy, Debug, PartialEq, Eq, Structural)]
pub enum OfferPriceIden {
    Table,
    OfferPriceId,
    OfferId,
    UserId,
    CreatedAt,
    UpdatedAt,
    Currency,
    PriceType,
    BillingScheme,
    UnitAmount,
    RecurringInterval,
    RecurringIntervalCount,
}

impl OfferPriceIden {
    /// The SQL name of the table or column.
    pub open spec fn spec_name(self) -> Seq<char> {
        match self {
            OfferPriceIden::Table => "offer_prices"@,
            OfferPriceIden::OfferPriceId => "offer_price_id"@,
            OfferPriceIden::OfferId => "offer_id"@,
            OfferPriceIden::UserId => "user_id"@,
            OfferPriceIden::CreatedAt => "created_at"@,
            OfferPriceIden::UpdatedAt => "updated_at"@,
            OfferPriceIden::Currency => "currency"@,
            OfferPriceIden::PriceType => "price_type"@,
            OfferPriceIden::BillingScheme => "billing_scheme"@,
            OfferPriceIden::UnitAmount => "unit_amount"@,
            OfferPriceIden::RecurringInterval => "recurring_interval"@,
            OfferPriceIden::RecurringIntervalCount => "recurring_interval_count"@,
        }
    }

    /// The SQL name of the table or column.
    pub fn as_str(&self) -> (r: &'static str)
        ensures
            r@ == self.spec_name(),
    {
        match self {
            OfferPriceIden::Table => "offer_prices",
            OfferPriceIden::OfferPriceId => "offer_price_id",
            OfferPriceIden::OfferId => "offer_id",
            OfferPriceIden::UserId => "user_id",
            OfferPriceIden::CreatedAt => "created_at",
            OfferPriceIden::UpdatedAt => "updated_at",
            OfferPriceIden::Currency => "currency",
            OfferPriceIden::PriceType => "price_type",
            OfferPriceIden::BillingScheme => "billing_scheme",
            OfferPriceIden::UnitAmount => "unit_amount",
            OfferPriceIden::RecurringInterval => "recurring_interval",
            OfferPriceIden::RecurringIntervalCount => "recurring_interval_count",
        }
    }
}

/// Columns of the `shipping_rates` table. `Table` stands for the table itself.
#[derive(Clone, Copy, Debug, PartialEq, Eq, Structural)]
pub enum ShippingRateIden {
    Table,
    ShippingRateId,
    OfferId,
    UserId,
    CreatedAt,
    UpdatedAt,
    Amount,
    Currency,
    AllCountries,
    SpecificCountries,
}

impl ShippingRateIden {
    /// The SQL name of the table or column.
    pub open spec fn spec_name(self) -> Seq<char> {
        match self {
            ShippingRateIden::Table => "shipping_rates"@,
            ShippingRateIden::ShippingRateId => "shipping_rate_id"@,
            ShippingRateIden::OfferId => "offer_id"@,
            ShippingRateIden::UserId => "user_id"@,
            ShippingRateIden::CreatedAt => "created_at"@,
            ShippingRateIden::UpdatedAt => "updated_at"@,
            ShippingRateIden::Amount => "amount"@,
            ShippingRateIden::Currency => "currency"@,
            ShippingRateIden::AllCountries => "all_countries"@,
            ShippingRateIden::SpecificCountries => "specific_countries"@,
        }
    }

    /// The SQL name of the table or column.
    pub fn as_str(&self) -> (r: &'static str)
        ensures
            r@ == self.spec_name(),
    {
        match self {
            ShippingRateIden::Table => "shipping_rates",
            ShippingRateIden::ShippingRateId => "shipping_rate_id",
            ShippingRateIden::OfferId => "offer_id",
            ShippingRateIden::UserId => "user_id",
            ShippingRateIden::CreatedAt => "created_at",
            ShippingRateIden::UpdatedAt => "updated_at",
            ShippingRateIden::Amount => "amount",
            ShippingRateIden::Currency => "currency",
            ShippingRateIden::AllCountries => "all_countries",
            ShippingRateIden::SpecificCountries => "specific_countries",
        }
    }
}

/// Columns of the `shop_customizations` table. `Table` stands for the table itself.
#[derive(Clone, Copy, Debug, PartialEq, Eq, Structural)]
pub enum ShopCustomizationIden {
    Table,
    ShopId,
    UserId,
    CreatedAt,
    UpdatedAt,
    LogoImageLightUrlPath,
    LogoImageDarkUrlPath,
    BannerImageLightUrlPath,
    BannerImageDarkUrlPath,
    PrimaryColor,
    LayoutType,
}

impl ShopCustomizationIden {
    /// The SQL name of the table or column.
    pub open spec fn spec_name(self) -> Seq<char> {
        match self {
            ShopCustomizationIden::Table => "shop_customizations"@,
            ShopCustomizationIden::ShopId => "shop_id"@,
            ShopCustomizationIden::UserId => "user_id"@,
            ShopCustomizationIden::CreatedAt => "created_at"@,
            ShopCustomizationIden::UpdatedAt => "updated_at"@,
            ShopCustomizationIden::LogoImageLightUrlPath => "logo_image_light_url_path"@,
            ShopCustomizationIden::LogoImageDarkUrlPath => "logo_image_dark_url_path"@,
            ShopCustomizationIden::BannerImageLightUrlPath => "banner_image_light_url_path"@,
            ShopCustomizationIden::BannerImageDarkUrlPath => "banner_image_dark_url_path"@,
            ShopCustomizationIden::PrimaryColor => "primary_color"@,
            ShopCustomizationIden::LayoutType => "layout_type"@,
        }
    }

    /// The SQL name of the table or column.
    pub fn as_str(&self) -> (r: &'static str)
        ensures
            r@ == self.spec_name(),
    {
        match self {
            ShopCustomizationIden::Table => "shop_customizations",
            ShopCustomizationIden::ShopId => "shop_id",
            ShopCustomizationIden::UserId => "user_id",
            ShopCustomizationIden::CreatedAt => "created_at",
            ShopCustomizationIden::UpdatedAt => "updated_at",
            ShopCustomizationIden::LogoImageLightUrlPath => "logo_image_light_url_path",
            ShopCustomizationIden::LogoImageDarkUrlPath => "logo_image_dark_url_path",
            ShopCustomizationIden::BannerImageLightUrlPath => "banner_image_light_url_path",
            ShopCustomizationIden::BannerImageDarkUrlPath => "banner_image_dark_url_path",
            ShopCustomizationIden::PrimaryColor => "primary_color",
            ShopCustomizationIden::LayoutType => "layout_type",
        }
    }
}

/// Columns of the `shop_domains` table. `Table` stands for the table itself.
#[derive(Clone, Copy, Debug, PartialEq, Eq, Structural)]
pub enum ShopDomainIden {
    Table,
    ShopId,
    UserId,
    CreatedAt,
    UpdatedAt,
    Domain,
    Status,
    ClientId,
}

impl ShopDomainIden {
    /// The SQL name of the table or column.
    pub open spec fn spec_name(self) -> Seq<char> {
        match self {
            ShopDomainIden::Table => "shop_domains"@,
            ShopDomainIden::ShopId => "shop_id"@,
            ShopDomainIden::UserId => "user_id"@,
            ShopDomainIden::CreatedAt => "created_at"@,
            ShopDomainIden::UpdatedAt => "updated_at"@,
            ShopDomainIden::Domain => "domain"@,
            ShopDomainIden::Status => "status"@,
            ShopDomainIden::ClientId => "client_id"@,
        }
    }

    /// The SQL name of the table or column.
    pub fn as_str(&self) -> (r: &'static str)
        ensures
            r@ == self.spec_name(),
    {
        match self {
            ShopDomainIden::Table => "shop_domains",
            ShopDomainIden::ShopId => "shop_id",
            ShopDomainIden::UserId => "user_id",
            ShopDomainIden::CreatedAt => "created_at",
            ShopDomainIden::UpdatedAt => "updated_at",
            ShopDomainIden::Domain => "domain",
            ShopDomainIden::Status => "status",
            ShopDomainIden::ClientId => "client_id",
        }
    }
}

/// Columns of the `market_booths` table. `Table` stands for the table itself.
#[derive(Clone, Copy, Debug, PartialEq, Eq, Structural)]
pub enum MarketBoothIden {
    Table,
    MarketBoothId,
    UserId,
    CreatedAt,
    UpdatedAt,
    Name,
    NameTs,
    Slug,
    Description,
    DescriptionTs,
    ImageUrlPath,
    PlatformFeePercent,
    MinimumPlatformFeeCent,
    Domain,
}

impl MarketBoothIden {
    /// The SQL name of the table or column.
    pub open spec fn spec_name(self) -> Seq<char> {
        match self {
            MarketBoothIden::Table => "market_booths"@,
            MarketBoothIden::MarketBoothId => "market_booth_id"@,
            MarketBoothIden::UserId => "user_id"@,
            MarketBoothIden::CreatedAt => "created_at"@,
            MarketBoothIden::UpdatedAt => "updated_at"@,
            MarketBoothIden::Name => "name"@,
            MarketBoothIden::NameTs => "name_ts"@,
            MarketBoothIden::Slug => "slug"@,
            MarketBoothIden::Description => "description"@,
            MarketBoothIden::DescriptionTs => "description_ts"@,
            MarketBoothIden::ImageUrlPath => "image_url_path"@,
            MarketBoothIden::PlatformFeePercent => "platform_fee_percent"@,
            MarketBoothIden::MinimumPlatformFeeCent => "minimum_platform_fee_cent"@,
            MarketBoothIden::Domain => "domain"@,
        }
    }

    /// The SQL name of the table or column.
    pub fn as_str(&self) -> (r: &'static str)
        ensures
            r@ == self.spec_name(),
    {
        match self {
            MarketBoothIden::Table => "market_booths",
            MarketBoothIden::MarketBoothId => "market_booth_id",
            MarketBoothIden::UserId => "user_id",
            MarketBoothIden::CreatedAt => "created_at",
            MarketBoothIden::UpdatedAt => "updated_at",
            MarketBoothIden::Name => "name",
            MarketBoothIden::NameTs => "name_ts",
            MarketBoothIden::Slug => "slug",
            MarketBoothIden::Description => "description",
            MarketBoothIden::DescriptionTs => "description_ts",
            MarketBoothIden::ImageUrlPath => "image_url_path",
            MarketBoothIden::PlatformFeePercent => "platform_fee_percent",
            MarketBoothIden::MinimumPlatformFeeCent => "minimum_platform_fee_cent",
            MarketBoothIden::Domain => "domain",
        }
    }
}

} // verus!
