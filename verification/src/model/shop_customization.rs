//! The look of a shop: its logo and banner images, colour and layout.
use vstd::prelude::*;

use super::iden::ShopCustomizationIden;
use super::record::{
    is_of_kind, lemma_read_fields_kinds, read_record, records_from_array, spec_read_record,
    spec_read_record_array, AsRecord, Field, FieldKind, FieldView,
};
use super::query::{
    opt_view, owned_by, restricts, spec_select_all, spec_write, writes, writes_column, Column,
    Condition, ConditionView, SelectPlan, Value, ValueView, WriteKind, WritePlan, WritePlanView,
};

verus! {

/// The customization of a shop as it is stored, its times in seconds since
/// the Unix epoch.
#[derive(Debug)]
pub struct ShopCustomization {
    pub shop_id: u128,
    pub user_id: String,
    pub created_at: i64,
    pub updated_at: i64,
    pub logo_image_light_url_path: Option<String>,
    pub logo_image_dark_url_path: Option<String>,
    pub banner_image_light_url_path: Option<String>,
    pub banner_image_dark_url_path: Option<String>,
    pub primary_color: Option<String>,
    pub layout_type: String,
}

/// A column of the `shop_customizations` table.
pub open spec fn col(c: ShopCustomizationIden) -> Column {
    Column::ShopCustomization(c)
}

/// The columns that a put writes, and updates where the shop has a
/// customization already.
pub open spec fn put_columns() -> Seq<Column> {
    seq![
        col(ShopCustomizationIden::ShopId),
        col(ShopCustomizationIden::UserId),
        col(ShopCustomizationIden::PrimaryColor),
        col(ShopCustomizationIden::LayoutType),
    ]
}

/// The value that an update of an image path writes: none where the path is
/// left as it is, else the new path or `NULL`.
pub open spec fn path_update_value(o: Option<Option<String>>) -> Option<ValueView> {
    match o {
        Some(p) => Some(ValueView::OptText(opt_view(p))),
        None => None,
    }
}

/// The statement that writes the image paths given to the customization of
/// the shop `shop_id` of `user_id`, and only to a customization of that
/// user, and answers the row.
pub open spec fn spec_image_paths_update(
    user_id: Seq<char>,
    shop_id: u128,
    light_column: ShopCustomizationIden,
    light: Option<Option<String>>,
    dark_column: ShopCustomizationIden,
    dark: Option<Option<String>>,
) -> WritePlanView {
    spec_write(WriteKind::Update, col(ShopCustomizationIden::Table), true).set_opt(
        col(light_column),
        path_update_value(light),
    ).set_opt(col(dark_column), path_update_value(dark)).with_condition(
        owned_by(col(ShopCustomizationIden::UserId), user_id),
    ).with_condition(ConditionView::Eq(col(ShopCustomizationIden::ShopId), ValueView::Uuid(shop_id)))
}

/// The columns that a put writes.
fn put_column_list() -> (r: Vec<Column>)
    ensures
        r@ == put_columns(),
{
    let r = vec![
        Column::ShopCustomization(ShopCustomizationIden::ShopId),
        Column::ShopCustomization(ShopCustomizationIden::UserId),
        Column::ShopCustomization(ShopCustomizationIden::PrimaryColor),
        Column::ShopCustomization(ShopCustomizationIden::LayoutType),
    ];
    assert(r@ =~= put_columns());
    r
}

/// Adds to `q` the write of an image path where one is given.
fn set_path(q: &mut WritePlan, c: ShopCustomizationIden, path: Option<Option<String>>)
    ensures
        final(q)@ == old(q)@.set_opt(col(c), path_update_value(path)),
{
    match path {
        Some(p) => q.set(Column::ShopCustomization(c), Value::OptText(p)),
        None => {},
    }
}

impl ShopCustomization {
    /// The statement that gives the shop `shop_id` of `user_id` a
    /// customization, where it has none yet.
    pub fn create_query(shop_id: u128, user_id: &String) -> (r: WritePlan)
        ensures
            r@ == spec_write(WriteKind::Insert, col(ShopCustomizationIden::Table), false).set(
                col(ShopCustomizationIden::ShopId),
                ValueView::Uuid(shop_id),
            ).set(col(ShopCustomizationIden::UserId), ValueView::Text(user_id@)).with_on_conflict(
                seq![col(ShopCustomizationIden::ShopId)],
                seq![],
            ),
    {
        let mut q = WritePlan::new(
            WriteKind::Insert,
            Column::ShopCustomization(ShopCustomizationIden::Table),
            false,
        );
        q.set(Column::ShopCustomization(ShopCustomizationIden::ShopId), Value::Uuid(shop_id));
        q.set(
            Column::ShopCustomization(ShopCustomizationIden::UserId),
            Value::Text(user_id.clone()),
        );
        let conflict = vec![Column::ShopCustomization(ShopCustomizationIden::ShopId)];
        assert(conflict@ =~= seq![col(ShopCustomizationIden::ShopId)]);
        q.set_on_conflict(conflict, Vec::new());
        q
    }

    /// The statement that stores the colour and layout of the shop
    /// `shop_id` of `user_id`, over what it had, and answers the row.
    pub fn put_query(
        shop_id: u128,
        user_id: &String,
        primary_color: Option<String>,
        layout_type: String,
    ) -> (r: WritePlan)
        ensures
            r@ == spec_write(WriteKind::Insert, col(ShopCustomizationIden::Table), true).set(
                col(ShopCustomizationIden::ShopId),
                ValueView::Uuid(shop_id),
            ).set(col(ShopCustomizationIden::UserId), ValueView::Text(user_id@)).set(
                col(ShopCustomizationIden::PrimaryColor),
                ValueView::OptText(opt_view(primary_color)),
            ).set(col(ShopCustomizationIden::LayoutType), ValueView::Text(layout_type@)).with_on_conflict(
                seq![col(ShopCustomizationIden::ShopId)],
                put_columns(),
            ),
    {
        let mut q = WritePlan::new(
            WriteKind::Insert,
            Column::ShopCustomization(ShopCustomizationIden::Table),
            true,
        );
        q.set(Column::ShopCustomization(ShopCustomizationIden::ShopId), Value::Uuid(shop_id));
        q.set(
            Column::ShopCustomization(ShopCustomizationIden::UserId),
            Value::Text(user_id.clone()),
        );
        q.set(
            Column::ShopCustomization(ShopCustomizationIden::PrimaryColor),
            Value::OptText(primary_color),
        );
        q.set(
            Column::ShopCustomization(ShopCustomizationIden::LayoutType),
            Value::Text(layout_type),
        );
        let conflict = vec![Column::ShopCustomization(ShopCustomizationIden::ShopId)];
        assert(conflict@ =~= seq![col(ShopCustomizationIden::ShopId)]);
        q.set_on_conflict(conflict, put_column_list());
        q
    }

    /// The statement that looks up the customization of the shop `shop_id`.
    pub fn get_query(shop_id: u128) -> (r: SelectPlan)
        ensures
            r@ == spec_select_all(col(ShopCustomizationIden::Table), false).with_condition(
                ConditionView::Eq(col(ShopCustomizationIden::ShopId), ValueView::Uuid(shop_id)),
            ),
    {
        let mut q = SelectPlan::select_all(
            Column::ShopCustomization(ShopCustomizationIden::Table),
            false,
        );
        q.add_condition(
            Condition::Eq(
                Column::ShopCustomization(ShopCustomizationIden::ShopId),
                Value::Uuid(shop_id),
            ),
        );
        q
    }

    /// The statement that writes the logo paths given (`Some(None)` clears
    /// one) to the customization of the shop `shop_id` of `user_id`.
    pub fn update_logo_image_url_paths_query(
        shop_id: u128,
        user_id: &String,
        logo_image_light_url_path: Option<Option<String>>,
        logo_image_dark_url_path: Option<Option<String>>,
    ) -> (r: WritePlan)
        ensures
            r@ == spec_image_paths_update(
                user_id@,
                shop_id,
                ShopCustomizationIden::LogoImageLightUrlPath,
                logo_image_light_url_path,
                ShopCustomizationIden::LogoImageDarkUrlPath,
                logo_image_dark_url_path,
            ),
            r@.conditions.contains(owned_by(col(ShopCustomizationIden::UserId), user_id@)),
    {
        Self::image_paths_query(
            shop_id,
            user_id,
            ShopCustomizationIden::LogoImageLightUrlPath,
            logo_image_light_url_path,
            ShopCustomizationIden::LogoImageDarkUrlPath,
            logo_image_dark_url_path,
        )
    }

    /// The statement that writes the banner paths given (`Some(None)` clears
    /// one) to the customization of the shop `shop_id` of `user_id`.
    pub fn update_banner_image_url_paths_query(
        shop_id: u128,
        user_id: &String,
        banner_image_light_url_path: Option<Option<String>>,
        banner_image_dark_url_path: Option<Option<String>>,
    ) -> (r: WritePlan)
        ensures
            r@ == spec_image_paths_update(
                user_id@,
                shop_id,
                ShopCustomizationIden::BannerImageLightUrlPath,
                banner_image_light_url_path,
                ShopCustomizationIden::BannerImageDarkUrlPath,
                banner_image_dark_url_path,
            ),
            r@.conditions.contains(owned_by(col(ShopCustomizationIden::UserId), user_id@)),
    {
        Self::image_paths_query(
            shop_id,
            user_id,
            ShopCustomizationIden::BannerImageLightUrlPath,
            banner_image_light_url_path,
            ShopCustomizationIden::BannerImageDarkUrlPath,
            banner_image_dark_url_path,
        )
    }

    fn image_paths_query(
        shop_id: u128,
        user_id: &String,
        light_column: ShopCustomizationIden,
        light: Option<Option<String>>,
        dark_column: ShopCustomizationIden,
        dark: Option<Option<String>>,
    ) -> (r: WritePlan)
        ensures
            r@ == spec_image_paths_update(user_id@, shop_id, light_column, light, dark_column, dark),
            r@.conditions.contains(owned_by(col(ShopCustomizationIden::UserId), user_id@)),
    {
        let mut q = WritePlan::new(
            WriteKind::Update,
            Column::ShopCustomization(ShopCustomizationIden::Table),
            true,
        );
        set_path(&mut q, light_column, light);
        set_path(&mut q, dark_column, dark);
        let ghost before = q@;
        q.add_condition(
            Condition::Eq(
                Column::ShopCustomization(ShopCustomizationIden::UserId),
                Value::Text(user_id.clone()),
            ),
        );
        q.add_condition(
            Condition::Eq(
                Column::ShopCustomization(ShopCustomizationIden::ShopId),
                Value::Uuid(shop_id),
            ),
        );
        assert(before.conditions.len() == 0);
        assert(q@.conditions[0] == owned_by(col(ShopCustomizationIden::UserId), user_id@));
        q
    }

    /// The statement that deletes the customization of the shop `shop_id` of
    /// `user_id`, and only one of that user.
    pub fn delete_query(shop_id: u128, user_id: &String) -> (r: WritePlan)
        ensures
            r@ == spec_write(WriteKind::Delete, col(ShopCustomizationIden::Table), false).with_condition(
                owned_by(col(ShopCustomizationIden::UserId), user_id@),
            ).with_condition(ConditionView::Eq(col(ShopCustomizationIden::ShopId), ValueView::Uuid(shop_id))),
            r@.conditions.contains(owned_by(col(ShopCustomizationIden::UserId), user_id@)),
    {
        let mut q = WritePlan::new(
            WriteKind::Delete,
            Column::ShopCustomization(ShopCustomizationIden::Table),
            false,
        );
        q.add_condition(
            Condition::Eq(
                Column::ShopCustomization(ShopCustomizationIden::UserId),
                Value::Text(user_id.clone()),
            ),
        );
        q.add_condition(
            Condition::Eq(
                Column::ShopCustomization(ShopCustomizationIden::ShopId),
                Value::Uuid(shop_id),
            ),
        );
        assert(q@.conditions[0] == owned_by(col(ShopCustomizationIden::UserId), user_id@));
        q
    }
}

/// The customization of a shop as it comes with the shop.
#[derive(Debug)]
pub struct ShopCustomizationAsRel {
    pub logo_image_light_url_path: Option<String>,
    pub logo_image_dark_url_path: Option<String>,
    pub banner_image_light_url_path: Option<String>,
    pub banner_image_dark_url_path: Option<String>,
    pub primary_color: Option<String>,
    pub layout_type: String,
}

/// The customizations that come with a shop; the first one is the shop's.
#[derive(Debug)]
pub struct ShopCustomizationAsRelVec(pub Vec<ShopCustomizationAsRel>);

/// The kinds of the fields of a customization's record: its four image
/// paths and its colour, which may be `NULL`, and its layout.
pub open spec fn customization_kinds() -> Seq<FieldKind> {
    seq![
        FieldKind::OptText,
        FieldKind::OptText,
        FieldKind::OptText,
        FieldKind::OptText,
        FieldKind::OptText,
        FieldKind::Text,
    ]
}

impl AsRecord for ShopCustomizationAsRel {
    open spec fn record_fields(&self) -> Seq<FieldView> {
        seq![
            FieldView::OptText(opt_view(self.logo_image_light_url_path)),
            FieldView::OptText(opt_view(self.logo_image_dark_url_path)),
            FieldView::OptText(opt_view(self.banner_image_light_url_path)),
            FieldView::OptText(opt_view(self.banner_image_dark_url_path)),
            FieldView::OptText(opt_view(self.primary_color)),
            FieldView::Text(self.layout_type@),
        ]
    }

    open spec fn spec_record(raw: Seq<u8>) -> Option<Seq<FieldView>> {
        spec_read_record(raw, customization_kinds())
    }

    fn from_record(raw: &[u8]) -> (r: Option<ShopCustomizationAsRel>) {
        let kinds = vec![
            FieldKind::OptText,
            FieldKind::OptText,
            FieldKind::OptText,
            FieldKind::OptText,
            FieldKind::OptText,
            FieldKind::Text,
        ];
        assert(kinds@ =~= customization_kinds());
        let mut fields = match read_record(raw, kinds.as_slice()) {
            Some(fs) => fs,
            None => {
                return None;
            },
        };
        let ghost vs = fields@.map_values(|f: Field| f@);
        proof {
            lemma_read_fields_kinds(raw@, 4, customization_kinds());
            assert(is_of_kind(vs[0], customization_kinds()[0]));
            assert(is_of_kind(vs[1], customization_kinds()[1]));
            assert(is_of_kind(vs[2], customization_kinds()[2]));
            assert(is_of_kind(vs[3], customization_kinds()[3]));
            assert(is_of_kind(vs[4], customization_kinds()[4]));
            assert(is_of_kind(vs[5], customization_kinds()[5]));
        }
        let layout = fields.pop();
        let color = fields.pop();
        let banner_dark = fields.pop();
        let banner_light = fields.pop();
        let logo_dark = fields.pop();
        let logo_light = fields.pop();
        match (logo_light, logo_dark, banner_light, banner_dark, color, layout) {
            (
                Some(Field::OptText(logo_image_light_url_path)),
                Some(Field::OptText(logo_image_dark_url_path)),
                Some(Field::OptText(banner_image_light_url_path)),
                Some(Field::OptText(banner_image_dark_url_path)),
                Some(Field::OptText(primary_color)),
                Some(Field::Text(layout_type)),
            ) => {
                let r = ShopCustomizationAsRel {
                    logo_image_light_url_path,
                    logo_image_dark_url_path,
                    banner_image_light_url_path,
                    banner_image_dark_url_path,
                    primary_color,
                    layout_type,
                };
                assert(r.record_fields() =~= vs);
                Some(r)
            },
            _ => None,
        }
    }
}

impl ShopCustomizationAsRelVec {
    /// The customizations that the array `raw` of customization records
    /// gives, in order; an element that is `NULL` or not a customization's
    /// record is left out, and an array of more than one dimension, or none,
    /// gives nothing.
    pub fn from_array(raw: &[u8]) -> (r: Option<ShopCustomizationAsRelVec>)
        ensures
            match r {
                Some(v) => spec_read_record_array(
                    raw@,
                    |b: Seq<u8>| ShopCustomizationAsRel::spec_record(b),
                ) == Some(v.0@.map_values(|x: ShopCustomizationAsRel| x.record_fields())),
                None => spec_read_record_array(
                    raw@,
                    |b: Seq<u8>| ShopCustomizationAsRel::spec_record(b),
                ) is None,
            },
    {
        match records_from_array::<ShopCustomizationAsRel>(raw) {
            Some(v) => Some(ShopCustomizationAsRelVec(v)),
            None => None,
        }
    }
}

/// A put of a customization, where the shop has one already, updates every
/// field it writes: the shop, the owner, the primary color and the layout.
pub proof fn lemma_customization_put_updates_its_fields()
    ensures
        put_columns().contains(col(ShopCustomizationIden::ShopId)),
        put_columns().contains(col(ShopCustomizationIden::UserId)),
        put_columns().contains(col(ShopCustomizationIden::PrimaryColor)),
        put_columns().contains(col(ShopCustomizationIden::LayoutType)),
        put_columns().len() == 4,
{
    assert(put_columns()[0] == col(ShopCustomizationIden::ShopId));
    assert(put_columns()[1] == col(ShopCustomizationIden::UserId));
    assert(put_columns()[2] == col(ShopCustomizationIden::PrimaryColor));
    assert(put_columns()[3] == col(ShopCustomizationIden::LayoutType));
}

/// An update of the image paths of a customization writes each path it is
/// given (a new path, or `NULL` to remove it) to that path's own column, and
/// nothing to the column of a path it is not given; it updates only the
/// customization of the shop `shop_id` of `user_id`.
pub proof fn lemma_image_paths_update_writes_given_paths(
    user_id: Seq<char>,
    shop_id: u128,
    light_column: ShopCustomizationIden,
    light: Option<Option<String>>,
    dark_column: ShopCustomizationIden,
    dark: Option<Option<String>>,
)
    requires
        light_column != dark_column,
    ensures
        ({
            let p = spec_image_paths_update(user_id, shop_id, light_column, light, dark_column, dark);
            &&& p.kind == WriteKind::Update
            &&& p.table == col(ShopCustomizationIden::Table)
            &&& restricts(p, ConditionView::Eq(col(ShopCustomizationIden::UserId), ValueView::Text(user_id)))
            &&& restricts(p, ConditionView::Eq(col(ShopCustomizationIden::ShopId), ValueView::Uuid(shop_id)))
            &&& (light matches Some(l) ==> writes(p, col(light_column), ValueView::OptText(opt_view(l))))
            &&& (light is None ==> !writes_column(p, col(light_column)))
            &&& (dark matches Some(d) ==> writes(p, col(dark_column), ValueView::OptText(opt_view(d))))
            &&& (dark is None ==> !writes_column(p, col(dark_column)))
            &&& p.values.len() == (if light is Some { 1int } else { 0 }) + (if dark is Some { 1int } else { 0 })
        }),
{
    broadcast use vstd::seq_lib::lemma_seq_contains_after_push, vstd::seq_lib::lemma_seq_empty_contains_nothing;

}

} // verus!
