//! Images of offers: their records and the statements that write and read
//! them.
use vstd::prelude::*;

use super::iden::OfferImageIden;
use super::query::{
    owned_by, spec_select_all, spec_write, writes, Column, Condition, ConditionView, SelectPlan,
    Value, ValueView, WriteKind, WritePlan, WritePlanView,
};

verus! {

/// An image of an offer as it is stored, its times in seconds since the Unix
/// epoch.
#[derive(Debug)]
pub struct OfferImage {
    pub offer_image_id: u128,
    pub offer_id: u128,
    pub user_id: String,
    pub created_at: i64,
    pub updated_at: i64,
    pub image_url_path: String,
    pub ordering: i64,
}

/// A column of the `offer_images` table.
pub open spec fn col(c: OfferImageIden) -> Column {
    Column::OfferImage(c)
}

/// The statement that stores the image `offer_image_id` of the offer
/// `offer_id` of `user_id`, at `image_url_path`, in the place `ordering`.
pub open spec fn spec_offer_image_create(
    offer_image_id: u128,
    offer_id: u128,
    user_id: Seq<char>,
    image_url_path: Seq<char>,
    ordering: i64,
) -> WritePlanView {
    spec_write(WriteKind::Insert, col(OfferImageIden::Table), true).set(
        col(OfferImageIden::OfferImageId),
        ValueView::Uuid(offer_image_id),
    ).set(col(OfferImageIden::OfferId), ValueView::Uuid(offer_id)).set(
        col(OfferImageIden::UserId),
        ValueView::Text(user_id),
    ).set(col(OfferImageIden::ImageUrlPath), ValueView::Text(image_url_path)).set(
        col(OfferImageIden::Position),
        ValueView::Int(ordering),
    )
}

impl OfferImage {
    /// The statement that stores an image of the offer `offer_id` of
    /// `user_id`.
    pub fn create_query(
        offer_image_id: u128,
        offer_id: u128,
        user_id: &String,
        image_url_path: &String,
        ordering: i64,
    ) -> (r: WritePlan)
        ensures
            r@ == spec_offer_image_create(
                offer_image_id,
                offer_id,
                user_id@,
                image_url_path@,
                ordering,
            ),
    {
        let mut q = WritePlan::new(WriteKind::Insert, Column::OfferImage(OfferImageIden::Table), true);
        q.set(Column::OfferImage(OfferImageIden::OfferImageId), Value::Uuid(offer_image_id));
        q.set(Column::OfferImage(OfferImageIden::OfferId), Value::Uuid(offer_id));
        q.set(Column::OfferImage(OfferImageIden::UserId), Value::Text(user_id.clone()));
        q.set(Column::OfferImage(OfferImageIden::ImageUrlPath), Value::Text(image_url_path.clone()));
        q.set(Column::OfferImage(OfferImageIden::Position), Value::Int(ordering));
        q
    }

    /// The statement that looks up the image `offer_image_id`, of `user_id`
    /// where it is given.
    pub fn get_query(offer_image_id: u128, user_id: Option<&String>) -> (r: SelectPlan)
        ensures
            user_id is None ==> r@ == spec_select_all(col(OfferImageIden::Table), false).with_condition(
                ConditionView::Eq(col(OfferImageIden::OfferImageId), ValueView::Uuid(offer_image_id)),
            ),
            user_id matches Some(u) ==> r@ == spec_select_all(col(OfferImageIden::Table), false).with_condition(
                ConditionView::Eq(col(OfferImageIden::OfferImageId), ValueView::Uuid(offer_image_id)),
            ).with_condition(owned_by(col(OfferImageIden::UserId), u@)),
    {
        let mut q = SelectPlan::select_all(Column::OfferImage(OfferImageIden::Table), false);
        q.add_condition(
            Condition::Eq(Column::OfferImage(OfferImageIden::OfferImageId), Value::Uuid(offer_image_id)),
        );
        if let Some(u) = user_id {
            q.add_condition(Condition::Eq(Column::OfferImage(OfferImageIden::UserId), Value::Text(u.clone())));
        }
        q
    }

    /// The statement that deletes the image `offer_image_id` of `user_id`,
    /// and only an image of that user.
    pub fn delete_query(user_id: &String, offer_image_id: u128) -> (r: WritePlan)
        ensures
            r@ == spec_write(WriteKind::Delete, col(OfferImageIden::Table), false).with_condition(
                owned_by(col(OfferImageIden::UserId), user_id@),
            ).with_condition(
                ConditionView::Eq(col(OfferImageIden::OfferImageId), ValueView::Uuid(offer_image_id)),
            ),
            r@.conditions.contains(owned_by(col(OfferImageIden::UserId), user_id@)),
    {
        let mut q = WritePlan::new(WriteKind::Delete, Column::OfferImage(OfferImageIden::Table), false);
        q.add_condition(Condition::Eq(Column::OfferImage(OfferImageIden::UserId), Value::Text(user_id.clone())));
        q.add_condition(
            Condition::Eq(Column::OfferImage(OfferImageIden::OfferImageId), Value::Uuid(offer_image_id)),
        );
        assert(q@.conditions[0] == owned_by(col(OfferImageIden::UserId), user_id@));
        q
    }
}

/// Storing an image inserts one row into the images of offers that holds the
/// new image's id, the offer it belongs to, its owner, its path and its
/// place, each in its own column.
pub proof fn lemma_offer_image_create_writes(
    offer_image_id: u128,
    offer_id: u128,
    user_id: Seq<char>,
    image_url_path: Seq<char>,
    ordering: i64,
)
    ensures
        ({
            let p = spec_offer_image_create(offer_image_id, offer_id, user_id, image_url_path, ordering);
            &&& p.kind == WriteKind::Insert
            &&& p.table == Column::OfferImage(OfferImageIden::Table)
            &&& p.values.len() == 5
            &&& writes(p, Column::OfferImage(OfferImageIden::OfferImageId), ValueView::Uuid(offer_image_id))
            &&& writes(p, Column::OfferImage(OfferImageIden::OfferId), ValueView::Uuid(offer_id))
            &&& writes(p, Column::OfferImage(OfferImageIden::UserId), ValueView::Text(user_id))
            &&& writes(
                p,
                Column::OfferImage(OfferImageIden::ImageUrlPath),
                ValueView::Text(image_url_path),
            )
            &&& writes(p, Column::OfferImage(OfferImageIden::Position), ValueView::Int(ordering))
        }),
{
    broadcast use vstd::seq_lib::lemma_seq_contains_after_push, vstd::seq_lib::lemma_seq_empty_contains_nothing;

}

} // verus!
