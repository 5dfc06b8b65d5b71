//! Shipping rates of offers: their records and the statements that write and
//! read them.
use vstd::prelude::*;

use super::iden::ShippingRateIden;
use super::query::{
    opt_view, owned_by, spec_select_all, spec_write, Column, Condition, ConditionView, SelectPlan,
    Value, ValueView, WriteKind, WritePlan,
};

verus! {

/// A shipping rate of an offer as it is stored, its times in seconds since
/// the Unix epoch.
#[derive(Debug)]
pub struct ShippingRate {
    pub shipping_rate_id: u128,
    pub offer_id: u128,
    pub user_id: String,
    pub created_at: i64,
    pub updated_at: i64,
    pub amount: u32,
    pub currency: String,
    pub all_countries: bool,
    pub specific_countries: Option<String>,
}

/// A column of the `shipping_rates` table.
pub open spec fn col(c: ShippingRateIden) -> Column {
    Column::ShippingRate(c)
}

/// The columns that putting a shipping rate writes.
pub open spec fn put_columns() -> Seq<Column> {
    seq![
        col(ShippingRateIden::OfferId),
        col(ShippingRateIden::UserId),
        col(ShippingRateIden::Amount),
        col(ShippingRateIden::Currency),
        col(ShippingRateIden::AllCountries),
        col(ShippingRateIden::SpecificCountries),
    ]
}

fn put_columns_vec() -> (r: Vec<Column>)
    ensures
        r@ == put_columns(),
{
    let mut r: Vec<Column> = Vec::new();
    r.push(Column::ShippingRate(ShippingRateIden::OfferId));
    r.push(Column::ShippingRate(ShippingRateIden::UserId));
    r.push(Column::ShippingRate(ShippingRateIden::Amount));
    r.push(Column::ShippingRate(ShippingRateIden::Currency));
    r.push(Column::ShippingRate(ShippingRateIden::AllCountries));
    r.push(Column::ShippingRate(ShippingRateIden::SpecificCountries));
    assert(r@ =~= put_columns());
    r
}

impl ShippingRate {
    /// The statement that stores the shipping rate of the offer `offer_id` of
    /// `user_id` in `currency`, replacing the one already there for the same
    /// offer, user and currency.
    pub fn put_query(
        offer_id: u128,
        user_id: &String,
        amount: u32,
        currency: &str,
        all_countries: bool,
        specific_countries: Option<String>,
    ) -> (r: WritePlan)
        ensures
            r@ == spec_write(WriteKind::Insert, col(ShippingRateIden::Table), true).set(
                col(ShippingRateIden::OfferId),
                ValueView::Uuid(offer_id),
            ).set(col(ShippingRateIden::UserId), ValueView::Text(user_id@)).set(
                col(ShippingRateIden::Amount),
                ValueView::Int(amount as i64),
            ).set(col(ShippingRateIden::Currency), ValueView::Text(currency@)).set(
                col(ShippingRateIden::AllCountries),
                ValueView::Bool(all_countries),
            ).set(
                col(ShippingRateIden::SpecificCountries),
                ValueView::OptText(opt_view(specific_countries)),
            ).with_on_conflict(
                seq![
                    col(ShippingRateIden::OfferId),
                    col(ShippingRateIden::UserId),
                    col(ShippingRateIden::Currency),
                ],
                put_columns(),
            ),
    {
        let mut q = WritePlan::new(WriteKind::Insert, Column::ShippingRate(ShippingRateIden::Table), true);
        q.set(Column::ShippingRate(ShippingRateIden::OfferId), Value::Uuid(offer_id));
        q.set(Column::ShippingRate(ShippingRateIden::UserId), Value::Text(user_id.clone()));
        q.set(Column::ShippingRate(ShippingRateIden::Amount), Value::Int(amount as i64));
        q.set(Column::ShippingRate(ShippingRateIden::Currency), Value::Text(currency.to_owned()));
        q.set(Column::ShippingRate(ShippingRateIden::AllCountries), Value::Bool(all_countries));
        q.set(
            Column::ShippingRate(ShippingRateIden::SpecificCountries),
            Value::OptText(specific_countries),
        );
        let mut conflict: Vec<Column> = Vec::new();
        conflict.push(Column::ShippingRate(ShippingRateIden::OfferId));
        conflict.push(Column::ShippingRate(ShippingRateIden::UserId));
        conflict.push(Column::ShippingRate(ShippingRateIden::Currency));
        assert(conflict@ =~= seq![
            col(ShippingRateIden::OfferId),
            col(ShippingRateIden::UserId),
            col(ShippingRateIden::Currency),
        ]);
        q.set_on_conflict(conflict, put_columns_vec());
        q
    }

    /// The statement that looks up the shipping rate of the offer `offer_id`.
    pub fn get_by_offer_id_query(offer_id: u128) -> (r: SelectPlan)
        ensures
            r@ == spec_select_all(col(ShippingRateIden::Table), false).with_condition(
                ConditionView::Eq(col(ShippingRateIden::OfferId), ValueView::Uuid(offer_id)),
            ),
    {
        let mut q = SelectPlan::select_all(Column::ShippingRate(ShippingRateIden::Table), false);
        q.add_condition(Condition::Eq(Column::ShippingRate(ShippingRateIden::OfferId), Value::Uuid(offer_id)));
        q
    }

    /// The statement that deletes the shipping rate `shipping_rate_id` of
    /// `user_id`, and only a rate of that user.
    pub fn delete_query(shipping_rate_id: u128, user_id: &String) -> (r: WritePlan)
        ensures
            r@ == spec_write(WriteKind::Delete, col(ShippingRateIden::Table), true).with_condition(
                ConditionView::Eq(col(ShippingRateIden::ShippingRateId), ValueView::Uuid(shipping_rate_id)),
            ).with_condition(owned_by(col(ShippingRateIden::UserId), user_id@)),
            r@.conditions.contains(owned_by(col(ShippingRateIden::UserId), user_id@)),
    {
        let mut q = WritePlan::new(WriteKind::Delete, Column::ShippingRate(ShippingRateIden::Table), true);
        q.add_condition(
            Condition::Eq(Column::ShippingRate(ShippingRateIden::ShippingRateId), Value::Uuid(shipping_rate_id)),
        );
        q.add_condition(Condition::Eq(Column::ShippingRate(ShippingRateIden::UserId), Value::Text(user_id.clone())));
        assert(q@.conditions[1] == owned_by(col(ShippingRateIden::UserId), user_id@));
        q
    }

    /// The statement that deletes the shipping rates of the offer `offer_id`
    /// of `user_id`, and only rates of that user.
    pub fn delete_all_query(user_id: &String, offer_id: u128) -> (r: WritePlan)
        ensures
            r@ == spec_write(WriteKind::Delete, col(ShippingRateIden::Table), false).with_condition(
                owned_by(col(ShippingRateIden::UserId), user_id@),
            ).with_condition(
                ConditionView::Eq(col(ShippingRateIden::OfferId), ValueView::Uuid(offer_id)),
            ),
            r@.conditions.contains(owned_by(col(ShippingRateIden::UserId), user_id@)),
    {
        let mut q = WritePlan::new(WriteKind::Delete, Column::ShippingRate(ShippingRateIden::Table), false);
        q.add_condition(Condition::Eq(Column::ShippingRate(ShippingRateIden::UserId), Value::Text(user_id.clone())));
        q.add_condition(Condition::Eq(Column::ShippingRate(ShippingRateIden::OfferId), Value::Uuid(offer_id)));
        assert(q@.conditions[0] == owned_by(col(ShippingRateIden::UserId), user_id@));
        q
    }
}

/// Putting a shipping rate that exists already for the offer, the user and
/// the currency replaces every field it writes: the amount and the countries
/// among them.
pub proof fn lemma_shipping_rate_put_updates_its_fields()
    ensures
        put_columns().contains(col(ShippingRateIden::OfferId)),
        put_columns().contains(col(ShippingRateIden::UserId)),
        put_columns().contains(col(ShippingRateIden::Amount)),
        put_columns().contains(col(ShippingRateIden::Currency)),
        put_columns().contains(col(ShippingRateIden::AllCountries)),
        put_columns().contains(col(ShippingRateIden::SpecificCountries)),
        put_columns().len() == 6,
{
    assert(put_columns()[0] == col(ShippingRateIden::OfferId));
    assert(put_columns()[1] == col(ShippingRateIden::UserId));
    assert(put_columns()[2] == col(ShippingRateIden::Amount));
    assert(put_columns()[3] == col(ShippingRateIden::Currency));
    assert(put_columns()[4] == col(ShippingRateIden::AllCountries));
    assert(put_columns()[5] == col(ShippingRateIden::SpecificCountries));
}

} // verus!
