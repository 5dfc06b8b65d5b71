//! Prices of offers: their records and the statements that write and read
//! them.
use vstd::prelude::*;

use super::iden::OfferPriceIden;
use super::query::{
    owned_by, spec_select_all, spec_write, writes, Column, Condition, ConditionView, SelectPlan,
    Value, ValueView, WriteKind, WritePlan, WritePlanView,
};

verus! {

/// The price of an offer as it is stored, its times in seconds since the Unix
/// epoch.
#[derive(Debug)]
pub struct OfferPrice {
    pub offer_price_id: u128,
    pub offer_id: u128,
    pub user_id: String,
    pub created_at: i64,
    pub updated_at: i64,
    pub currency: String,
    pub price_type: String,
    pub billing_scheme: String,
    pub unit_amount: u32,
    pub recurring_interval: Option<String>,
    pub recurring_interval_count: Option<u32>,
}

/// A column of the `offer_prices` table.
pub open spec fn col(c: OfferPriceIden) -> Column {
    Column::OfferPrice(c)
}

/// The view of an optional borrowed text as a value.
pub open spec fn opt_str_value(o: Option<&str>) -> ValueView {
    ValueView::OptText(
        match o {
            Some(s) => Some(s@),
            None => None,
        },
    )
}

/// The view of an optional count as a value.
pub open spec fn opt_count_value(o: Option<u32>) -> ValueView {
    ValueView::OptInt(
        match o {
            Some(c) => Some(c as i64),
            None => None,
        },
    )
}

/// `plan` writing the fields of a price.
pub open spec fn spec_price_fields(
    plan: WritePlanView,
    currency: Seq<char>,
    price_type: Seq<char>,
    billing_scheme: Seq<char>,
    unit_amount: u32,
    recurring_interval: ValueView,
    recurring_interval_count: ValueView,
) -> WritePlanView {
    plan.set(col(OfferPriceIden::Currency), ValueView::Text(currency)).set(
        col(OfferPriceIden::PriceType),
        ValueView::Text(price_type),
    ).set(col(OfferPriceIden::BillingScheme), ValueView::Text(billing_scheme)).set(
        col(OfferPriceIden::UnitAmount),
        ValueView::Int(unit_amount as i64),
    ).set(col(OfferPriceIden::RecurringInterval), recurring_interval).set(
        col(OfferPriceIden::RecurringIntervalCount),
        recurring_interval_count,
    )
}

fn opt_str_to_value(o: Option<&str>) -> (r: Value)
    ensures
        r@ == opt_str_value(o),
{
    match o {
        Some(s) => Value::OptText(Some(s.to_owned())),
        None => Value::OptText(None),
    }
}

fn opt_count_to_value(o: Option<u32>) -> (r: Value)
    ensures
        r@ == opt_count_value(o),
{
    match o {
        Some(c) => Value::OptInt(Some(c as i64)),
        None => Value::OptInt(None),
    }
}

impl OfferPrice {
    fn set_fields(
        q: &mut WritePlan,
        currency: &str,
        price_type: &str,
        billing_scheme: &str,
        unit_amount: u32,
        recurring_interval: Option<&str>,
        recurring_interval_count: Option<u32>,
    )
        ensures
            final(q)@ == spec_price_fields(
                old(q)@,
                currency@,
                price_type@,
                billing_scheme@,
                unit_amount,
                opt_str_value(recurring_interval),
                opt_count_value(recurring_interval_count),
            ),
    {
        q.set(Column::OfferPrice(OfferPriceIden::Currency), Value::Text(currency.to_owned()));
        q.set(Column::OfferPrice(OfferPriceIden::PriceType), Value::Text(price_type.to_owned()));
        q.set(
            Column::OfferPrice(OfferPriceIden::BillingScheme),
            Value::Text(billing_scheme.to_owned()),
        );
        q.set(Column::OfferPrice(OfferPriceIden::UnitAmount), Value::Int(unit_amount as i64));
        q.set(
            Column::OfferPrice(OfferPriceIden::RecurringInterval),
            opt_str_to_value(recurring_interval),
        );
        q.set(
            Column::OfferPrice(OfferPriceIden::RecurringIntervalCount),
            opt_count_to_value(recurring_interval_count),
        );
    }

    /// The statement that stores the price of the offer `offer_id` of
    /// `user_id`.
    #[allow(clippy::too_many_arguments)]
    pub fn create_query(
        offer_id: u128,
        user_id: &String,
        currency: &str,
        price_type: &str,
        billing_scheme: &str,
        unit_amount: u32,
        recurring_interval: Option<&str>,
        recurring_interval_count: Option<u32>,
    ) -> (r: WritePlan)
        ensures
            r@ == spec_price_fields(
                spec_write(WriteKind::Insert, col(OfferPriceIden::Table), true).set(
                    col(OfferPriceIden::OfferId),
                    ValueView::Uuid(offer_id),
                ).set(col(OfferPriceIden::UserId), ValueView::Text(user_id@)),
                currency@,
                price_type@,
                billing_scheme@,
                unit_amount,
                opt_str_value(recurring_interval),
                opt_count_value(recurring_interval_count),
            ),
    {
        let mut q = WritePlan::new(WriteKind::Insert, Column::OfferPrice(OfferPriceIden::Table), true);
        q.set(Column::OfferPrice(OfferPriceIden::OfferId), Value::Uuid(offer_id));
        q.set(Column::OfferPrice(OfferPriceIden::UserId), Value::Text(user_id.clone()));
        Self::set_fields(
            &mut q,
            currency,
            price_type,
            billing_scheme,
            unit_amount,
            recurring_interval,
            recurring_interval_count,
        );
        q
    }

    /// The statement that looks up the price of the offer `offer_id`.
    pub fn get_by_offer_id_query(offer_id: u128) -> (r: SelectPlan)
        ensures
            r@ == spec_select_all(col(OfferPriceIden::Table), false).with_condition(
                ConditionView::Eq(col(OfferPriceIden::OfferId), ValueView::Uuid(offer_id)),
            ),
    {
        let mut q = SelectPlan::select_all(Column::OfferPrice(OfferPriceIden::Table), false);
        q.add_condition(Condition::Eq(Column::OfferPrice(OfferPriceIden::OfferId), Value::Uuid(offer_id)));
        q
    }

    /// The statement that replaces the price of the offer `offer_id` of
    /// `user_id`, and only a price of that user.
    #[allow(clippy::too_many_arguments)]
    pub fn put_query(
        user_id: &String,
        offer_id: u128,
        currency: &str,
        price_type: &str,
        billing_scheme: &str,
        unit_amount: u32,
        recurring_interval: Option<&str>,
        recurring_interval_count: Option<u32>,
    ) -> (r: WritePlan)
        ensures
            r@ == spec_price_fields(
                spec_write(WriteKind::Update, col(OfferPriceIden::Table), true),
                currency@,
                price_type@,
                billing_scheme@,
                unit_amount,
                opt_str_value(recurring_interval),
                opt_count_value(recurring_interval_count),
            ).with_condition(owned_by(col(OfferPriceIden::UserId), user_id@)).with_condition(
                ConditionView::Eq(col(OfferPriceIden::OfferId), ValueView::Uuid(offer_id)),
            ),
            r@.conditions.contains(owned_by(col(OfferPriceIden::UserId), user_id@)),
    {
        let mut q = WritePlan::new(WriteKind::Update, Column::OfferPrice(OfferPriceIden::Table), true);
        Self::set_fields(
            &mut q,
            currency,
            price_type,
            billing_scheme,
            unit_amount,
            recurring_interval,
            recurring_interval_count,
        );
        q.add_condition(Condition::Eq(Column::OfferPrice(OfferPriceIden::UserId), Value::Text(user_id.clone())));
        q.add_condition(Condition::Eq(Column::OfferPrice(OfferPriceIden::OfferId), Value::Uuid(offer_id)));
        assert(q@.conditions[0] == owned_by(col(OfferPriceIden::UserId), user_id@));
        q
    }

    /// The statement that deletes the price of the offer `offer_id` of
    /// `user_id`, and only a price of that user.
    pub fn delete_query(user_id: &String, offer_id: u128) -> (r: WritePlan)
        ensures
            r@ == spec_write(WriteKind::Delete, col(OfferPriceIden::Table), false).with_condition(
                owned_by(col(OfferPriceIden::UserId), user_id@),
            ).with_condition(
                ConditionView::Eq(col(OfferPriceIden::OfferId), ValueView::Uuid(offer_id)),
            ),
            r@.conditions.contains(owned_by(col(OfferPriceIden::UserId), user_id@)),
    {
        let mut q = WritePlan::new(WriteKind::Delete, Column::OfferPrice(OfferPriceIden::Table), false);
        q.add_condition(Condition::Eq(Column::OfferPrice(OfferPriceIden::UserId), Value::Text(user_id.clone())));
        q.add_condition(Condition::Eq(Column::OfferPrice(OfferPriceIden::OfferId), Value::Uuid(offer_id)));
        assert(q@.conditions[0] == owned_by(col(OfferPriceIden::UserId), user_id@));
        q
    }
}

/// Writing the fields of a price keeps what the statement wrote and adds the
/// currency, the price type, the billing scheme, the unit amount, the
/// recurring interval and its count, each to its own column, and nothing
/// else.
pub proof fn lemma_price_fields_written(
    plan: WritePlanView,
    currency: Seq<char>,
    price_type: Seq<char>,
    billing_scheme: Seq<char>,
    unit_amount: u32,
    recurring_interval: ValueView,
    recurring_interval_count: ValueView,
)
    ensures
        ({
            let p = spec_price_fields(
                plan,
                currency,
                price_type,
                billing_scheme,
                unit_amount,
                recurring_interval,
                recurring_interval_count,
            );
            &&& p.kind == plan.kind
            &&& p.table == plan.table
            &&& p.conditions == plan.conditions
            &&& p.on_conflict == plan.on_conflict
            &&& p.values.len() == plan.values.len() + 6
            &&& p.values.subrange(0, plan.values.len() as int) == plan.values
            &&& writes(p, col(OfferPriceIden::Currency), ValueView::Text(currency))
            &&& writes(p, col(OfferPriceIden::PriceType), ValueView::Text(price_type))
            &&& writes(p, col(OfferPriceIden::BillingScheme), ValueView::Text(billing_scheme))
            &&& writes(p, col(OfferPriceIden::UnitAmount), ValueView::Int(unit_amount as i64))
            &&& writes(p, col(OfferPriceIden::RecurringInterval), recurring_interval)
            &&& writes(p, col(OfferPriceIden::RecurringIntervalCount), recurring_interval_count)
        }),
{
    broadcast use vstd::seq_lib::lemma_seq_contains_after_push;

    let p = spec_price_fields(
        plan,
        currency,
        price_type,
        billing_scheme,
        unit_amount,
        recurring_interval,
        recurring_interval_count,
    );
    assert(p.values.subrange(0, plan.values.len() as int) =~= plan.values);
}

} // verus!
