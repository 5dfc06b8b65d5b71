//! Domains of shops: their records and the statements that write and read
//! them.
use vstd::prelude::*;

use super::iden::ShopDomainIden;
use super::query::{
    owned_by, spec_select_all, spec_write, Column, Condition, ConditionView, SelectPlan, Value,
    ValueView, WriteKind, WritePlan,
};

verus! {

/// The domain of a shop as it is stored, its times in seconds since the Unix
/// epoch.
#[derive(Debug)]
pub struct ShopDomain {
    pub shop_id: u128,
    pub user_id: String,
    pub created_at: i64,
    pub updated_at: i64,
    pub domain: String,
    pub status: String,
    pub client_id: Option<String>,
}

/// A column of the `shop_domains` table.
pub open spec fn col(c: ShopDomainIden) -> Column {
    Column::ShopDomain(c)
}

impl ShopDomain {
    /// The statement that stores the domain `domain` of the shop `shop_id` of
    /// `user_id`, in the status `status`.
    pub fn create_query(user_id: &String, shop_id: u128, domain: &String, status: &str) -> (r:
        WritePlan)
        ensures
            r@ == spec_write(WriteKind::Insert, col(ShopDomainIden::Table), true).set(
                col(ShopDomainIden::UserId),
                ValueView::Text(user_id@),
            ).set(col(ShopDomainIden::ShopId), ValueView::Uuid(shop_id)).set(
                col(ShopDomainIden::Domain),
                ValueView::Text(domain@),
            ).set(col(ShopDomainIden::Status), ValueView::Text(status@)),
    {
        let mut q = WritePlan::new(WriteKind::Insert, Column::ShopDomain(ShopDomainIden::Table), true);
        q.set(Column::ShopDomain(ShopDomainIden::UserId), Value::Text(user_id.clone()));
        q.set(Column::ShopDomain(ShopDomainIden::ShopId), Value::Uuid(shop_id));
        q.set(Column::ShopDomain(ShopDomainIden::Domain), Value::Text(domain.clone()));
        q.set(Column::ShopDomain(ShopDomainIden::Status), Value::Text(status.to_owned()));
        q
    }

    /// The statement that looks up the domain of the shop `shop_id`.
    pub fn get_query(shop_id: u128) -> (r: SelectPlan)
        ensures
            r@ == spec_select_all(col(ShopDomainIden::Table), false).with_condition(
                ConditionView::Eq(col(ShopDomainIden::ShopId), ValueView::Uuid(shop_id)),
            ),
    {
        let mut q = SelectPlan::select_all(Column::ShopDomain(ShopDomainIden::Table), false);
        q.add_condition(Condition::Eq(Column::ShopDomain(ShopDomainIden::ShopId), Value::Uuid(shop_id)));
        q
    }

    /// The statement that looks up the shop domain `domain`.
    pub fn get_by_domain_query(domain: &String) -> (r: SelectPlan)
        ensures
            r@ == spec_select_all(col(ShopDomainIden::Table), false).with_condition(
                ConditionView::Eq(col(ShopDomainIden::Domain), ValueView::Text(domain@)),
            ),
    {
        let mut q = SelectPlan::select_all(Column::ShopDomain(ShopDomainIden::Table), false);
        q.add_condition(Condition::Eq(Column::ShopDomain(ShopDomainIden::Domain), Value::Text(domain.clone())));
        q
    }

    /// The statement that looks up the domain of the shop `shop_id` of
    /// `user_id`.
    pub fn get_for_user_query(user_id: &String, shop_id: u128) -> (r: SelectPlan)
        ensures
            r@ == spec_select_all(col(ShopDomainIden::Table), false).with_condition(
                owned_by(col(ShopDomainIden::UserId), user_id@),
            ).with_condition(ConditionView::Eq(col(ShopDomainIden::ShopId), ValueView::Uuid(shop_id))),
    {
        let mut q = SelectPlan::select_all(Column::ShopDomain(ShopDomainIden::Table), false);
        q.add_condition(Condition::Eq(Column::ShopDomain(ShopDomainIden::UserId), Value::Text(user_id.clone())));
        q.add_condition(Condition::Eq(Column::ShopDomain(ShopDomainIden::ShopId), Value::Uuid(shop_id)));
        q
    }

    /// The statement that records the status and client of the domain
    /// `domain` of the shop `shop_id`.
    pub fn update_query(shop_id: u128, domain: &String, status: &String, client_id: &String) -> (r:
        WritePlan)
        ensures
            r@ == spec_write(WriteKind::Update, col(ShopDomainIden::Table), true).set(
                col(ShopDomainIden::Status),
                ValueView::Text(status@),
            ).set(col(ShopDomainIden::ClientId), ValueView::Text(client_id@)).with_condition(
                ConditionView::Eq(col(ShopDomainIden::ShopId), ValueView::Uuid(shop_id)),
            ).with_condition(ConditionView::Eq(col(ShopDomainIden::Domain), ValueView::Text(domain@))),
    {
        let mut q = WritePlan::new(WriteKind::Update, Column::ShopDomain(ShopDomainIden::Table), true);
        q.set(Column::ShopDomain(ShopDomainIden::Status), Value::Text(status.clone()));
        q.set(Column::ShopDomain(ShopDomainIden::ClientId), Value::Text(client_id.clone()));
        q.add_condition(Condition::Eq(Column::ShopDomain(ShopDomainIden::ShopId), Value::Uuid(shop_id)));
        q.add_condition(Condition::Eq(Column::ShopDomain(ShopDomainIden::Domain), Value::Text(domain.clone())));
        q
    }

    /// The statement that deletes the domain `domain` of the shop `shop_id` of
    /// `user_id`, and only a domain of that user.
    pub fn delete_query(user_id: &String, shop_id: u128, domain: &String) -> (r: WritePlan)
        ensures
            r@ == spec_write(WriteKind::Delete, col(ShopDomainIden::Table), false).with_condition(
                owned_by(col(ShopDomainIden::UserId), user_id@),
            ).with_condition(ConditionView::Eq(col(ShopDomainIden::ShopId), ValueView::Uuid(shop_id))).with_condition(
            ConditionView::Eq(col(ShopDomainIden::Domain), ValueView::Text(domain@))),
            r@.conditions.contains(owned_by(col(ShopDomainIden::UserId), user_id@)),
    {
        let mut q = WritePlan::new(WriteKind::Delete, Column::ShopDomain(ShopDomainIden::Table), false);
        q.add_condition(Condition::Eq(Column::ShopDomain(ShopDomainIden::UserId), Value::Text(user_id.clone())));
        q.add_condition(Condition::Eq(Column::ShopDomain(ShopDomainIden::ShopId), Value::Uuid(shop_id)));
        q.add_condition(Condition::Eq(Column::ShopDomain(ShopDomainIden::Domain), Value::Text(domain.clone())));
        assert(q@.conditions[0] == owned_by(col(ShopDomainIden::UserId), user_id@));
        q
    }
}

} // verus!
