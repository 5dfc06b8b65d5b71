//! What the service does when a website is created, changed or deleted.
use vstd::prelude::*;

use crate::model::iden::ShopIden;
use crate::model::query::{writes, Column, ConditionView, ValueView, WriteKind, WritePlan, WritePlanView};
use crate::model::shop::{
    lemma_shop_create_for_website_writes, spec_shop_create_for_website,
    spec_shop_delete_for_website, Shop,
};
use crate::text::{chars_of, str_equal};

verus! {

/// What an event about a website asks of its shop.
#[derive(Clone, Copy, Debug, PartialEq, Eq, Structural)]
pub enum WebsiteAction {
    /// Nothing to do.
    Nothing,
    /// The website has no shop yet: one is created.
    CreateShop,
    /// The website is gone: its shop is deleted.
    DeleteShop,
}

/// What follows the last `.` of `s` (all of `s` where it has none).
pub open spec fn last_segment(s: Seq<char>) -> Seq<char>
    decreases s.len(),
{
    if s.len() == 0 {
        s
    } else if s.last() == '.' {
        seq![]
    } else {
        last_segment(s.drop_last()).push(s.last())
    }
}

/// What an event on the subject `subject` asks of the shop of the website,
/// whose shop exists or not: an `upsert` creates a missing shop, a `delete`
/// deletes an existing one.
pub open spec fn spec_website_action(subject: Seq<char>, shop_exists: bool) -> WebsiteAction {
    let action = last_segment(subject);
    if action == "upsert"@ && !shop_exists {
        WebsiteAction::CreateShop
    } else if action == "delete"@ && shop_exists {
        WebsiteAction::DeleteShop
    } else {
        WebsiteAction::Nothing
    }
}

/// Whether an event on the subject `subject` concerns the shop of a website:
/// its last segment is `upsert` or `delete`.
pub open spec fn spec_is_website_change(subject: Seq<char>) -> bool {
    last_segment(subject) == "upsert"@ || last_segment(subject) == "delete"@
}

fn last_segment_of(subject: &str) -> (r: String)
    ensures
        r@ == last_segment(subject@),
{
    let v = chars_of(subject);
    let n = v.len();
    let mut start: usize = n;
    assert(v@.subrange(0, n as int) =~= subject@);
    assert(last_segment(subject@) =~= last_segment(subject@) + v@.subrange(n as int, n as int));
    while start > 0 && v[start - 1] != '.'
        invariant
            start <= n == v@.len(),
            v@ == subject@,
            last_segment(subject@) == last_segment(v@.subrange(0, start as int)) + v@.subrange(
                start as int,
                n as int,
            ),
        decreases start,
    {
        proof {
            let t = v@.subrange(0, start as int);
            assert(t.drop_last() =~= v@.subrange(0, start - 1));
            assert(v@.subrange(start - 1, n as int) =~= seq![t.last()] + v@.subrange(
                start as int,
                n as int,
            ));
            assert(last_segment(t) == last_segment(t.drop_last()).push(t.last()));
            assert(last_segment(t.drop_last()).push(t.last()) + v@.subrange(start as int, n as int)
                =~= last_segment(t.drop_last()) + v@.subrange(start - 1, n as int));
        }
        start = start - 1;
    }
    proof {
        let t = v@.subrange(0, start as int);
        assert(last_segment(t) =~= seq![]);
        assert(last_segment(subject@) =~= v@.subrange(start as int, n as int));
    }
    subject.substring_char(start, n).to_owned()
}

/// A website as an event tells of it.
#[derive(Debug)]
pub struct WebsiteEvent {
    pub website_id: String,
    pub user_id: String,
    pub name: String,
}

/// What an event asks to be written: the shop created for a website that has
/// none (its owner and name from the event, the website id as its slug, the
/// lowest fees allowed), the shop of a deleted website removed, or nothing.
pub open spec fn spec_website_write(
    subject: Seq<char>,
    shop_exists: bool,
    website: &WebsiteEvent,
    min_platform_fee_percent: u32,
    min_minimum_platform_fee_cent: u32,
) -> Option<WritePlanView> {
    match spec_website_action(subject, shop_exists) {
        WebsiteAction::CreateShop => Some(
            spec_shop_create_for_website(
                website.user_id@,
                website.name@,
                website.website_id@,
                min_platform_fee_percent,
                min_minimum_platform_fee_cent,
            ),
        ),
        WebsiteAction::DeleteShop => Some(spec_shop_delete_for_website(website.website_id@)),
        WebsiteAction::Nothing => None,
    }
}

/// Events about websites, and the lowest fees a shop created for a website
/// gets.
pub struct WebsitesSubscriber {
    pub allowed_min_platform_fee_percent: u32,
    pub allowed_min_minimum_platform_fee_cent: u32,
}

impl WebsitesSubscriber {
    /// A subscriber creating shops with the given lowest fees.
    pub fn new(
        allowed_min_platform_fee_percent: u32,
        allowed_min_minimum_platform_fee_cent: u32,
    ) -> (r: WebsitesSubscriber)
        ensures
            r.allowed_min_platform_fee_percent == allowed_min_platform_fee_percent,
            r.allowed_min_minimum_platform_fee_cent == allowed_min_minimum_platform_fee_cent,
    {
        WebsitesSubscriber { allowed_min_platform_fee_percent, allowed_min_minimum_platform_fee_cent }
    }

    /// The statement that an event on `subject` about `website`, whose shop
    /// exists or not, asks to run; `None` where it asks for nothing.
    pub fn website_write(&self, subject: &str, shop_exists: bool, website: &WebsiteEvent) -> (r:
        Option<WritePlan>)
        ensures
            match spec_website_write(
                subject@,
                shop_exists,
                website,
                self.allowed_min_platform_fee_percent,
                self.allowed_min_minimum_platform_fee_cent,
            ) {
                Some(p) => r matches Some(q) && q@ == p,
                None => r is None,
            },
    {
        match Self::website_action(subject, shop_exists) {
            WebsiteAction::CreateShop => Some(
                Shop::create_for_website_query(
                    &website.user_id,
                    &website.name,
                    &website.website_id,
                    self.allowed_min_platform_fee_percent,
                    self.allowed_min_minimum_platform_fee_cent,
                ),
            ),
            WebsiteAction::DeleteShop => Some(Shop::delete_for_website_id_query(&website.website_id)),
            WebsiteAction::Nothing => None,
        }
    }

    /// Whether an event on `subject` concerns the shop of a website.
    pub fn is_website_change(subject: &str) -> (r: bool)
        ensures
            r == spec_is_website_change(subject@),
    {
        let action = last_segment_of(subject);
        str_equal(action.as_str(), "upsert") || str_equal(action.as_str(), "delete")
    }

    /// What an event on `subject` asks of the website's shop, which exists or
    /// not.
    pub fn website_action(subject: &str, shop_exists: bool) -> (r: WebsiteAction)
        ensures
            r == spec_website_action(subject@, shop_exists),
    {
        let action = last_segment_of(subject);
        if str_equal(action.as_str(), "upsert") && !shop_exists {
            WebsiteAction::CreateShop
        } else if str_equal(action.as_str(), "delete") && shop_exists {
            WebsiteAction::DeleteShop
        } else {
            WebsiteAction::Nothing
        }
    }
}

/// The last segment of a subject that ends in `.` and a text without `.` is
/// that text; a subject without `.` is its own last segment.
pub proof fn lemma_last_segment_after_dot(prefix: Seq<char>, t: Seq<char>)
    requires
        forall|i: int| 0 <= i < t.len() ==> t[i] != '.',
    ensures
        last_segment(prefix + seq!['.'] + t) == t,
        last_segment(t) == t,
    decreases t.len(),
{
    let s = prefix + seq!['.'] + t;
    if t.len() == 0 {
        assert(s.last() == '.');
        assert(t =~= seq![]);
        assert(s.drop_last() =~= prefix);
    } else {
        lemma_last_segment_after_dot(prefix, t.drop_last());
        assert(s.drop_last() =~= prefix + seq!['.'] + t.drop_last());
        assert(s.last() == t.last());
        assert(t.drop_last().push(t.last()) =~= t);
    }
}

/// An event changes a website exactly when its action, the part of its
/// subject after the last `.`, is `upsert` or `delete`. An upsert creates
/// the shop of a website that has none, for the website's user, under its
/// name, with the website id as slug and website, and with the fees given;
/// a delete removes the shop of a website that has one, chosen by the
/// website id; any other event, an upsert of a website with a shop and a
/// delete of one without, write nothing.
pub proof fn lemma_website_events(
    prefix: Seq<char>,
    action: Seq<char>,
    shop_exists: bool,
    website: &WebsiteEvent,
    fee_percent: u32,
    fee_cent: u32,
)
    requires
        forall|i: int| 0 <= i < action.len() ==> action[i] != '.',
    ensures
        spec_is_website_change(prefix + seq!['.'] + action) <==> (action == "upsert"@ || action
            == "delete"@),
        spec_is_website_change(action) <==> (action == "upsert"@ || action == "delete"@),
        spec_website_action(prefix + seq!['.'] + action, shop_exists) == (if action == "upsert"@
            && !shop_exists {
            WebsiteAction::CreateShop
        } else if action == "delete"@ && shop_exists {
            WebsiteAction::DeleteShop
        } else {
            WebsiteAction::Nothing
        }),
        ({
            let w = spec_website_write(prefix + seq!['.'] + action, shop_exists, website, fee_percent, fee_cent);
            &&& (w is Some <==> ((action == "upsert"@ && !shop_exists) || (action == "delete"@
                && shop_exists)))
            &&& ((action == "upsert"@ && !shop_exists) ==> (w matches Some(p) && p.kind
                == WriteKind::Insert && p.table == Column::Shop(ShopIden::Table) && writes(
                p,
                Column::Shop(ShopIden::UserId),
                ValueView::Text(website.user_id@),
            ) && writes(p, Column::Shop(ShopIden::Name), ValueView::Text(website.name@)) && writes(
                p,
                Column::Shop(ShopIden::Slug),
                ValueView::Text(website.website_id@),
            ) && writes(p, Column::Shop(ShopIden::WebsiteId), ValueView::Text(website.website_id@))
                && writes(p, Column::Shop(ShopIden::PlatformFeePercent), ValueView::Int(fee_percent as i64))
                && writes(
                p,
                Column::Shop(ShopIden::MinimumPlatformFeeCent),
                ValueView::Int(fee_cent as i64),
            )))
            &&& ((action == "delete"@ && shop_exists) ==> (w matches Some(p) && p.kind
                == WriteKind::Delete && p.table == Column::Shop(ShopIden::Table) && p.conditions
                == seq![
                ConditionView::Eq(Column::Shop(ShopIden::WebsiteId), ValueView::Text(website.website_id@)),
            ]))
        }),
{
    lemma_last_segment_after_dot(prefix, action);
    lemma_shop_create_for_website_writes(
        website.user_id@,
        website.name@,
        website.website_id@,
        fee_percent,
        fee_cent,
    );
    reveal_strlit("upsert");
    reveal_strlit("delete");
    assert("upsert"@ != "delete"@) by {
        assert("upsert"@[0] != "delete"@[0]);
    }
}

/// Every event whose subject ends in `.upsert` or `.delete` changes a
/// website.
pub proof fn lemma_upsert_and_delete_are_website_changes(prefix: Seq<char>)
    ensures
        spec_is_website_change(prefix + seq!['.'] + "upsert"@),
        spec_is_website_change(prefix + seq!['.'] + "delete"@),
        spec_is_website_change("upsert"@),
        spec_is_website_change("delete"@),
{
    reveal_strlit("upsert");
    reveal_strlit("delete");
    lemma_last_segment_after_dot(prefix, "upsert"@);
    lemma_last_segment_after_dot(prefix, "delete"@);
}

} // verus!
