//! Subscriptions and their items.
use vstd::prelude::*;
use crate::decode::{
    bool_at, int_at, is_string_map_at, object_members, opt_accepts, opt_decodes_to, opt_i32,
    opt_i32_at, opt_int, opt_int_at, opt_number, opt_number_at, opt_mismatch, opt_str, opt_str_at, req_accepts, req_mismatch,
    req_bool, req_decodes_to, req_int, req_str, str_at, string_map, string_map_at, take_opt,
    take_req, text_is, Decode, Record,
};
use crate::expandable::Expandable;
use crate::list::List;
use crate::encode::{
    bool_json, bool_param, decimal_json, decimal_param, int_json, int_param, map_param,
    map_param_json, opt_writable, put, str_json, str_list_param, str_list_param_json, str_param,
};
use crate::client::{
    create_request, delete_request, item_path, list_request, performed, retrieve_request,
    update_request, Method, Request,
    Client, Response, Transport, UrlPath,
};
use crate::error::{Error, SchemaMismatch};
use crate::wire::{items_writable, reads_as_number, values_writable, writable_to};
use crate::json::{member, Json};

verus! {

/// How a subscription is paid.
#[derive(Debug, Clone, Copy, PartialEq, Eq, Structural)]
pub enum SubscriptionBilling {
    ChargeAutomatically,
    SendInvoice,
}

/// The wire name of a billing mode.
pub open spec fn billing_name(b: SubscriptionBilling) -> Seq<char> {
    match b {
        SubscriptionBilling::ChargeAutomatically => "charge_automatically"@,
        SubscriptionBilling::SendInvoice => "send_invoice"@,
    }
}

fn shape_mismatch(resource: &str) -> (e: SchemaMismatch)
    ensures
        e.resource@ == resource@,
        e.field@.len() == 0,
{
    SchemaMismatch { resource: String::from_str(resource), field: String::new() }
}

impl Decode for SubscriptionBilling {
    /// A string that names a billing mode; other names are refused.
    open spec fn accepts(j: Json) -> bool {
        j matches Json::Str(t) && exists|b: SubscriptionBilling| #[trigger] billing_name(b) == t@
    }

    open spec fn decodes_to(j: Json, v: SubscriptionBilling) -> bool {
        j matches Json::Str(t) && billing_name(v) == t@
    }

    open spec fn resource() -> Seq<char> {
        "subscription_billing"@
    }

    open spec fn mismatch_path(j: Json) -> Seq<char> {
        Seq::empty()
    }

    fn decode(j: Json) -> (r: Result<SubscriptionBilling, SchemaMismatch>) {
        match j {
            Json::Str(t) => {
                if text_is(&t, "charge_automatically") {
                    assert(billing_name(SubscriptionBilling::ChargeAutomatically) == t@);
                    Ok(SubscriptionBilling::ChargeAutomatically)
                } else if text_is(&t, "send_invoice") {
                    assert(billing_name(SubscriptionBilling::SendInvoice) == t@);
                    Ok(SubscriptionBilling::SendInvoice)
                } else {
                    assert forall|b: SubscriptionBilling| #[trigger] billing_name(b) != t@ by {
                        match b {
                            SubscriptionBilling::ChargeAutomatically => {},
                            SubscriptionBilling::SendInvoice => {},
                        }
                    }
                    Err(shape_mismatch("subscription_billing"))
                }
            },
            _ => Err(shape_mismatch("subscription_billing")),
        }
    }
}

/// Where a subscription stands.
#[derive(Debug, Clone, Copy, PartialEq, Eq, Structural)]
pub enum SubscriptionStatus {
    Trialing,
    Active,
    PastDue,
    Canceled,
    Unpaid,
    Incomplete,
    IncompleteExpired,
}

/// The wire name of a status.
pub open spec fn status_name(s: SubscriptionStatus) -> Seq<char> {
    match s {
        SubscriptionStatus::Trialing => "trialing"@,
        SubscriptionStatus::Active => "active"@,
        SubscriptionStatus::PastDue => "past_due"@,
        SubscriptionStatus::Canceled => "canceled"@,
        SubscriptionStatus::Unpaid => "unpaid"@,
        SubscriptionStatus::Incomplete => "incomplete"@,
        SubscriptionStatus::IncompleteExpired => "incomplete_expired"@,
    }
}

fn status_named(t: &String) -> (r: Option<SubscriptionStatus>)
    ensures
        match r {
            Some(s) => status_name(s) == t@,
            None => forall|s: SubscriptionStatus| #[trigger] status_name(s) != t@,
        },
{
    if text_is(t, "trialing") {
        Some(SubscriptionStatus::Trialing)
    } else if text_is(t, "active") {
        Some(SubscriptionStatus::Active)
    } else if text_is(t, "past_due") {
        Some(SubscriptionStatus::PastDue)
    } else if text_is(t, "canceled") {
        Some(SubscriptionStatus::Canceled)
    } else if text_is(t, "unpaid") {
        Some(SubscriptionStatus::Unpaid)
    } else if text_is(t, "incomplete") {
        Some(SubscriptionStatus::Incomplete)
    } else if text_is(t, "incomplete_expired") {
        Some(SubscriptionStatus::IncompleteExpired)
    } else {
        assert forall|s: SubscriptionStatus| #[trigger] status_name(s) != t@ by {
            match s {
                SubscriptionStatus::Trialing => {},
                SubscriptionStatus::Active => {},
                SubscriptionStatus::PastDue => {},
                SubscriptionStatus::Canceled => {},
                SubscriptionStatus::Unpaid => {},
                SubscriptionStatus::Incomplete => {},
                SubscriptionStatus::IncompleteExpired => {},
            }
        }
        None
    }
}

impl Decode for SubscriptionStatus {
    /// A string that names a status; other names are refused.
    open spec fn accepts(j: Json) -> bool {
        j matches Json::Str(t) && exists|s: SubscriptionStatus| #[trigger] status_name(s) == t@
    }

    open spec fn decodes_to(j: Json, v: SubscriptionStatus) -> bool {
        j matches Json::Str(t) && status_name(v) == t@
    }

    open spec fn resource() -> Seq<char> {
        "subscription_status"@
    }

    open spec fn mismatch_path(j: Json) -> Seq<char> {
        Seq::empty()
    }

    fn decode(j: Json) -> (r: Result<SubscriptionStatus, SchemaMismatch>) {
        match j {
            Json::Str(t) => match status_named(&t) {
                Some(s) => Ok(s),
                None => Err(shape_mismatch("subscription_status")),
            },
            _ => Err(shape_mismatch("subscription_status")),
        }
    }
}

/// Usage thresholds that bill a subscription early.
#[derive(Debug, Default, Clone, Copy)]
pub struct BillingThresholds {
    pub amount_gte: i64,
    pub reset_billing_cycle_anchor: bool,
}

impl Decode for BillingThresholds {
    open spec fn accepts(j: Json) -> bool {
        j matches Json::Object(f) && int_at(f@, "amount_gte"@) is Some && bool_at(
            f@,
            "reset_billing_cycle_anchor"@,
        ) is Some
    }

    open spec fn decodes_to(j: Json, v: BillingThresholds) -> bool {
        j matches Json::Object(f) && int_at(f@, "amount_gte"@) == Some(v.amount_gte) && bool_at(
            f@,
            "reset_billing_cycle_anchor"@,
        ) == Some(v.reset_billing_cycle_anchor)
    }

    open spec fn resource() -> Seq<char> {
        "billing_thresholds"@
    }

    open spec fn mismatch_path(j: Json) -> Seq<char> {
        match j {
            Json::Object(f) => if int_at(f@, "amount_gte"@) is None {
                "amount_gte"@
            } else if bool_at(f@, "reset_billing_cycle_anchor"@) is None {
                "reset_billing_cycle_anchor"@
            } else {
                Seq::empty()
            },
            _ => Seq::empty(),
        }
    }

    fn decode(j: Json) -> (r: Result<BillingThresholds, SchemaMismatch>) {
        let f = match object_members(j, "billing_thresholds") {
            Ok(f) => f,
            Err(e) => {
                return Err(e);
            },
        };
        let amount_gte = match req_int(&f, "amount_gte", "billing_thresholds") {
            Ok(n) => n,
            Err(e) => {
                return Err(e);
            },
        };
        let reset_billing_cycle_anchor = match req_bool(
            &f,
            "reset_billing_cycle_anchor",
            "billing_thresholds",
        ) {
            Ok(b) => b,
            Err(e) => {
                return Err(e);
            },
        };
        Ok(BillingThresholds { amount_gte, reset_billing_cycle_anchor })
    }
}

/// One plan and quantity within a subscription.
#[derive(Debug)]
pub struct SubscriptionItems {
    pub id: String,
    pub object: String,
    pub billing_thresholds: Option<BillingThresholds>,
    pub created: i64,
    /// The metadata members in the order they were read; serde_json hands
    /// each name out once.
    pub metadata: Vec<(String, String)>,
    pub plan: Record,
    pub quantity: i64,
    pub subscription: String,
}

impl Decode for SubscriptionItems {
    open spec fn accepts(j: Json) -> bool {
        match j {
            Json::Object(f) => {
                &&& str_at(f@, "id"@) is Some
                &&& str_at(f@, "object"@) is Some
                &&& opt_accepts::<BillingThresholds>(f@, "billing_thresholds"@)
                &&& int_at(f@, "created"@) is Some
                &&& is_string_map_at(f@, "metadata"@)
                &&& req_accepts::<Record>(f@, "plan"@)
                &&& int_at(f@, "quantity"@) is Some
                &&& str_at(f@, "subscription"@) is Some
            },
            _ => false,
        }
    }

    open spec fn decodes_to(j: Json, v: SubscriptionItems) -> bool {
        match j {
            Json::Object(f) => {
                &&& str_at(f@, "id"@) == Some(v.id)
                &&& str_at(f@, "object"@) == Some(v.object)
                &&& opt_decodes_to(f@, "billing_thresholds"@, v.billing_thresholds)
                &&& int_at(f@, "created"@) == Some(v.created)
                &&& string_map_at(f@, "metadata"@, v.metadata@)
                &&& req_decodes_to(f@, "plan"@, v.plan)
                &&& int_at(f@, "quantity"@) == Some(v.quantity)
                &&& str_at(f@, "subscription"@) == Some(v.subscription)
            },
            _ => false,
        }
    }

    open spec fn resource() -> Seq<char> {
        "subscription_item"@
    }

    /// The members are checked in this order: those read in place first,
    /// then those decoded as resources of their own.
    open spec fn mismatch_path(j: Json) -> Seq<char> {
        match j {
            Json::Object(f) => {
                if !(str_at(f@, "id"@) is Some) {
                    "id"@
                } else if !(str_at(f@, "object"@) is Some) {
                    "object"@
                } else if !(int_at(f@, "created"@) is Some) {
                    "created"@
                } else if !(is_string_map_at(f@, "metadata"@)) {
                    "metadata"@
                } else if !(int_at(f@, "quantity"@) is Some) {
                    "quantity"@
                } else if !(str_at(f@, "subscription"@) is Some) {
                    "subscription"@
                } else if !(opt_accepts::<BillingThresholds>(f@, "billing_thresholds"@)) {
                    opt_mismatch::<BillingThresholds>(f@, "billing_thresholds"@)
                } else if !(req_accepts::<Record>(f@, "plan"@)) {
                    req_mismatch::<Record>(f@, "plan"@)
                } else {
                    Seq::empty()
                }
            },
            _ => Seq::empty(),
        }
    }

    fn decode(j: Json) -> (r: Result<SubscriptionItems, SchemaMismatch>) {
        let mut f = match object_members(j, "subscription_item") {
            Ok(f) => f,
            Err(e) => {
                return Err(e);
            },
        };
        let ghost f0 = f@;
        let id = match req_str(&f, "id", "subscription_item") {
            Ok(x) => x,
            Err(e) => {
                return Err(e);
            },
        };
        let object = match req_str(&f, "object", "subscription_item") {
            Ok(x) => x,
            Err(e) => {
                return Err(e);
            },
        };
        let created = match req_int(&f, "created", "subscription_item") {
            Ok(x) => x,
            Err(e) => {
                return Err(e);
            },
        };
        let metadata = match string_map(&f, "metadata", "subscription_item") {
            Ok(x) => x,
            Err(e) => {
                return Err(e);
            },
        };
        let quantity = match req_int(&f, "quantity", "subscription_item") {
            Ok(x) => x,
            Err(e) => {
                return Err(e);
            },
        };
        let subscription = match req_str(&f, "subscription", "subscription_item") {
            Ok(x) => x,
            Err(e) => {
                return Err(e);
            },
        };
        proof {
            reveal_strlit("billing_thresholds");
            reveal_strlit("plan");
        }
        let billing_thresholds = match take_opt::<BillingThresholds>(&mut f, "billing_thresholds", "subscription_item") {
            Ok(x) => x,
            Err(e) => {
                return Err(e);
            },
        };
        proof {
            assert("plan"@.len() != "billing_thresholds"@.len());
            assert(member(f@, "plan"@) == member(f0, "plan"@));
        }
        let plan = match take_req::<Record>(&mut f, "plan", "subscription_item") {
            Ok(x) => x,
            Err(e) => {
                return Err(e);
            },
        };
        Ok(
            SubscriptionItems {
                id,
                object,
                billing_thresholds,
                created,
                metadata,
                plan,
                quantity,
                subscription,
            },
        )
    }
}

/// A customer's recurring charge for one or more plans.
#[derive(Debug)]
pub struct Subscription {
    pub id: String,
    pub object: String,
    pub application_fee_percent: Option<i32>,
    pub billing: SubscriptionBilling,
    pub billing_cycle_anchor: i64,
    pub billing_thresholds: Option<BillingThresholds>,
    pub cancel_at_period_end: bool,
    pub canceled_at: Option<i64>,
    pub created: i64,
    pub current_period_end: i64,
    pub current_period_start: i64,
    pub customer: Expandable<Record>,
    pub days_until_due: Option<i64>,
    pub default_payment_method: Option<Expandable<Record>>,
    pub default_source: Option<Expandable<Record>>,
    pub discount: Option<Record>,
    pub ended_at: Option<i64>,
    pub items: List<SubscriptionItems>,
    pub livemode: bool,
    pub latest_invoice: Expandable<Record>,
    /// The metadata members in the order they were read; serde_json hands
    /// each name out once.
    pub metadata: Vec<(String, String)>,
    pub plan: Record,
    pub quantity: i64,
    pub schedule: String,
    pub start: i64,
    pub status: SubscriptionStatus,
    pub tax_percent: Option<Json>,
    pub trial_end: Option<i64>,
    pub trial_start: Option<i64>,
}

impl Decode for Subscription {
    open spec fn accepts(j: Json) -> bool {
        match j {
            Json::Object(f) => {
                &&& str_at(f@, "id"@) is Some
                &&& str_at(f@, "object"@) is Some
                &&& opt_i32_at(f@, "application_fee_percent"@) is Some
                &&& req_accepts::<SubscriptionBilling>(f@, "billing"@)
                &&& int_at(f@, "billing_cycle_anchor"@) is Some
                &&& opt_accepts::<BillingThresholds>(f@, "billing_thresholds"@)
                &&& bool_at(f@, "cancel_at_period_end"@) is Some
                &&& opt_int_at(f@, "canceled_at"@) is Some
                &&& int_at(f@, "created"@) is Some
                &&& int_at(f@, "current_period_end"@) is Some
                &&& int_at(f@, "current_period_start"@) is Some
                &&& req_accepts::<Expandable<Record>>(f@, "customer"@)
                &&& opt_int_at(f@, "days_until_due"@) is Some
                &&& opt_accepts::<Expandable<Record>>(f@, "default_payment_method"@)
                &&& opt_accepts::<Expandable<Record>>(f@, "default_source"@)
                &&& opt_accepts::<Record>(f@, "discount"@)
                &&& opt_int_at(f@, "ended_at"@) is Some
                &&& req_accepts::<List<SubscriptionItems>>(f@, "items"@)
                &&& bool_at(f@, "livemode"@) is Some
                &&& req_accepts::<Expandable<Record>>(f@, "latest_invoice"@)
                &&& is_string_map_at(f@, "metadata"@)
                &&& req_accepts::<Record>(f@, "plan"@)
                &&& int_at(f@, "quantity"@) is Some
                &&& str_at(f@, "schedule"@) is Some
                &&& int_at(f@, "start"@) is Some
                &&& req_accepts::<SubscriptionStatus>(f@, "status"@)
                &&& opt_number_at(f@, "tax_percent"@) is Some
                &&& opt_int_at(f@, "trial_end"@) is Some
                &&& opt_int_at(f@, "trial_start"@) is Some
            },
            _ => false,
        }
    }

    open spec fn decodes_to(j: Json, v: Subscription) -> bool {
        match j {
            Json::Object(f) => {
                &&& str_at(f@, "id"@) == Some(v.id)
                &&& str_at(f@, "object"@) == Some(v.object)
                &&& opt_i32_at(f@, "application_fee_percent"@) == Some(v.application_fee_percent)
                &&& req_decodes_to(f@, "billing"@, v.billing)
                &&& int_at(f@, "billing_cycle_anchor"@) == Some(v.billing_cycle_anchor)
                &&& opt_decodes_to(f@, "billing_thresholds"@, v.billing_thresholds)
                &&& bool_at(f@, "cancel_at_period_end"@) == Some(v.cancel_at_period_end)
                &&& opt_int_at(f@, "canceled_at"@) == Some(v.canceled_at)
                &&& int_at(f@, "created"@) == Some(v.created)
                &&& int_at(f@, "current_period_end"@) == Some(v.current_period_end)
                &&& int_at(f@, "current_period_start"@) == Some(v.current_period_start)
                &&& req_decodes_to(f@, "customer"@, v.customer)
                &&& opt_int_at(f@, "days_until_due"@) == Some(v.days_until_due)
                &&& opt_decodes_to(f@, "default_payment_method"@, v.default_payment_method)
                &&& opt_decodes_to(f@, "default_source"@, v.default_source)
                &&& opt_decodes_to(f@, "discount"@, v.discount)
                &&& opt_int_at(f@, "ended_at"@) == Some(v.ended_at)
                &&& req_decodes_to(f@, "items"@, v.items)
                &&& bool_at(f@, "livemode"@) == Some(v.livemode)
                &&& req_decodes_to(f@, "latest_invoice"@, v.latest_invoice)
                &&& string_map_at(f@, "metadata"@, v.metadata@)
                &&& req_decodes_to(f@, "plan"@, v.plan)
                &&& int_at(f@, "quantity"@) == Some(v.quantity)
                &&& str_at(f@, "schedule"@) == Some(v.schedule)
                &&& int_at(f@, "start"@) == Some(v.start)
                &&& req_decodes_to(f@, "status"@, v.status)
                &&& opt_number_at(f@, "tax_percent"@) == Some(v.tax_percent)
                &&& opt_int_at(f@, "trial_end"@) == Some(v.trial_end)
                &&& opt_int_at(f@, "trial_start"@) == Some(v.trial_start)
            },
            _ => false,
        }
    }

    open spec fn resource() -> Seq<char> {
        "subscription"@
    }

    /// The members are checked in this order: those read in place first,
    /// then those decoded as resources of their own.
    open spec fn mismatch_path(j: Json) -> Seq<char> {
        match j {
            Json::Object(f) => {
                if !(str_at(f@, "id"@) is Some) {
                    "id"@
                } else if !(str_at(f@, "object"@) is Some) {
                    "object"@
                } else if !(opt_i32_at(f@, "application_fee_percent"@) is Some) {
                    "application_fee_percent"@
                } else if !(int_at(f@, "billing_cycle_anchor"@) is Some) {
                    "billing_cycle_anchor"@
                } else if !(bool_at(f@, "cancel_at_period_end"@) is Some) {
                    "cancel_at_period_end"@
                } else if !(opt_int_at(f@, "canceled_at"@) is Some) {
                    "canceled_at"@
                } else if !(int_at(f@, "created"@) is Some) {
                    "created"@
                } else if !(int_at(f@, "current_period_end"@) is Some) {
                    "current_period_end"@
                } else if !(int_at(f@, "current_period_start"@) is Some) {
                    "current_period_start"@
                } else if !(opt_int_at(f@, "days_until_due"@) is Some) {
                    "days_until_due"@
                } else if !(opt_int_at(f@, "ended_at"@) is Some) {
                    "ended_at"@
                } else if !(bool_at(f@, "livemode"@) is Some) {
                    "livemode"@
                } else if !(is_string_map_at(f@, "metadata"@)) {
                    "metadata"@
                } else if !(int_at(f@, "quantity"@) is Some) {
                    "quantity"@
                } else if !(str_at(f@, "schedule"@) is Some) {
                    "schedule"@
                } else if !(int_at(f@, "start"@) is Some) {
                    "start"@
                } else if !(opt_number_at(f@, "tax_percent"@) is Some) {
                    "tax_percent"@
                } else if !(opt_int_at(f@, "trial_end"@) is Some) {
                    "trial_end"@
                } else if !(opt_int_at(f@, "trial_start"@) is Some) {
                    "trial_start"@
                } else if !(req_accepts::<SubscriptionBilling>(f@, "billing"@)) {
                    req_mismatch::<SubscriptionBilling>(f@, "billing"@)
                } else if !(opt_accepts::<BillingThresholds>(f@, "billing_thresholds"@)) {
                    opt_mismatch::<BillingThresholds>(f@, "billing_thresholds"@)
                } else if !(req_accepts::<Expandable<Record>>(f@, "customer"@)) {
                    req_mismatch::<Expandable<Record>>(f@, "customer"@)
                } else if !(opt_accepts::<Expandable<Record>>(f@, "default_payment_method"@)) {
                    opt_mismatch::<Expandable<Record>>(f@, "default_payment_method"@)
                } else if !(opt_accepts::<Expandable<Record>>(f@, "default_source"@)) {
                    opt_mismatch::<Expandable<Record>>(f@, "default_source"@)
                } else if !(opt_accepts::<Record>(f@, "discount"@)) {
                    opt_mismatch::<Record>(f@, "discount"@)
                } else if !(req_accepts::<List<SubscriptionItems>>(f@, "items"@)) {
                    req_mismatch::<List<SubscriptionItems>>(f@, "items"@)
                } else if !(req_accepts::<Expandable<Record>>(f@, "latest_invoice"@)) {
                    req_mismatch::<Expandable<Record>>(f@, "latest_invoice"@)
                } else if !(req_accepts::<Record>(f@, "plan"@)) {
                    req_mismatch::<Record>(f@, "plan"@)
                } else if !(req_accepts::<SubscriptionStatus>(f@, "status"@)) {
                    req_mismatch::<SubscriptionStatus>(f@, "status"@)
                } else {
                    Seq::empty()
                }
            },
            _ => Seq::empty(),
        }
    }

    fn decode(j: Json) -> (r: Result<Subscription, SchemaMismatch>) {
        let mut f = match object_members(j, "subscription") {
            Ok(f) => f,
            Err(e) => {
                return Err(e);
            },
        };
        let ghost f0 = f@;
        let id = match req_str(&f, "id", "subscription") {
            Ok(x) => x,
            Err(e) => {
                return Err(e);
            },
        };
        let object = match req_str(&f, "object", "subscription") {
            Ok(x) => x,
            Err(e) => {
                return Err(e);
            },
        };
        let application_fee_percent = match opt_i32(&f, "application_fee_percent", "subscription") {
            Ok(x) => x,
            Err(e) => {
                return Err(e);
            },
        };
        let billing_cycle_anchor = match req_int(&f, "billing_cycle_anchor", "subscription") {
            Ok(x) => x,
            Err(e) => {
                return Err(e);
            },
        };
        let cancel_at_period_end = match req_bool(&f, "cancel_at_period_end", "subscription") {
            Ok(x) => x,
            Err(e) => {
                return Err(e);
            },
        };
        let canceled_at = match opt_int(&f, "canceled_at", "subscription") {
            Ok(x) => x,
            Err(e) => {
                return Err(e);
            },
        };
        let created = match req_int(&f, "created", "subscription") {
            Ok(x) => x,
            Err(e) => {
                return Err(e);
            },
        };
        let current_period_end = match req_int(&f, "current_period_end", "subscription") {
            Ok(x) => x,
            Err(e) => {
                return Err(e);
            },
        };
        let current_period_start = match req_int(&f, "current_period_start", "subscription") {
            Ok(x) => x,
            Err(e) => {
                return Err(e);
            },
        };
        let days_until_due = match opt_int(&f, "days_until_due", "subscription") {
            Ok(x) => x,
            Err(e) => {
                return Err(e);
            },
        };
        let ended_at = match opt_int(&f, "ended_at", "subscription") {
            Ok(x) => x,
            Err(e) => {
                return Err(e);
            },
        };
        let livemode = match req_bool(&f, "livemode", "subscription") {
            Ok(x) => x,
            Err(e) => {
                return Err(e);
            },
        };
        let metadata = match string_map(&f, "metadata", "subscription") {
            Ok(x) => x,
            Err(e) => {
                return Err(e);
            },
        };
        let quantity = match req_int(&f, "quantity", "subscription") {
            Ok(x) => x,
            Err(e) => {
                return Err(e);
            },
        };
        let schedule = match req_str(&f, "schedule", "subscription") {
            Ok(x) => x,
            Err(e) => {
                return Err(e);
            },
        };
        let start = match req_int(&f, "start", "subscription") {
            Ok(x) => x,
            Err(e) => {
                return Err(e);
            },
        };
        let tax_percent = match opt_number(&f, "tax_percent", "subscription") {
            Ok(x) => x,
            Err(e) => {
                return Err(e);
            },
        };
        let trial_end = match opt_int(&f, "trial_end", "subscription") {
            Ok(x) => x,
            Err(e) => {
                return Err(e);
            },
        };
        let trial_start = match opt_int(&f, "trial_start", "subscription") {
            Ok(x) => x,
            Err(e) => {
                return Err(e);
            },
        };
        proof {
            reveal_strlit("billing");
            reveal_strlit("billing_thresholds");
            reveal_strlit("customer");
            reveal_strlit("default_payment_method");
            reveal_strlit("default_source");
            reveal_strlit("discount");
            reveal_strlit("items");
            reveal_strlit("latest_invoice");
            reveal_strlit("plan");
            reveal_strlit("status");
        }
        let billing = match take_req::<SubscriptionBilling>(&mut f, "billing", "subscription") {
            Ok(x) => x,
            Err(e) => {
                return Err(e);
            },
        };
        proof {
            assert("billing_thresholds"@.len() != "billing"@.len());
            assert(member(f@, "billing_thresholds"@) == member(f0, "billing_thresholds"@));
        }
        let billing_thresholds = match take_opt::<BillingThresholds>(&mut f, "billing_thresholds", "subscription") {
            Ok(x) => x,
            Err(e) => {
                return Err(e);
            },
        };
        proof {
            assert("customer"@.len() != "billing"@.len());
            assert("customer"@.len() != "billing_thresholds"@.len());
            assert(member(f@, "customer"@) == member(f0, "customer"@));
        }
        let customer = match take_req::<Expandable<Record>>(&mut f, "customer", "subscription") {
            Ok(x) => x,
            Err(e) => {
                return Err(e);
            },
        };
        proof {
            assert("default_payment_method"@.len() != "billing"@.len());
            assert("default_payment_method"@.len() != "billing_thresholds"@.len());
            assert("default_payment_method"@.len() != "customer"@.len());
            assert(member(f@, "default_payment_method"@) == member(f0, "default_payment_method"@));
        }
        let default_payment_method = match take_opt::<Expandable<Record>>(&mut f, "default_payment_method", "subscription") {
            Ok(x) => x,
            Err(e) => {
                return Err(e);
            },
        };
        proof {
            assert("default_source"@.len() != "billing"@.len());
            assert("default_source"@.len() != "billing_thresholds"@.len());
            assert("default_source"@.len() != "customer"@.len());
            assert("default_source"@.len() != "default_payment_method"@.len());
            assert(member(f@, "default_source"@) == member(f0, "default_source"@));
        }
        let default_source = match take_opt::<Expandable<Record>>(&mut f, "default_source", "subscription") {
            Ok(x) => x,
            Err(e) => {
                return Err(e);
            },
        };
        proof {
            assert("discount"@.len() != "billing"@.len());
            assert("discount"@.len() != "billing_thresholds"@.len());
            assert("discount"@[0] != "customer"@[0]);
            assert("discount"@.len() != "default_payment_method"@.len());
            assert("discount"@.len() != "default_source"@.len());
            assert(member(f@, "discount"@) == member(f0, "discount"@));
        }
        let discount = match take_opt::<Record>(&mut f, "discount", "subscription") {
            Ok(x) => x,
            Err(e) => {
                return Err(e);
            },
        };
        proof {
            assert("items"@.len() != "billing"@.len());
            assert("items"@.len() != "billing_thresholds"@.len());
            assert("items"@.len() != "customer"@.len());
            assert("items"@.len() != "default_payment_method"@.len());
            assert("items"@.len() != "default_source"@.len());
            assert("items"@.len() != "discount"@.len());
            assert(member(f@, "items"@) == member(f0, "items"@));
        }
        let items = match take_req::<List<SubscriptionItems>>(&mut f, "items", "subscription") {
            Ok(x) => x,
            Err(e) => {
                return Err(e);
            },
        };
        proof {
            assert("latest_invoice"@.len() != "billing"@.len());
            assert("latest_invoice"@.len() != "billing_thresholds"@.len());
            assert("latest_invoice"@.len() != "customer"@.len());
            assert("latest_invoice"@.len() != "default_payment_method"@.len());
            assert("latest_invoice"@[0] != "default_source"@[0]);
            assert("latest_invoice"@.len() != "discount"@.len());
            assert("latest_invoice"@.len() != "items"@.len());
            assert(member(f@, "latest_invoice"@) == member(f0, "latest_invoice"@));
        }
        let latest_invoice = match take_req::<Expandable<Record>>(&mut f, "latest_invoice", "subscription") {
            Ok(x) => x,
            Err(e) => {
                return Err(e);
            },
        };
        proof {
            assert("plan"@.len() != "billing"@.len());
            assert("plan"@.len() != "billing_thresholds"@.len());
            assert("plan"@.len() != "customer"@.len());
            assert("plan"@.len() != "default_payment_method"@.len());
            assert("plan"@.len() != "default_source"@.len());
            assert("plan"@.len() != "discount"@.len());
            assert("plan"@.len() != "items"@.len());
            assert("plan"@.len() != "latest_invoice"@.len());
            assert(member(f@, "plan"@) == member(f0, "plan"@));
        }
        let plan = match take_req::<Record>(&mut f, "plan", "subscription") {
            Ok(x) => x,
            Err(e) => {
                return Err(e);
            },
        };
        proof {
            assert("status"@.len() != "billing"@.len());
            assert("status"@.len() != "billing_thresholds"@.len());
            assert("status"@.len() != "customer"@.len());
            assert("status"@.len() != "default_payment_method"@.len());
            assert("status"@.len() != "default_source"@.len());
            assert("status"@.len() != "discount"@.len());
            assert("status"@.len() != "items"@.len());
            assert("status"@.len() != "latest_invoice"@.len());
            assert("status"@.len() != "plan"@.len());
            assert(member(f@, "status"@) == member(f0, "status"@));
        }
        let status = match take_req::<SubscriptionStatus>(&mut f, "status", "subscription") {
            Ok(x) => x,
            Err(e) => {
                return Err(e);
            },
        };
        Ok(
            Subscription {
                id,
                object,
                application_fee_percent,
                billing,
                billing_cycle_anchor,
                billing_thresholds,
                cancel_at_period_end,
                canceled_at,
                created,
                current_period_end,
                current_period_start,
                customer,
                days_until_due,
                default_payment_method,
                default_source,
                discount,
                ended_at,
                items,
                livemode,
                latest_invoice,
                metadata,
                plan,
                quantity,
                schedule,
                start,
                status,
                tax_percent,
                trial_end,
                trial_start,
            },
        )
    }
}

/// A plan and quantity to subscribe to.
#[derive(Debug, Default)]
pub struct ItemParam {
    /// The plan's identifier.
    pub plan: String,
    pub quantity: Option<i32>,
}

impl ItemParam {
    /// Whether `j` is the object that these parameters write: one member
    /// for each parameter that is set, and no other.
    pub open spec fn encodes(self, j: Json) -> bool {
        match j {
            Json::Object(f) => {
                &&& f@.len() == 1int + 
                    (if self.quantity is Some { 1int } else { 0int })
                &&& member(f@, "plan"@) == Some(Json::Str(self.plan))
                &&& member(f@, "quantity"@) == int_json(i32_widened(self.quantity))
            },
            _ => false,
        }
    }

    /// The request body; `quantity` is left out when unset.
    pub fn to_json(&self) -> (r: Json)
        ensures
            self.encodes(r),
            forall|d: nat| d >= 1 ==> #[trigger] writable_to(r, d),
    {
        let mut f: Vec<(String, Json)> = Vec::new();
        proof {
            reveal_strlit("plan");
            reveal_strlit("quantity");
            assert(member(f@, "plan"@) == member(Seq::<(String, Json)>::empty(), "plan"@));
        }
        put(&mut f, "plan", Some(Json::Str(self.plan.clone())));
        proof {
            assert("quantity"@.len() != "plan"@.len());
            assert(member(f@, "quantity"@) == member(Seq::<(String, Json)>::empty(), "quantity"@));
        }
        put(&mut f, "quantity", int_param(widen(self.quantity)));
        proof {
            assert forall|d: nat| d >= 1 implies #[trigger] writable_to(Json::Object(f), d) by {
                assert(values_writable(Seq::<(String, Json)>::empty(), (d - 1) as nat, 0));
                assert(values_writable(f@, (d - 1) as nat, f@.len() as int));
            }
        }
        Json::Object(f)
    }
}

/// An optional `i32` as an `i64`.
pub open spec fn i32_widened(o: Option<i32>) -> Option<i64> {
    match o {
        Some(q) => Some(q as i64),
        None => None,
    }
}

fn widen(o: Option<i32>) -> (r: Option<i64>)
    ensures
        r == i32_widened(o),
{
    match o {
        Some(q) => Some(q as i64),
        None => None,
    }
}

/// Whether the member `j` is what an optional list of items writes.
pub open spec fn items_param_json(j: Option<Json>, o: Option<Vec<ItemParam>>) -> bool {
    match o {
        Some(v) => j matches Some(Json::Array(a)) && a@.len() == v@.len() && forall|i: int|
            0 <= i < v@.len() ==> (#[trigger] v@[i]).encodes(a@[i]),
        None => j is None,
    }
}

fn items_param(o: &Option<Vec<ItemParam>>) -> (r: Option<Json>)
    ensures
        items_param_json(r, *o),
        forall|d: nat| d >= 2 ==> #[trigger] opt_writable(r, d),
{
    match o {
        Some(v) => {
            let mut out: Vec<Json> = Vec::new();
            let mut i: usize = 0;
            while i < v.len()
                invariant
                    i <= v@.len(),
                    out@.len() == i,
                    forall|k: int| 0 <= k < i ==> (#[trigger] v@[k]).encodes(out@[k]),
                    forall|d: nat| d >= 1 ==> #[trigger] items_writable(out@, d, i as int),
                decreases v@.len() - i,
            {
                let ghost before = out@;
                out.push(v[i].to_json());
                proof {
                    assert forall|d: nat| d >= 1 implies #[trigger] items_writable(out@, d, i + 1) by {
                        crate::wire::lemma_items_push(before, out@.last(), d, i as int);
                        assert(out@ == before.push(out@.last()));
                        assert(items_writable(before, d, i as int));
                        assert(writable_to(out@[i as int], d));
                    }
                }
                i = i + 1;
            }
            proof {
                assert forall|d: nat| d >= 2 implies #[trigger] opt_writable(
                    Some(Json::Array(out)),
                    d,
                ) by {
                    assert(items_writable(out@, (d - 1) as nat, out@.len() as int));
                }
            }
            Some(Json::Array(out))
        },
        None => None,
    }
}

/// The parameters of a request on subscription items.
#[derive(Debug, Default)]
pub struct SubscriptionItemParam {
    pub plan: Option<String>,
    pub subscription: Option<String>,
    /// Metadata to set; each name should appear once, as a repeated name is
    /// written with its last value.
    pub metadata: Option<Vec<(String, String)>>,
    pub prorate: Option<bool>,
    pub prorate_date: Option<i64>,
    pub quantity: Option<i64>,
}

impl SubscriptionItemParam {
    /// Whether `j` is the object that these parameters write: one member
    /// for each parameter that is set, and no other.
    pub open spec fn encodes(self, j: Json) -> bool {
        match j {
            Json::Object(f) => {
                &&& f@.len() == (if self.plan is Some { 1int } else { 0int }) + 
                    (if self.subscription is Some { 1int } else { 0int }) + 
                    (if self.metadata is Some { 1int } else { 0int }) + 
                    (if self.prorate is Some { 1int } else { 0int }) + 
                    (if self.prorate_date is Some { 1int } else { 0int }) + 
                    (if self.quantity is Some { 1int } else { 0int })
                &&& member(f@, "plan"@) == str_json(self.plan)
                &&& member(f@, "subscription"@) == str_json(self.subscription)
                &&& map_param_json(member(f@, "metadata"@), self.metadata)
                &&& member(f@, "prorate"@) == bool_json(self.prorate)
                &&& member(f@, "prorate_date"@) == int_json(self.prorate_date)
                &&& member(f@, "quantity"@) == int_json(self.quantity)
            },
            _ => false,
        }
    }

    /// The request body, with only the parameters that are set.
    pub fn to_json(&self) -> (r: Json)
        ensures
            self.encodes(r),
            forall|d: nat| d >= 2 ==> #[trigger] writable_to(r, d),
    {
        let mut f: Vec<(String, Json)> = Vec::new();
        proof {
            reveal_strlit("plan");
            reveal_strlit("subscription");
            reveal_strlit("metadata");
            reveal_strlit("prorate");
            reveal_strlit("prorate_date");
            reveal_strlit("quantity");
            assert(member(f@, "plan"@) == member(Seq::<(String, Json)>::empty(), "plan"@));
        }
        put(&mut f, "plan", str_param(&self.plan));
        proof {
            assert("subscription"@.len() != "plan"@.len());
            assert(member(f@, "subscription"@) == member(Seq::<(String, Json)>::empty(), "subscription"@));
        }
        put(&mut f, "subscription", str_param(&self.subscription));
        proof {
            assert("metadata"@.len() != "plan"@.len());
            assert("metadata"@.len() != "subscription"@.len());
            assert(member(f@, "metadata"@) == member(Seq::<(String, Json)>::empty(), "metadata"@));
        }
        put(&mut f, "metadata", map_param(&self.metadata));
        proof {
            assert("prorate"@.len() != "plan"@.len());
            assert("prorate"@.len() != "subscription"@.len());
            assert("prorate"@.len() != "metadata"@.len());
            assert(member(f@, "prorate"@) == member(Seq::<(String, Json)>::empty(), "prorate"@));
        }
        put(&mut f, "prorate", bool_param(self.prorate));
        proof {
            assert("prorate_date"@.len() != "plan"@.len());
            assert("prorate_date"@[0] != "subscription"@[0]);
            assert("prorate_date"@.len() != "metadata"@.len());
            assert("prorate_date"@.len() != "prorate"@.len());
            assert(member(f@, "prorate_date"@) == member(Seq::<(String, Json)>::empty(), "prorate_date"@));
        }
        put(&mut f, "prorate_date", int_param(self.prorate_date));
        proof {
            assert("quantity"@.len() != "plan"@.len());
            assert("quantity"@.len() != "subscription"@.len());
            assert("quantity"@[0] != "metadata"@[0]);
            assert("quantity"@.len() != "prorate"@.len());
            assert("quantity"@.len() != "prorate_date"@.len());
            assert(member(f@, "quantity"@) == member(Seq::<(String, Json)>::empty(), "quantity"@));
        }
        put(&mut f, "quantity", int_param(self.quantity));
        proof {
            assert forall|d: nat| d >= 2 implies #[trigger] writable_to(Json::Object(f), d) by {
                assert(values_writable(Seq::<(String, Json)>::empty(), (d - 1) as nat, 0));
                assert(values_writable(f@, (d - 1) as nat, f@.len() as int));
            }
        }
        Json::Object(f)
    }
}

/// The parameters of a request on subscriptions.
#[derive(Debug, Default)]
pub struct SubscriptionParam {
    pub customer: Option<String>,
    /// A percentage, as decimal text such as `8.5`.
    pub application_fee_percent: Option<String>,
    pub coupon: Option<String>,
    pub items: Option<Vec<ItemParam>>,
    /// Metadata to set; each name should appear once, as a repeated name is
    /// written with its last value.
    pub metadata: Option<Vec<(String, String)>>,
    /// A payment source token.
    pub source: Option<String>,
    /// A percentage, as decimal text such as `8.5`.
    pub tax_percent: Option<String>,
    pub trial_end: Option<i64>,
    pub trial_period_days: Option<i64>,
    pub prorate: Option<bool>,
    pub proration_date: Option<i64>,
    pub at_period_end: Option<bool>,
    /// Members to expand in the response.
    pub expand: Option<Vec<String>>,
}

impl SubscriptionParam {
    /// Whether `j` is the object that these parameters write: one member
    /// for each parameter that is set, and no other.
    pub open spec fn encodes(self, j: Json) -> bool {
        match j {
            Json::Object(f) => {
                &&& f@.len() == (if self.customer is Some { 1int } else { 0int }) + 
                    (if self.application_fee_percent is Some { 1int } else { 0int }) + 
                    (if self.coupon is Some { 1int } else { 0int }) + 
                    (if self.items is Some { 1int } else { 0int }) + 
                    (if self.metadata is Some { 1int } else { 0int }) + 
                    (if self.source is Some { 1int } else { 0int }) + 
                    (if self.tax_percent is Some { 1int } else { 0int }) + 
                    (if self.trial_end is Some { 1int } else { 0int }) + 
                    (if self.trial_period_days is Some { 1int } else { 0int }) + 
                    (if self.prorate is Some { 1int } else { 0int }) + 
                    (if self.proration_date is Some { 1int } else { 0int }) + 
                    (if self.at_period_end is Some { 1int } else { 0int }) + 
                    (if self.expand is Some { 1int } else { 0int })
                &&& member(f@, "customer"@) == str_json(self.customer)
                &&& member(f@, "application_fee_percent"@) == decimal_json(self.application_fee_percent)
                &&& member(f@, "coupon"@) == str_json(self.coupon)
                &&& items_param_json(member(f@, "items"@), self.items)
                &&& map_param_json(member(f@, "metadata"@), self.metadata)
                &&& member(f@, "source"@) == str_json(self.source)
                &&& member(f@, "tax_percent"@) == decimal_json(self.tax_percent)
                &&& member(f@, "trial_end"@) == int_json(self.trial_end)
                &&& member(f@, "trial_period_days"@) == int_json(self.trial_period_days)
                &&& member(f@, "prorate"@) == bool_json(self.prorate)
                &&& member(f@, "proration_date"@) == int_json(self.proration_date)
                &&& member(f@, "at_period_end"@) == bool_json(self.at_period_end)
                &&& str_list_param_json(member(f@, "expand"@), self.expand)
            },
            _ => false,
        }
    }

    /// The request body, with only the parameters that are set.
    pub fn to_json(&self) -> (r: Json)
        ensures
            self.encodes(r),
            forall|d: nat| d >= 3 ==> (#[trigger] writable_to(r, d) <==> self.spec_decimals_readable()),
    {
        let mut f: Vec<(String, Json)> = Vec::new();
        proof {
            reveal_strlit("customer");
            reveal_strlit("application_fee_percent");
            reveal_strlit("coupon");
            reveal_strlit("items");
            reveal_strlit("metadata");
            reveal_strlit("source");
            reveal_strlit("tax_percent");
            reveal_strlit("trial_end");
            reveal_strlit("trial_period_days");
            reveal_strlit("prorate");
            reveal_strlit("proration_date");
            reveal_strlit("at_period_end");
            reveal_strlit("expand");
            assert(member(f@, "customer"@) == member(Seq::<(String, Json)>::empty(), "customer"@));
        }
        put(&mut f, "customer", str_param(&self.customer));
        proof {
            assert("application_fee_percent"@.len() != "customer"@.len());
            assert(member(f@, "application_fee_percent"@) == member(Seq::<(String, Json)>::empty(), "application_fee_percent"@));
        }
        put(&mut f, "application_fee_percent", decimal_param(&self.application_fee_percent));
        proof {
            assert("coupon"@.len() != "customer"@.len());
            assert("coupon"@.len() != "application_fee_percent"@.len());
            assert(member(f@, "coupon"@) == member(Seq::<(String, Json)>::empty(), "coupon"@));
        }
        put(&mut f, "coupon", str_param(&self.coupon));
        proof {
            assert("items"@.len() != "customer"@.len());
            assert("items"@.len() != "application_fee_percent"@.len());
            assert("items"@.len() != "coupon"@.len());
            assert(member(f@, "items"@) == member(Seq::<(String, Json)>::empty(), "items"@));
        }
        put(&mut f, "items", items_param(&self.items));
        proof {
            assert("metadata"@[0] != "customer"@[0]);
            assert("metadata"@.len() != "application_fee_percent"@.len());
            assert("metadata"@.len() != "coupon"@.len());
            assert("metadata"@.len() != "items"@.len());
            assert(member(f@, "metadata"@) == member(Seq::<(String, Json)>::empty(), "metadata"@));
        }
        put(&mut f, "metadata", map_param(&self.metadata));
        proof {
            assert("source"@.len() != "customer"@.len());
            assert("source"@.len() != "application_fee_percent"@.len());
            assert("source"@[0] != "coupon"@[0]);
            assert("source"@.len() != "items"@.len());
            assert("source"@.len() != "metadata"@.len());
            assert(member(f@, "source"@) == member(Seq::<(String, Json)>::empty(), "source"@));
        }
        put(&mut f, "source", str_param(&self.source));
        proof {
            assert("tax_percent"@.len() != "customer"@.len());
            assert("tax_percent"@.len() != "application_fee_percent"@.len());
            assert("tax_percent"@.len() != "coupon"@.len());
            assert("tax_percent"@.len() != "items"@.len());
            assert("tax_percent"@.len() != "metadata"@.len());
            assert("tax_percent"@.len() != "source"@.len());
            assert(member(f@, "tax_percent"@) == member(Seq::<(String, Json)>::empty(), "tax_percent"@));
        }
        put(&mut f, "tax_percent", decimal_param(&self.tax_percent));
        proof {
            assert("trial_end"@.len() != "customer"@.len());
            assert("trial_end"@.len() != "application_fee_percent"@.len());
            assert("trial_end"@.len() != "coupon"@.len());
            assert("trial_end"@.len() != "items"@.len());
            assert("trial_end"@.len() != "metadata"@.len());
            assert("trial_end"@.len() != "source"@.len());
            assert("trial_end"@.len() != "tax_percent"@.len());
            assert(member(f@, "trial_end"@) == member(Seq::<(String, Json)>::empty(), "trial_end"@));
        }
        put(&mut f, "trial_end", int_param(self.trial_end));
        proof {
            assert("trial_period_days"@.len() != "customer"@.len());
            assert("trial_period_days"@.len() != "application_fee_percent"@.len());
            assert("trial_period_days"@.len() != "coupon"@.len());
            assert("trial_period_days"@.len() != "items"@.len());
            assert("trial_period_days"@.len() != "metadata"@.len());
            assert("trial_period_days"@.len() != "source"@.len());
            assert("trial_period_days"@.len() != "tax_percent"@.len());
            assert("trial_period_days"@.len() != "trial_end"@.len());
            assert(member(f@, "trial_period_days"@) == member(Seq::<(String, Json)>::empty(), "trial_period_days"@));
        }
        put(&mut f, "trial_period_days", int_param(self.trial_period_days));
        proof {
            assert("prorate"@.len() != "customer"@.len());
            assert("prorate"@.len() != "application_fee_percent"@.len());
            assert("prorate"@.len() != "coupon"@.len());
            assert("prorate"@.len() != "items"@.len());
            assert("prorate"@.len() != "metadata"@.len());
            assert("prorate"@.len() != "source"@.len());
            assert("prorate"@.len() != "tax_percent"@.len());
            assert("prorate"@.len() != "trial_end"@.len());
            assert("prorate"@.len() != "trial_period_days"@.len());
            assert(member(f@, "prorate"@) == member(Seq::<(String, Json)>::empty(), "prorate"@));
        }
        put(&mut f, "prorate", bool_param(self.prorate));
        proof {
            assert("proration_date"@.len() != "customer"@.len());
            assert("proration_date"@.len() != "application_fee_percent"@.len());
            assert("proration_date"@.len() != "coupon"@.len());
            assert("proration_date"@.len() != "items"@.len());
            assert("proration_date"@.len() != "metadata"@.len());
            assert("proration_date"@.len() != "source"@.len());
            assert("proration_date"@.len() != "tax_percent"@.len());
            assert("proration_date"@.len() != "trial_end"@.len());
            assert("proration_date"@.len() != "trial_period_days"@.len());
            assert("proration_date"@.len() != "prorate"@.len());
            assert(member(f@, "proration_date"@) == member(Seq::<(String, Json)>::empty(), "proration_date"@));
        }
        put(&mut f, "proration_date", int_param(self.proration_date));
        proof {
            assert("at_period_end"@.len() != "customer"@.len());
            assert("at_period_end"@.len() != "application_fee_percent"@.len());
            assert("at_period_end"@.len() != "coupon"@.len());
            assert("at_period_end"@.len() != "items"@.len());
            assert("at_period_end"@.len() != "metadata"@.len());
            assert("at_period_end"@.len() != "source"@.len());
            assert("at_period_end"@.len() != "tax_percent"@.len());
            assert("at_period_end"@.len() != "trial_end"@.len());
            assert("at_period_end"@.len() != "trial_period_days"@.len());
            assert("at_period_end"@.len() != "prorate"@.len());
            assert("at_period_end"@.len() != "proration_date"@.len());
            assert(member(f@, "at_period_end"@) == member(Seq::<(String, Json)>::empty(), "at_period_end"@));
        }
        put(&mut f, "at_period_end", bool_param(self.at_period_end));
        proof {
            assert("expand"@.len() != "customer"@.len());
            assert("expand"@.len() != "application_fee_percent"@.len());
            assert("expand"@[0] != "coupon"@[0]);
            assert("expand"@.len() != "items"@.len());
            assert("expand"@.len() != "metadata"@.len());
            assert("expand"@[0] != "source"@[0]);
            assert("expand"@.len() != "tax_percent"@.len());
            assert("expand"@.len() != "trial_end"@.len());
            assert("expand"@.len() != "trial_period_days"@.len());
            assert("expand"@.len() != "prorate"@.len());
            assert("expand"@.len() != "proration_date"@.len());
            assert("expand"@.len() != "at_period_end"@.len());
            assert(member(f@, "expand"@) == member(Seq::<(String, Json)>::empty(), "expand"@));
        }
        put(&mut f, "expand", str_list_param(&self.expand));
        proof {
            assert forall|d: nat| d >= 3 implies (#[trigger] writable_to(Json::Object(f), d) <==> self.spec_decimals_readable()) by {
                assert(values_writable(Seq::<(String, Json)>::empty(), (d - 1) as nat, 0));
                assert(values_writable(f@, (d - 1) as nat, f@.len() as int) <==> self.spec_decimals_readable());
            }
        }
        Json::Object(f)
    }
}

/// Whether an optional decimal parameter is unset or reads as a number.
pub open spec fn readable_decimal(o: Option<String>) -> bool {
    match o {
        Some(t) => reads_as_number(t@),
        None => true,
    }
}

impl SubscriptionParam {
    /// Whether both percentages are unset or read as numbers.
    pub open spec fn spec_decimals_readable(self) -> bool {
        readable_decimal(self.application_fee_percent) && readable_decimal(self.tax_percent)
    }
}

impl SubscriptionItems {
    /// Creates a subscription item.
    pub fn create<T: Transport>(client: &Client<T>, param: &SubscriptionItemParam) -> (r: Result<SubscriptionItems, Error>)
        ensures
            !(r matches Err(Error::Serialization(_))),
            !(r matches Err(Error::Serialization(_))) ==> exists|req: Request|
                #[trigger] performed(client.transport, req, r) && req.method == Method::Post
                    && req.path == client.paths.spec_base(UrlPath::SubscriptionItems) && req.query is None && (req.body matches Some(j) && param.encodes(j)),
    {
        let request = create_request(&client.paths, UrlPath::SubscriptionItems, param.to_json());
        let r = client.execute(&request);
        assert(!(r matches Err(Error::Serialization(_))) ==> performed(
            client.transport,
            request,
            r,
        ));
        r
    }

    /// Fetches one subscription item.
    pub fn retrieve<T: Transport>(client: &Client<T>, id: &str) -> (r: Result<SubscriptionItems, Error>)
        ensures
            !(r matches Err(Error::Serialization(_))),
            !(r matches Err(Error::Serialization(_))) ==> exists|req: Request|
                #[trigger] performed(client.transport, req, r) && req.method == Method::Get
                    && req.path@ == item_path(client.paths, UrlPath::SubscriptionItems, id@) && req.body is None && req.query is None,
    {
        let request = retrieve_request(&client.paths, UrlPath::SubscriptionItems, id);
        let r = client.execute(&request);
        assert(!(r matches Err(Error::Serialization(_))) ==> performed(
            client.transport,
            request,
            r,
        ));
        r
    }

    /// Changes one subscription item.
    pub fn update<T: Transport>(client: &Client<T>, id: &str, param: &SubscriptionItemParam) -> (r: Result<SubscriptionItems, Error>)
        ensures
            !(r matches Err(Error::Serialization(_))),
            !(r matches Err(Error::Serialization(_))) ==> exists|req: Request|
                #[trigger] performed(client.transport, req, r) && req.method == Method::Post
                    && req.path@ == item_path(client.paths, UrlPath::SubscriptionItems, id@) && req.query is None && (req.body matches Some(j) && param.encodes(j)),
    {
        let request = update_request(&client.paths, UrlPath::SubscriptionItems, id, param.to_json());
        let r = client.execute(&request);
        assert(!(r matches Err(Error::Serialization(_))) ==> performed(
            client.transport,
            request,
            r,
        ));
        r
    }

    /// Deletes one subscription item.
    pub fn delete<T: Transport>(client: &Client<T>, id: &str, param: &SubscriptionItemParam) -> (r: Result<SubscriptionItems, Error>)
        ensures
            !(r matches Err(Error::Serialization(_))),
            !(r matches Err(Error::Serialization(_))) ==> exists|req: Request|
                #[trigger] performed(client.transport, req, r) && req.method == Method::Delete
                    && req.path@ == item_path(client.paths, UrlPath::SubscriptionItems, id@) && req.query is None && (req.body matches Some(j) && param.encodes(j)),
    {
        let request = delete_request(&client.paths, UrlPath::SubscriptionItems, id, Some(param.to_json()));
        let r = client.execute(&request);
        assert(!(r matches Err(Error::Serialization(_))) ==> performed(
            client.transport,
            request,
            r,
        ));
        r
    }

    /// Lists one page of subscription items.
    pub fn list<T: Transport>(client: &Client<T>, param: &SubscriptionItemParam) -> (r: Result<List<SubscriptionItems>, Error>)
        ensures
            !(r matches Err(Error::Serialization(_))),
            !(r matches Err(Error::Serialization(_))) ==> exists|req: Request|
                #[trigger] performed(client.transport, req, r) && req.method == Method::Get
                    && req.path == client.paths.spec_base(UrlPath::SubscriptionItems) && req.body is None && (req.query matches Some(j) && param.encodes(j)),
    {
        let request = list_request(&client.paths, UrlPath::SubscriptionItems, param.to_json());
        let r = client.execute(&request);
        assert(!(r matches Err(Error::Serialization(_))) ==> performed(
            client.transport,
            request,
            r,
        ));
        r
    }
}

impl Subscription {
    /// Creates a subscription.
    pub fn create<T: Transport>(client: &Client<T>, param: &SubscriptionParam) -> (r: Result<Subscription, Error>)
        ensures
            r matches Err(Error::Serialization(_)) <==> !param.spec_decimals_readable(),
            !(r matches Err(Error::Serialization(_))) ==> exists|req: Request|
                #[trigger] performed(client.transport, req, r) && req.method == Method::Post
                    && req.path == client.paths.spec_base(UrlPath::Subscriptions) && req.query is None && (req.body matches Some(j) && param.encodes(j)),
    {
        let request = create_request(&client.paths, UrlPath::Subscriptions, param.to_json());
        let r = client.execute(&request);
        assert(!(r matches Err(Error::Serialization(_))) ==> performed(
            client.transport,
            request,
            r,
        ));
        r
    }

    /// Fetches one subscription.
    pub fn retrieve<T: Transport>(client: &Client<T>, id: &str) -> (r: Result<Subscription, Error>)
        ensures
            !(r matches Err(Error::Serialization(_))),
            !(r matches Err(Error::Serialization(_))) ==> exists|req: Request|
                #[trigger] performed(client.transport, req, r) && req.method == Method::Get
                    && req.path@ == item_path(client.paths, UrlPath::Subscriptions, id@) && req.body is None && req.query is None,
    {
        let request = retrieve_request(&client.paths, UrlPath::Subscriptions, id);
        let r = client.execute(&request);
        assert(!(r matches Err(Error::Serialization(_))) ==> performed(
            client.transport,
            request,
            r,
        ));
        r
    }

    /// Changes one subscription.
    pub fn update<T: Transport>(client: &Client<T>, id: &str, param: &SubscriptionParam) -> (r: Result<Subscription, Error>)
        ensures
            r matches Err(Error::Serialization(_)) <==> !param.spec_decimals_readable(),
            !(r matches Err(Error::Serialization(_))) ==> exists|req: Request|
                #[trigger] performed(client.transport, req, r) && req.method == Method::Post
                    && req.path@ == item_path(client.paths, UrlPath::Subscriptions, id@) && req.query is None && (req.body matches Some(j) && param.encodes(j)),
    {
        let request = update_request(&client.paths, UrlPath::Subscriptions, id, param.to_json());
        let r = client.execute(&request);
        assert(!(r matches Err(Error::Serialization(_))) ==> performed(
            client.transport,
            request,
            r,
        ));
        r
    }

    /// Cancels one subscription; `param` carries the cancellation options.
    pub fn cancel<T: Transport>(client: &Client<T>, id: &str, param: &SubscriptionParam) -> (r: Result<Subscription, Error>)
        ensures
            r matches Err(Error::Serialization(_)) <==> !param.spec_decimals_readable(),
            !(r matches Err(Error::Serialization(_))) ==> exists|req: Request|
                #[trigger] performed(client.transport, req, r) && req.method == Method::Delete
                    && req.path@ == item_path(client.paths, UrlPath::Subscriptions, id@) && req.query is None && (req.body matches Some(j) && param.encodes(j)),
    {
        let request = delete_request(&client.paths, UrlPath::Subscriptions, id, Some(param.to_json()));
        let r = client.execute(&request);
        assert(!(r matches Err(Error::Serialization(_))) ==> performed(
            client.transport,
            request,
            r,
        ));
        r
    }

    /// Lists one page of subscriptions.
    pub fn list<T: Transport>(client: &Client<T>, param: &SubscriptionParam) -> (r: Result<List<Subscription>, Error>)
        ensures
            !(r matches Err(Error::Serialization(_))),
            !(r matches Err(Error::Serialization(_))) ==> exists|req: Request|
                #[trigger] performed(client.transport, req, r) && req.method == Method::Get
                    && req.path == client.paths.spec_base(UrlPath::Subscriptions) && req.body is None && (req.query matches Some(j) && param.encodes(j)),
    {
        let request = list_request(&client.paths, UrlPath::Subscriptions, param.to_json());
        let r = client.execute(&request);
        assert(!(r matches Err(Error::Serialization(_))) ==> performed(
            client.transport,
            request,
            r,
        ));
        r
    }
}

/// An object of one member: the member it holds under `key` is its only one.
proof fn lemma_single_member(f: Seq<(String, Json)>, key: Seq<char>, v: Json)
    requires
        f.len() == 1,
        member(f, key) == Some(v),
    ensures
        f[0].0@ == key,
        f[0].1 == v,
{
    reveal_with_fuel(crate::json::member_from, 2);
}

/// Subscription parameters with only the customer set write the object
/// `{"customer": <id>}` and nothing else.
pub proof fn lemma_customer_only(p: SubscriptionParam, j: Json)
    requires
        p.encodes(j),
        p.customer is Some,
        p.application_fee_percent is None,
        p.coupon is None,
        p.items is None,
        p.metadata is None,
        p.source is None,
        p.tax_percent is None,
        p.trial_end is None,
        p.trial_period_days is None,
        p.prorate is None,
        p.proration_date is None,
        p.at_period_end is None,
        p.expand is None,
    ensures
        j matches Json::Object(f) && f@.len() == 1 && f@[0].0@ == "customer"@ && f@[0].1
            == Json::Str(p.customer->Some_0),
{
    if let Json::Object(f) = j {
        lemma_single_member(f@, "customer"@, Json::Str(p.customer->Some_0));
    }
}

/// An item with no quantity writes the object `{"plan": <plan>}` and
/// nothing else.
pub proof fn lemma_plan_only(p: ItemParam, j: Json)
    requires
        p.encodes(j),
        p.quantity is None,
    ensures
        j matches Json::Object(f) && f@.len() == 1 && f@[0].0@ == "plan"@ && f@[0].1 == Json::Str(
            p.plan,
        ),
{
    if let Json::Object(f) = j {
        lemma_single_member(f@, "plan"@, Json::Str(p.plan));
    }
}

} // verus!
