use billing_client::decode::Decode;
use billing_client::error::Error;
use billing_client::expandable::Expandable;
use billing_client::json::Json;
use billing_client::list::List;
use billing_client::subscriptions::{
    BillingThresholds, Subscription, SubscriptionBilling, SubscriptionItems, SubscriptionStatus,
};
use billing_client::wire::parse_json;

fn json(text: &str) -> Json {
    parse_json(text.as_bytes()).expect("valid JSON text")
}

fn subscription_text(id_member: &str) -> String {
    format!(
        r#"{{{}"object":"subscription","application_fee_percent":null,"billing":"charge_automatically","billing_cycle_anchor":1546300800,"billing_thresholds":null,"cancel_at_period_end":false,"canceled_at":null,"created":1546300800,"current_period_end":1548979200,"current_period_start":1546300800,"customer":"cus_1","days_until_due":null,"default_payment_method":null,"default_source":null,"discount":null,"ended_at":null,"items":{{"object":"list","data":[{{"id":"si_1","object":"subscription_item","billing_thresholds":null,"created":1546300800,"metadata":{{}},"plan":{{"id":"plan_abc"}},"quantity":1,"subscription":"sub_123"}}],"has_more":false,"url":"/v1/subscription_items?subscription=sub_123"}},"livemode":false,"latest_invoice":"in_1","metadata":{{"team":"billing"}},"plan":{{"id":"plan_abc"}},"quantity":1,"schedule":"sub_sched_1","start":1546300800,"status":"active","tax_percent":8.5,"trial_end":null,"trial_start":null}}"#,
        id_member
    )
}

#[test]
fn string_decodes_as_identifier() {
    match Expandable::<Json>::decode(json(r#""cus_1""#)) {
        Ok(Expandable::Identifier(s)) => assert_eq!(s, "cus_1"),
        other => panic!("unexpected {:?}", other),
    }
    match Expandable::<BillingThresholds>::decode(json(r#""bt_9""#)) {
        Ok(Expandable::Identifier(s)) => assert_eq!(s, "bt_9"),
        other => panic!("unexpected {:?}", other),
    }
}

#[test]
fn object_decodes_as_embedded_resource() {
    let text = r#"{"amount_gte":100,"reset_billing_cycle_anchor":true}"#;
    let direct = BillingThresholds::decode(json(text)).unwrap();
    match Expandable::<BillingThresholds>::decode(json(text)) {
        Ok(Expandable::Object(t)) => {
            assert_eq!(t.amount_gte, direct.amount_gte);
            assert_eq!(t.reset_billing_cycle_anchor, direct.reset_billing_cycle_anchor);
            assert_eq!(t.amount_gte, 100);
            assert!(t.reset_billing_cycle_anchor);
        },
        other => panic!("unexpected {:?}", other),
    }
}

#[test]
fn mismatched_object_is_not_an_expandable() {
    let r = Expandable::<BillingThresholds>::decode(json(r#"{"amount_gte":"many"}"#));
    let e = r.unwrap_err();
    assert_eq!(e.resource, "billing_thresholds");
    assert_eq!(e.field, "amount_gte");
    assert!(Expandable::<BillingThresholds>::decode(json("17")).is_err());
}

#[test]
fn empty_page_decodes_to_empty_sequence() {
    let page = List::<Subscription>::decode(json(
        r#"{"object":"list","data":[],"has_more":false,"url":"/v1/subscriptions"}"#,
    ))
    .unwrap();
    assert_eq!(page.len(), 0);
    assert!(page.data.is_empty());
    assert!(!page.has_more);
    assert_eq!(page.url.as_deref(), Some("/v1/subscriptions"));
    let mut seen = 0;
    for _ in page.data.iter() {
        seen += 1;
    }
    assert_eq!(seen, 0);
}

#[test]
fn page_keeps_server_order() {
    let page = List::<BillingThresholds>::decode(json(
        r#"{"data":[{"amount_gte":3,"reset_billing_cycle_anchor":false},{"amount_gte":1,"reset_billing_cycle_anchor":true}],"has_more":true}"#,
    ))
    .unwrap();
    assert_eq!(page.len(), 2);
    assert_eq!(page.data[0].amount_gte, 3);
    assert_eq!(page.data[1].amount_gte, 1);
    assert!(page.has_more);
    assert!(page.url.is_none());
}

#[test]
fn page_without_data_array_fails() {
    let e = List::<Json>::decode(json(r#"{"data":{},"has_more":false}"#)).unwrap_err();
    assert_eq!(e.resource, "list");
    assert!(List::<Json>::decode(json(r#"{"data":[]}"#)).is_err());
}

#[test]
fn bad_page_element_names_data() {
    let e = List::<BillingThresholds>::decode(json(r#"{"data":[{"amount_gte":1}],"has_more":false}"#))
        .unwrap_err();
    assert_eq!(e.resource, "list");
    assert_eq!(e.field, "data.reset_billing_cycle_anchor");
}

#[test]
fn subscription_decodes() {
    let s = Subscription::decode(json(&subscription_text(r#""id":"sub_123","#))).unwrap();
    assert_eq!(s.id, "sub_123");
    assert_eq!(s.object, "subscription");
    assert_eq!(s.billing, SubscriptionBilling::ChargeAutomatically);
    assert_eq!(s.status, SubscriptionStatus::Active);
    assert_eq!(s.current_period_end, 1548979200);
    assert!(s.canceled_at.is_none());
    assert!(matches!(s.customer, Expandable::Identifier(ref c) if c == "cus_1"));
    assert!(s.latest_invoice.is_identifier());
    assert!(s.default_source.is_none());
    assert_eq!(s.items.len(), 1);
    assert_eq!(s.items.data[0].id, "si_1");
    assert_eq!(s.items.data[0].subscription, "sub_123");
    assert_eq!(s.metadata, vec![("team".to_string(), "billing".to_string())]);
    assert!(matches!(s.tax_percent, Some(Json::Decimal(ref t)) if t == "8.5"));
    assert_eq!(s.schedule, "sub_sched_1");
}

#[test]
fn missing_id_names_id() {
    let e = Subscription::decode(json(r#"{"foo":"bar"}"#)).unwrap_err();
    assert_eq!(e.field, "id");
    assert_eq!(e.resource, "subscription");
}

#[test]
fn not_an_object_names_no_field() {
    let e = Subscription::decode(json("[1,2]")).unwrap_err();
    assert_eq!(e.field, "");
}

#[test]
fn nested_mismatch_gives_field_path() {
    let text = subscription_text(r#""id":"sub_123","#).replace(r#""quantity":1,"subscription""#, r#""quantity":"one","subscription""#);
    let e = Subscription::decode(json(&text)).unwrap_err();
    assert_eq!(e.field, "items.data.quantity");
}

#[test]
fn unknown_status_is_refused() {
    assert_eq!(SubscriptionStatus::decode(json(r#""past_due""#)).unwrap(), SubscriptionStatus::PastDue);
    assert_eq!(
        SubscriptionStatus::decode(json(r#""incomplete_expired""#)).unwrap(),
        SubscriptionStatus::IncompleteExpired
    );
    assert!(SubscriptionStatus::decode(json(r#""paused""#)).is_err());
    assert_eq!(SubscriptionBilling::decode(json(r#""send_invoice""#)).unwrap(), SubscriptionBilling::SendInvoice);
    assert!(SubscriptionBilling::decode(json(r#""sometimes""#)).is_err());
}

#[test]
fn subscription_item_decodes() {
    let item = SubscriptionItems::decode(json(
        r#"{"id":"si_1","object":"subscription_item","billing_thresholds":{"amount_gte":5,"reset_billing_cycle_anchor":false},"created":7,"metadata":{"a":"b"},"plan":{"id":"plan_abc"},"quantity":2,"subscription":"sub_1"}"#,
    ))
    .unwrap();
    assert_eq!(item.quantity, 2);
    assert_eq!(item.billing_thresholds.unwrap().amount_gte, 5);
    assert!(matches!(item.plan.get("id"), Some(Json::Str(p)) if p == "plan_abc"));
    let e = SubscriptionItems::decode(json(
        r#"{"id":"si_1","object":"subscription_item","created":7,"metadata":{"a":1},"plan":{},"quantity":2,"subscription":"sub_1"}"#,
    ))
    .unwrap_err();
    assert_eq!(e.field, "metadata");
}

#[test]
fn error_kind_is_kept() {
    let e = Error::Transport("connection reset".to_string());
    assert!(matches!(e, Error::Transport(ref t) if t == "connection reset"));
}

#[test]
fn customer_of_wrong_kind_names_customer() {
    let text = subscription_text(r#""id":"sub_123","#).replace(r#""customer":"cus_1""#, r#""customer":17"#);
    let e = Subscription::decode(json(&text)).unwrap_err();
    assert_eq!(e.resource, "subscription");
    assert_eq!(e.field, "customer");
}

#[test]
fn unknown_status_names_status() {
    let text = subscription_text(r#""id":"sub_123","#).replace(r#""status":"active""#, r#""status":"paused""#);
    let e = Subscription::decode(json(&text)).unwrap_err();
    assert_eq!(e.field, "status");
}

#[test]
fn missing_created_names_created() {
    let text = subscription_text(r#""id":"sub_123","#).replace(r#""created":1546300800,"current_period_end""#, r#""current_period_end""#);
    let e = Subscription::decode(json(&text)).unwrap_err();
    assert_eq!(e.field, "created");
}

#[test]
fn expanded_customer_is_embedded() {
    let text = subscription_text(r#""id":"sub_123","#).replace(r#""customer":"cus_1""#, r#""customer":{"id":"cus_1","object":"customer"}"#);
    let s = Subscription::decode(json(&text)).unwrap();
    match s.customer {
        Expandable::Object(c) => assert!(matches!(c.get("id"), Some(Json::Str(id)) if id == "cus_1")),
        other => panic!("unexpected {:?}", other),
    }
}
