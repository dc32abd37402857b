use billing_client::client::{
    build_path, create_request, read_response, retrieve_request, Client, Method, PathTable,
    Request, Response, Transport, UrlPath,
};
use billing_client::error::Error;
use billing_client::json::Json;
use billing_client::subscriptions::{
    ItemParam, Subscription, SubscriptionItemParam, SubscriptionItems, SubscriptionParam,
};
use billing_client::wire::{parse_json, write_json};
use std::cell::RefCell;

fn paths() -> PathTable {
    PathTable {
        subscriptions: "/v1/subscriptions".to_string(),
        subscription_items: "/v1/subscription_items".to_string(),
    }
}

struct Recorder {
    status: u16,
    reply: String,
    sent: RefCell<Vec<(Method, String, bool, Option<Vec<u8>>)>>,
}

impl Transport for Recorder {
    fn send(&self, request: &Request, body: &Option<Vec<u8>>) -> Result<Response, String> {
        self.sent.borrow_mut().push((
            request.method,
            request.path.clone(),
            request.query.is_some(),
            body.clone(),
        ));
        Ok(Response { status: self.status, body: self.reply.clone().into_bytes() })
    }
}

struct Down;

impl Transport for Down {
    fn send(&self, _request: &Request, _body: &Option<Vec<u8>>) -> Result<Response, String> {
        Err("connection refused".to_string())
    }
}

const SUBSCRIPTION: &str = r#"{"id":"sub_123","object":"subscription","billing":"send_invoice","billing_cycle_anchor":1,"cancel_at_period_end":true,"created":1,"current_period_end":2,"current_period_start":1,"customer":{"id":"cus_1","object":"customer"},"items":{"object":"list","data":[],"has_more":false,"url":"/v1/subscription_items"},"livemode":true,"latest_invoice":"in_1","metadata":{},"plan":{"id":"plan_abc"},"quantity":3,"schedule":"sub_sched_1","start":1,"status":"trialing"}"#;

fn text(bytes: Option<Vec<u8>>) -> String {
    String::from_utf8(bytes.expect("writable")).unwrap()
}

#[test]
fn customer_only_body() {
    let p = SubscriptionParam { customer: Some("cus_42".to_string()), ..Default::default() };
    assert_eq!(text(write_json(&p.to_json())), r#"{"customer":"cus_42"}"#);
}

#[test]
fn unset_parameters_write_empty_object() {
    assert_eq!(text(write_json(&SubscriptionParam::default().to_json())), "{}");
    assert_eq!(text(write_json(&SubscriptionItemParam::default().to_json())), "{}");
}

#[test]
fn set_parameters_are_written() {
    let p = SubscriptionParam {
        customer: Some("cus_1".to_string()),
        tax_percent: Some("8.5".to_string()),
        items: Some(vec![ItemParam { plan: "plan_abc".to_string(), quantity: Some(2) }]),
        expand: Some(vec!["customer".to_string()]),
        at_period_end: Some(true),
        ..Default::default()
    };
    let written = text(write_json(&p.to_json()));
    let back = parse_json(written.as_bytes()).unwrap();
    assert!(matches!(back.get("tax_percent"), Some(Json::Decimal(t)) if t == "8.5"));
    assert!(matches!(back.get("at_period_end"), Some(Json::Bool(true))));
    assert!(back.get("coupon").is_none());
    match back.get("items") {
        Some(Json::Array(items)) => {
            assert_eq!(items.len(), 1);
            assert!(matches!(items[0].get("quantity"), Some(Json::Int(2))));
        },
        other => panic!("unexpected {:?}", other),
    }
}

#[test]
fn item_param_plan_only() {
    let p = ItemParam { plan: "plan_abc".to_string(), quantity: None };
    assert_eq!(text(write_json(&p.to_json())), r#"{"plan":"plan_abc"}"#);
    let r = create_request(&paths(), UrlPath::SubscriptionItems, p.to_json());
    assert_eq!(r.method, Method::Post);
    assert_eq!(r.path, "/v1/subscription_items");
    assert_eq!(text(write_json(r.body.as_ref().unwrap())), r#"{"plan":"plan_abc"}"#);
}

#[test]
fn unwritable_decimal_is_a_serialization_error() {
    let p = SubscriptionParam { tax_percent: Some("lots".to_string()), ..Default::default() };
    assert!(write_json(&p.to_json()).is_none());
    let client = Client {
        paths: paths(),
        transport: Recorder { status: 200, reply: SUBSCRIPTION.to_string(), sent: RefCell::new(vec![]) },
    };
    let r = Subscription::create(&client, &p);
    assert!(matches!(r, Err(Error::Serialization(_))));
    assert!(client.transport.sent.borrow().is_empty());
}

#[test]
fn retrieve_gets_item_path() {
    let client = Client {
        paths: paths(),
        transport: Recorder { status: 200, reply: SUBSCRIPTION.to_string(), sent: RefCell::new(vec![]) },
    };
    let s = Subscription::retrieve(&client, "sub_123").unwrap();
    assert_eq!(s.id, "sub_123");
    assert_eq!(s.quantity, 3);
    let sent = client.transport.sent.borrow();
    assert_eq!(sent.len(), 1);
    assert_eq!(sent[0].0, Method::Get);
    assert_eq!(sent[0].1, "/v1/subscriptions/sub_123");
    assert!(!sent[0].2);
    assert!(sent[0].3.is_none());
}

#[test]
fn retrieve_request_has_no_body() {
    let r = retrieve_request(&paths(), UrlPath::Subscriptions, "sub_123");
    assert_eq!(r.method, Method::Get);
    assert_eq!(r.path, "/v1/subscriptions/sub_123");
    assert!(r.body.is_none() && r.query.is_none());
}

#[test]
fn create_posts_body_to_collection() {
    let client = Client {
        paths: paths(),
        transport: Recorder { status: 200, reply: SUBSCRIPTION.to_string(), sent: RefCell::new(vec![]) },
    };
    let p = SubscriptionParam { customer: Some("cus_1".to_string()), ..Default::default() };
    assert!(Subscription::create(&client, &p).is_ok());
    let sent = client.transport.sent.borrow();
    assert_eq!(sent[0].0, Method::Post);
    assert_eq!(sent[0].1, "/v1/subscriptions");
    assert_eq!(text(sent[0].3.clone()), r#"{"customer":"cus_1"}"#);
}

#[test]
fn cancel_deletes_with_body() {
    let client = Client {
        paths: paths(),
        transport: Recorder { status: 200, reply: SUBSCRIPTION.to_string(), sent: RefCell::new(vec![]) },
    };
    let p = SubscriptionParam { at_period_end: Some(true), ..Default::default() };
    assert!(Subscription::cancel(&client, "sub_9", &p).is_ok());
    let sent = client.transport.sent.borrow();
    assert_eq!(sent[0].0, Method::Delete);
    assert_eq!(sent[0].1, "/v1/subscriptions/sub_9");
    assert_eq!(text(sent[0].3.clone()), r#"{"at_period_end":true}"#);
}

#[test]
fn list_sends_query() {
    let client = Client {
        paths: paths(),
        transport: Recorder {
            status: 200,
            reply: r#"{"object":"list","data":[],"has_more":false,"url":"/v1/subscription_items"}"#.to_string(),
            sent: RefCell::new(vec![]),
        },
    };
    let page = SubscriptionItems::list(&client, &SubscriptionItemParam::default()).unwrap();
    assert_eq!(page.len(), 0);
    let sent = client.transport.sent.borrow();
    assert_eq!(sent[0].0, Method::Get);
    assert_eq!(sent[0].1, "/v1/subscription_items");
    assert!(sent[0].2);
    assert!(sent[0].3.is_none());
}

#[test]
fn not_found_is_an_api_error() {
    let body = parse_json(
        br#"{"error":{"type":"invalid_request_error","message":"No such subscription"}}"#,
    );
    match read_response::<Subscription>(404, body) {
        Err(Error::Api(e)) => {
            assert_eq!(e.status, 404);
            assert_eq!(e.kind, "invalid_request_error");
            assert_eq!(e.message, "No such subscription");
            assert!(e.code.is_none());
            assert!(e.param.is_none());
        },
        other => panic!("unexpected {:?}", other),
    }
}

#[test]
fn api_error_through_client() {
    let client = Client {
        paths: paths(),
        transport: Recorder {
            status: 400,
            reply: r#"{"error":{"type":"invalid_request_error","message":"Bad plan","code":"resource_missing","param":"plan"}}"#.to_string(),
            sent: RefCell::new(vec![]),
        },
    };
    match SubscriptionItems::retrieve(&client, "si_1") {
        Err(Error::Api(e)) => {
            assert_eq!(e.status, 400);
            assert_eq!(e.code.as_deref(), Some("resource_missing"));
            assert_eq!(e.param.as_deref(), Some("plan"));
        },
        other => panic!("unexpected {:?}", other),
    }
}

#[test]
fn error_status_without_payload_keeps_status() {
    match read_response::<Subscription>(502, parse_json(b"not json")) {
        Err(Error::Api(e)) => {
            assert_eq!(e.status, 502);
            assert_eq!(e.kind, "");
        },
        other => panic!("unexpected {:?}", other),
    }
}

#[test]
fn success_with_bad_body_is_a_mismatch() {
    let r = read_response::<Subscription>(200, parse_json(br#"{"foo":"bar"}"#));
    match r {
        Err(Error::SchemaMismatch(e)) => assert_eq!(e.field, "id"),
        other => panic!("unexpected {:?}", other),
    }
    assert!(matches!(read_response::<Json>(200, parse_json(b"")), Err(Error::SchemaMismatch(_))));
}

#[test]
fn transport_failure_is_surfaced() {
    let client = Client { paths: paths(), transport: Down };
    match Subscription::retrieve(&client, "sub_1") {
        Err(Error::Transport(t)) => assert_eq!(t, "connection refused"),
        other => panic!("unexpected {:?}", other),
    }
}

#[test]
fn path_segments_are_joined() {
    let base = "/v1/subscriptions".to_string();
    assert_eq!(build_path(&base, &vec![]), "/v1/subscriptions");
    assert_eq!(build_path(&base, &vec!["sub_1", "items"]), "/v1/subscriptions/sub_1/items");
}

#[test]
fn parse_reads_numbers_and_nesting() {
    assert!(parse_json(b"").is_none());
    assert!(parse_json(b"{").is_none());
    let j = parse_json(br#"{"a":[1,-2,3.25,null,true,"x"],"b":{"c":18446744073709551615}}"#).unwrap();
    match j.get("a") {
        Some(Json::Array(items)) => {
            assert!(matches!(items[0], Json::Int(1)));
            assert!(matches!(items[1], Json::Int(-2)));
            assert!(matches!(items[2], Json::Decimal(ref t) if t == "3.25"));
            assert!(matches!(items[3], Json::Null));
            assert!(matches!(items[4], Json::Bool(true)));
            assert!(matches!(items[5], Json::Str(ref s) if s == "x"));
        },
        other => panic!("unexpected {:?}", other),
    }
    let b = j.get("b").unwrap();
    assert!(matches!(b.get("c"), Some(Json::Decimal(t)) if t == "18446744073709551615"));
    assert!(j.get("zzz").is_none());
}

#[test]
fn written_text_round_trips() {
    let j = Json::Object(vec![
        ("n".to_string(), Json::Int(-5)),
        ("s".to_string(), Json::Str("hi \"there\"".to_string())),
        ("l".to_string(), Json::Array(vec![Json::Null, Json::Bool(false)])),
    ]);
    let bytes = write_json(&j).unwrap();
    assert_ne!(bytes.len(), 0);
    let back = parse_json(&bytes).unwrap();
    assert!(matches!(back.get("n"), Some(Json::Int(-5))));
    assert!(matches!(back.get("s"), Some(Json::Str(s)) if s == "hi \"there\""));
}

#[test]
fn retrieve_with_bad_body_names_id() {
    let client = Client {
        paths: paths(),
        transport: Recorder { status: 200, reply: r#"{"foo":"bar"}"#.to_string(), sent: RefCell::new(vec![]) },
    };
    match SubscriptionItems::retrieve(&client, "si_123") {
        Err(Error::SchemaMismatch(e)) => {
            assert_eq!(e.field, "id");
            assert_eq!(e.resource, "subscription_item");
        },
        other => panic!("unexpected {:?}", other),
    }
    assert_eq!(client.transport.sent.borrow().len(), 1);
}

#[test]
fn list_with_bad_element_names_path() {
    let client = Client {
        paths: paths(),
        transport: Recorder {
            status: 200,
            reply: r#"{"object":"list","data":[{"id":"sub_1"}],"has_more":false}"#.to_string(),
            sent: RefCell::new(vec![]),
        },
    };
    match Subscription::list(&client, &SubscriptionParam::default()) {
        Err(Error::SchemaMismatch(e)) => {
            assert_eq!(e.resource, "list");
            assert_eq!(e.field, "data.object");
        },
        other => panic!("unexpected {:?}", other),
    }
}

#[test]
fn bad_fee_text_is_a_serialization_error() {
    let client = Client {
        paths: paths(),
        transport: Recorder { status: 200, reply: SUBSCRIPTION.to_string(), sent: RefCell::new(vec![]) },
    };
    let p = SubscriptionParam { application_fee_percent: Some("ten".to_string()), ..Default::default() };
    assert!(matches!(Subscription::update(&client, "sub_1", &p), Err(Error::Serialization(_))));
    assert!(matches!(Subscription::cancel(&client, "sub_1", &p), Err(Error::Serialization(_))));
    assert!(client.transport.sent.borrow().is_empty());
    let good = SubscriptionParam { application_fee_percent: Some("10.5".to_string()), ..Default::default() };
    assert!(Subscription::update(&client, "sub_1", &good).is_ok());
    assert_eq!(client.transport.sent.borrow().len(), 1);
}
