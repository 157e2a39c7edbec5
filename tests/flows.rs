use std::cell::RefCell;
use yoomoney::client::{Client, UnauthorizedClient};
use yoomoney::envelope::Payload;
use yoomoney::error::ApiError;
use yoomoney::history::{history_params, HistoryQuery, Timestamp};
use yoomoney::models::{AccessScope, ProcessPaymentMoneySource, ReqOperationType, RequestAmount, Secure3DData, UserId};
use yoomoney::params::Params;
use yoomoney::transport::Transport;

type Seen = (String, Vec<(String, String)>, Option<String>);

struct Scripted {
    replies: RefCell<Vec<Result<String, ApiError>>>,
    seen: RefCell<Vec<Seen>>,
}

impl Scripted {
    fn new(replies: Vec<Result<String, ApiError>>) -> Self {
        Scripted { replies: RefCell::new(replies), seen: RefCell::new(Vec::new()) }
    }
}

impl Transport for Scripted {
    fn call(&self, endpoint: &str, params: &Params, bearer: &Option<String>) -> Result<String, ApiError> {
        self.seen.borrow_mut().push((endpoint.to_string(), params.entries.clone(), bearer.clone()));
        let mut r = self.replies.borrow_mut();
        if r.is_empty() {
            panic!("no reply scripted for {endpoint}");
        }
        r.remove(0)
    }

    fn get_redirect(&self, endpoint: &str, params: &Params, bearer: &Option<String>) -> Result<String, ApiError> {
        self.call(endpoint, params, bearer)
    }
}

fn value_of(entries: &[(String, String)], key: &str) -> Option<String> {
    entries.iter().find(|(k, _)| k == key).map(|(_, v)| v.clone())
}

struct Shared(Scripted, std::rc::Rc<RefCell<Vec<Seen>>>);

impl Transport for Shared {
    fn call(&self, e: &str, p: &Params, b: &Option<String>) -> Result<String, ApiError> {
        self.1.borrow_mut().push((e.to_string(), p.entries.clone(), b.clone()));
        self.0.call(e, p, b)
    }

    fn get_redirect(&self, e: &str, p: &Params, b: &Option<String>) -> Result<String, ApiError> {
        self.call(e, p, b)
    }
}

#[derive(Debug, PartialEq)]
struct Rec(String);

impl Payload for Rec {
    fn decode(body: &str) -> Result<Self, String> {
        Ok(Rec(body.to_string()))
    }
}

fn all_types_query() -> HistoryQuery {
    HistoryQuery { operation_types: vec![], label: None, from: None, till: None, details: false }
}

#[test]
fn history_yields_records_of_all_pages_in_order() {
    let t = Scripted::new(vec![
        Ok("{\"operations\": [\"a\", \"b\"], \"next_record\": \"5\"}".to_string()),
        Ok("{\"operations\": [\"c\"], \"next_record\": null}".to_string()),
    ]);
    let client = Client::new(t, Some("tok".to_string()));
    let mut h = client.operation_history::<Rec>(vec![], None, None, None, 0, false);
    assert_eq!(h.next(), Some(Ok(Rec("\"a\"".to_string()))));
    assert_eq!(h.next(), Some(Ok(Rec("\"b\"".to_string()))));
    assert_eq!(h.next(), Some(Ok(Rec("\"c\"".to_string()))));
    assert_eq!(h.next(), None);
    assert_eq!(h.next(), None);
    let seen = client.caller.transport.seen.borrow();
    assert_eq!(seen.len(), 2);
    assert_eq!(seen[0].0, "api/operation-history");
    assert_eq!(value_of(&seen[0].1, "start-record"), Some("0".to_string()));
    assert_eq!(value_of(&seen[1].1, "start-record"), Some("5".to_string()));
    assert_eq!(seen[1].2, Some("tok".to_string()));
}

#[test]
fn history_empty_page_ends_even_with_cursor() {
    let t = Scripted::new(vec![Ok("{\"operations\": [], \"next_record\": \"7\"}".to_string())]);
    let client = Client::new(t, Some("tok".to_string()));
    let mut h = client.operation_history::<Rec>(vec![], None, None, None, 0, false);
    assert_eq!(h.next(), None);
    assert_eq!(h.next(), None);
    assert_eq!(client.caller.transport.seen.borrow().len(), 1);
}

#[test]
fn history_error_ends_listing() {
    let t = Scripted::new(vec![Ok("{\"error\": \"illegal_param_type\"}".to_string())]);
    let client = Client::new(t, None);
    let mut h = client.operation_history::<Rec>(vec![], None, None, None, 3, false);
    assert_eq!(h.next(), Some(Err(ApiError::Remote("illegal_param_type".to_string()))));
    assert_eq!(h.next(), None);
    assert_eq!(client.caller.transport.seen.borrow().len(), 1);
}

#[test]
fn history_bad_cursor_is_decode_error() {
    let t = Scripted::new(vec![Ok("{\"operations\": [\"a\"], \"next_record\": \"x5\"}".to_string())]);
    let client = Client::new(t, None);
    let mut h = client.operation_history::<Rec>(vec![], None, None, None, 0, false);
    assert!(matches!(h.next(), Some(Err(ApiError::Decode(_)))));
    assert_eq!(h.next(), None);
}

#[test]
fn history_numeric_cursor_is_decode_error() {
    let t = Scripted::new(vec![Ok("{\"operations\": [\"a\"], \"next_record\": 5}".to_string())]);
    let client = Client::new(t, None);
    let mut h = client.operation_history::<Rec>(vec![], None, None, None, 0, false);
    assert!(matches!(h.next(), Some(Err(ApiError::Decode(_)))));
    assert_eq!(h.next(), None);
}

#[test]
fn history_null_or_absent_cursor_ends_after_page() {
    let t = Scripted::new(vec![Ok("{\"operations\": [\"a\"]}".to_string())]);
    let client = Client::new(t, None);
    let mut h = client.operation_history::<Rec>(vec![], None, None, None, 0, false);
    assert_eq!(h.next(), Some(Ok(Rec("\"a\"".to_string()))));
    assert_eq!(h.next(), None);
    assert_eq!(client.caller.transport.seen.borrow().len(), 1);
}

#[test]
fn history_params_carry_filters() {
    let q = HistoryQuery {
        operation_types: vec![ReqOperationType::Deposition, ReqOperationType::IncomingTransfersUnaccepted],
        label: Some("L".to_string()),
        from: Timestamp::from_unix(1577836800, 0),
        till: None,
        details: true,
    };
    let p = history_params(&q, 42);
    assert_eq!(value_of(&p.entries, "types"), Some("\"deposition\" \"incoming-transfers-unaccepted\"".to_string()));
    assert_eq!(value_of(&p.entries, "label"), Some("L".to_string()));
    assert_eq!(value_of(&p.entries, "from"), Some("2020-01-01T00:00:00+00:00".to_string()));
    assert_eq!(value_of(&p.entries, "till"), None);
    assert_eq!(value_of(&p.entries, "details"), Some("true".to_string()));
    assert_eq!(value_of(&p.entries, "start-record"), Some("42".to_string()));
    assert_eq!(p.entries.len(), 5);
    let p = history_params(&all_types_query(), 18446744073709551615);
    assert_eq!(value_of(&p.entries, "types"), Some(String::new()));
    assert_eq!(value_of(&p.entries, "details"), Some("false".to_string()));
    assert_eq!(value_of(&p.entries, "start-record"), Some("18446744073709551615".to_string()));
}

#[test]
fn timestamps_are_written_in_rfc3339() {
    let t = Timestamp::from_unix(1431648000, 0).unwrap();
    assert_eq!(t.rfc3339, "2015-05-15T00:00:00+00:00");
    let t = Timestamp::from_unix(1431648000, 500_000_000).unwrap();
    assert_eq!(t.rfc3339, "2015-05-15T00:00:00.500+00:00");
    assert!(Timestamp::from_unix(i64::MAX, 0).is_none());
}

#[test]
fn authorize_exchanges_code_for_token() {
    let t = Scripted::new(vec![
        Ok("https://x/callback?code=ABC".to_string()),
        Ok("{\"access_token\":\"T1\"}".to_string()),
    ]);
    let tok = UnauthorizedClient::new(t, "cid".to_string(), "https://x/callback".to_string());
    let seen_uri = RefCell::new(String::new());
    let r = tok.authorize(vec![AccessScope::AccountInfo, AccessScope::PaymentP2P], |u: String| {
        *seen_uri.borrow_mut() = u;
        Ok("ABC".to_string())
    });
    assert_eq!(r, Ok("T1".to_string()));
    assert_eq!(*seen_uri.borrow(), "https://x/callback?code=ABC");
}

#[test]
fn authorize_sends_expected_parameters() {
    let t = Scripted::new(vec![
        Ok("https://x/callback?code=ABC".to_string()),
        Ok("{\"access_token\":\"T1\"}".to_string()),
    ]);
    let seen = std::rc::Rc::new(RefCell::new(Vec::new()));
    let c = UnauthorizedClient::new(Shared(t, seen.clone()), "cid".to_string(), "https://x/cb".to_string());
    let r = c.authorize(vec![AccessScope::AccountInfo, AccessScope::OperationHistory], |_u: String| Ok("ABC".to_string()));
    assert_eq!(r, Ok("T1".to_string()));
    let seen = seen.borrow();
    assert_eq!(seen.len(), 2);
    assert_eq!(seen[0].0, "oauth/authorize");
    assert_eq!(value_of(&seen[0].1, "client_id"), Some("cid".to_string()));
    assert_eq!(value_of(&seen[0].1, "response_type"), Some("code".to_string()));
    assert_eq!(value_of(&seen[0].1, "redirect_uri"), Some("https://x/cb".to_string()));
    assert_eq!(value_of(&seen[0].1, "scope"), Some("account-info operation-history".to_string()));
    assert_eq!(value_of(&seen[0].1, "instance_name").map(|s| s.len()), Some(36));
    assert_eq!(seen[1].0, "oauth/token");
    assert_eq!(value_of(&seen[1].1, "code"), Some("ABC".to_string()));
    assert_eq!(value_of(&seen[1].1, "grant_type"), Some("authorization_code".to_string()));
    assert_eq!(value_of(&seen[1].1, "client_id"), Some("cid".to_string()));
    assert_eq!(value_of(&seen[1].1, "redirect_uri"), Some("https://x/cb".to_string()));
}

#[test]
fn authorize_stops_when_callback_fails() {
    let t = Scripted::new(vec![Ok("https://x/callback?code=ABC".to_string())]);
    let seen = std::rc::Rc::new(RefCell::new(Vec::new()));
    let c = UnauthorizedClient::new(Shared(t, seen.clone()), "cid".to_string(), "https://x/cb".to_string());
    let r = c.authorize(vec![AccessScope::AccountInfo], |_u: String| Err(ApiError::Decode("no code".to_string())));
    assert_eq!(r, Err(ApiError::Decode("no code".to_string())));
    let seen = seen.borrow();
    assert_eq!(seen.len(), 1);
    assert_eq!(seen[0].0, "oauth/authorize");
}

#[test]
fn authorize_reports_remote_error_of_exchange() {
    let t = Scripted::new(vec![
        Ok("https://x/callback?code=ABC".to_string()),
        Ok("{\"error\":\"invalid_grant\"}".to_string()),
    ]);
    let c = UnauthorizedClient::new(t, "cid".to_string(), "https://x/cb".to_string());
    let r = c.authorize(vec![AccessScope::AccountInfo], |_u: String| Ok("ABC".to_string()));
    assert_eq!(r, Err(ApiError::Remote("invalid_grant".to_string())));
}

#[test]
fn authorize_fails_on_redirect_failure() {
    let t = Scripted::new(vec![Err(ApiError::UnexpectedStatus { status: 200, body: String::new() })]);
    let c = UnauthorizedClient::new(t, "cid".to_string(), "https://x/cb".to_string());
    let r = c.authorize(vec![AccessScope::AccountInfo], |_u: String| Ok("ABC".to_string()));
    assert_eq!(r, Err(ApiError::UnexpectedStatus { status: 200, body: String::new() }));
}

#[test]
fn revoke_ignores_body_and_keeps_failures() {
    let c = Client::new(Scripted::new(vec![Ok("[1, {\"a\": null}]".to_string())]), Some("tok".to_string()));
    assert_eq!(c.revoke_token(), Ok(()));
    let c = Client::new(Scripted::new(vec![Err(ApiError::Network("timeout".to_string()))]), Some("tok".to_string()));
    assert_eq!(c.revoke_token(), Err(ApiError::Network("timeout".to_string())));
    let c = Client::new(Scripted::new(vec![Err(ApiError::UnexpectedStatus { status: 401, body: "x".to_string() })]), None);
    assert_eq!(c.revoke_token(), Err(ApiError::UnexpectedStatus { status: 401, body: "x".to_string() }));
}

#[test]
fn transfer_parameters() {
    let c = Client::new(Scripted::new(vec![]), Some("tok".to_string()));
    let r = c.request_transfer(
        UserId::Account(4100123),
        RequestAmount::Net("10.50".to_string()),
        "c".to_string(),
        "m".to_string(),
        Some("lbl".to_string()),
        false,
        true,
        7,
    );
    let e = &r.params.entries;
    assert_eq!(value_of(e, "pattern_id"), Some("p2p".to_string()));
    assert_eq!(value_of(e, "to"), Some("4100123".to_string()));
    assert_eq!(value_of(e, "amount_due"), Some("10.50".to_string()));
    assert_eq!(value_of(e, "amount"), None);
    assert_eq!(value_of(e, "codepro"), Some("false".to_string()));
    assert_eq!(value_of(e, "hold_for_pickup"), Some("true".to_string()));
    assert_eq!(value_of(e, "expire_period"), Some("7".to_string()));
    assert_eq!(value_of(e, "label"), Some("lbl".to_string()));
    assert_eq!(e.len(), 9);
}

#[test]
fn shop_payment_parameters_override_in_order() {
    let c = Client::new(Scripted::new(vec![]), None);
    let r = c.request_shop_payment(
        "shop1".to_string(),
        vec![("sum".to_string(), "1".to_string()), ("sum".to_string(), "2".to_string()), ("pattern_id".to_string(), "shop2".to_string())],
    );
    assert_eq!(value_of(&r.params.entries, "sum"), Some("2".to_string()));
    assert_eq!(value_of(&r.params.entries, "pattern_id"), Some("shop2".to_string()));
    assert_eq!(r.params.entries.len(), 2);
}

#[test]
fn mobile_and_test_payment_request() {
    let t = Scripted::new(vec![Ok("{\"status\": \"refused\", \"error\": \"limit_exceeded\"}".to_string())]);
    let c = Client::new(t, Some("tok".to_string()));
    let r = c.request_mobile_payment("+79231234567".to_string(), "100".to_string());
    assert_eq!(value_of(&r.params.entries, "phone-number"), Some("+79231234567".to_string()));
    assert_eq!(value_of(&r.params.entries, "pattern_id"), Some("phone-topup".to_string()));
    let sent = yoomoney::client::TestPaymentRequest::from(r).send::<Rec>();
    assert_eq!(sent, Ok(Rec("{\"status\": \"refused\", \"error\": \"limit_exceeded\"}".to_string())));
    let seen = c.caller.transport.seen.borrow();
    assert_eq!(seen[0].0, "api/request-payment");
    assert_eq!(value_of(&seen[0].1, "test_payment"), Some("true".to_string()));
}

#[test]
fn process_payment_parameters() {
    let t = Scripted::new(vec![Ok("{\"status\": \"success\"}".to_string())]);
    let c = Client::new(t, Some("tok".to_string()));
    let src = ProcessPaymentMoneySource::Card {
        id: "card-1".to_string(),
        secure3d: Some(Secure3DData { ext_auth_success_uri: "s".to_string(), ext_auth_fail_uri: "f".to_string() }),
    };
    let r = c.process_payment::<Rec>("req".to_string(), src);
    assert_eq!(r, Ok(Rec("{\"status\": \"success\"}".to_string())));
    let seen = c.caller.transport.seen.borrow();
    assert_eq!(seen[0].0, "api/process-payment");
    assert_eq!(value_of(&seen[0].1, "request_id"), Some("req".to_string()));
    assert_eq!(value_of(&seen[0].1, "money_source"), Some("card-1".to_string()));
    assert_eq!(value_of(&seen[0].1, "ext_auth_success_uri"), Some("s".to_string()));
    assert_eq!(value_of(&seen[0].1, "ext_auth_fail_uri"), Some("f".to_string()));
    drop(seen);
    let t = Scripted::new(vec![Ok("{}".to_string())]);
    let c = Client::new(t, None);
    let _ = c.process_payment::<Rec>("req".to_string(), ProcessPaymentMoneySource::Wallet);
    assert_eq!(value_of(&c.caller.transport.seen.borrow()[0].1, "money_source"), Some("wallet".to_string()));
}

#[test]
fn account_info_and_details_resolve_payload() {
    let t = Scripted::new(vec![Ok("{\"account\": \"4100\"}".to_string()), Ok("{\"error\": \"illegal_param_operation_id\"}".to_string())]);
    let c = Client::new(t, Some("tok".to_string()));
    assert_eq!(c.account_info::<Rec>(), Ok(Rec("{\"account\": \"4100\"}".to_string())));
    assert_eq!(c.operation_details::<Rec>("op".to_string()), Err(ApiError::Remote("illegal_param_operation_id".to_string())));
    let seen = c.caller.transport.seen.borrow();
    assert_eq!(seen[0].0, "api/account-info");
    assert!(seen[0].1.is_empty());
    assert_eq!(value_of(&seen[1].1, "operation_id"), Some("op".to_string()));
}
