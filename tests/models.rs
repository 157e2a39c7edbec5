use yoomoney::client::authorization_code;
use yoomoney::envelope::{decode_envelope, resolve, Rsp, TokenExchangeData};
use yoomoney::error::ApiError;
use yoomoney::models::{
    AccessScope, CardsSource, MoneySources, ProcessPaymentError, ProcessPaymentResponse, ProcessPaymentSuccessData,
    ReqOperationType, RequestPaymentResponse, RequestPaymentSuccessData, UserId, WalletSource,
};
use yoomoney::params::Params;

fn request_data() -> RequestPaymentSuccessData {
    RequestPaymentSuccessData {
        balance: "1000.00".to_string(),
        request_id: "r1".to_string(),
        money_source: MoneySources {
            wallet: WalletSource { allowed: true },
            cards: CardsSource { allowed: false, csc_required: None, items: None },
        },
    }
}

fn process_data() -> ProcessPaymentSuccessData {
    ProcessPaymentSuccessData {
        payment_id: "pay-1".to_string(),
        balance: "1".to_string(),
        invoice_id: "i1".to_string(),
        payer: "a".to_string(),
        payee: "b".to_string(),
        credit_amount: "2".to_string(),
        hold_for_pickup_link: "l".to_string(),
        acs_uri: None,
        acs_params: None,
        digital_goods: "null".to_string(),
    }
}

#[test]
fn request_payment_outcomes() {
    match RequestPaymentResponse::Success(request_data()).into_result() {
        Ok((hold, d)) => {
            assert!(!hold);
            assert_eq!(d.request_id, "r1");
        }
        Err(_) => panic!("expected success"),
    }
    match RequestPaymentResponse::HoldForPickup(request_data()).into_result() {
        Ok((hold, d)) => {
            assert!(hold);
            assert_eq!(d.balance, "1000.00");
        }
        Err(_) => panic!("expected success"),
    }
    assert_eq!(
        RequestPaymentResponse::Refused { error: "not_enough_funds".to_string() }.into_result().err(),
        Some("not_enough_funds".to_string())
    );
}

#[test]
fn process_payment_outcomes() {
    assert_eq!(ProcessPaymentResponse::Success(process_data()).into_result().ok().map(|d| d.payment_id), Some("pay-1".to_string()));
    assert_eq!(
        ProcessPaymentResponse::Refused { error: "e".to_string() }.into_result().err(),
        Some(ProcessPaymentError::Refused { error: "e".to_string() })
    );
    assert_eq!(
        ProcessPaymentResponse::InProgress { next_retry: 5000 }.into_result().err(),
        Some(ProcessPaymentError::InProgress { next_retry: 5000 })
    );
    assert_eq!(ProcessPaymentResponse::ExtAuthRequired.into_result().err(), Some(ProcessPaymentError::ExtAuthRequired));
    assert_eq!(
        ProcessPaymentResponse::AccountBlocked { account_unblock_uri: "https://u".to_string() }.into_result().err(),
        Some(ProcessPaymentError::AccountBlocked { account_unblock_uri: "https://u".to_string() })
    );
}

#[test]
fn envelope_error_shape_first() {
    let r: Result<TokenExchangeData, ApiError> = resolve("{\"error\": \"invalid_request\"}");
    assert_eq!(r.err(), Some(ApiError::Remote("invalid_request".to_string())));
    let r: Result<TokenExchangeData, ApiError> = resolve("{\"error\": \"invalid_request\", \"access_token\": \"T\"}");
    assert_eq!(r.ok().map(|t| t.access_token), Some("T".to_string()));
    let r: Result<TokenExchangeData, ApiError> = resolve("{\"error\": 5}");
    assert!(matches!(r, Err(ApiError::Decode(_))));
    let r: Result<TokenExchangeData, ApiError> = resolve("{\"access_token\": \"T9\"}");
    assert_eq!(r.ok().map(|t| t.access_token), Some("T9".to_string()));
    let r: Result<TokenExchangeData, ApiError> = resolve("not json");
    assert!(matches!(r, Err(ApiError::Decode(_))));
    let r: Result<TokenExchangeData, ApiError> = resolve("{\"access_token\": 5}");
    assert!(matches!(r, Err(ApiError::Decode(_))));
    match decode_envelope::<TokenExchangeData>("{\"error\": \"x\"}") {
        Ok(Rsp::Error { error }) => assert_eq!(error, "x"),
        _ => panic!("expected error shape"),
    }
}

#[test]
fn rsp_into_result() {
    assert_eq!(Rsp::OK(3u8).into_result(), Ok(3u8));
    assert_eq!(Rsp::<u8>::Error { error: "boom".to_string() }.into_result(), Err(ApiError::Remote("boom".to_string())));
}

#[test]
fn wire_names() {
    assert_eq!(AccessScope::AccountInfo.token(), "account-info");
    assert_eq!(AccessScope::OperationHistory.token(), "operation-history");
    assert_eq!(AccessScope::PaymentP2P.token(), "payment-p2p");
    assert_eq!(ReqOperationType::Payment.token(), "\"payment\"");
    assert_eq!(UserId::Account(0).to_text(), "0");
    assert_eq!(UserId::Email("a@b.c".to_string()).to_text(), "a@b.c");
    assert_eq!(UserId::Phone("+79001234567".to_string()).to_text(), "+79001234567");
}

#[test]
fn params_insert_replaces() {
    let mut p = Params::new();
    p.insert("a", "1".to_string());
    p.insert("b", "2".to_string());
    p.insert("a", "3".to_string());
    assert_eq!(p.entries, vec![("a".to_string(), "3".to_string()), ("b".to_string(), "2".to_string())]);
}

#[test]
fn code_from_redirect_uri() {
    assert_eq!(authorization_code("https://x/callback?code=ABC"), Ok("ABC".to_string()));
    assert_eq!(authorization_code("https://x/cb?state=1&code=A%20B&code=Z"), Ok("A B".to_string()));
    assert!(matches!(authorization_code("https://x/cb?state=1"), Err(ApiError::Decode(_))));
    assert!(matches!(authorization_code("not a url"), Err(ApiError::Decode(_))));
}
