use vstd::prelude::*;

verus! {

/// A permission that an access token may be granted.
#[derive(Clone, Copy, Debug, PartialEq, Eq, Structural, Hash)]
pub enum AccessScope {
    AccountInfo,
    OperationHistory,
    PaymentP2P,
}

pub open spec fn scope_token(s: AccessScope) -> Seq<char> {
    match s {
        AccessScope::AccountInfo => "account-info"@,
        AccessScope::OperationHistory => "operation-history"@,
        AccessScope::PaymentP2P => "payment-p2p"@,
    }
}

impl AccessScope {
    /// The scope's name on the wire.
    pub fn token(&self) -> (r: &'static str)
        ensures
            r@ == scope_token(*self),
    {
        match self {
            AccessScope::AccountInfo => "account-info",
            AccessScope::OperationHistory => "operation-history",
            AccessScope::PaymentP2P => "payment-p2p",
        }
    }
}

/// A kind of operation that the history can be filtered by.
#[derive(Clone, Copy, Debug, PartialEq, Eq, Structural, Hash)]
pub enum ReqOperationType {
    Deposition,
    Payment,
    IncomingTransfersUnaccepted,
}

pub open spec fn operation_type_token(t: ReqOperationType) -> Seq<char> {
    match t {
        ReqOperationType::Deposition => "\"deposition\""@,
        ReqOperationType::Payment => "\"payment\""@,
        ReqOperationType::IncomingTransfersUnaccepted => "\"incoming-transfers-unaccepted\""@,
    }
}

impl ReqOperationType {
    /// The type's name as a JSON string, as the history filter carries it.
    pub fn token(&self) -> (r: &'static str)
        ensures
            r@ == operation_type_token(*self),
    {
        match self {
            ReqOperationType::Deposition => "\"deposition\"",
            ReqOperationType::Payment => "\"payment\"",
            ReqOperationType::IncomingTransfersUnaccepted => "\"incoming-transfers-unaccepted\"",
        }
    }
}

/// The recipient of a transfer.
#[derive(Clone, Debug)]
pub enum UserId {
    Account(u64),
    /// A phone number in international format.
    Phone(String),
    Email(String),
}

/// The amount of a transfer, as decimal text.
#[derive(Clone, Debug)]
pub enum RequestAmount {
    /// What the payer is charged.
    Total(String),
    /// What the recipient receives.
    Net(String),
}

#[derive(Clone, Copy, Debug, PartialEq, Eq, Structural)]
pub enum CardType {
    VISA,
    MasterCard,
    AmericanExpress,
    JCB,
}

#[derive(Clone, Debug)]
pub struct LinkedCard {
    pub pan_fragment: Option<String>,
    pub card_type: Option<CardType>,
}

#[derive(Clone, Debug)]
pub struct WalletSource {
    pub allowed: bool,
}

#[derive(Clone, Debug)]
pub struct CardSource {
    pub id: String,
    pub data: LinkedCard,
}

#[derive(Clone, Debug)]
pub struct CardsSource {
    pub allowed: bool,
    pub csc_required: Option<bool>,
    pub items: Option<Vec<CardSource>>,
}

#[derive(Clone, Debug)]
pub struct MoneySources {
    pub wallet: WalletSource,
    pub cards: CardsSource,
}

/// A payment request that the service accepted; `balance` is decimal text.
#[derive(Clone, Debug)]
pub struct RequestPaymentSuccessData {
    pub balance: String,
    pub request_id: String,
    pub money_source: MoneySources,
}

/// The reply to a payment request, tagged by its `status`.
#[derive(Clone, Debug)]
pub enum RequestPaymentResponse {
    Success(RequestPaymentSuccessData),
    HoldForPickup(RequestPaymentSuccessData),
    Refused { error: String },
}

impl RequestPaymentResponse {
    /// The accepted request with whether it is held for pickup, or the
    /// reason of the refusal.
    pub fn into_result(self) -> (r: Result<(bool, RequestPaymentSuccessData), String>)
        ensures
            match self {
                RequestPaymentResponse::Success(d) => r == Ok::<
                    (bool, RequestPaymentSuccessData),
                    String,
                >((false, d)),
                RequestPaymentResponse::HoldForPickup(d) => r == Ok::<
                    (bool, RequestPaymentSuccessData),
                    String,
                >((true, d)),
                RequestPaymentResponse::Refused { error } => r == Err::<
                    (bool, RequestPaymentSuccessData),
                    String,
                >(error),
            },
    {
        match self {
            RequestPaymentResponse::Success(data) => Ok((false, data)),
            RequestPaymentResponse::HoldForPickup(data) => Ok((true, data)),
            RequestPaymentResponse::Refused { error } => Err(error),
        }
    }
}

/// Strong customer authentication pages for a card payment.
#[derive(Clone, Debug)]
pub struct Secure3DData {
    pub ext_auth_success_uri: String,
    pub ext_auth_fail_uri: String,
}

/// Where the money of a payment comes from.
#[derive(Clone, Debug)]
pub enum ProcessPaymentMoneySource {
    Wallet,
    Card { id: String, secure3d: Option<Secure3DData> },
}

/// A completed payment. Amounts are decimal text; `acs_params` and
/// `digital_goods` are JSON text.
#[derive(Clone, Debug)]
pub struct ProcessPaymentSuccessData {
    pub payment_id: String,
    pub balance: String,
    pub invoice_id: String,
    pub payer: String,
    pub payee: String,
    pub credit_amount: String,
    pub hold_for_pickup_link: String,
    pub acs_uri: Option<String>,
    pub acs_params: Option<String>,
    pub digital_goods: String,
}

/// The reply to a payment, tagged by its `status`.
#[derive(Clone, Debug)]
pub enum ProcessPaymentResponse {
    Success(ProcessPaymentSuccessData),
    Refused { error: String },
    InProgress { next_retry: u64 },
    ExtAuthRequired,
    AccountBlocked { account_unblock_uri: String },
}

/// A payment outcome other than success.
#[derive(Clone, Debug, PartialEq, Eq)]
pub enum ProcessPaymentError {
    Refused { error: String },
    InProgress { next_retry: u64 },
    ExtAuthRequired,
    AccountBlocked { account_unblock_uri: String },
}

impl ProcessPaymentResponse {
    /// The completed payment, or the other outcome with its fields.
    pub fn into_result(self) -> (r: Result<ProcessPaymentSuccessData, ProcessPaymentError>)
        ensures
            match self {
                ProcessPaymentResponse::Success(d) => r == Ok::<
                    ProcessPaymentSuccessData,
                    ProcessPaymentError,
                >(d),
                ProcessPaymentResponse::Refused { error } => r == Err::<
                    ProcessPaymentSuccessData,
                    ProcessPaymentError,
                >(ProcessPaymentError::Refused { error }),
                ProcessPaymentResponse::InProgress { next_retry } => r == Err::<
                    ProcessPaymentSuccessData,
                    ProcessPaymentError,
                >(ProcessPaymentError::InProgress { next_retry }),
                ProcessPaymentResponse::ExtAuthRequired => r == Err::<
                    ProcessPaymentSuccessData,
                    ProcessPaymentError,
                >(ProcessPaymentError::ExtAuthRequired),
                ProcessPaymentResponse::AccountBlocked { account_unblock_uri } => r == Err::<
                    ProcessPaymentSuccessData,
                    ProcessPaymentError,
                >(ProcessPaymentError::AccountBlocked { account_unblock_uri }),
            },
    {
        match self {
            ProcessPaymentResponse::Success(data) => Ok(data),
            ProcessPaymentResponse::Refused { error } => Err(ProcessPaymentError::Refused { error }),
            ProcessPaymentResponse::InProgress { next_retry } => Err(
                ProcessPaymentError::InProgress { next_retry },
            ),
            ProcessPaymentResponse::ExtAuthRequired => Err(ProcessPaymentError::ExtAuthRequired),
            ProcessPaymentResponse::AccountBlocked { account_unblock_uri } => Err(
                ProcessPaymentError::AccountBlocked { account_unblock_uri },
            ),
        }
    }
}

} // verus!
