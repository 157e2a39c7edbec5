use crate::envelope::{json_string_member, TokenExchangeData};
use crate::error::ApiError;
use crate::history::{HistoryQuery, OperationHistory, Timestamp};
use crate::envelope::Payload;
use crate::models::{
    scope_token, AccessScope, ProcessPaymentMoneySource, ReqOperationType, RequestAmount, UserId,
};
use crate::params::Params;
use crate::text::{bool_text, bool_to_text, decimal, join_words, joined, u64_text};
use crate::transport::{reply_resolves, CallerWrapper, Transport};
use vstd::prelude::*;

verus! {

pub const AUTHORIZE_ENDPOINT: &'static str = "oauth/authorize";

pub const TOKEN_ENDPOINT: &'static str = "oauth/token";

pub const REVOKE_ENDPOINT: &'static str = "api/revoke";

pub const ACCOUNT_INFO_ENDPOINT: &'static str = "api/account-info";

pub const OPERATION_DETAILS_ENDPOINT: &'static str = "api/operation-details";

pub const REQUEST_PAYMENT_ENDPOINT: &'static str = "api/request-payment";

pub const PROCESS_PAYMENT_ENDPOINT: &'static str = "api/process-payment";

/// Relies on uuid's `Uuid::new_v4` for a random identifier, written by its
/// `Display` in the hyphenated form of 36 characters.
#[verifier::external_body]
fn new_instance_name() -> (r: String)
    ensures
        r@.len() == 36,
{
    uuid::Uuid::new_v4().to_string()
}

/// The decoded query pairs of the URL `uri`, in order; none where `uri` is
/// not a valid absolute URL.
pub uninterp spec fn url_query(uri: Seq<char>) -> Option<Seq<(Seq<char>, Seq<char>)>>;

/// Relies on url's `Url::parse` and `Url::query_pairs`: parses `uri` and
/// decodes its query into key/value pairs.
#[verifier::external_body]
fn query_pairs(uri: &str) -> (r: Option<Vec<(String, String)>>)
    ensures
        match r {
            Some(v) => url_query(uri@) == Some(v@.map_values(|p: (String, String)| (p.0@, p.1@))),
            None => url_query(uri@) is None,
        },
{
    let url = url::Url::parse(uri).ok()?;
    Some(url.query_pairs().map(|(k, v)| (k.into_owned(), v.into_owned())).collect())
}

/// Index of the first pair whose key is `code`, if any.
pub open spec fn first_code(pairs: Seq<(Seq<char>, Seq<char>)>) -> Option<int> {
    if exists|i: int| 0 <= i < pairs.len() && #[trigger] pairs[i].0 == "code"@ {
        Some(
            choose|i: int|
                0 <= i < pairs.len() && #[trigger] pairs[i].0 == "code"@ && forall|j: int|
                    0 <= j < i ==> #[trigger] pairs[j].0 != "code"@,
        )
    } else {
        None
    }
}

/// The authorization code that a redirect URI carries: the value of the
/// first `code` query parameter.
pub fn authorization_code(uri: &str) -> (r: Result<String, ApiError>)
    ensures
        match url_query(uri@) {
            None => r matches Err(ApiError::Decode(_)),
            Some(pairs) => match first_code(pairs) {
                Some(i) => r matches Ok(c) && c@ == pairs[i].1,
                None => r matches Err(ApiError::Decode(_)),
            },
        },
{
    let pairs = match query_pairs(uri) {
        Some(v) => v,
        None => {
            return Err(ApiError::Decode("invalid redirect URI".to_string()));
        },
    };
    let ghost ps = pairs@.map_values(|p: (String, String)| (p.0@, p.1@));
    let code_key = "code".to_string();
    let mut i: usize = 0;
    while i < pairs.len()
        invariant
            0 <= i <= pairs.len(),
            ps == pairs@.map_values(|p: (String, String)| (p.0@, p.1@)),
            url_query(uri@) == Some(ps),
            code_key@ == "code"@,
            forall|j: int| 0 <= j < i ==> #[trigger] ps[j].0 != "code"@,
        decreases pairs.len() - i,
    {
        if pairs[i].0 == code_key {
            proof {
                let k = i as int;
                assert(ps[k].0 == "code"@);
                let c = choose|c: int|
                    0 <= c < ps.len() && #[trigger] ps[c].0 == "code"@ && forall|j: int|
                        0 <= j < c ==> #[trigger] ps[j].0 != "code"@;
                if c < k {
                    assert(ps[c].0 != "code"@);
                } else if c > k {
                    assert(ps[k].0 != "code"@);
                }
                assert(first_code(ps) == Some(k));
            }
            return Ok(pairs[i].1.clone());
        }
        i = i + 1;
    }
    Err(ApiError::Decode("Authorization code not found in redirect URL".to_string()))
}

/// The parameters of the request for an authorization redirect.
pub open spec fn authorize_params_spec(
    client_id: Seq<char>,
    redirect_uri: Seq<char>,
    scopes: Seq<AccessScope>,
    instance_name: Seq<char>,
) -> Map<Seq<char>, Seq<char>> {
    Map::empty().insert("client_id"@, client_id).insert("response_type"@, "code"@).insert(
        "redirect_uri"@,
        redirect_uri,
    ).insert("scope"@, joined(scopes.map_values(|s: AccessScope| scope_token(s)))).insert(
        "instance_name"@,
        instance_name,
    )
}

/// The parameters of the exchange of an authorization code for a token.
pub open spec fn token_params_spec(
    code: Seq<char>,
    client_id: Seq<char>,
    redirect_uri: Seq<char>,
) -> Map<Seq<char>, Seq<char>> {
    Map::empty().insert("code"@, code).insert("client_id"@, client_id).insert(
        "grant_type"@,
        "authorization_code"@,
    ).insert("redirect_uri"@, redirect_uri)
}

pub fn authorize_params(
    client_id: &String,
    redirect_uri: &String,
    scopes: &Vec<AccessScope>,
    instance_name: String,
) -> (r: Params)
    ensures
        r.wf(),
        r@ == authorize_params_spec(client_id@, redirect_uri@, scopes@, instance_name@),
{
    let mut tokens: Vec<&'static str> = Vec::new();
    let mut i: usize = 0;
    while i < scopes.len()
        invariant
            0 <= i <= scopes.len(),
            tokens.len() == i,
            forall|j: int| 0 <= j < i ==> (#[trigger] tokens@[j])@ == scope_token(scopes@[j]),
        decreases scopes.len() - i,
    {
        tokens.push(scopes[i].token());
        i = i + 1;
    }
    assert(tokens@.map_values(|w: &'static str| w@) =~= scopes@.map_values(
        |s: AccessScope| scope_token(s),
    ));
    let mut p = Params::new();
    p.insert("client_id", client_id.clone());
    p.insert("response_type", "code".to_string());
    p.insert("redirect_uri", redirect_uri.clone());
    p.insert("scope", join_words(&tokens));
    p.insert("instance_name", instance_name);
    p
}

pub fn token_params(code: String, client_id: &String, redirect_uri: &String) -> (r: Params)
    ensures
        r.wf(),
        r@ == token_params_spec(code@, client_id@, redirect_uri@),
{
    let mut p = Params::new();
    p.insert("code", code);
    p.insert("client_id", client_id.clone());
    p.insert("grant_type", "authorization_code".to_string());
    p.insert("redirect_uri", redirect_uri.clone());
    p
}

/// A client without a token, able only to obtain one.
pub struct UnauthorizedClient<Tr: Transport> {
    pub caller: CallerWrapper<Tr>,
    pub client_id: String,
    pub redirect_uri: String,
}

impl<Tr: Transport> UnauthorizedClient<Tr> {
    pub fn new(transport: Tr, client_id: String, redirect_uri: String) -> (r: Self)
        ensures
            r.caller.transport == transport,
            r.caller.bearer is None,
            r.client_id == client_id,
            r.redirect_uri == redirect_uri,
    {
        UnauthorizedClient {
            caller: CallerWrapper { transport, bearer: None },
            client_id,
            redirect_uri,
        }
    }

    /// What exchanging the code `code` gives, whatever the token endpoint
    /// answered.
    pub open spec fn exchange_outcome(&self, code: Seq<char>, r: Result<String, ApiError>) -> bool {
        exists|reply: Result<String, ApiError>|
            #[trigger] self.caller.transport.may_reply(
                TOKEN_ENDPOINT@,
                token_params_spec(code, self.client_id@, self.redirect_uri@),
                self.caller.bearer_view(),
                reply,
            ) && match reply {
                Err(e) => r == Err::<String, ApiError>(e),
                Ok(body) => token_of(body@, r),
            }
    }

    /// What the flow gives once the redirect `redirect` was captured,
    /// whatever the callback returned.
    pub open spec fn code_outcome<F: Fn(String) -> Result<String, ApiError>>(
        &self,
        callback: F,
        redirect: String,
        r: Result<String, ApiError>,
    ) -> bool {
        exists|code: Result<String, ApiError>|
            #[trigger] callback.ensures((redirect,), code) && match code {
                Err(e) => r == Err::<String, ApiError>(e),
                Ok(c) => self.exchange_outcome(c@, r),
            }
    }

    /// Obtains a permanent token: asks the service for the authorization
    /// page (capturing the redirect), hands it to `authorize_callback`, which
    /// returns the authorization code, and exchanges that code for the token.
    /// A failure at any step ends the flow with that failure, and no later
    /// step is taken.
    pub fn authorize<F>(self, access_scope: Vec<AccessScope>, authorize_callback: F) -> (r: Result<
        String,
        ApiError,
    >) where F: Fn(String) -> Result<String, ApiError>
        requires
            access_scope@.no_duplicates(),
            forall|u: String| authorize_callback.requires((u,)),
        ensures
            exists|instance: Seq<char>, redirect: Result<String, ApiError>|
                {
                    &&& instance.len() == 36
                    &&& #[trigger] self.caller.transport.may_redirect(
                        AUTHORIZE_ENDPOINT@,
                        authorize_params_spec(
                            self.client_id@,
                            self.redirect_uri@,
                            access_scope@,
                            instance,
                        ),
                        self.caller.bearer_view(),
                        redirect,
                    )
                    &&& match redirect {
                        Err(e) => r == Err::<String, ApiError>(e),
                        Ok(u) => self.code_outcome(authorize_callback, u, r),
                    }
                },
    {
        let instance = new_instance_name();
        let ghost ginstance = instance@;
        let params = authorize_params(&self.client_id, &self.redirect_uri, &access_scope, instance);
        let captured = self.caller.get_redirect(AUTHORIZE_ENDPOINT, &params);
        let ghost gcaptured = captured;
        let r = match captured {
            Err(e) => Err(e),
            Ok(u) => {
                let ghost gu = u;
                let code = authorize_callback(u);
                let ghost gcode = code;
                let r2 = match code {
                    Err(e) => Err(e),
                    Ok(c) => {
                        let ghost gc = c@;
                        let params = token_params(c, &self.client_id, &self.redirect_uri);
                        let reply = self.caller.transport.call(
                            TOKEN_ENDPOINT,
                            &params,
                            &self.caller.bearer,
                        );
                        let ghost greply = reply;
                        let r3 = match reply {
                            Err(e) => Err(e),
                            Ok(body) => match crate::envelope::resolve::<TokenExchangeData>(
                                body.as_str(),
                            ) {
                                Ok(t) => Ok(t.access_token),
                                Err(e) => Err(e),
                            },
                        };
                        assert(self.caller.transport.may_reply(
                            TOKEN_ENDPOINT@,
                            token_params_spec(gc, self.client_id@, self.redirect_uri@),
                            self.caller.bearer_view(),
                            greply,
                        ));
                        assert(self.exchange_outcome(gc, r3));
                        r3
                    },
                };
                assert(authorize_callback.ensures((gu,), gcode));
                assert(self.code_outcome(authorize_callback, gu, r2));
                r2
            },
        };
        assert(self.caller.transport.may_redirect(
            AUTHORIZE_ENDPOINT@,
            authorize_params_spec(self.client_id@, self.redirect_uri@, access_scope@, ginstance),
            self.caller.bearer_view(),
            gcaptured,
        ));
        r
    }
}

/// What a token-exchange reply `body` gives: the reported error, the
/// string member `access_token`, or a decode error where it has none.
pub open spec fn token_of(body: Seq<char>, r: Result<String, ApiError>) -> bool {
    match crate::envelope::error_message(body) {
        Some(m) => r matches Err(ApiError::Remote(e)) && e@ == m,
        None => match json_string_member(body, "access_token"@) {
            Some(t) => r matches Ok(tok) && tok@ == t,
            None => r matches Err(ApiError::Decode(_)),
        },
    }
}

/// The parameters `m` with each of `pairs` set in turn.
pub open spec fn with_pairs(
    m: Map<Seq<char>, Seq<char>>,
    pairs: Seq<(String, String)>,
) -> Map<Seq<char>, Seq<char>>
    decreases pairs.len(),
{
    if pairs.len() == 0 {
        m
    } else {
        with_pairs(m, pairs.drop_last()).insert(pairs.last().0@, pairs.last().1@)
    }
}

pub open spec fn user_id_text(to: UserId) -> Seq<char> {
    match to {
        UserId::Account(n) => decimal(n as nat),
        UserId::Phone(s) => s@,
        UserId::Email(s) => s@,
    }
}

impl UserId {
    /// The recipient as the transfer request writes it.
    pub fn to_text(&self) -> (r: String)
        ensures
            r@ == user_id_text(*self),
    {
        match self {
            UserId::Account(n) => u64_text(*n),
            UserId::Phone(s) => s.clone(),
            UserId::Email(s) => s.clone(),
        }
    }
}

pub open spec fn transfer_params_spec(
    to: UserId,
    amount: RequestAmount,
    comment: Seq<char>,
    message: Seq<char>,
    label: Option<String>,
    codepro: bool,
    hold_for_pickup: bool,
    expire_period: u32,
) -> Map<Seq<char>, Seq<char>> {
    let m = Map::empty().insert("pattern_id"@, "p2p"@).insert("to"@, user_id_text(to)).insert(
        "comment"@,
        comment,
    ).insert("message"@, message).insert("codepro"@, bool_text(codepro)).insert(
        "hold_for_pickup"@,
        bool_text(hold_for_pickup),
    ).insert("expire_period"@, decimal(expire_period as nat));
    let m = match amount {
        RequestAmount::Total(a) => m.insert("amount"@, a@),
        RequestAmount::Net(a) => m.insert("amount_due"@, a@),
    };
    crate::history::with_opt(m, "label"@, label)
}

pub open spec fn process_params_spec(
    request_id: Seq<char>,
    money_source: ProcessPaymentMoneySource,
) -> Map<Seq<char>, Seq<char>> {
    let m = Map::empty().insert("request_id"@, request_id);
    match money_source {
        ProcessPaymentMoneySource::Wallet => m.insert("money_source"@, "wallet"@),
        ProcessPaymentMoneySource::Card { id, secure3d } => {
            let m = m.insert("money_source"@, id@);
            match secure3d {
                Some(d) => m.insert("ext_auth_success_uri"@, d.ext_auth_success_uri@).insert(
                    "ext_auth_fail_uri"@,
                    d.ext_auth_fail_uri@,
                ),
                None => m,
            }
        },
    }
}

/// A payment request ready to be sent.
pub struct PaymentRequest<'a, Tr: Transport> {
    pub caller: &'a CallerWrapper<Tr>,
    pub params: Params,
}

impl<'a, Tr: Transport> PaymentRequest<'a, Tr> {
    /// Sends the request; `P` is the reply as decoded from the wire.
    pub fn send<P: Payload>(self) -> (r: Result<P, ApiError>)
        ensures
            exists|reply: Result<String, ApiError>|
                #[trigger] self.caller.transport.may_reply(
                    REQUEST_PAYMENT_ENDPOINT@,
                    self.params@,
                    self.caller.bearer_view(),
                    reply,
                ) && reply_resolves::<P>(reply, r),
    {
        self.caller.call_resolved::<P>(REQUEST_PAYMENT_ENDPOINT, &self.params)
    }
}

/// A payment request sent as a test payment: no money moves.
pub struct TestPaymentRequest<'a, Tr: Transport> {
    pub inner: PaymentRequest<'a, Tr>,
}

impl<'a, Tr: Transport> TestPaymentRequest<'a, Tr> {
    pub fn from(inner: PaymentRequest<'a, Tr>) -> (r: Self)
        ensures
            r.inner == inner,
    {
        TestPaymentRequest { inner }
    }

    /// Sends the request with `test_payment` set.
    pub fn send<P: Payload>(self) -> (r: Result<P, ApiError>)
        requires
            self.inner.params.wf(),
        ensures
            exists|reply: Result<String, ApiError>|
                #[trigger] self.inner.caller.transport.may_reply(
                    REQUEST_PAYMENT_ENDPOINT@,
                    self.inner.params@.insert("test_payment"@, "true"@),
                    self.inner.caller.bearer_view(),
                    reply,
                ) && reply_resolves::<P>(reply, r),
    {
        let mut inner = self.inner;
        inner.params.insert("test_payment", bool_to_text(true));
        inner.send::<P>()
    }
}

/// A client that carries a token on every call.
pub struct Client<Tr: Transport> {
    pub caller: CallerWrapper<Tr>,
}

impl<Tr: Transport> Client<Tr> {
    pub fn new(transport: Tr, token: Option<String>) -> (r: Self)
        ensures
            r.caller.transport == transport,
            r.caller.bearer == token,
    {
        Client { caller: CallerWrapper { transport, bearer: token } }
    }

    /// Revokes the token; the reply's body is not read.
    pub fn revoke_token(self) -> (r: Result<(), ApiError>)
        ensures
            exists|reply: Result<String, ApiError>|
                #[trigger] self.caller.transport.may_reply(
                    REVOKE_ENDPOINT@,
                    Map::empty(),
                    self.caller.bearer_view(),
                    reply,
                ) && match reply {
                    Ok(_) => r == Ok::<(), ApiError>(()),
                    Err(e) => r == Err::<(), ApiError>(e),
                },
    {
        let p = Params::new();
        self.caller.call_empty(REVOKE_ENDPOINT, &p)
    }

    /// The account's state; `A` is the account record as decoded from the wire.
    pub fn account_info<A: Payload>(&self) -> (r: Result<A, ApiError>)
        ensures
            exists|reply: Result<String, ApiError>|
                #[trigger] self.caller.transport.may_reply(
                    ACCOUNT_INFO_ENDPOINT@,
                    Map::empty(),
                    self.caller.bearer_view(),
                    reply,
                ) && reply_resolves::<A>(reply, r),
    {
        let p = Params::new();
        self.caller.call_resolved::<A>(ACCOUNT_INFO_ENDPOINT, &p)
    }

    /// The history, page after page, from `start_record` on.
    pub fn operation_history<R: Payload>(
        &self,
        operation_types: Vec<ReqOperationType>,
        label: Option<String>,
        from: Option<Timestamp>,
        till: Option<Timestamp>,
        start_record: u64,
        details: bool,
    ) -> (r: OperationHistory<'_, Tr, R>)
        requires
            (HistoryQuery { operation_types, label, from, till, details }).wf(),
        ensures
            r.caller == &self.caller,
            r.query == (HistoryQuery { operation_types, label, from, till, details }),
            r.cursor == start_record,
            !r.finished,
            r.pending@.len() == 0,
    {
        OperationHistory::new(
            &self.caller,
            HistoryQuery { operation_types, label, from, till, details },
            start_record,
        )
    }

    /// The details of one operation.
    pub fn operation_details<D: Payload>(&self, operation_id: String) -> (r: Result<D, ApiError>)
        ensures
            exists|reply: Result<String, ApiError>|
                #[trigger] self.caller.transport.may_reply(
                    OPERATION_DETAILS_ENDPOINT@,
                    Map::empty().insert("operation_id"@, operation_id@),
                    self.caller.bearer_view(),
                    reply,
                ) && reply_resolves::<D>(reply, r),
    {
        let mut p = Params::new();
        p.insert("operation_id", operation_id);
        self.caller.call_resolved::<D>(OPERATION_DETAILS_ENDPOINT, &p)
    }

    /// A payment to a shop by its pattern, with the shop's own parameters,
    /// which are set after `pattern_id` and in their order.
    pub fn request_shop_payment(&self, pattern_id: String, other: Vec<(String, String)>) -> (r:
        PaymentRequest<'_, Tr>)
        ensures
            r.caller == &self.caller,
            r.params.wf(),
            r.params@ == with_pairs(Map::empty().insert("pattern_id"@, pattern_id@), other@),
    {
        let mut params = Params::new();
        params.insert("pattern_id", pattern_id);
        let ghost base = params@;
        let mut i: usize = 0;
        while i < other.len()
            invariant
                0 <= i <= other.len(),
                params.wf(),
                params@ == with_pairs(base, other@.subrange(0, i as int)),
            decreases other.len() - i,
        {
            params.insert(other[i].0.as_str(), other[i].1.clone());
            assert(other@.subrange(0, i as int + 1).drop_last() =~= other@.subrange(0, i as int));
            i = i + 1;
        }
        assert(other@.subrange(0, other.len() as int) =~= other@);
        PaymentRequest { caller: &self.caller, params }
    }

    /// A transfer to another user.
    pub fn request_transfer(
        &self,
        to: UserId,
        amount: RequestAmount,
        comment: String,
        message: String,
        label: Option<String>,
        codepro: bool,
        hold_for_pickup: bool,
        expire_period: u32,
    ) -> (r: PaymentRequest<'_, Tr>)
        ensures
            r.caller == &self.caller,
            r.params.wf(),
            r.params@ == transfer_params_spec(
                to,
                amount,
                comment@,
                message@,
                label,
                codepro,
                hold_for_pickup,
                expire_period,
            ),
    {
        let mut params = Params::new();
        params.insert("pattern_id", "p2p".to_string());
        params.insert("to", to.to_text());
        params.insert("comment", comment);
        params.insert("message", message);
        params.insert("codepro", bool_to_text(codepro));
        params.insert("hold_for_pickup", bool_to_text(hold_for_pickup));
        params.insert("expire_period", u64_text(expire_period as u64));
        match amount {
            RequestAmount::Total(a) => params.insert("amount", a),
            RequestAmount::Net(a) => params.insert("amount_due", a),
        }
        match label {
            Some(v) => params.insert("label", v),
            None => {},
        }
        PaymentRequest { caller: &self.caller, params }
    }

    /// A top-up of a mobile phone account; `amount` is decimal text.
    pub fn request_mobile_payment(&self, phone_number: String, amount: String) -> (r:
        PaymentRequest<'_, Tr>)
        ensures
            r.caller == &self.caller,
            r.params.wf(),
            r.params@ == Map::<Seq<char>, Seq<char>>::empty().insert(
                "pattern_id"@,
                "phone-topup"@,
            ).insert("phone-number"@, phone_number@).insert("amount"@, amount@),
    {
        let mut params = Params::new();
        params.insert("pattern_id", "phone-topup".to_string());
        params.insert("phone-number", phone_number);
        params.insert("amount", amount);
        PaymentRequest { caller: &self.caller, params }
    }

    /// Carries out a requested payment from `money_source`; `P` is the
    /// reply as decoded from the wire.
    pub fn process_payment<P: Payload>(
        &self,
        request_id: String,
        money_source: ProcessPaymentMoneySource,
    ) -> (r: Result<P, ApiError>)
        ensures
            exists|reply: Result<String, ApiError>|
                #[trigger] self.caller.transport.may_reply(
                    PROCESS_PAYMENT_ENDPOINT@,
                    process_params_spec(request_id@, money_source),
                    self.caller.bearer_view(),
                    reply,
                ) && reply_resolves::<P>(reply, r),
    {
        let ghost source = money_source;
        let ghost id_view = request_id@;
        let mut params = Params::new();
        params.insert("request_id", request_id);
        match money_source {
            ProcessPaymentMoneySource::Wallet => params.insert("money_source", "wallet".to_string()),
            ProcessPaymentMoneySource::Card { id, secure3d } => {
                params.insert("money_source", id);
                match secure3d {
                    Some(data) => {
                        params.insert("ext_auth_success_uri", data.ext_auth_success_uri);
                        params.insert("ext_auth_fail_uri", data.ext_auth_fail_uri);
                    },
                    None => {},
                }
            },
        }
        assert(params@ =~= process_params_spec(id_view, source));
        self.caller.call_resolved::<P>(PROCESS_PAYMENT_ENDPOINT, &params)
    }
}

} // verus!
