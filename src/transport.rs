use crate::envelope::{decode_envelope, Payload, Rsp};
use crate::error::ApiError;
use crate::params::Params;
use vstd::prelude::*;

verus! {

/// HTTP status of the redirect that carries an authorization code.
pub const FOUND: u16 = 302;

/// Sends form-encoded POST requests to the payment service.
pub trait Transport {
    /// Whether `reply` is a reply that this transport may give to a post of
    /// `params` to `endpoint`, authenticated by `bearer` where there is one.
    /// An implementation that states nothing of its replies keeps the default.
    open spec fn may_reply(
        &self,
        endpoint: Seq<char>,
        params: Map<Seq<char>, Seq<char>>,
        bearer: Option<Seq<char>>,
        reply: Result<String, ApiError>,
    ) -> bool {
        true
    }

    /// Whether `target` is an outcome that this transport may give when it
    /// posts `params` to `endpoint` and captures the redirect in place of
    /// following it.
    open spec fn may_redirect(
        &self,
        endpoint: Seq<char>,
        params: Map<Seq<char>, Seq<char>>,
        bearer: Option<Seq<char>>,
        target: Result<String, ApiError>,
    ) -> bool {
        true
    }

    /// Posts `params` to `endpoint` and returns the body of a successful reply.
    fn call(&self, endpoint: &str, params: &Params, bearer: &Option<String>) -> (r: Result<
        String,
        ApiError,
    >)
        ensures
            self.may_reply(endpoint@, params@, opt_view(bearer), r),
    ;

    /// Posts `params` to `endpoint` without following the redirect, and
    /// returns the redirect's target.
    fn get_redirect(&self, endpoint: &str, params: &Params, bearer: &Option<String>) -> (r:
        Result<String, ApiError>)
        ensures
            self.may_redirect(endpoint@, params@, opt_view(bearer), r),
    ;
}

pub open spec fn opt_view(s: &Option<String>) -> Option<Seq<char>> {
    match s {
        Some(b) => Some(b@),
        None => None,
    }
}

/// Accepts the body of a reply with a success status (2xx).
pub fn check_status(status: u16, body: String) -> (r: Result<String, ApiError>)
    ensures
        200 <= status <= 299 ==> r == Ok::<String, ApiError>(body),
        !(200 <= status <= 299) ==> r == Err::<String, ApiError>(
            ApiError::UnexpectedStatus { status, body },
        ),
{
    if 200 <= status && status <= 299 {
        Ok(body)
    } else {
        Err(ApiError::UnexpectedStatus { status, body })
    }
}

/// Decides a redirect capture: the reply must be a 302 and the redirect hook
/// must have recorded exactly one target, which is the result.
pub fn redirect_target(status: u16, captured: Vec<String>, body: String) -> (r: Result<
    String,
    ApiError,
>)
    ensures
        status == FOUND && captured.len() == 1 ==> r == Ok::<String, ApiError>(captured[0]),
        !(status == FOUND && captured.len() == 1) ==> r == Err::<String, ApiError>(
            ApiError::UnexpectedStatus { status, body },
        ),
{
    let mut captured = captured;
    if status == FOUND && captured.len() == 1 {
        match captured.pop() {
            Some(target) => Ok(target),
            None => Err(ApiError::UnexpectedStatus { status, body }),
        }
    } else {
        Err(ApiError::UnexpectedStatus { status, body })
    }
}

/// What `decode_envelope` gives for `body`.
pub open spec fn envelope_of<T: Payload>(body: Seq<char>, r: Result<Rsp<T>, ApiError>) -> bool {
    match crate::envelope::error_message(body) {
        Some(m) => r matches Ok(Rsp::Error { error }) && error@ == m,
        None => {
            ||| (r matches Ok(Rsp::OK(t)) && T::decoded(body, Ok(t)))
            ||| (r matches Err(ApiError::Decode(e)) && T::decoded(body, Err(e)))
        },
    }
}

/// What `resolve` gives for `body`.
pub open spec fn resolved<T: Payload>(body: Seq<char>, r: Result<T, ApiError>) -> bool {
    match crate::envelope::error_message(body) {
        Some(m) => r matches Err(ApiError::Remote(e)) && e@ == m,
        None => {
            ||| (r matches Ok(t) && T::decoded(body, Ok(t)))
            ||| (r matches Err(ApiError::Decode(e)) && T::decoded(body, Err(e)))
        },
    }
}

/// What a call gives once the transport answered `reply`.
pub open spec fn reply_resolves<T: Payload>(
    reply: Result<String, ApiError>,
    r: Result<T, ApiError>,
) -> bool {
    match reply {
        Ok(body) => resolved::<T>(body@, r),
        Err(e) => r == Err::<T, ApiError>(e),
    }
}

/// A transport bound to the credential that every call carries; no
/// credential means unauthenticated calls.
pub struct CallerWrapper<Tr: Transport> {
    pub transport: Tr,
    pub bearer: Option<String>,
}

impl<Tr: Transport> CallerWrapper<Tr> {
    pub open spec fn bearer_view(&self) -> Option<Seq<char>> {
        opt_view(&self.bearer)
    }

    /// Posts `params` to `method` and reads the reply as an envelope of `T`.
    pub fn call<T: Payload>(&self, method: &str, params: &Params) -> (r: Result<Rsp<T>, ApiError>)
        ensures
            exists|reply: Result<String, ApiError>|
                #[trigger] self.transport.may_reply(method@, params@, self.bearer_view(), reply)
                    && match reply {
                    Ok(body) => envelope_of::<T>(body@, r),
                    Err(e) => r == Err::<Rsp<T>, ApiError>(e),
                },
    {
        let reply = self.transport.call(method, params, &self.bearer);
        let ghost g = reply;
        let r = match reply {
            Ok(body) => decode_envelope::<T>(body.as_str()),
            Err(e) => Err(e),
        };
        assert(self.transport.may_reply(method@, params@, self.bearer_view(), g));
        r
    }

    /// Posts `params` to `method` and resolves the reply to its payload.
    pub fn call_resolved<T: Payload>(&self, method: &str, params: &Params) -> (r: Result<
        T,
        ApiError,
    >)
        ensures
            exists|reply: Result<String, ApiError>|
                #[trigger] self.transport.may_reply(method@, params@, self.bearer_view(), reply)
                    && reply_resolves::<T>(reply, r),
    {
        let reply = self.transport.call(method, params, &self.bearer);
        let ghost g = reply;
        let r = match reply {
            Ok(body) => crate::envelope::resolve::<T>(body.as_str()),
            Err(e) => Err(e),
        };
        assert(self.transport.may_reply(method@, params@, self.bearer_view(), g));
        r
    }

    /// Posts `params` to `method` and discards the body of a successful reply.
    pub fn call_empty(&self, method: &str, params: &Params) -> (r: Result<(), ApiError>)
        ensures
            exists|reply: Result<String, ApiError>|
                #[trigger] self.transport.may_reply(method@, params@, self.bearer_view(), reply)
                    && match reply {
                    Ok(_) => r == Ok::<(), ApiError>(()),
                    Err(e) => r == Err::<(), ApiError>(e),
                },
    {
        let reply = self.transport.call(method, params, &self.bearer);
        let ghost g = reply;
        let r = match reply {
            Ok(_) => Ok(()),
            Err(e) => Err(e),
        };
        assert(self.transport.may_reply(method@, params@, self.bearer_view(), g));
        r
    }

    /// Posts `params` to `endpoint` and returns the target of the redirect
    /// that the server answers with.
    pub fn get_redirect(&self, endpoint: &str, params: &Params) -> (r: Result<String, ApiError>)
        ensures
            self.transport.may_redirect(endpoint@, params@, self.bearer_view(), r),
    {
        self.transport.get_redirect(endpoint, params, &self.bearer)
    }
}

} // verus!
