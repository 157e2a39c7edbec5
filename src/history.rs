use crate::envelope::{
    array_member, json_array_member, json_member_present, json_string_member, member_present,
    string_member, Payload, Rsp,
};
use crate::error::ApiError;
use crate::models::{operation_type_token, ReqOperationType};
use crate::params::Params;
use crate::text::{bool_text, bool_to_text, decimal, join_words, joined, parse_u64, parsed_u64, u64_text};
use crate::transport::{envelope_of, CallerWrapper, Transport};
use vstd::prelude::*;

verus! {

/// Path of the history endpoint.
pub const HISTORY_ENDPOINT: &'static str = "api/operation-history";

/// One page of the history: its records, and the cursor of the next page.
#[derive(Clone, Debug)]
pub struct OperationHistoryResponse<R> {
    pub next_record: Option<u64>,
    pub operations: Vec<R>,
}

/// The cursor that `body` carries: `Some(None)` where it is absent or null,
/// `None` where it is not a string holding a number.
pub open spec fn next_record_of(body: Seq<char>) -> Option<Option<u64>> {
    if !json_member_present(body, "next_record"@) {
        Some(None)
    } else {
        match json_string_member(body, "next_record"@) {
            None => None,
            Some(t) => match parsed_u64(t) {
                Some(n) => Some(Some(n)),
                None => None,
            },
        }
    }
}

impl<R: Payload> Payload for OperationHistoryResponse<R> {
    open spec fn decoded(body: Seq<char>, r: Result<Self, String>) -> bool {
        match r {
            Ok(p) => json_array_member(body, "operations"@) matches Some(items) && items.len()
                == p.operations.len() && (forall|i: int|
                0 <= i < items.len() ==> R::decoded(#[trigger] items[i], Ok(p.operations[i])))
                && next_record_of(body) == Some(p.next_record),
            Err(_) => match json_array_member(body, "operations"@) {
                None => true,
                Some(items) => next_record_of(body) is None || exists|i: int, e: String|
                    0 <= i < items.len() && #[trigger] R::decoded(items[i], Err(e)),
            },
        }
    }

    fn decode(body: &str) -> (r: Result<Self, String>) {
        let items = match array_member(body, "operations") {
            Some(v) => v,
            None => {
                return Err("missing array member operations".to_string());
            },
        };
        let next_record = if !member_present(body, "next_record") {
            None
        } else {
            match string_member(body, "next_record") {
                None => {
                    return Err("next_record is not a string".to_string());
                },
                Some(t) => match parse_u64(t.as_str()) {
                    Some(n) => Some(n),
                    None => {
                        return Err("next_record is not a number".to_string());
                    },
                },
            }
        };
        let ghost texts = items@.map_values(|e: String| e@);
        let mut operations: Vec<R> = Vec::new();
        let mut i: usize = 0;
        while i < items.len()
            invariant
                0 <= i <= items.len(),
                texts == items@.map_values(|e: String| e@),
                json_array_member(body@, "operations"@) == Some(texts),
                next_record_of(body@) == Some(next_record),
                operations.len() == i,
                forall|j: int| 0 <= j < i ==> R::decoded(#[trigger] texts[j], Ok(operations[j])),
            decreases items.len() - i,
        {
            match R::decode(items[i].as_str()) {
                Ok(x) => operations.push(x),
                Err(e) => {
                    assert(R::decoded(
                        json_array_member(body@, "operations"@)->Some_0[i as int],
                        Err(e),
                    ));
                    return Err(e);
                },
            }
            i = i + 1;
        }
        Ok(OperationHistoryResponse { next_record, operations })
    }
}

/// The RFC 3339 form of the instant `secs` seconds and `nanos` nanoseconds
/// after the Unix epoch, in UTC; none where chrono cannot represent it.
pub uninterp spec fn rfc3339_of(secs: int, nanos: int) -> Option<Seq<char>>;

/// Relies on chrono's `DateTime::<Utc>::from_timestamp`, which refuses an
/// instant out of its range, and on `DateTime::to_rfc3339`.
#[verifier::external_body]
fn rfc3339(secs: i64, nanos: u32) -> (r: Option<String>)
    ensures
        match r {
            Some(s) => rfc3339_of(secs as int, nanos as int) == Some(s@),
            None => rfc3339_of(secs as int, nanos as int) is None,
        },
{
    chrono::DateTime::<chrono::Utc>::from_timestamp(secs, nanos).map(|t| t.to_rfc3339())
}

/// An instant, kept with the RFC 3339 text that a filter sends.
#[derive(Clone, Debug)]
pub struct Timestamp {
    pub secs: i64,
    pub nanos: u32,
    pub rfc3339: String,
}

impl Timestamp {
    pub open spec fn wf(&self) -> bool {
        rfc3339_of(self.secs as int, self.nanos as int) == Some(self.rfc3339@)
    }

    /// The instant `secs` seconds and `nanos` nanoseconds after the Unix
    /// epoch; none where it cannot be written.
    pub fn from_unix(secs: i64, nanos: u32) -> (r: Option<Timestamp>)
        ensures
            match rfc3339_of(secs as int, nanos as int) {
                Some(text) => r matches Some(t) && t.wf() && t.secs == secs && t.nanos == nanos
                    && t.rfc3339@ == text,
                None => r is None,
            },
    {
        match rfc3339(secs, nanos) {
            Some(rfc3339) => Some(Timestamp { secs, nanos, rfc3339 }),
            None => None,
        }
    }
}

/// The filters of a history listing, fixed for the listing's lifetime.
#[derive(Clone, Debug)]
pub struct HistoryQuery {
    pub operation_types: Vec<ReqOperationType>,
    pub label: Option<String>,
    pub from: Option<Timestamp>,
    pub till: Option<Timestamp>,
    pub details: bool,
}

pub open spec fn with_opt(
    m: Map<Seq<char>, Seq<char>>,
    k: Seq<char>,
    v: Option<String>,
) -> Map<Seq<char>, Seq<char>> {
    match v {
        Some(s) => m.insert(k, s@),
        None => m,
    }
}

impl HistoryQuery {
    /// The types form a set, and each bound is an instant with its own
    /// RFC 3339 form.
    pub open spec fn wf(&self) -> bool {
        &&& self.operation_types@.no_duplicates()
        &&& (self.from matches Some(t) ==> t.wf())
        &&& (self.till matches Some(t) ==> t.wf())
    }
}

pub open spec fn with_time(
    m: Map<Seq<char>, Seq<char>>,
    k: Seq<char>,
    v: Option<Timestamp>,
) -> Map<Seq<char>, Seq<char>> {
    match v {
        Some(t) => m.insert(k, t.rfc3339@),
        None => m,
    }
}

/// The parameters of the request for the page at `cursor`.
pub open spec fn history_params_spec(q: HistoryQuery, cursor: u64) -> Map<Seq<char>, Seq<char>> {
    let types = joined(q.operation_types@.map_values(|t: ReqOperationType| operation_type_token(t)));
    let m = Map::empty().insert("types"@, types);
    let m = with_opt(m, "label"@, q.label);
    let m = with_time(m, "from"@, q.from);
    let m = with_time(m, "till"@, q.till);
    m.insert("details"@, bool_text(q.details)).insert("start-record"@, decimal(cursor as nat))
}

pub fn history_params(q: &HistoryQuery, cursor: u64) -> (r: Params)
    ensures
        r.wf(),
        r@ == history_params_spec(*q, cursor),
{
    let mut tokens: Vec<&'static str> = Vec::new();
    let mut i: usize = 0;
    while i < q.operation_types.len()
        invariant
            0 <= i <= q.operation_types.len(),
            tokens.len() == i,
            forall|j: int|
                0 <= j < i ==> (#[trigger] tokens@[j])@ == operation_type_token(
                    q.operation_types@[j],
                ),
        decreases q.operation_types.len() - i,
    {
        tokens.push(q.operation_types[i].token());
        i = i + 1;
    }
    assert(tokens@.map_values(|w: &'static str| w@) =~= q.operation_types@.map_values(
        |t: ReqOperationType| operation_type_token(t),
    ));
    let mut p = Params::new();
    p.insert("types", join_words(&tokens));
    match &q.label {
        Some(l) => p.insert("label", l.clone()),
        None => {},
    }
    match &q.from {
        Some(t) => p.insert("from", t.rfc3339.clone()),
        None => {},
    }
    match &q.till {
        Some(t) => p.insert("till", t.rfc3339.clone()),
        None => {},
    }
    p.insert("details", bool_to_text(q.details));
    p.insert("start-record", u64_text(cursor));
    p
}

/// A lazy listing of history records, page after page. Records come in the
/// order of the pages and of each page; the listing never rewinds.
pub struct OperationHistory<'a, Tr: Transport, R> {
    pub caller: &'a CallerWrapper<Tr>,
    pub query: HistoryQuery,
    /// Cursor of the next page to request.
    pub cursor: u64,
    /// No page is to be requested any more.
    pub finished: bool,
    /// Records of the last page not yet handed out, the next one first.
    pub pending: Vec<R>,
}

impl<'a, Tr: Transport, R: Payload> OperationHistory<'a, Tr, R> {
    pub fn new(caller: &'a CallerWrapper<Tr>, query: HistoryQuery, start_record: u64) -> (r: Self)
        requires
            query.wf(),
        ensures
            r.caller == caller,
            r.query == query,
            r.cursor == start_record,
            !r.finished,
            r.pending@.len() == 0,
    {
        OperationHistory { caller, query, cursor: start_record, finished: false, pending: Vec::new() }
    }

    /// The state after `page` arrived, seen from `pre`: an empty page ends
    /// the listing, otherwise its records are pending and its cursor, if
    /// any, is the next one.
    pub open spec fn after_page(pre: &Self, page: OperationHistoryResponse<R>, post: &Self) -> bool {
        &&& post.caller == pre.caller
        &&& post.query == pre.query
        &&& if page.operations.len() == 0 {
            post.finished && post.pending@.len() == 0 && post.cursor == pre.cursor
        } else {
            &&& post.pending@ == page.operations@
            &&& post.finished == page.next_record is None
            &&& post.cursor == match page.next_record {
                Some(c) => c,
                None => pre.cursor,
            }
        }
    }

    /// A page's records are handed out in the page's own order before any
    /// other request; a page with a cursor has the next page requested at
    /// that cursor; an empty page, or one without a cursor, ends the listing,
    /// after which `next` makes no request and yields nothing.
    pub proof fn lemma_pages_in_order(pre: &Self, page: OperationHistoryResponse<R>, post: &Self)
        requires
            Self::after_page(pre, page, post),
        ensures
            page.operations.len() > 0 ==> post.pending@ == page.operations@,
            page.operations.len() > 0 ==> (page.next_record matches Some(c) ==> !post.finished
                && post.cursor == c),
            page.operations.len() == 0 || page.next_record is None ==> post.finished,
            page.operations.len() == 0 ==> post.pending@.len() == 0,
    {
    }

    /// Takes in a page of records.
    pub fn accept_page(&mut self, page: OperationHistoryResponse<R>)
        ensures
            Self::after_page(old(self), page, final(self)),
    {
        if page.operations.len() == 0 {
            self.finished = true;
            self.pending = Vec::new();
        } else {
            self.pending = page.operations;
            match page.next_record {
                Some(c) => {
                    self.cursor = c;
                    self.finished = false;
                },
                None => self.finished = true,
            }
        }
    }

    /// Ends the listing on an error.
    pub open spec fn failed(pre: &Self, post: &Self) -> bool {
        &&& post.caller == pre.caller
        &&& post.query == pre.query
        &&& post.cursor == pre.cursor
        &&& post.finished
        &&& post.pending@.len() == 0
    }

    /// Hands out the first pending record.
    pub open spec fn handed_out(pre: &Self, post: &Self, r: Option<Result<R, ApiError>>) -> bool {
        &&& r == Some(Ok::<R, ApiError>(pre.pending@[0]))
        &&& post.pending@ == pre.pending@.drop_first()
        &&& post.caller == pre.caller
        &&& post.query == pre.query
        &&& post.cursor == pre.cursor
        &&& post.finished == pre.finished
    }

    /// What a fetch yields after the reply `reply` arrived.
    pub open spec fn fetched(
        pre: &Self,
        reply: Result<String, ApiError>,
        post: &Self,
        r: Option<Result<R, ApiError>>,
    ) -> bool {
        match reply {
            Err(e) => r == Some(Err::<R, ApiError>(e)) && Self::failed(pre, post),
            Ok(body) => exists|env: Result<Rsp<OperationHistoryResponse<R>>, ApiError>|
                #[trigger] envelope_of::<OperationHistoryResponse<R>>(body@, env) && match env {
                    Err(e) => r == Some(Err::<R, ApiError>(e)) && Self::failed(pre, post),
                    Ok(Rsp::Error { error }) => r == Some(Err::<R, ApiError>(ApiError::Remote(error)))
                        && Self::failed(pre, post),
                    Ok(Rsp::OK(page)) => exists|mid: Self|
                        #[trigger] Self::after_page(pre, page, &mid) && if mid.pending@.len() == 0 {
                            r is None && *post == mid
                        } else {
                            Self::handed_out(&mid, post, r)
                        },
                },
        }
    }

    fn take_first(&mut self) -> (r: Option<Result<R, ApiError>>)
        requires
            old(self).pending@.len() > 0,
        ensures
            Self::handed_out(old(self), final(self), r),
    {
        let x = self.pending.remove(0);
        Some(Ok(x))
    }

    fn fail(&mut self, e: ApiError) -> (r: Option<Result<R, ApiError>>)
        ensures
            r == Some(Err::<R, ApiError>(e)),
            Self::failed(old(self), final(self)),
    {
        self.finished = true;
        self.pending = Vec::new();
        Some(Err(e))
    }

    /// The next record, or the error that ends the listing, or nothing once
    /// it has ended. A page is requested only when no record is pending.
    pub fn next(&mut self) -> (r: Option<Result<R, ApiError>>)
        ensures
            old(self).pending@.len() > 0 ==> Self::handed_out(old(self), final(self), r),
            old(self).pending@.len() == 0 && old(self).finished ==> r is None && *final(self)
                == *old(self),
            old(self).pending@.len() == 0 && !old(self).finished ==> exists|
                reply: Result<String, ApiError>,
            |
                #[trigger] old(self).caller.transport.may_reply(
                    HISTORY_ENDPOINT@,
                    history_params_spec(old(self).query, old(self).cursor),
                    old(self).caller.bearer_view(),
                    reply,
                ) && Self::fetched(old(self), reply, final(self), r),
    {
        if self.pending.len() > 0 {
            return self.take_first();
        }
        if self.finished {
            return None;
        }
        let ghost pre = *self;
        let params = history_params(&self.query, self.cursor);
        let reply = self.caller.transport.call(HISTORY_ENDPOINT, &params, &self.caller.bearer);
        let ghost greply = reply;
        assert(pre.caller.transport.may_reply(
            HISTORY_ENDPOINT@,
            history_params_spec(pre.query, pre.cursor),
            pre.caller.bearer_view(),
            greply,
        ));
        let body = match reply {
            Ok(b) => b,
            Err(e) => {
                return self.fail(e);
            },
        };
        let env = crate::envelope::decode_envelope::<OperationHistoryResponse<R>>(body.as_str());
        let ghost genv = env;
        assert(envelope_of::<OperationHistoryResponse<R>>(body@, genv));
        let page = match env {
            Err(e) => {
                return self.fail(e);
            },
            Ok(Rsp::Error { error }) => {
                return self.fail(ApiError::Remote(error));
            },
            Ok(Rsp::OK(page)) => page,
        };
        let ghost gpage = page;
        self.accept_page(page);
        let ghost mid = *self;
        assert(Self::after_page(&pre, gpage, &mid));
        if self.pending.len() == 0 {
            None
        } else {
            self.take_first()
        }
    }
}

} // verus!
