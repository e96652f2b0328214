//! The decisions of the request gateway: when an answer is delivered, when
//! it is worth refreshing the tokens and sending again, and when to give up.
//!
//! The caller owns the network.  It sends the request with the header of a
//! [`Request`], hands the answer to [`Request::on_response`], and does what
//! the [`Verdict`] says.  A refresh is asked for at most
//! [`MAX_REFRESH_ATTEMPTS`] times per request, whatever the server answers.

use vstd::prelude::*;
use crate::error::AppError;
use crate::model::ApiResponse;
use crate::token::opt_chars;
use crate::token::clone_opt_string;

verus! {

/// How often one request may have the tokens refreshed.
pub const MAX_REFRESH_ATTEMPTS: usize = 3;

/// Whether a transport status reports success (200 to 299).
pub open spec fn is_success_status(status: u16) -> bool {
    200 <= status < 300
}

/// Whether a transport status reports an authentication failure (401 or
/// 403).
pub open spec fn is_auth_failure(status: u16) -> bool {
    status == 401 || status == 403
}

/// Whether a transport status reports success (200 to 299).
pub fn is_success(status: u16) -> (success: bool)
    ensures
        success == is_success_status(status),
{
    200 <= status && status < 300
}

/// Whether a transport status reports an authentication failure (401 or
/// 403).
pub fn is_auth_error(status: u16) -> (auth: bool)
    ensures
        auth == is_auth_failure(status),
{
    status == 401 || status == 403
}

/// What the gateway reads of one answer of the remote side.
#[derive(Debug)]
pub struct Reply {
    /// The transport status.
    pub status: u16,
    /// The code of the envelope, where the server supplied one.
    pub code: Option<u16>,
    /// The `success` flag of the envelope.
    pub success: bool,
    /// The message of the envelope.
    pub message: String,
}

/// A [`Reply`] with its message as characters.
pub struct ReplyView {
    pub status: u16,
    pub code: Option<u16>,
    pub success: bool,
    pub message: Seq<char>,
}

impl ReplyView {
    /// The call succeeded: a success status and a `success` envelope.
    pub open spec fn succeeded(self) -> bool {
        is_success_status(self.status) && self.success
    }

    /// The code reported with a failure: the server's where it supplied
    /// one, else the transport status.
    pub open spec fn error_code(self) -> u16 {
        match self.code {
            Some(code) => code,
            None => self.status,
        }
    }
}

impl View for Reply {
    type V = ReplyView;

    open spec fn view(&self) -> ReplyView {
        ReplyView {
            status: self.status,
            code: self.code,
            success: self.success,
            message: self.message@,
        }
    }
}

impl Reply {
    /// What the gateway reads of an envelope that came with the given
    /// transport status: the envelope's code, flag and message.
    pub fn of<T>(status: u16, envelope: &ApiResponse<T>) -> (reply: Reply)
        ensures
            reply@ == (ReplyView {
                status,
                code: Some(envelope.code),
                success: envelope.success,
                message: envelope.message@,
            }),
    {
        Reply {
            status,
            code: Some(envelope.code),
            success: envelope.success,
            message: envelope.message.clone(),
        }
    }
}

/// What a request in flight is: the header it is sent with, whether it may
/// refresh the tokens, and how often it has done so.
pub struct RequestView {
    pub header: Option<Seq<char>>,
    pub retry: bool,
    pub refresh_attempts: nat,
}

/// What the gateway decides on an answer.
pub enum VerdictView {
    /// Hand the answer to the caller.
    Deliver,
    /// Refresh the tokens, then send again.
    Refresh,
    /// Give up with an `Api` error of this code and message.
    Fail { code: u16, message: Seq<char> },
}

impl RequestView {
    /// A refresh is still allowed: the request opted in, it carries a
    /// header, and it has refreshed less than the bound allows.
    pub open spec fn may_refresh(self) -> bool {
        self.retry && self.header is Some && self.refresh_attempts < MAX_REFRESH_ATTEMPTS
    }

    /// The decision on one answer.
    pub open spec fn decide(self, reply: ReplyView) -> VerdictView {
        if reply.succeeded() {
            VerdictView::Deliver
        } else if self.may_refresh() && is_auth_failure(reply.status) {
            VerdictView::Refresh
        } else {
            VerdictView::Fail { code: reply.error_code(), message: reply.message }
        }
    }

    /// The request after one successful refresh.
    pub open spec fn renewed(self, header: Seq<char>) -> RequestView {
        RequestView {
            header: Some(header),
            retry: self.retry,
            refresh_attempts: self.refresh_attempts + 1,
        }
    }
}

/// One outbound call, from the first attempt to its end.
pub struct Request {
    header: Option<String>,
    retry: bool,
    refresh_attempts: usize,
}

/// A request that waits for the tokens to be refreshed.
pub struct Refreshing {
    retry: bool,
    refresh_attempts: usize,
}

/// What to do after an answer.
pub enum Verdict {
    /// The call succeeded: hand the answer to the caller.
    Deliver,
    /// Refresh the tokens; on success continue with
    /// [`Refreshing::renewed`], on failure give up with the refresh error.
    Refresh(Refreshing),
    /// The call failed for good.
    Fail(AppError),
}

impl Refreshing {
    #[verifier::type_invariant]
    spec fn below_bound(&self) -> bool {
        self.refresh_attempts < MAX_REFRESH_ATTEMPTS
    }

    /// How often the request had refreshed before this refresh.
    pub closed spec fn refresh_attempts(&self) -> nat {
        self.refresh_attempts as nat
    }

    /// Whether the request opted into refreshing.
    pub closed spec fn retry(&self) -> bool {
        self.retry
    }

    /// The request to send again, with the header derived from the
    /// refreshed tokens and one more refresh on its count.
    pub fn renewed(self, header: String) -> (request: Request)
        ensures
            request@ == (RequestView {
                header: Some(header@),
                retry: self.retry(),
                refresh_attempts: self.refresh_attempts() + 1,
            }),
    {
        proof {
            use_type_invariant(&self);
        }
        Request {
            header: Some(header),
            retry: self.retry,
            refresh_attempts: self.refresh_attempts + 1,
        }
    }
}

impl Refreshing {
    /// The end of a request whose refresh failed: the request is over, no
    /// further refresh is tried, and the caller gets the cause of the
    /// failure as it is.
    pub fn failed(self, cause: AppError) -> (error: AppError)
        ensures
            error == cause,
    {
        cause
    }
}

impl View for Request {
    type V = RequestView;

    closed spec fn view(&self) -> RequestView {
        RequestView {
            header: opt_chars(self.header),
            retry: self.retry,
            refresh_attempts: self.refresh_attempts as nat,
        }
    }
}

impl Request {
    #[verifier::type_invariant]
    spec fn within_bound(&self) -> bool {
        self.refresh_attempts <= MAX_REFRESH_ATTEMPTS
    }

    /// A request that has not been sent yet.
    pub fn new(auth_header: Option<String>, retry: bool) -> (request: Request)
        ensures
            request@ == (RequestView {
                header: opt_chars(auth_header),
                retry,
                refresh_attempts: 0,
            }),
    {
        Request { header: auth_header, retry, refresh_attempts: 0 }
    }

    /// The header to send the request with.
    pub fn header(&self) -> (header: Option<String>)
        ensures
            opt_chars(header) == self@.header,
    {
        clone_opt_string(&self.header)
    }

    /// How often the request has had the tokens refreshed: never more
    /// than [`MAX_REFRESH_ATTEMPTS`] times.
    pub fn refresh_attempts(&self) -> (count: usize)
        ensures
            count == self@.refresh_attempts,
            count <= MAX_REFRESH_ATTEMPTS,
    {
        proof {
            use_type_invariant(self);
        }
        self.refresh_attempts
    }

    /// Decides on one answer.
    ///
    /// A success status together with a `success` envelope is delivered.
    /// An authentication failure asks for a refresh while the request opted
    /// in, carries a header and has refreshed less than the bound allows.
    /// Everything else fails with an `Api` error that carries the server's
    /// code where it supplied one, else the transport status, and the
    /// server's message.
    pub fn on_response(self, reply: Reply) -> (verdict: Verdict)
        ensures
            match verdict {
                Verdict::Deliver => self@.decide(reply@) == VerdictView::Deliver,
                Verdict::Refresh(waiting) => self@.decide(reply@) == VerdictView::Refresh
                    && waiting.retry() == self@.retry && waiting.refresh_attempts()
                    == self@.refresh_attempts,
                Verdict::Fail(error) => error matches AppError::Api { code, message }
                    && self@.decide(reply@) == (VerdictView::Fail { code, message: message@ }),
            },
    {
        if is_success(reply.status) && reply.success {
            return Verdict::Deliver;
        }
        if self.retry && self.header.is_some() && self.refresh_attempts < MAX_REFRESH_ATTEMPTS
            && is_auth_error(reply.status) {
            return Verdict::Refresh(
                Refreshing { retry: self.retry, refresh_attempts: self.refresh_attempts },
            );
        }
        let code = match reply.code {
            Some(code) => code,
            None => reply.status,
        };
        Verdict::Fail(AppError::api(code, reply.message))
    }
}

/// Where a request has got to after a given sequence of answers.
pub struct Run {
    /// How many refreshes were asked for.
    pub refreshes: nat,
    /// The final decision, `Deliver` or `Fail`; `None` while the request
    /// still waits for an answer.
    pub outcome: Option<VerdictView>,
}

/// Plays a request against the answers `replies`, in order, with every
/// refresh succeeding; `renewal` gives the header after the refresh with
/// a given number.
pub open spec fn run(
    request: RequestView,
    replies: Seq<ReplyView>,
    renewal: spec_fn(nat) -> Seq<char>,
) -> Run
    decreases replies.len(),
{
    if replies.len() == 0 {
        Run { refreshes: 0, outcome: None }
    } else {
        match request.decide(replies[0]) {
            VerdictView::Refresh => {
                let rest = run(
                    request.renewed(renewal(request.refresh_attempts)),
                    replies.skip(1),
                    renewal,
                );
                Run { refreshes: rest.refreshes + 1, outcome: rest.outcome }
            },
            verdict => Run { refreshes: 0, outcome: Some(verdict) },
        }
    }
}

/// Whatever the server answers, and however many answers there are, a
/// request asks for no more refreshes than the bound leaves it: a new
/// request for at most [`MAX_REFRESH_ATTEMPTS`].
pub proof fn law_refreshes_are_bounded(
    request: RequestView,
    replies: Seq<ReplyView>,
    renewal: spec_fn(nat) -> Seq<char>,
)
    requires
        request.refresh_attempts <= MAX_REFRESH_ATTEMPTS,
    ensures
        run(request, replies, renewal).refreshes + request.refresh_attempts
            <= MAX_REFRESH_ATTEMPTS,
    decreases replies.len(),
{
    if replies.len() > 0 {
        if request.decide(replies[0]) == VerdictView::Refresh {
            law_refreshes_are_bounded(
                request.renewed(renewal(request.refresh_attempts)),
                replies.skip(1),
                renewal,
            );
        }
    }
}

/// Against a server that answers every attempt with an authentication
/// failure, a request that may refresh does so until the bound is reached
/// and then fails with the `Api` error of the answer that followed the
/// last refresh; no further answer is asked for.
pub proof fn law_rejected_forever_fails(
    request: RequestView,
    replies: Seq<ReplyView>,
    renewal: spec_fn(nat) -> Seq<char>,
)
    requires
        request.retry,
        request.header is Some,
        request.refresh_attempts <= MAX_REFRESH_ATTEMPTS,
        replies.len() > MAX_REFRESH_ATTEMPTS - request.refresh_attempts,
        forall|i: int| 0 <= i < replies.len() ==> is_auth_failure(#[trigger] replies[i].status),
    ensures
        ({
            let last = replies[MAX_REFRESH_ATTEMPTS - request.refresh_attempts];
            run(request, replies, renewal) == (Run {
                refreshes: (MAX_REFRESH_ATTEMPTS - request.refresh_attempts) as nat,
                outcome: Some(
                    VerdictView::Fail { code: last.error_code(), message: last.message },
                ),
            })
        }),
    decreases replies.len(),
{
    assert(is_auth_failure(replies[0].status));
    if request.refresh_attempts < MAX_REFRESH_ATTEMPTS {
        let next = request.renewed(renewal(request.refresh_attempts));
        let rest = replies.skip(1);
        assert forall|i: int| 0 <= i < rest.len() implies is_auth_failure(
            #[trigger] rest[i].status,
        ) by {
            assert(rest[i] == replies[i + 1]);
        }
        law_rejected_forever_fails(next, rest, renewal);
        assert(rest[MAX_REFRESH_ATTEMPTS - next.refresh_attempts] == replies[MAX_REFRESH_ATTEMPTS
            - request.refresh_attempts]);
    }
}

/// A request whose first answer is a success is delivered without any
/// refresh.
pub proof fn law_first_success_needs_no_refresh(
    request: RequestView,
    replies: Seq<ReplyView>,
    renewal: spec_fn(nat) -> Seq<char>,
)
    requires
        replies.len() > 0,
        replies[0].succeeded(),
    ensures
        run(request, replies, renewal) == (Run {
            refreshes: 0,
            outcome: Some(VerdictView::Deliver),
        }),
{
}

} // verus!
