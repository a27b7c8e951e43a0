use vstd::prelude::*;
use vstd::utf8::encode_utf8;

use crate::error::CsshError;
use crate::protocol::{ExecuteRequest, ExecuteResponse};
use crate::text::utf8_bytes;

verus! {

/// Consecutive authentication failures after which each new connection waits.
pub const MAX_FAILURES_BEFORE_DELAY: u32 = 3;

/// How long, in seconds, a connection waits once the threshold is reached.
pub const DELAY_SECONDS: u64 = 10;

/// Counts consecutive authentication failures, to slow down token guessing.
pub struct BruteForceGuard {
    consecutive_failures: u32,
}

impl View for BruteForceGuard {
    type V = nat;

    /// The number of authentication failures since the last success.
    closed spec fn view(&self) -> nat {
        self.consecutive_failures as nat
    }
}

impl BruteForceGuard {
    /// A guard that has seen no failure.
    pub fn new() -> (g: Self)
        ensures
            g@ == 0,
    {
        BruteForceGuard { consecutive_failures: 0 }
    }

    /// Counts one more failure; says whether connections must now wait.
    pub fn record_failure(&mut self) -> (delay: bool)
        requires
            old(self)@ < u32::MAX,
        ensures
            final(self)@ == old(self)@ + 1,
            delay == (final(self)@ >= MAX_FAILURES_BEFORE_DELAY),
    {
        self.consecutive_failures = self.consecutive_failures + 1;
        self.consecutive_failures >= MAX_FAILURES_BEFORE_DELAY
    }

    /// Forgets the failures, after a successful authentication.
    pub fn record_success(&mut self)
        ensures
            final(self)@ == 0,
    {
        self.consecutive_failures = 0;
    }

    /// The number of failures since the last success.
    pub fn consecutive_failures(&self) -> (n: u32)
        ensures
            n == self@,
    {
        self.consecutive_failures
    }

    /// Whether a new connection must wait before it is served.
    pub fn delay_required(&self) -> (r: bool)
        ensures
            r == (self@ >= MAX_FAILURES_BEFORE_DELAY),
    {
        self.consecutive_failures >= MAX_FAILURES_BEFORE_DELAY
    }
}

/// `subtle::ConstantTimeEq::ct_eq` on two byte slices, turned into a `bool`
/// by subtle's `From<Choice> for bool`: true exactly when the slices have the
/// same length and the same bytes. That the comparison takes the same time
/// whatever the contents is not stated.
#[verifier::external_body]
fn ct_eq_bytes(a: &[u8], b: &[u8]) -> (r: bool)
    ensures
        r == (a@ == b@),
{
    bool::from(subtle::ConstantTimeEq::ct_eq(a, b))
}

/// Compares two tokens in constant time.
pub fn constant_time_token_eq(a: &str, b: &str) -> (r: bool)
    ensures
        r == (a@ == b@),
{
    let r = ct_eq_bytes(a.as_bytes(), b.as_bytes());
    proof {
        vstd::utf8::encode_utf8_decode_utf8(a@);
        vstd::utf8::encode_utf8_decode_utf8(b@);
    }
    r
}

/// The answer to a request that carried the wrong token.
pub open spec fn is_refusal(resp: ExecuteResponse) -> bool {
    &&& resp.exit_code == 1
    &&& resp.stdout@ == Seq::<u8>::empty()
    &&& resp.stderr@ == encode_utf8("authentication failed"@)
}

/// The answer to a request whose command could not be started.
pub open spec fn is_execution_failure(resp: ExecuteResponse) -> bool {
    &&& resp.exit_code == 1
    &&& resp.stdout@ == Seq::<u8>::empty()
    &&& resp.stderr@ == encode_utf8("command execution failed"@)
}

/// The verdict on a request's token.
pub enum Authorization {
    /// The request may run.
    Accepted,
    /// The request is refused, with this answer.
    Rejected(ExecuteResponse),
}

/// Checks a request's token against the expected one, where the agent expects
/// one, and keeps the failure count: a mismatch counts one more failure and
/// is answered with a refusal; a match resets the count.
pub fn authorize(request: &ExecuteRequest, expected: Option<&str>, guard: &mut BruteForceGuard) -> (r:
    Authorization)
    requires
        (expected matches Some(t) && request.token@ != t@) ==> old(guard)@ < u32::MAX,
    ensures
        expected is None ==> (r is Accepted && final(guard)@ == old(guard)@),
        (expected matches Some(t) && request.token@ == t@) ==> (r is Accepted && final(guard)@
            == 0),
        (expected matches Some(t) && request.token@ != t@) ==> (r matches Authorization::Rejected(
            resp,
        ) && is_refusal(resp) && final(guard)@ == old(guard)@ + 1),
{
    match expected {
        None => Authorization::Accepted,
        Some(t) => {
            if constant_time_token_eq(request.token.as_str(), t) {
                guard.record_success();
                Authorization::Accepted
            } else {
                guard.record_failure();
                Authorization::Rejected(
                    ExecuteResponse {
                        exit_code: 1,
                        stdout: Vec::new(),
                        stderr: utf8_bytes("authentication failed"),
                    },
                )
            }
        },
    }
}

/// The answer sent back for an executed request: the command's own result,
/// or, where it could not be started, a fixed failure answer that tells
/// nothing of the reason.
pub fn execution_response(result: Result<ExecuteResponse, CsshError>) -> (r: ExecuteResponse)
    ensures
        result matches Ok(resp) ==> r == resp,
        result is Err ==> is_execution_failure(r),
{
    match result {
        Ok(resp) => resp,
        Err(_) => ExecuteResponse {
            exit_code: 1,
            stdout: Vec::new(),
            stderr: utf8_bytes("command execution failed"),
        },
    }
}

/// What reading the next request of a connection gave.
pub enum ReadOutcome {
    /// A request arrived.
    Request(ExecuteRequest),
    /// Reading failed. `disconnected` tells whether the failure is the peer
    /// going away (end of stream or connection reset).
    Failed { error: CsshError, disconnected: bool },
}

/// What the agent does next on a connection.
pub enum ConnectionStep {
    /// Run this request, send back `execution_response` of its result, and
    /// read the next request.
    Execute(ExecuteRequest),
    /// Send this answer, then end the connection with this error.
    RefuseAndEnd(ExecuteResponse, CsshError),
    /// End the connection with this result, sending nothing.
    End(Result<(), CsshError>),
}

/// Decides what the agent does after reading from a connection: a peer that
/// went away ends it quietly; another read failure ends it with that error; a
/// request with the wrong token (where one is expected) is answered with a
/// refusal and ends it with `AuthenticationFailed`, counting one failure; any
/// other request is executed and the connection stays open.
pub fn connection_step(read: ReadOutcome, expected: Option<&str>, guard: &mut BruteForceGuard) -> (r:
    ConnectionStep)
    requires
        (read matches ReadOutcome::Request(req) && expected matches Some(t) && req.token@ != t@)
            ==> old(guard)@ < u32::MAX,
    ensures
        match read {
            ReadOutcome::Failed { error, disconnected } => {
                &&& final(guard)@ == old(guard)@
                &&& if disconnected {
                    r matches ConnectionStep::End(Ok(()))
                } else {
                    r matches ConnectionStep::End(Err(e)) && e == error
                }
            },
            ReadOutcome::Request(req) => match expected {
                None => r matches ConnectionStep::Execute(q) && q == req && final(guard)@ == old(
                    guard,
                )@,
                Some(t) => if req.token@ == t@ {
                    r matches ConnectionStep::Execute(q) && q == req && final(guard)@ == 0
                } else {
                    r matches ConnectionStep::RefuseAndEnd(resp, CsshError::AuthenticationFailed)
                        && is_refusal(resp) && final(guard)@ == old(guard)@ + 1
                },
            },
        },
{
    match read {
        ReadOutcome::Failed { error, disconnected } => {
            if disconnected {
                ConnectionStep::End(Ok(()))
            } else {
                ConnectionStep::End(Err(error))
            }
        },
        ReadOutcome::Request(request) => match authorize(&request, expected, guard) {
            Authorization::Accepted => ConnectionStep::Execute(request),
            Authorization::Rejected(response) => ConnectionStep::RefuseAndEnd(
                response,
                CsshError::AuthenticationFailed,
            ),
        },
    }
}

} // verus!
