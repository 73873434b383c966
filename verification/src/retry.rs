//! Cost-aware retry decisions.
//!
//! The HTTP attempts and the sleeps between them belong to the caller; this
//! module decides, after each attempt, whether the outcome is final or the
//! request is to be tried again, and keeps the attempt count within the
//! configured limit.

use vstd::prelude::*;

use crate::errors::{AudDError, ErrorSource};
use crate::text::string_of;

verus! {

/// Determines which conditions are retryable for a given endpoint.
///
/// * `Read` — idempotent reads: retry on 408/429/5xx and any connection error.
/// * `Recognition` — metered endpoints: retry on pre-upload connection
///   failures and 5xx, never on a read timeout after the upload.
/// * `Mutating` — state-changing endpoints: retry only on pre-upload
///   connection failures, never on a response.
#[derive(Debug, Clone, Copy, PartialEq, Eq, Structural)]
pub enum RetryClass {
    /// Idempotent reads.
    Read,
    /// Recognition / metered endpoints.
    Recognition,
    /// State-mutating endpoints.
    Mutating,
}

/// Whether an HTTP status is worth another attempt for `class`.
pub open spec fn status_is_retryable(status: int, class: RetryClass) -> bool {
    match class {
        RetryClass::Read => status == 408 || status == 429 || status >= 500,
        RetryClass::Recognition => status >= 500,
        RetryClass::Mutating => false,
    }
}

/// A transport failure from before the request body reached the server.
pub open spec fn failed_before_upload(src: ErrorSource) -> bool {
    match src {
        ErrorSource::Transport { is_connect, is_request, is_timeout } => is_connect || (is_request
            && !is_timeout),
        ErrorSource::Other => false,
    }
}

/// Whether an error from the HTTP layer is worth another attempt for `class`:
/// only connection errors are; a read retries every one of them, the other
/// classes only those that failed before the upload.
pub open spec fn error_is_retryable(err: AudDError, class: RetryClass) -> bool {
    match err {
        AudDError::Connection { source, .. } => class == RetryClass::Read || match source {
            Some(src) => failed_before_upload(src),
            None => false,
        },
        _ => false,
    }
}

/// Decide whether to retry given a response status code.
pub fn should_retry_response(status: u16, class: RetryClass) -> (r: bool)
    ensures
        r == status_is_retryable(status as int, class),
{
    match class {
        RetryClass::Read => status == 408 || status == 429 || status >= 500,
        RetryClass::Recognition => status >= 500,
        RetryClass::Mutating => false,
    }
}

/// Heuristic for "the request body never made it to the server, so retrying
/// is safe": a connect failure, or a request failure that is not a timeout.
pub fn is_pre_upload_connection_error(src: &ErrorSource) -> (r: bool)
    ensures
        r == failed_before_upload(*src),
{
    match src {
        ErrorSource::Transport { is_connect, is_request, is_timeout } => *is_connect || (
        *is_request && !*is_timeout),
        ErrorSource::Other => false,
    }
}

/// Decide whether to retry given an error from the HTTP layer.
pub fn should_retry_error(err: &AudDError, class: RetryClass) -> (r: bool)
    ensures
        r == error_is_retryable(*err, class),
{
    match err {
        AudDError::Connection { source, .. } => {
            if class == RetryClass::Read {
                return true;
            }
            match source {
                Some(src) => is_pre_upload_connection_error(src),
                None => false,
            }
        },
        _ => false,
    }
}

/// A mutating request is never retried because of a response: the side
/// effect may already have happened.
pub proof fn lemma_mutating_never_retries_response(status: int)
    ensures
        !status_is_retryable(status, RetryClass::Mutating),
{
}

/// The classes are ordered by caution: whatever a mutating request retries a
/// recognition retries, and whatever a recognition retries a read retries,
/// for responses and for errors alike.
pub proof fn lemma_classes_ordered_by_caution(status: int, err: AudDError)
    ensures
        status_is_retryable(status, RetryClass::Mutating) ==> status_is_retryable(
            status,
            RetryClass::Recognition,
        ),
        status_is_retryable(status, RetryClass::Recognition) ==> status_is_retryable(
            status,
            RetryClass::Read,
        ),
        error_is_retryable(err, RetryClass::Mutating) == error_is_retryable(
            err,
            RetryClass::Recognition,
        ),
        error_is_retryable(err, RetryClass::Recognition) ==> error_is_retryable(
            err,
            RetryClass::Read,
        ),
{
}

/// A read timeout after the upload is never retried by a metered or
/// mutating request, so the server is not billed twice; a read retries it.
pub proof fn lemma_post_upload_timeout_not_retried(message: String, is_request: bool)
    ensures
        ({
            let e = AudDError::Connection {
                message,
                source: Some(
                    ErrorSource::Transport { is_connect: false, is_request, is_timeout: true },
                ),
            };
            &&& !error_is_retryable(e, RetryClass::Recognition)
            &&& !error_is_retryable(e, RetryClass::Mutating)
            &&& error_is_retryable(e, RetryClass::Read)
        }),
{
}

/// Only connection errors are ever retried: an error carrying a response
/// (an API, server or serialization error) or a caller mistake is final for
/// every class.
pub proof fn lemma_only_connection_errors_retried(err: AudDError, class: RetryClass)
    requires
        !(err is Connection),
    ensures
        !error_is_retryable(err, class),
{
}

/// What the caller does after an attempt.
#[derive(Debug, Clone, Copy, PartialEq, Eq, Structural)]
pub enum RetryStep {
    /// Hand the outcome of this attempt to the caller of the request.
    Finish,
    /// Sleep for the backoff of attempt `backoff_attempt`, then try again.
    Retry { backoff_attempt: u32 },
}

/// The progress of one request through its attempts.
#[derive(Debug)]
pub struct RetryLoop {
    attempt: u32,
    max_attempts: u32,
    class: RetryClass,
}

impl RetryLoop {
    /// Zero-based index of the attempt in progress.
    pub closed spec fn current(self) -> nat {
        self.attempt as nat
    }

    /// Maximum total attempts, the first included.
    pub closed spec fn limit(self) -> nat {
        self.max_attempts as nat
    }

    /// The class whose rules decide what is retried.
    pub closed spec fn retry_class(self) -> RetryClass {
        self.class
    }

    #[verifier::type_invariant]
    spec fn within_limit(self) -> bool {
        self.attempt < self.max_attempts
    }

    /// Begin the first attempt of a request; `None` when `max_attempts` is 0,
    /// where no attempt may be made at all.
    pub fn start(class: RetryClass, max_attempts: u32) -> (r: Option<RetryLoop>)
        ensures
            r is None <==> max_attempts == 0,
            r matches Some(l) ==> l.current() == 0 && l.limit() == max_attempts
                && l.retry_class() == class,
    {
        if max_attempts == 0 {
            None
        } else {
            Some(RetryLoop { attempt: 0, max_attempts, class })
        }
    }

    /// Zero-based index of the attempt in progress.
    pub fn attempt(&self) -> (r: u32)
        ensures
            r == self.current(),
            self.current() < self.limit(),
    {
        proof {
            use_type_invariant(self);
        }
        self.attempt
    }

    /// Maximum total attempts, the first included.
    pub fn max_attempts(&self) -> (r: u32)
        ensures
            r == self.limit(),
    {
        self.max_attempts
    }

    /// Record the outcome of the attempt in progress: another attempt follows
    /// exactly when the outcome is retryable and the limit leaves room for it.
    pub fn record(&mut self, retryable: bool) -> (s: RetryStep)
        ensures
            final(self).limit() == old(self).limit(),
            final(self).retry_class() == old(self).retry_class(),
            final(self).current() < final(self).limit(),
            retryable && old(self).current() + 1 < old(self).limit() ==> s == (RetryStep::Retry {
                backoff_attempt: old(self).current() as u32,
            }) && final(self).current() == old(self).current() + 1,
            !(retryable && old(self).current() + 1 < old(self).limit()) ==> s == RetryStep::Finish
                && final(self).current() == old(self).current(),
    {
        proof {
            use_type_invariant(&*self);
        }
        let a = self.attempt;
        if retryable && a + 1 < self.max_attempts {
            self.attempt = a + 1;
            RetryStep::Retry { backoff_attempt: a }
        } else {
            RetryStep::Finish
        }
    }

    /// Record an attempt that produced an HTTP response with `status`.
    pub fn after_response(&mut self, status: u16) -> (s: RetryStep)
        ensures
            final(self).limit() == old(self).limit(),
            final(self).retry_class() == old(self).retry_class(),
            final(self).current() < final(self).limit(),
            ({
                let go = status_is_retryable(status as int, old(self).retry_class())
                    && old(self).current() + 1 < old(self).limit();
                &&& go ==> s == (RetryStep::Retry { backoff_attempt: old(self).current() as u32 })
                    && final(self).current() == old(self).current() + 1
                &&& !go ==> s == RetryStep::Finish && final(self).current() == old(self).current()
            }),
    {
        let retryable = should_retry_response(status, self.class);
        self.record(retryable)
    }

    /// Record an attempt that failed with `err` before any response.
    pub fn after_error(&mut self, err: &AudDError) -> (s: RetryStep)
        ensures
            final(self).limit() == old(self).limit(),
            final(self).retry_class() == old(self).retry_class(),
            final(self).current() < final(self).limit(),
            ({
                let go = error_is_retryable(*err, old(self).retry_class()) && old(self).current()
                    + 1 < old(self).limit();
                &&& go ==> s == (RetryStep::Retry { backoff_attempt: old(self).current() as u32 })
                    && final(self).current() == old(self).current() + 1
                &&& !go ==> s == RetryStep::Finish && final(self).current() == old(self).current()
            }),
    {
        let retryable = should_retry_error(err, self.class);
        self.record(retryable)
    }
}

/// The text of the error returned when a request is allowed no attempt.
pub open spec fn no_attempt_text() -> Seq<char> {
    "retry loop exited without result (max_attempts=0?)"@
}

/// The error returned when a request is allowed no attempt at all.
pub fn no_attempt_error() -> (e: AudDError)
    ensures
        match e {
            AudDError::Connection { message, source } => message@ == no_attempt_text()
                && source is None,
            _ => false,
        },
{
    AudDError::Connection {
        message: string_of("retry loop exited without result (max_attempts=0?)"),
        source: None,
    }
}

/// Every server error (5xx) is retried by reads and by metered
/// recognitions, and a read also retries 408 and 429.
pub proof fn lemma_server_errors_retried(status: int)
    ensures
        status >= 500 ==> status_is_retryable(status, RetryClass::Recognition)
            && status_is_retryable(status, RetryClass::Read),
        status == 408 || status == 429 ==> status_is_retryable(status, RetryClass::Read),
        status < 500 ==> !status_is_retryable(status, RetryClass::Recognition),
{
}

} // verus!
