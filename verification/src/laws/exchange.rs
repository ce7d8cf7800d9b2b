//! Requests to services and their replies.
use crate::http::{bearer_header, is_success, HttpRequest, Method, Outcome};
use crate::job::{hyphenated, JobId, UcxError};
use crate::json::JsonView;
use vstd::prelude::*;

verus! {

/// Whether a request is one of this method to this address, with this key where one is
/// given.
pub open spec fn asks(r: HttpRequest, method: Method, url: Seq<char>, key: Option<Seq<char>>) -> bool {
    &&& r.method == method
    &&& r.url@ == url
    &&& match key {
        Some(key) => r.authorization matches Some(header) && header@ == "Bearer "@ + key,
        None => r.authorization is None,
    }
}

/// The JSON document that a service replied with, or null.
pub open spec fn document(outcome: Outcome) -> JsonView {
    match outcome {
        Outcome::Replied { body: Some(d), .. } => d.json@,
        _ => JsonView::Null,
    }
}

/// Whether a service replied with a status that means success.
pub open spec fn agreed(outcome: Outcome) -> bool {
    outcome matches Outcome::Replied { status, .. } && 200 <= status <= 299
}

/// Whether an error is that of a service, with this reason.
pub open spec fn blames(e: UcxError, adapter: Seq<char>, reason: Seq<char>) -> bool {
    e matches UcxError::Adapter { adapter: a, reason: r } && a@ == adapter && r@ == reason
}

/// Whether an error says that a job is not known.
pub open spec fn knows_not(e: UcxError, id: JobId) -> bool {
    e matches UcxError::JobNotFound { job_id } && job_id@ == hyphenated(id)
}

/// The statuses from 200 to 299 mean success, and no others.
pub proof fn law_success_statuses(status: u16, r: bool)
    requires
        call_ensures(is_success, (status,), r),
    ensures
        r <==> 200 <= status <= 299,
{
}

/// A key is sent as a bearer token; two keys are never sent alike.
pub proof fn law_key_sent_as_bearer(key: &str, other: &str, r: String, s: String)
    requires
        call_ensures(bearer_header, (key,), r),
        call_ensures(bearer_header, (other,), s),
    ensures
        r@ == "Bearer "@ + key@,
        r@ == s@ ==> key@ == other@,
{
    if r@ == s@ {
        let n = "Bearer "@.len() as int;
        assert(r@.skip(n) =~= key@);
        assert(s@.skip(n) =~= other@);
    }
}

} // verus!
