//! Reporting GPU work to the mint.
use crate::float64::F64;
use crate::http::{HttpRequest, Method, Outcome};
use crate::job::hyphenated;
use crate::json::{member_value, JsonView};
use crate::laws::exchange::{agreed, asks, document};
use crate::laws::replies::{counts, may_tell, measures, size, tells};
use crate::mint_allowlist::{anchor_request, check_mint_eligible, contribution_request};
use crate::mint_allowlist::{get_zangbeto_anchor, mint_eligibility_request};
use crate::mint_allowlist::{notify_gpu_contribution, osovm_base, Contribution, NotifyEvent};
use crate::mint_allowlist::NotifyStep;
use crate::receipt::ComputeReceipt;
use crate::server::contribution_of;
use vstd::prelude::*;

verus! {

/// Whether a number of seconds is above zero: not zero, not negative, and a number.
pub open spec fn some_time(x: F64) -> bool {
    0 < x.bits <= 0x7ff0_0000_0000_0000
}

/// The mint's address is the configured one, or the usual one.
pub proof fn law_mint_address(url: Option<&str>, r: String)
    requires
        call_ensures(osovm_base, (url,), r),
    ensures
        url matches Some(u) ==> r@ == u@,
        url is None ==> r@ == "http://127.0.0.1:7780"@,
{
}

/// An anchor is asked for where a service for anchors is configured: by the name of the
/// job, for a receipt of computing, within five seconds.
pub proof fn law_anchor_asked_for(url: Option<&str>, job_id: &str, r: Option<HttpRequest>)
    requires
        call_ensures(anchor_request, (url, job_id), r),
    ensures
        r is Some <==> url is Some,
        r matches Some(q) ==> {
            &&& asks(q, Method::Post, url->0@ + "/api/anchor"@, None)
            &&& q.timeout_secs == Some(5u64)
            &&& q.body matches Some(body) && size(body@) == 2 && tells(
                body@,
                "job_id"@,
                job_id@,
            ) && tells(body@, "receipt_type"@, "compute"@)
        },
{
    reveal_strlit("job_id");
    reveal_strlit("receipt_type");
    assert("job_id"@.len() == 6 && "receipt_type"@.len() == 12);
    reveal_with_fuel(member_value, 3);
}

/// The anchor is the text under `anchor`, else under `zangbeto_anchor`, in a reply of
/// success; there is none in any other.
pub proof fn law_anchor_by_name(outcome: &Outcome, r: Option<String>)
    requires
        call_ensures(get_zangbeto_anchor, (outcome,), r),
    ensures
        !agreed(*outcome) ==> r is None,
        agreed(*outcome) ==> (match (
            document(*outcome).get("anchor"@),
            document(*outcome).get("zangbeto_anchor"@),
        ) {
            (Some(JsonView::Str(s)), _) => r matches Some(t) && t@ == s,
            (_, Some(JsonView::Str(s))) => r matches Some(t) && t@ == s,
            _ => r is None,
        }),
{
}

proof fn lemma_allowlist_apart()
    ensures
        "gpu_seconds"@ != "provider_id"@,
        "gpu_seconds"@ != "zangbeto_anchor"@,
        "provider_id"@ != "zangbeto_anchor"@,
{
    reveal_strlit("gpu_seconds");
    reveal_strlit("provider_id");
    reveal_strlit("zangbeto_anchor");
    assert("gpu_seconds"@.len() == 11);
    assert("provider_id"@.len() == 11);
    assert("zangbeto_anchor"@.len() == 15);
    assert("gpu_seconds"@[0] != "provider_id"@[0]);
}

/// The mint is asked whether a provider may mint where there was GPU time: with the
/// provider, the time and the anchor, within five seconds.
pub proof fn law_eligibility_asked_for(
    url: Option<&str>,
    base: String,
    provider_id: &str,
    gpu_seconds: F64,
    anchor: Option<&str>,
    r: Option<HttpRequest>,
)
    requires
        call_ensures(mint_eligibility_request, (url, provider_id, gpu_seconds, anchor), r),
        call_ensures(osovm_base, (url,), base),
    ensures
        r is Some <==> some_time(gpu_seconds),
        r matches Some(q) ==> {
            &&& asks(q, Method::Post, base@ + "/api/toc/allowlist/check"@, None)
            &&& q.timeout_secs == Some(5u64)
            &&& q.body matches Some(body) && {
                &&& size(body@) == 3
                &&& tells(body@, "provider_id"@, provider_id@)
                &&& measures(body@, "gpu_seconds"@, gpu_seconds)
                &&& anchor matches Some(s) ==> tells(body@, "zangbeto_anchor"@, s@)
                &&& anchor is None ==> body@.get("zangbeto_anchor"@) == Some(JsonView::Null)
            }
        },
{
    lemma_allowlist_apart();
    reveal_with_fuel(member_value, 4);
}

/// A provider with GPU time may mint unless the mint forbids it: a reply of 403 forbids,
/// and neither any other reply nor the want of one does.
pub proof fn law_eligible_unless_forbidden(gpu_seconds: F64, asked: &Outcome, r: bool)
    requires
        call_ensures(check_mint_eligible, (gpu_seconds, asked), r),
    ensures
        r <==> some_time(gpu_seconds) && !(*asked matches Outcome::Replied { status, .. } && status
            == 403),
{
}

proof fn lemma_contribution_apart()
    ensures
        "gpu_seconds"@ != "job_id"@,
        "gpu_seconds"@ != "provider_id"@,
        "gpu_seconds"@ != "submitter_id"@,
        "gpu_seconds"@ != "timestamp"@,
        "gpu_seconds"@ != "zangbeto_anchor"@,
        "job_id"@ != "provider_id"@,
        "job_id"@ != "submitter_id"@,
        "job_id"@ != "timestamp"@,
        "job_id"@ != "zangbeto_anchor"@,
        "provider_id"@ != "submitter_id"@,
        "provider_id"@ != "timestamp"@,
        "provider_id"@ != "zangbeto_anchor"@,
        "submitter_id"@ != "timestamp"@,
        "submitter_id"@ != "zangbeto_anchor"@,
        "timestamp"@ != "zangbeto_anchor"@,
{
    reveal_strlit("gpu_seconds");
    reveal_strlit("job_id");
    reveal_strlit("provider_id");
    reveal_strlit("submitter_id");
    reveal_strlit("timestamp");
    reveal_strlit("zangbeto_anchor");
    assert("gpu_seconds"@.len() == 11);
    assert("job_id"@.len() == 6);
    assert("provider_id"@.len() == 11);
    assert("submitter_id"@.len() == 12);
    assert("timestamp"@.len() == 9);
    assert("zangbeto_anchor"@.len() == 15);
    assert("gpu_seconds"@[0] != "provider_id"@[0]);
}

/// GPU work is reported with the provider, the agent as its submitter, the job, the
/// time, the anchor and when, within ten seconds.
pub proof fn law_contribution_reported(
    url: Option<&str>,
    base: String,
    c: &Contribution,
    timestamp: u64,
    q: HttpRequest,
)
    requires
        call_ensures(contribution_request, (url, c, timestamp), q),
        call_ensures(osovm_base, (url,), base),
    ensures
        asks(q, Method::Post, base@ + "/api/osovm/gpu_contribution"@, None),
        q.timeout_secs == Some(10u64),
        q.body matches Some(body) && {
            &&& size(body@) == 6
            &&& tells(body@, "provider_id"@, c.provider_id@)
            &&& tells(body@, "submitter_id"@, c.agent_id@)
            &&& tells(body@, "job_id"@, c.job_id@)
            &&& measures(body@, "gpu_seconds"@, c.gpu_seconds)
            &&& may_tell(body@, "zangbeto_anchor"@, c.zangbeto_anchor)
            &&& counts(body@, "timestamp"@, timestamp)
        },
{
    lemma_contribution_apart();
    reveal_with_fuel(member_value, 7);
}

/// A report goes on step by step: the mint is asked whether the provider may mint, then
/// the work is reported, then it is done, with success where the mint took the report.
/// It ends without one where there was no GPU time or the mint forbids it.
pub proof fn law_report_steps(
    url: Option<&str>,
    c: &Contribution,
    asked: Outcome,
    sent: Outcome,
    timestamp: u64,
    anchor: Option<&str>,
    provider_id: &str,
    question: Option<HttpRequest>,
    eligible: bool,
    report: HttpRequest,
    first: NotifyStep,
    second: NotifyStep,
    last: NotifyStep,
)
    requires
        provider_id@ == c.provider_id@,
        match (anchor, c.zangbeto_anchor) {
            (Some(s), Some(t)) => s@ == t@,
            (None, None) => true,
            _ => false,
        },
        call_ensures(
            mint_eligibility_request,
            (url, provider_id, c.gpu_seconds, anchor),
            question,
        ),
        call_ensures(check_mint_eligible, (c.gpu_seconds, &asked), eligible),
        call_ensures(contribution_request, (url, c, timestamp), report),
        call_ensures(notify_gpu_contribution, (url, c, &NotifyEvent::Start, timestamp), first),
        call_ensures(
            notify_gpu_contribution,
            (url, c, &NotifyEvent::AllowlistAsked(asked), timestamp),
            second,
        ),
        call_ensures(
            notify_gpu_contribution,
            (url, c, &NotifyEvent::ContributionSent(sent), timestamp),
            last,
        ),
    ensures
        match question {
            Some(q) => first matches NotifyStep::AskAllowlist(p) && p@ == q@,
            None => first == NotifyStep::Done(false),
        },
        eligible ==> (second matches NotifyStep::SendContribution(p) && p@ == report@),
        !eligible ==> second == NotifyStep::Done(false),
        last == NotifyStep::Done(agreed(sent)),
{
}

/// What a receipt reports is its own: its provider, its job, its GPU time and its
/// anchor. The agent is the configured one, or the provider. There is something to
/// report where there was GPU time.
pub proof fn law_contribution_of_receipt(
    receipt: &ComputeReceipt,
    agent_id: Option<&str>,
    r: Option<Contribution>,
)
    requires
        call_ensures(contribution_of, (receipt, agent_id), r),
    ensures
        r is Some <==> some_time(receipt.resources.gpu_seconds),
        r matches Some(c) ==> {
            &&& c.provider_id@ == receipt.provider_id@
            &&& agent_id matches Some(s) ==> c.agent_id@ == s@
            &&& agent_id is None ==> c.agent_id@ == receipt.provider_id@
            &&& c.job_id@ == hyphenated(receipt.job_id)
            &&& c.gpu_seconds == receipt.resources.gpu_seconds
            &&& match (c.zangbeto_anchor, receipt.zangbeto_anchor) {
                (Some(s), Some(t)) => s@ == t@,
                (None, None) => true,
                _ => false,
            }
        },
{
}

} // verus!
