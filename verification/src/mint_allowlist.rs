//! Anchoring receipts with the Zàngbétò witness and reporting GPU work to OSOVM for
//! minting.
//!
//! The exchanges with the two services are laid out here; whoever runs them sends
//! the requests and hands back what became of each.
use crate::float64::{above_zero, F64};
use crate::http::{is_success, HttpRequest, Method, Outcome, RequestView};
use crate::json::{borrow_text, number, opt_str, opt_text, real_json, string_or_null, text, text_or_null};
use crate::json::{Fields, Json, JsonView};
use vstd::prelude::*;
use vstd::string::*;

verus! {

/// GPU work that was done for a job.
#[derive(Debug)]
pub struct Contribution {
    pub provider_id: String,
    pub agent_id: String,
    pub job_id: String,
    pub gpu_seconds: F64,
    /// The witness's anchor on the job's receipt. Work without one is trusted less,
    /// but not refused.
    pub zangbeto_anchor: Option<String>,
}

/// What came of the last step of reporting a contribution.
#[derive(Debug)]
pub enum NotifyEvent {
    /// Nothing was done yet.
    Start,
    /// The allowlist was asked.
    AllowlistAsked(Outcome),
    /// The contribution was sent.
    ContributionSent(Outcome),
}

/// What to do next to report a contribution.
#[derive(Debug)]
pub enum NotifyStep {
    /// Ask the allowlist for the provider.
    AskAllowlist(HttpRequest),
    /// Send the contribution.
    SendContribution(HttpRequest),
    /// Nothing more: whether the contribution was taken.
    Done(bool),
}

/// What a step is, with texts as sequences of characters.
pub enum StepView {
    AskAllowlist(RequestView),
    SendContribution(RequestView),
    Done(bool),
}

impl View for NotifyStep {
    type V = StepView;

    open spec fn view(&self) -> StepView {
        match self {
            NotifyStep::AskAllowlist(r) => StepView::AskAllowlist(r@),
            NotifyStep::SendContribution(r) => StepView::SendContribution(r@),
            NotifyStep::Done(b) => StepView::Done(*b),
        }
    }
}

/// Where OSOVM listens: as configured, or on this machine.
pub open spec fn osovm_address(osovm_url: Option<Seq<char>>) -> Seq<char> {
    match osovm_url {
        Some(url) => url,
        None => "http://127.0.0.1:7780"@,
    }
}

/// A request that posts a JSON body.
pub open spec fn post_json(url: Seq<char>, body: JsonView, timeout_secs: u64) -> RequestView {
    RequestView {
        method: Method::Post,
        url,
        authorization: None,
        body: Some(body),
        timeout_secs: Some(timeout_secs),
    }
}

pub open spec fn anchor_body(job_id: Seq<char>) -> JsonView {
    JsonView::Object(
        seq![
            ("job_id"@, JsonView::Str(job_id)),
            ("receipt_type"@, JsonView::Str("compute"@)),
        ],
    )
}

/// The request for an anchor.
pub open spec fn anchor_request_to(base: Seq<char>, job_id: Seq<char>) -> RequestView {
    post_json(base + "/api/anchor"@, anchor_body(job_id), 5)
}

/// The anchor in a reply of the witness: the text under `anchor`, or else under
/// `zangbeto_anchor`. A reply that is no success or no JSON has none.
pub open spec fn anchor_in(outcome: Outcome) -> Option<Seq<char>> {
    if !outcome.succeeded() {
        None
    } else if outcome.json().at("anchor"@).as_str() is Some {
        outcome.json().at("anchor"@).as_str()
    } else {
        outcome.json().at("zangbeto_anchor"@).as_str()
    }
}

pub open spec fn allowlist_body(
    provider_id: Seq<char>,
    gpu_seconds: F64,
    zangbeto_anchor: Option<Seq<char>>,
) -> JsonView {
    JsonView::Object(
        seq![
            ("provider_id"@, JsonView::Str(provider_id)),
            ("gpu_seconds"@, real_json(gpu_seconds)),
            ("zangbeto_anchor"@, string_or_null(zangbeto_anchor)),
        ],
    )
}

/// The request that asks the allowlist.
pub open spec fn allowlist_request_for(
    osovm_url: Option<Seq<char>>,
    provider_id: Seq<char>,
    gpu_seconds: F64,
    zangbeto_anchor: Option<Seq<char>>,
) -> RequestView {
    post_json(
        osovm_address(osovm_url) + "/api/toc/allowlist/check"@,
        allowlist_body(provider_id, gpu_seconds, zangbeto_anchor),
        5,
    )
}

/// Whether the allowlist refuses the provider. Only a 403 is a refusal: a service
/// that cannot be reached or does not know refuses nobody, since OSOVM has the last
/// word before it mints.
pub open spec fn refused(outcome: Outcome) -> bool {
    outcome matches Outcome::Replied { status, .. } && status == 403
}

/// Whether a provider may mint for a job: there was GPU work, and the allowlist does
/// not refuse the provider.
pub open spec fn eligible(gpu_seconds: F64, asked: Outcome) -> bool {
    gpu_seconds.above_zero() && !refused(asked)
}

pub open spec fn contribution_body(c: Contribution, timestamp: u64) -> JsonView {
    JsonView::Object(
        seq![
            ("provider_id"@, JsonView::Str(c.provider_id@)),
            ("submitter_id"@, JsonView::Str(c.agent_id@)),
            ("job_id"@, JsonView::Str(c.job_id@)),
            ("gpu_seconds"@, real_json(c.gpu_seconds)),
            ("zangbeto_anchor"@, string_or_null(opt_text(c.zangbeto_anchor))),
            ("timestamp"@, JsonView::UInt(timestamp)),
        ],
    )
}

/// The request that reports a contribution.
pub open spec fn contribution_request_for(
    osovm_url: Option<Seq<char>>,
    c: Contribution,
    timestamp: u64,
) -> RequestView {
    post_json(
        osovm_address(osovm_url) + "/api/osovm/gpu_contribution"@,
        contribution_body(c, timestamp),
        10,
    )
}

/// What to do next to report a contribution at `timestamp`.
pub open spec fn next_step(
    osovm_url: Option<Seq<char>>,
    c: Contribution,
    event: NotifyEvent,
    timestamp: u64,
) -> StepView {
    match event {
        NotifyEvent::Start => if c.gpu_seconds.above_zero() {
            StepView::AskAllowlist(
                allowlist_request_for(
                    osovm_url,
                    c.provider_id@,
                    c.gpu_seconds,
                    opt_text(c.zangbeto_anchor),
                ),
            )
        } else {
            StepView::Done(false)
        },
        NotifyEvent::AllowlistAsked(outcome) => if eligible(c.gpu_seconds, outcome) {
            StepView::SendContribution(contribution_request_for(osovm_url, c, timestamp))
        } else {
            StepView::Done(false)
        },
        NotifyEvent::ContributionSent(outcome) => StepView::Done(outcome.succeeded()),
    }
}

/// Where OSOVM listens.
pub fn osovm_base(osovm_url: Option<&str>) -> (r: String)
    ensures
        r@ == osovm_address(opt_str(osovm_url)),
{
    match osovm_url {
        Some(url) => url.to_string(),
        None => "http://127.0.0.1:7780".to_string(),
    }
}

fn post(url: String, body: Json, timeout_secs: u64) -> (r: HttpRequest)
    ensures
        r@ == post_json(url@, body@, timeout_secs),
{
    HttpRequest {
        method: Method::Post,
        url,
        authorization: None,
        body: Some(body),
        timeout_secs: Some(timeout_secs),
    }
}

/// The request for an anchor for a job's receipt. Without a configured witness there
/// is nobody to ask.
pub fn anchor_request(zangbeto_url: Option<&str>, job_id: &str) -> (r: Option<HttpRequest>)
    ensures
        match opt_str(zangbeto_url) {
            Some(base) => r is Some && r->0@ == anchor_request_to(base, job_id@),
            None => r is None,
        },
{
    match zangbeto_url {
        Some(base) => {
            let mut url = base.to_string();
            url.append("/api/anchor");
            let body = Fields::new().with("job_id", text(job_id)).with(
                "receipt_type",
                text("compute"),
            ).object();
            assert(body@->Object_0 =~= anchor_body(job_id@)->Object_0);
            Some(post(url, body, 5))
        },
        None => None,
    }
}

/// The anchor that the witness gave, if it gave one.
pub fn get_zangbeto_anchor(outcome: &Outcome) -> (r: Option<String>)
    ensures
        opt_text(r) == anchor_in(*outcome),
{
    match outcome {
        Outcome::Replied { status, body: Some(document) } => {
            if !is_success(*status) {
                return None;
            }
            match document.json.str_at("anchor") {
                Some(anchor) => Some(anchor.to_string()),
                None => match document.json.str_at("zangbeto_anchor") {
                    Some(anchor) => Some(anchor.to_string()),
                    None => None,
                },
            }
        },
        _ => None,
    }
}

/// The request that asks the allowlist for a provider; for a job without GPU work
/// nobody is asked.
pub fn mint_eligibility_request(
    osovm_url: Option<&str>,
    provider_id: &str,
    gpu_seconds: F64,
    zangbeto_anchor: Option<&str>,
) -> (r: Option<HttpRequest>)
    ensures
        r is Some <==> gpu_seconds.above_zero(),
        r matches Some(request) ==> request@ == allowlist_request_for(
            opt_str(osovm_url),
            provider_id@,
            gpu_seconds,
            opt_str(zangbeto_anchor),
        ),
{
    if !above_zero(gpu_seconds) {
        return None;
    }
    let mut url = osovm_base(osovm_url);
    url.append("/api/toc/allowlist/check");
    let body = Fields::new().with("provider_id", text(provider_id)).with(
        "gpu_seconds",
        number(gpu_seconds),
    ).with("zangbeto_anchor", text_or_null(zangbeto_anchor)).object();
    assert(body@->Object_0 =~= allowlist_body(
        provider_id@,
        gpu_seconds,
        opt_str(zangbeto_anchor),
    )->Object_0);
    Some(post(url, body, 5))
}

/// Whether a provider may mint for a job, given what became of the question to the
/// allowlist.
pub fn check_mint_eligible(gpu_seconds: F64, asked: &Outcome) -> (r: bool)
    ensures
        r == eligible(gpu_seconds, *asked),
{
    if !above_zero(gpu_seconds) {
        return false;
    }
    match asked {
        Outcome::Replied { status, .. } => *status != 403,
        _ => true,
    }
}

/// The request that reports a contribution.
pub fn contribution_request(
    osovm_url: Option<&str>,
    c: &Contribution,
    timestamp: u64,
) -> (r: HttpRequest)
    ensures
        r@ == contribution_request_for(opt_str(osovm_url), *c, timestamp),
{
    let mut url = osovm_base(osovm_url);
    url.append("/api/osovm/gpu_contribution");
    let body = Fields::new().with("provider_id", text(c.provider_id.as_str())).with(
        "submitter_id",
        text(c.agent_id.as_str()),
    ).with("job_id", text(c.job_id.as_str())).with("gpu_seconds", number(c.gpu_seconds)).with(
        "zangbeto_anchor",
        text_or_null(borrow_text(&c.zangbeto_anchor)),
    ).with("timestamp", Json::UInt(timestamp)).object();
    assert(body@->Object_0 =~= contribution_body(*c, timestamp)->Object_0);
    post(url, body, 10)
}

/// What to do next to report a contribution at `timestamp`, in seconds since the
/// start of 1970.
pub fn notify_gpu_contribution(
    osovm_url: Option<&str>,
    c: &Contribution,
    event: &NotifyEvent,
    timestamp: u64,
) -> (r: NotifyStep)
    ensures
        r@ == next_step(opt_str(osovm_url), *c, *event, timestamp),
{
    match event {
        NotifyEvent::Start => {
            match mint_eligibility_request(
                osovm_url,
                c.provider_id.as_str(),
                c.gpu_seconds,
                borrow_text(&c.zangbeto_anchor),
            ) {
                Some(request) => NotifyStep::AskAllowlist(request),
                None => NotifyStep::Done(false),
            }
        },
        NotifyEvent::AllowlistAsked(outcome) => if check_mint_eligible(c.gpu_seconds, outcome) {
            NotifyStep::SendContribution(contribution_request(osovm_url, c, timestamp))
        } else {
            NotifyStep::Done(false)
        },
        NotifyEvent::ContributionSent(outcome) => match outcome {
            Outcome::Replied { status, .. } => NotifyStep::Done(is_success(*status)),
            _ => NotifyStep::Done(false),
        },
    }
}

// ---- laws -------------------------------------------------------------------

/// A job without GPU work leads to no request at all, whatever comes back.
pub proof fn law_no_gpu_work_is_not_reported(
    osovm_url: Option<Seq<char>>,
    c: Contribution,
    event: NotifyEvent,
    timestamp: u64,
)
    requires
        c.gpu_seconds.at_most_zero() || c.gpu_seconds.is_nan(),
    ensures
        next_step(osovm_url, c, event, timestamp) is Done,
        !(event is ContributionSent) ==> next_step(osovm_url, c, event, timestamp)
            == StepView::Done(false),
{
}

/// GPU work is reported unless the allowlist refuses the provider with a 403; that
/// the service fails or answers otherwise stops nothing.
pub proof fn law_reported_unless_refused(
    osovm_url: Option<Seq<char>>,
    c: Contribution,
    asked: Outcome,
    timestamp: u64,
)
    requires
        c.gpu_seconds.above_zero(),
    ensures
        next_step(osovm_url, c, NotifyEvent::AllowlistAsked(asked), timestamp) == (if asked
            matches Outcome::Replied { status, .. } && status == 403 {
            StepView::Done(false)
        } else {
            StepView::SendContribution(contribution_request_for(osovm_url, c, timestamp))
        }),
{
}

/// A report is at its end after at most two requests: the question to the allowlist
/// is followed by the contribution or the end, and the contribution by the end.
pub proof fn law_report_ends(
    osovm_url: Option<Seq<char>>,
    c: Contribution,
    asked: Outcome,
    sent: Outcome,
    timestamp: u64,
)
    ensures
        !(next_step(osovm_url, c, NotifyEvent::Start, timestamp) is SendContribution),
        !(next_step(osovm_url, c, NotifyEvent::AllowlistAsked(asked), timestamp) is AskAllowlist),
        next_step(osovm_url, c, NotifyEvent::ContributionSent(sent), timestamp) is Done,
{
}

/// A contribution counts as taken only where it was sent and the reply was a success.
pub proof fn law_taken_only_if_confirmed(
    osovm_url: Option<Seq<char>>,
    c: Contribution,
    event: NotifyEvent,
    timestamp: u64,
)
    ensures
        next_step(osovm_url, c, event, timestamp) == StepView::Done(true) <==> (event matches
            NotifyEvent::ContributionSent(outcome) && outcome.succeeded()),
{
}

/// The anchor goes with the contribution to both services, or null in its place: a
/// missing anchor stops nothing.
pub proof fn law_missing_anchor_stops_nothing(
    osovm_url: Option<Seq<char>>,
    with_anchor: Contribution,
    without: Contribution,
    event: NotifyEvent,
    timestamp: u64,
)
    requires
        with_anchor.gpu_seconds == without.gpu_seconds,
        without.zangbeto_anchor is None,
    ensures
        next_step(osovm_url, with_anchor, event, timestamp) is Done <==> next_step(
            osovm_url,
            without,
            event,
            timestamp,
        ) is Done,
        next_step(osovm_url, with_anchor, event, timestamp) is SendContribution <==> next_step(
            osovm_url,
            without,
            event,
            timestamp,
        ) is SendContribution,
{
}

} // verus!
