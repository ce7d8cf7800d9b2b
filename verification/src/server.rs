//! The exchange's own service: how requests are read and what they are answered.
//!
//! A handler reads its request with one function here and makes its reply with
//! another. What lies between, the matching of jobs with providers and the exchange
//! with other services, is handed in as a plain value; an error as its text.
use crate::capability_token::{granted, key_configured, minted, TokenView};
use crate::capability_token::{law_minted_token_grants, CapabilityToken, MintTokenRequest};
use crate::capability_token::MintTokenResponse;
use crate::clock::{is_instant, is_reading, rfc3339_text, InstantView, Timestamp, LAST_SECOND};
use crate::float64::{above_zero, F64};
use crate::http::{bearer, HttpRequest, RequestView};
use crate::job::{constraints_in, hyphenated, is_random_id, job_id_text, new_job_id};
use crate::job::parse_constraints;
use crate::job::{parse_job_id, parse_requirements, parse_workload, parsed_id, requirements_in};
use crate::job::{status_name, workload_named, Allocation, Job, JobId, JobStatus};
use crate::json::{borrow_text, number, opt_json, opt_str, opt_text, real_json, string_or_null};
use crate::json::{text, text_or_null, Fields, Json, JsonView};
use crate::marketplace::{number_or_null, real_or_null};
use crate::marketplace::{AccountBalance, DepositAddress, EarningsReport, MachineId};
use crate::mint_allowlist::Contribution;
use crate::receipt::{currency_name, receipt_hash, BillingCurrency, BillingRecord};
use crate::receipt::{ComputeReceipt, LineItem, ResourceTexts, ResourceUsage, VerificationProof};
use crate::text::{parse_within, parsed_within, strip, stripped};
use vstd::prelude::*;

verus! {

/// A reply of the service: an HTTP status and a JSON body.
#[derive(Debug)]
pub struct Reply {
    pub status: u16,
    pub body: Json,
}

/// What a reply is.
pub struct ReplyView {
    pub status: u16,
    pub body: JsonView,
}

impl View for Reply {
    type V = ReplyView;

    open spec fn view(&self) -> ReplyView {
        ReplyView { status: self.status, body: self.body@ }
    }
}

/// A reply that tells of an error.
pub open spec fn error_reply(status: u16, message: Seq<char>) -> ReplyView {
    ReplyView { status, body: JsonView::Object(seq![("error"@, JsonView::Str(message))]) }
}

fn refuse(status: u16, message: &str) -> (r: Reply)
    ensures
        r@ == error_reply(status, message@),
{
    let body = Fields::new().with("error", text(message)).object();
    assert(body@->Object_0 =~= error_reply(status, message@).body->Object_0);
    Reply { status, body }
}

// ---- jobs -------------------------------------------------------------------

/// What a submission says.
#[derive(Debug)]
pub struct SubmitBody {
    pub submitter_id: String,
    pub workload: Option<String>,
    pub requirements: Option<Json>,
    pub constraints: Option<Json>,
    pub runtime_spec: Option<Json>,
}

/// The JSON value, or null where there is none.
pub open spec fn json_or_null(v: Option<Json>) -> JsonView {
    match v {
        Some(v) => v@,
        None => JsonView::Null,
    }
}

/// Whether a job is the one that a submission describes.
pub open spec fn is_job_of(job: Job, body: SubmitBody, id: JobId) -> bool {
    &&& job.id == id
    &&& job.submitter_id == body.submitter_id
    &&& job.workload == workload_named(
        match opt_text(body.workload) {
            Some(s) => s,
            None => "Generic"@,
        },
    )
    &&& job.requirements == requirements_in(json_or_null(body.requirements))
    &&& constraints_in(json_or_null(body.constraints), job.constraints)
    &&& job.runtime_spec@ == (match opt_json(body.runtime_spec) {
        Some(v) => v,
        None => JsonView::Object(Seq::empty()),
    })
}

fn borrow_json(v: &Option<Json>) -> (r: Option<&Json>)
    ensures
        match v {
            Some(v) => r == Some(v),
            None => r is None,
        },
{
    match v {
        Some(v) => Some(v),
        None => None,
    }
}

/// The job that a submission describes, with a given identifier.
pub fn job_with_id(body: SubmitBody, id: JobId) -> (r: Job)
    ensures
        is_job_of(r, body, id),
{
    let workload = match &body.workload {
        Some(s) => s.as_str(),
        None => "Generic",
    };
    let runtime_spec = match &body.runtime_spec {
        Some(v) => v.duplicate(),
        None => Fields::new().object(),
    };
    Job {
        id,
        workload: parse_workload(workload),
        requirements: parse_requirements(borrow_json(&body.requirements)),
        constraints: parse_constraints(borrow_json(&body.constraints)),
        runtime_spec,
        submitter_id: body.submitter_id,
    }
}

/// The job that a submission describes, with a new identifier.
pub fn job_from(body: SubmitBody) -> (r: Job)
    ensures
        is_job_of(r, body, r.id),
        is_random_id(r.id),
{
    job_with_id(body, new_job_id())
}

pub open spec fn allocation_body(a: Allocation) -> JsonView {
    JsonView::Object(
        seq![
            ("job_id"@, JsonView::Str(hyphenated(a.job_id))),
            ("provider_id"@, JsonView::Str(a.provider_id@)),
            ("status"@, JsonView::Str(status_name(a.status))),
            (
                "allocated_at"@,
                JsonView::Str(rfc3339_text(a.allocated_at@.secs, a.allocated_at@.nanos)),
            ),
        ],
    )
}

/// The answer to a submission: the allocation, or why there is none.
pub fn submit_job(result: Result<&Allocation, &str>) -> (r: Reply)
    ensures
        r@ == (match result {
            Ok(a) => ReplyView { status: 200, body: allocation_body(*a) },
            Err(message) => error_reply(422, message@),
        }),
{
    match result {
        Ok(a) => {
            let body = Fields::new().with("job_id", text(job_id_text(a.job_id).as_str())).with(
                "provider_id",
                text(a.provider_id.as_str()),
            ).with("status", text(a.status.name())).with(
                "allocated_at",
                text(a.allocated_at.rfc3339().as_str()),
            ).object();
            assert(body@->Object_0 =~= allocation_body(*a)->Object_0);
            Reply { status: 200, body }
        },
        Err(message) => refuse(422, message),
    }
}

/// Reads the identifier of a job in a request's path; any other text is refused. The
/// text that the service itself writes for an identifier is read as that identifier.
pub fn requested_job(job_id: &str) -> (r: Result<JobId, Reply>)
    ensures
        match r {
            Ok(id) => parsed_id(job_id@) == Some(id),
            Err(reply) => parsed_id(job_id@) is None && reply@ == error_reply(
                400,
                "invalid job_id"@,
            ),
        },
        forall|id: JobId|
            #![trigger hyphenated(id)]
            job_id@ == hyphenated(id) ==> r == Ok::<JobId, Reply>(id),
{
    match parse_job_id(job_id) {
        Some(id) => Ok(id),
        None => Err(refuse(400, "invalid job_id")),
    }
}

pub open spec fn status_body(status: JobStatus) -> JsonView {
    JsonView::Object(seq![("status"@, JsonView::Str(status_name(status)))])
}

/// The answer to a question after a job.
pub fn get_job_status(result: Result<JobStatus, &str>) -> (r: Reply)
    ensures
        r@ == (match result {
            Ok(status) => ReplyView { status: 200, body: status_body(status) },
            Err(message) => error_reply(404, message@),
        }),
{
    match result {
        Ok(status) => {
            let body = Fields::new().with("status", text(status.name())).object();
            assert(body@->Object_0 =~= status_body(status)->Object_0);
            Reply { status: 200, body }
        },
        Err(message) => refuse(404, message),
    }
}

pub open spec fn cancelled_body() -> JsonView {
    JsonView::Object(seq![("cancelled"@, JsonView::Bool(true))])
}

/// The answer to a request that calls a job off.
pub fn cancel_job(result: Result<(), &str>) -> (r: Reply)
    ensures
        r@ == (match result {
            Ok(_) => ReplyView { status: 200, body: cancelled_body() },
            Err(message) => error_reply(404, message@),
        }),
{
    match result {
        Ok(_) => {
            let body = Fields::new().with("cancelled", Json::Bool(true)).object();
            assert(body@->Object_0 =~= cancelled_body()->Object_0);
            Reply { status: 200, body }
        },
        Err(message) => refuse(404, message),
    }
}

pub open spec fn health_body() -> JsonView {
    JsonView::Object(
        seq![("ok"@, JsonView::Bool(true)), ("service"@, JsonView::Str("ucx-broker"@))],
    )
}

/// The answer to whether the service lives.
pub fn health() -> (r: Reply)
    ensures
        r@ == (ReplyView { status: 200, body: health_body() }),
{
    let body = Fields::new().with("ok", Json::Bool(true)).with(
        "service",
        text("ucx-broker"),
    ).object();
    assert(body@->Object_0 =~= health_body()->Object_0);
    Reply { status: 200, body }
}

// ---- receipts ---------------------------------------------------------------

pub open spec fn resources_json(r: ResourceUsage) -> JsonView {
    JsonView::Object(
        seq![
            ("gpu_seconds"@, real_json(r.gpu_seconds)),
            ("cpu_seconds"@, real_json(r.cpu_seconds)),
            ("ram_gb_seconds"@, real_json(r.ram_gb_seconds)),
            ("storage_gb"@, real_json(r.storage_gb)),
            ("egress_gb"@, real_json(r.egress_gb)),
        ],
    )
}

pub open spec fn item_json(item: LineItem) -> JsonView {
    JsonView::Object(
        seq![("label"@, JsonView::Str(item.label@)), ("cents"@, JsonView::UInt(item.cents))],
    )
}

pub open spec fn billing_json(b: BillingRecord) -> JsonView {
    JsonView::Object(
        seq![
            ("amount_cents"@, JsonView::UInt(b.amount_cents)),
            ("currency"@, JsonView::Str(currency_name(b.currency))),
            (
                "line_items"@,
                JsonView::Array(
                    Seq::new(b.line_items@.len(), |i: int| item_json(b.line_items@[i])),
                ),
            ),
        ],
    )
}

pub open spec fn verification_json(v: VerificationProof) -> JsonView {
    JsonView::Object(
        seq![
            ("artifact_hash"@, string_or_null(opt_text(v.artifact_hash))),
            ("runtime_attestation"@, string_or_null(opt_text(v.runtime_attestation))),
            ("execution_hash"@, string_or_null(opt_text(v.execution_hash))),
        ],
    )
}

pub open spec fn receipt_body(r: ComputeReceipt, texts: ResourceTexts) -> JsonView {
    JsonView::Object(
        seq![
            ("job_id"@, JsonView::Str(hyphenated(r.job_id))),
            ("provider_id"@, JsonView::Str(r.provider_id@)),
            (
                "completed_at"@,
                JsonView::Str(rfc3339_text(r.completed_at@.secs, r.completed_at@.nanos)),
            ),
            ("resources"@, resources_json(r.resources)),
            ("billing"@, billing_json(r.billing)),
            ("verification"@, verification_json(r.verification)),
            ("receipt_hash"@, JsonView::Str(receipt_hash(r, texts))),
        ],
    )
}

fn show_resources(r: &ResourceUsage) -> (j: Json)
    ensures
        j@ == resources_json(*r),
{
    let j = Fields::new().with("gpu_seconds", number(r.gpu_seconds)).with(
        "cpu_seconds",
        number(r.cpu_seconds),
    ).with("ram_gb_seconds", number(r.ram_gb_seconds)).with(
        "storage_gb",
        number(r.storage_gb),
    ).with("egress_gb", number(r.egress_gb)).object();
    assert(j@->Object_0 =~= resources_json(*r)->Object_0);
    j
}

fn show_item(item: &LineItem) -> (j: Json)
    ensures
        j@ == item_json(*item),
{
    let j = Fields::new().with("label", text(item.label.as_str())).with(
        "cents",
        Json::UInt(item.cents),
    ).object();
    assert(j@->Object_0 =~= item_json(*item)->Object_0);
    j
}

fn show_billing(b: &BillingRecord) -> (j: Json)
    ensures
        j@ == billing_json(*b),
{
    let mut items: Vec<Json> = Vec::new();
    let mut i: usize = 0;
    while i < b.line_items.len()
        invariant
            i <= b.line_items@.len(),
            items@.len() == i,
            forall|k: int| 0 <= k < i ==> (#[trigger] items@[k])@ == item_json(b.line_items@[k]),
        decreases b.line_items.len() - i,
    {
        items.push(show_item(&b.line_items[i]));
        i = i + 1;
    }
    let list = Json::Array(items);
    assert(list@->Array_0 =~= billing_json(*b)->Object_0[2].1->Array_0);
    let currency = match b.currency {
        BillingCurrency::Usd => "Usd",
        BillingCurrency::Ase => "Ase",
    };
    let j = Fields::new().with("amount_cents", Json::UInt(b.amount_cents)).with(
        "currency",
        text(currency),
    ).with("line_items", list).object();
    assert(j@->Object_0 =~= billing_json(*b)->Object_0);
    j
}

fn show_verification(v: &VerificationProof) -> (j: Json)
    ensures
        j@ == verification_json(*v),
{
    let j = Fields::new().with(
        "artifact_hash",
        text_or_null(borrow_text(&v.artifact_hash)),
    ).with("runtime_attestation", text_or_null(borrow_text(&v.runtime_attestation))).with(
        "execution_hash",
        text_or_null(borrow_text(&v.execution_hash)),
    ).object();
    assert(j@->Object_0 =~= verification_json(*v)->Object_0);
    j
}

/// The answer to a request for a receipt, given with the texts of its doubles.
pub fn get_receipt(result: Result<(&ComputeReceipt, &ResourceTexts), &str>) -> (r: Reply)
    ensures
        r@ == (match result {
            Ok((receipt, texts)) => ReplyView {
                status: 200,
                body: receipt_body(*receipt, *texts),
            },
            Err(message) => error_reply(404, message@),
        }),
{
    match result {
        Ok((receipt, texts)) => {
            let body = Fields::new().with(
                "job_id",
                text(job_id_text(receipt.job_id).as_str()),
            ).with("provider_id", text(receipt.provider_id.as_str())).with(
                "completed_at",
                text(receipt.completed_at.rfc3339().as_str()),
            ).with("resources", show_resources(&receipt.resources)).with(
                "billing",
                show_billing(&receipt.billing),
            ).with("verification", show_verification(&receipt.verification)).with(
                "receipt_hash",
                text(receipt.hash(texts).as_str()),
            ).object();
            assert(body@->Object_0 =~= receipt_body(*receipt, *texts)->Object_0);
            Reply { status: 200, body }
        },
        Err(message) => refuse(404, message),
    }
}

/// Whether a contribution is the one that a receipt shows.
pub open spec fn is_contribution_of(
    c: Contribution,
    r: ComputeReceipt,
    agent_id: Option<Seq<char>>,
) -> bool {
    &&& c.provider_id@ == r.provider_id@
    &&& c.agent_id@ == (match agent_id {
        Some(s) => s,
        None => r.provider_id@,
    })
    &&& c.job_id@ == hyphenated(r.job_id)
    &&& c.gpu_seconds == r.resources.gpu_seconds
    &&& opt_text(c.zangbeto_anchor) == opt_text(r.zangbeto_anchor)
}

/// What is to be reported when a receipt is fetched: its GPU work, if there was any.
/// The agent is the configured one, or else the provider.
pub fn contribution_of(receipt: &ComputeReceipt, agent_id: Option<&str>) -> (r: Option<
    Contribution,
>)
    ensures
        r is Some <==> receipt.resources.gpu_seconds.above_zero(),
        r matches Some(c) ==> is_contribution_of(c, *receipt, opt_str(agent_id)),
{
    if !above_zero(receipt.resources.gpu_seconds) {
        return None;
    }
    Some(
        Contribution {
            provider_id: receipt.provider_id.clone(),
            agent_id: match agent_id {
                Some(s) => s.to_string(),
                None => receipt.provider_id.clone(),
            },
            job_id: job_id_text(receipt.job_id),
            gpu_seconds: receipt.resources.gpu_seconds,
            zangbeto_anchor: match &receipt.zangbeto_anchor {
                Some(s) => Some(s.clone()),
                None => None,
            },
        },
    )
}

// ---- capability tokens ------------------------------------------------------

pub open spec fn token_body(token: Seq<char>, expires_at: Seq<char>) -> JsonView {
    JsonView::Object(
        seq![("token"@, JsonView::Str(token)), ("expires_at"@, JsonView::Str(expires_at))],
    )
}

/// The tier that is asked for, or `community`.
pub open spec fn tier_wanted(request: MintTokenRequest) -> Seq<char> {
    match opt_text(request.tier) {
        Some(s) => s,
        None => "community"@,
    }
}

/// The token that the mint gives out at `now`.
pub open spec fn token_for(key: Seq<char>, request: MintTokenRequest, now: InstantView) -> TokenView {
    minted(key, request.agent_id@, request.tool_name@, tier_wanted(request), now)
}

/// The mint's answer at `now`.
pub open spec fn mint_answer(
    master_key: Option<Seq<char>>,
    request: MintTokenRequest,
    now: InstantView,
) -> ReplyView {
    if !key_configured(master_key) {
        error_reply(503, "UCX_GPUAI_MASTER_KEY not configured"@)
    } else if now.secs + 3600 > LAST_SECOND {
        error_reply(500, "failed to mint token"@)
    } else {
        let t = token_for(master_key->0, request, now);
        ReplyView {
            status: 200,
            body: token_body(t.token, rfc3339_text(t.expires_at.secs, t.expires_at.nanos)),
        }
    }
}

/// The mint's answer at `now`.
pub fn mint_compute_token_at(
    master_key: Option<&str>,
    request: &MintTokenRequest,
    now: &Timestamp,
) -> (r: Reply)
    ensures
        r@ == mint_answer(opt_str(master_key), *request, now@),
{
    if !CapabilityToken::gate_enabled(master_key) {
        return refuse(503, "UCX_GPUAI_MASTER_KEY not configured");
    }
    let tier = match &request.tier {
        Some(s) => s.as_str(),
        None => "community",
    };
    match CapabilityToken::mint_at(
        master_key,
        request.agent_id.as_str(),
        request.tool_name.as_str(),
        tier,
        now,
    ) {
        Some(t) => {
            let response = MintTokenResponse {
                expires_at: t.expires_at.rfc3339(),
                token: t.token,
            };
            let body = Fields::new().with("token", text(response.token.as_str())).with(
                "expires_at",
                text(response.expires_at.as_str()),
            ).object();
            assert(body@->Object_0 =~= token_body(
                response.token@,
                response.expires_at@,
            )->Object_0);
            Reply { status: 200, body }
        },
        None => refuse(500, "failed to mint token"),
    }
}

/// The mint's answer now.
pub fn mint_compute_token(master_key: Option<&str>, request: &MintTokenRequest) -> (r: Reply)
    ensures
        exists|now: InstantView|
            is_reading(now) && r@ == #[trigger] mint_answer(
                opt_str(master_key),
                *request,
                now,
            ),
{
    let now = Timestamp::now();
    mint_compute_token_at(master_key, request, &now)
}

/// Whom a request with this `Authorization` header is let in as at `now`, or how it
/// is refused. Without a configured key nobody is asked for a token.
pub open spec fn admitted(
    master_key: Option<Seq<char>>,
    authorization: Option<Seq<char>>,
    now: InstantView,
) -> Result<TokenView, ReplyView> {
    if !key_configured(master_key) {
        Ok(
            TokenView {
                agent_id: "anonymous"@,
                tool_name: "*"@,
                tier: "community"@,
                expires_at: now.plus_seconds(3600),
                token: Seq::empty(),
            },
        )
    } else {
        match authorization {
            None => Err(error_reply(401, "Authorization header required"@)),
            Some(header) => match stripped(header, "Bearer "@) {
                None => Err(error_reply(401, "Bearer token required"@)),
                Some(raw) => match granted(master_key, raw, now) {
                    None => Err(error_reply(401, "invalid or expired capability token"@)),
                    Some(t) => Ok(t),
                },
            },
        }
    }
}

/// The view of an admission.
pub open spec fn admission(r: Result<CapabilityToken, Reply>) -> Result<TokenView, ReplyView> {
    match r {
        Ok(t) => Ok(t@),
        Err(reply) => Err(reply@),
    }
}

/// Lets a request in at `now` or refuses it, by its `Authorization` header.
pub fn require_capability_token_at(
    master_key: Option<&str>,
    authorization: Option<&str>,
    now: &Timestamp,
) -> (r: Result<CapabilityToken, Reply>)
    requires
        key_configured(opt_str(master_key)) || now@.secs + 3600 <= LAST_SECOND,
    ensures
        admission(r) == admitted(opt_str(master_key), opt_str(authorization), now@),
{
    if !CapabilityToken::gate_enabled(master_key) {
        return Ok(
            CapabilityToken {
                agent_id: "anonymous".to_string(),
                tool_name: "*".to_string(),
                tier: "community".to_string(),
                expires_at: now.plus(3600).unwrap(),
                token: String::new(),
            },
        );
    }
    let header = match authorization {
        Some(header) => header,
        None => return Err(refuse(401, "Authorization header required")),
    };
    let raw = match strip(header, "Bearer ") {
        Some(raw) => raw,
        None => return Err(refuse(401, "Bearer token required")),
    };
    match CapabilityToken::verify_at(master_key, raw, now) {
        Some(t) => Ok(t),
        None => Err(refuse(401, "invalid or expired capability token")),
    }
}

/// The answer at `now` to a request with this `Authorization` header. There is none
/// only where no key is configured and an hour later has no calendar date.
pub open spec fn admission_at(
    master_key: Option<Seq<char>>,
    authorization: Option<Seq<char>>,
    now: InstantView,
) -> Option<Result<TokenView, ReplyView>> {
    if key_configured(master_key) || now.secs + 3600 <= LAST_SECOND {
        Some(admitted(master_key, authorization, now))
    } else {
        None
    }
}

/// Lets a request in now or refuses it. There is no answer only where no key is
/// configured and an hour from now has no calendar date.
pub fn require_capability_token(master_key: Option<&str>, authorization: Option<&str>) -> (r:
    Option<Result<CapabilityToken, Reply>>)
    ensures
        key_configured(opt_str(master_key)) ==> r is Some,
        exists|now: InstantView|
            is_reading(now) && (match r {
                Some(answer) => Some(admission(answer)),
                None => None,
            }) == #[trigger] admission_at(opt_str(master_key), opt_str(authorization), now),
{
    let now = Timestamp::now();
    if !CapabilityToken::gate_enabled(master_key) && now.seconds() > LAST_SECOND
        - CapabilityToken::TTL_SECS {
        assert(admission_at(opt_str(master_key), opt_str(authorization), now@) is None);
        return None;
    }
    let r = require_capability_token_at(master_key, authorization, &now);
    assert(admission_at(opt_str(master_key), opt_str(authorization), now@) == Some(admission(r)));
    Some(r)
}

// ---- the marketplace --------------------------------------------------------

/// How a request that concerns the marketplace goes on.
#[derive(Debug)]
pub enum MarketStep {
    /// It is answered at once.
    Answer(Reply),
    /// The marketplace is asked.
    Ask(HttpRequest),
}

pub enum MarketStepView {
    Answer(ReplyView),
    Ask(RequestView),
}

impl View for MarketStep {
    type V = MarketStepView;

    open spec fn view(&self) -> MarketStepView {
        match self {
            MarketStep::Answer(reply) => MarketStepView::Answer(reply@),
            MarketStep::Ask(request) => MarketStepView::Ask(request@),
        }
    }
}

/// How a request that concerns the marketplace goes on: one that is not let in is
/// refused before anything else, and without access to the marketplace it cannot be
/// served.
pub open spec fn market_step_for(
    admission: Result<TokenView, ReplyView>,
    request: Option<RequestView>,
) -> MarketStepView {
    match admission {
        Err(reply) => MarketStepView::Answer(reply),
        Ok(_) => match request {
            Some(request) => MarketStepView::Ask(request),
            None => MarketStepView::Answer(error_reply(501, "gpu-ai adapter not enabled"@)),
        },
    }
}

/// How a request that concerns the marketplace goes on, given whether it is let in
/// and, where there is access to the marketplace, what to ask there.
pub fn market_step(
    let_in: Result<CapabilityToken, Reply>,
    request: Option<HttpRequest>,
) -> (r: MarketStep)
    ensures
        r@ == market_step_for(
            admission(let_in),
            match request {
                Some(request) => Some(request@),
                None => None,
            },
        ),
{
    match let_in {
        Err(reply) => MarketStep::Answer(reply),
        Ok(_) => match request {
            Some(request) => MarketStep::Ask(request),
            None => MarketStep::Answer(refuse(501, "gpu-ai adapter not enabled")),
        },
    }
}

pub open spec fn machine_body(machine_id: Seq<char>) -> JsonView {
    JsonView::Object(seq![("machine_id"@, JsonView::Str(machine_id))])
}

/// The answer to the offer of a machine.
pub fn contribute_gpu(result: Result<&MachineId, &str>) -> (r: Reply)
    ensures
        r@ == (match result {
            Ok(id) => ReplyView { status: 200, body: machine_body(id@) },
            Err(message) => error_reply(502, message@),
        }),
{
    match result {
        Ok(id) => {
            let body = Fields::new().with("machine_id", text(id.as_str())).object();
            assert(body@->Object_0 =~= machine_body(id@)->Object_0);
            Reply { status: 200, body }
        },
        Err(message) => refuse(502, message),
    }
}

pub open spec fn earnings_body(r: EarningsReport) -> JsonView {
    JsonView::Object(
        seq![
            ("total_earned_cents"@, JsonView::UInt(r.total_earned_cents)),
            ("pending_payout_cents"@, JsonView::UInt(r.pending_payout_cents)),
            ("jobs_completed"@, JsonView::UInt(r.jobs_completed)),
            ("gpu_hours_contributed"@, real_json(r.gpu_hours_contributed)),
            ("raw"@, r.raw@),
        ],
    )
}

/// The answer to a question after earnings.
pub fn get_earnings(result: Result<&EarningsReport, &str>) -> (r: Reply)
    ensures
        r@ == (match result {
            Ok(report) => ReplyView { status: 200, body: earnings_body(*report) },
            Err(message) => error_reply(502, message@),
        }),
{
    match result {
        Ok(report) => {
            let body = Fields::new().with(
                "total_earned_cents",
                Json::UInt(report.total_earned_cents),
            ).with("pending_payout_cents", Json::UInt(report.pending_payout_cents)).with(
                "jobs_completed",
                Json::UInt(report.jobs_completed),
            ).with("gpu_hours_contributed", number(report.gpu_hours_contributed)).with(
                "raw",
                report.raw.duplicate(),
            ).object();
            assert(body@->Object_0 =~= earnings_body(*report)->Object_0);
            Reply { status: 200, body }
        },
        Err(message) => refuse(502, message),
    }
}

/// The currency and the amount in dollars that a request to pay in names; bitcoin
/// and nothing where it names none.
pub fn deposit_wanted(body: &Json) -> (r: (String, F64))
    ensures
        r.0@ == (match body@.at("currency"@).as_str() {
            Some(s) => s,
            None => "BTC"@,
        }),
        r.1 == (match body@.at("amount_usd"@).as_f64() {
            Some(x) => x,
            None => F64 { bits: 0 },
        }),
{
    let currency = match body.str_at("currency") {
        Some(s) => s.to_string(),
        None => "BTC".to_string(),
    };
    let amount_usd = match body.f64_at("amount_usd") {
        Some(x) => x,
        None => F64 { bits: 0 },
    };
    (currency, amount_usd)
}

pub open spec fn address_body(a: DepositAddress) -> JsonView {
    JsonView::Object(
        seq![
            ("currency"@, JsonView::Str(a.currency@)),
            ("address"@, JsonView::Str(a.address@)),
            ("amount_usd"@, real_json(a.amount_usd)),
            ("minimum_native"@, real_or_null(a.minimum_native)),
            ("raw"@, a.raw@),
        ],
    )
}

/// The answer to a request to pay in.
pub fn fund_account(result: Result<&DepositAddress, &str>) -> (r: Reply)
    ensures
        r@ == (match result {
            Ok(address) => ReplyView { status: 200, body: address_body(*address) },
            Err(message) => error_reply(502, message@),
        }),
{
    match result {
        Ok(address) => {
            let body = Fields::new().with("currency", text(address.currency.as_str())).with(
                "address",
                text(address.address.as_str()),
            ).with("amount_usd", number(address.amount_usd)).with(
                "minimum_native",
                number_or_null(address.minimum_native),
            ).with("raw", address.raw.duplicate()).object();
            assert(body@->Object_0 =~= address_body(*address)->Object_0);
            Reply { status: 200, body }
        },
        Err(message) => refuse(502, message),
    }
}

pub open spec fn balance_body(b: AccountBalance) -> JsonView {
    JsonView::Object(
        seq![
            ("balance_cents"@, JsonView::UInt(b.balance_cents)),
            ("currency"@, JsonView::Str(b.currency@)),
            ("raw"@, b.raw@),
        ],
    )
}

/// The answer to a question after the balance.
pub fn get_balance(result: Result<&AccountBalance, &str>) -> (r: Reply)
    ensures
        r@ == (match result {
            Ok(balance) => ReplyView { status: 200, body: balance_body(*balance) },
            Err(message) => error_reply(502, message@),
        }),
{
    match result {
        Ok(balance) => {
            let body = Fields::new().with(
                "balance_cents",
                Json::UInt(balance.balance_cents),
            ).with("currency", text(balance.currency.as_str())).with(
                "raw",
                balance.raw.duplicate(),
            ).object();
            assert(body@->Object_0 =~= balance_body(*balance)->Object_0);
            Reply { status: 200, body }
        },
        Err(message) => refuse(502, message),
    }
}

// ---- configuration ----------------------------------------------------------

/// The port that the service listens on: the configured one, or 7790 where none is
/// set or what is set is no port.
pub fn listen_port(configured: Option<&str>) -> (r: u16)
    ensures
        r == (match opt_str(configured) {
            Some(s) => match parsed_within(s, 0, 65535) {
                Some(n) => n,
                None => 7790,
            },
            None => 7790,
        }),
{
    match configured {
        Some(s) => match parse_within(s, 0, 65535) {
            Some(n) => n as u16,
            None => 7790,
        },
        None => 7790,
    }
}

// ---- laws -------------------------------------------------------------------

/// A token that the mint gave out lets its bearer in until it expires, an hour later,
/// and not after that, whatever its agent and its tool are called. The bearer comes in
/// as the agent and for the tool it was minted for; where the tool holds a colon, the
/// two names with a colon between them are the same.
pub proof fn law_minted_token_admits(
    key: Seq<char>,
    request: MintTokenRequest,
    now: InstantView,
    later: InstantView,
)
    requires
        key.len() > 0,
        is_instant(now.secs, now.nanos),
        now.secs + 3600 <= LAST_SECOND,
    ensures
        ({
            let token = token_for(key, request, now).token;
            let expires_at = InstantView { secs: now.secs + 3600, nanos: 0 };
            match admitted(Some(key), Some(bearer(token)), later) {
                Ok(t) => {
                    &&& !later.after(expires_at)
                    &&& t.expires_at == expires_at
                    &&& t.token == token
                    &&& t.agent_id + ":"@ + t.tool_name == request.agent_id@ + ":"@
                        + request.tool_name@
                    &&& !request.tool_name@.contains(':') ==> t.agent_id == request.agent_id@
                        && t.tool_name == request.tool_name@
                },
                Err(reply) => later.after(expires_at) && reply == error_reply(
                    401,
                    "invalid or expired capability token"@,
                ),
            }
        }),
{
    let token = token_for(key, request, now).token;
    law_minted_token_grants(
        key,
        request.agent_id@,
        request.tool_name@,
        tier_wanted(request),
        now,
        later,
    );
    assert(bearer(token).take("Bearer "@.len() as int) =~= "Bearer "@);
    assert(bearer(token).skip("Bearer "@.len() as int) =~= token);
}

/// Where a key is configured, a request is let in exactly if it bears a token that is
/// granted something; any other is refused with status 401.
pub proof fn law_refused_without_token(
    key: Seq<char>,
    authorization: Option<Seq<char>>,
    now: InstantView,
)
    requires
        key.len() > 0,
    ensures
        admitted(Some(key), authorization, now) is Ok <==> exists|token: Seq<char>|
            authorization == Some(bearer(token)) && #[trigger] granted(
                Some(key),
                token,
                now,
            ) is Some,
        admitted(Some(key), authorization, now) matches Err(reply) ==> reply.status == 401,
{
    let prefix = "Bearer "@;
    if admitted(Some(key), authorization, now) is Ok {
        let header = authorization->0;
        let token = stripped(header, prefix)->0;
        assert(header =~= bearer(token));
        assert(granted(Some(key), token, now) is Some);
    }
    assert forall|token: Seq<char>|
        authorization == Some(bearer(token)) && #[trigger] granted(
            Some(key),
            token,
            now,
        ) is Some implies admitted(Some(key), authorization, now) is Ok by {
        assert(bearer(token).take(prefix.len() as int) =~= prefix);
        assert(bearer(token).skip(prefix.len() as int) =~= token);
    }
}

/// A request that is not let in never reaches the marketplace, and is answered as it
/// was refused.
pub proof fn law_refused_request_goes_no_further(reply: ReplyView, request: Option<RequestView>)
    ensures
        market_step_for(Err(reply), request) == MarketStepView::Answer(reply),
{
}

/// Without a configured key the mint gives out nothing.
pub proof fn law_no_key_no_token(request: MintTokenRequest, now: InstantView)
    ensures
        mint_answer(None, request, now).status == 503,
        mint_answer(Some(Seq::empty()), request, now).status == 503,
{
}

} // verus!
