//! RunPod's serverless endpoints: a job is handed in with one request and asked
//! after with others.
use crate::clock::{is_reading, Timestamp};
use crate::float64::{double_of_int, from_u64, round, round_up, times, F64};
use crate::float64::{lemma_ceiling_of_zero, lemma_ceiling_positive};
use crate::float64::{lemma_integer_between, lemma_product_between};
use crate::float_order::{law_integers_keep_order, law_products_keep_order};
use crate::float_order::law_rounding_up_keeps_order;
use crate::http::{bearer, bearer_header, display_status, is_success, status_text, success};
use crate::http::{HttpRequest, Method, Outcome, RequestView};
use crate::job::{adapter_error, hyphenated, is_random_id, job_id_text, job_not_found};
use crate::job::{new_job_id, plain};
use crate::job::{workload_name, Allocation, ErrorView, Job, JobId, JobStatus};
use crate::job::{ProviderTier, TrustLevel, UcxError, WorkloadType};
use crate::json::{opt_json, opt_str, opt_text, text, Fields, Json, JsonView};
use crate::provider::{is_outside_allocation, is_rented_gpu, outside_allocation, rented_gpu};
use crate::provider::{CpuArch, CpuCapability, ProviderCapability};
use crate::receipt::{BillingCurrency, BillingRecord, ComputeReceipt, LineItem};
use crate::receipt::{ResourceUsage, VerificationProof};
use crate::text::{decimal, str_eq, u128_text};
use std::collections::HashMap;
use vstd::arithmetic::power2::lemma2_to64;
use vstd::prelude::*;
use vstd::string::*;

verus! {

broadcast use vstd::std_specs::hash::group_hash_axioms;

/// A run of a job on the endpoint.
struct RunRecord {
    run_id: String,
    status: JobStatus,
    result: Option<Json>,
}

/// What is kept of a run.
pub struct RunRecordView {
    pub run_id: Seq<char>,
    pub status: JobStatus,
    pub result: Option<JsonView>,
}

impl RunRecord {
    spec fn kept(self) -> RunRecordView {
        RunRecordView {
            run_id: self.run_id@,
            status: self.status,
            result: opt_json(self.result),
        }
    }
}

/// A provider that runs jobs on one of RunPod's serverless endpoints.
pub struct RunPodServerlessAdapter {
    api_key: String,
    endpoint_id: String,
    capability: ProviderCapability,
    runs: HashMap<JobId, RunRecord>,
}

/// What an adapter holds.
#[verifier::ext_equal]
pub struct ServerlessView {
    pub api_key: Seq<char>,
    pub endpoint_id: Seq<char>,
    pub capability: ProviderCapability,
    pub runs: Map<JobId, RunRecordView>,
}

impl View for RunPodServerlessAdapter {
    type V = ServerlessView;

    closed spec fn view(&self) -> ServerlessView {
        ServerlessView {
            api_key: self.api_key@,
            endpoint_id: self.endpoint_id@,
            capability: self.capability,
            runs: self.runs@.map_values(|r: RunRecord| r.kept()),
        }
    }
}

impl ServerlessView {
    /// An adapter that keeps one more run, or another one for a job.
    pub open spec fn keeping(self, job_id: JobId, run: RunRecordView) -> ServerlessView {
        ServerlessView { runs: self.runs.insert(job_id, run), ..self }
    }

    /// The address of the endpoint.
    pub open spec fn endpoint(self) -> Seq<char> {
        "https://api.runpod.io/v2/"@ + self.endpoint_id
    }

    /// A request to the endpoint.
    pub open spec fn request(
        self,
        method: Method,
        path: Seq<char>,
        body: Option<JsonView>,
    ) -> RequestView {
        RequestView {
            method,
            url: self.endpoint() + path,
            authorization: Some(bearer(self.api_key)),
            body,
            timeout_secs: None,
        }
    }
}

// ---- capability -------------------------------------------------------------

/// Whether a capability is that of an endpoint.
pub open spec fn is_serverless_capability(c: ProviderCapability, endpoint_id: Seq<char>) -> bool {
    &&& c.provider_id@ == "runpod-serverless-"@ + endpoint_id
    &&& c.owner_agent_id is None
    &&& c.tier == ProviderTier::Professional
    &&& c.trust == TrustLevel::Standard
    &&& c.gpu is Some
    &&& is_rented_gpu(c.gpu->0, "A100/H100 (serverless pool)"@, double_of_int(80))
    &&& c.cpu == (CpuCapability { cores: 16, arch: CpuArch::X86_64, frequency_mhz: None })
    &&& c.ram_gb == double_of_int(256)
    &&& c.disk_gb == (F64 { bits: 0 })
    &&& c.runtimes@.len() == 0
    &&& c.price_gpu_hour_cents == Some(20u64)
    &&& c.price_cpu_hour_cents == 2
    &&& c.policy_deny@.len() == 0
    &&& c.regions.deep_view() == seq!["US"@, "EU"@]
}

fn build_serverless_capability(endpoint_id: &str) -> (r: ProviderCapability)
    ensures
        is_serverless_capability(r, endpoint_id@),
{
    let mut provider_id = "runpod-serverless-".to_string();
    provider_id.append(endpoint_id);
    let mut regions: Vec<String> = Vec::new();
    regions.push("US".to_string());
    regions.push("EU".to_string());
    assert(regions.deep_view() =~= seq!["US"@, "EU"@]);
    ProviderCapability {
        provider_id,
        owner_agent_id: None,
        tier: ProviderTier::Professional,
        trust: TrustLevel::Standard,
        gpu: Some(rented_gpu("A100/H100 (serverless pool)", from_u64(80))),
        cpu: CpuCapability { cores: 16, arch: CpuArch::X86_64, frequency_mhz: None },
        ram_gb: from_u64(256),
        disk_gb: F64 { bits: 0 },
        runtimes: Vec::new(),
        price_gpu_hour_cents: Some(20),
        price_cpu_hour_cents: 2,
        policy_deny: Vec::new(),
        regions,
    }
}

// ---- what replies mean ------------------------------------------------------

pub open spec fn runpod_error(reason: Seq<char>) -> ErrorView {
    ErrorView::Adapter { adapter: "runpod"@, reason }
}

/// Why a job was not taken, if it was not.
pub open spec fn submit_error(outcome: Outcome) -> Option<ErrorView> {
    match outcome {
        Outcome::Failed { reason } => Some(runpod_error(reason@)),
        Outcome::Replied { status, .. } => if !success(status) {
            Some(
                runpod_error(
                    "POST /run "@ + status_text(status as int) + ": "@ + outcome.body_text(),
                ),
            )
        } else if outcome.json().at("id"@).as_str() is None {
            Some(runpod_error("missing run id in RunPod response"@))
        } else {
            None
        },
    }
}

/// An adapter that has taken up the reply to a job that was handed in.
pub open spec fn with_job(v: ServerlessView, job_id: JobId, outcome: Outcome) -> ServerlessView {
    v.keeping(
        job_id,
        RunRecordView {
            run_id: outcome.json().at("id"@).as_str()->0,
            status: JobStatus::Pending,
            result: None,
        },
    )
}

/// How a job fares by the word that RunPod has for it.
pub open spec fn status_meant(word: Option<Seq<char>>) -> JobStatus {
    match word {
        Some(s) => if s == "COMPLETED"@ {
            JobStatus::Completed
        } else if s == "FAILED"@ {
            JobStatus::Failed
        } else if s == "CANCELLED"@ {
            JobStatus::Cancelled
        } else if s == "IN_QUEUE"@ || s == "IN_PROGRESS"@ {
            JobStatus::Running
        } else {
            JobStatus::Pending
        },
        None => JobStatus::Pending,
    }
}

/// How a job fares by a reply, and what it put out where it is complete.
pub open spec fn polled(outcome: Outcome) -> Result<(JobStatus, Option<JsonView>), ErrorView> {
    match outcome {
        Outcome::Failed { reason } => Err(runpod_error(reason@)),
        Outcome::Replied { .. } => {
            let status = status_meant(outcome.json().at("status"@).as_str());
            Ok(
                (
                    status,
                    if status == JobStatus::Completed {
                        outcome.json().get("output"@)
                    } else {
                        None
                    },
                ),
            )
        },
    }
}

/// A run after it was asked after: an output once seen is kept.
pub open spec fn updated(
    run: RunRecordView,
    status: JobStatus,
    result: Option<JsonView>,
) -> RunRecordView {
    RunRecordView {
        run_id: run.run_id,
        status,
        result: if result is Some {
            result
        } else {
            run.result
        },
    }
}

/// What asking after a job gives, and the adapter afterwards.
pub open spec fn asked_after(v: ServerlessView, job_id: JobId, outcome: Outcome) -> (
    Result<JobStatus, ErrorView>,
    ServerlessView,
) {
    if !v.runs.contains_key(job_id) {
        (Err(ErrorView::JobNotFound { job_id: hyphenated(job_id) }), v)
    } else {
        match polled(outcome) {
            Err(e) => (Err(e), v),
            Ok((status, result)) => (
                Ok(status),
                v.keeping(job_id, updated(v.runs[job_id], status, result)),
            ),
        }
    }
}

/// Whether a run is known to be complete: it is so by the last word on it, or its
/// output was seen.
pub open spec fn is_complete(run: RunRecordView) -> bool {
    run.status == JobStatus::Completed || run.result is Some
}

/// The output of a run, as far as it was seen.
pub open spec fn output_kept(run: RunRecordView) -> JsonView {
    match run.result {
        Some(output) => output,
        None => JsonView::Null,
    }
}

/// Why a job gets no receipt, if it gets none: it is unknown, asking after it failed,
/// or it is not complete.
pub open spec fn receipt_refusal(v: ServerlessView, job_id: JobId, outcome: Outcome) -> Option<
    ErrorView,
> {
    match asked_after(v, job_id, outcome) {
        (Err(e), _) => Some(e),
        (Ok(_), after) => if is_complete(after.runs[job_id]) {
            None
        } else {
            Some(runpod_error("job is not completed"@))
        },
    }
}

/// What calling a job off gives, and the adapter afterwards.
pub open spec fn called_off(v: ServerlessView, job_id: JobId, outcome: Outcome) -> (
    Result<(), ErrorView>,
    ServerlessView,
) {
    if !v.runs.contains_key(job_id) {
        (Err(ErrorView::JobNotFound { job_id: hyphenated(job_id) }), v)
    } else {
        match outcome {
            Outcome::Failed { reason } => (Err(runpod_error(reason@)), v),
            Outcome::Replied { .. } => (
                Ok(()),
                v.keeping(job_id, RunRecordView { status: JobStatus::Cancelled, ..v.runs[job_id] }),
            ),
        }
    }
}

// ---- receipts ---------------------------------------------------------------

/// The GPU time of an execution, in seconds.
pub open spec fn gpu_seconds_of(exec_ms: u64) -> F64 {
    double_of_int(exec_ms as int).product(1, 1000, 0)
}

/// The charge for GPU time: two hundred cents an hour, rounded up.
pub open spec fn serverless_cents(gpu_seconds: F64) -> nat {
    gpu_seconds.product(200, 1, 0).product(1, 3600, 0).ceiling(u64::MAX as nat)
}

/// A tenth of a number. The factor is the double nearest to one tenth.
pub open spec fn tenth(x: F64) -> F64 {
    x.product(0x19_9999_9999_999A, 1, -56)
}

/// A number with one decimal place.
pub open spec fn one_place(x: F64) -> Seq<char> {
    decimal(x.rounded(10) / 10) + "."@ + decimal(x.rounded(10) % 10)
}

/// The execution time that an output states, in milliseconds.
pub open spec fn execution_ms(raw: JsonView) -> u64 {
    match raw.at("executionTime"@).as_u64() {
        Some(n) => n,
        None => 0,
    }
}

/// Whether a receipt is the one for an output.
pub open spec fn is_serverless_receipt(
    r: ComputeReceipt,
    raw: JsonView,
    receipt_id: JobId,
    completed_at: Timestamp,
) -> bool {
    let gpu_seconds = gpu_seconds_of(execution_ms(raw));
    let cents = serverless_cents(gpu_seconds);
    &&& r.job_id == receipt_id
    &&& r.provider_id@ == "runpod-serverless"@
    &&& r.completed_at == completed_at
    &&& r.resources == (ResourceUsage {
        gpu_seconds,
        cpu_seconds: tenth(gpu_seconds),
        ram_gb_seconds: F64 { bits: 0 },
        storage_gb: F64 { bits: 0 },
        egress_gb: F64 { bits: 0 },
    })
    &&& r.billing.amount_cents == cents
    &&& r.billing.currency == BillingCurrency::Usd
    &&& r.billing.line_items@.len() == 1
    &&& r.billing.line_items@[0].label@ == one_place(gpu_seconds) + "s GPU compute"@
    &&& r.billing.line_items@[0].cents == cents
    &&& opt_text(r.verification.artifact_hash) == raw.at("id"@).as_str()
    &&& opt_text(r.verification.runtime_attestation) == Some("runpod-serverless"@)
    &&& r.verification.execution_hash is None
    &&& r.zangbeto_anchor is None
    &&& r.gix1_canonical_id is None
}

/// A number with one decimal place.
fn one_place_text(x: F64) -> (r: String)
    requires
        x.bits == 0 || (x.moderate() && -120 <= x.exponent() <= 60),
    ensures
        r@ == one_place(x),
{
    let tenths: u128 = round(x, 10);
    let mut out = u128_text(tenths / 10);
    out.append(".");
    out.append(u128_text(tenths % 10).as_str());
    out
}

/// The receipt for an output, with a given identifier and time of completion.
pub fn serverless_receipt(raw: &Json, receipt_id: JobId, completed_at: Timestamp) -> (r:
    ComputeReceipt)
    ensures
        is_serverless_receipt(r, raw@, receipt_id, completed_at),
{
    let exec_ms: u64 = match raw.u64_at("executionTime") {
        Some(n) => n,
        None => 0,
    };
    let gpu_seconds = times(from_u64(exec_ms), 1, 1000, 0);
    let cents: u64 = round_up(times(times(gpu_seconds, 200, 1, 0), 1, 3600, 0), u64::MAX);
    let cpu_seconds = times(gpu_seconds, 0x19_9999_9999_999A, 1, -56);
    let mut label = one_place_text(gpu_seconds);
    label.append("s GPU compute");
    let artifact_hash = match raw.str_at("id") {
        Some(s) => Some(s.to_string()),
        None => None,
    };
    let mut line_items: Vec<LineItem> = Vec::new();
    line_items.push(LineItem { label, cents });
    ComputeReceipt {
        job_id: receipt_id,
        provider_id: "runpod-serverless".to_string(),
        completed_at,
        resources: ResourceUsage {
            gpu_seconds,
            cpu_seconds,
            ram_gb_seconds: F64 { bits: 0 },
            storage_gb: F64 { bits: 0 },
            egress_gb: F64 { bits: 0 },
        },
        billing: BillingRecord { amount_cents: cents, currency: BillingCurrency::Usd, line_items },
        verification: VerificationProof {
            artifact_hash,
            runtime_attestation: Some("runpod-serverless".to_string()),
            execution_hash: None,
        },
        zangbeto_anchor: None,
        gix1_canonical_id: None,
    }
}

// ---- the adapter ------------------------------------------------------------

/// The body that hands a job in.
pub open spec fn job_body(job: Job) -> JsonView {
    JsonView::Object(
        seq![
            (
                "input"@,
                JsonView::Object(
                    seq![
                        ("job_id"@, JsonView::Str(hyphenated(job.id))),
                        ("workload"@, JsonView::Str(workload_name(job.workload))),
                        ("spec"@, job.runtime_spec@),
                    ],
                ),
            ),
        ],
    )
}

/// Whether a job is one for this kind of provider: long work that may leave the
/// house.
pub open spec fn suits_serverless(job: Job) -> bool {
    (job.workload == WorkloadType::Training || job.workload == WorkloadType::Simulation)
        && job.constraints.allow_external
}

impl RunPodServerlessAdapter {
    pub fn new(api_key: String, endpoint_id: String) -> (r: Self)
        ensures
            r@.api_key == api_key@,
            r@.endpoint_id == endpoint_id@,
            is_serverless_capability(r@.capability, endpoint_id@),
            r@.runs == Map::<JobId, RunRecordView>::empty(),
    {
        let capability = build_serverless_capability(endpoint_id.as_str());
        let r = RunPodServerlessAdapter { api_key, endpoint_id, capability, runs: HashMap::new() };
        assert(r@.runs =~= Map::<JobId, RunRecordView>::empty());
        r
    }

    /// An adapter for the configured key, which must be set and not empty, and the
    /// configured endpoint, or the one called `default`.
    pub fn from_env(api_key: Option<&str>, endpoint_id: Option<&str>) -> (r: Option<Self>)
        ensures
            r is Some <==> opt_str(api_key) is Some && opt_str(api_key)->0.len() > 0,
            r matches Some(adapter) ==> {
                &&& Some(adapter@.api_key) == opt_str(api_key)
                &&& adapter@.endpoint_id == (match opt_str(endpoint_id) {
                    Some(s) => s,
                    None => "default"@,
                })
                &&& is_serverless_capability(adapter@.capability, adapter@.endpoint_id)
                &&& adapter@.runs == Map::<JobId, RunRecordView>::empty()
            },
    {
        let key = match api_key {
            Some(key) => key,
            None => return None,
        };
        if key.is_empty() {
            return None;
        }
        let endpoint_id = match endpoint_id {
            Some(s) => s,
            None => "default",
        };
        Some(Self::new(key.to_string(), endpoint_id.to_string()))
    }

    pub fn id(&self) -> (r: &'static str)
        ensures
            r@ == "runpod-serverless"@,
    {
        "runpod-serverless"
    }

    pub fn network_name(&self) -> (r: &'static str)
        ensures
            r@ == "runpod"@,
    {
        "runpod"
    }

    pub fn capability(&self) -> (r: &ProviderCapability)
        ensures
            *r == self@.capability,
    {
        &self.capability
    }

    /// Whether the job is one for this provider.
    pub fn can_accept(&self, job: &Job) -> (r: bool)
        ensures
            r == suits_serverless(*job),
    {
        (job.workload == WorkloadType::Training || job.workload == WorkloadType::Simulation)
            && job.constraints.allow_external
    }

    fn auth_header(&self) -> (r: String)
        ensures
            r@ == bearer(self@.api_key),
    {
        bearer_header(self.api_key.as_str())
    }

    /// The address of a path of the endpoint.
    fn url(&self, path: &str) -> (r: String)
        ensures
            r@ == self@.endpoint() + path@,
    {
        let mut url = "https://api.runpod.io/v2/".to_string();
        url.append(self.endpoint_id.as_str());
        url.append(path);
        url
    }

    /// Where jobs are handed in.
    pub fn run_url(&self) -> (r: String)
        ensures
            r@ == self@.endpoint() + "/run"@,
    {
        self.url("/run")
    }

    /// Where a run is asked after.
    pub fn status_url(&self, run_id: &str) -> (r: String)
        ensures
            r@ == self@.endpoint() + ("/status/"@ + run_id@),
    {
        let mut path = "/status/".to_string();
        path.append(run_id);
        self.url(path.as_str())
    }

    /// The job as the endpoint takes it.
    pub fn translate_job(&self, job: &Job) -> (r: Result<Json, UcxError>)
        ensures
            r is Ok,
            r->Ok_0@ == job_body(*job),
    {
        let input = Fields::new().with("job_id", text(job_id_text(job.id).as_str())).with(
            "workload",
            text(job.workload.name()),
        ).with("spec", job.runtime_spec.duplicate()).object();
        assert(input@->Object_0 =~= job_body(*job)->Object_0[0].1->Object_0);
        let body = Fields::new().with("input", input).object();
        assert(body@->Object_0 =~= job_body(*job)->Object_0);
        Ok(body)
    }

    /// The request that hands the job in.
    pub fn submit_request(&self, job: &Job) -> (r: Result<HttpRequest, UcxError>)
        ensures
            r is Ok,
            r->Ok_0@ == self@.request(Method::Post, "/run"@, Some(job_body(*job))),
    {
        let body = match self.translate_job(job) {
            Ok(body) => body,
            Err(e) => return Err(e),
        };
        Ok(
            HttpRequest {
                method: Method::Post,
                url: self.run_url(),
                authorization: Some(self.auth_header()),
                body: Some(body),
                timeout_secs: None,
            },
        )
    }

    /// Takes up the reply to a job that was handed in, at given times. A job that was
    /// taken is kept from then on.
    pub fn submit_at(
        &mut self,
        job: &Job,
        outcome: &Outcome,
        expires_at: Timestamp,
        allocated_at: Timestamp,
    ) -> (r: Result<Allocation, UcxError>)
        requires
            outcome.well_formed(),
        ensures
            match r {
                Ok(a) => {
                    &&& submit_error(*outcome) is None
                    &&& is_outside_allocation(
                        a,
                        job.id,
                        "runpod-serverless"@,
                        120,
                        expires_at,
                        allocated_at,
                    )
                    &&& final(self)@ == with_job(old(self)@, job.id, *outcome)
                },
                Err(e) => submit_error(*outcome) == Some(e@) && final(self)@ == old(self)@,
            },
    {
        let null = Json::Null;
        match outcome {
            Outcome::Failed { reason } => Err(adapter_error("runpod", reason.as_str())),
            Outcome::Replied { status, body } => {
                let (val, words) = match body {
                    Some(document) => (&document.json, document.text.as_str()),
                    None => (&null, "null"),
                };
                if !is_success(*status) {
                    let mut reason = "POST /run ".to_string();
                    reason.append(display_status(*status).as_str());
                    reason.append(": ");
                    reason.append(words);
                    return Err(adapter_error("runpod", reason.as_str()));
                }
                let run_id = match val.str_at("id") {
                    Some(s) => s.to_string(),
                    None => return Err(
                        adapter_error("runpod", "missing run id in RunPod response"),
                    ),
                };
                let record = RunRecord { run_id, status: JobStatus::Pending, result: None };
                let ghost kept = record.kept();
                self.runs.insert(job.id, record);
                assert(self@ =~= old(self)@.keeping(job.id, kept));
                Ok(outside_allocation(job.id, self.id(), 120, expires_at, allocated_at))
            },
        }
    }

    /// Takes up the reply to a job that was handed in just now.
    pub fn submit(&mut self, job: &Job, outcome: &Outcome) -> (r: Result<Allocation, UcxError>)
        requires
            outcome.well_formed(),
        ensures
            match r {
                Ok(a) => {
                    &&& submit_error(*outcome) is None
                    &&& is_outside_allocation(
                        a,
                        job.id,
                        "runpod-serverless"@,
                        120,
                        a.offer.expires_at,
                        a.allocated_at,
                    )
                    &&& is_reading(a.offer.expires_at@)
                    &&& is_reading(a.allocated_at@)
                    &&& final(self)@ == with_job(old(self)@, job.id, *outcome)
                },
                Err(e) => submit_error(*outcome) == Some(e@) && final(self)@ == old(self)@,
            },
    {
        let expires_at = Timestamp::now();
        let allocated_at = Timestamp::now();
        self.submit_at(job, outcome, expires_at, allocated_at)
    }

    /// The request that asks after a job.
    pub fn status_request(&self, job_id: JobId) -> (r: Result<HttpRequest, UcxError>)
        ensures
            match r {
                Ok(request) => self@.runs.contains_key(job_id) && request@ == self@.request(
                    Method::Get,
                    "/status/"@ + self@.runs[job_id].run_id,
                    None,
                ),
                Err(e) => !self@.runs.contains_key(job_id) && e@ == (ErrorView::JobNotFound {
                    job_id: hyphenated(job_id),
                }),
            },
    {
        match self.runs.get(&job_id) {
            Some(record) => Ok(
                HttpRequest {
                    method: Method::Get,
                    url: self.status_url(record.run_id.as_str()),
                    authorization: Some(self.auth_header()),
                    body: None,
                    timeout_secs: None,
                },
            ),
            None => Err(job_not_found(job_id)),
        }
    }

    /// What a reply says of how a job fares and, where it is complete, what it put
    /// out.
    pub fn poll_status(&self, outcome: &Outcome) -> (r: Result<
        (JobStatus, Option<Json>),
        UcxError,
    >)
        ensures
            match r {
                Ok((status, result)) => polled(*outcome) == Ok::<_, ErrorView>(
                    (status, opt_json(result)),
                ),
                Err(e) => polled(*outcome) == Err::<(JobStatus, Option<JsonView>), _>(e@),
            },
    {
        let null = Json::Null;
        match outcome {
            Outcome::Failed { reason } => Err(adapter_error("runpod", reason.as_str())),
            Outcome::Replied { status: _, body } => {
                let val = match body {
                    Some(document) => &document.json,
                    None => &null,
                };
                let status = match val.str_at("status") {
                    Some(s) => if str_eq(s, "COMPLETED") {
                        JobStatus::Completed
                    } else if str_eq(s, "FAILED") {
                        JobStatus::Failed
                    } else if str_eq(s, "CANCELLED") {
                        JobStatus::Cancelled
                    } else if str_eq(s, "IN_QUEUE") || str_eq(s, "IN_PROGRESS") {
                        JobStatus::Running
                    } else {
                        JobStatus::Pending
                    },
                    None => JobStatus::Pending,
                };
                let output = if status == JobStatus::Completed {
                    match val.get("output") {
                        Some(v) => Some(v.duplicate()),
                        None => None,
                    }
                } else {
                    None
                };
                Ok((status, output))
            },
        }
    }

    /// Takes up the reply to a question after a job: how the job fares.
    pub fn status(&mut self, job_id: JobId, outcome: &Outcome) -> (r: Result<JobStatus, UcxError>)
        ensures
            plain(r) == asked_after(old(self)@, job_id, *outcome).0,
            final(self)@ == asked_after(old(self)@, job_id, *outcome).1,
    {
        if !self.runs.contains_key(&job_id) {
            return Err(job_not_found(job_id));
        }
        let (status, result) = match self.poll_status(outcome) {
            Ok(p) => p,
            Err(e) => return Err(e),
        };
        let record = match self.runs.get(&job_id) {
            Some(record) => RunRecord {
                run_id: record.run_id.clone(),
                status,
                result: match result {
                    Some(v) => Some(v),
                    None => match &record.result {
                        Some(v) => Some(v.duplicate()),
                        None => None,
                    },
                },
            },
            None => return Err(job_not_found(job_id)),
        };
        let ghost kept = record.kept();
        self.runs.insert(job_id, record);
        assert(self@ =~= old(self)@.keeping(job_id, kept));
        Ok(status)
    }

    /// Takes up the reply to a question after a job and makes out its receipt, with a
    /// given time of completion. A job that is not complete has none.
    pub fn receipt_with(
        &mut self,
        job_id: JobId,
        outcome: &Outcome,
        completed_at: Timestamp,
    ) -> (r: Result<ComputeReceipt, UcxError>)
        ensures
            final(self)@ == asked_after(old(self)@, job_id, *outcome).1,
            match r {
                Ok(receipt) => {
                    &&& receipt_refusal(old(self)@, job_id, *outcome) is None
                    &&& is_serverless_receipt(
                        receipt,
                        output_kept(final(self)@.runs[job_id]),
                        job_id,
                        completed_at,
                    )
                },
                Err(e) => receipt_refusal(old(self)@, job_id, *outcome) == Some(e@),
            },
    {
        let null = Json::Null;
        match self.status(job_id, outcome) {
            Ok(_) => {},
            Err(e) => return Err(e),
        }
        assert(self@.runs.contains_key(job_id));
        match self.runs.get(&job_id) {
            Some(record) => {
                assert(self@.runs[job_id] == record.kept());
                if record.status != JobStatus::Completed && record.result.is_none() {
                    return Err(adapter_error("runpod", "job is not completed"));
                }
                let output = match &record.result {
                    Some(v) => v,
                    None => &null,
                };
                Ok(serverless_receipt(output, job_id, completed_at))
            },
            None => Err(job_not_found(job_id)),
        }
    }

    /// Takes up the reply to a question after a job and makes out its receipt,
    /// completed now. A job that is not complete has none.
    pub fn receipt(&mut self, job_id: JobId, outcome: &Outcome) -> (r: Result<
        ComputeReceipt,
        UcxError,
    >)
        ensures
            final(self)@ == asked_after(old(self)@, job_id, *outcome).1,
            match r {
                Ok(receipt) => {
                    &&& receipt_refusal(old(self)@, job_id, *outcome) is None
                    &&& is_serverless_receipt(
                        receipt,
                        output_kept(final(self)@.runs[job_id]),
                        job_id,
                        receipt.completed_at,
                    )
                    &&& is_reading(receipt.completed_at@)
                },
                Err(e) => receipt_refusal(old(self)@, job_id, *outcome) == Some(e@),
            },
    {
        self.receipt_with(job_id, outcome, Timestamp::now())
    }

    /// The receipt for an output, with a new identifier and the current time.
    pub fn translate_receipt(&self, raw: &Json) -> (r: Result<ComputeReceipt, UcxError>)
        ensures
            r is Ok,
            is_serverless_receipt(r->Ok_0, raw@, r->Ok_0.job_id, r->Ok_0.completed_at),
            is_random_id(r->Ok_0.job_id),
            is_reading(r->Ok_0.completed_at@),
    {
        Ok(serverless_receipt(raw, new_job_id(), Timestamp::now()))
    }

    /// The request that calls a job off.
    pub fn cancel_request(&self, job_id: JobId) -> (r: Result<HttpRequest, UcxError>)
        ensures
            match r {
                Ok(request) => self@.runs.contains_key(job_id) && request@ == self@.request(
                    Method::Post,
                    "/cancel/"@ + self@.runs[job_id].run_id,
                    None,
                ),
                Err(e) => !self@.runs.contains_key(job_id) && e@ == (ErrorView::JobNotFound {
                    job_id: hyphenated(job_id),
                }),
            },
    {
        match self.runs.get(&job_id) {
            Some(record) => {
                let mut path = "/cancel/".to_string();
                path.append(record.run_id.as_str());
                Ok(
                    HttpRequest {
                        method: Method::Post,
                        url: self.url(path.as_str()),
                        authorization: Some(self.auth_header()),
                        body: None,
                        timeout_secs: None,
                    },
                )
            },
            None => Err(job_not_found(job_id)),
        }
    }

    /// Takes up the reply to a request that called a job off.
    pub fn cancel(&mut self, job_id: JobId, outcome: &Outcome) -> (r: Result<(), UcxError>)
        ensures
            plain(r) == called_off(old(self)@, job_id, *outcome).0,
            final(self)@ == called_off(old(self)@, job_id, *outcome).1,
    {
        let record = match self.runs.get(&job_id) {
            Some(record) => RunRecord {
                run_id: record.run_id.clone(),
                status: JobStatus::Cancelled,
                result: match &record.result {
                    Some(v) => Some(v.duplicate()),
                    None => None,
                },
            },
            None => return Err(job_not_found(job_id)),
        };
        match outcome {
            Outcome::Failed { reason } => Err(adapter_error("runpod", reason.as_str())),
            Outcome::Replied { .. } => {
                let ghost kept = record.kept();
                self.runs.insert(job_id, record);
                assert(self@ =~= old(self)@.keeping(job_id, kept));
                Ok(())
            },
        }
    }

    /// The request that asks whether the endpoint is up.
    pub fn availability_request(&self) -> (r: HttpRequest)
        ensures
            r@ == self@.request(Method::Get, "/health"@, None),
    {
        HttpRequest {
            method: Method::Get,
            url: self.url("/health"),
            authorization: Some(self.auth_header()),
            body: None,
            timeout_secs: None,
        }
    }

    /// Whether the endpoint is up, by its reply.
    pub fn is_available(&self, outcome: &Outcome) -> (r: bool)
        ensures
            r == outcome.succeeded(),
    {
        match outcome {
            Outcome::Replied { status, .. } => is_success(*status),
            _ => false,
        }
    }
}

// ---- laws -------------------------------------------------------------------

/// A job that was never taken is unknown: nothing can be asked of it, and asking
/// changes nothing.
pub proof fn law_unknown_job_is_not_found(v: ServerlessView, job_id: JobId, outcome: Outcome)
    requires
        !v.runs.contains_key(job_id),
    ensures
        asked_after(v, job_id, outcome) == (
            Err::<JobStatus, _>(ErrorView::JobNotFound { job_id: hyphenated(job_id) }),
            v,
        ),
        called_off(v, job_id, outcome) == (
            Err::<(), _>(ErrorView::JobNotFound { job_id: hyphenated(job_id) }),
            v,
        ),
{
}

/// A job that was taken is known from then on under the identifier that came back, and
/// whoever asks after it is answered unless the request fails. Other jobs are as they
/// were.
pub proof fn law_taken_job_is_known(
    v: ServerlessView,
    job_id: JobId,
    other: JobId,
    taken: Outcome,
    asked: Outcome,
)
    requires
        submit_error(taken) is None,
    ensures
        ({
            let after = with_job(v, job_id, taken);
            &&& after.runs.contains_key(job_id)
            &&& Some(after.runs[job_id].run_id) == taken.json().at("id"@).as_str()
            &&& after.runs[job_id].status == JobStatus::Pending
            &&& asked_after(after, job_id, asked).0 is Ok <==> asked is Replied
            &&& other != job_id ==> after.runs.contains_key(other) == v.runs.contains_key(other)
            &&& other != job_id && v.runs.contains_key(other) ==> after.runs[other]
                == v.runs[other]
        }),
{
}

/// A job that was taken stays known, under the identifier of its run, whatever is
/// asked after it or another job and whatever comes back.
pub proof fn law_taken_job_stays_known(
    v: ServerlessView,
    job_id: JobId,
    other: JobId,
    outcome: Outcome,
)
    requires
        v.runs.contains_key(job_id),
    ensures
        ({
            let asked = asked_after(v, other, outcome).1;
            let off = called_off(v, other, outcome).1;
            &&& asked.runs.contains_key(job_id)
            &&& asked.runs[job_id].run_id == v.runs[job_id].run_id
            &&& off.runs.contains_key(job_id)
            &&& off.runs[job_id].run_id == v.runs[job_id].run_id
            &&& asked.runs.dom() =~= v.runs.dom()
            &&& off.runs.dom() =~= v.runs.dom()
        }),
{
}

/// A job gets a receipt exactly where it is known, asking after it comes through, and
/// it is complete by what came back or its output was seen before.
pub proof fn law_receipt_upon_completion(v: ServerlessView, job_id: JobId, outcome: Outcome)
    ensures
        receipt_refusal(v, job_id, outcome) is None <==> {
            &&& v.runs.contains_key(job_id)
            &&& outcome is Replied
            &&& status_meant(outcome.json().at("status"@).as_str()) == JobStatus::Completed
                || v.runs[job_id].result is Some
        },
{
}

/// What is done to one job leaves the others as they are.
pub proof fn law_other_jobs_untouched(
    v: ServerlessView,
    job_id: JobId,
    other: JobId,
    outcome: Outcome,
)
    requires
        job_id != other,
        v.runs.contains_key(other),
    ensures
        asked_after(v, job_id, outcome).1.runs[other] == v.runs[other],
        called_off(v, job_id, outcome).1.runs[other] == v.runs[other],
{
}

/// An output once seen is not lost.
pub proof fn law_output_is_kept(v: ServerlessView, job_id: JobId, outcome: Outcome)
    requires
        v.runs.contains_key(job_id),
        v.runs[job_id].result is Some,
    ensures
        asked_after(v, job_id, outcome).1.runs[job_id].result is Some,
        called_off(v, job_id, outcome).1.runs[job_id].result == v.runs[job_id].result,
{
}

/// A job that was called off is kept as cancelled, until it is asked after again.
pub proof fn law_called_off_is_cancelled(v: ServerlessView, job_id: JobId, outcome: Outcome)
    requires
        v.runs.contains_key(job_id),
        outcome is Replied,
    ensures
        called_off(v, job_id, outcome).0 is Ok,
        called_off(v, job_id, outcome).1.runs[job_id].status == JobStatus::Cancelled,
{
}

/// Any execution time is charged for, and none is not.
pub proof fn law_any_time_is_charged(exec_ms: u64)
    ensures
        serverless_cents(gpu_seconds_of(exec_ms)) > 0 <==> exec_ms > 0,
{
    lemma2_to64();
    if exec_ms > 0 {
        let x = double_of_int(exec_ms as int);
        lemma_integer_between(exec_ms as int);
        lemma_product_between(x, 1, 1000, 0, 0, 10, -52, 12);
        let seconds = gpu_seconds_of(exec_ms);
        lemma_product_between(seconds, 200, 1, 0, 8, 0, -62, 13);
        let scaled = seconds.product(200, 1, 0);
        lemma_product_between(scaled, 1, 3600, 0, 0, 12, -62, 22);
        lemma_ceiling_positive(scaled.product(1, 3600, 0), u64::MAX as nat, -74, 23);
    } else {
        let zero = F64 { bits: 0 };
        assert(double_of_int(0) == zero);
        assert(zero.mantissa() == 0);
        assert(zero.product(1, 1000, 0) == zero);
        assert(zero.product(200, 1, 0) == zero);
        assert(zero.product(1, 3600, 0) == zero);
        lemma_ceiling_of_zero(u64::MAX as nat);
    }
}

/// A longer execution costs no less.
pub proof fn law_longer_costs_no_less(short_ms: u64, long_ms: u64)
    requires
        short_ms <= long_ms,
    ensures
        serverless_cents(gpu_seconds_of(short_ms)) <= serverless_cents(gpu_seconds_of(long_ms)),
{
    lemma2_to64();
    law_any_time_is_charged(short_ms);
    if short_ms > 0 {
        let x = double_of_int(short_ms as int);
        let y = double_of_int(long_ms as int);
        lemma_integer_between(short_ms as int);
        lemma_integer_between(long_ms as int);
        law_integers_keep_order(short_ms as int, long_ms as int);
        lemma_product_between(x, 1, 1000, 0, 0, 10, -52, 12);
        lemma_product_between(y, 1, 1000, 0, 0, 10, -52, 12);
        law_products_keep_order(x, y, 1, 1000, 0, 0, 10, -52, 12);
        let x2 = gpu_seconds_of(short_ms);
        let y2 = gpu_seconds_of(long_ms);
        lemma_product_between(x2, 200, 1, 0, 8, 0, -62, 13);
        lemma_product_between(y2, 200, 1, 0, 8, 0, -62, 13);
        law_products_keep_order(x2, y2, 200, 1, 0, 8, 0, -62, 13);
        let x3 = x2.product(200, 1, 0);
        let y3 = y2.product(200, 1, 0);
        lemma_product_between(x3, 1, 3600, 0, 0, 12, -62, 22);
        lemma_product_between(y3, 1, 3600, 0, 0, 12, -62, 22);
        law_products_keep_order(x3, y3, 1, 3600, 0, 0, 12, -62, 22);
        law_rounding_up_keeps_order(
            x3.product(1, 3600, 0),
            y3.product(1, 3600, 0),
            u64::MAX as nat,
            -74,
            23,
        );
    }
}

} // verus!
