//! RunPod's rented pods: a job gets a machine of its own, ordered and given back
//! through a GraphQL service.
use crate::clock::{is_reading, InstantView, Timestamp};
use crate::float64::{double_of_int, from_u64, round_up, times, truncate, F64};
use crate::float64::{lemma_ceiling_of_zero, lemma_ceiling_positive};
use crate::float64::{lemma_integer_between, lemma_product_between};
use crate::float_order::{law_integers_keep_order, law_products_keep_order};
use crate::float_order::law_rounding_up_keeps_order;
use crate::http::{bearer, bearer_header, HttpRequest, Method, Outcome, RequestView};
use crate::job::{adapter_error, hyphenated, image_in, image_text, job_not_found};
use crate::job::{plain, Allocation, ErrorView, Job, JobId, JobStatus, ProviderTier};
use crate::job::{TrustLevel, UcxError, WorkloadType};
use crate::json::{opt_str, opt_text, text, Fields, Json, JsonView};
use crate::provider::{is_outside_allocation, is_rented_gpu, outside_allocation, rented_gpu};
use crate::provider::{CpuArch, CpuCapability, ProviderCapability};
use crate::receipt::{BillingCurrency, BillingRecord, ComputeReceipt, LineItem};
use crate::receipt::{ResourceUsage, VerificationProof};
use crate::text::{decimal, occurs, occurs_in, str_eq, u64_text};
use std::collections::HashMap;
use vstd::arithmetic::power2::lemma2_to64;
use vstd::prelude::*;
use vstd::string::*;

verus! {

broadcast use vstd::std_specs::hash::group_hash_axioms;

/// Orders a pod.
pub const DEPLOY_QUERY: &'static str = r#"
            mutation Deploy($input: PodFindAndDeployOnDemandInput!) {
                podFindAndDeployOnDemand(input: $input) {
                    id
                    desiredStatus
                    imageName
                    gpuCount
                }
            }
        "#;

/// Gives a pod back.
pub const TERMINATE_QUERY: &'static str = r#"
            mutation TerminatePod($input: PodTerminateInput!) {
                podTerminate(input: $input)
            }
        "#;

/// Asks after a pod.
pub const STATUS_QUERY: &'static str = r#"
            query PodStatus($podId: String!) {
                pod(input: { podId: $podId }) {
                    id
                    desiredStatus
                    runtime { uptimeInSeconds }
                }
            }
        "#;

/// Asks what kinds of GPU there are.
pub const GPU_TYPES_QUERY: &'static str = r#"
            query GpuTypes { gpuTypes { id displayName memoryInGb } }
        "#;

/// A pod that runs a job.
struct PodRecord {
    pod_id: String,
    status: JobStatus,
    image: String,
    started_at: Timestamp,
}

/// What is kept of a pod.
pub struct PodRecordView {
    pub pod_id: Seq<char>,
    pub status: JobStatus,
    pub image: Seq<char>,
    pub started_at: Timestamp,
}

impl PodRecord {
    spec fn kept(self) -> PodRecordView {
        PodRecordView {
            pod_id: self.pod_id@,
            status: self.status,
            image: self.image@,
            started_at: self.started_at,
        }
    }
}

/// A provider that rents a pod for each job.
pub struct RunPodPodAdapter {
    api_key: String,
    gpu_type: String,
    capability: ProviderCapability,
    pods: HashMap<JobId, PodRecord>,
}

/// What an adapter holds.
#[verifier::ext_equal]
pub struct PodAdapterView {
    pub api_key: Seq<char>,
    pub gpu_type: Seq<char>,
    pub capability: ProviderCapability,
    pub pods: Map<JobId, PodRecordView>,
}

impl View for RunPodPodAdapter {
    type V = PodAdapterView;

    closed spec fn view(&self) -> PodAdapterView {
        PodAdapterView {
            api_key: self.api_key@,
            gpu_type: self.gpu_type@,
            capability: self.capability,
            pods: self.pods@.map_values(|r: PodRecord| r.kept()),
        }
    }
}

/// The body of a GraphQL request.
pub open spec fn graphql_body(query: Seq<char>, variables: JsonView) -> JsonView {
    JsonView::Object(seq![("query"@, JsonView::Str(query)), ("variables"@, variables)])
}

impl PodAdapterView {
    /// An adapter that keeps one more pod, or another one for a job.
    pub open spec fn keeping(self, job_id: JobId, pod: PodRecordView) -> PodAdapterView {
        PodAdapterView { pods: self.pods.insert(job_id, pod), ..self }
    }

    /// A request to the service with a body.
    pub open spec fn request(self, body: JsonView) -> RequestView {
        RequestView {
            method: Method::Post,
            url: "https://api.runpod.io/graphql"@,
            authorization: Some(bearer(self.api_key)),
            body: Some(body),
            timeout_secs: None,
        }
    }
}

// ---- capability -------------------------------------------------------------

/// The memory of a kind of GPU, in gigabytes, as far as its name tells.
pub open spec fn vram_of(gpu_type: Seq<char>) -> int {
    if occurs(gpu_type, "H100"@) || occurs(gpu_type, "80GB"@) {
        80
    } else if occurs(gpu_type, "40GB"@) {
        40
    } else {
        24
    }
}

/// Whether a capability is that of pods with a kind of GPU.
pub open spec fn is_pod_capability(c: ProviderCapability, gpu_type: Seq<char>) -> bool {
    &&& c.provider_id@ == "runpod-pod"@
    &&& c.owner_agent_id is None
    &&& c.tier == ProviderTier::Professional
    &&& c.trust == TrustLevel::Standard
    &&& c.gpu is Some
    &&& is_rented_gpu(c.gpu->0, gpu_type, double_of_int(vram_of(gpu_type)))
    &&& c.cpu == (CpuCapability { cores: 16, arch: CpuArch::X86_64, frequency_mhz: None })
    &&& c.ram_gb == double_of_int(128)
    &&& c.disk_gb == double_of_int(50)
    &&& c.runtimes@.len() == 0
    &&& c.price_gpu_hour_cents == Some(300u64)
    &&& c.price_cpu_hour_cents == 5
    &&& c.policy_deny@.len() == 0
    &&& c.regions.deep_view() == seq!["US"@, "EU"@, "CA"@]
}

fn build_pod_capability(gpu_type: &str) -> (r: ProviderCapability)
    ensures
        is_pod_capability(r, gpu_type@),
{
    let vram_gb: u64 = if occurs_in(gpu_type, "H100") || occurs_in(gpu_type, "80GB") {
        80
    } else if occurs_in(gpu_type, "40GB") {
        40
    } else {
        24
    };
    let mut regions: Vec<String> = Vec::new();
    regions.push("US".to_string());
    regions.push("EU".to_string());
    regions.push("CA".to_string());
    assert(regions.deep_view() =~= seq!["US"@, "EU"@, "CA"@]);
    ProviderCapability {
        provider_id: "runpod-pod".to_string(),
        owner_agent_id: None,
        tier: ProviderTier::Professional,
        trust: TrustLevel::Standard,
        gpu: Some(rented_gpu(gpu_type, from_u64(vram_gb))),
        cpu: CpuCapability { cores: 16, arch: CpuArch::X86_64, frequency_mhz: None },
        ram_gb: from_u64(128),
        disk_gb: from_u64(50),
        runtimes: Vec::new(),
        price_gpu_hour_cents: Some(300),
        price_cpu_hour_cents: 5,
        policy_deny: Vec::new(),
        regions,
    }
}

// ---- what replies mean ------------------------------------------------------

pub open spec fn pod_error(reason: Seq<char>) -> ErrorView {
    ErrorView::Adapter { adapter: "runpod-pod"@, reason }
}

/// The data of a reply. A reply that mentions errors has none.
pub open spec fn graphql_data(outcome: Outcome) -> Result<JsonView, ErrorView> {
    match outcome {
        Outcome::Failed { reason } => Err(pod_error(reason@)),
        Outcome::Replied { .. } => if outcome.json().get("errors"@) is Some {
            Err(pod_error("GraphQL errors: "@ + outcome.errors_text()))
        } else {
            Ok(outcome.json().at("data"@))
        },
    }
}

/// The identifier of the pod that was ordered, or why there is none.
pub open spec fn ordered_pod(outcome: Outcome) -> Result<Seq<char>, ErrorView> {
    match graphql_data(outcome) {
        Err(e) => Err(e),
        Ok(data) => match data.at("podFindAndDeployOnDemand"@).at("id"@).as_str() {
            Some(id) => Ok(id),
            None => Err(pod_error("missing pod id in RunPod response"@)),
        },
    }
}

/// An adapter that has taken up the reply to the order of a pod for a job.
pub open spec fn with_pod(
    v: PodAdapterView,
    job: Job,
    outcome: Outcome,
    started_at: Timestamp,
) -> PodAdapterView {
    v.keeping(
        job.id,
        PodRecordView {
            pod_id: ordered_pod(outcome)->Ok_0,
            status: JobStatus::Pending,
            image: image_text(job.runtime_spec@),
            started_at,
        },
    )
}

/// How a job fares by the word that RunPod has for its pod.
pub open spec fn pod_status_meant(word: Option<Seq<char>>) -> JobStatus {
    match word {
        Some(s) => if s == "RUNNING"@ {
            JobStatus::Running
        } else if s == "EXITED"@ {
            JobStatus::Completed
        } else if s == "TERMINATED"@ {
            JobStatus::Cancelled
        } else {
            JobStatus::Pending
        },
        None => JobStatus::Pending,
    }
}

/// A pod whose job fares otherwise.
pub open spec fn with_status(pod: PodRecordView, status: JobStatus) -> PodRecordView {
    PodRecordView { status, ..pod }
}

/// What asking after a job gives, and the adapter afterwards.
pub open spec fn asked_after(v: PodAdapterView, job_id: JobId, outcome: Outcome) -> (
    Result<JobStatus, ErrorView>,
    PodAdapterView,
) {
    if !v.pods.contains_key(job_id) {
        (Err(ErrorView::JobNotFound { job_id: hyphenated(job_id) }), v)
    } else {
        match graphql_data(outcome) {
            Err(e) => (Err(e), v),
            Ok(data) => {
                let status = pod_status_meant(data.at("pod"@).at("desiredStatus"@).as_str());
                (Ok(status), v.keeping(job_id, with_status(v.pods[job_id], status)))
            },
        }
    }
}

/// What calling a job off gives, and the adapter afterwards.
pub open spec fn called_off(v: PodAdapterView, job_id: JobId, outcome: Outcome) -> (
    Result<(), ErrorView>,
    PodAdapterView,
) {
    if !v.pods.contains_key(job_id) {
        (Err(ErrorView::JobNotFound { job_id: hyphenated(job_id) }), v)
    } else {
        match graphql_data(outcome) {
            Err(e) => (Err(e), v),
            Ok(_) => (
                Ok(()),
                v.keeping(job_id, with_status(v.pods[job_id], JobStatus::Cancelled)),
            ),
        }
    }
}

// ---- ordering ---------------------------------------------------------------

/// What is ordered for a job.
pub open spec fn order_input(gpu_type: Seq<char>, job: Job) -> JsonView {
    JsonView::Object(
        seq![
            ("gpuTypeId"@, JsonView::Str(gpu_type)),
            ("imageName"@, JsonView::Str(image_text(job.runtime_spec@))),
            (
                "gpuCount"@,
                JsonView::UInt(
                    match job.requirements.gpu_count {
                        Some(n) => n as u64,
                        None => 1,
                    },
                ),
            ),
            ("containerDiskInGb"@, JsonView::UInt(50)),
            ("volumeInGb"@, JsonView::UInt(0)),
            (
                "minMemoryInGb"@,
                JsonView::UInt(
                    match job.requirements.ram_gb {
                        Some(g) => g.truncated(0, u32::MAX as nat) as u64,
                        None => 16,
                    },
                ),
            ),
            ("minVcpuCount"@, JsonView::UInt(4)),
            ("cloudType"@, JsonView::Str("SECURE"@)),
        ],
    )
}

/// Variables with a single input.
pub open spec fn input_only(input: JsonView) -> JsonView {
    JsonView::Object(seq![("input"@, input)])
}

/// The order for a job.
pub open spec fn order_body(gpu_type: Seq<char>, job: Job) -> JsonView {
    graphql_body(DEPLOY_QUERY@, input_only(order_input(gpu_type, job)))
}

/// The input that names a pod.
pub open spec fn pod_only(pod_id: Seq<char>) -> JsonView {
    JsonView::Object(seq![("podId"@, JsonView::Str(pod_id))])
}

/// The body that gives a pod back.
pub open spec fn termination_body(pod_id: Seq<char>) -> JsonView {
    graphql_body(TERMINATE_QUERY@, input_only(pod_only(pod_id)))
}

/// Whether a job is one for this kind of provider: long work that may leave the
/// house and says which image it runs.
pub open spec fn suits_pod(job: Job) -> bool {
    (job.workload == WorkloadType::Training || job.workload == WorkloadType::Simulation)
        && job.constraints.allow_external && job.runtime_spec@.get("image"@) is Some
}

// ---- receipts ---------------------------------------------------------------

/// How long a pod has run at `now`, in whole seconds; never less than nothing.
pub open spec fn elapsed_at(started_at: InstantView, now: InstantView) -> int {
    if now.seconds_since(started_at) < 0 {
        0
    } else {
        now.seconds_since(started_at)
    }
}

/// The charge for a time in seconds: three hundred cents an hour, rounded up.
pub open spec fn pod_cents(seconds: F64) -> nat {
    seconds.product(300, 1, 0).product(1, 3600, 0).ceiling(u64::MAX as nat)
}

/// A receipt that waits for its pod to be given back.
#[derive(Debug)]
pub struct ReceiptDraft {
    pub job_id: JobId,
    pub pod_id: String,
    pub elapsed_secs: u64,
    /// Gives the pod back.
    pub termination: HttpRequest,
}

/// Whether a receipt is the one for a job whose pod ran for some time.
pub open spec fn is_pod_receipt(
    r: ComputeReceipt,
    gpu_type: Seq<char>,
    job_id: JobId,
    pod_id: Seq<char>,
    elapsed_secs: u64,
    completed_at: Timestamp,
) -> bool {
    let seconds = double_of_int(elapsed_secs as int);
    let cents = pod_cents(seconds);
    &&& r.job_id == job_id
    &&& r.provider_id@ == "runpod-pod"@
    &&& r.completed_at == completed_at
    &&& r.resources == (ResourceUsage {
        gpu_seconds: seconds,
        cpu_seconds: seconds.product(1, 1, -2),
        ram_gb_seconds: F64 { bits: 0 },
        storage_gb: F64 { bits: 0 },
        egress_gb: F64 { bits: 0 },
    })
    &&& r.billing.amount_cents == cents
    &&& r.billing.currency == BillingCurrency::Usd
    &&& r.billing.line_items@.len() == 1
    &&& r.billing.line_items@[0].label@ == decimal(elapsed_secs as nat) + "s pod ("@ + gpu_type
        + ") GPU compute"@
    &&& r.billing.line_items@[0].cents == cents
    &&& opt_text(r.verification.artifact_hash) == Some(pod_id)
    &&& opt_text(r.verification.runtime_attestation) == Some("runpod-pod"@)
    &&& r.verification.execution_hash is None
    &&& r.zangbeto_anchor is None
    &&& r.gix1_canonical_id is None
}

// ---- the adapter ------------------------------------------------------------

impl RunPodPodAdapter {
    /// An adapter for a kind of GPU by RunPod's name for it, such as
    /// `NVIDIA A100 SXM4 80GB`.
    pub fn new(api_key: String, gpu_type: String) -> (r: Self)
        ensures
            r@.api_key == api_key@,
            r@.gpu_type == gpu_type@,
            is_pod_capability(r@.capability, gpu_type@),
            r@.pods == Map::<JobId, PodRecordView>::empty(),
    {
        let capability = build_pod_capability(gpu_type.as_str());
        let r = RunPodPodAdapter { api_key, gpu_type, capability, pods: HashMap::new() };
        assert(r@.pods =~= Map::<JobId, PodRecordView>::empty());
        r
    }

    /// An adapter for the configured key, which must be set and not empty, and the
    /// configured kind of GPU, or an A100 with 80 gigabytes.
    pub fn from_env(api_key: Option<&str>, gpu_type: Option<&str>) -> (r: Option<Self>)
        ensures
            r is Some <==> opt_str(api_key) is Some && opt_str(api_key)->0.len() > 0,
            r matches Some(adapter) ==> {
                &&& Some(adapter@.api_key) == opt_str(api_key)
                &&& adapter@.gpu_type == (match opt_str(gpu_type) {
                    Some(s) => s,
                    None => "NVIDIA A100 SXM4 80GB"@,
                })
                &&& is_pod_capability(adapter@.capability, adapter@.gpu_type)
                &&& adapter@.pods == Map::<JobId, PodRecordView>::empty()
            },
    {
        let key = match api_key {
            Some(key) => key,
            None => return None,
        };
        if key.is_empty() {
            return None;
        }
        let gpu_type = match gpu_type {
            Some(s) => s,
            None => "NVIDIA A100 SXM4 80GB",
        };
        Some(Self::new(key.to_string(), gpu_type.to_string()))
    }

    pub fn id(&self) -> (r: &'static str)
        ensures
            r@ == "runpod-pod"@,
    {
        "runpod-pod"
    }

    pub fn network_name(&self) -> (r: &'static str)
        ensures
            r@ == "runpod"@,
    {
        "runpod"
    }

    pub fn capability(&self) -> (r: &ProviderCapability)
        ensures
            *r == self@.capability,
    {
        &self.capability
    }

    /// Whether the job is one for this provider.
    pub fn can_accept(&self, job: &Job) -> (r: bool)
        ensures
            r == suits_pod(*job),
    {
        (job.workload == WorkloadType::Training || job.workload == WorkloadType::Simulation)
            && job.constraints.allow_external && job.runtime_spec.get("image").is_some()
    }

    fn auth_header(&self) -> (r: String)
        ensures
            r@ == bearer(self@.api_key),
    {
        bearer_header(self.api_key.as_str())
    }

    /// A request to the service with a body.
    fn service_request(&self, body: Json) -> (r: HttpRequest)
        ensures
            r@ == self@.request(body@),
    {
        HttpRequest {
            method: Method::Post,
            url: "https://api.runpod.io/graphql".to_string(),
            authorization: Some(self.auth_header()),
            body: Some(body),
            timeout_secs: None,
        }
    }

    /// The request for a query with variables.
    pub fn graphql_request(&self, query: &str, variables: Json) -> (r: HttpRequest)
        ensures
            r@ == self@.request(graphql_body(query@, variables@)),
    {
        let ghost vars = variables@;
        let body = Fields::new().with("query", text(query)).with("variables", variables).object();
        assert(body@->Object_0 =~= graphql_body(query@, vars)->Object_0);
        self.service_request(body)
    }

    /// The data of a reply, or the errors that it mentions.
    pub fn graphql(&self, outcome: &Outcome) -> (r: Result<Json, UcxError>)
        ensures
            match r {
                Ok(data) => graphql_data(*outcome) == Ok::<_, ErrorView>(data@),
                Err(e) => graphql_data(*outcome) == Err::<JsonView, _>(e@),
            },
    {
        match outcome {
            Outcome::Failed { reason } => Err(adapter_error("runpod-pod", reason.as_str())),
            Outcome::Replied { status: _, body } => match body {
                Some(document) => {
                    if document.json.get("errors").is_some() {
                        let mut reason = "GraphQL errors: ".to_string();
                        reason.append(document.errors_text.as_str());
                        return Err(adapter_error("runpod-pod", reason.as_str()));
                    }
                    match document.json.get("data") {
                        Some(data) => Ok(data.duplicate()),
                        None => Ok(Json::Null),
                    }
                },
                None => Ok(Json::Null),
            },
        }
    }

    /// The request that gives a pod back.
    pub fn terminate_pod_request(&self, pod_id: &str) -> (r: HttpRequest)
        ensures
            r@ == self@.request(termination_body(pod_id@)),
    {
        let pod = Fields::new().with("podId", text(pod_id)).object();
        assert(pod@->Object_0 =~= pod_only(pod_id@)->Object_0);
        let variables = Fields::new().with("input", pod).object();
        assert(variables@->Object_0 =~= input_only(pod_only(pod_id@))->Object_0);
        self.graphql_request(TERMINATE_QUERY, variables)
    }

    /// Whether a pod was given back, by the reply.
    pub fn terminate_pod(&self, outcome: &Outcome) -> (r: Result<(), UcxError>)
        ensures
            match r {
                Ok(_) => graphql_data(*outcome) is Ok,
                Err(e) => graphql_data(*outcome) == Err::<JsonView, _>(e@),
            },
    {
        match self.graphql(outcome) {
            Ok(_) => Ok(()),
            Err(e) => Err(e),
        }
    }

    /// The order for the job, as the service takes it.
    pub fn translate_job(&self, job: &Job) -> (r: Result<Json, UcxError>)
        ensures
            r is Ok,
            r->Ok_0@ == order_body(self@.gpu_type, *job),
    {
        let gpu_count: u8 = match job.requirements.gpu_count {
            Some(n) => n,
            None => 1,
        };
        let memory_gb: u64 = match job.requirements.ram_gb {
            Some(g) => truncate(g, 0, u32::MAX as u64),
            None => 16,
        };
        let input = Fields::new().with("gpuTypeId", text(self.gpu_type.as_str())).with(
            "imageName",
            text(image_in(&job.runtime_spec)),
        ).with("gpuCount", Json::UInt(gpu_count as u64)).with(
            "containerDiskInGb",
            Json::UInt(50),
        ).with("volumeInGb", Json::UInt(0)).with("minMemoryInGb", Json::UInt(memory_gb)).with(
            "minVcpuCount",
            Json::UInt(4),
        ).with("cloudType", text("SECURE")).object();
        assert(input@->Object_0 =~= order_input(self@.gpu_type, *job)->Object_0);
        let ghost ordered = input@;
        let variables = Fields::new().with("input", input).object();
        assert(variables@->Object_0 =~= input_only(ordered)->Object_0);
        let ghost vars = variables@;
        let body = Fields::new().with("query", text(DEPLOY_QUERY)).with(
            "variables",
            variables,
        ).object();
        assert(body@->Object_0 =~= graphql_body(DEPLOY_QUERY@, vars)->Object_0);
        Ok(body)
    }

    /// The request that orders a pod for the job.
    pub fn submit_request(&self, job: &Job) -> (r: Result<HttpRequest, UcxError>)
        ensures
            r is Ok,
            r->Ok_0@ == self@.request(order_body(self@.gpu_type, *job)),
    {
        match self.translate_job(job) {
            Ok(body) => Ok(self.service_request(body)),
            Err(e) => Err(e),
        }
    }

    /// Takes up the reply to an order, at given times. A pod that was ordered is kept
    /// from then on.
    pub fn submit_at(
        &mut self,
        job: &Job,
        outcome: &Outcome,
        started_at: Timestamp,
        expires_at: Timestamp,
        allocated_at: Timestamp,
    ) -> (r: Result<Allocation, UcxError>)
        ensures
            match r {
                Ok(a) => {
                    &&& ordered_pod(*outcome) is Ok
                    &&& is_outside_allocation(
                        a,
                        job.id,
                        "runpod-pod"@,
                        300,
                        expires_at,
                        allocated_at,
                    )
                    &&& final(self)@ == with_pod(old(self)@, *job, *outcome, started_at)
                },
                Err(e) => ordered_pod(*outcome) == Err::<Seq<char>, _>(e@) && final(self)@ == old(
                    self,
                )@,
            },
    {
        let data = match self.graphql(outcome) {
            Ok(data) => data,
            Err(e) => return Err(e),
        };
        let null = Json::Null;
        let pod = match data.get("podFindAndDeployOnDemand") {
            Some(pod) => pod,
            None => &null,
        };
        let pod_id = match pod.str_at("id") {
            Some(s) => s.to_string(),
            None => return Err(adapter_error("runpod-pod", "missing pod id in RunPod response")),
        };
        let record = PodRecord {
            pod_id,
            status: JobStatus::Pending,
            image: image_in(&job.runtime_spec).to_string(),
            started_at,
        };
        let ghost kept = record.kept();
        self.pods.insert(job.id, record);
        assert(self@ =~= old(self)@.keeping(job.id, kept));
        Ok(outside_allocation(job.id, self.id(), 300, expires_at, allocated_at))
    }

    /// Takes up the reply to an order that was placed just now.
    pub fn submit(&mut self, job: &Job, outcome: &Outcome) -> (r: Result<Allocation, UcxError>)
        ensures
            match r {
                Ok(a) => {
                    &&& ordered_pod(*outcome) is Ok
                    &&& is_outside_allocation(
                        a,
                        job.id,
                        "runpod-pod"@,
                        300,
                        a.offer.expires_at,
                        a.allocated_at,
                    )
                    &&& is_reading(a.offer.expires_at@)
                    &&& is_reading(a.allocated_at@)
                    &&& exists|started_at: Timestamp|
                        is_reading(started_at@) && final(self)@ == #[trigger] with_pod(
                            old(self)@,
                            *job,
                            *outcome,
                            started_at,
                        )
                },
                Err(e) => ordered_pod(*outcome) == Err::<Seq<char>, _>(e@) && final(self)@ == old(
                    self,
                )@,
            },
    {
        let started_at = Timestamp::now();
        let expires_at = Timestamp::now();
        let allocated_at = Timestamp::now();
        self.submit_at(job, outcome, started_at, expires_at, allocated_at)
    }

    /// The request that asks after a job.
    pub fn status_request(&self, job_id: JobId) -> (r: Result<HttpRequest, UcxError>)
        ensures
            match r {
                Ok(request) => self@.pods.contains_key(job_id) && request@ == self@.request(
                    graphql_body(STATUS_QUERY@, pod_only(self@.pods[job_id].pod_id)),
                ),
                Err(e) => !self@.pods.contains_key(job_id) && e@ == (ErrorView::JobNotFound {
                    job_id: hyphenated(job_id),
                }),
            },
    {
        match self.pods.get(&job_id) {
            Some(record) => {
                let variables = Fields::new().with("podId", text(record.pod_id.as_str())).object();
                assert(variables@->Object_0 =~= pod_only(record.pod_id@)->Object_0);
                Ok(self.graphql_request(STATUS_QUERY, variables))
            },
            None => Err(job_not_found(job_id)),
        }
    }

    /// Keeps the pod of a job under another status.
    fn set_status(&mut self, job_id: JobId, status: JobStatus)
        requires
            old(self)@.pods.contains_key(job_id),
        ensures
            final(self)@ == old(self)@.keeping(
                job_id,
                with_status(old(self)@.pods[job_id], status),
            ),
    {
        let record = match self.pods.get(&job_id) {
            Some(record) => PodRecord {
                pod_id: record.pod_id.clone(),
                status,
                image: record.image.clone(),
                started_at: record.started_at,
            },
            None => return,
        };
        let ghost kept = record.kept();
        self.pods.insert(job_id, record);
        assert(self@ =~= old(self)@.keeping(job_id, kept));
    }

    /// Takes up the reply to a question after a job: how the job fares.
    pub fn status(&mut self, job_id: JobId, outcome: &Outcome) -> (r: Result<JobStatus, UcxError>)
        ensures
            plain(r) == asked_after(old(self)@, job_id, *outcome).0,
            final(self)@ == asked_after(old(self)@, job_id, *outcome).1,
    {
        if !self.pods.contains_key(&job_id) {
            return Err(job_not_found(job_id));
        }
        let data = match self.graphql(outcome) {
            Ok(data) => data,
            Err(e) => return Err(e),
        };
        let null = Json::Null;
        let pod = match data.get("pod") {
            Some(pod) => pod,
            None => &null,
        };
        let status = match pod.str_at("desiredStatus") {
            Some(s) => if str_eq(s, "RUNNING") {
                JobStatus::Running
            } else if str_eq(s, "EXITED") {
                JobStatus::Completed
            } else if str_eq(s, "TERMINATED") {
                JobStatus::Cancelled
            } else {
                JobStatus::Pending
            },
            None => JobStatus::Pending,
        };
        self.set_status(job_id, status);
        Ok(status)
    }

    /// Begins the receipt of a job at `now`: how long its pod has run, and the request
    /// that gives the pod back.
    pub fn begin_receipt_at(&self, job_id: JobId, now: &Timestamp) -> (r: Result<
        ReceiptDraft,
        UcxError,
    >)
        ensures
            match r {
                Ok(draft) => {
                    &&& self@.pods.contains_key(job_id)
                    &&& draft.job_id == job_id
                    &&& draft.pod_id@ == self@.pods[job_id].pod_id
                    &&& draft.elapsed_secs == elapsed_at(self@.pods[job_id].started_at@, now@)
                    &&& draft.termination@ == self@.request(
                        termination_body(self@.pods[job_id].pod_id),
                    )
                },
                Err(e) => !self@.pods.contains_key(job_id) && e@ == (ErrorView::JobNotFound {
                    job_id: hyphenated(job_id),
                }),
            },
    {
        match self.pods.get(&job_id) {
            Some(record) => {
                let seconds: i64 = now.seconds_since(&record.started_at);
                let elapsed_secs: u64 = if seconds < 0 {
                    0
                } else {
                    seconds as u64
                };
                Ok(
                    ReceiptDraft {
                        job_id,
                        pod_id: record.pod_id.clone(),
                        elapsed_secs,
                        termination: self.terminate_pod_request(record.pod_id.as_str()),
                    },
                )
            },
            None => Err(job_not_found(job_id)),
        }
    }

    /// Begins the receipt of a job now.
    pub fn begin_receipt(&self, job_id: JobId) -> (r: Result<ReceiptDraft, UcxError>)
        ensures
            match r {
                Ok(draft) => {
                    &&& self@.pods.contains_key(job_id)
                    &&& draft.job_id == job_id
                    &&& draft.pod_id@ == self@.pods[job_id].pod_id
                    &&& exists|now: InstantView|
                        is_reading(now) && draft.elapsed_secs
                            == #[trigger] elapsed_at(self@.pods[job_id].started_at@, now)
                    &&& draft.termination@ == self@.request(
                        termination_body(self@.pods[job_id].pod_id),
                    )
                },
                Err(e) => !self@.pods.contains_key(job_id) && e@ == (ErrorView::JobNotFound {
                    job_id: hyphenated(job_id),
                }),
            },
    {
        let now = Timestamp::now();
        self.begin_receipt_at(job_id, &now)
    }

    /// The receipt that was begun, with a given time of completion.
    pub fn receipt_with(&self, draft: &ReceiptDraft, completed_at: Timestamp) -> (r:
        ComputeReceipt)
        ensures
            is_pod_receipt(
                r,
                self@.gpu_type,
                draft.job_id,
                draft.pod_id@,
                draft.elapsed_secs,
                completed_at,
            ),
    {
        let seconds = from_u64(draft.elapsed_secs);
        let cents: u64 = round_up(times(times(seconds, 300, 1, 0), 1, 3600, 0), u64::MAX);
        let mut label = u64_text(draft.elapsed_secs);
        label.append("s pod (");
        label.append(self.gpu_type.as_str());
        label.append(") GPU compute");
        let mut line_items: Vec<LineItem> = Vec::new();
        line_items.push(LineItem { label, cents });
        ComputeReceipt {
            job_id: draft.job_id,
            provider_id: self.id().to_string(),
            completed_at,
            resources: ResourceUsage {
                gpu_seconds: seconds,
                cpu_seconds: times(seconds, 1, 1, -2),
                ram_gb_seconds: F64 { bits: 0 },
                storage_gb: F64 { bits: 0 },
                egress_gb: F64 { bits: 0 },
            },
            billing: BillingRecord {
                amount_cents: cents,
                currency: BillingCurrency::Usd,
                line_items,
            },
            verification: VerificationProof {
                artifact_hash: Some(draft.pod_id.clone()),
                runtime_attestation: Some("runpod-pod".to_string()),
                execution_hash: None,
            },
            zangbeto_anchor: None,
            gix1_canonical_id: None,
        }
    }

    /// The receipt that was begun, completed now. Whether the pod could be given back
    /// makes no difference to it.
    pub fn receipt(&self, draft: &ReceiptDraft) -> (r: Result<ComputeReceipt, UcxError>)
        ensures
            r is Ok,
            is_pod_receipt(
                r->Ok_0,
                self@.gpu_type,
                draft.job_id,
                draft.pod_id@,
                draft.elapsed_secs,
                r->Ok_0.completed_at,
            ),
            is_reading(r->Ok_0.completed_at@),
    {
        Ok(self.receipt_with(draft, Timestamp::now()))
    }

    /// Receipts are not made of what the service sends.
    pub fn translate_receipt(&self, raw: &Json) -> (r: Result<ComputeReceipt, UcxError>)
        ensures
            r is Err,
            r->Err_0@ == pod_error("use receipt()"@),
    {
        Err(adapter_error("runpod-pod", "use receipt()"))
    }

    /// The request that calls a job off: its pod is given back.
    pub fn cancel_request(&self, job_id: JobId) -> (r: Result<HttpRequest, UcxError>)
        ensures
            match r {
                Ok(request) => self@.pods.contains_key(job_id) && request@ == self@.request(
                    termination_body(self@.pods[job_id].pod_id),
                ),
                Err(e) => !self@.pods.contains_key(job_id) && e@ == (ErrorView::JobNotFound {
                    job_id: hyphenated(job_id),
                }),
            },
    {
        match self.pods.get(&job_id) {
            Some(record) => Ok(self.terminate_pod_request(record.pod_id.as_str())),
            None => Err(job_not_found(job_id)),
        }
    }

    /// Takes up the reply to a request that called a job off.
    pub fn cancel(&mut self, job_id: JobId, outcome: &Outcome) -> (r: Result<(), UcxError>)
        ensures
            plain(r) == called_off(old(self)@, job_id, *outcome).0,
            final(self)@ == called_off(old(self)@, job_id, *outcome).1,
    {
        if !self.pods.contains_key(&job_id) {
            return Err(job_not_found(job_id));
        }
        match self.terminate_pod(outcome) {
            Ok(_) => {},
            Err(e) => return Err(e),
        }
        self.set_status(job_id, JobStatus::Cancelled);
        Ok(())
    }

    /// The request that asks whether the service is up.
    pub fn availability_request(&self) -> (r: HttpRequest)
        ensures
            r@ == self@.request(graphql_body(GPU_TYPES_QUERY@, JsonView::Object(Seq::empty()))),
    {
        self.graphql_request(GPU_TYPES_QUERY, Fields::new().object())
    }

    /// Whether the service is up, by its reply.
    pub fn is_available(&self, outcome: &Outcome) -> (r: bool)
        ensures
            r == (graphql_data(*outcome) is Ok),
    {
        self.graphql(outcome).is_ok()
    }
}

// ---- laws -------------------------------------------------------------------

/// A job that no pod was ordered for is unknown: nothing can be asked of it, and
/// asking changes nothing.
pub proof fn law_unknown_job_is_not_found(v: PodAdapterView, job_id: JobId, outcome: Outcome)
    requires
        !v.pods.contains_key(job_id),
    ensures
        asked_after(v, job_id, outcome) == (
            Err::<JobStatus, _>(ErrorView::JobNotFound { job_id: hyphenated(job_id) }),
            v,
        ),
        called_off(v, job_id, outcome) == (
            Err::<(), _>(ErrorView::JobNotFound { job_id: hyphenated(job_id) }),
            v,
        ),
{
}

/// A job that a pod was ordered for is known from then on with that pod, and whoever
/// asks after it is answered unless the request fails or its reply mentions errors.
/// Other jobs are as they were.
pub proof fn law_ordered_pod_is_known(
    v: PodAdapterView,
    job: Job,
    other: JobId,
    ordered: Outcome,
    started_at: Timestamp,
    asked: Outcome,
)
    requires
        ordered_pod(ordered) is Ok,
    ensures
        ({
            let after = with_pod(v, job, ordered, started_at);
            &&& after.pods.contains_key(job.id)
            &&& after.pods[job.id].pod_id == ordered_pod(ordered)->Ok_0
            &&& after.pods[job.id].status == JobStatus::Pending
            &&& asked_after(after, job.id, asked).0 is Ok <==> graphql_data(asked) is Ok
            &&& other != job.id ==> after.pods.contains_key(other) == v.pods.contains_key(other)
            &&& other != job.id && v.pods.contains_key(other) ==> after.pods[other]
                == v.pods[other]
        }),
{
}

/// The pod of a job, its image and its start stay what they were, whatever is asked
/// after this job or another and whatever comes back.
pub proof fn law_pod_stays_known(
    v: PodAdapterView,
    job_id: JobId,
    other: JobId,
    outcome: Outcome,
)
    requires
        v.pods.contains_key(job_id),
    ensures
        ({
            let asked = asked_after(v, other, outcome).1;
            let off = called_off(v, other, outcome).1;
            &&& asked.pods.dom() =~= v.pods.dom()
            &&& off.pods.dom() =~= v.pods.dom()
            &&& asked.pods[job_id] == with_status(v.pods[job_id], asked.pods[job_id].status)
            &&& off.pods[job_id] == with_status(v.pods[job_id], off.pods[job_id].status)
            &&& job_id != other ==> asked.pods[job_id] == v.pods[job_id] && off.pods[job_id]
                == v.pods[job_id]
        }),
{
}

/// A job is kept as cancelled only once the service has taken its pod back.
pub proof fn law_cancelled_once_terminated(v: PodAdapterView, job_id: JobId, outcome: Outcome)
    requires
        v.pods.contains_key(job_id),
    ensures
        called_off(v, job_id, outcome).0 is Ok <==> graphql_data(outcome) is Ok,
        called_off(v, job_id, outcome).0 is Ok ==> called_off(v, job_id, outcome).1.pods[job_id].status
            == JobStatus::Cancelled,
        called_off(v, job_id, outcome).0 is Err ==> called_off(v, job_id, outcome).1 == v,
{
}

/// Any time that a pod ran is charged for, and none is not.
pub proof fn law_any_time_is_charged(elapsed_secs: u64)
    ensures
        pod_cents(double_of_int(elapsed_secs as int)) > 0 <==> elapsed_secs > 0,
{
    lemma2_to64();
    if elapsed_secs > 0 {
        let seconds = double_of_int(elapsed_secs as int);
        lemma_integer_between(elapsed_secs as int);
        lemma_product_between(seconds, 300, 1, 0, 9, 0, -52, 12);
        let scaled = seconds.product(300, 1, 0);
        lemma_product_between(scaled, 1, 3600, 0, 0, 12, -52, 22);
        lemma_ceiling_positive(scaled.product(1, 3600, 0), u64::MAX as nat, -64, 23);
    } else {
        let zero = F64 { bits: 0 };
        assert(double_of_int(0) == zero);
        assert(zero.mantissa() == 0);
        assert(zero.product(300, 1, 0) == zero);
        assert(zero.product(1, 3600, 0) == zero);
        lemma_ceiling_of_zero(u64::MAX as nat);
    }
}

/// A pod that ran longer costs no less.
pub proof fn law_longer_costs_no_less(short_secs: u64, long_secs: u64)
    requires
        short_secs <= long_secs,
    ensures
        pod_cents(double_of_int(short_secs as int)) <= pod_cents(double_of_int(long_secs as int)),
{
    lemma2_to64();
    law_any_time_is_charged(short_secs);
    if short_secs > 0 {
        let x = double_of_int(short_secs as int);
        let y = double_of_int(long_secs as int);
        lemma_integer_between(short_secs as int);
        lemma_integer_between(long_secs as int);
        law_integers_keep_order(short_secs as int, long_secs as int);
        lemma_product_between(x, 300, 1, 0, 9, 0, -52, 12);
        lemma_product_between(y, 300, 1, 0, 9, 0, -52, 12);
        law_products_keep_order(x, y, 300, 1, 0, 9, 0, -52, 12);
        let x2 = x.product(300, 1, 0);
        let y2 = y.product(300, 1, 0);
        lemma_product_between(x2, 1, 3600, 0, 0, 12, -52, 22);
        lemma_product_between(y2, 1, 3600, 0, 0, 12, -52, 22);
        law_products_keep_order(x2, y2, 1, 3600, 0, 0, 12, -52, 22);
        law_rounding_up_keeps_order(
            x2.product(1, 3600, 0),
            y2.product(1, 3600, 0),
            u64::MAX as nat,
            -64,
            23,
        );
    }
}

} // verus!
