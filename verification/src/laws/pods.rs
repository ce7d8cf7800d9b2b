//! Running jobs in rented pods.
use crate::clock::{is_reading, InstantView, Timestamp};
use crate::float64::{double_of_int, lemma_ceiling_of_zero, lemma_integer_between};
use crate::float64::{lemma_product_between, round_up, times, F64, TWO_53};
use crate::http::{HttpRequest, Method, Outcome};
use crate::job::{image_in, Allocation, Job, JobId, JobStatus, ProviderTier, TrustLevel, UcxError};
use crate::json::{member_value, Json, JsonView};
use crate::laws::exchange::{asks, blames, document, knows_not};
use crate::laws::numbers::{lemma_stands_for, lemma_whole_ceiling, lemma_whole_product};
use crate::laws::numbers::{is_cut, lemma_cut, lemma_whole_truncated, stands_for};
use crate::laws::replies::{counts, size, tells};
use crate::laws::serverless::same_account;
use crate::provider::{CpuArch, GpuVendor, ProviderCapability};
use crate::receipt::{BillingCurrency, ComputeReceipt};
use crate::runpod_pod::{elapsed_at, is_pod_capability, law_any_time_is_charged};
use crate::runpod_pod::{law_longer_costs_no_less, pod_cents};
use crate::runpod_pod::{PodAdapterView, ReceiptDraft, RunPodPodAdapter, DEPLOY_QUERY};
use crate::runpod_pod::{GPU_TYPES_QUERY, STATUS_QUERY, TERMINATE_QUERY};
use crate::text::{decimal, occurs, occurs_at};
use vstd::arithmetic::power2::*;
use vstd::prelude::*;

verus! {

/// What pods offer: one NVIDIA card of the given kind, with as much memory as its name
/// tells, for three hundred cents an hour, with sixteen cores, 128 gigabytes of memory
/// and fifty of disk beside it, in three regions.
pub open spec fn is_offer(c: ProviderCapability, gpu_type: Seq<char>) -> bool {
    &&& c.provider_id@ == "runpod-pod"@
    &&& c.owner_agent_id is None
    &&& c.tier == ProviderTier::Professional
    &&& c.trust == TrustLevel::Standard
    &&& c.gpu matches Some(g) && {
        &&& g.vendor == GpuVendor::Nvidia
        &&& g.model@ == gpu_type
        &&& occurs(gpu_type, "H100"@) || occurs(gpu_type, "80GB"@) ==> stands_for(g.vram_gb, 80)
        &&& !occurs(gpu_type, "H100"@) && !occurs(gpu_type, "80GB"@) && occurs(
            gpu_type,
            "40GB"@,
        ) ==> stands_for(g.vram_gb, 40)
        &&& !occurs(gpu_type, "H100"@) && !occurs(gpu_type, "80GB"@) && !occurs(
            gpu_type,
            "40GB"@,
        ) ==> stands_for(g.vram_gb, 24)
        &&& g.fp16 && g.bf16 && g.cuda && !g.rocm
        &&& g.count == 1
    }
    &&& c.cpu.cores == 16
    &&& c.cpu.arch == CpuArch::X86_64
    &&& c.cpu.frequency_mhz is None
    &&& stands_for(c.ram_gb, 128)
    &&& stands_for(c.disk_gb, 50)
    &&& c.runtimes@.len() == 0
    &&& c.price_gpu_hour_cents == Some(300u64)
    &&& c.price_cpu_hour_cents == 5
    &&& c.policy_deny@.len() == 0
    &&& c.regions@.len() == 3 && c.regions@[0]@ == "US"@ && c.regions@[1]@ == "EU"@
        && c.regions@[2]@ == "CA"@
}

proof fn lemma_offer(c: ProviderCapability, gpu_type: Seq<char>)
    requires
        is_pod_capability(c, gpu_type),
    ensures
        is_offer(c, gpu_type),
{
    lemma_stands_for(80);
    lemma_stands_for(40);
    lemma_stands_for(24);
    lemma_stands_for(128);
    lemma_stands_for(50);
    let names = c.regions.deep_view();
    assert(names.len() == 3);
    assert(names[0] == c.regions@[0]@ && names[1] == c.regions@[1]@);
    assert(names[2] == c.regions@[2]@);
}

/// An adapter is set up from the environment where a key is given that is not empty; the
/// kind of GPU is then the given one, or the usual one. It knows no jobs yet.
pub proof fn law_pods_set_up(
    key: Option<&str>,
    gpu_type: Option<&str>,
    r: Option<RunPodPodAdapter>,
)
    requires
        call_ensures(RunPodPodAdapter::from_env, (key, gpu_type), r),
    ensures
        r is Some <==> (key matches Some(k) && k@.len() > 0),
        r matches Some(a) ==> {
            &&& a@.api_key == key->0@
            &&& gpu_type matches Some(g) ==> a@.gpu_type == g@
            &&& gpu_type is None ==> a@.gpu_type == "NVIDIA A100 SXM4 80GB"@
            &&& is_offer(a@.capability, a@.gpu_type)
            &&& forall|id: JobId| !#[trigger] a@.pods.contains_key(id)
        },
{
    if let Some(a) = r {
        lemma_offer(a@.capability, a@.gpu_type);
    }
}

/// An adapter with a key and a kind of GPU holds them, offers what pods of that kind
/// offer, and knows no jobs yet.
pub proof fn law_pod_offer(
    key: String,
    gpu_type: String,
    a: RunPodPodAdapter,
    c: &ProviderCapability,
)
    requires
        call_ensures(RunPodPodAdapter::new, (key, gpu_type), a),
        call_ensures(RunPodPodAdapter::capability, (&a,), c),
    ensures
        a@.api_key == key@,
        a@.gpu_type == gpu_type@,
        forall|id: JobId| !#[trigger] a@.pods.contains_key(id),
        is_offer(*c, gpu_type@),
{
    lemma_offer(*c, gpu_type@);
}

/// Training and simulation are taken, and nothing else; no job that must stay in the
/// house, and none that names no image.
pub proof fn law_pod_accepts(a: &RunPodPodAdapter, job: &Job, r: bool)
    requires
        call_ensures(RunPodPodAdapter::can_accept, (a, job), r),
    ensures
        r ==> job.constraints.allow_external,
        r ==> job.workload is Training || job.workload is Simulation,
        r ==> job.runtime_spec@.get("image"@) is Some,
        job.constraints.allow_external && job.workload is Training && job.runtime_spec@.get(
            "image"@,
        ) is Some ==> r,
        job.constraints.allow_external && job.workload is Simulation && job.runtime_spec@.get(
            "image"@,
        ) is Some ==> r,
{
}

/// The names that an adapter goes by.
pub proof fn law_pod_names(a: &RunPodPodAdapter, id: &'static str, network: &'static str)
    requires
        call_ensures(RunPodPodAdapter::id, (a,), id),
        call_ensures(RunPodPodAdapter::network_name, (a,), network),
    ensures
        id@ == "runpod-pod"@,
        network@ == "runpod"@,
{
}

proof fn lemma_query_apart()
    ensures
        "query"@ != "variables"@,
{
    reveal_strlit("query");
    reveal_strlit("variables");
    assert("query"@.len() == 5);
    assert("variables"@.len() == 9);
}

proof fn lemma_order_apart()
    ensures
        "cloudType"@ != "containerDiskInGb"@,
        "cloudType"@ != "gpuCount"@,
        "cloudType"@ != "gpuTypeId"@,
        "cloudType"@ != "imageName"@,
        "cloudType"@ != "minMemoryInGb"@,
        "cloudType"@ != "minVcpuCount"@,
        "cloudType"@ != "volumeInGb"@,
        "containerDiskInGb"@ != "gpuCount"@,
        "containerDiskInGb"@ != "gpuTypeId"@,
        "containerDiskInGb"@ != "imageName"@,
        "containerDiskInGb"@ != "minMemoryInGb"@,
        "containerDiskInGb"@ != "minVcpuCount"@,
        "containerDiskInGb"@ != "volumeInGb"@,
        "gpuCount"@ != "gpuTypeId"@,
        "gpuCount"@ != "imageName"@,
        "gpuCount"@ != "minMemoryInGb"@,
        "gpuCount"@ != "minVcpuCount"@,
        "gpuCount"@ != "volumeInGb"@,
        "gpuTypeId"@ != "imageName"@,
        "gpuTypeId"@ != "minMemoryInGb"@,
        "gpuTypeId"@ != "minVcpuCount"@,
        "gpuTypeId"@ != "volumeInGb"@,
        "imageName"@ != "minMemoryInGb"@,
        "imageName"@ != "minVcpuCount"@,
        "imageName"@ != "volumeInGb"@,
        "minMemoryInGb"@ != "minVcpuCount"@,
        "minMemoryInGb"@ != "volumeInGb"@,
        "minVcpuCount"@ != "volumeInGb"@,
{
    reveal_strlit("cloudType");
    reveal_strlit("containerDiskInGb");
    reveal_strlit("gpuCount");
    reveal_strlit("gpuTypeId");
    reveal_strlit("imageName");
    reveal_strlit("minMemoryInGb");
    reveal_strlit("minVcpuCount");
    reveal_strlit("volumeInGb");
    assert("cloudType"@.len() == 9);
    assert("containerDiskInGb"@.len() == 17);
    assert("gpuCount"@.len() == 8);
    assert("gpuTypeId"@.len() == 9);
    assert("imageName"@.len() == 9);
    assert("minMemoryInGb"@.len() == 13);
    assert("minVcpuCount"@.len() == 12);
    assert("volumeInGb"@.len() == 10);
    assert("cloudType"@[0] != "gpuTypeId"@[0]);
    assert("cloudType"@[0] != "imageName"@[0]);
    assert("gpuTypeId"@[0] != "imageName"@[0]);
}

/// Whether a request is one to the GraphQL service, for this query.
pub open spec fn queries(q: HttpRequest, key: Seq<char>, query: Seq<char>) -> bool {
    &&& asks(q, Method::Post, "https://api.runpod.io/graphql"@, Some(key))
    &&& q.timeout_secs is None
    &&& q.body matches Some(body) && size(body@) == 2 && tells(body@, "query"@, query)
}

/// The variables of a request to the GraphQL service.
pub open spec fn variables(q: HttpRequest) -> JsonView {
    match q.body {
        Some(body) => body@.at("variables"@),
        None => JsonView::Null,
    }
}

/// A query is sent with its variables as the two members of the body.
pub proof fn law_query_sent(a: &RunPodPodAdapter, query: &str, with: Json, r: HttpRequest)
    requires
        call_ensures(RunPodPodAdapter::graphql_request, (a, query, with), r),
    ensures
        queries(r, a@.api_key, query@),
        variables(r) == with@,
{
    lemma_query_apart();
    reveal_with_fuel(member_value, 3);
}

/// A pod is ordered with the kind of GPU that is configured, and with the image, the
/// number of GPUs and the memory that the job asks for; the rest is fixed.
#[verifier::rlimit(40)]
pub proof fn law_pod_ordered(
    a: &RunPodPodAdapter,
    job: &Job,
    image: &str,
    body: Result<Json, UcxError>,
    r: Result<HttpRequest, UcxError>,
)
    requires
        call_ensures(RunPodPodAdapter::submit_request, (a, job), r),
        call_ensures(RunPodPodAdapter::translate_job, (a, job), body),
        call_ensures(image_in, (&job.runtime_spec,), image),
    ensures
        body matches Ok(b) && r matches Ok(q) && {
            let input = variables(q).at("input"@);
            &&& queries(q, a@.api_key, DEPLOY_QUERY@)
            &&& q.body matches Some(sent) && sent@ == b@
            &&& size(variables(q)) == 1
            &&& size(input) == 8
            &&& tells(input, "gpuTypeId"@, a@.gpu_type)
            &&& tells(input, "imageName"@, image@)
            &&& job.requirements.gpu_count matches Some(n) ==> counts(
                input,
                "gpuCount"@,
                n as u64,
            )
            &&& job.requirements.gpu_count is None ==> counts(input, "gpuCount"@, 1)
            &&& counts(input, "containerDiskInGb"@, 50)
            &&& counts(input, "volumeInGb"@, 0)
            &&& job.requirements.ram_gb is None ==> counts(input, "minMemoryInGb"@, 16)
            &&& counts(input, "minVcpuCount"@, 4)
            &&& tells(input, "cloudType"@, "SECURE"@)
        },
{
    lemma_query_apart();
    lemma_order_apart();
    reveal_with_fuel(member_value, 9);
}

/// A pod has at least the memory that the job asks for in gigabytes, cut to a whole
/// number; exactly so for a whole number of gigabytes.
#[verifier::rlimit(40)]
pub proof fn law_pod_memory(
    a: &RunPodPodAdapter,
    job: &Job,
    whole: u64,
    r: Result<HttpRequest, UcxError>,
)
    requires
        call_ensures(RunPodPodAdapter::submit_request, (a, job), r),
        job.requirements.ram_gb is Some,
    ensures
        r matches Ok(q) && variables(q).at("input"@).get("minMemoryInGb"@) matches Some(
            JsonView::UInt(n),
        ) && {
            let x = job.requirements.ram_gb->0;
            &&& x.bits > 0x7ff0_0000_0000_0000 ==> n == 0
            &&& x.bits == 0x7ff0_0000_0000_0000 ==> n == u32::MAX
            &&& x.bits < 0x7ff0_0000_0000_0000 ==> is_cut(
                x.mantissa(),
                x.exponent(),
                u32::MAX as nat,
                n as nat,
            )
            &&& stands_for(x, whole as nat) && 1024 * whole <= u32::MAX ==> n == whole
        },
{
    lemma_query_apart();
    lemma_order_apart();
    reveal_with_fuel(member_value, 9);
    let x = job.requirements.ram_gb->0;
    lemma_cut(x.mantissa(), x.exponent(), u32::MAX as nat);
    if stands_for(x, whole as nat) && 1024 * whole <= u32::MAX {
        lemma_whole_truncated(x, whole as nat, u32::MAX as nat);
    }
}

/// Whether a request asks for a pod's end.
pub open spec fn ends_pod(q: HttpRequest, key: Seq<char>, pod: Seq<char>) -> bool {
    &&& queries(q, key, TERMINATE_QUERY@)
    &&& size(variables(q)) == 1
    &&& size(variables(q).at("input"@)) == 1
    &&& tells(variables(q).at("input"@), "podId"@, pod)
}

/// Asking after a job and calling it off go by the name of its pod; a job that is not
/// known is not asked after. Calling off is the end of the pod.
pub proof fn law_pod_job_requests(
    a: &RunPodPodAdapter,
    id: JobId,
    pod: &str,
    asked: Result<HttpRequest, UcxError>,
    off: Result<HttpRequest, UcxError>,
    end: HttpRequest,
)
    requires
        call_ensures(RunPodPodAdapter::status_request, (a, id), asked),
        call_ensures(RunPodPodAdapter::cancel_request, (a, id), off),
        call_ensures(RunPodPodAdapter::terminate_pod_request, (a, pod), end),
    ensures
        ends_pod(end, a@.api_key, pod@),
        match asked {
            Ok(q) => {
                &&& a@.pods.contains_key(id)
                &&& queries(q, a@.api_key, STATUS_QUERY@)
                &&& size(variables(q)) == 1
                &&& tells(variables(q), "podId"@, a@.pods[id].pod_id)
            },
            Err(e) => !a@.pods.contains_key(id) && knows_not(e, id),
        },
        match off {
            Ok(q) => a@.pods.contains_key(id) && ends_pod(q, a@.api_key, a@.pods[id].pod_id),
            Err(e) => !a@.pods.contains_key(id) && knows_not(e, id),
        },
{
    lemma_query_apart();
    reveal_with_fuel(member_value, 3);
}

/// The service answers a query with its `data`, unless the call failed or the reply has
/// `errors`; ending a pod succeeds where there is an answer, and so does the question
/// whether the service is there.
pub proof fn law_query_answered(
    a: &RunPodPodAdapter,
    outcome: &Outcome,
    r: Result<Json, UcxError>,
    ended: Result<(), UcxError>,
    there: bool,
    q: HttpRequest,
)
    requires
        call_ensures(RunPodPodAdapter::graphql, (a, outcome), r),
        call_ensures(RunPodPodAdapter::terminate_pod, (a, outcome), ended),
        call_ensures(RunPodPodAdapter::is_available, (a, outcome), there),
        call_ensures(RunPodPodAdapter::availability_request, (a,), q),
    ensures
        match *outcome {
            Outcome::Failed { reason } => r matches Err(e) && blames(e, "runpod-pod"@, reason@),
            Outcome::Replied { body, .. } => if document(*outcome).get("errors"@) is Some {
                r matches Err(e) && blames(
                    e,
                    "runpod-pod"@,
                    "GraphQL errors: "@ + body->0.errors_text@,
                )
            } else {
                r matches Ok(data) && (document(*outcome).get("data"@) == Some(data@)
                    || document(*outcome).get("data"@) is None && data@ is Null)
            },
        },
        ended is Ok <==> r is Ok,
        r matches Err(e) ==> (ended matches Err(f) && f@ == e@),
        there <==> r is Ok,
        queries(q, a@.api_key, GPU_TYPES_QUERY@),
        variables(q) is Object && size(variables(q)) == 0,
{
    lemma_query_apart();
    reveal_with_fuel(member_value, 3);
}

/// Whether only one job's pod differs between two states of an adapter.
pub open spec fn only_pod_differs(before: PodAdapterView, after: PodAdapterView, job: JobId) -> bool {
    &&& after.api_key == before.api_key
    &&& after.gpu_type == before.gpu_type
    &&& after.capability == before.capability
    &&& forall|id: JobId|
        id != job ==> #[trigger] after.pods.contains_key(id) == before.pods.contains_key(id)
    &&& forall|id: JobId|
        id != job && before.pods.contains_key(id) ==> #[trigger] after.pods[id] == before.pods[id]
}

/// The name that the service gives to a pod that was ordered.
pub open spec fn pod_named(data: JsonView) -> Option<JsonView> {
    data.at("podFindAndDeployOnDemand"@).get("id"@)
}

/// What taking a job means: its pod is known by the name that the reply gives it, with
/// the job's image, and waits; its holder has an allocation from outside the house.
pub open spec fn took(
    before: PodAdapterView,
    after: PodAdapterView,
    job: JobId,
    image: Seq<char>,
    data: JsonView,
    t: Allocation,
) -> bool {
    let pod = after.pods[job];
    &&& t.job_id == job && t.offer.job_id == job
    &&& t.provider_id@ == "runpod-pod"@
    &&& t.offer.provider_id@ == "runpod-pod"@
    &&& t.offer.price_cents == 0 && t.offer.eta_secs == 300 && t.offer.is_external
    &&& t.status == JobStatus::Pending
    &&& after.pods.contains_key(job)
    &&& pod_named(data) == Some(JsonView::Str(pod.pod_id))
    &&& pod.status == JobStatus::Pending && pod.image == image
    &&& only_pod_differs(before, after, job)
}

/// A job is taken where the service answers and names the pod, at the given times; else
/// the reason is told and nothing changes.
pub proof fn law_pod_job_taken(
    a: &mut RunPodPodAdapter,
    job: &Job,
    outcome: &Outcome,
    started_at: Timestamp,
    expires_at: Timestamp,
    allocated_at: Timestamp,
    any: &RunPodPodAdapter,
    answer: Result<Json, UcxError>,
    image: &str,
    r: Result<Allocation, UcxError>,
)
    requires
        call_ensures(
            RunPodPodAdapter::submit_at,
            (a, job, outcome, started_at, expires_at, allocated_at),
            r,
        ),
        call_ensures(RunPodPodAdapter::graphql, (any, outcome), answer),
        call_ensures(image_in, (&job.runtime_spec,), image),
    ensures
        match (answer, r) {
            (Ok(data), Ok(t)) => {
                &&& took(old(a)@, final(a)@, job.id, image@, data@, t)
                &&& final(a)@.pods[job.id].started_at == started_at
                &&& t.offer.expires_at == expires_at && t.allocated_at == allocated_at
            },
            (Ok(data), Err(e)) => {
                &&& !(pod_named(data@) matches Some(JsonView::Str(_)))
                &&& blames(e, "runpod-pod"@, "missing pod id in RunPod response"@)
                &&& final(a)@ == old(a)@
            },
            (Err(f), Err(e)) => e@ == f@ && final(a)@ == old(a)@,
            (Err(f), Ok(t)) => false,
        },
{
}

/// The same for a job that is handed in now: its times are readings of the clock.
pub proof fn law_pod_job_taken_now(
    a: &mut RunPodPodAdapter,
    job: &Job,
    outcome: &Outcome,
    any: &RunPodPodAdapter,
    answer: Result<Json, UcxError>,
    image: &str,
    r: Result<Allocation, UcxError>,
)
    requires
        call_ensures(RunPodPodAdapter::submit, (a, job, outcome), r),
        call_ensures(RunPodPodAdapter::graphql, (any, outcome), answer),
        call_ensures(image_in, (&job.runtime_spec,), image),
    ensures
        match (answer, r) {
            (Ok(data), Ok(t)) => {
                &&& took(old(a)@, final(a)@, job.id, image@, data@, t)
                &&& is_reading(final(a)@.pods[job.id].started_at@)
                &&& is_reading(t.offer.expires_at@) && is_reading(t.allocated_at@)
            },
            (Ok(data), Err(e)) => {
                &&& !(pod_named(data@) matches Some(JsonView::Str(_)))
                &&& blames(e, "runpod-pod"@, "missing pod id in RunPod response"@)
                &&& final(a)@ == old(a)@
            },
            (Err(f), Err(e)) => e@ == f@ && final(a)@ == old(a)@,
            (Err(f), Ok(t)) => false,
        },
{
}

proof fn lemma_state_apart()
    ensures
        "EXITED"@ != "RUNNING"@,
        "EXITED"@ != "TERMINATED"@,
        "RUNNING"@ != "TERMINATED"@,
{
    reveal_strlit("EXITED");
    reveal_strlit("RUNNING");
    reveal_strlit("TERMINATED");
    assert("EXITED"@.len() == 6);
    assert("RUNNING"@.len() == 7);
    assert("TERMINATED"@.len() == 10);
}

/// Asking after a job that is known tells what the service's word for its pod means, and
/// keeps that; the pod stays what it was otherwise, and no other is touched. A word that
/// is not known means that the job waits.
pub proof fn law_pod_job_asked_after(
    a: &mut RunPodPodAdapter,
    id: JobId,
    outcome: &Outcome,
    any: &RunPodPodAdapter,
    answer: Result<Json, UcxError>,
    r: Result<JobStatus, UcxError>,
)
    requires
        call_ensures(RunPodPodAdapter::status, (a, id, outcome), r),
        call_ensures(RunPodPodAdapter::graphql, (any, outcome), answer),
    ensures
        !old(a)@.pods.contains_key(id) ==> (r matches Err(e) && knows_not(e, id)),
        old(a)@.pods.contains_key(id) ==> (match answer {
            Ok(data) => r matches Ok(status) && {
                let word = data@.at("pod"@).get("desiredStatus"@);
                let (before, after) = (old(a)@.pods[id], final(a)@.pods[id]);
                &&& status == JobStatus::Running <==> word == Some(JsonView::Str("RUNNING"@))
                &&& status == JobStatus::Completed <==> word == Some(JsonView::Str("EXITED"@))
                &&& status == JobStatus::Cancelled <==> word == Some(
                    JsonView::Str("TERMINATED"@),
                )
                &&& status != JobStatus::Failed
                &&& after.status == status
                &&& after.pod_id == before.pod_id
                &&& after.image == before.image
                &&& after.started_at == before.started_at
            },
            Err(f) => r matches Err(e) && e@ == f@,
        }),
        r is Err ==> final(a)@ == old(a)@,
        final(a)@.pods.contains_key(id) == old(a)@.pods.contains_key(id),
        only_pod_differs(old(a)@, final(a)@, id),
{
    lemma_state_apart();
}

/// A job that is known is called off where the service answers, and then counts as
/// cancelled; its pod stays what it was otherwise, and no other is touched.
pub proof fn law_pod_job_called_off(
    a: &mut RunPodPodAdapter,
    id: JobId,
    outcome: &Outcome,
    any: &RunPodPodAdapter,
    answer: Result<Json, UcxError>,
    r: Result<(), UcxError>,
)
    requires
        call_ensures(RunPodPodAdapter::cancel, (a, id, outcome), r),
        call_ensures(RunPodPodAdapter::graphql, (any, outcome), answer),
    ensures
        !old(a)@.pods.contains_key(id) ==> (r matches Err(e) && knows_not(e, id)),
        old(a)@.pods.contains_key(id) ==> (match answer {
            Ok(data) => {
                let (before, after) = (old(a)@.pods[id], final(a)@.pods[id]);
                &&& r is Ok
                &&& after.status == JobStatus::Cancelled
                &&& after.pod_id == before.pod_id
                &&& after.image == before.image
                &&& after.started_at == before.started_at
            },
            Err(f) => r matches Err(e) && e@ == f@,
        }),
        r is Err ==> final(a)@ == old(a)@,
        final(a)@.pods.contains_key(id) == old(a)@.pods.contains_key(id),
        only_pod_differs(old(a)@, final(a)@, id),
{
}

/// A receipt is begun for a job that is known: with its pod, which is to end, and with
/// the whole seconds since the pod was ordered, none where the clock went back.
pub proof fn law_pod_receipt_begun(
    a: &RunPodPodAdapter,
    id: JobId,
    now: &Timestamp,
    started: &Timestamp,
    since: i64,
    r: Result<ReceiptDraft, UcxError>,
)
    requires
        call_ensures(RunPodPodAdapter::begin_receipt_at, (a, id, now), r),
        a@.pods.contains_key(id) ==> *started == a@.pods[id].started_at,
        call_ensures(Timestamp::seconds_since, (now, started), since),
    ensures
        match r {
            Ok(draft) => {
                &&& a@.pods.contains_key(id)
                &&& draft.job_id == id
                &&& draft.pod_id@ == a@.pods[id].pod_id
                &&& since >= 0 ==> draft.elapsed_secs == since
                &&& since < 0 ==> draft.elapsed_secs == 0
                &&& ends_pod(draft.termination, a@.api_key, a@.pods[id].pod_id)
            },
            Err(e) => !a@.pods.contains_key(id) && knows_not(e, id),
        },
{
    lemma_query_apart();
    reveal_with_fuel(member_value, 3);
}

/// Whether so many whole seconds lie between two points in time; none where the second
/// is before the first.
pub open spec fn whole_seconds(from: InstantView, to: InstantView, n: int) -> bool {
    let apart = (to.secs - from.secs) * 1_000_000_000 + (to.nanos - from.nanos);
    if apart >= 0 {
        n * 1_000_000_000 <= apart < (n + 1) * 1_000_000_000
    } else {
        n == 0
    }
}

/// The same for a receipt that is begun now: the seconds are those to a reading of the
/// clock.
pub proof fn law_pod_receipt_begun_now(
    a: &RunPodPodAdapter,
    id: JobId,
    r: Result<ReceiptDraft, UcxError>,
)
    requires
        call_ensures(RunPodPodAdapter::begin_receipt, (a, id), r),
    ensures
        match r {
            Ok(draft) => {
                &&& a@.pods.contains_key(id)
                &&& draft.job_id == id
                &&& draft.pod_id@ == a@.pods[id].pod_id
                &&& exists|now: InstantView|
                    is_reading(now) && #[trigger] whole_seconds(
                        a@.pods[id].started_at@,
                        now,
                        draft.elapsed_secs as int,
                    )
                &&& ends_pod(draft.termination, a@.api_key, a@.pods[id].pod_id)
            },
            Err(e) => !a@.pods.contains_key(id) && knows_not(e, id),
        },
{
    lemma_query_apart();
    reveal_with_fuel(member_value, 3);
    if let Ok(draft) = r {
        let from = a@.pods[id].started_at@;
        let now = choose|now: InstantView|
            is_reading(now) && draft.elapsed_secs == #[trigger] elapsed_at(from, now);
        assert(whole_seconds(from, now, draft.elapsed_secs as int));
    }
}

/// A receipt counts the elapsed seconds as GPU time and a quarter of them, exactly, as
/// CPU time. Nothing else is counted.
pub proof fn law_pod_time_counted(
    a: &RunPodPodAdapter,
    draft: &ReceiptDraft,
    at: Timestamp,
    r: ComputeReceipt,
)
    requires
        call_ensures(RunPodPodAdapter::receipt_with, (a, draft, at), r),
    ensures
        ({
            let (g, c) = (r.resources.gpu_seconds, r.resources.cpu_seconds);
            &&& g == double_of_int(draft.elapsed_secs as int)
            &&& draft.elapsed_secs < TWO_53 ==> stands_for(g, draft.elapsed_secs as nat)
            &&& draft.elapsed_secs == 0 ==> c.bits == 0
            &&& draft.elapsed_secs > 0 ==> c.mantissa() == g.mantissa() && c.exponent()
                == g.exponent() - 2 && !c.is_negative()
        }),
        r.resources.ram_gb_seconds.bits == 0,
        r.resources.storage_gb.bits == 0,
        r.resources.egress_gb.bits == 0,
{
    let n = draft.elapsed_secs;
    if n < TWO_53 {
        lemma_stands_for(n as nat);
    }
    if n > 0 {
        let g = double_of_int(n as int);
        lemma_integer_between(n as int);
        lemma2_to64();
        lemma_product_between(g, 1, 1, -2, 0, 0, -52, 12);
        let m = g.mantissa();
        assert(m * 1 == m && m / 1 == m && m % 1 == 0);
    }
}

proof fn lemma_charge(k: nat)
    requires
        12 * k < TWO_53,
        3600 * k < TWO_53,
    ensures
        pod_cents(double_of_int((12 * k) as int)) == k,
{
    let n = 12 * k;
    let x = double_of_int(n as int);
    lemma_stands_for(n);
    if k == 0 {
        lemma_ceiling_of_zero(u64::MAX as nat);
    } else {
        lemma_whole_product(x, n, 300, 1, 3600 * k);
        let z = x.product(300, 1, 0);
        lemma_whole_product(z, 3600 * k, 1, 3600, k);
        lemma_whole_ceiling(z.product(1, 3600, 0), k, u64::MAX as nat);
    }
}

/// A receipt charges one cent for every twelve seconds, three hundred an hour: exactly so
/// many for a multiple of twelve seconds, and for any other time not less than for the
/// multiple below it and not more than for the one above. What is charged is one item,
/// labelled with the seconds and the kind of GPU, and the item is all that is charged.
pub proof fn law_pod_charge(
    a: &RunPodPodAdapter,
    draft: &ReceiptDraft,
    at: Timestamp,
    r: ComputeReceipt,
)
    requires
        call_ensures(RunPodPodAdapter::receipt_with, (a, draft, at), r),
    ensures
        draft.elapsed_secs <= 30_000_000_000_000 ==> {
            let cents = r.billing.amount_cents;
            &&& draft.elapsed_secs / 12 <= cents <= draft.elapsed_secs / 12 + 1
            &&& draft.elapsed_secs % 12 == 0 ==> cents == draft.elapsed_secs / 12
            &&& draft.elapsed_secs > 0 ==> cents > 0
        },
        r.billing.currency == BillingCurrency::Usd,
        r.billing.line_items@.len() == 1,
        r.billing.line_items@[0].cents == r.billing.amount_cents,
        r.billing.line_items@[0].label@ == decimal(draft.elapsed_secs as nat) + "s pod ("@
            + a@.gpu_type + ") GPU compute"@,
{
    let n = draft.elapsed_secs;
    if n <= 30_000_000_000_000 {
        let k = (n / 12) as nat;
        lemma_charge(k);
        lemma_charge(k + 1);
        law_longer_costs_no_less((12 * k) as u64, n);
        law_longer_costs_no_less(n, (12 * (k + 1)) as u64);
        law_any_time_is_charged(n);
    }
}

/// However long a pod ran, its charge is the seconds times three hundred over 3600, each
/// rounded once, and rounded up at last.
pub proof fn law_pod_roundings(
    a: &RunPodPodAdapter,
    draft: &ReceiptDraft,
    at: Timestamp,
    dear: F64,
    hourly: F64,
    cents: u64,
    r: ComputeReceipt,
)
    requires
        call_ensures(RunPodPodAdapter::receipt_with, (a, draft, at), r),
        call_ensures(times, (r.resources.gpu_seconds, 300u64, 1u64, 0i64), dear),
        call_ensures(times, (dear, 1u64, 3600u64, 0i64), hourly),
        call_ensures(round_up, (hourly, u64::MAX), cents),
    ensures
        r.billing.amount_cents == cents,
{
}

/// What else a receipt says: which job, by whom, since when, and the pod's name as its
/// only proof beside the attestation of the service.
pub proof fn law_pod_receipt_says(
    a: &RunPodPodAdapter,
    draft: &ReceiptDraft,
    at: Timestamp,
    r: ComputeReceipt,
)
    requires
        call_ensures(RunPodPodAdapter::receipt_with, (a, draft, at), r),
    ensures
        r.job_id == draft.job_id,
        r.completed_at == at,
        r.provider_id@ == "runpod-pod"@,
        r.verification.artifact_hash matches Some(h) && h@ == draft.pod_id@,
        r.verification.runtime_attestation matches Some(h) && h@ == "runpod-pod"@,
        r.verification.execution_hash is None,
        r.zangbeto_anchor is None,
        r.gix1_canonical_id is None,
{
}

/// A receipt that is completed now is the same but for its time, a reading of the clock;
/// and there is no receipt from an output alone.
pub proof fn law_pod_receipt_now(
    a: &RunPodPodAdapter,
    draft: &ReceiptDraft,
    at: Timestamp,
    s: ComputeReceipt,
    raw: &Json,
    r: Result<ComputeReceipt, UcxError>,
    t: Result<ComputeReceipt, UcxError>,
)
    requires
        call_ensures(RunPodPodAdapter::receipt, (a, draft), r),
        call_ensures(RunPodPodAdapter::receipt_with, (a, draft, at), s),
        call_ensures(RunPodPodAdapter::translate_receipt, (a, raw), t),
    ensures
        r matches Ok(receipt) && {
            &&& receipt.job_id == draft.job_id
            &&& is_reading(receipt.completed_at@)
            &&& same_account(receipt, s)
        },
        t matches Err(e) && blames(e, "runpod-pod"@, "use receipt()"@),
{
}

proof fn lemma_deploy_query()
    ensures
        occurs(DEPLOY_QUERY@, "podFindAndDeployOnDemand(input: $input)"@),
{
    reveal_strlit(r#"
            mutation Deploy($input: PodFindAndDeployOnDemandInput!) {
                podFindAndDeployOnDemand(input: $input) {
                    id
                    desiredStatus
                    imageName
                    gpuCount
                }
            }
        "#);
    reveal_strlit("podFindAndDeployOnDemand(input: $input)");
    assert(DEPLOY_QUERY@.subrange(87, 126) =~= "podFindAndDeployOnDemand(input: $input)"@);
    assert(occurs_at(DEPLOY_QUERY@, "podFindAndDeployOnDemand(input: $input)"@, 87));
}

proof fn lemma_terminate_query()
    ensures
        occurs(TERMINATE_QUERY@, "podTerminate(input: $input)"@),
{
    reveal_strlit(r#"
            mutation TerminatePod($input: PodTerminateInput!) {
                podTerminate(input: $input)
            }
        "#);
    reveal_strlit("podTerminate(input: $input)");
    assert(TERMINATE_QUERY@.subrange(81, 108) =~= "podTerminate(input: $input)"@);
    assert(occurs_at(TERMINATE_QUERY@, "podTerminate(input: $input)"@, 81));
}

proof fn lemma_status_query()
    ensures
        occurs(STATUS_QUERY@, "pod(input: { podId: $podId })"@),
{
    reveal_strlit(r#"
            query PodStatus($podId: String!) {
                pod(input: { podId: $podId }) {
                    id
                    desiredStatus
                    runtime { uptimeInSeconds }
                }
            }
        "#);
    reveal_strlit("pod(input: { podId: $podId })");
    assert(STATUS_QUERY@.subrange(64, 93) =~= "pod(input: { podId: $podId })"@);
    assert(occurs_at(STATUS_QUERY@, "pod(input: { podId: $podId })"@, 64));
}

proof fn lemma_types_query()
    ensures
        occurs(GPU_TYPES_QUERY@, "query GpuTypes { gpuTypes {"@),
{
    reveal_strlit(r#"
            query GpuTypes { gpuTypes { id displayName memoryInGb } }
        "#);
    reveal_strlit("query GpuTypes { gpuTypes {");
    assert(GPU_TYPES_QUERY@.subrange(13, 40) =~= "query GpuTypes { gpuTypes {"@);
    assert(occurs_at(GPU_TYPES_QUERY@, "query GpuTypes { gpuTypes {"@, 13));
}

/// The queries name what they are for: to find and deploy a pod, to terminate it, to ask
/// after it, and to list the kinds of GPU.
pub proof fn law_queries_named()
    ensures
        occurs(DEPLOY_QUERY@, "podFindAndDeployOnDemand(input: $input)"@),
        occurs(TERMINATE_QUERY@, "podTerminate(input: $input)"@),
        occurs(STATUS_QUERY@, "pod(input: { podId: $podId })"@),
        occurs(GPU_TYPES_QUERY@, "query GpuTypes { gpuTypes {"@),
{
    lemma_deploy_query();
    lemma_terminate_query();
    lemma_status_query();
    lemma_types_query();
}

} // verus!
