//! Running jobs on a serverless endpoint.
use crate::clock::{is_reading, Timestamp};
use crate::float64::{double_of_int, from_u64, law_rounded_to_nearest, lemma_ceiling_of_zero};
use crate::float64::{lemma_integer_between, lemma_product_between, round_up, times};
use crate::float64::{within_half, F64, TWO_53};
use crate::float_order::lemma_nearest_shifts;
use crate::http::{status_text, HttpRequest, Method, Outcome};
use crate::job::{hyphenated, law_id_text_injective, law_workload_named_by_its_name};
use crate::job::{is_random_id, parse_workload, Allocation, Job, JobId};
use crate::job::{JobStatus, ProviderTier, TrustLevel, UcxError, WorkloadType};
use crate::json::{member_value, opt_json, opt_text, Json, JsonView};
use crate::laws::exchange::{agreed, asks, blames, document, knows_not};
use crate::laws::numbers::{lemma_stands_for, lemma_whole_ceiling, lemma_whole_product};
use crate::laws::numbers::stands_for;
use crate::laws::replies::{size, tells};
use crate::provider::{CpuArch, GpuVendor, ProviderCapability};
use crate::receipt::{BillingCurrency, ComputeReceipt};
use crate::runpod_serverless::{gpu_seconds_of, is_serverless_capability, law_any_time_is_charged};
use crate::runpod_serverless::{law_longer_costs_no_less, serverless_cents, serverless_receipt};
use crate::runpod_serverless::{tenth, RunPodServerlessAdapter, ServerlessView};
use crate::server::{requested_job, Reply};
use crate::text::decimal;
use vstd::arithmetic::div_mod::lemma_fundamental_div_mod;
use vstd::arithmetic::power2::*;
use vstd::prelude::*;

verus! {

/// What an endpoint offers: one NVIDIA card with eighty gigabytes, for twenty cents an
/// hour, with sixteen cores and 256 gigabytes beside it, in two regions.
pub open spec fn is_offer(c: ProviderCapability, endpoint: Seq<char>) -> bool {
    &&& c.provider_id@ == "runpod-serverless-"@ + endpoint
    &&& c.owner_agent_id is None
    &&& c.tier == ProviderTier::Professional
    &&& c.trust == TrustLevel::Standard
    &&& c.gpu matches Some(g) && {
        &&& g.vendor == GpuVendor::Nvidia
        &&& g.model@ == "A100/H100 (serverless pool)"@
        &&& stands_for(g.vram_gb, 80)
        &&& g.fp16 && g.bf16 && g.cuda && !g.rocm
        &&& g.count == 1
    }
    &&& c.cpu.cores == 16
    &&& c.cpu.arch == CpuArch::X86_64
    &&& c.cpu.frequency_mhz is None
    &&& stands_for(c.ram_gb, 256)
    &&& c.disk_gb.bits == 0
    &&& c.runtimes@.len() == 0
    &&& c.price_gpu_hour_cents == Some(20u64)
    &&& c.price_cpu_hour_cents == 2
    &&& c.policy_deny@.len() == 0
    &&& c.regions@.len() == 2 && c.regions@[0]@ == "US"@ && c.regions@[1]@ == "EU"@
}

proof fn lemma_offer(c: ProviderCapability, endpoint: Seq<char>)
    requires
        is_serverless_capability(c, endpoint),
    ensures
        is_offer(c, endpoint),
{
    lemma_stands_for(80);
    lemma_stands_for(256);
    let names = c.regions.deep_view();
    assert(names.len() == 2);
    assert(names[0] == c.regions@[0]@ && names[1] == c.regions@[1]@);
}

/// An adapter is set up from the environment where a key is given that is not empty; the
/// endpoint is then the given one, or `default`. It knows no jobs yet.
pub proof fn law_serverless_set_up(
    key: Option<&str>,
    endpoint: Option<&str>,
    r: Option<RunPodServerlessAdapter>,
)
    requires
        call_ensures(RunPodServerlessAdapter::from_env, (key, endpoint), r),
    ensures
        r is Some <==> (key matches Some(k) && k@.len() > 0),
        r matches Some(a) ==> {
            &&& a@.api_key == key->0@
            &&& endpoint matches Some(e) ==> a@.endpoint_id == e@
            &&& endpoint is None ==> a@.endpoint_id == "default"@
            &&& is_offer(a@.capability, a@.endpoint_id)
            &&& forall|id: JobId| !#[trigger] a@.runs.contains_key(id)
        },
{
    if let Some(a) = r {
        lemma_offer(a@.capability, a@.endpoint_id);
    }
}

/// An adapter with a key and an endpoint holds them, offers what the endpoint offers, and
/// knows no jobs yet.
pub proof fn law_serverless_offer(
    key: String,
    endpoint: String,
    a: RunPodServerlessAdapter,
    c: &ProviderCapability,
)
    requires
        call_ensures(RunPodServerlessAdapter::new, (key, endpoint), a),
        call_ensures(RunPodServerlessAdapter::capability, (&a,), c),
    ensures
        a@.api_key == key@,
        a@.endpoint_id == endpoint@,
        forall|id: JobId| !#[trigger] a@.runs.contains_key(id),
        is_offer(*c, endpoint@),
{
    lemma_offer(*c, endpoint@);
}

/// Training and simulation are taken, and nothing else; and no job that must stay in the
/// house.
pub proof fn law_serverless_accepts(a: &RunPodServerlessAdapter, job: &Job, r: bool)
    requires
        call_ensures(RunPodServerlessAdapter::can_accept, (a, job), r),
    ensures
        r ==> job.constraints.allow_external,
        r ==> job.workload is Training || job.workload is Simulation,
        job.constraints.allow_external && job.workload is Training ==> r,
        job.constraints.allow_external && job.workload is Simulation ==> r,
{
}

/// The names that an adapter goes by.
pub proof fn law_serverless_names(
    a: &RunPodServerlessAdapter,
    id: &'static str,
    network: &'static str,
)
    requires
        call_ensures(RunPodServerlessAdapter::id, (a,), id),
        call_ensures(RunPodServerlessAdapter::network_name, (a,), network),
    ensures
        id@ == "runpod-serverless"@,
        network@ == "runpod"@,
{
}

proof fn lemma_input_apart()
    ensures
        "job_id"@ != "spec"@,
        "job_id"@ != "workload"@,
        "spec"@ != "workload"@,
{
    reveal_strlit("job_id");
    reveal_strlit("spec");
    reveal_strlit("workload");
    assert("job_id"@.len() == 6);
    assert("spec"@.len() == 4);
    assert("workload"@.len() == 8);
}

/// What is handed to the endpoint says which job, what kind of work and what to run, so
/// that each can be read back: the job's name as the job, the word as the kind of work.
pub proof fn law_job_handed_over(
    a: &RunPodServerlessAdapter,
    job: &Job,
    r: Result<Json, UcxError>,
    id_text: &str,
    id: Result<JobId, Reply>,
    word: &str,
    workload: WorkloadType,
)
    requires
        call_ensures(RunPodServerlessAdapter::translate_job, (a, job), r),
        r matches Ok(body) ==> tells(body@.at("input"@), "job_id"@, id_text@) && tells(
            body@.at("input"@),
            "workload"@,
            word@,
        ),
        call_ensures(requested_job, (id_text,), id),
        call_ensures(parse_workload, (word,), workload),
    ensures
        r matches Ok(body) && {
            let input = body@.at("input"@);
            &&& size(body@) == 1
            &&& size(input) == 3
            &&& input.get("spec"@) == Some(job.runtime_spec@)
        },
        id == Ok::<JobId, Reply>(job.id),
        workload == job.workload,
{
    lemma_input_apart();
    reveal_with_fuel(member_value, 4);
    law_workload_named_by_its_name(job.workload);
}

/// What is handed to the endpoint does have a job, a kind of work and something to run.
pub proof fn law_job_handed_over_in_full(
    a: &RunPodServerlessAdapter,
    job: &Job,
    name: &'static str,
    r: Result<Json, UcxError>,
)
    requires
        call_ensures(RunPodServerlessAdapter::translate_job, (a, job), r),
        call_ensures(WorkloadType::name, (job.workload,), name),
    ensures
        r matches Ok(body) && {
            let input = body@.at("input"@);
            &&& tells(input, "job_id"@, hyphenated(job.id))
            &&& tells(input, "workload"@, name@)
            &&& input.get("spec"@) == Some(job.runtime_spec@)
        },
{
    lemma_input_apart();
    reveal_with_fuel(member_value, 4);
}

/// Jobs that differ in name, in kind of work or in what to run are handed over
/// differently.
pub proof fn law_jobs_handed_over_apart(
    a: &RunPodServerlessAdapter,
    job: &Job,
    other: &Job,
    r: Result<Json, UcxError>,
    s: Result<Json, UcxError>,
)
    requires
        call_ensures(RunPodServerlessAdapter::translate_job, (a, job), r),
        call_ensures(RunPodServerlessAdapter::translate_job, (a, other), s),
        r is Ok && s is Ok,
        r->Ok_0@ == s->Ok_0@,
    ensures
        job.id == other.id,
        job.workload == other.workload,
        job.runtime_spec@ == other.runtime_spec@,
{
    lemma_input_apart();
    reveal_with_fuel(member_value, 4);
    let (x, y) = (r->Ok_0@.at("input"@), s->Ok_0@.at("input"@));
    assert(x.get("job_id"@) == y.get("job_id"@));
    assert(x.get("workload"@) == y.get("workload"@));
    assert(x.get("spec"@) == y.get("spec"@));
    law_id_text_injective(job.id, other.id);
    law_workload_named_by_its_name(job.workload);
    law_workload_named_by_its_name(other.workload);
}

/// A job is handed in by a POST to the endpoint's `/run`, with what is handed over as
/// its body and no limit of time.
pub proof fn law_serverless_submit_request(
    a: &RunPodServerlessAdapter,
    job: &Job,
    url: String,
    body: Result<Json, UcxError>,
    r: Result<HttpRequest, UcxError>,
)
    requires
        call_ensures(RunPodServerlessAdapter::submit_request, (a, job), r),
        call_ensures(RunPodServerlessAdapter::translate_job, (a, job), body),
        call_ensures(RunPodServerlessAdapter::run_url, (a,), url),
    ensures
        url@ == "https://api.runpod.io/v2/"@ + a@.endpoint_id + "/run"@,
        r matches Ok(q) && {
            &&& asks(q, Method::Post, url@, Some(a@.api_key))
            &&& q.body matches Some(sent) && body matches Ok(b) && sent@ == b@
            &&& q.timeout_secs is None
        },
{
}

/// Asking after a job and calling it off go to the endpoint by the name that the
/// endpoint gave the run; a job that is not known is not asked after.
pub proof fn law_serverless_job_requests(
    a: &RunPodServerlessAdapter,
    id: JobId,
    run_id: &str,
    url: String,
    asked: Result<HttpRequest, UcxError>,
    off: Result<HttpRequest, UcxError>,
)
    requires
        call_ensures(RunPodServerlessAdapter::status_request, (a, id), asked),
        call_ensures(RunPodServerlessAdapter::cancel_request, (a, id), off),
        a@.runs.contains_key(id) ==> run_id@ == a@.runs[id].run_id,
        call_ensures(RunPodServerlessAdapter::status_url, (a, run_id), url),
    ensures
        url@ =~= "https://api.runpod.io/v2/"@ + a@.endpoint_id + "/status/"@ + run_id@,
        match asked {
            Ok(q) => {
                &&& a@.runs.contains_key(id)
                &&& asks(q, Method::Get, url@, Some(a@.api_key))
                &&& q.body is None && q.timeout_secs is None
            },
            Err(e) => !a@.runs.contains_key(id) && knows_not(e, id),
        },
        match off {
            Ok(q) => {
                &&& a@.runs.contains_key(id)
                &&& q.url@ =~= "https://api.runpod.io/v2/"@ + a@.endpoint_id + "/cancel/"@ + run_id@
                &&& asks(q, Method::Post, q.url@, Some(a@.api_key))
                &&& q.body is None && q.timeout_secs is None
            },
            Err(e) => !a@.runs.contains_key(id) && knows_not(e, id),
        },
{
}

/// The endpoint is there where it answers a GET of its `/health` with success.
pub proof fn law_serverless_availability(
    a: &RunPodServerlessAdapter,
    outcome: &Outcome,
    q: HttpRequest,
    r: bool,
)
    requires
        call_ensures(RunPodServerlessAdapter::availability_request, (a,), q),
        call_ensures(RunPodServerlessAdapter::is_available, (a, outcome), r),
    ensures
        asks(
            q,
            Method::Get,
            "https://api.runpod.io/v2/"@ + a@.endpoint_id + "/health"@,
            Some(a@.api_key),
        ),
        q.body is None && q.timeout_secs is None,
        r <==> agreed(*outcome),
{
}

/// Whether only one job's run differs between two states of an adapter.
pub open spec fn only_run_differs(before: ServerlessView, after: ServerlessView, job: JobId) -> bool {
    &&& after.api_key == before.api_key
    &&& after.endpoint_id == before.endpoint_id
    &&& after.capability == before.capability
    &&& forall|id: JobId|
        id != job ==> #[trigger] after.runs.contains_key(id) == before.runs.contains_key(id)
    &&& forall|id: JobId|
        id != job && before.runs.contains_key(id) ==> #[trigger] after.runs[id] == before.runs[id]
}

/// What taking a job means: the run is known by the name that the reply gives it and
/// waits, and its holder has an allocation of it from outside the house.
pub open spec fn took(
    before: ServerlessView,
    after: ServerlessView,
    job: JobId,
    outcome: Outcome,
    t: Allocation,
) -> bool {
    let run = after.runs[job];
    &&& t.job_id == job && t.offer.job_id == job
    &&& t.provider_id@ == "runpod-serverless"@
    &&& t.offer.provider_id@ == "runpod-serverless"@
    &&& t.offer.price_cents == 0 && t.offer.eta_secs == 120 && t.offer.is_external
    &&& t.status == JobStatus::Pending
    &&& after.runs.contains_key(job)
    &&& document(outcome).get("id"@) == Some(JsonView::Str(run.run_id))
    &&& run.status == JobStatus::Pending && run.result is None
    &&& only_run_differs(before, after, job)
}

/// Why a job is not taken: the reason that the call failed, the status and the text of
/// a refusal, or that the run has no name.
pub open spec fn refusal(outcome: Outcome, e: UcxError) -> bool {
    match outcome {
        Outcome::Failed { reason } => blames(e, "runpod"@, reason@),
        Outcome::Replied { status, body } => if agreed(outcome) {
            blames(e, "runpod"@, "missing run id in RunPod response"@)
        } else {
            let told = match body {
                Some(d) => d.text@,
                None => "null"@,
            };
            blames(e, "runpod"@, "POST /run "@ + status_text(status as int) + ": "@ + told)
        },
    }
}

/// A job is taken where the endpoint agrees and names the run, at the given times; else
/// the reason is told and nothing changes.
pub proof fn law_serverless_job_taken(
    a: &mut RunPodServerlessAdapter,
    job: &Job,
    outcome: &Outcome,
    expires_at: Timestamp,
    allocated_at: Timestamp,
    r: Result<Allocation, UcxError>,
)
    requires
        call_ensures(
            RunPodServerlessAdapter::submit_at,
            (a, job, outcome, expires_at, allocated_at),
            r,
        ),
    ensures
        r is Ok <==> agreed(*outcome) && document(*outcome).get("id"@) matches Some(
            JsonView::Str(_),
        ),
        match r {
            Ok(t) => took(old(a)@, final(a)@, job.id, *outcome, t) && t.offer.expires_at
                == expires_at && t.allocated_at == allocated_at,
            Err(e) => refusal(*outcome, e) && final(a)@ == old(a)@,
        },
{
}

/// The same for a job that is handed in now: its times are readings of the clock.
pub proof fn law_serverless_job_taken_now(
    a: &mut RunPodServerlessAdapter,
    job: &Job,
    outcome: &Outcome,
    r: Result<Allocation, UcxError>,
)
    requires
        call_ensures(RunPodServerlessAdapter::submit, (a, job, outcome), r),
    ensures
        r is Ok <==> agreed(*outcome) && document(*outcome).get("id"@) matches Some(
            JsonView::Str(_),
        ),
        match r {
            Ok(t) => took(old(a)@, final(a)@, job.id, *outcome, t) && is_reading(
                t.offer.expires_at@,
            ) && is_reading(t.allocated_at@),
            Err(e) => refusal(*outcome, e) && final(a)@ == old(a)@,
        },
{
}

proof fn lemma_word_apart()
    ensures
        "CANCELLED"@ != "COMPLETED"@,
        "CANCELLED"@ != "FAILED"@,
        "CANCELLED"@ != "IN_PROGRESS"@,
        "CANCELLED"@ != "IN_QUEUE"@,
        "COMPLETED"@ != "FAILED"@,
        "COMPLETED"@ != "IN_PROGRESS"@,
        "COMPLETED"@ != "IN_QUEUE"@,
        "FAILED"@ != "IN_PROGRESS"@,
        "FAILED"@ != "IN_QUEUE"@,
        "IN_PROGRESS"@ != "IN_QUEUE"@,
{
    reveal_strlit("CANCELLED");
    reveal_strlit("COMPLETED");
    reveal_strlit("FAILED");
    reveal_strlit("IN_PROGRESS");
    reveal_strlit("IN_QUEUE");
    assert("CANCELLED"@.len() == 9);
    assert("COMPLETED"@.len() == 9);
    assert("FAILED"@.len() == 6);
    assert("IN_PROGRESS"@.len() == 11);
    assert("IN_QUEUE"@.len() == 8);
    assert("CANCELLED"@[1] != "COMPLETED"@[1]);
}

/// What the endpoint's words mean for a job, and that its output is taken where the job
/// is complete. A word that is not known means that the job waits.
pub proof fn law_serverless_words(
    a: &RunPodServerlessAdapter,
    outcome: &Outcome,
    r: Result<(JobStatus, Option<Json>), UcxError>,
)
    requires
        call_ensures(RunPodServerlessAdapter::poll_status, (a, outcome), r),
    ensures
        match *outcome {
            Outcome::Failed { reason } => r matches Err(e) && blames(e, "runpod"@, reason@),
            Outcome::Replied { .. } => r matches Ok((status, result)) && {
                let word = document(*outcome).get("status"@);
                let output = document(*outcome).get("output"@);
                &&& status == JobStatus::Completed <==> word == Some(
                    JsonView::Str("COMPLETED"@),
                )
                &&& status == JobStatus::Failed <==> word == Some(JsonView::Str("FAILED"@))
                &&& status == JobStatus::Cancelled <==> word == Some(
                    JsonView::Str("CANCELLED"@),
                )
                &&& status == JobStatus::Running <==> word == Some(JsonView::Str("IN_QUEUE"@))
                    || word == Some(JsonView::Str("IN_PROGRESS"@))
                &&& status == JobStatus::Completed ==> opt_json(result) == output
                &&& status != JobStatus::Completed ==> result is None
            },
        },
{
    lemma_word_apart();
}

/// Asking after a job that is known tells what the endpoint's reply says of it, and
/// keeps that: the state is the one that was told, the run keeps its name, and an output
/// that was seen stays until another one is. No other job is touched.
pub proof fn law_serverless_job_asked_after(
    a: &mut RunPodServerlessAdapter,
    id: JobId,
    outcome: &Outcome,
    any: &RunPodServerlessAdapter,
    told: Result<(JobStatus, Option<Json>), UcxError>,
    r: Result<JobStatus, UcxError>,
)
    requires
        call_ensures(RunPodServerlessAdapter::status, (a, id, outcome), r),
        call_ensures(RunPodServerlessAdapter::poll_status, (any, outcome), told),
    ensures
        !old(a)@.runs.contains_key(id) ==> (r matches Err(e) && knows_not(e, id)),
        old(a)@.runs.contains_key(id) ==> (match told {
            Ok((status, result)) => {
                let (before, after) = (old(a)@.runs[id], final(a)@.runs[id]);
                &&& r == Ok::<JobStatus, UcxError>(status)
                &&& after.status == status
                &&& after.run_id == before.run_id
                &&& result matches Some(output) ==> after.result == Some(output@)
                &&& result is None ==> after.result == before.result
            },
            Err(e) => r matches Err(f) && f@ == e@,
        }),
        r is Err ==> final(a)@.runs == old(a)@.runs,
        final(a)@.runs.contains_key(id) == old(a)@.runs.contains_key(id),
        only_run_differs(old(a)@, final(a)@, id),
{
}

/// A job that is known is called off by any reply, and then counts as cancelled; its run
/// keeps its name and its output. No other job is touched.
pub proof fn law_serverless_job_called_off(
    a: &mut RunPodServerlessAdapter,
    id: JobId,
    outcome: &Outcome,
    r: Result<(), UcxError>,
)
    requires
        call_ensures(RunPodServerlessAdapter::cancel, (a, id, outcome), r),
    ensures
        !old(a)@.runs.contains_key(id) ==> (r matches Err(e) && knows_not(e, id)),
        old(a)@.runs.contains_key(id) ==> (match *outcome {
            Outcome::Failed { reason } => r matches Err(e) && blames(e, "runpod"@, reason@),
            Outcome::Replied { .. } => {
                let (before, after) = (old(a)@.runs[id], final(a)@.runs[id]);
                &&& r is Ok
                &&& after.status == JobStatus::Cancelled
                &&& after.run_id == before.run_id
                &&& after.result == before.result
            },
        }),
        r is Err ==> final(a)@.runs == old(a)@.runs,
        final(a)@.runs.contains_key(id) == old(a)@.runs.contains_key(id),
        only_run_differs(old(a)@, final(a)@, id),
{
}

/// The milliseconds that an output states.
pub open spec fn stated_ms(raw: JsonView) -> u64 {
    match raw.get("executionTime"@) {
        Some(JsonView::UInt(n)) => n,
        _ => 0,
    }
}

proof fn lemma_gpu_time(ms: u64)
    requires
        0 < ms < TWO_53,
    ensures
        ({
            let g = gpu_seconds_of(ms);
            &&& g.between(-62, 13)
            &&& within_half(ms as nat, 1000, 0, g.mantissa(), g.exponent())
        }),
{
    lemma2_to64();
    let x = double_of_int(ms as int);
    lemma_stands_for(ms as nat);
    lemma_integer_between(ms as int);
    assert(1nat <= 1000 * pow2(0));
    assert(1000nat <= 1 * pow2(10));
    lemma_product_between(x, 1, 1000, 0, 0, 10, -52, 12);
    let k = (-x.exponent()) as nat;
    lemma_nearest_shifts(ms as nat, 1000, 0, k);
    assert(x.mantissa() * 1 == ms as nat * pow2(k));
    law_rounded_to_nearest(ms as nat, 1000, 0);
}

/// A receipt counts the stated milliseconds as GPU seconds, off by at most half a unit
/// of the last place of the double that holds them, and a tenth of that as CPU seconds,
/// with the double nearest to one tenth as the factor. A whole number of seconds is
/// counted exactly. Nothing else is counted.
pub proof fn law_serverless_time_counted(
    raw: &Json,
    id: JobId,
    completed_at: Timestamp,
    r: ComputeReceipt,
)
    requires
        call_ensures(serverless_receipt, (raw, id, completed_at), r),
        stated_ms(raw@) < TWO_53,
    ensures
        ({
            let ms = stated_ms(raw@) as nat;
            let (g, c) = (r.resources.gpu_seconds, r.resources.cpu_seconds);
            &&& ms == 0 ==> g.bits == 0 && c.bits == 0
            &&& ms > 0 ==> within_half(ms, 1000, 0, g.mantissa(), g.exponent())
            &&& ms > 0 ==> within_half(
                g.mantissa() * 0x19_9999_9999_999A,
                1,
                g.exponent() - 56,
                c.mantissa(),
                c.exponent(),
            )
            &&& ms % 1000 == 0 ==> stands_for(g, ms / 1000)
        }),
        r.resources.ram_gb_seconds.bits == 0,
        r.resources.storage_gb.bits == 0,
        r.resources.egress_gb.bits == 0,
{
    let ms = stated_ms(raw@);
    if ms > 0 {
        let g = r.resources.gpu_seconds;
        lemma_gpu_time(ms);
        lemma2_to64();
        lemma2_to64_rest();
        assert(0x19_9999_9999_999Anat <= 1 * pow2(53));
        assert(1nat <= 0x19_9999_9999_999A * pow2(0));
        lemma_product_between(g, 0x19_9999_9999_999A, 1, -56, 53, 0, -62, 13);
        let n = g.mantissa() * 0x19_9999_9999_999A;
        assert(n > 0);
        law_rounded_to_nearest(n, 1, g.exponent() - 56);
        if ms % 1000 == 0 {
            lemma_stands_for(ms as nat);
            lemma_whole_product(
                double_of_int(ms as int),
                ms as nat,
                1,
                1000,
                (ms / 1000) as nat,
            );
        }
    } else {
        lemma_no_time();
    }
}

proof fn lemma_no_time()
    ensures
        gpu_seconds_of(0).bits == 0,
        tenth(gpu_seconds_of(0)).bits == 0,
        serverless_cents(gpu_seconds_of(0)) == 0,
{
    lemma_ceiling_of_zero(u64::MAX as nat);
}

proof fn lemma_charge(k: nat)
    requires
        18000 * k < TWO_53,
    ensures
        serverless_cents(gpu_seconds_of((18000 * k) as u64)) == k,
{
    if k == 0 {
        lemma_no_time();
    } else {
        let n = 18000 * k;
        let x = double_of_int(n as int);
        lemma_stands_for(n);
        lemma_whole_product(x, n, 1, 1000, 18 * k);
        let y = x.product(1, 1000, 0);
        lemma_whole_product(y, 18 * k, 200, 1, 3600 * k);
        let z = y.product(200, 1, 0);
        lemma_whole_product(z, 3600 * k, 1, 3600, k);
        lemma_whole_ceiling(z.product(1, 3600, 0), k, u64::MAX as nat);
    }
}

/// A receipt charges one cent for every eighteen seconds of GPU time, two hundred an
/// hour: exactly so many for a multiple of eighteen seconds, and for any other time
/// not less than for the multiple below it and not more than for the one above. What is
/// charged is one item, and the item is all that is charged.
pub proof fn law_serverless_charge(
    raw: &Json,
    id: JobId,
    completed_at: Timestamp,
    r: ComputeReceipt,
)
    requires
        call_ensures(serverless_receipt, (raw, id, completed_at), r),
        stated_ms(raw@) <= 9_000_000_000_000_000,
    ensures
        ({
            let ms = stated_ms(raw@);
            let cents = r.billing.amount_cents;
            &&& ms / 18000 <= cents <= ms / 18000 + 1
            &&& ms % 18000 == 0 ==> cents == ms / 18000
            &&& ms > 0 ==> cents > 0
        }),
        r.billing.currency == BillingCurrency::Usd,
        r.billing.line_items@.len() == 1,
        r.billing.line_items@[0].cents == r.billing.amount_cents,
{
    let ms = stated_ms(raw@);
    let k = (ms / 18000) as nat;
    lemma_charge(k);
    lemma_charge(k + 1);
    law_longer_costs_no_less((18000 * k) as u64, ms);
    law_longer_costs_no_less(ms, (18000 * (k + 1)) as u64);
    law_any_time_is_charged(ms);
}

/// However long a job ran, its seconds are the milliseconds over a thousand, its charge
/// is the seconds times two hundred over 3600, each rounded once, and rounded up at last;
/// and its CPU seconds are the GPU seconds times the double nearest to one tenth.
pub proof fn law_serverless_roundings(
    raw: &Json,
    id: JobId,
    completed_at: Timestamp,
    ms: F64,
    seconds: F64,
    tenth_of: F64,
    dear: F64,
    hourly: F64,
    cents: u64,
    r: ComputeReceipt,
)
    requires
        call_ensures(serverless_receipt, (raw, id, completed_at), r),
        call_ensures(from_u64, (stated_ms(raw@),), ms),
        call_ensures(times, (ms, 1u64, 1000u64, 0i64), seconds),
        call_ensures(times, (seconds, 0x19_9999_9999_999Au64, 1u64, -56i64), tenth_of),
        call_ensures(times, (seconds, 200u64, 1u64, 0i64), dear),
        call_ensures(times, (dear, 1u64, 3600u64, 0i64), hourly),
        call_ensures(round_up, (hourly, u64::MAX), cents),
    ensures
        r.resources.gpu_seconds == seconds,
        r.resources.cpu_seconds == tenth_of,
        r.billing.amount_cents == cents,
{
}

/// The item is labelled with the GPU seconds to one decimal place, off by at most half a
/// tenth.
pub proof fn law_serverless_label(
    raw: &Json,
    id: JobId,
    completed_at: Timestamp,
    r: ComputeReceipt,
)
    requires
        call_ensures(serverless_receipt, (raw, id, completed_at), r),
    ensures
        exists|whole: nat, tenths: nat|
            {
                let g = r.resources.gpu_seconds;
                let t = 10 * whole + tenths;
                &&& r.billing.line_items@[0].label@ == #[trigger] decimal(whole) + "."@
                    + #[trigger] decimal(tenths) + "s GPU compute"@
                &&& tenths < 10
                &&& g.exponent() >= 0 ==> t == 10 * g.mantissa() * pow2(g.exponent() as nat)
                &&& g.exponent() < 0 ==> {
                    let unit = pow2((-g.exponent()) as nat);
                    -unit <= 2 * (t * unit - 10 * g.mantissa()) <= unit
                }
            },
{
    let g = r.resources.gpu_seconds;
    let t = g.rounded(10);
    let (whole, tenths) = ((t / 10) as nat, (t % 10) as nat);
    assert(t == 10 * whole + tenths);
    if g.exponent() < 0 {
        let unit = pow2((-g.exponent()) as nat);
        lemma_pow2_pos((-g.exponent()) as nat);
        let n = 10 * g.mantissa();
        let (q, s) = (n / unit, n % unit);
        lemma_fundamental_div_mod(n as int, unit as int);
        assert(n == q * unit + s) by (nonlinear_arith)
            requires
                n == unit * q + s,
        ;
        assert(s < unit);
        assert((q + 1) * unit == q * unit + unit) by (nonlinear_arith);
    }
    assert(r.billing.line_items@[0].label@ == decimal(whole) + "."@ + decimal(tenths)
        + "s GPU compute"@);
}

/// What else a receipt says: which job, by whom, since when, and the run's name as its
/// only proof beside the attestation of the service.
pub proof fn law_serverless_receipt_says(
    raw: &Json,
    id: JobId,
    completed_at: Timestamp,
    r: ComputeReceipt,
)
    requires
        call_ensures(serverless_receipt, (raw, id, completed_at), r),
    ensures
        r.job_id == id,
        r.completed_at == completed_at,
        r.provider_id@ == "runpod-serverless"@,
        match raw@.get("id"@) {
            Some(JsonView::Str(name)) => r.verification.artifact_hash matches Some(h) && h@ == name,
            _ => r.verification.artifact_hash is None,
        },
        r.verification.runtime_attestation matches Some(h) && h@ == "runpod-serverless"@,
        r.verification.execution_hash is None,
        r.zangbeto_anchor is None,
        r.gix1_canonical_id is None,
{
}

/// Two receipts that say the same of what was used, what is charged and what is proved.
pub open spec fn same_account(r: ComputeReceipt, s: ComputeReceipt) -> bool {
    &&& r.provider_id@ == s.provider_id@
    &&& r.resources == s.resources
    &&& r.billing.amount_cents == s.billing.amount_cents
    &&& r.billing.currency == s.billing.currency
    &&& r.billing.line_items@.len() == 1 && s.billing.line_items@.len() == 1
    &&& r.billing.line_items@[0].label@ == s.billing.line_items@[0].label@
    &&& r.billing.line_items@[0].cents == s.billing.line_items@[0].cents
    &&& opt_text(r.verification.artifact_hash) == opt_text(
        s.verification.artifact_hash,
    )
    &&& opt_text(r.verification.runtime_attestation) == opt_text(
        s.verification.runtime_attestation,
    )
    &&& opt_text(r.verification.execution_hash) == opt_text(
        s.verification.execution_hash,
    )
    &&& r.zangbeto_anchor is None && s.zangbeto_anchor is None
    &&& r.gix1_canonical_id is None && s.gix1_canonical_id is None
}

/// When a job gets its receipt, why it gets none, and which output counts: the job is
/// known, the endpoint replies, and the job is complete by that reply or its output was
/// seen before; the output is the one in the reply where there is one, else the one seen
/// before.
pub open spec fn receipt_due(
    before: ServerlessView,
    after: ServerlessView,
    id: JobId,
    outcome: Outcome,
    r: Result<ComputeReceipt, UcxError>,
) -> bool {
    let known = before.runs.contains_key(id);
    let output = document(outcome).get("output"@);
    let seen = before.runs[id].result;
    let kept = after.runs[id].result;
    let complete = document(outcome).get("status"@) == Some(JsonView::Str("COMPLETED"@));
    &&& r is Ok <==> known && outcome is Replied && (complete || seen is Some)
    &&& !known ==> (r matches Err(e) && knows_not(e, id))
    &&& known && !(outcome is Replied) ==> (r matches Err(e) && blames(
        e,
        "runpod"@,
        outcome->reason@,
    ))
    &&& known && outcome is Replied && r is Err ==> (r matches Err(e) && blames(
        e,
        "runpod"@,
        "job is not completed"@,
    ))
    &&& r is Ok && complete && output is Some ==> kept == output
    &&& r is Ok && !(complete && output is Some) ==> kept == seen
    &&& only_run_differs(before, after, id)
}

/// A job gets its receipt once it is complete: the one for its output, in its own name.
pub proof fn law_serverless_receipt_given(
    a: &mut RunPodServerlessAdapter,
    id: JobId,
    outcome: &Outcome,
    completed_at: Timestamp,
    raw: &Json,
    s: ComputeReceipt,
    r: Result<ComputeReceipt, UcxError>,
)
    requires
        call_ensures(RunPodServerlessAdapter::receipt_with, (a, id, outcome, completed_at), r),
        call_ensures(serverless_receipt, (raw, id, completed_at), s),
        raw@ == (match final(a)@.runs[id].result {
            Some(output) => output,
            None => JsonView::Null,
        }),
    ensures
        receipt_due(old(a)@, final(a)@, id, *outcome, r),
        r matches Ok(receipt) ==> {
            &&& receipt.job_id == id
            &&& receipt.completed_at == completed_at
            &&& same_account(receipt, s)
        },
{
    lemma_word_apart();
}

/// The same for a receipt that is asked for now: its time is a reading of the clock.
pub proof fn law_serverless_receipt_given_now(
    a: &mut RunPodServerlessAdapter,
    id: JobId,
    outcome: &Outcome,
    at: Timestamp,
    raw: &Json,
    s: ComputeReceipt,
    r: Result<ComputeReceipt, UcxError>,
)
    requires
        call_ensures(RunPodServerlessAdapter::receipt, (a, id, outcome), r),
        call_ensures(serverless_receipt, (raw, id, at), s),
        raw@ == (match final(a)@.runs[id].result {
            Some(output) => output,
            None => JsonView::Null,
        }),
    ensures
        receipt_due(old(a)@, final(a)@, id, *outcome, r),
        r matches Ok(receipt) ==> {
            &&& receipt.job_id == id
            &&& is_reading(receipt.completed_at@)
            &&& same_account(receipt, s)
        },
{
    lemma_word_apart();
}

/// A receipt made of an output alone is that of the output too, under a new name and
/// with a reading of the clock.
pub proof fn law_serverless_output_translated(
    a: &RunPodServerlessAdapter,
    raw: &Json,
    id: JobId,
    at: Timestamp,
    s: ComputeReceipt,
    r: Result<ComputeReceipt, UcxError>,
)
    requires
        call_ensures(RunPodServerlessAdapter::translate_receipt, (a, raw), r),
        call_ensures(serverless_receipt, (raw, id, at), s),
    ensures
        r matches Ok(receipt) && {
            &&& same_account(receipt, s)
            &&& is_random_id(receipt.job_id)
            &&& is_reading(receipt.completed_at@)
        },
{
}

} // verus!
