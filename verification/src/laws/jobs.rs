//! Reading jobs.
use crate::float64::{double_of_int, F64};
use crate::job::{adapter_error, hyphenated, image_in, job_not_found, law_id_text_injective};
use crate::job::{parse_constraints, parse_requirements, parse_workload, ComputeConstraints};
use crate::job::{JobId, JobStatus, TrustLevel, UcxError, WorkloadRequirements, WorkloadType};
use crate::json::{Json, JsonView};
use vstd::prelude::*;

verus! {

/// Whether a truth value is the one of a member, and the given one where there is no
/// such member or it is of another kind.
pub open spec fn follows_flag(v: JsonView, key: Seq<char>, default: bool, b: bool) -> bool {
    match v.get(key) {
        Some(JsonView::Bool(stated)) => b == stated,
        _ => b == default,
    }
}

/// Whether an optional number is the one of a member, as a double.
pub open spec fn follows_number(v: JsonView, key: Seq<char>, x: Option<F64>) -> bool {
    match v.get(key) {
        Some(JsonView::Float(stated)) => x == Some(stated),
        Some(JsonView::UInt(n)) => x == Some(double_of_int(n as int)),
        Some(JsonView::NegInt(n)) => x == Some(double_of_int(n as int)),
        _ => x is None,
    }
}

/// Each requirement is stated by the member of its own name and by no other: truth
/// values that are not stated are false, numbers that are not stated are absent, and
/// counts keep as many low bits as their field has.
pub proof fn law_requirements_by_name(v: &Json, r: WorkloadRequirements)
    requires
        call_ensures(parse_requirements, (Some(v),), r),
    ensures
        follows_flag(v@, "fp16"@, false, r.fp16),
        follows_flag(v@, "bf16"@, false, r.bf16),
        follows_flag(v@, "cuda"@, false, r.cuda),
        follows_number(v@, "vram_gb"@, r.vram_gb),
        follows_number(v@, "ram_gb"@, r.ram_gb),
        match v@.get("cpu_cores"@) {
            Some(JsonView::UInt(n)) => r.cpu_cores is Some && r.cpu_cores->0 == n % 4294967296,
            _ => r.cpu_cores is None,
        },
        match v@.get("gpu_count"@) {
            Some(JsonView::UInt(n)) => r.gpu_count is Some && r.gpu_count->0 == n % 256,
            _ => r.gpu_count is None,
        },
        r.min_tier is None,
{
}

/// Two requests that agree on a member agree on the requirement of that name, whatever
/// else they hold.
pub proof fn law_requirements_independent(
    v: &Json,
    w: &Json,
    r: WorkloadRequirements,
    s: WorkloadRequirements,
)
    requires
        call_ensures(parse_requirements, (Some(v),), r),
        call_ensures(parse_requirements, (Some(w),), s),
    ensures
        v@.get("fp16"@) == w@.get("fp16"@) ==> r.fp16 == s.fp16,
        v@.get("bf16"@) == w@.get("bf16"@) ==> r.bf16 == s.bf16,
        v@.get("cuda"@) == w@.get("cuda"@) ==> r.cuda == s.cuda,
        v@.get("vram_gb"@) == w@.get("vram_gb"@) ==> r.vram_gb == s.vram_gb,
        v@.get("ram_gb"@) == w@.get("ram_gb"@) ==> r.ram_gb == s.ram_gb,
        v@.get("cpu_cores"@) == w@.get("cpu_cores"@) ==> r.cpu_cores == s.cpu_cores,
        v@.get("gpu_count"@) == w@.get("gpu_count"@) ==> r.gpu_count == s.gpu_count,
{
}

/// A request without requirements requires nothing.
pub proof fn law_no_requirements(r: WorkloadRequirements)
    requires
        call_ensures(parse_requirements, (None::<&Json>,), r),
    ensures
        r.vram_gb is None && r.ram_gb is None && r.cpu_cores is None && r.gpu_count is None,
        !r.fp16 && !r.bf16 && !r.cuda && r.min_tier is None,
{
}

/// Each limit is stated by the member of its own name and by no other; a job may leave
/// the house unless it says otherwise.
pub proof fn law_constraints_by_name(v: &Json, c: ComputeConstraints)
    requires
        call_ensures(parse_constraints, (Some(v),), c),
    ensures
        match v@.get("max_price_cents"@) {
            Some(JsonView::UInt(n)) => c.max_price_cents == Some(n),
            _ => c.max_price_cents is None,
        },
        match v@.get("max_queue_secs"@) {
            Some(JsonView::UInt(n)) => c.max_queue_secs == Some(n),
            _ => c.max_queue_secs is None,
        },
        follows_flag(v@, "allow_external"@, true, c.allow_external),
        c.privacy == TrustLevel::Standard,
        c.regions@.len() == 0,
{
}

/// A request without limits has none, and may leave the house.
pub proof fn law_no_constraints(c: ComputeConstraints)
    requires
        call_ensures(parse_constraints, (None::<&Json>,), c),
    ensures
        c.max_price_cents is None && c.max_queue_secs is None && c.allow_external,
        c.privacy == TrustLevel::Standard,
        c.regions@.len() == 0,
{
}

pub proof fn lemma_workload_words()
    ensures
        "Inference"@[0] == 'I',
        "Training"@[0] == 'T',
        "Rendering"@[0] == 'R',
        "Simulation"@[0] == 'S',
        "CiCd"@[0] == 'C',
        "Generic"@[0] == 'G',
{
    reveal_strlit("Inference");
    reveal_strlit("Training");
    reveal_strlit("Rendering");
    reveal_strlit("Simulation");
    reveal_strlit("CiCd");
    reveal_strlit("Generic");
}

/// The words for kinds of work, and that any other word means generic work.
pub proof fn law_workload_words(s: &str, w: WorkloadType)
    requires
        call_ensures(parse_workload, (s,), w),
    ensures
        w == WorkloadType::Inference <==> s@ == "Inference"@,
        w == WorkloadType::Training <==> s@ == "Training"@,
        w == WorkloadType::Rendering <==> s@ == "Rendering"@,
        w == WorkloadType::Simulation <==> s@ == "Simulation"@,
        w == WorkloadType::CiCd <==> s@ == "CiCd"@,
        w == WorkloadType::Generic <==> s@ != "Inference"@ && s@ != "Training"@ && s@
            != "Rendering"@ && s@ != "Simulation"@ && s@ != "CiCd"@,
{
    lemma_workload_words();
}

/// The name of a kind of work is read back as that kind.
pub proof fn law_workload_name_reads_back(w: WorkloadType, name: &'static str, r: WorkloadType)
    requires
        call_ensures(WorkloadType::name, (w,), name),
        call_ensures(parse_workload, (name,), r),
    ensures
        r == w,
        w == WorkloadType::Generic ==> name@ == "Generic"@,
{
    lemma_workload_words();
}

/// The words for how a job fares; no two states share one.
pub proof fn law_status_words(
    s: JobStatus,
    t: JobStatus,
    s_name: &'static str,
    t_name: &'static str,
)
    requires
        call_ensures(JobStatus::name, (s,), s_name),
        call_ensures(JobStatus::name, (t,), t_name),
    ensures
        s_name@ == t_name@ ==> s == t,
        s == JobStatus::Pending ==> s_name@ == "Pending"@,
        s == JobStatus::Running ==> s_name@ == "Running"@,
        s == JobStatus::Completed ==> s_name@ == "Completed"@,
        s == JobStatus::Failed ==> s_name@ == "Failed"@,
        s == JobStatus::Cancelled ==> s_name@ == "Cancelled"@,
{
    reveal_strlit("Pending");
    reveal_strlit("Running");
    reveal_strlit("Completed");
    reveal_strlit("Failed");
    reveal_strlit("Cancelled");
    assert("Pending"@[0] == 'P' && "Running"@[0] == 'R' && "Failed"@[0] == 'F');
    assert("Completed"@[1] == 'o' && "Cancelled"@[1] == 'a');
    assert("Completed"@[0] == 'C' && "Cancelled"@[0] == 'C');
}

/// The image is the text under `image`, and the usual one where there is none.
pub proof fn law_image_by_name(runtime_spec: &Json, image: &str)
    requires
        call_ensures(image_in, (runtime_spec,), image),
    ensures
        match runtime_spec@.get("image"@) {
            Some(JsonView::Str(s)) => image@ == s,
            _ => image@ == "ubuntu:22.04"@,
        },
{
}

/// An error of a service says which service and why; two that look the same are the
/// same.
pub proof fn law_adapter_error_tells(adapter: &str, reason: &str, e: UcxError)
    requires
        call_ensures(adapter_error, (adapter, reason), e),
    ensures
        e matches UcxError::Adapter { adapter: a, reason: r } && a@ == adapter@ && r@ == reason@,
{
}

/// The error for an unknown job names the job, and no other job.
pub proof fn law_unknown_job_is_named(a: JobId, b: JobId, e: UcxError, f: UcxError)
    requires
        call_ensures(job_not_found, (a,), e),
        call_ensures(job_not_found, (b,), f),
    ensures
        e matches UcxError::JobNotFound { job_id } && job_id@ == hyphenated(a),
        e@ == f@ ==> a == b,
{
    if e@ == f@ {
        law_id_text_injective(a, b);
    }
}

} // verus!
