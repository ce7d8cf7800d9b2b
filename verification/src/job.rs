//! Jobs: what is asked for, under which limits, and how it fares.
use crate::clock::Timestamp;
use crate::digest::{hex_digit, lemma_hex_digit};
use crate::float64::F64;
use crate::json::{Json, JsonView};
use crate::text::str_eq;
use vstd::arithmetic::div_mod::lemma_div_denominator;
use vstd::arithmetic::power2::{
    lemma2_to64, lemma2_to64_rest, lemma_pow2_adds, lemma_pow2_pos, pow2,
};
use vstd::prelude::*;

verus! {

/// A job's identifier: a UUID as its 128-bit number.
pub type JobId = u128;

/// The hexadecimal digit of a number at a place counted from the left of thirty-two.
pub open spec fn id_digit(id: u128, place: int) -> nat {
    (id as nat / pow2((4 * (31 - place)) as nat)) % 16
}

/// The text of an identifier: thirty-two lower-case hexadecimal digits in groups of
/// eight, four, four, four and twelve, with hyphens between them.
pub open spec fn hyphenated(id: u128) -> Seq<char> {
    Seq::new(
        36,
        |i: int|
            if i == 8 || i == 13 || i == 18 || i == 23 {
                '-'
            } else if i < 8 {
                hex_digit(id_digit(id, i))
            } else if i < 13 {
                hex_digit(id_digit(id, i - 1))
            } else if i < 18 {
                hex_digit(id_digit(id, i - 2))
            } else if i < 23 {
                hex_digit(id_digit(id, i - 3))
            } else {
                hex_digit(id_digit(id, i - 4))
            },
    )
}

/// Two numbers whose hexadecimal digits agree from the left down to a place agree
/// above that place.
proof fn lemma_digits_determine(a: u128, b: u128, place: nat)
    requires
        place <= 31,
        forall|p: int| 0 <= p <= 31 ==> #[trigger] id_digit(a, p) == id_digit(b, p),
    ensures
        a as nat / pow2((4 * (31 - place)) as nat) == b as nat / pow2((4 * (31 - place)) as nat),
    decreases place,
{
    let unit = pow2((4 * (31 - place)) as nat);
    let x = a as nat / unit;
    let y = b as nat / unit;
    lemma_pow2_pos((4 * (31 - place)) as nat);
    assert(id_digit(a, place as int) == id_digit(b, place as int));
    if place == 0 {
        lemma_pow2_pos(124);
        lemma_pow2_adds(64, 60);
        lemma2_to64();
        lemma2_to64_rest();
        assert(unit == 0x1000_0000_0000_0000_0000_0000_0000_0000);
        assert(a as nat / 0x1000_0000_0000_0000_0000_0000_0000_0000 < 16);
        assert(b as nat / 0x1000_0000_0000_0000_0000_0000_0000_0000 < 16);
    } else {
        lemma_digits_determine(a, b, (place - 1) as nat);
        lemma_pow2_adds((4 * (31 - place)) as nat, 4);
        lemma2_to64();
        assert(pow2((4 * (31 - (place - 1))) as nat) == unit * 16);
        lemma_div_denominator(a as int, unit as int, 16);
        lemma_div_denominator(b as int, unit as int, 16);
        assert(x / 16 == y / 16);
        assert(x % 16 == y % 16);
    }
}

/// Two identifiers with the same text are the same.
pub proof fn law_id_text_injective(a: JobId, b: JobId)
    requires
        hyphenated(a) == hyphenated(b),
    ensures
        a == b,
{
    assert forall|p: int| 0 <= p <= 31 implies #[trigger] id_digit(a, p) == id_digit(b, p) by {
        let i = if p < 8 {
            p
        } else if p < 12 {
            p + 1
        } else if p < 16 {
            p + 2
        } else if p < 20 {
            p + 3
        } else {
            p + 4
        };
        assert(hyphenated(a)[i] == hex_digit(id_digit(a, p)));
        assert(hyphenated(b)[i] == hex_digit(id_digit(b, p)));
        assert(id_digit(a, p) < 16 && id_digit(b, p) < 16);
        lemma_hex_digit(id_digit(a, p));
        lemma_hex_digit(id_digit(b, p));
    }
    lemma_digits_determine(a, b, 31);
    lemma2_to64();
    assert(pow2(0) == 1);
    assert(a as nat / 1 == a && b as nat / 1 == b);
}

/// What `uuid::Uuid::parse_str` makes of a text.
pub uninterp spec fn parsed_id(s: Seq<char>) -> Option<u128>;

/// Formats a UUID with its `Display`, which is the hyphenated form.
#[verifier::external_body]
pub(crate) fn job_id_text(id: JobId) -> (r: String)
    ensures
        r@ == hyphenated(id),
{
    uuid::Uuid::from_u128(id).to_string()
}

/// Calls `uuid::Uuid::parse_str`. The outcome is named, since several forms are
/// read; the hyphenated form of an identifier is read as that identifier.
#[verifier::external_body]
pub(crate) fn parse_job_id(s: &str) -> (r: Option<JobId>)
    ensures
        r == parsed_id(s@),
        forall|id: u128| s@ == #[trigger] hyphenated(id) ==> r == Some(id),
{
    uuid::Uuid::parse_str(s).ok().map(|id| id.as_u128())
}

/// Whether an identifier is marked as a random one: version four, of the variant of
/// RFC 9562.
pub open spec fn is_random_id(id: JobId) -> bool {
    (id / 0x1000_0000_0000_0000_0000) % 16 == 4 && (id / 0x4000_0000_0000_0000) % 4 == 2
}

/// Draws a random identifier with `uuid::Uuid::new_v4`. That it is marked as one is
/// all that is claimed of it.
#[verifier::external_body]
pub(crate) fn new_job_id() -> (r: JobId)
    ensures
        is_random_id(r),
{
    uuid::Uuid::new_v4().as_u128()
}

/// What kind of work a job is.
#[derive(Clone, Copy, Debug, PartialEq, Eq, Structural)]
pub enum WorkloadType {
    Inference,
    Training,
    Rendering,
    Simulation,
    CiCd,
    Generic,
}

/// How far a provider is trusted with a job.
#[derive(Clone, Copy, Debug, PartialEq, Eq, Structural)]
pub enum TrustLevel {
    Standard,
}

/// The class of machine that a provider runs.
#[derive(Clone, Copy, Debug, PartialEq, Eq, Structural)]
pub enum ProviderTier {
    Professional,
}

/// How a job fares.
#[derive(Clone, Copy, Debug, PartialEq, Eq, Structural)]
pub enum JobStatus {
    Pending,
    Running,
    Completed,
    Failed,
    Cancelled,
}

/// What a job needs of a machine.
#[derive(Clone, Copy, Debug, PartialEq, Eq, Structural)]
pub struct WorkloadRequirements {
    pub vram_gb: Option<F64>,
    pub ram_gb: Option<F64>,
    pub cpu_cores: Option<u32>,
    pub gpu_count: Option<u8>,
    pub fp16: bool,
    pub bf16: bool,
    pub cuda: bool,
    pub min_tier: Option<ProviderTier>,
}

/// The limits that a job is to be run under.
#[derive(Debug)]
pub struct ComputeConstraints {
    pub max_price_cents: Option<u64>,
    pub max_queue_secs: Option<u64>,
    pub privacy: TrustLevel,
    pub regions: Vec<String>,
    pub allow_external: bool,
}

/// A job.
#[derive(Debug)]
pub struct Job {
    pub id: JobId,
    pub submitter_id: String,
    pub workload: WorkloadType,
    pub requirements: WorkloadRequirements,
    pub constraints: ComputeConstraints,
    /// What the submitter says of how to run the job, as it came.
    pub runtime_spec: Json,
}

/// What a provider offers for a job.
#[derive(Debug)]
pub struct Offer {
    pub job_id: JobId,
    pub provider_id: String,
    pub price_cents: u64,
    pub eta_secs: u64,
    pub expires_at: Timestamp,
    pub is_external: bool,
}

/// A job in the hands of a provider.
#[derive(Debug)]
pub struct Allocation {
    pub job_id: JobId,
    pub provider_id: String,
    pub offer: Offer,
    pub allocated_at: Timestamp,
    pub status: JobStatus,
}

/// Why something could not be done.
#[derive(Debug)]
pub enum UcxError {
    /// A provider's service refused, or could not be reached.
    Adapter { adapter: String, reason: String },
    /// No such job is known.
    JobNotFound { job_id: String },
    /// The job ran and failed.
    ExecutionFailed { reason: String },
}

/// What an error says, with texts as sequences of characters.
pub enum ErrorView {
    Adapter { adapter: Seq<char>, reason: Seq<char> },
    JobNotFound { job_id: Seq<char> },
    ExecutionFailed { reason: Seq<char> },
}

impl View for UcxError {
    type V = ErrorView;

    open spec fn view(&self) -> ErrorView {
        match self {
            UcxError::Adapter { adapter, reason } => ErrorView::Adapter {
                adapter: adapter@,
                reason: reason@,
            },
            UcxError::JobNotFound { job_id } => ErrorView::JobNotFound { job_id: job_id@ },
            UcxError::ExecutionFailed { reason } => ErrorView::ExecutionFailed { reason: reason@ },
        }
    }
}

/// The view of a result whose value is plain.
pub open spec fn plain<T>(r: Result<T, UcxError>) -> Result<T, ErrorView> {
    match r {
        Ok(v) => Ok(v),
        Err(e) => Err(e@),
    }
}

/// An error of a provider's service.
pub fn adapter_error(adapter: &str, reason: &str) -> (r: UcxError)
    ensures
        r@ == (ErrorView::Adapter { adapter: adapter@, reason: reason@ }),
{
    UcxError::Adapter { adapter: adapter.to_string(), reason: reason.to_string() }
}

/// The error for a job that is not known.
pub fn job_not_found(job_id: JobId) -> (r: UcxError)
    ensures
        r@ == (ErrorView::JobNotFound { job_id: hyphenated(job_id) }),
{
    UcxError::JobNotFound { job_id: job_id_text(job_id) }
}

// ---- names ------------------------------------------------------------------

/// The name of a kind of work.
pub open spec fn workload_name(w: WorkloadType) -> Seq<char> {
    match w {
        WorkloadType::Inference => "Inference"@,
        WorkloadType::Training => "Training"@,
        WorkloadType::Rendering => "Rendering"@,
        WorkloadType::Simulation => "Simulation"@,
        WorkloadType::CiCd => "CiCd"@,
        WorkloadType::Generic => "Generic"@,
    }
}

/// The kind of work that a text names; any other text means generic work.
pub open spec fn workload_named(s: Seq<char>) -> WorkloadType {
    if s == "Inference"@ {
        WorkloadType::Inference
    } else if s == "Training"@ {
        WorkloadType::Training
    } else if s == "Rendering"@ {
        WorkloadType::Rendering
    } else if s == "Simulation"@ {
        WorkloadType::Simulation
    } else if s == "CiCd"@ {
        WorkloadType::CiCd
    } else {
        WorkloadType::Generic
    }
}

/// The name of how a job fares.
pub open spec fn status_name(s: JobStatus) -> Seq<char> {
    match s {
        JobStatus::Pending => "Pending"@,
        JobStatus::Running => "Running"@,
        JobStatus::Completed => "Completed"@,
        JobStatus::Failed => "Failed"@,
        JobStatus::Cancelled => "Cancelled"@,
    }
}

/// Every kind of work is read back from its name.
pub proof fn law_workload_named_by_its_name(w: WorkloadType)
    ensures
        workload_named(workload_name(w)) == w,
{
    reveal_strlit("Inference");
    reveal_strlit("Training");
    reveal_strlit("Rendering");
    reveal_strlit("Simulation");
    reveal_strlit("CiCd");
    reveal_strlit("Generic");
    assert("Inference"@[0] == 'I');
    assert("Training"@[0] == 'T');
    assert("Rendering"@[0] == 'R');
    assert("Simulation"@[0] == 'S');
    assert("CiCd"@[0] == 'C');
    assert("Generic"@[0] == 'G');
}

impl WorkloadType {
    pub fn name(self) -> (r: &'static str)
        ensures
            r@ == workload_name(self),
    {
        match self {
            WorkloadType::Inference => "Inference",
            WorkloadType::Training => "Training",
            WorkloadType::Rendering => "Rendering",
            WorkloadType::Simulation => "Simulation",
            WorkloadType::CiCd => "CiCd",
            WorkloadType::Generic => "Generic",
        }
    }
}

impl JobStatus {
    pub fn name(self) -> (r: &'static str)
        ensures
            r@ == status_name(self),
    {
        match self {
            JobStatus::Pending => "Pending",
            JobStatus::Running => "Running",
            JobStatus::Completed => "Completed",
            JobStatus::Failed => "Failed",
            JobStatus::Cancelled => "Cancelled",
        }
    }
}

/// The kind of work that a text names.
pub fn parse_workload(s: &str) -> (r: WorkloadType)
    ensures
        r == workload_named(s@),
{
    if str_eq(s, "Inference") {
        WorkloadType::Inference
    } else if str_eq(s, "Training") {
        WorkloadType::Training
    } else if str_eq(s, "Rendering") {
        WorkloadType::Rendering
    } else if str_eq(s, "Simulation") {
        WorkloadType::Simulation
    } else if str_eq(s, "CiCd") {
        WorkloadType::CiCd
    } else {
        WorkloadType::Generic
    }
}

// ---- reading requests -------------------------------------------------------

pub open spec fn or_false(b: Option<bool>) -> bool {
    match b {
        Some(b) => b,
        None => false,
    }
}

pub open spec fn or_true(b: Option<bool>) -> bool {
    match b {
        Some(b) => b,
        None => true,
    }
}

/// What a JSON value asks of a machine. Counts too large for their field wrap.
pub open spec fn requirements_in(v: JsonView) -> WorkloadRequirements {
    WorkloadRequirements {
        vram_gb: v.at("vram_gb"@).as_f64(),
        ram_gb: v.at("ram_gb"@).as_f64(),
        cpu_cores: match v.at("cpu_cores"@).as_u64() {
            Some(n) => Some((n % 0x1_0000_0000) as u32),
            None => None,
        },
        gpu_count: match v.at("gpu_count"@).as_u64() {
            Some(n) => Some((n % 0x100) as u8),
            None => None,
        },
        fp16: or_false(v.at("fp16"@).as_bool()),
        bf16: or_false(v.at("bf16"@).as_bool()),
        cuda: or_false(v.at("cuda"@).as_bool()),
        min_tier: None,
    }
}

/// Whether constraints are those that a JSON value states.
pub open spec fn constraints_in(v: JsonView, c: ComputeConstraints) -> bool {
    &&& c.max_price_cents == v.at("max_price_cents"@).as_u64()
    &&& c.max_queue_secs == v.at("max_queue_secs"@).as_u64()
    &&& c.privacy == TrustLevel::Standard
    &&& c.regions@.len() == 0
    &&& c.allow_external == or_true(v.at("allow_external"@).as_bool())
}

/// The container image that a runtime specification asks for.
pub open spec fn image_text(runtime_spec: JsonView) -> Seq<char> {
    match runtime_spec.at("image"@).as_str() {
        Some(s) => s,
        None => "ubuntu:22.04"@,
    }
}

/// The container image that a runtime specification asks for, or the usual one.
pub fn image_in(runtime_spec: &Json) -> (r: &str)
    ensures
        r@ == image_text(runtime_spec@),
{
    match runtime_spec.str_at("image") {
        Some(s) => s,
        None => "ubuntu:22.04",
    }
}

fn truth(b: Option<bool>, default: bool) -> (r: bool)
    ensures
        r == (match b {
            Some(b) => b,
            None => default,
        }),
{
    match b {
        Some(b) => b,
        None => default,
    }
}

/// What a JSON value asks of a machine; one that is absent or no object asks nothing.
pub fn parse_requirements(v: Option<&Json>) -> (r: WorkloadRequirements)
    ensures
        r == requirements_in(match v {
            Some(v) => v@,
            None => JsonView::Null,
        }),
{
    let null = Json::Null;
    let v = match v {
        Some(v) => v,
        None => &null,
    };
    let cpu_cores = match v.u64_at("cpu_cores") {
        Some(n) => {
            assert(n as u32 == n % 0x1_0000_0000) by (bit_vector);
            Some(n as u32)
        },
        None => None,
    };
    let gpu_count = match v.u64_at("gpu_count") {
        Some(n) => {
            assert(n as u8 == n % 0x100) by (bit_vector);
            Some(n as u8)
        },
        None => None,
    };
    WorkloadRequirements {
        vram_gb: v.f64_at("vram_gb"),
        ram_gb: v.f64_at("ram_gb"),
        cpu_cores,
        gpu_count,
        fp16: truth(v.bool_at("fp16"), false),
        bf16: truth(v.bool_at("bf16"), false),
        cuda: truth(v.bool_at("cuda"), false),
        min_tier: None,
    }
}

/// The limits that a JSON value states; one that is absent or no object states none.
pub fn parse_constraints(v: Option<&Json>) -> (r: ComputeConstraints)
    ensures
        constraints_in(
            match v {
                Some(v) => v@,
                None => JsonView::Null,
            },
            r,
        ),
{
    let null = Json::Null;
    let v = match v {
        Some(v) => v,
        None => &null,
    };
    ComputeConstraints {
        max_price_cents: v.u64_at("max_price_cents"),
        max_queue_secs: v.u64_at("max_queue_secs"),
        privacy: TrustLevel::Standard,
        regions: Vec::new(),
        allow_external: truth(v.bool_at("allow_external"), true),
    }
}

} // verus!
