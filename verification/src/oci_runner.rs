//! Running a job in an OCI container: the command line, and what is made of the
//! finished process.
use crate::digest::{sha256_hex, sha256_hex_text};
use crate::float64::{truncate, F64};
use crate::job::{
    hyphenated, image_in, image_text, job_id_text, law_id_text_injective, ErrorView, Job, JobId, UcxError,
};
use crate::json::{opt_text, Json, JsonView};
use crate::text::{decimal, leading_bytes, str_eq, text_within, u64_text};
use vstd::prelude::*;
use vstd::string::*;
use vstd::utf8::*;

verus! {

/// Runs jobs in containers with docker, podman or a command that takes the same
/// arguments.
#[derive(Debug)]
pub struct OciRunner {
    pub runtime: String,
}

/// How a container process ended.
#[derive(Debug)]
pub enum ContainerOutcome {
    /// The process could not be started.
    NotStarted { reason: String },
    /// The process ended: whether that was a success, its status in words, its exit
    /// code where it has one, what it wrote and how many seconds it took.
    Exited {
        success: bool,
        status: String,
        code: Option<i32>,
        stdout: Vec<u8>,
        stderr: Vec<u8>,
        elapsed: F64,
    },
}

/// What a finished run leaves behind.
#[derive(Debug)]
pub struct RunResult {
    /// The digest of the standard output, where there was any.
    pub artifact_hash: Option<String>,
    /// The digest of all that the process wrote and of its exit code.
    pub execution_hash: Option<String>,
    pub gpu_seconds: F64,
    pub cpu_seconds: F64,
}

/// What a run result says, with texts as sequences of characters.
pub struct RunView {
    pub artifact_hash: Option<Seq<char>>,
    pub execution_hash: Option<Seq<char>>,
    pub gpu_seconds: F64,
    pub cpu_seconds: F64,
}

impl View for RunResult {
    type V = RunView;

    open spec fn view(&self) -> RunView {
        RunView {
            artifact_hash: opt_text(self.artifact_hash),
            execution_hash: opt_text(self.execution_hash),
            gpu_seconds: self.gpu_seconds,
            cpu_seconds: self.cpu_seconds,
        }
    }
}

/// The view of the end of a run.
pub open spec fn ended(r: Result<RunResult, UcxError>) -> Result<RunView, ErrorView> {
    match r {
        Ok(run) => Ok(run@),
        Err(e) => Err(e@),
    }
}

/// The text that `String::from_utf8_lossy` makes of a byte string.
pub uninterp spec fn lossy_text(data: Seq<u8>) -> Seq<char>;

/// Calls `String::from_utf8_lossy`. The text is named; bytes that are UTF-8 give the
/// text they encode.
#[verifier::external_body]
fn decode_lossy(data: &[u8]) -> (r: String)
    ensures
        r@ == lossy_text(data@),
        valid_utf8(data@) ==> r@ == decode_utf8(data@),
{
    String::from_utf8_lossy(data).into_owned()
}

// ---- the command line -------------------------------------------------------

/// The container runtime that is used: the first of docker and podman that answers,
/// and docker where neither does.
pub open spec fn runtime_choice(docker_answers: bool, podman_answers: bool) -> Seq<char> {
    if !docker_answers && podman_answers {
        "podman"@
    } else {
        "docker"@
    }
}

/// The name of a job's container.
pub open spec fn container_name_text(id: JobId) -> Seq<char> {
    "ucx-job-"@ + hyphenated(id)
}

/// The name of a job's working directory.
pub open spec fn workdir_name_text(id: JobId) -> Seq<char> {
    "ucx-"@ + hyphenated(id)
}

/// The memory limit in mebibytes: what the job asks for in gibibytes, cut to an
/// integer, or 512.
pub open spec fn memory_mb(ram_gb: Option<F64>) -> nat {
    match ram_gb {
        Some(g) => g.truncated(10, u64::MAX as nat),
        None => 512,
    }
}

/// The arguments that give a container access to the machine's GPUs.
pub open spec fn gpu_arguments(runtime: Seq<char>, gpu_count: Option<u8>) -> Seq<Seq<char>> {
    if gpu_count is None || gpu_count->0 == 0 {
        Seq::empty()
    } else if runtime == "docker"@ {
        seq!["--gpus"@, "all"@]
    } else {
        seq!["--device"@, "nvidia.com/gpu=all"@]
    }
}

/// The texts among some JSON values, in order.
pub open spec fn texts_among(items: Seq<JsonView>) -> Seq<Seq<char>>
    decreases items.len(),
{
    if items.len() == 0 {
        Seq::empty()
    } else {
        match items.last().as_str() {
            Some(s) => texts_among(items.drop_last()).push(s),
            None => texts_among(items.drop_last()),
        }
    }
}

/// The arguments that a job hands to its image.
pub open spec fn job_arguments(runtime_spec: JsonView) -> Seq<Seq<char>> {
    match runtime_spec.at("args"@) {
        JsonView::Array(items) => texts_among(items),
        _ => Seq::empty(),
    }
}

/// The whole argument list of the container runtime.
pub open spec fn container_arguments(
    runtime: Seq<char>,
    job: Job,
    workdir: Seq<char>,
) -> Seq<Seq<char>> {
    seq![
        "run"@,
        "--rm"@,
        "--name"@,
        container_name_text(job.id),
        "--memory"@,
        decimal(memory_mb(job.requirements.ram_gb)) + "m"@,
        "--cpus"@,
        decimal(
            match job.requirements.cpu_cores {
                Some(n) => n as nat,
                None => 1,
            },
        ),
    ] + gpu_arguments(runtime, job.requirements.gpu_count) + seq![
        "-v"@,
        workdir + ":/workspace"@,
        "-w"@,
        "/workspace"@,
        image_text(job.runtime_spec@),
    ] + job_arguments(job.runtime_spec@)
}

/// The container runtime that is used, by which ones answer.
pub fn detect_runtime(docker_answers: bool, podman_answers: bool) -> (r: String)
    ensures
        r@ == runtime_choice(docker_answers, podman_answers),
{
    if !docker_answers && podman_answers {
        "podman".to_string()
    } else {
        "docker".to_string()
    }
}

/// One more argument.
fn push_text(list: &mut Vec<String>, s: &str)
    ensures
        final(list).deep_view() == old(list).deep_view().push(s@),
{
    list.push(s.to_string());
    assert(list.deep_view() =~= old(list).deep_view().push(s@));
}

// ---- the finished process ---------------------------------------------------

/// The four bytes of a 32-bit integer in two's complement, the low one first.
pub open spec fn little_endian(n: i32) -> Seq<u8> {
    let u = if n < 0 {
        n + 0x1_0000_0000
    } else {
        n as int
    };
    seq![
        (u % 256) as u8,
        (u / 256 % 256) as u8,
        (u / 65536 % 256) as u8,
        (u / 16777216 % 256) as u8,
    ]
}

/// What the execution digest is taken of.
pub open spec fn execution_bytes(stdout: Seq<u8>, stderr: Seq<u8>, code: Option<i32>) -> Seq<u8> {
    stdout + stderr + little_endian(
        match code {
            Some(n) => n,
            None => 0,
        },
    )
}

/// What a container failed with: its status and the first two hundred bytes of what
/// it wrote to standard error, where those end between two characters.
pub open spec fn failure(status: Seq<char>, stderr: Seq<char>) -> Option<ErrorView> {
    match text_within(stderr, 200) {
        Some(excerpt) => Some(
            ErrorView::ExecutionFailed {
                reason: "container exited "@ + status + ": "@ + excerpt,
            },
        ),
        None => None,
    }
}

/// What is made of a container process. There is nothing only where the excerpt of a
/// failure would cut a character.
pub open spec fn run_of(job: Job, outcome: ContainerOutcome) -> Option<Result<RunView, ErrorView>> {
    match outcome {
        ContainerOutcome::NotStarted { reason } => Some(
            Err(ErrorView::ExecutionFailed { reason: reason@ }),
        ),
        ContainerOutcome::Exited { success, status, code, stdout, stderr, elapsed } => if success {
            Some(
                Ok(
                    RunView {
                        artifact_hash: if stdout@.len() == 0 {
                            None
                        } else {
                            Some(sha256_hex_text(stdout@))
                        },
                        execution_hash: Some(
                            sha256_hex_text(execution_bytes(stdout@, stderr@, code)),
                        ),
                        gpu_seconds: if job.requirements.gpu_count is Some
                            && job.requirements.gpu_count->0 > 0 {
                            elapsed
                        } else {
                            F64 { bits: 0 }
                        },
                        cpu_seconds: elapsed,
                    },
                ),
            )
        } else {
            match failure(status@, lossy_text(stderr@)) {
                Some(e) => Some(Err(e)),
                None => None,
            }
        },
    }
}

/// The four bytes of a 32-bit integer, the low one first.
fn low_byte_first(n: i32) -> (r: Vec<u8>)
    ensures
        r@ == little_endian(n),
{
    let u: u32 = if n < 0 {
        (n as i64 + 0x1_0000_0000) as u32
    } else {
        n as u32
    };
    let mut r: Vec<u8> = Vec::new();
    r.push((u % 256) as u8);
    r.push((u / 256 % 256) as u8);
    r.push((u / 65536 % 256) as u8);
    r.push((u / 16777216 % 256) as u8);
    assert(r@ =~= little_endian(n));
    r
}

/// Adds a byte string to the end of another.
fn append_bytes(out: &mut Vec<u8>, more: &Vec<u8>)
    ensures
        final(out)@ == old(out)@ + more@,
{
    let mut i: usize = 0;
    let ghost before = out@;
    assert(before + more@.take(0) =~= before);
    while i < more.len()
        invariant
            i <= more.len(),
            out@ == before + more@.take(i as int),
        decreases more.len() - i,
    {
        out.push(more[i]);
        assert(out@ =~= before + more@.take(i + 1));
        i = i + 1;
    }
    assert(more@.take(more@.len() as int) =~= more@);
}

/// The error of a container that failed, from its status and the text of its
/// standard error.
pub fn container_failure(status: &str, stderr: &str) -> (r: Option<UcxError>)
    ensures
        match r {
            Some(e) => failure(status@, stderr@) == Some(e@),
            None => failure(status@, stderr@) is None,
        },
{
    match leading_bytes(stderr, 200) {
        Some(excerpt) => {
            let mut reason = "container exited ".to_string();
            reason.append(status);
            reason.append(": ");
            reason.append(excerpt);
            Some(UcxError::ExecutionFailed { reason })
        },
        None => None,
    }
}

impl OciRunner {
    /// A runner with the runtime that answers.
    pub fn new(docker_answers: bool, podman_answers: bool) -> (r: OciRunner)
        ensures
            r.runtime@ == runtime_choice(docker_answers, podman_answers),
    {
        OciRunner { runtime: detect_runtime(docker_answers, podman_answers) }
    }

    /// A runner with a given runtime.
    pub fn with_runtime(runtime: String) -> (r: OciRunner)
        ensures
            r.runtime == runtime,
    {
        OciRunner { runtime }
    }

    /// The name of the job's working directory, to be made under the directory for
    /// temporary files.
    pub fn workdir_name(&self, job: &Job) -> (r: String)
        ensures
            r@ == workdir_name_text(job.id),
    {
        let mut name = "ucx-".to_string();
        name.append(job_id_text(job.id).as_str());
        name
    }

    /// The arguments that the runtime is started with, given the path of the job's
    /// working directory.
    pub fn command_arguments(&self, job: &Job, workdir: &str) -> (r: Vec<String>)
        ensures
            r.deep_view() == container_arguments(self.runtime@, *job, workdir@),
    {
        let mut name = "ucx-job-".to_string();
        name.append(job_id_text(job.id).as_str());
        let memory_mb: u64 = match job.requirements.ram_gb {
            Some(g) => truncate(g, 10, u64::MAX),
            None => 512,
        };
        let mut memory = u64_text(memory_mb);
        memory.append("m");
        let cpu_count: u32 = match job.requirements.cpu_cores {
            Some(n) => n,
            None => 1,
        };
        let gpu_count: u8 = match job.requirements.gpu_count {
            Some(n) => n,
            None => 0,
        };
        let mut list: Vec<String> = Vec::new();
        assert(list.deep_view() =~= Seq::<Seq<char>>::empty());
        push_text(&mut list, "run");
        push_text(&mut list, "--rm");
        push_text(&mut list, "--name");
        push_text(&mut list, name.as_str());
        push_text(&mut list, "--memory");
        push_text(&mut list, memory.as_str());
        push_text(&mut list, "--cpus");
        push_text(&mut list, u64_text(cpu_count as u64).as_str());
        let ghost limits = list.deep_view();
        if gpu_count > 0 {
            if str_eq(self.runtime.as_str(), "docker") {
                push_text(&mut list, "--gpus");
                push_text(&mut list, "all");
            } else {
                push_text(&mut list, "--device");
                push_text(&mut list, "nvidia.com/gpu=all");
            }
        }
        assert(list.deep_view() =~= limits + gpu_arguments(
            self.runtime@,
            job.requirements.gpu_count,
        ));
        let ghost with_gpu = list.deep_view();
        let mut mount = workdir.to_string();
        mount.append(":/workspace");
        push_text(&mut list, "-v");
        push_text(&mut list, mount.as_str());
        push_text(&mut list, "-w");
        push_text(&mut list, "/workspace");
        push_text(&mut list, image_in(&job.runtime_spec));
        let ghost fixed = list.deep_view();
        assert(fixed =~= with_gpu + seq![
            "-v"@,
            workdir@ + ":/workspace"@,
            "-w"@,
            "/workspace"@,
            image_text(job.runtime_spec@),
        ]);
        match job.runtime_spec.get("args") {
            Some(Json::Array(items)) => {
                let ghost all = job.runtime_spec@.at("args"@)->Array_0;
                let mut i: usize = 0;
                assert(all.take(0) =~= Seq::<JsonView>::empty());
                assert(fixed + texts_among(all.take(0)) =~= fixed);
                while i < items.len()
                    invariant
                        i <= items.len(),
                        all.len() == items@.len(),
                        forall|k: int| 0 <= k < items@.len() ==> #[trigger] all[k] == items@[k]@,
                        list.deep_view() == fixed + texts_among(all.take(i as int)),
                    decreases items.len() - i,
                {
                    assert(all.take(i + 1).drop_last() =~= all.take(i as int));
                    assert(all.take(i + 1).last() == items@[i as int]@);
                    if let Some(s) = items[i].as_str() {
                        push_text(&mut list, s);
                    }
                    assert(list.deep_view() =~= fixed + texts_among(all.take(i + 1)));
                    i = i + 1;
                }
                assert(all.take(all.len() as int) =~= all);
            },
            _ => {
                assert(fixed + job_arguments(job.runtime_spec@) =~= fixed);
            },
        }
        list
    }

    /// What is made of the job's container process. There is nothing only where the
    /// excerpt of a failure's standard error would cut a character.
    pub fn run(&self, job: &Job, outcome: &ContainerOutcome) -> (r: Option<
        Result<RunResult, UcxError>,
    >)
        ensures
            match r {
                Some(end) => run_of(*job, *outcome) == Some(ended(end)),
                None => run_of(*job, *outcome) is None,
            },
    {
        match outcome {
            ContainerOutcome::NotStarted { reason } => Some(
                Err(UcxError::ExecutionFailed { reason: reason.clone() }),
            ),
            ContainerOutcome::Exited { success, status, code, stdout, stderr, elapsed } => {
                if !*success {
                    let words = decode_lossy(stderr.as_slice());
                    return match container_failure(status.as_str(), words.as_str()) {
                        Some(e) => Some(Err(e)),
                        None => None,
                    };
                }
                let artifact_hash = if stdout.len() == 0 {
                    None
                } else {
                    Some(sha256_hex(stdout.as_slice()))
                };
                let exit_code: i32 = match code {
                    Some(n) => *n,
                    None => 0,
                };
                let mut written: Vec<u8> = Vec::new();
                append_bytes(&mut written, stdout);
                append_bytes(&mut written, stderr);
                append_bytes(&mut written, &low_byte_first(exit_code));
                assert(written@ =~= execution_bytes(stdout@, stderr@, *code));
                let gpu_count: u8 = match job.requirements.gpu_count {
                    Some(n) => n,
                    None => 0,
                };
                Some(
                    Ok(
                        RunResult {
                            artifact_hash,
                            execution_hash: Some(sha256_hex(written.as_slice())),
                            gpu_seconds: if gpu_count > 0 {
                                *elapsed
                            } else {
                                F64 { bits: 0 }
                            },
                            cpu_seconds: *elapsed,
                        },
                    ),
                )
            },
        }
    }
}

// ---- laws -------------------------------------------------------------------

/// Two jobs share neither a container name nor a working directory.
pub proof fn law_jobs_kept_apart(a: JobId, b: JobId)
    requires
        a != b,
    ensures
        container_name_text(a) != container_name_text(b),
        workdir_name_text(a) != workdir_name_text(b),
{
    if container_name_text(a) == container_name_text(b) {
        let n = "ucx-job-"@.len() as int;
        assert(container_name_text(a).skip(n) =~= hyphenated(a));
        assert(container_name_text(b).skip(n) =~= hyphenated(b));
        law_id_text_injective(a, b);
    }
    if workdir_name_text(a) == workdir_name_text(b) {
        let n = "ucx-"@.len() as int;
        assert(workdir_name_text(a).skip(n) =~= hyphenated(a));
        assert(workdir_name_text(b).skip(n) =~= hyphenated(b));
        law_id_text_injective(a, b);
    }
}

/// A run is charged GPU time only where the job asked for a GPU.
pub proof fn law_no_gpu_no_gpu_time(job: Job, outcome: ContainerOutcome)
    requires
        job.requirements.gpu_count is None || job.requirements.gpu_count->0 == 0,
    ensures
        run_of(job, outcome) matches Some(Ok(run)) ==> run.gpu_seconds == (F64 { bits: 0 }),
{
}

/// The command line asks for GPUs exactly where the job did, right behind the limits,
/// and the job's own arguments stand last, behind its image.
pub proof fn law_job_arguments_come_last(runtime: Seq<char>, job: Job, workdir: Seq<char>)
    ensures
        ({
            let all = container_arguments(runtime, job, workdir);
            let own = job_arguments(job.runtime_spec@);
            let gpus = gpu_arguments(runtime, job.requirements.gpu_count);
            let front = all.len() - own.len();
            &&& gpus.len() > 0 <==> job.requirements.gpu_count is Some
                && job.requirements.gpu_count->0 > 0
            &&& front == 13 + gpus.len()
            &&& all.subrange(8, 8int + gpus.len()) == gpus
            &&& all[front - 1] == image_text(job.runtime_spec@)
            &&& all.skip(front) == own
        }),
{
    let all = container_arguments(runtime, job, workdir);
    let own = job_arguments(job.runtime_spec@);
    let gpus = gpu_arguments(runtime, job.requirements.gpu_count);
    let front = all.len() - own.len();
    assert(all.subrange(8, 8int + gpus.len()) =~= gpus);
    assert(all.skip(front) =~= own);
}

} // verus!
