//! Running jobs in containers.
use crate::digest::sha256_hex;
use crate::job::{hyphenated, Job, UcxError};
use crate::json::JsonView;
use crate::laws::numbers::{is_cut, lemma_cut, lemma_whole_truncated, stands_for};
use crate::oci_runner::{container_failure, detect_runtime, execution_bytes, job_arguments};
use crate::oci_runner::{law_jobs_kept_apart, little_endian, lossy_text, texts_among};
use crate::oci_runner::{ContainerOutcome, OciRunner, RunResult};
use crate::text::{byte_width, decimal, text_within};
use vstd::prelude::*;
use vstd::utf8::*;

verus! {

/// The container runtime is podman only where podman answers and docker does not; a
/// runtime that is given is the one that is used.
pub proof fn law_runtime_detected(
    docker_answers: bool,
    podman_answers: bool,
    r: String,
    runner: OciRunner,
    given: String,
    other: OciRunner,
)
    requires
        call_ensures(OciRunner::with_runtime, (given,), other),
        call_ensures(detect_runtime, (docker_answers, podman_answers), r),
        call_ensures(OciRunner::new, (docker_answers, podman_answers), runner),
    ensures
        docker_answers ==> r@ == "docker"@,
        !docker_answers && podman_answers ==> r@ == "podman"@,
        !docker_answers && !podman_answers ==> r@ == "docker"@,
        runner.runtime@ == r@,
        other.runtime@ == given@,
{
}

/// A run that succeeds is counted in full: as CPU time always, as GPU time where the job
/// asks for any number of GPUs, and as no GPU time where it asks for none.
pub proof fn law_run_time_counted(
    runner: &OciRunner,
    job: &Job,
    outcome: &ContainerOutcome,
    r: Option<Result<RunResult, UcxError>>,
)
    requires
        call_ensures(OciRunner::run, (runner, job, outcome), r),
        outcome matches ContainerOutcome::Exited { success, .. } && *success,
    ensures
        r matches Some(Ok(run)) && {
            &&& run.cpu_seconds == outcome->elapsed
            &&& job.requirements.gpu_count matches Some(n) ==> (n >= 1 ==> run.gpu_seconds
                == outcome->elapsed)
            &&& job.requirements.gpu_count == Some(0u8) ==> run.gpu_seconds.bits == 0
            &&& job.requirements.gpu_count is None ==> run.gpu_seconds.bits == 0
        },
{
}

proof fn lemma_code_bytes(tail: Seq<u8>, n: i32)
    requires
        tail.len() == 4,
        ({
            let code = tail[0] + 256 * tail[1] + 65536 * tail[2] + 16777216 * tail[3];
            code == n || code == n + 4294967296
        }),
    ensures
        tail == little_endian(n),
{
    let u: int = if n < 0 {
        n + 4294967296
    } else {
        n as int
    };
    let (a, b, c, d) = (tail[0] as int, tail[1] as int, tail[2] as int, tail[3] as int);
    assert(u == a + 256 * (b + 256 * (c + 256 * d)));
    let high = c + 256 * d;
    let upper = b + 256 * high;
    assert(u / 256 == upper && u % 256 == a);
    assert(upper / 256 == high && upper % 256 == b);
    assert(high / 256 == d && high % 256 == c);
    assert(u / 65536 == high);
    assert(u / 16777216 == d);
    assert(little_endian(n)[0] == a && little_endian(n)[1] == b);
    assert(little_endian(n)[2] == c && little_endian(n)[3] == d);
    assert(tail =~= little_endian(n));
}

/// A run that succeeds is hashed: its standard output where there is any, and all that
/// it wrote with the four bytes of its exit code, the low one first.
pub proof fn law_run_hashed(
    runner: &OciRunner,
    job: &Job,
    outcome: &ContainerOutcome,
    r: Option<Result<RunResult, UcxError>>,
    data: &[u8],
    output: &[u8],
    digest: String,
    output_digest: String,
)
    requires
        call_ensures(OciRunner::run, (runner, job, outcome), r),
        outcome matches ContainerOutcome::Exited { success, .. } && *success,
        data@.len() == outcome->stdout@.len() + outcome->Exited_stderr@.len() + 4,
        data@.take(outcome->stdout@.len() as int) == outcome->stdout@,
        data@.subrange(
            outcome->stdout@.len() as int,
            (outcome->stdout@.len() + outcome->Exited_stderr@.len()) as int,
        ) == outcome->Exited_stderr@,
        ({
            let n = data@.len() as int;
            let code = data@[n - 4] + 256 * data@[n - 3] + 65536 * data@[n - 2] + 16777216
                * data@[n - 1];
            match outcome->code {
                Some(c) => code == c || code == c + 4294967296,
                None => code == 0,
            }
        }),
        call_ensures(sha256_hex, (data,), digest),
        output@ == outcome->stdout@,
        call_ensures(sha256_hex, (output,), output_digest),
    ensures
        r matches Some(Ok(run)) && {
            &&& run.execution_hash matches Some(h) && h@ == digest@
            &&& outcome->stdout@.len() == 0 ==> run.artifact_hash is None
            &&& outcome->stdout@.len() > 0 ==> (run.artifact_hash matches Some(h) && h@
                == output_digest@)
        },
{
    let (stdout, stderr) = (outcome->stdout@, outcome->Exited_stderr@);
    let n = data@.len() as int;
    let low = data@.take(stdout.len() as int);
    let mid = data@.subrange(stdout.len() as int, (stdout.len() + stderr.len()) as int);
    let tail = data@.skip(n - 4);
    lemma_code_bytes(
        tail,
        match outcome->code {
            Some(c) => c,
            None => 0,
        },
    );
    assert(data@ =~= low + mid + tail);
    assert(data@ == execution_bytes(stdout, stderr, outcome->code));
}

/// A container that could not be started failed with the given reason.
pub proof fn law_run_not_started(
    runner: &OciRunner,
    job: &Job,
    reason: String,
    r: Option<Result<RunResult, UcxError>>,
)
    requires
        call_ensures(OciRunner::run, (runner, job, &ContainerOutcome::NotStarted { reason }), r),
    ensures
        r matches Some(Err(UcxError::ExecutionFailed { reason: told })) && told@ == reason@,
{
}

/// A container that exits without success fails as its status and its standard error
/// say, and its run leaves no result.
pub proof fn law_run_failed(
    runner: &OciRunner,
    job: &Job,
    outcome: &ContainerOutcome,
    r: Option<Result<RunResult, UcxError>>,
    status: &str,
    stderr: &str,
    failure: Option<UcxError>,
)
    requires
        call_ensures(OciRunner::run, (runner, job, outcome), r),
        outcome matches ContainerOutcome::Exited { success, .. } && !*success,
        stderr@ == lossy_text(outcome->Exited_stderr@),
        status@ == outcome->status@,
        call_ensures(container_failure, (status, stderr), failure),
    ensures
        match failure {
            Some(e) => r matches Some(Err(told)) && told@ == e@,
            None => r is None,
        },
{
}

proof fn lemma_char_width(c: char)
    ensures
        encode_utf8(seq![c]).len() == byte_width(c),
        encode_utf8(seq![c]) == encode_scalar(c as u32),
{
    reveal_with_fuel(encode_utf8, 2);
    assert(seq![c].drop_first() =~= Seq::<char>::empty());
    assert(encode_utf8(seq![c]) =~= encode_scalar(c as u32));
}

pub proof fn lemma_text_within(s: Seq<char>, n: nat)
    ensures
        match text_within(s, n) {
            Some(t) => {
                &&& t == s.take(t.len() as int)
                &&& t.len() <= s.len()
                &&& encode_utf8(t).len() == n || (t == s && encode_utf8(s).len() <= n)
            },
            None => encode_utf8(s).len() > n && forall|k: int|
                0 <= k <= s.len() ==> encode_utf8(#[trigger] s.take(k)).len() != n,
        },
    decreases s.len(),
{
    reveal_with_fuel(encode_utf8, 1);
    if s.len() == 0 {
        assert(s.take(0) =~= s);
    } else {
        lemma_char_width(s[0]);
        let rest = s.drop_first();
        if byte_width(s[0]) <= n {
            lemma_text_within(rest, (n - byte_width(s[0])) as nat);
            match text_within(s, n) {
                Some(t) => {
                    let u = text_within(rest, (n - byte_width(s[0])) as nat)->0;
                    if n > 0 {
                        assert(t.drop_first() =~= u);
                        assert(t =~= s.take(t.len() as int));
                        if u == rest {
                            assert(t =~= s);
                        }
                    }
                },
                None => {
                    assert forall|k: int| 0 <= k <= s.len() implies encode_utf8(
                        #[trigger] s.take(k),
                    ).len() != n by {
                        if k > 0 {
                            assert(s.take(k).drop_first() =~= rest.take(k - 1));
                        }
                    }
                },
            }
        } else if n == 0 {
            assert(s.take(0) =~= Seq::<char>::empty());
        } else {
            assert forall|k: int| 0 <= k <= s.len() implies encode_utf8(
                #[trigger] s.take(k),
            ).len() != n by {
                if k > 0 {
                    assert(s.take(k)[0] == s[0]);
                }
            }
        }
    }
}

/// A failure is told by the container's status and an excerpt of its standard error: all
/// of it where that has no more than two hundred bytes, and else the beginning that has
/// exactly two hundred. There is none only where two hundred bytes cut a character.
pub proof fn law_failure_excerpt(status: &str, stderr: &str, r: Option<UcxError>)
    requires
        call_ensures(container_failure, (status, stderr), r),
    ensures
        match r {
            Some(e) => exists|excerpt: Seq<char>|
                {
                    &&& (e matches UcxError::ExecutionFailed { reason } && reason@
                        == "container exited "@ + status@ + ": "@ + excerpt)
                    &&& #[trigger] excerpt.len() <= stderr@.len()
                    &&& excerpt == stderr@.take(excerpt.len() as int)
                    &&& encode_utf8(excerpt).len() == 200 || (excerpt == stderr@ && encode_utf8(
                        stderr@,
                    ).len() <= 200)
                },
            None => encode_utf8(stderr@).len() > 200 && forall|k: int|
                0 <= k <= stderr@.len() ==> encode_utf8(#[trigger] stderr@.take(k)).len() != 200,
        },
{
    lemma_text_within(stderr@, 200);
    if let Some(e) = r {
        let excerpt = text_within(stderr@, 200)->0;
        assert(excerpt.len() <= stderr@.len());
    }
}

/// The container runtime is told to run a container of the job's own name, with the
/// memory and the CPUs that the job asks for, with the working directory mounted, and
/// with the job's image. Where the job asks for GPUs, and only there, two words more give
/// it the machine's GPUs, as the runtime words it.
pub proof fn law_container_command(
    runner: &OciRunner,
    job: &Job,
    workdir: &str,
    image: &str,
    r: Vec<String>,
)
    requires
        call_ensures(OciRunner::command_arguments, (runner, job, workdir), r),
        call_ensures(crate::job::image_in, (&job.runtime_spec,), image),
    ensures
        ({
            let words = r.deep_view();
            let gpus: int = if job.requirements.gpu_count matches Some(n) && n >= 1 {
                2
            } else {
                0
            };
            &&& words.len() >= 13 + gpus
            &&& words[0] == "run"@ && words[1] == "--rm"@
            &&& words[2] == "--name"@ && words[3] == "ucx-job-"@ + hyphenated(job.id)
            &&& words[4] == "--memory"@
            &&& job.requirements.ram_gb is None ==> words[5] == decimal(512) + "m"@
            &&& words[6] == "--cpus"@
            &&& words[7] == (match job.requirements.cpu_cores {
                Some(n) => decimal(n as nat),
                None => decimal(1),
            })
            &&& gpus == 2 && runner.runtime@ == "docker"@ ==> words[8] == "--gpus"@ && words[9]
                == "all"@
            &&& gpus == 2 && runner.runtime@ != "docker"@ ==> words[8] == "--device"@ && words[9]
                == "nvidia.com/gpu=all"@
            &&& words[8 + gpus] == "-v"@ && words[9 + gpus] == workdir@ + ":/workspace"@
            &&& words[10 + gpus] == "-w"@ && words[11 + gpus] == "/workspace"@
            &&& words[12 + gpus] == image@
        }),
{
}

/// What a job hands to its image ends the command: every text among its `args`, in
/// order, and nothing else.
pub proof fn law_job_arguments(
    runner: &OciRunner,
    job: &Job,
    longer: &Job,
    workdir: &str,
    items: Seq<JsonView>,
    item: JsonView,
    r: Vec<String>,
    s: Vec<String>,
)
    requires
        call_ensures(OciRunner::command_arguments, (runner, job, workdir), r),
        call_ensures(OciRunner::command_arguments, (runner, longer, workdir), s),
        longer.id == job.id,
        longer.requirements == job.requirements,
        longer.runtime_spec@.at("image"@) == job.runtime_spec@.at("image"@),
        longer.runtime_spec@.at("args"@) == JsonView::Array(items.push(item)),
        job.runtime_spec@.at("args"@) == JsonView::Array(items) || (items.len() == 0
            && job.runtime_spec@.at("args"@) !is Array),
    ensures
        match item {
            JsonView::Str(word) => s.deep_view() == r.deep_view().push(word),
            _ => s.deep_view() == r.deep_view(),
        },
{
    assert(items.push(item).drop_last() =~= items);
    assert(items.push(item).last() == item);
    reveal_with_fuel(texts_among, 2);
    let more = job_arguments(longer.runtime_spec@);
    let fewer = job_arguments(job.runtime_spec@);
    match item {
        JsonView::Str(word) => {
            assert(more =~= fewer.push(word));
            assert(s.deep_view() =~= r.deep_view().push(word));
        },
        _ => {
            assert(more =~= fewer);
        },
    }
}

/// A job without `args` hands nothing to its image: the image ends the command.
pub proof fn law_no_job_arguments(runner: &OciRunner, job: &Job, workdir: &str, r: Vec<String>)
    requires
        call_ensures(OciRunner::command_arguments, (runner, job, workdir), r),
        job.runtime_spec@.at("args"@) !is Array,
    ensures
        r@.len() == (if job.requirements.gpu_count matches Some(n) && n >= 1 {
            15int
        } else {
            13int
        }),
{
    assert(r.deep_view().len() == r@.len());
}

/// A working directory is named after its job; jobs do not share one.
pub proof fn law_workdir_named(
    runner: &OciRunner,
    job: &Job,
    other: &Job,
    r: String,
    s: String,
)
    requires
        call_ensures(OciRunner::workdir_name, (runner, job), r),
        call_ensures(OciRunner::workdir_name, (runner, other), s),
    ensures
        r@ == "ucx-"@ + hyphenated(job.id),
        r@ == s@ ==> job.id == other.id,
{
    if job.id != other.id {
        law_jobs_kept_apart(job.id, other.id);
    }
}

/// The memory that a container gets is what the job asks for in gigabytes, as megabytes
/// of which there are 1024 to a gigabyte, cut to a whole number; exactly so for a whole
/// number of gigabytes.
pub proof fn law_container_memory(
    runner: &OciRunner,
    job: &Job,
    workdir: &str,
    whole: nat,
    r: Vec<String>,
)
    requires
        call_ensures(OciRunner::command_arguments, (runner, job, workdir), r),
        job.requirements.ram_gb is Some,
    ensures
        ({
            let x = job.requirements.ram_gb->0;
            let word = r.deep_view()[5];
            &&& x.bits > 0x7ff0_0000_0000_0000 ==> word == decimal(0) + "m"@
            &&& x.bits == 0x7ff0_0000_0000_0000 ==> word == decimal(u64::MAX as nat) + "m"@
            &&& x.bits < 0x7ff0_0000_0000_0000 ==> exists|n: nat|
                word == #[trigger] decimal(n) + "m"@ && is_cut(
                    x.mantissa(),
                    x.exponent() + 10,
                    u64::MAX as nat,
                    n,
                )
            &&& stands_for(x, whole) && 1024 * whole <= u64::MAX ==> word == decimal(1024 * whole)
                + "m"@
        }),
{
    let x = job.requirements.ram_gb->0;
    lemma_cut(x.mantissa(), x.exponent() + 10, u64::MAX as nat);
    if stands_for(x, whole) && 1024 * whole <= u64::MAX {
        lemma_whole_truncated(x, whole, u64::MAX as nat);
    }
    let n = x.truncated(10, u64::MAX as nat);
    assert(r.deep_view()[5] == decimal(n) + "m"@);
}

} // verus!
