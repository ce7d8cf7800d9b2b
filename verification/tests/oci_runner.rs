use sha2::Digest;
use ucx::float64::F64;
use ucx::job::{Job, JobStatus, UcxError, WorkloadRequirements, WorkloadType};
use ucx::job::{parse_constraints, parse_requirements, parse_workload};
use ucx::json::{text, Fields, Json};
use ucx::oci_runner::{container_failure, detect_runtime, ContainerOutcome, OciRunner};

fn f(x: f64) -> F64 {
    F64 { bits: x.to_bits() }
}

fn job(requirements: WorkloadRequirements, runtime_spec: Json) -> Job {
    Job {
        id: 0x0123_4567_89ab_cdef_0123_4567_89ab_cdef,
        submitter_id: "me".to_string(),
        workload: WorkloadType::Generic,
        requirements,
        constraints: parse_constraints(None),
        runtime_spec,
    }
}

fn exited(success: bool, code: Option<i32>, stdout: &[u8], stderr: &[u8]) -> ContainerOutcome {
    ContainerOutcome::Exited {
        success,
        status: "exit status: 3".to_string(),
        code,
        stdout: stdout.to_vec(),
        stderr: stderr.to_vec(),
        elapsed: f(2.5),
    }
}

#[test]
fn runtime_is_the_first_that_answers() {
    assert_eq!(detect_runtime(true, true), "docker");
    assert_eq!(detect_runtime(true, false), "docker");
    assert_eq!(detect_runtime(false, true), "podman");
    assert_eq!(detect_runtime(false, false), "docker");
    assert_eq!(OciRunner::new(false, true).runtime, "podman");
    assert_eq!(OciRunner::with_runtime("nerdctl".to_string()).runtime, "nerdctl");
}

#[test]
fn default_command_line() {
    let runner = OciRunner::with_runtime("docker".to_string());
    let j = job(parse_requirements(None), Fields::new().object());
    assert_eq!(runner.workdir_name(&j), "ucx-01234567-89ab-cdef-0123-456789abcdef");
    assert_eq!(
        runner.command_arguments(&j, "/tmp/work"),
        vec![
            "run",
            "--rm",
            "--name",
            "ucx-job-01234567-89ab-cdef-0123-456789abcdef",
            "--memory",
            "512m",
            "--cpus",
            "1",
            "-v",
            "/tmp/work:/workspace",
            "-w",
            "/workspace",
            "ubuntu:22.04",
        ]
    );
}

#[test]
fn full_command_line() {
    let wanted = Fields::new()
        .with("ram_gb", Json::Float(f(1.5)))
        .with("cpu_cores", Json::UInt(8))
        .with("gpu_count", Json::UInt(2))
        .object();
    let spec = || {
        Fields::new()
            .with("image", text("pytorch:2"))
            .with("args", Json::Array(vec![text("train"), Json::UInt(3), text("--fast")]))
            .object()
    };
    let docker = OciRunner::with_runtime("docker".to_string());
    let args = docker.command_arguments(&job(parse_requirements(Some(&wanted)), spec()), "w");
    assert_eq!(
        args[4..].to_vec(),
        vec![
            "--memory", "1536m", "--cpus", "8", "--gpus", "all", "-v", "w:/workspace", "-w",
            "/workspace", "pytorch:2", "train", "--fast",
        ]
    );
    let podman = OciRunner::with_runtime("podman".to_string());
    let args = podman.command_arguments(&job(parse_requirements(Some(&wanted)), spec()), "w");
    assert_eq!(args[8..10].to_vec(), vec!["--device", "nvidia.com/gpu=all"]);
}

#[test]
fn odd_memory_sizes() {
    let runner = OciRunner::with_runtime("docker".to_string());
    for (x, shown) in [
        (0.0001, "0m"),
        (-1.0, "0m"),
        (f64::NAN, "0m"),
        (16.0, "16384m"),
        (f64::INFINITY, "18446744073709551615m"),
        (1e300, "18446744073709551615m"),
    ] {
        let mut wanted = parse_requirements(None);
        wanted.ram_gb = Some(f(x));
        let args = runner.command_arguments(&job(wanted, Json::Null), "w");
        assert_eq!(args[5], shown);
    }
}

#[test]
fn arguments_that_are_no_list_are_ignored() {
    let runner = OciRunner::with_runtime("docker".to_string());
    let spec = Fields::new().with("args", text("rm -rf")).with("image", Json::UInt(1)).object();
    let args = runner.command_arguments(&job(parse_requirements(None), spec), "w");
    assert_eq!(args.last().map(|s| s.as_str()), Some("ubuntu:22.04"));
    assert_eq!(args.len(), 13);
}

#[test]
fn finished_run() {
    let runner = OciRunner::with_runtime("docker".to_string());
    let mut wanted = parse_requirements(None);
    wanted.gpu_count = Some(1);
    let run = runner
        .run(&job(wanted, Json::Null), &exited(true, Some(-2), b"out", b"err"))
        .unwrap()
        .unwrap();
    assert_eq!(run.artifact_hash, Some(hex::encode(sha2::Sha256::digest(b"out"))));
    let mut bytes = b"outerr".to_vec();
    bytes.extend_from_slice(&(-2i32).to_le_bytes());
    assert_eq!(run.execution_hash, Some(hex::encode(sha2::Sha256::digest(&bytes))));
    assert_eq!(run.gpu_seconds.bits, 2.5f64.to_bits());
    assert_eq!(run.cpu_seconds.bits, 2.5f64.to_bits());
}

#[test]
fn exit_codes_in_the_execution_hash() {
    let runner = OciRunner::with_runtime("docker".to_string());
    let j = job(parse_requirements(None), Json::Null);
    for code in [None, Some(0), Some(1), Some(0x01020304), Some(i32::MIN), Some(i32::MAX)] {
        let run = runner.run(&j, &exited(true, code, b"", b"")).unwrap().unwrap();
        let bytes = code.unwrap_or(0).to_le_bytes();
        assert_eq!(run.execution_hash, Some(hex::encode(sha2::Sha256::digest(bytes))));
        assert_eq!(run.artifact_hash, None);
        assert_eq!(run.gpu_seconds.bits, 0);
        assert_eq!(run.cpu_seconds.bits, 2.5f64.to_bits());
    }
}

fn reason(e: UcxError) -> String {
    match e {
        UcxError::ExecutionFailed { reason } => reason,
        other => panic!("{other:?}"),
    }
}

#[test]
fn failed_run() {
    let runner = OciRunner::with_runtime("docker".to_string());
    let j = job(parse_requirements(None), Json::Null);
    let e = runner.run(&j, &exited(false, Some(3), b"ignored", b"no such image")).unwrap();
    assert_eq!(reason(e.unwrap_err()), "container exited exit status: 3: no such image");
    let long = "x".repeat(500);
    let e = runner.run(&j, &exited(false, None, b"", long.as_bytes())).unwrap();
    assert_eq!(
        reason(e.unwrap_err()),
        format!("container exited exit status: 3: {}", "x".repeat(200))
    );
    let e = runner.run(&j, &exited(false, None, b"", b"bad \xff byte")).unwrap();
    assert_eq!(
        reason(e.unwrap_err()),
        "container exited exit status: 3: bad \u{fffd} byte"
    );
    let e = runner
        .run(&j, &ContainerOutcome::NotStarted { reason: "not found".to_string() })
        .unwrap();
    assert_eq!(reason(e.unwrap_err()), "not found");
}

#[test]
fn failure_that_would_cut_a_character() {
    let runner = OciRunner::with_runtime("docker".to_string());
    let j = job(parse_requirements(None), Json::Null);
    let text = format!("{}é", "x".repeat(199));
    assert!(runner.run(&j, &exited(false, None, b"", text.as_bytes())).is_none());
    assert!(container_failure("s", &text).is_none());
    let text = format!("{}é", "x".repeat(198));
    assert!(runner.run(&j, &exited(false, None, b"", text.as_bytes())).is_some());
    assert!(runner.run(&j, &exited(true, None, b"", text.as_bytes())).is_some());
}

#[test]
fn jobs_are_kept_apart() {
    let runner = OciRunner::with_runtime("docker".to_string());
    let a = job(parse_requirements(None), Json::Null);
    let mut b = job(parse_requirements(None), Json::Null);
    b.id = a.id + 1;
    assert_ne!(runner.workdir_name(&a), runner.workdir_name(&b));
    assert_ne!(runner.command_arguments(&a, "w")[3], runner.command_arguments(&b, "w")[3]);
}

#[test]
fn requirements_are_read() {
    let v = Fields::new()
        .with("vram_gb", Json::UInt(24))
        .with("ram_gb", Json::Float(f(1.5)))
        .with("cpu_cores", Json::UInt(0x1_0000_0003))
        .with("gpu_count", Json::UInt(0x102))
        .with("fp16", Json::Bool(true))
        .with("bf16", text("true"))
        .with("min_tier", text("Professional"))
        .object();
    let r = parse_requirements(Some(&v));
    assert_eq!(r.vram_gb.map(|x| x.bits), Some(24.0f64.to_bits()));
    assert_eq!(r.ram_gb.map(|x| x.bits), Some(1.5f64.to_bits()));
    assert_eq!(r.cpu_cores, Some(3));
    assert_eq!(r.gpu_count, Some(2));
    assert!(r.fp16 && !r.bf16 && !r.cuda);
    assert!(r.min_tier.is_none());
    let none = parse_requirements(Some(&text("x")));
    assert!(none.vram_gb.is_none() && none.cpu_cores.is_none() && !none.fp16);
}

#[test]
fn constraints_are_read() {
    let v = Fields::new()
        .with("max_price_cents", Json::UInt(500))
        .with("max_queue_secs", Json::NegInt(-1))
        .with("allow_external", Json::Bool(false))
        .object();
    let c = parse_constraints(Some(&v));
    assert_eq!(c.max_price_cents, Some(500));
    assert_eq!(c.max_queue_secs, None);
    assert!(!c.allow_external);
    assert!(c.regions.is_empty());
    assert!(parse_constraints(None).allow_external);
}

#[test]
fn names_of_workloads_and_states() {
    for w in [
        WorkloadType::Inference,
        WorkloadType::Training,
        WorkloadType::Rendering,
        WorkloadType::Simulation,
        WorkloadType::CiCd,
        WorkloadType::Generic,
    ] {
        assert_eq!(w.name(), format!("{w:?}"));
        assert!(parse_workload(w.name()) == w);
    }
    assert!(parse_workload("training") == WorkloadType::Generic);
    assert!(parse_workload("") == WorkloadType::Generic);
    for s in [
        JobStatus::Pending,
        JobStatus::Running,
        JobStatus::Completed,
        JobStatus::Failed,
        JobStatus::Cancelled,
    ] {
        assert_eq!(s.name(), format!("{s:?}"));
    }
}
