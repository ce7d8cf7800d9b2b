use ucx::clock::Timestamp;
use ucx::float64::F64;
use ucx::http::{Document, HttpRequest, Method, Outcome};
use ucx::job::{parse_constraints, parse_requirements, Job, JobStatus, UcxError, WorkloadType};
use ucx::json::{text, Fields, Json};
use ucx::receipt::BillingCurrency;
use ucx::runpod_pod::{RunPodPodAdapter, STATUS_QUERY, TERMINATE_QUERY};
use ucx::runpod_serverless::{serverless_receipt, RunPodServerlessAdapter};

fn replied_as(status: u16, json: Json, shown: &str, errors: &str) -> Outcome {
    Outcome::Replied {
        status,
        body: Some(Document {
            json,
            text: shown.to_string(),
            errors_text: errors.to_string(),
        }),
    }
}

fn replied(json: Json) -> Outcome {
    replied_as(200, json, "", "")
}

fn failed() -> Outcome {
    Outcome::Failed { reason: "no route".to_string() }
}

fn job(id: u128, workload: WorkloadType, runtime_spec: Json) -> Job {
    Job {
        id,
        submitter_id: "me".to_string(),
        workload,
        requirements: parse_requirements(None),
        constraints: parse_constraints(None),
        runtime_spec,
    }
}

fn body(request: &HttpRequest) -> &Json {
    request.body.as_ref().unwrap()
}

fn at(secs: i64) -> Timestamp {
    Timestamp::at(secs, 0).unwrap()
}

fn adapter_reason(e: UcxError, name: &str) -> String {
    match e {
        UcxError::Adapter { adapter, reason } => {
            assert_eq!(adapter, name);
            reason
        }
        other => panic!("{other:?}"),
    }
}

fn is_not_found(e: UcxError) -> bool {
    match e {
        UcxError::JobNotFound { job_id } => job_id == "00000000-0000-0000-0000-000000000009",
        _ => false,
    }
}

fn with_id(id: &str) -> Json {
    Fields::new().with("id", text(id)).object()
}

// ---- serverless -------------------------------------------------------------

fn serverless() -> RunPodServerlessAdapter {
    RunPodServerlessAdapter::new("key".to_string(), "ep".to_string())
}

#[test]
fn serverless_from_configuration() {
    assert!(RunPodServerlessAdapter::from_env(None, Some("ep")).is_none());
    assert!(RunPodServerlessAdapter::from_env(Some(""), Some("ep")).is_none());
    let a = RunPodServerlessAdapter::from_env(Some("key"), None).unwrap();
    assert_eq!(a.run_url(), "https://api.runpod.io/v2/default/run");
    assert_eq!(a.capability().provider_id, "runpod-serverless-default");
    let a = RunPodServerlessAdapter::from_env(Some("key"), Some("ep")).unwrap();
    assert_eq!(a.status_url("r1"), "https://api.runpod.io/v2/ep/status/r1");
    assert_eq!(a.id(), "runpod-serverless");
    assert_eq!(a.network_name(), "runpod");
}

#[test]
fn serverless_capability() {
    let a = serverless();
    let c = a.capability();
    assert_eq!(c.price_gpu_hour_cents, Some(20));
    assert_eq!(c.price_cpu_hour_cents, 2);
    assert_eq!(c.regions, vec!["US", "EU"]);
    assert_eq!(c.ram_gb.bits, 256.0f64.to_bits());
    assert_eq!(c.disk_gb.bits, 0.0f64.to_bits());
    assert_eq!(c.cpu.cores, 16);
    let gpu = c.gpu.as_ref().unwrap();
    assert_eq!(gpu.model, "A100/H100 (serverless pool)");
    assert_eq!(gpu.vram_gb.bits, 80.0f64.to_bits());
    assert!(gpu.fp16 && gpu.bf16 && gpu.cuda && !gpu.rocm);
}

#[test]
fn serverless_accepts_long_work_that_may_leave() {
    let a = serverless();
    assert!(a.can_accept(&job(1, WorkloadType::Training, Json::Null)));
    assert!(a.can_accept(&job(1, WorkloadType::Simulation, Json::Null)));
    assert!(!a.can_accept(&job(1, WorkloadType::Inference, Json::Null)));
    assert!(!a.can_accept(&job(1, WorkloadType::Generic, Json::Null)));
    let mut house = job(1, WorkloadType::Training, Json::Null);
    house.constraints.allow_external = false;
    assert!(!a.can_accept(&house));
}

#[test]
fn serverless_job_is_handed_in() {
    let a = serverless();
    let j = job(9, WorkloadType::Training, Fields::new().with("image", text("x")).object());
    let r = a.submit_request(&j).unwrap();
    assert!(r.method == Method::Post);
    assert_eq!(r.url, "https://api.runpod.io/v2/ep/run");
    assert_eq!(r.authorization, Some("Bearer key".to_string()));
    assert_eq!(r.timeout_secs, None);
    let input = body(&r).get("input").unwrap();
    assert_eq!(input.str_at("job_id"), Some("00000000-0000-0000-0000-000000000009"));
    assert_eq!(input.str_at("workload"), Some("Training"));
    assert_eq!(input.get("spec").unwrap().str_at("image"), Some("x"));
}

#[test]
fn serverless_submission_errors() {
    let mut a = serverless();
    let j = job(9, WorkloadType::Training, Json::Null);
    let e = a.submit(&j, &failed()).unwrap_err();
    assert_eq!(adapter_reason(e, "runpod"), "no route");
    let e = a.submit(&j, &replied_as(503, with_id("r1"), "{}", "")).unwrap_err();
    assert_eq!(adapter_reason(e, "runpod"), "POST /run 503 Service Unavailable: {}");
    let e = a.submit(&j, &Outcome::Replied { status: 500, body: None }).unwrap_err();
    assert_eq!(adapter_reason(e, "runpod"), "POST /run 500 Internal Server Error: null");
    let e = a.submit(&j, &replied(Json::Null)).unwrap_err();
    assert_eq!(adapter_reason(e, "runpod"), "missing run id in RunPod response");
    assert!(is_not_found(a.status_request(9).unwrap_err()));
}

#[test]
fn serverless_unknown_job() {
    let mut a = serverless();
    assert!(is_not_found(a.status_request(9).unwrap_err()));
    assert!(is_not_found(a.cancel_request(9).unwrap_err()));
    assert!(is_not_found(a.status(9, &replied(Json::Null)).unwrap_err()));
    assert!(is_not_found(a.cancel(9, &replied(Json::Null)).unwrap_err()));
    assert!(is_not_found(a.receipt(9, &replied(Json::Null)).unwrap_err()));
}

fn fares(word: &str) -> Outcome {
    replied(Fields::new().with("status", text(word)).object())
}

#[test]
fn serverless_course_of_a_job() {
    let mut a = serverless();
    let j = job(9, WorkloadType::Training, Json::Null);
    let alloc = a.submit_at(&j, &replied(with_id("r1")), at(5), at(6)).unwrap();
    assert_eq!(alloc.job_id, 9);
    assert_eq!(alloc.provider_id, "runpod-serverless");
    assert_eq!(alloc.offer.eta_secs, 120);
    assert_eq!(alloc.offer.price_cents, 0);
    assert!(alloc.offer.is_external);
    assert_eq!(alloc.offer.expires_at.seconds(), 5);
    assert_eq!(alloc.allocated_at.seconds(), 6);
    assert!(alloc.status == JobStatus::Pending);

    let r = a.status_request(9).unwrap();
    assert!(r.method == Method::Get);
    assert_eq!(r.url, "https://api.runpod.io/v2/ep/status/r1");
    assert!(r.body.is_none());
    for (word, status) in [
        ("IN_QUEUE", JobStatus::Running),
        ("IN_PROGRESS", JobStatus::Running),
        ("FAILED", JobStatus::Failed),
        ("CANCELLED", JobStatus::Cancelled),
        ("TIMED_OUT", JobStatus::Pending),
        ("COMPLETED", JobStatus::Completed),
    ] {
        assert!(a.status(9, &fares(word)).unwrap() == status, "{word}");
    }
    assert!(a.status(9, &replied(Json::Null)).unwrap() == JobStatus::Pending);
    assert!(a.status(9, &replied_as(500, Json::Null, "", "")).unwrap() == JobStatus::Pending);
    let e = a.status(9, &failed()).unwrap_err();
    assert_eq!(adapter_reason(e, "runpod"), "no route");

    let r = a.cancel_request(9).unwrap();
    assert!(r.method == Method::Post);
    assert_eq!(r.url, "https://api.runpod.io/v2/ep/cancel/r1");
    assert!(a.cancel(9, &failed()).is_err());
    assert!(a.cancel(9, &replied_as(404, Json::Null, "", "")).is_ok());
}

#[test]
fn serverless_output_is_kept() {
    let mut a = serverless();
    let j = job(9, WorkloadType::Training, Json::Null);
    a.submit(&j, &replied(with_id("r1"))).unwrap();
    let output = Fields::new()
        .with("executionTime", Json::UInt(3_600_000))
        .with("id", text("out-1"))
        .object();
    let done = Fields::new().with("status", text("COMPLETED")).with("output", output).object();
    let before = Timestamp::now();
    let first = a.receipt(9, &replied(done)).unwrap();
    assert!(!before.is_after(&first.completed_at));
    assert_eq!(first.billing.amount_cents, 200);
    let again = a.receipt(9, &fares("IN_PROGRESS")).unwrap();
    assert_eq!(again.billing.amount_cents, 200);
    assert_eq!(again.verification.artifact_hash, Some("out-1".to_string()));
    assert_eq!(first.job_id, 9);
    assert_eq!(again.job_id, 9);
    let free = a.translate_receipt(&Json::Null).unwrap();
    assert_eq!((free.job_id >> 76) & 15, 4);
    assert_eq!((free.job_id >> 62) & 3, 2);
}

#[test]
fn serverless_receipt_comes_upon_completion() {
    let mut a = serverless();
    let j = job(9, WorkloadType::Training, Json::Null);
    a.submit(&j, &replied(with_id("r1"))).unwrap();
    for word in ["IN_QUEUE", "IN_PROGRESS", "FAILED", "CANCELLED", "UNKNOWN"] {
        let e = a.receipt(9, &fares(word)).unwrap_err();
        assert_eq!(adapter_reason(e, "runpod"), "job is not completed", "{word}");
    }
    assert_eq!(adapter_reason(a.receipt(9, &failed()).unwrap_err(), "runpod"), "no route");
    let r = a.receipt_with(9, &fares("COMPLETED"), at(77)).unwrap();
    assert_eq!(r.job_id, 9);
    assert_eq!(r.completed_at.seconds(), 77);
    assert_eq!(r.billing.amount_cents, 0);
    let e = a.receipt(9, &fares("IN_PROGRESS")).unwrap_err();
    assert_eq!(adapter_reason(e, "runpod"), "job is not completed");
}

#[test]
fn serverless_receipt_of_an_output() {
    let raw = Fields::new()
        .with("executionTime", Json::UInt(90_250))
        .with("id", text("out-1"))
        .object();
    let r = serverless_receipt(&raw, 7, at(50));
    assert_eq!(r.job_id, 7);
    assert_eq!(r.completed_at.seconds(), 50);
    assert_eq!(r.provider_id, "runpod-serverless");
    assert_eq!(r.resources.gpu_seconds.bits, 90.25f64.to_bits());
    assert_eq!(r.resources.cpu_seconds.bits, (90.25f64 * 0.1).to_bits());
    assert_eq!(r.resources.ram_gb_seconds.bits, 0);
    assert_eq!(r.billing.amount_cents, 6);
    assert!(r.billing.currency == BillingCurrency::Usd);
    assert_eq!(r.billing.line_items.len(), 1);
    assert_eq!(r.billing.line_items[0].label, format!("{:.1}s GPU compute", 90.25f64));
    assert_eq!(r.billing.line_items[0].cents, 6);
    assert_eq!(r.verification.artifact_hash, Some("out-1".to_string()));
    assert_eq!(r.verification.runtime_attestation, Some("runpod-serverless".to_string()));
    assert!(r.verification.execution_hash.is_none());
    assert!(r.zangbeto_anchor.is_none() && r.gix1_canonical_id.is_none());
}

#[test]
fn serverless_charges() {
    for ms in [0u64, 1, 999, 1000, 18_000, 18_001, 123_456_789, 1 << 50, u64::MAX] {
        let raw = Fields::new().with("executionTime", Json::UInt(ms)).object();
        let r = serverless_receipt(&raw, 1, at(0));
        let secs = ms as f64 / 1000.0;
        assert_eq!(r.resources.gpu_seconds.bits, secs.to_bits(), "{ms}");
        assert_eq!(r.billing.amount_cents, (secs * 200.0 / 3600.0).ceil() as u64, "{ms}");
        assert_eq!(r.billing.line_items[0].label, format!("{secs:.1}s GPU compute"), "{ms}");
        assert_eq!(r.billing.amount_cents > 0, ms > 0);
    }
    let none = serverless_receipt(&Json::Null, 1, at(0));
    assert_eq!(none.billing.amount_cents, 0);
    assert_eq!(none.billing.line_items[0].label, "0.0s GPU compute");
    assert!(none.verification.artifact_hash.is_none());
    let a = serverless();
    assert_eq!(a.translate_receipt(&Json::Null).unwrap().billing.amount_cents, 0);
}

#[test]
fn serverless_availability() {
    let a = serverless();
    let r = a.availability_request();
    assert!(r.method == Method::Get);
    assert_eq!(r.url, "https://api.runpod.io/v2/ep/health");
    assert!(a.is_available(&Outcome::Replied { status: 200, body: None }));
    assert!(!a.is_available(&Outcome::Replied { status: 401, body: None }));
    assert!(!a.is_available(&failed()));
}

// ---- pods -------------------------------------------------------------------

fn pods() -> RunPodPodAdapter {
    RunPodPodAdapter::new("key".to_string(), "NVIDIA A100 SXM4 40GB".to_string())
}

fn data(json: Json) -> Outcome {
    replied(Fields::new().with("data", json).object())
}

fn ordered(pod_id: &str) -> Outcome {
    data(Fields::new().with("podFindAndDeployOnDemand", with_id(pod_id)).object())
}

#[test]
fn pods_from_configuration() {
    assert!(RunPodPodAdapter::from_env(None, None).is_none());
    assert!(RunPodPodAdapter::from_env(Some(""), None).is_none());
    let a = RunPodPodAdapter::from_env(Some("key"), None).unwrap();
    assert_eq!(a.capability().gpu.as_ref().unwrap().model, "NVIDIA A100 SXM4 80GB");
    assert_eq!(a.id(), "runpod-pod");
    assert_eq!(a.network_name(), "runpod");
}

#[test]
fn pod_capability() {
    for (model, vram) in [
        ("NVIDIA A100 SXM4 80GB", 80.0f64),
        ("NVIDIA H100", 80.0),
        ("NVIDIA A100 SXM4 40GB", 40.0),
        ("NVIDIA RTX 4090", 24.0),
    ] {
        let a = RunPodPodAdapter::new("key".to_string(), model.to_string());
        let gpu = a.capability().gpu.as_ref().unwrap();
        assert_eq!(gpu.model, model);
        assert_eq!(gpu.vram_gb.bits, vram.to_bits(), "{model}");
    }
    let a = pods();
    let c = a.capability();
    assert_eq!(c.provider_id, "runpod-pod");
    assert_eq!(c.price_gpu_hour_cents, Some(300));
    assert_eq!(c.price_cpu_hour_cents, 5);
    assert_eq!(c.regions, vec!["US", "EU", "CA"]);
    assert_eq!(c.ram_gb.bits, 128.0f64.to_bits());
    assert_eq!(c.disk_gb.bits, 50.0f64.to_bits());
}

#[test]
fn pods_accept_long_work_with_an_image() {
    let a = pods();
    let image = || Fields::new().with("image", Json::Null).object();
    assert!(a.can_accept(&job(1, WorkloadType::Training, image())));
    assert!(a.can_accept(&job(1, WorkloadType::Simulation, image())));
    assert!(!a.can_accept(&job(1, WorkloadType::Training, Json::Null)));
    assert!(!a.can_accept(&job(1, WorkloadType::Rendering, image())));
    let mut house = job(1, WorkloadType::Training, image());
    house.constraints.allow_external = false;
    assert!(!a.can_accept(&house));
}

#[test]
fn pod_is_ordered() {
    let a = pods();
    let mut j = job(9, WorkloadType::Training, Fields::new().with("image", text("x:1")).object());
    let r = a.submit_request(&j).unwrap();
    assert!(r.method == Method::Post);
    assert_eq!(r.url, "https://api.runpod.io/graphql");
    assert_eq!(r.authorization, Some("Bearer key".to_string()));
    assert!(body(&r).str_at("query").unwrap().contains("podFindAndDeployOnDemand(input: $input)"));
    let input = body(&r).get("variables").unwrap().get("input").unwrap();
    assert_eq!(input.str_at("gpuTypeId"), Some("NVIDIA A100 SXM4 40GB"));
    assert_eq!(input.str_at("imageName"), Some("x:1"));
    assert_eq!(input.u64_at("gpuCount"), Some(1));
    assert_eq!(input.u64_at("containerDiskInGb"), Some(50));
    assert_eq!(input.u64_at("volumeInGb"), Some(0));
    assert_eq!(input.u64_at("minMemoryInGb"), Some(16));
    assert_eq!(input.u64_at("minVcpuCount"), Some(4));
    assert_eq!(input.str_at("cloudType"), Some("SECURE"));
    j.requirements.gpu_count = Some(3);
    for x in [31.9, -2.0, f64::NAN, 1e12] {
        j.requirements.ram_gb = Some(F64 { bits: x.to_bits() });
        let order = a.translate_job(&j).unwrap();
        let input = order.get("variables").unwrap().get("input").unwrap();
        assert_eq!(input.u64_at("minMemoryInGb"), Some((x as u32) as u64), "{x}");
        assert_eq!(input.u64_at("gpuCount"), Some(3));
    }
    j.runtime_spec = Json::Null;
    let order = a.translate_job(&j).unwrap();
    let input = order.get("variables").unwrap().get("input").unwrap();
    assert_eq!(input.str_at("imageName"), Some("ubuntu:22.04"));
}

#[test]
fn pod_order_errors() {
    let mut a = pods();
    let j = job(9, WorkloadType::Training, Json::Null);
    assert_eq!(adapter_reason(a.submit(&j, &failed()).unwrap_err(), "runpod-pod"), "no route");
    let errors = Fields::new().with("errors", Json::Null).with("data", Json::Null).object();
    let e = a.submit(&j, &replied_as(200, errors, "", "[\"none left\"]")).unwrap_err();
    assert_eq!(adapter_reason(e, "runpod-pod"), "GraphQL errors: [\"none left\"]");
    let e = a.submit(&j, &data(Json::Null)).unwrap_err();
    assert_eq!(adapter_reason(e, "runpod-pod"), "missing pod id in RunPod response");
    let e = a.submit(&j, &Outcome::Replied { status: 500, body: None }).unwrap_err();
    assert_eq!(adapter_reason(e, "runpod-pod"), "missing pod id in RunPod response");
    assert!(is_not_found(a.status_request(9).unwrap_err()));
}

#[test]
fn pod_unknown_job() {
    let mut a = pods();
    assert!(is_not_found(a.status_request(9).unwrap_err()));
    assert!(is_not_found(a.cancel_request(9).unwrap_err()));
    assert!(is_not_found(a.status(9, &data(Json::Null)).unwrap_err()));
    assert!(is_not_found(a.cancel(9, &data(Json::Null)).unwrap_err()));
    assert!(is_not_found(a.begin_receipt(9).unwrap_err()));
    let e = a.translate_receipt(&Json::Null).unwrap_err();
    assert_eq!(adapter_reason(e, "runpod-pod"), "use receipt()");
}

#[test]
fn pod_course_of_a_job() {
    let mut a = pods();
    let j = job(9, WorkloadType::Training, Fields::new().with("image", text("x:1")).object());
    let alloc = a.submit_at(&j, &ordered("p1"), at(100), at(101), at(102)).unwrap();
    assert_eq!(alloc.provider_id, "runpod-pod");
    assert_eq!(alloc.offer.eta_secs, 300);
    assert_eq!(alloc.offer.expires_at.seconds(), 101);
    assert_eq!(alloc.allocated_at.seconds(), 102);

    let r = a.status_request(9).unwrap();
    assert_eq!(body(&r).str_at("query"), Some(STATUS_QUERY));
    assert_eq!(body(&r).get("variables").unwrap().str_at("podId"), Some("p1"));
    for (word, status) in [
        ("RUNNING", JobStatus::Running),
        ("EXITED", JobStatus::Completed),
        ("TERMINATED", JobStatus::Cancelled),
        ("CREATED", JobStatus::Pending),
    ] {
        let pod = Fields::new().with("desiredStatus", text(word)).object();
        let reply = data(Fields::new().with("pod", pod).object());
        assert!(a.status(9, &reply).unwrap() == status, "{word}");
    }
    assert!(a.status(9, &data(Json::Null)).unwrap() == JobStatus::Pending);

    let r = a.cancel_request(9).unwrap();
    assert_eq!(body(&r).str_at("query"), Some(TERMINATE_QUERY));
    let input = body(&r).get("variables").unwrap().get("input").unwrap();
    assert_eq!(input.str_at("podId"), Some("p1"));
    assert!(a.cancel(9, &failed()).is_err());
    let errors = Fields::new().with("errors", Json::Array(vec![])).object();
    assert!(a.cancel(9, &replied(errors)).is_err());
    assert!(a.cancel(9, &data(Json::Null)).is_ok());
}

#[test]
fn pod_receipt() {
    let mut a = pods();
    let j = job(9, WorkloadType::Training, Json::Null);
    a.submit_at(&j, &ordered("p1"), at(100), at(100), at(100)).unwrap();
    let draft = a.begin_receipt_at(9, &at(3701)).unwrap();
    assert_eq!(draft.elapsed_secs, 3601);
    assert_eq!(draft.pod_id, "p1");
    assert_eq!(body(&draft.termination).str_at("query"), Some(TERMINATE_QUERY));
    assert_eq!(draft.job_id, 9);
    let r = a.receipt_with(&draft, at(4000));
    assert_eq!(r.job_id, 9);
    assert_eq!(r.provider_id, "runpod-pod");
    assert_eq!(r.completed_at.seconds(), 4000);
    assert_eq!(r.resources.gpu_seconds.bits, 3601.0f64.to_bits());
    assert_eq!(r.resources.cpu_seconds.bits, 900.25f64.to_bits());
    assert_eq!(r.billing.amount_cents, 301);
    assert_eq!(
        r.billing.line_items[0].label,
        "3601s pod (NVIDIA A100 SXM4 40GB) GPU compute"
    );
    assert_eq!(r.billing.line_items[0].cents, 301);
    assert_eq!(r.verification.artifact_hash, Some("p1".to_string()));
    assert_eq!(r.verification.runtime_attestation, Some("runpod-pod".to_string()));
    assert!(r.gix1_canonical_id.is_none());
    let early = a.begin_receipt_at(9, &at(50)).unwrap();
    assert_eq!(early.elapsed_secs, 0);
    let r = a.receipt(&early).unwrap();
    assert_eq!((r.job_id, r.billing.amount_cents), (9, 0));
}

#[test]
fn pod_charges() {
    let mut a = pods();
    let j = job(9, WorkloadType::Training, Json::Null);
    a.submit_at(&j, &ordered("p1"), at(0), at(0), at(0)).unwrap();
    for secs in [0i64, 1, 11, 12, 13, 3600, 86_400, 8_210_266_876_799] {
        let draft = a.begin_receipt_at(9, &at(secs)).unwrap();
        let r = a.receipt_with(&draft, at(0));
        let x = secs as f64;
        assert_eq!(r.billing.amount_cents, (x * 300.0 / 3600.0).ceil() as u64, "{secs}");
        assert_eq!(r.resources.cpu_seconds.bits, (x * 0.25).to_bits());
        assert_eq!(
            r.billing.line_items[0].label,
            format!("{x:.0}s pod (NVIDIA A100 SXM4 40GB) GPU compute")
        );
    }
}

#[test]
fn pod_availability() {
    let a = pods();
    let r = a.availability_request();
    assert!(body(&r).str_at("query").unwrap().contains("gpuTypes { id displayName memoryInGb }"));
    assert!(a.is_available(&data(Json::Null)));
    assert!(a.is_available(&Outcome::Replied { status: 500, body: None }));
    assert!(!a.is_available(&replied(Fields::new().with("errors", Json::Null).object())));
    assert!(!a.is_available(&failed()));
}

#[test]
fn longer_costs_no_less() {
    let mut before = 0;
    let mut ms: u64 = 0;
    while ms < u64::MAX / 8 {
        let raw = Fields::new().with("executionTime", Json::UInt(ms)).object();
        let cents = serverless_receipt(&raw, 1, at(0)).billing.amount_cents;
        assert!(before <= cents);
        before = cents;
        ms = ms + ms / 3 + 1;
    }
}
