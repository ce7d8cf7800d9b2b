use ucx::capability_token::{CapabilityToken, MintTokenRequest};
use ucx::clock::{Timestamp, LAST_SECOND};
use ucx::float64::F64;
use ucx::http::{HttpRequest, Method};
use ucx::job::{Allocation, JobStatus, Offer, WorkloadType};
use ucx::json::{text, Fields, Json};
use ucx::marketplace::{AccountBalance, DepositAddress, EarningsReport};
use ucx::receipt::{
    BillingCurrency, BillingRecord, ComputeReceipt, LineItem, ResourceTexts, ResourceUsage,
    VerificationProof,
};
use ucx::server::{
    cancel_job, contribute_gpu, contribution_of, deposit_wanted, fund_account, get_balance,
    get_earnings, get_job_status, get_receipt, health, job_from, job_with_id, listen_port,
    market_step, mint_compute_token, mint_compute_token_at, requested_job,
    require_capability_token, require_capability_token_at, submit_job, MarketStep, Reply,
    SubmitBody,
};

const KEY: Option<&str> = Some("master-key");

fn f(x: f64) -> F64 {
    F64 { bits: x.to_bits() }
}

fn at(secs: i64) -> Timestamp {
    Timestamp::at(secs, 0).unwrap()
}

fn error(reply: &Reply) -> (u16, &str) {
    (reply.status, reply.body.str_at("error").unwrap())
}

fn request(agent: &str, tier: Option<&str>) -> MintTokenRequest {
    MintTokenRequest {
        agent_id: agent.to_string(),
        tool_name: "tool".to_string(),
        tier: tier.map(|s| s.to_string()),
    }
}

#[test]
fn job_of_a_submission() {
    let body = SubmitBody {
        submitter_id: "me".to_string(),
        workload: Some("Training".to_string()),
        requirements: Some(Fields::new().with("gpu_count", Json::UInt(2)).object()),
        constraints: Some(Fields::new().with("allow_external", Json::Bool(false)).object()),
        runtime_spec: Some(Fields::new().with("image", text("x")).object()),
    };
    let job = job_with_id(body, 5);
    assert_eq!(job.id, 5);
    assert_eq!(job.submitter_id, "me");
    assert!(job.workload == WorkloadType::Training);
    assert_eq!(job.requirements.gpu_count, Some(2));
    assert!(!job.constraints.allow_external);
    assert_eq!(job.runtime_spec.str_at("image"), Some("x"));
}

fn bare() -> SubmitBody {
    SubmitBody {
        submitter_id: String::new(),
        workload: None,
        requirements: None,
        constraints: None,
        runtime_spec: None,
    }
}

#[test]
fn job_of_a_bare_submission() {
    let job = job_from(bare());
    assert!(job.workload == WorkloadType::Generic);
    assert!(job.requirements.ram_gb.is_none());
    assert!(job.constraints.allow_external);
    assert!(matches!(&job.runtime_spec, Json::Object(m) if m.is_empty()));
    assert_eq!((job.id >> 76) & 15, 4);
    assert_eq!((job.id >> 62) & 3, 2);
    assert_ne!(job.id, job_from(bare()).id);
}

#[test]
fn answer_to_a_submission() {
    let a = Allocation {
        job_id: 9,
        provider_id: "local".to_string(),
        offer: Offer {
            job_id: 9,
            provider_id: "local".to_string(),
            price_cents: 1,
            eta_secs: 2,
            expires_at: at(3),
            is_external: false,
        },
        allocated_at: at(0),
        status: JobStatus::Running,
    };
    let r = submit_job(Ok(&a));
    assert_eq!(r.status, 200);
    assert_eq!(r.body.str_at("job_id"), Some("00000000-0000-0000-0000-000000000009"));
    assert_eq!(r.body.str_at("provider_id"), Some("local"));
    assert_eq!(r.body.str_at("status"), Some("Running"));
    assert_eq!(r.body.str_at("allocated_at"), Some("1970-01-01T00:00:00+00:00"));
    assert_eq!(error(&submit_job(Err("no provider"))), (422, "no provider"));
}

#[test]
fn identifiers_in_paths() {
    let id = requested_job("0123ABCD-4567-89ab-cdef-0123456789ab").unwrap();
    assert_eq!(id, 0x0123abcd_4567_89ab_cdef_0123456789ab);
    assert_eq!(requested_job("00000000-0000-0000-0000-000000000009").unwrap(), 9);
    assert_eq!(requested_job("00000000000000000000000000000009").unwrap(), 9);
    for s in ["", "9", "not an id", "00000000-0000-0000-0000-00000000000g"] {
        let reply = requested_job(s).unwrap_err();
        assert_eq!(error(&reply), (400, "invalid job_id"), "{s}");
    }
}

#[test]
fn answers_about_jobs() {
    let r = get_job_status(Ok(JobStatus::Completed));
    assert_eq!((r.status, r.body.str_at("status")), (200, Some("Completed")));
    assert_eq!(error(&get_job_status(Err("gone"))), (404, "gone"));
    let r = cancel_job(Ok(()));
    assert_eq!((r.status, r.body.bool_at("cancelled")), (200, Some(true)));
    assert_eq!(error(&cancel_job(Err("gone"))), (404, "gone"));
    let r = health();
    assert_eq!((r.status, r.body.bool_at("ok")), (200, Some(true)));
    assert_eq!(r.body.str_at("service"), Some("ucx-broker"));
}

fn receipt(gpu_seconds: f64) -> ComputeReceipt {
    ComputeReceipt {
        job_id: 9,
        provider_id: "runpod-pod".to_string(),
        completed_at: at(0),
        resources: ResourceUsage {
            gpu_seconds: f(gpu_seconds),
            cpu_seconds: f(2.0),
            ram_gb_seconds: f(f64::NAN),
            storage_gb: f(0.0),
            egress_gb: f(0.0),
        },
        billing: BillingRecord {
            amount_cents: 4,
            currency: BillingCurrency::Usd,
            line_items: vec![LineItem { label: "work".to_string(), cents: 4 }],
        },
        verification: VerificationProof {
            artifact_hash: Some("art".to_string()),
            runtime_attestation: None,
            execution_hash: None,
        },
        zangbeto_anchor: Some("anchor".to_string()),
        gix1_canonical_id: None,
    }
}

fn texts() -> ResourceTexts {
    ResourceTexts {
        gpu_seconds: "1.0".to_string(),
        cpu_seconds: "2.0".to_string(),
        ram_gb_seconds: "unused".to_string(),
        storage_gb: "0.0".to_string(),
        egress_gb: "0.0".to_string(),
    }
}

#[test]
fn answer_with_a_receipt() {
    let r = receipt(1.0);
    let reply = get_receipt(Ok((&r, &texts())));
    assert_eq!(reply.status, 200);
    let b = &reply.body;
    assert_eq!(b.str_at("job_id"), Some("00000000-0000-0000-0000-000000000009"));
    assert_eq!(b.str_at("provider_id"), Some("runpod-pod"));
    assert_eq!(b.str_at("completed_at"), Some("1970-01-01T00:00:00+00:00"));
    let resources = b.get("resources").unwrap();
    assert_eq!(resources.f64_at("gpu_seconds").map(|x| x.bits), Some(1.0f64.to_bits()));
    assert!(matches!(resources.get("ram_gb_seconds"), Some(Json::Null)));
    let billing = b.get("billing").unwrap();
    assert_eq!(billing.u64_at("amount_cents"), Some(4));
    assert_eq!(billing.str_at("currency"), Some("Usd"));
    match billing.get("line_items") {
        Some(Json::Array(items)) => {
            assert_eq!(items.len(), 1);
            assert_eq!(items[0].str_at("label"), Some("work"));
            assert_eq!(items[0].u64_at("cents"), Some(4));
        }
        other => panic!("{other:?}"),
    }
    let verification = b.get("verification").unwrap();
    assert_eq!(verification.str_at("artifact_hash"), Some("art"));
    assert!(matches!(verification.get("execution_hash"), Some(Json::Null)));
    assert_eq!(b.str_at("receipt_hash"), Some(r.hash(&texts()).as_str()));
    assert_eq!(error(&get_receipt(Err("gone"))), (404, "gone"));
}

#[test]
fn contribution_of_a_receipt() {
    assert!(contribution_of(&receipt(0.0), None).is_none());
    assert!(contribution_of(&receipt(f64::NAN), None).is_none());
    let c = contribution_of(&receipt(1.5), None).unwrap();
    assert_eq!(c.provider_id, "runpod-pod");
    assert_eq!(c.agent_id, "runpod-pod");
    assert_eq!(c.job_id, "00000000-0000-0000-0000-000000000009");
    assert_eq!(c.gpu_seconds.bits, 1.5f64.to_bits());
    assert_eq!(c.zangbeto_anchor, Some("anchor".to_string()));
    let c = contribution_of(&receipt(1.5), Some("agent-7")).unwrap();
    assert_eq!(c.agent_id, "agent-7");
}

#[test]
fn the_mint() {
    let now = at(1000);
    let none = mint_compute_token_at(None, &request("a", None), &now);
    assert_eq!(error(&none), (503, "UCX_GPUAI_MASTER_KEY not configured"));
    let none = mint_compute_token(Some(""), &request("a", None));
    assert_eq!(none.status, 503);
    let r = mint_compute_token_at(KEY, &request("a", None), &now);
    assert_eq!(r.status, 200);
    assert_eq!(r.body.str_at("expires_at"), Some("1970-01-01T01:16:40+00:00"));
    let expected = CapabilityToken::mint_at(KEY, "a", "tool", "community", &now).unwrap();
    assert_eq!(r.body.str_at("token"), Some(expected.token.as_str()));
    match &r.body {
        Json::Object(members) => assert_eq!(members.len(), 2),
        other => panic!("{other:?}"),
    }
    let late = mint_compute_token_at(KEY, &request("a", Some("pro")), &at(LAST_SECOND));
    assert_eq!(error(&late), (500, "failed to mint token"));
    assert_eq!(mint_compute_token(KEY, &request("a", Some("pro"))).status, 200);
}

#[test]
fn the_gate_is_open_without_a_key() {
    let t = require_capability_token_at(None, None, &at(1000)).unwrap();
    assert_eq!(t.agent_id, "anonymous");
    assert_eq!(t.tool_name, "*");
    assert_eq!(t.tier, "community");
    assert_eq!(t.token, "");
    assert_eq!(t.expires_at.seconds(), 4600);
    assert!(require_capability_token(Some(""), None).unwrap().is_ok());
}

#[test]
fn the_gate_asks_for_a_token() {
    let now = at(1000);
    let e = require_capability_token_at(KEY, None, &now).unwrap_err();
    assert_eq!(error(&e), (401, "Authorization header required"));
    for header in ["", "Basic x", "bearer x", "Bearer"] {
        let e = require_capability_token_at(KEY, Some(header), &now).unwrap_err();
        assert_eq!(error(&e), (401, "Bearer token required"), "{header}");
    }
    let e = require_capability_token_at(KEY, Some("Bearer nonsense"), &now).unwrap_err();
    assert_eq!(error(&e), (401, "invalid or expired capability token"));
    let e = require_capability_token(KEY, Some("Bearer nonsense")).unwrap().unwrap_err();
    assert_eq!(error(&e), (401, "invalid or expired capability token"));
}

#[test]
fn minted_token_opens_the_gate() {
    let r = mint_compute_token_at(KEY, &request("agent", None), &at(1000));
    let header = format!("Bearer {}", r.body.str_at("token").unwrap());
    let t = require_capability_token_at(KEY, Some(&header), &at(4600)).unwrap();
    assert_eq!(t.agent_id, "agent");
    assert_eq!(t.tool_name, "tool");
    assert!(require_capability_token_at(KEY, Some(&header), &at(4601)).is_err());
    let r = mint_compute_token_at(KEY, &request("team:agent", None), &at(1000));
    let header = format!("Bearer {}", r.body.str_at("token").unwrap());
    let t = require_capability_token_at(KEY, Some(&header), &at(4600)).unwrap();
    assert_eq!((t.agent_id.as_str(), t.tool_name.as_str()), ("team:agent", "tool"));
    let e = require_capability_token_at(KEY, Some(&header), &at(4601)).unwrap_err();
    assert_eq!(error(&e), (401, "invalid or expired capability token"));
    let r = mint_compute_token(KEY, &request("agent", None));
    let header = format!("Bearer {}", r.body.str_at("token").unwrap());
    assert!(require_capability_token(KEY, Some(&header)).unwrap().is_ok());
}

fn question() -> HttpRequest {
    HttpRequest {
        method: Method::Get,
        url: "https://market".to_string(),
        authorization: None,
        body: None,
        timeout_secs: None,
    }
}

#[test]
fn market_requests_pass_the_gate_first() {
    let refused = || require_capability_token_at(KEY, None, &at(0));
    let let_in = || require_capability_token_at(None, None, &at(0));
    match market_step(refused(), Some(question())) {
        MarketStep::Answer(reply) => assert_eq!(reply.status, 401),
        other => panic!("{other:?}"),
    }
    match market_step(refused(), None) {
        MarketStep::Answer(reply) => assert_eq!(reply.status, 401),
        other => panic!("{other:?}"),
    }
    match market_step(let_in(), None) {
        MarketStep::Answer(reply) => {
            assert_eq!(error(&reply), (501, "gpu-ai adapter not enabled"))
        }
        other => panic!("{other:?}"),
    }
    match market_step(let_in(), Some(question())) {
        MarketStep::Ask(r) => assert_eq!(r.url, "https://market"),
        other => panic!("{other:?}"),
    }
}

#[test]
fn market_answers() {
    let r = contribute_gpu(Ok(&"m1".to_string()));
    assert_eq!((r.status, r.body.str_at("machine_id")), (200, Some("m1")));
    assert_eq!(error(&contribute_gpu(Err("bad"))), (502, "bad"));

    let report = EarningsReport {
        total_earned_cents: 1,
        pending_payout_cents: 2,
        jobs_completed: 3,
        gpu_hours_contributed: f(4.5),
        raw: text("raw"),
    };
    let r = get_earnings(Ok(&report));
    assert_eq!(r.status, 200);
    assert_eq!(r.body.u64_at("total_earned_cents"), Some(1));
    assert_eq!(r.body.u64_at("pending_payout_cents"), Some(2));
    assert_eq!(r.body.u64_at("jobs_completed"), Some(3));
    assert_eq!(r.body.f64_at("gpu_hours_contributed").map(|x| x.bits), Some(4.5f64.to_bits()));
    assert_eq!(r.body.str_at("raw"), Some("raw"));
    assert_eq!(error(&get_earnings(Err("bad"))), (502, "bad"));

    let address = DepositAddress {
        currency: "ETH".to_string(),
        address: "0x1".to_string(),
        amount_usd: f(2.0),
        minimum_native: None,
        raw: Json::Null,
    };
    let r = fund_account(Ok(&address));
    assert_eq!(r.status, 200);
    assert_eq!(r.body.str_at("currency"), Some("ETH"));
    assert_eq!(r.body.str_at("address"), Some("0x1"));
    assert_eq!(r.body.f64_at("amount_usd").map(|x| x.bits), Some(2.0f64.to_bits()));
    assert!(matches!(r.body.get("minimum_native"), Some(Json::Null)));
    assert_eq!(error(&fund_account(Err("bad"))), (502, "bad"));

    let balance =
        AccountBalance { balance_cents: 7, currency: "USD".to_string(), raw: Json::Null };
    let r = get_balance(Ok(&balance));
    assert_eq!((r.status, r.body.u64_at("balance_cents")), (200, Some(7)));
    assert_eq!(r.body.str_at("currency"), Some("USD"));
    assert_eq!(error(&get_balance(Err("bad"))), (502, "bad"));
}

#[test]
fn deposits_wanted() {
    let (currency, amount) = deposit_wanted(&Json::Null);
    assert_eq!((currency.as_str(), amount.bits), ("BTC", 0));
    let body = Fields::new().with("currency", text("ETH")).with("amount_usd", Json::UInt(5));
    let (currency, amount) = deposit_wanted(&body.object());
    assert_eq!((currency.as_str(), amount.bits), ("ETH", 5.0f64.to_bits()));
}

#[test]
fn ports() {
    assert_eq!(listen_port(None), 7790);
    for s in ["", "x", "65536", "-1", "80 ", "1e3"] {
        assert_eq!(listen_port(Some(s)), 7790, "{s}");
    }
    assert_eq!(listen_port(Some("0")), 0);
    assert_eq!(listen_port(Some("8080")), 8080);
    assert_eq!(listen_port(Some("+65535")), 65535);
}
