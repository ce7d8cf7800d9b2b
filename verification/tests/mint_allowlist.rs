use ucx::float64::F64;
use ucx::http::{Document, HttpRequest, Method, Outcome};
use ucx::json::{text, Fields, Json};
use ucx::mint_allowlist::{
    anchor_request, check_mint_eligible, get_zangbeto_anchor, mint_eligibility_request,
    notify_gpu_contribution, osovm_base, Contribution, NotifyEvent, NotifyStep,
};

fn f(x: f64) -> F64 {
    F64 { bits: x.to_bits() }
}

fn replied(status: u16, body: Option<Json>) -> Outcome {
    Outcome::Replied {
        status,
        body: body.map(|json| Document {
            json,
            text: "unused".to_string(),
            errors_text: "unused".to_string(),
        }),
    }
}

fn failed() -> Outcome {
    Outcome::Failed { reason: "connection refused".to_string() }
}

fn contribution(gpu_seconds: f64, anchor: Option<&str>) -> Contribution {
    Contribution {
        provider_id: "runpod-pod".to_string(),
        agent_id: "agent-1".to_string(),
        job_id: "job-1".to_string(),
        gpu_seconds: f(gpu_seconds),
        zangbeto_anchor: anchor.map(|s| s.to_string()),
    }
}

fn body(request: &HttpRequest) -> &Json {
    request.body.as_ref().unwrap()
}

#[test]
fn osovm_address() {
    assert_eq!(osovm_base(None), "http://127.0.0.1:7780");
    assert_eq!(osovm_base(Some("http://osovm")), "http://osovm");
    assert_eq!(osovm_base(Some("")), "");
}

#[test]
fn anchor_is_asked_for() {
    assert!(anchor_request(None, "job-1").is_none());
    let r = anchor_request(Some("http://witness"), "job-1").unwrap();
    assert!(r.method == Method::Post);
    assert_eq!(r.url, "http://witness/api/anchor");
    assert_eq!(r.timeout_secs, Some(5));
    assert!(r.authorization.is_none());
    assert_eq!(body(&r).str_at("job_id"), Some("job-1"));
    assert_eq!(body(&r).str_at("receipt_type"), Some("compute"));
}

#[test]
fn anchor_is_read() {
    let one = Fields::new().with("anchor", text("A")).with("zangbeto_anchor", text("B")).object();
    assert_eq!(get_zangbeto_anchor(&replied(200, Some(one))), Some("A".to_string()));
    let two = Fields::new().with("anchor", Json::Null).with("zangbeto_anchor", text("B")).object();
    assert_eq!(get_zangbeto_anchor(&replied(201, Some(two))), Some("B".to_string()));
    let none = Fields::new().with("other", text("B")).object();
    assert_eq!(get_zangbeto_anchor(&replied(200, Some(none))), None);
    assert_eq!(get_zangbeto_anchor(&replied(200, None)), None);
    let refused = Fields::new().with("anchor", text("A")).object();
    assert_eq!(get_zangbeto_anchor(&replied(500, Some(refused))), None);
    assert_eq!(get_zangbeto_anchor(&failed()), None);
}

#[test]
fn eligibility() {
    for x in [0.0, -0.0, -1.0, f64::NEG_INFINITY, f64::NAN] {
        assert!(mint_eligibility_request(None, "p", f(x), None).is_none());
        assert!(!check_mint_eligible(f(x), &replied(200, None)));
    }
    for x in [5e-324, 1.0, f64::INFINITY] {
        assert!(mint_eligibility_request(None, "p", f(x), None).is_some());
        assert!(check_mint_eligible(f(x), &replied(200, None)));
        assert!(!check_mint_eligible(f(x), &replied(403, None)));
        assert!(check_mint_eligible(f(x), &replied(404, None)));
        assert!(check_mint_eligible(f(x), &replied(500, None)));
        assert!(check_mint_eligible(f(x), &failed()));
    }
}

#[test]
fn allowlist_question() {
    let r = mint_eligibility_request(Some("http://osovm"), "p", f(1.5), Some("A")).unwrap();
    assert_eq!(r.url, "http://osovm/api/toc/allowlist/check");
    assert_eq!(r.timeout_secs, Some(5));
    assert_eq!(body(&r).str_at("provider_id"), Some("p"));
    assert_eq!(body(&r).f64_at("gpu_seconds").map(|x| x.bits), Some(1.5f64.to_bits()));
    assert_eq!(body(&r).str_at("zangbeto_anchor"), Some("A"));
    let r = mint_eligibility_request(None, "p", f(f64::INFINITY), None).unwrap();
    assert_eq!(r.url, "http://127.0.0.1:7780/api/toc/allowlist/check");
    assert!(matches!(body(&r).get("gpu_seconds"), Some(Json::Null)));
    assert!(matches!(body(&r).get("zangbeto_anchor"), Some(Json::Null)));
}

#[test]
fn report_of_a_contribution() {
    let c = contribution(10.0, Some("A"));
    let step = notify_gpu_contribution(None, &c, &NotifyEvent::Start, 99);
    match step {
        NotifyStep::AskAllowlist(r) => {
            assert_eq!(r.url, "http://127.0.0.1:7780/api/toc/allowlist/check")
        }
        other => panic!("{other:?}"),
    }
    let asked = NotifyEvent::AllowlistAsked(replied(200, None));
    match notify_gpu_contribution(None, &c, &asked, 99) {
        NotifyStep::SendContribution(r) => {
            assert!(r.method == Method::Post);
            assert_eq!(r.url, "http://127.0.0.1:7780/api/osovm/gpu_contribution");
            assert_eq!(r.timeout_secs, Some(10));
            assert_eq!(body(&r).str_at("provider_id"), Some("runpod-pod"));
            assert_eq!(body(&r).str_at("submitter_id"), Some("agent-1"));
            assert_eq!(body(&r).str_at("job_id"), Some("job-1"));
            assert_eq!(body(&r).f64_at("gpu_seconds").map(|x| x.bits), Some(10.0f64.to_bits()));
            assert_eq!(body(&r).str_at("zangbeto_anchor"), Some("A"));
            assert_eq!(body(&r).u64_at("timestamp"), Some(99));
        }
        other => panic!("{other:?}"),
    }
    let sent = NotifyEvent::ContributionSent(replied(202, None));
    assert!(matches!(notify_gpu_contribution(None, &c, &sent, 99), NotifyStep::Done(true)));
    for outcome in [replied(404, None), failed()] {
        let sent = NotifyEvent::ContributionSent(outcome);
        assert!(matches!(notify_gpu_contribution(None, &c, &sent, 99), NotifyStep::Done(false)));
    }
}

#[test]
fn no_gpu_work_is_not_reported() {
    let c = contribution(0.0, Some("A"));
    for event in [NotifyEvent::Start, NotifyEvent::AllowlistAsked(replied(200, None))] {
        assert!(matches!(notify_gpu_contribution(None, &c, &event, 1), NotifyStep::Done(false)));
    }
}

#[test]
fn only_a_refusal_stops_a_report() {
    let c = contribution(1.0, None);
    let refused = NotifyEvent::AllowlistAsked(replied(403, None));
    assert!(matches!(notify_gpu_contribution(None, &c, &refused, 1), NotifyStep::Done(false)));
    for outcome in [failed(), replied(500, None), replied(200, None), replied(401, None)] {
        let asked = NotifyEvent::AllowlistAsked(outcome);
        assert!(matches!(
            notify_gpu_contribution(None, &c, &asked, 1),
            NotifyStep::SendContribution(_)
        ));
    }
}
