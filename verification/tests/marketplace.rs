use ucx::float64::F64;
use ucx::http::{Document, HttpRequest, Method, Outcome};
use ucx::job::UcxError;
use ucx::json::{text, Fields, Json};
use ucx::marketplace::{GpuAiMarketplaceAdapter, GpuSpec};

fn f(x: f64) -> F64 {
    F64 { bits: x.to_bits() }
}

fn adapter() -> GpuAiMarketplaceAdapter {
    GpuAiMarketplaceAdapter::from_env(Some("key"), None).unwrap()
}

fn replied(status: u16, json: Json, shown: &str) -> Outcome {
    Outcome::Replied {
        status,
        body: Some(Document { json, text: shown.to_string(), errors_text: String::new() }),
    }
}

fn failed() -> Outcome {
    Outcome::Failed { reason: "timed out".to_string() }
}

fn body(request: &HttpRequest) -> &Json {
    request.body.as_ref().unwrap()
}

fn reason(e: UcxError) -> String {
    match e {
        UcxError::Adapter { adapter, reason } => {
            assert_eq!(adapter, "gpu.ai");
            reason
        }
        other => panic!("{other:?}"),
    }
}

fn header(a: &GpuAiMarketplaceAdapter) -> Option<String> {
    a.check_balance_request().authorization
}

#[test]
fn master_key_comes_first() {
    let both = GpuAiMarketplaceAdapter::from_env(Some("master"), Some("older")).unwrap();
    assert_eq!(header(&both), Some("Bearer master".to_string()));
    let older = GpuAiMarketplaceAdapter::from_env(Some(""), Some("older")).unwrap();
    assert_eq!(header(&older), Some("Bearer older".to_string()));
    let older = GpuAiMarketplaceAdapter::from_env(None, Some("older")).unwrap();
    assert_eq!(header(&older), Some("Bearer older".to_string()));
    assert!(GpuAiMarketplaceAdapter::from_env(None, None).is_none());
    assert!(GpuAiMarketplaceAdapter::from_env(Some(""), Some("")).is_none());
}

#[test]
fn machine_is_offered() {
    let r = adapter().list_machine_request(&GpuSpec::default());
    assert!(r.method == Method::Post);
    assert_eq!(r.url, "https://api.gpu.ai/v1/supplier/machines");
    assert_eq!(r.authorization, Some("Bearer key".to_string()));
    assert_eq!(body(&r).u64_at("gpu_count"), Some(1));
    for key in
        ["gpu_model", "vram_gb", "cpu_cores", "ram_gb", "disk_gb", "price_gpu_hour_cents", "region"]
    {
        assert!(matches!(body(&r).get(key), Some(Json::Null)), "{key}");
    }
    let machine = GpuSpec {
        gpu_model: Some("NVIDIA RTX 3090".to_string()),
        vram_gb: Some(f(24.0)),
        gpu_count: Some(2),
        cpu_cores: Some(16),
        ram_gb: Some(f(f64::NAN)),
        disk_gb: Some(f(0.5)),
        price_gpu_hour_cents: Some(30),
        region: Some("EU".to_string()),
    };
    let r = adapter().list_machine_request(&machine);
    assert_eq!(body(&r).str_at("gpu_model"), Some("NVIDIA RTX 3090"));
    assert_eq!(body(&r).f64_at("vram_gb").map(|x| x.bits), Some(24.0f64.to_bits()));
    assert_eq!(body(&r).u64_at("gpu_count"), Some(2));
    assert_eq!(body(&r).u64_at("cpu_cores"), Some(16));
    assert!(matches!(body(&r).get("ram_gb"), Some(Json::Null)));
    assert_eq!(body(&r).f64_at("disk_gb").map(|x| x.bits), Some(0.5f64.to_bits()));
    assert_eq!(body(&r).u64_at("price_gpu_hour_cents"), Some(30));
    assert_eq!(body(&r).str_at("region"), Some("EU"));
}

#[test]
fn machine_gets_a_name() {
    let a = adapter();
    let reply = Fields::new().with("id", text("m1")).with("machine_id", text("m2")).object();
    assert_eq!(a.list_machine_sync(&replied(200, reply, "")).unwrap(), "m1");
    let reply = Fields::new().with("id", Json::UInt(1)).with("machine_id", text("m2")).object();
    assert_eq!(a.list_machine_sync(&replied(201, reply, "")).unwrap(), "m2");
    assert_eq!(a.list_machine_sync(&replied(200, Json::Null, "")).unwrap(), "unknown");
    let none = Outcome::Replied { status: 204, body: None };
    assert_eq!(a.list_machine_sync(&none).unwrap(), "unknown");
}

#[test]
fn refusals_are_errors() {
    let a = adapter();
    let reply = || replied(404, Json::Null, "{\"a\":1}");
    assert_eq!(
        reason(a.list_machine_sync(&reply()).unwrap_err()),
        "POST /supplier/machines 404 Not Found: {\"a\":1}"
    );
    assert_eq!(
        reason(a.check_earnings_sync(&reply()).unwrap_err()),
        "GET /supplier/earnings 404 Not Found: {\"a\":1}"
    );
    assert_eq!(
        reason(a.reclaim_machine_sync(&"m1".to_string(), &reply()).unwrap_err()),
        "DELETE /supplier/machines/m1 404 Not Found: {\"a\":1}"
    );
    assert_eq!(
        reason(a.deposit_crypto_sync("BTC", f(1.0), &reply()).unwrap_err()),
        "POST /billing/crypto/deposit 404 Not Found: {\"a\":1}"
    );
    assert_eq!(
        reason(a.check_balance_sync(&reply()).unwrap_err()),
        "GET /billing/balance 404 Not Found: {\"a\":1}"
    );
    let odd = Outcome::Replied { status: 599, body: None };
    assert_eq!(
        reason(a.check_balance_sync(&odd).unwrap_err()),
        "GET /billing/balance 599 <unknown status code>: null"
    );
    assert_eq!(reason(a.check_balance_sync(&failed()).unwrap_err()), "timed out");
    assert_eq!(reason(a.list_machine_sync(&failed()).unwrap_err()), "timed out");
    assert!(a.check_balance_sync(&Outcome::Replied { status: 199, body: None }).is_err());
    assert!(a.check_balance_sync(&Outcome::Replied { status: 299, body: None }).is_ok());
    assert!(a.check_balance_sync(&Outcome::Replied { status: 300, body: None }).is_err());
}

#[test]
fn earnings() {
    let a = adapter();
    let r = a.check_earnings_request();
    assert!(r.method == Method::Get);
    assert_eq!(r.url, "https://api.gpu.ai/v1/supplier/earnings");
    assert!(r.body.is_none());
    let reply = Fields::new()
        .with("total_earned_cents", Json::UInt(100))
        .with("pending_payout_cents", Json::NegInt(-5))
        .with("jobs_completed", Json::UInt(7))
        .with("gpu_hours_contributed", Json::UInt(3))
        .object();
    let report = a.check_earnings_sync(&replied(200, reply, "")).unwrap();
    assert_eq!(report.total_earned_cents, 100);
    assert_eq!(report.pending_payout_cents, 0);
    assert_eq!(report.jobs_completed, 7);
    assert_eq!(report.gpu_hours_contributed.bits, 3.0f64.to_bits());
    assert_eq!(report.raw.u64_at("jobs_completed"), Some(7));
}

#[test]
fn machine_is_taken_back() {
    let a = adapter();
    let r = a.reclaim_machine_request(&"m1".to_string());
    assert!(r.method == Method::Delete);
    assert_eq!(r.url, "https://api.gpu.ai/v1/supplier/machines/m1");
    let done = Outcome::Replied { status: 204, body: None };
    assert!(a.reclaim_machine_sync(&"m1".to_string(), &done).is_ok());
}

#[test]
fn paying_in() {
    let a = adapter();
    let r = a.deposit_crypto_request("ETH", f(12.5));
    assert!(r.method == Method::Post);
    assert_eq!(r.url, "https://api.gpu.ai/v1/billing/crypto/deposit");
    assert_eq!(body(&r).str_at("currency"), Some("ETH"));
    assert_eq!(body(&r).f64_at("amount_usd").map(|x| x.bits), Some(12.5f64.to_bits()));
    let reply = Fields::new()
        .with("address", text("0xabc"))
        .with("minimum_native", Json::Float(f(0.01)))
        .object();
    let d = a.deposit_crypto_sync("ETH", f(12.5), &replied(200, reply, "")).unwrap();
    assert_eq!(d.currency, "ETH");
    assert_eq!(d.address, "0xabc");
    assert_eq!(d.amount_usd.bits, 12.5f64.to_bits());
    assert_eq!(d.minimum_native.map(|x| x.bits), Some(0.01f64.to_bits()));
    assert_eq!(d.raw.str_at("address"), Some("0xabc"));
    let d = a.deposit_crypto_sync("ETH", f(1.0), &replied(200, Json::Null, "")).unwrap();
    assert_eq!(d.address, "");
    assert!(d.minimum_native.is_none());
}

#[test]
fn balance() {
    let a = adapter();
    assert_eq!(a.check_balance_request().url, "https://api.gpu.ai/v1/billing/balance");
    let cents = Fields::new()
        .with("balance_cents", Json::UInt(5))
        .with("balance_usd", Json::Float(f(9.0)))
        .with("currency", text("EUR"))
        .object();
    let b = a.check_balance_sync(&replied(200, cents, "")).unwrap();
    assert_eq!((b.balance_cents, b.currency.as_str()), (5, "EUR"));
    for x in [0.29, 19.99, 1.005, -3.0, 1e300, 184467440737095516.0] {
        let usd = Fields::new().with("balance_usd", Json::Float(f(x))).object();
        let b = a.check_balance_sync(&replied(200, usd, "")).unwrap();
        assert_eq!(b.balance_cents, (x * 100.0) as u64, "{x}");
        assert_eq!(b.currency, "USD");
    }
    let none = a.check_balance_sync(&replied(200, Json::Null, "")).unwrap();
    assert_eq!(none.balance_cents, 0);
}
