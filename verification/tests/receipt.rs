use serde_json::{Number, Value};
use sha2::Digest;
use ucx::clock::Timestamp;
use ucx::float64::F64;
use ucx::receipt::{
    BillingCurrency, BillingRecord, ComputeReceipt, LineItem, ResourceTexts, ResourceUsage,
    VerificationProof,
};

fn f(x: f64) -> F64 {
    F64 { bits: x.to_bits() }
}

fn make_receipt() -> ComputeReceipt {
    ComputeReceipt {
        job_id: uuid::Uuid::new_v4().as_u128(),
        provider_id: "test-provider".to_string(),
        completed_at: Timestamp::now(),
        resources: ResourceUsage {
            gpu_seconds: f(1.0),
            cpu_seconds: f(1.0),
            ram_gb_seconds: f(0.0),
            storage_gb: f(0.0),
            egress_gb: f(0.0),
        },
        billing: BillingRecord {
            amount_cents: 0,
            currency: BillingCurrency::Usd,
            line_items: vec![],
        },
        verification: VerificationProof {
            artifact_hash: None,
            runtime_attestation: None,
            execution_hash: None,
        },
        zangbeto_anchor: None,
        gix1_canonical_id: None,
    }
}

fn shown(x: f64) -> String {
    match Number::from_f64(x) {
        Some(n) => n.to_string(),
        None => "unused".to_string(),
    }
}

fn texts(gpu: f64, cpu: f64, ram: f64, storage: f64, egress: f64) -> ResourceTexts {
    ResourceTexts {
        gpu_seconds: shown(gpu),
        cpu_seconds: shown(cpu),
        ram_gb_seconds: shown(ram),
        storage_gb: shown(storage),
        egress_gb: shown(egress),
    }
}

fn number(x: f64) -> Value {
    match Number::from_f64(x) {
        Some(n) => Value::Number(n),
        None => Value::Null,
    }
}

#[test]
fn stamp_gix1_sets_canonical_id() {
    let mut r = make_receipt();
    r.stamp_gix1(&[0xa5; 32]);
    assert!(r.gix1_canonical_id.is_some());
    assert_eq!(r.gix1_canonical_id.unwrap().len(), 64);
}

#[test]
fn stamp_gix1_is_idempotent() {
    let mut r = make_receipt();
    r.stamp_gix1(&[0x01; 32]);
    let first = r.gix1_canonical_id.clone();
    r.stamp_gix1(&[0x02; 32]);
    assert_eq!(r.gix1_canonical_id, first);
}

#[test]
fn stamp_is_lower_case_hexadecimal() {
    let mut r = make_receipt();
    let mut id = [0u8; 32];
    id[0] = 0xAB;
    id[31] = 0x0f;
    r.stamp_gix1(&id);
    let mut expected = "ab".to_string();
    expected.push_str(&"00".repeat(30));
    expected.push_str("0f");
    assert_eq!(r.gix1_canonical_id, Some(expected));
}

#[test]
fn envelope_is_made_of_job_and_time() {
    let mut r = make_receipt();
    r.job_id = 0x00112233_4455_6677_8899_aabbccddeeff;
    r.completed_at = Timestamp::at(1_700_000_000, 123_456_789).unwrap();
    let input = r.envelope_input().unwrap();
    assert_eq!(input.payload, "00112233-4455-6677-8899-aabbccddeeff");
    assert_eq!(input.timestamp_millis, 1_700_000_000_123);
    r.completed_at = Timestamp::at(-1, 0).unwrap();
    assert_eq!(r.envelope_input().unwrap().timestamp_millis, (-1000i64) as u64);
    r.stamp_gix1(&[0; 32]);
    assert!(r.envelope_input().is_none());
}

#[test]
fn canonical_text_is_sorted_compact_json() {
    let mut r = make_receipt();
    r.job_id = 1;
    r.provider_id = "a \"quoted\" \\ name\n\u{1}\u{8}\u{c}\r\t\u{7f}é".to_string();
    r.completed_at = Timestamp::at(0, 0).unwrap();
    r.resources = ResourceUsage {
        gpu_seconds: f(1.5),
        cpu_seconds: f(0.1),
        ram_gb_seconds: f(f64::NAN),
        storage_gb: f(1e21),
        egress_gb: f(f64::NEG_INFINITY),
    };
    r.billing = BillingRecord {
        amount_cents: 42,
        currency: BillingCurrency::Ase,
        line_items: vec![
            LineItem { label: "first".to_string(), cents: 40 },
            LineItem { label: "second \u{1f}".to_string(), cents: 2 },
        ],
    };
    let t = texts(1.5, 0.1, f64::NAN, 1e21, f64::NEG_INFINITY);

    let mut resources = serde_json::Map::new();
    resources.insert("gpu_seconds".to_string(), number(1.5));
    resources.insert("cpu_seconds".to_string(), number(0.1));
    resources.insert("ram_gb_seconds".to_string(), Value::Null);
    resources.insert("storage_gb".to_string(), number(1e21));
    resources.insert("egress_gb".to_string(), Value::Null);
    let mut first = serde_json::Map::new();
    first.insert("label".to_string(), Value::from("first"));
    first.insert("cents".to_string(), Value::from(40u64));
    let mut second = serde_json::Map::new();
    second.insert("label".to_string(), Value::from("second \u{1f}"));
    second.insert("cents".to_string(), Value::from(2u64));
    let mut billing = serde_json::Map::new();
    billing.insert("amount_cents".to_string(), Value::from(42u64));
    billing.insert("currency".to_string(), Value::from("Ase"));
    billing.insert(
        "line_items".to_string(),
        Value::Array(vec![Value::Object(first), Value::Object(second)]),
    );
    let mut all = serde_json::Map::new();
    all.insert("job_id".to_string(), Value::from("00000000-0000-0000-0000-000000000001"));
    all.insert("provider_id".to_string(), Value::from(r.provider_id.as_str()));
    all.insert("completed_at".to_string(), Value::from("1970-01-01T00:00:00+00:00"));
    all.insert("resources".to_string(), Value::Object(resources));
    all.insert("billing".to_string(), Value::Object(billing));
    let bytes = serde_json::to_vec(&Value::Object(all)).unwrap();

    assert_eq!(r.canonical(&t).as_bytes(), bytes.as_slice());
    assert_eq!(r.hash(&t), hex::encode(sha2::Sha256::digest(&bytes)));
}

#[test]
fn hash_of_an_empty_bill() {
    let mut r = make_receipt();
    r.job_id = 0;
    r.completed_at = Timestamp::at(0, 0).unwrap();
    let t = texts(1.0, 1.0, 0.0, 0.0, 0.0);
    assert_eq!(
        r.canonical(&t),
        concat_parts(&[
            "{\"billing\":{\"amount_cents\":0,\"currency\":\"Usd\",\"line_items\":[]},",
            "\"completed_at\":\"1970-01-01T00:00:00+00:00\",",
            "\"job_id\":\"00000000-0000-0000-0000-000000000000\",",
            "\"provider_id\":\"test-provider\",",
            "\"resources\":{\"cpu_seconds\":1.0,\"egress_gb\":0.0,\"gpu_seconds\":1.0,",
            "\"ram_gb_seconds\":0.0,\"storage_gb\":0.0}}",
        ])
    );
    assert_eq!(r.hash(&t).len(), 64);
}

fn concat_parts(parts: &[&str]) -> String {
    parts.join("")
}

#[test]
fn hash_ignores_proofs_and_stamps() {
    let mut r = make_receipt();
    let t = texts(1.0, 1.0, 0.0, 0.0, 0.0);
    let before = r.hash(&t);
    r.stamp_gix1(&[9; 32]);
    r.zangbeto_anchor = Some("anchor".to_string());
    r.verification.execution_hash = Some("hash".to_string());
    assert_eq!(r.hash(&t), before);
    let copy = r.clone();
    assert_eq!(copy.hash(&t), before);
}

#[test]
fn hash_tells_receipts_apart() {
    let mut r = make_receipt();
    let t = texts(1.0, 1.0, 0.0, 0.0, 0.0);
    let first = r.hash(&t);
    r.provider_id = "other-provider".to_string();
    let second = r.hash(&t);
    r.billing.amount_cents = 1;
    let third = r.hash(&t);
    r.billing.line_items.push(LineItem { label: "x".to_string(), cents: 1 });
    let fourth = r.hash(&t);
    assert_ne!(first, second);
    assert_ne!(second, third);
    assert_ne!(third, fourth);
}
