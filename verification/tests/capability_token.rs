use ucx::capability_token::CapabilityToken;
use ucx::clock::{Timestamp, LAST_SECOND};
use ucx::digest::{constant_eq, hmac_sign, sha256_hex};

const KEY: Option<&str> = Some("master-key");

fn at(secs: i64, nanos: u32) -> Timestamp {
    Timestamp::at(secs, nanos).unwrap()
}

#[test]
fn digests_of_known_inputs() {
    assert_eq!(
        sha256_hex(b"abc"),
        "ba7816bf8f01cfea414140de5dae2223b00361a396177a9cb410ff61f20015ad"
    );
    assert_eq!(
        sha256_hex(b""),
        "e3b0c44298fc1c149afbf4c8996fb92427ae41e4649b934ca495991b7852b855"
    );
    assert_eq!(
        hmac_sign("Jefe", "what do ya want for nothing?"),
        "5bdcc146bf60754e6a042426089575c75a003f089d2739839dec58b964ec3843"
    );
}

#[test]
fn byte_strings_compared() {
    assert!(constant_eq(b"", b""));
    assert!(constant_eq(b"abc", b"abc"));
    assert!(!constant_eq(b"abc", b"abd"));
    assert!(!constant_eq(b"abc", b"xbc"));
    assert!(!constant_eq(b"abc", b"ab"));
}

#[test]
fn token_lasts_an_hour() {
    assert_eq!(CapabilityToken::TTL_SECS, 3600);
}

#[test]
fn minted_token_has_payload_and_signature() {
    let t = CapabilityToken::mint_at(KEY, "agent-1", "inference", "pro", &at(1000, 7)).unwrap();
    let payload = "cap:v1:agent-1:inference:4600";
    assert_eq!(t.token, format!("{payload}.{}", hmac_sign("master-key", payload)));
    assert_eq!(t.agent_id, "agent-1");
    assert_eq!(t.tool_name, "inference");
    assert_eq!(t.tier, "pro");
    assert_eq!((t.expires_at.seconds(), t.expires_at.nanoseconds()), (4600, 7));
}

#[test]
fn minted_token_verifies_until_it_expires() {
    let t = CapabilityToken::mint_at(KEY, "agent-1", "inference", "pro", &at(1000, 7)).unwrap();
    for now in [at(0, 0), at(1000, 7), at(4599, 999_999_999), at(4600, 0)] {
        let v = CapabilityToken::verify_at(KEY, &t.token, &now).unwrap();
        assert_eq!(v.agent_id, "agent-1");
        assert_eq!(v.tool_name, "inference");
        assert_eq!(v.tier, "");
        assert_eq!((v.expires_at.seconds(), v.expires_at.nanoseconds()), (4600, 0));
        assert_eq!(v.token, t.token);
    }
    assert!(CapabilityToken::verify_at(KEY, &t.token, &at(4600, 1)).is_none());
    assert!(CapabilityToken::verify_at(KEY, &t.token, &at(10_000, 0)).is_none());
}

#[test]
fn dots_in_names_do_no_harm() {
    let t = CapabilityToken::mint_at(KEY, "agent.one", "tool.v2", "", &at(5, 0)).unwrap();
    let v = CapabilityToken::verify_at(KEY, &t.token, &at(6, 0)).unwrap();
    assert_eq!(v.agent_id, "agent.one");
    assert_eq!(v.tool_name, "tool.v2");
}

#[test]
fn colons_in_an_agent_do_no_harm() {
    let minted = at(1_700_000_000, 0);
    for agent in ["a:b", ":", "", "::x::", "cap:v1:a:b:99999999999"] {
        let t = CapabilityToken::mint_at(Some("k"), agent, "t", "x", &minted).unwrap();
        let v = CapabilityToken::verify_at(Some("k"), &t.token, &minted).unwrap();
        assert_eq!(v.agent_id, agent);
        assert_eq!(v.tool_name, "t");
        assert_eq!(v.expires_at.seconds(), 1_700_003_600);
        let late = at(1_700_007_200, 0);
        assert!(CapabilityToken::verify_at(Some("k"), &t.token, &late).is_none());
    }
}

#[test]
fn colons_in_a_tool_do_not_move_the_expiry() {
    let minted = at(1_700_000_000, 0);
    for tool in ["t:99999999999", "t:0", "t:x", ":", "a:b:c"] {
        let t = CapabilityToken::mint_at(Some("k"), "a", tool, "x", &minted).unwrap();
        let v = CapabilityToken::verify_at(Some("k"), &t.token, &minted).unwrap();
        assert_eq!(v.expires_at.seconds(), 1_700_003_600);
        assert_eq!(format!("{}:{}", v.agent_id, v.tool_name), format!("a:{tool}"));
        assert!(CapabilityToken::verify_at(Some("k"), &t.token, &at(1_700_003_600, 0)).is_some());
        assert!(CapabilityToken::verify_at(Some("k"), &t.token, &at(1_700_003_601, 0)).is_none());
        assert!(CapabilityToken::verify_at(Some("k"), &t.token, &at(1_700_007_200, 0)).is_none());
    }
}

#[test]
fn tampered_tokens_are_rejected() {
    let t = CapabilityToken::mint_at(KEY, "agent-1", "inference", "", &at(1000, 0)).unwrap();
    let now = at(1001, 0);
    assert!(CapabilityToken::verify_at(Some("other-key"), &t.token, &now).is_none());
    let forged = t.token.replace("agent-1", "agent-2");
    assert!(CapabilityToken::verify_at(KEY, &forged, &now).is_none());
    let later = t.token.replace("4600", "9999");
    assert!(CapabilityToken::verify_at(KEY, &later, &now).is_none());
    let upper = {
        let (payload, sig) = t.token.rsplit_once('.').unwrap();
        format!("{payload}.{}", sig.to_uppercase())
    };
    assert!(upper == t.token || CapabilityToken::verify_at(KEY, &upper, &now).is_none());
    let cut = &t.token[..t.token.len() - 1];
    assert!(CapabilityToken::verify_at(KEY, cut, &now).is_none());
    assert!(CapabilityToken::verify_at(KEY, "", &now).is_none());
    assert!(CapabilityToken::verify_at(KEY, "no dot at all", &now).is_none());
}

fn signed(payload: &str) -> String {
    format!("{payload}.{}", hmac_sign("master-key", payload))
}

#[test]
fn signed_payloads_are_still_read() {
    let now = at(1000, 0);
    assert!(CapabilityToken::verify_at(KEY, &signed("cap:v1:a:b"), &now).is_none());
    assert!(CapabilityToken::verify_at(KEY, &signed("cap:v1:a:b:"), &now).is_none());
    assert!(CapabilityToken::verify_at(KEY, &signed("cap:v1:a:b:12x"), &now).is_none());
    assert!(CapabilityToken::verify_at(KEY, &signed("cap:v1:a:b:999"), &now).is_none());
    assert!(CapabilityToken::verify_at(KEY, &signed("cap:v1:a:b:1000"), &now).is_some());
    assert!(CapabilityToken::verify_at(KEY, &signed("cap:v1:a:b:+1001"), &now).is_some());
    assert!(CapabilityToken::verify_at(KEY, &signed("cap:v1:a:b:1001:more:x"), &now).is_none());
    let v = CapabilityToken::verify_at(KEY, &signed("cap:v1:a:b:c:1001"), &now).unwrap();
    assert_eq!((v.agent_id.as_str(), v.tool_name.as_str()), ("a:b", "c"));
    assert!(CapabilityToken::verify_at(KEY, &signed("x:y:a:b:1001"), &now).is_some());
    let beyond = format!("cap:v1:a:b:{}", LAST_SECOND + 1);
    assert!(CapabilityToken::verify_at(KEY, &signed(&beyond), &now).is_none());
    let edge = format!("cap:v1:a:b:{LAST_SECOND}");
    assert!(CapabilityToken::verify_at(KEY, &signed(&edge), &now).is_some());
    assert!(CapabilityToken::verify_at(
        KEY,
        &signed("cap:v1:a:b:99999999999999999999999999"),
        &now
    )
    .is_none());
    let old = CapabilityToken::verify_at(KEY, &signed("cap:v1:a:b:-5"), &at(-5, 0)).unwrap();
    assert_eq!(old.expires_at.seconds(), -5);
}

#[test]
fn without_a_key_there_is_nothing() {
    let now = at(1000, 0);
    assert!(!CapabilityToken::gate_enabled(None));
    assert!(!CapabilityToken::gate_enabled(Some("")));
    assert!(CapabilityToken::gate_enabled(KEY));
    assert!(CapabilityToken::mint_at(None, "a", "b", "c", &now).is_none());
    assert!(CapabilityToken::mint_at(Some(""), "a", "b", "c", &now).is_none());
    assert!(CapabilityToken::mint(None, "a", "b", "c").is_none());
    let payload = "cap:v1:a:b:2000";
    let raw = format!("{payload}.{}", hmac_sign("", payload));
    assert!(CapabilityToken::verify_at(Some(""), &raw, &now).is_none());
    assert!(CapabilityToken::verify_at(None, &raw, &now).is_none());
    assert!(CapabilityToken::verify(None, &raw).is_none());
}

#[test]
fn nothing_is_minted_in_the_last_hour() {
    assert!(CapabilityToken::mint_at(KEY, "a", "b", "c", &at(LAST_SECOND - 3600, 5)).is_some());
    assert!(CapabilityToken::mint_at(KEY, "a", "b", "c", &at(LAST_SECOND - 3599, 0)).is_none());
    assert!(CapabilityToken::mint_at(None, "a", "b", "c", &at(LAST_SECOND, 0)).is_none());
}

#[test]
fn mint_and_verify_by_the_clock() {
    let before = Timestamp::now().seconds();
    let t = CapabilityToken::mint(KEY, "agent", "tool", "community").unwrap();
    let after = Timestamp::now().seconds();
    assert!(before + 3600 <= t.expires_at.seconds() && t.expires_at.seconds() <= after + 3600);
    let v = CapabilityToken::verify(KEY, &t.token).unwrap();
    assert_eq!(v.agent_id, "agent");
    assert_eq!(v.tool_name, "tool");
}
