//! Tokens that let callers in.
use crate::capability_token::{law_minted_token_grants, payload_of, payload_text};
use crate::capability_token::{signature_of, CapabilityToken};
use crate::clock::Timestamp;
use crate::digest::hmac_sign;
use crate::text::{decimal, join_fields, last_index, lemma_last_index, lemma_last_index_found};
use crate::text::{parse_within, split_fields};
use vstd::prelude::*;

verus! {

/// Whether a key is configured: an empty one is none.
pub open spec fn has_key(key: Option<&str>) -> bool {
    key matches Some(k) && k@.len() > 0
}

/// A token is asked of callers where a key is configured, and only there.
pub proof fn law_token_asked_for(key: Option<&str>, r: bool)
    requires
        call_ensures(CapabilityToken::gate_enabled, (key,), r),
    ensures
        r <==> has_key(key),
{
}

/// A token is given out where a key is configured and an hour from now has a date. It
/// holds what was asked for, lasts an hour, and its text states the agent, the tool and
/// the second at which it ends, signed with the key.
pub proof fn law_token_minted(
    key: Option<&str>,
    agent: &str,
    tool: &str,
    tier: &str,
    now: &Timestamp,
    payload: &str,
    signature: String,
    r: Option<CapabilityToken>,
)
    requires
        call_ensures(CapabilityToken::mint_at, (key, agent, tool, tier, now), r),
        now@.secs >= 0,
        payload@ == "cap:v1:"@ + agent@ + ":"@ + tool@ + ":"@ + decimal((now@.secs + 3600) as nat),
        key is Some,
        call_ensures(hmac_sign, (key->0, payload), signature),
    ensures
        r is Some <==> has_key(key) && now@.secs + 3600 <= 8_210_266_876_799,
        r matches Some(t) ==> {
            &&& t.agent_id@ == agent@
            &&& t.tool_name@ == tool@
            &&& t.tier@ == tier@
            &&& t.expires_at@.secs == now@.secs + 3600
            &&& t.expires_at@.nanos == now@.nanos
            &&& t.token@ == payload@ + "."@ + signature@
        },
{
    let k = key->0@;
    assert(payload@ =~= payload_text(agent@, tool@, now@.secs + 3600));
}

/// No token is given out without a key.
pub proof fn law_no_token_without_key(
    key: Option<&str>,
    agent: &str,
    tool: &str,
    tier: &str,
    raw: &str,
    now: &Timestamp,
    minted: Option<CapabilityToken>,
    minted_now: Option<CapabilityToken>,
    verified: Option<CapabilityToken>,
    verified_now: Option<CapabilityToken>,
)
    requires
        !has_key(key),
        call_ensures(CapabilityToken::mint_at, (key, agent, tool, tier, now), minted),
        call_ensures(CapabilityToken::mint, (key, agent, tool, tier), minted_now),
        call_ensures(CapabilityToken::verify_at, (key, raw, now), verified),
        call_ensures(CapabilityToken::verify, (key, raw), verified_now),
    ensures
        minted is None && minted_now is None,
        verified is None && verified_now is None,
{
}

/// A token that was given out is good for whole seconds until its hour is over, and not
/// after. It is then worth what it was given out for, as far as a tool without colons can
/// be told from its agent.
pub proof fn law_minted_token_verified(
    key: Option<&str>,
    agent: &str,
    tool: &str,
    tier: &str,
    now: &Timestamp,
    later: &Timestamp,
    t: CapabilityToken,
    raw: &str,
    r: Option<CapabilityToken>,
)
    requires
        call_ensures(CapabilityToken::mint_at, (key, agent, tool, tier, now), Some(t)),
        call_ensures(CapabilityToken::verify_at, (key, raw, later), r),
        raw@ == t.token@,
        now@.secs >= 0 && 0 <= now@.nanos < 1_000_000_000,
    ensures
        r is Some <==> later@.secs < now@.secs + 3600 || (later@.secs == now@.secs + 3600
            && later@.nanos <= 0),
        r matches Some(v) ==> {
            &&& v.token@ == t.token@
            &&& v.expires_at@.secs == now@.secs + 3600 && v.expires_at@.nanos == 0
            &&& v.tier@.len() == 0
            &&& v.agent_id@ + ":"@ + v.tool_name@ == agent@ + ":"@ + tool@
            &&& !tool@.contains(':') ==> v.agent_id@ == agent@ && v.tool_name@ == tool@
        },
{
    assert(CapabilityToken::TTL_SECS == 3600);
    law_minted_token_grants(key->0@, agent@, tool@, tier@, now@, later@);
}

/// A text is a good token where it is a payload and, behind its last full stop, the
/// payload's signature under the key; and where the payload has five fields or more
/// between colons, the last of which is a second that has a date and is not over. The
/// tool is the field before, and the agent is what stands between the first two fields
/// and that.
pub proof fn law_token_verified(
    key: &str,
    raw: &str,
    now: &Timestamp,
    payload: &str,
    signature: &str,
    right: String,
    fields: Vec<String>,
    last: &str,
    ends: Option<i64>,
    agent: String,
    r: Option<CapabilityToken>,
)
    requires
        call_ensures(CapabilityToken::verify_at, (Some(key), raw, now), r),
        key@.len() > 0,
        raw@ == payload@ + "."@ + signature@,
        !signature@.contains('.'),
        call_ensures(hmac_sign, (key, payload), right),
        call_ensures(split_fields, (payload, ':'), fields),
        fields@.len() > 0 ==> last@ == fields@[fields@.len() - 1]@,
        call_ensures(parse_within, (last, i64::MIN, i64::MAX), ends),
        fields@.len() >= 5 ==> call_ensures(
            join_fields,
            (&fields, 2usize, (fields@.len() - 2) as usize, ":"),
            agent,
        ),
        fields@.len() <= usize::MAX,
    ensures
        r is Some <==> {
            &&& signature@ == right@
            &&& fields@.len() >= 5
            &&& ends matches Some(s) && -8_334_601_228_800 <= s <= 8_210_266_876_799 && (now@.secs
                < s || (now@.secs == s && now@.nanos <= 0))
        },
        r matches Some(t) ==> {
            &&& t.token@ == raw@
            &&& t.expires_at@.secs == ends->0 && t.expires_at@.nanos == 0
            &&& t.tool_name@ == fields@[fields@.len() - 2]@
            &&& t.agent_id@ == agent@
            &&& t.tier@.len() == 0
        },
{
    reveal_strlit(".");
    let n = payload@.len() as int;
    assert("."@ =~= seq!['.']);
    lemma_last_index(payload@, signature@, '.');
    assert(raw@ =~= payload@ + seq!['.'] + signature@);
    assert(last_index(raw@, '.') == Some(n));
    assert(payload_of(raw@) =~= payload@);
    assert(signature_of(raw@) =~= signature@);
    let pieces = fields.deep_view();
    assert(pieces.len() == fields@.len());
    if fields@.len() > 0 {
        assert(pieces.last() == fields@[fields@.len() - 1]@);
    }
    if fields@.len() >= 5 {
        assert(pieces[pieces.len() - 2] == fields@[fields@.len() - 2]@);
    }
}

/// A text without a full stop is no token.
pub proof fn law_unsigned_text_is_no_token(
    key: &str,
    raw: &str,
    now: &Timestamp,
    r: Option<CapabilityToken>,
    s: Option<CapabilityToken>,
)
    requires
        call_ensures(CapabilityToken::verify_at, (Some(key), raw, now), r),
        call_ensures(CapabilityToken::verify, (Some(key), raw), s),
        !raw@.contains('.'),
    ensures
        r is None && s is None,
{
    lemma_last_index_found(raw@, '.');
}

/// A token that is given out now holds what was asked for, and its text states the
/// agent, the tool and the second at which it ends, signed with the key.
pub proof fn law_token_minted_now(
    key: Option<&str>,
    agent: &str,
    tool: &str,
    tier: &str,
    t: CapabilityToken,
    payload: &str,
    signature: String,
)
    requires
        call_ensures(CapabilityToken::mint, (key, agent, tool, tier), Some(t)),
        payload@ == "cap:v1:"@ + agent@ + ":"@ + tool@ + ":"@ + decimal(t.expires_at@.secs as nat),
        call_ensures(hmac_sign, (key->0, payload), signature),
    ensures
        has_key(key),
        t.agent_id@ == agent@,
        t.tool_name@ == tool@,
        t.tier@ == tier@,
        3600 <= t.expires_at@.secs <= 8_210_266_876_799,
        t.token@ == payload@ + "."@ + signature@,
{
    assert(payload@ =~= payload_text(agent@, tool@, t.expires_at@.secs));
}

/// A token that is found good now is one that is signed with the key, and is worth what
/// it is worth whenever it is found good.
pub proof fn law_token_verified_now(
    key: Option<&str>,
    raw: &str,
    now: &Timestamp,
    t: CapabilityToken,
    then: Option<CapabilityToken>,
)
    requires
        call_ensures(CapabilityToken::verify, (key, raw), Some(t)),
        call_ensures(CapabilityToken::verify_at, (key, raw, now), then),
    ensures
        t.token@ == raw@,
        then is Some <==> now@.secs < t.expires_at@.secs || (now@.secs == t.expires_at@.secs
            && now@.nanos <= 0),
        then matches Some(u) ==> u@ == t@,
{
}

} // verus!
