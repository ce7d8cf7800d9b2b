//! Capability tokens: short-lived bearer tokens for one agent and one tool.
//!
//! A token is the text `cap:v1:<agent>:<tool>:<expiry>`, a full stop, and the
//! hexadecimal HMAC-SHA256 of that text under the master key. The expiry is in
//! seconds since the start of 1970. The text is read from the right, so that what
//! stands in a name is never taken for the expiry.
use crate::clock::{is_instant, is_reading, InstantView, Timestamp, FIRST_SECOND, LAST_SECOND};
use crate::digest::{constant_eq, hmac_sign, lemma_hex_text, signature_text};
use crate::json::opt_str;
use crate::text::{
    i64_text, join_fields, joined, last_index, last_index_of, law_numeral_round_trip,
    lemma_decimal, lemma_last_index, lemma_split_both, lemma_split_joined, lemma_split_nonempty,
    lemma_split_whole, lemma_utf8_injective, parse_within, parsed_within, signed_decimal, split,
    split_fields,
};
use vstd::prelude::*;
use vstd::string::*;
use vstd::utf8::*;

verus! {

/// A short-lived bearer token issued to an agent for one tool and tier.
#[derive(Clone, Debug)]
pub struct CapabilityToken {
    pub agent_id: String,
    pub tool_name: String,
    pub tier: String,
    pub expires_at: Timestamp,
    /// The signed text, opaque to whoever bears it.
    pub token: String,
}

/// What is asked of the mint.
#[derive(Debug)]
pub struct MintTokenRequest {
    pub agent_id: String,
    pub tool_name: String,
    pub tier: Option<String>,
}

/// What the mint answers.
#[derive(Debug)]
pub struct MintTokenResponse {
    pub token: String,
    /// In the form of RFC 3339.
    pub expires_at: String,
}

/// What a token says, with texts as sequences of characters.
#[verifier::ext_equal]
pub struct TokenView {
    pub agent_id: Seq<char>,
    pub tool_name: Seq<char>,
    pub tier: Seq<char>,
    pub expires_at: InstantView,
    pub token: Seq<char>,
}

impl View for CapabilityToken {
    type V = TokenView;

    open spec fn view(&self) -> TokenView {
        TokenView {
            agent_id: self.agent_id@,
            tool_name: self.tool_name@,
            tier: self.tier@,
            expires_at: self.expires_at@,
            token: self.token@,
        }
    }
}

/// The view of an optional token.
pub open spec fn opt_token(t: Option<CapabilityToken>) -> Option<TokenView> {
    match t {
        Some(t) => Some(t@),
        None => None,
    }
}

/// Whether a master key is configured: it is set, and not to the empty text.
pub open spec fn key_configured(master_key: Option<Seq<char>>) -> bool {
    master_key is Some && master_key->0.len() > 0
}

/// The part of a token that is signed.
pub open spec fn payload_text(agent_id: Seq<char>, tool_name: Seq<char>, expires: int) -> Seq<char> {
    "cap:v1:"@ + agent_id + ":"@ + tool_name + ":"@ + signed_decimal(expires)
}

/// A signed text: payload, full stop, signature.
pub open spec fn signed_text(key: Seq<char>, payload: Seq<char>) -> Seq<char> {
    payload + "."@ + signature_text(key, payload)
}

/// The token minted at `now`: it expires an hour later.
pub open spec fn minted(
    key: Seq<char>,
    agent_id: Seq<char>,
    tool_name: Seq<char>,
    tier: Seq<char>,
    now: InstantView,
) -> TokenView {
    TokenView {
        agent_id,
        tool_name,
        tier,
        expires_at: now.plus_seconds(3600),
        token: signed_text(key, payload_text(agent_id, tool_name, now.secs + 3600)),
    }
}

/// The token minted at `now` under the configured key, if there is a key and an hour
/// later has a calendar date.
pub open spec fn minted_at(
    master_key: Option<Seq<char>>,
    agent_id: Seq<char>,
    tool_name: Seq<char>,
    tier: Seq<char>,
    now: InstantView,
) -> Option<TokenView> {
    if key_configured(master_key) && now.secs + 3600 <= LAST_SECOND {
        Some(minted(master_key->0, agent_id, tool_name, tier, now))
    } else {
        None
    }
}

/// The text in front of the last full stop.
pub open spec fn payload_of(raw: Seq<char>) -> Seq<char> {
    raw.take(last_index(raw, '.')->0)
}

/// The text behind the last full stop.
pub open spec fn signature_of(raw: Seq<char>) -> Seq<char> {
    raw.skip(last_index(raw, '.')->0 + 1)
}

/// Whether a text carries the signature of what stands in front of it.
pub open spec fn signed_with(key: Seq<char>, raw: Seq<char>) -> bool {
    last_index(raw, '.') is Some && signature_of(raw) == signature_text(key, payload_of(raw))
}

/// The expiry that a payload states: its last field, a whole number of seconds that
/// has a calendar date. Five fields are the least that a payload has.
pub open spec fn stated_expiry(payload: Seq<char>) -> Option<int> {
    let fields = split(payload, ':');
    if fields.len() < 5 {
        None
    } else {
        match parsed_within(fields.last(), i64::MIN as int, i64::MAX as int) {
            Some(secs) => if FIRST_SECOND <= secs <= LAST_SECOND {
                Some(secs)
            } else {
                None
            },
            None => None,
        }
    }
}

/// The tool that a payload names: its last field but one.
pub open spec fn stated_tool(payload: Seq<char>) -> Seq<char> {
    let fields = split(payload, ':');
    fields[fields.len() - 2]
}

/// The agent that a payload names: all that stands between its second field and the
/// tool.
pub open spec fn stated_agent(payload: Seq<char>) -> Seq<char> {
    let fields = split(payload, ':');
    joined(fields.subrange(2, fields.len() - 2), ":"@)
}

/// What a token grants at `now`: nothing unless it is signed with the key, states an
/// expiry and has not expired. The tier is no part of the text.
pub open spec fn verified(key: Seq<char>, raw: Seq<char>, now: InstantView) -> Option<TokenView> {
    if !signed_with(key, raw) {
        None
    } else {
        match stated_expiry(payload_of(raw)) {
            Some(secs) => {
                let expires_at = InstantView { secs, nanos: 0 };
                if now.after(expires_at) {
                    None
                } else {
                    Some(
                        TokenView {
                            agent_id: stated_agent(payload_of(raw)),
                            tool_name: stated_tool(payload_of(raw)),
                            tier: Seq::empty(),
                            expires_at,
                            token: raw,
                        },
                    )
                }
            },
            None => None,
        }
    }
}

/// What a token grants at `now` under the configured key; without one, nothing.
pub open spec fn granted(
    master_key: Option<Seq<char>>,
    raw: Seq<char>,
    now: InstantView,
) -> Option<TokenView> {
    if key_configured(master_key) {
        verified(master_key->0, raw, now)
    } else {
        None
    }
}

/// The configured key, if there is one.
fn configured(master_key: Option<&str>) -> (r: Option<&str>)
    ensures
        match r {
            Some(k) => key_configured(opt_str(master_key)) && opt_str(master_key) == Some(k@),
            None => !key_configured(opt_str(master_key)),
        },
{
    match master_key {
        Some(k) => if k.is_empty() {
            None
        } else {
            Some(k)
        },
        None => None,
    }
}

impl CapabilityToken {
    /// How long a token is good for.
    pub const TTL_SECS: i64 = 3600;

    /// Whether tokens are asked for at all: whether a master key is configured.
    pub fn gate_enabled(master_key: Option<&str>) -> (r: bool)
        ensures
            r == key_configured(opt_str(master_key)),
    {
        configured(master_key).is_some()
    }

    /// Mints a token that expires an hour after `now`. Without a configured master
    /// key there is none, nor where an hour later has no calendar date.
    pub fn mint_at(
        master_key: Option<&str>,
        agent_id: &str,
        tool_name: &str,
        tier: &str,
        now: &Timestamp,
    ) -> (r: Option<Self>)
        ensures
            opt_token(r) == minted_at(
                opt_str(master_key),
                agent_id@,
                tool_name@,
                tier@,
                now@,
            ),
    {
        let key = match configured(master_key) {
            Some(key) => key,
            None => return None,
        };
        let expires_at = match now.plus(Self::TTL_SECS as u32) {
            Some(t) => t,
            None => return None,
        };
        let mut payload = "cap:v1:".to_string();
        payload.append(agent_id);
        payload.append(":");
        payload.append(tool_name);
        payload.append(":");
        payload.append(i64_text(expires_at.seconds()).as_str());
        let signature = hmac_sign(key, payload.as_str());
        let mut token = payload;
        token.append(".");
        token.append(signature.as_str());
        Some(
            CapabilityToken {
                agent_id: agent_id.to_string(),
                tool_name: tool_name.to_string(),
                tier: tier.to_string(),
                expires_at,
                token,
            },
        )
    }

    /// What `raw` grants at `now`, if anything.
    pub fn verify_at(master_key: Option<&str>, raw: &str, now: &Timestamp) -> (r: Option<Self>)
        ensures
            opt_token(r) == granted(opt_str(master_key), raw@, now@),
    {
        let key = match configured(master_key) {
            Some(key) => key,
            None => return None,
        };
        let dot = match last_index_of(raw, '.') {
            Some(dot) => dot,
            None => return None,
        };
        let length: usize = raw.unicode_len();
        let payload = raw.substring_char(0, dot);
        let signature = raw.substring_char(dot + 1, length);
        assert(payload@ =~= payload_of(raw@));
        assert(signature@ =~= signature_of(raw@));
        let expected = hmac_sign(key, payload);
        if !constant_eq(signature.as_bytes(), expected.as_str().as_bytes()) {
            return None;
        }
        proof {
            lemma_utf8_injective(signature@, expected@);
        }
        let fields = split_fields(payload, ':');
        let ghost parts = split(payload@, ':');
        assert(fields.deep_view() == parts);
        let count: usize = fields.len();
        if count < 5 {
            return None;
        }
        assert(fields@[count - 1]@ == parts[count - 1] && fields@[count - 2]@ == parts[count - 2]);
        let secs = match parse_within(fields[count - 1].as_str(), i64::MIN, i64::MAX) {
            Some(secs) => secs,
            None => return None,
        };
        let expires_at = match Timestamp::at(secs, 0) {
            Some(t) => t,
            None => return None,
        };
        if now.is_after(&expires_at) {
            return None;
        }
        Some(
            CapabilityToken {
                agent_id: join_fields(&fields, 2, count - 2, ":"),
                tool_name: fields[count - 2].clone(),
                tier: String::new(),
                expires_at,
                token: raw.to_string(),
            },
        )
    }

    /// Mints a token that expires an hour from now. Without a configured master key
    /// there is none, nor where an hour from now has no calendar date.
    pub fn mint(
        master_key: Option<&str>,
        agent_id: &str,
        tool_name: &str,
        tier: &str,
    ) -> (r: Option<Self>)
        ensures
            !key_configured(opt_str(master_key)) ==> r is None,
            exists|now: InstantView|
                is_reading(now) && opt_token(r)
                    == #[trigger] minted_at(
                    opt_str(master_key),
                    agent_id@,
                    tool_name@,
                    tier@,
                    now,
                ),
    {
        let now = Timestamp::now();
        Self::mint_at(master_key, agent_id, tool_name, tier, &now)
    }

    /// What `raw` grants now, if anything.
    pub fn verify(master_key: Option<&str>, raw: &str) -> (r: Option<Self>)
        ensures
            exists|now: InstantView|
                is_reading(now) && opt_token(r)
                    == #[trigger] granted(opt_str(master_key), raw@, now),
    {
        let now = Timestamp::now();
        Self::verify_at(master_key, raw, &now)
    }
}

// ---- laws -------------------------------------------------------------------

/// A colon stands in no numeral.
proof fn lemma_numeral_without_colon(n: int)
    ensures
        !signed_decimal(n).contains(':'),
{
    let s = signed_decimal(n);
    let digits = if n < 0 {
        (-n) as nat
    } else {
        n as nat
    };
    lemma_decimal(digits);
    if s.contains(':') {
        let i = choose|i: int| 0 <= i < s.len() && s[i] == ':';
        if n < 0 {
            if i > 0 {
                assert(s[i] == crate::text::decimal(digits)[i - 1]);
            }
        }
    }
}

/// The fields of a payload: two fixed ones, those of the names, and the expiry.
proof fn lemma_payload_fields(agent_id: Seq<char>, tool_name: Seq<char>, expires: int)
    ensures
        split(payload_text(agent_id, tool_name, expires), ':') == seq!["cap"@, "v1"@] + split(
            agent_id + ":"@ + tool_name,
            ':',
        ) + seq![signed_decimal(expires)],
        split(agent_id + ":"@ + tool_name, ':') == split(agent_id, ':') + split(tool_name, ':'),
{
    reveal_strlit("cap:v1:");
    reveal_strlit("cap");
    reveal_strlit("v1");
    reveal_strlit(":");
    let colon = seq![':'];
    assert(":"@ =~= colon);
    let head = "cap"@ + colon + "v1"@;
    let names = agent_id + colon + tool_name;
    let numeral = signed_decimal(expires);
    assert(payload_text(agent_id, tool_name, expires) =~= head + colon + names + colon + numeral);
    lemma_numeral_without_colon(expires);
    assert(!"cap"@.contains(':'));
    assert(!"v1"@.contains(':'));
    lemma_split_whole("cap"@, ':');
    lemma_split_whole("v1"@, ':');
    lemma_split_whole(numeral, ':');
    lemma_split_both("cap"@, "v1"@, ':');
    lemma_split_both(head, names, ':');
    lemma_split_both(head + colon + names, numeral, ':');
    lemma_split_both(agent_id, tool_name, ':');
    assert(seq!["cap"@] + seq!["v1"@] =~= seq!["cap"@, "v1"@]);
}

/// The names in a payload, put together, are those that it was made of; where the tool
/// holds no colon, each is.
proof fn lemma_payload_names(agent_id: Seq<char>, tool_name: Seq<char>, expires: int)
    ensures
        ({
            let payload = payload_text(agent_id, tool_name, expires);
            &&& split(payload, ':').len() >= 5
            &&& split(payload, ':').last() == signed_decimal(expires)
            &&& stated_agent(payload) + ":"@ + stated_tool(payload) == agent_id + ":"@ + tool_name
            &&& !tool_name.contains(':') ==> stated_agent(payload) == agent_id && stated_tool(
                payload,
            ) == tool_name
        }),
{
    reveal_strlit(":");
    assert(":"@ =~= seq![':']);
    let payload = payload_text(agent_id, tool_name, expires);
    let fields = split(payload, ':');
    let names = split(agent_id + ":"@ + tool_name, ':');
    lemma_payload_fields(agent_id, tool_name, expires);
    lemma_split_nonempty(agent_id, ':');
    lemma_split_nonempty(tool_name, ':');
    assert(fields.len() == names.len() + 3);
    assert(fields.subrange(2, fields.len() - 2) =~= names.drop_last());
    assert(fields[fields.len() - 2] == names.last());
    lemma_split_joined(agent_id + ":"@ + tool_name, ':');
    if !tool_name.contains(':') {
        lemma_split_whole(tool_name, ':');
        lemma_split_joined(agent_id, ':');
        assert(names.drop_last() =~= split(agent_id, ':'));
    }
}

/// A signed text is taken apart into its payload and its signature.
pub proof fn lemma_signed_text(key: Seq<char>, payload: Seq<char>)
    ensures
        signed_with(key, signed_text(key, payload)),
        payload_of(signed_text(key, payload)) == payload,
{
    reveal_strlit(".");
    assert("."@ =~= seq!['.']);
    let signature = signature_text(key, payload);
    let raw = signed_text(key, payload);
    lemma_hex_text(
        crate::digest::hmac_sha256_code(encode_utf8(key), encode_utf8(payload)),
    );
    lemma_last_index(payload, signature, '.');
    assert(payload_of(raw) =~= payload);
    assert(signature_of(raw) =~= signature);
}

/// A minted token grants something up to and with the start of the second that it
/// expires in, an hour after it was minted, and after that nothing, whatever its agent
/// and its tool are called. What it grants is the agent and the tool it was minted for;
/// where the tool holds a colon, the text cannot tell where the one name ends and the
/// other begins, but the two with the colon between them are the same.
pub proof fn law_minted_token_grants(
    key: Seq<char>,
    agent_id: Seq<char>,
    tool_name: Seq<char>,
    tier: Seq<char>,
    now: InstantView,
    later: InstantView,
)
    requires
        is_instant(now.secs, now.nanos),
        now.secs + 3600 <= LAST_SECOND,
    ensures
        ({
            let token = minted(key, agent_id, tool_name, tier, now).token;
            let expires_at = InstantView { secs: now.secs + 3600, nanos: 0 };
            &&& verified(key, token, later) is Some <==> !later.after(expires_at)
            &&& verified(key, token, later) matches Some(t) ==> {
                &&& t.expires_at == expires_at
                &&& t.token == token
                &&& t.tier == Seq::<char>::empty()
                &&& t.agent_id + ":"@ + t.tool_name == agent_id + ":"@ + tool_name
                &&& !tool_name.contains(':') ==> t.agent_id == agent_id && t.tool_name
                    == tool_name
            }
        }),
{
    let expires = now.secs + 3600;
    lemma_signed_text(key, payload_text(agent_id, tool_name, expires));
    lemma_payload_names(agent_id, tool_name, expires);
    law_numeral_round_trip(expires, i64::MIN as int, i64::MAX as int);
}

/// What is granted was signed with the master key, and is granted as it stands in
/// the token and not after its expiry.
pub proof fn law_granted_means_signed(
    master_key: Option<Seq<char>>,
    raw: Seq<char>,
    now: InstantView,
)
    ensures
        granted(master_key, raw, now) matches Some(t) ==> {
            &&& key_configured(master_key)
            &&& raw == signed_text(master_key->0, payload_of(raw))
            &&& t.token == raw
            &&& !now.after(t.expires_at)
        },
{
    reveal_strlit(".");
    assert("."@ =~= seq!['.']);
    crate::text::lemma_last_index_found(raw, '.');
    if granted(master_key, raw, now) is Some {
        assert(raw =~= signed_text(master_key->0, payload_of(raw)));
    }
}

/// A token that grants something at one time grants the same at any earlier one.
pub proof fn law_grants_shrink_with_time(
    master_key: Option<Seq<char>>,
    raw: Seq<char>,
    earlier: InstantView,
    later: InstantView,
)
    requires
        !earlier.after(later),
    ensures
        granted(master_key, raw, later) is Some ==> granted(master_key, raw, earlier) == granted(
            master_key,
            raw,
            later,
        ),
{
}

} // verus!
