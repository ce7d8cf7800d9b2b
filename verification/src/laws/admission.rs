//! Letting callers in, and reading what they ask for.
use crate::capability_token::{payload_text, CapabilityToken, MintTokenRequest};
use crate::clock::{is_reading, rfc3339_text, InstantView, Timestamp, LAST_SECOND};
use crate::digest::signature_text;
use crate::float64::F64;
use crate::http::HttpRequest;
use crate::job::{is_random_id, parse_constraints, parse_requirements, parse_workload};
use crate::job::{ComputeConstraints, Job, JobId, WorkloadRequirements, WorkloadType};
use crate::json::{member_value, opt_str, Json, JsonView};
use crate::laws::jobs::{follows_number, lemma_workload_words};
use crate::laws::replies::{is_refusal, size, tells};
use crate::laws::tokens::has_key;
use crate::server::{deposit_wanted, job_from, job_with_id, listen_port, market_step, mint_answer};
use crate::server::{mint_compute_token, mint_compute_token_at, require_capability_token};
use crate::server::{require_capability_token_at, MarketStep, Reply, SubmitBody};
use crate::text::{decimal, law_numeral_round_trip, parse_within};
use vstd::prelude::*;

verus! {

/// A job is what its submission describes, each part read by its own rule: work of no
/// stated kind is generic, and a job that states nothing to run has an empty object.
pub proof fn law_job_described(
    body: SubmitBody,
    id: JobId,
    word: &str,
    workload: WorkloadType,
    requirements: WorkloadRequirements,
    constraints: ComputeConstraints,
    job: Job,
    fresh: Job,
)
    requires
        call_ensures(job_with_id, (body, id), job),
        call_ensures(job_from, (body,), fresh),
        body.workload matches Some(s) ==> word@ == s@,
        call_ensures(parse_workload, (word,), workload),
        match body.requirements {
            Some(v) => call_ensures(parse_requirements, (Some(&v),), requirements),
            None => call_ensures(parse_requirements, (None::<&Json>,), requirements),
        },
        match body.constraints {
            Some(v) => call_ensures(parse_constraints, (Some(&v),), constraints),
            None => call_ensures(parse_constraints, (None::<&Json>,), constraints),
        },
    ensures
        job.id == id,
        is_described(job, body, workload, requirements, constraints),
        is_described(fresh, body, workload, requirements, constraints),
        is_random_id(fresh.id),
{
    lemma_workload_words();
}

/// Whether a job has what its submission describes.
pub open spec fn is_described(
    job: Job,
    body: SubmitBody,
    workload: WorkloadType,
    requirements: WorkloadRequirements,
    constraints: ComputeConstraints,
) -> bool {
    &&& job.submitter_id@ == body.submitter_id@
    &&& body.workload is Some ==> job.workload == workload
    &&& body.workload is None ==> job.workload == WorkloadType::Generic
    &&& job.requirements == requirements
    &&& job.constraints.max_price_cents == constraints.max_price_cents
    &&& job.constraints.max_queue_secs == constraints.max_queue_secs
    &&& job.constraints.allow_external == constraints.allow_external
    &&& job.constraints.privacy == constraints.privacy
    &&& job.constraints.regions@.len() == constraints.regions@.len()
    &&& match body.runtime_spec {
        Some(v) => job.runtime_spec@ == v@,
        None => job.runtime_spec@ is Object && size(job.runtime_spec@) == 0,
    }
}

/// The mint of tokens answers with the token and when it ends; with 503 where no key is
/// configured, and with 500 where a token cannot be given out.
pub proof fn law_token_shown(
    key: Option<&str>,
    request: &MintTokenRequest,
    agent: &str,
    tool: &str,
    tier: &str,
    now: &Timestamp,
    token: Option<CapabilityToken>,
    expires_at: Timestamp,
    ends: String,
    r: Reply,
)
    requires
        call_ensures(mint_compute_token_at, (key, request, now), r),
        agent@ == request.agent_id@,
        tool@ == request.tool_name@,
        call_ensures(CapabilityToken::mint_at, (key, agent, tool, tier, now), token),
        token matches Some(t) ==> expires_at@ == t.expires_at@,
        call_ensures(Timestamp::rfc3339, (&expires_at,), ends),
    ensures
        !has_key(key) ==> is_refusal(r, 503, "UCX_GPUAI_MASTER_KEY not configured"@),
        has_key(key) && token is None ==> is_refusal(r, 500, "failed to mint token"@),
        token matches Some(t) ==> {
            &&& r.status == 200
            &&& size(r.body@) == 2
            &&& tells(r.body@, "token"@, t.token@)
            &&& tells(r.body@, "expires_at"@, ends@)
        },
{
    reveal_strlit("token");
    reveal_strlit("expires_at");
    assert("token"@.len() == 5 && "expires_at"@.len() == 10);
    reveal_with_fuel(member_value, 3);
}

/// Whether a text is a token for an agent and a tool that ends at a given second, signed
/// with a key.
pub open spec fn is_token_for(
    token: Seq<char>,
    key: Seq<char>,
    request: MintTokenRequest,
    ends: int,
) -> bool {
    let payload = "cap:v1:"@ + request.agent_id@ + ":"@ + request.tool_name@ + ":"@ + decimal(
        ends as nat,
    );
    token == payload + "."@ + signature_text(key, payload)
}

/// Whether a reply shows a token that was given out at a given time.
pub open spec fn shows_token(
    body: JsonView,
    key: Seq<char>,
    request: MintTokenRequest,
    now: InstantView,
) -> bool {
    &&& tells(body, "expires_at"@, rfc3339_text(now.secs + 3600, now.nanos))
    &&& body.get("token"@) matches Some(JsonView::Str(token)) && is_token_for(
        token,
        key,
        request,
        now.secs + 3600,
    )
}

/// A token asked for now is shown in the same way, or refused in the same way: it ends
/// an hour after a reading of the clock.
pub proof fn law_token_shown_now(key: Option<&str>, request: &MintTokenRequest, r: Reply)
    requires
        call_ensures(mint_compute_token, (key, request), r),
    ensures
        !has_key(key) ==> is_refusal(r, 503, "UCX_GPUAI_MASTER_KEY not configured"@),
        has_key(key) ==> is_refusal(r, 500, "failed to mint token"@) || (r.status == 200 && size(
            r.body@,
        ) == 2 && exists|now: InstantView| #[trigger]
            is_reading(now) && shows_token(r.body@, key->0@, *request, now)),
{
    let now = choose|now: InstantView|
        is_reading(now) && r@ == #[trigger] mint_answer(opt_str(key), *request, now);
    assert(is_reading(now));
    if has_key(key) && now.secs + 3600 <= LAST_SECOND {
        let payload = "cap:v1:"@ + request.agent_id@ + ":"@ + request.tool_name@ + ":"@ + decimal(
            (now.secs + 3600) as nat,
        );
        assert(payload =~= payload_text(request.agent_id@, request.tool_name@, now.secs + 3600));
    }
    reveal_strlit("token");
    reveal_strlit("expires_at");
    assert("token"@.len() == 5 && "expires_at"@.len() == 10);
    reveal_with_fuel(member_value, 3);
}

/// Whether a token is the one of a caller that nobody asked for a token.
pub open spec fn is_anonymous(t: CapabilityToken) -> bool {
    &&& t.agent_id@ == "anonymous"@
    &&& t.tool_name@ == "*"@
    &&& t.tier@ == "community"@
    &&& t.token@.len() == 0
}

/// A caller is let in with a good token behind the word `Bearer` in the `Authorization`
/// header, and refused with 401 for any want of that. Where no key is configured, every
/// caller is let in for an hour, as anonymous.
pub proof fn law_callers_let_in(
    key: Option<&str>,
    authorization: Option<&str>,
    now: &Timestamp,
    raw: &str,
    token: Option<CapabilityToken>,
    r: Result<CapabilityToken, Reply>,
)
    requires
        call_ensures(require_capability_token_at, (key, authorization, now), r),
        call_ensures(CapabilityToken::verify_at, (key, raw, now), token),
    ensures
        !has_key(key) ==> (r matches Ok(t) && is_anonymous(t) && t.expires_at@.secs == now@.secs
            + 3600 && t.expires_at@.nanos == now@.nanos),
        has_key(key) ==> (match authorization {
            None => r matches Err(reply) && is_refusal(
                reply,
                401,
                "Authorization header required"@,
            ),
            Some(header) => {
                &&& header@ == "Bearer "@ + raw@ ==> (match token {
                    Some(t) => r matches Ok(u) && u@ == t@,
                    None => r matches Err(reply) && is_refusal(
                        reply,
                        401,
                        "invalid or expired capability token"@,
                    ),
                })
                &&& (forall|rest: Seq<char>| header@ != #[trigger] ("Bearer "@ + rest)) ==> (r
                    matches Err(reply) && is_refusal(reply, 401, "Bearer token required"@))
            },
        }),
{
    if let Some(header) = authorization {
        let n = "Bearer "@.len() as int;
        if header@ == "Bearer "@ + raw@ {
            assert(header@.take(n) =~= "Bearer "@);
            assert(header@.skip(n) =~= raw@);
        }
        if n <= header@.len() && header@.take(n) == "Bearer "@ {
            assert(header@ =~= "Bearer "@ + header@.skip(n));
        }
    }
}

/// The same for a caller that comes now, as far as the time does not decide: a token that
/// is good now is the one that it is whenever it is good.
pub proof fn law_callers_let_in_now(
    key: Option<&str>,
    authorization: Option<&str>,
    raw: &str,
    then: &Timestamp,
    token: Option<CapabilityToken>,
    r: Option<Result<CapabilityToken, Reply>>,
)
    requires
        call_ensures(require_capability_token, (key, authorization), r),
        call_ensures(CapabilityToken::verify_at, (key, raw, then), token),
    ensures
        !has_key(key) ==> (r matches Some(answer) ==> (answer matches Ok(t) && is_anonymous(t))),
        has_key(key) ==> (r matches Some(answer) && (match authorization {
            None => answer matches Err(reply) && is_refusal(
                reply,
                401,
                "Authorization header required"@,
            ),
            Some(header) => {
                &&& header@ == "Bearer "@ + raw@ ==> (match answer {
                    Ok(t) => {
                        &&& t.token@ == raw@
                        &&& token is Some <==> then@.secs < t.expires_at@.secs || (then@.secs
                            == t.expires_at@.secs && then@.nanos <= 0)
                        &&& token matches Some(u) ==> u@ == t@
                    },
                    Err(reply) => is_refusal(reply, 401, "invalid or expired capability token"@),
                })
                &&& (forall|rest: Seq<char>| header@ != #[trigger] ("Bearer "@ + rest)) ==> (answer
                    matches Err(reply) && is_refusal(reply, 401, "Bearer token required"@))
            },
        })),
{
    if let Some(header) = authorization {
        let n = "Bearer "@.len() as int;
        if header@ == "Bearer "@ + raw@ {
            assert(header@.take(n) =~= "Bearer "@);
            assert(header@.skip(n) =~= raw@);
        }
        if n <= header@.len() && header@.take(n) == "Bearer "@ {
            assert(header@ =~= "Bearer "@ + header@.skip(n));
        }
    }
}

/// A request to the marketplace goes out where its caller is let in and there is access;
/// a caller that is not let in is answered with the refusal, and without access the
/// answer is 501.
pub proof fn law_market_asked(
    let_in: Result<CapabilityToken, Reply>,
    request: Option<HttpRequest>,
    r: MarketStep,
)
    requires
        call_ensures(market_step, (let_in, request), r),
    ensures
        match (let_in, request) {
            (Err(reply), _) => r matches MarketStep::Answer(a) && a.status == reply.status
                && a.body@ == reply.body@,
            (Ok(_), Some(q)) => r matches MarketStep::Ask(p) && p@ == q@,
            (Ok(_), None) => r matches MarketStep::Answer(a) && is_refusal(
                a,
                501,
                "gpu-ai adapter not enabled"@,
            ),
        },
{
}

/// What a caller wants to pay in: the currency and the amount under their names, bitcoin
/// and nothing where they are not stated.
pub proof fn law_deposit_read(body: &Json, r: (String, F64))
    requires
        call_ensures(deposit_wanted, (body,), r),
    ensures
        match body@.get("currency"@) {
            Some(JsonView::Str(s)) => r.0@ == s,
            _ => r.0@ == "BTC"@,
        },
        follows_number(body@, "amount_usd"@, Some(r.1)) || (follows_number(
            body@,
            "amount_usd"@,
            None,
        ) && r.1.bits == 0),
{
}

/// The service listens at the configured port, and at 7790 where none is configured or
/// the text is no port.
pub proof fn law_port_read(configured: Option<&str>, n: u16, r: u16)
    requires
        call_ensures(listen_port, (configured,), r),
    ensures
        configured is None ==> r == 7790,
        configured matches Some(s) ==> (s@ == decimal(n as nat) ==> r == n),
{
    law_numeral_round_trip(n as int, 0, 65535);
}

/// A text that denotes no port, or one that is too large, is passed over.
pub proof fn law_no_port_read(configured: &str, parsed: Option<i64>, r: u16)
    requires
        call_ensures(listen_port, (Some(configured),), r),
        call_ensures(parse_within, (configured, 0i64, 65535i64), parsed),
    ensures
        parsed matches Some(n) ==> r == n,
        parsed is None ==> r == 7790,
{
}

} // verus!
