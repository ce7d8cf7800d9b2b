//! Dealing with the marketplace.
use crate::float64::{dollars_to_cents, double_of_int, F64, TWO_53};
use crate::http::{status_text, HttpRequest, Method, Outcome};
use crate::job::UcxError;
use crate::json::{member_value, JsonView};
use crate::laws::exchange::{agreed, asks, blames, document};
use crate::laws::jobs::follows_number;
use crate::laws::numbers::lemma_whole_dollars;
use crate::laws::replies::{counts, may_tell, measures, size, tells};
use crate::marketplace::{AccountBalance, DepositAddress, EarningsReport, GpuAiMarketplaceAdapter};
use crate::marketplace::{GpuSpec, MachineId};
use vstd::prelude::*;

verus! {

/// Access is by the master key where there is one, else by the older key; an empty key
/// is none.
pub proof fn law_market_access(
    master: Option<&str>,
    older: Option<&str>,
    r: Option<GpuAiMarketplaceAdapter>,
)
    requires
        call_ensures(GpuAiMarketplaceAdapter::from_env, (master, older), r),
    ensures
        match (master, older) {
            (Some(m), Some(o)) => {
                &&& m@.len() > 0 ==> r is Some && r->0@ == m@
                &&& m@.len() == 0 && o@.len() > 0 ==> r is Some && r->0@ == o@
                &&& m@.len() == 0 && o@.len() == 0 ==> r is None
            },
            (Some(m), None) => {
                &&& m@.len() > 0 ==> r is Some && r->0@ == m@
                &&& m@.len() == 0 ==> r is None
            },
            (None, Some(o)) => {
                &&& o@.len() > 0 ==> r is Some && r->0@ == o@
                &&& o@.len() == 0 ==> r is None
            },
            (None, None) => r is None,
        },
{
}

/// Why a call came to nothing: the reason that it failed, or the call, the status and
/// the text of a refusal.
pub open spec fn is_failure_of(e: UcxError, call: Seq<char>, outcome: Outcome) -> bool {
    match outcome {
        Outcome::Failed { reason } => blames(e, "gpu.ai"@, reason@),
        Outcome::Replied { status, body } => {
            let told = match body {
                Some(d) => d.text@,
                None => "null"@,
            };
            blames(e, "gpu.ai"@, call + " "@ + status_text(status as int) + ": "@ + told)
        },
    }
}

/// Whether a value is an object with a double under a key, or null for none.
pub open spec fn may_measure(j: JsonView, key: Seq<char>, x: Option<F64>) -> bool {
    match x {
        Some(x) => measures(j, key, x),
        None => j.get(key) == Some(JsonView::Null),
    }
}

proof fn lemma_offer_apart()
    ensures
        "cpu_cores"@ != "disk_gb"@,
        "cpu_cores"@ != "gpu_count"@,
        "cpu_cores"@ != "gpu_model"@,
        "cpu_cores"@ != "price_gpu_hour_cents"@,
        "cpu_cores"@ != "ram_gb"@,
        "cpu_cores"@ != "region"@,
        "cpu_cores"@ != "vram_gb"@,
        "disk_gb"@ != "gpu_count"@,
        "disk_gb"@ != "gpu_model"@,
        "disk_gb"@ != "price_gpu_hour_cents"@,
        "disk_gb"@ != "ram_gb"@,
        "disk_gb"@ != "region"@,
        "disk_gb"@ != "vram_gb"@,
        "gpu_count"@ != "gpu_model"@,
        "gpu_count"@ != "price_gpu_hour_cents"@,
        "gpu_count"@ != "ram_gb"@,
        "gpu_count"@ != "region"@,
        "gpu_count"@ != "vram_gb"@,
        "gpu_model"@ != "price_gpu_hour_cents"@,
        "gpu_model"@ != "ram_gb"@,
        "gpu_model"@ != "region"@,
        "gpu_model"@ != "vram_gb"@,
        "price_gpu_hour_cents"@ != "ram_gb"@,
        "price_gpu_hour_cents"@ != "region"@,
        "price_gpu_hour_cents"@ != "vram_gb"@,
        "ram_gb"@ != "region"@,
        "ram_gb"@ != "vram_gb"@,
        "region"@ != "vram_gb"@,
{
    reveal_strlit("cpu_cores");
    reveal_strlit("disk_gb");
    reveal_strlit("gpu_count");
    reveal_strlit("gpu_model");
    reveal_strlit("price_gpu_hour_cents");
    reveal_strlit("ram_gb");
    reveal_strlit("region");
    reveal_strlit("vram_gb");
    assert("cpu_cores"@.len() == 9);
    assert("disk_gb"@.len() == 7);
    assert("gpu_count"@.len() == 9);
    assert("gpu_model"@.len() == 9);
    assert("price_gpu_hour_cents"@.len() == 20);
    assert("ram_gb"@.len() == 6);
    assert("region"@.len() == 6);
    assert("vram_gb"@.len() == 7);
    assert("cpu_cores"@[0] != "gpu_count"@[0]);
    assert("cpu_cores"@[0] != "gpu_model"@[0]);
    assert("disk_gb"@[0] != "vram_gb"@[0]);
    assert("gpu_count"@[4] != "gpu_model"@[4]);
    assert("ram_gb"@[1] != "region"@[1]);
}

/// A machine is offered with each of its properties under its own name, null where it is
/// not stated; one GPU where their number is not.
#[verifier::rlimit(40)]
pub proof fn law_machine_offered(
    a: &GpuAiMarketplaceAdapter,
    m: &GpuSpec,
    r: HttpRequest,
)
    requires
        call_ensures(GpuAiMarketplaceAdapter::list_machine_request, (a, m), r),
    ensures
        asks(r, Method::Post, "https://api.gpu.ai/v1"@ + "/supplier/machines"@, Some(a@)),
        r.timeout_secs is None,
        r.body matches Some(body) && {
            &&& size(body@) == 8
            &&& may_tell(body@, "gpu_model"@, m.gpu_model)
            &&& may_measure(body@, "vram_gb"@, m.vram_gb)
            &&& m.gpu_count matches Some(n) ==> counts(body@, "gpu_count"@, n as u64)
            &&& m.gpu_count is None ==> counts(body@, "gpu_count"@, 1)
            &&& m.cpu_cores matches Some(n) ==> counts(body@, "cpu_cores"@, n as u64)
            &&& m.cpu_cores is None ==> body@.get("cpu_cores"@) == Some(JsonView::Null)
            &&& may_measure(body@, "ram_gb"@, m.ram_gb)
            &&& may_measure(body@, "disk_gb"@, m.disk_gb)
            &&& m.price_gpu_hour_cents matches Some(n) ==> counts(
                body@,
                "price_gpu_hour_cents"@,
                n,
            )
            &&& m.price_gpu_hour_cents is None ==> body@.get("price_gpu_hour_cents"@) == Some(
                JsonView::Null,
            )
            &&& may_tell(body@, "region"@, m.region)
        },
{
    lemma_offer_apart();
    reveal_with_fuel(member_value, 9);
}

/// A machine that is not described states nothing.
pub proof fn law_nothing_described(m: GpuSpec)
    requires
        call_ensures(GpuSpec::default, (), m),
    ensures
        m.gpu_model is None && m.vram_gb is None && m.gpu_count is None && m.cpu_cores is None,
        m.ram_gb is None && m.disk_gb is None && m.price_gpu_hour_cents is None && m.region is None,
{
}

/// A machine that was taken is named by `id`, else by `machine_id`, else unknown.
pub proof fn law_machine_named(
    a: &GpuAiMarketplaceAdapter,
    outcome: &Outcome,
    r: Result<MachineId, UcxError>,
)
    requires
        call_ensures(GpuAiMarketplaceAdapter::list_machine_sync, (a, outcome), r),
    ensures
        match r {
            Ok(id) => agreed(*outcome) && (match (
                document(*outcome).get("id"@),
                document(*outcome).get("machine_id"@),
            ) {
                (Some(JsonView::Str(s)), _) => id@ == s,
                (_, Some(JsonView::Str(s))) => id@ == s,
                _ => id@ == "unknown"@,
            }),
            Err(e) => !agreed(*outcome) && is_failure_of(
                e,
                "POST /supplier/machines"@,
                *outcome,
            ),
        },
{
}

/// Whether a count is the one of a member, and zero where there is none.
pub open spec fn follows_count(j: JsonView, key: Seq<char>, n: u64) -> bool {
    match j.get(key) {
        Some(JsonView::UInt(stated)) => n == stated,
        _ => n == 0,
    }
}

/// Each number of a report of earnings is stated by the member of its own name and by no
/// other; one that is not stated is zero.
pub proof fn law_earnings_by_name(
    a: &GpuAiMarketplaceAdapter,
    outcome: &Outcome,
    q: HttpRequest,
    r: Result<EarningsReport, UcxError>,
)
    requires
        call_ensures(GpuAiMarketplaceAdapter::check_earnings_sync, (a, outcome), r),
        call_ensures(GpuAiMarketplaceAdapter::check_earnings_request, (a,), q),
    ensures
        asks(q, Method::Get, "https://api.gpu.ai/v1"@ + "/supplier/earnings"@, Some(a@)),
        q.body is None && q.timeout_secs is None,
        match r {
            Ok(report) => {
                let reply = document(*outcome);
                &&& agreed(*outcome)
                &&& follows_count(reply, "total_earned_cents"@, report.total_earned_cents)
                &&& follows_count(reply, "pending_payout_cents"@, report.pending_payout_cents)
                &&& follows_count(reply, "jobs_completed"@, report.jobs_completed)
                &&& follows_number(
                    reply,
                    "gpu_hours_contributed"@,
                    Some(report.gpu_hours_contributed),
                ) || (follows_number(reply, "gpu_hours_contributed"@, None)
                    && report.gpu_hours_contributed.bits == 0)
                &&& report.raw@ == reply
            },
            Err(e) => !agreed(*outcome) && is_failure_of(e, "GET /supplier/earnings"@, *outcome),
        },
{
}

/// Two replies that agree on a member agree on the number of that name, whatever else
/// they hold.
pub proof fn law_earnings_independent(
    a: &GpuAiMarketplaceAdapter,
    outcome: &Outcome,
    other: &Outcome,
    r: EarningsReport,
    s: EarningsReport,
)
    requires
        call_ensures(
            GpuAiMarketplaceAdapter::check_earnings_sync,
            (a, outcome),
            Ok::<EarningsReport, UcxError>(r),
        ),
        call_ensures(
            GpuAiMarketplaceAdapter::check_earnings_sync,
            (a, other),
            Ok::<EarningsReport, UcxError>(s),
        ),
    ensures
        ({
            let (x, y) = (document(*outcome), document(*other));
            &&& x.get("total_earned_cents"@) == y.get("total_earned_cents"@)
                ==> r.total_earned_cents == s.total_earned_cents
            &&& x.get("pending_payout_cents"@) == y.get("pending_payout_cents"@)
                ==> r.pending_payout_cents == s.pending_payout_cents
            &&& x.get("jobs_completed"@) == y.get("jobs_completed"@) ==> r.jobs_completed
                == s.jobs_completed
            &&& x.get("gpu_hours_contributed"@) == y.get("gpu_hours_contributed"@)
                ==> r.gpu_hours_contributed == s.gpu_hours_contributed
        }),
{
}

/// A machine is taken back by a DELETE of its own address; that succeeds where the
/// marketplace agrees.
pub proof fn law_machine_reclaimed(
    a: &GpuAiMarketplaceAdapter,
    id: &MachineId,
    outcome: &Outcome,
    q: HttpRequest,
    r: Result<(), UcxError>,
)
    requires
        call_ensures(GpuAiMarketplaceAdapter::reclaim_machine_request, (a, id), q),
        call_ensures(GpuAiMarketplaceAdapter::reclaim_machine_sync, (a, id, outcome), r),
    ensures
        q.url@ =~= "https://api.gpu.ai/v1"@ + "/supplier/machines/"@ + id@,
        asks(q, Method::Delete, q.url@, Some(a@)),
        q.body is None && q.timeout_secs is None,
        match r {
            Ok(_) => agreed(*outcome),
            Err(e) => !agreed(*outcome) && is_failure_of(
                e,
                "DELETE /supplier/machines/"@ + id@,
                *outcome,
            ),
        },
{
}

/// An address to pay in at is asked for with the currency and the amount, and given with
/// the same; the address and the least that is taken are those of the reply.
pub proof fn law_deposit_by_name(
    a: &GpuAiMarketplaceAdapter,
    currency: &str,
    amount: F64,
    outcome: &Outcome,
    q: HttpRequest,
    r: Result<DepositAddress, UcxError>,
)
    requires
        call_ensures(GpuAiMarketplaceAdapter::deposit_crypto_request, (a, currency, amount), q),
        call_ensures(
            GpuAiMarketplaceAdapter::deposit_crypto_sync,
            (a, currency, amount, outcome),
            r,
        ),
    ensures
        asks(q, Method::Post, "https://api.gpu.ai/v1"@ + "/billing/crypto/deposit"@, Some(a@)),
        q.timeout_secs is None,
        q.body matches Some(body) && {
            &&& size(body@) == 2
            &&& tells(body@, "currency"@, currency@)
            &&& measures(body@, "amount_usd"@, amount)
        },
        match r {
            Ok(d) => {
                let reply = document(*outcome);
                &&& agreed(*outcome)
                &&& d.currency@ == currency@
                &&& d.amount_usd == amount
                &&& match reply.get("address"@) {
                    Some(JsonView::Str(s)) => d.address@ == s,
                    _ => d.address@ == ""@,
                }
                &&& follows_number(reply, "minimum_native"@, d.minimum_native)
                &&& d.raw@ == reply
            },
            Err(e) => !agreed(*outcome) && is_failure_of(
                e,
                "POST /billing/crypto/deposit"@,
                *outcome,
            ),
        },
{
    reveal_strlit("currency");
    reveal_strlit("amount_usd");
    assert("currency"@.len() == 8 && "amount_usd"@.len() == 10);
    reveal_with_fuel(member_value, 3);
}

/// A balance is the stated cents, or else the stated dollars as cents, or else nothing;
/// its currency is the stated one, or dollars.
pub proof fn law_balance_by_name(
    a: &GpuAiMarketplaceAdapter,
    outcome: &Outcome,
    q: HttpRequest,
    dollars: F64,
    cents: u64,
    r: Result<AccountBalance, UcxError>,
)
    requires
        call_ensures(GpuAiMarketplaceAdapter::check_balance_sync, (a, outcome), r),
        call_ensures(GpuAiMarketplaceAdapter::check_balance_request, (a,), q),
        call_ensures(dollars_to_cents, (dollars,), cents),
    ensures
        asks(q, Method::Get, "https://api.gpu.ai/v1"@ + "/billing/balance"@, Some(a@)),
        q.body is None && q.timeout_secs is None,
        match r {
            Ok(b) => {
                let reply = document(*outcome);
                let stated = reply.get("balance_cents"@);
                &&& agreed(*outcome)
                &&& stated matches Some(JsonView::UInt(n)) ==> b.balance_cents == n
                &&& !(stated matches Some(JsonView::UInt(n))) && follows_number(
                    reply,
                    "balance_usd"@,
                    Some(dollars),
                ) ==> b.balance_cents == cents
                &&& !(stated matches Some(JsonView::UInt(n))) && follows_number(
                    reply,
                    "balance_usd"@,
                    None,
                ) ==> b.balance_cents == 0
                &&& match reply.get("currency"@) {
                    Some(JsonView::Str(s)) => b.currency@ == s,
                    _ => b.currency@ == "USD"@,
                }
                &&& b.raw@ == reply
            },
            Err(e) => !agreed(*outcome) && is_failure_of(e, "GET /billing/balance"@, *outcome),
        },
{
}

/// A balance of whole dollars is a hundred times as many cents.
pub proof fn law_balance_of_whole_dollars(
    a: &GpuAiMarketplaceAdapter,
    outcome: &Outcome,
    dollars: u64,
    b: AccountBalance,
)
    requires
        call_ensures(
            GpuAiMarketplaceAdapter::check_balance_sync,
            (a, outcome),
            Ok::<AccountBalance, UcxError>(b),
        ),
        document(*outcome).get("balance_cents"@) is None,
        document(*outcome).get("balance_usd"@) == Some(JsonView::UInt(dollars)) || document(
            *outcome,
        ).get("balance_usd"@) == Some(JsonView::Float(double_of_int(dollars as int))),
        100 * dollars < TWO_53,
    ensures
        b.balance_cents == 100 * dollars,
{
    lemma_whole_dollars(dollars as nat);
}

} // verus!
