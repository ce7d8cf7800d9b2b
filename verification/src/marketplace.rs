//! GPU.ai's marketplace: offering a machine of one's own there, and paying in.
//!
//! Endpoints that an account has no access to answer with an error status, which
//! comes out as an adapter error.
use crate::float64::{dollars_to_cents, hundredfold, F64};
use crate::http::{bearer, bearer_header, display_status, is_success, status_text, success};
use crate::http::{HttpRequest, Method, Outcome, RequestView};
use crate::job::{adapter_error, ErrorView, UcxError};
use crate::json::{borrow_text, number, opt_str, opt_text, real_json, string_or_null, text, text_or_null};
use crate::json::{Fields, Json, JsonView};
use vstd::prelude::*;
use vstd::string::*;

verus! {

/// A machine that is offered on the marketplace.
#[derive(Clone, Debug)]
pub struct GpuSpec {
    /// Such as `NVIDIA RTX 3090`.
    pub gpu_model: Option<String>,
    pub vram_gb: Option<F64>,
    pub gpu_count: Option<u8>,
    pub cpu_cores: Option<u32>,
    pub ram_gb: Option<F64>,
    pub disk_gb: Option<F64>,
    /// The price asked for a GPU and an hour, in US cents; without one the
    /// marketplace sets it.
    pub price_gpu_hour_cents: Option<u64>,
    /// Such as `US` or `EU`.
    pub region: Option<String>,
}

impl Default for GpuSpec {
    /// A machine of which nothing is said.
    fn default() -> (r: GpuSpec)
        ensures
            r == (GpuSpec {
                gpu_model: None,
                vram_gb: None,
                gpu_count: None,
                cpu_cores: None,
                ram_gb: None,
                disk_gb: None,
                price_gpu_hour_cents: None,
                region: None,
            }),
    {
        GpuSpec {
            gpu_model: None,
            vram_gb: None,
            gpu_count: None,
            cpu_cores: None,
            ram_gb: None,
            disk_gb: None,
            price_gpu_hour_cents: None,
            region: None,
        }
    }
}

/// The marketplace's name for a machine.
pub type MachineId = String;

/// What offered machines have earned.
#[derive(Debug)]
pub struct EarningsReport {
    pub total_earned_cents: u64,
    pub pending_payout_cents: u64,
    pub jobs_completed: u64,
    pub gpu_hours_contributed: F64,
    /// The whole reply.
    pub raw: Json,
}

/// Where to pay in.
#[derive(Debug)]
pub struct DepositAddress {
    pub currency: String,
    pub address: String,
    pub amount_usd: F64,
    /// The least amount, in the currency itself.
    pub minimum_native: Option<F64>,
    /// The whole reply.
    pub raw: Json,
}

/// What an account holds.
#[derive(Debug)]
pub struct AccountBalance {
    pub balance_cents: u64,
    pub currency: String,
    /// The whole reply.
    pub raw: Json,
}

/// Access to the marketplace.
pub struct GpuAiMarketplaceAdapter {
    /// The master key, which comes from the configuration and never from a request.
    api_key: String,
}

impl View for GpuAiMarketplaceAdapter {
    type V = Seq<char>;

    /// The key.
    closed spec fn view(&self) -> Seq<char> {
        self.api_key@
    }
}

/// A request to the service.
pub open spec fn market_request(
    key: Seq<char>,
    method: Method,
    path: Seq<char>,
    body: Option<JsonView>,
) -> RequestView {
    RequestView {
        method,
        url: "https://api.gpu.ai/v1"@ + path,
        authorization: Some(bearer(key)),
        body,
        timeout_secs: None,
    }
}

pub open spec fn market_error(reason: Seq<char>) -> ErrorView {
    ErrorView::Adapter { adapter: "gpu.ai"@, reason }
}

/// What the service replied, where that was a success. The endpoint is named in the
/// error otherwise.
pub open spec fn market_reply(outcome: Outcome, endpoint: Seq<char>) -> Result<
    JsonView,
    ErrorView,
> {
    match outcome {
        Outcome::Failed { reason } => Err(market_error(reason@)),
        Outcome::Replied { status, .. } => if success(status) {
            Ok(outcome.json())
        } else {
            Err(
                market_error(
                    endpoint + " "@ + status_text(status as int) + ": "@ + outcome.body_text(),
                ),
            )
        },
    }
}

/// The key that is used: the master key, or else the older one; an empty key counts
/// as none.
pub open spec fn key_used(
    master_key: Option<Seq<char>>,
    older_key: Option<Seq<char>>,
) -> Option<Seq<char>> {
    if master_key is Some && master_key->0.len() > 0 {
        master_key
    } else if older_key is Some && older_key->0.len() > 0 {
        older_key
    } else {
        None
    }
}

// ---- bodies and replies -----------------------------------------------------

pub open spec fn real_or_null(x: Option<F64>) -> JsonView {
    match x {
        Some(x) => real_json(x),
        None => JsonView::Null,
    }
}

pub open spec fn count_or_null(n: Option<u64>) -> JsonView {
    match n {
        Some(n) => JsonView::UInt(n),
        None => JsonView::Null,
    }
}

/// The body that offers a machine. A machine that does not say how many GPUs it has
/// has one.
pub open spec fn offer_body(machine: GpuSpec) -> JsonView {
    JsonView::Object(
        seq![
            ("gpu_model"@, string_or_null(opt_text(machine.gpu_model))),
            ("vram_gb"@, real_or_null(machine.vram_gb)),
            (
                "gpu_count"@,
                JsonView::UInt(
                    match machine.gpu_count {
                        Some(n) => n as u64,
                        None => 1,
                    },
                ),
            ),
            (
                "cpu_cores"@,
                count_or_null(
                    match machine.cpu_cores {
                        Some(n) => Some(n as u64),
                        None => None,
                    },
                ),
            ),
            ("ram_gb"@, real_or_null(machine.ram_gb)),
            ("disk_gb"@, real_or_null(machine.disk_gb)),
            ("price_gpu_hour_cents"@, count_or_null(machine.price_gpu_hour_cents)),
            ("region"@, string_or_null(opt_text(machine.region))),
        ],
    )
}

/// The machine's name in a reply, under either key.
pub open spec fn machine_named(reply: JsonView) -> Seq<char> {
    match reply.at("id"@).as_str() {
        Some(s) => s,
        None => match reply.at("machine_id"@).as_str() {
            Some(s) => s,
            None => "unknown"@,
        },
    }
}

pub open spec fn or_zero(n: Option<u64>) -> u64 {
    match n {
        Some(n) => n,
        None => 0,
    }
}

/// Whether a report is the one in a reply.
pub open spec fn is_report_of(r: EarningsReport, reply: JsonView) -> bool {
    &&& r.total_earned_cents == or_zero(reply.at("total_earned_cents"@).as_u64())
    &&& r.pending_payout_cents == or_zero(reply.at("pending_payout_cents"@).as_u64())
    &&& r.jobs_completed == or_zero(reply.at("jobs_completed"@).as_u64())
    &&& r.gpu_hours_contributed == (match reply.at("gpu_hours_contributed"@).as_f64() {
        Some(x) => x,
        None => F64 { bits: 0 },
    })
    &&& r.raw@ == reply
}

/// The body that asks where to pay in.
pub open spec fn deposit_body(currency: Seq<char>, amount_usd: F64) -> JsonView {
    JsonView::Object(
        seq![("currency"@, JsonView::Str(currency)), ("amount_usd"@, real_json(amount_usd))],
    )
}

/// Whether an address is the one in a reply.
pub open spec fn is_address_of(
    a: DepositAddress,
    currency: Seq<char>,
    amount_usd: F64,
    reply: JsonView,
) -> bool {
    &&& a.currency@ == currency
    &&& a.address@ == (match reply.at("address"@).as_str() {
        Some(s) => s,
        None => ""@,
    })
    &&& a.amount_usd == amount_usd
    &&& a.minimum_native == reply.at("minimum_native"@).as_f64()
    &&& a.raw@ == reply
}

/// The balance in a reply in cents: as it stands, or else from dollars, or nothing.
pub open spec fn cents_held(reply: JsonView) -> nat {
    match reply.at("balance_cents"@).as_u64() {
        Some(n) => n as nat,
        None => match reply.at("balance_usd"@).as_f64() {
            Some(x) => hundredfold(x),
            None => 0,
        },
    }
}

/// Whether a balance is the one in a reply.
pub open spec fn is_balance_of(b: AccountBalance, reply: JsonView) -> bool {
    &&& b.balance_cents == cents_held(reply)
    &&& b.currency@ == (match reply.at("currency"@).as_str() {
        Some(s) => s,
        None => "USD"@,
    })
    &&& b.raw@ == reply
}

pub(crate) fn number_or_null(x: Option<F64>) -> (r: Json)
    ensures
        r@ == real_or_null(x),
{
    match x {
        Some(x) => number(x),
        None => Json::Null,
    }
}

fn natural_or_null(n: Option<u64>) -> (r: Json)
    ensures
        r@ == count_or_null(n),
{
    match n {
        Some(n) => Json::UInt(n),
        None => Json::Null,
    }
}

fn natural_at(v: &Json, key: &str) -> (r: u64)
    ensures
        r == or_zero(v@.at(key@).as_u64()),
{
    match v.u64_at(key) {
        Some(n) => n,
        None => 0,
    }
}

/// What the service replied, where that was a success.
fn reply_of(outcome: &Outcome, endpoint: &str) -> (r: Result<Json, UcxError>)
    requires
        outcome.well_formed(),
    ensures
        match r {
            Ok(reply) => market_reply(*outcome, endpoint@) == Ok::<_, ErrorView>(reply@),
            Err(e) => market_reply(*outcome, endpoint@) == Err::<JsonView, _>(e@),
        },
{
    match outcome {
        Outcome::Failed { reason } => Err(adapter_error("gpu.ai", reason.as_str())),
        Outcome::Replied { status, body } => {
            if is_success(*status) {
                return match body {
                    Some(document) => Ok(document.json.duplicate()),
                    None => Ok(Json::Null),
                };
            }
            let mut reason = endpoint.to_string();
            reason.append(" ");
            reason.append(display_status(*status).as_str());
            reason.append(": ");
            match body {
                Some(document) => reason.append(document.text.as_str()),
                None => reason.append("null"),
            }
            Err(adapter_error("gpu.ai", reason.as_str()))
        },
    }
}

impl GpuAiMarketplaceAdapter {
    /// Access with the configured master key, or else with the older key; none
    /// without either.
    pub fn from_env(master_key: Option<&str>, older_key: Option<&str>) -> (r: Option<Self>)
        ensures
            match r {
                Some(adapter) => key_used(opt_str(master_key), opt_str(older_key)) == Some(
                    adapter@,
                ),
                None => key_used(opt_str(master_key), opt_str(older_key)) is None,
            },
    {
        if let Some(key) = master_key {
            if !key.is_empty() {
                return Some(GpuAiMarketplaceAdapter { api_key: key.to_string() });
            }
        }
        if let Some(key) = older_key {
            if !key.is_empty() {
                return Some(GpuAiMarketplaceAdapter { api_key: key.to_string() });
            }
        }
        None
    }

    fn auth_header(&self) -> (r: String)
        ensures
            r@ == bearer(self@),
    {
        bearer_header(self.api_key.as_str())
    }

    fn request(&self, method: Method, path: &str, body: Option<Json>) -> (r: HttpRequest)
        ensures
            r@ == market_request(
                self@,
                method,
                path@,
                match body {
                    Some(j) => Some(j@),
                    None => None,
                },
            ),
    {
        let mut url = "https://api.gpu.ai/v1".to_string();
        url.append(path);
        HttpRequest {
            method,
            url,
            authorization: Some(self.auth_header()),
            body,
            timeout_secs: None,
        }
    }

    /// The request that offers a machine.
    pub fn list_machine_request(&self, machine: &GpuSpec) -> (r: HttpRequest)
        ensures
            r@ == market_request(
                self@,
                Method::Post,
                "/supplier/machines"@,
                Some(offer_body(*machine)),
            ),
    {
        let gpu_count: u8 = match machine.gpu_count {
            Some(n) => n,
            None => 1,
        };
        let cpu_cores = match machine.cpu_cores {
            Some(n) => Some(n as u64),
            None => None,
        };
        let body = Fields::new().with("gpu_model", text_or_null(borrow_text(&machine.gpu_model))).with(
            "vram_gb",
            number_or_null(machine.vram_gb),
        ).with("gpu_count", Json::UInt(gpu_count as u64)).with(
            "cpu_cores",
            natural_or_null(cpu_cores),
        ).with("ram_gb", number_or_null(machine.ram_gb)).with(
            "disk_gb",
            number_or_null(machine.disk_gb),
        ).with("price_gpu_hour_cents", natural_or_null(machine.price_gpu_hour_cents)).with(
            "region",
            text_or_null(borrow_text(&machine.region)),
        ).object();
        assert(body@->Object_0 =~= offer_body(*machine)->Object_0);
        self.request(Method::Post, "/supplier/machines", Some(body))
    }

    /// The marketplace's name for the machine that was offered.
    pub fn list_machine_sync(&self, outcome: &Outcome) -> (r: Result<MachineId, UcxError>)
        requires
            outcome.well_formed(),
        ensures
            match r {
                Ok(id) => market_reply(*outcome, "POST /supplier/machines"@) matches Ok(reply)
                    && id@ == machine_named(reply),
                Err(e) => market_reply(*outcome, "POST /supplier/machines"@) == Err::<JsonView, _>(
                    e@,
                ),
            },
    {
        let reply = match reply_of(outcome, "POST /supplier/machines") {
            Ok(reply) => reply,
            Err(e) => return Err(e),
        };
        let id = match reply.str_at("id") {
            Some(s) => s.to_string(),
            None => match reply.str_at("machine_id") {
                Some(s) => s.to_string(),
                None => "unknown".to_string(),
            },
        };
        Ok(id)
    }

    /// The request for what the offered machines have earned.
    pub fn check_earnings_request(&self) -> (r: HttpRequest)
        ensures
            r@ == market_request(self@, Method::Get, "/supplier/earnings"@, None),
    {
        self.request(Method::Get, "/supplier/earnings", None)
    }

    /// What the offered machines have earned. What the reply does not say counts as
    /// zero.
    pub fn check_earnings_sync(&self, outcome: &Outcome) -> (r: Result<EarningsReport, UcxError>)
        requires
            outcome.well_formed(),
        ensures
            match r {
                Ok(report) => market_reply(*outcome, "GET /supplier/earnings"@) matches Ok(reply)
                    && is_report_of(report, reply),
                Err(e) => market_reply(*outcome, "GET /supplier/earnings"@) == Err::<JsonView, _>(
                    e@,
                ),
            },
    {
        let reply = match reply_of(outcome, "GET /supplier/earnings") {
            Ok(reply) => reply,
            Err(e) => return Err(e),
        };
        Ok(
            EarningsReport {
                total_earned_cents: natural_at(&reply, "total_earned_cents"),
                pending_payout_cents: natural_at(&reply, "pending_payout_cents"),
                jobs_completed: natural_at(&reply, "jobs_completed"),
                gpu_hours_contributed: match reply.f64_at("gpu_hours_contributed") {
                    Some(x) => x,
                    None => F64 { bits: 0 },
                },
                raw: reply,
            },
        )
    }

    /// The request that takes an offered machine back.
    pub fn reclaim_machine_request(&self, machine_id: &MachineId) -> (r: HttpRequest)
        ensures
            r@ == market_request(
                self@,
                Method::Delete,
                "/supplier/machines/"@ + machine_id@,
                None,
            ),
    {
        let mut path = "/supplier/machines/".to_string();
        path.append(machine_id.as_str());
        self.request(Method::Delete, path.as_str(), None)
    }

    /// Whether the machine was taken back.
    pub fn reclaim_machine_sync(&self, machine_id: &MachineId, outcome: &Outcome) -> (r: Result<
        (),
        UcxError,
    >)
        requires
            outcome.well_formed(),
        ensures
            match r {
                Ok(_) => market_reply(
                    *outcome,
                    "DELETE /supplier/machines/"@ + machine_id@,
                ) is Ok,
                Err(e) => market_reply(*outcome, "DELETE /supplier/machines/"@ + machine_id@)
                    == Err::<JsonView, _>(e@),
            },
    {
        let mut endpoint = "DELETE /supplier/machines/".to_string();
        endpoint.append(machine_id.as_str());
        match reply_of(outcome, endpoint.as_str()) {
            Ok(_) => Ok(()),
            Err(e) => Err(e),
        }
    }

    /// The request that asks where to pay in an amount in dollars, in a currency such
    /// as `BTC`, `ETH` or `USDC`.
    pub fn deposit_crypto_request(&self, currency: &str, amount_usd: F64) -> (r: HttpRequest)
        ensures
            r@ == market_request(
                self@,
                Method::Post,
                "/billing/crypto/deposit"@,
                Some(deposit_body(currency@, amount_usd)),
            ),
    {
        let body = Fields::new().with("currency", text(currency)).with(
            "amount_usd",
            number(amount_usd),
        ).object();
        assert(body@->Object_0 =~= deposit_body(currency@, amount_usd)->Object_0);
        self.request(Method::Post, "/billing/crypto/deposit", Some(body))
    }

    /// Where to pay in.
    pub fn deposit_crypto_sync(&self, currency: &str, amount_usd: F64, outcome: &Outcome) -> (r:
        Result<DepositAddress, UcxError>)
        requires
            outcome.well_formed(),
        ensures
            match r {
                Ok(address) => market_reply(*outcome, "POST /billing/crypto/deposit"@) matches Ok(
                    reply,
                ) && is_address_of(address, currency@, amount_usd, reply),
                Err(e) => market_reply(*outcome, "POST /billing/crypto/deposit"@) == Err::<
                    JsonView,
                    _,
                >(e@),
            },
    {
        let reply = match reply_of(outcome, "POST /billing/crypto/deposit") {
            Ok(reply) => reply,
            Err(e) => return Err(e),
        };
        let address = match reply.str_at("address") {
            Some(s) => s.to_string(),
            None => "".to_string(),
        };
        Ok(
            DepositAddress {
                currency: currency.to_string(),
                address,
                amount_usd,
                minimum_native: reply.f64_at("minimum_native"),
                raw: reply,
            },
        )
    }

    /// The request for what the account holds.
    pub fn check_balance_request(&self) -> (r: HttpRequest)
        ensures
            r@ == market_request(self@, Method::Get, "/billing/balance"@, None),
    {
        self.request(Method::Get, "/billing/balance", None)
    }

    /// What the account holds.
    pub fn check_balance_sync(&self, outcome: &Outcome) -> (r: Result<AccountBalance, UcxError>)
        requires
            outcome.well_formed(),
        ensures
            match r {
                Ok(balance) => market_reply(*outcome, "GET /billing/balance"@) matches Ok(reply)
                    && is_balance_of(balance, reply),
                Err(e) => market_reply(*outcome, "GET /billing/balance"@) == Err::<JsonView, _>(e@),
            },
    {
        let reply = match reply_of(outcome, "GET /billing/balance") {
            Ok(reply) => reply,
            Err(e) => return Err(e),
        };
        let balance_cents: u64 = match reply.u64_at("balance_cents") {
            Some(n) => n,
            None => match reply.f64_at("balance_usd") {
                Some(x) => dollars_to_cents(x),
                None => 0,
            },
        };
        let currency = match reply.str_at("currency") {
            Some(s) => s.to_string(),
            None => "USD".to_string(),
        };
        Ok(AccountBalance { balance_cents, currency, raw: reply })
    }
}

// ---- laws -------------------------------------------------------------------

/// The service is believed exactly where it replied with a success; a refusal or a
/// request that failed comes out as an error of the adapter.
pub proof fn law_error_unless_success(outcome: Outcome, endpoint: Seq<char>)
    ensures
        market_reply(outcome, endpoint) is Ok <==> outcome.succeeded(),
        market_reply(outcome, endpoint) matches Err(e) ==> e is Adapter && e->adapter
            == "gpu.ai"@,
{
}

/// The older key is used only where there is no master key.
pub proof fn law_master_key_comes_first(
    master_key: Option<Seq<char>>,
    older_key: Option<Seq<char>>,
)
    ensures
        master_key is Some && master_key->0.len() > 0 ==> key_used(master_key, older_key)
            == master_key,
        key_used(master_key, older_key) matches Some(key) ==> key.len() > 0,
        key_used(master_key, older_key) is None <==> !(master_key is Some
            && master_key->0.len() > 0) && !(older_key is Some && older_key->0.len() > 0),
{
}

} // verus!
