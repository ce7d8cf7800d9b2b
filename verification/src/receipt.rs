//! Compute receipts: what a job used, what it costs and what proves it.
use crate::clock::{rfc3339_text, Timestamp};
use crate::digest::{hex_encode, hex_text, lemma_hex_text, sha256_hex, sha256_hex_text};
use crate::float64::{is_finite, F64};
use crate::job::{hyphenated, job_id_text, law_id_text_injective, JobId};
use crate::json::{law_quoted_text_readable, quote, quoted};
use crate::text::{decimal, is_digit, lemma_decimal, u64_text};
use vstd::prelude::*;
use vstd::string::*;
use vstd::utf8::*;

verus! {

/// The receipt of one completed job.
#[derive(Clone, Debug)]
pub struct ComputeReceipt {
    pub job_id: JobId,
    pub provider_id: String,
    pub completed_at: Timestamp,
    pub resources: ResourceUsage,
    pub billing: BillingRecord,
    pub verification: VerificationProof,
    /// An anchor into the receipt chain of OSOVM and Zàngbétò, set when the
    /// settlement flows through OSOVM.
    pub zangbeto_anchor: Option<String>,
    /// The canonical id of the receipt's GIX1 envelope, in hexadecimal.
    pub gix1_canonical_id: Option<String>,
}

/// What a job used.
#[derive(Clone, Copy, Debug, PartialEq, Eq, Structural)]
pub struct ResourceUsage {
    pub gpu_seconds: F64,
    pub cpu_seconds: F64,
    pub ram_gb_seconds: F64,
    pub storage_gb: F64,
    pub egress_gb: F64,
}

/// What a job costs.
#[derive(Clone, Debug)]
pub struct BillingRecord {
    /// The whole charge in US cents.
    pub amount_cents: u64,
    pub currency: BillingCurrency,
    pub line_items: Vec<LineItem>,
}

/// One line of a bill.
#[derive(Clone, Debug)]
pub struct LineItem {
    pub label: String,
    pub cents: u64,
}

#[derive(Clone, Copy, Debug, PartialEq, Eq, Structural)]
pub enum BillingCurrency {
    Usd,
    /// For settlement in Àṣẹ tokens through OSOVM.
    Ase,
}

/// What proves that a job was done.
#[derive(Clone, Debug)]
pub struct VerificationProof {
    /// The SHA-256 digest of what the job put out.
    pub artifact_hash: Option<String>,
    /// What the provider attests, in a form of its own.
    pub runtime_attestation: Option<String>,
    /// A fingerprint of the computation.
    pub execution_hash: Option<String>,
}

/// The shortest decimal texts of what a job used, as JSON has numbers.
#[derive(Debug)]
pub struct ResourceTexts {
    pub gpu_seconds: String,
    pub cpu_seconds: String,
    pub ram_gb_seconds: String,
    pub storage_gb: String,
    pub egress_gb: String,
}

/// What the GIX1 envelope of a receipt is made of, beside its kind (a receipt) and
/// its namespace (execution on OSOVM).
#[derive(Debug)]
pub struct EnvelopeInput {
    pub payload: String,
    pub timestamp_millis: u64,
}

// ---- the canonical text -----------------------------------------------------

pub open spec fn currency_name(c: BillingCurrency) -> Seq<char> {
    match c {
        BillingCurrency::Usd => "Usd"@,
        BillingCurrency::Ase => "Ase"@,
    }
}

/// A double as a JSON number with a given text; one that has no JSON form is null.
pub open spec fn real_text(x: F64, text: Seq<char>) -> Seq<char> {
    if x.is_finite() {
        text
    } else {
        "null"@
    }
}

pub open spec fn item_text(item: LineItem) -> Seq<char> {
    "{\"cents\":"@ + decimal(item.cents as nat) + ",\"label\":"@ + quoted(item.label@) + "}"@
}

/// Lines of a bill, with commas between them.
pub open spec fn items_text(items: Seq<LineItem>) -> Seq<char>
    decreases items.len(),
{
    if items.len() == 0 {
        Seq::empty()
    } else if items.len() == 1 {
        item_text(items[0])
    } else {
        item_text(items[0]) + ","@ + items_text(items.drop_first())
    }
}

pub open spec fn billing_text(b: BillingRecord) -> Seq<char> {
    "{\"amount_cents\":"@ + decimal(b.amount_cents as nat) + ",\"currency\":"@ + quoted(
        currency_name(b.currency),
    ) + ",\"line_items\":["@ + items_text(b.line_items@) + "]}"@
}

pub open spec fn resources_text(r: ResourceUsage, texts: ResourceTexts) -> Seq<char> {
    "{\"cpu_seconds\":"@ + real_text(r.cpu_seconds, texts.cpu_seconds@) + ",\"egress_gb\":"@
        + real_text(r.egress_gb, texts.egress_gb@) + ",\"gpu_seconds\":"@ + real_text(
        r.gpu_seconds,
        texts.gpu_seconds@,
    ) + ",\"ram_gb_seconds\":"@ + real_text(r.ram_gb_seconds, texts.ram_gb_seconds@)
        + ",\"storage_gb\":"@ + real_text(r.storage_gb, texts.storage_gb@) + "}"@
}

/// The text that a receipt is identified by: compact JSON, with the members of each
/// object in alphabetical order. The proofs and the anchors are no part of it.
pub open spec fn canonical_text(r: ComputeReceipt, texts: ResourceTexts) -> Seq<char> {
    "{\"billing\":"@ + billing_text(r.billing) + ",\"completed_at\":"@ + quoted(
        rfc3339_text(r.completed_at@.secs, r.completed_at@.nanos),
    ) + ",\"job_id\":"@ + quoted(hyphenated(r.job_id)) + ",\"provider_id\":"@ + quoted(
        r.provider_id@,
    ) + ",\"resources\":"@ + resources_text(r.resources, texts) + "}"@
}

/// The text of the lines with one more at the end.
proof fn lemma_items_text_push(items: Seq<LineItem>, item: LineItem)
    ensures
        items_text(items.push(item)) == (if items.len() == 0 {
            item_text(item)
        } else {
            items_text(items) + ","@ + item_text(item)
        }),
    decreases items.len(),
{
    if items.len() > 0 {
        let rest = items.drop_first();
        assert(items.push(item).drop_first() =~= rest.push(item));
        lemma_items_text_push(rest, item);
        if items.len() == 1 {
            assert(items.push(item).drop_first()[0] == item);
        } else {
            assert(items_text(items.push(item)) =~= items_text(items) + ","@ + item_text(item));
        }
    }
}

fn number_text(x: F64, text: &str) -> (r: String)
    ensures
        r@ == real_text(x, text@),
{
    if is_finite(x) {
        text.to_string()
    } else {
        "null".to_string()
    }
}

impl LineItem {
    /// The line as compact JSON.
    fn canonical(&self) -> (r: String)
        ensures
            r@ == item_text(*self),
    {
        let mut out = "{\"cents\":".to_string();
        out.append(u64_text(self.cents).as_str());
        out.append(",\"label\":");
        out.append(quote(self.label.as_str()).as_str());
        out.append("}");
        out
    }
}

impl BillingRecord {
    /// The bill as compact JSON.
    fn canonical(&self) -> (r: String)
        ensures
            r@ == billing_text(*self),
    {
        let mut items = String::new();
        let mut i: usize = 0;
        assert(self.line_items@.take(0) =~= Seq::<LineItem>::empty());
        while i < self.line_items.len()
            invariant
                i <= self.line_items@.len(),
                items@ == items_text(self.line_items@.take(i as int)),
            decreases self.line_items.len() - i,
        {
            proof {
                lemma_items_text_push(self.line_items@.take(i as int), self.line_items@[i as int]);
                assert(self.line_items@.take(i + 1) =~= self.line_items@.take(i as int).push(
                    self.line_items@[i as int],
                ));
            }
            if i > 0 {
                items.append(",");
            }
            items.append(self.line_items[i].canonical().as_str());
            assert(i == 0 ==> items@ =~= item_text(self.line_items@[0]));
            i = i + 1;
        }
        assert(self.line_items@.take(i as int) =~= self.line_items@);
        let currency = match self.currency {
            BillingCurrency::Usd => "Usd",
            BillingCurrency::Ase => "Ase",
        };
        let mut out = "{\"amount_cents\":".to_string();
        out.append(u64_text(self.amount_cents).as_str());
        out.append(",\"currency\":");
        out.append(quote(currency).as_str());
        out.append(",\"line_items\":[");
        out.append(items.as_str());
        out.append("]}");
        out
    }
}

impl ResourceUsage {
    /// The usage as compact JSON.
    fn canonical(&self, texts: &ResourceTexts) -> (r: String)
        ensures
            r@ == resources_text(*self, *texts),
    {
        let mut out = "{\"cpu_seconds\":".to_string();
        out.append(number_text(self.cpu_seconds, texts.cpu_seconds.as_str()).as_str());
        out.append(",\"egress_gb\":");
        out.append(number_text(self.egress_gb, texts.egress_gb.as_str()).as_str());
        out.append(",\"gpu_seconds\":");
        out.append(number_text(self.gpu_seconds, texts.gpu_seconds.as_str()).as_str());
        out.append(",\"ram_gb_seconds\":");
        out.append(number_text(self.ram_gb_seconds, texts.ram_gb_seconds.as_str()).as_str());
        out.append(",\"storage_gb\":");
        out.append(number_text(self.storage_gb, texts.storage_gb.as_str()).as_str());
        out.append("}");
        out
    }
}

// ---- receipts ---------------------------------------------------------------

/// The hexadecimal SHA-256 digest of a receipt's canonical text.
pub open spec fn receipt_hash(r: ComputeReceipt, texts: ResourceTexts) -> Seq<char> {
    sha256_hex_text(encode_utf8(canonical_text(r, texts)))
}

/// A receipt with the canonical id of its envelope, which a receipt that has one
/// keeps.
pub open spec fn stamped(r: ComputeReceipt, id: Option<String>) -> ComputeReceipt {
    ComputeReceipt {
        gix1_canonical_id: if r.gix1_canonical_id is Some {
            r.gix1_canonical_id
        } else {
            id
        },
        ..r
    }
}

/// An integer as an unsigned 64-bit number: a negative one wraps.
pub open spec fn wrapped(n: int) -> int {
    if n < 0 {
        n + 0x1_0000_0000_0000_0000
    } else {
        n
    }
}

impl ComputeReceipt {
    /// The text that the receipt is identified by, given the texts of its doubles.
    pub fn canonical(&self, texts: &ResourceTexts) -> (r: String)
        ensures
            r@ == canonical_text(*self, *texts),
    {
        let mut out = "{\"billing\":".to_string();
        out.append(self.billing.canonical().as_str());
        out.append(",\"completed_at\":");
        out.append(quote(self.completed_at.rfc3339().as_str()).as_str());
        out.append(",\"job_id\":");
        out.append(quote(job_id_text(self.job_id).as_str()).as_str());
        out.append(",\"provider_id\":");
        out.append(quote(self.provider_id.as_str()).as_str());
        out.append(",\"resources\":");
        out.append(self.resources.canonical(texts).as_str());
        out.append("}");
        out
    }

    /// The receipt's stable identifier, for anchoring it and for telling receipts
    /// apart.
    pub fn hash(&self, texts: &ResourceTexts) -> (r: String)
        ensures
            r@ == receipt_hash(*self, *texts),
            r@.len() == 64,
    {
        let text = self.canonical(texts);
        sha256_hex(text.as_str().as_bytes())
    }

    /// What the receipt's envelope is made of; nothing for a receipt that has its
    /// canonical id already.
    pub fn envelope_input(&self) -> (r: Option<EnvelopeInput>)
        ensures
            r is Some <==> self.gix1_canonical_id is None,
            r matches Some(input) ==> input.payload@ == hyphenated(self.job_id)
                && input.timestamp_millis == wrapped(self.completed_at@.millis()),
    {
        if self.gix1_canonical_id.is_some() {
            return None;
        }
        let millis: i64 = self.completed_at.millis();
        let timestamp_millis: u64 = if millis < 0 {
            (millis as i128 + 0x1_0000_0000_0000_0000) as u64
        } else {
            millis as u64
        };
        Some(EnvelopeInput { payload: job_id_text(self.job_id), timestamp_millis })
    }

    /// Stamps the canonical id of the receipt's envelope on the receipt, which has no
    /// effect on one that is stamped already.
    pub fn stamp_gix1(&mut self, canonical_id: &[u8; 32])
        ensures
            exists|id: String|
                id@ == hex_text(canonical_id@) && id@.len() == 64 && *final(self) == #[trigger] stamped(
                    *old(self),
                    Some(id),
                ),
    {
        let id = hex_encode(canonical_id.as_slice());
        proof {
            lemma_hex_text(canonical_id@);
        }
        let ghost before = *self;
        let ghost text = id;
        if self.gix1_canonical_id.is_none() {
            self.gix1_canonical_id = Some(id);
        }
        assert(*self == stamped(before, Some(text)));
    }
}

// ---- laws -------------------------------------------------------------------

/// Stamping a second time changes nothing, whatever the second id is.
pub proof fn law_stamp_idempotent(r: ComputeReceipt, first: String, second: String)
    ensures
        stamped(stamped(r, Some(first)), Some(second)) == stamped(r, Some(first)),
        stamped(r, Some(first)).gix1_canonical_id is Some,
{
}

/// The same lines have the same text.
proof fn lemma_items_text_same(a: Seq<LineItem>, b: Seq<LineItem>)
    requires
        same_items(a, b),
    ensures
        items_text(a) == items_text(b),
    decreases a.len(),
{
    if a.len() > 0 {
        assert(a[0].cents == b[0].cents && a[0].label@ == b[0].label@);
        let (c, d) = (a.drop_first(), b.drop_first());
        assert forall|i: int| 0 <= i < c.len() implies (#[trigger] c[i]).cents == d[i].cents
            && c[i].label@ == d[i].label@ by {
            assert(c[i] == a[i + 1] && d[i] == b[i + 1]);
        }
        lemma_items_text_same(c, d);
    }
}

/// The hash of a receipt rests on its job, its provider, its time of completion, what
/// was used and the bill, and on nothing else: it does not change when the receipt is
/// stamped, anchored or given other proofs.
pub proof fn law_hash_ignores_proofs(a: ComputeReceipt, b: ComputeReceipt, texts: ResourceTexts)
    requires
        a.job_id == b.job_id,
        a.provider_id@ == b.provider_id@,
        a.completed_at@ == b.completed_at@,
        a.resources == b.resources,
        a.billing.amount_cents == b.billing.amount_cents,
        a.billing.currency == b.billing.currency,
        same_items(a.billing.line_items@, b.billing.line_items@),
    ensures
        receipt_hash(a, texts) == receipt_hash(b, texts),
{
    lemma_items_text_same(a.billing.line_items@, b.billing.line_items@);
}

/// Stamping leaves the hash as it is.
pub proof fn law_stamp_keeps_hash(r: ComputeReceipt, id: Option<String>, texts: ResourceTexts)
    ensures
        receipt_hash(stamped(r, id), texts) == receipt_hash(r, texts),
{
}

/// What follows a common beginning can be told.
proof fn lemma_after(p: Seq<char>, x: Seq<char>, y: Seq<char>)
    requires
        p + x == p + y,
    ensures
        x == y,
{
    assert((p + x).skip(p.len() as int) =~= x);
    assert((p + y).skip(p.len() as int) =~= y);
}

/// Seven pieces and a rest, grouped from the right.
proof fn lemma_regroup(
    p: Seq<char>,
    q: Seq<char>,
    r: Seq<char>,
    s: Seq<char>,
    t: Seq<char>,
    u: Seq<char>,
    v: Seq<char>,
    rest: Seq<char>,
)
    ensures
        p + q + r + s + t + u + v + rest == p + (q + (r + (s + (t + (u + (v + rest)))))),
{
    lemma_associative(p + q + r + s + t + u, v, rest);
    lemma_associative(p + q + r + s + t, u, v + rest);
    lemma_associative(p + q + r + s, t, u + (v + rest));
    lemma_associative(p + q + r, s, t + (u + (v + rest)));
    lemma_associative(p + q, r, s + (t + (u + (v + rest))));
    lemma_associative(p, q, r + (s + (t + (u + (v + rest)))));
}

proof fn lemma_associative(p: Seq<char>, q: Seq<char>, r: Seq<char>)
    ensures
        p + q + r == p + (q + r),
{
    assert(p + q + r =~= p + (q + r));
}

/// A decimal numeral can be read back where no digit follows it.
proof fn lemma_decimal_readable(m: nat, n: nat, x: Seq<char>, y: Seq<char>)
    requires
        x.len() > 0,
        y.len() > 0,
        !is_digit(x[0]),
        !is_digit(y[0]),
        decimal(m) + x == decimal(n) + y,
    ensures
        m == n,
        x == y,
{
    lemma_decimal(m);
    lemma_decimal(n);
    let p = decimal(m);
    let q = decimal(n);
    if p.len() < q.len() {
        assert((p + x)[p.len() as int] == x[0]);
        assert((q + y)[p.len() as int] == q[p.len() as int]);
        assert(is_digit(q[p.len() as int]));
    } else if q.len() < p.len() {
        assert((q + y)[q.len() as int] == y[0]);
        assert((p + x)[q.len() as int] == p[q.len() as int]);
        assert(is_digit(p[q.len() as int]));
    }
    assert((p + x).take(p.len() as int) =~= p);
    assert((q + y).take(q.len() as int) =~= q);
    lemma_after(p, x, y);
}

/// A line of a bill can be read back, and where it ends can be told.
proof fn lemma_item_readable(a: LineItem, b: LineItem, x: Seq<char>, y: Seq<char>)
    requires
        item_text(a) + x == item_text(b) + y,
    ensures
        a.cents == b.cents,
        a.label@ == b.label@,
        x == y,
{
    reveal_strlit(",\"label\":");
    let open = "{\"cents\":"@;
    let label = ",\"label\":"@;
    let close = "}"@;
    let a2 = quoted(a.label@) + (close + x);
    let b2 = quoted(b.label@) + (close + y);
    let a1 = decimal(a.cents as nat) + (label + a2);
    let b1 = decimal(b.cents as nat) + (label + b2);
    assert(item_text(a) + x =~= open + a1);
    assert(item_text(b) + y =~= open + b1);
    lemma_after(open, a1, b1);
    lemma_decimal_readable(a.cents as nat, b.cents as nat, label + a2, label + b2);
    lemma_after(label, a2, b2);
    law_quoted_text_readable(a.label@, b.label@, close + x, close + y);
    lemma_after(close, x, y);
}

/// Whether two bills have the same lines.
pub open spec fn same_items(a: Seq<LineItem>, b: Seq<LineItem>) -> bool {
    a.len() == b.len() && forall|i: int|
        0 <= i < a.len() ==> (#[trigger] a[i]).cents == b[i].cents && a[i].label@ == b[i].label@
}

/// The lines of a bill can be read back.
proof fn lemma_items_readable(a: Seq<LineItem>, b: Seq<LineItem>, x: Seq<char>, y: Seq<char>)
    requires
        items_text(a) + "]"@ + x == items_text(b) + "]"@ + y,
    ensures
        same_items(a, b),
        x == y,
    decreases a.len(),
{
    reveal_strlit("]");
    reveal_strlit(",");
    reveal_strlit("{\"cents\":");
    let left = items_text(a) + "]"@ + x;
    let right = items_text(b) + "]"@ + y;
    let a_rest = if a.len() <= 1 {
        "]"@ + x
    } else {
        ","@ + (items_text(a.drop_first()) + "]"@ + x)
    };
    let b_rest = if b.len() <= 1 {
        "]"@ + y
    } else {
        ","@ + (items_text(b.drop_first()) + "]"@ + y)
    };
    if a.len() == 0 {
        assert(left =~= a_rest);
        assert(left[0] == ']');
    } else {
        assert(left =~= item_text(a[0]) + a_rest);
        assert(left[0] == '{');
    }
    if b.len() == 0 {
        assert(right =~= b_rest);
        assert(right[0] == ']');
    } else {
        assert(right =~= item_text(b[0]) + b_rest);
        assert(right[0] == '{');
    }
    if a.len() == 0 {
        lemma_after("]"@, x, y);
    } else {
        lemma_item_readable(a[0], b[0], a_rest, b_rest);
        assert(a_rest[0] == b_rest[0]);
        if a.len() == 1 {
            lemma_after("]"@, x, y);
        } else {
            lemma_after(
                ","@,
                items_text(a.drop_first()) + "]"@ + x,
                items_text(b.drop_first()) + "]"@ + y,
            );
            lemma_items_readable(a.drop_first(), b.drop_first(), x, y);
            assert forall|i: int| 0 <= i < a.len() implies (#[trigger] a[i]).cents == b[i].cents
                && a[i].label@ == b[i].label@ by {
                if i > 0 {
                    assert(a.drop_first()[i - 1] == a[i]);
                    assert(b.drop_first()[i - 1] == b[i]);
                }
            }
        }
    }
}

proof fn lemma_currency_names_apart(a: BillingCurrency, b: BillingCurrency)
    requires
        currency_name(a) == currency_name(b),
    ensures
        a == b,
{
    reveal_strlit("Usd");
    reveal_strlit("Ase");
    assert("Usd"@[0] == 'U');
    assert("Ase"@[0] == 'A');
}

/// A bill can be read back, and where it ends can be told.
proof fn lemma_billing_readable(a: BillingRecord, b: BillingRecord, x: Seq<char>, y: Seq<char>)
    requires
        billing_text(a) + x == billing_text(b) + y,
    ensures
        a.amount_cents == b.amount_cents,
        a.currency == b.currency,
        same_items(a.line_items@, b.line_items@),
        x == y,
{
    let open = "{\"amount_cents\":"@;
    let currency = ",\"currency\":"@;
    let lines = ",\"line_items\":["@;
    assert(currency.len() > 0 && !is_digit(currency[0])) by {
        reveal_strlit(",\"currency\":");
    }
    assert("]}"@ == "]"@ + "}"@) by {
        reveal_strlit("]}");
        reveal_strlit("]");
        reveal_strlit("}");
        assert("]}"@ =~= "]"@ + "}"@);
    }
    let a_items = items_text(a.line_items@);
    let b_items = items_text(b.line_items@);
    let a3 = a_items + "]"@ + ("}"@ + x);
    let b3 = b_items + "]"@ + ("}"@ + y);
    let a2 = quoted(currency_name(a.currency)) + (lines + a3);
    let b2 = quoted(currency_name(b.currency)) + (lines + b3);
    let a1 = decimal(a.amount_cents as nat) + (currency + a2);
    let b1 = decimal(b.amount_cents as nat) + (currency + b2);
    lemma_regroup(
        open,
        decimal(a.amount_cents as nat),
        currency,
        quoted(currency_name(a.currency)),
        lines,
        a_items,
        "]}"@,
        x,
    );
    lemma_regroup(
        open,
        decimal(b.amount_cents as nat),
        currency,
        quoted(currency_name(b.currency)),
        lines,
        b_items,
        "]}"@,
        y,
    );
    lemma_associative("]"@, "}"@, x);
    lemma_associative("]"@, "}"@, y);
    lemma_associative(a_items, "]"@, "}"@ + x);
    lemma_associative(b_items, "]"@, "}"@ + y);
    lemma_after(open, a1, b1);
    lemma_decimal_readable(
        a.amount_cents as nat,
        b.amount_cents as nat,
        currency + a2,
        currency + b2,
    );
    lemma_after(currency, a2, b2);
    law_quoted_text_readable(
        currency_name(a.currency),
        currency_name(b.currency),
        lines + a3,
        lines + b3,
    );
    lemma_currency_names_apart(a.currency, b.currency);
    lemma_after(lines, a3, b3);
    lemma_items_readable(a.line_items@, b.line_items@, "}"@ + x, "}"@ + y);
    lemma_after("}"@, x, y);
}

/// The canonical text, grouped from the right.
proof fn lemma_canonical_shape(r: ComputeReceipt, texts: ResourceTexts)
    ensures
        canonical_text(r, texts) == "{\"billing\":"@ + (billing_text(r.billing) + (
        ",\"completed_at\":"@ + (quoted(
            rfc3339_text(r.completed_at@.secs, r.completed_at@.nanos),
        ) + (",\"job_id\":"@ + (quoted(hyphenated(r.job_id)) + (",\"provider_id\":"@ + (quoted(
            r.provider_id@,
        ) + (",\"resources\":"@ + (resources_text(r.resources, texts) + "}"@))))))))),
{
    let resources = ",\"resources\":"@;
    let used = resources_text(r.resources, texts);
    let front = "{\"billing\":"@ + billing_text(r.billing) + ",\"completed_at\":"@ + quoted(
        rfc3339_text(r.completed_at@.secs, r.completed_at@.nanos),
    ) + ",\"job_id\":"@ + quoted(hyphenated(r.job_id)) + ",\"provider_id\":"@;
    let provider = quoted(r.provider_id@);
    lemma_associative(front + provider + resources, used, "}"@);
    lemma_associative(front + provider, resources, used + "}"@);
    lemma_associative(front, provider, resources + (used + "}"@));
    lemma_regroup(
        "{\"billing\":"@,
        billing_text(r.billing),
        ",\"completed_at\":"@,
        quoted(rfc3339_text(r.completed_at@.secs, r.completed_at@.nanos)),
        ",\"job_id\":"@,
        quoted(hyphenated(r.job_id)),
        ",\"provider_id\":"@,
        provider + (resources + (used + "}"@)),
    );
}

/// Two receipts with the same canonical text are for the same job, by the same
/// provider, completed at the same date and time, billed alike in every line, and
/// with the same text for what was used.
pub proof fn law_canonical_text_identifies(
    a: ComputeReceipt,
    a_texts: ResourceTexts,
    b: ComputeReceipt,
    b_texts: ResourceTexts,
)
    requires
        canonical_text(a, a_texts) == canonical_text(b, b_texts),
    ensures
        a.job_id == b.job_id,
        a.provider_id@ == b.provider_id@,
        rfc3339_text(a.completed_at@.secs, a.completed_at@.nanos) == rfc3339_text(
            b.completed_at@.secs,
            b.completed_at@.nanos,
        ),
        a.billing.amount_cents == b.billing.amount_cents,
        a.billing.currency == b.billing.currency,
        same_items(a.billing.line_items@, b.billing.line_items@),
        resources_text(a.resources, a_texts) == resources_text(b.resources, b_texts),
{
    let billing = "{\"billing\":"@;
    let completed = ",\"completed_at\":"@;
    let job = ",\"job_id\":"@;
    let provider = ",\"provider_id\":"@;
    let resources = ",\"resources\":"@;
    let a_date = rfc3339_text(a.completed_at@.secs, a.completed_at@.nanos);
    let b_date = rfc3339_text(b.completed_at@.secs, b.completed_at@.nanos);
    let a5 = resources_text(a.resources, a_texts) + "}"@;
    let b5 = resources_text(b.resources, b_texts) + "}"@;
    let a4 = quoted(a.provider_id@) + (resources + a5);
    let b4 = quoted(b.provider_id@) + (resources + b5);
    let a3 = quoted(hyphenated(a.job_id)) + (provider + a4);
    let b3 = quoted(hyphenated(b.job_id)) + (provider + b4);
    let a2 = quoted(a_date) + (job + a3);
    let b2 = quoted(b_date) + (job + b3);
    let a1 = billing_text(a.billing) + (completed + a2);
    let b1 = billing_text(b.billing) + (completed + b2);
    lemma_canonical_shape(a, a_texts);
    lemma_canonical_shape(b, b_texts);
    lemma_after(billing, a1, b1);
    lemma_billing_readable(a.billing, b.billing, completed + a2, completed + b2);
    lemma_after(completed, a2, b2);
    law_quoted_text_readable(a_date, b_date, job + a3, job + b3);
    lemma_after(job, a3, b3);
    law_quoted_text_readable(
        hyphenated(a.job_id),
        hyphenated(b.job_id),
        provider + a4,
        provider + b4,
    );
    law_id_text_injective(a.job_id, b.job_id);
    lemma_after(provider, a4, b4);
    law_quoted_text_readable(a.provider_id@, b.provider_id@, resources + a5, resources + b5);
    lemma_after(resources, a5, b5);
    assert(a5.len() == b5.len());
    let n = a5.len() - "}"@.len();
    assert(a5.take(n) =~= resources_text(a.resources, a_texts));
    assert(b5.take(n) =~= resources_text(b.resources, b_texts));
}

} // verus!
