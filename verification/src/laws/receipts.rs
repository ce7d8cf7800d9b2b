//! Receipts, their canonical text and what is stamped on them.
use crate::clock::{rfc3339_text, Timestamp};
use crate::digest::{hex_digit, sha256_hex};
use crate::float64::F64;
use crate::job::hyphenated;
use crate::json::{escaped_text, quoted};
use crate::receipt::{billing_text, item_text, items_text, law_canonical_text_identifies};
use crate::receipt::{law_hash_ignores_proofs, resources_text, same_items};
use crate::receipt::{BillingCurrency, BillingRecord, ComputeReceipt, EnvelopeInput, LineItem};
use crate::receipt::{ResourceTexts, ResourceUsage};
use crate::text::decimal;
use vstd::prelude::*;
use vstd::utf8::*;

verus! {

/// The beginning of a JSON object: its members so far, each a key and the text of a
/// value, with commas between them.
pub open spec fn members_text(members: Seq<(Seq<char>, Seq<char>)>) -> Seq<char>
    decreases members.len(),
{
    if members.len() == 0 {
        "{"@
    } else {
        let (key, value) = members.last();
        let before = members_text(members.drop_last());
        let mark = if members.len() == 1 {
            before
        } else {
            before + ","@
        };
        mark + quoted(key) + ":"@ + value
    }
}

/// The compact text of a JSON object.
pub open spec fn object_text(members: Seq<(Seq<char>, Seq<char>)>) -> Seq<char> {
    members_text(members) + "}"@
}

/// Texts with commas between them.
pub open spec fn listed(items: Seq<Seq<char>>) -> Seq<char>
    decreases items.len(),
{
    if items.len() == 0 {
        Seq::empty()
    } else if items.len() == 1 {
        items[0]
    } else {
        items[0] + ","@ + listed(items.drop_first())
    }
}

/// The compact text of a JSON array.
pub open spec fn array_text(items: Seq<Seq<char>>) -> Seq<char> {
    "["@ + listed(items) + "]"@
}

/// A character that stands for itself in a JSON string.
spec fn plain(c: char) -> bool {
    c != '"' && c != '\\' && c as u32 >= 32
}

proof fn lemma_plain_text(s: Seq<char>)
    requires
        forall|i: int| 0 <= i < s.len() ==> plain(#[trigger] s[i]),
    ensures
        escaped_text(s) == s,
    decreases s.len(),
{
    if s.len() > 0 {
        let rest = s.drop_first();
        assert forall|i: int| 0 <= i < rest.len() implies plain(#[trigger] rest[i]) by {
            assert(rest[i] == s[i + 1]);
        }
        lemma_plain_text(rest);
        assert(plain(s[0]));
        assert(escaped_text(s) =~= s);
    } else {
        assert(escaped_text(s) =~= s);
    }
}

proof fn lemma_receipt_keys()
    ensures
        "{\"billing\":"@ == "{"@ + quoted("billing"@) + ":"@,
        ",\"completed_at\":"@ == ","@ + quoted("completed_at"@) + ":"@,
        ",\"job_id\":"@ == ","@ + quoted("job_id"@) + ":"@,
        ",\"provider_id\":"@ == ","@ + quoted("provider_id"@) + ":"@,
        ",\"resources\":"@ == ","@ + quoted("resources"@) + ":"@,
{
    assert("{\"billing\":"@ == "{"@ + quoted("billing"@) + ":"@) by {
        reveal_strlit("{\"billing\":");
        reveal_strlit("billing");
        reveal_strlit("{");
        reveal_strlit(":");
        assert forall|i: int| 0 <= i < "billing"@.len() implies plain(#[trigger] "billing"@[i]) by {}
        lemma_plain_text("billing"@);
        assert("{\"billing\":"@ =~= "{"@ + quoted("billing"@) + ":"@);
    }
    assert(",\"completed_at\":"@ == ","@ + quoted("completed_at"@) + ":"@) by {
        reveal_strlit(",\"completed_at\":");
        reveal_strlit("completed_at");
        reveal_strlit(",");
        reveal_strlit(":");
        assert forall|i: int| 0 <= i < "completed_at"@.len() implies plain(#[trigger] "completed_at"@[i]) by {}
        lemma_plain_text("completed_at"@);
        assert(",\"completed_at\":"@ =~= ","@ + quoted("completed_at"@) + ":"@);
    }
    assert(",\"job_id\":"@ == ","@ + quoted("job_id"@) + ":"@) by {
        reveal_strlit(",\"job_id\":");
        reveal_strlit("job_id");
        reveal_strlit(",");
        reveal_strlit(":");
        assert forall|i: int| 0 <= i < "job_id"@.len() implies plain(#[trigger] "job_id"@[i]) by {}
        lemma_plain_text("job_id"@);
        assert(",\"job_id\":"@ =~= ","@ + quoted("job_id"@) + ":"@);
    }
    assert(",\"provider_id\":"@ == ","@ + quoted("provider_id"@) + ":"@) by {
        reveal_strlit(",\"provider_id\":");
        reveal_strlit("provider_id");
        reveal_strlit(",");
        reveal_strlit(":");
        assert forall|i: int| 0 <= i < "provider_id"@.len() implies plain(#[trigger] "provider_id"@[i]) by {}
        lemma_plain_text("provider_id"@);
        assert(",\"provider_id\":"@ =~= ","@ + quoted("provider_id"@) + ":"@);
    }
    assert(",\"resources\":"@ == ","@ + quoted("resources"@) + ":"@) by {
        reveal_strlit(",\"resources\":");
        reveal_strlit("resources");
        reveal_strlit(",");
        reveal_strlit(":");
        assert forall|i: int| 0 <= i < "resources"@.len() implies plain(#[trigger] "resources"@[i]) by {}
        lemma_plain_text("resources"@);
        assert(",\"resources\":"@ =~= ","@ + quoted("resources"@) + ":"@);
    }
}

proof fn lemma_billing_keys()
    ensures
        "{\"amount_cents\":"@ == "{"@ + quoted("amount_cents"@) + ":"@,
        ",\"currency\":"@ == ","@ + quoted("currency"@) + ":"@,
        ",\"line_items\":"@ == ","@ + quoted("line_items"@) + ":"@,
{
    assert("{\"amount_cents\":"@ == "{"@ + quoted("amount_cents"@) + ":"@) by {
        reveal_strlit("{\"amount_cents\":");
        reveal_strlit("amount_cents");
        reveal_strlit("{");
        reveal_strlit(":");
        assert forall|i: int| 0 <= i < "amount_cents"@.len() implies plain(#[trigger] "amount_cents"@[i]) by {}
        lemma_plain_text("amount_cents"@);
        assert("{\"amount_cents\":"@ =~= "{"@ + quoted("amount_cents"@) + ":"@);
    }
    assert(",\"currency\":"@ == ","@ + quoted("currency"@) + ":"@) by {
        reveal_strlit(",\"currency\":");
        reveal_strlit("currency");
        reveal_strlit(",");
        reveal_strlit(":");
        assert forall|i: int| 0 <= i < "currency"@.len() implies plain(#[trigger] "currency"@[i]) by {}
        lemma_plain_text("currency"@);
        assert(",\"currency\":"@ =~= ","@ + quoted("currency"@) + ":"@);
    }
    assert(",\"line_items\":"@ == ","@ + quoted("line_items"@) + ":"@) by {
        reveal_strlit(",\"line_items\":");
        reveal_strlit("line_items");
        reveal_strlit(",");
        reveal_strlit(":");
        assert forall|i: int| 0 <= i < "line_items"@.len() implies plain(#[trigger] "line_items"@[i]) by {}
        lemma_plain_text("line_items"@);
        assert(",\"line_items\":"@ =~= ","@ + quoted("line_items"@) + ":"@);
    }
}

proof fn lemma_resource_keys()
    ensures
        "{\"cpu_seconds\":"@ == "{"@ + quoted("cpu_seconds"@) + ":"@,
        ",\"egress_gb\":"@ == ","@ + quoted("egress_gb"@) + ":"@,
        ",\"gpu_seconds\":"@ == ","@ + quoted("gpu_seconds"@) + ":"@,
        ",\"ram_gb_seconds\":"@ == ","@ + quoted("ram_gb_seconds"@) + ":"@,
        ",\"storage_gb\":"@ == ","@ + quoted("storage_gb"@) + ":"@,
{
    assert("{\"cpu_seconds\":"@ == "{"@ + quoted("cpu_seconds"@) + ":"@) by {
        reveal_strlit("{\"cpu_seconds\":");
        reveal_strlit("cpu_seconds");
        reveal_strlit("{");
        reveal_strlit(":");
        assert forall|i: int| 0 <= i < "cpu_seconds"@.len() implies plain(#[trigger] "cpu_seconds"@[i]) by {}
        lemma_plain_text("cpu_seconds"@);
        assert("{\"cpu_seconds\":"@ =~= "{"@ + quoted("cpu_seconds"@) + ":"@);
    }
    assert(",\"egress_gb\":"@ == ","@ + quoted("egress_gb"@) + ":"@) by {
        reveal_strlit(",\"egress_gb\":");
        reveal_strlit("egress_gb");
        reveal_strlit(",");
        reveal_strlit(":");
        assert forall|i: int| 0 <= i < "egress_gb"@.len() implies plain(#[trigger] "egress_gb"@[i]) by {}
        lemma_plain_text("egress_gb"@);
        assert(",\"egress_gb\":"@ =~= ","@ + quoted("egress_gb"@) + ":"@);
    }
    assert(",\"gpu_seconds\":"@ == ","@ + quoted("gpu_seconds"@) + ":"@) by {
        reveal_strlit(",\"gpu_seconds\":");
        reveal_strlit("gpu_seconds");
        reveal_strlit(",");
        reveal_strlit(":");
        assert forall|i: int| 0 <= i < "gpu_seconds"@.len() implies plain(#[trigger] "gpu_seconds"@[i]) by {}
        lemma_plain_text("gpu_seconds"@);
        assert(",\"gpu_seconds\":"@ =~= ","@ + quoted("gpu_seconds"@) + ":"@);
    }
    assert(",\"ram_gb_seconds\":"@ == ","@ + quoted("ram_gb_seconds"@) + ":"@) by {
        reveal_strlit(",\"ram_gb_seconds\":");
        reveal_strlit("ram_gb_seconds");
        reveal_strlit(",");
        reveal_strlit(":");
        assert forall|i: int| 0 <= i < "ram_gb_seconds"@.len() implies plain(#[trigger] "ram_gb_seconds"@[i]) by {}
        lemma_plain_text("ram_gb_seconds"@);
        assert(",\"ram_gb_seconds\":"@ =~= ","@ + quoted("ram_gb_seconds"@) + ":"@);
    }
    assert(",\"storage_gb\":"@ == ","@ + quoted("storage_gb"@) + ":"@) by {
        reveal_strlit(",\"storage_gb\":");
        reveal_strlit("storage_gb");
        reveal_strlit(",");
        reveal_strlit(":");
        assert forall|i: int| 0 <= i < "storage_gb"@.len() implies plain(#[trigger] "storage_gb"@[i]) by {}
        lemma_plain_text("storage_gb"@);
        assert(",\"storage_gb\":"@ =~= ","@ + quoted("storage_gb"@) + ":"@);
    }
}

proof fn lemma_item_keys()
    ensures
        "{\"cents\":"@ == "{"@ + quoted("cents"@) + ":"@,
        ",\"label\":"@ == ","@ + quoted("label"@) + ":"@,
{
    assert("{\"cents\":"@ == "{"@ + quoted("cents"@) + ":"@) by {
        reveal_strlit("{\"cents\":");
        reveal_strlit("cents");
        reveal_strlit("{");
        reveal_strlit(":");
        assert forall|i: int| 0 <= i < "cents"@.len() implies plain(#[trigger] "cents"@[i]) by {}
        lemma_plain_text("cents"@);
        assert("{\"cents\":"@ =~= "{"@ + quoted("cents"@) + ":"@);
    }
    assert(",\"label\":"@ == ","@ + quoted("label"@) + ":"@) by {
        reveal_strlit(",\"label\":");
        reveal_strlit("label");
        reveal_strlit(",");
        reveal_strlit(":");
        assert forall|i: int| 0 <= i < "label"@.len() implies plain(#[trigger] "label"@[i]) by {}
        lemma_plain_text("label"@);
        assert(",\"label\":"@ =~= ","@ + quoted("label"@) + ":"@);
    }
}

proof fn lemma_member(before: Seq<char>, mark: Seq<char>, key: Seq<char>, value: Seq<char>)
    ensures
        before + mark + quoted(key) + ":"@ + value == before + (mark + quoted(key) + ":"@) + value,
{
    assert(before + mark + quoted(key) + ":"@ =~= before + (mark + quoted(key) + ":"@));
}

/// The text of a number as JSON has it: null for one that is infinite or not a number.
pub open spec fn number_text(x: F64, text: String) -> Seq<char> {
    if x.is_finite() {
        text@
    } else {
        "null"@
    }
}

/// What is used, with its members in alphabetical order.
pub open spec fn usage_text(r: ResourceUsage, texts: ResourceTexts) -> Seq<char> {
    object_text(
        seq![
            ("cpu_seconds"@, number_text(r.cpu_seconds, texts.cpu_seconds)),
            ("egress_gb"@, number_text(r.egress_gb, texts.egress_gb)),
            ("gpu_seconds"@, number_text(r.gpu_seconds, texts.gpu_seconds)),
            ("ram_gb_seconds"@, number_text(r.ram_gb_seconds, texts.ram_gb_seconds)),
            ("storage_gb"@, number_text(r.storage_gb, texts.storage_gb)),
        ],
    )
}

/// An item, with its members in alphabetical order.
pub open spec fn charge_text(item: LineItem) -> Seq<char> {
    object_text(
        seq![("cents"@, decimal(item.cents as nat)), ("label"@, quoted(item.label@))],
    )
}

/// What is charged, with its members in alphabetical order.
pub open spec fn charges_text(b: BillingRecord) -> Seq<char> {
    object_text(
        seq![
            ("amount_cents"@, decimal(b.amount_cents as nat)),
            (
                "currency"@,
                quoted(
                    match b.currency {
                        BillingCurrency::Usd => "Usd"@,
                        BillingCurrency::Ase => "Ase"@,
                    },
                ),
            ),
            (
                "line_items"@,
                array_text(Seq::new(b.line_items@.len(), |i: int| charge_text(b.line_items@[i]))),
            ),
        ],
    )
}

proof fn lemma_usage_text(r: ResourceUsage, texts: ResourceTexts)
    ensures
        usage_text(r, texts) == resources_text(r, texts),
{
    lemma_resource_keys();
    let all = seq![
        ("cpu_seconds"@, number_text(r.cpu_seconds, texts.cpu_seconds)),
        ("egress_gb"@, number_text(r.egress_gb, texts.egress_gb)),
        ("gpu_seconds"@, number_text(r.gpu_seconds, texts.gpu_seconds)),
        ("ram_gb_seconds"@, number_text(r.ram_gb_seconds, texts.ram_gb_seconds)),
        ("storage_gb"@, number_text(r.storage_gb, texts.storage_gb)),
    ];
    lemma_five_members(all[0], all[1], all[2], all[3], all[4]);
}

proof fn lemma_first_member(a: (Seq<char>, Seq<char>))
    ensures
        members_text(seq![a]) == "{"@ + quoted(a.0) + ":"@ + a.1,
{
    reveal_with_fuel(members_text, 2);
    assert(seq![a].drop_last() =~= Seq::<(Seq<char>, Seq<char>)>::empty());
}

proof fn lemma_next_member(before: Seq<(Seq<char>, Seq<char>)>, a: (Seq<char>, Seq<char>))
    requires
        before.len() > 0,
    ensures
        members_text(before.push(a)) == members_text(before) + (","@ + quoted(a.0) + ":"@) + a.1,
{
    assert(before.push(a).drop_last() =~= before);
    lemma_member(members_text(before), ","@, a.0, a.1);
}

proof fn lemma_five_members(
    a: (Seq<char>, Seq<char>),
    b: (Seq<char>, Seq<char>),
    c: (Seq<char>, Seq<char>),
    d: (Seq<char>, Seq<char>),
    e: (Seq<char>, Seq<char>),
)
    ensures
        object_text(seq![a, b, c, d, e]) == "{"@ + quoted(a.0) + ":"@ + a.1 + (","@ + quoted(b.0)
            + ":"@) + b.1 + (","@ + quoted(c.0) + ":"@) + c.1 + (","@ + quoted(d.0) + ":"@) + d.1
            + (","@ + quoted(e.0) + ":"@) + e.1 + "}"@,
{
    lemma_first_member(a);
    lemma_next_member(seq![a], b);
    lemma_next_member(seq![a].push(b), c);
    lemma_next_member(seq![a].push(b).push(c), d);
    lemma_next_member(seq![a].push(b).push(c).push(d), e);
    assert(seq![a, b, c, d, e] =~= seq![a].push(b).push(c).push(d).push(e));
}

proof fn lemma_charge_text(item: LineItem)
    ensures
        charge_text(item) == item_text(item),
{
    lemma_item_keys();
    let a = ("cents"@, decimal(item.cents as nat));
    let b = ("label"@, quoted(item.label@));
    lemma_first_member(a);
    lemma_next_member(seq![a], b);
    assert(seq![a, b] =~= seq![a].push(b));
}

proof fn lemma_items_text(items: Seq<LineItem>)
    ensures
        listed(Seq::new(items.len(), |i: int| charge_text(items[i]))) == items_text(items),
    decreases items.len(),
{
    let texts = Seq::new(items.len(), |i: int| charge_text(items[i]));
    if items.len() > 0 {
        lemma_charge_text(items[0]);
        let rest = items.drop_first();
        lemma_items_text(rest);
        assert(texts.drop_first() =~= Seq::new(rest.len(), |i: int| charge_text(rest[i])));
    }
}

proof fn lemma_charges_text(b: BillingRecord)
    ensures
        charges_text(b) == billing_text(b),
{
    lemma_billing_keys();
    lemma_items_text(b.line_items@);
    let name = match b.currency {
        BillingCurrency::Usd => "Usd"@,
        BillingCurrency::Ase => "Ase"@,
    };
    let items = Seq::new(b.line_items@.len(), |i: int| charge_text(b.line_items@[i]));
    let x = ("amount_cents"@, decimal(b.amount_cents as nat));
    let y = ("currency"@, quoted(name));
    let z = ("line_items"@, array_text(items));
    lemma_first_member(x);
    lemma_next_member(seq![x], y);
    lemma_next_member(seq![x].push(y), z);
    assert(seq![x, y, z] =~= seq![x].push(y).push(z));
    let front = members_text(seq![x].push(y));
    assert(front == "{\"amount_cents\":"@ + x.1 + ",\"currency\":"@ + y.1);
    reveal_strlit(",\"line_items\":");
    reveal_strlit(",\"line_items\":[");
    reveal_strlit("[");
    reveal_strlit("]");
    reveal_strlit("}");
    reveal_strlit("]}");
    assert(",\"line_items\":["@ =~= ",\"line_items\":"@ + "["@);
    assert("]}"@ =~= "]"@ + "}"@);
    let key = ",\"line_items\":"@;
    let inner = listed(items);
    assert(front + key + ("["@ + inner + "]"@) + "}"@ =~= front + (key + "["@) + inner + ("]"@
        + "}"@));
}

/// The canonical text of a receipt is compact JSON with the members of every object in
/// alphabetical order: what is charged, when it was completed, the job, the provider and
/// what was used. What a receipt is proved by and stamped with is no part of it.
pub proof fn law_canonical_json(receipt: &ComputeReceipt, texts: &ResourceTexts, r: String)
    requires
        call_ensures(ComputeReceipt::canonical, (receipt, texts), r),
    ensures
        r@ == object_text(
            seq![
                ("billing"@, charges_text(receipt.billing)),
                (
                    "completed_at"@,
                    quoted(rfc3339_text(receipt.completed_at@.secs, receipt.completed_at@.nanos)),
                ),
                ("job_id"@, quoted(hyphenated(receipt.job_id))),
                ("provider_id"@, quoted(receipt.provider_id@)),
                ("resources"@, usage_text(receipt.resources, *texts)),
            ],
        ),
{
    lemma_receipt_keys();
    lemma_charges_text(receipt.billing);
    lemma_usage_text(receipt.resources, *texts);
    let at = rfc3339_text(receipt.completed_at@.secs, receipt.completed_at@.nanos);
    lemma_five_members(
        ("billing"@, charges_text(receipt.billing)),
        ("completed_at"@, quoted(at)),
        ("job_id"@, quoted(hyphenated(receipt.job_id))),
        ("provider_id"@, quoted(receipt.provider_id@)),
        ("resources"@, usage_text(receipt.resources, *texts)),
    );
}

/// The hash of a receipt is that of its canonical text.
pub proof fn law_hash_of_canonical_text(
    receipt: &ComputeReceipt,
    texts: &ResourceTexts,
    canonical: String,
    data: &[u8],
    digest: String,
    r: String,
)
    requires
        call_ensures(ComputeReceipt::hash, (receipt, texts), r),
        call_ensures(ComputeReceipt::canonical, (receipt, texts), canonical),
        data@ == encode_utf8(canonical@),
        call_ensures(sha256_hex, (data,), digest),
    ensures
        r@ == digest@,
{
}

/// Receipts that differ in their job, provider, charges or use differ in their canonical
/// text; those that agree in all of it have the same hash, whatever proves them.
pub proof fn law_hash_covers_receipt(
    receipt: &ComputeReceipt,
    other: &ComputeReceipt,
    texts: &ResourceTexts,
    canonical: String,
    other_canonical: String,
    hash: String,
    other_hash: String,
)
    requires
        call_ensures(ComputeReceipt::canonical, (receipt, texts), canonical),
        call_ensures(ComputeReceipt::canonical, (other, texts), other_canonical),
        call_ensures(ComputeReceipt::hash, (receipt, texts), hash),
        call_ensures(ComputeReceipt::hash, (other, texts), other_hash),
    ensures
        canonical@ == other_canonical@ ==> {
            &&& receipt.job_id == other.job_id
            &&& receipt.provider_id@ == other.provider_id@
            &&& receipt.billing.amount_cents == other.billing.amount_cents
            &&& receipt.billing.currency == other.billing.currency
            &&& same_items(receipt.billing.line_items@, other.billing.line_items@)
        },
        receipt.job_id == other.job_id && receipt.provider_id@ == other.provider_id@
            && receipt.completed_at@ == other.completed_at@ && receipt.resources == other.resources
            && receipt.billing.amount_cents == other.billing.amount_cents
            && receipt.billing.currency == other.billing.currency && same_items(
            receipt.billing.line_items@,
            other.billing.line_items@,
        ) ==> hash@ == other_hash@,
{
    if canonical@ == other_canonical@ {
        law_canonical_text_identifies(*receipt, *texts, *other, *texts);
    }
    if receipt.job_id == other.job_id && receipt.provider_id@ == other.provider_id@
        && receipt.completed_at@ == other.completed_at@ && receipt.resources == other.resources
        && receipt.billing.amount_cents == other.billing.amount_cents && receipt.billing.currency
        == other.billing.currency && same_items(
        receipt.billing.line_items@,
        other.billing.line_items@,
    ) {
        law_hash_ignores_proofs(*receipt, *other, *texts);
    }
}

/// A receipt without a stamp is to be put into an envelope by its job's name and the
/// milliseconds of its completion, as 64 bits; one with a stamp is not.
pub proof fn law_envelope_of_receipt(
    receipt: &ComputeReceipt,
    at: &Timestamp,
    millis: i64,
    r: Option<EnvelopeInput>,
)
    requires
        call_ensures(ComputeReceipt::envelope_input, (receipt,), r),
        at@ == receipt.completed_at@,
        call_ensures(Timestamp::millis, (at,), millis),
    ensures
        r is Some <==> receipt.gix1_canonical_id is None,
        r matches Some(e) ==> {
            &&& e.payload@ == hyphenated(receipt.job_id)
            &&& millis >= 0 ==> e.timestamp_millis == millis
            &&& millis < 0 ==> e.timestamp_millis == millis + 0x1_0000_0000_0000_0000
        },
{
}

/// A stamp is the canonical identifier in hexadecimal, two digits for each byte; it is
/// put on a receipt once, stays, and changes nothing else.
pub proof fn law_stamped_once(receipt: &mut ComputeReceipt, id: &[u8; 32])
    requires
        call_ensures(ComputeReceipt::stamp_gix1, (receipt, id), ()),
    ensures
        final(receipt).job_id == old(receipt).job_id,
        final(receipt).provider_id == old(receipt).provider_id,
        final(receipt).completed_at == old(receipt).completed_at,
        final(receipt).resources == old(receipt).resources,
        final(receipt).billing == old(receipt).billing,
        final(receipt).verification == old(receipt).verification,
        final(receipt).zangbeto_anchor == old(receipt).zangbeto_anchor,
        old(receipt).gix1_canonical_id is Some ==> final(receipt).gix1_canonical_id == old(
            receipt,
        ).gix1_canonical_id,
        old(receipt).gix1_canonical_id is None ==> (final(receipt).gix1_canonical_id matches Some(
            s,
        ) && s@.len() == 64 && forall|i: int|
            #![trigger id@[i]]
            0 <= i < 32 ==> hex_value(s@[2 * i]) == id@[i] / 16 && hex_value(s@[2 * i + 1]) == id@[i]
                % 16),
{
    assert forall|i: int| #![trigger id@[i]] 0 <= i < 32 implies hex_value(
        hex_digit((id@[i] / 16) as nat),
    ) == id@[i] / 16 && hex_value(hex_digit((id@[i] % 16) as nat)) == id@[i] % 16 by {
        lemma_hex_value((id@[i] / 16) as nat);
        lemma_hex_value((id@[i] % 16) as nat);
    }
}

/// The number that a lower-case hexadecimal digit stands for.
pub open spec fn hex_value(c: char) -> int {
    if '0' <= c <= '9' {
        c as u32 - '0' as u32
    } else {
        c as u32 - 'a' as u32 + 10
    }
}

pub proof fn lemma_hex_value(n: nat)
    requires
        n < 16,
    ensures
        hex_value(hex_digit(n)) == n,
{
    reveal_strlit("0123456789abcdef");
    let s = "0123456789abcdef"@;
    assert(s[0] == '0' && s[1] == '1' && s[2] == '2' && s[3] == '3' && s[4] == '4');
    assert(s[5] == '5' && s[6] == '6' && s[7] == '7' && s[8] == '8' && s[9] == '9');
    assert(s[10] == 'a' && s[11] == 'b' && s[12] == 'c' && s[13] == 'd' && s[14] == 'e');
    assert(s[15] == 'f');
    if n < 8 {
        assert(n == 0 || n == 1 || n == 2 || n == 3 || n == 4 || n == 5 || n == 6 || n == 7);
    } else {
        assert(n == 8 || n == 9 || n == 10 || n == 11 || n == 12 || n == 13 || n == 14 || n == 15);
    }
}

} // verus!
