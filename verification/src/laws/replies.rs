//! What the service answers, by the keys of its replies.
use crate::clock::rfc3339_text;
use crate::float64::F64;
use crate::job::{hyphenated, Allocation, JobId, JobStatus};
use crate::json::{member_value, JsonView};
use crate::marketplace::{AccountBalance, DepositAddress, EarningsReport, MachineId};
use crate::receipt::{BillingCurrency, ComputeReceipt, ResourceTexts};
use crate::server::{cancel_job, contribute_gpu, fund_account, get_balance, get_earnings};
use crate::server::{get_job_status, get_receipt, health, requested_job, submit_job, Reply};
use vstd::prelude::*;

verus! {

/// Whether a value is an object with a text under a key.
pub open spec fn tells(j: JsonView, key: Seq<char>, s: Seq<char>) -> bool {
    j.get(key) == Some(JsonView::Str(s))
}

/// Whether a value is an object with a natural number under a key.
pub open spec fn counts(j: JsonView, key: Seq<char>, n: u64) -> bool {
    j.get(key) == Some(JsonView::UInt(n))
}

/// Whether a value is an object with a double under a key, or null for one that is
/// infinite or not a number.
pub open spec fn measures(j: JsonView, key: Seq<char>, x: F64) -> bool {
    if x.is_finite() {
        j.get(key) == Some(JsonView::Float(x))
    } else {
        j.get(key) == Some(JsonView::Null)
    }
}

/// Whether a value is an object with an optional text under a key, null for none.
pub open spec fn may_tell(j: JsonView, key: Seq<char>, s: Option<String>) -> bool {
    match s {
        Some(s) => tells(j, key, s@),
        None => j.get(key) == Some(JsonView::Null),
    }
}

/// How many members an object has.
pub open spec fn size(j: JsonView) -> nat {
    match j {
        JsonView::Object(members) => members.len(),
        _ => 0,
    }
}

/// Whether a reply tells of an error, with this status and this message and nothing
/// else.
pub open spec fn is_refusal(r: Reply, status: int, message: Seq<char>) -> bool {
    &&& r.status == status
    &&& tells(r.body@, "error"@, message)
    &&& size(r.body@) == 1
}

proof fn lemma_receipt_apart()
    ensures
        "billing"@ != "completed_at"@,
        "billing"@ != "job_id"@,
        "billing"@ != "provider_id"@,
        "billing"@ != "receipt_hash"@,
        "billing"@ != "resources"@,
        "billing"@ != "verification"@,
        "completed_at"@ != "job_id"@,
        "completed_at"@ != "provider_id"@,
        "completed_at"@ != "receipt_hash"@,
        "completed_at"@ != "resources"@,
        "completed_at"@ != "verification"@,
        "job_id"@ != "provider_id"@,
        "job_id"@ != "receipt_hash"@,
        "job_id"@ != "resources"@,
        "job_id"@ != "verification"@,
        "provider_id"@ != "receipt_hash"@,
        "provider_id"@ != "resources"@,
        "provider_id"@ != "verification"@,
        "receipt_hash"@ != "resources"@,
        "receipt_hash"@ != "verification"@,
        "resources"@ != "verification"@,
{
    reveal_strlit("billing");
    reveal_strlit("completed_at");
    reveal_strlit("job_id");
    reveal_strlit("provider_id");
    reveal_strlit("receipt_hash");
    reveal_strlit("resources");
    reveal_strlit("verification");
    assert("billing"@.len() == 7);
    assert("completed_at"@.len() == 12);
    assert("job_id"@.len() == 6);
    assert("provider_id"@.len() == 11);
    assert("receipt_hash"@.len() == 12);
    assert("resources"@.len() == 9);
    assert("verification"@.len() == 12);
    assert("completed_at"@[0] != "receipt_hash"@[0]);
    assert("completed_at"@[0] != "verification"@[0]);
    assert("receipt_hash"@[0] != "verification"@[0]);
}

proof fn lemma_resource_apart()
    ensures
        "cpu_seconds"@ != "egress_gb"@,
        "cpu_seconds"@ != "gpu_seconds"@,
        "cpu_seconds"@ != "ram_gb_seconds"@,
        "cpu_seconds"@ != "storage_gb"@,
        "egress_gb"@ != "gpu_seconds"@,
        "egress_gb"@ != "ram_gb_seconds"@,
        "egress_gb"@ != "storage_gb"@,
        "gpu_seconds"@ != "ram_gb_seconds"@,
        "gpu_seconds"@ != "storage_gb"@,
        "ram_gb_seconds"@ != "storage_gb"@,
{
    reveal_strlit("cpu_seconds");
    reveal_strlit("egress_gb");
    reveal_strlit("gpu_seconds");
    reveal_strlit("ram_gb_seconds");
    reveal_strlit("storage_gb");
    assert("cpu_seconds"@.len() == 11);
    assert("egress_gb"@.len() == 9);
    assert("gpu_seconds"@.len() == 11);
    assert("ram_gb_seconds"@.len() == 14);
    assert("storage_gb"@.len() == 10);
    assert("cpu_seconds"@[0] != "gpu_seconds"@[0]);
}

proof fn lemma_billing_apart()
    ensures
        "amount_cents"@ != "currency"@,
        "amount_cents"@ != "line_items"@,
        "currency"@ != "line_items"@,
{
    reveal_strlit("amount_cents");
    reveal_strlit("currency");
    reveal_strlit("line_items");
    assert("amount_cents"@.len() == 12);
    assert("currency"@.len() == 8);
    assert("line_items"@.len() == 10);
}

proof fn lemma_proof_apart()
    ensures
        "artifact_hash"@ != "execution_hash"@,
        "artifact_hash"@ != "runtime_attestation"@,
        "execution_hash"@ != "runtime_attestation"@,
{
    reveal_strlit("artifact_hash");
    reveal_strlit("execution_hash");
    reveal_strlit("runtime_attestation");
    assert("artifact_hash"@.len() == 13);
    assert("execution_hash"@.len() == 14);
    assert("runtime_attestation"@.len() == 19);
}

/// A receipt is shown with status 200: its job, its provider, when it was completed and
/// the hash that a holder can check it by.
pub proof fn law_receipt_shown(
    receipt: &ComputeReceipt,
    texts: &ResourceTexts,
    hash: String,
    r: Reply,
)
    requires
        call_ensures(get_receipt, (Ok((receipt, texts)),), r),
        call_ensures(ComputeReceipt::hash, (receipt, texts), hash),
    ensures
        r.status == 200,
        size(r.body@) == 7,
        tells(r.body@, "job_id"@, hyphenated(receipt.job_id)),
        tells(r.body@, "provider_id"@, receipt.provider_id@),
        tells(
            r.body@,
            "completed_at"@,
            rfc3339_text(receipt.completed_at@.secs, receipt.completed_at@.nanos),
        ),
        tells(r.body@, "receipt_hash"@, hash@),
{
    lemma_receipt_apart();
    reveal_with_fuel(member_value, 8);
}

/// Each of the resources that a receipt counts is shown under its own name.
pub proof fn law_receipt_resources_shown(receipt: &ComputeReceipt, texts: &ResourceTexts, r: Reply)
    requires
        call_ensures(get_receipt, (Ok((receipt, texts)),), r),
    ensures
        ({
            let shown = r.body@.at("resources"@);
            &&& size(shown) == 5
            &&& measures(shown, "gpu_seconds"@, receipt.resources.gpu_seconds)
            &&& measures(shown, "cpu_seconds"@, receipt.resources.cpu_seconds)
            &&& measures(shown, "ram_gb_seconds"@, receipt.resources.ram_gb_seconds)
            &&& measures(shown, "storage_gb"@, receipt.resources.storage_gb)
            &&& measures(shown, "egress_gb"@, receipt.resources.egress_gb)
        }),
{
    lemma_receipt_apart();
    lemma_resource_apart();
    reveal_with_fuel(member_value, 8);
}

/// What a receipt bills is shown: the amount, the currency, and each item with its
/// label and its cents, in order.
pub proof fn law_receipt_billing_shown(receipt: &ComputeReceipt, texts: &ResourceTexts, r: Reply)
    requires
        call_ensures(get_receipt, (Ok((receipt, texts)),), r),
    ensures
        ({
            let shown = r.body@.at("billing"@);
            let items = receipt.billing.line_items@;
            &&& size(shown) == 3
            &&& counts(shown, "amount_cents"@, receipt.billing.amount_cents)
            &&& receipt.billing.currency == BillingCurrency::Usd ==> tells(
                shown,
                "currency"@,
                "Usd"@,
            )
            &&& receipt.billing.currency == BillingCurrency::Ase ==> tells(
                shown,
                "currency"@,
                "Ase"@,
            )
            &&& shown.at("line_items"@) matches JsonView::Array(list) && list.len() == items.len()
                && forall|i: int|
                0 <= i < items.len() ==> size(#[trigger] list[i]) == 2 && tells(
                    list[i],
                    "label"@,
                    items[i].label@,
                ) && counts(list[i], "cents"@, items[i].cents)
        }),
{
    lemma_receipt_apart();
    lemma_billing_apart();
    reveal_strlit("label");
    reveal_strlit("cents");
    assert("label"@[0] != "cents"@[0]);
    reveal_with_fuel(member_value, 8);
}

/// The proofs that go with a receipt are shown, each under its own name.
pub proof fn law_receipt_proofs_shown(receipt: &ComputeReceipt, texts: &ResourceTexts, r: Reply)
    requires
        call_ensures(get_receipt, (Ok((receipt, texts)),), r),
    ensures
        ({
            let shown = r.body@.at("verification"@);
            let proofs = receipt.verification;
            &&& size(shown) == 3
            &&& may_tell(shown, "artifact_hash"@, proofs.artifact_hash)
            &&& may_tell(shown, "runtime_attestation"@, proofs.runtime_attestation)
            &&& may_tell(shown, "execution_hash"@, proofs.execution_hash)
        }),
{
    lemma_receipt_apart();
    lemma_proof_apart();
    reveal_with_fuel(member_value, 8);
}

/// A receipt that is not there is answered with status 404 and the reason.
pub proof fn law_no_receipt_refused(message: &str, r: Reply)
    requires
        call_ensures(
            get_receipt,
            (Err::<(&ComputeReceipt, &ResourceTexts), &str>(message),),
            r,
        ),
    ensures
        is_refusal(r, 404, message@),
{
}

/// The job that a receipt or an allocation shows is read back as that job when a caller
/// asks after it.
pub proof fn law_shown_job_can_be_asked_after(
    receipt: &ComputeReceipt,
    texts: &ResourceTexts,
    shown: Reply,
    asked: &str,
    r: Result<JobId, Reply>,
)
    requires
        call_ensures(get_receipt, (Ok((receipt, texts)),), shown),
        tells(shown.body@, "job_id"@, asked@),
        call_ensures(requested_job, (asked,), r),
    ensures
        r == Ok::<JobId, Reply>(receipt.job_id),
{
    reveal_with_fuel(member_value, 2);
}

/// The job that an allocation shows is read back as that job when a caller asks after it.
pub proof fn law_allocated_job_can_be_asked_after(
    a: &Allocation,
    shown: Reply,
    asked: &str,
    r: Result<JobId, Reply>,
)
    requires
        call_ensures(submit_job, (Ok(a),), shown),
        tells(shown.body@, "job_id"@, asked@),
        call_ensures(requested_job, (asked,), r),
    ensures
        r == Ok::<JobId, Reply>(a.job_id),
{
    reveal_with_fuel(member_value, 2);
}

/// No text is read as two jobs, and one that is read as none is answered with 400.
pub proof fn law_asked_jobs_kept_apart(
    asked: &str,
    r: Result<JobId, Reply>,
    s: Result<JobId, Reply>,
)
    requires
        call_ensures(requested_job, (asked,), r),
        call_ensures(requested_job, (asked,), s),
    ensures
        r is Ok && s is Ok ==> r == s,
        r is Ok <==> s is Ok,
        r matches Err(reply) ==> is_refusal(reply, 400, "invalid job_id"@),
{
}

proof fn lemma_allocation_apart()
    ensures
        "allocated_at"@ != "job_id"@,
        "allocated_at"@ != "provider_id"@,
        "allocated_at"@ != "status"@,
        "job_id"@ != "provider_id"@,
        "job_id"@ != "status"@,
        "provider_id"@ != "status"@,
{
    reveal_strlit("allocated_at");
    reveal_strlit("job_id");
    reveal_strlit("provider_id");
    reveal_strlit("status");
    assert("allocated_at"@.len() == 12);
    assert("job_id"@.len() == 6);
    assert("provider_id"@.len() == 11);
    assert("status"@.len() == 6);
    assert("job_id"@[0] != "status"@[0]);
}

/// An allocation is shown with status 200: the job, the provider, how the job fares and
/// since when.
pub proof fn law_allocation_shown(a: &Allocation, name: &'static str, r: Reply)
    requires
        call_ensures(submit_job, (Ok(a),), r),
        call_ensures(JobStatus::name, (a.status,), name),
    ensures
        r.status == 200,
        size(r.body@) == 4,
        tells(r.body@, "job_id"@, hyphenated(a.job_id)),
        tells(r.body@, "provider_id"@, a.provider_id@),
        tells(r.body@, "status"@, name@),
        tells(
            r.body@,
            "allocated_at"@,
            rfc3339_text(a.allocated_at@.secs, a.allocated_at@.nanos),
        ),
{
    lemma_allocation_apart();
    reveal_with_fuel(member_value, 5);
}

/// A job that no provider takes is answered with status 422 and the reason.
pub proof fn law_no_allocation_refused(message: &str, r: Reply)
    requires
        call_ensures(submit_job, (Err::<&Allocation, &str>(message),), r),
    ensures
        is_refusal(r, 422, message@),
{
}

/// How a job fares is answered by its word; a job that is not known with 404.
pub proof fn law_status_shown(
    status: JobStatus,
    name: &'static str,
    r: Reply,
    message: &str,
    refused: Reply,
)
    requires
        call_ensures(get_job_status, (Ok::<JobStatus, &str>(status),), r),
        call_ensures(JobStatus::name, (status,), name),
        call_ensures(get_job_status, (Err::<JobStatus, &str>(message),), refused),
    ensures
        r.status == 200,
        size(r.body@) == 1,
        tells(r.body@, "status"@, name@),
        is_refusal(refused, 404, message@),
{
}

/// Calling a job off is answered by `cancelled`; a job that is not known with 404.
pub proof fn law_cancellation_shown(r: Reply, message: &str, refused: Reply)
    requires
        call_ensures(cancel_job, (Ok::<(), &str>(()),), r),
        call_ensures(cancel_job, (Err::<(), &str>(message),), refused),
    ensures
        r.status == 200,
        size(r.body@) == 1,
        r.body@.get("cancelled"@) == Some(JsonView::Bool(true)),
        is_refusal(refused, 404, message@),
{
}

/// The service says that it lives, and which service it is.
pub proof fn law_health_shown(r: Reply)
    requires
        call_ensures(health, (), r),
    ensures
        r.status == 200,
        size(r.body@) == 2,
        r.body@.get("ok"@) == Some(JsonView::Bool(true)),
        tells(r.body@, "service"@, "ucx-broker"@),
{
    reveal_strlit("ok");
    reveal_strlit("service");
    assert("ok"@.len() == 2 && "service"@.len() == 7);
    reveal_with_fuel(member_value, 3);
}

/// A machine that the marketplace took is shown by its name; a failure there with 502.
pub proof fn law_machine_shown(id: &MachineId, r: Reply, message: &str, refused: Reply)
    requires
        call_ensures(contribute_gpu, (Ok::<&MachineId, &str>(id),), r),
        call_ensures(contribute_gpu, (Err::<&MachineId, &str>(message),), refused),
    ensures
        r.status == 200,
        size(r.body@) == 1,
        tells(r.body@, "machine_id"@, id@),
        is_refusal(refused, 502, message@),
{
}

proof fn lemma_earnings_apart()
    ensures
        "gpu_hours_contributed"@ != "jobs_completed"@,
        "gpu_hours_contributed"@ != "pending_payout_cents"@,
        "gpu_hours_contributed"@ != "raw"@,
        "gpu_hours_contributed"@ != "total_earned_cents"@,
        "jobs_completed"@ != "pending_payout_cents"@,
        "jobs_completed"@ != "raw"@,
        "jobs_completed"@ != "total_earned_cents"@,
        "pending_payout_cents"@ != "raw"@,
        "pending_payout_cents"@ != "total_earned_cents"@,
        "raw"@ != "total_earned_cents"@,
{
    reveal_strlit("gpu_hours_contributed");
    reveal_strlit("jobs_completed");
    reveal_strlit("pending_payout_cents");
    reveal_strlit("raw");
    reveal_strlit("total_earned_cents");
    assert("gpu_hours_contributed"@.len() == 21);
    assert("jobs_completed"@.len() == 14);
    assert("pending_payout_cents"@.len() == 20);
    assert("raw"@.len() == 3);
    assert("total_earned_cents"@.len() == 18);
}

/// A report of earnings is shown with each of its numbers under its own name and the
/// reply that it was read from; a failure at the marketplace with 502.
pub proof fn law_earnings_shown(report: &EarningsReport, r: Reply, message: &str, refused: Reply)
    requires
        call_ensures(get_earnings, (Ok::<&EarningsReport, &str>(report),), r),
        call_ensures(get_earnings, (Err::<&EarningsReport, &str>(message),), refused),
    ensures
        r.status == 200,
        size(r.body@) == 5,
        counts(r.body@, "total_earned_cents"@, report.total_earned_cents),
        counts(r.body@, "pending_payout_cents"@, report.pending_payout_cents),
        counts(r.body@, "jobs_completed"@, report.jobs_completed),
        measures(r.body@, "gpu_hours_contributed"@, report.gpu_hours_contributed),
        r.body@.get("raw"@) == Some(report.raw@),
        is_refusal(refused, 502, message@),
{
    lemma_earnings_apart();
    reveal_with_fuel(member_value, 6);
}

proof fn lemma_address_apart()
    ensures
        "address"@ != "amount_usd"@,
        "address"@ != "currency"@,
        "address"@ != "minimum_native"@,
        "address"@ != "raw"@,
        "amount_usd"@ != "currency"@,
        "amount_usd"@ != "minimum_native"@,
        "amount_usd"@ != "raw"@,
        "currency"@ != "minimum_native"@,
        "currency"@ != "raw"@,
        "minimum_native"@ != "raw"@,
{
    reveal_strlit("address");
    reveal_strlit("amount_usd");
    reveal_strlit("currency");
    reveal_strlit("minimum_native");
    reveal_strlit("raw");
    assert("address"@.len() == 7);
    assert("amount_usd"@.len() == 10);
    assert("currency"@.len() == 8);
    assert("minimum_native"@.len() == 14);
    assert("raw"@.len() == 3);
}

/// An address to pay in at is shown with its currency, its amount, the least that is
/// taken where one is stated, and the reply that it was read from; a failure with 502.
pub proof fn law_address_shown(a: &DepositAddress, r: Reply, message: &str, refused: Reply)
    requires
        call_ensures(fund_account, (Ok::<&DepositAddress, &str>(a),), r),
        call_ensures(fund_account, (Err::<&DepositAddress, &str>(message),), refused),
    ensures
        r.status == 200,
        size(r.body@) == 5,
        tells(r.body@, "currency"@, a.currency@),
        tells(r.body@, "address"@, a.address@),
        measures(r.body@, "amount_usd"@, a.amount_usd),
        a.minimum_native matches Some(x) ==> measures(r.body@, "minimum_native"@, x),
        a.minimum_native is None ==> r.body@.get("minimum_native"@) == Some(JsonView::Null),
        r.body@.get("raw"@) == Some(a.raw@),
        is_refusal(refused, 502, message@),
{
    lemma_address_apart();
    reveal_with_fuel(member_value, 6);
}

proof fn lemma_balance_apart()
    ensures
        "balance_cents"@ != "currency"@,
        "balance_cents"@ != "raw"@,
        "currency"@ != "raw"@,
{
    reveal_strlit("balance_cents");
    reveal_strlit("currency");
    reveal_strlit("raw");
    assert("balance_cents"@.len() == 13);
    assert("currency"@.len() == 8);
    assert("raw"@.len() == 3);
}

/// A balance is shown in cents with its currency and the reply that it was read from; a
/// failure at the marketplace with 502.
pub proof fn law_balance_shown(b: &AccountBalance, r: Reply, message: &str, refused: Reply)
    requires
        call_ensures(get_balance, (Ok::<&AccountBalance, &str>(b),), r),
        call_ensures(get_balance, (Err::<&AccountBalance, &str>(message),), refused),
    ensures
        r.status == 200,
        size(r.body@) == 3,
        counts(r.body@, "balance_cents"@, b.balance_cents),
        tells(r.body@, "currency"@, b.currency@),
        r.body@.get("raw"@) == Some(b.raw@),
        is_refusal(refused, 502, message@),
{
    lemma_balance_apart();
    reveal_with_fuel(member_value, 4);
}

} // verus!
