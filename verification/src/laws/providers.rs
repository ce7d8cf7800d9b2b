//! What providers offer and hand out.
use crate::clock::Timestamp;
use crate::float64::F64;
use crate::job::{Allocation, JobId, JobStatus};
use crate::provider::{outside_allocation, rented_gpu, GpuCapability, GpuVendor};
use vstd::prelude::*;

verus! {

/// A rented GPU is one NVIDIA card of the given model and memory, which can do what
/// NVIDIA cards can.
pub proof fn law_gpu_rented(model: &str, vram_gb: F64, r: GpuCapability)
    requires
        call_ensures(rented_gpu, (model, vram_gb), r),
    ensures
        r.model@ == model@,
        r.vram_gb == vram_gb,
        r.vendor == GpuVendor::Nvidia,
        r.fp16 && r.bf16 && r.cuda && !r.rocm,
        r.count == 1,
{
}

/// An allocation from outside the house is of the given job, by the given provider, at
/// the given times, and says so in its offer too; it waits, and costs nothing yet.
pub proof fn law_allocated_outside(
    job_id: JobId,
    provider_id: &str,
    eta_secs: u64,
    expires_at: Timestamp,
    allocated_at: Timestamp,
    r: Allocation,
)
    requires
        call_ensures(outside_allocation, (job_id, provider_id, eta_secs, expires_at, allocated_at), r),
    ensures
        r.job_id == job_id && r.offer.job_id == job_id,
        r.provider_id@ == provider_id@ && r.offer.provider_id@ == provider_id@,
        r.offer.eta_secs == eta_secs,
        r.offer.expires_at == expires_at,
        r.allocated_at == allocated_at,
        r.offer.price_cents == 0,
        r.offer.is_external,
        r.status == JobStatus::Pending,
{
}

} // verus!
