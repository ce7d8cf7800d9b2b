//! What providers have to offer, and what they hand out when they take a job.
use crate::clock::Timestamp;
use crate::float64::F64;
use crate::job::{Allocation, JobId, JobStatus, Offer, ProviderTier, TrustLevel};
use vstd::prelude::*;

verus! {

#[derive(Clone, Copy, Debug, PartialEq, Eq, Structural)]
pub enum GpuVendor {
    Nvidia,
}

#[derive(Clone, Copy, Debug, PartialEq, Eq, Structural)]
pub enum CpuArch {
    X86_64,
}

/// The GPUs of a provider.
#[derive(Debug)]
pub struct GpuCapability {
    pub vendor: GpuVendor,
    pub model: String,
    pub vram_gb: F64,
    pub fp16: bool,
    pub bf16: bool,
    pub cuda: bool,
    pub rocm: bool,
    pub count: u8,
}

/// The processors of a provider.
#[derive(Clone, Copy, Debug, PartialEq, Eq, Structural)]
pub struct CpuCapability {
    pub cores: u32,
    pub arch: CpuArch,
    pub frequency_mhz: Option<u32>,
}

/// What a provider has to offer.
#[derive(Debug)]
pub struct ProviderCapability {
    pub provider_id: String,
    pub owner_agent_id: Option<String>,
    pub tier: ProviderTier,
    pub trust: TrustLevel,
    pub gpu: Option<GpuCapability>,
    pub cpu: CpuCapability,
    pub ram_gb: F64,
    pub disk_gb: F64,
    pub runtimes: Vec<String>,
    pub price_gpu_hour_cents: Option<u64>,
    pub price_cpu_hour_cents: u64,
    pub policy_deny: Vec<String>,
    pub regions: Vec<String>,
}

/// Whether a GPU is one of the usual rented kind: one card of NVIDIA's that knows
/// both short float formats and CUDA.
pub open spec fn is_rented_gpu(gpu: GpuCapability, model: Seq<char>, vram_gb: F64) -> bool {
    &&& gpu.vendor == GpuVendor::Nvidia
    &&& gpu.model@ == model
    &&& gpu.vram_gb == vram_gb
    &&& gpu.fp16
    &&& gpu.bf16
    &&& gpu.cuda
    &&& !gpu.rocm
    &&& gpu.count == 1
}

/// One card of the usual rented kind.
pub fn rented_gpu(model: &str, vram_gb: F64) -> (r: GpuCapability)
    ensures
        is_rented_gpu(r, model@, vram_gb),
{
    GpuCapability {
        vendor: GpuVendor::Nvidia,
        model: model.to_string(),
        vram_gb,
        fp16: true,
        bf16: true,
        cuda: true,
        rocm: false,
        count: 1,
    }
}

/// Whether an allocation is that of a job to an outside provider, which quotes no
/// price and an expected time.
pub open spec fn is_outside_allocation(
    a: Allocation,
    job_id: JobId,
    provider_id: Seq<char>,
    eta_secs: u64,
    expires_at: Timestamp,
    allocated_at: Timestamp,
) -> bool {
    &&& a.job_id == job_id
    &&& a.provider_id@ == provider_id
    &&& a.offer.job_id == job_id
    &&& a.offer.provider_id@ == provider_id
    &&& a.offer.price_cents == 0
    &&& a.offer.eta_secs == eta_secs
    &&& a.offer.expires_at == expires_at
    &&& a.offer.is_external
    &&& a.allocated_at == allocated_at
    &&& a.status == JobStatus::Pending
}

/// The allocation of a job to an outside provider.
pub fn outside_allocation(
    job_id: JobId,
    provider_id: &str,
    eta_secs: u64,
    expires_at: Timestamp,
    allocated_at: Timestamp,
) -> (r: Allocation)
    ensures
        is_outside_allocation(r, job_id, provider_id@, eta_secs, expires_at, allocated_at),
{
    Allocation {
        job_id,
        provider_id: provider_id.to_string(),
        offer: Offer {
            job_id,
            provider_id: provider_id.to_string(),
            price_cents: 0,
            eta_secs,
            expires_at,
            is_external: true,
        },
        allocated_at,
        status: JobStatus::Pending,
    }
}

} // verus!
