//! Resource configuration of machines.
use vstd::prelude::*;
use vstd::string::*;

use crate::error::{config_error, outcome, Error, ErrorView};
use crate::network::backend::NetworkBackend;
use crate::text::{decimal, decimal_text};

verus! {

/// Default agent VM virtual CPU count.
pub const DEFAULT_MICROVM_CPU_COUNT: u8 = 4;

/// Default agent VM memory in MiB.
pub const DEFAULT_MICROVM_MEMORY_MIB: u32 = 8192;

/// Default size of the shared memory region of the guest's virtio-gpu device, in MiB.
pub const DEFAULT_GPU_VRAM_MIB: u32 = 4096;

/// Minimum memory required for the VM to boot (kernel + agent).
pub const MIN_MEMORY_MIB: u32 = 64;

/// Maximum vCPUs supported by the hypervisor; libkrun caps requests above it.
pub const MAX_EFFECTIVE_CPUS: u8 = 16;

/// Resources available to a micro vm.
#[derive(Debug, PartialEq, Eq)]
pub struct VmResources {
    /// Number of vCPUs.
    pub cpus: u8,
    /// Memory in MiB.
    pub memory_mib: u32,
    /// Enable outbound network access (TSI).
    pub network: bool,
    /// Preferred network backend override.
    pub network_backend: Option<NetworkBackend>,
    /// Enable GPU acceleration (virtio-gpu with Venus/Vulkan).
    pub gpu: bool,
    /// GPU shared-memory region size in MiB (ignored if `gpu` is false).
    /// `None` means [`DEFAULT_GPU_VRAM_MIB`].
    pub gpu_vram_mib: Option<u32>,
    /// Storage disk size in GiB (None = default 20 GiB).
    pub storage_gib: Option<u64>,
    /// Overlay disk size in GiB (None = default 10 GiB).
    pub overlay_gib: Option<u64>,
    /// Allowed egress CIDR ranges. None = unrestricted, Some([]) = deny all.
    pub allowed_cidrs: Option<Vec<String>>,
}

/// The mathematical value of [`VmResources`].
pub struct VmResourcesView {
    /// See [`VmResources::cpus`].
    pub cpus: u8,
    /// See [`VmResources::memory_mib`].
    pub memory_mib: u32,
    /// See [`VmResources::network`].
    pub network: bool,
    /// See [`VmResources::network_backend`].
    pub network_backend: Option<NetworkBackend>,
    /// See [`VmResources::gpu`].
    pub gpu: bool,
    /// See [`VmResources::gpu_vram_mib`].
    pub gpu_vram_mib: Option<u32>,
    /// See [`VmResources::storage_gib`].
    pub storage_gib: Option<u64>,
    /// See [`VmResources::overlay_gib`].
    pub overlay_gib: Option<u64>,
    /// See [`VmResources::allowed_cidrs`].
    pub allowed_cidrs: Option<Seq<Seq<char>>>,
}

impl View for VmResources {
    type V = VmResourcesView;

    open spec fn view(&self) -> VmResourcesView {
        VmResourcesView {
            cpus: self.cpus,
            memory_mib: self.memory_mib,
            network: self.network,
            network_backend: self.network_backend,
            gpu: self.gpu,
            gpu_vram_mib: self.gpu_vram_mib,
            storage_gib: self.storage_gib,
            overlay_gib: self.overlay_gib,
            allowed_cidrs: self.allowed_cidrs.deep_view(),
        }
    }
}

/// The resources of a machine of which nothing was said.
pub open spec fn default_resources() -> VmResourcesView {
    VmResourcesView {
        cpus: DEFAULT_MICROVM_CPU_COUNT,
        memory_mib: DEFAULT_MICROVM_MEMORY_MIB,
        network: false,
        network_backend: None,
        gpu: false,
        gpu_vram_mib: None,
        storage_gib: None,
        overlay_gib: None,
        allowed_cidrs: None,
    }
}

/// What is wrong with resource values, if anything.
pub open spec fn resources_error(r: VmResourcesView) -> Option<ErrorView> {
    if r.cpus == 0 {
        Some(config_error("validate resources"@, "CPU count must be at least 1"@))
    } else if r.memory_mib < MIN_MEMORY_MIB {
        Some(
            config_error(
                "validate resources"@,
                "memory must be at least "@ + decimal(MIN_MEMORY_MIB as nat) + " MiB (got "@
                    + decimal(r.memory_mib as nat) + " MiB)"@,
            ),
        )
    } else {
        None
    }
}

impl Default for VmResources {
    fn default() -> (r: VmResources)
        ensures
            r@ == default_resources(),
    {
        VmResources {
            cpus: DEFAULT_MICROVM_CPU_COUNT,
            memory_mib: DEFAULT_MICROVM_MEMORY_MIB,
            network: false,
            network_backend: None,
            gpu: false,
            gpu_vram_mib: None,
            storage_gib: None,
            overlay_gib: None,
            allowed_cidrs: None,
        }
    }
}

impl VmResources {
    /// Validate resource values before starting a VM: zero CPUs and too little
    /// memory would fail opaquely in the hypervisor.
    pub fn validate(&self) -> (r: Result<(), Error>)
        ensures
            match resources_error(self@) {
                None => r is Ok,
                Some(e) => outcome(r) == Err::<(), ErrorView>(e),
            },
    {
        if self.cpus == 0 {
            return Err(
                Error::config(
                    "validate resources",
                    String::from_str("CPU count must be at least 1"),
                ),
            );
        }
        if self.memory_mib < MIN_MEMORY_MIB {
            return Err(
                Error::config(
                    "validate resources",
                    String::from_str("memory must be at least ").concat(
                        decimal_text(MIN_MEMORY_MIB as u64).as_str(),
                    ).concat(" MiB (got ").concat(
                        decimal_text(self.memory_mib as u64).as_str(),
                    ).concat(" MiB)"),
                ),
            );
        }
        Ok(())
    }

    /// The warning owed to a request for more vCPUs than the hypervisor runs.
    pub fn cpu_warning(&self) -> (r: Option<String>)
        ensures
            r is Some <==> self.cpus > MAX_EFFECTIVE_CPUS,
            r matches Some(w) ==> w@ == "warning: requested "@ + decimal(self.cpus as nat)
                + " vCPUs but the hypervisor supports at most "@ + decimal(
                MAX_EFFECTIVE_CPUS as nat,
            ) + "; the VM will run with "@ + decimal(MAX_EFFECTIVE_CPUS as nat) + " vCPUs"@,
    {
        if self.cpus > MAX_EFFECTIVE_CPUS {
            let cap = decimal_text(MAX_EFFECTIVE_CPUS as u64);
            Some(
                String::from_str("warning: requested ").concat(
                    decimal_text(self.cpus as u64).as_str(),
                ).concat(" vCPUs but the hypervisor supports at most ").concat(
                    cap.as_str(),
                ).concat("; the VM will run with ").concat(cap.as_str()).concat(" vCPUs"),
            )
        } else {
            None
        }
    }

    /// Effective GPU VRAM in MiB, applying the default when unset.
    ///
    /// The value is at least one whenever the setting passed
    /// [`validate_gpu_vram_mib`].
    pub fn effective_gpu_vram_mib(&self) -> (r: u32)
        ensures
            r == (match self.gpu_vram_mib {
                Some(v) => v,
                None => DEFAULT_GPU_VRAM_MIB,
            }),
            self.gpu_vram_mib != Some(0u32) ==> r >= 1,
    {
        match self.gpu_vram_mib {
            Some(v) => v,
            None => DEFAULT_GPU_VRAM_MIB,
        }
    }
}

/// The message that a zero-sized region is refused with.
pub const GPU_VRAM_ZERO: &'static str = "--gpu-vram must be a positive number of MiB; use a value >= 1 or omit the flag to get the default";

/// Validate a user-supplied GPU VRAM value. A zero-sized region is refused: the
/// guest driver would crash on first use. `None` means the default, and positive
/// values are accepted without an upper bound.
///
/// Returns the value unchanged on success.
pub fn validate_gpu_vram_mib(v: Option<u32>) -> (r: Result<Option<u32>, &'static str>)
    ensures
        v == Some(0u32) ==> (r matches Err(e) && e@ == GPU_VRAM_ZERO@),
        v != Some(0u32) ==> r == Ok::<Option<u32>, &'static str>(v),
{
    match v {
        Some(0) => Err(GPU_VRAM_ZERO),
        _ => Ok(v),
    }
}

/// Resources are accepted exactly where they hold at least one vCPU and 64 MiB.
pub proof fn resources_must_suffice_to_boot(r: VmResourcesView)
    ensures
        resources_error(r) is None <==> r.cpus >= 1 && r.memory_mib >= 64,
{
}

/// A machine of which nothing was said can boot, and has no network, no GPU and no disk
/// sizes of its own.
pub proof fn default_resources_suffice()
    ensures
        resources_error(default_resources()) is None,
        default_resources().cpus == 4 && default_resources().memory_mib == 8192,
        !default_resources().network && default_resources().network_backend is None,
        !default_resources().gpu && default_resources().gpu_vram_mib is None,
        default_resources().storage_gib is None && default_resources().overlay_gib is None,
        default_resources().allowed_cidrs is None,
{
}

} // verus!
