//! Network backend selection.
use vstd::prelude::*;

verus! {

/// Feature set advertised to libkrun for unixstream-backed virtio-net: checksum
/// and segmentation offloads stay disabled.
pub const COMPAT_NET_FEATURES: u32 = 0;

/// TSI feature bit that enables INET socket hijacking.
pub const TSI_FEATURE_HIJACK_INET: u32 = 1;

/// Network backend override for machine launch.
#[derive(Debug, Clone, Copy, PartialEq, Eq, Structural)]
pub enum NetworkBackend {
    /// Use libkrun TSI networking.
    Tsi,
    /// Use virtio-net with the host-side network stack.
    VirtioNet,
}

impl View for NetworkBackend {
    type V = NetworkBackend;

    open spec fn view(&self) -> NetworkBackend {
        *self
    }
}

impl NetworkBackend {
    /// The label of a backend.
    pub open spec fn label(self) -> Seq<char> {
        match self {
            NetworkBackend::Tsi => "tsi"@,
            NetworkBackend::VirtioNet => "virtio-net"@,
        }
    }

    /// Stable CLI/storage label for the backend.
    pub fn as_str(self) -> (r: &'static str)
        ensures
            r@ == self.label(),
    {
        match self {
            NetworkBackend::Tsi => "tsi",
            NetworkBackend::VirtioNet => "virtio-net",
        }
    }

    /// Human-readable backend label for logs.
    pub fn log_label(self) -> (r: &'static str)
        ensures
            r@ == self.label(),
    {
        self.as_str()
    }

    /// The backend that a label names.
    pub fn from_label(label: &str) -> (r: Option<NetworkBackend>)
        ensures
            match r {
                Some(b) => label@ == b.label(),
                None => label@ != NetworkBackend::Tsi.label() && label@
                    != NetworkBackend::VirtioNet.label(),
            },
    {
        if crate::text::same(label, "tsi") {
            Some(NetworkBackend::Tsi)
        } else if crate::text::same(label, "virtio-net") {
            Some(NetworkBackend::VirtioNet)
        } else {
            None
        }
    }
}

/// Labels tell the backends apart.
pub proof fn backend_labels_differ()
    ensures
        NetworkBackend::Tsi.label() != NetworkBackend::VirtioNet.label(),
{
    reveal_strlit("tsi");
    reveal_strlit("virtio-net");
    assert("tsi"@.len() != "virtio-net"@.len());
}

} // verus!
