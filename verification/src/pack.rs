//! Packed artifacts.
use vstd::prelude::*;
use vstd::string::*;

use crate::cli::smolfile::PACK_DEFAULT_MEMORY_MIB;
use crate::data::resources::DEFAULT_MICROVM_CPU_COUNT;
use crate::lists::{clone_opt, clone_strings};
use crate::util::{current_timestamp, is_timestamp};

verus! {

/// What a packed artifact runs as.
#[derive(Debug, Clone, Copy, PartialEq, Eq, Structural)]
pub enum PackMode {
    /// A command in a container.
    Container,
    /// A command in the machine itself.
    Vm,
}

/// What a packed artifact says of itself.
#[derive(Debug)]
pub struct PackManifest {
    /// What the artifact runs as.
    pub mode: PackMode,
    /// Image, or the machine it was packed from.
    pub image: String,
    /// Digest of the image.
    pub digest: String,
    /// Platform of the guest.
    pub platform: String,
    /// Platform of the host.
    pub host_platform: String,
    /// Extracted size of the image in bytes, zero where it is not known.
    pub image_size: u64,
    /// Number of vCPUs.
    pub cpus: u8,
    /// Memory in MiB.
    pub mem: u32,
    /// Whether outbound network access is enabled.
    pub network: bool,
    /// Entrypoint.
    pub entrypoint: Vec<String>,
    /// Command.
    pub cmd: Vec<String>,
    /// Environment variables.
    pub env: Vec<String>,
    /// Working directory.
    pub workdir: Option<String>,
    /// Creation timestamp.
    pub created: String,
    /// Version that packed the artifact.
    pub smolvm_version: String,
    /// Path of the storage disk template.
    pub storage_template: Option<String>,
    /// Path of the overlay disk template.
    pub overlay_template: Option<String>,
}

/// The mathematical value of a [`PackManifest`].
pub struct PackManifestView {
    /// See [`PackManifest::mode`].
    pub mode: PackMode,
    /// See [`PackManifest::image`].
    pub image: Seq<char>,
    /// See [`PackManifest::digest`].
    pub digest: Seq<char>,
    /// See [`PackManifest::platform`].
    pub platform: Seq<char>,
    /// See [`PackManifest::host_platform`].
    pub host_platform: Seq<char>,
    /// See [`PackManifest::image_size`].
    pub image_size: u64,
    /// See [`PackManifest::cpus`].
    pub cpus: u8,
    /// See [`PackManifest::mem`].
    pub mem: u32,
    /// See [`PackManifest::network`].
    pub network: bool,
    /// See [`PackManifest::entrypoint`].
    pub entrypoint: Seq<Seq<char>>,
    /// See [`PackManifest::cmd`].
    pub cmd: Seq<Seq<char>>,
    /// See [`PackManifest::env`].
    pub env: Seq<Seq<char>>,
    /// See [`PackManifest::workdir`].
    pub workdir: Option<Seq<char>>,
    /// See [`PackManifest::created`].
    pub created: Seq<char>,
    /// See [`PackManifest::smolvm_version`].
    pub smolvm_version: Seq<char>,
    /// See [`PackManifest::storage_template`].
    pub storage_template: Option<Seq<char>>,
    /// See [`PackManifest::overlay_template`].
    pub overlay_template: Option<Seq<char>>,
}

impl View for PackManifest {
    type V = PackManifestView;

    open spec fn view(&self) -> PackManifestView {
        PackManifestView {
            mode: self.mode,
            image: self.image@,
            digest: self.digest@,
            platform: self.platform@,
            host_platform: self.host_platform@,
            image_size: self.image_size,
            cpus: self.cpus,
            mem: self.mem,
            network: self.network,
            entrypoint: self.entrypoint.deep_view(),
            cmd: self.cmd.deep_view(),
            env: self.env.deep_view(),
            workdir: self.workdir.deep_view(),
            created: self.created@,
            smolvm_version: self.smolvm_version@,
            storage_template: self.storage_template.deep_view(),
            overlay_template: self.overlay_template.deep_view(),
        }
    }
}

impl Clone for PackManifest {
    fn clone(&self) -> (r: PackManifest)
        ensures
            r@ == self@,
    {
        PackManifest {
            mode: self.mode,
            image: self.image.clone(),
            digest: self.digest.clone(),
            platform: self.platform.clone(),
            host_platform: self.host_platform.clone(),
            image_size: self.image_size,
            cpus: self.cpus,
            mem: self.mem,
            network: self.network,
            entrypoint: clone_strings(&self.entrypoint),
            cmd: clone_strings(&self.cmd),
            env: clone_strings(&self.env),
            workdir: clone_opt(&self.workdir),
            created: self.created.clone(),
            smolvm_version: self.smolvm_version.clone(),
            storage_template: clone_opt(&self.storage_template),
            overlay_template: clone_opt(&self.overlay_template),
        }
    }
}

/// A manifest of which only the image and the platforms are known.
pub open spec fn fresh_manifest(
    image: Seq<char>,
    digest: Seq<char>,
    platform: Seq<char>,
    host_platform: Seq<char>,
    created: Seq<char>,
) -> PackManifestView {
    PackManifestView {
        mode: PackMode::Container,
        image,
        digest,
        platform,
        host_platform,
        image_size: 0,
        cpus: DEFAULT_MICROVM_CPU_COUNT,
        mem: PACK_DEFAULT_MEMORY_MIB,
        network: false,
        entrypoint: Seq::empty(),
        cmd: Seq::empty(),
        env: Seq::empty(),
        workdir: None,
        created,
        smolvm_version: crate::VERSION@,
        storage_template: None,
        overlay_template: None,
    }
}

impl PackManifest {
    /// A manifest of which only the image and the platforms are known.
    pub fn new(image: String, digest: String, platform: String, host_platform: String) -> (r:
        PackManifest)
        ensures
            r@ == fresh_manifest(image@, digest@, platform@, host_platform@, r@.created),
            is_timestamp(r@.created),
    {
        let r = PackManifest {
            mode: PackMode::Container,
            image,
            digest,
            platform,
            host_platform,
            image_size: 0,
            cpus: DEFAULT_MICROVM_CPU_COUNT,
            mem: PACK_DEFAULT_MEMORY_MIB,
            network: false,
            entrypoint: Vec::new(),
            cmd: Vec::new(),
            env: Vec::new(),
            workdir: None,
            created: current_timestamp(),
            smolvm_version: crate::VERSION.to_owned(),
            storage_template: None,
            overlay_template: None,
        };
        proof {
            assert(r.entrypoint.deep_view() =~= Seq::empty());
            assert(r.cmd.deep_view() =~= Seq::empty());
            assert(r.env.deep_view() =~= Seq::empty());
        }
        r
    }
}

/// A new manifest names the image, its digest and the platforms in their places, and says
/// nothing else of what is run.
pub proof fn new_manifests_name_their_image(
    image: Seq<char>,
    digest: Seq<char>,
    platform: Seq<char>,
    host_platform: Seq<char>,
    created: Seq<char>,
)
    ensures
        ({
            let m = fresh_manifest(image, digest, platform, host_platform, created);
            &&& m.image == image && m.digest == digest && m.created == created
            &&& m.platform == platform && m.host_platform == host_platform
            &&& m.mode is Container && m.image_size == 0 && !m.network
            &&& m.cpus == 4 && m.mem == 8192
            &&& m.entrypoint.len() == 0 && m.cmd.len() == 0 && m.env.len() == 0
            &&& m.workdir is None && m.storage_template is None && m.overlay_template is None
            &&& m.smolvm_version == crate::VERSION@
        }),
{
}

} // verus!
