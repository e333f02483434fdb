use vstd::prelude::*;

verus! {

/// The characters of an optional string, if there is one.
pub open spec fn opt_view(o: Option<String>) -> Option<Seq<char>> {
    match o {
        Some(s) => Some(s@),
        None => None,
    }
}

/// One tracked component and the fields that may name its current version.
#[derive(Debug, Clone)]
pub struct Project {
    pub description: String,
    pub url: Option<String>,
    pub version: Option<String>,
    pub tag: Option<String>,
    pub branch: Option<String>,
}

/// The manifest fields of a component, as character sequences.
pub struct ProjectView {
    pub url: Option<Seq<char>>,
    pub version: Option<Seq<char>>,
    pub tag: Option<Seq<char>>,
    pub branch: Option<Seq<char>>,
}

impl View for Project {
    type V = ProjectView;

    open spec fn view(&self) -> ProjectView {
        ProjectView {
            url: opt_view(self.url),
            version: opt_view(self.version),
            tag: opt_view(self.tag),
            branch: opt_view(self.branch),
        }
    }
}

/// The image or initrd of one CPU architecture.
#[derive(Debug, Clone)]
pub struct Arch {
    pub name: String,
    pub version: String,
}

/// One entry per supported CPU architecture.
#[derive(Debug, Clone)]
pub struct Architecture {
    pub aarch64: Arch,
    pub ppc64le: Arch,
    pub s390x: Arch,
    pub x86_64: Arch,
}

/// A component whose current version depends on the CPU architecture; the
/// project URL is shared by all of them.
#[derive(Debug, Clone)]
pub struct ArchitectureProject {
    pub description: String,
    pub url: String,
    pub architecture: Architecture,
}

#[derive(Debug, Clone)]
pub struct Hypervisor {
    pub description: String,
    pub cloud_hypervisor: Project,
    pub firecracker: Project,
    pub qemu: Project,
    pub qemu_experimental: Project,
    pub qemu_tdx_experimental: Project,
}

#[derive(Debug, Clone)]
pub struct Assets {
    pub hypervisor: Hypervisor,
    pub image: ArchitectureProject,
    pub initrd: ArchitectureProject,
    pub kernel: Project,
    pub kernel_experimental: Project,
    pub kernel_arm_experimental: Project,
    pub kernel_dragonball_experimental: Project,
    pub kernel_tdx_experimental: Project,
}

#[derive(Debug, Clone)]
pub struct Externals {
    pub description: String,
    pub cni_plugins: Project,
    pub conmon: Project,
    pub crio: Project,
    pub containerd: Project,
    pub critools: Project,
    pub gperf: Project,
    pub kubernetes: Project,
    pub libseccomp: Project,
    pub runc: Project,
    pub nydus: Project,
    pub nydus_snapshotter: Project,
    pub ovmf: Project,
    pub td_shim: Project,
    pub virtiofsd: Project,
}

/// Language toolchains; their entries carry no URL.
#[derive(Debug, Clone)]
pub struct Languages {
    pub description: String,
    pub golang: Project,
    pub rust: Project,
    pub golangci_lint: Project,
}

#[derive(Debug, Clone)]
pub struct Specs {
    pub description: String,
    pub oci: Project,
}

#[derive(Debug, Clone)]
pub struct Plugins {
    pub description: String,
    pub sriov_network_device: Project,
}

/// The whole manifest.
#[derive(Debug, Clone)]
pub struct Versions {
    pub description: String,
    pub format: String,
    pub assets: Assets,
    pub externals: Externals,
    pub languages: Languages,
    pub specs: Specs,
    pub plugins: Plugins,
}

} // verus!
