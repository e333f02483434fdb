use check_versions::checker::{
    authorization, check_language_version, Lookup, check_outcome_line, check_project_version,
    check_versions, get_latest_version, step_line, user_agent, Provider, Step,
};
use check_versions::cli::Args;
use check_versions::error::{MissingVersionError, ParserError};
use check_versions::json::{parse_github_release, parse_gitlab_tags, version_from_field};
use check_versions::model::{
    Arch, Architecture, ArchitectureProject, Assets, Externals, Hypervisor, Languages, Plugins,
    Project, Specs, Versions,
};
use check_versions::url::{is_github_api_endpoint, is_github_url, to_github_api_url};
use check_versions::version::get_version_string;

fn project(url: Option<&str>, version: Option<&str>, tag: Option<&str>, branch: Option<&str>) -> Project {
    Project {
        description: String::from("component"),
        url: url.map(String::from),
        version: version.map(String::from),
        tag: tag.map(String::from),
        branch: branch.map(String::from),
    }
}

fn arch(version: &str) -> Arch {
    Arch { name: String::from("os"), version: String::from(version) }
}

fn arch_project(url: &str) -> ArchitectureProject {
    ArchitectureProject {
        description: String::from("image"),
        url: String::from(url),
        architecture: Architecture {
            aarch64: arch("a1"),
            ppc64le: arch("ppc1"),
            s390x: arch("s1"),
            x86_64: arch("x1"),
        },
    }
}

fn gh(repo: &str) -> Project {
    project(Some(&format!("https://github.com/{}", repo)), Some("1.0"), None, None)
}

fn manifest() -> Versions {
    Versions {
        description: String::from("d"),
        format: String::from("f"),
        assets: Assets {
            hypervisor: Hypervisor {
                description: String::from("h"),
                cloud_hypervisor: gh("cloud-hypervisor/cloud-hypervisor"),
                firecracker: gh("firecracker-microvm/firecracker"),
                qemu: project(Some("https://gitlab.com/qemu-project/qemu"), Some("v8"), None, None),
                qemu_experimental: project(Some("https://gitlab.com/qemu-project/qemu"), None, None, Some("main")),
                qemu_tdx_experimental: project(Some("https://gitlab.com/qemu-project/qemu"), None, Some("tdx"), None),
            },
            image: arch_project("https://github.com/kata-containers/kata-containers"),
            initrd: arch_project("https://example.org/initrd"),
            kernel: project(Some("https://cdn.kernel.org/pub/linux/kernel/v6.x/"), Some("v6.1"), None, None),
            kernel_experimental: project(None, None, None, None),
            kernel_arm_experimental: project(None, Some("v6"), None, None),
            kernel_dragonball_experimental: project(None, Some("v5"), None, None),
            kernel_tdx_experimental: project(None, Some("v5"), None, None),
        },
        externals: Externals {
            description: String::from("e"),
            cni_plugins: gh("containernetworking/plugins"),
            conmon: gh("containers/conmon"),
            crio: gh("cri-o/cri-o"),
            containerd: project(Some("github.com/containerd/containerd"), Some("v1.6"), None, None),
            critools: gh("kubernetes-sigs/cri-tools"),
            gperf: project(Some("https://ftp.gnu.org/pub/gnu/gperf/"), Some("3.1"), None, None),
            kubernetes: gh("kubernetes/kubernetes"),
            libseccomp: gh("seccomp/libseccomp"),
            runc: gh("opencontainers/runc"),
            nydus: gh("dragonflyoss/image-service"),
            nydus_snapshotter: gh("containerd/nydus-snapshotter"),
            ovmf: gh("kata-containers/edk2"),
            td_shim: gh("confidential-containers/td-shim"),
            virtiofsd: project(Some("https://gitlab.com/virtio-fs/virtiofsd"), Some("v1.8.0"), None, None),
        },
        languages: Languages {
            description: String::from("l"),
            golang: project(None, Some("1.20"), None, None),
            rust: project(None, Some("1.69"), None, None),
            golangci_lint: project(None, Some("1.50"), None, None),
        },
        specs: Specs {
            description: String::from("s"),
            oci: project(Some("https://github.com/opencontainers/runtime-spec/releases"), Some("v1.0.1"), None, None),
        },
        plugins: Plugins {
            description: String::from("p"),
            sriov_network_device: project(Some("https://github.com/k8snetworkplumbingwg/sriov-network-device-plugin"), None, None, None),
        },
    }
}

fn check_of(step: &Step) -> (String, String, Provider, String) {
    match step {
        Step::Check { name, current_version, lookup } => {
            (name.clone(), current_version.clone(), lookup.provider, lookup.endpoint.clone())
        }
        Step::Report(line) => panic!("expected a lookup, got the line {}", line),
    }
}

fn args(token: Option<&str>) -> Args {
    Args {
        versions_file: String::from("versions.yaml"),
        outfile: None,
        quiet: false,
        github_token: token.map(String::from),
    }
}

#[test]
fn tag_wins_over_branch_and_version() {
    let p = project(None, Some("1.0"), Some("v2.0"), Some("main"));
    assert_eq!(get_version_string(&p).unwrap(), "v2.0");
    let p = project(None, None, Some("v3"), None);
    assert_eq!(get_version_string(&p).unwrap(), "v3");
}

#[test]
fn branch_wins_over_version() {
    let p = project(None, Some("1.0"), None, Some("main"));
    assert_eq!(get_version_string(&p).unwrap(), "main");
}

#[test]
fn version_is_the_last_resort() {
    let p = project(None, Some("1.0"), None, None);
    assert_eq!(get_version_string(&p).unwrap(), "1.0");
}

#[test]
fn no_version_fields_is_an_error() {
    let p = project(Some("https://github.com/a/b"), None, None, None);
    assert_eq!(get_version_string(&p), Err(MissingVersionError {}));
    assert_eq!(MissingVersionError {}.message(), "MissingVersionError");
    assert_eq!(ParserError {}.message(), "ParserError");
}

#[test]
fn generic_github_url_becomes_release_endpoint() {
    assert_eq!(
        to_github_api_url("https://github.com/kata-containers/kata-containers"),
        "https://api.github.com/repos/kata-containers/kata-containers/releases/latest"
    );
}

#[test]
fn generic_rule_rewrites_only_the_prefix() {
    assert_eq!(
        to_github_api_url("https://github.com/x/api.github.com/repos/releases/latest"),
        "https://api.github.com/repos/x/api.github.com/repos/releases/latest/releases/latest"
    );
    assert_eq!(
        to_github_api_url("https://github.com/a/https://github.com/b"),
        "https://api.github.com/repos/a/https://github.com/b/releases/latest"
    );
}

#[test]
fn containerd_url_keeps_its_scheme() {
    assert_eq!(
        to_github_api_url("https://github.com/containerd/containerd"),
        "https://https://api.github.com/repos/containerd/containerd/releases/latest"
    );
    assert_eq!(
        to_github_api_url("github.com/containerd/containerd"),
        "https://api.github.com/repos/containerd/containerd/releases/latest"
    );
}

#[test]
fn runtime_spec_releases_become_latest() {
    assert_eq!(
        to_github_api_url("https://github.com/opencontainers/runtime-spec/releases"),
        "https://api.github.com/repos/opencontainers/runtime-spec/releases/latest"
    );
    assert_eq!(
        to_github_api_url("https://github.com/opencontainers/runtime-spec"),
        "https://api.github.com/repos/opencontainers/runtime-spec"
    );
}

#[test]
fn normalising_twice_changes_nothing() {
    for url in [
        "https://github.com/kata-containers/kata-containers",
        "https://github.com/opencontainers/runtime-spec/releases",
        "https://github.com/containerd/containerd",
    ] {
        let once = to_github_api_url(url);
        assert!(is_github_api_endpoint(&once));
        assert_eq!(to_github_api_url(&once), once);
    }
    for url in ["github.com", "http://github.com/foo", "https://www.github.com/foo", "github.com/containerd/containerd"] {
        let once = to_github_api_url(url);
        assert!(once.ends_with("/releases/latest"));
        assert_eq!(to_github_api_url(&once), once);
    }
    assert_eq!(to_github_api_url("github.com"), "github.com/releases/latest");
    let rust = "https://api.github.com/repos/rust-lang/rust/releases/latest";
    assert_eq!(to_github_api_url(rust), rust);
}

#[test]
fn github_urls_are_recognised() {
    assert!(is_github_url("https://github.com/a/b"));
    assert!(!is_github_url("https://gitlab.com/a/b"));
    assert!(is_github_url("github.com/containerd/containerd"));
    assert!(is_github_url("https://www.github.com/foo"));
    assert!(!is_github_url("https://example.org/mirror/github.com/x"));
    assert!(!is_github_url("example.org/github.com"));
    assert!(!is_github_api_endpoint("https://github.com/a/b"));
}

#[test]
fn github_release_tag_name() {
    assert_eq!(parse_github_release("{\"tag_name\": \"v1.2.3\"}"), Ok(String::from("v1.2.3")));
    assert_eq!(parse_github_release("{}"), Err(ParserError {}));
    assert_eq!(parse_github_release("{\"tag_name\": 3}"), Err(ParserError {}));
    assert_eq!(parse_github_release("not json"), Err(ParserError {}));
    assert_eq!(parse_github_release("[{\"tag_name\": \"v1\"}]"), Err(ParserError {}));
}

#[test]
fn gitlab_first_tag_name() {
    assert_eq!(parse_gitlab_tags("[{\"name\":\"v0.9\"},{\"name\":\"v0.8\"}]"), Ok(String::from("v0.9")));
    assert_eq!(parse_gitlab_tags("[]"), Err(ParserError {}));
    assert_eq!(parse_gitlab_tags("[{\"tag\":\"v0.9\"}]"), Err(ParserError {}));
    assert_eq!(parse_gitlab_tags("{\"name\":\"v0.9\"}"), Err(ParserError {}));
}

#[test]
fn field_to_version() {
    assert_eq!(version_from_field(Some("v7")), Ok(String::from("v7")));
    assert_eq!(version_from_field(None), Err(ParserError {}));
}

#[test]
fn plain_text_body_is_kept_verbatim() {
    assert_eq!(get_latest_version(Provider::PlainText, "go1.21.0\ntime"), Ok(String::from("go1.21.0\ntime")));
    assert_eq!(get_latest_version(Provider::GitHubReleases, "{\"tag_name\":\"v2\"}"), Ok(String::from("v2")));
    assert_eq!(get_latest_version(Provider::GitLabTags, "[{\"name\":\"v3\"}]"), Ok(String::from("v3")));
}

#[test]
fn golang_end_to_end() {
    let mut steps = Vec::new();
    check_project_version(&project(None, Some("1.20"), None, None), "golang", &mut steps);
    assert_eq!(steps.len(), 1);
    let (name, current, provider, endpoint) = check_of(&steps[0]);
    assert_eq!((name.as_str(), current.as_str()), ("golang", "1.20"));
    assert_eq!(provider, Provider::PlainText);
    assert_eq!(endpoint, "https://golang.org/VERSION?m=text");
    assert_eq!(
        step_line(&steps[0], Some("go1.21.0\n")),
        "project: golang, current_version: 1.20, latest_version: go1.21.0\n\n"
    );
    assert_eq!(step_line(&steps[0], None), "Warning! Failed to check version for golang\n");
}

#[test]
fn unknown_version_still_checked() {
    let mut steps = Vec::new();
    check_project_version(&project(Some("https://github.com/a/b"), None, None, None), "b", &mut steps);
    assert_eq!(steps.len(), 2);
    match &steps[0] {
        Step::Report(line) => assert_eq!(line, "Warning! Failed to read version for b\n"),
        _ => panic!("expected a warning first"),
    }
    let (name, current, provider, endpoint) = check_of(&steps[1]);
    assert_eq!((name.as_str(), current.as_str()), ("b", "unknown"));
    assert_eq!(provider, Provider::GitHubReleases);
    assert_eq!(endpoint, "https://api.github.com/repos/a/b/releases/latest");
    assert_eq!(
        step_line(&steps[1], Some("{\"tag_name\":\"v9\"}")),
        "project: b, current_version: unknown, latest_version: v9\n"
    );
}

#[test]
fn other_hosts_are_skipped_but_virtiofsd() {
    let mut steps = Vec::new();
    check_project_version(&project(Some("https://gitlab.com/x/y"), Some("1"), None, None), "y", &mut steps);
    assert!(steps.is_empty());
    check_project_version(&project(Some("https://gitlab.com/virtio-fs/virtiofsd"), Some("v1.8.0"), None, None), "virtiofsd", &mut steps);
    let (_, current, provider, endpoint) = check_of(&steps[0]);
    assert_eq!(current, "v1.8.0");
    assert_eq!(provider, Provider::GitLabTags);
    assert_eq!(endpoint, "https://gitlab.com/api/v4/projects/21523468/repository/tags");
}

#[test]
fn languages_by_name() {
    let mut steps = Vec::new();
    check_language_version("rust", "1.69", &mut steps);
    check_language_version("golangci-lint", "1.50", &mut steps);
    check_language_version("zig", "0.11", &mut steps);
    assert_eq!(steps.len(), 2);
    assert_eq!(check_of(&steps[0]).3, "https://api.github.com/repos/rust-lang/rust/releases/latest");
    assert_eq!(check_of(&steps[1]).3, "https://api.github.com/repos/golangci/golangci-lint/releases/latest");
}

#[test]
fn outcome_lines() {
    assert_eq!(
        check_outcome_line("kata", "3.0", Provider::GitHubReleases, Some("{\"tag_name\":\"3.1\"}")),
        "project: kata, current_version: 3.0, latest_version: 3.1\n"
    );
    assert_eq!(
        check_outcome_line("kata", "3.0", Provider::GitHubReleases, Some("{}")),
        "Warning! Failed to check version for kata\n"
    );
    assert_eq!(
        check_outcome_line("virtiofsd", "v1", Provider::GitLabTags, Some("[]")),
        "Warning! Failed to check version for virtiofsd\n"
    );
}

#[test]
fn bearer_token_only_when_present() {
    let api = |provider, endpoint: &str| Lookup { provider, endpoint: String::from(endpoint) };
    let gh = api(Provider::GitHubReleases, "https://api.github.com/repos/a/b/releases/latest");
    assert_eq!(authorization(&gh, &args(Some("abc"))), Some(String::from("Bearer abc")));
    assert_eq!(authorization(&gh, &args(Some(""))), None);
    assert_eq!(authorization(&gh, &args(None)), None);
    let mirror = api(Provider::GitHubReleases, "https://example.org/mirror/github.com/x/releases/latest");
    assert_eq!(authorization(&mirror, &args(Some("abc"))), None);
    let lab = api(Provider::GitLabTags, "https://gitlab.com/api/v4/projects/21523468/repository/tags");
    assert_eq!(authorization(&lab, &args(Some("abc"))), None);
    let go = api(Provider::PlainText, "https://golang.org/VERSION?m=text");
    assert_eq!(authorization(&go, &args(Some("abc"))), None);
    assert_eq!(user_agent(Provider::GitHubReleases), Some(String::from("Check Versions v1.0")));
    assert_eq!(user_agent(Provider::GitLabTags), Some(String::from("Check Versions v1.0")));
    assert_eq!(user_agent(Provider::PlainText), None);
}

#[test]
fn whole_manifest_in_declaration_order() {
    let steps = check_versions(&manifest());
    let names: Vec<String> = steps
        .iter()
        .map(|s| match s {
            Step::Check { name, .. } => name.clone(),
            Step::Report(line) => line.clone(),
        })
        .collect();
    assert_eq!(
        names,
        vec![
            "cloud_hypervisor", "firecracker", "image-aarch64", "image-ppc64le", "image-s390x",
            "image-x86_64", "Warning! Failed to read version for kernel-experimental\n",
            "cni-plugins", "conmon", "crio", "containerd", "critools", "kubernetes", "libseccomp",
            "runc", "nydus", "nydus-snapshotter", "ovmf", "td-shim", "virtiofsd", "golang",
            "rust", "golangci-lint", "oci",
            "Warning! Failed to read version for sriov-network-device\n", "sriov-network-device",
        ]
    );
    let image = check_of(&steps[2]);
    assert_eq!(image.1, "a1");
    assert_eq!(check_of(&steps[10]).3, "https://api.github.com/repos/containerd/containerd/releases/latest");
}
