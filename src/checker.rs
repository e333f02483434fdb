use vstd::prelude::*;
use vstd::string::*;

use crate::cli::Args;
use crate::error::ParserError;
use crate::json::{github_latest, gitlab_latest, parse_github_release, parse_gitlab_tags};
use crate::model::{
    Arch, ArchitectureProject, Assets, Externals, Hypervisor, Languages, Plugins, Project, ProjectView,
    Specs, Versions,
};
use crate::url::{api_url, is_github_spec, is_github_url, to_github_api_url};
use crate::version::{current_version, get_version_string};

verus! {

/// The upstream protocol that tells a component's latest version.
#[derive(Debug, Clone, Copy, PartialEq, Eq, Structural)]
pub enum Provider {
    /// A GitHub releases API endpoint answering with a JSON object.
    GitHubReleases,
    /// A GitLab tags API endpoint answering with a JSON array, newest first.
    GitLabTags,
    /// An endpoint whose whole body is the version.
    PlainText,
}

/// Where and how to ask for a component's latest version.
#[derive(Debug, Clone)]
pub struct Lookup {
    pub provider: Provider,
    pub endpoint: String,
}

/// One step of an audit, in report order.
#[derive(Debug, Clone)]
pub enum Step {
    /// A line to report as it stands.
    Report(String),
    /// A latest-version lookup whose outcome gives the component's line.
    Check { name: String, current_version: String, lookup: Lookup },
}

/// A step with its strings as character sequences.
pub ghost enum StepView {
    Report(Seq<char>),
    Check { name: Seq<char>, current: Seq<char>, provider: Provider, endpoint: Seq<char> },
}

impl View for Step {
    type V = StepView;

    open spec fn view(&self) -> StepView {
        match self {
            Step::Report(line) => StepView::Report(line@),
            Step::Check { name, current_version, lookup } => StepView::Check {
                name: name@,
                current: current_version@,
                provider: lookup.provider,
                endpoint: lookup.endpoint@,
            },
        }
    }
}

/// The views of a sequence of steps.
pub open spec fn steps_view(s: Seq<Step>) -> Seq<StepView> {
    s.map_values(|x: Step| x@)
}

/// The fixed endpoint that lists the tags of virtiofsd.
pub open spec fn virtiofsd_tags_url() -> Seq<char> {
    "https://gitlab.com/api/v4/projects/21523468/repository/tags"@
}

/// The endpoint that gives the current Go release as plain text.
pub open spec fn golang_version_url() -> Seq<char> {
    "https://golang.org/VERSION?m=text"@
}

/// The repository of golangci-lint.
pub open spec fn golangci_lint_repo() -> Seq<char> {
    "https://github.com/golangci/golangci-lint"@
}

/// The latest release endpoint of Rust.
pub open spec fn rust_release_url() -> Seq<char> {
    "https://api.github.com/repos/rust-lang/rust/releases/latest"@
}

/// The line that reports a component's current and latest version.
pub open spec fn success_line(name: Seq<char>, current: Seq<char>, latest: Seq<char>) -> Seq<char> {
    "project: "@ + name + ", current_version: "@ + current + ", latest_version: "@ + latest
        + "\n"@
}

/// The line that reports a failed latest-version lookup.
pub open spec fn check_warning(name: Seq<char>) -> Seq<char> {
    "Warning! Failed to check version for "@ + name + "\n"@
}

/// The line that reports a component without a current version.
pub open spec fn read_warning(name: Seq<char>) -> Seq<char> {
    "Warning! Failed to read version for "@ + name + "\n"@
}

/// The lookup for a language toolchain, chosen by its name alone.
pub open spec fn language_lookup(name: Seq<char>) -> Option<(Provider, Seq<char>)> {
    if name == "golang"@ {
        Some((Provider::PlainText, golang_version_url()))
    } else if name == "golangci-lint"@ {
        Some((Provider::GitHubReleases, api_url(golangci_lint_repo())))
    } else if name == "rust"@ {
        Some((Provider::GitHubReleases, api_url(rust_release_url())))
    } else {
        None
    }
}

/// The lookup for a component: by its URL where it has one, a GitHub URL
/// or the GitLab override of virtiofsd; by its name where it has none.
pub open spec fn project_lookup(url: Option<Seq<char>>, name: Seq<char>) -> Option<(Provider, Seq<char>)> {
    match url {
        Some(u) => if is_github_spec(u) {
            Some((Provider::GitHubReleases, api_url(u)))
        } else if name == "virtiofsd"@ {
            Some((Provider::GitLabTags, virtiofsd_tags_url()))
        } else {
            None
        },
        None => language_lookup(name),
    }
}

/// The check step of a lookup, if there is one.
pub open spec fn lookup_steps(
    name: Seq<char>,
    current: Seq<char>,
    lookup: Option<(Provider, Seq<char>)>,
) -> Seq<StepView> {
    match lookup {
        Some((provider, endpoint)) => seq![
            StepView::Check { name, current, provider, endpoint },
        ],
        None => seq![],
    }
}

/// The steps for one component: a warning when it has no current version
/// (it is then shown as `unknown`), and its lookup if one applies.
pub open spec fn project_plan(p: ProjectView, name: Seq<char>) -> Seq<StepView> {
    match current_version(p) {
        Some(cur) => lookup_steps(name, cur, project_lookup(p.url, name)),
        None => seq![StepView::Report(read_warning(name))] + lookup_steps(
            name,
            "unknown"@,
            project_lookup(p.url, name),
        ),
    }
}

/// The steps for one architecture of an image or initrd: a GitHub lookup with
/// that architecture's version, if the shared URL is on GitHub.
pub open spec fn arch_plan(url: Seq<char>, version: Seq<char>, name: Seq<char>) -> Seq<StepView> {
    lookup_steps(
        name,
        version,
        if is_github_spec(url) {
            Some((Provider::GitHubReleases, api_url(url)))
        } else {
            None
        },
    )
}

/// The steps for the hypervisors, in manifest order.
pub open spec fn hypervisor_plan(hypervisor: Hypervisor) -> Seq<StepView> {
    project_plan(hypervisor.cloud_hypervisor@, "cloud_hypervisor"@) + project_plan(hypervisor.firecracker@, "firecracker"@) + project_plan(hypervisor.qemu@, "qemu"@) + project_plan(hypervisor.qemu_experimental@, "qemu-experimental"@) + project_plan(hypervisor.qemu_tdx_experimental@, "qemu-tdx-experimental"@)
}

/// The steps for the guest kernels, in manifest order.
pub open spec fn kernel_plan(assets: Assets) -> Seq<StepView> {
    project_plan(assets.kernel@, "kernel"@) + project_plan(assets.kernel_experimental@, "kernel-experimental"@) + project_plan(assets.kernel_arm_experimental@, "kernel-arm-experimental"@) + project_plan(assets.kernel_dragonball_experimental@, "kernel-dragonball-experimental"@) + project_plan(assets.kernel_tdx_experimental@, "kernel-tdx-experimental"@)
}

/// The steps for the external components, in manifest order.
pub open spec fn externals_plan(externals: Externals) -> Seq<StepView> {
    project_plan(externals.cni_plugins@, "cni-plugins"@) + project_plan(externals.conmon@, "conmon"@) + project_plan(externals.crio@, "crio"@) + project_plan(externals.containerd@, "containerd"@) + project_plan(externals.critools@, "critools"@) + project_plan(externals.gperf@, "gperf"@) + project_plan(externals.kubernetes@, "kubernetes"@) + project_plan(externals.libseccomp@, "libseccomp"@) + project_plan(externals.runc@, "runc"@) + project_plan(externals.nydus@, "nydus"@) + project_plan(externals.nydus_snapshotter@, "nydus-snapshotter"@) + project_plan(externals.ovmf@, "ovmf"@) + project_plan(externals.td_shim@, "td-shim"@) + project_plan(externals.virtiofsd@, "virtiofsd"@)
}

/// The steps for the language toolchains, in manifest order.
pub open spec fn languages_plan(languages: Languages) -> Seq<StepView> {
    project_plan(languages.golang@, "golang"@) + project_plan(languages.rust@, "rust"@) + project_plan(languages.golangci_lint@, "golangci-lint"@)
}

/// The steps for the specifications, in manifest order.
pub open spec fn specs_plan(specs: Specs) -> Seq<StepView> {
    project_plan(specs.oci@, "oci"@)
}

/// The steps for the plugins, in manifest order.
pub open spec fn plugins_plan(plugins: Plugins) -> Seq<StepView> {
    project_plan(plugins.sriov_network_device@, "sriov-network-device"@)
}

/// The steps for the image: one per architecture, in the order aarch64,
/// ppc64le, s390x, x86_64.
pub open spec fn image_plan(image: ArchitectureProject) -> Seq<StepView> {
    arch_plan(image.url@, image.architecture.aarch64.version@, "image-aarch64"@)
        + arch_plan(image.url@, image.architecture.ppc64le.version@, "image-ppc64le"@)
        + arch_plan(image.url@, image.architecture.s390x.version@, "image-s390x"@)
        + arch_plan(image.url@, image.architecture.x86_64.version@, "image-x86_64"@)
}

/// The steps for the initrd: one per architecture, in the order aarch64,
/// ppc64le, s390x, x86_64.
pub open spec fn initrd_plan(initrd: ArchitectureProject) -> Seq<StepView> {
    arch_plan(initrd.url@, initrd.architecture.aarch64.version@, "initrd-aarch64"@)
        + arch_plan(initrd.url@, initrd.architecture.ppc64le.version@, "initrd-ppc64le"@)
        + arch_plan(initrd.url@, initrd.architecture.s390x.version@, "initrd-s390x"@)
        + arch_plan(initrd.url@, initrd.architecture.x86_64.version@, "initrd-x86_64"@)
}

/// The steps for the assets: hypervisors, image, initrd, kernels.
pub open spec fn assets_plan(assets: Assets) -> Seq<StepView> {
    hypervisor_plan(assets.hypervisor) + image_plan(assets.image) + initrd_plan(assets.initrd) + kernel_plan(assets)
}

/// The steps for a whole manifest, category by category in declaration order.
pub open spec fn versions_plan(versions: Versions) -> Seq<StepView> {
    assets_plan(versions.assets) + externals_plan(versions.externals) + languages_plan(
        versions.languages,
    ) + specs_plan(versions.specs) + plugins_plan(versions.plugins)
}

/// The latest version that a response body of `provider` names; a plain-text
/// body is the version itself, verbatim.
pub open spec fn latest_of(provider: Provider, body: Seq<char>) -> Option<Seq<char>> {
    match provider {
        Provider::GitHubReleases => github_latest(body),
        Provider::GitLabTags => gitlab_latest(body),
        Provider::PlainText => Some(body),
    }
}

/// The line that reports a lookup, given the response body, or none where the
/// request itself failed.
pub open spec fn outcome_line(
    name: Seq<char>,
    current: Seq<char>,
    provider: Provider,
    response: Option<Seq<char>>,
) -> Seq<char> {
    match response {
        Some(body) => match latest_of(provider, body) {
            Some(latest) => success_line(name, current, latest),
            None => check_warning(name),
        },
        None => check_warning(name),
    }
}

/// The latest version named in a response body of `provider`.
pub fn get_latest_version(provider: Provider, body: &str) -> (r: Result<String, ParserError>)
    ensures
        r is Ok <==> latest_of(provider, body@) is Some,
        r matches Ok(v) ==> latest_of(provider, body@) == Some(v@),
{
    match provider {
        Provider::GitHubReleases => parse_github_release(body),
        Provider::GitLabTags => parse_gitlab_tags(body),
        Provider::PlainText => Ok(body.to_owned()),
    }
}

/// The line that reports a lookup of `name`: its current and latest version,
/// or a warning where the request failed (`response` is none) or the response
/// names no version.
pub fn check_outcome_line(
    name: &str,
    current_version: &str,
    provider: Provider,
    response: Option<&str>,
) -> (r: String)
    ensures
        r@ == outcome_line(
            name@,
            current_version@,
            provider,
            match response {
                Some(b) => Some(b@),
                None => None,
            },
        ),
{
    let found = match response {
        Some(body) => get_latest_version(provider, body),
        None => Err(ParserError {  }),
    };
    match found {
        Ok(latest) => "project: ".to_owned().concat(name).concat(", current_version: ").concat(
            current_version,
        ).concat(", latest_version: ").concat(latest.as_str()).concat("\n"),
        Err(_e) => "Warning! Failed to check version for ".to_owned().concat(name).concat("\n"),
    }
}

/// The line that a step reports: its own line, or the outcome of its lookup
/// given what the endpoint answered.
pub fn step_line(step: &Step, response: Option<&str>) -> (r: String)
    ensures
        r@ == match step@ {
            StepView::Report(line) => line,
            StepView::Check { name, current, provider, endpoint: _ } => outcome_line(
                name,
                current,
                provider,
                match response {
                    Some(b) => Some(b@),
                    None => None,
                },
            ),
        },
{
    match step {
        Step::Report(line) => line.clone(),
        Step::Check { name, current_version, lookup } => check_outcome_line(
            name.as_str(),
            current_version.as_str(),
            lookup.provider,
            response,
        ),
    }
}

/// The `Authorization` header value of a lookup: a bearer token, only for a
/// GitHub lookup whose endpoint's host is on GitHub and only where a
/// non-empty token is configured; none otherwise.
pub fn authorization(lookup: &Lookup, args: &Args) -> (r: Option<String>)
    ensures
        r is Some <==> (lookup.provider == Provider::GitHubReleases && is_github_spec(
            lookup.endpoint@,
        ) && args.github_token is Some && args.github_token->Some_0@.len() > 0),
        r is Some ==> r->Some_0@ == "Bearer "@ + args.github_token->Some_0@,
{
    if lookup.provider != Provider::GitHubReleases || !is_github_url(lookup.endpoint.as_str()) {
        return None;
    }
    match &args.github_token {
        Some(token) => {
            if token.as_str().unicode_len() > 0 {
                Some("Bearer ".to_owned().concat(token.as_str()))
            } else {
                None
            }
        },
        None => None,
    }
}

/// The `User-Agent` header value of a lookup: the API providers get one, the
/// plain-text endpoint none.
pub fn user_agent(provider: Provider) -> (r: Option<String>)
    ensures
        r is None <==> provider == Provider::PlainText,
        r matches Some(a) ==> a@ == "Check Versions v1.0"@,
{
    match provider {
        Provider::PlainText => None,
        _ => Some("Check Versions v1.0".to_owned()),
    }
}

/// A component without any current version still gets its GitHub lookup,
/// shown with `unknown` as its current version, after a warning line.
pub proof fn lemma_unknown_version_still_checked(p: ProjectView, name: Seq<char>)
    requires
        p.tag is None,
        p.branch is None,
        p.version is None,
        p.url is Some,
        is_github_spec(p.url->Some_0),
    ensures
        project_plan(p, name) == seq![
            StepView::Report(read_warning(name)),
            StepView::Check {
                name,
                current: "unknown"@,
                provider: Provider::GitHubReleases,
                endpoint: api_url(p.url->Some_0),
            },
        ],
{
    assert(project_plan(p, name) =~= seq![
        StepView::Report(read_warning(name)),
        StepView::Check {
            name,
            current: "unknown"@,
            provider: Provider::GitHubReleases,
            endpoint: api_url(p.url->Some_0),
        },
    ]);
}

/// A golang entry with no URL and a version is looked up at the plain-text
/// endpoint; its line reports the response body verbatim as the latest
/// version, or the warning for `golang` where the request failed.
pub proof fn lemma_golang_plain_text(p: ProjectView, response: Option<Seq<char>>)
    requires
        p.url is None,
        p.tag is None,
        p.branch is None,
        p.version is Some,
    ensures
        project_plan(p, "golang"@) == seq![
            StepView::Check {
                name: "golang"@,
                current: p.version->Some_0,
                provider: Provider::PlainText,
                endpoint: golang_version_url(),
            },
        ],
        outcome_line("golang"@, p.version->Some_0, Provider::PlainText, response) == match response {
            Some(body) => success_line("golang"@, p.version->Some_0, body),
            None => check_warning("golang"@),
        },
{
    assert(project_plan(p, "golang"@) =~= seq![
        StepView::Check {
            name: "golang"@,
            current: p.version->Some_0,
            provider: Provider::PlainText,
            endpoint: golang_version_url(),
        },
    ]);
}

/// Appends a step to the plan.
fn emit(steps: &mut Vec<Step>, step: Step)
    ensures
        steps_view(final(steps)@) == steps_view(old(steps)@).push(step@),
{
    steps.push(step);
    assert(steps_view(final(steps)@) =~= steps_view(old(steps)@).push(step@));
}

/// Appends the check step of a lookup, if there is one.
fn emit_lookup(steps: &mut Vec<Step>, name: &str, current_version: &str, lookup: Option<Lookup>)
    ensures
        steps_view(final(steps)@) == steps_view(old(steps)@) + lookup_steps(
            name@,
            current_version@,
            match lookup {
                Some(l) => Some((l.provider, l.endpoint@)),
                None => None,
            },
        ),
{
    match lookup {
        Some(l) => {
            emit(
                steps,
                Step::Check { name: name.to_owned(), current_version: current_version.to_owned(), lookup: l },
            );
            assert(steps_view(final(steps)@) =~= steps_view(old(steps)@) + lookup_steps(
                name@,
                current_version@,
                Some((l.provider, l.endpoint@)),
            ));
        },
        None => {
            assert(steps_view(final(steps)@) =~= steps_view(old(steps)@) + seq![]);
        },
    }
}

/// Plans the GitHub lookup of a component whose URL is on GitHub.
pub fn check_github_version(url: &str, current_version: &str, name: &str, steps: &mut Vec<Step>)
    ensures
        steps_view(final(steps)@) == steps_view(old(steps)@) + lookup_steps(
            name@,
            current_version@,
            Some((Provider::GitHubReleases, api_url(url@))),
        ),
{
    let endpoint = to_github_api_url(url);
    emit_lookup(steps, name, current_version, Some(Lookup { provider: Provider::GitHubReleases, endpoint }));
}

/// Plans the GitLab lookup of virtiofsd.
pub fn check_virtiofsd_version(name: &str, current_version: &str, steps: &mut Vec<Step>)
    ensures
        steps_view(final(steps)@) == steps_view(old(steps)@) + lookup_steps(
            name@,
            current_version@,
            Some((Provider::GitLabTags, virtiofsd_tags_url())),
        ),
{
    let endpoint = "https://gitlab.com/api/v4/projects/21523468/repository/tags".to_owned();
    emit_lookup(steps, name, current_version, Some(Lookup { provider: Provider::GitLabTags, endpoint }));
}

/// Whether two strings hold the same characters.
fn same_text(a: &str, b: &str) -> (r: bool)
    ensures
        r == (a@ == b@),
{
    a.to_owned() == b.to_owned()
}

/// Plans the lookup of a language toolchain, chosen by its name; a name
/// without one is skipped.
pub fn check_language_version(name: &str, current_version: &str, steps: &mut Vec<Step>)
    ensures
        steps_view(final(steps)@) == steps_view(old(steps)@) + lookup_steps(
            name@,
            current_version@,
            language_lookup(name@),
        ),
{
    if same_text(name, "golang") {
        let endpoint = "https://golang.org/VERSION?m=text".to_owned();
        emit_lookup(steps, name, current_version, Some(Lookup { provider: Provider::PlainText, endpoint }));
    } else if same_text(name, "golangci-lint") {
        check_github_version("https://github.com/golangci/golangci-lint", current_version, name, steps);
    } else if same_text(name, "rust") {
        check_github_version(
            "https://api.github.com/repos/rust-lang/rust/releases/latest",
            current_version,
            name,
            steps,
        );
    } else {
        emit_lookup(steps, name, current_version, None);
    }
}

/// Plans the audit of one component: its current version (a warning and
/// `unknown` where it declares none), then its lookup by URL or by name.
pub fn check_project_version(project: &Project, name: &str, steps: &mut Vec<Step>)
    ensures
        steps_view(final(steps)@) == steps_view(old(steps)@) + project_plan(project@, name@),
{
    let ghost start = steps_view(steps@);
    let current_version = match get_version_string(project) {
        Ok(version) => version,
        Err(_e) => {
            emit(steps, Step::Report("Warning! Failed to read version for ".to_owned().concat(name).concat("\n")));
            "unknown".to_owned()
        },
    };
    let ghost mid = steps_view(steps@);
    match &project.url {
        Some(url) => {
            if is_github_url(url.as_str()) {
                check_github_version(url.as_str(), current_version.as_str(), name, steps);
            } else if same_text(name, "virtiofsd") {
                check_virtiofsd_version(name, current_version.as_str(), steps);
            } else {
                emit_lookup(steps, name, current_version.as_str(), None);
            }
        },
        None => {
            check_language_version(name, current_version.as_str(), steps);
        },
    }
    assert(steps_view(steps@) =~= start + project_plan(project@, name@));
}

/// Plans the audit of one architecture of an image or initrd.
pub fn check_architecture_project_version(
    project: &ArchitectureProject,
    arch: &Arch,
    name: &str,
    steps: &mut Vec<Step>,
)
    ensures
        steps_view(final(steps)@) == steps_view(old(steps)@) + arch_plan(
            project.url@,
            arch.version@,
            name@,
        ),
{
    if is_github_url(project.url.as_str()) {
        check_github_version(project.url.as_str(), arch.version.as_str(), name, steps);
    } else {
        emit_lookup(steps, name, arch.version.as_str(), None);
    }
}

/// Plans the audit of the hypervisors.
pub fn check_hypervisor_versions(hypervisor: &Hypervisor, steps: &mut Vec<Step>)
    ensures
        steps_view(final(steps)@) == steps_view(old(steps)@) + hypervisor_plan(*hypervisor),
{
    let ghost start = steps_view(steps@);
    check_project_version(&hypervisor.cloud_hypervisor, "cloud_hypervisor", steps);
    check_project_version(&hypervisor.firecracker, "firecracker", steps);
    check_project_version(&hypervisor.qemu, "qemu", steps);
    check_project_version(&hypervisor.qemu_experimental, "qemu-experimental", steps);
    check_project_version(&hypervisor.qemu_tdx_experimental, "qemu-tdx-experimental", steps);
    assert(steps_view(steps@) =~= start + hypervisor_plan(*hypervisor));
}

/// Plans the audit of the guest kernels.
pub fn check_kernel_versions(assets: &Assets, steps: &mut Vec<Step>)
    ensures
        steps_view(final(steps)@) == steps_view(old(steps)@) + kernel_plan(*assets),
{
    let ghost start = steps_view(steps@);
    check_project_version(&assets.kernel, "kernel", steps);
    check_project_version(&assets.kernel_experimental, "kernel-experimental", steps);
    check_project_version(&assets.kernel_arm_experimental, "kernel-arm-experimental", steps);
    check_project_version(&assets.kernel_dragonball_experimental, "kernel-dragonball-experimental", steps);
    check_project_version(&assets.kernel_tdx_experimental, "kernel-tdx-experimental", steps);
    assert(steps_view(steps@) =~= start + kernel_plan(*assets));
}

/// Plans the audit of the external components.
pub fn check_externals_versions(externals: &Externals, steps: &mut Vec<Step>)
    ensures
        steps_view(final(steps)@) == steps_view(old(steps)@) + externals_plan(*externals),
{
    let ghost start = steps_view(steps@);
    check_project_version(&externals.cni_plugins, "cni-plugins", steps);
    check_project_version(&externals.conmon, "conmon", steps);
    check_project_version(&externals.crio, "crio", steps);
    check_project_version(&externals.containerd, "containerd", steps);
    check_project_version(&externals.critools, "critools", steps);
    check_project_version(&externals.gperf, "gperf", steps);
    check_project_version(&externals.kubernetes, "kubernetes", steps);
    check_project_version(&externals.libseccomp, "libseccomp", steps);
    check_project_version(&externals.runc, "runc", steps);
    check_project_version(&externals.nydus, "nydus", steps);
    check_project_version(&externals.nydus_snapshotter, "nydus-snapshotter", steps);
    check_project_version(&externals.ovmf, "ovmf", steps);
    check_project_version(&externals.td_shim, "td-shim", steps);
    check_project_version(&externals.virtiofsd, "virtiofsd", steps);
    assert(steps_view(steps@) =~= start + externals_plan(*externals));
}

/// Plans the audit of the language toolchains.
pub fn check_languages_versions(languages: &Languages, steps: &mut Vec<Step>)
    ensures
        steps_view(final(steps)@) == steps_view(old(steps)@) + languages_plan(*languages),
{
    let ghost start = steps_view(steps@);
    check_project_version(&languages.golang, "golang", steps);
    check_project_version(&languages.rust, "rust", steps);
    check_project_version(&languages.golangci_lint, "golangci-lint", steps);
    assert(steps_view(steps@) =~= start + languages_plan(*languages));
}

/// Plans the audit of the specifications.
pub fn check_specs_versions(specs: &Specs, steps: &mut Vec<Step>)
    ensures
        steps_view(final(steps)@) == steps_view(old(steps)@) + specs_plan(*specs),
{
    let ghost start = steps_view(steps@);
    check_project_version(&specs.oci, "oci", steps);
    assert(steps_view(steps@) =~= start + specs_plan(*specs));
}

/// Plans the audit of the plugins.
pub fn check_plugins_versions(plugins: &Plugins, steps: &mut Vec<Step>)
    ensures
        steps_view(final(steps)@) == steps_view(old(steps)@) + plugins_plan(*plugins),
{
    let ghost start = steps_view(steps@);
    check_project_version(&plugins.sriov_network_device, "sriov-network-device", steps);
    assert(steps_view(steps@) =~= start + plugins_plan(*plugins));
}

/// Plans the audit of each architecture of the image.
pub fn check_image_versions(image: &ArchitectureProject, steps: &mut Vec<Step>)
    ensures
        steps_view(final(steps)@) == steps_view(old(steps)@) + image_plan(*image),
{
    let ghost start = steps_view(steps@);
    check_architecture_project_version(image, &image.architecture.aarch64, "image-aarch64", steps);
    check_architecture_project_version(image, &image.architecture.ppc64le, "image-ppc64le", steps);
    check_architecture_project_version(image, &image.architecture.s390x, "image-s390x", steps);
    check_architecture_project_version(image, &image.architecture.x86_64, "image-x86_64", steps);
    assert(steps_view(steps@) =~= start + image_plan(*image));
}

/// Plans the audit of each architecture of the initrd.
pub fn check_initrd_versions(initrd: &ArchitectureProject, steps: &mut Vec<Step>)
    ensures
        steps_view(final(steps)@) == steps_view(old(steps)@) + initrd_plan(*initrd),
{
    let ghost start = steps_view(steps@);
    check_architecture_project_version(initrd, &initrd.architecture.aarch64, "initrd-aarch64", steps);
    check_architecture_project_version(initrd, &initrd.architecture.ppc64le, "initrd-ppc64le", steps);
    check_architecture_project_version(initrd, &initrd.architecture.s390x, "initrd-s390x", steps);
    check_architecture_project_version(initrd, &initrd.architecture.x86_64, "initrd-x86_64", steps);
    assert(steps_view(steps@) =~= start + initrd_plan(*initrd));
}

/// Plans the audit of the assets.
pub fn check_asset_versions(assets: &Assets, steps: &mut Vec<Step>)
    ensures
        steps_view(final(steps)@) == steps_view(old(steps)@) + assets_plan(*assets),
{
    let ghost start = steps_view(steps@);
    check_hypervisor_versions(&assets.hypervisor, steps);
    check_image_versions(&assets.image, steps);
    check_initrd_versions(&assets.initrd, steps);
    check_kernel_versions(assets, steps);
    assert(steps_view(steps@) =~= start + assets_plan(*assets));
}

/// The audit of a whole manifest: for every component, in declaration order,
/// the warning for a missing current version and the lookup that applies.
pub fn check_versions(versions: &Versions) -> (r: Vec<Step>)
    ensures
        steps_view(r@) == versions_plan(*versions),
{
    let mut steps: Vec<Step> = Vec::new();
    assert(steps_view(steps@) =~= Seq::<StepView>::empty());
    check_asset_versions(&versions.assets, &mut steps);
    check_externals_versions(&versions.externals, &mut steps);
    check_languages_versions(&versions.languages, &mut steps);
    check_specs_versions(&versions.specs, &mut steps);
    check_plugins_versions(&versions.plugins, &mut steps);
    assert(steps_view(steps@) =~= versions_plan(*versions));
    steps
}

} // verus!
