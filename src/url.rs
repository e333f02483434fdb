use vstd::prelude::*;
use vstd::string::*;

use crate::text::{
    replace_all, seq_contains, seq_ends_with, seq_starts_with, str_contains, str_ends_with,
    str_replace, str_starts_with,
};

verus! {

/// The web address prefix of GitHub projects.
pub open spec fn github_prefix() -> Seq<char> {
    "https://github.com"@
}

/// The address prefix of GitHub's repository API.
pub open spec fn api_prefix() -> Seq<char> {
    "https://api.github.com/repos"@
}

/// The path suffix of a latest-release endpoint.
pub open spec fn latest_suffix() -> Seq<char> {
    "/releases/latest"@
}

/// The index of the first `/` in `s` at or after `i`, or the length of `s`.
pub open spec fn slash_from(s: Seq<char>, i: int) -> int
    decreases s.len() - i,
{
    if i < 0 || i >= s.len() {
        s.len() as int
    } else if s[i] == '/' {
        i
    } else {
        slash_from(s, i + 1)
    }
}

/// The host part of a URL: what follows a leading `scheme://`, or the start
/// of the URL where there is none, up to the next `/`.
pub open spec fn host_of(url: Seq<char>) -> Seq<char> {
    let a = slash_from(url, 0);
    if 0 < a && a + 1 < url.len() && url[a - 1] == ':' && url[a + 1] == '/' {
        url.subrange(a + 2, slash_from(url, a + 2))
    } else {
        url.subrange(0, a)
    }
}

/// A URL whose host is on GitHub.
pub open spec fn is_github_spec(url: Seq<char>) -> bool {
    seq_contains(host_of(url), "github.com"@)
}

/// A URL in the form that normalisation produces: it ends with
/// `/releases/latest` and no longer begins with the GitHub web prefix.
pub open spec fn is_api_endpoint(url: Seq<char>) -> bool {
    seq_ends_with(url, latest_suffix()) && !seq_starts_with(url, github_prefix())
}

/// The URL with its GitHub web prefix, if any, rewritten to the API prefix.
pub open spec fn api_host(url: Seq<char>) -> Seq<char> {
    if seq_starts_with(url, github_prefix()) {
        api_prefix() + url.subrange(github_prefix().len() as int, url.len() as int)
    } else {
        url
    }
}

/// A releases listing turned into its latest release: a trailing `/releases`
/// segment becomes `/releases/latest`; any other path stays as it is.
pub open spec fn with_latest_release(path: Seq<char>) -> Seq<char> {
    if seq_ends_with(path, "/releases"@) {
        path + "/latest"@
    } else {
        path
    }
}

/// The GitHub API endpoint that gives the latest release of the project at `url`.
pub open spec fn api_url(url: Seq<char>) -> Seq<char> {
    if is_api_endpoint(url) {
        url
    } else if seq_contains(url, "runtime-spec"@) {
        with_latest_release(api_host(url))
    } else if seq_contains(url, "containerd/containerd"@) {
        replace_all(url, "github.com"@, api_prefix()) + latest_suffix()
    } else {
        api_host(url) + latest_suffix()
    }
}

/// The index of the first `/` of `url` at or after `from`, or its length.
fn first_slash_from(url: &str, from: usize) -> (r: usize)
    requires
        from <= url@.len(),
    ensures
        r == slash_from(url@, from as int),
        from <= r <= url@.len(),
{
    let n = url.unicode_len();
    let mut i = from;
    while i < n && url.get_char(i) != '/'
        invariant
            n == url@.len(),
            from <= i <= n,
            slash_from(url@, i as int) == slash_from(url@, from as int),
        decreases n - i,
    {
        i = i + 1;
    }
    i
}

/// The host part of `url`.
fn host(url: &str) -> (r: &str)
    ensures
        r@ == host_of(url@),
{
    let n = url.unicode_len();
    let a = first_slash_from(url, 0);
    if 0 < a && a < n && n - a > 1 && url.get_char(a - 1) == ':' && url.get_char(a + 1) == '/' {
        let b = first_slash_from(url, a + 2);
        url.substring_char(a + 2, b)
    } else {
        url.substring_char(0, a)
    }
}

/// Whether `url` names a project hosted on GitHub: its host contains
/// `github.com`.
pub fn is_github_url(url: &str) -> (r: bool)
    ensures
        r == is_github_spec(url@),
{
    str_contains(host(url), "github.com")
}

/// Whether `url` already is in the form that normalisation produces.
pub fn is_github_api_endpoint(url: &str) -> (r: bool)
    ensures
        r == is_api_endpoint(url@),
{
    str_ends_with(url, "/releases/latest") && !str_starts_with(url, "https://github.com")
}

/// `url` with a leading `https://github.com` rewritten to the API prefix.
fn to_api_host(url: &str) -> (r: String)
    ensures
        r@ == api_host(url@),
{
    if str_starts_with(url, "https://github.com") {
        proof {
            reveal_strlit("https://github.com");
        }
        "https://api.github.com/repos".to_owned().concat(url.substring_char(18, url.unicode_len()))
    } else {
        url.to_owned()
    }
}

/// Rewrites a GitHub project URL into the API endpoint of its latest release.
/// An endpoint that is already in that form is returned unchanged.
pub fn to_github_api_url(url: &str) -> (r: String)
    ensures
        r@ == api_url(url@),
{
    proof {
        reveal_strlit("github.com");
    }
    if is_github_api_endpoint(url) {
        url.to_owned()
    } else if str_contains(url, "runtime-spec") {
        let host = to_api_host(url);
        if str_ends_with(host.as_str(), "/releases") {
            host.concat("/latest")
        } else {
            host
        }
    } else if str_contains(url, "containerd/containerd") {
        str_replace(url, "github.com", "https://api.github.com/repos").concat("/releases/latest")
    } else {
        to_api_host(url).concat("/releases/latest")
    }
}

proof fn lemma_literals()
    ensures
        github_prefix() == seq!['h', 't', 't', 'p', 's', ':', '/', '/', 'g', 'i', 't', 'h', 'u', 'b', '.', 'c', 'o', 'm'],
        "github.com"@ == seq!['g', 'i', 't', 'h', 'u', 'b', '.', 'c', 'o', 'm'],
        api_prefix().len() == 28,
        api_prefix().subrange(0, 10) == seq!['h', 't', 't', 'p', 's', ':', '/', '/', 'a', 'p'],
        latest_suffix() == "/releases"@ + "/latest"@,
        latest_suffix().subrange(0, 2) == seq!['/', 'r'],
        "/latest"@.subrange(0, 2) == seq!['/', 'l'],
        "/latest"@.len() == 7,
        "runtime-spec"@.len() == 12,
        "runtime-spec"@[0] == 'r',
        latest_suffix().len() == 16,
        "/releases"@.len() == 9,
        forall|j: int| 0 <= j < 18 ==> github_prefix()[j] != 'r',
{
    reveal_strlit("https://github.com");
    reveal_strlit("github.com");
    reveal_strlit("https://api.github.com/repos");
    reveal_strlit("/releases/latest");
    reveal_strlit("/releases");
    reveal_strlit("/latest");
    reveal_strlit("runtime-spec");
    assert(github_prefix() =~= seq!['h', 't', 't', 'p', 's', ':', '/', '/', 'g', 'i', 't', 'h', 'u', 'b', '.', 'c', 'o', 'm']);
    assert("github.com"@ =~= seq!['g', 'i', 't', 'h', 'u', 'b', '.', 'c', 'o', 'm']);
    assert(api_prefix().subrange(0, 10) =~= seq!['h', 't', 't', 'p', 's', ':', '/', '/', 'a', 'p']);
    assert(latest_suffix() =~= "/releases"@ + "/latest"@);
    assert(latest_suffix().subrange(0, 2) =~= seq!['/', 'r']);
    assert("/latest"@.subrange(0, 2) =~= seq!['/', 'l']);
}

proof fn lemma_api_prefix_not_github(t: Seq<char>)
    ensures
        !seq_starts_with(api_prefix() + t, github_prefix()),
{
    lemma_literals();
    let x = api_prefix() + t;
    if seq_starts_with(x, github_prefix()) {
        assert(x[8] == api_prefix().subrange(0, 10)[8]);
        assert(x.subrange(0, 18)[8] == github_prefix()[8]);
    }
}

proof fn lemma_api_host_not_github(url: Seq<char>)
    ensures
        !seq_starts_with(api_host(url), github_prefix()),
{
    if seq_starts_with(url, github_prefix()) {
        lemma_api_prefix_not_github(url.subrange(18, url.len() as int));
        lemma_literals();
    }
}

proof fn lemma_append_not_github(x: Seq<char>, t: Seq<char>)
    requires
        !seq_starts_with(x, github_prefix()),
        t == latest_suffix() || t == "/latest"@,
    ensures
        !seq_starts_with(x + t, github_prefix()),
{
    lemma_literals();
    let y = x + t;
    let n = x.len() as int;
    if seq_starts_with(y, github_prefix()) {
        if n >= 18 {
            assert(x.subrange(0, 18) =~= y.subrange(0, 18));
        } else {
            let t2 = t.subrange(0, 2);
            assert(t2[0] == t[0] && t2[1] == t[1]);
            assert(y[n] == t[0]);
            assert(y.subrange(0, 18)[n] == github_prefix()[n]);
            assert(y[n + 1] == t[1]);
            assert(y.subrange(0, 18)[n + 1] == github_prefix()[n + 1]);
        }
    }
}

proof fn lemma_replace_suffix(s: Seq<char>, j: int)
    requires
        1 <= j < 10,
        seq_starts_with(replace_all(s, "github.com"@, api_prefix()), "github.com"@.subrange(j, 10)),
    ensures
        seq_starts_with(s, "github.com"@.subrange(j, 10)),
    decreases s.len(),
{
    lemma_literals();
    let h = "github.com"@;
    let r = replace_all(s, h, api_prefix());
    let p = h.subrange(j, 10);
    if s.len() < 10 {
    } else if s.subrange(0, 10) == h {
        let rest = replace_all(s.subrange(10, s.len() as int), h, api_prefix());
        assert(r == api_prefix() + rest);
        assert(r.subrange(0, 10 - j)[0] == p[0]);
        if j == 3 {
            assert(r.subrange(0, 10 - j)[1] == p[1]);
        }
        assert(r[0] == api_prefix().subrange(0, 10)[0]);
        assert(r[1] == api_prefix().subrange(0, 10)[1]);
    } else {
        let r1 = replace_all(s.subrange(1, s.len() as int), h, api_prefix());
        assert(r == seq![s[0]] + r1);
        assert(r.subrange(0, 10 - j)[0] == p[0]);
        assert(s[0] == h[j]);
        if j < 9 {
            assert(r1.subrange(0, 9 - j) =~= h.subrange(j + 1, 10)) by {
                assert forall|i: int| 0 <= i < 9 - j implies #[trigger] r1.subrange(0, 9 - j)[i] == h.subrange(j + 1, 10)[i] by {
                    assert(r.subrange(0, 10 - j)[i + 1] == p[i + 1]);
                }
            }
            lemma_replace_suffix(s.subrange(1, s.len() as int), j + 1);
            assert(s.subrange(0, 10 - j) =~= p) by {
                assert forall|i: int| 0 <= i < 10 - j implies #[trigger] s.subrange(0, 10 - j)[i] == p[i] by {
                    if i > 0 {
                        assert(s.subrange(1, s.len() as int).subrange(0, 9 - j)[i - 1] == h.subrange(j + 1, 10)[i - 1]);
                    }
                }
            }
        } else {
            assert(s.subrange(0, 1) =~= p);
        }
    }
}

proof fn lemma_replace_not_github(s: Seq<char>, k: int)
    requires
        0 <= k <= 8,
    ensures
        !seq_starts_with(replace_all(s, "github.com"@, api_prefix()), github_prefix().subrange(k, 18)),
    decreases s.len(),
{
    lemma_literals();
    let h = "github.com"@;
    let g = github_prefix().subrange(k, 18);
    let r = replace_all(s, h, api_prefix());
    if seq_starts_with(r, g) {
        if s.len() < 10 {
        } else if s.subrange(0, 10) == h {
            let rest = replace_all(s.subrange(10, s.len() as int), h, api_prefix());
            assert(r == api_prefix() + rest);
            assert(r[0] == api_prefix().subrange(0, 10)[0]);
            assert(r[8 - k] == api_prefix().subrange(0, 10)[8 - k]);
            assert(r.subrange(0, 18 - k)[0] == g[0]);
            assert(r.subrange(0, 18 - k)[8 - k] == g[8 - k]);
        } else {
            let s1 = s.subrange(1, s.len() as int);
            let r1 = replace_all(s1, h, api_prefix());
            assert(r == seq![s[0]] + r1);
            assert(r.subrange(0, 18 - k)[0] == g[0]);
            if k < 8 {
                assert(r1.subrange(0, 17 - k) =~= github_prefix().subrange(k + 1, 18)) by {
                    assert forall|i: int| 0 <= i < 17 - k implies #[trigger] r1.subrange(0, 17 - k)[i] == github_prefix().subrange(k + 1, 18)[i] by {
                        assert(r.subrange(0, 18 - k)[i + 1] == g[i + 1]);
                    }
                }
                lemma_replace_not_github(s1, k + 1);
            } else {
                assert(r1.subrange(0, 9) =~= h.subrange(1, 10)) by {
                    assert forall|i: int| 0 <= i < 9 implies #[trigger] r1.subrange(0, 9)[i] == h.subrange(1, 10)[i] by {
                        assert(r.subrange(0, 10)[i + 1] == g[i + 1]);
                    }
                }
                lemma_replace_suffix(s1, 1);
                assert(s.subrange(0, 10) =~= h) by {
                    assert forall|i: int| 0 <= i < 10 implies #[trigger] s.subrange(0, 10)[i] == h[i] by {
                        if i > 0 {
                            assert(s1.subrange(0, 9)[i - 1] == h.subrange(1, 10)[i - 1]);
                        }
                    }
                }
            }
        }
    }
}

proof fn lemma_runtime_spec_kept(url: Seq<char>)
    requires
        seq_starts_with(url, github_prefix()),
        seq_contains(url, "runtime-spec"@),
    ensures
        seq_contains(api_host(url), "runtime-spec"@),
{
    lemma_literals();
    let rs = "runtime-spec"@;
    let i = choose|i: int| 0 <= i <= url.len() - rs.len() && #[trigger] url.subrange(i, i + rs.len()) == rs;
    assert(url.subrange(i, i + 12)[0] == url[i]);
    if i < 18 {
        assert(url.subrange(0, 18)[i] == url[i]);
        assert(github_prefix()[i] != 'r');
    }
    assert(i >= 18);
    let h = api_host(url);
    assert(h == api_prefix() + url.subrange(18, url.len() as int));
    assert(url.subrange(i, i + 12) == rs);
    assert(h.len() == url.len() + 10);
    assert(h.subrange(i + 10, i + 22) =~= url.subrange(i, i + 12));
    assert(h.subrange(i + 10, i + 10 + rs.len()) == rs);
}

/// Normalising a URL a second time changes nothing: whatever a URL is, its
/// API endpoint is its own normal form, so `/releases/latest` is never
/// appended twice; and a URL already in that form is left as it is.
pub proof fn lemma_api_url_idempotent(url: Seq<char>)
    ensures
        api_url(api_url(url)) == api_url(url),
        is_api_endpoint(url) ==> api_url(url) == url,
{
    lemma_literals();
    let out = api_url(url);
    if is_api_endpoint(url) {
    } else if seq_contains(url, "runtime-spec"@) {
        let h = api_host(url);
        lemma_api_host_not_github(url);
        if seq_ends_with(h, "/releases"@) {
            lemma_append_not_github(h, "/latest"@);
            assert(out == h + "/latest"@);
            assert(out.subrange(out.len() - 16, out.len() as int) =~= h.subrange(h.len() - 9, h.len() as int) + "/latest"@);
            assert(out.subrange(out.len() - 16, out.len() as int) =~= latest_suffix());
            assert(is_api_endpoint(out));
        } else if seq_starts_with(url, github_prefix()) && !is_api_endpoint(out) {
            lemma_runtime_spec_kept(url);
            assert(api_host(out) == out);
        }
    } else if seq_contains(url, "containerd/containerd"@) {
        let r = replace_all(url, "github.com"@, api_prefix());
        lemma_replace_not_github(url, 0);
        assert(github_prefix().subrange(0, 18) =~= github_prefix());
        lemma_append_not_github(r, latest_suffix());
        assert(out.subrange(out.len() - 16, out.len() as int) =~= latest_suffix());
        assert(is_api_endpoint(out));
    } else {
        let h = api_host(url);
        lemma_api_host_not_github(url);
        lemma_append_not_github(h, latest_suffix());
        assert(out.subrange(out.len() - 16, out.len() as int) =~= latest_suffix());
        assert(is_api_endpoint(out));
    }
}

} // verus!
