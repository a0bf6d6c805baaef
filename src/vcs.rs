//! Normalising version-control locations.
use vstd::prelude::*;
use vstd::string::*;
use crate::error::UpstreamError;
use crate::text::{first_char, first_of, join2, occurs_before, seq_starts_with, slice, starts_with, str_eq};
use crate::urlparse::{opt_text, parse_url, url_host, url_path, url_serialization};

verus! {

/// The scheme of a URL's text: what precedes its first `:`.
pub open spec fn scheme_of(u: Seq<char>) -> Option<Seq<char>> {
    match first_of(u, ':') {
        Some(k) => Some(u.subrange(0, k)),
        None => None,
    }
}

/// What follows the scheme of a URL's text, from its first `:` on.
pub open spec fn after_scheme(u: Seq<char>) -> Seq<char> {
    match first_of(u, ':') {
        Some(k) => u.subrange(k, u.len() as int),
        None => u,
    }
}

/// The transport of a scheme of the form `vcs+transport`, where the
/// transport is `http` or `https`.
pub open spec fn vcs_transport(scheme: Seq<char>) -> Option<Seq<char>> {
    match first_of(scheme, '+') {
        Some(p) => {
            let t = scheme.subrange(p + 1, scheme.len() as int);
            if p > 0 && (t == "http"@ || t == "https"@) {
                Some(t)
            } else {
                None
            }
        },
        None => None,
    }
}

/// A URL's text with a `vcs+transport` scheme replaced by the bare transport.
pub open spec fn without_vcs(u: Seq<char>) -> Option<Seq<char>> {
    match scheme_of(u) {
        Some(sch) => match vcs_transport(sch) {
            Some(t) => Some(t + after_scheme(u)),
            None => None,
        },
        None => None,
    }
}

/// What `drop_vcs_in_scheme` gives for a text that parses as a URL.
pub open spec fn dropped_vcs(s: Seq<char>, u: Seq<char>) -> Seq<char> {
    match without_vcs(u) {
        Some(c) => match url_serialization(c) {
            Some(v) => v,
            None => s,
        },
        None => s,
    }
}

/// The scheme of a URL's text, or `None` where it has no `:`.
pub fn scheme_text(u: &str) -> (r: Option<String>)
    ensures
        opt_text(r) == scheme_of(u@),
{
    match first_char(u, ':') {
        Some(k) => Some(slice(u, 0, k)),
        None => None,
    }
}

/// Replaces a `vcs+http` or `vcs+https` scheme of a URL's text by its
/// transport; `None` where the scheme has no such form.
pub fn strip_vcs_scheme(u: &str) -> (r: Option<String>)
    ensures
        opt_text(r) == without_vcs(u@),
{
    let k = match first_char(u, ':') {
        Some(k) => k,
        None => {
            return None;
        },
    };
    let sch = slice(u, 0, k);
    let p = match first_char(sch.as_str(), '+') {
        Some(p) => p,
        None => {
            return None;
        },
    };
    let t = slice(sch.as_str(), p + 1, k);
    if p > 0 && (str_eq(t.as_str(), "http") || str_eq(t.as_str(), "https")) {
        let rest = slice(u, k, u.unicode_len());
        Some(join2(t.as_str(), rest.as_str()))
    } else {
        None
    }
}

/// Removes a version-control prefix from a URL's scheme
/// (`git+https://h/p` becomes `https://h/p`); a URL without one is
/// returned as given. Text that is not a URL is refused.
pub fn drop_vcs_in_scheme(url: &str) -> (r: Result<String, UpstreamError>)
    ensures
        r is Err <==> url_serialization(url@) is None,
        r is Err ==> (r matches Err(UpstreamError::InvalidUrl(s)) && s@ == url@),
        r matches Ok(v) ==> v@ == dropped_vcs(url@, url_serialization(url@)->0),
{
    let u = match parse_url(url) {
        Some(u) => u,
        None => {
            return Err(UpstreamError::InvalidUrl(String::from_str(url)));
        },
    };
    match strip_vcs_scheme(u.as_str()) {
        Some(c) => match parse_url(c.as_str()) {
            Some(v) => Ok(v),
            None => Ok(String::from_str(url)),
        },
        None => Ok(String::from_str(url)),
    }
}

/// A path that starts with `/`: `p` itself where it does, else `/` and `p`.
pub open spec fn rooted(p: Seq<char>) -> Seq<char> {
    if p.len() > 0 && p[0] == '/' {
        p
    } else {
        "/"@ + p
    }
}

fn rooted_path(p: &str) -> (r: String)
    ensures
        r@ == rooted(p@),
{
    if starts_with(p, "/") {
        proof {
            reveal_strlit("/");
            assert(p@[0] == p@.subrange(0, 1)[0]);
        }
        String::from_str(p)
    } else {
        proof {
            reveal_strlit("/");
            assert(!(p@.len() > 0 && p@[0] == '/')) by {
                if p@.len() > 0 && p@[0] == '/' {
                    assert(p@.subrange(0, 1) == "/"@);
                }
            }
        }
        join2("/", p)
    }
}

/// The position of the `:` of a location in shorthand remote syntax
/// `[user@]host:path`: the first `:`, after a host part of at least two
/// characters without `/`, and not followed by `//`.
pub open spec fn rcp_split(s: Seq<char>) -> Option<int> {
    match first_of(s, ':') {
        Some(k) => if k >= 2 && !occurs_before(s, '/', k) && !(k + 2 < s.len() && s[k + 1] == '/'
            && s[k + 2] == '/') {
            Some(k)
        } else {
            None
        },
        None => None,
    }
}

/// The `ssh://` form of a shorthand remote location.
pub open spec fn rcp_to_ssh(s: Seq<char>) -> Option<Seq<char>> {
    match rcp_split(s) {
        Some(k) => Some("ssh://"@ + s.subrange(0, k) + rooted(s.subrange(k + 1, s.len() as int))),
        None => None,
    }
}

/// What `fixup_rcp_style_git_repo_url` gives.
pub open spec fn rcp_fixed(s: Seq<char>) -> Seq<char> {
    match rcp_to_ssh(s) {
        Some(c) => match url_serialization(c) {
            Some(v) => v,
            None => s,
        },
        None => s,
    }
}

/// Rewrites `[user@]host:path` as `ssh://[user@]host/path`; `None` where
/// the text is not in that form.
pub fn rcp_location_to_ssh(s: &str) -> (r: Option<String>)
    ensures
        opt_text(r) == rcp_to_ssh(s@),
{
    let k = match first_char(s, ':') {
        Some(k) => k,
        None => {
            return None;
        },
    };
    let n = s.unicode_len();
    proof {
        assert(crate::text::is_first(s@, ':', k as int));
    }
    if k < 2 {
        return None;
    }
    let slash = crate::text::find_char(s, '/', 0);
    match slash {
        Some(j) => {
            if j < k {
                return None;
            }
        },
        None => {},
    }
    if n - k > 2 && s.get_char(k + 1) == '/' && s.get_char(k + 2) == '/' {
        return None;
    }
    let head = join2("ssh://", s.substring_char(0, k));
    let path = rooted_path(s.substring_char(k + 1, n));
    Some(join2(head.as_str(), path.as_str()))
}

/// Reads shorthand remote syntax `[user@]host:path` as an `ssh://` URL;
/// other text, or a rewrite that does not parse, is returned as given.
pub fn fixup_rcp_style_git_repo_url(url: &str) -> (r: String)
    ensures
        r@ == rcp_fixed(url@),
{
    match rcp_location_to_ssh(url) {
        Some(c) => match parse_url(c.as_str()) {
            Some(v) => v,
            None => String::from_str(url),
        },
        None => String::from_str(url),
    }
}

/// The length of the method prefix (`:pserver:` or `:extssh:`) of a
/// centralised-VCS location.
pub open spec fn cvs_prefix_len(s: Seq<char>) -> Option<int> {
    if seq_starts_with(s, ":pserver:"@) {
        Some(9)
    } else if seq_starts_with(s, ":extssh:"@) {
        Some(8)
    } else {
        None
    }
}

/// The URL form `cvs+method://[user@]host/path` of a location
/// `:method:[user@]host:path`.
pub open spec fn cvs_to_url(s: Seq<char>) -> Option<Seq<char>> {
    match cvs_prefix_len(s) {
        Some(m) => {
            let rest = s.subrange(m, s.len() as int);
            match first_of(rest, ':') {
                Some(k) => Some(
                    "cvs+"@ + s.subrange(1, m - 1) + "://"@ + rest.subrange(0, k) + rooted(
                        rest.subrange(k + 1, rest.len() as int),
                    ),
                ),
                None => None,
            }
        },
        None => None,
    }
}

/// The one-string form of a (location, module) pair: the location's URL,
/// `#`, and the module.
pub open spec fn cvs_list_text(urls: Seq<Seq<char>>) -> Option<Seq<char>> {
    if urls.len() >= 2 {
        match cvs_to_url(urls[0]) {
            Some(u) => Some(u + "#"@ + urls[1]),
            None => None,
        }
    } else {
        None
    }
}

pub open spec fn string_texts(v: Seq<String>) -> Seq<Seq<char>> {
    v.map_values(|s: String| s@)
}

/// Collapses a centralised-VCS (location, module) list into one string;
/// `None` where it has no such form.
pub fn convert_cvs_list_to_str(urls: &Vec<String>) -> (r: Option<String>)
    ensures
        opt_text(r) == cvs_list_text(string_texts(urls@)),
{
    proof {
        reveal_strlit(":pserver:");
        reveal_strlit(":extssh:");
    }
    if urls.len() < 2 {
        return None;
    }
    let s = urls[0].as_str();
    proof {
        assert(string_texts(urls@)[0] == s@);
        assert(string_texts(urls@)[1] == urls@[1]@);
    }
    let m: usize = if starts_with(s, ":pserver:") {
        9
    } else if starts_with(s, ":extssh:") {
        8
    } else {
        return None;
    };
    let n = s.unicode_len();
    let rest = slice(s, m, n);
    let k = match first_char(rest.as_str(), ':') {
        Some(k) => k,
        None => {
            return None;
        },
    };
    let rn = rest.unicode_len();
    let head = join2("cvs+", s.substring_char(1, m - 1));
    let head = join2(head.as_str(), "://");
    let head = join2(head.as_str(), rest.substring_char(0, k));
    let path = rooted_path(rest.substring_char(k + 1, rn));
    let u = join2(head.as_str(), path.as_str());
    let u = join2(u.as_str(), "#");
    Some(join2(u.as_str(), urls[1].as_str()))
}

} // verus!

verus! {

/// Hosts that run GitLab without asking the network.
pub open spec fn known_gitlab_host(h: Seq<char>) -> bool {
    h == "salsa.debian.org"@ || h == "invent.kde.org"@ || h == "0xacab.org"@ || seq_starts_with(
        h,
        "gitlab."@,
    )
}

/// Whether a host runs GitLab: it is known to, or a network probe (where
/// network access was allowed) found it so.
pub open spec fn gitlab_host(h: Seq<char>, probe: Option<bool>) -> bool {
    known_gitlab_host(h) || probe == Some(true)
}

/// Whether a host is known to run GitLab.
pub fn is_known_gitlab_host(h: &str) -> (r: bool)
    ensures
        r == known_gitlab_host(h@),
{
    str_eq(h, "salsa.debian.org") || str_eq(h, "invent.kde.org") || str_eq(h, "0xacab.org")
        || starts_with(h, "gitlab.")
}

/// The path that a hosted git repository's canonical URL takes: the path
/// with `.git` appended, where the host is GitHub or GitLab and the path
/// does not end in `.git`.
pub open spec fn canonical_git_path_of(
    host: Option<Seq<char>>,
    path: Option<Seq<char>>,
    probe: Option<bool>,
) -> Option<Seq<char>> {
    match (host, path) {
        (Some(h), Some(p)) => if (h == "github.com"@ || gitlab_host(h, probe)) && !crate::text::seq_ends_with(
            p,
            ".git"@,
        ) {
            Some(p + ".git"@)
        } else {
            None
        },
        _ => None,
    }
}

/// The canonical form of a git repository URL `s`: `s` itself unless its
/// path is to take `.git`.
pub open spec fn canonical_git(s: Seq<char>, probe: Option<bool>) -> Seq<char> {
    match canonical_git_path_of(url_host(s), url_path(s), probe) {
        Some(p) => match crate::urlparse::url_with_path(s, p) {
            Some(v) => v,
            None => s,
        },
        None => s,
    }
}

/// The new path of a hosted git repository's canonical URL, from the
/// host and path of its URL; `None` where the URL is already canonical.
pub fn canonical_git_path(host: &Option<String>, path: &Option<String>, probe: Option<bool>) -> (r:
    Option<String>)
    ensures
        opt_text(r) == canonical_git_path_of(opt_text(*host), opt_text(*path), probe),
{
    match (host, path) {
        (Some(h), Some(p)) => {
            let hosted = str_eq(h.as_str(), "github.com") || is_known_gitlab_host(h.as_str())
                || probe == Some(true);
            if hosted && !crate::text::ends_with(p.as_str(), ".git") {
                Some(join2(p.as_str(), ".git"))
            } else {
                None
            }
        },
        _ => None,
    }
}

/// The canonical URL of a git repository: GitHub and GitLab repositories
/// get a path ending in `.git`. `probe` is the outcome of asking the host
/// over the network whether it runs GitLab, `None` where network access is
/// off. Any other URL comes back exactly as given. Text that is not a URL is
/// refused.
pub fn canonical_git_repo_url(url: &str, probe: Option<bool>) -> (r: Result<String, UpstreamError>)
    ensures
        r is Err <==> url_serialization(url@) is None,
        r is Err ==> (r matches Err(UpstreamError::InvalidUrl(s)) && s@ == url@),
        r matches Ok(v) ==> v@ == canonical_git(url@, probe),
        r is Ok && canonical_git_path_of(url_host(url@), url_path(url@), probe) is None ==> r->Ok_0@
            == url@,
{
    match parse_url(url) {
        Some(_) => {},
        None => {
            return Err(UpstreamError::InvalidUrl(String::from_str(url)));
        },
    }
    let host = crate::urlparse::host_of(url);
    let path = crate::urlparse::path_of(url);
    match canonical_git_path(&host, &path, probe) {
        Some(p) => match crate::urlparse::replace_path(url, p.as_str()) {
            Some(v) => Ok(v),
            None => Ok(String::from_str(url)),
        },
        None => Ok(String::from_str(url)),
    }
}

/// The public web form of a repository location, from the text `s`, the
/// scheme, host and path of the URL it stands for.
pub open spec fn public_from_parts(
    s: Seq<char>,
    scheme: Option<Seq<char>>,
    host: Option<Seq<char>>,
    path: Option<Seq<char>>,
    probe: Option<bool>,
) -> Option<Seq<char>> {
    match (scheme, host, path) {
        (Some(sch), Some(h), Some(p)) => if h == "github.com"@ {
            if sch == "https"@ || sch == "http"@ || sch == "git"@ {
                Some(s)
            } else {
                Some("https://github.com"@ + p)
            }
        } else if gitlab_host(h, probe) {
            if sch == "https"@ || sch == "http"@ {
                Some(s)
            } else if sch == "ssh"@ {
                Some("https://"@ + h + p)
            } else {
                None
            }
        } else {
            None
        },
        _ => None,
    }
}

/// The location that `find_public_repo_url` reads: `s` where it is a URL,
/// else its reading as shorthand remote syntax.
pub open spec fn public_source(s: Seq<char>) -> Seq<char> {
    if url_serialization(s) is Some {
        s
    } else {
        rcp_fixed(s)
    }
}

/// What `find_public_repo_url` gives.
pub open spec fn public_repo(s: Seq<char>, probe: Option<bool>) -> Option<Seq<char>> {
    let t = public_source(s);
    match url_serialization(t) {
        Some(u) => public_from_parts(s, scheme_of(u), url_host(t), url_path(t), probe),
        None => None,
    }
}

/// The public web form of a repository location from the parts of its
/// URL; `None` where no public form is known.
pub fn public_location(
    s: &str,
    scheme: &Option<String>,
    host: &Option<String>,
    path: &Option<String>,
    probe: Option<bool>,
) -> (r: Option<String>)
    ensures
        opt_text(r) == public_from_parts(
            s@,
            opt_text(*scheme),
            opt_text(*host),
            opt_text(*path),
            probe,
        ),
{
    match (scheme, host, path) {
        (Some(sch), Some(h), Some(p)) => {
            let sch = sch.as_str();
            if str_eq(h.as_str(), "github.com") {
                if str_eq(sch, "https") || str_eq(sch, "http") || str_eq(sch, "git") {
                    Some(String::from_str(s))
                } else {
                    Some(join2("https://github.com", p.as_str()))
                }
            } else if is_known_gitlab_host(h.as_str()) || probe == Some(true) {
                if str_eq(sch, "https") || str_eq(sch, "http") {
                    Some(String::from_str(s))
                } else if str_eq(sch, "ssh") {
                    let head = join2("https://", h.as_str());
                    Some(join2(head.as_str(), p.as_str()))
                } else {
                    None
                }
            } else {
                None
            }
        },
        _ => None,
    }
}

/// The public web location of a repository on GitHub or GitLab, read from
/// a URL or from shorthand remote syntax; `None` where none is known.
/// `probe` is as for `canonical_git_repo_url`.
pub fn find_public_repo_url(url: &str, probe: Option<bool>) -> (r: Option<String>)
    ensures
        opt_text(r) == public_repo(url@, probe),
{
    let t = match parse_url(url) {
        Some(_) => String::from_str(url),
        None => fixup_rcp_style_git_repo_url(url),
    };
    let u = match parse_url(t.as_str()) {
        Some(u) => u,
        None => {
            return None;
        },
    };
    let scheme = scheme_text(u.as_str());
    let host = crate::urlparse::host_of(t.as_str());
    let path = crate::urlparse::path_of(t.as_str());
    public_location(url, &scheme, &host, &path, probe)
}

/// Schemes whose transport is secure.
pub open spec fn secure_scheme(s: Seq<char>) -> bool {
    s == "https"@ || s == "ssh"@ || s == "git+ssh"@ || s == "bzr+ssh"@ || s == "hg+ssh"@ || s
        == "svn+ssh"@
}

/// Hosts known to serve their repositories over https.
pub open spec fn https_host(h: Seq<char>, probe: Option<bool>) -> bool {
    h == "github.com"@ || h == "git.launchpad.net"@ || h == "bazaar.launchpad.net"@ || h
        == "code.launchpad.net"@ || gitlab_host(h, probe)
}

/// What `find_secure_repo_url` gives for a URL `s` whose serialisation is `u`.
pub open spec fn secure_repo(s: Seq<char>, u: Seq<char>, probe: Option<bool>, verified: bool) -> Option<
    Seq<char>,
> {
    if scheme_of(u) matches Some(sch) && secure_scheme(sch) {
        Some(u)
    } else if (url_host(s) matches Some(h) && https_host(h, probe)) || verified {
        url_serialization("https"@ + after_scheme(u))
    } else {
        None
    }
}

/// Whether a scheme's transport is secure.
pub fn is_secure_scheme(s: &str) -> (r: bool)
    ensures
        r == secure_scheme(s@),
{
    str_eq(s, "https") || str_eq(s, "ssh") || str_eq(s, "git+ssh") || str_eq(s, "bzr+ssh")
        || str_eq(s, "hg+ssh") || str_eq(s, "svn+ssh")
}

/// Whether an optional host is known to serve its repositories over https.
pub fn is_https_host(h: &Option<String>, probe: Option<bool>) -> (r: bool)
    ensures
        r == (opt_text(*h) matches Some(t) && https_host(t, probe)),
{
    match h {
        Some(t) => {
            let t = t.as_str();
            str_eq(t, "github.com") || str_eq(t, "git.launchpad.net") || str_eq(
                t,
                "bazaar.launchpad.net",
            ) || str_eq(t, "code.launchpad.net") || is_known_gitlab_host(t) || probe == Some(true)
        },
        None => false,
    }
}

/// The text of a URL with its scheme replaced by `https`.
pub fn https_form(u: &str) -> (r: String)
    ensures
        r@ == "https"@ + after_scheme(u@),
{
    match first_char(u, ':') {
        Some(k) => {
            let rest = slice(u, k, u.unicode_len());
            join2("https", rest.as_str())
        },
        None => join2("https", u),
    }
}

/// A secure form of a repository URL: the URL itself where its transport
/// is secure, else its `https` form where the host is known to serve https
/// or `verified` says that the https form was seen to serve the same
/// branch over the network; `None` otherwise. Text that is not a URL is
/// refused.
pub fn find_secure_repo_url(url: String, probe: Option<bool>, verified: bool) -> (r: Result<
    Option<String>,
    UpstreamError,
>)
    ensures
        r is Err <==> url_serialization(url@) is None,
        r is Err ==> (r matches Err(UpstreamError::InvalidUrl(s)) && s@ == url@),
        r matches Ok(o) ==> opt_text(o) == secure_repo(
            url@,
            url_serialization(url@)->0,
            probe,
            verified,
        ),
{
    let u = match parse_url(url.as_str()) {
        Some(u) => u,
        None => {
            return Err(UpstreamError::InvalidUrl(url));
        },
    };
    let secure = match scheme_text(u.as_str()) {
        Some(sch) => is_secure_scheme(sch.as_str()),
        None => false,
    };
    if secure {
        return Ok(Some(u));
    }
    let host = crate::urlparse::host_of(url.as_str());
    if is_https_host(&host, probe) || verified {
        Ok(parse_url(https_form(u.as_str()).as_str()))
    } else {
        Ok(None)
    }
}

} // verus!

verus! {

/// A location followed by ` -b branch`, split into the two.
pub open spec fn branch_split(s: Seq<char>) -> Option<(Seq<char>, Seq<char>)> {
    match first_of(s, ' ') {
        Some(j) => if j + 4 <= s.len() && s.subrange(j, j + 4) == " -b "@ {
            Some((s.subrange(0, j), s.subrange(j + 4, s.len() as int)))
        } else {
            None
        },
        None => None,
    }
}

/// A GitHub location over `git://` or `http://` moved to `https://`.
pub open spec fn github_https(s: Seq<char>) -> Seq<char> {
    if seq_starts_with(s, "git://github.com/"@) {
        "https://github.com/"@ + s.subrange(17, s.len() as int)
    } else if seq_starts_with(s, "http://github.com/"@) {
        "https://github.com/"@ + s.subrange(18, s.len() as int)
    } else {
        s
    }
}

/// The corrected (location, branch, subpath) triple.
pub open spec fn fixed_git_details(
    loc: Seq<char>,
    branch: Option<Seq<char>>,
    subpath: Option<Seq<char>>,
) -> (Seq<char>, Option<Seq<char>>, Option<Seq<char>>) {
    match branch_split(loc) {
        Some((l, b)) => (github_https(l), if branch is Some {
            branch
        } else {
            Some(b)
        }, subpath),
        None => (github_https(loc), branch, subpath),
    }
}

fn github_https_of(s: &str) -> (r: String)
    ensures
        r@ == github_https(s@),
{
    proof {
        reveal_strlit("git://github.com/");
        reveal_strlit("http://github.com/");
    }
    let n = s.unicode_len();
    if starts_with(s, "git://github.com/") {
        let rest = slice(s, 17, n);
        join2("https://github.com/", rest.as_str())
    } else if starts_with(s, "http://github.com/") {
        let rest = slice(s, 18, n);
        join2("https://github.com/", rest.as_str())
    } else {
        String::from_str(s)
    }
}

fn opt_owned(s: Option<&str>) -> (r: Option<String>)
    ensures
        opt_text(r) == crate::datum::opt_str(s),
{
    match s {
        Some(t) => Some(String::from_str(t)),
        None => None,
    }
}

/// Corrects a git (location, branch, subpath) triple: a branch given as
/// ` -b branch` after the location moves to the branch (a branch passed
/// in wins), and a GitHub location moves to `https`.
pub fn fixup_broken_git_details(location: &str, branch: Option<&str>, subpath: Option<&str>) -> (r: (
    String,
    Option<String>,
    Option<String>,
))
    ensures
        (r.0@, opt_text(r.1), opt_text(r.2)) == fixed_git_details(
            location@,
            crate::datum::opt_str(branch),
            crate::datum::opt_str(subpath),
        ),
{
    proof {
        reveal_strlit(" -b ");
    }
    let n = location.unicode_len();
    let split = match first_char(location, ' ') {
        Some(j) => {
            proof {
                assert(crate::text::is_first(location@, ' ', j as int));
            }
            if n - j >= 4 && str_eq(location.substring_char(j, j + 4), " -b ") {
                Some((location.substring_char(0, j), location.substring_char(j + 4, n)))
            } else {
                None
            }
        },
        None => None,
    };
    match split {
        Some((l, b)) => {
            let fixed_branch = match branch {
                Some(t) => Some(String::from_str(t)),
                None => Some(String::from_str(b)),
            };
            (github_https_of(l), fixed_branch, opt_owned(subpath))
        },
        None => (github_https_of(location), opt_owned(branch), opt_owned(subpath)),
    }
}

} // verus!
