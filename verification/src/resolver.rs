//! The URL resolver: validates the two base endpoints, builds the canonical
//! repository URL, and maps an asset name to its proxied fetch URL.
use vstd::prelude::*;

use crate::error::MirrorError;
use crate::repo::RepositoryRef;
use crate::text::{normalize_base, normalized_base, spec_strip_ends, strip_ends_char};

verus! {

/// The canonical endpoint assumed when none is given.
pub const DEFAULT_ENDPOINT: &'static str = "https://hf-mirror.com/";

/// The bandwidth proxy assumed when none is given.
pub const DEFAULT_PROXY: &'static str = "https://hg.whl.moe/";

/// The origin host marker spliced between the proxy base and the repository path.
pub const ORIGIN_HOST_MARKER: &'static str = "huggingface.co/";

/// The repository-relative path probed for upload-pack service before cloning.
pub const REF_PROBE_PATH: &'static str = "info/refs?service=git-upload-pack";

/// Whether `url::Url::parse` accepts `s` as an absolute URL.
pub uninterp spec fn url_parse_ok(s: Seq<char>) -> bool;

/// The serialization of the URL that `url::Url::parse` reads from `s`.
pub uninterp spec fn url_parse_str(s: Seq<char>) -> Seq<char>;

/// Whether parsing `base` and joining `rel` onto it succeeds.
pub uninterp spec fn url_join_ok(base: Seq<char>, rel: Seq<char>) -> bool;

/// The serialization of `rel` joined onto the URL parsed from `base`.
pub uninterp spec fn url_join_str(base: Seq<char>, rel: Seq<char>) -> Seq<char>;

/// The path component of `rel` joined onto the URL parsed from `base`.
pub uninterp spec fn url_join_path(base: Seq<char>, rel: Seq<char>) -> Seq<char>;

#[verifier::external_type_specification]
#[verifier::external_body]
pub struct ExParseError(url::ParseError);

/// Relies on `url::Url::parse` and `url::Url::as_str`: whether a string
/// parses, and the parsed URL's serialization, are functions of the input
/// string alone.
#[verifier::external_body]
fn parse_url_text(s: &str) -> (r: Result<String, url::ParseError>)
    ensures
        r is Ok <==> url_parse_ok(s@),
        r matches Ok(t) ==> t@ == url_parse_str(s@),
{
    match url::Url::parse(s) {
        Ok(u) => Ok(String::from(u.as_str())),
        Err(e) => Err(e),
    }
}

/// Relies on `url::Url::parse`, `url::Url::join`, `url::Url::as_str` and
/// `url::Url::path`: the joined URL's serialization and path component are
/// functions of the base and relative strings alone.
#[verifier::external_body]
fn join_url_parts(base: &str, rel: &str) -> (r: Result<(String, String), url::ParseError>)
    ensures
        r is Ok <==> url_join_ok(base@, rel@),
        r matches Ok(p) ==> p.0@ == url_join_str(base@, rel@) && p.1@ == url_join_path(
            base@,
            rel@,
        ),
{
    match url::Url::parse(base) {
        Ok(u) => match u.join(rel) {
            Ok(v) => {
                let path = String::from(v.path());
                Ok((String::from(v.as_str()), path))
            },
            Err(e) => Err(e),
        },
        Err(e) => Err(e),
    }
}

/// The base actually used: the given one, or the default.
pub open spec fn spec_chosen_base(opt: Option<String>, default: Seq<char>) -> Seq<char> {
    match opt {
        Some(s) => s@,
        None => default,
    }
}

/// The repository-relative segment joined onto the canonical base.
pub open spec fn spec_repo_rel(author: Seq<char>, name: Seq<char>) -> Seq<char> {
    author + "/"@ + name + "/"@
}

/// Whether both bases are acceptable: the canonical base must parse and take
/// the repository segment, and the proxy base must parse.
pub open spec fn spec_config_ok(
    endpoint: Seq<char>,
    proxy: Seq<char>,
    author: Seq<char>,
    name: Seq<char>,
) -> bool {
    url_join_ok(normalized_base(endpoint), spec_repo_rel(author, name)) && url_parse_ok(
        normalized_base(proxy),
    )
}

/// The canonical repository URL: the repository segment joined onto the
/// normalized canonical base.
pub open spec fn spec_canonical_repo_url(
    endpoint: Seq<char>,
    author: Seq<char>,
    name: Seq<char>,
) -> Seq<char> {
    url_join_str(normalized_base(endpoint), spec_repo_rel(author, name))
}

/// The repository path: the canonical repository URL's path component,
/// stripped of leading and trailing separators.
pub open spec fn spec_repo_path(
    endpoint: Seq<char>,
    author: Seq<char>,
    name: Seq<char>,
) -> Seq<char> {
    spec_strip_ends(url_join_path(normalized_base(endpoint), spec_repo_rel(author, name)), '/')
}

/// The proxy base's serialization after normalization and parsing.
pub open spec fn spec_proxy_url(proxy: Seq<char>) -> Seq<char> {
    url_parse_str(normalized_base(proxy))
}

/// The run's endpoint configuration, set once at startup and read-only after.
#[derive(Clone, Debug)]
pub struct EndpointConfig {
    /// The canonical repository URL, used for cloning and for the authority probe.
    pub canonical_repo_url: String,
    /// The parsed proxy base, the prefix of every fetch URL.
    pub proxy_url: String,
    /// The canonical URL's path without leading or trailing separators.
    pub repo_path: String,
}

/// Validate the two bases and build the configuration. Each base falls back
/// to its default when absent and is normalized to end in a separator before
/// parsing; a base that does not parse is an invalid configuration.
pub fn build_config(
    endpoint_opt: Option<String>,
    proxy_opt: Option<String>,
    repo: &RepositoryRef,
) -> (r: Result<EndpointConfig, MirrorError>)
    ensures
        ({
            let e = spec_chosen_base(endpoint_opt, DEFAULT_ENDPOINT@);
            let p = spec_chosen_base(proxy_opt, DEFAULT_PROXY@);
            match r {
                Ok(cfg) => spec_config_ok(e, p, repo.author@, repo.name@)
                    && cfg.canonical_repo_url@ == spec_canonical_repo_url(
                    e,
                    repo.author@,
                    repo.name@,
                ) && cfg.proxy_url@ == spec_proxy_url(p) && cfg.repo_path@ == spec_repo_path(
                    e,
                    repo.author@,
                    repo.name@,
                ),
                Err(err) => !spec_config_ok(e, p, repo.author@, repo.name@) && err
                    == MirrorError::InvalidConfiguration,
            }
        }),
{
    let endpoint = match endpoint_opt {
        Some(s) => s,
        None => String::from_str(DEFAULT_ENDPOINT),
    };
    let proxy = match proxy_opt {
        Some(s) => s,
        None => String::from_str(DEFAULT_PROXY),
    };
    let norm_e = normalize_base(endpoint.as_str());
    let norm_p = normalize_base(proxy.as_str());
    let mut rel = repo.author.clone();
    rel.append("/");
    rel.append(repo.name.as_str());
    rel.append("/");
    proof {
        assert(rel@ =~= spec_repo_rel(repo.author@, repo.name@));
    }
    match join_url_parts(norm_e.as_str(), rel.as_str()) {
        Err(_) => Err(MirrorError::InvalidConfiguration),
        Ok(jp) => match parse_url_text(norm_p.as_str()) {
            Err(_) => Err(MirrorError::InvalidConfiguration),
            Ok(ptext) => {
                let repo_path = strip_ends_char(jp.1.as_str(), '/');
                Ok(
                    EndpointConfig {
                        canonical_repo_url: jp.0,
                        proxy_url: ptext,
                        repo_path,
                    },
                )
            },
        },
    }
}

/// The fetch URL for one asset: the proxy base, the origin host marker, the
/// repository path, the resolve segment, and the asset name, concatenated.
pub open spec fn spec_resolve_asset_url(
    proxy_url: Seq<char>,
    repo_path: Seq<char>,
    asset: Seq<char>,
) -> Seq<char> {
    proxy_url + "huggingface.co/"@ + repo_path + "/resolve/main/"@ + asset
}

/// Map a repository-relative asset name to its fully proxied download URL.
/// Pure concatenation: same configuration and asset give the same URL.
pub fn resolve_asset_url(cfg: &EndpointConfig, asset: &str) -> (r: String)
    ensures
        r@ == spec_resolve_asset_url(cfg.proxy_url@, cfg.repo_path@, asset@),
{
    let mut r = cfg.proxy_url.clone();
    r.append("huggingface.co/");
    r.append(cfg.repo_path.as_str());
    r.append("/resolve/main/");
    r.append(asset);
    proof {
        assert(r@ =~= spec_resolve_asset_url(cfg.proxy_url@, cfg.repo_path@, asset@));
    }
    r
}

/// The URL probed to check the repository's authority before cloning.
pub fn authority_probe_url(cfg: &EndpointConfig) -> (r: Result<String, MirrorError>)
    ensures
        r matches Ok(t) ==> url_join_ok(cfg.canonical_repo_url@, REF_PROBE_PATH@) && t@
            == url_join_str(cfg.canonical_repo_url@, REF_PROBE_PATH@),
        r is Err ==> !url_join_ok(cfg.canonical_repo_url@, REF_PROBE_PATH@) && r == Err::<
            String,
            MirrorError,
        >(MirrorError::InvalidConfiguration),
{
    match join_url_parts(cfg.canonical_repo_url.as_str(), REF_PROBE_PATH) {
        Ok(jp) => Ok(jp.0),
        Err(_) => Err(MirrorError::InvalidConfiguration),
    }
}

/// Judge an endpoint or proxy health probe: a status outside the success
/// range fails the authority check, and the run aborts before cloning.
pub fn probe_result(status: u16) -> (r: Result<(), MirrorError>)
    ensures
        r is Ok <==> crate::task::spec_is_success_status(status),
        r is Err ==> r == Err::<(), MirrorError>(MirrorError::AuthorityCheckFailed),
{
    if crate::task::is_success_status(status) {
        Ok(())
    } else {
        Err(MirrorError::AuthorityCheckFailed)
    }
}

/// A trailing separator on either base input changes nothing: every planned
/// URL — the canonical repository URL, the repository path, the proxy prefix,
/// and hence any asset's resolved fetch URL — is the same for a base and for
/// that base with a separator appended, because each base enters the plan
/// only through its normalized form.
pub proof fn lemma_config_trailing_slash_independent(
    endpoint: Seq<char>,
    proxy: Seq<char>,
    author: Seq<char>,
    name: Seq<char>,
    asset: Seq<char>,
)
    ensures
        spec_resolve_asset_url(
            spec_proxy_url(proxy),
            spec_repo_path(endpoint, author, name),
            asset,
        ) == spec_resolve_asset_url(
            spec_proxy_url(normalized_base(proxy)),
            spec_repo_path(normalized_base(endpoint), author, name),
            asset,
        ),
        spec_canonical_repo_url(endpoint, author, name) == spec_canonical_repo_url(
            normalized_base(endpoint),
            author,
            name,
        ),
        spec_repo_path(endpoint, author, name) == spec_repo_path(
            normalized_base(endpoint),
            author,
            name,
        ),
        spec_proxy_url(proxy) == spec_proxy_url(normalized_base(proxy)),
        spec_config_ok(endpoint, proxy, author, name) == spec_config_ok(
            normalized_base(endpoint),
            normalized_base(proxy),
            author,
            name,
        ),
{
    lemma_normalized_base_idempotent(endpoint);
    lemma_normalized_base_idempotent(proxy);
}

/// Normalizing a base a second time changes nothing.
pub proof fn lemma_normalized_base_idempotent(s: Seq<char>)
    ensures
        normalized_base(normalized_base(s)) == normalized_base(s),
{
    if !crate::text::ends_with_char(s, '/') {
        assert(s.push('/')[s.push('/').len() - 1] == '/');
    }
}

} // verus!
