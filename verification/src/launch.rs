//! Startup decisions for a locally launched search backend: whether the
//! configuration allows starting one at all, and the environment the
//! launcher must hand it. The process spawning itself, and the wait for
//! the backend to come up, belong to the caller.

use vstd::prelude::*;

verus! {

use vstd::utf8::encode_utf8;

use crate::config::MeiliSearchConfig;

/// The byte length of a string, as `str::len` reports it.
pub open spec fn spec_byte_len(s: Seq<char>) -> usize {
    encode_utf8(s).len() as usize
}

/// Whether `p` is a prefix of `s`.
pub open spec fn spec_has_prefix(s: Seq<char>, p: Seq<char>) -> bool {
    s.len() >= p.len() && s.subrange(0, p.len() as int) == p
}

/// Prefix test on strings.
pub fn str_has_prefix(s: &str, p: &str) -> (r: bool)
    ensures
        r == spec_has_prefix(s@, p@),
{
    let n = p.unicode_len();
    let sn = s.unicode_len();
    if sn < n {
        return false;
    }
    let mut i: usize = 0;
    while i < n
        invariant
            i <= n,
            n == p@.len(),
            sn == s@.len(),
            n <= sn,
            forall|j: int| 0 <= j < i ==> s@[j] == p@[j],
        decreases n - i,
    {
        if s.get_char(i) != p.get_char(i) {
            proof {
                assert(s@.subrange(0, n as int)[i as int] != p@[i as int]);
            }
            return false;
        }
        i = i + 1;
    }
    proof {
        assert(s@.subrange(0, n as int) =~= p@);
    }
    true
}

/// The listen address the backend is given: the configured URL with its
/// `http://` or `https://` scheme stripped, if it carries one.
pub open spec fn spec_strip_scheme(url: Seq<char>) -> Seq<char> {
    if spec_has_prefix(url, "http://"@) {
        url.skip("http://"@.len() as int)
    } else if spec_has_prefix(url, "https://"@) {
        url.skip("https://"@.len() as int)
    } else {
        url
    }
}

/// Strips a leading `http://` or `https://` scheme from a URL.
pub fn strip_url_scheme(url: &str) -> (r: String)
    ensures
        r@ == spec_strip_scheme(url@),
{
    proof {
        reveal_strlit("http://");
        reveal_strlit("https://");
    }
    if str_has_prefix(url, "http://") {
        let r = url.substring_char(7, url.unicode_len()).to_owned();
        proof {
            assert(r@ =~= url@.skip(7));
        }
        r
    } else if str_has_prefix(url, "https://") {
        let r = url.substring_char(8, url.unicode_len()).to_owned();
        proof {
            assert(r@ =~= url@.skip(8));
        }
        r
    } else {
        url.to_owned()
    }
}

/// What the startup wait does next, once a just-launched backend has been
/// probed again.
#[derive(Clone, Copy, PartialEq, Eq, Structural, Debug)]
pub enum StartupPoll {
    Ready,
    GiveUp,
    Retry,
}

/// The startup wait's decision after one health probe: an answering
/// backend means ready; otherwise the wait gives up once the attempt
/// budget is spent, and probes again after a pause until then.
pub open spec fn spec_poll_startup(healthy: bool, attempts: u32, max_attempts: u32) -> StartupPoll {
    if healthy {
        StartupPoll::Ready
    } else if attempts >= max_attempts {
        StartupPoll::GiveUp
    } else {
        StartupPoll::Retry
    }
}

/// Decides one step of the wait for a launched backend to come up.
pub fn poll_startup(healthy: bool, attempts: u32, max_attempts: u32) -> (r: StartupPoll)
    ensures
        r == spec_poll_startup(healthy, attempts, max_attempts),
{
    if healthy {
        StartupPoll::Ready
    } else if attempts >= max_attempts {
        StartupPoll::GiveUp
    } else {
        StartupPoll::Retry
    }
}

/// Why a backend launch cannot proceed: no binary path to start from, or
/// a master key too short for the backend to accept.
#[derive(Clone, Copy, PartialEq, Eq, Structural, Debug)]
pub enum LaunchError {
    EmptyBinPath,
    ShortApiKey,
}

/// Everything the process launcher needs to start the backend: the binary
/// to run, the listen address and master key for its environment, the
/// database path when one is configured, and whether to pass the flag
/// that disables analytics.
pub struct MeiliLaunchPlan {
    pub bin_path: String,
    pub http_addr: String,
    pub master_key: String,
    pub db_path: Option<String>,
    pub no_analytics: bool,
}

/// Decides whether and how a local backend is started. Refused without a
/// binary path, and refused when the master key is shorter than 16 bytes;
/// otherwise the listen address is the URL without its scheme, the
/// database path is passed on only when set, and analytics are disabled
/// exactly when telemetry is off.
pub fn plan_meilisearch_launch(cfg: &MeiliSearchConfig) -> (r: Result<
    MeiliLaunchPlan,
    LaunchError,
>)
    ensures
        cfg.meilisearch_bin_path@.len() == 0 ==> (r matches Err(e) && e
            == LaunchError::EmptyBinPath),
        cfg.meilisearch_bin_path@.len() > 0 && spec_byte_len(cfg.meilisearch_api_key@) < 16 ==> (
        r matches Err(e) && e == LaunchError::ShortApiKey),
        cfg.meilisearch_bin_path@.len() > 0 && spec_byte_len(cfg.meilisearch_api_key@) >= 16
            ==> (r matches Ok(plan) && {
            &&& plan.bin_path@ == cfg.meilisearch_bin_path@
            &&& plan.http_addr@ == spec_strip_scheme(cfg.meilisearch_url@)
            &&& plan.master_key@ == cfg.meilisearch_api_key@
            &&& (plan.db_path is Some <==> cfg.meilisearch_db_path@.len() > 0)
            &&& (plan.db_path matches Some(d) ==> d@ == cfg.meilisearch_db_path@)
            &&& plan.no_analytics == !cfg.meilisearch_telemetry
        }),
{
    if cfg.meilisearch_bin_path.as_str().is_empty() {
        return Err(LaunchError::EmptyBinPath);
    }
    if cfg.meilisearch_api_key.as_str().len() < 16 {
        return Err(LaunchError::ShortApiKey);
    }
    let db_path = if cfg.meilisearch_db_path.as_str().is_empty() {
        None
    } else {
        Some(cfg.meilisearch_db_path.clone())
    };
    Ok(
        MeiliLaunchPlan {
            bin_path: cfg.meilisearch_bin_path.clone(),
            http_addr: strip_url_scheme(cfg.meilisearch_url.as_str()),
            master_key: cfg.meilisearch_api_key.clone(),
            db_path,
            no_analytics: !cfg.meilisearch_telemetry,
        },
    )
}

} // verus!
