//! Environment handling for spawned shells.
//!
//! The proxy-related variables of the parent process are captured once at
//! startup into an ordered list of (name, original value or absence) pairs and
//! re-applied verbatim to every child, so every session sees the same proxy
//! environment no matter how the parent's environment changes later. Reading
//! and clearing the real environment is input/output and stays outside this
//! crate; given the values, the pairing and the child environment built from
//! it are verified here.

use vstd::prelude::*;
use crate::strutil::spec_dec;
use crate::strutil::u64_to_dec;

verus! {

/// One child-environment instruction: set the variable to the value, or unset
/// it when the value is absent.
pub type EnvEntry = (String, Option<String>);

/// The spec-level value of one entry.
pub open spec fn spec_env_entry(e: EnvEntry) -> (Seq<char>, Option<Seq<char>>) {
    (
        e.0@,
        match e.1 {
            Some(v) => Some(v@),
            None => None,
        },
    )
}

/// The spec-level value of an entry list.
pub open spec fn spec_env_entries(s: Seq<EnvEntry>) -> Seq<(Seq<char>, Option<Seq<char>>)> {
    s.map_values(|e: EnvEntry| spec_env_entry(e))
}

/// Mapping a list of entries to its spec-level value distributes over
/// appending one entry.
proof fn lemma_env_entries_push(s: Seq<EnvEntry>, x: EnvEntry)
    ensures
        spec_env_entries(s.push(x)) == spec_env_entries(s).push(spec_env_entry(x)),
{
    assert(spec_env_entries(s.push(x)) =~= spec_env_entries(s).push(spec_env_entry(x)));
}

/// The proxy-related variable names that are captured at startup and stripped
/// from the parent before any shell is spawned, in capture order.
pub open spec fn spec_proxy_keys() -> Seq<Seq<char>> {
    seq![
        "HTTP_PROXY"@,
        "http_proxy"@,
        "HTTPS_PROXY"@,
        "https_proxy"@,
        "NO_PROXY"@,
        "no_proxy"@,
        "ALL_PROXY"@,
        "all_proxy"@,
    ]
}

/// The proxy-related variable names, for the caller to look up and clear in
/// the real environment.
pub fn proxy_env_keys() -> (r: Vec<&'static str>)
    ensures
        r@.len() == 8,
        forall|i: int| 0 <= i < 8 ==> r@[i]@ == spec_proxy_keys()[i],
{
    let mut v: Vec<&'static str> = Vec::new();
    v.push("HTTP_PROXY");
    v.push("http_proxy");
    v.push("HTTPS_PROXY");
    v.push("https_proxy");
    v.push("NO_PROXY");
    v.push("no_proxy");
    v.push("ALL_PROXY");
    v.push("all_proxy");
    proof {
        assert forall|i: int| 0 <= i < 8 implies v@[i]@ == spec_proxy_keys()[i] by {
            if i == 0 {
            } else if i == 1 {
            } else if i == 2 {
            } else if i == 3 {
            } else if i == 4 {
            } else if i == 5 {
            } else if i == 6 {
            } else {
                assert(i == 7);
            }
        }
    }
    v
}

pub(crate) fn clone_opt_string(o: &Option<String>) -> (r: Option<String>)
    ensures
        r == *o,
{
    match o {
        None => None,
        Some(s) => Some(s.clone()),
    }
}

/// Pairs the proxy variable names with the values the caller captured from
/// the environment, in order: the preserved-environment snapshot reused for
/// every spawned child.
pub fn build_preserved_envs(values: &Vec<Option<String>>) -> (r: Vec<EnvEntry>)
    requires
        values@.len() == 8,
    ensures
        r@.len() == 8,
        forall|i: int| 0 <= i < 8 ==> #[trigger] r@[i].0@ == spec_proxy_keys()[i],
        forall|i: int| 0 <= i < 8 ==> #[trigger] r@[i].1 == values@[i],
{
    let keys = proxy_env_keys();
    let mut r: Vec<EnvEntry> = Vec::new();
    let mut i: usize = 0;
    while i < 8
        invariant
            values@.len() == 8,
            keys@.len() == 8,
            forall|k: int| 0 <= k < 8 ==> keys@[k]@ == spec_proxy_keys()[k],
            i <= 8,
            r@.len() == i,
            forall|k: int| 0 <= k < i ==> #[trigger] r@[k].0@ == spec_proxy_keys()[k],
            forall|k: int| 0 <= k < i ==> #[trigger] r@[k].1 == values@[k],
        decreases 8 - i,
    {
        let v = clone_opt_string(&values[i]);
        r.push((keys[i].to_owned(), v));
        i = i + 1;
    }
    r
}

/// The proxy URL derived from the host operating system's proxy settings:
/// `http://<host>:<port>`.
pub open spec fn spec_proxy_url(host: Seq<char>, port: int) -> Seq<char> {
    "http://"@ + host + ":"@ + spec_dec(port)
}

/// Renders the proxy URL for a host and port.
pub fn proxy_url(host: &str, port: u64) -> (r: String)
    ensures
        r@ == spec_proxy_url(host@, port as int),
{
    let mut r: String = "http://".to_owned();
    r.append(host);
    r.append(":");
    let digits = u64_to_dec(port);
    r.append(digits.as_str());
    assert(r@ =~= spec_proxy_url(host@, port as int));
    r
}

/// Decides whether a proxy variable is to be set from the host system's proxy
/// settings: only when the settings mark the proxy enabled with the exact
/// flag value 1 and give both a host and a port; the value is then
/// `http://<host>:<port>`.
pub fn derive_proxy_env(enable: Option<u64>, host: Option<&str>, port: Option<u64>) -> (r: Option<
    String,
>)
    ensures
        (r is Some) <==> (enable == Some(1u64) && host is Some && port is Some),
        r matches Some(u) ==> u@ == spec_proxy_url(host.unwrap()@, port.unwrap() as int),
{
    match (enable, host, port) {
        (Some(e), Some(h), Some(p)) => {
            if e == 1 {
                Some(proxy_url(h, p))
            } else {
                None
            }
        },
        _ => None,
    }
}

/// The user's own shell rc-file directory: the `ZDOTDIR` the user had set, or
/// the home directory, or `~` when neither is known.
pub fn user_zdot_dir(env_value: Option<String>, home_dir: Option<String>) -> (r: String)
    ensures
        env_value matches Some(v) ==> r@ == v@,
        (env_value is None && home_dir is Some) ==> r@ == home_dir.unwrap()@,
        env_value is None && home_dir is None ==> r@ == "~"@,
{
    match env_value {
        Some(v) => v,
        None => match home_dir {
            Some(h) => h,
            None => "~".to_owned(),
        },
    }
}

/// The working directory a session starts in: the caller-supplied path, or
/// the user's home directory when none was given.
pub fn working_dir_of(path: Option<String>, home_dir: String) -> (r: String)
    ensures
        path matches Some(p) ==> r@ == p@,
        path is None ==> r@ == home_dir@,
{
    match path {
        Some(p) => p,
        None => home_dir,
    }
}

/// The fixed part of every spawned shell's environment: the terminal
/// identification, version, terminal type, locale, and the two
/// shell-integration variables pointing the shell at the first-party rc
/// directory while keeping the user's own rc directory reachable.
pub open spec fn spec_fixed_env(version: Seq<char>, shell_dir: Seq<char>, user_shell_dir: Seq<
    char,
>) -> Seq<(Seq<char>, Option<Seq<char>>)> {
    seq![
        ("TERM_PROGRAM"@, Some("Terminal_One.app"@)),
        ("TERM_PROGRAM_VERSION"@, Some(version)),
        ("TERM"@, Some("xterm-256color"@)),
        ("LANG"@, Some("en_US.UTF-8"@)),
        ("ZDOTDIR"@, Some(shell_dir)),
        ("USER_ZDOTDIR"@, Some(user_shell_dir)),
    ]
}

/// Builds the full child environment: the fixed entries followed by the
/// preserved proxy snapshot, in order.
pub fn build_command_env(version: &str, shell_dir: &str, user_shell_dir: &str, preserved: &Vec<
    EnvEntry,
>) -> (r: Vec<EnvEntry>)
    ensures
        spec_env_entries(r@) == spec_fixed_env(version@, shell_dir@, user_shell_dir@)
            + spec_env_entries(preserved@),
{
    let mut r: Vec<EnvEntry> = Vec::new();
    r.push(("TERM_PROGRAM".to_owned(), Some("Terminal_One.app".to_owned())));
    r.push(("TERM_PROGRAM_VERSION".to_owned(), Some(version.to_owned())));
    r.push(("TERM".to_owned(), Some("xterm-256color".to_owned())));
    r.push(("LANG".to_owned(), Some("en_US.UTF-8".to_owned())));
    r.push(("ZDOTDIR".to_owned(), Some(shell_dir.to_owned())));
    r.push(("USER_ZDOTDIR".to_owned(), Some(user_shell_dir.to_owned())));
    assert(spec_env_entries(r@) =~= spec_fixed_env(version@, shell_dir@, user_shell_dir@));
    let n: usize = preserved.len();
    let mut i: usize = 0;
    while i < n
        invariant
            n == preserved@.len(),
            i <= n,
            spec_env_entries(r@) =~= spec_fixed_env(version@, shell_dir@, user_shell_dir@)
                + spec_env_entries(preserved@.subrange(0, i as int)),
        decreases n - i,
    {
        let ghost prev = r@;
        let ghost fixed = spec_fixed_env(version@, shell_dir@, user_shell_dir@);
        let e = &preserved[i];
        let key = e.0.clone();
        let v = clone_opt_string(&e.1);
        r.push((key, v));
        proof {
            let x = r@.last();
            let pi = preserved@[i as int];
            assert(x.0 == pi.0 && x.1 == pi.1);
            assert(spec_env_entry(x) == spec_env_entry(pi));
            lemma_env_entries_push(prev, x);
            lemma_env_entries_push(preserved@.subrange(0, i as int), pi);
            assert(preserved@.subrange(0, i + 1 as int) =~= preserved@.subrange(0, i as int).push(
                pi,
            ));
            assert((fixed + spec_env_entries(preserved@.subrange(0, i as int))).push(
                spec_env_entry(pi),
            ) =~= fixed + spec_env_entries(preserved@.subrange(0, i as int)).push(
                spec_env_entry(pi),
            ));
            assert(spec_env_entries(r@) =~= fixed + spec_env_entries(
                preserved@.subrange(0, i + 1 as int),
            ));
        }
        i = i + 1;
    }
    assert(preserved@.subrange(0, n as int) =~= preserved@);
    r
}

} // verus!
