//! Connection settings of one link, built from its flat list of parameters.
use vstd::prelude::*;

verus! {

/// The backend address used when none is given or the given one is not a URL.
pub const DEFAULT_VAULT_ADDR: &'static str = "http://127.0.0.1:8200";

/// Whether the url crate accepts a text as an absolute URL.
pub uninterp spec fn url_parses(s: Seq<char>) -> bool;

/// The text with leading and trailing Unicode white space removed.
pub uninterp spec fn trimmed(s: Seq<char>) -> Seq<char>;

#[verifier::external_type_specification]
#[verifier::external_body]
pub struct ExUrl(url::Url);

/// Relies on url::Url::parse: succeeds exactly on the texts that it accepts.
#[verifier::external_body]
pub(crate) fn parse_url(s: &str) -> (r: Option<url::Url>)
    ensures
        r is Some <==> url_parses(s@),
{
    url::Url::parse(s).ok()
}

/// Relies on str::trim: leading and trailing white space removed.
#[verifier::external_body]
fn trim_text(s: &str) -> (r: String)
    ensures
        r@ == trimmed(s@),
{
    s.trim().to_string()
}

/// The value of the last parameter named `key`, as a map collected from the
/// list keeps it.
pub open spec fn last_value(values: Seq<(String, String)>, key: Seq<char>) -> Option<Seq<char>>
    decreases values.len(),
{
    if values.len() == 0 {
        None
    } else if values.last().0@ == key {
        Some(values.last().1@)
    } else {
        last_value(values.drop_last(), key)
    }
}

/// A setting looked up under its name, then under its upper-case alias.
pub open spec fn setting(values: Seq<(String, String)>, key: Seq<char>, alias: Seq<char>) -> Option<
    Seq<char>,
> {
    match last_value(values, key) {
        Some(v) => Some(v),
        None => last_value(values, alias),
    }
}

/// The pieces of a text between its commas (one piece when there is none).
pub open spec fn split_commas(s: Seq<char>) -> Seq<Seq<char>>
    decreases s.len(),
{
    if s.len() == 0 {
        seq![Seq::<char>::empty()]
    } else {
        let init = split_commas(s.drop_last());
        if s.last() == ',' {
            init.push(Seq::<char>::empty())
        } else {
            init.update(init.len() - 1, init.last().push(s.last()))
        }
    }
}

pub open spec fn spec_token(values: Seq<(String, String)>) -> Option<Seq<char>> {
    setting(values, "token"@, "TOKEN"@)
}

/// The backend address: the one given if it is a URL, else the default.
pub open spec fn spec_addr(values: Seq<(String, String)>) -> Seq<char> {
    let given = match setting(values, "addr"@, "ADDR"@) {
        Some(a) => a,
        None => DEFAULT_VAULT_ADDR@,
    };
    if url_parses(given) {
        given
    } else {
        DEFAULT_VAULT_ADDR@
    }
}

pub open spec fn spec_mount(values: Seq<(String, String)>) -> Seq<char> {
    match setting(values, "mount"@, "MOUNT"@) {
        Some(m) => m,
        None => "secret"@,
    }
}

/// The certificate paths: the comma-separated list, each piece trimmed.
pub open spec fn spec_certs(values: Seq<(String, String)>) -> Seq<Seq<char>> {
    match setting(values, "certs"@, "CERTS"@) {
        Some(c) => split_commas(c).map_values(|p: Seq<char>| trimmed(p)),
        None => Seq::empty(),
    }
}

/// The settings of one backend connection.
#[derive(Clone, Debug)]
pub struct Config {
    /// Token for connecting to the secret engine. Required.
    pub token: String,
    /// Address of the secret engine.
    pub addr: String,
    /// Mount point of the key/value engine.
    pub mount: String,
    /// Paths of CA certificate files; setting any enables TLS.
    pub certs: Vec<String>,
}

/// Why the settings of a link were refused.
#[derive(Clone, Copy, Debug, PartialEq, Eq)]
pub enum ConfigError {
    /// Neither `token` nor `TOKEN` was given.
    MissingToken,
}

impl ConfigError {
    pub fn message(&self) -> (r: String)
        ensures
            r@ == "missing setting for 'token' or VAULT_TOKEN"@,
    {
        "missing setting for 'token' or VAULT_TOKEN".to_owned()
    }
}

/// The model of a config built from `values`.
pub open spec fn config_of(values: Seq<(String, String)>, c: Config) -> bool {
    &&& spec_token(values) == Some(c.token@)
    &&& c.addr@ == spec_addr(values)
    &&& c.mount@ == spec_mount(values)
    &&& c.certs@.map_values(|s: String| s@) == spec_certs(values)
}

/// The value of the last parameter named `key`.
fn find_value(values: &[(String, String)], key: &String) -> (r: Option<String>)
    ensures
        r matches Some(v) ==> last_value(values@, key@) == Some(v@),
        r is None ==> last_value(values@, key@) is None,
{
    let mut found: Option<String> = None;
    let mut i: usize = 0;
    while i < values.len()
        invariant
            i <= values@.len(),
            found matches Some(v) ==> last_value(values@.take(i as int), key@) == Some(v@),
            found is None ==> last_value(values@.take(i as int), key@) is None,
        decreases values@.len() - i,
    {
        proof {
            assert(values@.take(i as int + 1).drop_last() =~= values@.take(i as int));
        }
        if values[i].0 == *key {
            found = Some(values[i].1.clone());
        }
        i = i + 1;
    }
    proof {
        assert(values@.take(values@.len() as int) =~= values@);
    }
    found
}

/// A setting under its name, else under its alias.
fn find_setting(values: &[(String, String)], key: &str, alias: &str) -> (r: Option<String>)
    ensures
        r matches Some(v) ==> setting(values@, key@, alias@) == Some(v@),
        r is None ==> setting(values@, key@, alias@) is None,
{
    match find_value(values, &key.to_owned()) {
        Some(v) => Some(v),
        None => find_value(values, &alias.to_owned()),
    }
}

/// Splits a text at its commas and trims each piece.
fn split_and_trim(s: &str) -> (r: Vec<String>)
    ensures
        r@.map_values(|p: String| p@) == split_commas(s@).map_values(|p: Seq<char>| trimmed(p)),
{
    let n = s.unicode_len();
    let mut out: Vec<String> = Vec::new();
    let ghost mut pieces: Seq<Seq<char>> = Seq::empty();
    let mut start: usize = 0;
    let mut i: usize = 0;
    proof {
        assert(s@.take(0) =~= Seq::<char>::empty());
        assert(pieces.push(s@.subrange(0, 0)) =~= seq![Seq::<char>::empty()]);
    }
    while i < n
        invariant
            n == s@.len(),
            start <= i <= n,
            split_commas(s@.take(i as int)) == pieces.push(s@.subrange(start as int, i as int)),
            out@.len() == pieces.len(),
            forall|j: int| 0 <= j < pieces.len() ==> #[trigger] out@[j]@ == trimmed(pieces[j]),
        decreases n - i,
    {
        let c = s.get_char(i);
        proof {
            assert(s@.take(i as int + 1).drop_last() =~= s@.take(i as int));
        }
        if c == ',' {
            let piece = s.substring_char(start, i);
            let t = trim_text(piece);
            proof {
                pieces = pieces.push(s@.subrange(start as int, i as int));
            }
            out.push(t);
            start = i + 1;
            proof {
                assert(s@.subrange(start as int, i as int + 1) =~= Seq::<char>::empty());
            }
        } else {
            proof {
                assert(s@.subrange(start as int, i as int + 1) =~= s@.subrange(
                    start as int,
                    i as int,
                ).push(c));
            }
        }
        i = i + 1;
    }
    let last = s.substring_char(start, n);
    let t = trim_text(last);
    out.push(t);
    proof {
        assert(s@.take(n as int) =~= s@);
        let done = pieces.push(s@.subrange(start as int, n as int));
        assert(out@.map_values(|p: String| p@) =~= done.map_values(|p: Seq<char>| trimmed(p)));
    }
    out
}

impl Config {
    /// Builds the settings of a link from its parameters. Each setting is
    /// taken under its name, else its upper-case alias, else a default:
    /// `addr` (`http://127.0.0.1:8200`, also when the given one is not a
    /// URL), `mount` (`secret`), `certs` (a comma-separated list, none by
    /// default). `token` has no default: without it the build fails.
    pub fn from_values(values: &[(String, String)]) -> (r: Result<Config, ConfigError>)
        ensures
            spec_token(values@) is None ==> r == Err::<Config, ConfigError>(
                ConfigError::MissingToken,
            ),
            spec_token(values@) is Some ==> (r matches Ok(c) && config_of(values@, c)),
    {
        let given = match find_setting(values, "addr", "ADDR") {
            Some(a) => a,
            None => DEFAULT_VAULT_ADDR.to_owned(),
        };
        let addr = if parse_url(given.as_str()).is_some() {
            given
        } else {
            DEFAULT_VAULT_ADDR.to_owned()
        };
        let token = match find_setting(values, "token", "TOKEN") {
            Some(t) => t,
            None => {
                return Err(ConfigError::MissingToken);
            },
        };
        let mount = match find_setting(values, "mount", "MOUNT") {
            Some(m) => m,
            None => "secret".to_owned(),
        };
        let certs = match find_setting(values, "certs", "CERTS") {
            Some(c) => split_and_trim(c.as_str()),
            None => Vec::new(),
        };
        proof {
            if setting(values@, "certs"@, "CERTS"@) is None {
                assert(certs@.map_values(|s: String| s@) =~= Seq::<Seq<char>>::empty());
            }
        }
        Ok(Config { token, addr, mount, certs })
    }
}

} // verus!
