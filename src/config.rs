//! Saved settings, and the order in which the sources of each credential are
//! consulted.
use vstd::prelude::*;
use vstd::string::*;
use crate::client::{opt_string_view, Blih, URL, VERSION};
use crate::json_text::{has_key, JsonObject};

verus! {

#[verifier::external_type_specification]
#[verifier::external_body]
pub struct ExJsonValue(json::JsonValue);

#[verifier::external_type_specification]
#[verifier::external_body]
pub struct ExJsonError(json::Error);

/// Whether a text is valid JSON.
pub uninterp spec fn json_parses(s: Seq<char>) -> bool;

/// Relies on `json::parse`: succeeds exactly on valid JSON text.
#[verifier::external_body]
fn parse_json(s: &str) -> (r: Result<json::JsonValue, json::Error>)
    ensures
        r.is_ok() == json_parses(s@),
{
    json::parse(s)
}

/// Relies on `JsonValue`'s `IndexMut<&str>` and `JsonValue::take_string`: the
/// member `key` moved out when it is a string, `None` otherwise.
#[verifier::external_body]
fn take_member_string(v: &mut json::JsonValue, key: &str) -> (r: Option<String>) {
    v[key].take_string()
}

/// Settings kept between runs, and the file that holds them.
pub struct Config {
    pub user: Option<String>,
    pub token: Option<String>,
    pub baseurl: Option<String>,
    pub file: String,
    pub changed: bool,
}

/// One value for each credential, from a single source (the command line,
/// the environment).
pub struct Credentials {
    pub user: Option<String>,
    pub token: Option<String>,
    pub baseurl: Option<String>,
}

/// The first value present, in the order given.
pub open spec fn first_of(
    a: Option<Seq<char>>,
    b: Option<Seq<char>>,
    c: Option<Seq<char>>,
) -> Option<Seq<char>> {
    if a.is_some() {
        a
    } else if b.is_some() {
        b
    } else {
        c
    }
}

/// The members that a configuration is saved as: `user`, `token` and
/// `baseurl`, each only when set, in that order.
pub open spec fn config_entries(
    user: Option<Seq<char>>,
    token: Option<Seq<char>>,
    baseurl: Option<Seq<char>>,
) -> Seq<(Seq<char>, Seq<char>)> {
    let a = match user {
        Some(u) => seq![("user"@, u)],
        None => seq![],
    };
    let b = match token {
        Some(t) => a.push(("token"@, t)),
        None => a,
    };
    match baseurl {
        Some(u) => b.push(("baseurl"@, u)),
        None => b,
    }
}

/// The configuration file under a base directory: `<base>/.config/blih`.
pub open spec fn config_file_under(base: Seq<char>) -> Seq<char> {
    base + "/.config/blih"@
}

fn pick(first: &Option<String>, second: &Option<String>, third: &Option<String>) -> (r: Option<String>)
    ensures
        opt_string_view(r) == first_of(
            opt_string_view(*first),
            opt_string_view(*second),
            opt_string_view(*third),
        ),
{
    match first {
        Some(s) => Some(s.clone()),
        None => match second {
            Some(s) => Some(s.clone()),
            None => match third {
                Some(s) => Some(s.clone()),
                None => None,
            },
        },
    }
}

fn as_str_opt(s: &Option<String>) -> (r: Option<&str>)
    ensures
        crate::client::opt_view(r) == opt_string_view(*s),
{
    match s {
        Some(t) => Some(t.as_str()),
        None => None,
    }
}

/// The configuration file: under the directory named by the environment if
/// set, else the one given on the command line, else the home directory,
/// else the current directory.
pub fn config_path(env_path: Option<&str>, arg: Option<&str>, home: Option<&str>) -> (r: String)
    ensures
        r@ == config_file_under(
            match (env_path, arg, home) {
                (Some(e), _, _) => e@,
                (None, Some(a), _) => a@,
                (None, None, Some(h)) => h@,
                (None, None, None) => "."@,
            },
        ),
{
    let base = match env_path {
        Some(e) => e,
        None => match arg {
            Some(a) => a,
            None => match home {
                Some(h) => h,
                None => ".",
            },
        },
    };
    base.to_owned().concat("/.config/blih")
}

impl Config {
    /// A configuration with nothing set, kept in `path` (an empty path when
    /// none is given).
    pub fn new_empty(path: Option<String>) -> (r: Config)
        ensures
            r.user.is_none(),
            r.token.is_none(),
            r.baseurl.is_none(),
            !r.changed,
            path.is_some() ==> r.file == path.unwrap(),
            path.is_none() ==> r.file@ == Seq::<char>::empty(),
    {
        let file = match path {
            Some(p) => p,
            None => String::new(),
        };
        Config { user: None, token: None, baseurl: None, file, changed: false }
    }

    /// The configuration saved as JSON text in `content`: the string members
    /// `user`, `token` and `baseurl`. Text that is not JSON gives an empty
    /// configuration.
    pub fn new_json(content: &str, file: String) -> (r: Config)
        ensures
            r.file == file,
            !r.changed,
            !json_parses(content@) ==> r.user.is_none() && r.token.is_none() && r.baseurl.is_none(),
    {
        let mut parsed = match parse_json(content) {
            Ok(v) => v,
            Err(_) => return Config::new_empty(Some(file)),
        };
        let user = take_member_string(&mut parsed, "user");
        let token = take_member_string(&mut parsed, "token");
        let baseurl = take_member_string(&mut parsed, "baseurl");
        Config { user, token, baseurl, file, changed: false }
    }

    /// The configuration read from a file's `content`: empty when the file
    /// is, else parsed as JSON.
    pub fn from_content(content: &str, file: String) -> (r: Config)
        ensures
            r.file == file,
            !r.changed,
            (content@.len() == 0 || !json_parses(content@)) ==> r.user.is_none() && r.token.is_none()
                && r.baseurl.is_none(),
    {
        if content.is_empty() {
            Config::new_empty(Some(file))
        } else {
            Config::new_json(content, file)
        }
    }

    /// The members to save.
    pub fn dump(&self) -> (r: JsonObject)
        ensures
            r@ == config_entries(
                opt_string_view(self.user),
                opt_string_view(self.token),
                opt_string_view(self.baseurl),
            ),
    {
        proof {
            reveal_strlit("user");
            reveal_strlit("token");
            reveal_strlit("baseurl");
        }
        let mut content = JsonObject::new();
        let ghost e0 = content@;
        match &self.user {
            Some(u) => {
                content.insert("user", u.as_str());
            },
            None => {},
        }
        let ghost e1 = content@;
        assert(!has_key(e1, "token"@)) by {
            if e1.len() > 0 {
                assert(e1[0].0 == "user"@);
                assert("user"@[0] != "token"@[0]);
            }
        }
        match &self.token {
            Some(t) => {
                content.insert("token", t.as_str());
            },
            None => {},
        }
        let ghost e2 = content@;
        assert(!has_key(e2, "baseurl"@)) by {
            assert forall|i: int| 0 <= i < e2.len() implies e2[i].0 != "baseurl"@ by {
                assert(e2[i].0 == "user"@ || e2[i].0 == "token"@);
                assert("baseurl"@.len() != "user"@.len());
                assert("baseurl"@.len() != "token"@.len());
            }
        }
        match &self.baseurl {
            Some(b) => {
                content.insert("baseurl", b.as_str());
            },
            None => {},
        }
        assert(content@ =~= config_entries(
            opt_string_view(self.user),
            opt_string_view(self.token),
            opt_string_view(self.baseurl),
        ));
        content
    }
}

/// Settles each credential from the command line, then the environment, then
/// the saved configuration, records the outcome in `config`, and opens the
/// connection with it.
pub fn blih_from_config(args: &Credentials, env: &Credentials, config: &mut Config) -> (r: Blih)
    ensures
        opt_string_view(final(config).user) == first_of(
            opt_string_view(args.user),
            opt_string_view(env.user),
            opt_string_view(old(config).user),
        ),
        opt_string_view(final(config).token) == first_of(
            opt_string_view(args.token),
            opt_string_view(env.token),
            opt_string_view(old(config).token),
        ),
        opt_string_view(final(config).baseurl) == first_of(
            opt_string_view(args.baseurl),
            opt_string_view(env.baseurl),
            opt_string_view(old(config).baseurl),
        ),
        final(config).file == old(config).file,
        final(config).changed == old(config).changed,
        opt_string_view(r.user) == opt_string_view(final(config).user),
        opt_string_view(r.token) == opt_string_view(final(config).token),
        final(config).baseurl.is_some() ==> r.url@ == final(config).baseurl.unwrap()@,
        final(config).baseurl.is_none() ==> r.url@ == URL@,
        r.user_agent@ == "blih-"@ + VERSION@,
{
    let user = pick(&args.user, &env.user, &config.user);
    let token = pick(&args.token, &env.token, &config.token);
    let baseurl = pick(&args.baseurl, &env.baseurl, &config.baseurl);
    config.user = user;
    config.token = token;
    config.baseurl = baseurl;
    Blih::new(as_str_opt(&config.user), as_str_opt(&config.token), as_str_opt(&config.baseurl))
}

} // verus!
