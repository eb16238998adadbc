//! A connection to the service: credentials, base URL, and the preparation of
//! each signed request. Sending it is left to the caller, who hands the
//! outcome back to [`response_result`].
use vstd::prelude::*;
use vstd::string::*;
use crate::envelope::{build_envelope, envelope_text};
use crate::error::BlihErr;
use crate::json_text::JsonObject;
use crate::operation::{acl_path, payload_entries, repository_path, HttpMethod, Operation};
use crate::signer::{payload_view, sign, signature_of};

verus! {

/// The service's address when none is configured.
pub const URL: &'static str = "https://blih.epitech.eu";

/// The client's version, sent in the `User-Agent` header.
pub const VERSION: &'static str = "1.7";

/// Whether a text parses as an absolute URL.
pub uninterp spec fn url_parses(s: Seq<char>) -> bool;

/// Relies on `reqwest::Url::parse` (the url crate's parser): whether the text
/// is a well-formed absolute URL.
#[verifier::external_body]
fn url_is_valid(s: &str) -> (r: bool)
    ensures
        r == url_parses(s@),
{
    reqwest::Url::parse(s).is_ok()
}

/// Everything needed to perform one HTTP exchange with the service.
pub struct Request {
    pub method: HttpMethod,
    /// Absolute URL, known to parse.
    pub url: String,
    pub user_agent: String,
    /// The signed envelope, sent with `Content-Type: application/json`.
    pub body: String,
}

/// Credentials and address of the service.
pub struct Blih {
    pub user_agent: String,
    pub url: String,
    pub user: Option<String>,
    pub token: Option<String>,
}

/// The owned copy of an optional text.
pub open spec fn opt_view(s: Option<&str>) -> Option<Seq<char>> {
    match s {
        Some(t) => Some(t@),
        None => None,
    }
}

/// The view of an optional owned string.
pub open spec fn opt_string_view(s: Option<String>) -> Option<Seq<char>> {
    match s {
        Some(t) => Some(t@),
        None => None,
    }
}

fn to_owned_opt(s: Option<&str>) -> (r: Option<String>)
    ensures
        opt_string_view(r) == opt_view(s),
{
    match s {
        Some(t) => Some(t.to_owned()),
        None => None,
    }
}

/// What preparing a request with `method`, `path` and `payload` gives:
/// `NoTokenProvided` without a token, else `NoUserNameProvided` without a
/// user name, else `InvalidUrl` if the base URL followed by the path does not
/// parse, else a request with that method and URL, the client's user agent
/// and, as body, the envelope signed over the payload.
pub open spec fn prepared(
    b: Blih,
    method: HttpMethod,
    path: Seq<char>,
    payload: Option<Seq<(Seq<char>, Seq<char>)>>,
    r: Result<Request, BlihErr>,
) -> bool {
    if b.token.is_none() {
        r == Err::<Request, BlihErr>(BlihErr::NoTokenProvided)
    } else if b.user.is_none() {
        r == Err::<Request, BlihErr>(BlihErr::NoUserNameProvided)
    } else if !url_parses(b.url@ + path) {
        r == Err::<Request, BlihErr>(BlihErr::InvalidUrl)
    } else {
        match r {
            Ok(req) => {
                &&& req.method == method
                &&& req.url@ == b.url@ + path
                &&& req.user_agent == b.user_agent
                &&& req.body@ == envelope_text(
                    b.user.unwrap()@,
                    signature_of(b.token.unwrap()@, b.user.unwrap()@, payload),
                    payload,
                )
            },
            Err(_) => false,
        }
    }
}

/// When signing cannot be done, preparing fails with the signing error and
/// no request exists to be sent.
pub proof fn signing_failure_sends_nothing(
    b: Blih,
    method: HttpMethod,
    path: Seq<char>,
    payload: Option<Seq<(Seq<char>, Seq<char>)>>,
    r: Result<Request, BlihErr>,
)
    requires
        prepared(b, method, path, payload, r),
        b.token.is_none() || b.user.is_none(),
    ensures
        r.is_err(),
        b.token.is_none() ==> r == Err::<Request, BlihErr>(BlihErr::NoTokenProvided),
        b.token.is_some() ==> r == Err::<Request, BlihErr>(BlihErr::NoUserNameProvided),
{
}

/// The text left once leading and trailing newlines are taken off `s`.
pub open spec fn is_trimmed_of(s: Seq<char>, r: Seq<char>) -> bool {
    exists|a: int, b: int|
        0 <= a <= b <= s.len() && r == s.subrange(a, b) && (forall|i: int|
            0 <= i < a ==> s[i] == '\n') && (forall|i: int| b <= i < s.len() ==> s[i] == '\n')
            && (a < b ==> s[a] != '\n' && s[b - 1] != '\n')
}

/// Takes leading and trailing newlines off `s`.
pub fn trim_newlines(s: &str) -> (r: String)
    ensures
        is_trimmed_of(s@, r@),
{
    let n = s.unicode_len();
    let mut a: usize = 0;
    while a < n && s.get_char(a) == '\n'
        invariant
            n == s@.len(),
            a <= n,
            forall|i: int| 0 <= i < a ==> s@[i] == '\n',
        decreases n - a,
    {
        a = a + 1;
    }
    let mut b: usize = n;
    while b > a && s.get_char(b - 1) == '\n'
        invariant
            n == s@.len(),
            a <= b <= n,
            forall|i: int| b <= i < n ==> s@[i] == '\n',
        decreases b,
    {
        b = b - 1;
    }
    let r = s.substring_char(a, b).to_owned();
    assert(a < b ==> s@[a as int] != '\n');
    assert(is_trimmed_of(s@, r@)) by {
        assert(0 <= a as int <= b as int <= s@.len() && r@ == s@.subrange(a as int, b as int));
    }
    r
}

/// The outcome of an exchange: the response body verbatim when one came
/// back, `RequestFailed` when the transport failed.
pub fn response_result(received: Option<String>) -> (r: Result<String, BlihErr>)
    ensures
        received.is_none() ==> r == Err::<String, BlihErr>(BlihErr::RequestFailed),
        received.is_some() ==> r == Ok::<String, BlihErr>(received.unwrap()),
{
    match received {
        Some(body) => Ok(body),
        None => Err(BlihErr::RequestFailed),
    }
}

impl Blih {
    /// A connection for `user` with `token` to `url`, or to [`URL`] when
    /// none is given.
    pub fn new(user: Option<&str>, token: Option<&str>, url: Option<&str>) -> (r: Blih)
        ensures
            opt_string_view(r.user) == opt_view(user),
            opt_string_view(r.token) == opt_view(token),
            url.is_some() ==> r.url@ == url.unwrap()@,
            url.is_none() ==> r.url@ == URL@,
            r.user_agent@ == "blih-"@ + VERSION@,
    {
        let url = match url {
            Some(s) => s.to_owned(),
            None => URL.to_owned(),
        };
        let user_agent = String::from_str("blih-").concat(VERSION);
        Blih { user_agent, url, user: to_owned_opt(user), token: to_owned_opt(token) }
    }

    /// The `User-Agent` header value.
    pub fn get_user_agent(&self) -> (r: &String)
        ensures
            r == self.user_agent,
    {
        &self.user_agent
    }

    /// The user name, if known.
    pub fn get_user(&self) -> (r: &Option<String>)
        ensures
            r == self.user,
    {
        &self.user
    }

    /// The token, if known.
    pub fn get_token(&self) -> (r: &Option<String>)
        ensures
            r == self.token,
    {
        &self.token
    }

    /// Signs `data` with this connection's token and user name.
    pub fn sign_token(&self, data: &Option<JsonObject>) -> (r: Result<String, BlihErr>)
        ensures
            self.token.is_none() ==> r == Err::<String, BlihErr>(BlihErr::NoTokenProvided),
            self.token.is_some() && self.user.is_none() ==> r == Err::<String, BlihErr>(
                BlihErr::NoUserNameProvided,
            ),
            self.token.is_some() && self.user.is_some() ==> r.is_ok() && r.unwrap()@
                == signature_of(self.token.unwrap()@, self.user.unwrap()@, payload_view(*data)),
    {
        sign(&self.token, &self.user, data)
    }

    /// Prepares the signed request for `op`. Fails, before anything is sent,
    /// with `NoTokenProvided` or `NoUserNameProvided` when signing cannot be
    /// done, and with `InvalidUrl` when the URL does not parse.
    pub fn request(&self, op: &Operation) -> (r: Result<Request, BlihErr>)
        ensures
            prepared(*self, op.method, op.path@, payload_entries(op.payload), r),
    {
        let data = op.payload.to_object();
        let signature = match self.sign_token(&data) {
            Ok(s) => s,
            Err(e) => return Err(e),
        };
        let user = match &self.user {
            Some(u) => u,
            None => return Err(BlihErr::NoUserNameProvided),
        };
        let body = build_envelope(user.as_str(), signature.as_str(), &data);
        let url = self.url.clone().concat(op.path.as_str());
        if !url_is_valid(url.as_str()) {
            return Err(BlihErr::InvalidUrl);
        }
        Ok(Request { method: op.method, url, user_agent: self.user_agent.clone(), body })
    }

    /// `GET /whoami`: who the service takes the user for.
    pub fn whoami(&self) -> (r: Result<Request, BlihErr>)
        ensures
            prepared(*self, HttpMethod::Get, "/whoami"@, None, r),
    {
        self.request(&Operation::whoami())
    }

    /// `GET /repositories`: the user's repositories.
    pub fn list_repo(&self) -> (r: Result<Request, BlihErr>)
        ensures
            prepared(*self, HttpMethod::Get, "/repositories"@, None, r),
    {
        self.request(&Operation::list_repositories())
    }

    /// `GET /repository/<name>`: information on a repository.
    pub fn info_repo(&self, name: &str) -> (r: Result<Request, BlihErr>)
        ensures
            prepared(*self, HttpMethod::Get, repository_path(name@), None, r),
    {
        self.request(&Operation::repository_info(name))
    }

    /// `DELETE /repository/<name>`: deletes a repository, without confirmation.
    pub fn delete_repo(&self, name: &str) -> (r: Result<Request, BlihErr>)
        ensures
            prepared(*self, HttpMethod::Delete, repository_path(name@), None, r),
    {
        self.request(&Operation::delete_repository(name))
    }

    /// `POST /repositories` with `{name, type: "git"}`: creates a repository.
    pub fn create_repo(&self, name: &str) -> (r: Result<Request, BlihErr>)
        ensures
            prepared(
                *self,
                HttpMethod::Post,
                "/repositories"@,
                Some(seq![("name"@, name@), ("type"@, "git"@)]),
                r,
            ),
    {
        self.request(&Operation::create_repository(name))
    }

    /// `GET /repository/<name>/acls`: the access rights on a repository.
    pub fn get_acl(&self, name: &str) -> (r: Result<Request, BlihErr>)
        ensures
            prepared(*self, HttpMethod::Get, acl_path(name@), None, r),
    {
        self.request(&Operation::get_acl(name))
    }

    /// `POST /repository/<name>/acls` with `{acl, user}`: grants `acl` to `user`.
    pub fn set_acl(&self, name: &str, user: &str, acl: &str) -> (r: Result<Request, BlihErr>)
        ensures
            prepared(
                *self,
                HttpMethod::Post,
                acl_path(name@),
                Some(seq![("acl"@, acl@), ("user"@, user@)]),
                r,
            ),
    {
        self.request(&Operation::set_acl(name, user, acl))
    }

    /// `GET /sshkeys`: the user's public keys.
    pub fn list_key(&self) -> (r: Result<Request, BlihErr>)
        ensures
            prepared(*self, HttpMethod::Get, "/sshkeys"@, None, r),
    {
        self.request(&Operation::list_ssh_keys())
    }

    /// `POST /sshkey` with `{sshkey}`: uploads a public key.
    pub fn upload_key_str(&self, key: &str) -> (r: Result<Request, BlihErr>)
        ensures
            prepared(*self, HttpMethod::Post, "/sshkey"@, Some(seq![("sshkey"@, key@)]), r),
    {
        self.request(&Operation::upload_ssh_key(key))
    }

    /// Uploads the key held in a file, given the file's contents (`None` when
    /// it could not be read). The contents are stripped of leading and
    /// trailing newlines; an unreadable file, or one left empty, is
    /// `InvalidSshKey`.
    pub fn upload_key_file(&self, contents: Option<&str>) -> (r: Result<Request, BlihErr>)
        ensures
            contents.is_none() ==> r == Err::<Request, BlihErr>(BlihErr::InvalidSshKey),
            contents.is_some() ==> exists|key: Seq<char>|
                is_trimmed_of(contents.unwrap()@, key) && if key.len() == 0 {
                    r == Err::<Request, BlihErr>(BlihErr::InvalidSshKey)
                } else {
                    prepared(*self, HttpMethod::Post, "/sshkey"@, Some(seq![("sshkey"@, key)]), r)
                },
    {
        let text = match contents {
            Some(t) => t,
            None => return Err(BlihErr::InvalidSshKey),
        };
        let key = trim_newlines(text);
        if key.as_str().is_empty() {
            return Err(BlihErr::InvalidSshKey);
        }
        self.upload_key_str(key.as_str())
    }
}

} // verus!
