//! The catalogue of operations: each one is an HTTP method, a path and an
//! optional payload.
use vstd::prelude::*;
use vstd::string::*;
use crate::json_text::JsonObject;

verus! {

/// The HTTP methods that the service uses.
#[derive(Debug, PartialEq, Eq, Structural, Clone, Copy)]
pub enum HttpMethod {
    Get,
    Post,
    Delete,
}

/// The body that an operation carries, if any.
pub enum OperationPayload {
    Empty,
    /// A new repository: `{name, type: "git"}`.
    NameOnly { name: String },
    /// An access right: `{acl, user}`.
    Acl { acl: String, user: String },
    /// A public key: `{sshkey}`.
    SshKey { key: String },
}

/// The payload's members, in the order in which they are written.
pub open spec fn payload_entries(p: OperationPayload) -> Option<Seq<(Seq<char>, Seq<char>)>> {
    match p {
        OperationPayload::Empty => None,
        OperationPayload::NameOnly { name } => Some(seq![("name"@, name@), ("type"@, "git"@)]),
        OperationPayload::Acl { acl, user } => Some(seq![("acl"@, acl@), ("user"@, user@)]),
        OperationPayload::SshKey { key } => Some(seq![("sshkey"@, key@)]),
    }
}

impl OperationPayload {
    /// The payload as a JSON object, or `None` for an operation without body.
    pub fn to_object(&self) -> (r: Option<JsonObject>)
        ensures
            crate::signer::payload_view(r) == payload_entries(*self),
    {
        proof {
            reveal_strlit("name");
            reveal_strlit("type");
            reveal_strlit("acl");
            reveal_strlit("user");
        }
        match self {
            OperationPayload::Empty => None,
            OperationPayload::NameOnly { name } => {
                let mut o = JsonObject::new();
                o.insert("name", name.as_str());
                assert("type"@[0] != "name"@[0]);
                o.insert("type", "git");
                assert(o@ =~= seq![("name"@, name@), ("type"@, "git"@)]);
                Some(o)
            },
            OperationPayload::Acl { acl, user } => {
                let mut o = JsonObject::new();
                o.insert("acl", acl.as_str());
                assert("user"@[0] != "acl"@[0]);
                o.insert("user", user.as_str());
                assert(o@ =~= seq![("acl"@, acl@), ("user"@, user@)]);
                Some(o)
            },
            OperationPayload::SshKey { key } => {
                let mut o = JsonObject::new();
                o.insert("sshkey", key.as_str());
                assert(o@ =~= seq![("sshkey"@, key@)]);
                Some(o)
            },
        }
    }
}

/// One request to the service.
pub struct Operation {
    pub path: String,
    pub method: HttpMethod,
    pub payload: OperationPayload,
}

/// `/repository/<name>`.
pub open spec fn repository_path(name: Seq<char>) -> Seq<char> {
    "/repository/"@ + name
}

/// `/repository/<name>/acls`.
pub open spec fn acl_path(name: Seq<char>) -> Seq<char> {
    "/repository/"@ + name + "/acls"@
}

impl Operation {
    /// `GET /whoami`.
    pub fn whoami() -> (r: Operation)
        ensures
            r.path@ == "/whoami"@,
            r.method == HttpMethod::Get,
            r.payload == OperationPayload::Empty,
    {
        Operation { path: String::from_str("/whoami"), method: HttpMethod::Get, payload: OperationPayload::Empty }
    }

    /// `GET /repositories`.
    pub fn list_repositories() -> (r: Operation)
        ensures
            r.path@ == "/repositories"@,
            r.method == HttpMethod::Get,
            r.payload == OperationPayload::Empty,
    {
        Operation {
            path: String::from_str("/repositories"),
            method: HttpMethod::Get,
            payload: OperationPayload::Empty,
        }
    }

    /// `GET /repository/<name>`.
    pub fn repository_info(name: &str) -> (r: Operation)
        ensures
            r.path@ == repository_path(name@),
            r.method == HttpMethod::Get,
            r.payload == OperationPayload::Empty,
    {
        let path = String::from_str("/repository/").concat(name);
        Operation { path, method: HttpMethod::Get, payload: OperationPayload::Empty }
    }

    /// `DELETE /repository/<name>`.
    pub fn delete_repository(name: &str) -> (r: Operation)
        ensures
            r.path@ == repository_path(name@),
            r.method == HttpMethod::Delete,
            r.payload == OperationPayload::Empty,
    {
        let path = String::from_str("/repository/").concat(name);
        Operation { path, method: HttpMethod::Delete, payload: OperationPayload::Empty }
    }

    /// `POST /repositories` with `{name, type: "git"}`.
    pub fn create_repository(name: &str) -> (r: Operation)
        ensures
            r.path@ == "/repositories"@,
            r.method == HttpMethod::Post,
            payload_entries(r.payload) == Some(seq![("name"@, name@), ("type"@, "git"@)]),
    {
        Operation {
            path: String::from_str("/repositories"),
            method: HttpMethod::Post,
            payload: OperationPayload::NameOnly { name: name.to_owned() },
        }
    }

    /// `GET /repository/<name>/acls`.
    pub fn get_acl(name: &str) -> (r: Operation)
        ensures
            r.path@ == acl_path(name@),
            r.method == HttpMethod::Get,
            r.payload == OperationPayload::Empty,
    {
        let path = String::from_str("/repository/").concat(name).concat("/acls");
        Operation { path, method: HttpMethod::Get, payload: OperationPayload::Empty }
    }

    /// `POST /repository/<name>/acls` with `{acl, user}`.
    pub fn set_acl(name: &str, user: &str, acl: &str) -> (r: Operation)
        ensures
            r.path@ == acl_path(name@),
            r.method == HttpMethod::Post,
            payload_entries(r.payload) == Some(seq![("acl"@, acl@), ("user"@, user@)]),
    {
        let path = String::from_str("/repository/").concat(name).concat("/acls");
        Operation {
            path,
            method: HttpMethod::Post,
            payload: OperationPayload::Acl { acl: acl.to_owned(), user: user.to_owned() },
        }
    }

    /// `GET /sshkeys`.
    pub fn list_ssh_keys() -> (r: Operation)
        ensures
            r.path@ == "/sshkeys"@,
            r.method == HttpMethod::Get,
            r.payload == OperationPayload::Empty,
    {
        Operation { path: String::from_str("/sshkeys"), method: HttpMethod::Get, payload: OperationPayload::Empty }
    }

    /// `POST /sshkey` with `{sshkey}`.
    pub fn upload_ssh_key(key: &str) -> (r: Operation)
        ensures
            r.path@ == "/sshkey"@,
            r.method == HttpMethod::Post,
            payload_entries(r.payload) == Some(seq![("sshkey"@, key@)]),
    {
        Operation {
            path: String::from_str("/sshkey"),
            method: HttpMethod::Post,
            payload: OperationPayload::SshKey { key: key.to_owned() },
        }
    }
}

} // verus!
