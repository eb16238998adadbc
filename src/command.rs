//! The command line's subcommands, each turned into one prepared request.
use vstd::prelude::*;
use vstd::string::*;
use crate::client::{prepared, Blih, Request};
use crate::error::BlihErr;
use crate::operation::{acl_path, repository_path, HttpMethod};

verus! {

/// `repository <sub>`: `list`, `info`, `delete`, `create`, `getacl` or
/// `setacl`, with the arguments that each one takes. `None` for any other
/// word.
pub fn repo_sub_cmd(auth: &Blih, sub: &str, name: &str, user: &str, acl: &str) -> (r: Option<
    Result<Request, BlihErr>,
>)
    ensures
        sub@ == "list"@ ==> r.is_some() && prepared(
            *auth,
            HttpMethod::Get,
            "/repositories"@,
            None,
            r.unwrap(),
        ),
        sub@ == "info"@ ==> r.is_some() && prepared(
            *auth,
            HttpMethod::Get,
            repository_path(name@),
            None,
            r.unwrap(),
        ),
        sub@ == "delete"@ ==> r.is_some() && prepared(
            *auth,
            HttpMethod::Delete,
            repository_path(name@),
            None,
            r.unwrap(),
        ),
        sub@ == "create"@ ==> r.is_some() && prepared(
            *auth,
            HttpMethod::Post,
            "/repositories"@,
            Some(seq![("name"@, name@), ("type"@, "git"@)]),
            r.unwrap(),
        ),
        sub@ == "getacl"@ ==> r.is_some() && prepared(
            *auth,
            HttpMethod::Get,
            acl_path(name@),
            None,
            r.unwrap(),
        ),
        sub@ == "setacl"@ ==> r.is_some() && prepared(
            *auth,
            HttpMethod::Post,
            acl_path(name@),
            Some(seq![("acl"@, acl@), ("user"@, user@)]),
            r.unwrap(),
        ),
        !(sub@ == "list"@ || sub@ == "info"@ || sub@ == "delete"@ || sub@ == "create"@ || sub@
            == "getacl"@ || sub@ == "setacl"@) ==> r.is_none(),
{
    proof {
        reveal_strlit("list");
        reveal_strlit("info");
        reveal_strlit("delete");
        reveal_strlit("create");
        reveal_strlit("getacl");
        reveal_strlit("setacl");
        assert("list"@[0] == 'l');
        assert("info"@[0] == 'i');
        assert("delete"@[0] == 'd');
        assert("create"@[0] == 'c');
        assert("getacl"@[0] == 'g');
        assert("setacl"@[0] == 's');
    }
    let word = sub.to_owned();
    if word == String::from_str("list") {
        Some(auth.list_repo())
    } else if word == String::from_str("info") {
        Some(auth.info_repo(name))
    } else if word == String::from_str("delete") {
        Some(auth.delete_repo(name))
    } else if word == String::from_str("create") {
        Some(auth.create_repo(name))
    } else if word == String::from_str("getacl") {
        Some(auth.get_acl(name))
    } else if word == String::from_str("setacl") {
        Some(auth.set_acl(name, user, acl))
    } else {
        None
    }
}

/// `sshkey <sub>`: `list`, or `upload` with the key file's contents (`None`
/// when it could not be read). `None` for any other word.
pub fn sshkey_sub_cmd(auth: &Blih, sub: &str, key_file: Option<&str>) -> (r: Option<
    Result<Request, BlihErr>,
>)
    ensures
        sub@ == "list"@ ==> r.is_some() && prepared(
            *auth,
            HttpMethod::Get,
            "/sshkeys"@,
            None,
            r.unwrap(),
        ),
        sub@ == "upload"@ && key_file.is_none() ==> r == Some(
            Err::<Request, BlihErr>(BlihErr::InvalidSshKey),
        ),
        sub@ == "upload"@ && key_file.is_some() ==> r.is_some() && exists|key: Seq<char>|
            crate::client::is_trimmed_of(key_file.unwrap()@, key) && if key.len() == 0 {
                r.unwrap() == Err::<Request, BlihErr>(BlihErr::InvalidSshKey)
            } else {
                prepared(*auth, HttpMethod::Post, "/sshkey"@, Some(seq![("sshkey"@, key)]), r.unwrap())
            },
        !(sub@ == "list"@ || sub@ == "upload"@) ==> r.is_none(),
{
    proof {
        reveal_strlit("list");
        reveal_strlit("upload");
        assert("list"@[0] == 'l');
        assert("upload"@[0] == 'u');
    }
    let word = sub.to_owned();
    if word == String::from_str("list") {
        Some(auth.list_key())
    } else if word == String::from_str("upload") {
        Some(auth.upload_key_file(key_file))
    } else {
        None
    }
}

} // verus!
