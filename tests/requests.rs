use blih_rs::client::trim_newlines;
use blih_rs::{repo_sub_cmd, response_result, sshkey_sub_cmd, Blih, BlihErr, HttpMethod, Operation, OperationPayload, Request, URL};

const ALICE_DEADBEEF: &str = "e4e149dad9e42151c9b1507afd84c0f488b2e2f0bf811fc341064c70a68b4de4cecf934b27e47de819d39fdf36926e97aaa9502c5bcdabfc115be92b14f52b71";

fn alice(url: &str) -> Blih {
    Blih::new(Some("alice"), Some("deadbeef"), Some(url))
}

/// A transport that records how often it was asked to send.
struct FakeTransport {
    calls: usize,
    reply: Option<String>,
}

impl FakeTransport {
    fn send(&mut self, _req: &Request) -> Option<String> {
        self.calls += 1;
        self.reply.clone()
    }
}

fn dispatch(prepared: Result<Request, BlihErr>, t: &mut FakeTransport) -> Result<String, BlihErr> {
    let req = prepared?;
    response_result(t.send(&req))
}

#[test]
fn new_defaults() {
    let b = Blih::new(None, None, None);
    assert_eq!(b.url, URL);
    assert_eq!(b.url, "https://blih.epitech.eu");
    assert_eq!(b.get_user_agent(), "blih-1.7");
    assert_eq!(b.get_user(), &None);
    assert_eq!(b.get_token(), &None);
    let c = alice("http://x");
    assert_eq!(c.get_user(), &Some("alice".to_string()));
    assert_eq!(c.get_token(), &Some("deadbeef".to_string()));
    assert_eq!(c.url, "http://x");
}

#[test]
fn whoami_request() {
    let r = alice("https://example.com").whoami().unwrap();
    assert_eq!(r.method, HttpMethod::Get);
    assert_eq!(r.url, "https://example.com/whoami");
    assert_eq!(r.user_agent, "blih-1.7");
    assert_eq!(
        r.body,
        format!("{{\n    \"user\": \"alice\",\n    \"signature\": \"{}\"\n}}", ALICE_DEADBEEF)
    );
}

#[test]
fn create_repository_request() {
    let b = alice("https://example.com");
    let r = b.create_repo("myrepo").unwrap();
    assert_eq!(r.method, HttpMethod::Post);
    assert_eq!(r.url, "https://example.com/repositories");
    let body = json::parse(&r.body).unwrap();
    assert_eq!(body["data"]["name"], "myrepo");
    assert_eq!(body["data"]["type"], "git");
    assert_eq!(body["data"].len(), 2);
    let op = Operation::create_repository("myrepo");
    let payload = op.payload.to_object().unwrap();
    assert_eq!(payload.pretty(4), "{\n    \"name\": \"myrepo\",\n    \"type\": \"git\"\n}");
    assert_eq!(body["signature"], b.sign_token(&Some(payload)).unwrap().as_str());
}

#[test]
fn catalogue_paths_and_methods() {
    let b = alice("https://h");
    let cases: Vec<(Result<Request, BlihErr>, HttpMethod, &str)> = vec![
        (b.list_repo(), HttpMethod::Get, "https://h/repositories"),
        (b.info_repo("r"), HttpMethod::Get, "https://h/repository/r"),
        (b.delete_repo("r"), HttpMethod::Delete, "https://h/repository/r"),
        (b.get_acl("r"), HttpMethod::Get, "https://h/repository/r/acls"),
        (b.set_acl("r", "bob", "rw"), HttpMethod::Post, "https://h/repository/r/acls"),
        (b.list_key(), HttpMethod::Get, "https://h/sshkeys"),
        (b.upload_key_str("ssh-rsa AAA"), HttpMethod::Post, "https://h/sshkey"),
    ];
    for (r, m, u) in cases {
        let r = r.unwrap();
        assert_eq!(r.method, m);
        assert_eq!(r.url, u);
    }
    let acl = json::parse(&b.set_acl("r", "bob", "rw").unwrap().body).unwrap();
    assert_eq!(acl["data"]["acl"], "rw");
    assert_eq!(acl["data"]["user"], "bob");
    let key = json::parse(&b.upload_key_str("ssh-rsa AAA").unwrap().body).unwrap();
    assert_eq!(key["data"]["sshkey"], "ssh-rsa AAA");
    let info = json::parse(&b.info_repo("r").unwrap().body).unwrap();
    assert!(!info.has_key("data"));
}

#[test]
fn operations_without_body() {
    assert!(matches!(Operation::whoami().payload, OperationPayload::Empty));
    assert!(Operation::list_ssh_keys().payload.to_object().is_none());
    assert_eq!(Operation::get_acl("x").path, "/repository/x/acls");
}

#[test]
fn invalid_port_is_invalid_url() {
    let b = alice("https://example.invalid:not-a-port");
    assert_eq!(b.whoami().err(), Some(BlihErr::InvalidUrl));
    let mut t = FakeTransport { calls: 0, reply: Some("{}".to_string()) };
    assert_eq!(dispatch(b.whoami(), &mut t), Err(BlihErr::InvalidUrl));
    assert_eq!(t.calls, 0);
}

#[test]
fn signing_failure_sends_nothing() {
    let mut t = FakeTransport { calls: 0, reply: Some("{}".to_string()) };
    let no_token = Blih::new(Some("alice"), None, Some("https://h"));
    assert_eq!(dispatch(no_token.create_repo("x"), &mut t), Err(BlihErr::NoTokenProvided));
    let no_user = Blih::new(None, Some("t"), Some("https://h"));
    assert_eq!(dispatch(no_user.whoami(), &mut t), Err(BlihErr::NoUserNameProvided));
    assert_eq!(t.calls, 0);
}

#[test]
fn transport_failure_is_request_failed() {
    let mut t = FakeTransport { calls: 0, reply: None };
    let r = dispatch(alice("https://h").whoami(), &mut t);
    assert_eq!(r, Err(BlihErr::RequestFailed));
    assert_eq!(t.calls, 1);
    assert_eq!(response_result(None), Err(BlihErr::RequestFailed));
}

#[test]
fn response_body_is_verbatim() {
    let mut t = FakeTransport { calls: 0, reply: Some("{\"message\": \"ok\"}".to_string()) };
    assert_eq!(dispatch(alice("https://h").list_repo(), &mut t), Ok("{\"message\": \"ok\"}".to_string()));
    assert_eq!(response_result(Some("not json".to_string())), Ok("not json".to_string()));
}

#[test]
fn trims_newlines_only_at_ends() {
    assert_eq!(trim_newlines("\n\nssh-rsa A\nB\n\n"), "ssh-rsa A\nB");
    assert_eq!(trim_newlines("\n\n"), "");
    assert_eq!(trim_newlines(""), "");
    assert_eq!(trim_newlines(" x "), " x ");
}

#[test]
fn upload_key_file_contents() {
    let b = alice("https://h");
    assert_eq!(b.upload_key_file(None).err(), Some(BlihErr::InvalidSshKey));
    assert_eq!(b.upload_key_file(Some("\n\n")).err(), Some(BlihErr::InvalidSshKey));
    let r = b.upload_key_file(Some("ssh-ed25519 AAAA me\n")).unwrap();
    let body = json::parse(&r.body).unwrap();
    assert_eq!(body["data"]["sshkey"], "ssh-ed25519 AAAA me");
    assert_eq!(r.url, "https://h/sshkey");
}

#[test]
fn repository_subcommands() {
    let b = alice("https://h");
    let list = repo_sub_cmd(&b, "list", "", "", "").unwrap().unwrap();
    assert_eq!(list.url, "https://h/repositories");
    assert_eq!(list.method, HttpMethod::Get);
    let del = repo_sub_cmd(&b, "delete", "r", "", "").unwrap().unwrap();
    assert_eq!(del.method, HttpMethod::Delete);
    assert_eq!(del.url, "https://h/repository/r");
    let set = repo_sub_cmd(&b, "setacl", "r", "bob", "rw").unwrap().unwrap();
    assert_eq!(set.body, b.set_acl("r", "bob", "rw").unwrap().body);
    let create = repo_sub_cmd(&b, "create", "myrepo", "", "").unwrap().unwrap();
    assert_eq!(create.method, HttpMethod::Post);
    assert!(repo_sub_cmd(&b, "rename", "r", "", "").is_none());
}

#[test]
fn sshkey_subcommands() {
    let b = alice("https://h");
    assert_eq!(sshkey_sub_cmd(&b, "list", None).unwrap().unwrap().url, "https://h/sshkeys");
    assert_eq!(sshkey_sub_cmd(&b, "upload", None).unwrap().err(), Some(BlihErr::InvalidSshKey));
    let up = sshkey_sub_cmd(&b, "upload", Some("ssh-rsa K\n")).unwrap().unwrap();
    assert_eq!(up.body, b.upload_key_str("ssh-rsa K").unwrap().body);
    assert!(sshkey_sub_cmd(&b, "remove", None).is_none());
}
