use blih_rs::envelope::build_envelope;
use blih_rs::JsonObject;

#[test]
fn empty_object_is_braces() {
    assert_eq!(JsonObject::new().pretty(4), "{}");
}

#[test]
fn object_one_member_per_line() {
    let mut o = JsonObject::new();
    o.insert("name", "myrepo");
    o.insert("type", "git");
    assert_eq!(o.pretty(4), "{\n    \"name\": \"myrepo\",\n    \"type\": \"git\"\n}");
    assert_eq!(o.pretty(2), "{\n  \"name\": \"myrepo\",\n  \"type\": \"git\"\n}");
}

#[test]
fn insert_replaces_existing_key() {
    let mut o = JsonObject::new();
    o.insert("a", "1");
    o.insert("b", "2");
    o.insert("a", "3");
    assert_eq!(o.len(), 2);
    assert_eq!(o.pretty(4), "{\n    \"a\": \"3\",\n    \"b\": \"2\"\n}");
}

#[test]
fn values_are_escaped() {
    let mut o = JsonObject::new();
    o.insert("k", "a\"b\\c\n");
    assert_eq!(o.pretty(4), "{\n    \"k\": \"a\\\"b\\\\c\\n\"\n}");
}

#[test]
fn envelope_without_data() {
    let e = build_envelope("alice", "00ff", &None);
    assert_eq!(e, "{\n    \"user\": \"alice\",\n    \"signature\": \"00ff\"\n}");
}

#[test]
fn envelope_with_data() {
    let mut o = JsonObject::new();
    o.insert("sshkey", "ssh-ed25519 AAAA");
    let e = build_envelope("alice", "00ff", &Some(o));
    assert_eq!(
        e,
        "{\n    \"user\": \"alice\",\n    \"signature\": \"00ff\",\n    \"data\": {\n        \"sshkey\": \"ssh-ed25519 AAAA\"\n    }\n}"
    );
}

#[test]
fn envelope_round_trip() {
    let plain = json::parse(&build_envelope("alice", "abc", &None)).unwrap();
    assert_eq!(plain.len(), 2);
    assert_eq!(plain["user"], "alice");
    assert_eq!(plain["signature"], "abc");
    assert!(!plain.has_key("data"));

    let mut o = JsonObject::new();
    o.insert("acl", "rw");
    o.insert("user", "bob");
    let full = json::parse(&build_envelope("alice", "abc", &Some(o))).unwrap();
    assert_eq!(full.len(), 3);
    assert_eq!(full["user"], "alice");
    assert_eq!(full["signature"], "abc");
    assert_eq!(full["data"].len(), 2);
    assert_eq!(full["data"]["acl"], "rw");
    assert_eq!(full["data"]["user"], "bob");
}

#[test]
fn empty_data_is_kept() {
    let e = build_envelope("u", "s", &Some(JsonObject::new()));
    assert_eq!(e, "{\n    \"user\": \"u\",\n    \"signature\": \"s\",\n    \"data\": {}\n}");
    let parsed = json::parse(&e).unwrap();
    assert!(parsed.has_key("data"));
}

#[test]
fn layout_agrees_with_json_pretty() {
    let mut o = JsonObject::new();
    o.insert("name", "my \"repo\"");
    o.insert("type", "git");
    let mut v = json::JsonValue::new_object();
    v.insert("name", "my \"repo\"").unwrap();
    v.insert("type", "git").unwrap();
    assert_eq!(o.pretty(4), v.pretty(4));

    let mut data = json::JsonValue::new_object();
    data.insert("sshkey", "ssh-rsa A").unwrap();
    let mut env = json::JsonValue::new_object();
    env.insert("user", "alice").unwrap();
    env.insert("signature", "ab").unwrap();
    env.insert("data", data).unwrap();
    let mut key = JsonObject::new();
    key.insert("sshkey", "ssh-rsa A");
    assert_eq!(build_envelope("alice", "ab", &Some(key)), env.pretty(4));
    assert_eq!(JsonObject::new().pretty(4), json::JsonValue::new_object().pretty(4));
}
