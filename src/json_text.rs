//! JSON text for flat objects of string values, laid out the way the service
//! expects it: one member per line, indented by a fixed number of spaces per level.
use vstd::prelude::*;
use vstd::string::*;

verus! {

/// The JSON string literal (quotes and escapes included) that the json crate
/// writes for a string.
pub uninterp spec fn json_quote(s: Seq<char>) -> Seq<char>;

/// Relies on json::stringify applied to a `&str`: the value becomes a JSON
/// string and is written with the crate's escaping rules.
#[verifier::external_body]
pub(crate) fn quote(s: &str) -> (r: String)
    ensures
        r@ == json_quote(s@),
{
    json::stringify(s)
}

/// `n` spaces.
pub open spec fn indent(n: nat) -> Seq<char> {
    Seq::new(n, |i: int| ' ')
}

/// One member of an object: a new line, the indentation of `level`, the quoted
/// key, a colon and a space, then the member's value already written as JSON.
pub open spec fn member_text(key: Seq<char>, value: Seq<char>, spaces: nat, level: nat) -> Seq<char> {
    seq!['\n'] + indent(spaces * level) + json_quote(key) + seq![':', ' '] + value
}

/// The members of an object, separated by commas.
pub open spec fn members_text(
    members: Seq<(Seq<char>, Seq<char>)>,
    spaces: nat,
    level: nat,
) -> Seq<char>
    decreases members.len(),
{
    if members.len() == 0 {
        seq![]
    } else if members.len() == 1 {
        member_text(members[0].0, members[0].1, spaces, level)
    } else {
        members_text(members.drop_last(), spaces, level) + seq![','] + member_text(
            members.last().0,
            members.last().1,
            spaces,
            level,
        )
    }
}

/// An object whose opening brace stands at nesting depth `depth`: `{}` when it
/// has no member, else its members one level deeper and the closing brace on
/// a line of its own.
pub open spec fn object_text(
    members: Seq<(Seq<char>, Seq<char>)>,
    spaces: nat,
    depth: nat,
) -> Seq<char> {
    if members.len() == 0 {
        seq!['{', '}']
    } else {
        seq!['{'] + members_text(members, spaces, depth + 1) + seq!['\n'] + indent(spaces * depth)
            + seq!['}']
    }
}

/// The (key, value) pairs of owned strings, seen as character sequences.
pub open spec fn pairs_view(v: Seq<(String, String)>) -> Seq<(Seq<char>, Seq<char>)> {
    Seq::new(v.len(), |i: int| (v[i].0@, v[i].1@))
}

/// Each value replaced by its JSON string literal.
pub open spec fn quoted_values(es: Seq<(Seq<char>, Seq<char>)>) -> Seq<(Seq<char>, Seq<char>)> {
    Seq::new(es.len(), |i: int| (es[i].0, json_quote(es[i].1)))
}

/// A flat object of string values, written at depth `depth`.
pub open spec fn flat_object_text(es: Seq<(Seq<char>, Seq<char>)>, spaces: nat, depth: nat) -> Seq<
    char,
> {
    object_text(quoted_values(es), spaces, depth)
}

/// No two entries share a key.
pub open spec fn keys_unique(es: Seq<(Seq<char>, Seq<char>)>) -> bool {
    forall|i: int, j: int| 0 <= i < j < es.len() ==> es[i].0 != es[j].0
}

/// Whether some entry has key `k`.
pub open spec fn has_key(es: Seq<(Seq<char>, Seq<char>)>, k: Seq<char>) -> bool {
    exists|i: int| 0 <= i < es.len() && es[i].0 == k
}

fn push_indent(out: &mut String, n: u64)
    ensures
        final(out)@ == old(out)@ + indent(n as nat),
{
    proof {
        reveal_strlit(" ");
    }
    assert(" "@ =~= seq![' ']);
    assert(old(out)@ + indent(0) =~= old(out)@);
    let mut k: u64 = 0;
    while k < n
        invariant
            k <= n,
            " "@ == seq![' '],
            out@ == old(out)@ + indent(k as nat),
        decreases n - k,
    {
        out.append(" ");
        k = k + 1;
        assert(out@ =~= old(out)@ + indent(k as nat));
    }
}

/// Writes an object whose values are already JSON text.
pub(crate) fn write_object(members: &Vec<(String, String)>, spaces: u16, depth: u16) -> (r: String)
    requires
        depth < u16::MAX,
    ensures
        r@ == object_text(pairs_view(members@), spaces as nat, depth as nat),
{
    proof {
        reveal_strlit("{}");
        reveal_strlit("{");
        reveal_strlit("}");
        reveal_strlit(",");
        reveal_strlit("\n");
        reveal_strlit(": ");
    }
    let ghost ms = pairs_view(members@);
    if members.len() == 0 {
        let r = String::from_str("{}");
        assert(r@ =~= seq!['{', '}']);
        return r;
    }
    assert("{}"@ =~= seq!['{', '}']);
    assert("{"@ =~= seq!['{']);
    assert("}"@ =~= seq!['}']);
    assert(","@ =~= seq![',']);
    assert("\n"@ =~= seq!['\n']);
    assert(": "@ =~= seq![':', ' ']);
    let level: u16 = depth + 1;
    assert((spaces as u64) * (level as u64) <= 0xffff * 0xffff) by (nonlinear_arith)
        requires
            spaces <= 0xffff,
            level <= 0xffff,
    ;
    assert((spaces as u64) * (depth as u64) <= 0xffff * 0xffff) by (nonlinear_arith)
        requires
            spaces <= 0xffff,
            depth <= 0xffff,
    ;
    let inner: u64 = (spaces as u64) * (level as u64);
    let outer: u64 = (spaces as u64) * (depth as u64);
    assert(inner == spaces as nat * level as nat);
    assert(outer == spaces as nat * depth as nat);
    let mut out = String::from_str("{");
    let mut i: usize = 0;
    while i < members.len()
        invariant
            0 <= i <= members.len(),
            ms == pairs_view(members@),
            inner == spaces as nat * level as nat,
            level == depth + 1,
            ","@ == seq![','],
            "\n"@ == seq!['\n'],
            ": "@ == seq![':', ' '],
            out@ == seq!['{'] + members_text(ms.take(i as int), spaces as nat, level as nat),
        decreases members.len() - i,
    {
        let ghost before = out@;
        if i > 0 {
            out.append(",");
        }
        let ghost sep = out@;
        out.append("\n");
        push_indent(&mut out, inner);
        let key = quote(members[i].0.as_str());
        out.append(key.as_str());
        out.append(": ");
        out.append(members[i].1.as_str());
        proof {
            let t = ms.take(i as int + 1);
            let m = ms[i as int];
            assert(m == (members@[i as int].0@, members@[i as int].1@));
            assert(out@ =~= sep + member_text(m.0, m.1, spaces as nat, level as nat));
            assert(t.drop_last() =~= ms.take(i as int));
            assert(t.last() == m);
            if i == 0 {
                assert(t.len() == 1);
                assert(t[0] == m);
                assert(ms.take(0) =~= Seq::<(Seq<char>, Seq<char>)>::empty());
                assert(sep =~= seq!['{']);
            } else {
                assert(sep == before + seq![',']);
            }
            assert(out@ =~= seq!['{'] + members_text(t, spaces as nat, level as nat));
        }
        i = i + 1;
    }
    assert(ms.take(members.len() as int) =~= ms);
    out.append("\n");
    push_indent(&mut out, outer);
    out.append("}");
    assert(out@ =~= object_text(ms, spaces as nat, depth as nat));
    out
}

/// An ordered JSON object whose values are strings. Members keep the order in
/// which their keys were first inserted, and no key appears twice.
pub struct JsonObject {
    entries: Vec<(String, String)>,
}

impl View for JsonObject {
    type V = Seq<(Seq<char>, Seq<char>)>;

    closed spec fn view(&self) -> Seq<(Seq<char>, Seq<char>)> {
        pairs_view(self.entries@)
    }
}

impl JsonObject {
    /// The empty object.
    pub fn new() -> (r: JsonObject)
        ensures
            r@ == Seq::<(Seq<char>, Seq<char>)>::empty(),
    {
        let r = JsonObject { entries: Vec::new() };
        assert(pairs_view(r.entries@) =~= Seq::<(Seq<char>, Seq<char>)>::empty());
        r
    }

    /// Number of members.
    pub fn len(&self) -> (r: usize)
        ensures
            r == self@.len(),
    {
        self.entries.len()
    }

    /// Sets the member `key` to `value`: in place when the key is present,
    /// otherwise as a new last member. Keys stay unique.
    pub fn insert(&mut self, key: &str, value: &str)
        ensures
            keys_unique(old(self)@) ==> keys_unique(final(self)@),
            has_key(old(self)@, key@) ==> exists|i: int|
                0 <= i < old(self)@.len() && old(self)@[i].0 == key@ && (forall|j: int|
                    0 <= j < i ==> old(self)@[j].0 != key@) && final(self)@ == old(self)@.update(
                    i,
                    (key@, value@),
                ),
            !has_key(old(self)@, key@) ==> final(self)@ == old(self)@.push((key@, value@)),
    {
        let ghost es = self@;
        let k = key.to_owned();
        let v = value.to_owned();
        let mut i: usize = 0;
        while i < self.entries.len()
            invariant
                0 <= i <= self.entries.len(),
                es == pairs_view(self.entries@),
                es == old(self)@,
                k@ == key@,
                v@ == value@,
                forall|j: int| 0 <= j < i ==> es[j].0 != key@,
            decreases self.entries.len() - i,
        {
            if self.entries[i].0 == k {
                let ghost at = i as int;
                self.entries.set(i, (k, v));
                proof {
                    assert(pairs_view(self.entries@) =~= es.update(at, (key@, value@)));
                    assert(es[at].0 == key@);
                }
                return;
            }
            i = i + 1;
        }
        self.entries.push((k, v));
        proof {
            assert(pairs_view(self.entries@) =~= es.push((key@, value@)));
            assert(!has_key(es, key@));
        }
    }

    /// The object written at depth `depth` with `spaces` spaces per level.
    pub(crate) fn pretty_at(&self, spaces: u16, depth: u16) -> (r: String)
        requires
            depth < u16::MAX,
        ensures
            r@ == flat_object_text(self@, spaces as nat, depth as nat),
    {
        let ghost es = self@;
        let mut members: Vec<(String, String)> = Vec::new();
        let mut i: usize = 0;
        while i < self.entries.len()
            invariant
                0 <= i <= self.entries.len(),
                es == pairs_view(self.entries@),
                pairs_view(members@) == quoted_values(es).take(i as int),
            decreases self.entries.len() - i,
        {
            let q = quote(self.entries[i].1.as_str());
            let k = self.entries[i].0.clone();
            let ghost prev = members@;
            members.push((k, q));
            proof {
                assert(es[i as int] == (self.entries@[i as int].0@, self.entries@[i as int].1@));
                assert(members@ == prev.push((k, q)));
                assert(pairs_view(members@) =~= pairs_view(prev).push((k@, q@)));
                assert(quoted_values(es).take(i as int + 1) =~= quoted_values(es).take(
                    i as int,
                ).push((es[i as int].0, json_quote(es[i as int].1))));
            }
            i = i + 1;
        }
        assert(quoted_values(es).take(i as int) =~= quoted_values(es));
        write_object(&members, spaces, depth)
    }

    /// The object as pretty JSON text with `spaces` spaces per level: `{}`
    /// when empty, else one member per line and the closing brace alone on
    /// the last line.
    pub fn pretty(&self, spaces: u16) -> (r: String)
        ensures
            r@ == flat_object_text(self@, spaces as nat, 0),
    {
        self.pretty_at(spaces, 0)
    }
}

} // verus!
