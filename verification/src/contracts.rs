//! Stable wire contracts: the event envelope and its validation.
use vstd::prelude::*;
use crate::text::{chars_of, is_blank, is_blank_str};

verus! {

broadcast use vstd::string::group_string_axioms;

/// The product name carried by every contract.
pub const PRODUCT: &'static str = "evento-globolo";

#[derive(Clone, Debug, Eq, PartialEq)]
pub struct Actor {
    pub id: String,
    pub tenant_id: String,
}

#[derive(Clone, Debug, Eq, PartialEq)]
pub struct EventEnvelope {
    pub id: String,
    pub kind: String,
    pub occurred_at: String,
    pub actor: Option<Actor>,
}

pub open spec fn is_ascii_lowercase(c: char) -> bool {
    'a' as u32 <= c as u32 <= 'z' as u32
}

pub open spec fn is_ascii_digit(c: char) -> bool {
    '0' as u32 <= c as u32 <= '9' as u32
}

/// The characters an event kind may contain.
pub open spec fn kind_char_allowed(c: char) -> bool {
    c == '.' || is_ascii_lowercase(c) || is_ascii_digit(c) || c == '_' || c == '-'
}

/// An event kind is lowercase and namespaced: it starts with a lowercase
/// letter or a dot, uses only allowed characters, and contains a dot.
pub open spec fn is_valid_kind(s: Seq<char>) -> bool {
    &&& s.len() > 0
    &&& (s[0] == '.' || is_ascii_lowercase(s[0]))
    &&& forall|i: int| 0 <= i < s.len() ==> #[trigger] kind_char_allowed(s[i])
    &&& s.contains('.')
}

/// Appending any run of allowed characters (dots among them) to a valid
/// kind gives a valid kind: there is no limit on the number of segments.
pub proof fn lemma_valid_kind_extends(s: Seq<char>, t: Seq<char>)
    requires
        is_valid_kind(s),
        forall|i: int|
            0 <= i < t.len() ==> (#[trigger] t[i] == '.' || is_ascii_lowercase(t[i])
                || is_ascii_digit(t[i]) || t[i] == '_' || t[i] == '-'),
    ensures
        is_valid_kind(s + t),
{
    let u = s + t;
    let j = choose|j: int| 0 <= j < s.len() && s[j] == '.';
    assert(u[j] == '.');
    assert forall|i: int| 0 <= i < u.len() implies #[trigger] kind_char_allowed(u[i]) by {
        if i >= s.len() {
            assert(u[i] == t[i - s.len()]);
        } else {
            assert(kind_char_allowed(s[i]));
        }
    }
}

/// A namespace and a name joined by a dot, where the namespace starts with a
/// lowercase letter or a dot and both use only allowed characters, is a valid
/// kind, whatever dots either part holds (`case.note.created`).
pub proof fn lemma_namespaced_kind_is_valid(namespace: Seq<char>, name: Seq<char>)
    requires
        namespace.len() > 0,
        namespace[0] == '.' || is_ascii_lowercase(namespace[0]),
        forall|i: int|
            0 <= i < namespace.len() ==> (#[trigger] namespace[i] == '.' || is_ascii_lowercase(
                namespace[i],
            ) || is_ascii_digit(namespace[i]) || namespace[i] == '_' || namespace[i] == '-'),
        forall|i: int|
            0 <= i < name.len() ==> (#[trigger] name[i] == '.' || is_ascii_lowercase(name[i])
                || is_ascii_digit(name[i]) || name[i] == '_' || name[i] == '-'),
    ensures
        is_valid_kind(namespace + seq!['.'] + name),
{
    let u = namespace + seq!['.'] + name;
    let n = namespace.len() as int;
    assert(u[n] == '.');
    assert(u[0] == namespace[0]);
    assert forall|i: int| 0 <= i < u.len() implies #[trigger] kind_char_allowed(u[i]) by {
        if i < n {
            assert(u[i] == namespace[i]);
        } else if i > n {
            assert(u[i] == name[i - n - 1]);
        }
    }
}

/// A valid kind is non-empty, starts with a lowercase letter or a dot, uses
/// only allowed characters and holds a dot.
pub proof fn lemma_valid_kind_is_namespaced(s: Seq<char>)
    requires
        is_valid_kind(s),
    ensures
        s.len() > 0,
        s[0] == '.' || is_ascii_lowercase(s[0]),
        exists|i: int| 0 <= i < s.len() && #[trigger] s[i] == '.',
        forall|i: int|
            0 <= i < s.len() ==> (#[trigger] s[i] == '.' || is_ascii_lowercase(s[i])
                || is_ascii_digit(s[i]) || s[i] == '_' || s[i] == '-'),
{
    assert forall|i: int| 0 <= i < s.len() implies (#[trigger] s[i] == '.' || is_ascii_lowercase(s[i])
        || is_ascii_digit(s[i]) || s[i] == '_' || s[i] == '-') by {
        assert(kind_char_allowed(s[i]));
    }
}

fn allowed(ch: char) -> (b: bool)
    ensures
        b == kind_char_allowed(ch),
{
    ch == '.' || ('a' <= ch && ch <= 'z') || ('0' <= ch && ch <= '9') || ch == '_' || ch == '-'
}

fn allowed_first(ch: char) -> (b: bool)
    ensures
        b == is_ascii_lowercase(ch),
{
    'a' <= ch && ch <= 'z'
}

/// Whether `value` is a lowercase, namespaced event kind.
pub fn valid_kind(value: &str) -> (b: bool)
    ensures
        b == is_valid_kind(value@),
{
    let v = chars_of(value);
    let n = v.len();
    if n == 0 {
        return false;
    }
    let first = v[0];
    assert(first == value@[0]);
    if !(first == '.' || allowed_first(first)) {
        return false;
    }
    let mut has_dot = false;
    let mut i: usize = 0;
    while i < n
        invariant
            n == v@.len(),
            v@ == value@,
            i <= n,
            forall|j: int| 0 <= j < i ==> #[trigger] kind_char_allowed(v@[j]),
            has_dot <==> exists|j: int| 0 <= j < i && #[trigger] v@[j] == '.',
        decreases n - i,
    {
        if !allowed(v[i]) {
            return false;
        }
        if v[i] == '.' {
            has_dot = true;
        }
        i = i + 1;
    }
    proof {
        if has_dot {
            let j = choose|j: int| 0 <= j < n && #[trigger] v@[j] == '.';
            assert(value@[j] == '.');
        }
    }
    has_dot
}

/// What `EventEnvelope::validate` answers for an envelope.
pub open spec fn envelope_verdict(e: EventEnvelope) -> Result<(), Seq<char>> {
    if is_blank(e.id@) {
        Err("event id is required"@)
    } else if !is_valid_kind(e.kind@) {
        Err("event kind must be lowercase and namespaced"@)
    } else if is_blank(e.occurred_at@) {
        Err("occurred_at is required"@)
    } else {
        Ok(())
    }
}

impl EventEnvelope {
    /// Checks that the id and timestamp are present and the kind is namespaced.
    pub fn validate(&self) -> (r: Result<(), &'static str>)
        ensures
            r is Ok <==> envelope_verdict(*self) is Ok,
            r matches Err(m) ==> envelope_verdict(*self) == Err::<(), Seq<char>>(m@),
    {
        if is_blank_str(self.id.as_str()) {
            return Err("event id is required");
        }
        if !valid_kind(self.kind.as_str()) {
            return Err("event kind must be lowercase and namespaced");
        }
        if is_blank_str(self.occurred_at.as_str()) {
            return Err("occurred_at is required");
        }
        Ok(())
    }
}

} // verus!
