//! The order in which the device and session lists are shown: devices by name, then id;
//! sessions by display name, then application id, then session id. Strings compare as
//! `String`'s own order does (by code point, a prefix first), and equal keys keep the
//! order the OS reported them in.

use vstd::prelude::*;

use crate::audio_graph::SessionIdentity;
use crate::models::AudioEndpoint;
use crate::text::{chars_of, str_eq};

verus! {

// ---------------------------------------------------------------------------------------
// Specification
// ---------------------------------------------------------------------------------------

/// Lexicographic order of strings by code point; a prefix comes first.
pub open spec fn text_le(a: Seq<char>, b: Seq<char>) -> bool
    decreases a.len(),
{
    if a.len() == 0 {
        true
    } else if b.len() == 0 {
        false
    } else if a[0] != b[0] {
        a[0] < b[0]
    } else {
        text_le(a.drop_first(), b.drop_first())
    }
}

/// Lexicographic order of keys made of several strings, compared field by field.
pub open spec fn key_le(a: Seq<Seq<char>>, b: Seq<Seq<char>>) -> bool
    decreases a.len(),
{
    if a.len() == 0 {
        true
    } else if b.len() == 0 {
        false
    } else if a[0] != b[0] {
        text_le(a[0], b[0])
    } else {
        key_le(a.drop_first(), b.drop_first())
    }
}

/// The key a device is listed by: its name, then its id.
pub open spec fn endpoint_key(e: AudioEndpoint) -> Seq<Seq<char>> {
    seq![e.name@, e.id@]
}

/// The key a session is listed by: its display name, then its application id, then its id.
pub open spec fn session_key(s: SessionIdentity) -> Seq<Seq<char>> {
    seq![s.display_name@, s.app_id@, s.id@]
}

/// `order` lists every index of `keys` exactly once, ordered by key, and indices with
/// equal keys keep their relative order (a stable sort).
pub open spec fn is_stable_order(keys: Seq<Seq<Seq<char>>>, order: Seq<usize>) -> bool {
    &&& order.len() == keys.len()
    &&& forall|k: int| 0 <= k < order.len() ==> #[trigger] order[k] < keys.len()
    &&& forall|a: int, b: int|
        0 <= a < b < order.len() ==> #[trigger] order[a] != #[trigger] order[b]
    &&& forall|a: int, b: int|
        0 <= a < b < order.len() ==> key_le(
            keys[#[trigger] order[a] as int],
            keys[#[trigger] order[b] as int],
        )
    &&& forall|a: int, b: int|
        0 <= a < b < order.len() && keys[#[trigger] order[a] as int] == keys[#[trigger] order[b] as int] ==> order[a] < order[b]
}

// ---------------------------------------------------------------------------------------
// Order lemmas
// ---------------------------------------------------------------------------------------

proof fn lemma_text_reflexive(a: Seq<char>)
    ensures
        text_le(a, a),
    decreases a.len(),
{
    if a.len() > 0 {
        lemma_text_reflexive(a.drop_first());
    }
}

proof fn lemma_text_total(a: Seq<char>, b: Seq<char>)
    ensures
        text_le(a, b) || text_le(b, a),
    decreases a.len(),
{
    if a.len() > 0 && b.len() > 0 && a[0] == b[0] {
        lemma_text_total(a.drop_first(), b.drop_first());
    }
}

proof fn lemma_text_antisymmetric(a: Seq<char>, b: Seq<char>)
    requires
        text_le(a, b),
        text_le(b, a),
    ensures
        a == b,
    decreases a.len(),
{
    if a.len() > 0 && b.len() > 0 {
        lemma_text_antisymmetric(a.drop_first(), b.drop_first());
        assert forall|k: int| 0 <= k < a.len() implies a[k] == b[k] by {
            if k > 0 {
                assert(a[k] == a.drop_first()[k - 1]);
                assert(b[k] == b.drop_first()[k - 1]);
            }
        }
    }
    assert(a =~= b);
}

proof fn lemma_text_transitive(a: Seq<char>, b: Seq<char>, c: Seq<char>)
    requires
        text_le(a, b),
        text_le(b, c),
    ensures
        text_le(a, c),
    decreases a.len(),
{
    if a.len() > 0 && b.len() > 0 && c.len() > 0 && a[0] == b[0] && b[0] == c[0] {
        lemma_text_transitive(a.drop_first(), b.drop_first(), c.drop_first());
    }
}

proof fn lemma_key_reflexive(a: Seq<Seq<char>>)
    ensures
        key_le(a, a),
    decreases a.len(),
{
    if a.len() > 0 {
        lemma_key_reflexive(a.drop_first());
    }
}

proof fn lemma_key_total(a: Seq<Seq<char>>, b: Seq<Seq<char>>)
    ensures
        key_le(a, b) || key_le(b, a),
    decreases a.len(),
{
    if a.len() > 0 && b.len() > 0 {
        if a[0] == b[0] {
            lemma_key_total(a.drop_first(), b.drop_first());
        } else {
            lemma_text_total(a[0], b[0]);
        }
    }
}

proof fn lemma_key_transitive(a: Seq<Seq<char>>, b: Seq<Seq<char>>, c: Seq<Seq<char>>)
    requires
        key_le(a, b),
        key_le(b, c),
    ensures
        key_le(a, c),
    decreases a.len(),
{
    if a.len() > 0 && b.len() > 0 && c.len() > 0 {
        if a[0] == b[0] && b[0] == c[0] {
            lemma_key_transitive(a.drop_first(), b.drop_first(), c.drop_first());
        } else if a[0] == b[0] {
        } else if b[0] == c[0] {
        } else {
            lemma_text_transitive(a[0], b[0], c[0]);
            if a[0] == c[0] {
                lemma_text_antisymmetric(a[0], b[0]);
            }
        }
    }
}

/// Inserting the next index `i` at the first position whose key is greater than its
/// own keeps the order sorted, stable and free of repeats.
proof fn lemma_insert_keeps_order(
    keys: Seq<Seq<Seq<char>>>,
    order: Seq<usize>,
    i: usize,
    p: int,
)
    requires
        i < keys.len(),
        0 <= p <= order.len(),
        order.len() == i,
        is_stable_order(keys.subrange(0, i as int), order),
        forall|q: int| 0 <= q < p ==> key_le(keys[#[trigger] order[q] as int], keys[i as int]),
        p < order.len() ==> !key_le(keys[order[p] as int], keys[i as int]),
    ensures
        is_stable_order(keys.subrange(0, i + 1), order.insert(p, i)),
{
    let next = order.insert(p, i);
    let prefix = keys.subrange(0, i as int);
    let longer = keys.subrange(0, i + 1);
    order.insert_ensures(p, i);
    assert forall|k: int| 0 <= k < order.len() implies #[trigger] prefix[order[k] as int]
        == keys[order[k] as int] by {}
    assert forall|k: int| 0 <= k < next.len() implies #[trigger] longer[next[k] as int]
        == keys[next[k] as int] by {
        if k < p {
            assert(next[k] == order[k]);
        } else if k > p {
            assert(next[k] == order[k - 1]);
        }
    }
    assert forall|k: int| 0 <= k < next.len() implies #[trigger] next[k] < longer.len() by {
        if k < p {
            assert(next[k] == order[k]);
        } else if k > p {
            assert(next[k] == order[k - 1]);
        }
    }
    assert forall|a: int, b: int| 0 <= a < b < next.len() implies #[trigger] next[a]
        != #[trigger] next[b] by {
        if a < p {
            assert(next[a] == order[a]);
        } else if a > p {
            assert(next[a] == order[a - 1]);
        }
        if b < p {
            assert(next[b] == order[b]);
        } else if b > p {
            assert(next[b] == order[b - 1]);
        }
    }
    if p < order.len() {
        lemma_key_total(keys[order[p] as int], keys[i as int]);
    }
    assert forall|a: int, b: int| 0 <= a < b < next.len() implies key_le(
        longer[#[trigger] next[a] as int],
        longer[#[trigger] next[b] as int],
    ) by {
        if b < p {
            assert(next[a] == order[a] && next[b] == order[b]);
        } else if b == p {
            assert(next[a] == order[a]);
        } else if a > p {
            assert(next[a] == order[a - 1] && next[b] == order[b - 1]);
        } else if a == p {
            assert(next[b] == order[b - 1]);
            if b - 1 > p {
                assert(key_le(prefix[order[p] as int], prefix[order[b - 1] as int]));
            } else {
                lemma_key_reflexive(keys[order[p] as int]);
            }
            lemma_key_transitive(keys[i as int], keys[order[p] as int], keys[order[b - 1] as int]);
        } else {
            assert(next[a] == order[a] && next[b] == order[b - 1]);
            assert(key_le(prefix[order[a] as int], prefix[order[b - 1] as int]));
        }
    }
    assert forall|a: int, b: int|
        0 <= a < b < next.len() && longer[#[trigger] next[a] as int] == longer[#[trigger] next[b] as int] implies next[a] < next[b] by {
        if b < p {
            assert(next[a] == order[a] && next[b] == order[b]);
        } else if b == p {
            assert(next[a] == order[a]);
        } else if a > p {
            assert(next[a] == order[a - 1] && next[b] == order[b - 1]);
        } else if a == p {
            assert(next[b] == order[b - 1]);
            if b - 1 > p {
                assert(key_le(prefix[order[p] as int], prefix[order[b - 1] as int]));
            } else {
                lemma_key_reflexive(keys[order[p] as int]);
            }
            assert(false);
        } else {
            assert(next[a] == order[a] && next[b] == order[b - 1]);
        }
    }
}

// ---------------------------------------------------------------------------------------
// Executable comparison and ordering
// ---------------------------------------------------------------------------------------

/// Whether `a` comes no later than `b` in code-point order.
pub fn text_le_exec(a: &str, b: &str) -> (r: bool)
    ensures
        r == text_le(a@, b@),
{
    let ca = chars_of(a);
    let cb = chars_of(b);
    let mut i: usize = 0;
    assert(a@.subrange(0, a@.len() as int) =~= a@);
    assert(b@.subrange(0, b@.len() as int) =~= b@);
    while i < ca.len() && i < cb.len() && ca[i] == cb[i]
        invariant
            ca@ == a@,
            cb@ == b@,
            i <= ca@.len(),
            i <= cb@.len(),
            text_le(a@, b@) == text_le(
                a@.subrange(i as int, a@.len() as int),
                b@.subrange(i as int, b@.len() as int),
            ),
        decreases ca@.len() - i,
    {
        proof {
            let sa = a@.subrange(i as int, a@.len() as int);
            let sb = b@.subrange(i as int, b@.len() as int);
            assert(sa.drop_first() =~= a@.subrange(i + 1, a@.len() as int));
            assert(sb.drop_first() =~= b@.subrange(i + 1, b@.len() as int));
            assert(sa[0] == a@[i as int] && sb[0] == b@[i as int]);
        }
        i = i + 1;
    }
    let ghost sa = a@.subrange(i as int, a@.len() as int);
    let ghost sb = b@.subrange(i as int, b@.len() as int);
    if i == ca.len() {
        assert(sa.len() == 0);
        true
    } else if i == cb.len() {
        assert(sb.len() == 0);
        false
    } else {
        assert(sa[0] == a@[i as int] && sb[0] == b@[i as int]);
        ca[i] < cb[i]
    }
}

fn endpoint_le(a: &AudioEndpoint, b: &AudioEndpoint) -> (r: bool)
    ensures
        r == key_le(endpoint_key(*a), endpoint_key(*b)),
{
    let ghost ka = endpoint_key(*a);
    let ghost kb = endpoint_key(*b);
    assert(ka.drop_first() =~= seq![a.id@]);
    assert(kb.drop_first() =~= seq![b.id@]);
    assert(ka.drop_first().drop_first() =~= Seq::<Seq<char>>::empty());
    proof {
        reveal_with_fuel(key_le, 3);
    }
    if !str_eq(a.name.as_str(), b.name.as_str()) {
        text_le_exec(a.name.as_str(), b.name.as_str())
    } else if !str_eq(a.id.as_str(), b.id.as_str()) {
        text_le_exec(a.id.as_str(), b.id.as_str())
    } else {
        true
    }
}

fn session_le(a: &SessionIdentity, b: &SessionIdentity) -> (r: bool)
    ensures
        r == key_le(session_key(*a), session_key(*b)),
{
    let ghost ka = session_key(*a);
    let ghost kb = session_key(*b);
    assert(ka.drop_first() =~= seq![a.app_id@, a.id@]);
    assert(kb.drop_first() =~= seq![b.app_id@, b.id@]);
    assert(ka.drop_first().drop_first() =~= seq![a.id@]);
    assert(kb.drop_first().drop_first() =~= seq![b.id@]);
    assert(ka.drop_first().drop_first().drop_first() =~= Seq::<Seq<char>>::empty());
    proof {
        reveal_with_fuel(key_le, 4);
    }
    if !str_eq(a.display_name.as_str(), b.display_name.as_str()) {
        text_le_exec(a.display_name.as_str(), b.display_name.as_str())
    } else if !str_eq(a.app_id.as_str(), b.app_id.as_str()) {
        text_le_exec(a.app_id.as_str(), b.app_id.as_str())
    } else if !str_eq(a.id.as_str(), b.id.as_str()) {
        text_le_exec(a.id.as_str(), b.id.as_str())
    } else {
        true
    }
}

/// The order to list devices in: the indices of `endpoints`, stably sorted by name,
/// then id.
pub fn endpoint_order(endpoints: &[AudioEndpoint]) -> (order: Vec<usize>)
    ensures
        is_stable_order(endpoints@.map_values(|e: AudioEndpoint| endpoint_key(e)), order@),
{
    let ghost keys = endpoints@.map_values(|e: AudioEndpoint| endpoint_key(e));
    let mut order: Vec<usize> = Vec::new();
    let mut i: usize = 0;
    assert(order@ =~= Seq::<usize>::empty());
    while i < endpoints.len()
        invariant
            i <= endpoints@.len(),
            keys == endpoints@.map_values(|e: AudioEndpoint| endpoint_key(e)),
            is_stable_order(keys.subrange(0, i as int), order@),
        decreases endpoints@.len() - i,
    {
        let mut p: usize = 0;
        while p < order.len() && endpoint_le(&endpoints[order[p]], &endpoints[i])
            invariant
                i < endpoints@.len(),
                p <= order@.len(),
                keys == endpoints@.map_values(|e: AudioEndpoint| endpoint_key(e)),
                is_stable_order(keys.subrange(0, i as int), order@),
                forall|q: int|
                    0 <= q < p ==> key_le(keys[#[trigger] order@[q] as int], keys[i as int]),
            decreases order@.len() - p,
        {
            assert(order@[p as int] < i);
            p = p + 1;
        }
        proof {
            if p < order@.len() {
                assert(order@[p as int] < i);
            }
            lemma_insert_keeps_order(keys, order@, i, p as int);
        }
        order.insert(p, i);
        i = i + 1;
    }
    assert(keys.subrange(0, endpoints@.len() as int) =~= keys);
    order
}

/// The order to list sessions in: the indices of `sessions`, stably sorted by display
/// name, then application id, then session id.
pub fn session_order(sessions: &[SessionIdentity]) -> (order: Vec<usize>)
    ensures
        is_stable_order(sessions@.map_values(|s: SessionIdentity| session_key(s)), order@),
{
    let ghost keys = sessions@.map_values(|s: SessionIdentity| session_key(s));
    let mut order: Vec<usize> = Vec::new();
    let mut i: usize = 0;
    assert(order@ =~= Seq::<usize>::empty());
    while i < sessions.len()
        invariant
            i <= sessions@.len(),
            keys == sessions@.map_values(|s: SessionIdentity| session_key(s)),
            is_stable_order(keys.subrange(0, i as int), order@),
        decreases sessions@.len() - i,
    {
        let mut p: usize = 0;
        while p < order.len() && session_le(&sessions[order[p]], &sessions[i])
            invariant
                i < sessions@.len(),
                p <= order@.len(),
                keys == sessions@.map_values(|s: SessionIdentity| session_key(s)),
                is_stable_order(keys.subrange(0, i as int), order@),
                forall|q: int|
                    0 <= q < p ==> key_le(keys[#[trigger] order@[q] as int], keys[i as int]),
            decreases order@.len() - p,
        {
            assert(order@[p as int] < i);
            p = p + 1;
        }
        proof {
            if p < order@.len() {
                assert(order@[p as int] < i);
            }
            lemma_insert_keeps_order(keys, order@, i, p as int);
        }
        order.insert(p, i);
        i = i + 1;
    }
    assert(keys.subrange(0, sessions@.len() as int) =~= keys);
    order
}

} // verus!
