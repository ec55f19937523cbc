//! A JSON document model for error details and error bodies.
use vstd::prelude::*;
use crate::text::push_str;

verus! {

/// A JSON value.
///
/// Numbers keep their textual rendering, so that no floating-point value is
/// ever held. Object members are kept sorted by key, without duplicates, as a
/// sorted map would hold them.
#[derive(Debug)]
pub enum Json {
    Null,
    Bool(bool),
    Number(String),
    Str(String),
    Array(Vec<Json>),
    Object(Vec<(String, Json)>),
}

/// The mathematical content of a [`Json`] value.
pub enum JsonModel {
    Null,
    Bool(bool),
    Number(Seq<char>),
    Str(Seq<char>),
    Array(Seq<JsonModel>),
    Object(Seq<(Seq<char>, JsonModel)>),
}

pub open spec fn json_model(j: Json) -> JsonModel
    decreases j,
{
    match j {
        Json::Null => JsonModel::Null,
        Json::Bool(b) => JsonModel::Bool(b),
        Json::Number(n) => JsonModel::Number(n@),
        Json::Str(s) => JsonModel::Str(s@),
        Json::Array(v) => JsonModel::Array(
            Seq::new(v@.len(), |i: int| if 0 <= i < v@.len() { json_model(v@[i]) } else { JsonModel::Null }),
        ),
        Json::Object(v) => JsonModel::Object(
            Seq::new(v@.len(), |i: int| if 0 <= i < v@.len() { (v@[i].0@, json_model(v@[i].1)) } else { (Seq::empty(), JsonModel::Null) }),
        ),
    }
}

} // verus!

verus! {

impl View for Json {
    type V = JsonModel;

    open spec fn view(&self) -> JsonModel {
        json_model(*self)
    }
}

/// Strict lexicographic order on keys, character by character, as a sorted
/// map of strings orders them.
pub open spec fn key_less(a: Seq<char>, b: Seq<char>) -> bool
    decreases a.len(),
{
    if a.len() == 0 {
        b.len() > 0
    } else if b.len() == 0 {
        false
    } else if (a[0] as int) < (b[0] as int) {
        true
    } else if a[0] == b[0] {
        key_less(a.drop_first(), b.drop_first())
    } else {
        false
    }
}

pub proof fn lemma_key_less_irreflexive(a: Seq<char>)
    ensures
        !key_less(a, a),
    decreases a.len(),
{
    if a.len() > 0 {
        lemma_key_less_irreflexive(a.drop_first());
    }
}

pub proof fn lemma_key_less_transitive(a: Seq<char>, b: Seq<char>, c: Seq<char>)
    requires
        key_less(a, b),
        key_less(b, c),
    ensures
        key_less(a, c),
    decreases a.len(),
{
    if a.len() > 0 && b.len() > 0 && c.len() > 0 {
        if a[0] == b[0] && b[0] == c[0] {
            lemma_key_less_transitive(a.drop_first(), b.drop_first(), c.drop_first());
        }
    }
}

pub proof fn lemma_key_less_total(a: Seq<char>, b: Seq<char>)
    ensures
        key_less(a, b) || key_less(b, a) || a == b,
    decreases a.len(),
{
    if a.len() > 0 && b.len() > 0 {
        if a[0] == b[0] {
            lemma_key_less_total(a.drop_first(), b.drop_first());
            if a.drop_first() == b.drop_first() {
                assert(a =~= seq![a[0]] + a.drop_first());
                assert(b =~= seq![b[0]] + b.drop_first());
            }
        } else {
            assert((a[0] as int) != (b[0] as int));
        }
    } else if a.len() == 0 && b.len() == 0 {
        assert(a =~= b);
    }
}

/// Whether `a` and `b` first differ at position `i`, where `a` has the
/// smaller character.
pub open spec fn first_difference_smaller(a: Seq<char>, b: Seq<char>, i: int) -> bool {
    &&& 0 <= i < a.len()
    &&& i < b.len()
    &&& a.subrange(0, i) == b.subrange(0, i)
    &&& (a[i] as int) < (b[i] as int)
}

/// Object keys are ordered as strings are, character by character: `a`
/// comes before `b` exactly when it is a proper prefix of `b`, or where they
/// first differ `a` has the smaller character.
pub proof fn law_key_order_is_lexicographic(a: Seq<char>, b: Seq<char>)
    ensures
        key_less(a, b) <==> ((a.len() < b.len() && a == b.subrange(0, a.len() as int)) || exists|i: int|
            first_difference_smaller(a, b, i)),
    decreases a.len(),
{
    if a.len() == 0 {
        assert(a =~= b.subrange(0, 0));
    } else if b.len() == 0 {
    } else if (a[0] as int) < (b[0] as int) {
        assert(a.subrange(0, 0) =~= b.subrange(0, 0));
        assert(first_difference_smaller(a, b, 0));
    } else if a[0] == b[0] {
        let ta = a.drop_first();
        let tb = b.drop_first();
        law_key_order_is_lexicographic(ta, tb);
        if ta.len() < tb.len() && ta == tb.subrange(0, ta.len() as int) {
            assert(a =~= seq![a[0]] + ta);
            assert(b.subrange(0, a.len() as int) =~= seq![b[0]] + tb.subrange(0, ta.len() as int));
            assert(a =~= b.subrange(0, a.len() as int));
        }
        if a.len() < b.len() && a == b.subrange(0, a.len() as int) {
            assert(ta =~= tb.subrange(0, ta.len() as int));
        }
        if exists|i: int| first_difference_smaller(ta, tb, i) {
            let i = choose|i: int| first_difference_smaller(ta, tb, i);
            assert(a.subrange(0, i + 1) =~= seq![a[0]] + ta.subrange(0, i));
            assert(b.subrange(0, i + 1) =~= seq![b[0]] + tb.subrange(0, i));
            assert(first_difference_smaller(a, b, i + 1));
        }
        if exists|i: int| first_difference_smaller(a, b, i) {
            let i = choose|i: int| first_difference_smaller(a, b, i);
            assert(i != 0);
            assert(a.subrange(0, i)[0] == b.subrange(0, i)[0]);
            assert(ta.subrange(0, i - 1) =~= a.subrange(0, i).drop_first());
            assert(tb.subrange(0, i - 1) =~= b.subrange(0, i).drop_first());
            assert(first_difference_smaller(ta, tb, i - 1));
        }
    } else {
        if a.len() < b.len() && a == b.subrange(0, a.len() as int) {
            assert(a[0] == b.subrange(0, a.len() as int)[0]);
        }
        if exists|i: int| first_difference_smaller(a, b, i) {
            let i = choose|i: int| first_difference_smaller(a, b, i);
            if i > 0 {
                assert(a.subrange(0, i)[0] == b.subrange(0, i)[0]);
            }
        }
    }
}

/// The keys of object members are strictly increasing.
pub open spec fn keys_sorted(m: Seq<(Seq<char>, JsonModel)>) -> bool {
    forall|i: int, j: int| 0 <= i < j < m.len() ==> key_less(#[trigger] m[i].0, #[trigger] m[j].0)
}

/// The value that an object holds under `key`, if any: that of the first
/// member with this key.
pub open spec fn member(m: Seq<(Seq<char>, JsonModel)>, key: Seq<char>) -> Option<JsonModel>
    decreases m.len(),
{
    if m.len() == 0 {
        None
    } else if m[0].0 == key {
        Some(m[0].1)
    } else {
        member(m.drop_first(), key)
    }
}

/// Every object within the value has sorted, distinct keys.
pub open spec fn well_formed(j: JsonModel) -> bool
    decreases j,
{
    match j {
        JsonModel::Array(v) => forall|i: int| 0 <= i < v.len() ==> #[trigger] well_formed(v[i]),
        JsonModel::Object(m) => keys_sorted(m) && forall|i: int|
            0 <= i < m.len() ==> #[trigger] well_formed(m[i].1),
        _ => true,
    }
}

/// Compares two keys in the order of [`key_less`].
pub fn str_less(a: &str, b: &str) -> (r: bool)
    ensures
        r == key_less(a@, b@),
{
    let la = a.unicode_len();
    let lb = b.unicode_len();
    let mut i: usize = 0;
    assert(a@.subrange(0, la as int) =~= a@);
    assert(b@.subrange(0, lb as int) =~= b@);
    while i < la && i < lb
        invariant
            la == a@.len(),
            lb == b@.len(),
            i <= la,
            i <= lb,
            a@.subrange(0, i as int) == b@.subrange(0, i as int),
            key_less(a@, b@) == key_less(a@.subrange(i as int, la as int), b@.subrange(i as int, lb as int)),
        decreases la - i,
    {
        let ca = a.get_char(i);
        let cb = b.get_char(i);
        let ghost sa = a@.subrange(i as int, la as int);
        let ghost sb = b@.subrange(i as int, lb as int);
        if (ca as u32) < (cb as u32) {
            assert((ca as int) < (cb as int));
            return true;
        } else if ca != cb {
            assert((ca as int) != (cb as int));
            return false;
        }
        assert(sa.drop_first() =~= a@.subrange(i + 1, la as int));
        assert(sb.drop_first() =~= b@.subrange(i + 1, lb as int));
        assert(a@.subrange(0, i + 1) =~= a@.subrange(0, i as int).push(ca));
        assert(b@.subrange(0, i + 1) =~= b@.subrange(0, i as int).push(cb));
        i = i + 1;
    }
    i == la && i < lb
}

} // verus!

verus! {

/// The model of a list of object members.
pub open spec fn members_model(v: Seq<(String, Json)>) -> Seq<(Seq<char>, JsonModel)> {
    Seq::new(v.len(), |i: int| (v[i].0@, json_model(v[i].1)))
}

pub proof fn lemma_object_model(v: Vec<(String, Json)>)
    ensures
        json_model(Json::Object(v)) == JsonModel::Object(members_model(v@)),
{
    if let JsonModel::Object(m) = json_model(Json::Object(v)) {
        assert(m =~= members_model(v@));
    }
}

pub proof fn lemma_array_model(v: Vec<Json>)
    ensures
        json_model(Json::Array(v)) == JsonModel::Array(Seq::new(v@.len(), |i: int| json_model(v@[i]))),
{
    if let JsonModel::Array(m) = json_model(Json::Array(v)) {
        assert(m =~= Seq::new(v@.len(), |i: int| json_model(v@[i])));
    }
}

/// In an object with sorted keys, the member found at a position is the one
/// that a lookup by its key gives.
pub proof fn lemma_member_at(m: Seq<(Seq<char>, JsonModel)>, i: int)
    requires
        keys_sorted(m),
        0 <= i < m.len(),
    ensures
        member(m, m[i].0) == Some(m[i].1),
    decreases i,
{
    if i > 0 {
        assert(key_less(m[0].0, m[i].0));
        lemma_key_less_irreflexive(m[i].0);
        let t = m.drop_first();
        assert(keys_sorted(t)) by {
            assert forall|a: int, b: int| 0 <= a < b < t.len() implies key_less(#[trigger] t[a].0, #[trigger] t[b].0) by {
                assert(key_less(m[a + 1].0, m[b + 1].0));
            }
        }
        assert(t[i - 1] == m[i]);
        lemma_member_at(t, i - 1);
    }
}

/// A key that no member has is not found.
pub proof fn lemma_member_absent(m: Seq<(Seq<char>, JsonModel)>, k: Seq<char>)
    requires
        forall|j: int| 0 <= j < m.len() ==> #[trigger] m[j].0 != k,
    ensures
        member(m, k) is None,
    decreases m.len(),
{
    if m.len() > 0 {
        let t = m.drop_first();
        assert forall|j: int| 0 <= j < t.len() implies #[trigger] t[j].0 != k by {
            assert(t[j] == m[j + 1]);
        }
        lemma_member_absent(t, k);
    }
}

/// Inserts `key` with `value` into sorted object members, replacing the value
/// of an equal key, as a sorted map does.
pub fn object_insert(members: &mut Vec<(String, Json)>, key: String, value: Json)
    requires
        keys_sorted(members_model(old(members)@)),
    ensures
        keys_sorted(members_model(final(members)@)),
        member(members_model(final(members)@), key@) == Some(value@),
        forall|k: Seq<char>| k != key@ ==> member(members_model(final(members)@), k)
            == member(members_model(old(members)@), k),
{
    let ghost m0 = members_model(members@);
    let n = members.len();
    let mut i: usize = 0;
    while i < n && str_less(members[i].0.as_str(), key.as_str())
        invariant
            n == members@.len(),
            m0 == members_model(members@),
            i <= n,
            forall|k: int| 0 <= k < i ==> key_less(#[trigger] m0[k].0, key@),
        decreases n - i,
    {
        i = i + 1;
    }
    let ghost kv = key@;
    let ghost vv = value@;
    if i < n && members[i].0 == key {
        members.set(i, (key, value));
        let ghost m1 = members_model(members@);
        assert(m1 =~= m0.update(i as int, (kv, vv)));
        assert forall|a: int, b: int| 0 <= a < b < m1.len() implies key_less(#[trigger] m1[a].0, #[trigger] m1[b].0) by {
            assert(key_less(m0[a].0, m0[b].0));
        }
        proof { lemma_member_at(m1, i as int); }
        assert forall|k: Seq<char>| k != kv implies member(m1, k) == member(m0, k) by {
            if exists|j: int| 0 <= j < m0.len() && #[trigger] m0[j].0 == k {
                let j = choose|j: int| 0 <= j < m0.len() && #[trigger] m0[j].0 == k;
                lemma_member_at(m0, j);
                lemma_member_at(m1, j);
            } else {
                assert forall|j: int| 0 <= j < m1.len() implies #[trigger] m1[j].0 != k by {
                    if j != i {
                        assert(m1[j] == m0[j]);
                    }
                }
                lemma_member_absent(m0, k);
                lemma_member_absent(m1, k);
            }
        }
    } else {
        proof {
            if i < n {
                lemma_key_less_total(m0[i as int].0, kv);
            }
        }
        members.insert(i, (key, value));
        let ghost m1 = members_model(members@);
        assert(m1 =~= m0.insert(i as int, (kv, vv)));
        assert forall|a: int, b: int| 0 <= a < b < m1.len() implies key_less(#[trigger] m1[a].0, #[trigger] m1[b].0) by {
            if b < i {
                assert(key_less(m0[a].0, m0[b].0));
            } else if b == i {
                assert(key_less(m0[a].0, kv));
            } else if a == i {
                if b - 1 > i {
                    assert(key_less(m0[i as int].0, m0[b - 1].0));
                    lemma_key_less_transitive(kv, m0[i as int].0, m0[b - 1].0);
                }
            } else if a < i {
                assert(key_less(m0[a].0, kv));
                if b - 1 > i {
                    assert(key_less(m0[i as int].0, m0[b - 1].0));
                    lemma_key_less_transitive(kv, m0[i as int].0, m0[b - 1].0);
                }
                lemma_key_less_transitive(m0[a].0, kv, m0[b - 1].0);
            } else {
                assert(key_less(m0[a - 1].0, m0[b - 1].0));
            }
        }
        proof { lemma_member_at(m1, i as int); }
        assert forall|k: Seq<char>| k != kv implies member(m1, k) == member(m0, k) by {
            if exists|j: int| 0 <= j < m0.len() && #[trigger] m0[j].0 == k {
                let j = choose|j: int| 0 <= j < m0.len() && #[trigger] m0[j].0 == k;
                lemma_member_at(m0, j);
                if j < i {
                    assert(m1[j] == m0[j]);
                    lemma_member_at(m1, j);
                } else {
                    assert(m1[j + 1] == m0[j]);
                    lemma_member_at(m1, j + 1);
                }
            } else {
                assert forall|j: int| 0 <= j < m1.len() implies #[trigger] m1[j].0 != k by {
                    if j < i {
                        assert(m1[j] == m0[j]);
                    } else if j > i {
                        assert(m1[j] == m0[j - 1]);
                    }
                }
                lemma_member_absent(m0, k);
                lemma_member_absent(m1, k);
            }
        }
    }
}

} // verus!

verus! {

impl Json {
    /// Whether two values are equal, members compared in order.
    pub fn equals(&self, other: &Json) -> (r: bool)
        ensures
            r == (self@ == other@),
        decreases self,
    {
        match (self, other) {
            (Json::Null, Json::Null) => true,
            (Json::Bool(a), Json::Bool(b)) => *a == *b,
            (Json::Number(a), Json::Number(b)) => *a == *b,
            (Json::Str(a), Json::Str(b)) => *a == *b,
            (Json::Array(a), Json::Array(b)) => {
                proof {
                    lemma_array_model(*a);
                    lemma_array_model(*b);
                }
                let ghost ma = Seq::new(a@.len(), |k: int| json_model(a@[k]));
                let ghost mb = Seq::new(b@.len(), |k: int| json_model(b@[k]));
                if a.len() != b.len() {
                    assert(ma.len() != mb.len());
                    return false;
                }
                let n = a.len();
                let mut i: usize = 0;
                while i < n
                    invariant
                        *self == Json::Array(*a),
                        *other == Json::Array(*b),
                        self@ == JsonModel::Array(ma),
                        other@ == JsonModel::Array(mb),
                        ma == Seq::new(a@.len(), |k: int| json_model(a@[k])),
                        mb == Seq::new(b@.len(), |k: int| json_model(b@[k])),
                        n == a@.len(),
                        n == b@.len(),
                        i <= n,
                        forall|k: int| 0 <= k < i ==> json_model(#[trigger] a@[k]) == json_model(b@[k]),
                    decreases n - i,
                {
                    assert(decreases_to!(*self => a@[i as int]));
                    if !a[i].equals(&b[i]) {
                        assert(ma[i as int] != mb[i as int]);
                        return false;
                    }
                    i = i + 1;
                }
                assert(ma =~= mb);
                true
            },
            (Json::Object(a), Json::Object(b)) => {
                proof {
                    lemma_object_model(*a);
                    lemma_object_model(*b);
                }
                if a.len() != b.len() {
                    assert(members_model(a@).len() != members_model(b@).len());
                    return false;
                }
                let n = a.len();
                let mut i: usize = 0;
                while i < n
                    invariant
                        *self == Json::Object(*a),
                        *other == Json::Object(*b),
                        self@ == JsonModel::Object(members_model(a@)),
                        other@ == JsonModel::Object(members_model(b@)),
                        n == a@.len(),
                        n == b@.len(),
                        i <= n,
                        forall|k: int| 0 <= k < i ==> #[trigger] members_model(a@)[k] == members_model(b@)[k],
                    decreases n - i,
                {
                    assert(decreases_to!(*self => a@[i as int].1));
                    if a[i].0 != b[i].0 || !a[i].1.equals(&b[i].1) {
                        proof {
                            assert(members_model(a@)[i as int] != members_model(b@)[i as int]);
                        }
                        return false;
                    }
                    i = i + 1;
                }
                proof {
                    assert(members_model(a@) =~= members_model(b@));
                }
                true
            },
            _ => false,
        }
    }

    /// A copy of this value.
    pub fn duplicate(&self) -> (r: Json)
        ensures
            r@ == self@,
        decreases self,
    {
        match self {
            Json::Null => Json::Null,
            Json::Bool(b) => Json::Bool(*b),
            Json::Number(n) => Json::Number(n.clone()),
            Json::Str(s) => Json::Str(s.clone()),
            Json::Array(a) => {
                let n = a.len();
                let mut out: Vec<Json> = Vec::new();
                let mut i: usize = 0;
                while i < n
                    invariant
                        *self == Json::Array(*a),
                        n == a@.len(),
                        i <= n,
                        out@.len() == i,
                        forall|k: int| 0 <= k < i ==> json_model(#[trigger] out@[k]) == json_model(a@[k]),
                    decreases n - i,
                {
                    assert((*self)->Array_0 == *a);
                    assert(decreases_to!(*self => (*self)->Array_0));
                    assert(decreases_to!(*a => a@));
                    assert(decreases_to!(a@ => a@[i as int]));
                    assert(decreases_to!(*self => a@[i as int]));
                    out.push(a[i].duplicate());
                    i = i + 1;
                }
                proof {
                    lemma_array_model(*a);
                    lemma_array_model(out);
                    assert(Seq::new(out@.len(), |k: int| json_model(out@[k])) =~= Seq::new(a@.len(), |k: int| json_model(a@[k])));
                }
                Json::Array(out)
            },
            Json::Object(a) => {
                let n = a.len();
                let mut out: Vec<(String, Json)> = Vec::new();
                let mut i: usize = 0;
                while i < n
                    invariant
                        *self == Json::Object(*a),
                        n == a@.len(),
                        i <= n,
                        out@.len() == i,
                        forall|k: int| 0 <= k < i ==> #[trigger] members_model(out@)[k] == members_model(a@)[k],
                    decreases n - i,
                {
                    assert((*self)->Object_0 == *a);
                    assert(decreases_to!(*self => (*self)->Object_0));
                    assert(decreases_to!(*a => a@));
                    assert(decreases_to!(a@ => a@[i as int]));
                    assert(decreases_to!(a@[i as int] => a@[i as int].1));
                    assert(decreases_to!(*self => a@[i as int].1));
                    let ghost before = out@;
                    let item = (a[i].0.clone(), a[i].1.duplicate());
                    out.push(item);
                    assert(members_model(out@)[i as int] == members_model(a@)[i as int]);
                    assert forall|k: int| 0 <= k < i implies #[trigger] members_model(out@)[k] == members_model(a@)[k] by {
                        assert(out@[k] == before[k]);
                        assert(members_model(before)[k] == members_model(a@)[k]);
                    }
                    i = i + 1;
                }
                proof {
                    lemma_object_model(*a);
                    lemma_object_model(out);
                    assert(members_model(out@) =~= members_model(a@));
                }
                Json::Object(out)
            },
        }
    }

    /// A JSON string.
    pub fn string(s: String) -> (r: Json)
        ensures
            r@ == JsonModel::Str(s@),
    {
        Json::Str(s)
    }

    /// A JSON object with no members.
    pub fn empty_object() -> (r: Json)
        ensures
            r@ == JsonModel::Object(Seq::empty()),
    {
        let v: Vec<(String, Json)> = Vec::new();
        proof {
            lemma_object_model(v);
            assert(members_model(v@) =~= Seq::empty());
        }
        Json::Object(v)
    }
}

} // verus!

verus! {

// ---------------------------------------------------------------------------
// Rendering: the debugging text of a value, and its compact JSON text.

/// The text that the standard library's `Debug` formatting gives for a
/// string: quoted, with escapes.
pub uninterp spec fn str_debug_text(s: Seq<char>) -> Seq<char>;

/// Renders a string with `str`'s `Debug` formatting (`format!("{:?}", t)`);
/// the contract names the result without spelling out its escaping rules.
#[verifier::external_body]
fn str_debug(t: &str) -> (r: String)
    ensures
        r@ == str_debug_text(t@),
{
    format!("{:?}", t)
}

/// Appends the `Debug` text of a string.
pub(crate) fn push_str_debug(s: &mut String, t: &str)
    ensures
        final(s)@ == old(s)@ + str_debug_text(t@),
{
    let d = str_debug(t);
    push_str(s, d.as_str());
}

/// `Debug` text of a JSON value, in the form `serde_json` gives it: `Null`,
/// `Bool(true)`, `Number(1)`, `String("a")`, `Array [..]`, `Object {..}`.
pub open spec fn debug_text(j: JsonModel) -> Seq<char>
    decreases j,
{
    match j {
        JsonModel::Null => seq!['N', 'u', 'l', 'l'],
        JsonModel::Bool(b) => seq!['B', 'o', 'o', 'l', '('] + (if b { seq!['t', 'r', 'u', 'e'] } else {
            seq!['f', 'a', 'l', 's', 'e']
        }) + seq![')'],
        JsonModel::Number(n) => seq!['N', 'u', 'm', 'b', 'e', 'r', '('] + n + seq![')'],
        JsonModel::Str(s) => seq!['S', 't', 'r', 'i', 'n', 'g', '('] + str_debug_text(s) + seq![')'],
        JsonModel::Array(v) => seq!['A', 'r', 'r', 'a', 'y', ' ', '['] + debug_items(v) + seq![']'],
        JsonModel::Object(m) => seq!['O', 'b', 'j', 'e', 'c', 't', ' ', '{'] + debug_members(m) + seq!['}'],
    }
}

/// The `Debug` texts of a list's items, separated by `, `.
pub open spec fn debug_items(v: Seq<JsonModel>) -> Seq<char>
    decreases v,
{
    if v.len() == 0 {
        Seq::empty()
    } else if v.len() == 1 {
        debug_text(v[0])
    } else {
        debug_items(v.drop_last()) + seq![',', ' '] + debug_text(v.last())
    }
}

/// The `Debug` texts of members, `key: value`, separated by `, `.
pub open spec fn debug_members(m: Seq<(Seq<char>, JsonModel)>) -> Seq<char>
    decreases m,
{
    if m.len() == 0 {
        Seq::empty()
    } else if m.len() == 1 {
        str_debug_text(m[0].0) + seq![':', ' '] + debug_text(m[0].1)
    } else {
        debug_members(m.drop_last()) + seq![',', ' '] + str_debug_text(m.last().0) + seq![':', ' ']
            + debug_text(m.last().1)
    }
}

/// The escaped form of one character inside a JSON string.
pub open spec fn escape_char(c: char) -> Seq<char> {
    if c == '"' { seq!['\\', '"'] }
    else if c == '\\' { seq!['\\', '\\'] }
    else if c == '\n' { seq!['\\', 'n'] }
    else if c == '\r' { seq!['\\', 'r'] }
    else if c == '\t' { seq!['\\', 't'] }
    else if c == '\u{8}' { seq!['\\', 'b'] }
    else if c == '\u{c}' { seq!['\\', 'f'] }
    else if (c as u32) < 0x20 {
        seq!['\\', 'u', '0', '0', crate::net::hex_digit_char((c as u32 / 16) as nat),
            crate::net::hex_digit_char((c as u32 % 16) as nat)]
    } else { seq![c] }
}

/// The escaped form of a string's characters.
pub open spec fn escape(s: Seq<char>) -> Seq<char>
    decreases s.len(),
{
    if s.len() == 0 { Seq::empty() } else { escape(s.drop_last()) + escape_char(s.last()) }
}

/// A character that a JSON string holds as it is: neither a quote, a
/// backslash nor a control character.
pub open spec fn is_plain_char(c: char) -> bool {
    c != '"' && c != '\\' && (c as u32) >= 0x20
}

/// Text made of plain characters is written as it is.
pub proof fn law_escape_keeps_plain_text(s: Seq<char>)
    requires
        forall|i: int| 0 <= i < s.len() ==> #[trigger] is_plain_char(s[i]),
    ensures
        escape(s) == s,
    decreases s.len(),
{
    if s.len() > 0 {
        let t = s.drop_last();
        assert forall|i: int| 0 <= i < t.len() implies #[trigger] is_plain_char(t[i]) by {
            assert(t[i] == s[i]);
        }
        law_escape_keeps_plain_text(t);
        assert(is_plain_char(s[s.len() - 1]));
        assert(s =~= t.push(s.last()));
    }
}

/// The escaped form of any text holds no control character, and each of its
/// quotes follows a backslash: the text cannot end the string it is in.
pub proof fn law_escape_is_safe_in_a_string(s: Seq<char>)
    ensures
        forall|i: int| 0 <= i < escape(s).len() ==> (#[trigger] escape(s)[i] as u32) >= 0x20,
        forall|i: int| 0 <= i < escape(s).len() && #[trigger] escape(s)[i] == '"' ==> i > 0 && escape(s)[i - 1]
            == '\\',
    decreases s.len(),
{
    if s.len() > 0 {
        let t = s.drop_last();
        law_escape_is_safe_in_a_string(t);
        let c = s.last();
        let e = escape_char(c);
        assert(escape(s) == escape(t) + e);
        assert forall|i: int| 0 <= i < e.len() implies (#[trigger] e[i] as u32) >= 0x20 && (e[i] == '"' ==> i > 0 && e[i - 1] == '\\') by {
            if (c as u32) < 0x20 && c != '\n' && c != '\r' && c != '\t' && c != '\u{8}' && c != '\u{c}' {
                let h1 = crate::net::hex_digit_char((c as u32 / 16) as nat);
                let h2 = crate::net::hex_digit_char((c as u32 % 16) as nat);
                assert(e == seq!['\\', 'u', '0', '0', h1, h2]);
            }
        }
        assert forall|i: int| 0 <= i < escape(s).len() implies (#[trigger] escape(s)[i] as u32) >= 0x20 by {
            if i >= escape(t).len() {
                assert(escape(s)[i] == e[i - escape(t).len()]);
            } else {
                assert(escape(s)[i] == escape(t)[i]);
            }
        }
        assert forall|i: int| 0 <= i < escape(s).len() && #[trigger] escape(s)[i] == '"' implies i > 0 && escape(s)[i
            - 1] == '\\' by {
            let n = escape(t).len() as int;
            if i >= n {
                assert(escape(s)[i] == e[i - n]);
                assert(e[i - n] as u32 >= 0x20);
                assert(i - n > 0);
                assert(escape(s)[i - 1] == e[i - n - 1]);
            } else {
                assert(escape(s)[i] == escape(t)[i]);
                assert(escape(s)[i - 1] == escape(t)[i - 1]);
            }
        }
    }
}

/// The compact JSON text of a value, with strings escaped as `serde_json`
/// escapes them: quote, backslash and control characters.
pub open spec fn json_text(j: JsonModel) -> Seq<char>
    decreases j,
{
    match j {
        JsonModel::Null => seq!['n', 'u', 'l', 'l'],
        JsonModel::Bool(b) => if b { seq!['t', 'r', 'u', 'e'] } else { seq!['f', 'a', 'l', 's', 'e'] },
        JsonModel::Number(n) => n,
        JsonModel::Str(s) => seq!['"'] + escape(s) + seq!['"'],
        JsonModel::Array(v) => seq!['['] + text_items(v) + seq![']'],
        JsonModel::Object(m) => seq!['{'] + text_members(m) + seq!['}'],
    }
}

/// The texts of a list's items, separated by commas.
pub open spec fn text_items(v: Seq<JsonModel>) -> Seq<char>
    decreases v,
{
    if v.len() == 0 {
        Seq::empty()
    } else if v.len() == 1 {
        json_text(v[0])
    } else {
        text_items(v.drop_last()) + seq![','] + json_text(v.last())
    }
}

/// The texts of members, `"key":value`, separated by commas.
pub open spec fn text_members(m: Seq<(Seq<char>, JsonModel)>) -> Seq<char>
    decreases m,
{
    if m.len() == 0 {
        Seq::empty()
    } else if m.len() == 1 {
        seq!['"'] + escape(m[0].0) + seq!['"', ':'] + json_text(m[0].1)
    } else {
        text_members(m.drop_last()) + seq![','] + seq!['"'] + escape(m.last().0) + seq!['"', ':']
            + json_text(m.last().1)
    }
}

fn push_escaped(s: &mut String, t: &str)
    ensures
        final(s)@ == old(s)@ + escape(t@),
{
    let n = t.unicode_len();
    let mut i: usize = 0;
    assert(t@.subrange(0, 0) =~= Seq::<char>::empty());
    while i < n
        invariant
            n == t@.len(),
            i <= n,
            s@ == old(s)@ + escape(t@.subrange(0, i as int)),
        decreases n - i,
    {
        let c = t.get_char(i);
        let ghost before = s@;
        if c == '"' {
            crate::text::push_char(s, '\\');
            crate::text::push_char(s, '"');
        } else if c == '\\' {
            crate::text::push_char(s, '\\');
            crate::text::push_char(s, '\\');
        } else if c == '\n' {
            crate::text::push_char(s, '\\');
            crate::text::push_char(s, 'n');
        } else if c == '\r' {
            crate::text::push_char(s, '\\');
            crate::text::push_char(s, 'r');
        } else if c == '\t' {
            crate::text::push_char(s, '\\');
            crate::text::push_char(s, 't');
        } else if c == '\u{8}' {
            crate::text::push_char(s, '\\');
            crate::text::push_char(s, 'b');
        } else if c == '\u{c}' {
            crate::text::push_char(s, '\\');
            crate::text::push_char(s, 'f');
        } else if (c as u32) < 0x20 {
            crate::text::push_char(s, '\\');
            crate::text::push_char(s, 'u');
            crate::text::push_char(s, '0');
            crate::text::push_char(s, '0');
            crate::text::push_char(s, hex_digit_of((c as u32 / 16) as u8));
            crate::text::push_char(s, hex_digit_of((c as u32 % 16) as u8));
        } else {
            crate::text::push_char(s, c);
        }
        assert(s@ =~= before + escape_char(c));
        assert(t@.subrange(0, i + 1).drop_last() =~= t@.subrange(0, i as int));
        i = i + 1;
    }
    assert(t@.subrange(0, n as int) =~= t@);
}

fn hex_digit_of(d: u8) -> (c: char)
    requires
        d < 16,
    ensures
        c == crate::net::hex_digit_char(d as nat),
{
    if d == 0 { '0' } else if d == 1 { '1' } else if d == 2 { '2' } else if d == 3 { '3' }
    else if d == 4 { '4' } else if d == 5 { '5' } else if d == 6 { '6' } else if d == 7 { '7' }
    else if d == 8 { '8' } else if d == 9 { '9' } else if d == 10 { 'a' } else if d == 11 { 'b' }
    else if d == 12 { 'c' } else if d == 13 { 'd' } else if d == 14 { 'e' } else { 'f' }
}

fn push_chars(s: &mut String, c: &[char])
    ensures
        final(s)@ == old(s)@ + c@,
{
    let mut i: usize = 0;
    while i < c.len()
        invariant
            i <= c@.len(),
            s@ == old(s)@ + c@.subrange(0, i as int),
        decreases c@.len() - i,
    {
        crate::text::push_char(s, c[i]);
        assert(c@.subrange(0, i + 1) =~= c@.subrange(0, i as int).push(c@[i as int]));
        i = i + 1;
    }
    assert(c@.subrange(0, c@.len() as int) =~= c@);
}

impl Json {
    /// Appends the `Debug` text of this value.
    pub fn push_debug(&self, s: &mut String)
        ensures
            final(s)@ == old(s)@ + debug_text(self@),
        decreases self,
    {
        match self {
            Json::Null => push_chars(s, &['N', 'u', 'l', 'l']),
            Json::Bool(b) => {
                push_chars(s, &['B', 'o', 'o', 'l', '(']);
                if *b { push_chars(s, &['t', 'r', 'u', 'e']); } else { push_chars(s, &['f', 'a', 'l', 's', 'e']); }
                push_chars(s, &[')']);
            },
            Json::Number(n) => {
                push_chars(s, &['N', 'u', 'm', 'b', 'e', 'r', '(']);
                push_str(s, n.as_str());
                push_chars(s, &[')']);
            },
            Json::Str(t) => {
                push_chars(s, &['S', 't', 'r', 'i', 'n', 'g', '(']);
                push_str_debug(s, t.as_str());
                push_chars(s, &[')']);
            },
            Json::Array(a) => {
                push_chars(s, &['A', 'r', 'r', 'a', 'y', ' ', '[']);
                let ghost start = s@;
                let n = a.len();
                let mut i: usize = 0;
                while i < n
                    invariant
                        *self == Json::Array(*a),
                        n == a@.len(),
                        i <= n,
                        s@ == start + debug_items(Seq::new(i as nat, |k: int| json_model(a@[k]))),
                    decreases n - i,
                {
                    assert((*self)->Array_0 == *a);
                    assert(decreases_to!(*self => (*self)->Array_0));
                    assert(decreases_to!(*a => a@));
                    assert(decreases_to!(a@ => a@[i as int]));
                    let ghost prev = Seq::new(i as nat, |k: int| json_model(a@[k]));
                    let ghost next = Seq::new((i + 1) as nat, |k: int| json_model(a@[k]));
                    assert(next.drop_last() =~= prev);
                    if i > 0 {
                        push_chars(s, &[',', ' ']);
                    }
                    a[i].push_debug(s);
                    i = i + 1;
                }
                push_chars(s, &[']']);
                proof {
                    lemma_array_model(*a);
                }
            },
            Json::Object(m) => {
                push_chars(s, &['O', 'b', 'j', 'e', 'c', 't', ' ', '{']);
                let ghost start = s@;
                let n = m.len();
                let mut i: usize = 0;
                while i < n
                    invariant
                        *self == Json::Object(*m),
                        n == m@.len(),
                        i <= n,
                        s@ == start + debug_members(members_model(m@).subrange(0, i as int)),
                    decreases n - i,
                {
                    assert((*self)->Object_0 == *m);
                    assert(decreases_to!(*self => (*self)->Object_0));
                    assert(decreases_to!(*m => m@));
                    assert(decreases_to!(m@ => m@[i as int]));
                    assert(decreases_to!(m@[i as int] => m@[i as int].1));
                    let ghost prev = members_model(m@).subrange(0, i as int);
                    let ghost next = members_model(m@).subrange(0, i + 1);
                    assert(next.drop_last() =~= prev);
                    if i > 0 {
                        push_chars(s, &[',', ' ']);
                    }
                    push_str_debug(s, m[i].0.as_str());
                    push_chars(s, &[':', ' ']);
                    m[i].1.push_debug(s);
                    i = i + 1;
                }
                push_chars(s, &['}']);
                proof {
                    lemma_object_model(*m);
                    assert(members_model(m@).subrange(0, n as int) =~= members_model(m@));
                }
            },
        }
    }

    /// Appends the compact JSON text of this value.
    pub fn push_text(&self, s: &mut String)
        ensures
            final(s)@ == old(s)@ + json_text(self@),
        decreases self,
    {
        match self {
            Json::Null => push_chars(s, &['n', 'u', 'l', 'l']),
            Json::Bool(b) => {
                if *b { push_chars(s, &['t', 'r', 'u', 'e']); } else { push_chars(s, &['f', 'a', 'l', 's', 'e']); }
            },
            Json::Number(n) => push_str(s, n.as_str()),
            Json::Str(t) => {
                push_chars(s, &['"']);
                push_escaped(s, t.as_str());
                push_chars(s, &['"']);
            },
            Json::Array(a) => {
                push_chars(s, &['[']);
                let ghost start = s@;
                let n = a.len();
                let mut i: usize = 0;
                while i < n
                    invariant
                        *self == Json::Array(*a),
                        n == a@.len(),
                        i <= n,
                        s@ == start + text_items(Seq::new(i as nat, |k: int| json_model(a@[k]))),
                    decreases n - i,
                {
                    assert((*self)->Array_0 == *a);
                    assert(decreases_to!(*self => (*self)->Array_0));
                    assert(decreases_to!(*a => a@));
                    assert(decreases_to!(a@ => a@[i as int]));
                    let ghost prev = Seq::new(i as nat, |k: int| json_model(a@[k]));
                    let ghost next = Seq::new((i + 1) as nat, |k: int| json_model(a@[k]));
                    assert(next.drop_last() =~= prev);
                    if i > 0 {
                        push_chars(s, &[',']);
                    }
                    a[i].push_text(s);
                    i = i + 1;
                }
                push_chars(s, &[']']);
                proof {
                    lemma_array_model(*a);
                }
            },
            Json::Object(m) => {
                push_chars(s, &['{']);
                let ghost start = s@;
                let n = m.len();
                let mut i: usize = 0;
                while i < n
                    invariant
                        *self == Json::Object(*m),
                        n == m@.len(),
                        i <= n,
                        s@ == start + text_members(members_model(m@).subrange(0, i as int)),
                    decreases n - i,
                {
                    assert((*self)->Object_0 == *m);
                    assert(decreases_to!(*self => (*self)->Object_0));
                    assert(decreases_to!(*m => m@));
                    assert(decreases_to!(m@ => m@[i as int]));
                    assert(decreases_to!(m@[i as int] => m@[i as int].1));
                    let ghost prev = members_model(m@).subrange(0, i as int);
                    let ghost next = members_model(m@).subrange(0, i + 1);
                    assert(next.drop_last() =~= prev);
                    if i > 0 {
                        push_chars(s, &[',']);
                    }
                    push_chars(s, &['"']);
                    push_escaped(s, m[i].0.as_str());
                    push_chars(s, &['"', ':']);
                    m[i].1.push_text(s);
                    i = i + 1;
                }
                push_chars(s, &['}']);
                proof {
                    lemma_object_model(*m);
                    assert(members_model(m@).subrange(0, n as int) =~= members_model(m@));
                }
            },
        }
    }

    /// The compact JSON text of this value.
    pub fn to_text(&self) -> (r: String)
        ensures
            r@ == json_text(self@),
    {
        let mut s = String::new();
        self.push_text(&mut s);
        s
    }
}

} // verus!
