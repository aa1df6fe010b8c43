use vstd::prelude::*;

verus! {

/// A JSON document as a tree of tagged values. Members of an object keep the
/// order in which they stand in the text; numbers keep their text.
#[derive(Debug, PartialEq, Eq)]
pub enum JsonValue {
    Null,
    Bool(bool),
    Number(String),
    Str(String),
    Array(Vec<JsonValue>),
    Object(Vec<(String, JsonValue)>),
}

/// Index of the first member of `fields` named `k` (`fields.len()` when none is).
pub open spec fn first_key(fields: Seq<(String, JsonValue)>, k: Seq<char>) -> int
    decreases fields.len(),
{
    if fields.len() == 0 {
        0
    } else if fields[0].0@ == k {
        0
    } else {
        1 + first_key(fields.drop_first(), k)
    }
}

/// Whether some member of `fields` is named `k`.
pub open spec fn has_key(fields: Seq<(String, JsonValue)>, k: Seq<char>) -> bool {
    first_key(fields, k) < fields.len()
}

/// The value of the first member of `fields` named `k`: what a reader of the
/// document finds under that name.
pub open spec fn field(fields: Seq<(String, JsonValue)>, k: Seq<char>) -> Option<JsonValue> {
    if has_key(fields, k) {
        Some(fields[first_key(fields, k)].1)
    } else {
        None
    }
}

/// The members of `v` when it is an object, and none otherwise.
pub open spec fn members(v: Option<JsonValue>) -> Seq<(String, JsonValue)> {
    match v {
        Some(JsonValue::Object(f)) => f@,
        _ => Seq::empty(),
    }
}

/// What `doc` holds under `k`, when `doc` is an object.
pub open spec fn object_field(doc: JsonValue, k: Seq<char>) -> Option<JsonValue> {
    match doc {
        JsonValue::Object(f) => field(f@, k),
        _ => None,
    }
}

/// `new` is `old` with `k` set to `v`: the first member named `k` gets the
/// value `v` in place, or a member `k: v` is appended when there is none; every
/// other member stays where it was.
pub open spec fn upserted(
    old: Seq<(String, JsonValue)>,
    new: Seq<(String, JsonValue)>,
    k: Seq<char>,
    v: JsonValue,
) -> bool {
    if has_key(old, k) {
        let i = first_key(old, k);
        &&& new.len() == old.len()
        &&& new[i].0@ == k
        &&& new[i].1 == v
        &&& forall|j: int| 0 <= j < old.len() && j != i ==> new[j] == old[j]
    } else {
        &&& new.len() == old.len() + 1
        &&& new[old.len() as int].0@ == k
        &&& new[old.len() as int].1 == v
        &&& forall|j: int| 0 <= j < old.len() ==> new[j] == old[j]
    }
}

pub proof fn lemma_first_key_bounds(fields: Seq<(String, JsonValue)>, k: Seq<char>)
    ensures
        0 <= first_key(fields, k) <= fields.len(),
        forall|j: int| 0 <= j < first_key(fields, k) ==> fields[j].0@ != k,
        has_key(fields, k) ==> fields[first_key(fields, k)].0@ == k,
    decreases fields.len(),
{
    if fields.len() > 0 && fields[0].0@ != k {
        let t = fields.drop_first();
        lemma_first_key_bounds(t, k);
        assert forall|j: int| 0 <= j < first_key(fields, k) implies fields[j].0@ != k by {
            if j > 0 {
                assert(fields[j] == t[j - 1]);
            }
        }
    }
}

/// The first member named `k` is at `i` when none before `i` is named `k` and
/// the one at `i` is (or `i` is past the end).
pub proof fn lemma_first_key_at(fields: Seq<(String, JsonValue)>, k: Seq<char>, i: int)
    requires
        0 <= i <= fields.len(),
        forall|j: int| 0 <= j < i ==> fields[j].0@ != k,
        i == fields.len() || fields[i].0@ == k,
    ensures
        first_key(fields, k) == i,
    decreases i,
{
    if i > 0 {
        let t = fields.drop_first();
        assert forall|j: int| 0 <= j < i - 1 implies t[j].0@ != k by {
            assert(t[j] == fields[j + 1]);
        }
        lemma_first_key_at(t, k, i - 1);
    }
}

/// After setting `k`, a reader finds `v` under `k` and, under every other
/// name, what it found before.
pub proof fn lemma_upserted_fields(
    old: Seq<(String, JsonValue)>,
    new: Seq<(String, JsonValue)>,
    k: Seq<char>,
    v: JsonValue,
)
    requires
        upserted(old, new, k, v),
    ensures
        field(new, k) == Some(v),
        forall|k2: Seq<char>| k2 != k ==> field(new, k2) == field(old, k2),
        new.len() == old.len() + (if has_key(old, k) { 0int } else { 1int }),
{
    lemma_first_key_bounds(old, k);
    let i = first_key(old, k);
    lemma_first_key_at(new, k, i);
    assert forall|k2: Seq<char>| k2 != k implies field(new, k2) == field(old, k2) by {
        lemma_first_key_bounds(old, k2);
        let m = first_key(old, k2);
        if m < old.len() {
            assert(m != i);
            lemma_first_key_at(new, k2, m);
        } else if has_key(old, k) {
            lemma_first_key_at(new, k2, m);
        } else {
            lemma_first_key_at(new, k2, m + 1);
        }
    }
}

/// Index of the first member of `fields` named `k`, if any.
pub fn find_key(fields: &Vec<(String, JsonValue)>, k: &String) -> (r: Option<usize>)
    ensures
        r matches Some(i) ==> i == first_key(fields@, k@) && i < fields@.len(),
        r is None ==> !has_key(fields@, k@),
{
    let mut i: usize = 0;
    while i < fields.len()
        invariant
            0 <= i <= fields@.len(),
            forall|j: int| 0 <= j < i ==> fields@[j].0@ != k@,
        decreases fields.len() - i,
    {
        if fields[i].0.eq(k) {
            proof {
                lemma_first_key_at(fields@, k@, i as int);
            }
            return Some(i);
        }
        i = i + 1;
    }
    proof {
        lemma_first_key_at(fields@, k@, i as int);
    }
    None
}

/// Sets the member `k` of an object's members to `v`.
pub fn upsert(fields: Vec<(String, JsonValue)>, k: String, v: JsonValue) -> (r: Vec<(String, JsonValue)>)
    ensures
        upserted(fields@, r@, k@, v),
{
    let mut fields = fields;
    let ghost old_fields = fields@;
    match find_key(&fields, &k) {
        Some(i) => {
            let _ = fields.remove(i);
            fields.insert(i, (k, v));
            assert forall|j: int| 0 <= j < old_fields.len() && j != i implies fields@[j]
                == old_fields[j] by {
                if j > i {
                    assert(fields@[j] == old_fields.remove(i as int)[j - 1]);
                }
            }
        },
        None => {
            fields.push((k, v));
        },
    }
    fields
}

} // verus!
