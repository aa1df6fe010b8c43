use vstd::prelude::*;
use crate::config::Config;
use crate::error::AddError;
use crate::json::{
    field, find_key, has_key, lemma_first_key_bounds, lemma_upserted_fields, members, object_field,
    upsert, upserted, JsonValue,
};
use crate::paths::{join_path, joined_path};

verus! {

/// The top-level member of the downstream configuration that maps partition
/// names to partitions.
pub const PARTITIONS_KEY: &'static str = "partitions";

/// Prefix of the partition names this tool manages, which sets them apart
/// from hand-written ones.
pub const PARTITION_PREFIX: &'static str = "__rodep_auto_";

/// Name of the partition that holds dependency `name`.
pub open spec fn partition_key(name: Seq<char>) -> Seq<char> {
    PARTITION_PREFIX@ + name
}

/// Path of the partition for dependency `name` with source directory `src_dir`.
pub open spec fn partition_path(lib_dir: Seq<char>, name: Seq<char>, src_dir: Seq<char>) -> Seq<char> {
    joined_path(joined_path(lib_dir, name), src_dir)
}

/// Target of a partition synchronized under the name `sync_name`.
pub open spec fn partition_target(lib_target: Seq<char>, sync_name: Seq<char>) -> Seq<char> {
    lib_target + seq!['.'] + sync_name
}

/// The path and target of `v` when it is a partition object: an object with a
/// string member `path` followed by a string member `target`, and nothing else.
pub open spec fn partition_object(v: JsonValue) -> Option<(Seq<char>, Seq<char>)> {
    match v {
        JsonValue::Object(f) => {
            if f@.len() == 2 && f@[0].0@ == "path"@ && f@[1].0@ == "target"@ {
                match (f@[0].1, f@[1].1) {
                    (JsonValue::Str(p), JsonValue::Str(t)) => Some((p@, t@)),
                    _ => None,
                }
            } else {
                None
            }
        },
        _ => None,
    }
}

/// What a reader of `doc` finds as the partition named `key`.
pub open spec fn read_partition(doc: JsonValue, key: Seq<char>) -> Option<JsonValue> {
    match object_field(doc, PARTITIONS_KEY@) {
        Some(p) => object_field(p, key),
        None => None,
    }
}

/// How many members the partition map of `doc` holds.
pub open spec fn partition_count(doc: JsonValue) -> int {
    members(object_field(doc, PARTITIONS_KEY@)).len() as int
}

/// Whether a partition can be put into `doc`: it is empty (null) or an object
/// whose partition map is absent, null or an object.
pub open spec fn can_patch(doc: JsonValue) -> bool {
    match doc {
        JsonValue::Null => true,
        JsonValue::Object(f) => match field(f@, PARTITIONS_KEY@) {
            None => true,
            Some(JsonValue::Null) => true,
            Some(JsonValue::Object(_)) => true,
            _ => false,
        },
        _ => false,
    }
}

/// `new` is `old` with the partition `key` set to `v`: the partition map is
/// set in the top-level object (which a null document becomes), and `key` is
/// set in the partition map (which an absent or null one starts out as empty).
pub open spec fn patched(old: JsonValue, new: JsonValue, key: Seq<char>, v: JsonValue) -> bool {
    let top = members(Some(old));
    let parts = members(field(top, PARTITIONS_KEY@));
    match new {
        JsonValue::Object(g) => match field(g@, PARTITIONS_KEY@) {
            Some(np) => match np {
                JsonValue::Object(q) => {
                    &&& upserted(top, g@, PARTITIONS_KEY@, np)
                    &&& upserted(parts, q@, key, v)
                },
                _ => false,
            },
            None => false,
        },
        _ => false,
    }
}

/// `new` is `old` with the partition of dependency `name` set to the entry the
/// settings and the source directory and sync name give.
pub open spec fn added(
    old: JsonValue,
    new: JsonValue,
    lib_target: Seq<char>,
    lib_dir: Seq<char>,
    name: Seq<char>,
    src_dir: Seq<char>,
    sync_name: Seq<char>,
) -> bool {
    exists|e: JsonValue|
        #[trigger] patched(old, new, partition_key(name), e) && partition_object(e) == Some(
            (partition_path(lib_dir, name, src_dir), partition_target(lib_target, sync_name)),
        )
}

/// The path and target of the partition of dependency `name` in `doc`.
pub open spec fn partition_of(doc: JsonValue, name: Seq<char>) -> Option<(Seq<char>, Seq<char>)> {
    match read_partition(doc, partition_key(name)) {
        Some(e) => partition_object(e),
        None => None,
    }
}

/// Reads back the path and target of the partition of dependency `name`.
pub fn get_partition(doc: &JsonValue, name: &str) -> (r: Option<(String, String)>)
    ensures
        match r {
            Some((p, t)) => partition_of(*doc, name@) == Some((p@, t@)),
            None => partition_of(*doc, name@) is None,
        },
{
    let mut key = String::from_str(PARTITION_PREFIX);
    key.append(name);
    let pkey = String::from_str(PARTITIONS_KEY);
    let path_key = String::from_str("path");
    let target_key = String::from_str("target");
    if let JsonValue::Object(f) = doc {
        if let Some(i) = find_key(f, &pkey) {
            if let JsonValue::Object(q) = &f[i].1 {
                if let Some(j) = find_key(q, &key) {
                    if let JsonValue::Object(e) = &q[j].1 {
                        if e.len() == 2 && e[0].0.eq(&path_key) && e[1].0.eq(&target_key) {
                            if let (JsonValue::Str(p), JsonValue::Str(t)) = (&e[0].1, &e[1].1) {
                                return Some((p.clone(), t.clone()));
                            }
                        }
                    }
                }
            }
        }
    }
    None
}

/// A partition object with the given path and target.
pub fn partition_value(path: String, target: String) -> (r: JsonValue)
    ensures
        partition_object(r) == Some((path@, target@)),
{
    let mut f: Vec<(String, JsonValue)> = Vec::new();
    f.push((String::from_str("path"), JsonValue::Str(path)));
    f.push((String::from_str("target"), JsonValue::Str(target)));
    JsonValue::Object(f)
}

/// Sets the partition `key` of the document `doc` to `v`.
pub fn patch_document(doc: JsonValue, key: String, v: JsonValue) -> (r: Result<JsonValue, AddError>)
    ensures
        r is Ok <==> can_patch(doc),
        r is Err ==> r == Err::<JsonValue, AddError>(AddError::MalformedConfig),
        r matches Ok(n) ==> patched(doc, n, key@, v),
{
    let ghost old_doc = doc;
    let pkey = String::from_str(PARTITIONS_KEY);
    let mut fields: Vec<(String, JsonValue)> = match doc {
        JsonValue::Null => Vec::new(),
        JsonValue::Object(f) => f,
        _ => {
            return Err(AddError::MalformedConfig);
        },
    };
    let ghost top = fields@;
    assert(top == members(Some(old_doc)));
    match find_key(&fields, &pkey) {
        Some(i) => {
            let (k0, pv) = fields.remove(i);
            assert(field(top, pkey@) == Some(pv));
            let parts: Vec<(String, JsonValue)> = match pv {
                JsonValue::Null => Vec::new(),
                JsonValue::Object(q) => q,
                _ => {
                    return Err(AddError::MalformedConfig);
                },
            };
            let np = JsonValue::Object(upsert(parts, key, v));
            let ghost gnp = np;
            fields.insert(i, (k0, np));
            proof {
                lemma_first_key_bounds(top, pkey@);
                assert forall|j: int| 0 <= j < top.len() && j != i implies fields@[j] == top[j] by {
                    if j > i {
                        assert(fields@[j] == top.remove(i as int)[j - 1]);
                    }
                }
                assert(upserted(top, fields@, pkey@, gnp));
                lemma_upserted_fields(top, fields@, pkey@, gnp);
            }
            Ok(JsonValue::Object(fields))
        },
        None => {
            let np = JsonValue::Object(upsert(Vec::new(), key, v));
            let ghost gnp = np;
            let fields = upsert(fields, pkey, np);
            proof {
                lemma_upserted_fields(top, fields@, PARTITIONS_KEY@, gnp);
            }
            Ok(JsonValue::Object(fields))
        },
    }
}

/// Registers dependency `submodule_name` in the downstream configuration
/// `doc`: its partition's path is the source directory `submodule_src_dir`
/// under the dependency's checkout, and its target is `target_name` under the
/// library target. An existing partition of the same name is replaced.
pub fn add_submodule_to_rojo(
    cfg: &Config,
    doc: JsonValue,
    submodule_name: &str,
    submodule_src_dir: &str,
    target_name: &str,
) -> (r: Result<JsonValue, AddError>)
    ensures
        r is Ok <==> can_patch(doc),
        r is Err ==> r == Err::<JsonValue, AddError>(AddError::MalformedConfig),
        r matches Ok(n) ==> added(
            doc,
            n,
            cfg.lib_target@,
            cfg.lib_dir@,
            submodule_name@,
            submodule_src_dir@,
            target_name@,
        ),
{
    let checkout = join_path(cfg.lib_dir.as_str(), submodule_name);
    let path = join_path(checkout.as_str(), submodule_src_dir);
    let mut target = cfg.lib_target.clone();
    let dot = ".";
    proof {
        reveal_strlit(".");
    }
    target.append(dot);
    target.append(target_name);
    let mut key = String::from_str(PARTITION_PREFIX);
    key.append(submodule_name);
    assert(key@ == partition_key(submodule_name@));
    assert(path@ == partition_path(cfg.lib_dir@, submodule_name@, submodule_src_dir@));
    assert(target@ == partition_target(cfg.lib_target@, target_name@));
    let v = partition_value(path, target);
    let ghost gv = v;
    let r = patch_document(doc, key, v);
    if let Ok(n) = &r {
        assert(patched(doc, *n, partition_key(submodule_name@), gv));
    }
    r
}

/// Adding a dependency and reading the document back yields its partition:
/// under the name made from the dependency's name stands an entry whose path
/// is the source directory under the dependency's checkout and whose target is
/// the sync name under the library target.
pub proof fn lemma_patch_round_trip(
    old: JsonValue,
    new: JsonValue,
    lib_target: Seq<char>,
    lib_dir: Seq<char>,
    name: Seq<char>,
    src_dir: Seq<char>,
    sync_name: Seq<char>,
)
    requires
        added(old, new, lib_target, lib_dir, name, src_dir, sync_name),
    ensures
        read_partition(new, partition_key(name)) matches Some(e) && partition_object(e) == Some(
            (partition_path(lib_dir, name, src_dir), partition_target(lib_target, sync_name)),
        ),
{
    let e = choose|e: JsonValue|
        #[trigger] patched(old, new, partition_key(name), e) && partition_object(e) == Some(
            (partition_path(lib_dir, name, src_dir), partition_target(lib_target, sync_name)),
        );
    lemma_patch_sets(old, new, partition_key(name), e);
}

/// Setting partition `key` to `v` makes `v` what a reader finds under `key`
/// and leaves what it finds under every other name as it was.
pub proof fn lemma_patch_sets(old: JsonValue, new: JsonValue, key: Seq<char>, v: JsonValue)
    requires
        patched(old, new, key, v),
    ensures
        read_partition(new, key) == Some(v),
        forall|k2: Seq<char>| k2 != key ==> read_partition(new, k2) == read_partition(old, k2),
        partition_count(new) == members(field(members(Some(old)), PARTITIONS_KEY@)).len() + (if has_key(
            members(field(members(Some(old)), PARTITIONS_KEY@)),
            key,
        ) {
            0int
        } else {
            1int
        }),
{
    let top = members(Some(old));
    let parts = members(field(top, PARTITIONS_KEY@));
    if let JsonValue::Object(g) = new {
        let np = field(g@, PARTITIONS_KEY@)->Some_0;
        if let JsonValue::Object(q) = np {
            lemma_upserted_fields(parts, q@, key, v);
            assert forall|k2: Seq<char>| k2 != key implies read_partition(new, k2) == read_partition(
                old,
                k2,
            ) by {
                match old {
                    JsonValue::Object(f) => {
                        match field(f@, PARTITIONS_KEY@) {
                            Some(JsonValue::Object(p)) => {},
                            _ => {},
                        }
                    },
                    _ => {},
                }
            }
        }
    }
}

/// Partitions accumulate: after setting `k1` and then a different `k2`, a
/// reader finds both entries.
pub proof fn lemma_patches_accumulate(
    d0: JsonValue,
    d1: JsonValue,
    d2: JsonValue,
    k1: Seq<char>,
    e1: JsonValue,
    k2: Seq<char>,
    e2: JsonValue,
)
    requires
        patched(d0, d1, k1, e1),
        patched(d1, d2, k2, e2),
        k1 != k2,
    ensures
        read_partition(d2, k1) == Some(e1),
        read_partition(d2, k2) == Some(e2),
{
    lemma_patch_sets(d0, d1, k1, e1);
    lemma_patch_sets(d1, d2, k2, e2);
}

/// Adding the same dependency twice replaces its partition: the second entry
/// is what a reader finds, the partition map grows no further, and every
/// other partition is as the first addition left it.
pub proof fn lemma_readd_overwrites(
    d0: JsonValue,
    d1: JsonValue,
    d2: JsonValue,
    key: Seq<char>,
    e1: JsonValue,
    e2: JsonValue,
)
    requires
        patched(d0, d1, key, e1),
        patched(d1, d2, key, e2),
    ensures
        read_partition(d2, key) == Some(e2),
        partition_count(d2) == partition_count(d1),
        forall|k2: Seq<char>| k2 != key ==> read_partition(d2, k2) == read_partition(d1, k2),
{
    lemma_patch_sets(d0, d1, key, e1);
    lemma_patch_sets(d1, d2, key, e2);
    let g1 = members(Some(d1));
    let q1 = members(field(g1, PARTITIONS_KEY@));
    lemma_first_key_bounds(q1, key);
}

} // verus!
