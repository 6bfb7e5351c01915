use vstd::prelude::*;

use crate::config::{
    entry_of, keys_unique, lemma_entry_of_none, opt_view, ConfigModel, ConfigValue,
};
use crate::error::GluegunError;

verus! {

/// The model of an object's entries.
pub open spec fn entries_view(entries: Seq<(String, ConfigValue)>) -> Seq<(Seq<char>, ConfigModel)> {
    Seq::new(entries.len(), |i: int| (entries[i].0@, entries[i].1@))
}

/// An object's view is the view of its entries.
pub proof fn lemma_object_view(entries: Vec<(String, ConfigValue)>)
    ensures
        ConfigValue::Object(entries)@ == ConfigModel::Object(entries_view(entries@)),
{
    assert(ConfigValue::Object(entries)@->Object_0 =~= entries_view(entries@));
}

/// Both trees have the same kind, so that they can be merged.
pub open spec fn same_kind(workspace: ConfigModel, package: ConfigModel) -> bool {
    match (workspace, package) {
        (ConfigModel::Null, ConfigModel::Null) => true,
        (ConfigModel::Bool(_), ConfigModel::Bool(_)) => true,
        (ConfigModel::Number(_), ConfigModel::Number(_)) => true,
        (ConfigModel::Text(_), ConfigModel::Text(_)) => true,
        (ConfigModel::Array(_), ConfigModel::Array(_)) => true,
        (ConfigModel::Object(_), ConfigModel::Object(_)) => true,
        _ => false,
    }
}

/// The entry of `key` after merging two objects: the package's entry if it
/// has one, else the workspace's.
pub open spec fn merged_entry(
    workspace: Seq<(Seq<char>, ConfigModel)>,
    package: Seq<(Seq<char>, ConfigModel)>,
    key: Seq<char>,
) -> Option<ConfigModel> {
    match entry_of(package, key) {
        Some(v) => Some(v),
        None => entry_of(workspace, key),
    }
}

/// `r` is the merge of two present trees of the same kind: for two objects,
/// the union of their keys where the package's value wins; otherwise the
/// package's tree.
pub open spec fn is_merge_of(r: ConfigModel, workspace: ConfigModel, package: ConfigModel) -> bool {
    match (workspace, package) {
        (ConfigModel::Object(a), ConfigModel::Object(b)) => {
            &&& r is Object
            &&& keys_unique(r->Object_0)
            &&& forall|k: Seq<char>| #[trigger] entry_of(r->Object_0, k) == merged_entry(a, b, k)
        },
        _ => r == package,
    }
}

/// Whether `key` has an entry among `entries`.
fn contains_key(entries: &Vec<(String, ConfigValue)>, key: &String) -> (r: bool)
    ensures
        r == (entry_of(entries_view(entries@), key@) is Some),
{
    let ghost m = entries_view(entries@);
    let mut i: usize = 0;
    while i < entries.len()
        invariant
            i <= entries.len(),
            m == entries_view(entries@),
            forall|j: int| 0 <= j < i ==> (#[trigger] m[j]).0 != key@,
        decreases entries.len() - i,
    {
        if entries[i].0 == *key {
            proof {
                lemma_entry_of_none(m, key@);
                assert(m[i as int].0 == key@);
            }
            return true;
        }
        i = i + 1;
    }
    proof {
        lemma_entry_of_none(m, key@);
    }
    false
}

proof fn lemma_push_entry(
    entries: Seq<(Seq<char>, ConfigModel)>,
    e: (Seq<char>, ConfigModel),
    key: Seq<char>,
)
    ensures
        entry_of(entries.push(e), key) == if e.0 == key {
            Some(e.1)
        } else {
            entry_of(entries, key)
        },
{
    assert(entries.push(e).drop_last() =~= entries);
}

proof fn lemma_take_next(entries: Seq<(Seq<char>, ConfigModel)>, i: int, key: Seq<char>)
    requires
        0 <= i < entries.len(),
    ensures
        entry_of(entries.take(i + 1), key) == if entries[i].0 == key {
            Some(entries[i].1)
        } else {
            entry_of(entries.take(i), key)
        },
{
    assert(entries.take(i + 1) =~= entries.take(i).push(entries[i]));
    lemma_push_entry(entries.take(i), entries[i], key);
}

/// A key of a list with unique keys has no entry before its own position.
proof fn lemma_unique_prefix(entries: Seq<(Seq<char>, ConfigModel)>, i: int)
    requires
        keys_unique(entries),
        0 <= i < entries.len(),
    ensures
        entry_of(entries.take(i), entries[i].0) is None,
        entry_of(entries, entries[i].0) is Some,
{
    lemma_entry_of_none(entries.take(i), entries[i].0);
    lemma_entry_of_none(entries, entries[i].0);
    assert forall|j: int| 0 <= j < i implies #[trigger] entries.take(i)[j].0 != entries[i].0 by {
        assert(entries.take(i)[j] == entries[j]);
    }
}

/// Pushing an entry whose key is new keeps keys unique.
proof fn lemma_push_unique(entries: Seq<(Seq<char>, ConfigModel)>, e: (Seq<char>, ConfigModel))
    requires
        keys_unique(entries),
        entry_of(entries, e.0) is None,
    ensures
        keys_unique(entries.push(e)),
{
    lemma_entry_of_none(entries, e.0);
    let s = entries.push(e);
    assert forall|i: int, j: int| 0 <= i < j < s.len() implies #[trigger] s[i].0 != #[trigger] s[j].0 by {
        if j == entries.len() {
            assert(entries[i].0 != e.0);
        } else {
            assert(s[i] == entries[i] && s[j] == entries[j]);
        }
    }
}


/// Merges two objects' entries: the workspace's entries whose key the
/// package lacks, then all of the package's entries.
fn merge_entries(a: &Vec<(String, ConfigValue)>, b: &Vec<(String, ConfigValue)>) -> (r: Vec<(String, ConfigValue)>)
    requires
        ConfigValue::Object(*a)@.wf(),
        ConfigValue::Object(*b)@.wf(),
    ensures
        ConfigValue::Object(r)@.wf(),
        forall|k: Seq<char>|
            #[trigger] entry_of(entries_view(r@), k) == merged_entry(
                entries_view(a@),
                entries_view(b@),
                k,
            ),
{
    let ghost wa = entries_view(a@);
    let ghost wb = entries_view(b@);
    proof {
        lemma_object_view(*a);
        lemma_object_view(*b);
    }
    let mut out: Vec<(String, ConfigValue)> = Vec::new();
    let mut i: usize = 0;
    while i < a.len()
        invariant
            i <= a.len(),
            wa == entries_view(a@),
            wb == entries_view(b@),
            keys_unique(wa),
            keys_unique(wb),
            forall|j: int| 0 <= j < wa.len() ==> (#[trigger] wa[j]).1.wf(),
            keys_unique(entries_view(out@)),
            forall|j: int| 0 <= j < out.len() ==> (#[trigger] entries_view(out@)[j]).1.wf(),
            forall|k: Seq<char>|
                #[trigger] entry_of(entries_view(out@), k) == if entry_of(wb, k) is Some {
                    None
                } else {
                    entry_of(wa.take(i as int), k)
                },
        decreases a.len() - i,
    {
        let ghost before = entries_view(out@);
        proof {
            lemma_unique_prefix(wa, i as int);
        }
        if !contains_key(b, &a[i].0) {
            let value = a[i].1.deep_copy();
            out.push((a[i].0.clone(), value));
            proof {
                assert(entries_view(out@) =~= before.push(wa[i as int]));
                lemma_push_unique(before, wa[i as int]);
            }
        } else {
            assert(entries_view(out@) =~= before);
        }
        proof {
            assert forall|k: Seq<char>|
                #[trigger] entry_of(entries_view(out@), k) == if entry_of(wb, k) is Some {
                    None
                } else {
                    entry_of(wa.take(i + 1), k)
                } by {
                lemma_take_next(wa, i as int, k);
                lemma_push_entry(before, wa[i as int], k);
            }
        }
        i = i + 1;
    }
    assert(wa.take(a.len() as int) =~= wa);
    let mut t: usize = 0;
    while t < b.len()
        invariant
            t <= b.len(),
            wa == entries_view(a@),
            wb == entries_view(b@),
            keys_unique(wb),
            forall|j: int| 0 <= j < wb.len() ==> (#[trigger] wb[j]).1.wf(),
            keys_unique(entries_view(out@)),
            forall|j: int| 0 <= j < out.len() ==> (#[trigger] entries_view(out@)[j]).1.wf(),
            forall|k: Seq<char>|
                #[trigger] entry_of(entries_view(out@), k) == match entry_of(wb.take(t as int), k) {
                    Some(v) => Some(v),
                    None => if entry_of(wb, k) is Some {
                        None
                    } else {
                        entry_of(wa, k)
                    },
                },
        decreases b.len() - t,
    {
        let ghost before = entries_view(out@);
        proof {
            lemma_unique_prefix(wb, t as int);
        }
        let value = b[t].1.deep_copy();
        out.push((b[t].0.clone(), value));
        proof {
            assert(entries_view(out@) =~= before.push(wb[t as int]));
            lemma_push_unique(before, wb[t as int]);
            assert forall|k: Seq<char>|
                #[trigger] entry_of(entries_view(out@), k) == match entry_of(
                    wb.take(t + 1),
                    k,
                ) {
                    Some(v) => Some(v),
                    None => if entry_of(wb, k) is Some {
                        None
                    } else {
                        entry_of(wa, k)
                    },
                } by {
                lemma_take_next(wb, t as int, k);
                lemma_push_entry(before, wb[t as int], k);
            }
        }
        t = t + 1;
    }
    proof {
        assert(wb.take(b.len() as int) =~= wb);
        lemma_object_view(out);
    }
    out
}

/// Merges two present configuration trees, the package's over the
/// workspace's. Two objects merge key by key, one level deep; two trees of
/// another common kind give the package's tree; trees of different kinds
/// conflict.
pub fn merge_values(workspace: &ConfigValue, package: &ConfigValue) -> (r: Result<ConfigValue, GluegunError>)
    requires
        workspace@.wf(),
        package@.wf(),
    ensures
        r is Ok <==> same_kind(workspace@, package@),
        match r {
            Ok(v) => is_merge_of(v@, workspace@, package@) && v@.wf(),
            Err(GluegunError::ConfigMergeConflict { workspace: w, package: p }) => w@
                == workspace@ && p@ == package@,
            Err(_) => false,
        },
{
    match (workspace, package) {
        (ConfigValue::Null, ConfigValue::Null)
        | (ConfigValue::Bool(_), ConfigValue::Bool(_))
        | (ConfigValue::Number(_), ConfigValue::Number(_))
        | (ConfigValue::String(_), ConfigValue::String(_))
        | (ConfigValue::Array(_), ConfigValue::Array(_)) => Ok(package.deep_copy()),
        (ConfigValue::Object(a), ConfigValue::Object(b)) => {
            let merged = merge_entries(a, b);
            proof {
                lemma_object_view(merged);
                lemma_object_view(*a);
                lemma_object_view(*b);
            }
            Ok(ConfigValue::Object(merged))
        },
        _ => Err(
            GluegunError::ConfigMergeConflict {
                workspace: workspace.deep_copy(),
                package: package.deep_copy(),
            },
        ),
    }
}

/// Merging two objects keeps every key of either side: a key that the
/// package sets takes the package's value, and a key that only the workspace
/// sets keeps the workspace's value.
pub proof fn law_object_merge_keeps_keys(
    workspace: Seq<(Seq<char>, ConfigModel)>,
    package: Seq<(Seq<char>, ConfigModel)>,
    merged: ConfigModel,
    key: Seq<char>,
)
    requires
        is_merge_of(merged, ConfigModel::Object(workspace), ConfigModel::Object(package)),
    ensures
        merged is Object,
        entry_of(package, key) is Some ==> entry_of(merged->Object_0, key) == entry_of(
            package,
            key,
        ),
        entry_of(package, key) is None ==> entry_of(merged->Object_0, key) == entry_of(
            workspace,
            key,
        ),
{
}

/// Two present trees of one kind other than object merge to the package's
/// tree.
pub proof fn law_same_kind_merge_takes_package(
    workspace: ConfigModel,
    package: ConfigModel,
    merged: ConfigModel,
)
    requires
        same_kind(workspace, package),
        !(package is Object),
        is_merge_of(merged, workspace, package),
    ensures
        merged == package,
{
}

/// The merge of an optional workspace tree and an optional package tree.
pub open spec fn merge_metadata_spec(
    workspace: Option<ConfigModel>,
    package: Option<ConfigModel>,
    r: ConfigModel,
) -> bool {
    match (workspace, package) {
        (Some(w), Some(p)) => is_merge_of(r, w, p),
        (Some(w), None) => r == w,
        (None, Some(p)) => r == p,
        (None, None) => r == ConfigModel::Null,
    }
}

/// Merges the workspace-scope and package-scope configuration, either of
/// which may be absent: an absent side leaves the other unchanged, and two
/// absent sides give null.
pub fn merge_metadata(workspace: Option<&ConfigValue>, package: Option<&ConfigValue>) -> (r: Result<ConfigValue, GluegunError>)
    requires
        workspace matches Some(w) ==> w@.wf(),
        package matches Some(p) ==> p@.wf(),
    ensures
        r is Ok <==> match (workspace, package) {
            (Some(w), Some(p)) => same_kind(w@, p@),
            _ => true,
        },
        match r {
            Ok(v) => merge_metadata_spec(opt_view(workspace), opt_view(package), v@) && v@.wf(),
            Err(GluegunError::ConfigMergeConflict { workspace: w, package: p }) => opt_view(
                workspace,
            ) == Some(w@) && opt_view(package) == Some(p@),
            Err(_) => false,
        },
{
    match (workspace, package) {
        (Some(w), Some(p)) => merge_values(w, p),
        (Some(w), None) => Ok(w.deep_copy()),
        (None, Some(p)) => Ok(p.deep_copy()),
        (None, None) => Ok(ConfigValue::Null),
    }
}

} // verus!
