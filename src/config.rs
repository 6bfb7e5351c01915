use vstd::prelude::*;

verus! {

/// Mathematical model of a configuration tree.
pub enum ConfigModel {
    Null,
    Bool(bool),
    Number(Seq<char>),
    Text(Seq<char>),
    Array(Seq<ConfigModel>),
    Object(Seq<(Seq<char>, ConfigModel)>),
}

/// A dynamically typed configuration tree, as found under a
/// `metadata.gluegun` table. Numbers are kept in their textual form.
#[derive(Debug, PartialEq)]
pub enum ConfigValue {
    Null,
    Bool(bool),
    Number(String),
    String(String),
    Array(Vec<ConfigValue>),
    Object(Vec<(String, ConfigValue)>),
}

impl View for ConfigValue {
    type V = ConfigModel;

    open spec fn view(&self) -> ConfigModel
        decreases self,
    {
        match self {
            ConfigValue::Null => ConfigModel::Null,
            ConfigValue::Bool(b) => ConfigModel::Bool(*b),
            ConfigValue::Number(n) => ConfigModel::Number(n@),
            ConfigValue::String(s) => ConfigModel::Text(s@),
            ConfigValue::Array(items) => ConfigModel::Array(
                Seq::new(
                    items@.len(),
                    |i: int|
                        if 0 <= i < items@.len() {
                            items@[i].view()
                        } else {
                            ConfigModel::Null
                        },
                ),
            ),
            ConfigValue::Object(entries) => ConfigModel::Object(
                Seq::new(
                    entries@.len(),
                    |i: int|
                        (
                            entries@[i].0@,
                            if 0 <= i < entries@.len() {
                                entries@[i].1.view()
                            } else {
                                ConfigModel::Null
                            },
                        ),
                ),
            ),
        }
    }
}


/// The value that `key` maps to in `entries`; a later entry shadows an
/// earlier one with the same key.
pub open spec fn entry_of(entries: Seq<(Seq<char>, ConfigModel)>, key: Seq<char>) -> Option<
    ConfigModel,
>
    decreases entries.len(),
{
    if entries.len() == 0 {
        None
    } else if entries.last().0 == key {
        Some(entries.last().1)
    } else {
        entry_of(entries.drop_last(), key)
    }
}

/// No key occurs twice among `entries`.
pub open spec fn keys_unique(entries: Seq<(Seq<char>, ConfigModel)>) -> bool {
    forall|i: int, j: int|
        0 <= i < j < entries.len() ==> #[trigger] entries[i].0 != #[trigger] entries[j].0
}

impl ConfigModel {
    /// Every object in the tree maps each of its keys once.
    pub open spec fn wf(self) -> bool
        decreases self,
    {
        match self {
            ConfigModel::Array(items) => forall|i: int|
                0 <= i < items.len() ==> (#[trigger] items[i]).wf(),
            ConfigModel::Object(entries) => keys_unique(entries) && forall|i: int|
                0 <= i < entries.len() ==> (#[trigger] entries[i]).1.wf(),
            _ => true,
        }
    }
}

/// `key` has an entry exactly when some position holds it.
pub proof fn lemma_entry_of_none(entries: Seq<(Seq<char>, ConfigModel)>, key: Seq<char>)
    ensures
        entry_of(entries, key) is None <==> forall|i: int|
            0 <= i < entries.len() ==> #[trigger] entries[i].0 != key,
    decreases entries.len(),
{
    if entries.len() > 0 {
        lemma_entry_of_none(entries.drop_last(), key);
        if entry_of(entries, key) is None {
            assert forall|i: int| 0 <= i < entries.len() implies #[trigger] entries[i].0 != key by {
                if i < entries.len() - 1 {
                    assert(entries.drop_last()[i] == entries[i]);
                }
            }
        } else {
            if entries.last().0 != key {
                let i = choose|i: int| 0 <= i < entries.len() - 1 && #[trigger] entries.drop_last()[i].0 == key;
                assert(entries[i] == entries.drop_last()[i]);
            }
        }
    }
}

impl ConfigValue {
    /// A copy of the whole tree.
    pub fn deep_copy(&self) -> (r: ConfigValue)
        ensures
            r@ == self@,
        decreases self,
    {
        match self {
            ConfigValue::Null => ConfigValue::Null,
            ConfigValue::Bool(b) => ConfigValue::Bool(*b),
            ConfigValue::Number(n) => ConfigValue::Number(n.clone()),
            ConfigValue::String(s) => ConfigValue::String(s.clone()),
            ConfigValue::Array(items) => {
                let mut out: Vec<ConfigValue> = Vec::new();
                let mut i: usize = 0;
                while i < items.len()
                    invariant
                        *self == ConfigValue::Array(*items),
                        i <= items.len(),
                        out.len() == i,
                        forall|j: int| 0 <= j < i ==> (#[trigger] out@[j])@ == items@[j]@,
                    decreases items.len() - i,
                {
                    proof {
                        vstd::std_specs::vec::axiom_vec_index_decreases(*items, i as int);
                        assert(decreases_to!(*self => self->Array_0));
                    }
                    out.push(items[i].deep_copy());
                    i = i + 1;
                }
                let r = ConfigValue::Array(out);
                assert(r@ == self@) by {
                    assert(r@->Array_0 =~= self@->Array_0);
                }
                r
            },
            ConfigValue::Object(entries) => {
                let mut out: Vec<(String, ConfigValue)> = Vec::new();
                let mut i: usize = 0;
                while i < entries.len()
                    invariant
                        *self == ConfigValue::Object(*entries),
                        i <= entries.len(),
                        out.len() == i,
                        forall|j: int|
                            0 <= j < i ==> (#[trigger] out@[j]).0@ == entries@[j].0@ && out@[j].1@
                                == entries@[j].1@,
                    decreases entries.len() - i,
                {
                    proof {
                        vstd::std_specs::vec::axiom_vec_index_decreases(*entries, i as int);
                        assert(decreases_to!(*self => self->Object_0));
                    }
                    let value = entries[i].1.deep_copy();
                    out.push((entries[i].0.clone(), value));
                    i = i + 1;
                }
                let r = ConfigValue::Object(out);
                assert(r@ == self@) by {
                    assert forall|j: int| 0 <= j < out.len() implies #[trigger] r@->Object_0[j]
                        == self@->Object_0[j] by {
                        assert(out@[j].0@ == entries@[j].0@);
                    }
                    assert(r@->Object_0 =~= self@->Object_0);
                }
                r
            },
        }
    }
}


/// The subtree under `key` when `m` is an object; none otherwise.
pub open spec fn lookup(m: ConfigModel, key: Seq<char>) -> Option<ConfigModel> {
    match m {
        ConfigModel::Object(entries) => entry_of(entries, key),
        _ => None,
    }
}

/// The view of an optional borrowed tree.
pub open spec fn opt_view(v: Option<&ConfigValue>) -> Option<ConfigModel> {
    match v {
        Some(x) => Some(x@),
        None => None,
    }
}

impl ConfigValue {
    /// The subtree under `key` when this tree is an object.
    pub fn get(&self, key: &String) -> (r: Option<&ConfigValue>)
        ensures
            opt_view(r) == lookup(self@, key@),
            self@.wf() ==> (r matches Some(v) ==> v@.wf()),
    {
        match self {
            ConfigValue::Object(entries) => {
                let ghost m = self@->Object_0;
                assert(m.len() == entries.len());
                assert(m.take(m.len() as int) =~= m);
                let mut i: usize = entries.len();
                while i > 0
                    invariant
                        i <= entries.len(),
                        m == self@->Object_0,
                        *self == ConfigValue::Object(*entries),
                        m.len() == entries.len(),
                        entry_of(m, key@) == entry_of(m.take(i as int), key@),
                    decreases i,
                {
                    assert(m.take(i as int).drop_last() =~= m.take(i - 1));
                    assert(m[i - 1] == (entries@[i - 1].0@, entries@[i - 1].1@));
                    if entries[i - 1].0 == *key {
                        return Some(&entries[i - 1].1);
                    }
                    i = i - 1;
                }
                assert(m.take(0) =~= Seq::<(Seq<char>, ConfigModel)>::empty());
                None
            },
            _ => None,
        }
    }
}

} // verus!
