//! The manifest document model.
//!
//! A manifest is a nested mapping of string keys to values.  The library
//! holds it as an ordered table of entries whose keys are unique, and
//! speaks about it through a mathematical model: every value is reflected
//! as a [`ValueModel`] built from `Seq`, `int` and `bool`, so that
//! contracts can state exactly which keys a transformation touches and
//! which it leaves alone.

use vstd::prelude::*;
use crate::errors::Error;
use crate::strutil::str_eq;

verus! {

broadcast use vstd::std_specs::vec::group_vec_axioms, vstd::seq::group_seq_axioms, vstd::string::group_string_axioms;

/// A value in a manifest document: a string, an integer, a boolean,
/// an array of values, or a nested table.
#[derive(Debug, PartialEq)]
pub enum Value {
    Str(String),
    Int(i64),
    Bool(bool),
    Array(Vec<Value>),
    Table(Table),
}

/// An ordered table of string keys to manifest values.
///
/// The order of entries is the order of insertion; a well-formed table
/// never holds the same key twice.
#[derive(Debug, PartialEq)]
pub struct Table {
    pub entries: Vec<(String, Value)>,
}

/// The mathematical model of a manifest value.
#[verifier::ext_equal]
pub enum ValueModel {
    Str(Seq<char>),
    Int(int),
    Bool(bool),
    Array(Seq<ValueModel>),
    Table(Seq<(Seq<char>, ValueModel)>),
}

/// The model of a table: its entries in order, keys as character sequences.
pub type TableModel = Seq<(Seq<char>, ValueModel)>;

/// Reflects an executable value into its model.
pub open spec fn value_model(v: Value) -> ValueModel
    decreases v,
{
    match v {
        Value::Str(s) => ValueModel::Str(s@),
        Value::Int(i) => ValueModel::Int(i as int),
        Value::Bool(b) => ValueModel::Bool(b),
        Value::Array(items) => ValueModel::Array(
            Seq::new(
                items@.len(),
                |i: int|
                    if 0 <= i < items@.len() {
                        value_model(items@[i])
                    } else {
                        arbitrary()
                    },
            ),
        ),
        Value::Table(t) => ValueModel::Table(
            Seq::new(
                t.entries@.len(),
                |i: int|
                    if 0 <= i < t.entries@.len() {
                        (t.entries@[i].0@, value_model(t.entries@[i].1))
                    } else {
                        arbitrary()
                    },
            ),
        ),
    }
}

impl View for Value {
    type V = ValueModel;

    open spec fn view(&self) -> ValueModel {
        value_model(*self)
    }
}

impl View for Table {
    type V = TableModel;

    /// The model of the table: its entries in order, keys and values as models.
    open spec fn view(&self) -> TableModel {
        Seq::new(
            self.entries@.len(),
            |i: int|
                if 0 <= i < self.entries@.len() {
                    (self.entries@[i].0@, value_model(self.entries@[i].1))
                } else {
                    arbitrary()
                },
        )
    }
}

/// Whether the table holds the key.
pub open spec fn has_key(t: TableModel, k: Seq<char>) -> bool {
    exists|i: int| 0 <= i < t.len() && t[i].0 == k
}

/// The index of the key in the table (unique in a well-formed table).
pub open spec fn key_at(t: TableModel, k: Seq<char>) -> int {
    choose|i: int| 0 <= i < t.len() && t[i].0 == k
}

/// The value the table maps the key to, if any.
pub open spec fn table_get(t: TableModel, k: Seq<char>) -> Option<ValueModel> {
    if has_key(t, k) {
        Some(t[key_at(t, k)].1)
    } else {
        None
    }
}

/// The table with the key bound to the value: an existing entry is
/// replaced in place, a new one is appended at the end.
pub open spec fn table_set(t: TableModel, k: Seq<char>, v: ValueModel) -> TableModel {
    if has_key(t, k) {
        t.update(key_at(t, k), (k, v))
    } else {
        t.push((k, v))
    }
}

/// The keys of the table, in order.
pub open spec fn table_keys(t: TableModel) -> Seq<Seq<char>> {
    Seq::new(t.len(), |i: int| t[i].0)
}

/// Keys are unique at this level.
pub open spec fn table_wf(t: TableModel) -> bool {
    forall|i: int, j: int| 0 <= i < j < t.len() ==> t[i].0 != t[j].0
}

/// Keys are unique at every level of the value.
pub open spec fn model_wf(v: ValueModel) -> bool
    decreases v,
{
    match v {
        ValueModel::Array(items) => forall|i: int|
            0 <= i < items.len() ==> model_wf(#[trigger] items[i]),
        ValueModel::Table(es) => table_wf(es) && forall|i: int|
            0 <= i < es.len() ==> model_wf((#[trigger] es[i]).1),
        _ => true,
    }
}

impl Table {
    /// Keys are unique at every level of the table.
    pub open spec fn wf(self) -> bool {
        model_wf(ValueModel::Table(self@))
    }

    /// An empty table.
    pub fn new() -> (t: Table)
        ensures
            t@ =~= Seq::<(Seq<char>, ValueModel)>::empty(),
            t.wf(),
    {
        Table { entries: Vec::new() }
    }

    /// The number of entries.
    pub fn len(&self) -> (n: usize)
        ensures
            n == self@.len(),
    {
        self.entries.len()
    }

    /// The index holding the key, if any.
    fn index_of(&self, key: &str) -> (r: Option<usize>)
        ensures
            match r {
                Some(i) => i < self@.len() && self@[i as int].0 == key@,
                None => !has_key(self@, key@),
            },
    {
        let n = self.entries.len();
        let mut i: usize = 0;
        while i < n
            invariant
                i <= n,
                n == self@.len(),
                n == self.entries@.len(),
                forall|j: int| 0 <= j < i ==> self@[j].0 != key@,
            decreases n - i,
        {
            if str_eq(self.entries[i].0.as_str(), key) {
                return Some(i);
            }
            i += 1;
        }
        None
    }

    /// Whether the table holds the key.
    pub fn contains_key(&self, key: &str) -> (r: bool)
        ensures
            r == has_key(self@, key@),
    {
        match self.index_of(key) {
            Some(_) => true,
            None => false,
        }
    }

    /// The value bound to the key, if any.
    pub fn get(&self, key: &str) -> (r: Option<&Value>)
        requires
            table_wf(self@),
        ensures
            match r {
                Some(v) => table_get(self@, key@) == Some(v@),
                None => table_get(self@, key@) is None,
            },
    {
        match self.index_of(key) {
            Some(i) => {
                proof {
                    lemma_key_at_unique(self@, key@, i as int);
                }
                Some(&self.entries[i].1)
            },
            None => None,
        }
    }
}

impl Table {
    /// Binds the key to the value: an existing entry is replaced in
    /// place, a new one is appended at the end.
    pub fn insert(&mut self, key: String, val: Value)
        requires
            old(self).wf(),
            model_wf(val@),
        ensures
            final(self)@ == table_set(old(self)@, key@, val@),
            final(self).wf(),
    {
        proof {
            lemma_table_set_wf(self@, key@, val@);
        }
        match self.index_of(key.as_str()) {
            Some(i) => {
                proof {
                    lemma_key_at_unique(self@, key@, i as int);
                }
                self.entries[i] = (key, val);
                proof {
                    assert(self@ =~= table_set(old(self)@, key@, val@));
                }
            },
            None => {
                self.entries.push((key, val));
                proof {
                    assert(self@ =~= table_set(old(self)@, key@, val@));
                }
            },
        }
    }
}

/// The models of a list of values, in order.
pub open spec fn models_of(items: Seq<Value>) -> Seq<ValueModel> {
    items.map_values(|x: Value| value_model(x))
}

/// A value that wraps an array has the array's models.
pub proof fn lemma_array_value_model(items: Vec<Value>)
    ensures
        value_model(Value::Array(items)) == ValueModel::Array(models_of(items@)),
{
    assert(value_model(Value::Array(items)) matches ValueModel::Array(ms) && ms =~= models_of(
        items@,
    ));
}

/// A value that wraps a table has the table's model.
pub proof fn lemma_table_value_model(t: Table)
    ensures
        value_model(Value::Table(t)) == ValueModel::Table(t@),
{
    assert(value_model(Value::Table(t)) matches ValueModel::Table(es) && es =~= t@);
}

/// What `table_set` does: the key is bound to the value, every other
/// key keeps its binding, and the keys keep their order, with a fresh
/// key appended at the end.
pub proof fn lemma_table_set_get(t: TableModel, k: Seq<char>, v: ValueModel)
    requires
        table_wf(t),
    ensures
        table_wf(table_set(t, k, v)),
        table_get(table_set(t, k, v), k) == Some(v),
        forall|k2: Seq<char>| k2 != k ==> table_get(table_set(t, k, v), k2) == table_get(t, k2),
        table_keys(table_set(t, k, v)) =~= if has_key(t, k) {
            table_keys(t)
        } else {
            table_keys(t).push(k)
        },
        has_key(table_set(t, k, v), k),
{
    let t2 = table_set(t, k, v);
    if has_key(t, k) {
        let i0 = key_at(t, k);
        assert(0 <= i0 < t.len() && t[i0].0 == k);
        assert(forall|j: int| 0 <= j < t2.len() ==> t2[j].0 == t[j].0);
        assert(table_wf(t2));
        lemma_key_at_unique(t2, k, i0);
        assert(table_get(t2, k) == Some(v));
    } else {
        let n = t.len() as int;
        assert(forall|j: int| 0 <= j < n ==> t2[j] == t[j]);
        assert(forall|j: int| 0 <= j < n ==> t2[j].0 != k);
        assert(table_wf(t2));
        lemma_key_at_unique(t2, k, n);
        assert(table_get(t2, k) == Some(v));
    }
    assert forall|k2: Seq<char>| k2 != k implies table_get(t2, k2) == table_get(t, k2) by {
        if has_key(t, k2) {
            let j = key_at(t, k2);
            assert(0 <= j < t.len() && t[j].0 == k2);
            assert(t2[j].0 == k2 && t2[j].1 == t[j].1);
            lemma_key_at_unique(t2, k2, j);
        } else {
            if has_key(t2, k2) {
                let j = key_at(t2, k2);
                assert(0 <= j < t2.len() && t2[j].0 == k2);
                assert(t[j].0 == k2);
            }
        }
    }
}

/// `table_set` keeps every level of the table well formed when the
/// inserted value is.
pub proof fn lemma_table_set_wf(t: TableModel, k: Seq<char>, v: ValueModel)
    requires
        model_wf(ValueModel::Table(t)),
        model_wf(v),
    ensures
        model_wf(ValueModel::Table(table_set(t, k, v))),
{
    lemma_table_set_get(t, k, v);
    let t2 = table_set(t, k, v);
    assert forall|i: int| 0 <= i < t2.len() implies model_wf((#[trigger] t2[i]).1) by {
        if has_key(t, k) {
            if i != key_at(t, k) {
                assert(t2[i].1 == t[i].1);
                assert(model_wf(t[i].1));
            }
        } else {
            if i < t.len() {
                assert(t2[i].1 == t[i].1);
                assert(model_wf(t[i].1));
            }
        }
    }
}

/// Binding a key to the value it already has leaves the table unchanged.
pub proof fn lemma_table_set_same(t: TableModel, k: Seq<char>, v: ValueModel)
    requires
        table_wf(t),
        table_get(t, k) == Some(v),
    ensures
        table_set(t, k, v) == t,
{
    let i0 = key_at(t, k);
    assert(0 <= i0 < t.len() && t[i0].0 == k);
    assert(t[i0] == (k, v));
    assert(table_set(t, k, v) =~= t);
}

impl Table {
    /// Whether the keys are unique at this level.
    #[verifier::loop_isolation(false)]
    fn keys_unique(&self) -> (r: bool)
        ensures
            r == table_wf(self@),
    {
        let n = self.entries.len();
        let mut i: usize = 0;
        while i < n
            invariant
                i <= n,
                n == self@.len(),
                n == self.entries@.len(),
                forall|a: int, b: int| 0 <= a < b < i ==> self@[a].0 != self@[b].0,
            decreases n - i,
        {
            let mut j: usize = 0;
            while j < i
                invariant
                    j <= i < n,
                    n == self@.len(),
                    n == self.entries@.len(),
                    forall|b: int| 0 <= b < j ==> self@[b].0 != self@[i as int].0,
                decreases i - j,
            {
                if str_eq(self.entries[j].0.as_str(), self.entries[i].0.as_str()) {
                    proof {
                        assert(self@[j as int].0 == self@[i as int].0);
                        assert(!table_wf(self@));
                    }
                    return false;
                }
                j += 1;
            }
            i += 1;
        }
        true
    }

    /// Whether the keys are unique at every level of the table.
    #[verifier::loop_isolation(false)]
    pub fn check_wf(&self) -> (r: bool)
        ensures
            r == self.wf(),
        decreases *self,
    {
        if !self.keys_unique() {
            return false;
        }
        let n = self.entries.len();
        let mut i: usize = 0;
        while i < n
            invariant
                i <= n,
                n == self@.len(),
                n == self.entries@.len(),
                table_wf(self@),
                forall|a: int| 0 <= a < i ==> model_wf((#[trigger] self@[a]).1),
            decreases n - i,
        {
            proof {
                assert(decreases_to!(*self => self.entries));
                assert(decreases_to!(self.entries => self.entries@));
                assert(decreases_to!(self.entries@ => self.entries@[i as int]));
            }
            if !check_value_wf(&self.entries[i].1) {
                proof {
                    assert(!model_wf((self@[i as int]).1));
                    assert(!self.wf());
                }
                return false;
            }
            i += 1;
        }
        true
    }
}

/// Whether the keys are unique at every level of the value.
#[verifier::loop_isolation(false)]
pub fn check_value_wf(v: &Value) -> (r: bool)
    ensures
        r == model_wf(v@),
    decreases *v,
{
    match v {
        Value::Str(_) => true,
        Value::Int(_) => true,
        Value::Bool(_) => true,
        Value::Array(items) => {
            let n = items.len();
            let mut i: usize = 0;
            while i < n
                invariant
                    i <= n,
                    n == items@.len(),
                    v == Value::Array(*items),
                    forall|a: int| 0 <= a < i ==> model_wf(#[trigger] models_of(items@)[a]),
                decreases n - i,
            {
                proof {
                    assert(*v == Value::Array(*items));
                    assert(decreases_to!(*v => *items));
                    assert(decreases_to!(*items => items@));
                    assert(decreases_to!(items@ => items@[i as int]));
                }
                if !check_value_wf(&items[i]) {
                    proof {
                        lemma_array_value_model(*items);
                        assert(v@ == ValueModel::Array(models_of(items@)));
                        assert(models_of(items@).len() == items@.len());
                        assert(!model_wf(models_of(items@)[i as int]));
                        if model_wf(v@) {
                            assert(v@->Array_0 == models_of(items@));
                            assert(model_wf((v@->Array_0)[i as int]));
                        }
                    }
                    return false;
                }
                i += 1;
            }
            proof {
                lemma_array_value_model(*items);
            }
            true
        },
        Value::Table(t) => {
            proof {
                lemma_table_value_model(*t);
            }
            t.check_wf()
        },
    }
}

impl Table {
    /// Whether the key can take a nested entry: it is absent, or
    /// already bound to a table.
    pub fn slot_free_for_table(&self, key: &str) -> (r: bool)
        requires
            table_wf(self@),
        ensures
            r == slot_is_table(self@, key@),
    {
        match self.get(key) {
            None => true,
            Some(v) => match v {
                Value::Table(t) => {
                    proof {
                        lemma_table_value_model(*t);
                    }
                    true
                },
                _ => {
                    proof {
                        assert(!(v@ is Table));
                    }
                    false
                },
            },
        }
    }
}

/// The nested table at the key, or an empty one where the key is absent.
pub open spec fn table_at(t: TableModel, k: Seq<char>) -> TableModel {
    match table_get(t, k) {
        Some(ValueModel::Table(sub)) => sub,
        _ => Seq::empty(),
    }
}

/// Whether a key can take a nested entry: it is absent, or already
/// bound to a table.
pub open spec fn slot_is_table(t: TableModel, k: Seq<char>) -> bool {
    match table_get(t, k) {
        Some(v) => v is Table,
        None => true,
    }
}

/// The table with `inner` bound to `v` inside the nested table at
/// `outer`; the nested table is created when absent.
pub open spec fn table_set_in(
    t: TableModel,
    outer: Seq<char>,
    inner: Seq<char>,
    v: ValueModel,
) -> TableModel {
    table_set(t, outer, ValueModel::Table(table_set(table_at(t, outer), inner, v)))
}

/// The table with every key of `keys` bound to `v`, set in order.
pub open spec fn table_set_all(t: TableModel, keys: Seq<Seq<char>>, v: ValueModel) -> TableModel
    decreases keys.len(),
{
    if keys.len() == 0 {
        t
    } else {
        table_set_all(table_set(t, keys[0], v), keys.drop_first(), v)
    }
}

/// The views of a list of dependency names.
pub open spec fn name_views(names: Seq<String>) -> Seq<Seq<char>> {
    names.map_values(|s: String| s@)
}

/// The wildcard version constraint.
pub open spec fn star_model() -> ValueModel {
    ValueModel::Str("*"@)
}

/// What the manifest transformation produces: `package.build` points at
/// the generated build script, the harness-support crate is declared
/// under `dev-dependencies` and `build-dependencies`, and every
/// requested dependency is declared under `dependencies` with the
/// wildcard version; each of the four tables is created only when
/// absent, and nothing else is touched.
pub open spec fn spec_transform(m: TableModel, deps: Seq<Seq<char>>) -> TableModel {
    let m1 = table_set_in(m, "package"@, "build"@, ValueModel::Str("build.rs"@));
    let m2 = table_set_in(m1, "dev-dependencies"@, "skeptic"@, star_model());
    let m3 = table_set_in(m2, "build-dependencies"@, "skeptic"@, star_model());
    table_set(
        m3,
        "dependencies"@,
        ValueModel::Table(table_set_all(table_at(m3, "dependencies"@), deps, star_model())),
    )
}

/// What `table_set_in` does to the slots of other keys and its own.
pub proof fn lemma_table_set_in_get(t: TableModel, outer: Seq<char>, inner: Seq<char>, v: ValueModel)
    requires
        model_wf(ValueModel::Table(t)),
        model_wf(v),
    ensures
        model_wf(ValueModel::Table(table_set_in(t, outer, inner, v))),
        table_get(table_set_in(t, outer, inner, v), outer) == Some(
            ValueModel::Table(table_set(table_at(t, outer), inner, v)),
        ),
        forall|k2: Seq<char>| k2 != outer ==> table_get(table_set_in(t, outer, inner, v), k2)
            == table_get(t, k2),
{
    let sub = table_at(t, outer);
    assert(model_wf(ValueModel::Table(sub))) by {
        if has_key(t, outer) {
            let i = key_at(t, outer);
            assert(0 <= i < t.len() && t[i].0 == outer);
            assert(model_wf((t[i]).1));
        }
    }
    lemma_table_set_wf(sub, inner, v);
    lemma_table_set_wf(t, outer, ValueModel::Table(table_set(sub, inner, v)));
    lemma_table_set_get(t, outer, ValueModel::Table(table_set(sub, inner, v)));
}

impl Value {
    /// The nested table, where the value is one.
    pub fn as_table(&self) -> (r: Option<&Table>)
        ensures
            match r {
                Some(t) => self@ == ValueModel::Table(t@),
                None => !(self@ is Table),
            },
    {
        match self {
            Value::Table(t) => {
                proof {
                    lemma_table_value_model(*t);
                }
                Some(t)
            },
            _ => None,
        }
    }
}

/// Binds `inner` to `val` inside the nested table at `outer`, creating
/// that table when the key is absent.
fn insert_nested(table: &mut Table, outer: &str, inner: &str, val: Value)
    requires
        old(table).wf(),
        slot_is_table(old(table)@, outer@),
        model_wf(val@),
    ensures
        final(table)@ == table_set_in(old(table)@, outer@, inner@, val@),
        final(table).wf(),
{
    proof {
        lemma_table_set_in_get(old(table)@, outer@, inner@, val@);
    }
    match table.index_of(outer) {
        None => {
            let mut sub = Table::new();
            sub.insert(inner.to_owned(), val);
            table.entries.push((outer.to_owned(), Value::Table(sub)));
            proof {
                lemma_table_value_model(sub);
                assert(table@ =~= table_set_in(old(table)@, outer@, inner@, val@));
            }
        },
        Some(i) => {
            proof {
                lemma_key_at_unique(old(table)@, outer@, i as int);
            }
            let mut tmp: (String, Value) = (String::new(), Value::Bool(false));
            core::mem::swap(&mut table.entries[i], &mut tmp);
            let (key, v) = tmp;
            match v {
                Value::Table(mut sub) => {
                    proof {
                        lemma_table_value_model(sub);
                        assert(table_get(old(table)@, outer@) == Some(
                            ValueModel::Table(sub@),
                        ));
                        assert(model_wf(ValueModel::Table(sub@)));
                    }
                    sub.insert(inner.to_owned(), val);
                    table.entries[i] = (key, Value::Table(sub));
                    proof {
                        lemma_table_value_model(sub);
                        assert(table@ =~= table_set_in(old(table)@, outer@, inner@, val@));
                    }
                },
                _ => {
                    proof {
                        assert(table_get(old(table)@, outer@) == Some(value_model(v)));
                        assert(false);
                    }
                },
            }
        },
    }
}

/// Declares every requested dependency name under the nested
/// `dependencies` table with the wildcard version, creating that table
/// when it is absent.
fn insert_deps(table: &mut Table, deps: &[String])
    requires
        old(table).wf(),
        slot_is_table(old(table)@, "dependencies"@),
    ensures
        final(table)@ == table_set(
            old(table)@,
            "dependencies"@,
            ValueModel::Table(
                table_set_all(
                    table_at(old(table)@, "dependencies"@),
                    name_views(deps@),
                    star_model(),
                ),
            ),
        ),
        final(table).wf(),
{
    let slot: Option<(usize, String)>;
    let mut sub: Table;
    match table.index_of("dependencies") {
        None => {
            slot = None;
            sub = Table::new();
        },
        Some(i) => {
            proof {
                lemma_key_at_unique(old(table)@, "dependencies"@, i as int);
            }
            let mut tmp: (String, Value) = (String::new(), Value::Bool(false));
            core::mem::swap(&mut table.entries[i], &mut tmp);
            let (key, v) = tmp;
            match v {
                Value::Table(s) => {
                    proof {
                        lemma_table_value_model(s);
                    }
                    slot = Some((i, key));
                    sub = s;
                },
                _ => {
                    proof {
                        assert(table_get(old(table)@, "dependencies"@) == Some(value_model(v)));
                        assert(false);
                    }
                    slot = None;
                    sub = Table::new();
                },
            }
        },
    }
    let ghost sub_start = sub@;
    let ghost models = name_views(deps@);
    assert(table_at(old(table)@, "dependencies"@) == sub_start);
    assert(models.skip(0) =~= models);
    let n = deps.len();
    let mut j: usize = 0;
    while j < n
        invariant
            j <= n,
            n == deps@.len(),
            models == name_views(deps@),
            sub.wf(),
            table_set_all(sub@, models.skip(j as int), star_model()) == table_set_all(
                sub_start,
                models,
                star_model(),
            ),
        decreases n - j,
    {
        proof {
            assert(models.skip(j as int)[0] == deps@[j as int]@);
            assert(models.skip(j as int).drop_first() =~= models.skip(j as int + 1));
        }
        sub.insert(deps[j].clone(), Value::Str("*".to_owned()));
        j += 1;
    }
    proof {
        assert(models.skip(n as int) =~= Seq::<Seq<char>>::empty());
        assert(sub@ == table_set_all(sub_start, models, star_model()));
        lemma_table_set_wf(old(table)@, "dependencies"@, ValueModel::Table(sub@));
    }
    match slot {
        None => {
            table.entries.push(("dependencies".to_owned(), Value::Table(sub)));
        },
        Some((i, key)) => {
            table.entries[i] = (key, Value::Table(sub));
        },
    }
    proof {
        lemma_table_value_model(sub);
        assert(table@ =~= table_set(
            old(table)@,
            "dependencies"@,
            ValueModel::Table(table_set_all(sub_start, models, star_model())),
        ));
    }
}

/// Transforms a build manifest so that the generated test crate can
/// discover and run the book's code samples: `package.build` points at
/// the generated build script, the snippet-extraction crate is declared
/// under `dev-dependencies` and `build-dependencies`, and every
/// requested dependency is declared under `dependencies` with the
/// wildcard version.  Existing unrelated entries are kept untouched.
pub fn update_cargo_toml(value: Table, deps: &[String]) -> (r: Result<Value, Error>)
    requires
        value.wf(),
        slot_is_table(value@, "package"@),
        slot_is_table(value@, "dev-dependencies"@),
        slot_is_table(value@, "build-dependencies"@),
        slot_is_table(value@, "dependencies"@),
    ensures
        r matches Ok(v) && v@ == ValueModel::Table(spec_transform(value@, name_views(deps@))),
        r matches Ok(v) && model_wf(v@),
{
    proof {
        reveal_strlit("package");
        reveal_strlit("dev-dependencies");
        reveal_strlit("build-dependencies");
        reveal_strlit("dependencies");
    }
    let ghost m0 = value@;
    let mut table = value;
    insert_nested(&mut table, "package", "build", Value::Str("build.rs".to_owned()));
    let ghost m1 = table@;
    proof {
        lemma_table_set_in_get(m0, "package"@, "build"@, ValueModel::Str("build.rs"@));
    }
    insert_nested(&mut table, "dev-dependencies", "skeptic", Value::Str("*".to_owned()));
    let ghost m2 = table@;
    proof {
        lemma_table_set_in_get(m1, "dev-dependencies"@, "skeptic"@, star_model());
    }
    insert_nested(&mut table, "build-dependencies", "skeptic", Value::Str("*".to_owned()));
    let ghost m3 = table@;
    proof {
        lemma_table_set_in_get(m2, "build-dependencies"@, "skeptic"@, star_model());
    }
    insert_deps(&mut table, deps);
    proof {
        lemma_table_value_model(table);
    }
    Ok(Value::Table(table))
}

/// The nested table at any key of a well-formed table is well formed.
pub proof fn lemma_table_at_wf(t: TableModel, k: Seq<char>)
    requires
        model_wf(ValueModel::Table(t)),
    ensures
        model_wf(ValueModel::Table(table_at(t, k))),
{
    if has_key(t, k) {
        let i = key_at(t, k);
        assert(0 <= i < t.len() && t[i].0 == k);
        assert(model_wf((t[i]).1));
        if !(t[i].1 is Table) {
            assert(table_at(t, k) =~= Seq::<(Seq<char>, ValueModel)>::empty());
        }
    }
}

/// What `table_set_all` does: every listed key is bound to the value,
/// every other key keeps its binding, and well-formedness is kept.
pub proof fn lemma_table_set_all_get(t: TableModel, keys: Seq<Seq<char>>, v: ValueModel)
    requires
        table_wf(t),
    ensures
        table_wf(table_set_all(t, keys, v)),
        forall|k: Seq<char>|
            keys.contains(k) ==> table_get(table_set_all(t, keys, v), k) == Some(v),
        forall|k: Seq<char>|
            !keys.contains(k) ==> table_get(table_set_all(t, keys, v), k) == table_get(t, k),
    decreases keys.len(),
{
    if keys.len() > 0 {
        let t1 = table_set(t, keys[0], v);
        let rest = keys.drop_first();
        let full = table_set_all(t, keys, v);
        lemma_table_set_get(t, keys[0], v);
        lemma_table_set_all_get(t1, rest, v);
        assert forall|k: Seq<char>| keys.contains(k) implies table_get(full, k) == Some(v) by {
            if !rest.contains(k) {
                let i = choose|i: int| 0 <= i < keys.len() && keys[i] == k;
                if i > 0 {
                    assert(rest[i - 1] == k);
                    assert(rest.contains(k));
                }
                assert(k == keys[0]);
                assert(table_get(t1, k) == Some(v));
            }
        }
        assert forall|k: Seq<char>| !keys.contains(k) implies table_get(full, k) == table_get(
            t,
            k,
        ) by {
            assert(keys[0] != k) by {
                if keys[0] == k {
                    assert(keys.contains(k));
                }
            }
            assert(!rest.contains(k)) by {
                if rest.contains(k) {
                    let i = choose|i: int| 0 <= i < rest.len() && rest[i] == k;
                    assert(keys[i + 1] == k);
                    assert(keys.contains(k));
                }
            }
        }
    }
}

/// `table_set_all` keeps every level of the table well formed when the
/// bound value is.
pub proof fn lemma_table_set_all_wf(t: TableModel, keys: Seq<Seq<char>>, v: ValueModel)
    requires
        model_wf(ValueModel::Table(t)),
        model_wf(v),
    ensures
        model_wf(ValueModel::Table(table_set_all(t, keys, v))),
    decreases keys.len(),
{
    if keys.len() > 0 {
        lemma_table_set_wf(t, keys[0], v);
        lemma_table_set_all_wf(table_set(t, keys[0], v), keys.drop_first(), v);
    }
}

/// Binding keys to the values they already have leaves the table
/// unchanged.
pub proof fn lemma_table_set_all_same(t: TableModel, keys: Seq<Seq<char>>, v: ValueModel)
    requires
        table_wf(t),
        forall|k: Seq<char>| keys.contains(k) ==> table_get(t, k) == Some(v),
    ensures
        table_set_all(t, keys, v) == t,
    decreases keys.len(),
{
    if keys.len() > 0 {
        assert(keys.contains(keys[0]));
        lemma_table_set_same(t, keys[0], v);
        let rest = keys.drop_first();
        assert forall|k: Seq<char>| rest.contains(k) implies table_get(t, k) == Some(v) by {
            let i = choose|i: int| 0 <= i < rest.len() && rest[i] == k;
            assert(keys[i + 1] == k);
            assert(keys.contains(k));
        }
        lemma_table_set_all_same(t, rest, v);
    }
}

/// The four tables the transformation touches, by their keys, and what
/// each holds afterwards; every other key keeps its binding.
pub proof fn lemma_transform_parts(m: TableModel, deps: Seq<Seq<char>>)
    requires
        model_wf(ValueModel::Table(m)),
    ensures
        model_wf(ValueModel::Table(spec_transform(m, deps))),
        table_get(spec_transform(m, deps), "package"@) == Some(
            ValueModel::Table(
                table_set(table_at(m, "package"@), "build"@, ValueModel::Str("build.rs"@)),
            ),
        ),
        table_get(spec_transform(m, deps), "dev-dependencies"@) == Some(
            ValueModel::Table(
                table_set(table_at(m, "dev-dependencies"@), "skeptic"@, star_model()),
            ),
        ),
        table_get(spec_transform(m, deps), "build-dependencies"@) == Some(
            ValueModel::Table(
                table_set(table_at(m, "build-dependencies"@), "skeptic"@, star_model()),
            ),
        ),
        table_get(spec_transform(m, deps), "dependencies"@) == Some(
            ValueModel::Table(table_set_all(table_at(m, "dependencies"@), deps, star_model())),
        ),
        forall|k: Seq<char>|
            k != "package"@ && k != "dev-dependencies"@ && k != "build-dependencies"@ && k
                != "dependencies"@ ==> table_get(spec_transform(m, deps), k) == table_get(m, k),
{
    reveal_strlit("package");
    reveal_strlit("dev-dependencies");
    reveal_strlit("build-dependencies");
    reveal_strlit("dependencies");
    let m1 = table_set_in(m, "package"@, "build"@, ValueModel::Str("build.rs"@));
    let m2 = table_set_in(m1, "dev-dependencies"@, "skeptic"@, star_model());
    let m3 = table_set_in(m2, "build-dependencies"@, "skeptic"@, star_model());
    assert("package"@.len() == 7);
    assert("dev-dependencies"@.len() == 16);
    assert("build-dependencies"@.len() == 18);
    assert("dependencies"@.len() == 12);
    lemma_table_set_in_get(m, "package"@, "build"@, ValueModel::Str("build.rs"@));
    assert(table_get(m1, "dev-dependencies"@) == table_get(m, "dev-dependencies"@));
    assert(table_get(m1, "build-dependencies"@) == table_get(m, "build-dependencies"@));
    assert(table_get(m1, "dependencies"@) == table_get(m, "dependencies"@));
    assert(table_at(m1, "dev-dependencies"@) == table_at(m, "dev-dependencies"@));
    lemma_table_set_in_get(m1, "dev-dependencies"@, "skeptic"@, star_model());
    assert(table_get(m2, "package"@) == table_get(m1, "package"@));
    assert(table_get(m2, "build-dependencies"@) == table_get(m1, "build-dependencies"@));
    assert(table_get(m2, "dependencies"@) == table_get(m1, "dependencies"@));
    assert(table_at(m2, "build-dependencies"@) == table_at(m, "build-dependencies"@));
    lemma_table_set_in_get(m2, "build-dependencies"@, "skeptic"@, star_model());
    assert(table_get(m3, "package"@) == table_get(m2, "package"@));
    assert(table_get(m3, "dev-dependencies"@) == table_get(m2, "dev-dependencies"@));
    assert(table_get(m3, "dependencies"@) == table_get(m2, "dependencies"@));
    assert(table_at(m3, "dependencies"@) == table_at(m, "dependencies"@));
    lemma_table_at_wf(m, "dependencies"@);
    lemma_table_set_all_wf(table_at(m, "dependencies"@), deps, star_model());
    lemma_table_set_wf(
        m3,
        "dependencies"@,
        ValueModel::Table(table_set_all(table_at(m, "dependencies"@), deps, star_model())),
    );
    lemma_table_set_get(
        m3,
        "dependencies"@,
        ValueModel::Table(table_set_all(table_at(m, "dependencies"@), deps, star_model())),
    );
}

/// Transforming a manifest twice with the same dependency set gives the
/// same manifest as transforming it once.
pub proof fn lemma_transform_idempotent(m: TableModel, deps: Seq<Seq<char>>)
    requires
        model_wf(ValueModel::Table(m)),
    ensures
        spec_transform(spec_transform(m, deps), deps) == spec_transform(m, deps),
{
    reveal_strlit("package");
    reveal_strlit("dev-dependencies");
    reveal_strlit("build-dependencies");
    reveal_strlit("dependencies");
    lemma_transform_parts(m, deps);
    let tr = spec_transform(m, deps);
    let pkg = table_set(table_at(m, "package"@), "build"@, ValueModel::Str("build.rs"@));
    let dev = table_set(table_at(m, "dev-dependencies"@), "skeptic"@, star_model());
    let bld = table_set(table_at(m, "build-dependencies"@), "skeptic"@, star_model());
    let dep = table_set_all(table_at(m, "dependencies"@), deps, star_model());

    lemma_table_at_wf(m, "package"@);
    lemma_table_set_get(table_at(m, "package"@), "build"@, ValueModel::Str("build.rs"@));
    lemma_table_at_wf(m, "dev-dependencies"@);
    lemma_table_set_get(table_at(m, "dev-dependencies"@), "skeptic"@, star_model());
    lemma_table_at_wf(m, "build-dependencies"@);
    lemma_table_set_get(table_at(m, "build-dependencies"@), "skeptic"@, star_model());
    lemma_table_at_wf(m, "dependencies"@);
    lemma_table_set_all_get(table_at(m, "dependencies"@), deps, star_model());

    // The second pass binds, at every step, a key to the value it
    // already has, so each step is the identity.
    let n1 = table_set_in(tr, "package"@, "build"@, ValueModel::Str("build.rs"@));
    assert(table_at(tr, "package"@) == pkg);
    lemma_table_set_same(pkg, "build"@, ValueModel::Str("build.rs"@));
    lemma_table_set_same(tr, "package"@, ValueModel::Table(pkg));
    assert(n1 == tr);

    let n2 = table_set_in(n1, "dev-dependencies"@, "skeptic"@, star_model());
    assert(table_at(tr, "dev-dependencies"@) == dev);
    lemma_table_set_same(dev, "skeptic"@, star_model());
    lemma_table_set_same(tr, "dev-dependencies"@, ValueModel::Table(dev));
    assert(n2 == tr);

    let n3 = table_set_in(n2, "build-dependencies"@, "skeptic"@, star_model());
    assert(table_at(tr, "build-dependencies"@) == bld);
    lemma_table_set_same(bld, "skeptic"@, star_model());
    lemma_table_set_same(tr, "build-dependencies"@, ValueModel::Table(bld));
    assert(n3 == tr);

    assert(table_at(tr, "dependencies"@) == dep);
    assert forall|k: Seq<char>| deps.contains(k) implies table_get(dep, k) == Some(
        star_model(),
    ) by {}
    lemma_table_set_all_same(dep, deps, star_model());
    lemma_table_set_same(tr, "dependencies"@, ValueModel::Table(dep));
    assert(spec_transform(tr, deps) == tr);
}

/// Every requested dependency name is declared under `dependencies` in
/// the transformed manifest, whatever the manifest held before.
pub proof fn lemma_transform_declares_dependencies(
    m: TableModel,
    deps: Seq<Seq<char>>,
    d: Seq<char>,
)
    requires
        model_wf(ValueModel::Table(m)),
        deps.contains(d),
    ensures
        table_get(spec_transform(m, deps), "dependencies"@) matches Some(v) && v is Table,
        table_get(table_at(spec_transform(m, deps), "dependencies"@), d) == Some(star_model()),
{
    lemma_transform_parts(m, deps);
    lemma_table_at_wf(m, "dependencies"@);
    lemma_table_set_all_get(table_at(m, "dependencies"@), deps, star_model());
}

/// The transformation never removes or overwrites an unrelated key:
/// every key other than the four it touches keeps its binding, and
/// inside `package` every key other than `build` keeps its binding.
pub proof fn lemma_transform_preserves_unrelated(
    m: TableModel,
    deps: Seq<Seq<char>>,
    k: Seq<char>,
)
    requires
        model_wf(ValueModel::Table(m)),
    ensures
        k != "package"@ && k != "dev-dependencies"@ && k != "build-dependencies"@ && k
            != "dependencies"@ ==> table_get(spec_transform(m, deps), k) == table_get(m, k),
        k != "build"@ ==> table_get(table_at(spec_transform(m, deps), "package"@), k)
            == table_get(table_at(m, "package"@), k),
{
    lemma_transform_parts(m, deps);
    lemma_table_at_wf(m, "package"@);
    lemma_table_set_get(table_at(m, "package"@), "build"@, ValueModel::Str("build.rs"@));
}

/// In a well-formed table the witness index of a key is unique.
pub proof fn lemma_key_at_unique(t: TableModel, k: Seq<char>, i: int)
    requires
        table_wf(t),
        0 <= i < t.len(),
        t[i].0 == k,
    ensures
        has_key(t, k),
        key_at(t, k) == i,
{
    assert(has_key(t, k));
    let j = key_at(t, k);
    assert(0 <= j < t.len() && t[j].0 == k);
    if i < j {
        assert(t[i].0 != t[j].0);
    } else if j < i {
        assert(t[j].0 != t[i].0);
    }
}

} // verus!
