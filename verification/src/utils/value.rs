//! A configuration document (the JSON and YAML values that the builders
//! produce and the templates hold), with its mathematical tree.

use vstd::prelude::*;
use vstd::string::StringExecFns;
use crate::utils::text::{chars_to_string, decimal_chars, decimal_text, str_eq, views};

verus! {

/// A JSON / YAML value. Numbers are kept as their decimal text; objects
/// keep their entries in order.
#[derive(Debug)]
pub enum ConfigValue {
    Null,
    Bool(bool),
    Number(String),
    Str(String),
    Array(Vec<ConfigValue>),
    Object(Vec<Entry>),
}

/// One key of an object and its value.
#[derive(Debug)]
pub struct Entry {
    pub key: String,
    pub value: ConfigValue,
}

/// The mathematical value of a document.
pub enum Tree {
    Null,
    Bool(bool),
    Number(Seq<char>),
    Str(Seq<char>),
    Array(Seq<Tree>),
    Object(Seq<(Seq<char>, Tree)>),
}

pub open spec fn tree(v: ConfigValue) -> Tree
    decreases v, 1int,
{
    match v {
        ConfigValue::Null => Tree::Null,
        ConfigValue::Bool(b) => Tree::Bool(b),
        ConfigValue::Number(n) => Tree::Number(n@),
        ConfigValue::Str(s) => Tree::Str(s@),
        ConfigValue::Array(items) => Tree::Array(trees(items@)),
        ConfigValue::Object(entries) => Tree::Object(entry_trees(entries@)),
    }
}

pub open spec fn trees(s: Seq<ConfigValue>) -> Seq<Tree>
    decreases s, 0int,
{
    if s.len() == 0 {
        Seq::empty()
    } else {
        trees(s.drop_last()).push(tree(s.last()))
    }
}

pub open spec fn entry_trees(s: Seq<Entry>) -> Seq<(Seq<char>, Tree)>
    decreases s, 0int,
{
    if s.len() == 0 {
        Seq::empty()
    } else {
        entry_trees(s.drop_last()).push((s.last().key@, tree(s.last().value)))
    }
}

pub proof fn lemma_entry_trees_push(s: Seq<Entry>, e: Entry)
    ensures
        entry_trees(s.push(e)) == entry_trees(s).push((e.key@, tree(e.value))),
{
    assert(s.push(e).drop_last() =~= s);
}

pub proof fn lemma_trees_push(s: Seq<ConfigValue>, v: ConfigValue)
    ensures
        trees(s.push(v)) == trees(s).push(tree(v)),
{
    assert(s.push(v).drop_last() =~= s);
}

pub proof fn lemma_trees_append(a: Seq<ConfigValue>, b: Seq<ConfigValue>)
    ensures
        trees(a + b) == trees(a) + trees(b),
    decreases b.len(),
{
    if b.len() == 0 {
        assert(a + b =~= a);
        assert(trees(a) + trees(b) =~= trees(a));
    } else {
        lemma_trees_append(a, b.drop_last());
        assert((a + b).drop_last() =~= a + b.drop_last());
        assert(trees(a) + trees(b) =~= (trees(a) + trees(b.drop_last())).push(tree(b.last())));
    }
}

pub proof fn lemma_trees_len(s: Seq<ConfigValue>)
    ensures
        trees(s).len() == s.len(),
    decreases s.len(),
{
    if s.len() > 0 {
        lemma_trees_len(s.drop_last());
    }
}

pub proof fn lemma_trees_index(s: Seq<ConfigValue>, i: int)
    requires
        0 <= i < s.len(),
    ensures
        trees(s).len() == s.len(),
        trees(s)[i] == tree(s[i]),
    decreases s.len(),
{
    lemma_trees_len(s);
    if i < s.len() - 1 {
        lemma_trees_index(s.drop_last(), i);
    }
}

pub proof fn lemma_entry_trees_len(s: Seq<Entry>)
    ensures
        entry_trees(s).len() == s.len(),
    decreases s.len(),
{
    if s.len() > 0 {
        lemma_entry_trees_len(s.drop_last());
    }
}

pub proof fn lemma_entry_trees_index(s: Seq<Entry>, i: int)
    requires
        0 <= i < s.len(),
    ensures
        entry_trees(s).len() == s.len(),
        entry_trees(s)[i] == (s[i].key@, tree(s[i].value)),
    decreases s.len(),
{
    lemma_entry_trees_len(s);
    if i < s.len() - 1 {
        lemma_entry_trees_index(s.drop_last(), i);
    }
}

/// A string value.
pub fn vstr(s: &str) -> (res: ConfigValue)
    ensures
        tree(res) == Tree::Str(s@),
{
    ConfigValue::Str(String::from_str(s))
}

/// A string value holding a copy of `s`.
pub fn vstring(s: &String) -> (res: ConfigValue)
    ensures
        tree(res) == Tree::Str(s@),
{
    ConfigValue::Str(s.clone())
}

/// A number value.
pub fn vnumber(n: u64) -> (res: ConfigValue)
    ensures
        tree(res) == Tree::Number(decimal_text(n as nat)),
{
    let d = decimal_chars(n);
    ConfigValue::Number(chars_to_string(d.as_slice()))
}

/// Appends an entry to an object under construction.
pub fn push_entry(o: &mut Vec<Entry>, key: &str, value: ConfigValue)
    ensures
        entry_trees(final(o)@) == entry_trees(old(o)@).push((key@, tree(value))),
{
    let ghost t = tree(value);
    let e = Entry { key: String::from_str(key), value };
    proof {
        lemma_entry_trees_push(o@, e);
    }
    o.push(e);
}

/// Appends an item to an array under construction.
pub fn push_item(a: &mut Vec<ConfigValue>, value: ConfigValue)
    ensures
        trees(final(a)@) == trees(old(a)@).push(tree(value)),
{
    proof {
        lemma_trees_push(a@, value);
    }
    a.push(value);
}

/// An empty object under construction.
pub fn new_object() -> (res: Vec<Entry>)
    ensures
        entry_trees(res@) == Seq::<(Seq<char>, Tree)>::empty(),
{
    Vec::new()
}

/// An empty array under construction.
pub fn new_array() -> (res: Vec<ConfigValue>)
    ensures
        trees(res@) == Seq::<Tree>::empty(),
{
    Vec::new()
}

/// The entries with `key` appended where there is a value.
pub open spec fn push_opt(s: Seq<(Seq<char>, Tree)>, key: Seq<char>, v: Option<Tree>) -> Seq<
    (Seq<char>, Tree),
> {
    match v {
        Some(t) => s.push((key, t)),
        None => s,
    }
}

pub open spec fn opt_str_tree(o: Option<Seq<char>>) -> Option<Tree> {
    match o {
        Some(s) => Some(Tree::Str(s)),
        None => None,
    }
}

pub open spec fn opt_bool_tree(o: Option<bool>) -> Option<Tree> {
    match o {
        Some(b) => Some(Tree::Bool(b)),
        None => None,
    }
}

pub open spec fn opt_view(o: Option<String>) -> Option<Seq<char>> {
    match o {
        Some(s) => Some(s@),
        None => None,
    }
}

/// Appends `key` with a string value where there is one.
pub fn push_opt_str(o: &mut Vec<Entry>, key: &str, value: &Option<String>)
    ensures
        entry_trees(final(o)@) == push_opt(entry_trees(old(o)@), key@, opt_str_tree(opt_view(*value))),
{
    match value {
        Some(v) => push_entry(o, key, vstring(v)),
        None => {},
    }
}

/// Appends `key` with a boolean value where there is one.
pub fn push_opt_bool(o: &mut Vec<Entry>, key: &str, value: Option<bool>)
    ensures
        entry_trees(final(o)@) == push_opt(entry_trees(old(o)@), key@, opt_bool_tree(value)),
{
    match value {
        Some(b) => push_entry(o, key, ConfigValue::Bool(b)),
        None => {},
    }
}

/// An array of one string.
pub fn single_str_array(s: &String) -> (res: ConfigValue)
    ensures
        tree(res) == Tree::Array(seq![Tree::Str(s@)]),
{
    let mut a = new_array();
    push_item(&mut a, vstring(s));
    assert(trees(a@) =~= seq![Tree::Str(s@)]);
    ConfigValue::Array(a)
}

pub open spec fn str_trees(parts: Seq<Seq<char>>) -> Seq<Tree> {
    parts.map_values(|p: Seq<char>| Tree::Str(p))
}

/// An array of strings.
pub fn str_array(parts: &Vec<Vec<char>>) -> (res: ConfigValue)
    ensures
        tree(res) == Tree::Array(str_trees(views(parts@))),
{
    let mut a = new_array();
    let mut i: usize = 0;
    while i < parts.len()
        invariant
            i <= parts.len(),
            trees(a@) == str_trees(views(parts@)).take(i as int),
        decreases parts.len() - i,
    {
        push_item(&mut a, ConfigValue::Str(chars_to_string(parts[i].as_slice())));
        assert(str_trees(views(parts@)).take(i + 1) =~= str_trees(views(parts@)).take(i as int).push(
            Tree::Str(parts@[i as int]@),
        ));
        i = i + 1;
    }
    assert(str_trees(views(parts@)).take(parts.len() as int) =~= str_trees(views(parts@)));
    ConfigValue::Array(a)
}

pub open spec fn has_key(t: Tree, key: Seq<char>) -> bool {
    match t {
        Tree::Object(es) => key_index(es, key) is Some,
        _ => false,
    }
}

/// Index of the first entry with the key.
pub open spec fn key_index(es: Seq<(Seq<char>, Tree)>, key: Seq<char>) -> Option<int>
    decreases es.len(),
{
    if es.len() == 0 {
        None
    } else {
        match key_index(es.drop_last(), key) {
            Some(i) => Some(i),
            None => if es.last().0 == key {
                Some(es.len() - 1)
            } else {
                None
            },
        }
    }
}

pub proof fn lemma_key_index_prefix(es: Seq<(Seq<char>, Tree)>, k: int, key: Seq<char>)
    requires
        0 <= k <= es.len(),
        key_index(es.take(k), key) is Some,
    ensures
        key_index(es, key) == key_index(es.take(k), key),
    decreases es.len(),
{
    if k == es.len() {
        assert(es.take(k) =~= es);
    } else {
        assert(es.drop_last().take(k) =~= es.take(k));
        lemma_key_index_prefix(es.drop_last(), k, key);
    }
}

pub proof fn lemma_key_index_bound(es: Seq<(Seq<char>, Tree)>, key: Seq<char>)
    ensures
        key_index(es, key) matches Some(i) ==> 0 <= i < es.len() && es[i].0 == key,
    decreases es.len(),
{
    if es.len() > 0 {
        lemma_key_index_bound(es.drop_last(), key);
    }
}

/// Index of the first entry with the key.
pub fn find_key(es: &Vec<Entry>, key: &str) -> (res: Option<usize>)
    ensures
        match key_index(entry_trees(es@), key@) {
            Some(i) => res == Some(i as usize) && i < es.len(),
            None => res is None,
        },
        res matches Some(j) ==> j < es.len() && key_index(entry_trees(es@), key@) == Some(j as int),
{
    let mut i: usize = 0;
    proof {
        lemma_entry_trees_len(es@);
    }
    let ghost et = entry_trees(es@);
    assert(et.take(0) =~= Seq::<(Seq<char>, Tree)>::empty());
    while i < es.len()
        invariant
            i <= es.len(),
            et == entry_trees(es@),
            et.len() == es.len(),
            key_index(et.take(i as int), key@) is None,
        decreases es.len() - i,
    {
        proof {
            lemma_entry_trees_index(es@, i as int);
        }
        assert(et.take(i + 1).drop_last() =~= et.take(i as int));
        if str_eq(es[i].key.as_str(), key) {
            assert(key_index(et.take(i + 1), key@) == Some(i as int));
            proof {
                lemma_key_index_prefix(et, i as int + 1, key@);
            }
            return Some(i);
        }
        i = i + 1;
    }
    assert(et.take(es.len() as int) =~= et);
    None
}

pub proof fn lemma_trees_update(s: Seq<ConfigValue>, i: int, v: ConfigValue)
    requires
        0 <= i < s.len(),
    ensures
        trees(s.update(i, v)) == trees(s).update(i, tree(v)),
{
    lemma_trees_len(s);
    lemma_trees_len(s.update(i, v));
    assert forall|j: int| 0 <= j < s.len() implies #[trigger] trees(s.update(i, v))[j] == trees(
        s,
    ).update(i, tree(v))[j] by {
        lemma_trees_index(s.update(i, v), j);
        lemma_trees_index(s, j);
    }
    assert(trees(s.update(i, v)) =~= trees(s).update(i, tree(v)));
}

pub proof fn lemma_entry_trees_update(s: Seq<Entry>, i: int, e: Entry)
    requires
        0 <= i < s.len(),
    ensures
        entry_trees(s.update(i, e)) == entry_trees(s).update(i, (e.key@, tree(e.value))),
{
    lemma_entry_trees_len(s);
    lemma_entry_trees_len(s.update(i, e));
    assert forall|j: int| 0 <= j < s.len() implies #[trigger] entry_trees(s.update(i, e))[j]
        == entry_trees(s).update(i, (e.key@, tree(e.value)))[j] by {
        lemma_entry_trees_index(s.update(i, e), j);
        lemma_entry_trees_index(s, j);
    }
    assert(entry_trees(s.update(i, e)) =~= entry_trees(s).update(i, (e.key@, tree(e.value))));
}

/// Takes out the entry at `i`.
pub fn take_entry(es: &mut Vec<Entry>, i: usize) -> (res: Entry)
    requires
        i < old(es).len(),
    ensures
        res == old(es)@[i as int],
        final(es)@ == old(es)@.remove(i as int),
{
    es.remove(i)
}

/// Puts an entry back at `i`, where one was taken out.
pub(crate) fn put_entry(es: &mut Vec<Entry>, i: usize, e: Entry, Ghost(orig): Ghost<Seq<Entry>>)
    requires
        i < orig.len(),
        old(es)@ == orig.remove(i as int),
    ensures
        entry_trees(final(es)@) == entry_trees(orig).update(i as int, (e.key@, tree(e.value))),
{
    es.insert(i, e);
    assert(es@ =~= orig.update(i as int, e));
    proof {
        lemma_entry_trees_update(orig, i as int, e);
    }
}

/// Sets `key` to `value`: in place where the key is present, appended
/// where it is not.
pub open spec fn obj_set(es: Seq<(Seq<char>, Tree)>, key: Seq<char>, v: Tree) -> Seq<
    (Seq<char>, Tree),
> {
    match key_index(es, key) {
        Some(i) => es.update(i, (key, v)),
        None => es.push((key, v)),
    }
}

/// Sets `key` to `value` in an object's entries.
pub fn set_entry(es: &mut Vec<Entry>, key: &str, value: ConfigValue)
    ensures
        entry_trees(final(es)@) == obj_set(entry_trees(old(es)@), key@, tree(value)),
{
    match find_key(es, key) {
        Some(i) => {
            let ghost orig = es@;
            let _old = take_entry(es, i);
            put_entry(es, i, Entry { key: String::from_str(key), value }, Ghost(orig));
        },
        None => push_entry(es, key, value),
    }
}

/// Takes out the item at `i`.
pub fn take_item(a: &mut Vec<ConfigValue>, i: usize) -> (res: ConfigValue)
    requires
        i < old(a).len(),
    ensures
        res == old(a)@[i as int],
        final(a)@ == old(a)@.remove(i as int),
{
    a.remove(i)
}

/// Puts an item back at `i`, where one was taken out.
pub(crate) fn put_item(a: &mut Vec<ConfigValue>, i: usize, v: ConfigValue, Ghost(orig): Ghost<Seq<ConfigValue>>)
    requires
        i < orig.len(),
        old(a)@ == orig.remove(i as int),
    ensures
        trees(final(a)@) == trees(orig).update(i as int, tree(v)),
{
    a.insert(i, v);
    assert(a@ =~= orig.update(i as int, v));
    proof {
        lemma_trees_update(orig, i as int, v);
    }
}

/// The value under `key` where the document is an object with that key.
pub open spec fn field_of(t: Tree, key: Seq<char>) -> Option<Tree> {
    match t {
        Tree::Object(es) => match key_index(es, key) {
            Some(i) => Some(es[i].1),
            None => None,
        },
        _ => None,
    }
}

impl ConfigValue {
    /// The value under `key`, where this is an object that has the key.
    pub fn get(&self, key: &str) -> (res: Option<&ConfigValue>)
        ensures
            match field_of(tree(*self), key@) {
                Some(t) => res matches Some(v) && tree(*v) == t,
                None => res is None,
            },
    {
        match self {
            ConfigValue::Object(es) => {
                proof {
                    lemma_key_index_bound(entry_trees(es@), key@);
                }
                match find_key(es, key) {
                    Some(i) => {
                        proof {
                            lemma_entry_trees_index(es@, i as int);
                        }
                        Some(&es[i].value)
                    },
                    None => None,
                }
            },
            _ => None,
        }
    }

    /// The boolean this value is, if it is one.
    pub fn as_bool(&self) -> (res: Option<bool>)
        ensures
            res == match tree(*self) {
                Tree::Bool(b) => Some(b),
                _ => None,
            },
    {
        match self {
            ConfigValue::Bool(b) => Some(*b),
            _ => None,
        }
    }

    /// The string this value is, if it is one.
    pub fn as_str(&self) -> (res: Option<&str>)
        ensures
            match tree(*self) {
                Tree::Str(s) => res matches Some(r) && r@ == s,
                _ => res is None,
            },
    {
        match self {
            ConfigValue::Str(s) => Some(s.as_str()),
            _ => None,
        }
    }
}

} // verus!
