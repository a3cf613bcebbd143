//! Ordered column/value collections and SQL expression fragments.

use vstd::prelude::*;
use indexmap::IndexMap;
use crate::arguments::{Arguments, named_view, values_view};
use crate::codec::Encode;
use crate::error::{Error, Result};
use crate::query::{Query, QueryStatement, query_sql};
use crate::text::{chars_of, string_from_chars};
use crate::value::{Value, ValueView};

verus! {

/// The insertion-ordered hash map of the `indexmap` crate.
#[verifier::external_type_specification]
#[verifier::external_body]
#[verifier::reject_recursive_types(K)]
#[verifier::reject_recursive_types(V)]
#[verifier::reject_recursive_types(S)]
pub struct ExIndexMap<K, V, S>(IndexMap<K, V, S>);

/// The keys of an index map with unit values, in their order.
pub uninterp spec fn index_map_keys(m: IndexMap<String, ()>) -> Seq<Seq<char>>;

/// `IndexMap::new`: an empty map.
#[verifier::external_body]
fn index_map_new() -> (r: IndexMap<String, ()>)
    ensures
        index_map_keys(r) == Seq::<Seq<char>>::empty(),
{
    IndexMap::new()
}

/// `IndexMap::insert_full`: when an equal key is present it keeps its place
/// and its index is returned; otherwise the key is appended last and its new
/// index (the old length) is returned.
#[verifier::external_body]
fn index_map_insert_full(m: &mut IndexMap<String, ()>, key: String) -> (r: usize)
    ensures
        index_map_keys(*old(m)).contains(key@) ==> index_map_keys(*final(m)) == index_map_keys(
            *old(m),
        ) && r < index_map_keys(*old(m)).len() && index_map_keys(*old(m))[r as int] == key@,
        !index_map_keys(*old(m)).contains(key@) ==> index_map_keys(*final(m)) == index_map_keys(
            *old(m),
        ).push(key@) && r == index_map_keys(*old(m)).len(),
{
    m.insert_full(key, ()).0
}

/// `IndexMap::len`: the number of keys.
#[verifier::external_body]
fn index_map_len(m: &IndexMap<String, ()>) -> (r: usize)
    ensures
        r == index_map_keys(*m).len(),
{
    m.len()
}

/// `IndexMap::get_index`: the key at position `i`, copied.
#[verifier::external_body]
fn index_map_key_at(m: &IndexMap<String, ()>, i: usize) -> (r: String)
    requires
        i < index_map_keys(*m).len(),
    ensures
        r@ == index_map_keys(*m)[i as int],
{
    m.get_index(i).map(|(k, _)| k.clone()).unwrap()
}

/// `IndexMap::clone`: a map with the same keys in the same order.
#[verifier::external_body]
fn index_map_clone(m: &IndexMap<String, ()>) -> (r: IndexMap<String, ()>)
    ensures
        index_map_keys(r) == index_map_keys(*m),
{
    m.clone()
}

/// A SQL expression fragment with optional bound parameters.
#[derive(Debug, Clone)]
pub struct Expr {
    /// SQL for the expression fragment.
    pub sql: String,
    /// Arguments referenced by the expression fragment.
    pub arguments: Arguments,
    /// Whether the expression is tainted with raw SQL.
    pub tainted: bool,
}

impl Expr {
    /// Returns the SQL text for this expression.
    pub fn sql(&self) -> (r: &str)
        ensures
            r@ == self.sql@,
    {
        self.sql.as_str()
    }

    /// Returns `true` if this expression includes raw SQL.
    pub fn tainted(&self) -> (r: bool)
        ensures
            r == self.tainted,
    {
        self.tainted
    }

    /// A copy of this expression with the same content.
    pub fn duplicate(&self) -> (r: Expr)
        ensures
            r@ == self@,
            self.arguments.wf() ==> r.arguments.wf(),
    {
        Expr { sql: self.sql.clone(), arguments: self.arguments.duplicate(), tainted: self.tainted }
    }

    /// The expression of a query: its SQL text, its arguments (none when
    /// they were taken) and its taint.
    pub fn from_query(query: Query) -> (r: Expr)
        ensures
            r.sql@ == query_sql(&query),
            r.tainted == query.tainted,
            match query.arguments {
                Some(a) => r.arguments == a,
                None => r.arguments.values@.len() == 0 && r.arguments.named@.len() == 0,
            },
    {
        let sql = match query.statement {
            QueryStatement::Sql(sql) => sql,
            QueryStatement::Prepared(statement) => statement.sql,
        };
        let arguments = match query.arguments {
            Some(a) => a,
            None => Arguments::new(),
        };
        Expr { sql, arguments, tainted: query.tainted }
    }
}

/// The content of an expression fragment.
pub struct ExprView {
    /// SQL text.
    pub sql: Seq<char>,
    /// Argument values.
    pub values: Seq<ValueView>,
    /// Named arguments and their positions.
    pub named: Seq<(Seq<char>, usize)>,
    /// Whether raw SQL was embedded.
    pub tainted: bool,
}

impl View for Expr {
    type V = ExprView;

    open spec fn view(&self) -> ExprView {
        ExprView {
            sql: self.sql@,
            values: values_view(self.arguments.values@),
            named: named_view(self.arguments.named@),
            tainted: self.tainted,
        }
    }
}

/// A literal SQL expression without arguments.
fn literal_expr(sql: &str, tainted: bool) -> (r: Expr)
    ensures
        r.sql@ == sql@,
        r.arguments.values@.len() == 0,
        r.arguments.named@.len() == 0,
        r.arguments.wf(),
        r.tainted == tainted,
{
    let chars = chars_of(sql);
    Expr { sql: string_from_chars(&chars), arguments: Arguments::new(), tainted }
}

/// SQLite expression for the current UTC time, formatted as RFC3339.
pub fn now_rfc3339_utc() -> (r: Expr)
    ensures
        r.sql@ == "STRFTIME('%Y-%m-%dT%H:%M:%fZ', 'now')"@,
        r.arguments.values@.len() == 0,
        r.arguments.named@.len() == 0,
        r.arguments.wf(),
        !r.tainted,
{
    literal_expr("STRFTIME('%Y-%m-%dT%H:%M:%fZ', 'now')", false)
}

/// Wrap a JSON text value with SQLite's `jsonb(...)` function; the JSON text
/// is bound as the fragment's one argument.
pub fn jsonb(json: &str) -> (r: Expr)
    ensures
        r.sql@ == "jsonb(?)"@,
        values_view(r.arguments.values@) == seq![ValueView::Text { value: json@, type_info: None }],
        r.arguments.named@.len() == 0,
        r.arguments.wf(),
        !r.tainted,
{
    let mut e = literal_expr("jsonb(?)", false);
    let chars = chars_of(json);
    e.arguments.values.push(Value::Text { value: string_from_chars(&chars), type_info: None });
    assert(values_view(e.arguments.values@) =~= seq![ValueView::Text { value: json@, type_info: None }]);
    e
}

/// Wrap a JSON text value with SQLite's `jsonb(...)` function (alias of [`jsonb`]).
pub fn jsonb_text(json: &str) -> (r: Expr)
    ensures
        r.sql@ == "jsonb(?)"@,
        values_view(r.arguments.values@) == seq![ValueView::Text { value: json@, type_info: None }],
        r.arguments.named@.len() == 0,
        r.arguments.wf(),
        !r.tainted,
{
    jsonb(json)
}

/// Embed raw SQL as an expression and taint the resulting query.
pub fn raw(sql: &str) -> (r: Expr)
    ensures
        r.sql@ == sql@,
        r.arguments.values@.len() == 0,
        r.arguments.named@.len() == 0,
        r.arguments.wf(),
        r.tainted,
{
    literal_expr(sql, true)
}

/// A value in a [`Values`] collection.
#[derive(Debug, Clone)]
pub enum ValuesEntry {
    /// A bound value (encoded immediately).
    Value(Value),
    /// A SQL expression fragment (may include its own bound parameters).
    Expr(Expr),
}

/// The content of a values entry.
pub enum EntryView {
    /// A bound value.
    Value(ValueView),
    /// An expression fragment.
    Expr(ExprView),
}

impl View for ValuesEntry {
    type V = EntryView;

    open spec fn view(&self) -> EntryView {
        match self {
            ValuesEntry::Value(v) => EntryView::Value(v@),
            ValuesEntry::Expr(e) => EntryView::Expr(e@),
        }
    }
}

impl ValuesEntry {
    /// An expression entry's arguments are well formed.
    pub open spec fn wf(&self) -> bool {
        match self {
            ValuesEntry::Value(_) => true,
            ValuesEntry::Expr(e) => e.arguments.wf(),
        }
    }

    /// A copy of this entry with the same content.
    pub fn duplicate(&self) -> (r: ValuesEntry)
        ensures
            r@ == self@,
            self.wf() ==> r.wf(),
    {
        match self {
            ValuesEntry::Value(v) => ValuesEntry::Value(v.duplicate()),
            ValuesEntry::Expr(e) => ValuesEntry::Expr(e.duplicate()),
        }
    }
}

/// Convert a value into a [`ValuesEntry`].
pub trait IntoValuesEntry {
    /// The entry this converts to, or the message of the encoding error.
    spec fn entry_spec(&self) -> core::result::Result<EntryView, Seq<char>>;

    /// The entry's expression arguments are well formed.
    spec fn entry_wf(&self) -> bool;

    /// Convert into a [`ValuesEntry`].
    fn into_values_entry(self) -> (r: Result<ValuesEntry>)
        requires
            self.entry_wf(),
        ensures
            match self.entry_spec() {
                Ok(e) => r matches Ok(x) && x@ == e && x.wf(),
                Err(m) => r matches Err(Error::Encode(crate::error::EncodeError::Conversion(s)))
                    && s@ == m,
            },
    ;
}

impl<T: Encode> IntoValuesEntry for T {
    open spec fn entry_spec(&self) -> core::result::Result<EntryView, Seq<char>> {
        match self.encoding() {
            Ok(v) => Ok(EntryView::Value(v)),
            Err(m) => Err(m),
        }
    }

    open spec fn entry_wf(&self) -> bool {
        true
    }

    fn into_values_entry(self) -> (r: Result<ValuesEntry>) {
        match self.encode() {
            Ok(v) => Ok(ValuesEntry::Value(v)),
            Err(e) => Err(Error::Encode(e)),
        }
    }
}

impl IntoValuesEntry for Expr {
    open spec fn entry_spec(&self) -> core::result::Result<EntryView, Seq<char>> {
        Ok(EntryView::Expr(self@))
    }

    open spec fn entry_wf(&self) -> bool {
        self.arguments.wf()
    }

    fn into_values_entry(self) -> (r: Result<ValuesEntry>) {
        Ok(ValuesEntry::Expr(self))
    }
}

impl IntoValuesEntry for Query {
    open spec fn entry_spec(&self) -> core::result::Result<EntryView, Seq<char>> {
        Ok(
            EntryView::Expr(
                ExprView {
                    sql: query_sql(self),
                    values: match self.arguments {
                        Some(a) => values_view(a.values@),
                        None => Seq::empty(),
                    },
                    named: match self.arguments {
                        Some(a) => named_view(a.named@),
                        None => Seq::empty(),
                    },
                    tainted: self.tainted,
                },
            ),
        )
    }

    open spec fn entry_wf(&self) -> bool {
        self.arguments matches Some(a) ==> a.wf()
    }

    fn into_values_entry(self) -> (r: Result<ValuesEntry>) {
        let ghost q = self;
        let e = Expr::from_query(self);
        proof {
            if q.arguments is None {
                assert(values_view(e.arguments.values@) =~= Seq::<ValueView>::empty());
                assert(named_view(e.arguments.named@) =~= Seq::<(Seq<char>, usize)>::empty());
            }
            assert(e@ == q.entry_spec()->Ok_0->Expr_0);
        }
        Ok(ValuesEntry::Expr(e))
    }
}

/// An ordered collection of key-value pairs for building dynamic SQL queries.
///
/// Keys are column names, each at most once, in insertion order; inserting an
/// existing key replaces its value in place.
#[derive(Debug)]
pub struct Values {
    /// The column names, in insertion order.
    pub keys: IndexMap<String, ()>,
    /// The entry of each key, at the key's position.
    pub entries: Vec<ValuesEntry>,
}

/// The keys of a [`Values`] collection.
pub open spec fn values_keys(v: &Values) -> Seq<Seq<char>> {
    index_map_keys(v.keys)
}

/// The entries of a [`Values`] collection.
pub open spec fn values_entries(v: &Values) -> Seq<EntryView> {
    v.entries@.map_values(|e: ValuesEntry| e@)
}

impl Values {
    /// Keys are distinct, there is one entry per key, and entries are well formed.
    pub open spec fn wf(&self) -> bool {
        &&& values_keys(self).len() == self.entries@.len()
        &&& values_keys(self).no_duplicates()
        &&& forall|i: int| 0 <= i < self.entries@.len() ==> (#[trigger] self.entries@[i]).wf()
    }

    /// Creates a new, empty `Values` collection.
    pub fn new() -> (r: Values)
        ensures
            r.wf(),
            values_keys(&r).len() == 0,
    {
        Values { keys: index_map_new(), entries: Vec::new() }
    }

    /// Insert an already converted entry under `key`.
    fn insert_entry(&mut self, key: &str, entry: ValuesEntry)
        requires
            old(self).wf(),
            entry.wf(),
        ensures
            final(self).wf(),
            (values_keys(final(self)), values_entries(final(self))) == insert_one(
                values_keys(old(self)),
                values_entries(old(self)),
                key@,
                entry@,
            ),
    {
        let chars = chars_of(key);
        let k = string_from_chars(&chars);
        let ghost old_keys = values_keys(self);
        let ghost ev = entry@;
        let pos = index_map_insert_full(&mut self.keys, k);
        if pos < self.entries.len() {
            proof {
                assert(old_keys.contains(key@)) by {
                    if !old_keys.contains(key@) {
                        assert(pos == old_keys.len());
                    }
                }
                let i = old_keys.index_of(key@);
                assert(old_keys[i] == key@);
                assert(old_keys[pos as int] == key@);
            }
            self.entries.set(pos, entry);
        } else {
            self.entries.push(entry);
            proof {
                if old_keys.contains(key@) {
                    assert(pos < old_keys.len());
                }
                assert forall|i: int, j: int| 0 <= i < j < old_keys.push(key@).len() implies old_keys.push(key@)[i] != old_keys.push(key@)[j] by {
                    if j == old_keys.len() {
                        assert(old_keys.push(key@)[i] == old_keys[i]);
                    }
                }
            }
        }
        proof {
            assert(values_entries(self) =~= if old_keys.contains(key@) {
                values_entries(old(self)).update(old_keys.index_of(key@), ev)
            } else {
                values_entries(old(self)).push(ev)
            });
        }
    }

    /// Inserts a key-value pair into the collection. An existing key keeps its
    /// position and gets the new value; a new key is appended.
    pub fn insert<V: IntoValuesEntry>(&mut self, key: &str, value: V) -> (r: Result<()>)
        requires
            old(self).wf(),
            value.entry_wf(),
        ensures
            final(self).wf(),
            match value.entry_spec() {
                Ok(e) => r is Ok && (values_keys(final(self)), values_entries(final(self)))
                    == insert_one(values_keys(old(self)), values_entries(old(self)), key@, e),
                Err(m) => (r matches Err(Error::Encode(crate::error::EncodeError::Conversion(s)))
                    && s@ == m) && values_keys(final(self)) == values_keys(old(self))
                    && values_entries(final(self)) == values_entries(old(self)),
            },
    {
        let entry = value.into_values_entry()?;
        self.insert_entry(key, entry);
        Ok(())
    }

    /// Consumes `self`, inserts a key-value pair, and returns `Self` for chaining.
    pub fn val<V: IntoValuesEntry>(self, key: &str, value: V) -> (r: Result<Values>)
        requires
            self.wf(),
            value.entry_wf(),
        ensures
            match value.entry_spec() {
                Ok(e) => r matches Ok(out) && out.wf() && (values_keys(&out), values_entries(&out))
                    == insert_one(values_keys(&self), values_entries(&self), key@, e),
                Err(m) => r matches Err(Error::Encode(crate::error::EncodeError::Conversion(s)))
                    && s@ == m,
            },
    {
        let mut v = self;
        v.insert(key, value)?;
        Ok(v)
    }

    /// Returns `true` if the collection contains no elements.
    pub fn is_empty(&self) -> (r: bool)
        requires
            self.wf(),
        ensures
            r == (values_keys(self).len() == 0),
    {
        self.entries.len() == 0
    }

    /// Returns the number of elements in the collection.
    pub fn len(&self) -> (r: usize)
        requires
            self.wf(),
        ensures
            r == values_keys(self).len(),
    {
        self.entries.len()
    }

    /// The keys in insertion order.
    pub fn keys(&self) -> (r: Vec<String>)
        requires
            self.wf(),
        ensures
            r@.len() == values_keys(self).len(),
            forall|i: int| 0 <= i < r@.len() ==> (#[trigger] r@[i])@ == values_keys(self)[i],
    {
        let n = index_map_len(&self.keys);
        let mut out: Vec<String> = Vec::new();
        let mut i: usize = 0;
        while i < n
            invariant
                i <= n,
                n == values_keys(self).len(),
                out@.len() == i,
                forall|j: int| 0 <= j < i ==> (#[trigger] out@[j])@ == values_keys(self)[j],
            decreases n - i,
        {
            out.push(index_map_key_at(&self.keys, i));
            i = i + 1;
        }
        out
    }

    /// The key/value pairs in insertion order.
    pub fn iter(&self) -> (r: Vec<(String, &ValuesEntry)>)
        requires
            self.wf(),
        ensures
            r@.len() == values_keys(self).len(),
            forall|i: int|
                0 <= i < r@.len() ==> (#[trigger] r@[i]).0@ == values_keys(self)[i] && *r@[i].1
                    == self.entries@[i],
    {
        let keys = self.keys();
        let mut out: Vec<(String, &ValuesEntry)> = Vec::new();
        let mut i: usize = 0;
        while i < keys.len()
            invariant
                i <= keys@.len(),
                keys@.len() == values_keys(self).len(),
                values_keys(self).len() == self.entries@.len(),
                forall|j: int| 0 <= j < keys@.len() ==> (#[trigger] keys@[j])@ == values_keys(self)[j],
                out@.len() == i,
                forall|j: int|
                    0 <= j < i ==> (#[trigger] out@[j]).0@ == values_keys(self)[j] && *out@[j].1
                        == self.entries@[j],
            decreases keys@.len() - i,
        {
            out.push((keys[i].clone(), &self.entries[i]));
            i = i + 1;
        }
        out
    }

    /// The values in insertion order.
    pub fn values(&self) -> (r: &Vec<ValuesEntry>)
        ensures
            r == &self.entries,
    {
        &self.entries
    }

    /// A copy of this collection with the same content.
    pub fn duplicate(&self) -> (r: Values)
        requires
            self.wf(),
        ensures
            r.wf(),
            values_keys(&r) == values_keys(self),
            values_entries(&r) == values_entries(self),
    {
        let mut entries: Vec<ValuesEntry> = Vec::new();
        let mut k: usize = 0;
        while k < self.entries.len()
            invariant
                k <= self.entries.len(),
                self.wf(),
                entries@.len() == k,
                forall|j: int| 0 <= j < k ==> (#[trigger] entries@[j])@ == self.entries@[j]@ && entries@[j].wf(),
            decreases self.entries.len() - k,
        {
            entries.push(self.entries[k].duplicate());
            k = k + 1;
        }
        let r = Values { keys: index_map_clone(&self.keys), entries };
        assert(values_entries(&r) =~= values_entries(self));
        r
    }

    /// Extends this collection with the key-value pairs from another
    /// collection, inserting them one by one in the other collection's order:
    /// a key present in both gets the other's value at its existing position,
    /// and new keys are appended.
    pub fn extend(&mut self, other: &Values)
        requires
            old(self).wf(),
            other.wf(),
        ensures
            final(self).wf(),
            (values_keys(final(self)), values_entries(final(self))) == insert_all(
                values_keys(old(self)),
                values_entries(old(self)),
                values_keys(other),
                values_entries(other),
            ),
    {
        let n = other.entries.len();
        let other_keys = other.keys();
        let mut i: usize = 0;
        proof {
            assert(values_keys(other).take(0) =~= Seq::<Seq<char>>::empty());
            assert(values_entries(other).take(0) =~= Seq::<EntryView>::empty());
        }
        while i < n
            invariant
                i <= n,
                n == other.entries@.len(),
                other.wf(),
                other_keys@.len() == n,
                forall|j: int| 0 <= j < n ==> (#[trigger] other_keys@[j])@ == values_keys(other)[j],
                self.wf(),
                (values_keys(self), values_entries(self)) == insert_all(
                    values_keys(old(self)),
                    values_entries(old(self)),
                    values_keys(other).take(i as int),
                    values_entries(other).take(i as int),
                ),
            decreases n - i,
        {
            let entry = other.entries[i].duplicate();
            let key = other_keys[i].as_str();
            self.insert_entry(key, entry);
            proof {
                let ks = values_keys(other);
                let es = values_entries(other);
                assert(ks.take(i + 1).drop_last() =~= ks.take(i as int));
                assert(es.take(i + 1).drop_last() =~= es.take(i as int));
                assert(ks.take(i + 1).last() == ks[i as int]);
                assert(es.take(i + 1).last() == es[i as int]);
            }
            i = i + 1;
        }
        proof {
            assert(values_keys(other).take(n as int) =~= values_keys(other));
            assert(values_entries(other).take(n as int) =~= values_entries(other));
        }
    }
}

/// The keys and entries after inserting the key `k` with entry `e`.
pub open spec fn insert_one(keys: Seq<Seq<char>>, entries: Seq<EntryView>, k: Seq<char>, e: EntryView) -> (
    Seq<Seq<char>>,
    Seq<EntryView>,
) {
    if keys.contains(k) {
        (keys, entries.update(keys.index_of(k), e))
    } else {
        (keys.push(k), entries.push(e))
    }
}

/// The keys and entries after inserting the pairs `(ks[i], es[i])` in order.
pub open spec fn insert_all(
    keys: Seq<Seq<char>>,
    entries: Seq<EntryView>,
    ks: Seq<Seq<char>>,
    es: Seq<EntryView>,
) -> (Seq<Seq<char>>, Seq<EntryView>)
    decreases ks.len(),
{
    if ks.len() == 0 {
        (keys, entries)
    } else {
        let (k2, e2) = insert_all(keys, entries, ks.drop_last(), es.drop_last());
        insert_one(k2, e2, ks.last(), es[ks.len() - 1])
    }
}

/// A [`Values`] collection is an insertion-ordered map: after inserting `k`
/// with `e`, looking `k` up gives `e`; the keys that were there keep their
/// positions and entries, but for `k`'s own; a new key comes last; and keys
/// stay distinct.
pub proof fn lemma_insert_then_lookup(
    keys: Seq<Seq<char>>,
    entries: Seq<EntryView>,
    k: Seq<char>,
    e: EntryView,
)
    requires
        keys.len() == entries.len(),
        keys.no_duplicates(),
    ensures
        ({
            let (k2, e2) = insert_one(keys, entries, k, e);
            &&& k2.len() == e2.len()
            &&& k2.no_duplicates()
            &&& k2.contains(k)
            &&& e2[k2.index_of(k)] == e
            &&& k2.take(keys.len() as int) == keys
            &&& forall|j: int| 0 <= j < keys.len() && keys[j] != k ==> e2[j] == entries[j]
            &&& !keys.contains(k) ==> k2.len() == keys.len() + 1 && k2.last() == k
            &&& keys.contains(k) ==> k2 == keys
        }),
{
    let (k2, e2) = insert_one(keys, entries, k, e);
    if keys.contains(k) {
        let i = keys.index_of(k);
        assert(keys[i] == k);
        assert(keys.take(keys.len() as int) =~= keys);
    } else {
        let n = keys.len() as int;
        assert(k2[n] == k);
        assert(k2.contains(k));
        let i = k2.index_of(k);
        assert(k2[i] == k);
        if i < n {
            assert(keys[i] == k);
        }
        assert(k2.take(n) =~= keys);
        assert forall|a: int, b: int| 0 <= a < b < k2.len() implies k2[a] != k2[b] by {
            if b == n {
                assert(k2[a] == keys[a]);
            }
        }
    }
}

/// The keys of `ks` that are not among `keys`, in their order in `ks`.
pub open spec fn new_keys(keys: Seq<Seq<char>>, ks: Seq<Seq<char>>) -> Seq<Seq<char>> {
    ks.filter(|k: Seq<char>| !keys.contains(k))
}

/// What a filter keeps comes from the filtered sequence.
proof fn lemma_new_keys_from(keys: Seq<Seq<char>>, ks: Seq<Seq<char>>, k: Seq<char>)
    ensures
        new_keys(keys, ks).contains(k) ==> ks.contains(k) && !keys.contains(k),
    decreases ks.len(),
{
    reveal(Seq::filter);
    if ks.len() > 0 {
        lemma_new_keys_from(keys, ks.drop_last(), k);
        let sub = new_keys(keys, ks.drop_last());
        if new_keys(keys, ks).contains(k) {
            let i = choose|i: int| 0 <= i < new_keys(keys, ks).len() && new_keys(keys, ks)[i] == k;
            if i < sub.len() {
                assert(sub[i] == k);
                let j = choose|j: int| 0 <= j < ks.drop_last().len() && ks.drop_last()[j] == k;
                assert(ks[j] == k);
            } else {
                assert(ks[ks.len() - 1] == k);
            }
        }
    }
}

/// Extending a collection, in closed form: the keys are the old keys
/// followed by the other collection's new keys in its order; a key of the
/// other collection has the other's entry; an old key the other lacks keeps
/// its entry; and keys stay distinct.
pub proof fn lemma_extend_closed_form(
    keys: Seq<Seq<char>>,
    entries: Seq<EntryView>,
    ks: Seq<Seq<char>>,
    es: Seq<EntryView>,
)
    requires
        keys.len() == entries.len(),
        keys.no_duplicates(),
        ks.len() == es.len(),
        ks.no_duplicates(),
    ensures
        ({
            let (k2, e2) = insert_all(keys, entries, ks, es);
            &&& k2 == keys + new_keys(keys, ks)
            &&& e2.len() == k2.len()
            &&& k2.no_duplicates()
            &&& forall|j: int| 0 <= j < keys.len() && !ks.contains(keys[j]) ==> e2[j] == entries[j]
            &&& forall|m: int, i: int|
                0 <= m < k2.len() && 0 <= i < ks.len() && k2[m] == ks[i] ==> e2[m] == es[i]
        }),
    decreases ks.len(),
{
    reveal(Seq::filter);
    let n = ks.len();
    if n == 0 {
        assert(new_keys(keys, ks) =~= Seq::<Seq<char>>::empty());
        assert(keys + new_keys(keys, ks) =~= keys);
    } else {
        let ks1 = ks.drop_last();
        let es1 = es.drop_last();
        assert(ks1.no_duplicates()) by {
            assert forall|a: int, b: int| 0 <= a < b < ks1.len() implies ks1[a] != ks1[b] by {
                assert(ks1[a] == ks[a] && ks1[b] == ks[b]);
            }
        }
        lemma_extend_closed_form(keys, entries, ks1, es1);
        let (k1, e1) = insert_all(keys, entries, ks1, es1);
        let x = ks[n - 1];
        let ex = es[n - 1];
        assert(ks.last() == x);
        assert(!ks1.contains(x)) by {
            if ks1.contains(x) {
                let j = choose|j: int| 0 <= j < ks1.len() && ks1[j] == x;
                assert(ks[j] == ks[n - 1]);
            }
        }
        lemma_new_keys_from(keys, ks1, x);
        let (k2, e2) = insert_all(keys, entries, ks, es);
        assert((k2, e2) == insert_one(k1, e1, x, ex));
        if k1.contains(x) {
            let idx = k1.index_of(x);
            assert(k1[idx] == x);
            assert(keys.contains(x)) by {
                if idx >= keys.len() {
                    assert(k1[idx] == new_keys(keys, ks1)[idx - keys.len()]);
                    assert(new_keys(keys, ks1).contains(x));
                }
            }
            assert(new_keys(keys, ks) == new_keys(keys, ks1));
            assert(k2 == k1);
            assert(e2 == e1.update(idx, ex));
            assert forall|j: int| 0 <= j < keys.len() && !ks.contains(keys[j]) implies e2[j]
                == entries[j] by {
                assert(k1[j] == keys[j]);
                assert(!ks1.contains(keys[j])) by {
                    if ks1.contains(keys[j]) {
                        let t = choose|t: int| 0 <= t < ks1.len() && ks1[t] == keys[j];
                        assert(ks[t] == keys[j]);
                    }
                }
                if j == idx {
                    assert(ks[n - 1] == keys[j]);
                }
            }
            assert forall|m: int, i: int|
                0 <= m < k2.len() && 0 <= i < ks.len() && k2[m] == ks[i] implies e2[m] == es[i] by {
                if i == n - 1 {
                    assert(m == idx);
                } else {
                    assert(ks1[i] == ks[i]);
                    assert(es1[i] == es[i]);
                    if m == idx {
                        assert(ks[i] == x);
                    }
                }
            }
        } else {
            assert(!keys.contains(x)) by {
                if keys.contains(x) {
                    let j = choose|j: int| 0 <= j < keys.len() && keys[j] == x;
                    assert(k1[j] == x);
                }
            }
            assert(new_keys(keys, ks) == new_keys(keys, ks1).push(x));
            assert(k2 == k1.push(x));
            assert(e2 == e1.push(ex));
            assert(k2 =~= keys + new_keys(keys, ks));
            assert forall|a: int, b: int| 0 <= a < b < k2.len() implies k2[a] != k2[b] by {
                if b == k1.len() {
                    assert(k2[a] == k1[a]);
                }
            }
            assert forall|j: int| 0 <= j < keys.len() && !ks.contains(keys[j]) implies e2[j]
                == entries[j] by {
                assert(!ks1.contains(keys[j])) by {
                    if ks1.contains(keys[j]) {
                        let t = choose|t: int| 0 <= t < ks1.len() && ks1[t] == keys[j];
                        assert(ks[t] == keys[j]);
                    }
                }
            }
            assert forall|m: int, i: int|
                0 <= m < k2.len() && 0 <= i < ks.len() && k2[m] == ks[i] implies e2[m] == es[i] by {
                if i == n - 1 {
                    if m < k1.len() {
                        assert(k1[m] == x);
                    }
                } else {
                    assert(ks1[i] == ks[i]);
                    assert(es1[i] == es[i]);
                    if m == k1.len() {
                        assert(ks[i] == x);
                    }
                }
            }
        }
    }
}

} // verus!
