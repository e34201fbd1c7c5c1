//! The expression model: every query construct is built as an `Expr` tree,
//! and every `Expr` tree has exactly one JSON text.

use vstd::prelude::*;
use vstd::string::*;
use vstd::std_specs::convert::FromSpecImpl;
use crate::json::{integer_text, string_literal, write_integer, write_string, write_unsigned};

verus! {

/// A reference to a class, a database or an index, by name.
#[derive(Debug)]
pub enum Ref {
    Class(String),
    Database(String),
    Index(String),
}

/// The value of a `Ref`.
pub ghost enum RefView {
    Class(Seq<char>),
    Database(Seq<char>),
    Index(Seq<char>),
}

impl RefView {
    /// The name that the reference was made with.
    pub open spec fn id(self) -> Seq<char> {
        match self {
            RefView::Class(id) => id,
            RefView::Database(id) => id,
            RefView::Index(id) => id,
        }
    }

    /// The name of the built-in collection that holds what is referred to.
    pub open spec fn collection(self) -> Seq<char> {
        match self {
            RefView::Class(_) => "classes"@,
            RefView::Database(_) => "databases"@,
            RefView::Index(_) => "indexes"@,
        }
    }
}

impl View for Ref {
    type V = RefView;

    open spec fn view(&self) -> RefView {
        match self {
            Ref::Class(id) => RefView::Class(id@),
            Ref::Database(id) => RefView::Database(id@),
            Ref::Index(id) => RefView::Index(id@),
        }
    }
}

impl Ref {
    /// A reference to the class `id`.
    pub fn class(id: &str) -> (r: Ref)
        ensures
            r@ == RefView::Class(id@),
    {
        Ref::Class(String::from_str(id))
    }

    /// A reference to the database `id`.
    pub fn database(id: &str) -> (r: Ref)
        ensures
            r@ == RefView::Database(id@),
    {
        Ref::Database(String::from_str(id))
    }

    /// A reference to the index `id`.
    pub fn index(id: &str) -> (r: Ref)
        ensures
            r@ == RefView::Index(id@),
    {
        Ref::Index(String::from_str(id))
    }
}

impl Clone for Ref {
    fn clone(&self) -> (r: Ref)
        ensures
            r@ == self@,
    {
        match self {
            Ref::Class(id) => Ref::Class(id.clone()),
            Ref::Database(id) => Ref::Database(id.clone()),
            Ref::Index(id) => Ref::Index(id.clone()),
        }
    }
}

/// A query expression.
#[derive(Debug)]
pub enum Expr {
    Null,
    Boolean(bool),
    Int(i64),
    UInt(u64),
    String(String),
    Array(Vec<Expr>),
    Object(Object),
    Ref(Ref),
    /// A function call: the verb and its argument.
    Call(String, Box<Expr>),
}

/// An ordered mapping of keys to expressions. An object that is made with
/// `new` and filled with `insert` holds no key twice.
#[derive(Debug)]
pub struct Object {
    entries: Vec<(String, Expr)>,
}

/// The value of an `Expr`.
pub ghost enum ExprView {
    Null,
    Boolean(bool),
    Number(int),
    String(Seq<char>),
    Array(Seq<ExprView>),
    Object(Seq<(Seq<char>, ExprView)>),
    Ref(RefView),
    Call(Seq<char>, Box<ExprView>),
}

impl Expr {
    /// The value of the expression.
    pub open spec fn model(&self) -> ExprView
        decreases self,
    {
        match self {
            Expr::Null => ExprView::Null,
            Expr::Boolean(b) => ExprView::Boolean(*b),
            Expr::Int(n) => ExprView::Number(*n as int),
            Expr::UInt(n) => ExprView::Number(*n as int),
            Expr::String(s) => ExprView::String(s@),
            Expr::Array(items) => ExprView::Array(
                Seq::new(
                    items.len() as nat,
                    |i: int|
                        if 0 <= i < items.len() {
                            items[i].model()
                        } else {
                            ExprView::Null
                        },
                ),
            ),
            Expr::Object(o) => ExprView::Object(o.model()),
            Expr::Ref(r) => ExprView::Ref(r@),
            Expr::Call(verb, arg) => ExprView::Call(verb@, Box::new(arg.model())),
        }
    }
}

impl Object {
    /// The entries of the object, in the order of their insertion.
    pub closed spec fn model(&self) -> Seq<(Seq<char>, ExprView)>
        decreases self,
    {
        Seq::new(
            self.entries.len() as nat,
            |i: int|
                if 0 <= i < self.entries.len() {
                    (self.entries[i].0@, self.entries[i].1.model())
                } else {
                    (Seq::empty(), ExprView::Null)
                },
        )
    }
}

impl View for Expr {
    type V = ExprView;

    open spec fn view(&self) -> ExprView {
        self.model()
    }
}

impl View for Object {
    type V = Seq<(Seq<char>, ExprView)>;

    open spec fn view(&self) -> Seq<(Seq<char>, ExprView)> {
        self.model()
    }
}

/// The JSON text of a reference: an `@ref` object with the name and the
/// built-in collection.
pub open spec fn ref_text(r: RefView) -> Seq<char> {
    "{\"@ref\":{\"id\":"@ + string_literal(r.id()) + ",\"class\":{\"@ref\":{\"id\":"@
        + string_literal(r.collection()) + "}}}}"@
}

/// The JSON text of an expression.
pub open spec fn expr_text(e: ExprView) -> Seq<char>
    decreases e, 0nat,
{
    match e {
        ExprView::Null => "null"@,
        ExprView::Boolean(b) => if b {
            "true"@
        } else {
            "false"@
        },
        ExprView::Number(n) => integer_text(n),
        ExprView::String(s) => string_literal(s),
        ExprView::Array(items) => "["@ + items_text(items, items.len()) + "]"@,
        ExprView::Object(entries) => "{\"object\":{"@ + entries_text(entries, entries.len())
            + "}}"@,
        ExprView::Ref(r) => ref_text(r),
        ExprView::Call(verb, arg) => "{"@ + string_literal(verb) + ":"@ + expr_text(*arg) + "}"@,
    }
}

/// The JSON texts of the first `n` of `items`, with commas between them.
pub open spec fn items_text(items: Seq<ExprView>, n: nat) -> Seq<char>
    decreases items, n,
{
    if n == 0 || n > items.len() {
        Seq::empty()
    } else if n == 1 {
        expr_text(items[0])
    } else {
        items_text(items, (n - 1) as nat) + ","@ + expr_text(items[n - 1])
    }
}

/// The JSON text of one entry: the key as a string literal, a colon, and the
/// text of the value.
pub open spec fn entry_text(entries: Seq<(Seq<char>, ExprView)>, i: int) -> Seq<char>
    recommends
        0 <= i < entries.len(),
    decreases entries, 0nat, 0nat,
{
    if 0 <= i < entries.len() {
        string_literal(entries[i].0) + ":"@ + expr_text(entries[i].1)
    } else {
        Seq::empty()
    }
}

/// The JSON texts of the first `n` of `entries`, with commas between them.
pub open spec fn entries_text(entries: Seq<(Seq<char>, ExprView)>, n: nat) -> Seq<char>
    decreases entries, n, 1nat,
{
    if n == 0 || n > entries.len() {
        Seq::empty()
    } else if n == 1 {
        entry_text(entries, 0)
    } else {
        entries_text(entries, (n - 1) as nat) + ","@ + entry_text(entries, n - 1)
    }
}

impl Ref {
    /// Writes the reference as JSON text.
    pub fn to_json(&self) -> (out: String)
        ensures
            out@ == ref_text(self@),
    {
        let (id, collection) = match self {
            Ref::Class(id) => (id, "classes"),
            Ref::Database(id) => (id, "databases"),
            Ref::Index(id) => (id, "indexes"),
        };
        let mut out = String::from_str("{\"@ref\":{\"id\":");
        let id_text = write_string(id.as_str());
        out.append(id_text.as_str());
        out.append(",\"class\":{\"@ref\":{\"id\":");
        let collection_text = write_string(collection);
        out.append(collection_text.as_str());
        out.append("}}}}");
        out
    }
}

impl Clone for Expr {
    fn clone(&self) -> (r: Expr)
        ensures
            r@ == self@,
        decreases self,
    {
        match self {
            Expr::Null => Expr::Null,
            Expr::Boolean(b) => Expr::Boolean(*b),
            Expr::Int(n) => Expr::Int(*n),
            Expr::UInt(n) => Expr::UInt(*n),
            Expr::String(s) => Expr::String(s.clone()),
            Expr::Array(items) => {
                let mut copies: Vec<Expr> = Vec::new();
                let mut i: usize = 0;
                while i < items.len()
                    invariant
                        i <= items.len(),
                        copies.len() == i,
                        *self == Expr::Array(*items),
                        forall|j: int| 0 <= j < i ==> (#[trigger] copies[j]).model() == items[j].model(),
                    decreases items.len() - i,
                {
                    assert(decreases_to!(*self => self->Array_0));
                    assert(decreases_to!(*items => items[i as int]));
                    let copy = items[i].clone();
                    copies.push(copy);
                    i += 1;
                }
                let r = Expr::Array(copies);
                assert(r.model()->Array_0 =~= self.model()->Array_0);
                r
            },
            Expr::Object(o) => Expr::Object(o.clone()),
            Expr::Ref(r) => Expr::Ref(r.clone()),
            Expr::Call(verb, arg) => {
                let copy = (**arg).clone();
                Expr::Call(verb.clone(), Box::new(copy))
            },
        }
    }
}

impl Clone for Object {
    fn clone(&self) -> (r: Object)
        ensures
            r@ == self@,
        decreases self,
    {
        let mut copies: Vec<(String, Expr)> = Vec::new();
        let mut i: usize = 0;
        while i < self.entries.len()
            invariant
                i <= self.entries.len(),
                copies.len() == i,
                forall|j: int|
                    0 <= j < i ==> (#[trigger] copies[j]).0@ == self.entries[j].0@
                        && copies[j].1.model() == self.entries[j].1.model(),
            decreases self.entries.len() - i,
        {
            let key = self.entries[i].0.clone();
            let value = self.entries[i].1.clone();
            copies.push((key, value));
            i += 1;
        }
        let r = Object { entries: copies };
        assert(r.model() =~= self.model());
        r
    }
}

impl Expr {
    /// Writes the expression as JSON text.
    pub fn to_json(&self) -> (out: String)
        ensures
            out@ == expr_text(self@),
        decreases self,
    {
        match self {
            Expr::Null => String::from_str("null"),
            Expr::Boolean(b) => if *b {
                String::from_str("true")
            } else {
                String::from_str("false")
            },
            Expr::Int(n) => write_integer(*n),
            Expr::UInt(n) => write_unsigned(*n),
            Expr::String(s) => write_string(s.as_str()),
            Expr::Array(items) => {
                let ghost views = self.model()->Array_0;
                let mut out = String::from_str("[");
                let mut i: usize = 0;
                while i < items.len()
                    invariant
                        i <= items.len(),
                        *self == Expr::Array(*items),
                        views.len() == items.len(),
                        forall|j: int| 0 <= j < items.len() ==> #[trigger] views[j] == items[j].model(),
                        out@ == "["@ + items_text(views, i as nat),
                    decreases items.len() - i,
                {
                    if i > 0 {
                        out.append(",");
                    }
                    assert(decreases_to!(*self => self->Array_0));
                    assert(decreases_to!(*items => items[i as int]));
                    let item = items[i].to_json();
                    out.append(item.as_str());
                    i += 1;
                    assert(out@ =~= "["@ + items_text(views, i as nat));
                }
                out.append("]");
                out
            },
            Expr::Object(o) => {
                let mut out = String::from_str("{\"object\":{");
                let entries = o.write_entries();
                out.append(entries.as_str());
                out.append("}}");
                out
            },
            Expr::Ref(r) => r.to_json(),
            Expr::Call(verb, arg) => {
                let mut out = String::from_str("{");
                let verb_text = write_string(verb.as_str());
                out.append(verb_text.as_str());
                out.append(":");
                let arg_text = arg.to_json();
                out.append(arg_text.as_str());
                out.append("}");
                out
            },
        }
    }
}

impl Object {
    /// Writes the entries as JSON text, with commas between them.
    fn write_entries(&self) -> (out: String)
        ensures
            out@ == entries_text(self@, self@.len()),
        decreases self,
    {
        let ghost views = self.model();
        let mut out = String::new();
        let mut i: usize = 0;
        while i < self.entries.len()
            invariant
                i <= self.entries.len(),
                views == self.model(),
                views.len() == self.entries.len(),
                out@ == entries_text(views, i as nat),
            decreases self.entries.len() - i,
        {
            if i > 0 {
                out.append(",");
            }
            let ghost before = out@;
            assert(views[i as int] == (self.entries[i as int].0@, self.entries[i as int].1.model()));
            let key = write_string(self.entries[i].0.as_str());
            out.append(key.as_str());
            out.append(":");
            let value = self.entries[i].1.to_json();
            out.append(value.as_str());
            i += 1;
            assert(out@ =~= before + entry_text(views, i - 1));
            assert(out@ =~= entries_text(views, i as nat));
        }
        out
    }
}

/// Who may read an index.
#[derive(Debug, Clone)]
pub enum Level {
    /// Anyone.
    Public,
    /// Only holders of a token for the referred entity.
    Reference(Ref),
}

/// The value of a `Level`.
pub ghost enum LevelView {
    Public,
    Reference(RefView),
}

impl View for Level {
    type V = LevelView;

    open spec fn view(&self) -> LevelView {
        match self {
            Level::Public => LevelView::Public,
            Level::Reference(r) => LevelView::Reference(r@),
        }
    }
}

/// The expression that a level is written as.
pub open spec fn level_expr(level: LevelView) -> ExprView {
    match level {
        LevelView::Public => ExprView::String("public"@),
        LevelView::Reference(r) => ExprView::Ref(r),
    }
}

impl Level {
    /// Anyone may read.
    pub fn public() -> (r: Level)
        ensures
            r@ == LevelView::Public,
    {
        Level::Public
    }

    /// Only holders of a token for `target` may read.
    pub fn reference(target: Ref) -> (r: Level)
        ensures
            r@ == LevelView::Reference(target@),
    {
        Level::Reference(target)
    }

    /// The level as an expression.
    pub fn to_expr(&self) -> (e: Expr)
        ensures
            e@ == level_expr(self@),
    {
        match self {
            Level::Public => Expr::String(String::from_str("public")),
            Level::Reference(r) => Expr::Ref(r.clone()),
        }
    }
}

/// The permissions of an index.
#[derive(Debug, Clone)]
pub struct IndexPermission {
    read: Option<Level>,
}

/// The value of an `IndexPermission`.
pub ghost struct IndexPermissionView {
    pub read: Option<LevelView>,
}

impl View for IndexPermission {
    type V = IndexPermissionView;

    closed spec fn view(&self) -> IndexPermissionView {
        IndexPermissionView {
            read: match self.read {
                Some(level) => Some(level@),
                None => None,
            },
        }
    }
}

/// The expression that index permissions are written as: an object with
/// the key `read` where a level for reading is set, and no key where none is.
pub open spec fn permission_expr(p: IndexPermissionView) -> ExprView {
    match p.read {
        Some(level) => ExprView::Object(seq![("read"@, level_expr(level))]),
        None => ExprView::Object(Seq::empty()),
    }
}

impl Default for IndexPermission {
    fn default() -> (r: IndexPermission)
        ensures
            r@ == (IndexPermissionView { read: None }),
    {
        IndexPermission { read: None }
    }
}

impl IndexPermission {
    /// Sets who may read the index.
    pub fn read(&mut self, level: Level) -> (ret: &mut Self)
        ensures
            ret@ == (IndexPermissionView { read: Some(level@) }),
            *final(self) == *final(ret),
    {
        self.read = Some(level);
        self
    }
}

/// No key occurs twice among `entries`.
pub open spec fn keys_distinct(entries: Seq<(Seq<char>, ExprView)>) -> bool {
    forall|i: int, j: int|
        0 <= i < j < entries.len() ==> (#[trigger] entries[i]).0 != (#[trigger] entries[j]).0
}

/// `key` occurs among `entries`.
pub open spec fn has_key(entries: Seq<(Seq<char>, ExprView)>, key: Seq<char>) -> bool {
    exists|i: int| 0 <= i < entries.len() && (#[trigger] entries[i]).0 == key
}

/// The least index at or after `from` at which `key` stands in `entries`, or
/// -1 where there is none.
pub open spec fn key_position(entries: Seq<(Seq<char>, ExprView)>, key: Seq<char>, from: int) -> int
    decreases entries.len() - from,
{
    if from < 0 || from >= entries.len() {
        -1
    } else if entries[from].0 == key {
        from
    } else {
        key_position(entries, key, from + 1)
    }
}

/// `entries` with `key` bound to `value`: in the place where `key` stood
/// before, or at the end where it did not occur.
pub open spec fn with_entry(
    entries: Seq<(Seq<char>, ExprView)>,
    key: Seq<char>,
    value: ExprView,
) -> Seq<(Seq<char>, ExprView)> {
    let at = key_position(entries, key, 0);
    if at < 0 {
        entries.push((key, value))
    } else {
        entries.update(at, (key, value))
    }
}

/// What `key_position` finds is an index of `key`, and it finds one wherever
/// `key` occurs at or after `from`.
pub proof fn lemma_key_position(entries: Seq<(Seq<char>, ExprView)>, key: Seq<char>, from: int)
    requires
        0 <= from,
    ensures
        ({
            let at = key_position(entries, key, from);
            &&& at == -1 || (from <= at < entries.len() && entries[at].0 == key)
            &&& at == -1 ==> forall|i: int| from <= i < entries.len() ==> (#[trigger] entries[i]).0 != key
        }),
    decreases entries.len() - from,
{
    if from < entries.len() && entries[from].0 != key {
        lemma_key_position(entries, key, from + 1);
    }
}

impl Object {
    /// An object without entries.
    pub fn new() -> (r: Object)
        ensures
            r@ == Seq::<(Seq<char>, ExprView)>::empty(),
    {
        let r = Object { entries: Vec::new() };
        assert(r.model() =~= Seq::empty());
        r
    }

    /// The number of entries.
    pub fn len(&self) -> (n: usize)
        ensures
            n == self@.len(),
    {
        self.entries.len()
    }

    /// Binds `key` to `value`. A key that was bound before keeps its place
    /// and gets the new value; a new key goes to the end.
    pub fn insert(&mut self, key: &str, value: Expr) -> (ret: &mut Self)
        ensures
            ret@ == with_entry(old(self)@, key@, value@),
            keys_distinct(old(self)@) ==> keys_distinct(ret@),
            *final(self) == *final(ret),
    {
        let ghost before = self.model();
        let owned = String::from_str(key);
        let mut i: usize = 0;
        let mut found = false;
        while i < self.entries.len() && !found
            invariant
                i <= self.entries.len(),
                self.model() == before,
                owned@ == key@,
                key_position(before, key@, 0) == key_position(before, key@, i as int),
                found ==> i < self.entries.len() && before[i as int].0 == key@,
            decreases self.entries.len() - i + if found { 0int } else { 1int },
        {
            assert(before[i as int].0 == self.entries[i as int].0@);
            if self.entries[i].0 == owned {
                found = true;
            } else {
                i += 1;
            }
        }
        proof {
            lemma_key_position(before, key@, 0);
        }
        if found {
            self.entries.set(i, (owned, value));
            assert(self.model() =~= with_entry(before, key@, value@));
        } else {
            self.entries.push((owned, value));
            assert(self.model() =~= with_entry(before, key@, value@));
        }
        self
    }

    /// Adds an entry at the end, for the builders of this crate, which
    /// write each of their keys once.
    pub(crate) fn push_entry(&mut self, key: &str, value: Expr)
        ensures
            final(self)@ == old(self)@.push((key@, value@)),
    {
        let ghost before = self.model();
        self.entries.push((String::from_str(key), value));
        assert(self.model() =~= before.push((key@, value@)));
    }
}

impl IndexPermission {
    /// The permissions as an expression.
    pub fn to_expr(&self) -> (e: Expr)
        ensures
            e@ == permission_expr(self@),
    {
        let mut object = Object::new();
        match &self.read {
            Some(level) => {
                object.push_entry("read", level.to_expr());
            },
            None => {},
        }
        let e = Expr::Object(object);
        assert(e@->Object_0 =~= permission_expr(self@)->Object_0);
        e
    }
}

impl Expr {
    /// The call of `verb` on `argument`.
    pub fn call(verb: &str, argument: Expr) -> (e: Expr)
        ensures
            e@ == ExprView::Call(verb@, Box::new(argument@)),
    {
        Expr::Call(String::from_str(verb), Box::new(argument))
    }
}

impl From<Ref> for Expr {
    fn from(r: Ref) -> (e: Expr) {
        Expr::Ref(r)
    }
}

impl FromSpecImpl<Ref> for Expr {
    open spec fn obeys_from_spec() -> bool {
        true
    }

    open spec fn from_spec(r: Ref) -> Expr {
        Expr::Ref(r)
    }
}

impl From<Object> for Expr {
    fn from(o: Object) -> (e: Expr) {
        Expr::Object(o)
    }
}

impl FromSpecImpl<Object> for Expr {
    open spec fn obeys_from_spec() -> bool {
        true
    }

    open spec fn from_spec(o: Object) -> Expr {
        Expr::Object(o)
    }
}

impl From<bool> for Expr {
    fn from(b: bool) -> (e: Expr) {
        Expr::Boolean(b)
    }
}

impl FromSpecImpl<bool> for Expr {
    open spec fn obeys_from_spec() -> bool {
        true
    }

    open spec fn from_spec(b: bool) -> Expr {
        Expr::Boolean(b)
    }
}

impl From<i64> for Expr {
    fn from(n: i64) -> (e: Expr) {
        Expr::Int(n)
    }
}

impl FromSpecImpl<i64> for Expr {
    open spec fn obeys_from_spec() -> bool {
        true
    }

    open spec fn from_spec(n: i64) -> Expr {
        Expr::Int(n)
    }
}

impl From<u64> for Expr {
    fn from(n: u64) -> (e: Expr) {
        Expr::UInt(n)
    }
}

impl FromSpecImpl<u64> for Expr {
    open spec fn obeys_from_spec() -> bool {
        true
    }

    open spec fn from_spec(n: u64) -> Expr {
        Expr::UInt(n)
    }
}

impl From<String> for Expr {
    fn from(s: String) -> (e: Expr) {
        Expr::String(s)
    }
}

impl FromSpecImpl<String> for Expr {
    open spec fn obeys_from_spec() -> bool {
        true
    }

    open spec fn from_spec(s: String) -> Expr {
        Expr::String(s)
    }
}

impl From<Vec<Expr>> for Expr {
    fn from(items: Vec<Expr>) -> (e: Expr) {
        Expr::Array(items)
    }
}

impl FromSpecImpl<Vec<Expr>> for Expr {
    open spec fn obeys_from_spec() -> bool {
        true
    }

    open spec fn from_spec(items: Vec<Expr>) -> Expr {
        Expr::Array(items)
    }
}

} // verus!
