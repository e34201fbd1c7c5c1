//! The `create_index` query and the builders of its parameters.

use vstd::prelude::*;
use vstd::string::*;
use crate::expr::{
    expr_text, has_key, keys_distinct, permission_expr, Expr, ExprView, IndexPermission,
    IndexPermissionView, Object,
};

verus! {

/// The views of the segments of a path.
pub open spec fn path_view(path: Seq<&str>) -> Seq<Seq<char>> {
    path.map_values(|segment: &str| segment@)
}

/// The path of a field within an instance: one segment or more.
#[derive(Debug)]
pub struct IndexField(Vec<String>);

impl View for IndexField {
    type V = Seq<Seq<char>>;

    closed spec fn view(&self) -> Seq<Seq<char>> {
        self.0@.map_values(|segment: String| segment@)
    }
}

impl IndexField {
    #[verifier::type_invariant]
    spec fn non_empty(self) -> bool {
        self.0@.len() > 0
    }

    fn from_path(path: Vec<&str>) -> (r: IndexField)
        requires
            path@.len() > 0,
        ensures
            r@ == path_view(path@),
    {
        let mut segments: Vec<String> = Vec::new();
        let mut i: usize = 0;
        while i < path.len()
            invariant
                i <= path.len(),
                segments.len() == i,
                forall|j: int| 0 <= j < i ==> (#[trigger] segments[j])@ == path[j]@,
            decreases path.len() - i,
        {
            segments.push(String::from_str(path[i]));
            i += 1;
        }
        let r = IndexField(segments);
        assert(r@ =~= path_view(path@));
        r
    }

    /// The path as an expression: the array of its segments.
    fn to_expr(&self) -> (e: Expr)
        ensures
            e@ == path_expr(self@),
            self@.len() > 0,
    {
        proof {
            use_type_invariant(self);
        }
        let mut items: Vec<Expr> = Vec::new();
        let mut i: usize = 0;
        while i < self.0.len()
            invariant
                i <= self.0.len(),
                items.len() == i,
                forall|j: int| 0 <= j < i ==> (#[trigger] items[j])@ == ExprView::String(self.0[j]@),
            decreases self.0.len() - i,
        {
            items.push(Expr::String(self.0[i].clone()));
            i += 1;
        }
        let e = Expr::Array(items);
        assert(e@->Array_0 =~= path_expr(self@)->Array_0);
        e
    }
}

impl Clone for IndexField {
    fn clone(&self) -> (r: IndexField)
        ensures
            r@ == self@,
    {
        proof {
            use_type_invariant(self);
        }
        let mut segments: Vec<String> = Vec::new();
        let mut i: usize = 0;
        while i < self.0.len()
            invariant
                i <= self.0.len(),
                segments.len() == i,
                forall|j: int| 0 <= j < i ==> (#[trigger] segments[j])@ == self.0[j]@,
            decreases self.0.len() - i,
        {
            segments.push(self.0[i].clone());
            i += 1;
        }
        let r = IndexField(segments);
        assert(r@ =~= self@);
        r
    }
}

/// The name of a binding of a source object.
#[derive(Debug, Clone)]
pub struct IndexBinding(String);

impl View for IndexBinding {
    type V = Seq<char>;

    closed spec fn view(&self) -> Seq<char> {
        self.0@
    }
}

/// What a term or a value of an index is taken from: a field or a binding,
/// never both.
#[derive(Debug, Clone)]
pub enum TermObject {
    Field(IndexField),
    Binding(IndexBinding),
}

/// The value of a `TermObject` and of a `Term`.
pub ghost enum TermView {
    Field(Seq<Seq<char>>),
    Binding(Seq<char>),
}

impl View for TermObject {
    type V = TermView;

    open spec fn view(&self) -> TermView {
        match self {
            TermObject::Field(field) => TermView::Field(field@),
            TermObject::Binding(binding) => TermView::Binding(binding@),
        }
    }
}

/// The expression that a path is written as: the array of its segments.
pub open spec fn path_expr(path: Seq<Seq<char>>) -> ExprView {
    ExprView::Array(path.map_values(|segment: Seq<char>| ExprView::String(segment)))
}

/// The entry that a field or a binding is written as: `field` with the
/// path, or `binding` with the name.
pub open spec fn target_entry(target: TermView) -> (Seq<char>, ExprView) {
    match target {
        TermView::Field(path) => ("field"@, path_expr(path)),
        TermView::Binding(name) => ("binding"@, ExprView::String(name)),
    }
}

impl TermObject {
    fn to_entry(&self) -> (r: (&'static str, Expr))
        ensures
            (r.0@, r.1@) == target_entry(self@),
            self@ is Field ==> self@->Field_0.len() > 0,
    {
        match self {
            TermObject::Field(field) => ("field", field.to_expr()),
            TermObject::Binding(binding) => ("binding", Expr::String(binding.0.clone())),
        }
    }
}

/// A term of an index: the field or binding by which entries are found.
#[derive(Debug, Clone)]
pub struct Term {
    object: TermObject,
}

impl View for Term {
    type V = TermView;

    closed spec fn view(&self) -> TermView {
        self.object@
    }
}

/// The expression that a term is written as: an object with the one entry
/// of its field or binding.
pub open spec fn term_expr(term: TermView) -> ExprView {
    ExprView::Object(seq![target_entry(term)])
}

impl Term {
    /// The term that is taken from the field at `path`.
    pub fn field(path: Vec<&str>) -> (r: Term)
        requires
            path@.len() > 0,
        ensures
            r@ == TermView::Field(path_view(path@)),
    {
        Term { object: TermObject::Field(IndexField::from_path(path)) }
    }

    /// The term that is taken from the binding `name`.
    pub fn binding(name: &str) -> (r: Term)
        ensures
            r@ == TermView::Binding(name@),
    {
        Term { object: TermObject::Binding(IndexBinding(String::from_str(name))) }
    }

    /// The term as an expression.
    pub fn to_expr(&self) -> (e: Expr)
        ensures
            e@ == term_expr(self@),
            self@ is Field ==> self@->Field_0.len() > 0,
    {
        let (key, value) = self.object.to_entry();
        let mut object = Object::new();
        object.push_entry(key, value);
        let e = Expr::Object(object);
        assert(e@->Object_0 =~= term_expr(self@)->Object_0);
        e
    }
}

/// A field or a binding, and the direction in which its values are sorted.
#[derive(Debug, Clone)]
pub struct ValueObject {
    target: TermObject,
    reverse: bool,
}

/// The value of a `ValueObject` and of an `IndexValue`.
pub ghost struct IndexValueView {
    pub target: TermView,
    pub reverse: bool,
}

impl View for ValueObject {
    type V = IndexValueView;

    closed spec fn view(&self) -> IndexValueView {
        IndexValueView { target: self.target@, reverse: self.reverse }
    }
}

/// A value of an index: the field or binding that the index covers.
#[derive(Debug, Clone)]
pub struct IndexValue {
    object: ValueObject,
}

impl View for IndexValue {
    type V = IndexValueView;

    closed spec fn view(&self) -> IndexValueView {
        self.object@
    }
}

/// The expression that a value of an index is written as: an object with
/// the entry of its field or binding, and then `reverse`.
pub open spec fn value_expr(value: IndexValueView) -> ExprView {
    ExprView::Object(seq![target_entry(value.target), ("reverse"@, ExprView::Boolean(value.reverse))])
}

impl IndexValue {
    /// The value that is taken from the field at `path`, sorted forwards.
    pub fn field(path: Vec<&str>) -> (r: IndexValue)
        requires
            path@.len() > 0,
        ensures
            r@ == (IndexValueView { target: TermView::Field(path_view(path@)), reverse: false }),
    {
        IndexValue {
            object: ValueObject {
                target: TermObject::Field(IndexField::from_path(path)),
                reverse: false,
            },
        }
    }

    /// The value that is taken from the binding `name`, sorted forwards.
    pub fn binding(name: &str) -> (r: IndexValue)
        ensures
            r@ == (IndexValueView { target: TermView::Binding(name@), reverse: false }),
    {
        IndexValue {
            object: ValueObject {
                target: TermObject::Binding(IndexBinding(String::from_str(name))),
                reverse: false,
            },
        }
    }

    /// Sorts the values backwards.
    pub fn reverse(&mut self) -> (ret: &mut Self)
        ensures
            ret@ == (IndexValueView { reverse: true, ..old(self)@ }),
            *final(self) == *final(ret),
    {
        self.object.reverse = true;
        self
    }

    /// The value as an expression.
    pub fn to_expr(&self) -> (e: Expr)
        ensures
            e@ == value_expr(self@),
            self@.target is Field ==> self@.target->Field_0.len() > 0,
    {
        let (key, value) = self.object.target.to_entry();
        let mut object = Object::new();
        object.push_entry(key, value);
        object.push_entry("reverse", Expr::Boolean(self.object.reverse));
        let e = Expr::Object(object);
        assert(e@->Object_0 =~= value_expr(self@)->Object_0);
        e
    }
}

/// The parameters of an index.
#[derive(Debug, Clone)]
pub struct IndexParamsInternal {
    name: String,
    source: Expr,
    active: bool,
    unique: bool,
    serialized: bool,
    terms: Option<Vec<Term>>,
    values: Option<Vec<IndexValue>>,
    partitions: Option<u16>,
    permissions: Option<IndexPermission>,
    data: Option<Expr>,
}

/// The value of an `IndexParamsInternal` and of an `IndexParams`.
pub ghost struct IndexParamsView {
    pub name: Seq<char>,
    pub source: ExprView,
    pub active: bool,
    pub unique: bool,
    pub serialized: bool,
    pub terms: Option<Seq<TermView>>,
    pub values: Option<Seq<IndexValueView>>,
    pub partitions: Option<u16>,
    pub permissions: Option<IndexPermissionView>,
    pub data: Option<ExprView>,
}

impl View for IndexParamsInternal {
    type V = IndexParamsView;

    closed spec fn view(&self) -> IndexParamsView {
        IndexParamsView {
            name: self.name@,
            source: self.source@,
            active: self.active,
            unique: self.unique,
            serialized: self.serialized,
            terms: match self.terms {
                Some(terms) => Some(terms_view(terms@)),
                None => None,
            },
            values: match self.values {
                Some(values) => Some(values_view(values@)),
                None => None,
            },
            partitions: self.partitions,
            permissions: match self.permissions {
                Some(permissions) => Some(permissions@),
                None => None,
            },
            data: match self.data {
                Some(data) => Some(data@),
                None => None,
            },
        }
    }
}

/// The views of the terms of a list.
pub open spec fn terms_view(terms: Seq<Term>) -> Seq<TermView> {
    terms.map_values(|term: Term| term@)
}

/// The views of the values of a list.
pub open spec fn values_view(values: Seq<IndexValue>) -> Seq<IndexValueView> {
    values.map_values(|value: IndexValue| value@)
}

/// The builder of the parameters of an index.
#[derive(Debug, Clone)]
pub struct IndexParams {
    object: IndexParamsInternal,
}

impl View for IndexParams {
    type V = IndexParamsView;

    closed spec fn view(&self) -> IndexParamsView {
        self.object@
    }
}

/// The entry for `key` where `value` is set, and no entry where it is not.
pub open spec fn optional_entry(key: Seq<char>, value: Option<ExprView>) -> Seq<(Seq<char>, ExprView)> {
    match value {
        Some(value) => seq![(key, value)],
        None => Seq::empty(),
    }
}

/// The expression that the terms of an index are written as.
pub open spec fn terms_expr(terms: Seq<TermView>) -> ExprView {
    ExprView::Array(terms.map_values(|term: TermView| term_expr(term)))
}

/// The expression that the values of an index are written as.
pub open spec fn values_expr(values: Seq<IndexValueView>) -> ExprView {
    ExprView::Array(values.map_values(|value: IndexValueView| value_expr(value)))
}

/// The entries that the parameters of an index are written as: the name,
/// the source and the three flags, and then each optional parameter that is
/// set.
pub open spec fn params_entries(params: IndexParamsView) -> Seq<(Seq<char>, ExprView)> {
    seq![
        ("name"@, ExprView::String(params.name)),
        ("source"@, params.source),
        ("active"@, ExprView::Boolean(params.active)),
        ("unique"@, ExprView::Boolean(params.unique)),
        ("serialized"@, ExprView::Boolean(params.serialized)),
    ] + optional_entry(
        "terms"@,
        match params.terms {
            Some(terms) => Some(terms_expr(terms)),
            None => None,
        },
    ) + optional_entry(
        "values"@,
        match params.values {
            Some(values) => Some(values_expr(values)),
            None => None,
        },
    ) + optional_entry(
        "partitions"@,
        match params.partitions {
            Some(partitions) => Some(ExprView::Number(partitions as int)),
            None => None,
        },
    ) + optional_entry(
        "permissions"@,
        match params.permissions {
            Some(permissions) => Some(permission_expr(permissions)),
            None => None,
        },
    ) + optional_entry("data"@, params.data)
}

/// The expression that the parameters of an index are written as.
pub open spec fn params_expr(params: IndexParamsView) -> ExprView {
    ExprView::Object(params_entries(params))
}

/// The parameters that `new` gives: the name and the source, no flag set, and
/// no optional parameter.
pub open spec fn initial_params(name: Seq<char>, source: ExprView) -> IndexParamsView {
    IndexParamsView {
        name,
        source,
        active: false,
        unique: false,
        serialized: false,
        terms: None,
        values: None,
        partitions: None,
        permissions: None,
        data: None,
    }
}

impl IndexParams {
    /// The parameters of the index `name` over `source`, which must refer
    /// to a class. Neither is checked here: the server does that.
    pub fn new(name: &str, source: Expr) -> (r: IndexParams)
        ensures
            r@ == initial_params(name@, source@),
    {
        IndexParams {
            object: IndexParamsInternal {
                name: String::from_str(name),
                source,
                active: false,
                unique: false,
                serialized: false,
                terms: None,
                values: None,
                partitions: None,
                permissions: None,
                data: None,
            },
        }
    }

    /// Marks the index as active, so that it is not built from the instances
    /// that exist.
    pub fn active(&mut self) -> (ret: &mut Self)
        ensures
            ret@ == (IndexParamsView { active: true, ..old(self)@ }),
            *final(self) == *final(ret),
    {
        self.object.active = true;
        self
    }

    /// Makes the index hold each combination of terms and values once.
    pub fn unique(&mut self) -> (ret: &mut Self)
        ensures
            ret@ == (IndexParamsView { unique: true, ..old(self)@ }),
            *final(self) == *final(ret),
    {
        self.object.unique = true;
        self
    }

    /// Makes writes to the index serialized with concurrent reads and writes.
    pub fn serialized(&mut self) -> (ret: &mut Self)
        ensures
            ret@ == (IndexParamsView { serialized: true, ..old(self)@ }),
            *final(self) == *final(ret),
    {
        self.object.serialized = true;
        self
    }

    /// Sets the terms, in place of any that were set before.
    pub fn terms(&mut self, terms: Vec<Term>) -> (ret: &mut Self)
        ensures
            ret@ == (IndexParamsView { terms: Some(terms_view(terms@)), ..old(self)@ }),
            *final(self) == *final(ret),
    {
        self.object.terms = Some(terms);
        self
    }

    /// Sets the values, in place of any that were set before.
    pub fn values(&mut self, values: Vec<IndexValue>) -> (ret: &mut Self)
        ensures
            ret@ == (IndexParamsView { values: Some(values_view(values@)), ..old(self)@ }),
            *final(self) == *final(ret),
    {
        self.object.values = Some(values);
        self
    }

    /// Sets the number of partitions within each term.
    pub fn partitions(&mut self, partitions: u16) -> (ret: &mut Self)
        requires
            partitions > 0,
        ensures
            ret@ == (IndexParamsView { partitions: Some(partitions), ..old(self)@ }),
            *final(self) == *final(ret),
    {
        self.object.partitions = Some(partitions);
        self
    }

    /// Sets who may read the index.
    pub fn permissions(&mut self, permissions: IndexPermission) -> (ret: &mut Self)
        ensures
            ret@ == (IndexParamsView { permissions: Some(permissions@), ..old(self)@ }),
            *final(self) == *final(ret),
    {
        self.object.permissions = Some(permissions);
        self
    }

    /// Sets the metadata of the index.
    pub fn data(&mut self, data: Object) -> (ret: &mut Self)
        ensures
            ret@ == (IndexParamsView { data: Some(ExprView::Object(data@)), ..old(self)@ }),
            *final(self) == *final(ret),
    {
        self.object.data = Some(Expr::from(data));
        self
    }
}

fn terms_to_expr(terms: &Vec<Term>) -> (e: Expr)
    ensures
        e@ == terms_expr(terms_view(terms@)),
{
    let mut items: Vec<Expr> = Vec::new();
    let mut i: usize = 0;
    while i < terms.len()
        invariant
            i <= terms.len(),
            items.len() == i,
            forall|j: int| 0 <= j < i ==> (#[trigger] items[j])@ == term_expr(terms[j]@),
        decreases terms.len() - i,
    {
        items.push(terms[i].to_expr());
        i += 1;
    }
    let e = Expr::Array(items);
    assert(e@->Array_0 =~= terms_expr(terms_view(terms@))->Array_0);
    e
}

fn values_to_expr(values: &Vec<IndexValue>) -> (e: Expr)
    ensures
        e@ == values_expr(values_view(values@)),
{
    let mut items: Vec<Expr> = Vec::new();
    let mut i: usize = 0;
    while i < values.len()
        invariant
            i <= values.len(),
            items.len() == i,
            forall|j: int| 0 <= j < i ==> (#[trigger] items[j])@ == value_expr(values[j]@),
        decreases values.len() - i,
    {
        items.push(values[i].to_expr());
        i += 1;
    }
    let e = Expr::Array(items);
    assert(e@->Array_0 =~= values_expr(values_view(values@))->Array_0);
    e
}

impl IndexParams {
    /// The parameters as an expression.
    pub fn to_expr(&self) -> (e: Expr)
        ensures
            e@ == params_expr(self@),
    {
        let params = &self.object;
        let ghost view = self@;
        let mut object = Object::new();
        object.push_entry("name", Expr::String(params.name.clone()));
        object.push_entry("source", params.source.clone());
        object.push_entry("active", Expr::Boolean(params.active));
        object.push_entry("unique", Expr::Boolean(params.unique));
        object.push_entry("serialized", Expr::Boolean(params.serialized));
        let ghost required = seq![
            ("name"@, ExprView::String(view.name)),
            ("source"@, view.source),
            ("active"@, ExprView::Boolean(view.active)),
            ("unique"@, ExprView::Boolean(view.unique)),
            ("serialized"@, ExprView::Boolean(view.serialized)),
        ];
        assert(object@ =~= required);
        match &params.terms {
            Some(terms) => {
                object.push_entry("terms", terms_to_expr(terms));
            },
            None => {},
        }
        let ghost with_terms = required + optional_entry(
            "terms"@,
            match view.terms {
                Some(terms) => Some(terms_expr(terms)),
                None => None,
            },
        );
        assert(object@ =~= with_terms);
        match &params.values {
            Some(values) => {
                object.push_entry("values", values_to_expr(values));
            },
            None => {},
        }
        let ghost with_values = with_terms + optional_entry(
            "values"@,
            match view.values {
                Some(values) => Some(values_expr(values)),
                None => None,
            },
        );
        assert(object@ =~= with_values);
        match params.partitions {
            Some(partitions) => {
                object.push_entry("partitions", Expr::UInt(partitions as u64));
            },
            None => {},
        }
        let ghost with_partitions = with_values + optional_entry(
            "partitions"@,
            match view.partitions {
                Some(partitions) => Some(ExprView::Number(partitions as int)),
                None => None,
            },
        );
        assert(object@ =~= with_partitions);
        match &params.permissions {
            Some(permissions) => {
                object.push_entry("permissions", permissions.to_expr());
            },
            None => {},
        }
        let ghost with_permissions = with_partitions + optional_entry(
            "permissions"@,
            match view.permissions {
                Some(permissions) => Some(permission_expr(permissions)),
                None => None,
            },
        );
        assert(object@ =~= with_permissions);
        match &params.data {
            Some(data) => {
                object.push_entry("data", data.clone());
            },
            None => {},
        }
        assert(object@ =~= with_permissions + optional_entry("data"@, view.data));
        let e = Expr::Object(object);
        assert(e@->Object_0 == params_entries(self@));
        e
    }

    /// Writes the parameters as JSON text. The text is determined by the
    /// value of the parameters: however often it is written, and in whatever
    /// order the parameters were set, it is the same.
    pub fn to_json(&self) -> (out: String)
        ensures
            out@ == expr_text(params_expr(self@)),
    {
        self.to_expr().to_json()
    }
}

/// The query that adds an index with the given parameters.
#[derive(Debug, Clone)]
pub struct CreateIndex {
    create_index: IndexParams,
}

impl View for CreateIndex {
    type V = IndexParamsView;

    closed spec fn view(&self) -> IndexParamsView {
        self.create_index@
    }
}

/// The expression that the query is written as: the call of `create_index`
/// on the parameters.
pub open spec fn create_index_expr(params: IndexParamsView) -> ExprView {
    ExprView::Call("create_index"@, Box::new(params_expr(params)))
}

impl CreateIndex {
    /// The query that adds the index that `params` describes.
    pub fn new(params: IndexParams) -> (r: CreateIndex)
        ensures
            r@ == params@,
    {
        CreateIndex { create_index: params }
    }

    /// The query as an expression.
    pub fn to_expr(&self) -> (e: Expr)
        ensures
            e@ == create_index_expr(self@),
    {
        Expr::call("create_index", self.create_index.to_expr())
    }
}

/// A term is written with exactly one of the keys `field` and `binding`.
pub proof fn lemma_term_field_or_binding(term: TermView)
    ensures
        has_key(term_expr(term)->Object_0, "field"@) != has_key(
            term_expr(term)->Object_0,
            "binding"@,
        ),
        has_key(term_expr(term)->Object_0, "field"@) <==> term is Field,
{
    reveal_strlit("field");
    reveal_strlit("binding");
    let entries = term_expr(term)->Object_0;
    assert(entries[0] == target_entry(term));
    assert("field"@.len() != "binding"@.len());
}

/// A value of an index is written with exactly one of the keys `field` and
/// `binding`, and with the key `reverse`.
pub proof fn lemma_value_field_or_binding(value: IndexValueView)
    ensures
        has_key(value_expr(value)->Object_0, "field"@) != has_key(
            value_expr(value)->Object_0,
            "binding"@,
        ),
        has_key(value_expr(value)->Object_0, "field"@) <==> value.target is Field,
        has_key(value_expr(value)->Object_0, "reverse"@),
        keys_distinct(value_expr(value)->Object_0),
{
    reveal_strlit("field");
    reveal_strlit("binding");
    reveal_strlit("reverse");
    let entries = value_expr(value)->Object_0;
    assert(entries[0] == target_entry(value.target));
    assert(entries[1].0 == "reverse"@);
    assert("field"@.len() != "binding"@.len());
    assert("field"@.len() != "reverse"@.len());
    assert("binding"@[0] != "reverse"@[0]);
}

/// The place of a key among the keys that parameters are written with, and
/// 10 for any other text.
spec fn key_rank(key: Seq<char>) -> int {
    if key == "name"@ {
        0
    } else if key == "source"@ {
        1
    } else if key == "active"@ {
        2
    } else if key == "unique"@ {
        3
    } else if key == "serialized"@ {
        4
    } else if key == "terms"@ {
        5
    } else if key == "values"@ {
        6
    } else if key == "partitions"@ {
        7
    } else if key == "permissions"@ {
        8
    } else if key == "data"@ {
        9
    } else {
        10
    }
}

/// The keys of `entries` stand in rising rank, all below `bound`.
spec fn ranked(entries: Seq<(Seq<char>, ExprView)>, bound: int) -> bool {
    &&& forall|i: int| 0 <= i < entries.len() ==> key_rank((#[trigger] entries[i]).0) < bound
    &&& forall|i: int, j: int|
        0 <= i < j < entries.len() ==> key_rank((#[trigger] entries[i]).0) < key_rank(
            (#[trigger] entries[j]).0,
        )
}

proof fn lemma_ranked_append(
    entries: Seq<(Seq<char>, ExprView)>,
    key: Seq<char>,
    value: Option<ExprView>,
    bound: int,
)
    requires
        ranked(entries, bound),
        key_rank(key) == bound,
    ensures
        ranked(entries + optional_entry(key, value), bound + 1),
{
    let extended = entries + optional_entry(key, value);
    assert forall|i: int| 0 <= i < extended.len() implies key_rank((#[trigger] extended[i]).0)
        < bound + 1 by {
        if i < entries.len() {
            assert(extended[i] == entries[i]);
        }
    }
    assert forall|i: int, j: int| 0 <= i < j < extended.len() implies key_rank(
        (#[trigger] extended[i]).0,
    ) < key_rank((#[trigger] extended[j]).0) by {
        assert(extended[i] == entries[i]);
        if j < entries.len() {
            assert(extended[j] == entries[j]);
        }
    }
}

proof fn lemma_key_ranks()
    ensures
        key_rank("name"@) == 0,
        key_rank("source"@) == 1,
        key_rank("active"@) == 2,
        key_rank("unique"@) == 3,
        key_rank("serialized"@) == 4,
        key_rank("terms"@) == 5,
        key_rank("values"@) == 6,
        key_rank("partitions"@) == 7,
        key_rank("permissions"@) == 8,
        key_rank("data"@) == 9,
{
    reveal_strlit("name");
    reveal_strlit("source");
    reveal_strlit("active");
    reveal_strlit("unique");
    reveal_strlit("serialized");
    reveal_strlit("terms");
    reveal_strlit("values");
    reveal_strlit("partitions");
    reveal_strlit("permissions");
    reveal_strlit("data");
    assert("name"@.len() == 4 && "data"@.len() == 4 && "terms"@.len() == 5);
    assert("source"@.len() == 6 && "active"@.len() == 6 && "unique"@.len() == 6 && "values"@.len()
        == 6);
    assert("serialized"@.len() == 10 && "partitions"@.len() == 10 && "permissions"@.len() == 11);
    assert("name"@[0] == 'n' && "data"@[0] == 'd');
    assert("source"@[0] == 's' && "active"@[0] == 'a' && "unique"@[0] == 'u' && "values"@[0]
        == 'v');
    assert("serialized"@[0] == 's' && "partitions"@[0] == 'p');
}

/// The parameters of an index are written with no key twice, whatever was
/// set and in whatever order.
pub proof fn lemma_params_keys_distinct(params: IndexParamsView)
    ensures
        keys_distinct(params_entries(params)),
{
    lemma_key_ranks();
    let required = seq![
        ("name"@, ExprView::String(params.name)),
        ("source"@, params.source),
        ("active"@, ExprView::Boolean(params.active)),
        ("unique"@, ExprView::Boolean(params.unique)),
        ("serialized"@, ExprView::Boolean(params.serialized)),
    ];
    assert(ranked(required, 5));
    let terms = match params.terms {
        Some(terms) => Some(terms_expr(terms)),
        None => None,
    };
    let values = match params.values {
        Some(values) => Some(values_expr(values)),
        None => None,
    };
    let partitions = match params.partitions {
        Some(partitions) => Some(ExprView::Number(partitions as int)),
        None => None,
    };
    let permissions = match params.permissions {
        Some(permissions) => Some(permission_expr(permissions)),
        None => None,
    };
    lemma_ranked_append(required, "terms"@, terms, 5);
    let with_terms = required + optional_entry("terms"@, terms);
    lemma_ranked_append(with_terms, "values"@, values, 6);
    let with_values = with_terms + optional_entry("values"@, values);
    lemma_ranked_append(with_values, "partitions"@, partitions, 7);
    let with_partitions = with_values + optional_entry("partitions"@, partitions);
    lemma_ranked_append(with_partitions, "permissions"@, permissions, 8);
    let with_permissions = with_partitions + optional_entry("permissions"@, permissions);
    lemma_ranked_append(with_permissions, "data"@, params.data, 9);
    let all = with_permissions + optional_entry("data"@, params.data);
    assert(all == params_entries(params));
    assert(ranked(all, 10));
}

} // verus!
