//! The value model: every datum that can appear as a step argument or as a
//! query result, together with its ghost model used in contracts.

use vstd::prelude::*;

verus! {

/// A vertex of the remote graph.
#[derive(Debug, PartialEq)]
pub struct Vertex {
    pub id: i64,
    pub label: String,
}

/// Ghost model of a [`Vertex`]: the label as a sequence of characters.
pub ghost struct VertexModel {
    pub id: i64,
    pub label: Seq<char>,
}

impl View for Vertex {
    type V = VertexModel;

    open spec fn view(&self) -> VertexModel {
        VertexModel { id: self.id, label: self.label@ }
    }
}

impl Clone for Vertex {
    fn clone(&self) -> (r: Self)
        ensures
            r == *self,
    {
        Vertex { id: self.id, label: self.label.clone() }
    }
}

/// An edge of the remote graph.
#[derive(Debug, PartialEq)]
pub struct Edge {
    pub id: i64,
    pub label: String,
}

/// Ghost model of an [`Edge`]: the label as a sequence of characters.
pub ghost struct EdgeModel {
    pub id: i64,
    pub label: Seq<char>,
}

impl View for Edge {
    type V = EdgeModel;

    open spec fn view(&self) -> EdgeModel {
        EdgeModel { id: self.id, label: self.label@ }
    }
}

impl Clone for Edge {
    fn clone(&self) -> (r: Self)
        ensures
            r == *self,
    {
        Edge { id: self.id, label: self.label.clone() }
    }
}

/// A tagged-union value: the wire representation of one step argument or of
/// one decoded result datum.
#[derive(Debug, PartialEq)]
pub enum GValue {
    String(String),
    Int64(i64),
    Bool(bool),
    Vertex(Vertex),
    Edge(Edge),
}

/// Ghost model of a [`GValue`]: strings are modeled as character sequences.
pub ghost enum GValueModel {
    Str(Seq<char>),
    Int64(i64),
    Bool(bool),
    Vertex(VertexModel),
    Edge(EdgeModel),
}

impl View for GValue {
    type V = GValueModel;

    open spec fn view(&self) -> GValueModel {
        match self {
            GValue::String(s) => GValueModel::Str(s@),
            GValue::Int64(n) => GValueModel::Int64(*n),
            GValue::Bool(b) => GValueModel::Bool(*b),
            GValue::Vertex(v) => GValueModel::Vertex(v@),
            GValue::Edge(e) => GValueModel::Edge(e@),
        }
    }
}

impl Clone for GValue {
    fn clone(&self) -> (r: Self)
        ensures
            r == *self,
    {
        match self {
            GValue::String(s) => GValue::String(s.clone()),
            GValue::Int64(n) => GValue::Int64(*n),
            GValue::Bool(b) => GValue::Bool(*b),
            GValue::Vertex(v) => GValue::Vertex(v.clone()),
            GValue::Edge(e) => GValue::Edge(e.clone()),
        }
    }
}

/// The views of a sequence of values.
pub open spec fn gvalue_views(args: Seq<GValue>) -> Seq<GValueModel> {
    args.map_values(|g: GValue| g@)
}

/// An argument convertible into one [`GValue`].
pub trait IntoGValue: Sized {
    /// The model of the value this argument converts to.
    spec fn gvalue_spec(&self) -> GValueModel;

    /// Converts the argument; the result's model is exactly [`Self::gvalue_spec`].
    fn into_gvalue(self) -> (r: GValue)
        ensures
            r@ == self.gvalue_spec(),
    ;
}

impl IntoGValue for GValue {
    open spec fn gvalue_spec(&self) -> GValueModel {
        self@
    }

    fn into_gvalue(self) -> (r: GValue) {
        self
    }
}

impl IntoGValue for String {
    open spec fn gvalue_spec(&self) -> GValueModel {
        GValueModel::Str(self@)
    }

    fn into_gvalue(self) -> (r: GValue) {
        GValue::String(self)
    }
}

impl IntoGValue for &str {
    open spec fn gvalue_spec(&self) -> GValueModel {
        GValueModel::Str(self@)
    }

    fn into_gvalue(self) -> (r: GValue) {
        GValue::String(self.to_owned())
    }
}

impl IntoGValue for i64 {
    open spec fn gvalue_spec(&self) -> GValueModel {
        GValueModel::Int64(*self)
    }

    fn into_gvalue(self) -> (r: GValue) {
        GValue::Int64(self)
    }
}

impl IntoGValue for bool {
    open spec fn gvalue_spec(&self) -> GValueModel {
        GValueModel::Bool(*self)
    }

    fn into_gvalue(self) -> (r: GValue) {
        GValue::Bool(self)
    }
}

impl IntoGValue for Vertex {
    open spec fn gvalue_spec(&self) -> GValueModel {
        GValueModel::Vertex(self@)
    }

    fn into_gvalue(self) -> (r: GValue) {
        GValue::Vertex(self)
    }
}

impl IntoGValue for Edge {
    open spec fn gvalue_spec(&self) -> GValueModel {
        GValueModel::Edge(self@)
    }

    fn into_gvalue(self) -> (r: GValue) {
        GValue::Edge(self)
    }
}

/// An ordered collection of label strings handed to a navigation step.
pub struct Labels(pub Vec<String>);

impl View for Labels {
    type V = Seq<Seq<char>>;

    open spec fn view(&self) -> Seq<Seq<char>> {
        self.0@.map_values(|s: String| s@)
    }
}

/// The wire arguments of a step that takes labels: one string value per label.
pub open spec fn string_args(labels: Seq<Seq<char>>) -> Seq<GValueModel> {
    labels.map_values(|l: Seq<char>| GValueModel::Str(l))
}

/// An argument convertible into a collection of labels.
pub trait IntoLabels: Sized {
    /// The labels this argument converts to, in order.
    spec fn labels_spec(&self) -> Seq<Seq<char>>;

    /// Converts the argument; the result's view is exactly [`Self::labels_spec`].
    fn into_labels(self) -> (r: Labels)
        ensures
            r@ == self.labels_spec(),
    ;
}

impl IntoLabels for &str {
    open spec fn labels_spec(&self) -> Seq<Seq<char>> {
        seq![self@]
    }

    fn into_labels(self) -> (r: Labels) {
        let mut v: Vec<String> = Vec::new();
        v.push(self.to_owned());
        let r = Labels(v);
        proof {
            assert(r@ =~= seq![self@]);
        }
        r
    }
}

impl IntoLabels for String {
    open spec fn labels_spec(&self) -> Seq<Seq<char>> {
        seq![self@]
    }

    fn into_labels(self) -> (r: Labels) {
        let ghost l = self@;
        let mut v: Vec<String> = Vec::new();
        v.push(self);
        let r = Labels(v);
        proof {
            assert(r@ =~= seq![l]);
        }
        r
    }
}

impl IntoLabels for Vec<String> {
    open spec fn labels_spec(&self) -> Seq<Seq<char>> {
        self@.map_values(|s: String| s@)
    }

    fn into_labels(self) -> (r: Labels) {
        Labels(self)
    }
}

impl IntoLabels for () {
    open spec fn labels_spec(&self) -> Seq<Seq<char>> {
        Seq::empty()
    }

    fn into_labels(self) -> (r: Labels) {
        let v: Vec<String> = Vec::new();
        let r = Labels(v);
        proof {
            assert(r@ =~= Seq::<Seq<char>>::empty());
        }
        r
    }
}

/// Converts labels into their wire arguments, one string value per label.
pub fn labels_into_gvalues(labels: &Labels) -> (r: Vec<GValue>)
    ensures
        gvalue_views(r@) == string_args(labels@),
{
    let mut r: Vec<GValue> = Vec::new();
    let n = labels.0.len();
    let mut i: usize = 0;
    while i < n
        invariant
            n == labels.0.len(),
            i <= n,
            r@.len() == i,
            forall|k: int| 0 <= k < i ==> #[trigger] r@[k]@ == GValueModel::Str(labels@[k]),
        decreases n - i,
    {
        r.push(GValue::String(labels.0[i].clone()));
        i = i + 1;
    }
    proof {
        assert(gvalue_views(r@) =~= string_args(labels@));
    }
    r
}

/// A disjoint two-case union argument: either of two payloads, resolved to a
/// single value on the wire.
#[derive(Debug, PartialEq)]
pub enum Either2<A, B> {
    A(A),
    B(B),
}

impl<A: View, B: View> View for Either2<A, B> {
    type V = Either2<A::V, B::V>;

    open spec fn view(&self) -> Either2<A::V, B::V> {
        match self {
            Either2::A(a) => Either2::A(a@),
            Either2::B(b) => Either2::B(b@),
        }
    }
}

/// The wire value of an alias-or-vertex target: both union cases collapse to
/// the resolved value, so the receiving side never sees the union itself.
pub open spec fn gvalue_of_target(t: Either2<Seq<char>, VertexModel>) -> GValueModel {
    match t {
        Either2::A(alias) => GValueModel::Str(alias),
        Either2::B(v) => GValueModel::Vertex(v),
    }
}

/// An argument convertible into an alias-or-vertex target.
pub trait IntoTarget: Sized {
    /// The union case this argument converts to.
    spec fn target_spec(&self) -> Either2<Seq<char>, VertexModel>;

    /// Converts the argument; the result's view is exactly [`Self::target_spec`].
    fn into_target(self) -> (r: Either2<String, Vertex>)
        ensures
            r@ == self.target_spec(),
    ;
}

impl IntoTarget for &str {
    open spec fn target_spec(&self) -> Either2<Seq<char>, VertexModel> {
        Either2::A(self@)
    }

    fn into_target(self) -> (r: Either2<String, Vertex>) {
        Either2::A(self.to_owned())
    }
}

impl IntoTarget for String {
    open spec fn target_spec(&self) -> Either2<Seq<char>, VertexModel> {
        Either2::A(self@)
    }

    fn into_target(self) -> (r: Either2<String, Vertex>) {
        Either2::A(self)
    }
}

impl IntoTarget for Vertex {
    open spec fn target_spec(&self) -> Either2<Seq<char>, VertexModel> {
        Either2::B(self@)
    }

    fn into_target(self) -> (r: Either2<String, Vertex>) {
        Either2::B(self)
    }
}

impl IntoTarget for Either2<String, Vertex> {
    open spec fn target_spec(&self) -> Either2<Seq<char>, VertexModel> {
        self@
    }

    fn into_target(self) -> (r: Either2<String, Vertex>) {
        self
    }
}

/// Resolves a union target to its single wire value.
pub fn target_into_gvalue(t: Either2<String, Vertex>) -> (r: GValue)
    ensures
        r@ == gvalue_of_target(t@),
{
    match t {
        Either2::A(alias) => GValue::String(alias),
        Either2::B(v) => GValue::Vertex(v),
    }
}

} // verus!
