//! The typed traversal builder: a fluent surface that appends wire-exact
//! instructions to an owned [`Bytecode`] while tracking, through two phantom
//! markers, what kind of value the traversal will produce.

use core::marker::PhantomData;
use vstd::prelude::*;
use vstd::string::StringExecFns;
use crate::bytecode::Bytecode;
use crate::bytecode::InstructionModel;
use crate::conversion::FromGValue;
use crate::conversion::GMap;
use crate::conversion::GProperty;
use crate::conversion::List;
use crate::conversion::Path;
use crate::error::GremlinResult;
use crate::step::IntoByStep;
use crate::step::IntoHasStep;
use crate::step::IntoSelectStep;
use crate::step::IntoStr;
use crate::value::Edge;
use crate::value::GValue;
use crate::value::GValueModel;
use crate::value::IntoGValue;
use crate::value::IntoLabels;
use crate::value::IntoTarget;
use crate::value::Vertex;
use crate::value::gvalue_of_target;
use crate::value::gvalue_views;
use crate::value::labels_into_gvalues;
use crate::value::string_args;
use crate::value::target_into_gvalue;

verus! {

/// The shared, read-only handle to the execution strategies of the owning
/// client. The strategy pipeline itself — transport, serialization, response
/// demultiplexing — is an external collaborator that runs outside this core;
/// the builder only carries the handle and never mutates it.
#[derive(Clone, Copy, Debug, PartialEq, Eq)]
pub struct TraversalStrategies {}

impl TraversalStrategies {
    /// Creates the handle.
    pub fn new() -> (r: TraversalStrategies) {
        TraversalStrategies {}
    }
}

/// The fluent, statically typed traversal builder. `S` and `E` are phantom
/// markers — the start and end shape of the traversal — that carry no runtime
/// data and only route conversions; every step call consumes the builder and
/// returns a new one around the same accumulated program.
pub struct GraphTraversal<S, E: FromGValue> {
    start: PhantomData<S>,
    end: PhantomData<E>,
    strategies: TraversalStrategies,
    bytecode: Bytecode,
}

/// Holds when one step call turned `pre` into `post`: exactly one instruction
/// with operator token `op` and arguments `args` was appended to the step
/// sequence, every earlier instruction is unchanged, and the source sequence
/// is untouched.
pub open spec fn appended<S1, E1: FromGValue, S2, E2: FromGValue>(
    pre: GraphTraversal<S1, E1>,
    post: GraphTraversal<S2, E2>,
    op: Seq<char>,
    args: Seq<GValueModel>,
) -> bool {
    &&& post.steps_spec() == pre.steps_spec().push(InstructionModel { operator: op, args })
    &&& post.sources_spec() == pre.sources_spec()
}

impl<S, E: FromGValue> GraphTraversal<S, E> {
    /// The model of the accumulated program.
    pub closed spec fn bytecode_spec(&self) -> crate::bytecode::BytecodeModel {
        self.bytecode@
    }

    /// The step instructions accumulated so far, in call order.
    pub open spec fn steps_spec(&self) -> Seq<InstructionModel> {
        self.bytecode_spec().steps
    }

    /// The source instructions accumulated so far, in call order.
    pub open spec fn sources_spec(&self) -> Seq<InstructionModel> {
        self.bytecode_spec().sources
    }

    /// Creates a builder around an already accumulated program. With an empty
    /// program this is the empty builder: its step sequence is empty.
    pub fn new(strategies: TraversalStrategies, bytecode: Bytecode) -> (r: GraphTraversal<S, E>)
        ensures
            r.bytecode_spec() == bytecode@,
    {
        GraphTraversal { start: PhantomData, end: PhantomData, strategies, bytecode }
    }

    /// The accumulated program.
    pub fn bytecode(&self) -> (r: &Bytecode)
        ensures
            r@ == self.bytecode_spec(),
    {
        &self.bytecode
    }

    /// Appends `hasLabel` with one string argument per label, in order.
    pub fn has_label<L: IntoLabels>(self, labels: L) -> (r: Self)
        ensures
            appended(self, r, "hasLabel"@, string_args(labels.labels_spec())),
    {
        let GraphTraversal { start: _, end: _, strategies, bytecode } = self;
        let mut bytecode = bytecode;
        let ls = labels.into_labels();
        bytecode.add_step(String::from_str("hasLabel"), labels_into_gvalues(&ls));
        GraphTraversal::new(strategies, bytecode)
    }

    /// Appends `addV` with one string argument per label; the traversal now
    /// produces vertices.
    pub fn add_v<T: IntoLabels>(self, label: T) -> (r: GraphTraversal<Vertex, Vertex>)
        ensures
            appended(self, r, "addV"@, string_args(label.labels_spec())),
    {
        let GraphTraversal { start: _, end: _, strategies, bytecode } = self;
        let mut bytecode = bytecode;
        let ls = label.into_labels();
        bytecode.add_step(String::from_str("addV"), labels_into_gvalues(&ls));
        GraphTraversal::new(strategies, bytecode)
    }

    /// Appends `property` with the key and the converted value, in that order.
    pub fn property<T: IntoGValue>(self, key: &str, value: T) -> (r: Self)
        ensures
            appended(
                self,
                r,
                "property"@,
                seq![GValueModel::Str(key@), value.gvalue_spec()],
            ),
    {
        let GraphTraversal { start: _, end: _, strategies, bytecode } = self;
        let mut bytecode = bytecode;
        let args = two_args(GValue::String(key.to_owned()), value.into_gvalue());
        bytecode.add_step(String::from_str("property"), args);
        GraphTraversal::new(strategies, bytecode)
    }

    /// Appends `has` with the step's parameters, verbatim and in order.
    pub fn has<A: IntoHasStep>(self, step: A) -> (r: Self)
        ensures
            appended(self, r, "has"@, step.has_params_spec()),
    {
        let GraphTraversal { start: _, end: _, strategies, bytecode } = self;
        let mut bytecode = bytecode;
        bytecode.add_step(String::from_str("has"), step.into_step().take_params());
        GraphTraversal::new(strategies, bytecode)
    }

    /// Appends `hasNot` with the key as its single argument.
    pub fn has_not<A: IntoStr>(self, key: A) -> (r: Self)
        ensures
            appended(self, r, "hasNot"@, seq![GValueModel::Str(key.str_spec())]),
    {
        let GraphTraversal { start: _, end: _, strategies, bytecode } = self;
        let mut bytecode = bytecode;
        let args = one_arg(GValue::String(key.into_string()));
        bytecode.add_step(String::from_str("hasNot"), args);
        GraphTraversal::new(strategies, bytecode)
    }

    /// Appends `as` with the alias as its single argument.
    pub fn as_<T: IntoStr>(self, alias: T) -> (r: GraphTraversal<S, E>)
        ensures
            appended(self, r, "as"@, seq![GValueModel::Str(alias.str_spec())]),
    {
        let GraphTraversal { start: _, end: _, strategies, bytecode } = self;
        let mut bytecode = bytecode;
        let args = one_arg(GValue::String(alias.into_string()));
        bytecode.add_step(String::from_str("as"), args);
        GraphTraversal::new(strategies, bytecode)
    }

    /// Appends `addE` with the label as its single argument; the traversal now
    /// produces edges.
    pub fn add_e<T: IntoStr>(self, label: T) -> (r: GraphTraversal<S, Edge>)
        ensures
            appended(self, r, "addE"@, seq![GValueModel::Str(label.str_spec())]),
    {
        let GraphTraversal { start: _, end: _, strategies, bytecode } = self;
        let mut bytecode = bytecode;
        let args = one_arg(GValue::String(label.into_string()));
        bytecode.add_step(String::from_str("addE"), args);
        GraphTraversal::new(strategies, bytecode)
    }

    /// Appends `out` with one string argument per label; the traversal now
    /// produces vertices.
    pub fn out<L: IntoLabels>(self, labels: L) -> (r: GraphTraversal<S, Vertex>)
        ensures
            appended(self, r, "out"@, string_args(labels.labels_spec())),
    {
        let GraphTraversal { start: _, end: _, strategies, bytecode } = self;
        let mut bytecode = bytecode;
        let ls = labels.into_labels();
        bytecode.add_step(String::from_str("out"), labels_into_gvalues(&ls));
        GraphTraversal::new(strategies, bytecode)
    }

    /// Appends `outE` with one string argument per label; the traversal now
    /// produces edges.
    pub fn out_e<L: IntoLabels>(self, labels: L) -> (r: GraphTraversal<S, Edge>)
        ensures
            appended(self, r, "outE"@, string_args(labels.labels_spec())),
    {
        let GraphTraversal { start: _, end: _, strategies, bytecode } = self;
        let mut bytecode = bytecode;
        let ls = labels.into_labels();
        bytecode.add_step(String::from_str("outE"), labels_into_gvalues(&ls));
        GraphTraversal::new(strategies, bytecode)
    }

    /// Appends `outV` with no arguments; the traversal now produces vertices.
    pub fn out_v(self) -> (r: GraphTraversal<S, Vertex>)
        ensures
            appended(self, r, "outV"@, Seq::<GValueModel>::empty()),
    {
        let GraphTraversal { start: _, end: _, strategies, bytecode } = self;
        let mut bytecode = bytecode;
        bytecode.add_step(String::from_str("outV"), no_args());
        GraphTraversal::new(strategies, bytecode)
    }

    /// Appends `in` with one string argument per label; the traversal now
    /// produces vertices.
    pub fn in_<L: IntoLabels>(self, labels: L) -> (r: GraphTraversal<S, Vertex>)
        ensures
            appended(self, r, "in"@, string_args(labels.labels_spec())),
    {
        let GraphTraversal { start: _, end: _, strategies, bytecode } = self;
        let mut bytecode = bytecode;
        let ls = labels.into_labels();
        bytecode.add_step(String::from_str("in"), labels_into_gvalues(&ls));
        GraphTraversal::new(strategies, bytecode)
    }

    /// Appends `inE` with one string argument per label; the traversal now
    /// produces edges.
    pub fn in_e<L: IntoLabels>(self, labels: L) -> (r: GraphTraversal<S, Edge>)
        ensures
            appended(self, r, "inE"@, string_args(labels.labels_spec())),
    {
        let GraphTraversal { start: _, end: _, strategies, bytecode } = self;
        let mut bytecode = bytecode;
        let ls = labels.into_labels();
        bytecode.add_step(String::from_str("inE"), labels_into_gvalues(&ls));
        GraphTraversal::new(strategies, bytecode)
    }

    /// Appends `inV` with no arguments; the traversal now produces vertices.
    pub fn in_v(self) -> (r: GraphTraversal<S, Vertex>)
        ensures
            appended(self, r, "inV"@, Seq::<GValueModel>::empty()),
    {
        let GraphTraversal { start: _, end: _, strategies, bytecode } = self;
        let mut bytecode = bytecode;
        bytecode.add_step(String::from_str("inV"), no_args());
        GraphTraversal::new(strategies, bytecode)
    }

    /// Appends `label` with no arguments; the traversal now produces strings.
    pub fn label(self) -> (r: GraphTraversal<S, String>)
        ensures
            appended(self, r, "label"@, Seq::<GValueModel>::empty()),
    {
        let GraphTraversal { start: _, end: _, strategies, bytecode } = self;
        let mut bytecode = bytecode;
        bytecode.add_step(String::from_str("label"), no_args());
        GraphTraversal::new(strategies, bytecode)
    }

    /// The typed materialization of a terminal call: decodes the raw values
    /// the execution bridge produced for this traversal into the end type,
    /// all or nothing. Returns `Ok` exactly when every raw value converts,
    /// with the conversions in order; otherwise the first conversion failure.
    pub fn to_list(&self, raw: Vec<GValue>) -> (r: GremlinResult<Vec<E>>)
        ensures
            (r is Ok) == (forall|i: int|
                0 <= i < raw@.len() ==> #[trigger] E::from_gvalue_spec(raw@[i]) is Some),
            r is Ok ==> r->Ok_0@.len() == raw@.len() && (forall|i: int|
                0 <= i < raw@.len() ==> #[trigger] E::from_gvalue_spec(raw@[i])
                    == Some(r->Ok_0@[i])),
            r is Err ==> r->Err_0@ is Cast,
    {
        let mut out: Vec<E> = Vec::new();
        let n = raw.len();
        let mut i: usize = 0;
        while i < n
            invariant
                n == raw.len(),
                i <= n,
                out@.len() == i,
                forall|k: int|
                    0 <= k < i ==> #[trigger] E::from_gvalue_spec(raw@[k]) == Some(out@[k]),
            decreases n - i,
        {
            let g = raw[i].clone();
            match E::from_gvalue(g) {
                Ok(x) => {
                    out.push(x);
                },
                Err(e) => {
                    proof {
                        let ghost w = i as int;
                        assert(!(E::from_gvalue_spec(raw@[w]) is Some));
                        assert(!(forall|k: int|
                            0 <= k < raw@.len() ==> #[trigger] E::from_gvalue_spec(raw@[k])
                                is Some));
                    }
                    return Err(e);
                },
            }
            i = i + 1;
        }
        Ok(out)
    }

    /// Appends `from` with the resolved alias-or-vertex target as its single
    /// argument.
    pub fn from<A: IntoTarget>(self, target: A) -> (r: GraphTraversal<S, E>)
        ensures
            appended(self, r, "from"@, seq![gvalue_of_target(target.target_spec())]),
    {
        let GraphTraversal { start: _, end: _, strategies, bytecode } = self;
        let mut bytecode = bytecode;
        let args = one_arg(target_into_gvalue(target.into_target()));
        bytecode.add_step(String::from_str("from"), args);
        GraphTraversal::new(strategies, bytecode)
    }

    /// Appends `to` with the resolved alias-or-vertex target as its single
    /// argument.
    pub fn to<A: IntoTarget>(self, target: A) -> (r: GraphTraversal<S, E>)
        ensures
            appended(self, r, "to"@, seq![gvalue_of_target(target.target_spec())]),
    {
        let GraphTraversal { start: _, end: _, strategies, bytecode } = self;
        let mut bytecode = bytecode;
        let args = one_arg(target_into_gvalue(target.into_target()));
        bytecode.add_step(String::from_str("to"), args);
        GraphTraversal::new(strategies, bytecode)
    }

    /// Appends `properties` with one string argument per label; the traversal
    /// now produces properties.
    pub fn properties<L: IntoLabels>(self, labels: L) -> (r: GraphTraversal<S, GProperty>)
        ensures
            appended(self, r, "properties"@, string_args(labels.labels_spec())),
    {
        let GraphTraversal { start: _, end: _, strategies, bytecode } = self;
        let mut bytecode = bytecode;
        let ls = labels.into_labels();
        bytecode.add_step(String::from_str("properties"), labels_into_gvalues(&ls));
        GraphTraversal::new(strategies, bytecode)
    }

    /// Appends `propertyMap` with one string argument per label; the traversal
    /// now produces maps.
    pub fn property_map<L: IntoLabels>(self, labels: L) -> (r: GraphTraversal<S, GMap>)
        ensures
            appended(self, r, "propertyMap"@, string_args(labels.labels_spec())),
    {
        let GraphTraversal { start: _, end: _, strategies, bytecode } = self;
        let mut bytecode = bytecode;
        let ls = labels.into_labels();
        bytecode.add_step(String::from_str("propertyMap"), labels_into_gvalues(&ls));
        GraphTraversal::new(strategies, bytecode)
    }

    /// Appends `values` with one string argument per label; the traversal now
    /// produces untyped values.
    pub fn values<L: IntoLabels>(self, labels: L) -> (r: GraphTraversal<S, GValue>)
        ensures
            appended(self, r, "values"@, string_args(labels.labels_spec())),
    {
        let GraphTraversal { start: _, end: _, strategies, bytecode } = self;
        let mut bytecode = bytecode;
        let ls = labels.into_labels();
        bytecode.add_step(String::from_str("values"), labels_into_gvalues(&ls));
        GraphTraversal::new(strategies, bytecode)
    }

    /// Appends `count` with no arguments; the traversal now produces integers.
    pub fn count(self) -> (r: GraphTraversal<S, i64>)
        ensures
            appended(self, r, "count"@, Seq::<GValueModel>::empty()),
    {
        let GraphTraversal { start: _, end: _, strategies, bytecode } = self;
        let mut bytecode = bytecode;
        bytecode.add_step(String::from_str("count"), no_args());
        GraphTraversal::new(strategies, bytecode)
    }

    /// Appends `groupCount` with no arguments; the traversal now produces
    /// maps.
    pub fn group_count(self) -> (r: GraphTraversal<S, GMap>)
        ensures
            appended(self, r, "groupCount"@, Seq::<GValueModel>::empty()),
    {
        let GraphTraversal { start: _, end: _, strategies, bytecode } = self;
        let mut bytecode = bytecode;
        bytecode.add_step(String::from_str("groupCount"), no_args());
        GraphTraversal::new(strategies, bytecode)
    }

    /// Appends `group` with no arguments; the traversal now produces maps.
    pub fn group(self) -> (r: GraphTraversal<S, GMap>)
        ensures
            appended(self, r, "group"@, Seq::<GValueModel>::empty()),
    {
        let GraphTraversal { start: _, end: _, strategies, bytecode } = self;
        let mut bytecode = bytecode;
        bytecode.add_step(String::from_str("group"), no_args());
        GraphTraversal::new(strategies, bytecode)
    }

    /// Appends `by` with the modulator's parameters, verbatim and in order.
    pub fn by<A: IntoByStep>(self, step: A) -> (r: Self)
        ensures
            appended(self, r, "by"@, step.by_params_spec()),
    {
        let GraphTraversal { start: _, end: _, strategies, bytecode } = self;
        let mut bytecode = bytecode;
        bytecode.add_step(String::from_str("by"), step.into_step().take_params());
        GraphTraversal::new(strategies, bytecode)
    }

    /// Appends `select` with the step's parameters, verbatim and in order; the
    /// traversal now produces untyped values.
    pub fn select<A: IntoSelectStep>(self, step: A) -> (r: GraphTraversal<S, GValue>)
        ensures
            appended(self, r, "select"@, step.select_params_spec()),
    {
        let GraphTraversal { start: _, end: _, strategies, bytecode } = self;
        let mut bytecode = bytecode;
        bytecode.add_step(String::from_str("select"), step.into_step().take_params());
        GraphTraversal::new(strategies, bytecode)
    }

    /// Appends `fold` with no arguments; the traversal now produces lists.
    pub fn fold(self) -> (r: GraphTraversal<S, List>)
        ensures
            appended(self, r, "fold"@, Seq::<GValueModel>::empty()),
    {
        let GraphTraversal { start: _, end: _, strategies, bytecode } = self;
        let mut bytecode = bytecode;
        bytecode.add_step(String::from_str("fold"), no_args());
        GraphTraversal::new(strategies, bytecode)
    }

    /// Appends `path` with no arguments; the traversal now produces paths.
    pub fn path(self) -> (r: GraphTraversal<S, Path>)
        ensures
            appended(self, r, "path"@, Seq::<GValueModel>::empty()),
    {
        let GraphTraversal { start: _, end: _, strategies, bytecode } = self;
        let mut bytecode = bytecode;
        bytecode.add_step(String::from_str("path"), no_args());
        GraphTraversal::new(strategies, bytecode)
    }
}

/// Program-order preservation at the fluent surface: a step call appends
/// exactly one instruction — the documented operator token with the converted
/// arguments — at the end of the step sequence, and never mutates an
/// instruction appended by an earlier call, whether or not the call changed
/// the phantom end type.
pub proof fn lemma_step_program_order<S1, E1: FromGValue, S2, E2: FromGValue>(
    pre: GraphTraversal<S1, E1>,
    post: GraphTraversal<S2, E2>,
    op: Seq<char>,
    args: Seq<GValueModel>,
)
    requires
        appended(pre, post, op, args),
    ensures
        post.steps_spec().len() == pre.steps_spec().len() + 1,
        post.steps_spec()[pre.steps_spec().len() as int] == (InstructionModel {
            operator: op,
            args,
        }),
        forall|k: int|
            0 <= k < pre.steps_spec().len() ==> post.steps_spec()[k] == pre.steps_spec()[k],
        post.sources_spec() == pre.sources_spec(),
{
}

impl<S, E: FromGValue> Clone for GraphTraversal<S, E> {
    /// Duplicates the builder as an independent copy of the same program: the
    /// copy and the original can diverge afterwards without aliasing.
    fn clone(&self) -> (r: Self)
        ensures
            r.bytecode_spec() == self.bytecode_spec(),
    {
        GraphTraversal {
            start: PhantomData,
            end: PhantomData,
            strategies: self.strategies,
            bytecode: self.bytecode.clone(),
        }
    }
}

/// An empty argument list.
fn no_args() -> (r: Vec<GValue>)
    ensures
        gvalue_views(r@) == Seq::<GValueModel>::empty(),
{
    let r: Vec<GValue> = Vec::new();
    proof {
        assert(gvalue_views(r@) =~= Seq::<GValueModel>::empty());
    }
    r
}

/// A single-argument list.
fn one_arg(g: GValue) -> (r: Vec<GValue>)
    ensures
        gvalue_views(r@) == seq![g@],
{
    let ghost m = g@;
    let mut r: Vec<GValue> = Vec::new();
    r.push(g);
    proof {
        assert(gvalue_views(r@) =~= seq![m]);
    }
    r
}

/// A two-argument list, in order.
fn two_args(a: GValue, b: GValue) -> (r: Vec<GValue>)
    ensures
        gvalue_views(r@) == seq![a@, b@],
{
    let ghost ma = a@;
    let ghost mb = b@;
    let mut r: Vec<GValue> = Vec::new();
    r.push(a);
    r.push(b);
    proof {
        assert(gvalue_views(r@) =~= seq![ma, mb]);
    }
    r
}

} // verus!

