//! Step-argument carriers: pre-converted parameter lists for the `has`, `by`
//! and `select` operators, and the conversion traits the fluent surface
//! accepts them through.

use vstd::prelude::*;
use crate::value::GValue;
use crate::value::GValueModel;
use crate::value::IntoGValue;
use crate::value::gvalue_views;

verus! {

/// A single string argument.
pub trait IntoStr: Sized {
    /// The characters of the string this argument converts to.
    spec fn str_spec(&self) -> Seq<char>;

    /// Converts the argument; the result's view is exactly [`Self::str_spec`].
    fn into_string(self) -> (r: String)
        ensures
            r@ == self.str_spec(),
    ;
}

impl IntoStr for &str {
    open spec fn str_spec(&self) -> Seq<char> {
        self@
    }

    fn into_string(self) -> (r: String) {
        self.to_owned()
    }
}

impl IntoStr for String {
    open spec fn str_spec(&self) -> Seq<char> {
        self@
    }

    fn into_string(self) -> (r: String) {
        self
    }
}

/// The pre-converted parameters of one `has` step, in call order.
pub struct HasStep {
    pub params: Vec<GValue>,
}

impl View for HasStep {
    type V = Seq<GValueModel>;

    open spec fn view(&self) -> Seq<GValueModel> {
        gvalue_views(self.params@)
    }
}

impl HasStep {
    /// Wraps an argument list, kept verbatim and in order.
    pub fn new(params: Vec<GValue>) -> (r: HasStep)
        ensures
            r@ == gvalue_views(params@),
    {
        HasStep { params }
    }

    /// Hands the parameters out, verbatim and in order.
    pub fn take_params(self) -> (r: Vec<GValue>)
        ensures
            gvalue_views(r@) == self@,
    {
        self.params
    }
}

/// An argument convertible into one `has` step.
pub trait IntoHasStep: Sized {
    /// The parameters the step will carry, in order.
    spec fn has_params_spec(&self) -> Seq<GValueModel>;

    /// Converts the argument; the step's parameters are exactly
    /// [`Self::has_params_spec`].
    fn into_step(self) -> (r: HasStep)
        ensures
            r@ == self.has_params_spec(),
    ;
}

impl IntoHasStep for HasStep {
    open spec fn has_params_spec(&self) -> Seq<GValueModel> {
        self@
    }

    fn into_step(self) -> (r: HasStep) {
        self
    }
}

impl<'a, T: IntoGValue> IntoHasStep for (&'a str, T) {
    open spec fn has_params_spec(&self) -> Seq<GValueModel> {
        seq![GValueModel::Str(self.0@), self.1.gvalue_spec()]
    }

    fn into_step(self) -> (r: HasStep) {
        let (key, value) = self;
        let ghost vs = value.gvalue_spec();
        let mut params: Vec<GValue> = Vec::new();
        params.push(GValue::String(key.to_owned()));
        params.push(value.into_gvalue());
        let r = HasStep { params };
        proof {
            assert(r@ =~= seq![GValueModel::Str(key@), vs]);
        }
        r
    }
}

/// The pre-converted parameters of one `by` modulator, in call order.
pub struct ByStep {
    pub params: Vec<GValue>,
}

impl View for ByStep {
    type V = Seq<GValueModel>;

    open spec fn view(&self) -> Seq<GValueModel> {
        gvalue_views(self.params@)
    }
}

impl ByStep {
    /// Wraps an argument list, kept verbatim and in order.
    pub fn new(params: Vec<GValue>) -> (r: ByStep)
        ensures
            r@ == gvalue_views(params@),
    {
        ByStep { params }
    }

    /// Hands the parameters out, verbatim and in order.
    pub fn take_params(self) -> (r: Vec<GValue>)
        ensures
            gvalue_views(r@) == self@,
    {
        self.params
    }
}

/// An argument convertible into one `by` modulator.
pub trait IntoByStep: Sized {
    /// The parameters the modulator will carry, in order.
    spec fn by_params_spec(&self) -> Seq<GValueModel>;

    /// Converts the argument; the modulator's parameters are exactly
    /// [`Self::by_params_spec`].
    fn into_step(self) -> (r: ByStep)
        ensures
            r@ == self.by_params_spec(),
    ;
}

impl IntoByStep for ByStep {
    open spec fn by_params_spec(&self) -> Seq<GValueModel> {
        self@
    }

    fn into_step(self) -> (r: ByStep) {
        self
    }
}

impl IntoByStep for &str {
    open spec fn by_params_spec(&self) -> Seq<GValueModel> {
        seq![GValueModel::Str(self@)]
    }

    fn into_step(self) -> (r: ByStep) {
        let mut params: Vec<GValue> = Vec::new();
        params.push(GValue::String(self.to_owned()));
        let r = ByStep { params };
        proof {
            assert(r@ =~= seq![GValueModel::Str(self@)]);
        }
        r
    }
}

/// The pre-converted parameters of one `select` step, in call order.
pub struct SelectStep {
    pub params: Vec<GValue>,
}

impl View for SelectStep {
    type V = Seq<GValueModel>;

    open spec fn view(&self) -> Seq<GValueModel> {
        gvalue_views(self.params@)
    }
}

impl SelectStep {
    /// Wraps an argument list, kept verbatim and in order.
    pub fn new(params: Vec<GValue>) -> (r: SelectStep)
        ensures
            r@ == gvalue_views(params@),
    {
        SelectStep { params }
    }

    /// Hands the parameters out, verbatim and in order.
    pub fn take_params(self) -> (r: Vec<GValue>)
        ensures
            gvalue_views(r@) == self@,
    {
        self.params
    }
}

/// An argument convertible into one `select` step.
pub trait IntoSelectStep: Sized {
    /// The parameters the step will carry, in order.
    spec fn select_params_spec(&self) -> Seq<GValueModel>;

    /// Converts the argument; the step's parameters are exactly
    /// [`Self::select_params_spec`].
    fn into_step(self) -> (r: SelectStep)
        ensures
            r@ == self.select_params_spec(),
    ;
}

impl IntoSelectStep for SelectStep {
    open spec fn select_params_spec(&self) -> Seq<GValueModel> {
        self@
    }

    fn into_step(self) -> (r: SelectStep) {
        self
    }
}

impl IntoSelectStep for &str {
    open spec fn select_params_spec(&self) -> Seq<GValueModel> {
        seq![GValueModel::Str(self@)]
    }

    fn into_step(self) -> (r: SelectStep) {
        let mut params: Vec<GValue> = Vec::new();
        params.push(GValue::String(self.to_owned()));
        let r = SelectStep { params };
        proof {
            assert(r@ =~= seq![GValueModel::Str(self@)]);
        }
        r
    }
}

} // verus!
