//! The conversion capability that turns decoded wire values back into
//! caller-chosen static types, and the result-shape markers the builder's
//! phantom end type ranges over.

use vstd::prelude::*;
use vstd::string::StringExecFns;
use crate::error::GremlinError;
use crate::error::GremlinResult;
use crate::value::Edge;
use crate::value::GValue;
use crate::value::Vertex;

verus! {

/// A type a decoded value can be converted into.
pub trait FromGValue: Sized {
    /// Which values convert, and to what: `Some` exactly on the values this
    /// type accepts.
    spec fn from_gvalue_spec(v: GValue) -> Option<Self>;

    /// Converts one decoded value. Returns `Ok` exactly on the values
    /// [`Self::from_gvalue_spec`] accepts, with that result; on every other
    /// value it returns the conversion-failure error, never a transport one.
    fn from_gvalue(v: GValue) -> (r: GremlinResult<Self>)
        ensures
            (r is Ok) == (Self::from_gvalue_spec(v) is Some),
            r is Ok ==> Self::from_gvalue_spec(v) == Some(r->Ok_0),
            r is Err ==> r->Err_0@ is Cast,
    ;
}

impl FromGValue for GValue {
    open spec fn from_gvalue_spec(v: GValue) -> Option<GValue> {
        Some(v)
    }

    fn from_gvalue(v: GValue) -> (r: GremlinResult<GValue>) {
        Ok(v)
    }
}

impl FromGValue for String {
    open spec fn from_gvalue_spec(v: GValue) -> Option<String> {
        match v {
            GValue::String(s) => Some(s),
            _ => None,
        }
    }

    fn from_gvalue(v: GValue) -> (r: GremlinResult<String>) {
        match v {
            GValue::String(s) => Ok(s),
            _ => Err(GremlinError::Cast(String::from_str("expected a string value"))),
        }
    }
}

impl FromGValue for i64 {
    open spec fn from_gvalue_spec(v: GValue) -> Option<i64> {
        match v {
            GValue::Int64(n) => Some(n),
            _ => None,
        }
    }

    fn from_gvalue(v: GValue) -> (r: GremlinResult<i64>) {
        match v {
            GValue::Int64(n) => Ok(n),
            _ => Err(GremlinError::Cast(String::from_str("expected an integer value"))),
        }
    }
}

impl FromGValue for bool {
    open spec fn from_gvalue_spec(v: GValue) -> Option<bool> {
        match v {
            GValue::Bool(b) => Some(b),
            _ => None,
        }
    }

    fn from_gvalue(v: GValue) -> (r: GremlinResult<bool>) {
        match v {
            GValue::Bool(b) => Ok(b),
            _ => Err(GremlinError::Cast(String::from_str("expected a boolean value"))),
        }
    }
}

impl FromGValue for Vertex {
    open spec fn from_gvalue_spec(v: GValue) -> Option<Vertex> {
        match v {
            GValue::Vertex(w) => Some(w),
            _ => None,
        }
    }

    fn from_gvalue(v: GValue) -> (r: GremlinResult<Vertex>) {
        match v {
            GValue::Vertex(w) => Ok(w),
            _ => Err(GremlinError::Cast(String::from_str("expected a vertex value"))),
        }
    }
}

impl FromGValue for Edge {
    open spec fn from_gvalue_spec(v: GValue) -> Option<Edge> {
        match v {
            GValue::Edge(e) => Some(e),
            _ => None,
        }
    }

    fn from_gvalue(v: GValue) -> (r: GremlinResult<Edge>) {
        match v {
            GValue::Edge(e) => Ok(e),
            _ => Err(GremlinError::Cast(String::from_str("expected an edge value"))),
        }
    }
}

/// The result shape of a projection step that yields a list. The value model
/// of this core carries no collection values, so no decoded value converts to
/// this marker.
pub struct List {}

impl FromGValue for List {
    open spec fn from_gvalue_spec(v: GValue) -> Option<List> {
        None
    }

    fn from_gvalue(v: GValue) -> (r: GremlinResult<List>) {
        Err(GremlinError::Cast(String::from_str("list values are not carried by this value model")))
    }
}

/// The result shape of a projection step that yields a map. The value model
/// of this core carries no collection values, so no decoded value converts to
/// this marker.
pub struct GMap {}

impl FromGValue for GMap {
    open spec fn from_gvalue_spec(v: GValue) -> Option<GMap> {
        None
    }

    fn from_gvalue(v: GValue) -> (r: GremlinResult<GMap>) {
        Err(GremlinError::Cast(String::from_str("map values are not carried by this value model")))
    }
}

/// The result shape of a path step. The value model of this core carries no
/// path values, so no decoded value converts to this marker.
pub struct Path {}

impl FromGValue for Path {
    open spec fn from_gvalue_spec(v: GValue) -> Option<Path> {
        None
    }

    fn from_gvalue(v: GValue) -> (r: GremlinResult<Path>) {
        Err(GremlinError::Cast(String::from_str("path values are not carried by this value model")))
    }
}

/// The result shape of a properties step. The value model of this core carries
/// no property values, so no decoded value converts to this marker.
pub struct GProperty {}

impl FromGValue for GProperty {
    open spec fn from_gvalue_spec(v: GValue) -> Option<GProperty> {
        None
    }

    fn from_gvalue(v: GValue) -> (r: GremlinResult<GProperty>) {
        Err(GremlinError::Cast(String::from_str("property values are not carried by this value model")))
    }
}

} // verus!
