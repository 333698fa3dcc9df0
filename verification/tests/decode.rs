use gremlin_client::Bytecode;
use gremlin_client::GValue;
use gremlin_client::GraphTraversal;
use gremlin_client::GremlinError;
use gremlin_client::TraversalStrategies;
use gremlin_client::Vertex;
use gremlin_client::conversion::FromGValue;
use gremlin_client::conversion::List;

fn fresh() -> GraphTraversal<GValue, GValue> {
    GraphTraversal::new(TraversalStrategies::new(), Bytecode::new())
}

#[test]
fn to_list_decodes_every_value_in_order() {
    let t = fresh().count();
    let raw = vec![GValue::Int64(3), GValue::Int64(5)];
    let out = t.to_list(raw).unwrap();
    assert_eq!(out, vec![3i64, 5i64]);
}

#[test]
fn to_list_on_no_results_is_empty() {
    let t = fresh().count();
    let out = t.to_list(vec![]).unwrap();
    assert_eq!(out, Vec::<i64>::new());
}

#[test]
fn to_list_fails_as_a_whole_on_one_bad_value() {
    let t = fresh().count();
    let raw = vec![GValue::Int64(3), GValue::String(String::from("oops"))];
    match t.to_list(raw) {
        Err(GremlinError::Cast(_)) => {}
        other => panic!("expected a conversion failure, got {:?}", other),
    }
}

#[test]
fn typed_conversions_accept_exactly_their_shape() {
    assert_eq!(
        String::from_gvalue(GValue::String(String::from("marko"))).unwrap(),
        "marko"
    );
    assert_eq!(i64::from_gvalue(GValue::Int64(7)).unwrap(), 7);
    assert!(bool::from_gvalue(GValue::Bool(true)).unwrap());
    let v = Vertex { id: 1, label: String::from("person") };
    assert_eq!(Vertex::from_gvalue(GValue::Vertex(v.clone())).unwrap(), v);
    match i64::from_gvalue(GValue::Bool(false)) {
        Err(GremlinError::Cast(_)) => {}
        other => panic!("expected a conversion failure, got {:?}", other),
    }
}

#[test]
fn collection_markers_never_convert() {
    match List::from_gvalue(GValue::Int64(1)) {
        Err(GremlinError::Cast(_)) => {}
        Ok(_) => panic!("a list marker must not convert"),
        Err(other) => panic!("expected a conversion failure, got {:?}", other),
    }
}

#[test]
fn untyped_results_pass_through_unchanged() {
    let t = fresh().values("name");
    let raw = vec![
        GValue::String(String::from("marko")),
        GValue::Int64(29),
    ];
    let out = t.to_list(raw).unwrap();
    assert_eq!(
        out,
        vec![GValue::String(String::from("marko")), GValue::Int64(29)]
    );
}
