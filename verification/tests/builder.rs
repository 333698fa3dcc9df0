use gremlin_client::Bytecode;
use gremlin_client::GValue;
use gremlin_client::GraphTraversal;
use gremlin_client::TraversalStrategies;
use gremlin_client::Vertex;
use gremlin_client::step::ByStep;
use gremlin_client::step::HasStep;
use gremlin_client::step::SelectStep;
use gremlin_client::value::Either2;

fn fresh() -> GraphTraversal<GValue, GValue> {
    GraphTraversal::new(TraversalStrategies::new(), Bytecode::new())
}

fn ops(bytecode: &Bytecode) -> Vec<String> {
    bytecode.steps().iter().map(|i| i.operator.clone()).collect()
}

#[test]
fn empty_builder_yields_empty_step_sequence() {
    let t = fresh();
    assert_eq!(t.bytecode().steps().len(), 0);
    assert_eq!(t.bytecode().sources().len(), 0);
}

#[test]
fn add_v_property_as_scenario() {
    let t = fresh().add_v("person").property("name", "marko").as_("a");
    let steps = t.bytecode().steps();
    assert_eq!(steps.len(), 3);
    assert_eq!(steps[0].operator, "addV");
    assert_eq!(steps[0].args, vec![GValue::String(String::from("person"))]);
    assert_eq!(steps[1].operator, "property");
    assert_eq!(
        steps[1].args,
        vec![
            GValue::String(String::from("name")),
            GValue::String(String::from("marko")),
        ]
    );
    assert_eq!(steps[2].operator, "as");
    assert_eq!(steps[2].args, vec![GValue::String(String::from("a"))]);
}

#[test]
fn add_e_to_scenario() {
    let t = fresh().add_e("knows").to("b");
    let steps = t.bytecode().steps();
    assert_eq!(steps.len(), 2);
    assert_eq!(steps[0].operator, "addE");
    assert_eq!(steps[0].args, vec![GValue::String(String::from("knows"))]);
    assert_eq!(steps[1].operator, "to");
    assert_eq!(steps[1].args, vec![GValue::String(String::from("b"))]);
}

#[test]
fn program_order_is_preserved_over_many_calls() {
    let t = fresh()
        .has_label("person")
        .out("knows")
        .has(("age", 29i64))
        .values("name")
        .fold();
    let expected = vec!["hasLabel", "out", "has", "values", "fold"];
    assert_eq!(ops(t.bytecode()), expected);
}

#[test]
fn every_operator_token_is_wire_exact() {
    let t = fresh()
        .has_label("person")
        .add_v("person")
        .property("name", "marko")
        .has(("name", "marko"))
        .has_not("deleted")
        .as_("a")
        .add_e("knows")
        .out("knows")
        .out_e("knows")
        .out_v()
        .in_("knows")
        .in_e("knows")
        .in_v()
        .label()
        .from("a")
        .to("b")
        .properties("name")
        .property_map("name")
        .values("name")
        .count()
        .group_count()
        .group()
        .by("name")
        .select("a")
        .fold()
        .path();
    let expected = vec![
        "hasLabel",
        "addV",
        "property",
        "has",
        "hasNot",
        "as",
        "addE",
        "out",
        "outE",
        "outV",
        "in",
        "inE",
        "inV",
        "label",
        "from",
        "to",
        "properties",
        "propertyMap",
        "values",
        "count",
        "groupCount",
        "group",
        "by",
        "select",
        "fold",
        "path",
    ];
    assert_eq!(ops(t.bytecode()), expected);
}

#[test]
fn step_call_never_mutates_earlier_instructions() {
    let t = fresh().add_v("person").property("name", "marko");
    let before: Bytecode = t.bytecode().clone();
    // `count` changes the phantom end type; the two earlier instructions must
    // be identical before and after.
    let t2 = t.count();
    let after = t2.bytecode();
    assert_eq!(after.steps().len(), 3);
    assert_eq!(after.steps()[0], before.steps()[0]);
    assert_eq!(after.steps()[1], before.steps()[1]);
}

#[test]
fn cloned_builder_diverges_independently() {
    let a = fresh().add_v("person");
    let b = a.clone();
    let a2 = a.property("name", "marko");
    let b2 = b.property("name", "vadas");
    assert_eq!(a2.bytecode().steps().len(), 2);
    assert_eq!(b2.bytecode().steps().len(), 2);
    assert_eq!(
        a2.bytecode().steps()[1].args,
        vec![
            GValue::String(String::from("name")),
            GValue::String(String::from("marko")),
        ]
    );
    assert_eq!(
        b2.bytecode().steps()[1].args,
        vec![
            GValue::String(String::from("name")),
            GValue::String(String::from("vadas")),
        ]
    );
}

#[test]
fn vertex_target_resolves_to_vertex_value() {
    let v = Vertex { id: 7, label: String::from("person") };
    let t = fresh().add_e("knows").from(v.clone());
    let steps = t.bytecode().steps();
    assert_eq!(steps[1].operator, "from");
    assert_eq!(steps[1].args, vec![GValue::Vertex(v)]);
}

#[test]
fn union_target_both_cases_collapse_to_resolved_value() {
    let alias: Either2<String, Vertex> = Either2::A(String::from("a"));
    let t = fresh().to(alias);
    assert_eq!(
        t.bytecode().steps()[0].args,
        vec![GValue::String(String::from("a"))]
    );
    let v = Vertex { id: 3, label: String::from("person") };
    let concrete: Either2<String, Vertex> = Either2::B(v.clone());
    let t2 = fresh().to(concrete);
    assert_eq!(t2.bytecode().steps()[0].args, vec![GValue::Vertex(v)]);
}

#[test]
fn label_list_becomes_one_argument_per_label() {
    let labels = vec![String::from("person"), String::from("software")];
    let t = fresh().out(labels);
    let steps = t.bytecode().steps();
    assert_eq!(
        steps[0].args,
        vec![
            GValue::String(String::from("person")),
            GValue::String(String::from("software")),
        ]
    );
    let t2 = fresh().out(());
    assert_eq!(t2.bytecode().steps()[0].args, Vec::<GValue>::new());
}

#[test]
fn explicit_step_carriers_keep_params_verbatim() {
    let has = HasStep::new(vec![
        GValue::String(String::from("age")),
        GValue::Int64(29),
    ]);
    let by = ByStep::new(vec![GValue::String(String::from("name"))]);
    let select = SelectStep::new(vec![
        GValue::String(String::from("a")),
        GValue::String(String::from("b")),
    ]);
    let t = fresh().has(has).by(by).select(select);
    let steps = t.bytecode().steps();
    assert_eq!(
        steps[0].args,
        vec![GValue::String(String::from("age")), GValue::Int64(29)]
    );
    assert_eq!(steps[1].args, vec![GValue::String(String::from("name"))]);
    assert_eq!(
        steps[2].args,
        vec![
            GValue::String(String::from("a")),
            GValue::String(String::from("b")),
        ]
    );
}

#[test]
fn add_source_keeps_step_sequence_untouched() {
    let mut bytecode = Bytecode::new();
    bytecode.add_source(
        String::from("withStrategies"),
        vec![GValue::String(String::from("ReadOnlyStrategy"))],
    );
    bytecode.add_step(String::from("count"), vec![]);
    assert_eq!(bytecode.sources().len(), 1);
    assert_eq!(bytecode.sources()[0].operator, "withStrategies");
    assert_eq!(bytecode.steps().len(), 1);
    assert_eq!(bytecode.steps()[0].operator, "count");
}
