use pipeline_schema::compile;
use pipeline_schema::plan::ConstructionPlan;
use pipeline_schema::props::TypedValue;
use pipeline_schema::schema::{
    DeclarationTree, LinkChain, LiteralValue, PropertyEntry, PropertyKey, RawDecorator,
    SchemaError, StageDecl, TreeBody,
};

fn stage(raw: &str, decorators: Vec<RawDecorator>) -> StageDecl {
    StageDecl { raw: raw.to_string(), decorators }
}

fn chain(tokens: &[&str]) -> LinkChain {
    LinkChain { tokens: tokens.iter().map(|t| t.to_string()).collect() }
}

fn tree(name: &str, stages: Vec<StageDecl>, links: Vec<LinkChain>) -> DeclarationTree {
    DeclarationTree {
        name: name.to_string(),
        body: TreeBody::TaggedStages(stages),
        links,
    }
}

fn entry(key: &str, value: LiteralValue) -> PropertyEntry {
    PropertyEntry { key: PropertyKey::BareKey(key.to_string()), value }
}

fn ok_plan(t: DeclarationTree) -> ConstructionPlan {
    compile(t).expect("schema should compile")
}

#[test]
fn it_works() {
    assert_eq!(2 + 2, 4);
}

#[test]
fn three_stage_chain_emits_ordered_pairs() {
    let t = tree(
        "Media",
        vec![stage("Alpha", vec![]), stage("Beta", vec![]), stage("Gamma", vec![])],
        vec![chain(&["alpha", "beta", "gamma"])],
    );
    let p = ok_plan(t);
    assert_eq!(p.links.len(), 2);
    assert_eq!(p.links[0].from, "alpha");
    assert_eq!(p.links[0].to, "beta");
    assert_eq!(p.links[1].from, "beta");
    assert_eq!(p.links[1].to, "gamma");
}

#[test]
fn name_decorator_overrides_display_name() {
    let t = tree(
        "Input",
        vec![stage(
            "URIDecodeBin",
            vec![RawDecorator::NameDec(LiteralValue::StrLit("source".to_string()))],
        )],
        vec![],
    );
    let p = ok_plan(t);
    assert_eq!(p.creations.len(), 1);
    assert_eq!(p.creations[0].id, "uri_decode_bin");
    assert_eq!(p.creations[0].factory, "uridecodebin");
    assert_eq!(p.creations[0].display, "source");
}

#[test]
fn default_display_name_is_canonical_identifier() {
    let t = tree("Input", vec![stage("CudaUpload", vec![])], vec![]);
    let p = ok_plan(t);
    assert_eq!(p.creations[0].id, "cuda_upload");
    assert_eq!(p.creations[0].factory, "cudaupload");
    assert_eq!(p.creations[0].display, "cuda_upload");
}

#[test]
fn count_decorator_expands_into_suffixed_instances() {
    let t = tree(
        "Farm",
        vec![stage(
            "Worker",
            vec![RawDecorator::CountDec(LiteralValue::IntLit("3".to_string()))],
        )],
        vec![],
    );
    let p = ok_plan(t);
    let ids: Vec<&str> = p.creations.iter().map(|c| c.id.as_str()).collect();
    assert_eq!(ids, vec!["worker_0", "worker_1", "worker_2"]);
    assert!(!ids.contains(&"worker"));
    assert_eq!(p.registrations, vec!["worker_0", "worker_1", "worker_2"]);
    for c in &p.creations {
        assert_eq!(c.factory, "worker");
    }
}

#[test]
fn count_zero_removes_the_stage() {
    let t = tree(
        "Farm",
        vec![
            stage("Worker", vec![RawDecorator::CountDec(LiteralValue::IntLit("0".to_string()))]),
            stage("Sink", vec![]),
        ],
        vec![],
    );
    let p = ok_plan(t);
    let ids: Vec<&str> = p.creations.iter().map(|c| c.id.as_str()).collect();
    assert_eq!(ids, vec!["sink"]);
}

#[test]
fn string_properties_emit_in_declaration_order() {
    let t = tree(
        "Cfg",
        vec![stage(
            "X",
            vec![RawDecorator::PropertyDec(vec![
                entry("location", LiteralValue::StrLit("test".to_string())),
                entry("uri", LiteralValue::StrLit("hello".to_string())),
            ])],
        )],
        vec![],
    );
    let p = ok_plan(t);
    assert_eq!(p.properties.len(), 2);
    assert_eq!(p.properties[0].stage, "x");
    assert_eq!(p.properties[0].key, "location");
    assert_eq!(p.properties[0].value, TypedValue::StrVal("test".to_string()));
    assert_eq!(p.properties[1].stage, "x");
    assert_eq!(p.properties[1].key, "uri");
    assert_eq!(p.properties[1].value, TypedValue::StrVal("hello".to_string()));
}

#[test]
fn typed_properties_dispatch_by_literal_kind() {
    let t = tree(
        "Cfg",
        vec![stage(
            "X",
            vec![RawDecorator::PropertyDec(vec![
                entry("threads", LiteralValue::IntLit("42".to_string())),
                entry("offset", LiteralValue::IntLit("-5".to_string())),
                entry("rate", LiteralValue::FloatLit("1.25".to_string())),
                entry("mark", LiteralValue::CharLit('q')),
                entry("live", LiteralValue::BoolLit(true)),
            ])],
        )],
        vec![],
    );
    let p = ok_plan(t);
    assert_eq!(p.properties.len(), 5);
    assert_eq!(p.properties[0].value, TypedValue::IntVal(42));
    assert_eq!(p.properties[1].value, TypedValue::IntVal(-5));
    assert_eq!(p.properties[2].value, TypedValue::FloatVal("1.25".to_string()));
    assert_eq!(p.properties[3].value, TypedValue::CharVal('q'));
    assert_eq!(p.properties[4].value, TypedValue::BoolVal(true));
}

#[test]
fn malformed_property_literals_are_dropped_silently() {
    let t = tree(
        "Cfg",
        vec![stage(
            "X",
            vec![RawDecorator::PropertyDec(vec![
                entry("huge", LiteralValue::IntLit("99999999999999999999".to_string())),
                entry("bad_float", LiteralValue::FloatLit("not a float".to_string())),
                entry("other", LiteralValue::OtherLit),
                PropertyEntry {
                    key: PropertyKey::NonIdentKey,
                    value: LiteralValue::StrLit("dropped".to_string()),
                },
                entry("kept", LiteralValue::StrLit("yes".to_string())),
            ])],
        )],
        vec![],
    );
    let p = ok_plan(t);
    assert_eq!(p.properties.len(), 1);
    assert_eq!(p.properties[0].key, "kept");
    assert_eq!(p.properties[0].value, TypedValue::StrVal("yes".to_string()));
}

#[test]
fn expanded_instances_each_receive_the_property() {
    let t = tree(
        "Farm",
        vec![stage(
            "Worker",
            vec![
                RawDecorator::CountDec(LiteralValue::IntLit("2".to_string())),
                RawDecorator::PropertyDec(vec![entry(
                    "queue",
                    LiteralValue::StrLit("deep".to_string()),
                )]),
            ],
        )],
        vec![],
    );
    let p = ok_plan(t);
    assert_eq!(p.properties.len(), 2);
    assert_eq!(p.properties[0].stage, "worker_0");
    assert_eq!(p.properties[1].stage, "worker_1");
}

#[test]
fn short_link_directive_raises_count_error() {
    let t = tree(
        "Media",
        vec![stage("Alpha", vec![])],
        vec![chain(&["alpha"])],
    );
    assert_eq!(compile(t), Err(SchemaError::CountError));
}

#[test]
fn empty_link_directive_raises_count_error() {
    let t = tree("Media", vec![stage("Alpha", vec![])], vec![chain(&[])]);
    assert_eq!(compile(t), Err(SchemaError::CountError));
}

#[test]
fn unresolved_link_token_drops_the_pairing() {
    let t = tree(
        "Media",
        vec![stage("Alpha", vec![]), stage("Beta", vec![])],
        vec![chain(&["alpha", "ghostly", "beta"])],
    );
    let p = ok_plan(t);
    assert!(p.links.is_empty());
}

#[test]
fn wrong_shape_raises_shape_error() {
    let t = DeclarationTree {
        name: "Rec".to_string(),
        body: TreeBody::FieldRecord,
        links: vec![],
    };
    assert_eq!(compile(t), Err(SchemaError::ShapeError));
    let u = DeclarationTree {
        name: "Uni".to_string(),
        body: TreeBody::UntaggedUnion,
        links: vec![],
    };
    assert_eq!(compile(u), Err(SchemaError::ShapeError));
}

#[test]
fn non_string_name_literal_raises_type_error() {
    let t = tree(
        "Input",
        vec![stage("Src", vec![RawDecorator::NameDec(LiteralValue::BoolLit(true))])],
        vec![],
    );
    assert_eq!(compile(t), Err(SchemaError::DecoratorValueTypeError));
}

#[test]
fn non_integer_count_literal_raises_type_error() {
    let t = tree(
        "Farm",
        vec![stage(
            "Worker",
            vec![RawDecorator::CountDec(LiteralValue::StrLit("3".to_string()))],
        )],
        vec![],
    );
    assert_eq!(compile(t), Err(SchemaError::DecoratorValueTypeError));
    let u = tree(
        "Farm",
        vec![stage(
            "Worker",
            vec![RawDecorator::CountDec(LiteralValue::IntLit("abc".to_string()))],
        )],
        vec![],
    );
    assert_eq!(compile(u), Err(SchemaError::DecoratorValueTypeError));
}

#[test]
fn count_bounds_are_enforced() {
    let ok = tree(
        "Farm",
        vec![stage(
            "W",
            vec![RawDecorator::CountDec(LiteralValue::IntLit("65535".to_string()))],
        )],
        vec![],
    );
    assert!(compile(ok).is_ok());
    let over = tree(
        "Farm",
        vec![stage(
            "W",
            vec![RawDecorator::CountDec(LiteralValue::IntLit("65536".to_string()))],
        )],
        vec![],
    );
    assert_eq!(compile(over), Err(SchemaError::DecoratorValueTypeError));
}

#[test]
fn first_recognized_decorator_governs_resolution() {
    let name_first = tree(
        "Input",
        vec![stage(
            "Src",
            vec![
                RawDecorator::OtherDec,
                RawDecorator::NameDec(LiteralValue::StrLit("cam".to_string())),
                RawDecorator::CountDec(LiteralValue::IntLit("2".to_string())),
            ],
        )],
        vec![],
    );
    let p = ok_plan(name_first);
    assert_eq!(p.creations.len(), 1);
    assert_eq!(p.creations[0].display, "cam");

    let count_first = tree(
        "Input",
        vec![stage(
            "Src",
            vec![
                RawDecorator::CountDec(LiteralValue::IntLit("2".to_string())),
                RawDecorator::NameDec(LiteralValue::BoolLit(false)),
            ],
        )],
        vec![],
    );
    let q = ok_plan(count_first);
    assert_eq!(q.creations.len(), 2);
    assert_eq!(q.creations[0].id, "src_0");
    assert_eq!(q.creations[1].id, "src_1");
}

#[test]
fn first_structural_error_wins() {
    // A bad `name` literal on the first stage surfaces before the short
    // link directive is ever analyzed.
    let t = tree(
        "Media",
        vec![stage("Src", vec![RawDecorator::NameDec(LiteralValue::OtherLit)])],
        vec![chain(&["src"])],
    );
    assert_eq!(compile(t), Err(SchemaError::DecoratorValueTypeError));
}

#[test]
fn container_and_handle_mirror_the_schema() {
    let t = tree(
        "Media",
        vec![stage("Alpha", vec![]), stage("Beta", vec![])],
        vec![],
    );
    let p = ok_plan(t);
    assert_eq!(p.container, "Media");
    assert_eq!(p.handle.container_field, "Media");
    assert_eq!(p.handle.stage_fields, vec!["alpha", "beta"]);
    assert_eq!(p.registrations, vec!["alpha", "beta"]);
}

#[test]
fn recompilation_is_bit_identical() {
    let make = || {
        tree(
            "Media",
            vec![
                stage(
                    "URIDecodeBin",
                    vec![RawDecorator::NameDec(LiteralValue::StrLit("source".to_string()))],
                ),
                stage(
                    "Worker",
                    vec![RawDecorator::CountDec(LiteralValue::IntLit("2".to_string()))],
                ),
                stage(
                    "Sink",
                    vec![RawDecorator::PropertyDec(vec![entry(
                        "sync",
                        LiteralValue::BoolLit(false),
                    )])],
                ),
            ],
            vec![chain(&["uri_decode_bin", "worker_0", "worker_1", "sink"])],
        )
    };
    let first = compile(make());
    let second = compile(make());
    assert_eq!(first, second);
    assert!(first.is_ok());
}

#[test]
fn pairwise_order_spans_directives_in_order() {
    let t = tree(
        "Media",
        vec![stage("A1", vec![]), stage("B1", vec![]), stage("C1", vec![])],
        vec![chain(&["a1", "b1"]), chain(&["b1", "c1"])],
    );
    let p = ok_plan(t);
    assert_eq!(p.links.len(), 2);
    assert_eq!(p.links[0].from, "a1");
    assert_eq!(p.links[0].to, "b1");
    assert_eq!(p.links[1].from, "b1");
    assert_eq!(p.links[1].to, "c1");
}
