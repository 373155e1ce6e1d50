use serde_slim::collector::collect;
use serde_slim::emitter::{emit, process_field, slim_record};
use serde_slim::engine::transform;
use serde_slim::filter::{annotation_fate, keep_field, FieldFate};
use serde_slim::mapper::NameMapping;
use serde_slim::model::{
    AnnBody, AnnItem, AnnStyle, Annotation, Batch, EngineError, FieldDef, RawItem, RecordDef,
    Shape, TypeRef,
};
use serde_slim::rewriter::rewrite_type;

fn s(x: &str) -> String {
    x.to_string()
}

fn named_field(name: &str, ty: &str, anns: Vec<Annotation>) -> FieldDef {
    FieldDef { name: Some(s(name)), ty: TypeRef::Name(s(ty)), anns }
}

fn pos_field(ty: &str, anns: Vec<Annotation>) -> FieldDef {
    FieldDef { name: None, ty: TypeRef::Name(s(ty)), anns }
}

fn list_ann(namespace: &str, items: Vec<AnnItem>) -> Annotation {
    Annotation { style: AnnStyle::Outer, body: AnnBody::List { namespace: s(namespace), items } }
}

fn skip_ser() -> Annotation {
    list_ann("serde", vec![AnnItem::Word(s("skip_serializing"))])
}

fn skip_de() -> Annotation {
    list_ann("serde", vec![AnnItem::Word(s("skip_deserializing"))])
}

fn named_record(name: &str, fields: Vec<FieldDef>) -> RecordDef {
    RecordDef { name: s(name), shape: Shape::Named, fields }
}

fn pos_record(name: &str, fields: Vec<FieldDef>) -> RecordDef {
    RecordDef { name: s(name), shape: Shape::Positional, fields }
}

fn unit_record(name: &str) -> RecordDef {
    RecordDef { name: s(name), shape: Shape::Unit, fields: Vec::new() }
}

fn batch_input(prefix: &str, records: Vec<RecordDef>) -> Vec<RawItem> {
    let mut v = vec![RawItem::Name(s(prefix)), RawItem::Sep];
    for r in records {
        v.push(RawItem::Def(r));
    }
    v
}

#[test]
fn slim_pair_with_reference() {
    let foo = || {
        named_record(
            "Foo",
            vec![named_field("x", "int", vec![]), named_field("y", "int", vec![skip_ser()])],
        )
    };
    let bar = || named_record("Bar", vec![named_field("foo", "Foo", vec![])]);
    let out = transform(batch_input("Serialized", vec![foo(), bar()])).unwrap();
    assert_eq!(out.len(), 4);
    assert_eq!(out[0], foo());
    assert_eq!(out[1], bar());
    assert_eq!(out[2], named_record("SerializedFoo", vec![named_field("x", "int", vec![])]));
    assert_eq!(
        out[3],
        named_record("SerializedBar", vec![named_field("foo", "SerializedFoo", vec![])])
    );
}

#[test]
fn positional_field_skipped() {
    let point =
        pos_record("Point", vec![pos_field("int", vec![]), pos_field("int", vec![skip_de()])]);
    let out = transform(batch_input("Serialized", vec![point])).unwrap();
    assert_eq!(out.len(), 2);
    assert_eq!(out[1], pos_record("SerializedPoint", vec![pos_field("int", vec![])]));
}

#[test]
fn foreign_type_passes_through() {
    let rec = named_record("Foo", vec![named_field("other", "Elsewhere", vec![])]);
    let out = transform(batch_input("Slim", vec![rec])).unwrap();
    assert_eq!(out[1], named_record("SlimFoo", vec![named_field("other", "Elsewhere", vec![])]));
}

#[test]
fn composite_type_rejected() {
    let rec = named_record(
        "Foo",
        vec![FieldDef { name: Some(s("xs")), ty: TypeRef::Composite(s("Vec<Foo>")), anns: vec![] }],
    );
    let r = transform(batch_input("Slim", vec![rec]));
    assert_eq!(r, Err(EngineError::UnsupportedType));
}

#[test]
fn composite_type_on_dropped_field_is_no_error() {
    let composite =
        FieldDef { name: Some(s("xs")), ty: TypeRef::Composite(s("Vec<Foo>")), anns: vec![skip_ser()] };
    let rec = named_record("Foo", vec![composite.clone(), named_field("x", "int", vec![])]);
    let out = transform(batch_input("Slim", vec![rec.clone()])).unwrap();
    assert_eq!(out[0], rec);
    assert_eq!(out[1], named_record("SlimFoo", vec![named_field("x", "int", vec![])]));
}

#[test]
fn empty_input_is_syntax_error() {
    assert_eq!(transform(Vec::new()), Err(EngineError::Syntax));
}

#[test]
fn missing_prefix_is_syntax_error() {
    let input = vec![RawItem::Sep, RawItem::Def(unit_record("Foo"))];
    assert_eq!(transform(input), Err(EngineError::Syntax));
}

#[test]
fn missing_separator_is_syntax_error() {
    let input = vec![RawItem::Name(s("Slim")), RawItem::Def(unit_record("Foo"))];
    assert_eq!(transform(input), Err(EngineError::Syntax));
}

#[test]
fn trailing_garbage_is_syntax_error() {
    let input =
        vec![RawItem::Name(s("Slim")), RawItem::Sep, RawItem::Def(unit_record("Foo")), RawItem::Sep];
    assert_eq!(transform(input), Err(EngineError::Syntax));
}

#[test]
fn nested_annotation_aborts() {
    let f = named_field("x", "int", vec![list_ann("serde", vec![AnnItem::Nested(s("rename(a)"))])]);
    let rec = named_record("Foo", vec![f]);
    let r = transform(batch_input("Slim", vec![rec]));
    assert_eq!(r, Err(EngineError::InvariantViolation));
}

#[test]
fn exclusion_word_short_circuits_before_nested() {
    let f = named_field(
        "x",
        "int",
        vec![list_ann(
            "serde",
            vec![AnnItem::Word(s("skip_serializing")), AnnItem::Nested(s("rename(a)"))],
        )],
    );
    assert_eq!(keep_field(&f), Ok(false));
}

#[test]
fn nested_before_exclusion_word_aborts() {
    let f = named_field(
        "x",
        "int",
        vec![list_ann(
            "serde",
            vec![AnnItem::Nested(s("rename(a)")), AnnItem::Word(s("skip_serializing"))],
        )],
    );
    assert_eq!(keep_field(&f), Err(EngineError::InvariantViolation));
}

#[test]
fn inner_annotation_is_ignored() {
    let inner = Annotation {
        style: AnnStyle::Inner,
        body: AnnBody::List {
            namespace: s("serde"),
            items: vec![AnnItem::Word(s("skip_serializing"))],
        },
    };
    let f = named_field("x", "int", vec![inner]);
    assert_eq!(keep_field(&f), Ok(true));
}

#[test]
fn other_namespace_is_ignored() {
    let f = named_field(
        "x",
        "int",
        vec![list_ann("cfg_attr", vec![AnnItem::Word(s("skip_serializing"))])],
    );
    assert_eq!(keep_field(&f), Ok(true));
}

#[test]
fn literal_item_is_inert() {
    let f = named_field(
        "x",
        "int",
        vec![list_ann(
            "serde",
            vec![AnnItem::Literal(s("\"asd\"")), AnnItem::Word(s("skip_serializing"))],
        )],
    );
    assert_eq!(keep_field(&f), Ok(false));
}

#[test]
fn non_exclusion_word_is_inert() {
    let f = named_field("x", "int", vec![list_ann("serde", vec![AnnItem::Word(s("default"))])]);
    assert_eq!(keep_field(&f), Ok(true));
}

#[test]
fn other_annotation_body_is_inert() {
    let doc =
        Annotation { style: AnnStyle::Outer, body: AnnBody::Other(s("doc = \"a field\"")) };
    let f = named_field("x", "int", vec![doc]);
    assert_eq!(keep_field(&f), Ok(true));
}

#[test]
fn filter_decision_is_idempotent() {
    let fields = vec![
        named_field("a", "int", vec![]),
        named_field("b", "int", vec![skip_ser()]),
        named_field("c", "int", vec![skip_de()]),
    ];
    for f in &fields {
        assert_eq!(keep_field(f), keep_field(f));
    }
}

#[test]
fn annotation_fate_reports_exclusion() {
    assert_eq!(annotation_fate(&skip_ser()), FieldFate::Dropped);
    assert_eq!(annotation_fate(&skip_de()), FieldFate::Dropped);
    assert_eq!(
        annotation_fate(&list_ann("serde", vec![AnnItem::Word(s("default"))])),
        FieldFate::Kept
    );
    assert_eq!(
        annotation_fate(&list_ann("serde", vec![AnnItem::Nested(s("x(y)"))])),
        FieldFate::Invalid
    );
}

#[test]
fn empty_batch_emits_nothing() {
    let out = transform(batch_input("Slim", Vec::new())).unwrap();
    assert_eq!(out, Vec::new());
}

#[test]
fn unit_record_gets_unit_companion() {
    let out = transform(batch_input("Slim", vec![unit_record("Foo")])).unwrap();
    assert_eq!(out.len(), 2);
    assert_eq!(out[0], unit_record("Foo"));
    assert_eq!(out[1], unit_record("SlimFoo"));
}

#[test]
fn self_reference_is_rewritten() {
    let rec = named_record("Foo", vec![named_field("next", "Foo", vec![])]);
    let out = transform(batch_input("Slim", vec![rec])).unwrap();
    assert_eq!(out[1], named_record("SlimFoo", vec![named_field("next", "SlimFoo", vec![])]));
}

#[test]
fn field_order_is_preserved() {
    let rec = named_record(
        "Foo",
        vec![
            named_field("a", "int", vec![]),
            named_field("b", "int", vec![skip_ser()]),
            named_field("c", "str", vec![]),
        ],
    );
    let out = transform(batch_input("Slim", vec![rec])).unwrap();
    assert_eq!(
        out[1],
        named_record(
            "SlimFoo",
            vec![named_field("a", "int", vec![]), named_field("c", "str", vec![])]
        )
    );
}

#[test]
fn collect_builds_the_batch() {
    let input = batch_input("Slim", vec![unit_record("Foo"), unit_record("Bar")]);
    let batch = collect(input).unwrap();
    assert_eq!(batch.prefix, s("Slim"));
    assert_eq!(batch.records, vec![unit_record("Foo"), unit_record("Bar")]);
}

#[test]
fn collect_rejects_a_name_among_definitions() {
    let input = vec![
        RawItem::Name(s("Slim")),
        RawItem::Sep,
        RawItem::Def(unit_record("Foo")),
        RawItem::Name(s("stray")),
    ];
    assert_eq!(collect(input), Err(EngineError::Syntax));
}

#[test]
fn mapping_covers_every_record() {
    let batch = Batch {
        prefix: s("Slim"),
        records: vec![unit_record("Foo"), unit_record("Bar")],
    };
    let m = NameMapping::build(&batch);
    assert_eq!(m.slim_of(&s("Foo")), Some(s("SlimFoo")));
    assert_eq!(m.slim_of(&s("Bar")), Some(s("SlimBar")));
    assert_eq!(m.slim_of(&s("Baz")), None);
}

#[test]
fn rewrite_replaces_known_names_only() {
    let batch = Batch { prefix: s("Slim"), records: vec![unit_record("Foo")] };
    let m = NameMapping::build(&batch);
    assert_eq!(rewrite_type(&TypeRef::Name(s("Foo")), &m), Ok(TypeRef::Name(s("SlimFoo"))));
    assert_eq!(rewrite_type(&TypeRef::Name(s("Bar")), &m), Ok(TypeRef::Name(s("Bar"))));
    assert_eq!(
        rewrite_type(&TypeRef::Composite(s("Vec<Foo>")), &m),
        Err(EngineError::UnsupportedType)
    );
}

#[test]
fn process_field_drops_rewrites_and_aborts() {
    let batch = Batch { prefix: s("Slim"), records: vec![unit_record("Foo")] };
    let m = NameMapping::build(&batch);
    let dropped = named_field("a", "Foo", vec![skip_ser()]);
    assert_eq!(process_field(&dropped, &m), Ok(None));
    let kept = named_field("b", "Foo", vec![]);
    assert_eq!(process_field(&kept, &m), Ok(Some(named_field("b", "SlimFoo", vec![]))));
    let invalid = named_field("c", "int", vec![list_ann("serde", vec![AnnItem::Nested(s("x"))])]);
    assert_eq!(process_field(&invalid, &m), Err(EngineError::InvariantViolation));
}

#[test]
fn slim_record_maps_name_shape_and_fields() {
    let batch = Batch {
        prefix: s("Slim"),
        records: vec![named_record(
            "Foo",
            vec![named_field("x", "Foo", vec![]), named_field("y", "int", vec![skip_de()])],
        )],
    };
    let m = NameMapping::build(&batch);
    let slim = slim_record(&batch.records[0], &m).unwrap();
    assert_eq!(slim, named_record("SlimFoo", vec![named_field("x", "SlimFoo", vec![])]));
}

#[test]
fn emit_keeps_originals_ahead_of_companions() {
    let batch = Batch {
        prefix: s("Slim"),
        records: vec![unit_record("Foo"), unit_record("Bar")],
    };
    let out = emit(batch).unwrap();
    assert_eq!(
        out,
        vec![
            unit_record("Foo"),
            unit_record("Bar"),
            unit_record("SlimFoo"),
            unit_record("SlimBar"),
        ]
    );
}

#[test]
fn annotations_survive_on_kept_fields() {
    let doc = Annotation { style: AnnStyle::Outer, body: AnnBody::Other(s("doc = \"kept\"")) };
    let rec = named_record("Foo", vec![named_field("x", "int", vec![doc.clone()])]);
    let out = transform(batch_input("Slim", vec![rec])).unwrap();
    assert_eq!(out[1], named_record("SlimFoo", vec![named_field("x", "int", vec![doc])]));
}
