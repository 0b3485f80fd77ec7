use ref_clone::shape::compute_generics;
use ref_clone::shape::impl_ref_accessors;
use ref_clone::shape::DataDesc;
use ref_clone::shape::FieldDesc;
use ref_clone::shape::FieldsDesc;
use ref_clone::shape::GeneratedBody;
use ref_clone::shape::InputDesc;
use ref_clone::shape::ProjBindings;
use ref_clone::shape::ShapeError;
use ref_clone::shape::VariantDesc;

fn named_field(vis: &str, name: &str, ty: &str) -> FieldDesc {
    FieldDesc {
        vis: vis.to_string(),
        name: Some(name.to_string()),
        ty: ty.to_string(),
    }
}

fn positional_field(vis: &str, ty: &str) -> FieldDesc {
    FieldDesc {
        vis: vis.to_string(),
        name: None,
        ty: ty.to_string(),
    }
}

#[test]
fn generics_are_derived_from_the_name() {
    let g = compute_generics(&"Foo".to_string(), &vec!["T".to_string()]);
    assert_eq!(g.ref_path, "FooRef");
    assert_eq!(g.ref_type, "__Foo__ref_type");
    assert_eq!(g.lt, "'__Ref__Access__Foo");
    assert_eq!(
        g.generics,
        vec![
            "T".to_string(),
            "'__Ref__Access__Foo".to_string(),
            "__Foo__ref_type".to_string(),
        ]
    );
}

#[test]
fn named_struct_view() {
    let input = InputDesc {
        vis: "pub".to_string(),
        name: "Foo".to_string(),
        generics: vec![],
        data: DataDesc::StructData(FieldsDesc::Named(vec![
            named_field("pub", "x", "i64"),
            named_field("", "y", "Vec<u32>"),
        ])),
    };
    let g = impl_ref_accessors(&input).unwrap();
    assert_eq!(g.vis, "pub");
    assert_eq!(g.ref_path, "FooRef");
    match g.body {
        GeneratedBody::StructView(fg) => {
            assert_eq!(fg.ctor, "FooRef");
            assert_eq!(fg.def.len(), 2);
            assert_eq!(fg.def[0].vis, "pub");
            assert_eq!(fg.def[0].name.as_deref(), Some("x"));
            assert_eq!(fg.def[0].ty, "i64");
            assert_eq!(fg.def[0].lifetime, "'__Ref__Access__Foo");
            assert_eq!(fg.def[0].ref_type, "__Foo__ref_type");
            assert_eq!(fg.def[1].name.as_deref(), Some("y"));
            assert_eq!(fg.def[1].ty, "Vec<u32>");
            match fg.bindings {
                ProjBindings::ByName(bs) => {
                    assert_eq!(bs, vec!["x".to_string(), "y".to_string()]);
                }
                ProjBindings::ByPosition(_) => panic!("named fields must be bound by name"),
            }
        }
        GeneratedBody::EnumView(_) => panic!("a record yields a record view"),
    }
}

#[test]
fn tuple_struct_view() {
    let input = InputDesc {
        vis: "".to_string(),
        name: "Pair".to_string(),
        generics: vec!["A".to_string(), "B".to_string()],
        data: DataDesc::StructData(FieldsDesc::Unnamed(vec![
            positional_field("pub", "A"),
            positional_field("pub", "B"),
        ])),
    };
    let g = impl_ref_accessors(&input).unwrap();
    assert_eq!(g.ref_path, "PairRef");
    assert_eq!(g.generics.len(), 4);
    assert_eq!(g.generics[0], "A");
    assert_eq!(g.generics[1], "B");
    match g.body {
        GeneratedBody::StructView(fg) => {
            assert_eq!(fg.def.len(), 2);
            assert_eq!(fg.def[0].name, None);
            assert_eq!(fg.def[0].ty, "A");
            assert!(matches!(fg.bindings, ProjBindings::ByPosition(2)));
        }
        GeneratedBody::EnumView(_) => panic!("a record yields a record view"),
    }
}

#[test]
fn enum_view_mirrors_every_variant() {
    let input = InputDesc {
        vis: "pub".to_string(),
        name: "Enum".to_string(),
        generics: vec!["T".to_string()],
        data: DataDesc::EnumData(vec![
            VariantDesc {
                name: "Variant".to_string(),
                fields: FieldsDesc::Named(vec![named_field("", "x", "u8")]),
            },
            VariantDesc {
                name: "OtherVariant".to_string(),
                fields: FieldsDesc::Named(vec![named_field("", "y", "T")]),
            },
        ]),
    };
    let g = impl_ref_accessors(&input).unwrap();
    assert_eq!(g.ref_path, "EnumRef");
    match g.body {
        GeneratedBody::EnumView(vgs) => {
            assert_eq!(vgs.len(), 2);
            assert_eq!(vgs[0].name, "Variant");
            assert_eq!(vgs[0].gen.ctor, "EnumRef::Variant");
            assert_eq!(vgs[0].gen.def.len(), 1);
            assert_eq!(vgs[0].gen.def[0].ty, "u8");
            assert_eq!(vgs[1].name, "OtherVariant");
            assert_eq!(vgs[1].gen.ctor, "EnumRef::OtherVariant");
            assert_eq!(vgs[1].gen.def[0].ty, "T");
        }
        GeneratedBody::StructView(_) => panic!("a tagged variant yields a variant view"),
    }
}

#[test]
fn zero_field_variant_gets_an_empty_arm() {
    let input = InputDesc {
        vis: "".to_string(),
        name: "E".to_string(),
        generics: vec![],
        data: DataDesc::EnumData(vec![VariantDesc {
            name: "Empty".to_string(),
            fields: FieldsDesc::Named(vec![]),
        }]),
    };
    let g = impl_ref_accessors(&input).unwrap();
    match g.body {
        GeneratedBody::EnumView(vgs) => {
            assert_eq!(vgs.len(), 1);
            assert_eq!(vgs[0].gen.def.len(), 0);
            match &vgs[0].gen.bindings {
                ProjBindings::ByName(bs) => assert_eq!(bs.len(), 0),
                ProjBindings::ByPosition(_) => panic!("named fields must be bound by name"),
            }
        }
        GeneratedBody::StructView(_) => panic!("a tagged variant yields a variant view"),
    }
}

#[test]
fn union_shape_is_rejected() {
    let input = InputDesc {
        vis: "".to_string(),
        name: "U".to_string(),
        generics: vec![],
        data: DataDesc::UnionData,
    };
    assert_eq!(impl_ref_accessors(&input), Err(ShapeError::UnionShape));
}

#[test]
fn unit_struct_is_rejected() {
    let input = InputDesc {
        vis: "".to_string(),
        name: "Nothing".to_string(),
        generics: vec![],
        data: DataDesc::StructData(FieldsDesc::Unit),
    };
    assert_eq!(impl_ref_accessors(&input), Err(ShapeError::UnitFields));
}

#[test]
fn unit_variant_is_rejected() {
    let input = InputDesc {
        vis: "".to_string(),
        name: "E".to_string(),
        generics: vec![],
        data: DataDesc::EnumData(vec![
            VariantDesc {
                name: "Something".to_string(),
                fields: FieldsDesc::Named(vec![named_field("", "x", "u8")]),
            },
            VariantDesc {
                name: "Nothing".to_string(),
                fields: FieldsDesc::Unit,
            },
        ]),
    };
    assert_eq!(impl_ref_accessors(&input), Err(ShapeError::UnitFields));
}
