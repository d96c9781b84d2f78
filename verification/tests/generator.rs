use hunter2::driver::emit;
use hunter2::model::{
    has_hidden_attr, is_hidden_attr, FieldAttr, FieldDescriptor, FieldList, Shape, TypeDescriptor,
    VariantDescriptor,
};
use hunter2::shadow::{
    construction_expr, shadow_declaration, shadow_field, Member, ShadowFieldList, ShadowShape,
    ShadowTy,
};

fn attr(path: &str, bare: bool) -> FieldAttr {
    FieldAttr {
        path: path.to_string(),
        bare,
    }
}

fn named(name: &str, ty: &str, attrs: Vec<FieldAttr>) -> FieldDescriptor {
    FieldDescriptor {
        name: Some(name.to_string()),
        attrs,
        ty: ty.to_string(),
    }
}

fn positional(ty: &str, attrs: Vec<FieldAttr>) -> FieldDescriptor {
    FieldDescriptor {
        name: None,
        attrs,
        ty: ty.to_string(),
    }
}

#[test]
fn marker_must_match_exactly() {
    assert!(is_hidden_attr(&attr("hidden", true)));
    assert!(!is_hidden_attr(&attr("hidden", false)));
    assert!(!is_hidden_attr(&attr("hidden2", true)));
    assert!(!is_hidden_attr(&attr("Hidden", true)));
    assert!(!is_hidden_attr(&attr("", true)));
}

#[test]
fn field_is_hidden_when_any_attribute_is_the_marker() {
    let f = named("password", "String", vec![attr("doc", true), attr("hidden", true)]);
    assert!(has_hidden_attr(&f));
    let g = named("username", "String", vec![attr("doc", true)]);
    assert!(!has_hidden_attr(&g));
    let h = named("username", "String", vec![]);
    assert!(!has_hidden_attr(&h));
}

#[test]
fn hidden_field_wraps_in_masking_type_and_drops_attributes() {
    let f = named("password", "String", vec![attr("hidden", true), attr("doc", true)]);
    let s = shadow_field(&f);
    assert_eq!(s.name.as_deref(), Some("password"));
    assert!(s.attrs.is_empty());
    match s.ty {
        ShadowTy::Masked { base } => assert_eq!(base, "String"),
        ShadowTy::Borrowed { .. } => panic!("hidden field must take the masking wrapper"),
    }
}

#[test]
fn transparent_field_wraps_in_borrow_and_keeps_attributes() {
    let f = named("username", "String", vec![attr("doc", true)]);
    let s = shadow_field(&f);
    assert_eq!(s.name.as_deref(), Some("username"));
    assert_eq!(s.attrs.len(), 1);
    assert_eq!(s.attrs[0].path, "doc");
    match s.ty {
        ShadowTy::Borrowed { base } => assert_eq!(base, "String"),
        ShadowTy::Masked { .. } => panic!("transparent field must stay a borrow"),
    }
}

fn app_settings() -> TypeDescriptor {
    TypeDescriptor {
        name: "AppSettings".to_string(),
        generics: vec!["T".to_string()],
        shape: Shape::Struct(FieldList::Named(vec![
            named("db_password", "&'static str", vec![attr("hidden", true)]),
            named("max_concurrent_users", "u64", vec![]),
        ])),
    }
}

#[test]
fn declaration_preserves_shape_and_appends_lifetime() {
    let decl = shadow_declaration(&app_settings());
    assert_eq!(decl.name, "AppSettings");
    assert!(decl.derives_debug);
    assert_eq!(decl.generics, vec!["T".to_string(), "'__hunter2".to_string()]);
    match decl.shape {
        ShadowShape::Struct(ShadowFieldList::Named(fields)) => {
            assert_eq!(fields.len(), 2);
            assert_eq!(fields[0].name.as_deref(), Some("db_password"));
            assert!(matches!(&fields[0].ty, ShadowTy::Masked { base } if base == "&'static str"));
            assert_eq!(fields[1].name.as_deref(), Some("max_concurrent_users"));
            assert!(matches!(&fields[1].ty, ShadowTy::Borrowed { base } if base == "u64"));
        }
        _ => panic!("shadow of a named-field struct must be a named-field struct"),
    }
}

#[test]
fn declaration_keeps_positional_shape() {
    let t = TypeDescriptor {
        name: "Credentials".to_string(),
        generics: vec![],
        shape: Shape::Struct(FieldList::Unnamed(vec![positional(
            "String",
            vec![attr("hidden", true)],
        )])),
    };
    let decl = shadow_declaration(&t);
    assert_eq!(decl.generics, vec!["'__hunter2".to_string()]);
    match decl.shape {
        ShadowShape::Struct(ShadowFieldList::Unnamed(fields)) => {
            assert_eq!(fields.len(), 1);
            assert!(fields[0].name.is_none());
            assert!(matches!(&fields[0].ty, ShadowTy::Masked { base } if base == "String"));
        }
        _ => panic!("shadow of a positional struct must be a positional struct"),
    }
}

#[test]
fn declaration_keeps_unit_shape() {
    let t = TypeDescriptor {
        name: "Nothing".to_string(),
        generics: vec![],
        shape: Shape::Struct(FieldList::Unit),
    };
    let decl = shadow_declaration(&t);
    match decl.shape {
        ShadowShape::Struct(ShadowFieldList::Unit) => {}
        _ => panic!("shadow of a unit struct must be a unit struct"),
    }
}

#[test]
fn declaration_wraps_every_variant() {
    let t = TypeDescriptor {
        name: "Event".to_string(),
        generics: vec![],
        shape: Shape::Enum(vec![
            VariantDescriptor {
                name: "Login".to_string(),
                attrs: vec![],
                fields: FieldList::Named(vec![named(
                    "token",
                    "String",
                    vec![attr("hidden", true)],
                )]),
            },
            VariantDescriptor {
                name: "Logout".to_string(),
                attrs: vec![],
                fields: FieldList::Unit,
            },
        ]),
    };
    let decl = shadow_declaration(&t);
    assert_eq!(decl.generics, vec!["'__hunter2".to_string()]);
    match decl.shape {
        ShadowShape::Enum(variants) => {
            assert_eq!(variants.len(), 2);
            assert_eq!(variants[0].name, "Login");
            match &variants[0].fields {
                ShadowFieldList::Named(fields) => {
                    assert!(matches!(&fields[0].ty, ShadowTy::Masked { base } if base == "String"));
                }
                _ => panic!("variant field list must keep its kind"),
            }
            assert_eq!(variants[1].name, "Logout");
            assert!(matches!(variants[1].fields, ShadowFieldList::Unit));
        }
        _ => panic!("shadow of an enum must be an enum"),
    }
}

#[test]
fn construction_binds_named_fields_by_name() {
    let expr = construction_expr(&app_settings());
    assert_eq!(expr.arms.len(), 1);
    let arm = &expr.arms[0];
    assert!(arm.variant.is_none());
    assert_eq!(arm.bindings.len(), 2);
    assert!(matches!(&arm.bindings[0].member, Member::Named(n) if n == "db_password"));
    assert_eq!(arm.bindings[0].index, 0);
    assert!(matches!(&arm.bindings[1].member, Member::Named(n) if n == "max_concurrent_users"));
    assert_eq!(arm.bindings[1].index, 1);
}

#[test]
fn construction_binds_positional_fields_by_position() {
    let t = TypeDescriptor {
        name: "Pair".to_string(),
        generics: vec![],
        shape: Shape::Struct(FieldList::Unnamed(vec![
            positional("u8", vec![]),
            positional("u8", vec![attr("hidden", true)]),
        ])),
    };
    let expr = construction_expr(&t);
    let arm = &expr.arms[0];
    assert_eq!(arm.bindings.len(), 2);
    assert!(matches!(arm.bindings[0].member, Member::Position(0)));
    assert!(matches!(arm.bindings[1].member, Member::Position(1)));
}

#[test]
fn construction_makes_one_arm_per_variant() {
    let t = TypeDescriptor {
        name: "Event".to_string(),
        generics: vec![],
        shape: Shape::Enum(vec![
            VariantDescriptor {
                name: "Login".to_string(),
                attrs: vec![],
                fields: FieldList::Named(vec![named("token", "String", vec![])]),
            },
            VariantDescriptor {
                name: "Logout".to_string(),
                attrs: vec![],
                fields: FieldList::Unit,
            },
        ]),
    };
    let expr = construction_expr(&t);
    assert_eq!(expr.arms.len(), 2);
    assert_eq!(expr.arms[0].variant.as_deref(), Some("Login"));
    assert_eq!(expr.arms[0].bindings.len(), 1);
    assert_eq!(expr.arms[1].variant.as_deref(), Some("Logout"));
    assert!(expr.arms[1].bindings.is_empty());
}

#[test]
fn emit_ties_declaration_and_construction_together() {
    let r = emit(&app_settings());
    assert_eq!(r.target, "AppSettings");
    assert_eq!(r.shadow.name, "AppSettings");
    assert_eq!(r.construction.arms.len(), 1);
}
