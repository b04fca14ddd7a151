use lucet_idl::error::IDLError;
use lucet_idl::rust::{generate_module, RustGenerator};
use lucet_idl::types::{
    AtomType, BackendConfig, DataType, DataTypeRef, FuncDecl, Ident, Module, Named, StructMember,
    Target,
};

fn new_gen() -> RustGenerator {
    RustGenerator::new(Target::X86_64, BackendConfig {})
}

fn empty_module() -> Module {
    Module {
        data_types: vec![],
        func_decls: vec![],
    }
}

fn named_enum(key: u64, name: &str, variants: &[&str]) -> Named<DataType> {
    Named {
        id: Ident { key },
        name: name.to_string(),
        entity: DataType::Enum {
            variants: variants.iter().map(|v| v.to_string()).collect(),
        },
    }
}

fn named_alias(key: u64, name: &str, to: DataTypeRef) -> Named<DataType> {
    Named {
        id: Ident { key },
        name: name.to_string(),
        entity: DataType::Alias { to },
    }
}

fn named_struct(key: u64, name: &str, members: &[(&str, DataTypeRef)]) -> Named<DataType> {
    Named {
        id: Ident { key },
        name: name.to_string(),
        entity: DataType::Struct {
            members: members
                .iter()
                .map(|(n, t)| StructMember {
                    name: n.to_string(),
                    type_: *t,
                })
                .collect(),
        },
    }
}

fn named_func(key: u64, name: &str) -> Named<FuncDecl> {
    Named {
        id: Ident { key },
        name: name.to_string(),
        entity: FuncDecl {
            params: vec![],
            result: None,
        },
    }
}

#[test]
fn enum_lists_variants_in_declared_order() {
    let m = empty_module();
    let mut g = new_gen();
    let entry = named_enum(0, "Color", &["Red", "Green", "Blue"]);
    assert_eq!(g.gen_enum(&m, &entry), Ok(()));
    assert_eq!(
        g.w.buf,
        "#[repr(C)]\n#[derive(Debug, PartialEq, Eq, PartialOrd, Ord)]\n\
         enum Color {\n    Red,\n    Green,\n    Blue,\n}\n\n"
    );
}

#[test]
fn struct_members_keep_declared_order() {
    let m = empty_module();
    let mut g = new_gen();
    let entry = named_struct(
        0,
        "point",
        &[
            ("x", DataTypeRef::Atom(AtomType::F64)),
            ("y", DataTypeRef::Atom(AtomType::F64)),
            ("z", DataTypeRef::Atom(AtomType::F64)),
        ],
    );
    assert_eq!(g.gen_struct(&m, &entry), Ok(()));
    assert_eq!(
        g.w.buf,
        "#[repr(C)]\nstruct Point {\n    x: f64,\n    y: f64,\n    z: f64,\n}\n\n"
    );
}

#[test]
fn alias_then_struct_resolves_through_the_alias() {
    let m = Module {
        data_types: vec![
            named_alias(0, "weight", DataTypeRef::Atom(AtomType::U32)),
            named_struct(1, "sensor", &[("w", DataTypeRef::Defined(Ident { key: 0 }))]),
        ],
        func_decls: vec![],
    };
    let out = generate_module(&m, Target::X86_64, BackendConfig {}).unwrap();
    assert_eq!(
        out,
        "/// weight: alias\ntype Weight = u32;\n\n\
         /// sensor: struct\n#[repr(C)]\nstruct Sensor {\n    w: Weight,\n}\n\n"
    );
}

#[test]
fn alias_chain_lands_on_the_atomic_token() {
    let m = Module {
        data_types: vec![
            named_alias(0, "weight", DataTypeRef::Atom(AtomType::U32)),
            named_alias(1, "heavy", DataTypeRef::Defined(Ident { key: 0 })),
            named_struct(2, "cargo", &[("load", DataTypeRef::Defined(Ident { key: 1 }))]),
        ],
        func_decls: vec![],
    };
    let out = generate_module(&m, Target::X86_64, BackendConfig {}).unwrap();
    assert_eq!(
        out,
        "/// weight: alias\ntype Weight = u32;\n\n\
         /// heavy: alias\ntype Heavy = Weight;\n\n\
         /// cargo: struct\n#[repr(C)]\nstruct Cargo {\n    load: Heavy,\n}\n\n"
    );
}

#[test]
fn generating_twice_is_byte_identical() {
    let m = Module {
        data_types: vec![
            named_enum(0, "mode", &["Off", "On"]),
            named_alias(1, "weight", DataTypeRef::Atom(AtomType::U32)),
            named_struct(
                2,
                "reading",
                &[
                    ("mode", DataTypeRef::Defined(Ident { key: 0 })),
                    ("w", DataTypeRef::Defined(Ident { key: 1 })),
                ],
            ),
        ],
        func_decls: vec![],
    };
    let first = generate_module(&m, Target::X86_64, BackendConfig {}).unwrap();
    let second = generate_module(&m, Target::X86_64, BackendConfig {}).unwrap();
    assert_eq!(first, second);
    let other_target = generate_module(&m, Target::X86, BackendConfig {}).unwrap();
    assert_eq!(first, other_target);
}

#[test]
fn every_atom_kind_has_a_nonempty_token() {
    let kinds = [
        AtomType::Bool,
        AtomType::U8,
        AtomType::U16,
        AtomType::U32,
        AtomType::U64,
        AtomType::I8,
        AtomType::I16,
        AtomType::I32,
        AtomType::I64,
        AtomType::F32,
        AtomType::F64,
    ];
    for k in kinds.iter() {
        assert!(!RustGenerator::atom_name(k).is_empty());
    }
    assert_eq!(RustGenerator::atom_name(&AtomType::Bool), "bool");
    assert_eq!(RustGenerator::atom_name(&AtomType::U8), "u8");
    assert_eq!(RustGenerator::atom_name(&AtomType::I64), "i64");
}

#[test]
fn signed_byte_kind_is_widened_on_purpose() {
    // The table's one asymmetry: the 8-bit signed kind shares the 32-bit
    // signed token, while the neighbouring kinds map width-for-width.
    assert_eq!(RustGenerator::atom_name(&AtomType::I8), "i32");
    assert_eq!(RustGenerator::atom_name(&AtomType::I16), "i16");
    assert_eq!(RustGenerator::atom_name(&AtomType::I32), "i32");
    let m = empty_module();
    let mut g = new_gen();
    let entry = named_struct(
        0,
        "sample",
        &[
            ("small", DataTypeRef::Atom(AtomType::I8)),
            ("medium", DataTypeRef::Atom(AtomType::I16)),
        ],
    );
    assert_eq!(g.gen_struct(&m, &entry), Ok(()));
    assert_eq!(
        g.w.buf,
        "#[repr(C)]\nstruct Sample {\n    small: i32,\n    medium: i16,\n}\n\n"
    );
}

#[test]
fn function_emission_reports_not_implemented() {
    let m = empty_module();
    let mut g = new_gen();
    assert!(!g.supports_functions());
    let f = named_func(7, "poll");
    assert_eq!(g.gen_function(&m, &f), Err(IDLError::NotImplemented));
    assert_eq!(g.w.buf, "");
    assert!(g.defined.is_empty());
}

#[test]
fn module_with_function_decls_is_refused_whole() {
    let m = Module {
        data_types: vec![named_enum(0, "mode", &["Off", "On"])],
        func_decls: vec![named_func(1, "poll")],
    };
    assert_eq!(
        generate_module(&m, Target::X86_64, BackendConfig {}),
        Err(IDLError::NotImplemented)
    );
}

#[test]
fn forward_reference_fails_without_emitting() {
    let m = empty_module();
    let mut g = new_gen();
    let entry = named_struct(0, "sensor", &[("w", DataTypeRef::Defined(Ident { key: 9 }))]);
    assert_eq!(g.gen_struct(&m, &entry), Err(IDLError::UnresolvedReference));
    assert_eq!(g.w.buf, "");
    assert!(g.defined.is_empty());
}

#[test]
fn out_of_order_module_fails_the_session() {
    // The struct references the alias before the alias is processed.
    let m = Module {
        data_types: vec![
            named_struct(1, "sensor", &[("w", DataTypeRef::Defined(Ident { key: 0 }))]),
            named_alias(0, "weight", DataTypeRef::Atom(AtomType::U32)),
        ],
        func_decls: vec![],
    };
    assert_eq!(
        generate_module(&m, Target::X86_64, BackendConfig {}),
        Err(IDLError::UnresolvedReference)
    );
}

#[test]
fn alias_to_undefined_target_fails_without_emitting() {
    let m = empty_module();
    let mut g = new_gen();
    let entry = named_alias(0, "weight", DataTypeRef::Defined(Ident { key: 4 }));
    assert_eq!(g.gen_alias(&m, &entry), Err(IDLError::UnresolvedReference));
    assert_eq!(g.w.buf, "");
}

#[test]
fn duplicate_definition_is_fatal() {
    let m = empty_module();
    let mut g = new_gen();
    assert_eq!(g.gen_enum(&m, &named_enum(0, "mode", &["Off"])), Ok(()));
    let emitted = g.w.buf.clone();
    assert_eq!(
        g.gen_enum(&m, &named_enum(0, "other", &["A"])),
        Err(IDLError::DuplicateDefinition)
    );
    assert_eq!(g.w.buf, emitted);
}

#[test]
fn operation_on_mismatched_variant_is_fatal() {
    let m = empty_module();
    let mut g = new_gen();
    let e = named_enum(0, "mode", &["Off"]);
    assert_eq!(g.gen_alias(&m, &e), Err(IDLError::VariantMismatch));
    assert_eq!(g.gen_struct(&m, &e), Err(IDLError::VariantMismatch));
    let a = named_alias(1, "weight", DataTypeRef::Atom(AtomType::U32));
    assert_eq!(g.gen_enum(&m, &a), Err(IDLError::VariantMismatch));
    assert_eq!(g.w.buf, "");
}

#[test]
fn self_referential_struct_resolves_its_own_name() {
    let m = empty_module();
    let mut g = new_gen();
    let entry = named_struct(0, "node", &[("next", DataTypeRef::Defined(Ident { key: 0 }))]);
    assert_eq!(g.gen_struct(&m, &entry), Ok(()));
    assert_eq!(g.w.buf, "#[repr(C)]\nstruct Node {\n    next: Node,\n}\n\n");
}

#[test]
fn names_are_recased_per_role() {
    // Type names become word-capitalized; field names become snake case.
    // Both would fail if the transform handed its input back unchanged.
    let m = empty_module();
    let mut g = new_gen();
    let entry = named_struct(
        0,
        "sensor_block",
        &[("maxValue", DataTypeRef::Atom(AtomType::U8))],
    );
    assert_eq!(g.gen_struct(&m, &entry), Ok(()));
    assert_eq!(
        g.w.buf,
        "#[repr(C)]\nstruct SensorBlock {\n    max_value: u8,\n}\n\n"
    );
    let mut g2 = new_gen();
    let e2 = named_enum(1, "signal_state", &["powered_up", "powered_down"]);
    assert_eq!(g2.gen_enum(&m, &e2), Ok(()));
    assert_eq!(
        g2.w.buf,
        "#[repr(C)]\n#[derive(Debug, PartialEq, Eq, PartialOrd, Ord)]\n\
         enum SignalState {\n    PoweredUp,\n    PoweredDown,\n}\n\n"
    );
}

#[test]
fn type_header_marks_each_declaration_kind() {
    let m = empty_module();
    let mut g = new_gen();
    assert_eq!(
        g.gen_type_header(&m, &named_alias(0, "weight", DataTypeRef::Atom(AtomType::U32))),
        Ok(())
    );
    assert_eq!(g.gen_type_header(&m, &named_enum(1, "mode", &["Off"])), Ok(()));
    assert_eq!(g.gen_type_header(&m, &named_struct(2, "point", &[])), Ok(()));
    assert_eq!(g.w.buf, "/// weight: alias\n/// mode: enum\n/// point: struct\n");
    assert!(g.defined.is_empty());
}

#[test]
fn registry_defines_once_and_resolves() {
    let mut g = new_gen();
    let entry = named_enum(3, "signal_state", &["Up"]);
    assert_eq!(g.define_name(&entry).as_deref(), Ok("SignalState"));
    assert_eq!(
        g.define_name(&entry),
        Err(IDLError::DuplicateDefinition)
    );
    assert_eq!(
        g.get_defined_name(&DataTypeRef::Defined(Ident { key: 3 })),
        Ok("SignalState")
    );
    assert_eq!(
        g.get_defined_name(&DataTypeRef::Defined(Ident { key: 4 })),
        Err(IDLError::UnresolvedReference)
    );
    assert_eq!(g.get_defined_name(&DataTypeRef::Atom(AtomType::U16)), Ok("u16"));
    assert_eq!(g.w.buf, "");
}

#[test]
fn empty_module_generates_empty_output() {
    let m = empty_module();
    assert_eq!(
        generate_module(&m, Target::Generic, BackendConfig {}),
        Ok(String::new())
    );
}

#[test]
fn empty_struct_and_empty_enum_still_emit() {
    let m = empty_module();
    let mut g = new_gen();
    assert_eq!(g.gen_struct(&m, &named_struct(0, "unit", &[])), Ok(()));
    assert_eq!(g.gen_enum(&m, &named_enum(1, "never", &[])), Ok(()));
    assert_eq!(
        g.w.buf,
        "#[repr(C)]\nstruct Unit {\n}\n\n\
         #[repr(C)]\n#[derive(Debug, PartialEq, Eq, PartialOrd, Ord)]\nenum Never {\n}\n\n"
    );
}
