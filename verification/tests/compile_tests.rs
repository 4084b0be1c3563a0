use sysdc::compiler::Compiler;
use sysdc::error::PError;
use sysdc::name::Name;
use sysdc::structure::unchecked::SysDCSpawnChild;
use sysdc::types::Type;

#[test]
fn compile() {
    let mut compiler = Compiler::new();
    let programs = [
        ("A", "data A {}"),
        ("B", "data B {}"),
        ("C", "data C {}"),
        ("D", "data D {}"),
        ("E", "data E {}"),
    ];
    for (unit_name, program) in programs {
        compiler.add_unit(unit_name.to_string(), program.to_string()).unwrap();
    }
    compiler.generate_system().unwrap();
}

fn unit_name(name: &str) -> Name {
    Name::new(&Name::new_root(), name.to_string())
}

#[test]
fn self_contained_unit_checks_and_keeps_declarations() {
    let mut compiler = Compiler::new();
    compiler
        .add_unit(
            "u".to_string(),
            "data A{} data B{} module M{ f() -> A { @return r @spawn r: A } }".to_string(),
        )
        .unwrap();
    let system = compiler.generate_system().unwrap();

    let name_u = unit_name("u");
    let name_a = Name::new(&name_u, "A".to_string());
    assert_eq!(system.units.len(), 1);
    assert_eq!(system.units[0].data.len(), 2);
    assert_eq!(system.units[0].data[0].name, name_a);
    let func = &system.units[0].modules[0].functions[0];
    let (_, ret_type) = func.returns.as_ref().unwrap();
    assert_eq!(*ret_type, Type::Solved(name_a.clone()));
    assert_eq!(func.spawns[0].result.1, Type::Solved(name_a));
}

#[test]
fn mismatched_spawn_type_fails_with_both_types() {
    let mut compiler = Compiler::new();
    compiler
        .add_unit(
            "u".to_string(),
            "data A{} data B{} module M{ f() -> A { @return r @spawn r: B } }".to_string(),
        )
        .unwrap();
    let name_u = unit_name("u");
    let expected_a = Type::Solved(Name::new(&name_u, "A".to_string()));
    let actual_b = Type::Solved(Name::new(&name_u, "B".to_string()));
    match compiler.generate_system() {
        Err(PError::TypeMismatch { expected, actual }) => {
            assert_eq!(expected, expected_a);
            assert_eq!(actual, actual_b);
        },
        other => panic!("expected a type mismatch, got {:?}", other),
    }
}

#[test]
fn cross_unit_import_resolves_under_defining_unit() {
    let mut compiler = Compiler::new();
    compiler
        .add_unit("A".to_string(), "data Box {x:int32}".to_string())
        .unwrap();
    compiler
        .add_unit_with_imports(
            "B".to_string(),
            "module M { f() -> Box { @return r @spawn r: Box } }".to_string(),
            vec!["A".to_string()],
        )
        .unwrap();
    let system = compiler.generate_system().unwrap();
    let func = &system.units[1].modules[0].functions[0];
    let (_, ret_type) = func.returns.as_ref().unwrap();
    match ret_type {
        Type::Solved(n) => {
            assert_eq!(n.namespace, ".0.A");
            assert_eq!(n.name, "Box");
            assert_eq!(n.get_full_name(), ".0.A.Box");
        },
        other => panic!("expected a resolved type, got {:?}", other),
    }
}

#[test]
fn unresolved_cross_unit_name_without_import_fails() {
    let mut compiler = Compiler::new();
    compiler
        .add_unit("A".to_string(), "data Box {x:int32}".to_string())
        .unwrap();
    compiler
        .add_unit(
            "B".to_string(),
            "module M { f() -> Box { @return r @spawn r: Box } }".to_string(),
        )
        .unwrap();
    match compiler.generate_system() {
        Err(PError::UnresolvedName { name, imports }) => {
            assert_eq!(name.name, "Box");
            assert!(imports.is_empty());
        },
        other => panic!("expected an unresolved name, got {:?}", other),
    }
}

#[test]
fn missing_return_fails_checking() {
    let mut compiler = Compiler::new();
    compiler
        .add_unit(
            "u".to_string(),
            "data A{} module M{ f() -> A { @spawn r: A } }".to_string(),
        )
        .unwrap();
    match compiler.generate_system() {
        Err(PError::MissingAnnotation { which, scope }) => {
            assert_eq!(which, "return");
            assert_eq!(scope.get_full_name(), ".0.u.M.f");
        },
        other => panic!("expected a missing-annotation error, got {:?}", other),
    }
}

#[test]
fn let_to_first_differing_argument_is_reported() {
    let mut compiler = Compiler::new();
    compiler
        .add_unit(
            "u".to_string(),
            "data Box{} module M{ \
                f(x:int32,y:int32)->int32{@return r +use x @spawn r:int32} \
                g(a:int32,b:Box)->int32{@return z +use a @spawn z:int32} }"
                .to_string(),
        )
        .unwrap();
    let name_u = unit_name("u");
    let name_m = Name::new(&name_u, "M".to_string());
    let name_f = Name::new(&name_m, "f".to_string());
    let name_x = Name::new(&name_f, "x".to_string());
    let name_y = Name::new(&name_f, "y".to_string());
    let callee = Name::new(&name_f, "g".to_string());
    let call = SysDCSpawnChild::new_let_to(
        Name::new(&name_f, "called".to_string()),
        (callee, Type::UnsolvedNoHint),
        vec![(name_x, Type::UnsolvedNoHint), (name_y, Type::UnsolvedNoHint)],
    );
    compiler.units[0].modules[0].functions[0].spawns[0].details.push(call);

    let expected_box = Type::Solved(Name::new(&name_u, "Box".to_string()));
    match compiler.generate_system() {
        Err(PError::TypeMismatch { expected, actual }) => {
            assert_eq!(expected, expected_box);
            assert_eq!(actual, Type::Int32);
        },
        other => panic!("expected a type mismatch at the second argument, got {:?}", other),
    }
}

#[test]
fn return_child_of_wrong_type_is_reported_with_both_types() {
    let mut compiler = Compiler::new();
    compiler
        .add_unit(
            "u".to_string(),
            "data A{} data B{} module M{ \
                f() -> A { @return r @spawn r: A @spawn s: B } }"
                .to_string(),
        )
        .unwrap();
    let name_u = unit_name("u");
    let name_m = Name::new(&name_u, "M".to_string());
    let name_f = Name::new(&name_m, "f".to_string());
    // mark the first spawn (declared `A`) as returning `s`, whose resolved
    // type is `B`
    let bad = SysDCSpawnChild::new_return(
        Name::new(&name_f, "s".to_string()),
        Type::UnsolvedNoHint,
    );
    compiler.units[0].modules[0].functions[0].spawns[0].details.push(bad);

    let expected_a = Type::Solved(Name::new(&name_u, "A".to_string()));
    let actual_b = Type::Solved(Name::new(&name_u, "B".to_string()));
    match compiler.generate_system() {
        Err(PError::TypeMismatch { expected, actual }) => {
            assert_eq!(expected, expected_a);
            assert_eq!(actual, actual_b);
        },
        other => panic!("expected a type mismatch, got {:?}", other),
    }
}

#[test]
fn use_child_resolves_to_the_declared_member_type() {
    let mut compiler = Compiler::new();
    compiler
        .add_unit(
            "u".to_string(),
            "data Box { x: int32 } \
             module M { f(b: Box) -> int32 { @return r +use b.x @spawn r: int32 } }"
                .to_string(),
        )
        .unwrap();
    let system = compiler.generate_system().unwrap();
    let spawn = &system.units[0].modules[0].functions[0].spawns[0];
    match &spawn.details[0] {
        sysdc::structure::SysDCSpawnChild::Use(n, t) => {
            assert_eq!(n.name, "b.x");
            assert_eq!(*t, Type::Int32);
        },
        other => panic!("expected a use child, got {:?}", other),
    }
}
