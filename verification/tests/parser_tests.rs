use sysdc::name::Name;
use sysdc::parse::Parser;
use sysdc::structure::unchecked::{
    SysDCData, SysDCFunction, SysDCModule, SysDCSpawn, SysDCSpawnChild, SysDCUnit,
};
use sysdc::token::Tokenizer;
use sysdc::types::Type;

fn generate_name_for_test() -> Name {
    Name::new(&Name::new_root(), "test".to_string())
}

fn parse(program: &str) -> SysDCUnit {
    let tokenizer = Tokenizer::new(program).unwrap();
    let mut parser = Parser::new(tokenizer);
    parser.parse(&generate_name_for_test()).unwrap()
}

fn try_parse(program: &str) -> Result<SysDCUnit, sysdc::error::PError> {
    let tokenizer = Tokenizer::new(program)?;
    let mut parser = Parser::new(tokenizer);
    parser.parse(&generate_name_for_test())
}

fn compare_unit(program: &str, unit: SysDCUnit) {
    assert_eq!(parse(program), unit);
}

#[test]
fn data_empty_ok() {
    let program = "
        data A {}
        data B{}
        data C{

        }
        data D
        {}
        data
        E
        {

        }
    ";

    let name = generate_name_for_test();

    let data = vec![
        SysDCData::new(Name::new(&name, "A".to_string()), vec![]),
        SysDCData::new(Name::new(&name, "B".to_string()), vec![]),
        SysDCData::new(Name::new(&name, "C".to_string()), vec![]),
        SysDCData::new(Name::new(&name, "D".to_string()), vec![]),
        SysDCData::new(Name::new(&name, "E".to_string()), vec![]),
    ];
    let unit = SysDCUnit::new(name, data, vec![], vec![]);

    compare_unit(program, unit);
}

#[test]
fn data_has_member_ok() {
    let program = "
        data Box {
            x: i32,
            y: UserDefinedData,
        }
    ";

    let name = generate_name_for_test();
    let name_box = Name::new(&name, "Box".to_string());

    let member = vec![
        (Name::new(&name_box, "x".to_string()), Type::Int32),
        (
            Name::new(&name_box, "y".to_string()),
            Type::from(&name_box, "UserDefinedData".to_string()),
        ),
    ];
    let data = SysDCData::new(name_box, member);
    let unit = SysDCUnit::new(name, vec![data], vec![], vec![]);

    compare_unit(program, unit);
}

#[test]
fn data_has_illegal_member_def_1() {
    let program = "
        data Box {
            x: i32
            y: i32
        }
    ";
    assert!(try_parse(program).is_err());
}

#[test]
fn data_has_illegal_member_def_2() {
    let program = "
        data Box {
            x: i32,
            y:
        }
    ";
    assert!(try_parse(program).is_err());
}

#[test]
fn data_has_illegal_member_def_3() {
    let program = "
        data Box
            x: i32,
            y: i32
    ";
    assert!(try_parse(program).is_err());
}

#[test]
fn module_empty_ok() {
    let program = "
        module A {}
        module B{}
        module C{

        }
        module D
        {}
        module
        E
        {

        }
    ";

    let name = generate_name_for_test();

    let module = vec![
        SysDCModule::new(Name::new(&name, "A".to_string()), vec![]),
        SysDCModule::new(Name::new(&name, "B".to_string()), vec![]),
        SysDCModule::new(Name::new(&name, "C".to_string()), vec![]),
        SysDCModule::new(Name::new(&name, "D".to_string()), vec![]),
        SysDCModule::new(Name::new(&name, "E".to_string()), vec![]),
    ];
    let unit = SysDCUnit::new(name, vec![], module, vec![]);

    compare_unit(program, unit);
}

#[test]
fn function_only_has_return() {
    let program = "
        module BoxModule {
            new() -> Box {
                @return box
            }
        }
    ";

    let name = generate_name_for_test();
    let name_module = Name::new(&name, "BoxModule".to_string());
    let name_func = Name::new(&name_module, "new".to_string());
    let name_func_ret = Name::new(&name_func, "box".to_string());

    let func_returns = (name_func_ret, Type::from(&name_func, "Box".to_string()));
    let func = SysDCFunction::new(name_func, vec![], func_returns, vec![]);

    let module = SysDCModule::new(name_module, vec![func]);

    let unit = SysDCUnit::new(name, vec![], vec![module], vec![]);

    compare_unit(program, unit);
}

#[test]
fn function_has_return_and_spawn() {
    let program = "
        module BoxModule {
            new() -> Box {
                @return box

                @spawn box: Box
            }
        }
    ";

    let name = generate_name_for_test();
    let name_module = Name::new(&name, "BoxModule".to_string());
    let name_func = Name::new(&name_module, "new".to_string());
    let name_func_spawn_box = Name::new(&name_func, "box".to_string());
    let name_func_ret = Name::new(&name_func, "box".to_string());

    let func_spawns = vec![SysDCSpawn::new(
        (name_func_spawn_box, Type::from(&name_func, "Box".to_string())),
        vec![],
    )];
    let func_returns = (name_func_ret, Type::from(&name_func, "Box".to_string()));
    let func = SysDCFunction::new(name_func, vec![], func_returns, func_spawns);

    let module = SysDCModule::new(name_module, vec![func]);

    let unit = SysDCUnit::new(name, vec![], vec![module], vec![]);

    compare_unit(program, unit);
}

#[test]
fn function_has_full() {
    let program = "
        module BoxModule {
            move(box: Box, dx: i32, dy: i32) -> Box {
                @return movedBox

                +use box.x, box.y
                +use dx, dy
                @spawn movedBox: Box
            }
        }
    ";

    let name = generate_name_for_test();
    let name_module = Name::new(&name, "BoxModule".to_string());
    let name_func = Name::new(&name_module, "move".to_string());
    let name_func_arg_box = Name::new(&name_func, "box".to_string());
    let name_func_arg_dx = Name::new(&name_func, "dx".to_string());
    let name_func_arg_dy = Name::new(&name_func, "dy".to_string());
    let name_func_spawn_box = Name::new(&name_func, "movedBox".to_string());
    let name_func_spawn_use_box_x = Name::new(&name_func, "box.x".to_string());
    let name_func_spawn_use_box_y = Name::new(&name_func, "box.y".to_string());
    let name_func_spawn_use_dx = Name::new(&name_func, "dx".to_string());
    let name_func_spawn_use_dy = Name::new(&name_func, "dy".to_string());
    let name_func_ret = Name::new(&name_func, "movedBox".to_string());

    let func_args = vec![
        (name_func_arg_box, Type::from(&name_func, "Box".to_string())),
        (name_func_arg_dx, Type::Int32),
        (name_func_arg_dy, Type::Int32),
    ];
    let func_spawns = vec![SysDCSpawn::new(
        (name_func_spawn_box, Type::from(&name_func, "Box".to_string())),
        vec![
            SysDCSpawnChild::new_use(name_func_spawn_use_box_x, Type::UnsolvedNoHint),
            SysDCSpawnChild::new_use(name_func_spawn_use_box_y, Type::UnsolvedNoHint),
            SysDCSpawnChild::new_use(name_func_spawn_use_dx, Type::UnsolvedNoHint),
            SysDCSpawnChild::new_use(name_func_spawn_use_dy, Type::UnsolvedNoHint),
        ],
    )];
    let func_returns = (name_func_ret, Type::from(&name_func, "Box".to_string()));
    let func = SysDCFunction::new(name_func, func_args, func_returns, func_spawns);

    let module = SysDCModule::new(name_module, vec![func]);

    let unit = SysDCUnit::new(name, vec![], vec![module], vec![]);

    compare_unit(program, unit);
}

#[test]
fn illegal_function_1() {
    let program = "
        module BoxModule {
            move() -> {

            }
        }
    ";
    assert!(try_parse(program).is_err());
}

#[test]
fn illegal_function_2() {
    let program = "
        module BoxModule {
            move(box: Box, dx: i32, dy: ) -> i32 {

            }
        }
    ";
    assert!(try_parse(program).is_err());
}

#[test]
fn illegal_function_3() {
    let program = "
        module BoxModule {
            move() {

            }
        }
    ";
    assert!(try_parse(program).is_err());
}

#[test]
fn full() {
    let program = "
        data Box {
            x: i32,
            y: i32
        }

        module BoxModule {
            move(box: Box, dx: i32, dy: i32) -> Box {
                @return movedBox

                +use box.x, box.y, dx, dy
                @spawn movedBox: Box
            }
        }
    ";

    let name = generate_name_for_test();
    let name_data = Name::new(&name, "Box".to_string());
    let name_data_x = Name::new(&name_data, "x".to_string());
    let name_data_y = Name::new(&name_data, "y".to_string());
    let name_module = Name::new(&name, "BoxModule".to_string());
    let name_func = Name::new(&name_module, "move".to_string());
    let name_func_arg_box = Name::new(&name_func, "box".to_string());
    let name_func_arg_dx = Name::new(&name_func, "dx".to_string());
    let name_func_arg_dy = Name::new(&name_func, "dy".to_string());
    let name_func_spawn_box = Name::new(&name_func, "movedBox".to_string());
    let name_func_spawn_use_box_x = Name::new(&name_func, "box.x".to_string());
    let name_func_spawn_use_box_y = Name::new(&name_func, "box.y".to_string());
    let name_func_spawn_use_dx = Name::new(&name_func, "dx".to_string());
    let name_func_spawn_use_dy = Name::new(&name_func, "dy".to_string());
    let name_func_ret = Name::new(&name_func, "movedBox".to_string());

    let func_args = vec![
        (name_func_arg_box, Type::from(&name_func, "Box".to_string())),
        (name_func_arg_dx, Type::Int32),
        (name_func_arg_dy, Type::Int32),
    ];
    let func_spawns = vec![SysDCSpawn::new(
        (name_func_spawn_box, Type::from(&name_func, "Box".to_string())),
        vec![
            SysDCSpawnChild::new_use(name_func_spawn_use_box_x, Type::UnsolvedNoHint),
            SysDCSpawnChild::new_use(name_func_spawn_use_box_y, Type::UnsolvedNoHint),
            SysDCSpawnChild::new_use(name_func_spawn_use_dx, Type::UnsolvedNoHint),
            SysDCSpawnChild::new_use(name_func_spawn_use_dy, Type::UnsolvedNoHint),
        ],
    )];
    let func_returns = (name_func_ret, Type::from(&name_func, "Box".to_string()));
    let func = SysDCFunction::new(name_func, func_args, func_returns, func_spawns);

    let module = SysDCModule::new(name_module, vec![func]);

    let data_members = vec![(name_data_x, Type::Int32), (name_data_y, Type::Int32)];
    let data = SysDCData::new(name_data, data_members);

    let unit = SysDCUnit::new(name, vec![data], vec![module], vec![]);

    compare_unit(program, unit);
}

#[test]
fn parse_twice_is_deterministic() {
    let program = "
        data Box { x: i32, y: i32 }
        module M { f(b: Box) -> Box { @return b } }
    ";
    assert_eq!(parse(program), parse(program));
}

#[test]
fn unknown_annotation_is_refused() {
    let program = "module M { f() -> i32 { @flag x } }";
    match try_parse(program) {
        Err(sysdc::error::PError::UnknownAnnotation { name }) => assert_eq!(name, "flag"),
        other => panic!("expected an unknown-annotation error, got {:?}", other),
    }
}

#[test]
fn unknown_attribute_is_refused() {
    let program = "module M { f() -> i32 { @return r +mod x @spawn r: i32 } }";
    match try_parse(program) {
        Err(sysdc::error::PError::UnknownAttribute { name }) => assert_eq!(name, "mod"),
        other => panic!("expected an unknown-attribute error, got {:?}", other),
    }
}

#[test]
fn duplicate_return_is_refused() {
    let program = "module M { f() -> i32 { @return a @return b } }";
    match try_parse(program) {
        Err(sysdc::error::PError::DuplicateAnnotation { which, .. }) => {
            assert_eq!(which, "return");
        },
        other => panic!("expected a duplicate-annotation error, got {:?}", other),
    }
}

#[test]
fn unreadable_character_is_refused() {
    match try_parse("data A {} #") {
        Err(sysdc::error::PError::Syntax { found, .. }) => assert!(found.is_none()),
        other => panic!("expected a syntax error, got {:?}", other),
    }
}

#[test]
fn attribute_without_variables_is_allowed() {
    let program = "module M { f() -> i32 { @return r +use @spawn r: i32 } }";

    let name = generate_name_for_test();
    let name_module = Name::new(&name, "M".to_string());
    let name_func = Name::new(&name_module, "f".to_string());
    let name_ret = Name::new(&name_func, "r".to_string());
    let name_spawn = Name::new(&name_func, "r".to_string());

    let func = SysDCFunction::new(
        name_func.clone(),
        vec![],
        (name_ret, Type::Int32),
        vec![SysDCSpawn::new((name_spawn, Type::Int32), vec![])],
    );
    let module = SysDCModule::new(name_module, vec![func]);
    let unit = SysDCUnit::new(name, vec![], vec![module], vec![]);

    compare_unit(program, unit);
}

#[test]
fn attributes_without_annotation_are_refused() {
    let program = "module M { f() -> i32 { @return r +use x } }";
    match try_parse(program) {
        Err(sysdc::error::PError::Syntax { expected, .. }) => {
            assert_eq!(expected, sysdc::token::TokenKind::AtMark);
        },
        other => panic!("expected a syntax error, got {:?}", other),
    }
}

#[test]
fn empty_unit_parses_to_empty_lists() {
    let unit = parse("");
    assert_eq!(unit.data.len(), 0);
    assert_eq!(unit.modules.len(), 0);
    assert_eq!(unit.imports.len(), 0);
}

#[test]
fn dotted_use_variable_keeps_its_written_text() {
    let program = "module M { f(b: Box) -> i32 { @return r +use b.x.y @spawn r: i32 } }";
    let unit = parse(program);
    match &unit.modules[0].functions[0].spawns[0].details[0] {
        SysDCSpawnChild::Use(n, t) => {
            assert_eq!(n.name, "b.x.y");
            assert_eq!(*t, Type::UnsolvedNoHint);
        },
        other => panic!("expected a use child, got {:?}", other),
    }
}
