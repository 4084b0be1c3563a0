use sysdc::cli::CliCmd;
use sysdc::name::Name;
use sysdc::types::{SysDCDefaultType, SysDCType, Type};

#[test]
fn test_parse_cli_text() {
    assert!(CliCmd::parse_cli_text("".to_string()).is_none());

    match CliCmd::parse_cli_text("aaa".to_string()) {
        Some((cmd, subcmd, args)) => {
            let empty_string_vec: Vec<String> = vec![];
            assert_eq!(cmd, "aaa");
            assert_eq!(subcmd, "");
            assert_eq!(args, empty_string_vec);
        },
        None => assert!(false),
    }

    match CliCmd::parse_cli_text("aaa bbb".to_string()) {
        Some((cmd, subcmd, args)) => {
            let empty_string_vec: Vec<String> = vec![];
            assert_eq!(cmd, "aaa");
            assert_eq!(subcmd, "bbb");
            assert_eq!(args, empty_string_vec);
        },
        None => assert!(false),
    }

    match CliCmd::parse_cli_text("aaa bbb ccc".to_string()) {
        Some((cmd, subcmd, args)) => {
            assert_eq!(cmd, "aaa");
            assert_eq!(subcmd, "bbb");
            assert_eq!(args, vec!["ccc".to_string()]);
        },
        None => assert!(false),
    }
}

#[test]
fn name_full_path_is_dot_joined() {
    let root = Name::new_root();
    assert_eq!(root.get_full_name(), ".0");
    let child = Name::new(&root, "test".to_string());
    assert_eq!(child.get_full_name(), ".0.test");
    assert_eq!(child.get_name(), "test");
    let grand = Name::new(&child, "inner".to_string());
    assert_eq!(grand.get_full_name(), ".0.test.inner");
    assert_eq!(grand.namespace, ".0.test");
}

#[test]
fn type_from_maps_the_primitive_spellings() {
    let ns = Name::new(&Name::new_root(), "test".to_string());
    assert_eq!(Type::from(&ns, "int32".to_string()), Type::Int32);
    assert_eq!(Type::from(&ns, "i32".to_string()), Type::Int32);
    assert_eq!(Type::from(&ns, "float32".to_string()), Type::Float32);
    assert_eq!(Type::from(&ns, "f32".to_string()), Type::Float32);
    assert_eq!(Type::from(&ns, "string".to_string()), Type::Str);
    assert_eq!(Type::from(&ns, "none".to_string()), Type::Void);
    assert_eq!(
        Type::from(&ns, "Box".to_string()),
        Type::Unsolved(Name::new(&ns, "Box".to_string()))
    );
}

#[test]
fn default_types_are_named_under_global() {
    let all = SysDCDefaultType::get_all();
    assert_eq!(all.len(), 4);
    assert_eq!(all[0].get_full_name(), ".0.global.int32");
    assert_eq!(all[1].get_full_name(), ".0.global.float32");
    assert_eq!(all[2].get_full_name(), ".0.global.string");
    assert_eq!(all[3].get_full_name(), ".0.global.none");
    assert_eq!(all[0].get_name(), "int32");
}

#[test]
fn parent_name_walks_up_and_skips_synthetic_segments() {
    let root = Name::new_root();
    let unit = Name::new(&root, "u".to_string());
    let module = Name::new(&unit, "M".to_string());
    let func = Name::new(&module, "f".to_string());
    assert_eq!(func.get_par_name(false), module);
    assert_eq!(module.get_par_name(false), unit);
    assert_eq!(unit.get_par_name(false), root);
    assert_eq!(root.get_par_name(false), root);

    let synthetic = Name::new(&module, "_anon".to_string());
    let inner = Name::new(&synthetic, "x".to_string());
    assert_eq!(inner.get_par_name(true), module);
    assert_eq!(inner.get_par_name(false), synthetic);
}
