use retetomat::config::SessionConfig;
use retetomat::loader::{build_challenge_descriptor, build_solution_descriptor, LoadFailure};

#[test]
fn missing_bytecode_file_is_a_load_error() {
    let cfg = SessionConfig::standard(None);
    let r = build_challenge_descriptor(&cfg, None, false, true);
    assert!(matches!(r, Err(LoadFailure::Bytecode)));
}

#[test]
fn invalid_bytecode_is_a_load_error() {
    let cfg = SessionConfig::standard(None);
    let r = build_challenge_descriptor(&cfg, Some(vec![0u8, 1, 2]), false, true);
    assert!(matches!(r, Err(LoadFailure::Bytecode)));
}

#[test]
fn missing_source_map_is_a_metadata_error() {
    let cfg = SessionConfig::standard(None);
    let r = build_challenge_descriptor(&cfg, Some(vec![0u8, 1, 2]), true, false);
    assert!(matches!(r, Err(LoadFailure::Metadata)));
}

#[test]
fn complete_challenge_yields_a_descriptor() {
    let cfg = SessionConfig::standard(None);
    let d = build_challenge_descriptor(&cfg, Some(vec![0xa1, 0x1c, 0xeb]), true, true)
        .expect("descriptor expected");
    assert_eq!(d.bytecode, vec![0xa1, 0x1c, 0xeb]);
    assert_eq!(d.named_address.as_deref(), Some("challenge"));
    assert!(d.has_source_map);
}

#[test]
fn solution_descriptor_is_unnamed_metadata_free() {
    let cfg = SessionConfig::standard(None);
    let d = build_solution_descriptor(&cfg, vec![5u8, 6]);
    assert_eq!(d.bytecode, vec![5u8, 6]);
    assert_eq!(d.named_address.as_deref(), Some("solution"));
    assert!(!d.has_source_map);
}

#[test]
fn standard_config_names_the_deployed_instance() {
    let cfg = SessionConfig::standard(Some("FLAG{x}".to_string()));
    assert_eq!(cfg.challenge_module, "version4");
    assert_eq!(cfg.solve_module, "versionC");
    assert_eq!(cfg.solve_function, "solve");
    assert_eq!(cfg.validate_function, "is_expensive");
    assert_eq!(cfg.challenge_name, "challenge");
    assert_eq!(cfg.solution_name, "solution");
    assert_eq!(cfg.challenger, "challenger");
    assert_eq!(cfg.solver, "solver");
    assert_eq!(cfg.solve_object.index, 1);
    assert_eq!(cfg.solve_object.seq, 0);
    assert_eq!(cfg.admin_object.index, 3);
    assert_eq!(cfg.admin_object.seq, 0);
    assert_eq!(cfg.max_solution_bytes, 2000);
    assert_eq!(cfg.port, 31338);
    assert_eq!(
        cfg.zero_address_bindings,
        vec!["retetomat".to_string(), "solution".to_string()]
    );
    assert_eq!(cfg.flag.as_deref(), Some("FLAG{x}"));
}
