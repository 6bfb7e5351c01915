use cargo_gluegun::config::ConfigValue;
use cargo_gluegun::destination::DestCrate;
use cargo_gluegun::driver::{
    begin_cycle, check_local, check_selection, cli_main, dispatch_error, effective_config,
    exit_outcome, on_exited, on_extracted, prepare_cycle, start, Action, Cycle, DispatchFailure,
    Environment, PluginExit,
};
use cargo_gluegun::error::GluegunError;
use cargo_gluegun::handshake::handshake;
use cargo_gluegun::package::Package;

struct Recorder {
    events: Vec<String>,
    documents: Vec<String>,
    markers: Vec<String>,
    exit: PluginExit,
}

impl Recorder {
    fn new(exit: PluginExit) -> Self {
        Recorder { events: vec![], documents: vec![], markers: vec![], exit }
    }
}

impl Environment for Recorder {
    fn extract_idl(&mut self, package: &Package, _dir: &String, entry_file: &String) -> Result<String, String> {
        self.events.push(format!("extract {} {}", package.name, entry_file));
        Ok("{\"items\":[]}".to_string())
    }

    fn run_plugin(
        &mut self,
        plugin: &String,
        _config: &ConfigValue,
        marker: &String,
        handshake: &String,
    ) -> Result<PluginExit, DispatchFailure> {
        self.events.push(format!("run {}", plugin));
        self.markers.push(marker.clone());
        self.documents.push(handshake.clone());
        Ok(self.exit)
    }
}

fn local(name: &str) -> Package {
    Package {
        name: name.to_string(),
        manifest_path: format!("/ws/{}/Cargo.toml", name),
        source: None,
        metadata: ConfigValue::Null,
    }
}

const OK_EXIT: PluginExit = PluginExit { success: true, code: Some(0) };

#[test]
fn empty_selection_or_plugins_fail_without_work() {
    let mut env = Recorder::new(OK_EXIT);
    let r = cli_main(&mut env, &vec![], &vec!["java".to_string()], &ConfigValue::Null);
    assert_eq!(r, Err(GluegunError::SelectionEmpty));
    let r = cli_main(&mut env, &vec![local("foo")], &vec![], &ConfigValue::Null);
    assert_eq!(r, Err(GluegunError::PluginListEmpty));
    assert!(env.events.is_empty());
    assert_eq!(check_selection(0, &vec![]), Err(GluegunError::SelectionEmpty));
    assert_eq!(check_selection(2, &vec!["a".to_string()]), Ok(()));
}

#[test]
fn non_local_package_is_refused_before_extraction() {
    let mut env = Recorder::new(OK_EXIT);
    let mut pkg = local("serde");
    pkg.source = Some("registry+https://example.org/index".to_string());
    let r = cli_main(&mut env, &vec![pkg], &vec!["java".to_string()], &ConfigValue::Null);
    assert_eq!(r, Err(GluegunError::NonLocalPackage { name: "serde".to_string() }));
    assert!(env.events.is_empty());
    assert_eq!(check_local(&local("foo")), Ok(()));
}

#[test]
fn cycles_run_packages_outermost() {
    let mut env = Recorder::new(OK_EXIT);
    let plugins = vec!["java".to_string(), "py".to_string()];
    let r = cli_main(&mut env, &vec![local("a"), local("b")], &plugins, &ConfigValue::Null);
    assert_eq!(r, Ok(()));
    assert_eq!(
        env.events,
        vec![
            "extract a /ws/a/src/lib.rs",
            "run java",
            "extract a /ws/a/src/lib.rs",
            "run py",
            "extract b /ws/b/src/lib.rs",
            "run java",
            "extract b /ws/b/src/lib.rs",
            "run py",
        ]
    );
    assert_eq!(env.markers[1], "gg-py");
}

#[test]
fn end_to_end_handshake_and_exit_code() {
    let mut env = Recorder::new(OK_EXIT);
    let r = cli_main(&mut env, &vec![local("foo")], &vec!["java".to_string()], &ConfigValue::Null);
    assert_eq!(r, Ok(()));
    let doc = &env.documents[0];
    let idl = doc.find("\"idl\"").unwrap();
    let metadata = doc.find("\"metadata\"").unwrap();
    let dest = doc.find("\"dest_crate\"").unwrap();
    assert!(idl < metadata && metadata < dest);
    let parsed: serde_json::Value = serde_json::from_str(doc).unwrap();
    let top = parsed.as_object().unwrap();
    assert_eq!(top.len(), 3);
    assert_eq!(parsed["dest_crate"]["crate_name"], "foo-java");
    assert_eq!(parsed["dest_crate"]["path"], "/ws/foo/foo-java");
    assert_eq!(parsed["metadata"], serde_json::Value::Null);

    let mut failing = Recorder::new(PluginExit { success: false, code: Some(3) });
    let r = cli_main(&mut failing, &vec![local("foo"), local("bar")], &vec!["java".to_string()], &ConfigValue::Null);
    assert_eq!(r, Err(GluegunError::PluginNonZeroExit { plugin: "java".to_string(), code: Some(3) }));
    assert_eq!(failing.documents.len(), 1);
}

#[test]
fn handshake_text_layout() {
    let dest = DestCrate { crate_name: "foo-java".to_string(), path: "/ws/\"q\"".to_string() };
    let doc = handshake("{}", "null", &dest);
    assert_eq!(
        doc,
        "{\n  \"idl\": {},\n  \"metadata\": null,\n  \"dest_crate\": {\n    \"crate_name\": \"foo-java\",\n    \"path\": \"/ws/\\\"q\\\"\"\n  }\n}\n"
    );
}

#[test]
fn configuration_is_merged_per_scope() {
    let ws = ConfigValue::Object(vec![(
        "gluegun".to_string(),
        ConfigValue::Object(vec![
            ("destination-path".to_string(), ConfigValue::String("sibling".to_string())),
            ("java".to_string(), ConfigValue::Object(vec![("a".to_string(), ConfigValue::Number("1".to_string()))])),
        ]),
    )]);
    let mut pkg = local("foo");
    pkg.metadata = ConfigValue::Object(vec![(
        "gluegun".to_string(),
        ConfigValue::Object(vec![(
            "java".to_string(),
            ConfigValue::Object(vec![("b".to_string(), ConfigValue::Number("2".to_string()))]),
        )]),
    )]);
    let c = effective_config(&ws, &pkg, &"java".to_string()).unwrap();
    assert_eq!(
        c.plugin.get(&"a".to_string()),
        Some(&ConfigValue::Number("1".to_string()))
    );
    assert_eq!(
        c.plugin.get(&"b".to_string()),
        Some(&ConfigValue::Number("2".to_string()))
    );
    assert_eq!(
        c.gluegun.get(&"java".to_string()),
        Some(&ConfigValue::Object(vec![("b".to_string(), ConfigValue::Number("2".to_string()))]))
    );
    let mut env = Recorder::new(OK_EXIT);
    assert_eq!(cli_main(&mut env, &vec![pkg], &vec!["java".to_string()], &ws), Ok(()));
    let parsed: serde_json::Value = serde_json::from_str(&env.documents[0]).unwrap();
    assert_eq!(parsed["dest_crate"]["path"], "/ws/foo-java");
    assert_eq!(parsed["metadata"]["a"], 1);
    assert_eq!(parsed["metadata"]["b"], 2);

    let mut bad = local("foo");
    bad.metadata = ConfigValue::Object(vec![("gluegun".to_string(), ConfigValue::Bool(true))]);
    assert!(matches!(
        effective_config(&ws, &bad, &"java".to_string()),
        Err(GluegunError::ConfigMergeConflict { .. })
    ));
}

#[test]
fn exit_outcome_reports_failure_code() {
    assert_eq!(exit_outcome(&"java".to_string(), OK_EXIT), Ok(()));
    assert_eq!(
        exit_outcome(&"java".to_string(), PluginExit { success: false, code: None }),
        Err(GluegunError::PluginNonZeroExit { plugin: "java".to_string(), code: None })
    );
}

#[test]
fn dispatch_failures_name_the_plugin_and_step() {
    assert_eq!(
        dispatch_error(&"java".to_string(), DispatchFailure::Spawn("no such file".to_string())),
        GluegunError::ProcessSpawnFailed { plugin: "java".to_string(), cause: "no such file".to_string() }
    );
    assert_eq!(
        dispatch_error(&"java".to_string(), DispatchFailure::StdinUnavailable),
        GluegunError::StdinUnavailable { plugin: "java".to_string() }
    );
    assert_eq!(
        dispatch_error(&"py".to_string(), DispatchFailure::Wait("gone".to_string())),
        GluegunError::ProcessWaitFailed { plugin: "py".to_string(), cause: "gone".to_string() }
    );
}

#[test]
fn step_functions_walk_cycles_package_major() {
    let selected = vec![local("a"), local("b")];
    let plugins = vec!["java".to_string(), "py".to_string()];
    match start(&selected, &plugins) {
        Action::Extract { cycle, package_dir, entry_file } => {
            assert_eq!(cycle, Cycle { package: 0, plugin: 0 });
            assert_eq!(package_dir, "/ws/a");
            assert_eq!(entry_file, "/ws/a/src/lib.rs");
        }
        other => panic!("unexpected {:?}", other),
    }
    let next = on_exited(&selected, &plugins, Cycle { package: 0, plugin: 1 }, Ok(OK_EXIT));
    assert!(matches!(next, Action::Extract { cycle: Cycle { package: 1, plugin: 0 }, .. }));
    let next = on_exited(&selected, &plugins, Cycle { package: 0, plugin: 0 }, Ok(OK_EXIT));
    assert!(matches!(next, Action::Extract { cycle: Cycle { package: 0, plugin: 1 }, .. }));
    let last = on_exited(&selected, &plugins, Cycle { package: 1, plugin: 1 }, Ok(OK_EXIT));
    assert_eq!(last, Action::Finish(Ok(())));
    let failed = on_exited(
        &selected,
        &plugins,
        Cycle { package: 0, plugin: 0 },
        Ok(PluginExit { success: false, code: Some(2) }),
    );
    assert_eq!(
        failed,
        Action::Finish(Err(GluegunError::PluginNonZeroExit { plugin: "java".to_string(), code: Some(2) }))
    );
    assert_eq!(start(&vec![], &plugins), Action::Finish(Err(GluegunError::SelectionEmpty)));
    let mut remote = local("r");
    remote.source = Some("registry".to_string());
    assert_eq!(
        begin_cycle(&vec![remote], Cycle { package: 0, plugin: 0 }),
        Action::Finish(Err(GluegunError::NonLocalPackage { name: "r".to_string() }))
    );
}

#[test]
fn extraction_failure_and_planning() {
    let selected = vec![local("foo")];
    let plugins = vec!["java".to_string()];
    let c = Cycle { package: 0, plugin: 0 };
    assert_eq!(
        on_extracted(&ConfigValue::Null, &selected, &plugins, c, "/ws/foo/src/lib.rs".to_string(), Err("bad".to_string())),
        Action::Finish(Err(GluegunError::IdlExtractionFailed {
            entry_file: "/ws/foo/src/lib.rs".to_string(),
            cause: "bad".to_string()
        }))
    );
    let plan = prepare_cycle(&"{}".to_string(), &ConfigValue::Null, &selected[0], &plugins[0]).unwrap();
    assert_eq!(plan.dest.crate_name, "foo-java");
    assert_eq!(plan.dest.path, "/ws/foo/foo-java");
    assert_eq!(plan.marker, "gg-java");
    assert_eq!(plan.gluegun, ConfigValue::Null);
    assert_eq!(
        plan.document,
        "{\n  \"idl\": {},\n  \"metadata\": null,\n  \"dest_crate\": {\n    \"crate_name\": \"foo-java\",\n    \"path\": \"/ws/foo/foo-java\"\n  }\n}\n"
    );
    let ws = ConfigValue::Object(vec![(
        "gluegun".to_string(),
        ConfigValue::Object(vec![("destination-path".to_string(), ConfigValue::String("up".to_string()))]),
    )]);
    assert_eq!(
        prepare_cycle(&"{}".to_string(), &ws, &selected[0], &plugins[0]),
        Err(GluegunError::UnsupportedPlacementPolicy { value: ConfigValue::String("up".to_string()) })
    );
    let mut conflicting = local("foo");
    conflicting.metadata = ConfigValue::Object(vec![("gluegun".to_string(), ConfigValue::Bool(false))]);
    match on_extracted(&ws, &vec![conflicting], &plugins, c, "e".to_string(), Ok("{}".to_string())) {
        Action::Finish(Err(GluegunError::ConfigMergeConflict { package, .. })) => {
            assert_eq!(package, ConfigValue::Bool(false))
        }
        other => panic!("unexpected {:?}", other),
    }
}
