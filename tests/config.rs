use pyembed::config::{config_file, entry_point, env_bindings, resolve_config, EntryPoint, RuntimeConfig};

fn strings(v: &[&str]) -> Vec<String> {
    v.iter().map(|s| s.to_string()).collect()
}

#[test]
fn config_file_sits_at_the_root() {
    assert_eq!(config_file("/opt/app/python"), "/opt/app/python/pyembed.json");
}

#[test]
fn end_to_end_configuration() {
    let cfg = RuntimeConfig {
        python_home: "runtime".to_string(),
        python_path: strings(&["runtime/lib", "runtime/lib/site-packages"]),
    };
    let r = resolve_config("/opt/app/python", &cfg);
    assert_eq!(r.home, "/opt/app/python/runtime");
    assert_eq!(
        r.search_paths,
        strings(&["/opt/app/python/runtime/lib", "/opt/app/python/runtime/lib/site-packages"])
    );
    assert_eq!(r.site_dirs, strings(&["/opt/app/python/runtime/lib/site-packages"]));
}

#[test]
fn configuration_search_order_is_kept() {
    let cfg = RuntimeConfig { python_home: "h".to_string(), python_path: strings(&["a", "b/c"]) };
    let r = resolve_config("/R", &cfg);
    assert_eq!(r.search_paths, strings(&["/R/a", "/R/b/c"]));
    assert_eq!(r.home, "/R/h");
    assert!(r.site_dirs.is_empty());
}

#[test]
fn environment_holds_the_three_variables() {
    let cfg = RuntimeConfig {
        python_home: "runtime".to_string(),
        python_path: strings(&["runtime/lib", "/usr/lib"]),
    };
    let r = resolve_config("/opt/p", &cfg);
    let env = env_bindings(&r).unwrap();
    assert_eq!(
        env,
        vec![
            ("PYTHONHOME".to_string(), "/opt/p/runtime".to_string()),
            ("PYTHONPATH".to_string(), "/opt/p/runtime/lib:/usr/lib".to_string()),
            ("SETUPTOOLS_USE_DISTUTILS".to_string(), "local".to_string()),
        ]
    );
}

#[test]
fn environment_refuses_separator_in_entry() {
    let cfg = RuntimeConfig { python_home: "h".to_string(), python_path: strings(&["a:b"]) };
    let r = resolve_config("/opt/p", &cfg);
    assert!(env_bindings(&r).is_none());
}

#[test]
fn entry_point_defaults() {
    match entry_point(None, None) {
        EntryPoint::Call { module, function } => {
            assert_eq!(module, "octobot.cli");
            assert_eq!(function, "main");
        }
        other => panic!("unexpected {:?}", other),
    }
}

#[test]
fn entry_point_overrides() {
    match entry_point(Some("app.cli".to_string()), Some("run".to_string())) {
        EntryPoint::Call { module, function } => {
            assert_eq!(module, "app.cli");
            assert_eq!(function, "run");
        }
        other => panic!("unexpected {:?}", other),
    }
}

#[test]
fn empty_function_runs_module_as_script() {
    match entry_point(Some("app.cli".to_string()), Some(String::new())) {
        EntryPoint::RunModule(module) => assert_eq!(module, "app.cli"),
        other => panic!("unexpected {:?}", other),
    }
}
