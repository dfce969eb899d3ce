use ferrum::module_cache::ModuleCache;
use ferrum::module_loader::{
    ImportMap, LoadStep, ModuleError, ModuleLoader, ModuleLoaderConfig, ModuleSource, ModuleType,
    Resolution, ResolvedModule, SourceStep,
};
use ferrum::package_search::{manifest_main_path, package_main, PackageSearch, Probe};
use ferrum::permissions::Permissions;

fn create_test_loader() -> ModuleLoader {
    let permissions = Permissions::allow_all();
    let config = ModuleLoaderConfig::new("/".to_string());
    ModuleLoader::new(permissions, config)
}

fn resolved(r: Result<Resolution, ModuleError>) -> String {
    match r {
        Ok(Resolution::Resolved(s)) => s,
        Ok(Resolution::Search(_)) => panic!("expected a resolved specifier, got a search"),
        Err(e) => panic!("expected a resolved specifier, got {}", e.to_string()),
    }
}

fn module(code: &str) -> ResolvedModule {
    ResolvedModule {
        specifier: "test".to_string(),
        source: ModuleSource {
            specifier: "test".to_string(),
            code: code.to_string(),
            module_type: ModuleType::ESModule,
        },
        dependencies: vec![],
    }
}

#[test]
fn test_module_type_detection() {
    assert_eq!(ModuleType::from_extension(".js"), ModuleType::ESModule);
    assert_eq!(ModuleType::from_extension(".mjs"), ModuleType::ESModule);
    assert_eq!(ModuleType::from_extension(".cjs"), ModuleType::CommonJS);
    assert_eq!(ModuleType::from_extension(".json"), ModuleType::JSON);
    assert_eq!(ModuleType::from_extension(".ts"), ModuleType::TypeScript);
    assert_eq!(ModuleType::from_extension(".txt"), ModuleType::Unknown);
}

#[test]
fn module_loader_test_import_map() {
    let mut map = ImportMap::new("https://example.com/".to_string());
    map.insert("lodash/".to_string(), "https://cdn.example.com/lodash/".to_string());

    let resolved = map.resolve("lodash/map").unwrap();
    assert_eq!(resolved, "https://cdn.example.com/lodash/map");

    let not_found = map.resolve("react");
    assert!(not_found.is_none());
}

#[test]
fn module_loader_test_import_map_from_json() {
    let json = r#"{"imports": {"react": "https://cdn.example.com/react.js"}}"#;
    let map = ImportMap::from_json(json, "https://example.com/".to_string()).unwrap();

    let resolved = map.resolve("react").unwrap();
    assert_eq!(resolved, "https://cdn.example.com/react.js");
}

#[test]
fn test_resolve_relative_path() {
    let loader = create_test_loader();

    let r = resolved(loader.resolve("./utils.js", Some("/home/user/main.js")));
    assert_eq!(r, "/home/user/utils.js");

    let r = resolved(loader.resolve("../shared/lib.js", Some("/home/user/main.js")));
    assert_eq!(r, "/home/shared/lib.js");
}

#[test]
fn test_resolve_absolute_path() {
    let loader = create_test_loader();
    let r = resolved(loader.resolve("/usr/local/lib.js", None));
    assert_eq!(r, "/usr/local/lib.js");
}

#[test]
fn test_resolve_remote() {
    let mut config = ModuleLoaderConfig::new("/".to_string());
    config.allow_remote = true;
    let loader = ModuleLoader::new(Permissions::allow_all(), config);

    let r = resolved(loader.resolve("https://example.com/module.js", None));
    assert_eq!(r, "https://example.com/module.js");
}

#[test]
fn test_resolve_remote_denied() {
    let mut config = ModuleLoaderConfig::new("/".to_string());
    config.allow_remote = false;
    let loader = ModuleLoader::new(Permissions::allow_all(), config);

    let result = loader.resolve("https://example.com/module.js", None);
    assert!(matches!(result, Err(ModuleError::PermissionDenied(_))));
}

#[test]
fn test_parse_dependencies() {
    let loader = create_test_loader();

    let source = ModuleSource {
        specifier: "test.js".to_string(),
        code: r#"
                import { foo } from './foo.js';
                import bar from './bar.js';
                import('./dynamic.js');
                export { baz } from './baz.js';
            "#
        .to_string(),
        module_type: ModuleType::ESModule,
    };

    let deps = loader.parse_dependencies(&source);
    assert!(deps.contains(&"./foo.js".to_string()));
    assert!(deps.contains(&"./bar.js".to_string()));
    assert!(deps.contains(&"./dynamic.js".to_string()));
    assert!(deps.contains(&"./baz.js".to_string()));
}

#[test]
fn test_module_cache() {
    let mut cache = ModuleCache::new();

    assert!(!cache.contains("test"));

    let m = ResolvedModule {
        specifier: "test".to_string(),
        source: ModuleSource {
            specifier: "test".to_string(),
            code: "console.log('test');".to_string(),
            module_type: ModuleType::ESModule,
        },
        dependencies: vec![],
    };

    cache.insert("test".to_string(), m.clone());
    assert!(cache.contains("test"));

    let retrieved = cache.get("test").unwrap();
    assert_eq!(retrieved.specifier, "test");
}

#[test]
fn test_module_cache_clear() {
    let mut cache = ModuleCache::new();
    cache.insert("test".to_string(), module("test"));

    assert!(cache.contains("test"));
    cache.clear();
    assert!(!cache.contains("test"));
}

#[test]
fn test_module_loader_resolve() {
    let loader = create_test_loader();

    let r = resolved(loader.resolve("./utils.js", Some("/home/user/main.js")));
    assert_eq!(r, "/home/user/utils.js");

    let r = resolved(loader.resolve("/usr/local/lib.js", None));
    assert_eq!(r, "/usr/local/lib.js");

    let mut config = ModuleLoaderConfig::new("/".to_string());
    config.allow_remote = true;
    let loader = ModuleLoader::new(Permissions::allow_all(), config);

    let r = resolved(loader.resolve("https://example.com/module.js", None));
    assert_eq!(r, "https://example.com/module.js");
}

#[test]
fn integration_test_test_import_map() {
    let mut import_map = ImportMap::new("https://example.com/".to_string());
    import_map.insert("lodash/".to_string(), "https://cdn.example.com/lodash/".to_string());

    let resolved = import_map.resolve("lodash/map").unwrap();
    assert_eq!(resolved, "https://cdn.example.com/lodash/map");
}

#[test]
fn integration_test_test_import_map_from_json() {
    let json = r#"{"imports": {"react": "https://cdn.example.com/react.js"}}"#;
    let import_map = ImportMap::from_json(json, "https://example.com/".to_string()).unwrap();

    let resolved = import_map.resolve("react").unwrap();
    assert_eq!(resolved, "https://cdn.example.com/react.js");
}

#[test]
fn longest_prefix_wins() {
    let mut map = ImportMap::new(String::new());
    map.insert("a/".to_string(), "X".to_string());
    map.insert("a/b/".to_string(), "Y".to_string());
    assert_eq!(map.resolve("a/b/c").unwrap(), "Yc");
    assert_eq!(map.resolve("a/z").unwrap(), "Xz");

    // Insertion order does not matter.
    let mut map = ImportMap::new(String::new());
    map.insert("a/b/".to_string(), "Y".to_string());
    map.insert("a/".to_string(), "X".to_string());
    assert_eq!(map.resolve("a/b/c").unwrap(), "Yc");
}

#[test]
fn equal_length_prefixes_keep_insertion_order() {
    let mut map = ImportMap::new(String::new());
    map.insert("ab".to_string(), "first:".to_string());
    map.insert("ab".to_string(), "second:".to_string());
    assert_eq!(map.resolve("abc").unwrap(), "first:c");
}

#[test]
fn import_map_from_entries_and_shapes() {
    let pairs = vec![("a/".to_string(), "X".to_string()), ("a/b/".to_string(), "Y".to_string())];
    let map = ImportMap::from_entries(&pairs, String::new());
    assert_eq!(map.resolve("a/b/c").unwrap(), "Yc");

    // Other shapes are ignored, not errors.
    let map = ImportMap::from_json(r#"{"scopes": {}}"#, String::new()).unwrap();
    assert!(map.resolve("react").is_none());
    let map = ImportMap::from_json(r#"[1, 2]"#, String::new()).unwrap();
    assert!(map.resolve("react").is_none());
    let map = ImportMap::from_json(r#"{"imports": {"a": 1, "b": "B"}}"#, String::new()).unwrap();
    assert!(map.resolve("a").is_none());
    assert_eq!(map.resolve("bc").unwrap(), "Bc");

    // Malformed JSON is a parse error.
    let err = ImportMap::from_json("{not json", String::new());
    assert!(matches!(err, Err(ModuleError::ParseError(_))));
}

#[test]
fn resolve_uses_import_map_first() {
    let mut map = ImportMap::new(String::new());
    map.insert("https://".to_string(), "/mirror/".to_string());
    let mut config = ModuleLoaderConfig::new("/proj".to_string());
    config.allow_remote = false;
    config.import_map = Some(map);
    let loader = ModuleLoader::new(Permissions::default(), config);
    let r = resolved(loader.resolve("https://example.com/m.js", None));
    assert_eq!(r, "/mirror/example.com/m.js");
}

#[test]
fn resolve_relative_variants() {
    let loader = ModuleLoader::new(Permissions::default(), ModuleLoaderConfig::new("/proj".to_string()));
    assert_eq!(resolved(loader.resolve("./a.js", None)), "/proj/a.js");
    assert_eq!(resolved(loader.resolve("../x/./y/../a.js", None)), "/x/a.js");
    // `..` past the root stays at the root.
    assert_eq!(resolved(loader.resolve("../../../a.js", None)), "/a.js");
    assert_eq!(resolved(loader.resolve("./a.js", Some("main.js"))), "a.js");
    assert_eq!(
        resolved(loader.resolve("./lib/x.js", Some("https://cdn.example.com/pkg/mod.js"))),
        "https://cdn.example.com/pkg/lib/x.js"
    );
}

#[test]
fn resolve_remote_enabled_and_disabled() {
    let mut config = ModuleLoaderConfig::new("/".to_string());
    config.allow_remote = false;
    let loader = ModuleLoader::new(Permissions::allow_all(), config);
    match loader.resolve("https://example.com/module.js", None) {
        Err(ModuleError::PermissionDenied(m)) => assert_eq!(m, "Remote modules are disabled"),
        _ => panic!("expected a denial"),
    }
    let loader = create_test_loader();
    assert_eq!(
        resolved(loader.resolve("http://example.com/module.js", None)),
        "http://example.com/module.js"
    );
}

#[test]
fn bare_specifier_search_order() {
    let loader = ModuleLoader::new(Permissions::default(), ModuleLoaderConfig::new("/proj".to_string()));
    let mut search = match loader.resolve("lodash", None) {
        Ok(Resolution::Search(s)) => s,
        _ => panic!("expected a package search"),
    };
    let mut seen = Vec::new();
    while let Some(p) = search.probe() {
        match p {
            Probe::File(f) => seen.push(f),
            Probe::Manifest { manifest, package_dir } => {
                assert_eq!(package_dir, format!("{}", manifest.trim_end_matches("/package.json")));
                seen.push(manifest);
            }
        }
        search.advance();
    }
    assert_eq!(
        seen,
        vec![
            "/proj/node_modules/lodash.js",
            "/proj/node_modules/lodash.mjs",
            "/proj/node_modules/lodash.ts",
            "/proj/node_modules/lodash/index.js",
            "/proj/node_modules/lodash/index.mjs",
            "/proj/node_modules/lodash/package.json",
            "/node_modules/lodash.js",
            "/node_modules/lodash.mjs",
            "/node_modules/lodash.ts",
            "/node_modules/lodash/index.js",
            "/node_modules/lodash/index.mjs",
            "/node_modules/lodash/package.json",
        ]
    );
    match search.not_found() {
        ModuleError::NotFound(m) => assert_eq!(m, "Cannot find module 'lodash'"),
        _ => panic!("expected NotFound"),
    }
    let fresh = PackageSearch::new("a/b", "p");
    assert!(matches!(fresh.probe(), Some(Probe::File(f)) if f == "a/b/node_modules/p.js"));
}

#[test]
fn package_manifest_main() {
    assert_eq!(package_main(r#"{"main": "lib/index.js"}"#), Some("lib/index.js".to_string()));
    assert_eq!(package_main(r#"{"name": "x"}"#), None);
    assert_eq!(package_main(r#"{"main": 3}"#), None);
    assert_eq!(package_main("not json"), None);
    assert_eq!(manifest_main_path("/p/node_modules/x", "lib/i.js"), "/p/node_modules/x/lib/i.js");
    assert_eq!(manifest_main_path("/p/node_modules/x", "/abs/i.js"), "/abs/i.js");
}

#[test]
fn cache_insert_get_clear() {
    let mut cache = ModuleCache::new();
    let m = module("let a = 1;");
    cache.insert("S".to_string(), m.clone());
    let got = cache.get("S").unwrap();
    assert_eq!(got.specifier, m.specifier);
    assert_eq!(got.source.code, m.source.code);
    assert_eq!(got.dependencies, m.dependencies);
    assert!(cache.contains("S"));
    cache.insert("S".to_string(), module("let b = 2;"));
    assert_eq!(cache.get("S").unwrap().source.code, "let b = 2;");
    assert!(cache.get("T").is_none());
    cache.clear();
    assert!(!cache.contains("S"));
}

#[test]
fn circular_dependency_is_detected() {
    let mut loader = ModuleLoader::new(Permissions::allow_all(), ModuleLoaderConfig::new("/proj".to_string()));
    let step = loader.begin_load("/proj/a.js", None).unwrap();
    assert!(matches!(step, LoadStep::ReadFile(ref p) if p == "/proj/a.js"));
    match loader.begin_load("/proj/a.js", None) {
        Err(ModuleError::CircularDependency(s)) => assert_eq!(s, "/proj/a.js"),
        _ => panic!("expected a circular dependency"),
    }
    // Finishing (or abandoning) clears the mark.
    loader.abandon_load("/proj/a.js");
    assert!(loader.begin_load("/proj/a.js", None).is_ok());
}

#[test]
fn end_to_end_load() {
    let mut loader = ModuleLoader::new(Permissions::allow_all(), ModuleLoaderConfig::new("/proj".to_string()));
    let path = match loader.begin_load("./a.js", None).unwrap() {
        LoadStep::ReadFile(p) => p,
        _ => panic!("expected a file read"),
    };
    assert_eq!(path, "/proj/a.js");
    let m = loader.finish_load(&path, Ok("import {x} from './b.js';".to_string())).unwrap();
    assert_eq!(m.specifier, "/proj/a.js");
    assert_eq!(m.source.module_type, ModuleType::ESModule);
    assert_eq!(m.dependencies, vec!["./b.js".to_string()]);
    // Now cached.
    assert!(loader.cache().contains("/proj/a.js"));
    match loader.begin_load("./a.js", None).unwrap() {
        LoadStep::Loaded(again) => assert_eq!(again.dependencies, vec!["./b.js".to_string()]),
        _ => panic!("expected the cached module"),
    }
}

#[test]
fn failed_load_does_not_cache() {
    let mut loader = ModuleLoader::new(Permissions::allow_all(), ModuleLoaderConfig::new("/proj".to_string()));
    let step = loader.begin_load("/proj/missing.js", None).unwrap();
    assert!(matches!(step, LoadStep::ReadFile(_)));
    match loader.finish_load("/proj/missing.js", Err("no such file".to_string())) {
        Err(ModuleError::ResolutionError(m)) => assert_eq!(m, "Failed to read file: no such file"),
        _ => panic!("expected a read failure"),
    }
    assert!(!loader.cache().contains("/proj/missing.js"));
    assert!(loader.begin_load("/proj/missing.js", None).is_ok());
}

#[test]
fn load_checks_permissions() {
    let mut loader = ModuleLoader::new(Permissions::default(), ModuleLoaderConfig::new("/proj".to_string()));
    match loader.begin_load("/proj/a.js", None) {
        Err(ModuleError::PermissionDenied(m)) => {
            assert_eq!(m, "Permission denied: Requires read access to '/proj/a.js'")
        }
        _ => panic!("expected a denial"),
    }
    assert!(matches!(loader.load("/proj/a.js"), Err(ModuleError::PermissionDenied(_))));
    // Remote loads are gated by the network permission, then unsupported.
    assert!(matches!(
        loader.begin_load("https://example.com/m.js", None),
        Err(ModuleError::PermissionDenied(_))
    ));
    let mut loader = ModuleLoader::new(Permissions::allow_all(), ModuleLoaderConfig::new("/".to_string()));
    match loader.begin_load("https://example.com/m.js", None) {
        Err(ModuleError::NetworkError(m)) => {
            assert_eq!(m, "Remote module loading not yet implemented: https://example.com/m.js")
        }
        _ => panic!("expected a network error"),
    }
}

#[test]
fn remote_loads_are_gated_by_configuration_and_host() {
    let mut perms = Permissions::default();
    perms.net.grant_addresses(vec!["example.com".to_string()]);
    let loader = ModuleLoader::new(perms.clone(), ModuleLoaderConfig::new("/".to_string()));
    match loader.load("https://example.com/m.js") {
        Err(ModuleError::NetworkError(m)) => {
            assert_eq!(m, "Remote module loading not yet implemented: https://example.com/m.js")
        }
        _ => panic!("expected a network error"),
    }
    match loader.load("https://other.com/m.js") {
        Err(ModuleError::PermissionDenied(m)) => {
            assert_eq!(m, "Permission denied: Requires network access to 'other.com'")
        }
        _ => panic!("expected a host denial"),
    }
    assert!(matches!(loader.load("http://[bad"), Err(ModuleError::InvalidSpecifier(_))));
    let mut config = ModuleLoaderConfig::new("/".to_string());
    config.allow_remote = false;
    let loader = ModuleLoader::new(perms, config);
    match loader.load("https://example.com/m.js") {
        Err(ModuleError::PermissionDenied(m)) => assert_eq!(m, "Remote modules are disabled"),
        _ => panic!("expected the configuration to refuse"),
    }
}

#[test]
fn load_from_cache_and_disabled_cache() {
    let mut config = ModuleLoaderConfig::new("/proj".to_string());
    config.cache_enabled = false;
    let mut loader = ModuleLoader::new(Permissions::allow_all(), config);
    loader.begin_load("/proj/a.js", None).unwrap();
    loader.finish_load("/proj/a.js", Ok("x".to_string())).unwrap();
    assert!(!loader.cache().contains("/proj/a.js"));
    assert!(matches!(loader.load("/proj/a.js"), Ok(SourceStep::ReadFile(_))));
}

#[test]
fn dependencies_in_source_order() {
    let loader = create_test_loader();
    let source = ModuleSource {
        specifier: "m.js".to_string(),
        code: "export * from './e.js';\nimport('./d.js');\nimport a from './a.js';\nimport b from \"./a.js\";\n"
            .to_string(),
        module_type: ModuleType::ESModule,
    };
    assert_eq!(
        loader.parse_dependencies(&source),
        vec!["./e.js", "./d.js", "./a.js", "./a.js"]
    );
}

#[test]
fn module_type_from_path() {
    assert_eq!(ModuleType::from_path("/p/a.ts"), ModuleType::TypeScript);
    assert_eq!(ModuleType::from_path("/p/a.JSON"), ModuleType::JSON);
    assert_eq!(ModuleType::from_path("/p/a.cjs"), ModuleType::CommonJS);
    assert_eq!(ModuleType::from_path("/p/.hidden"), ModuleType::ESModule);
    assert_eq!(ModuleType::from_path("/p/noext"), ModuleType::ESModule);
    assert_eq!(ModuleType::from_path("/p/a.txt"), ModuleType::Unknown);
    assert_eq!(ModuleType::from_extension(".MJS"), ModuleType::ESModule);
}

#[test]
fn module_error_text() {
    assert_eq!(ModuleError::NotFound("x".to_string()).to_string(), "Module not found: x");
    assert_eq!(
        ModuleError::CircularDependency("a".to_string()).to_string(),
        "Circular dependency detected: a"
    );
    assert_eq!(ModuleError::ParseError("p".to_string()).to_string(), "Parse error: p");
}

#[test]
fn import_map_holds_exactly_the_string_pairs() {
    let json = r#"{"imports": {"b/": "B/", "a": "A", "n": null, "lodash/": "L/"}, "scopes": {"x": "y"}}"#;
    let map = ImportMap::from_json(json, String::new()).unwrap();
    assert_eq!(map.resolve("a").unwrap(), "A");
    assert_eq!(map.resolve("b/c").unwrap(), "B/c");
    assert_eq!(map.resolve("lodash/map").unwrap(), "L/map");
    assert!(map.resolve("n").is_none());
    assert!(map.resolve("x").is_none());
    let map = ImportMap::from_json(r#"{"imports": []}"#, String::new()).unwrap();
    assert!(map.resolve("a").is_none());
}

#[test]
fn resolved_specifier_in_flight_is_circular() {
    let mut loader = ModuleLoader::new(Permissions::allow_all(), ModuleLoaderConfig::new("/proj".to_string()));
    assert!(matches!(loader.begin_load("./a.js", None), Ok(LoadStep::ReadFile(_))));
    // Another spelling of the same module while it is in flight.
    match loader.begin_load("../proj/a.js", None) {
        Err(ModuleError::CircularDependency(s)) => assert_eq!(s, "/proj/a.js"),
        _ => panic!("expected a circular dependency"),
    }
    match loader.load_resolved("/proj/a.js".to_string()) {
        Err(ModuleError::CircularDependency(s)) => assert_eq!(s, "/proj/a.js"),
        _ => panic!("expected a circular dependency"),
    }
    // The first load still owns its marker and finishes normally.
    let m = loader.finish_load("/proj/a.js", Ok(String::new())).unwrap();
    assert_eq!(m.specifier, "/proj/a.js");
    assert!(m.dependencies.is_empty());
}

#[test]
fn failed_load_keeps_other_markers() {
    let mut loader = ModuleLoader::new(Permissions::allow_all(), ModuleLoaderConfig::new("/proj".to_string()));
    assert!(matches!(loader.begin_load("/proj/a.js", None), Ok(LoadStep::ReadFile(_))));
    assert!(loader.begin_load("https://example.com/x.js", None).is_err());
    // a.js is still marked.
    assert!(matches!(
        loader.begin_load("/proj/a.js", None),
        Err(ModuleError::CircularDependency(_))
    ));
}
