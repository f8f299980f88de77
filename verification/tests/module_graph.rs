use script_bridge::modules::{
    cannot_resolve_message, host_import_module_dynamically_callback,
    host_initialize_import_meta_object_callback, link_resolved, module_resolve_callback,
    Deferred, DynImportRequest, DynamicImports, MetaProperty, MetaValue, Modules, ResolveError,
    ScriptOrModule, Settlement,
};

fn directory_loader(specifier: &str, referrer: &str, is_dynamic: bool) -> Result<String, String> {
    if is_dynamic {
        return Err("static resolution expected".to_string());
    }
    match specifier.strip_prefix("./") {
        Some(file) => {
            let end = referrer.rfind('/').map(|slash| slash + 1).unwrap_or(0);
            Ok(format!("{}{}", &referrer[..end], file))
        }
        None => Err(format!("relative import expected: {}", specifier)),
    }
}

fn graph() -> Modules {
    let mut modules = Modules::new();
    assert_eq!(modules.register("file:///app/main.js".to_string(), true, 100), Some(0));
    assert_eq!(modules.register("file:///app/util.js".to_string(), false, 101), Some(1));
    assert_eq!(modules.register("file:///app/deep.js".to_string(), false, 102), Some(2));
    modules
}

#[test]
fn registry_finds_by_name_by_id_and_by_handle() {
    let modules = graph();
    assert_eq!(modules.get_id("file:///app/util.js"), Some(1));
    assert_eq!(modules.get_id("file:///app/none.js"), None);
    assert_eq!(modules.get_handle(2), Some(102));
    assert_eq!(modules.get_handle(3), None);
    let info = modules.get_info(100).unwrap();
    assert!(info.main);
    assert_eq!(info.name, "file:///app/main.js");
    assert_eq!(info.handle, 100);
    assert!(modules.get_info(99).is_none());
}

#[test]
fn registry_enters_a_module_once() {
    let mut modules = graph();
    assert_eq!(modules.register("file:///app/util.js".to_string(), false, 200), None);
    assert_eq!(modules.register("file:///app/other.js".to_string(), false, 101), None);
    assert_eq!(modules.get_handle(1), Some(101));
    assert_eq!(modules.get_id("file:///app/other.js"), None);
    assert!(modules.get_info(200).is_none());
    assert_eq!(modules.register("file:///app/other.js".to_string(), false, 200), Some(3));
}

#[test]
fn specifier_in_the_graph_resolves() {
    let modules = graph();
    assert_eq!(module_resolve_callback(&modules, &directory_loader, "./util.js", 100), Ok(101));
    assert_eq!(module_resolve_callback(&modules, &directory_loader, "./main.js", 102), Ok(100));
    assert_eq!(module_resolve_callback(&modules, &directory_loader, "./deep.js", 102), Ok(102));
}

#[test]
fn loader_may_be_a_boxed_closure() {
    let modules = graph();
    let loader: Box<dyn Fn(&str, &str, bool) -> Result<String, String>> =
        Box::new(|specifier, _referrer, _is_dynamic| Ok(format!("file:///app/{}", specifier)));
    assert_eq!(module_resolve_callback(&modules, &loader, "deep.js", 100), Ok(102));
}

#[test]
fn specifier_outside_the_graph_is_reported() {
    let modules = graph();
    assert_eq!(
        module_resolve_callback(&modules, &directory_loader, "./missing.js", 101),
        Err(ResolveError::NotFound {
            message: "Cannot resolve module \"./missing.js\" from \"file:///app/util.js\""
                .to_string()
        })
    );
}

#[test]
fn loader_answer_decides_the_link() {
    let modules = graph();
    let resolved: Result<String, ()> = Ok("file:///app/deep.js".to_string());
    assert_eq!(link_resolved(&modules, "x", "y", resolved), Ok(102));
    let resolved: Result<String, ()> = Ok("file:///app/nowhere.js".to_string());
    assert_eq!(
        link_resolved(&modules, "x", "y", resolved),
        Err(ResolveError::NotFound { message: "Cannot resolve module \"x\" from \"y\"".to_string() })
    );
    let resolved: Result<String, u8> = Err(3);
    assert_eq!(link_resolved(&modules, "x", "y", resolved), Err(ResolveError::NotPreResolved(3)));
}

#[test]
fn message_quotes_specifier_and_referrer() {
    assert_eq!(cannot_resolve_message("", ""), "Cannot resolve module \"\" from \"\"");
    assert_eq!(
        cannot_resolve_message("./a.js", "file:///b.js"),
        "Cannot resolve module \"./a.js\" from \"file:///b.js\""
    );
}

fn meta(url: &str, main: bool) -> Vec<MetaProperty> {
    vec![
        MetaProperty {
            key: "url".to_string(),
            value: MetaValue::Text(url.to_string()),
            read_only: true,
        },
        MetaProperty { key: "main".to_string(), value: MetaValue::Boolean(main), read_only: true },
    ]
}

#[test]
fn meta_object_tells_url_and_main() {
    let modules = graph();
    assert_eq!(
        host_initialize_import_meta_object_callback(&modules, 100),
        meta("file:///app/main.js", true)
    );
    assert_eq!(
        host_initialize_import_meta_object_callback(&modules, 102),
        meta("file:///app/deep.js", false)
    );
}

#[test]
fn meta_properties_are_read_only() {
    let modules = graph();
    let properties = host_initialize_import_meta_object_callback(&modules, 101);
    assert_eq!(properties.len(), 2);
    assert!(properties.iter().all(|property| property.read_only));
}

#[test]
fn dynamic_import_returns_its_promise_at_once() {
    let mut imports = DynamicImports::new();
    assert!(imports.has_room());
    let referrer =
        ScriptOrModule { resource_name: "file:///app/main.js".to_string(), host_defined_options: 0 };
    let promise = host_import_module_dynamically_callback(
        &mut imports,
        &referrer,
        "./no-such-module.js",
        Deferred { resolver: 40, promise: 41 },
    );
    assert_eq!(promise, 41);
    assert!(imports.is_pending(0));
    assert!(!imports.is_pending(1));
    let promise = host_import_module_dynamically_callback(
        &mut imports,
        &referrer,
        "./util.js",
        Deferred { resolver: 50, promise: 51 },
    );
    assert_eq!(promise, 51);
    assert!(imports.is_pending(1));
    assert_eq!(
        imports.take_requests(),
        vec![
            DynImportRequest {
                id: 0,
                specifier: "./no-such-module.js".to_string(),
                referrer: "file:///app/main.js".to_string(),
            },
            DynImportRequest {
                id: 1,
                specifier: "./util.js".to_string(),
                referrer: "file:///app/main.js".to_string(),
            },
        ]
    );
    assert_eq!(imports.take_requests(), Vec::new());
}

#[test]
fn failed_dynamic_import_rejects_the_promise() {
    let mut imports = DynamicImports::new();
    let referrer = ScriptOrModule { resource_name: "<unknown>".to_string(), host_defined_options: 0 };
    host_import_module_dynamically_callback(
        &mut imports,
        &referrer,
        "./no-such-module.js",
        Deferred { resolver: 40, promise: 41 },
    );
    assert_eq!(
        imports.dyn_import_done(0, Err(900)),
        Settlement::Reject { resolver: 40, error: 900 }
    );
    assert!(!imports.is_pending(0));
}

#[test]
fn loaded_dynamic_import_resolves_the_promise() {
    let mut imports = DynamicImports::new();
    let referrer = ScriptOrModule { resource_name: "<unknown>".to_string(), host_defined_options: 0 };
    for resolver in [40, 42] {
        host_import_module_dynamically_callback(
            &mut imports,
            &referrer,
            "./util.js",
            Deferred { resolver, promise: resolver + 1 },
        );
    }
    assert_eq!(
        imports.dyn_import_done(1, Ok(700)),
        Settlement::Resolve { resolver: 42, namespace: 700 }
    );
    assert!(imports.is_pending(0));
    assert!(!imports.is_pending(1));
}
