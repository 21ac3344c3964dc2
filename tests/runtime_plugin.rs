use farmfe_plugin_runtime::analyze::{
    analyze_deps, Dependency, DependencyKind, ImportSpecifierKind, TopLevelItem, DEFAULT_HELPER,
    EXPORT_STAR_HELPER, WILDCARD_HELPER,
};
use farmfe_plugin_runtime::config::config;
use farmfe_plugin_runtime::module_hooks::{
    finalize_module, finish_load, insert_runtime_plugins, module_system_from_deps, plan_load,
    transform_runtime_entry, ModuleSystem, ModuleType,
};
use farmfe_plugin_runtime::module_id::{
    add_runtime_suffix, classify_module_id, ends_with_runtime_suffix, strip_runtime_suffix,
    ModuleIdKind,
};
use farmfe_plugin_runtime::pot::{FarmPluginRuntime, ProcessStep, ResourceKind, ResourcePotType};
use farmfe_plugin_runtime::render::{wrap_bootstrap, wrap_registration};
use farmfe_plugin_runtime::resolve::{delegate_caller, finish_resolve, plan_resolve, ResolveStep};
use farmfe_plugin_runtime::source_map::remap_source;

fn dep(source: &str, kind: DependencyKind) -> Dependency {
    Dependency { source: source.to_string(), kind }
}

fn sources(deps: &Vec<Dependency>) -> Vec<String> {
    deps.iter().map(|d| d.source.clone()).collect()
}

#[test]
fn suffix_detection_and_stripping() {
    assert!(ends_with_runtime_suffix("a.js.farm-runtime"));
    assert!(!ends_with_runtime_suffix("a.js"));
    assert!(!ends_with_runtime_suffix("runtime"));
    assert_eq!(strip_runtime_suffix("a.js.farm-runtime"), "a.js");
    assert_eq!(strip_runtime_suffix("a.js"), "a.js");
    assert_eq!(add_runtime_suffix("/src/a.js"), "/src/a.js.farm-runtime");
    assert!(matches!(classify_module_id("b.ts.farm-runtime"), ModuleIdKind::Runtime(p) if p == "b.ts"));
    assert!(matches!(classify_module_id("b.ts"), ModuleIdKind::Real(p) if p == "b.ts"));
}

#[test]
fn resolve_own_caller_is_not_handled() {
    assert!(matches!(
        plan_resolve("./b.js.farm-runtime", None, Some("FarmPluginRuntime")),
        ResolveStep::NotHandled
    ));
    assert!(matches!(
        plan_resolve("./b", Some("/a.js.farm-runtime"), Some("FarmPluginRuntime")),
        ResolveStep::NotHandled
    ));
    assert_eq!(delegate_caller(), "FarmPluginRuntime");
}

#[test]
fn resolve_marked_source_delegates_stripped_source() {
    assert!(matches!(
        plan_resolve("./b.js.farm-runtime", None, None),
        ResolveStep::Delegate(s) if s == "./b.js"
    ));
    assert!(matches!(
        plan_resolve("./b.js.farm-runtime", None, Some("OtherPlugin")),
        ResolveStep::Delegate(s) if s == "./b.js"
    ));
}

#[test]
fn resolve_import_from_runtime_module_is_runtime() {
    assert!(matches!(
        plan_resolve("./helpers", Some("/rt/index.js.farm-runtime"), None),
        ResolveStep::Delegate(s) if s == "./helpers"
    ));
    assert!(matches!(plan_resolve("./helpers", Some("/src/index.js"), None), ResolveStep::NotHandled));
    assert!(matches!(plan_resolve("./helpers", None, None), ResolveStep::NotHandled));
}

#[test]
fn resolve_round_trip_puts_suffix_back() {
    assert_eq!(
        finish_resolve(Some("/rt/src/b.js".to_string())),
        Some("/rt/src/b.js.farm-runtime".to_string())
    );
    assert_eq!(finish_resolve(None), None);
}

#[test]
fn namespace_import_pulls_in_wildcard_helper() {
    let items = vec![TopLevelItem::Import(vec![ImportSpecifierKind::Namespace])];
    let mut deps = vec![dep("./b", DependencyKind::Import)];
    assert!(analyze_deps("a.js.farm-runtime", Some(&items), &mut deps));
    assert_eq!(deps.len(), 2);
    assert_eq!(deps[0].source, "./b");
    assert_eq!(deps[1].source, "@swc/helpers/_/_interop_require_wildcard");
    assert_eq!(deps[1].kind, DependencyKind::Import);
}

#[test]
fn default_import_pulls_in_only_default_helper() {
    let items = vec![TopLevelItem::Import(vec![ImportSpecifierKind::Default])];
    let mut deps = vec![];
    assert!(analyze_deps("a.js.farm-runtime", Some(&items), &mut deps));
    assert_eq!(sources(&deps), vec![DEFAULT_HELPER.to_string()]);
}

#[test]
fn export_all_pulls_in_only_export_star_helper() {
    let items = vec![TopLevelItem::Other, TopLevelItem::ExportAll];
    let mut deps = vec![];
    assert!(analyze_deps("a.js.farm-runtime", Some(&items), &mut deps));
    assert_eq!(sources(&deps), vec![EXPORT_STAR_HELPER.to_string()]);
}

#[test]
fn export_all_before_named_import_adds_no_wildcard_helper() {
    let items = vec![
        TopLevelItem::ExportAll,
        TopLevelItem::Import(vec![ImportSpecifierKind::Named]),
    ];
    let mut deps = vec![];
    assert!(analyze_deps("a.js.farm-runtime", Some(&items), &mut deps));
    assert_eq!(sources(&deps), vec![EXPORT_STAR_HELPER.to_string()]);
}

#[test]
fn no_interop_constructs_pull_in_nothing() {
    let items = vec![
        TopLevelItem::Import(vec![ImportSpecifierKind::Named]),
        TopLevelItem::Other,
    ];
    let mut deps = vec![dep("./c", DependencyKind::Import)];
    assert!(analyze_deps("a.js.farm-runtime", Some(&items), &mut deps));
    assert_eq!(sources(&deps), vec!["./c".to_string()]);
}

#[test]
fn analysis_twice_adds_each_helper_once() {
    let items = vec![
        TopLevelItem::Import(vec![ImportSpecifierKind::Default, ImportSpecifierKind::Namespace]),
        TopLevelItem::ExportAll,
    ];
    let mut deps = vec![];
    assert!(analyze_deps("a.js.farm-runtime", Some(&items), &mut deps));
    assert!(analyze_deps("a.js.farm-runtime", Some(&items), &mut deps));
    assert_eq!(
        sources(&deps),
        vec![
            WILDCARD_HELPER.to_string(),
            DEFAULT_HELPER.to_string(),
            EXPORT_STAR_HELPER.to_string()
        ]
    );
}

#[test]
fn helper_already_listed_is_not_added() {
    let items = vec![TopLevelItem::Import(vec![ImportSpecifierKind::Default])];
    let mut deps = vec![dep(DEFAULT_HELPER, DependencyKind::Require)];
    assert!(analyze_deps("a.js.farm-runtime", Some(&items), &mut deps));
    assert_eq!(deps.len(), 1);
    assert_eq!(deps[0].kind, DependencyKind::Require);
}

#[test]
fn analysis_skips_ordinary_and_unparsed_modules() {
    let items = vec![TopLevelItem::ExportAll];
    let mut deps = vec![];
    assert!(!analyze_deps("a.js", Some(&items), &mut deps));
    assert!(deps.is_empty());
    assert!(!analyze_deps("a.css.farm-runtime", None, &mut deps));
    assert!(deps.is_empty());
}

#[test]
fn load_plans_real_path_of_runtime_module() {
    assert_eq!(plan_load("/rt/index.ts.farm-runtime"), Some("/rt/index.ts".to_string()));
    assert_eq!(plan_load("/src/index.ts"), None);
}

#[test]
fn load_keeps_content_and_type() {
    let ok = finish_load("let a;".to_string(), Some(ModuleType::Ts));
    assert_eq!(ok.content, "let a;");
    assert!(matches!(ok.module_type, ModuleType::Ts));
}

#[test]
fn runtime_plugins_are_inserted_before_content() {
    let plugins = vec!["/p/a.js".to_string(), "/p/b.js".to_string()];
    let out = insert_runtime_plugins("BODY", &plugins);
    let expected = "import __farm_plugin_0__ from \"/p/a.js\";\n\
(globalThis.__farm_runtime_plugins__ = globalThis.__farm_runtime_plugins__ || []).push(__farm_plugin_0__);\n\
import __farm_plugin_1__ from \"/p/b.js\";\n\
(globalThis.__farm_runtime_plugins__ = globalThis.__farm_runtime_plugins__ || []).push(__farm_plugin_1__);\n\
BODY";
    assert_eq!(out, expected);
    assert_eq!(insert_runtime_plugins("BODY", &vec![]), "BODY");
}

#[test]
fn plugin_numbers_are_decimal() {
    let plugins: Vec<String> = (0..12).map(|i| format!("/p/{}.js", i)).collect();
    let out = insert_runtime_plugins("", &plugins);
    assert!(out.contains("import __farm_plugin_11__ from \"/p/11.js\";\n"));
    assert!(out.contains("push(__farm_plugin_10__);\n"));
}

#[test]
fn only_runtime_entry_is_transformed() {
    let plugins = vec!["/p/a.js".to_string()];
    let r = transform_runtime_entry("/rt/index.js.farm-runtime", "/rt/index.js", "BODY", &plugins);
    assert!(r.unwrap().starts_with("import __farm_plugin_0__ from \"/p/a.js\";"));
    assert_eq!(transform_runtime_entry("/rt/other.js.farm-runtime", "/rt/index.js", "BODY", &plugins), None);
}

#[test]
fn module_system_classification() {
    assert_eq!(module_system_from_deps(&vec![DependencyKind::Import]), ModuleSystem::EsModule);
    assert_eq!(module_system_from_deps(&vec![DependencyKind::Require]), ModuleSystem::CommonJs);
    assert_eq!(
        module_system_from_deps(&vec![DependencyKind::DynamicImport, DependencyKind::Require]),
        ModuleSystem::Hybrid
    );
    assert_eq!(module_system_from_deps(&vec![DependencyKind::Other]), ModuleSystem::Unknown);
}

#[test]
fn finalize_marks_runtime_modules() {
    let m = finalize_module("a.js.farm-runtime", &vec![]).unwrap();
    assert!(matches!(m.module_type, ModuleType::Runtime));
    assert_eq!(m.module_system, ModuleSystem::EsModule);
    let m = finalize_module("a.js.farm-runtime", &vec![DependencyKind::Require]).unwrap();
    assert_eq!(m.module_system, ModuleSystem::CommonJs);
    let m = finalize_module("a.js.farm-runtime", &vec![DependencyKind::ExportFrom, DependencyKind::Require]).unwrap();
    assert_eq!(m.module_system, ModuleSystem::Hybrid);
    assert!(finalize_module("a.js", &vec![]).is_none());
}

const LOADER: &str = r#"(function (modules, entryModule) {
            var cache = {};
          
            function require(id) {
              if (cache[id]) return cache[id].exports;
          
              var module = {
                id: id,
                exports: {}
              };
          
              modules[id](module, module.exports, require);
              cache[id] = module;
              return module.exports;
            }
          
            require(entryModule);
          })("#;

const REGISTER: &str = r#"(function (modules) {
        for (var key in modules) {
          var __farm_global_this__ = (globalThis || window || global || self)[
            __farm_namespace__
          ];
          __farm_global_this__.__farm_module_system__.register(key, modules[key]);
        }
      })("#;

#[test]
fn entry_id_is_written_as_debug_literal() {
    let b = wrap_bootstrap("{}", "a\"b\\c\nd\0");
    assert!(b.ends_with("{}, \"a\\\"b\\\\c\\nd\\0\");"));
    let b = wrap_bootstrap("{}", "");
    assert!(b.ends_with("{}, \"\");"));
}

#[test]
fn bootstrap_bundle_shape() {
    let objects = "{\"a\": function(module, exports, require) {}, \"main.farm-runtime\": function(module, exports, require) {}}";
    let b = wrap_bootstrap(objects, "main.farm-runtime");
    assert_eq!(b, format!("{}{}, \"main.farm-runtime\");", LOADER, objects));
    assert!(b.starts_with("(function (modules, entryModule) {"));
    assert!(b.contains("require(entryModule);\n          })({\"a\""));
    assert!(b.ends_with("}, \"main.farm-runtime\");"));
    assert_eq!(b.matches("require(entryModule)").count(), 1);
}

#[test]
fn registration_bundle_shape() {
    let b = wrap_registration("{\"a\": function() {}}");
    assert_eq!(b, format!("{}{{\"a\": function() {{}}}});", REGISTER));
    assert!(b.contains("__farm_module_system__.register(key, modules[key]);"));
    assert!(b.ends_with("\n      })({\"a\": function() {}});"));
}

#[test]
fn bootstrap_is_computed_once() {
    let mut p = FarmPluginRuntime::new();
    assert!(!p.is_populated());
    let types = vec![ResourcePotType::Js, ResourcePotType::Runtime, ResourcePotType::Runtime];
    assert_eq!(p.process_resource_pots(&types), ProcessStep::Render(1));
    p.complete_bootstrap("{}", "main.farm-runtime");
    assert!(p.is_populated());
    let first = p.runtime_code();
    assert_eq!(first, wrap_bootstrap("{}", "main.farm-runtime"));
    for _ in 0..4 {
        assert_eq!(p.process_resource_pots(&types), ProcessStep::Skip);
    }
    p.complete_bootstrap("{\"x\": 1}", "other");
    assert_eq!(p.runtime_code(), first);
}

#[test]
fn no_runtime_pot_renders_nothing() {
    let p = FarmPluginRuntime::new();
    assert_eq!(p.process_resource_pots(&vec![ResourcePotType::Js]), ProcessStep::NoRuntimePot);
    assert_eq!(p.process_resource_pots(&vec![]), ProcessStep::NoRuntimePot);
}

#[test]
fn render_by_pot_type() {
    let mut p = FarmPluginRuntime::new();
    p.complete_bootstrap("{}", "main.farm-runtime");
    assert_eq!(p.render_resource_pot_modules(ResourcePotType::Runtime, ""), Some(p.runtime_code()));
    assert_eq!(
        p.render_resource_pot_modules(ResourcePotType::Js, "{}"),
        Some(wrap_registration("{}"))
    );
    assert_eq!(p.render_resource_pot_modules(ResourcePotType::Other, "{}"), None);
}

#[test]
fn runtime_pot_becomes_unemitted_resource() {
    let p = FarmPluginRuntime::new();
    let r = FarmPluginRuntime::generate_resources(None, ResourcePotType::Runtime, "FARM_RUNTIME", "code").unwrap();
    assert_eq!(r.name, "FARM_RUNTIME");
    assert_eq!(r.bytes, b"code".to_vec());
    assert!(!r.emit);
    assert_eq!(r.resource_type, ResourceKind::Runtime);
    assert_eq!(r.origin, "FARM_RUNTIME");
    assert!(FarmPluginRuntime::generate_resources(Some("FarmPluginRuntime"), ResourcePotType::Runtime, "FARM_RUNTIME", "code").is_none());
    assert!(FarmPluginRuntime::generate_resources(Some("Other"), ResourcePotType::Js, "x", "code").is_none());
    assert_eq!(p.name(), "FarmPluginRuntime");
}

#[test]
fn config_changes() {
    let c = config("/rt/index.js", "/node_modules/@swc/helpers");
    assert_eq!(c.input_name, "runtime");
    assert_eq!(c.input_path, "/rt/index.js.farm-runtime");
    assert_eq!(c.alias_name, "@swc/helpers");
    assert_eq!(c.alias_path, "/node_modules/@swc/helpers");
    assert_eq!(c.enforce_name, "FARM_RUNTIME");
    assert_eq!(c.enforce_test, ".+.farm-runtime");
}

#[test]
fn source_names_get_a_leading_separator() {
    assert_eq!(remap_source("src/a.js"), "/src/a.js");
    assert_eq!(remap_source("../other/b.js"), "/../other/b.js");
    assert_eq!(remap_source(""), "/");
}
