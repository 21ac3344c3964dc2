use vstd::prelude::*;

use crate::analyze::DependencyKind;
use crate::module_id::{
    add_runtime_suffix, classify_module_id, ends_with_runtime_suffix, has_runtime_suffix,
    runtime_suffix, without_runtime_suffix, ModuleIdKind,
};
use crate::render::{debug_literal, debug_quote};

verus! {

/// The type of a module's content.
#[derive(Clone, Debug)]
pub enum ModuleType {
    Js,
    Jsx,
    Ts,
    Tsx,
    Css,
    Html,
    Asset,
    /// A synthetic runtime module.
    Runtime,
    /// A type that another plugin handles, by its name.
    Custom(String),
}

/// The module system a module's code follows.
#[derive(PartialEq, Eq, Structural, Clone, Copy, Debug)]
pub enum ModuleSystem {
    EsModule,
    CommonJs,
    /// Both ES module and CommonJS syntax.
    Hybrid,
    /// Neither could be told from the dependencies.
    Unknown,
}

/// A runtime module as loaded: its content and its type.
#[derive(Clone, Debug)]
pub struct LoadedModule {
    pub content: String,
    pub module_type: ModuleType,
}

/// What finalizing a runtime module settles.
#[derive(Clone, Debug)]
pub struct FinalizedModule {
    pub module_type: ModuleType,
    pub module_system: ModuleSystem,
}

/// The real path to load for `resolved_path`: the path under the marker of a runtime
/// module; `None` (not handled) for any other module.
pub fn plan_load(resolved_path: &str) -> (r: Option<String>)
    ensures
        has_runtime_suffix(resolved_path@) ==> (r matches Some(p) && p@ == without_runtime_suffix(resolved_path@)),
        !has_runtime_suffix(resolved_path@) ==> r is None,
{
    match classify_module_id(resolved_path) {
        ModuleIdKind::Runtime(real_path) => Some(real_path),
        ModuleIdKind::Real(_) => None,
    }
}

/// Completes loading a runtime module from its `content` and the type inferred from its
/// path's extension. A runtime module of unknown type means the configuration is
/// inconsistent, and the compilation stops before this point.
pub fn finish_load(content: String, module_type: Option<ModuleType>) -> (r: LoadedModule)
    requires
        module_type is Some,
    ensures
        r.content@ == content@,
        r.module_type == module_type->0,
{
    match module_type {
        Some(module_type) => LoadedModule { content, module_type },
        None => LoadedModule { content, module_type: ModuleType::Runtime },
    }
}

/// The id of the runtime entry module: the configured runtime path with the marker.
pub fn runtime_entry_id(runtime_path: &str) -> (r: String)
    ensures
        r@ == runtime_path@ + runtime_suffix(),
{
    add_runtime_suffix(runtime_path)
}

/// The digits that write a number.
pub const DIGITS: &'static str = "0123456789";

/// `n` in decimal.
pub open spec fn decimal(n: nat) -> Seq<char>
    decreases n,
{
    if n < 10 {
        seq![DIGITS@[n as int]]
    } else {
        decimal(n / 10) + seq![DIGITS@[(n % 10) as int]]
    }
}

/// Appends `n` in decimal to `out`.
fn push_decimal(out: &mut String, n: usize)
    ensures
        final(out)@ == old(out)@ + decimal(n as nat),
    decreases n,
{
    proof { reveal_strlit("0123456789"); }
    if n >= 10 {
        push_decimal(out, n / 10);
    }
    let d = n % 10;
    out.append(DIGITS.substring_char(d, d + 1));
    proof { reveal_strlit("0123456789"); }
    assert(DIGITS@.subrange(d as int, d + 1) =~= seq![DIGITS@[d as int]]);
    assert(final(out)@ =~= old(out)@ + decimal(n as nat));
}

/// The name under which the plugin at position `i` is imported.
pub open spec fn plugin_binding(i: nat) -> Seq<char> {
    "__farm_plugin_"@ + decimal(i) + "__"@
}

/// The statements that import the plugin at position `i`, from `path`, and register it
/// with the runtime before the runtime body runs.
pub open spec fn plugin_statements(i: nat, path: Seq<char>) -> Seq<char> {
    "import "@ + plugin_binding(i) + " from "@ + debug_literal(path) + ";\n"@
        + "(globalThis.__farm_runtime_plugins__ = globalThis.__farm_runtime_plugins__ || []).push("@
        + plugin_binding(i) + ");\n"@
}

/// The statements for the first `n` plugins of `plugins`.
pub open spec fn plugins_header(plugins: Seq<String>, n: nat) -> Seq<char>
    decreases n,
{
    if n == 0 {
        Seq::empty()
    } else {
        plugins_header(plugins, (n - 1) as nat) + plugin_statements((n - 1) as nat, plugins[n - 1]@)
    }
}

/// The statements for the plugin at position `i`, from `path`.
fn plugin_lines(i: usize, path: &str) -> (r: String)
    ensures
        r@ == plugin_statements(i as nat, path@),
{
    let mut out = String::from_str("import ");
    out.append("__farm_plugin_");
    push_decimal(&mut out, i);
    out.append("__");
    out.append(" from ");
    let lit = debug_quote(path);
    out.append(lit.as_str());
    out.append(";\n");
    out.append("(globalThis.__farm_runtime_plugins__ = globalThis.__farm_runtime_plugins__ || []).push(");
    out.append("__farm_plugin_");
    push_decimal(&mut out, i);
    out.append("__");
    out.append(");\n");
    assert(out@ =~= plugin_statements(i as nat, path@));
    out
}

/// Prepends to the runtime entry's `content` the import and registration of each runtime
/// plugin, in their order.
pub fn insert_runtime_plugins(content: &str, plugins: &Vec<String>) -> (r: String)
    ensures
        r@ == plugins_header(plugins@, plugins@.len()) + content@,
{
    let mut out = String::new();
    let mut i: usize = 0;
    while i < plugins.len()
        invariant
            i <= plugins@.len(),
            out@ == plugins_header(plugins@, i as nat),
        decreases plugins@.len() - i,
    {
        let ghost before = out@;
        let lines = plugin_lines(i, plugins[i].as_str());
        out.append(lines.as_str());
        assert(out@ =~= before + plugin_statements(i as nat, plugins@[i as int]@));
        i = i + 1;
    }
    out.append(content);
    out
}

/// Transforms the runtime entry module, and no other: `resolved_path` is the configured
/// runtime path with the marker, and the plugins are inserted before its content.
pub fn transform_runtime_entry(
    resolved_path: &str,
    runtime_path: &str,
    content: &str,
    plugins: &Vec<String>,
) -> (r: Option<String>)
    ensures
        resolved_path@ == runtime_path@ + runtime_suffix() ==> (r matches Some(c) && c@ == plugins_header(plugins@, plugins@.len()) + content@),
        resolved_path@ != runtime_path@ + runtime_suffix() ==> r is None,
{
    let entry = runtime_entry_id(runtime_path);
    if String::from_str(resolved_path) == entry {
        Some(insert_runtime_plugins(content, plugins))
    } else {
        None
    }
}

/// Whether a dependency kind is ES module syntax.
pub open spec fn is_esm_kind(k: DependencyKind) -> bool {
    k == DependencyKind::Import || k == DependencyKind::DynamicImport || k == DependencyKind::ExportFrom
}

/// The module system that a list of dependency kinds shows: ES module syntax, `require`,
/// both, or neither.
pub open spec fn module_system_of(kinds: Seq<DependencyKind>) -> ModuleSystem {
    let esm = exists|i: int| 0 <= i < kinds.len() && is_esm_kind(#[trigger] kinds[i]);
    let cjs = exists|i: int| 0 <= i < kinds.len() && #[trigger] kinds[i] == DependencyKind::Require;
    if esm && cjs {
        ModuleSystem::Hybrid
    } else if esm {
        ModuleSystem::EsModule
    } else if cjs {
        ModuleSystem::CommonJs
    } else {
        ModuleSystem::Unknown
    }
}

/// Classifies the module system from the dependency kinds.
pub fn module_system_from_deps(kinds: &Vec<DependencyKind>) -> (r: ModuleSystem)
    ensures
        r == module_system_of(kinds@),
{
    let mut esm = false;
    let mut cjs = false;
    let mut i: usize = 0;
    while i < kinds.len()
        invariant
            i <= kinds@.len(),
            esm == (exists|j: int| 0 <= j < i && is_esm_kind(#[trigger] kinds@[j])),
            cjs == (exists|j: int| 0 <= j < i && #[trigger] kinds@[j] == DependencyKind::Require),
        decreases kinds@.len() - i,
    {
        let k = kinds[i];
        if k == DependencyKind::Import || k == DependencyKind::DynamicImport || k == DependencyKind::ExportFrom {
            esm = true;
        } else if k == DependencyKind::Require {
            cjs = true;
        }
        i = i + 1;
    }
    if esm && cjs {
        ModuleSystem::Hybrid
    } else if esm {
        ModuleSystem::EsModule
    } else if cjs {
        ModuleSystem::CommonJs
    } else {
        ModuleSystem::Unknown
    }
}

/// Seals a runtime module: its type becomes `Runtime`, and its module system comes from
/// its dependency kinds, ES module when it has none. Other modules are not handled.
pub fn finalize_module(module_id: &str, kinds: &Vec<DependencyKind>) -> (r: Option<FinalizedModule>)
    ensures
        !has_runtime_suffix(module_id@) ==> r is None,
        has_runtime_suffix(module_id@) ==> (r matches Some(m) && m.module_type is Runtime && m.module_system == (if kinds@.len() == 0 {
            ModuleSystem::EsModule
        } else {
            module_system_of(kinds@)
        })),
{
    if !ends_with_runtime_suffix(module_id) {
        return None;
    }
    let module_system = if kinds.len() == 0 {
        ModuleSystem::EsModule
    } else {
        module_system_from_deps(kinds)
    };
    Some(FinalizedModule { module_type: ModuleType::Runtime, module_system })
}

} // verus!
