use vstd::prelude::*;

use crate::module_id::{ends_with_runtime_suffix, has_runtime_suffix};

verus! {

/// The interop helper that normalises a namespace import.
pub const WILDCARD_HELPER: &'static str = "@swc/helpers/_/_interop_require_wildcard";

/// The interop helper that unwraps a default import.
pub const DEFAULT_HELPER: &'static str = "@swc/helpers/_/_interop_require_default";

/// The interop helper that propagates `export *`.
pub const EXPORT_STAR_HELPER: &'static str = "@swc/helpers/_/_export_star";

/// How a dependency is referenced.
#[derive(PartialEq, Eq, Structural, Clone, Copy, Debug)]
pub enum DependencyKind {
    /// A static `import`.
    Import,
    /// A static re-export, `export ... from`.
    ExportFrom,
    /// A dynamic `import()`.
    DynamicImport,
    /// A CommonJS `require`.
    Require,
    /// Any other kind of reference (an entry, a stylesheet, a script tag, ...).
    Other,
}

/// One dependency of a module.
#[derive(Clone, Debug)]
pub struct Dependency {
    pub source: String,
    pub kind: DependencyKind,
}

/// The kinds of specifier an import statement may hold.
#[derive(PartialEq, Eq, Structural, Clone, Copy, Debug)]
pub enum ImportSpecifierKind {
    /// `import { a } from '...'`
    Named,
    /// `import a from '...'`
    Default,
    /// `import * as a from '...'`
    Namespace,
}

/// A top-level statement of a script module, as far as interop needs to know it.
#[derive(Clone, Debug)]
pub enum TopLevelItem {
    /// An import declaration with its specifiers.
    Import(Vec<ImportSpecifierKind>),
    /// `export * from '...'`
    ExportAll,
    /// Anything else.
    Other,
}

/// A dependency as source and kind.
pub open spec fn dependency_view(d: Dependency) -> (Seq<char>, DependencyKind) {
    (d.source@, d.kind)
}

/// A dependency list as sources and kinds.
pub open spec fn deps_view(ds: Seq<Dependency>) -> Seq<(Seq<char>, DependencyKind)> {
    ds.map_values(|d: Dependency| dependency_view(d))
}

/// Whether an item is an import with a specifier of kind `k`.
pub open spec fn imports_with(item: TopLevelItem, k: ImportSpecifierKind) -> bool {
    item matches TopLevelItem::Import(specs) && specs@.contains(k)
}

/// Whether some import statement has a namespace specifier.
pub open spec fn needs_wildcard_helper(items: Seq<TopLevelItem>) -> bool {
    exists|i: int| 0 <= i < items.len() && imports_with(#[trigger] items[i], ImportSpecifierKind::Namespace)
}

/// Whether some import statement has a default specifier.
pub open spec fn needs_default_helper(items: Seq<TopLevelItem>) -> bool {
    exists|i: int| 0 <= i < items.len() && imports_with(#[trigger] items[i], ImportSpecifierKind::Default)
}

/// Whether some statement is `export * from`.
pub open spec fn needs_export_star_helper(items: Seq<TopLevelItem>) -> bool {
    exists|i: int| 0 <= i < items.len() && #[trigger] items[i] is ExportAll
}

/// Whether a dependency with this source is listed.
pub open spec fn lists_source(ds: Seq<(Seq<char>, DependencyKind)>, source: Seq<char>) -> bool {
    exists|i: int| 0 <= i < ds.len() && (#[trigger] ds[i]).0 == source
}

/// `ds` with an import of `helper` appended, when it is needed and not listed yet.
pub open spec fn with_helper(
    ds: Seq<(Seq<char>, DependencyKind)>,
    needed: bool,
    helper: Seq<char>,
) -> Seq<(Seq<char>, DependencyKind)> {
    if needed && !lists_source(ds, helper) {
        ds.push((helper, DependencyKind::Import))
    } else {
        ds
    }
}

/// The dependency list after interop analysis of a module with top-level `items`.
pub open spec fn analyzed_deps(
    items: Seq<TopLevelItem>,
    ds: Seq<(Seq<char>, DependencyKind)>,
) -> Seq<(Seq<char>, DependencyKind)> {
    with_helper(
        with_helper(
            with_helper(ds, needs_wildcard_helper(items), WILDCARD_HELPER@),
            needs_default_helper(items),
            DEFAULT_HELPER@,
        ),
        needs_export_star_helper(items),
        EXPORT_STAR_HELPER@,
    )
}

/// Whether `specs` holds a specifier of kind `k`.
fn has_specifier(specs: &Vec<ImportSpecifierKind>, k: ImportSpecifierKind) -> (r: bool)
    ensures
        r == specs@.contains(k),
{
    let mut i: usize = 0;
    while i < specs.len()
        invariant
            i <= specs@.len(),
            forall|j: int| 0 <= j < i ==> specs@[j] != k,
        decreases specs@.len() - i,
    {
        if specs[i] == k {
            return true;
        }
        i = i + 1;
    }
    false
}

/// Whether some dependency in `deps` has `source`.
fn has_source(deps: &Vec<Dependency>, source: &String) -> (r: bool)
    ensures
        r == lists_source(deps_view(deps@), source@),
{
    let ghost dv = deps_view(deps@);
    let mut i: usize = 0;
    while i < deps.len()
        invariant
            i <= deps@.len(),
            dv == deps_view(deps@),
            forall|j: int| 0 <= j < i ==> dv[j].0 != source@,
        decreases deps@.len() - i,
    {
        if deps[i].source == *source {
            assert(dv[i as int].0 == source@);
            return true;
        }
        i = i + 1;
    }
    false
}

/// Appends an import of `helper` when `needed` and not listed yet.
fn insert_helper(deps: &mut Vec<Dependency>, needed: bool, helper: &str)
    ensures
        deps_view(final(deps)@) == with_helper(deps_view(old(deps)@), needed, helper@),
{
    if needed {
        let source = String::from_str(helper);
        if !has_source(deps, &source) {
            let ghost before = deps@;
            deps.push(Dependency { source, kind: DependencyKind::Import });
            assert(deps_view(deps@) =~= deps_view(before).push((helper@, DependencyKind::Import)));
        }
    }
}

/// Adds the interop helpers that the ES module syntax of a runtime module needs to its
/// dependency list. Only a runtime module whose content was parsed as a script
/// (`items` is `Some`) is handled; the result says whether it was.
///
/// Each helper is added once, as an `Import`, when the statements call for it and no
/// dependency on it is listed yet: the namespace-import helper when an import has a
/// namespace specifier, the default-import helper when an import has a default
/// specifier, the re-export helper when there is an `export * from`.
pub fn analyze_deps(
    module_id: &str,
    items: Option<&Vec<TopLevelItem>>,
    deps: &mut Vec<Dependency>,
) -> (r: bool)
    ensures
        r == (has_runtime_suffix(module_id@) && items is Some),
        r ==> deps_view(final(deps)@) == analyzed_deps(items->0@, deps_view(old(deps)@)),
        !r ==> final(deps)@ == old(deps)@,
{
    if !ends_with_runtime_suffix(module_id) {
        return false;
    }
    let items = match items {
        Some(items) => items,
        None => return false,
    };
    let mut has_import_star = false;
    let mut has_import_default = false;
    let mut has_export_star = false;
    let mut i: usize = 0;
    while i < items.len()
        invariant
            i <= items@.len(),
            has_import_star == (exists|j: int| 0 <= j < i && imports_with(#[trigger] items@[j], ImportSpecifierKind::Namespace)),
            has_import_default == (exists|j: int| 0 <= j < i && imports_with(#[trigger] items@[j], ImportSpecifierKind::Default)),
            has_export_star == (exists|j: int| 0 <= j < i && #[trigger] items@[j] is ExportAll),
        decreases items@.len() - i,
    {
        match &items[i] {
            TopLevelItem::Import(specs) => {
                if has_specifier(specs, ImportSpecifierKind::Namespace) {
                    has_import_star = true;
                }
                if has_specifier(specs, ImportSpecifierKind::Default) {
                    has_import_default = true;
                }
            },
            TopLevelItem::ExportAll => {
                has_export_star = true;
            },
            TopLevelItem::Other => {},
        }
        i = i + 1;
    }
    insert_helper(deps, has_import_star, WILDCARD_HELPER);
    insert_helper(deps, has_import_default, DEFAULT_HELPER);
    insert_helper(deps, has_export_star, EXPORT_STAR_HELPER);
    true
}

/// Appending a helper keeps every listed source listed, and a needed helper is listed
/// afterwards.
proof fn lemma_with_helper_lists(
    ds: Seq<(Seq<char>, DependencyKind)>,
    needed: bool,
    helper: Seq<char>,
    other: Seq<char>,
)
    ensures
        lists_source(ds, other) ==> lists_source(with_helper(ds, needed, helper), other),
        needed ==> lists_source(with_helper(ds, needed, helper), helper),
        lists_source(ds, helper) ==> with_helper(ds, needed, helper) == ds,
{
    let r = with_helper(ds, needed, helper);
    if lists_source(ds, other) && r != ds {
        let i = choose|i: int| 0 <= i < ds.len() && (#[trigger] ds[i]).0 == other;
        assert(r[i] == ds[i]);
    }
    if needed && r != ds {
        assert(r[ds.len() as int].0 == helper);
    }
}

/// Running the interop analysis on its own result changes nothing, so no helper is ever
/// listed twice by it.
pub proof fn lemma_analysis_idempotent(items: Seq<TopLevelItem>, ds: Seq<(Seq<char>, DependencyKind)>)
    ensures
        analyzed_deps(items, analyzed_deps(items, ds)) == analyzed_deps(items, ds),
{
    let w = needs_wildcard_helper(items);
    let d = needs_default_helper(items);
    let e = needs_export_star_helper(items);
    let a1 = with_helper(ds, w, WILDCARD_HELPER@);
    let a2 = with_helper(a1, d, DEFAULT_HELPER@);
    let a3 = with_helper(a2, e, EXPORT_STAR_HELPER@);
    lemma_with_helper_lists(ds, w, WILDCARD_HELPER@, WILDCARD_HELPER@);
    lemma_with_helper_lists(a1, d, DEFAULT_HELPER@, WILDCARD_HELPER@);
    lemma_with_helper_lists(a2, e, EXPORT_STAR_HELPER@, WILDCARD_HELPER@);
    lemma_with_helper_lists(a1, d, DEFAULT_HELPER@, DEFAULT_HELPER@);
    lemma_with_helper_lists(a2, e, EXPORT_STAR_HELPER@, DEFAULT_HELPER@);
    lemma_with_helper_lists(a2, e, EXPORT_STAR_HELPER@, EXPORT_STAR_HELPER@);
    lemma_with_helper_lists(a3, w, WILDCARD_HELPER@, WILDCARD_HELPER@);
    lemma_with_helper_lists(a3, d, DEFAULT_HELPER@, DEFAULT_HELPER@);
    lemma_with_helper_lists(a3, e, EXPORT_STAR_HELPER@, EXPORT_STAR_HELPER@);
}

/// How many dependencies in `ds` have `source`.
pub open spec fn count_source(ds: Seq<(Seq<char>, DependencyKind)>, source: Seq<char>) -> nat
    decreases ds.len(),
{
    if ds.len() == 0 {
        0
    } else {
        count_source(ds.drop_last(), source) + if ds.last().0 == source { 1nat } else { 0nat }
    }
}

proof fn lemma_unlisted_count_zero(ds: Seq<(Seq<char>, DependencyKind)>, source: Seq<char>)
    requires
        !lists_source(ds, source),
    ensures
        count_source(ds, source) == 0,
    decreases ds.len(),
{
    if ds.len() > 0 {
        let rest = ds.drop_last();
        assert(!lists_source(rest, source)) by {
            if lists_source(rest, source) {
                let i = choose|i: int| 0 <= i < rest.len() && (#[trigger] rest[i]).0 == source;
                assert(ds[i] == rest[i]);
            }
        }
        lemma_unlisted_count_zero(rest, source);
        assert(ds[ds.len() - 1].0 != source);
    }
}

/// Appending a helper raises the count of a source by at most one, and only from zero.
proof fn lemma_with_helper_count(
    ds: Seq<(Seq<char>, DependencyKind)>,
    needed: bool,
    helper: Seq<char>,
    source: Seq<char>,
)
    requires
        count_source(ds, source) <= 1,
    ensures
        count_source(with_helper(ds, needed, helper), source) <= 1,
{
    if needed && !lists_source(ds, helper) {
        let r = ds.push((helper, DependencyKind::Import));
        assert(r.drop_last() =~= ds);
        if helper == source {
            lemma_unlisted_count_zero(ds, helper);
        }
    }
}

/// The interop analysis never lists a source more than once that was listed at most once
/// before it; in particular it adds each helper at most once.
pub proof fn lemma_analysis_lists_helpers_once(
    items: Seq<TopLevelItem>,
    ds: Seq<(Seq<char>, DependencyKind)>,
    source: Seq<char>,
)
    requires
        count_source(ds, source) <= 1,
    ensures
        count_source(analyzed_deps(items, ds), source) <= 1,
{
    let a1 = with_helper(ds, needs_wildcard_helper(items), WILDCARD_HELPER@);
    let a2 = with_helper(a1, needs_default_helper(items), DEFAULT_HELPER@);
    lemma_with_helper_count(ds, needs_wildcard_helper(items), WILDCARD_HELPER@, source);
    lemma_with_helper_count(a1, needs_default_helper(items), DEFAULT_HELPER@, source);
    lemma_with_helper_count(a2, needs_export_star_helper(items), EXPORT_STAR_HELPER@, source);
}

/// A module whose only interop construct is a default import pulls in the default-import
/// helper and no other.
pub proof fn lemma_only_default_import(items: Seq<TopLevelItem>, ds: Seq<(Seq<char>, DependencyKind)>)
    requires
        needs_default_helper(items),
        !needs_wildcard_helper(items),
        !needs_export_star_helper(items),
    ensures
        analyzed_deps(items, ds) == with_helper(ds, true, DEFAULT_HELPER@),
{
}

/// A module whose only interop construct is `export * from` pulls in the re-export helper
/// and no other.
pub proof fn lemma_only_export_all(items: Seq<TopLevelItem>, ds: Seq<(Seq<char>, DependencyKind)>)
    requires
        needs_export_star_helper(items),
        !needs_wildcard_helper(items),
        !needs_default_helper(items),
    ensures
        analyzed_deps(items, ds) == with_helper(ds, true, EXPORT_STAR_HELPER@),
{
}

/// A module with no namespace import, default import or `export * from` pulls in no helper.
pub proof fn lemma_no_interop_constructs(items: Seq<TopLevelItem>, ds: Seq<(Seq<char>, DependencyKind)>)
    requires
        !needs_export_star_helper(items),
        !needs_wildcard_helper(items),
        !needs_default_helper(items),
    ensures
        analyzed_deps(items, ds) == ds,
{
}

} // verus!
