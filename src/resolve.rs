use vstd::prelude::*;

use crate::module_id::{
    add_runtime_suffix, ends_with_runtime_suffix, has_runtime_suffix, runtime_suffix,
    strip_runtime_suffix, without_runtime_suffix, lemma_suffix_added_then_stripped,
};

verus! {

/// The name under which this plugin takes part in the pipeline; also the caller tag
/// of the resolutions it issues itself.
pub const PLUGIN_NAME: &'static str = "FarmPluginRuntime";

/// The plugin's name as a sequence of characters.
pub open spec fn plugin_name() -> Seq<char> {
    seq!['F', 'a', 'r', 'm', 'P', 'l', 'u', 'g', 'i', 'n', 'R', 'u', 'n', 't', 'i', 'm', 'e']
}

/// The view of an optional string.
pub open spec fn opt_view(o: Option<&str>) -> Option<Seq<char>> {
    match o {
        Some(s) => Some(s@),
        None => None,
    }
}

/// Whether a caller tag is this plugin's own.
pub open spec fn is_own_caller(caller: Option<Seq<char>>) -> bool {
    caller == Some(plugin_name())
}

/// Whether a request belongs to the runtime namespace: its source is marked, or it is
/// imported from a runtime module.
pub open spec fn in_runtime_namespace(source: Seq<char>, importer: Option<Seq<char>>) -> bool {
    has_runtime_suffix(source) || (importer is Some && has_runtime_suffix(importer->0))
}

/// What the resolver hands on to the generic resolver: `None` when it does not handle
/// the request, else the source to resolve in its place.
pub open spec fn resolve_request(
    source: Seq<char>,
    importer: Option<Seq<char>>,
    caller: Option<Seq<char>>,
) -> Option<Seq<char>> {
    if is_own_caller(caller) {
        None
    } else if in_runtime_namespace(source, importer) {
        Some(without_runtime_suffix(source))
    } else {
        None
    }
}

/// The id that a delegated resolution ends in: the generic resolver's answer with the
/// marker put back.
pub open spec fn resolved_runtime_id(delegated: Option<Seq<char>>) -> Option<Seq<char>> {
    match delegated {
        Some(p) => Some(p + runtime_suffix()),
        None => None,
    }
}

/// The first half of resolution.
pub enum ResolveStep {
    /// The request is left to the other participants of the pipeline.
    NotHandled,
    /// Resolve this source through the generic resolver, with this plugin's name as
    /// caller tag, and hand the answer to `finish_resolve`.
    Delegate(String),
}

/// The caller tag to give the delegated resolution.
pub fn delegate_caller() -> (r: String)
    ensures
        r@ == plugin_name(),
{
    proof { reveal_strlit("FarmPluginRuntime"); }
    String::from_str(PLUGIN_NAME)
}

/// Whether `caller` is this plugin's own tag.
fn caller_is_own(caller: Option<&str>) -> (r: bool)
    ensures
        r == is_own_caller(opt_view(caller)),
{
    match caller {
        Some(c) => {
            let own = delegate_caller();
            let c = String::from_str(c);
            c == own
        },
        None => false,
    }
}

/// Decides whether a resolve request is for the runtime namespace, and what to delegate.
pub fn plan_resolve(source: &str, importer: Option<&str>, caller: Option<&str>) -> (r: ResolveStep)
    ensures
        r is NotHandled <==> resolve_request(source@, opt_view(importer), opt_view(caller)) is None,
        r matches ResolveStep::Delegate(s) ==> resolve_request(
            source@,
            opt_view(importer),
            opt_view(caller),
        ) == Some(s@),
{
    if caller_is_own(caller) {
        return ResolveStep::NotHandled;
    }
    let imported_from_runtime = match importer {
        Some(i) => ends_with_runtime_suffix(i),
        None => false,
    };
    if ends_with_runtime_suffix(source) || imported_from_runtime {
        ResolveStep::Delegate(strip_runtime_suffix(source))
    } else {
        ResolveStep::NotHandled
    }
}

/// Completes a delegated resolution: the resolved path gets the marker back; an
/// unresolved request stays unresolved.
pub fn finish_resolve(delegated: Option<String>) -> (r: Option<String>)
    ensures
        opt_string_view(r) == resolved_runtime_id(opt_string_view(delegated)),
{
    match delegated {
        Some(p) => Some(add_runtime_suffix(p.as_str())),
        None => None,
    }
}

/// The view of an optional owned string.
pub open spec fn opt_string_view(o: Option<String>) -> Option<Seq<char>> {
    match o {
        Some(s) => Some(s@),
        None => None,
    }
}

/// A request that carries this plugin's own caller tag is never handled, whatever its
/// source and importer: the resolver cannot re-enter itself.
pub proof fn lemma_own_caller_not_handled(source: Seq<char>, importer: Option<Seq<char>>)
    ensures
        resolve_request(source, importer, Some(plugin_name())) is None,
{
}

/// Resolving `p` with the marker delegates exactly `p`, and when the generic resolver
/// answers `resolved` for it, the result is `resolved` with the marker.
pub proof fn lemma_suffix_round_trip(
    p: Seq<char>,
    resolved: Seq<char>,
    importer: Option<Seq<char>>,
    caller: Option<Seq<char>>,
)
    requires
        !is_own_caller(caller),
    ensures
        resolve_request(p + runtime_suffix(), importer, caller) == Some(p),
        resolved_runtime_id(Some(resolved)) == Some(resolved + runtime_suffix()),
{
    lemma_suffix_added_then_stripped(p);
}

} // verus!
