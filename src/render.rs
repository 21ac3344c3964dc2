use vstd::prelude::*;

verus! {

/// The loader that a bootstrap bundle wraps around its module object: a cache keyed by
/// module id, a `require` that runs a module's factory once, and a final `require` of the
/// entry module. The module object and the entry id follow as the two arguments.
pub const BOOTSTRAP_PREFIX: &'static str = "(function (modules, entryModule) {\n            var cache = {};\n          \n            function require(id) {\n              if (cache[id]) return cache[id].exports;\n          \n              var module = {\n                id: id,\n                exports: {}\n              };\n          \n              modules[id](module, module.exports, require);\n              cache[id] = module;\n              return module.exports;\n            }\n          \n            require(entryModule);\n          })(";

/// What stands between the module object and the entry id in a bootstrap bundle.
pub const ARGUMENT_SEPARATOR: &'static str = ", ";

/// What closes both kinds of bundle.
pub const BUNDLE_CLOSE: &'static str = ");";

/// The wrapper of a registration bundle: each factory of the module object is registered
/// under its key with the module system found through the global namespace; nothing runs.
pub const REGISTER_PREFIX: &'static str = "(function (modules) {\n        for (var key in modules) {\n          var __farm_global_this__ = (globalThis || window || global || self)[\n            __farm_namespace__\n          ];\n          __farm_global_this__.__farm_module_system__.register(key, modules[key]);\n        }\n      })(";

/// What `{:?}` writes for a string: the string in double quotes, with quotes,
/// backslashes, control and non-printable characters escaped.
pub uninterp spec fn debug_literal(s: Seq<char>) -> Seq<char>;

/// Relies on std's `Debug` for `str`, through `format!("{:?}")`: the quoted and escaped
/// form of `s`, which depends on `s` alone.
#[verifier::external_body]
pub(crate) fn debug_quote(s: &str) -> (r: String)
    ensures
        r@ == debug_literal(s@),
{
    format!("{:?}", s)
}

/// The bootstrap bundle around the rendered module object `objects`, entering `entry`.
pub open spec fn bootstrap_bundle(objects: Seq<char>, entry: Seq<char>) -> Seq<char> {
    BOOTSTRAP_PREFIX@ + objects + ARGUMENT_SEPARATOR@ + debug_literal(entry) + BUNDLE_CLOSE@
}

/// The registration bundle around the rendered module object `objects`.
pub open spec fn registration_bundle(objects: Seq<char>) -> Seq<char> {
    REGISTER_PREFIX@ + objects + BUNDLE_CLOSE@
}

/// Wraps the rendered module object of a runtime resource pot into the self-executing
/// bootstrap bundle that requires `entry_id` and nothing else.
pub fn wrap_bootstrap(objects: &str, entry_id: &str) -> (r: String)
    ensures
        r@ == bootstrap_bundle(objects@, entry_id@),
{
    let literal = debug_quote(entry_id);
    let r = String::from_str(BOOTSTRAP_PREFIX)
        .concat(objects)
        .concat(ARGUMENT_SEPARATOR)
        .concat(literal.as_str())
        .concat(BUNDLE_CLOSE);
    r
}

/// Wraps the rendered module object of a script resource pot into the registration bundle.
pub fn wrap_registration(objects: &str) -> (r: String)
    ensures
        r@ == registration_bundle(objects@),
{
    String::from_str(REGISTER_PREFIX).concat(objects).concat(BUNDLE_CLOSE)
}

} // verus!
