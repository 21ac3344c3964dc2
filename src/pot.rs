use vstd::prelude::*;
use vstd::string::StringSliceAdditionalSpecFns;

use crate::render::{bootstrap_bundle, registration_bundle, wrap_bootstrap, wrap_registration};
use crate::resolve::{delegate_caller, is_own_caller, opt_view, plugin_name, PLUGIN_NAME};

verus! {

/// The type of a resource pot, as far as this plugin tells them apart.
#[derive(PartialEq, Eq, Structural, Clone, Copy, Debug)]
pub enum ResourcePotType {
    /// The pot that holds the runtime modules.
    Runtime,
    /// A pot of ordinary script modules.
    Js,
    /// Any other pot (styles, html, custom).
    Other,
}

/// What `process_resource_pots` asks of its caller.
#[derive(PartialEq, Eq, Structural, Clone, Copy, Debug)]
pub enum ProcessStep {
    /// The bootstrap bundle is already there: nothing to do.
    Skip,
    /// No runtime pot among those given: nothing to render.
    NoRuntimePot,
    /// Render the module object of the pot at this index and hand it to
    /// `complete_bootstrap`.
    Render(usize),
}

/// Whether the bootstrap bundle still has to be rendered.
pub open spec fn needs_render(code: Seq<char>) -> bool {
    code.len() == 0
}

/// The cached bundle after a bootstrap bundle was offered to it: the first one stays.
pub open spec fn stored_bootstrap(code: Seq<char>, bundle: Seq<char>) -> Seq<char> {
    if needs_render(code) {
        bundle
    } else {
        code
    }
}

/// The kind of artifact a resource is.
#[derive(PartialEq, Eq, Structural, Clone, Copy, Debug)]
pub enum ResourceKind {
    /// The runtime bundle, inlined into the entry resources downstream.
    Runtime,
}

/// The resource that a runtime resource pot becomes.
#[derive(Clone, Debug)]
pub struct RuntimeResource {
    /// The resource's name: the pot's id.
    pub name: String,
    /// The bootstrap bundle's bytes.
    pub bytes: Vec<u8>,
    /// Whether the resource is written out on its own. The runtime is inlined into the
    /// entry resources instead, so this starts false.
    pub emit: bool,
    /// The kind of artifact: always the runtime.
    pub resource_type: ResourceKind,
    /// The id of the resource pot it was derived from.
    pub origin: String,
}

/// The plugin that injects the runtime module graph and renders resource pots. It holds
/// the one value that its hooks share: the bootstrap bundle, computed once per
/// compilation. A new compilation takes a new instance.
pub struct FarmPluginRuntime {
    runtime_code: String,
}

impl View for FarmPluginRuntime {
    type V = Seq<char>;

    /// The cached bootstrap bundle; empty until it was rendered.
    closed spec fn view(&self) -> Seq<char> {
        self.runtime_code@
    }
}

impl FarmPluginRuntime {
    /// A plugin for a new compilation: no bootstrap bundle yet.
    pub fn new() -> (r: Self)
        ensures
            r@ == Seq::<char>::empty(),
    {
        FarmPluginRuntime { runtime_code: String::new() }
    }

    /// The plugin's name in the pipeline.
    pub fn name(&self) -> (r: &'static str)
        ensures
            r@ == plugin_name(),
    {
        proof { reveal_strlit("FarmPluginRuntime"); }
        PLUGIN_NAME
    }

    /// The cached bootstrap bundle.
    pub fn runtime_code(&self) -> (r: String)
        ensures
            r@ == self@,
    {
        self.runtime_code.clone()
    }

    /// Whether the bootstrap bundle was rendered already.
    pub fn is_populated(&self) -> (r: bool)
        ensures
            r == !needs_render(self@),
    {
        self.runtime_code.unicode_len() > 0
    }

    /// Decides what processing the resource pots needs: nothing once the bootstrap bundle
    /// is there; else the first runtime pot is rendered, when there is one.
    pub fn process_resource_pots(&self, pot_types: &Vec<ResourcePotType>) -> (r: ProcessStep)
        ensures
            !needs_render(self@) ==> r is Skip,
            needs_render(self@) ==> (r is NoRuntimePot <==> forall|j: int|
                0 <= j < pot_types@.len() ==> pot_types@[j] != ResourcePotType::Runtime),
            needs_render(self@) ==> !(r is Skip),
            r matches ProcessStep::Render(i) ==> i < pot_types@.len() && pot_types@[i as int]
                == ResourcePotType::Runtime && forall|j: int|
                0 <= j < i ==> pot_types@[j] != ResourcePotType::Runtime,
    {
        if self.is_populated() {
            return ProcessStep::Skip;
        }
        let mut i: usize = 0;
        while i < pot_types.len()
            invariant
                i <= pot_types@.len(),
                needs_render(self@),
                forall|j: int| 0 <= j < i ==> pot_types@[j] != ResourcePotType::Runtime,
            decreases pot_types@.len() - i,
        {
            if pot_types[i] == ResourcePotType::Runtime {
                return ProcessStep::Render(i);
            }
            i = i + 1;
        }
        ProcessStep::NoRuntimePot
    }

    /// Wraps the rendered module object of the runtime pot into the bootstrap bundle that
    /// enters `entry_id`, and caches it, unless a bundle is cached already: the first
    /// writer wins.
    pub fn complete_bootstrap(&mut self, objects: &str, entry_id: &str)
        ensures
            final(self)@ == stored_bootstrap(old(self)@, bootstrap_bundle(objects@, entry_id@)),
    {
        if !self.is_populated() {
            self.runtime_code = wrap_bootstrap(objects, entry_id);
        }
    }

    /// The rendered content of a resource pot: the cached bootstrap bundle for the runtime
    /// pot; for a script pot, the registration bundle around `objects`, the pot's
    /// rendered module object; `None` for any other pot.
    pub fn render_resource_pot_modules(&self, pot_type: ResourcePotType, objects: &str) -> (r: Option<String>)
        ensures
            pot_type == ResourcePotType::Runtime ==> (r matches Some(c) && c@ == self@),
            pot_type == ResourcePotType::Js ==> (r matches Some(c) && c@ == registration_bundle(objects@)),
            pot_type == ResourcePotType::Other ==> r is None,
    {
        match pot_type {
            ResourcePotType::Runtime => Some(self.runtime_code()),
            ResourcePotType::Js => Some(wrap_registration(objects)),
            ResourcePotType::Other => None,
        }
    }

    /// The resource of a runtime pot, named by the pot's id and holding its rendered
    /// content, not emitted on its own. A call that this plugin made itself, and any other
    /// pot, is not handled.
    pub fn generate_resources(
        caller: Option<&str>,
        pot_type: ResourcePotType,
        pot_id: &str,
        rendered_content: &str,
    ) -> (r: Option<RuntimeResource>)
        ensures
            (is_own_caller(opt_view(caller)) || pot_type != ResourcePotType::Runtime) ==> r is None,
            !is_own_caller(opt_view(caller)) && pot_type == ResourcePotType::Runtime ==> (r matches Some(res) && res.name@ == pot_id@ && res.bytes@ == rendered_content.spec_bytes() && !res.emit && res.resource_type == ResourceKind::Runtime && res.origin@ == pot_id@),
    {
        let own = match caller {
            Some(c) => String::from_str(c) == delegate_caller(),
            None => false,
        };
        if own {
            return None;
        }
        if pot_type == ResourcePotType::Runtime {
            Some(RuntimeResource {
                name: String::from_str(pot_id),
                bytes: rendered_content.as_bytes_vec(),
                emit: false,
                resource_type: ResourceKind::Runtime,
                origin: String::from_str(pot_id),
            })
        } else {
            None
        }
    }
}

/// Once a bootstrap bundle was stored, no later call renders again and no later bundle
/// replaces it: the render runs at most once per compilation and every caller sees the
/// same bundle.
pub proof fn lemma_bootstrap_computed_once(
    code: Seq<char>,
    objects: Seq<char>,
    entry: Seq<char>,
    later: Seq<char>,
)
    ensures
        !needs_render(stored_bootstrap(code, bootstrap_bundle(objects, entry))),
        stored_bootstrap(stored_bootstrap(code, bootstrap_bundle(objects, entry)), later)
            == stored_bootstrap(code, bootstrap_bundle(objects, entry)),
{
    reveal_strlit(");");
}

} // verus!
