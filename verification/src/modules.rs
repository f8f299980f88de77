//! Module graph resolver: the registry of compiled modules, the synchronous
//! resolution of a specifier while a graph is linked, and the bookkeeping of
//! dynamic imports, which are answered later through a promise.

use vstd::prelude::*;
use vstd::string::*;
use std::collections::HashMap;
use crate::value::Handle;

verus! {

broadcast use vstd::std_specs::hash::group_hash_axioms;

/// Position of a module in the registry.
pub type ModuleId = usize;

/// A compiled module: its resolved specifier, whether it is the entry module,
/// and the engine's module object.
#[derive(Debug, PartialEq, Eq)]
pub struct ModuleInfo {
    pub main: bool,
    pub name: String,
    pub handle: Handle,
}

/// A module with its name as a sequence of characters.
pub struct ModuleInfoView {
    pub main: bool,
    pub name: Seq<char>,
    pub handle: Handle,
}

impl View for ModuleInfo {
    type V = ModuleInfoView;

    open spec fn view(&self) -> ModuleInfoView {
        ModuleInfoView { main: self.main, name: self.name@, handle: self.handle }
    }
}

/// `id` is the first module of `graph` with the engine object `handle`.
pub open spec fn first_with_handle(graph: Seq<ModuleInfoView>, handle: Handle, id: int) -> bool {
    &&& 0 <= id < graph.len()
    &&& graph[id].handle == handle
    &&& forall|j: int| 0 <= j < id ==> (#[trigger] graph[j]).handle != handle
}

/// `id` is the first module of `graph` with the resolved specifier `name`.
pub open spec fn first_with_name(graph: Seq<ModuleInfoView>, name: Seq<char>, id: int) -> bool {
    &&& 0 <= id < graph.len()
    &&& graph[id].name == name
    &&& forall|j: int| 0 <= j < id ==> (#[trigger] graph[j]).name != name
}

/// Some module of `graph` has the engine object `handle`.
pub open spec fn has_handle(graph: Seq<ModuleInfoView>, handle: Handle) -> bool {
    exists|j: int| 0 <= j < graph.len() && (#[trigger] graph[j]).handle == handle
}

/// Some module of `graph` has the resolved specifier `name`.
pub open spec fn has_name(graph: Seq<ModuleInfoView>, name: Seq<char>) -> bool {
    exists|j: int| 0 <= j < graph.len() && (#[trigger] graph[j]).name == name
}

/// The registry of the modules that were compiled. A module is entered once
/// and never changed.
pub struct Modules {
    infos: Vec<ModuleInfo>,
}

impl Modules {
    /// The registered modules, in the order of their registration.
    pub closed spec fn view(&self) -> Seq<ModuleInfoView> {
        self.infos@.map_values(|info: ModuleInfo| info@)
    }

    /// An empty registry.
    pub fn new() -> (modules: Self)
        ensures
            modules@ == Seq::<ModuleInfoView>::empty(),
    {
        let modules = Modules { infos: Vec::new() };
        assert(modules@ =~= Seq::<ModuleInfoView>::empty());
        modules
    }

    /// The id of the module with the resolved specifier `name`.
    pub fn get_id(&self, name: &str) -> (id: Option<ModuleId>)
        ensures
            id matches Some(found) ==> first_with_name(self@, name@, found as int),
            id is None ==> !has_name(self@, name@),
    {
        let wanted = name.to_owned();
        let mut i: usize = 0;
        while i < self.infos.len()
            invariant
                i <= self.infos@.len(),
                wanted@ == name@,
                forall|j: int| 0 <= j < i ==> (#[trigger] self@[j]).name != name@,
            decreases self.infos@.len() - i,
        {
            if self.infos[i].name == wanted {
                return Some(i);
            }
            i = i + 1;
        }
        None
    }

    /// The engine object of the module `id`.
    pub fn get_handle(&self, id: ModuleId) -> (handle: Option<Handle>)
        ensures
            id < self@.len() ==> handle == Some(self@[id as int].handle),
            id >= self@.len() ==> handle is None,
    {
        if id < self.infos.len() {
            Some(self.infos[id].handle)
        } else {
            None
        }
    }

    /// The module whose engine object is `handle`.
    pub fn get_info(&self, handle: Handle) -> (info: Option<&ModuleInfo>)
        ensures
            info matches Some(found) ==> exists|id: int| #[trigger]
                first_with_handle(self@, handle, id) && found@ == self@[id],
            info is None ==> !has_handle(self@, handle),
    {
        let mut i: usize = 0;
        while i < self.infos.len()
            invariant
                i <= self.infos@.len(),
                forall|j: int| 0 <= j < i ==> (#[trigger] self@[j]).handle != handle,
            decreases self.infos@.len() - i,
        {
            if self.infos[i].handle == handle {
                assert(first_with_handle(self@, handle, i as int));
                return Some(&self.infos[i]);
            }
            i = i + 1;
        }
        None
    }

    /// Enters a compiled module and returns its id. A module whose resolved
    /// specifier or engine object is registered already is not entered again.
    pub fn register(&mut self, name: String, main: bool, handle: Handle) -> (id: Option<ModuleId>)
        ensures
            has_name(old(self)@, name@) || has_handle(old(self)@, handle) ==> id is None
                && final(self)@ == old(self)@,
            !has_name(old(self)@, name@) && !has_handle(old(self)@, handle) ==> id == Some(
                old(self)@.len() as usize,
            ) && final(self)@ == old(self)@.push(ModuleInfoView { main, name: name@, handle }),
    {
        if self.get_id(name.as_str()).is_some() {
            return None;
        }
        if self.get_info(handle).is_some() {
            return None;
        }
        let id = self.infos.len();
        self.infos.push(ModuleInfo { main, name, handle });
        assert(self@ =~= old(self)@.push(ModuleInfoView { main, name: name@, handle }));
        Some(id)
    }
}

/// Why a specifier was not resolved to a module while a graph was linked.
/// Either way a contract with the host is broken.
#[derive(Debug, PartialEq, Eq)]
pub enum ResolveError<E> {
    /// The loader refused a specifier that it should have resolved before.
    NotPreResolved(E),
    /// The loader's answer names no registered module. The message is for
    /// the type error that tells the engine so.
    NotFound { message: String },
}

/// The message for a specifier that leads to no registered module.
pub open spec fn cannot_resolve_text(specifier: Seq<char>, referrer: Seq<char>) -> Seq<char> {
    "Cannot resolve module \""@ + specifier + "\" from \""@ + referrer + "\""@
}

/// `outcome` is what the resolution of `specifier` from the module named
/// `referrer` comes to when the loader answered `resolved`.
pub open spec fn linked<E>(
    graph: Seq<ModuleInfoView>,
    specifier: Seq<char>,
    referrer: Seq<char>,
    resolved: Result<String, E>,
    outcome: Result<Handle, ResolveError<E>>,
) -> bool {
    match resolved {
        Err(error) => outcome == Err::<Handle, ResolveError<E>>(
            ResolveError::NotPreResolved(error),
        ),
        Ok(name) => if has_name(graph, name@) {
            exists|id: int| #[trigger]
                first_with_name(graph, name@, id) && outcome == Ok::<Handle, ResolveError<E>>(
                    graph[id].handle,
                )
        } else {
            outcome matches Err(ResolveError::NotFound { message }) && message@
                == cannot_resolve_text(specifier, referrer)
        },
    }
}

/// Resolution never fails for a specifier that is present in the graph: if
/// the loader resolves it to the name of a registered module, the outcome is
/// that module's engine object.
pub proof fn present_specifier_resolves<E>(
    graph: Seq<ModuleInfoView>,
    specifier: Seq<char>,
    referrer: Seq<char>,
    name: String,
    id: int,
    outcome: Result<Handle, ResolveError<E>>,
)
    requires
        first_with_name(graph, name@, id),
        linked(graph, specifier, referrer, Ok::<String, E>(name), outcome),
    ensures
        outcome == Ok::<Handle, ResolveError<E>>(graph[id].handle),
{
    let found = choose|found: int| #[trigger]
        first_with_name(graph, name@, found) && outcome == Ok::<Handle, ResolveError<E>>(
            graph[found].handle,
        );
    if found < id {
        assert(graph[found].name != name@);
    } else if id < found {
        assert(graph[id].name != name@);
    }
}

/// Builds the message for a specifier that leads to no registered module.
pub fn cannot_resolve_message(specifier: &str, referrer: &str) -> (message: String)
    ensures
        message@ == cannot_resolve_text(specifier@, referrer@),
{
    let mut message = "Cannot resolve module \"".to_owned();
    message.append(specifier);
    message.append("\" from \"");
    message.append(referrer);
    message.append("\"");
    message
}

/// Finds the module that the loader's answer names.
pub fn link_resolved<E>(
    modules: &Modules,
    specifier: &str,
    referrer: &str,
    resolved: Result<String, E>,
) -> (outcome: Result<Handle, ResolveError<E>>)
    ensures
        linked(modules@, specifier@, referrer@, resolved, outcome),
{
    match resolved {
        Err(error) => Err(ResolveError::NotPreResolved(error)),
        Ok(name) => {
            if let Some(id) = modules.get_id(name.as_str()) {
                if let Some(handle) = modules.get_handle(id) {
                    assert(has_name(modules@, name@));
                    return Ok(handle);
                }
            }
            Err(ResolveError::NotFound { message: cannot_resolve_message(specifier, referrer) })
        },
    }
}

/// The loader accepts the question that resolving `specifier` from the module
/// `referrer` puts to it: specifier, name of the referrer, and `false` for a
/// static import.
pub open spec fn loader_accepts<E, F: Fn(&str, &str, bool) -> Result<String, E>>(
    graph: Seq<ModuleInfoView>,
    loader: F,
    specifier: &str,
    referrer: Handle,
) -> bool {
    forall|id: int, name: &str|
        #![trigger first_with_handle(graph, referrer, id), name@]
        first_with_handle(graph, referrer, id) && name@ == graph[id].name ==> call_requires(
            loader,
            (specifier, name, false),
        )
}

/// The loader answers the question of [`loader_accepts`] with a resolved
/// specifier, whatever else it may do: a specifier that is linked statically
/// was resolved before, when the graph was built.
pub open spec fn loader_resolves<E, F: Fn(&str, &str, bool) -> Result<String, E>>(
    graph: Seq<ModuleInfoView>,
    loader: F,
    specifier: &str,
    referrer: Handle,
) -> bool {
    forall|id: int, name: &str, answer: Result<String, E>|
        #![trigger
            first_with_handle(graph, referrer, id),
            call_ensures(loader, (specifier, name, false), answer)
        ]
        first_with_handle(graph, referrer, id) && name@ == graph[id].name && call_ensures(
            loader,
            (specifier, name, false),
            answer,
        ) ==> answer is Ok
}

/// `outcome` is what resolving `specifier` from the module with the engine
/// object `referrer` may come to: the loader was asked for a static import of
/// `specifier` from the name of the referrer, and its answer was linked.
pub open spec fn resolved_statically<E, F: Fn(&str, &str, bool) -> Result<String, E>>(
    graph: Seq<ModuleInfoView>,
    loader: F,
    specifier: &str,
    referrer: Handle,
    outcome: Result<Handle, ResolveError<E>>,
) -> bool {
    exists|id: int, name: &str, answer: Result<String, E>|
        #![trigger
            first_with_handle(graph, referrer, id),
            call_ensures(loader, (specifier, name, false), answer)
        ]
        {
            &&& first_with_handle(graph, referrer, id)
            &&& name@ == graph[id].name
            &&& call_ensures(loader, (specifier, name, false), answer)
            &&& linked(graph, specifier@, graph[id].name, answer, outcome)
        }
}

/// Resolves `specifier`, imported by the module whose engine object is
/// `referrer`, to the engine object of a registered module. `loader` is the
/// host's resolver: it takes specifier, referrer name and whether the import
/// is dynamic, and is asked here for a static import. The referrer must be
/// registered, and the loader must be one that resolves the specifier: either
/// failure breaks the contract with the host and is not accepted. What is
/// left to report is a resolved specifier that names no registered module.
pub fn module_resolve_callback<E, F: Fn(&str, &str, bool) -> Result<String, E>>(
    modules: &Modules,
    loader: &F,
    specifier: &str,
    referrer: Handle,
) -> (outcome: Result<Handle, ResolveError<E>>)
    requires
        has_handle(modules@, referrer),
        loader_accepts(modules@, *loader, specifier, referrer),
        loader_resolves(modules@, *loader, specifier, referrer),
    ensures
        resolved_statically(modules@, *loader, specifier, referrer, outcome),
        outcome matches Ok(handle) ==> has_handle(modules@, handle),
        outcome matches Err(error) ==> error is NotFound,
{
    let referrer_name = match modules.get_info(referrer) {
        Some(info) => info.name.clone(),
        None => String::new(),
    };
    let name = referrer_name.as_str();
    let ghost id = choose|id: int|
        first_with_handle(modules@, referrer, id) && referrer_name@ == modules@[id].name;
    let resolved = loader(specifier, name, false);
    let ghost answer = resolved;
    let outcome = link_resolved(modules, specifier, name, resolved);
    proof {
        assert(call_ensures(*loader, (specifier, name, false), answer));
        assert(linked(modules@, specifier@, modules@[id].name, answer, outcome));
    }
    outcome
}

/// The value of a property of a meta object.
#[derive(Debug, PartialEq, Eq)]
pub enum MetaValue {
    Text(String),
    Boolean(bool),
}

/// A meta value with its text as a sequence of characters.
pub enum MetaValueView {
    Text(Seq<char>),
    Boolean(bool),
}

impl View for MetaValue {
    type V = MetaValueView;

    open spec fn view(&self) -> MetaValueView {
        match self {
            MetaValue::Text(text) => MetaValueView::Text(text@),
            MetaValue::Boolean(flag) => MetaValueView::Boolean(*flag),
        }
    }
}

/// One property to define on the object that a module reads as its
/// `import.meta`.
#[derive(Debug, PartialEq, Eq)]
pub struct MetaProperty {
    pub key: String,
    pub value: MetaValue,
    /// Whether script code is kept from assigning to the property.
    pub read_only: bool,
}

/// A meta property with its texts as sequences of characters.
pub struct MetaPropertyView {
    pub key: Seq<char>,
    pub value: MetaValueView,
    pub read_only: bool,
}

impl View for MetaProperty {
    type V = MetaPropertyView;

    open spec fn view(&self) -> MetaPropertyView {
        MetaPropertyView { key: self.key@, value: self.value@, read_only: self.read_only }
    }
}

/// The properties of the meta object of `info`: `url` is its resolved
/// specifier and `main` tells whether it is the entry module. Both are
/// read-only, and there is no other property.
pub open spec fn import_meta_of(info: ModuleInfoView) -> Seq<MetaPropertyView> {
    seq![
        MetaPropertyView {
            key: "url"@,
            value: MetaValueView::Text(info.name),
            read_only: true,
        },
        MetaPropertyView {
            key: "main"@,
            value: MetaValueView::Boolean(info.main),
            read_only: true,
        },
    ]
}

/// The keys, values and attributes of `properties`, in order.
pub open spec fn meta_views(properties: Seq<MetaProperty>) -> Seq<MetaPropertyView> {
    properties.map_values(|property: MetaProperty| property@)
}

/// Lists the properties to define on the meta object of the module whose
/// engine object is `module`, which must be registered.
pub fn host_initialize_import_meta_object_callback(modules: &Modules, module: Handle) -> (meta:
    Vec<MetaProperty>)
    requires
        has_handle(modules@, module),
    ensures
        exists|id: int| #[trigger]
            first_with_handle(modules@, module, id) && meta_views(meta@) == import_meta_of(
                modules@[id],
            ),
{
    let mut meta: Vec<MetaProperty> = Vec::new();
    if let Some(info) = modules.get_info(module) {
        let ghost id = choose|id: int|
            first_with_handle(modules@, module, id) && info@ == modules@[id];
        meta.push(
            MetaProperty {
                key: "url".to_owned(),
                value: MetaValue::Text(info.name.clone()),
                read_only: true,
            },
        );
        meta.push(
            MetaProperty {
                key: "main".to_owned(),
                value: MetaValue::Boolean(info.main),
                read_only: true,
            },
        );
        assert(meta_views(meta@) =~= import_meta_of(modules@[id]));
    }
    meta
}

/// The module, or the script, in which a dynamic import stands.
#[derive(Debug, PartialEq, Eq)]
pub struct ScriptOrModule {
    pub resource_name: String,
    /// Number of options that the host attached to it.
    pub host_defined_options: usize,
}

/// A deferred value made by the engine: the resolver that settles it, and
/// the promise that script code holds.
#[derive(Clone, Copy, Debug, PartialEq, Eq, Structural)]
pub struct Deferred {
    pub resolver: Handle,
    pub promise: Handle,
}

/// A dynamic import that waits to be loaded.
#[derive(Debug, PartialEq, Eq)]
pub struct DynImportRequest {
    pub id: u64,
    pub specifier: String,
    pub referrer: String,
}

/// A waiting dynamic import with its texts as sequences of characters.
pub struct DynImportRequestView {
    pub id: u64,
    pub specifier: Seq<char>,
    pub referrer: Seq<char>,
}

impl View for DynImportRequest {
    type V = DynImportRequestView;

    open spec fn view(&self) -> DynImportRequestView {
        DynImportRequestView { id: self.id, specifier: self.specifier@, referrer: self.referrer@ }
    }
}

/// How the deferred value of a dynamic import is settled in the end.
#[derive(Clone, Copy, Debug, PartialEq, Eq, Structural)]
pub enum Settlement {
    /// Resolve with the namespace of the loaded module.
    Resolve { resolver: Handle, namespace: Handle },
    /// Reject with the error that loading ended in.
    Reject { resolver: Handle, error: Handle },
}

/// The settlement of the dynamic import `id`, which ended in `loaded`.
pub open spec fn settlement(
    resolvers: Map<u64, Handle>,
    id: u64,
    loaded: Result<Handle, Handle>,
) -> Settlement {
    match loaded {
        Ok(namespace) => Settlement::Resolve { resolver: resolvers[id], namespace },
        Err(error) => Settlement::Reject { resolver: resolvers[id], error },
    }
}

/// A dynamic import that cannot be loaded rejects the promise that its
/// request returned: the settlement for the failure is a rejection, through
/// the resolver that was recorded for the request.
pub proof fn failed_import_rejects_its_promise(
    resolvers: Map<u64, Handle>,
    id: u64,
    deferred: Deferred,
    error: Handle,
)
    ensures
        settlement(resolvers.insert(id, deferred.resolver), id, Err(error)) == (Settlement::Reject {
            resolver: deferred.resolver,
            error,
        }),
{
}

/// The dynamic imports of a runtime instance: the resolvers of those that are
/// not settled yet, and the requests that the driver has not taken yet.
pub struct DynamicImports {
    resolvers: HashMap<u64, Handle>,
    next_id: u64,
    requests: Vec<DynImportRequest>,
}

impl DynamicImports {
    /// Every recorded resolver has an id that was handed out already.
    pub closed spec fn wf(&self) -> bool {
        forall|id: u64| #[trigger] self.resolvers@.contains_key(id) ==> id < self.next_id
    }

    /// The resolvers of the imports that are not settled.
    pub closed spec fn resolvers(&self) -> Map<u64, Handle> {
        self.resolvers@
    }

    /// The id that the next dynamic import gets.
    pub closed spec fn next_id(&self) -> u64 {
        self.next_id
    }

    /// The requests that wait for the driver, oldest first.
    pub closed spec fn requests(&self) -> Seq<DynImportRequestView> {
        self.requests@.map_values(|request: DynImportRequest| request@)
    }

    /// No dynamic import yet.
    pub fn new() -> (imports: Self)
        ensures
            imports.wf(),
            imports.resolvers() == Map::<u64, Handle>::empty(),
            imports.next_id() == 0,
            imports.requests() == Seq::<DynImportRequestView>::empty(),
    {
        let imports = DynamicImports {
            resolvers: HashMap::new(),
            next_id: 0,
            requests: Vec::new(),
        };
        assert(imports.requests() =~= Seq::<DynImportRequestView>::empty());
        imports
    }

    /// Whether ids are left to hand out.
    pub fn has_room(&self) -> (room: bool)
        ensures
            room == (self.next_id() < u64::MAX),
    {
        self.next_id < u64::MAX
    }

    /// Whether the dynamic import `id` waits to be settled.
    pub fn is_pending(&self, id: u64) -> (pending: bool)
        ensures
            pending == self.resolvers().contains_key(id),
    {
        self.resolvers.contains_key(&id)
    }

    /// Takes the waiting requests, for the driver to load them.
    pub fn take_requests(&mut self) -> (requests: Vec<DynImportRequest>)
        requires
            old(self).wf(),
        ensures
            final(self).wf(),
            requests@.map_values(|request: DynImportRequest| request@) == old(self).requests(),
            final(self).requests() == Seq::<DynImportRequestView>::empty(),
            final(self).resolvers() == old(self).resolvers(),
            final(self).next_id() == old(self).next_id(),
    {
        let mut taken: Vec<DynImportRequest> = Vec::new();
        core::mem::swap(&mut taken, &mut self.requests);
        assert(self.requests() =~= Seq::<DynImportRequestView>::empty());
        taken
    }

    /// Settles the dynamic import `id`, which must be pending, with what
    /// loading ended in, and forgets its resolver.
    pub fn dyn_import_done(&mut self, id: u64, loaded: Result<Handle, Handle>) -> (settled:
        Settlement)
        requires
            old(self).wf(),
            old(self).resolvers().contains_key(id),
        ensures
            final(self).wf(),
            settled == settlement(old(self).resolvers(), id, loaded),
            final(self).resolvers() == old(self).resolvers().remove(id),
            final(self).next_id() == old(self).next_id(),
            final(self).requests() == old(self).requests(),
    {
        let resolver = match self.resolvers.remove(&id) {
            Some(resolver) => resolver,
            None => 0,
        };
        match loaded {
            Ok(namespace) => Settlement::Resolve { resolver, namespace },
            Err(error) => Settlement::Reject { resolver, error },
        }
    }
}

/// Answers a dynamic import at once with the promise of `deferred`. The
/// resolver is recorded under a fresh id, and the request is queued for the
/// driver, which loads off the synchronous path. Nothing fails here, whatever
/// the specifier is. A referrer with host-defined options is not accepted.
pub fn host_import_module_dynamically_callback(
    imports: &mut DynamicImports,
    referrer: &ScriptOrModule,
    specifier: &str,
    deferred: Deferred,
) -> (promise: Handle)
    requires
        old(imports).wf(),
        old(imports).next_id() < u64::MAX,
        referrer.host_defined_options == 0,
    ensures
        final(imports).wf(),
        promise == deferred.promise,
        !old(imports).resolvers().contains_key(old(imports).next_id()),
        final(imports).resolvers() == old(imports).resolvers().insert(
            old(imports).next_id(),
            deferred.resolver,
        ),
        final(imports).next_id() == old(imports).next_id() + 1,
        final(imports).requests() == old(imports).requests().push(
            DynImportRequestView {
                id: old(imports).next_id(),
                specifier: specifier@,
                referrer: referrer.resource_name@,
            },
        ),
{
    let id = imports.next_id;
    imports.resolvers.insert(id, deferred.resolver);
    imports.next_id = id + 1;
    imports.requests.push(
        DynImportRequest {
            id,
            specifier: specifier.to_owned(),
            referrer: referrer.resource_name.clone(),
        },
    );
    assert(imports.requests() =~= old(imports).requests().push(
        DynImportRequestView { id, specifier: specifier@, referrer: referrer.resource_name@ },
    ));
    deferred.promise
}

} // verus!
