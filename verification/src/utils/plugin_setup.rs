use vstd::prelude::*;

use super::macros::ErrorLevel;
use super::plugin::{PluginCapabilities, PluginImplementation};

verus! {

/// One of the two contracts of entry points that a plugin can satisfy.
#[derive(Clone, Copy, Debug, PartialEq, Eq)]
pub enum PluginRole {
    Backend,
    Frontend,
}

/// A member of a contract. Both contracts have the same five members, under
/// different symbol names.
#[derive(Clone, Copy, Debug, PartialEq, Eq)]
pub enum EntryPoint {
    Name,
    Startup,
    Shutdown,
    Data,
    Tests,
}

/// The symbol by which every plugin declares its capabilities.
pub open spec fn capabilities_symbol_text() -> Seq<char> {
    "capabilities"@
}

/// The symbol by which a library exposes a member of a contract.
pub open spec fn symbol_text(role: PluginRole, entry: EntryPoint) -> Seq<char> {
    match (role, entry) {
        (PluginRole::Backend, EntryPoint::Name) => "name"@,
        (PluginRole::Backend, EntryPoint::Startup) => "backend_startup"@,
        (PluginRole::Backend, EntryPoint::Shutdown) => "backend_shutdown"@,
        (PluginRole::Backend, EntryPoint::Data) => "dbus_interface"@,
        (PluginRole::Backend, EntryPoint::Tests) => "backend_tests"@,
        (PluginRole::Frontend, EntryPoint::Name) => "frontend_name"@,
        (PluginRole::Frontend, EntryPoint::Startup) => "frontend_startup"@,
        (PluginRole::Frontend, EntryPoint::Shutdown) => "frontend_shutdown"@,
        (PluginRole::Frontend, EntryPoint::Data) => "frontend_data"@,
        (PluginRole::Frontend, EntryPoint::Tests) => "frontend_tests"@,
    }
}

pub fn capabilities_symbol() -> (symbol: &'static str)
    ensures
        symbol@ == capabilities_symbol_text(),
{
    "capabilities"
}

pub fn symbol_name(role: PluginRole, entry: EntryPoint) -> (symbol: &'static str)
    ensures
        symbol@ == symbol_text(role, entry),
{
    match (role, entry) {
        (PluginRole::Backend, EntryPoint::Name) => "name",
        (PluginRole::Backend, EntryPoint::Startup) => "backend_startup",
        (PluginRole::Backend, EntryPoint::Shutdown) => "backend_shutdown",
        (PluginRole::Backend, EntryPoint::Data) => "dbus_interface",
        (PluginRole::Backend, EntryPoint::Tests) => "backend_tests",
        (PluginRole::Frontend, EntryPoint::Name) => "frontend_name",
        (PluginRole::Frontend, EntryPoint::Startup) => "frontend_startup",
        (PluginRole::Frontend, EntryPoint::Shutdown) => "frontend_shutdown",
        (PluginRole::Frontend, EntryPoint::Data) => "frontend_data",
        (PluginRole::Frontend, EntryPoint::Tests) => "frontend_tests",
    }
}

/// Whether a plugin that declares `implementation` is held to the contract
/// of `role`.
pub open spec fn declares(implementation: PluginImplementation, role: PluginRole) -> bool {
    match (implementation, role) {
        (PluginImplementation::Both, _) => true,
        (PluginImplementation::Backend, PluginRole::Backend) => true,
        (PluginImplementation::Frontend, PluginRole::Frontend) => true,
        _ => false,
    }
}

pub fn attempts(implementation: PluginImplementation, role: PluginRole) -> (attempted: bool)
    ensures
        attempted == declares(implementation, role),
{
    match (implementation, role) {
        (PluginImplementation::Both, _) => true,
        (PluginImplementation::Backend, PluginRole::Backend) => true,
        (PluginImplementation::Frontend, PluginRole::Frontend) => true,
        _ => false,
    }
}

/// What looking up the five members of one contract in one library gave:
/// for each member the entry point, or nothing where the symbol is missing.
pub struct ContractSymbols<P> {
    pub name: Option<P>,
    pub startup: Option<P>,
    pub shutdown: Option<P>,
    pub data: Option<P>,
    pub tests: Option<P>,
}

impl<P> ContractSymbols<P> {
    /// Whether every member of the contract was found.
    pub open spec fn complete(&self) -> bool {
        &&& self.name is Some
        &&& self.startup is Some
        &&& self.shutdown is Some
        &&& self.data is Some
        &&& self.tests is Some
    }

    /// The first member, in the contract's order, that was not found.
    pub open spec fn first_missing(&self) -> Option<EntryPoint> {
        if self.name is None {
            Some(EntryPoint::Name)
        } else if self.startup is None {
            Some(EntryPoint::Startup)
        } else if self.shutdown is None {
            Some(EntryPoint::Shutdown)
        } else if self.data is None {
            Some(EntryPoint::Data)
        } else if self.tests is None {
            Some(EntryPoint::Tests)
        } else {
            None
        }
    }

    /// A lookup in which no member was found.
    pub fn none() -> (symbols: Self)
        ensures
            symbols.name is None,
            symbols.startup is None,
            symbols.shutdown is None,
            symbols.data is None,
            symbols.tests is None,
    {
        ContractSymbols { name: None, startup: None, shutdown: None, data: None, tests: None }
    }
}

/// The bound entry points of a plugin's backend role, with the capabilities
/// the plugin declared.
pub struct BackendPluginFunctions<P> {
    /// Where the library that the entry points come from stands among the
    /// loaded libraries.
    pub library: usize,
    pub capabilities: Vec<&'static str>,
    pub startup: P,
    pub shutdown: P,
    pub name: P,
    pub data: P,
    pub tests: P,
}

impl<P> BackendPluginFunctions<P> {
    pub fn new(
        library: usize,
        capabilities: Vec<&'static str>,
        backend_startup: P,
        shutdown: P,
        name: P,
        data: P,
        tests: P,
    ) -> (table: Self)
        ensures
            table.library == library,
            table.capabilities == capabilities,
            table.startup == backend_startup,
            table.shutdown == shutdown,
            table.name == name,
            table.data == data,
            table.tests == tests,
    {
        BackendPluginFunctions {
            library,
            capabilities,
            startup: backend_startup,
            shutdown,
            name,
            data,
            tests,
        }
    }

    /// Whether the table holds exactly the declared capabilities and the
    /// entry points that the lookup found.
    pub open spec fn binds(
        &self,
        library: usize,
        capabilities: Seq<&'static str>,
        symbols: ContractSymbols<P>,
    ) -> bool {
        &&& self.library == library
        &&& self.capabilities@ == capabilities
        &&& symbols.name == Some(self.name)
        &&& symbols.startup == Some(self.startup)
        &&& symbols.shutdown == Some(self.shutdown)
        &&& symbols.data == Some(self.data)
        &&& symbols.tests == Some(self.tests)
    }
}

/// The bound entry points of a plugin's frontend role, with the
/// capabilities the plugin declared.
pub struct FrontendPluginFunctions<P> {
    /// Where the library that the entry points come from stands among the
    /// loaded libraries.
    pub library: usize,
    pub capabilities: Vec<&'static str>,
    pub frontend_name: P,
    pub frontend_startup: P,
    pub frontend_shutdown: P,
    pub frontend_data: P,
    pub frontend_tests: P,
}

impl<P> FrontendPluginFunctions<P> {
    pub fn new(
        library: usize,
        capabilities: Vec<&'static str>,
        frontend_name: P,
        frontend_startup: P,
        frontend_shutdown: P,
        frontend_data: P,
        frontend_tests: P,
    ) -> (table: Self)
        ensures
            table.library == library,
            table.capabilities == capabilities,
            table.frontend_name == frontend_name,
            table.frontend_startup == frontend_startup,
            table.frontend_shutdown == frontend_shutdown,
            table.frontend_data == frontend_data,
            table.frontend_tests == frontend_tests,
    {
        FrontendPluginFunctions {
            library,
            capabilities,
            frontend_name,
            frontend_startup,
            frontend_shutdown,
            frontend_data,
            frontend_tests,
        }
    }

    /// Whether the table holds exactly the declared capabilities and the
    /// entry points that the lookup found.
    pub open spec fn binds(
        &self,
        library: usize,
        capabilities: Seq<&'static str>,
        symbols: ContractSymbols<P>,
    ) -> bool {
        &&& self.library == library
        &&& self.capabilities@ == capabilities
        &&& symbols.name == Some(self.frontend_name)
        &&& symbols.startup == Some(self.frontend_startup)
        &&& symbols.shutdown == Some(self.frontend_shutdown)
        &&& symbols.data == Some(self.frontend_data)
        &&& symbols.tests == Some(self.frontend_tests)
    }
}

/// A plugin that declared a role and does not satisfy its contract.
#[derive(Clone, Copy, Debug, PartialEq, Eq)]
pub struct BindFailure {
    /// Where the library stands among the loaded libraries.
    pub library: usize,
    pub role: PluginRole,
    pub missing: EntryPoint,
}

impl BindFailure {
    /// A plugin that does not keep the contract of a role it declared is
    /// wrongly built: that is critical for the plugin.
    pub open spec fn severity(&self) -> ErrorLevel {
        ErrorLevel::Critical
    }

    /// What the failure says, in words: it names the symbol that is
    /// missing.
    pub open spec fn text(&self) -> Seq<char> {
        "Failed to load plugin function: "@ + symbol_text(self.role, self.missing)
    }

    pub fn level(&self) -> (level: ErrorLevel)
        ensures
            level == self.severity(),
    {
        ErrorLevel::Critical
    }

    pub fn message(&self) -> (message: String)
        ensures
            message@ == self.text(),
    {
        let mut message = String::from_str("Failed to load plugin function: ");
        message.append(symbol_name(self.role, self.missing));
        message
    }
}

/// Binds the backend contract: the function table where every member was
/// found, and otherwise no table at all, with the first missing member.
pub fn bind_backend<P>(
    library: usize,
    capabilities: &PluginCapabilities,
    symbols: ContractSymbols<P>,
) -> (result: Result<BackendPluginFunctions<P>, BindFailure>)
    ensures
        symbols.complete() <==> result is Ok,
        result matches Ok(table) ==> table.binds(library, capabilities.names(), symbols),
        result matches Err(failure) ==> failure.library == library && failure.role
            == PluginRole::Backend && Some(failure.missing) == symbols.first_missing(),
{
    let ContractSymbols { name, startup, shutdown, data, tests } = symbols;
    let name = match name {
        Some(found) => found,
        None => {
            return Err(
                BindFailure { library, role: PluginRole::Backend, missing: EntryPoint::Name },
            );
        },
    };
    let startup = match startup {
        Some(found) => found,
        None => {
            return Err(
                BindFailure { library, role: PluginRole::Backend, missing: EntryPoint::Startup },
            );
        },
    };
    let shutdown = match shutdown {
        Some(found) => found,
        None => {
            return Err(
                BindFailure { library, role: PluginRole::Backend, missing: EntryPoint::Shutdown },
            );
        },
    };
    let data = match data {
        Some(found) => found,
        None => {
            return Err(
                BindFailure { library, role: PluginRole::Backend, missing: EntryPoint::Data },
            );
        },
    };
    let tests = match tests {
        Some(found) => found,
        None => {
            return Err(
                BindFailure { library, role: PluginRole::Backend, missing: EntryPoint::Tests },
            );
        },
    };
    Ok(
        BackendPluginFunctions::new(
            library,
            capabilities.get_capabilities(),
            startup,
            shutdown,
            name,
            data,
            tests,
        ),
    )
}

/// Binds the frontend contract: the function table where every member was
/// found, and otherwise no table at all, with the first missing member.
pub fn bind_frontend<P>(
    library: usize,
    capabilities: &PluginCapabilities,
    symbols: ContractSymbols<P>,
) -> (result: Result<FrontendPluginFunctions<P>, BindFailure>)
    ensures
        symbols.complete() <==> result is Ok,
        result matches Ok(table) ==> table.binds(library, capabilities.names(), symbols),
        result matches Err(failure) ==> failure.library == library && failure.role
            == PluginRole::Frontend && Some(failure.missing) == symbols.first_missing(),
{
    let ContractSymbols { name, startup, shutdown, data, tests } = symbols;
    let name = match name {
        Some(found) => found,
        None => {
            return Err(
                BindFailure { library, role: PluginRole::Frontend, missing: EntryPoint::Name },
            );
        },
    };
    let startup = match startup {
        Some(found) => found,
        None => {
            return Err(
                BindFailure { library, role: PluginRole::Frontend, missing: EntryPoint::Startup },
            );
        },
    };
    let shutdown = match shutdown {
        Some(found) => found,
        None => {
            return Err(
                BindFailure { library, role: PluginRole::Frontend, missing: EntryPoint::Shutdown },
            );
        },
    };
    let data = match data {
        Some(found) => found,
        None => {
            return Err(
                BindFailure { library, role: PluginRole::Frontend, missing: EntryPoint::Data },
            );
        },
    };
    let tests = match tests {
        Some(found) => found,
        None => {
            return Err(
                BindFailure { library, role: PluginRole::Frontend, missing: EntryPoint::Tests },
            );
        },
    };
    Ok(
        FrontendPluginFunctions::new(
            library,
            capabilities.get_capabilities(),
            name,
            startup,
            shutdown,
            data,
            tests,
        ),
    )
}

/// Where the one-time build of the registry stands.
#[derive(Clone, Copy, Debug, PartialEq, Eq)]
pub enum RegistryState {
    Uninitialized,
    Loading,
    Loaded,
}

/// What a caller that asks for the registry has to do.
#[derive(Clone, Copy, Debug, PartialEq, Eq)]
pub enum AccessAction {
    /// Scan, load and bind, then report that the build is done.
    Build,
    /// Another caller builds: wait until the registry is loaded.
    Wait,
    /// The registry is complete: read it.
    Read,
}

/// The state that an access leaves behind.
pub open spec fn state_after_access(state: RegistryState) -> RegistryState {
    match state {
        RegistryState::Uninitialized => RegistryState::Loading,
        RegistryState::Loading => RegistryState::Loading,
        RegistryState::Loaded => RegistryState::Loaded,
    }
}

/// What an access in a given state has to do.
pub open spec fn action_on_access(state: RegistryState) -> AccessAction {
    match state {
        RegistryState::Uninitialized => AccessAction::Build,
        RegistryState::Loading => AccessAction::Wait,
        RegistryState::Loaded => AccessAction::Read,
    }
}

/// The state after the builder reports that the build is done.
pub open spec fn state_after_build(state: RegistryState) -> RegistryState {
    match state {
        RegistryState::Loading => RegistryState::Loaded,
        other => other,
    }
}

/// How far a state is along `Uninitialized`, `Loading`, `Loaded`.
pub open spec fn progress(state: RegistryState) -> nat {
    match state {
        RegistryState::Uninitialized => 0,
        RegistryState::Loading => 1,
        RegistryState::Loaded => 2,
    }
}

/// One step of the guarded one-time initialisation: the state that the
/// access leaves behind, and what the caller has to do.
pub fn on_access(state: RegistryState) -> (step: (RegistryState, AccessAction))
    ensures
        step.0 == state_after_access(state),
        step.1 == action_on_access(state),
{
    match state {
        RegistryState::Uninitialized => (RegistryState::Loading, AccessAction::Build),
        RegistryState::Loading => (RegistryState::Loading, AccessAction::Wait),
        RegistryState::Loaded => (RegistryState::Loaded, AccessAction::Read),
    }
}

/// The step that the builder takes when the build is done.
pub fn on_built(state: RegistryState) -> (next: RegistryState)
    ensures
        next == state_after_build(state),
{
    match state {
        RegistryState::Loading => RegistryState::Loaded,
        other => other,
    }
}

/// What happens to the registry's state, one event at a time.
pub enum RegistryEvent {
    /// Some caller asks for the registry.
    Access,
    /// The builder reports that the build is done.
    Built,
}

/// The state after a run of events, from a given state.
pub open spec fn state_after(start: RegistryState, events: Seq<RegistryEvent>) -> RegistryState
    decreases events.len(),
{
    if events.len() == 0 {
        start
    } else {
        let before = state_after(start, events.drop_last());
        match events.last() {
            RegistryEvent::Access => state_after_access(before),
            RegistryEvent::Built => state_after_build(before),
        }
    }
}

/// How many callers were told to build during a run of events.
pub open spec fn builds_during(start: RegistryState, events: Seq<RegistryEvent>) -> nat
    decreases events.len(),
{
    if events.len() == 0 {
        0
    } else {
        let before = state_after(start, events.drop_last());
        let earlier = builds_during(start, events.drop_last());
        match events.last() {
            RegistryEvent::Access => if action_on_access(before) == AccessAction::Build {
                earlier + 1
            } else {
                earlier
            },
            RegistryEvent::Built => earlier,
        }
    }
}

/// How many accesses a run of events holds.
pub open spec fn accesses_in(events: Seq<RegistryEvent>) -> nat
    decreases events.len(),
{
    if events.len() == 0 {
        0
    } else if events.last() is Access {
        accesses_in(events.drop_last()) + 1
    } else {
        accesses_in(events.drop_last())
    }
}

/// The state only moves forward: whatever the events, it never returns to
/// an earlier one, and `Loaded` is final.
pub proof fn lemma_state_is_monotonic(start: RegistryState, events: Seq<RegistryEvent>)
    ensures
        progress(start) <= progress(state_after(start, events)),
        start is Loaded ==> state_after(start, events) is Loaded,
    decreases events.len(),
{
    if events.len() > 0 {
        lemma_state_is_monotonic(start, events.drop_last());
    }
}

/// However many callers ask for a fresh registry, and in whatever order
/// their accesses and the builder's report arrive, exactly one of them is
/// told to build: the first. Without an access nobody builds.
pub proof fn lemma_exactly_one_build(events: Seq<RegistryEvent>)
    ensures
        builds_during(RegistryState::Uninitialized, events) == if accesses_in(events) > 0 {
            1nat
        } else {
            0nat
        },
        accesses_in(events) == 0 ==> state_after(RegistryState::Uninitialized, events)
            is Uninitialized,
        accesses_in(events) > 0 ==> !(state_after(RegistryState::Uninitialized, events)
            is Uninitialized),
    decreases events.len(),
{
    if events.len() > 0 {
        lemma_exactly_one_build(events.drop_last());
    }
}

/// A registry that is loaded tells every caller to read, and stays loaded.
pub proof fn lemma_loaded_is_read_only(events: Seq<RegistryEvent>)
    ensures
        builds_during(RegistryState::Loaded, events) == 0,
        state_after(RegistryState::Loaded, events) is Loaded,
    decreases events.len(),
{
    if events.len() > 0 {
        lemma_loaded_is_read_only(events.drop_last());
    }
}

/// A dynamic library that was opened, and the file it was opened from.
pub struct LoadedLibrary<L> {
    pub handle: L,
    pub path: String,
}

/// The registry seen from outside.
pub struct RegistryView<L, P> {
    pub state: RegistryState,
    /// The opened libraries, in the order they were opened.
    pub libraries: Seq<LoadedLibrary<L>>,
    /// The files that could not be opened as libraries.
    pub load_errors: Seq<LoadError>,
    pub backend: Seq<BackendPluginFunctions<P>>,
    pub frontend: Seq<FrontendPluginFunctions<P>>,
    /// The declared roles whose contract a plugin did not satisfy.
    pub failures: Seq<BindFailure>,
}

impl<L, P> RegistryView<L, P> {
    /// Nothing is held before the build starts, and every function table
    /// and every failure belongs to a library that the registry holds.
    pub open spec fn well_formed(&self) -> bool {
        &&& self.state is Uninitialized ==> self.libraries.len() == 0 && self.load_errors.len()
            == 0 && self.backend.len() == 0 && self.frontend.len() == 0 && self.failures.len()
            == 0
        &&& forall|i: int|
            0 <= i < self.backend.len() ==> (#[trigger] self.backend[i]).library
                < self.libraries.len()
        &&& forall|i: int|
            0 <= i < self.frontend.len() ==> (#[trigger] self.frontend[i]).library
                < self.libraries.len()
        &&& forall|i: int|
            0 <= i < self.failures.len() ==> (#[trigger] self.failures[i]).library
                < self.libraries.len()
    }

    /// Whether a function table of `role` is added for these symbols.
    pub open spec fn binds_role(
        capabilities: PluginCapabilities,
        role: PluginRole,
        symbols: ContractSymbols<P>,
    ) -> bool {
        declares(capabilities.role(), role) && symbols.complete()
    }

    /// The failures that binding one contract reports: one where the role
    /// is declared and a member is missing, none otherwise.
    pub open spec fn failures_of(
        library: usize,
        capabilities: PluginCapabilities,
        role: PluginRole,
        symbols: ContractSymbols<P>,
    ) -> Seq<BindFailure> {
        if declares(capabilities.role(), role) && !symbols.complete() {
            seq![BindFailure { library, role, missing: symbols.first_missing().unwrap() }]
        } else {
            Seq::empty()
        }
    }

    /// What binding a plugin's library changes: each declared role whose
    /// contract is complete adds one function table, each declared role
    /// with a missing member adds one failure and no table, and nothing else
    /// changes.
    pub open spec fn bound(
        self,
        after: Self,
        library: usize,
        capabilities: PluginCapabilities,
        backend: ContractSymbols<P>,
        frontend: ContractSymbols<P>,
    ) -> bool {
        &&& after.state == self.state
        &&& after.libraries == self.libraries
        &&& after.load_errors == self.load_errors
        &&& if Self::binds_role(capabilities, PluginRole::Backend, backend) {
            &&& after.backend.len() == self.backend.len() + 1
            &&& after.backend.drop_last() == self.backend
            &&& after.backend.last().binds(library, capabilities.names(), backend)
        } else {
            after.backend == self.backend
        }
        &&& if Self::binds_role(capabilities, PluginRole::Frontend, frontend) {
            &&& after.frontend.len() == self.frontend.len() + 1
            &&& after.frontend.drop_last() == self.frontend
            &&& after.frontend.last().binds(library, capabilities.names(), frontend)
        } else {
            after.frontend == self.frontend
        }
        &&& after.failures == self.failures + Self::failures_of(
            library,
            capabilities,
            PluginRole::Backend,
            backend,
        ) + Self::failures_of(library, capabilities, PluginRole::Frontend, frontend)
    }

    /// What binding the first `upto` libraries changes, the lookup at each
    /// place being that of the library at that place: the function tables
    /// come in the order of the libraries, one for each role that a plugin
    /// declares and keeps the contract of; every other declared role is
    /// reported as a failure; nothing else changes.
    pub open spec fn bound_all(self, after: Self, lookups: Seq<Lookup<P>>, upto: int) -> bool {
        &&& after.state == self.state
        &&& after.libraries == self.libraries
        &&& after.load_errors == self.load_errors
        &&& backend_added(self.backend, after.backend, lookups, upto)
        &&& frontend_added(self.frontend, after.frontend, lookups, upto)
        &&& after.failures == self.failures + failures_upto(lookups, upto)
    }

    /// How many of a number of lookups have a library to belong to.
    pub open spec fn in_reach(self, lookups: nat) -> nat {
        if lookups < self.libraries.len() {
            lookups
        } else {
            self.libraries.len()
        }
    }

    /// Binding one library more, in whatever way `bind` does, goes on from
    /// what binding the libraries before it gave.
    pub proof fn lemma_bound_one_more(
        self,
        middle: Self,
        after: Self,
        lookups: Seq<Lookup<P>>,
        done: int,
    )
        requires
            0 <= done < lookups.len(),
            self.bound_all(middle, lookups, done),
            match lookups[done].capabilities {
                Some(declared) => middle.bound(
                    after,
                    done as usize,
                    declared,
                    lookups[done].backend,
                    lookups[done].frontend,
                ),
                None => after == middle,
            },
        ensures
            self.bound_all(after, lookups, done + 1),
    {
        let lookup = lookups[done];
        let backend = bound_places(lookups, PluginRole::Backend, done);
        let frontend = bound_places(lookups, PluginRole::Frontend, done);
        let backend_now = bound_places(lookups, PluginRole::Backend, done + 1);
        let frontend_now = bound_places(lookups, PluginRole::Frontend, done + 1);
        assert(failures_upto(lookups, done + 1) == failures_upto(lookups, done) + lookup.failure(
            done as usize,
            PluginRole::Backend,
        ) + lookup.failure(done as usize, PluginRole::Frontend));
        if lookup.binds(PluginRole::Backend) {
            assert(backend_now == backend.push(done));
            assert(after.backend.drop_last() == middle.backend);
            assert forall|i: int| 0 <= i < middle.backend.len() implies after.backend[i]
                == middle.backend[i] by {
                assert(after.backend.drop_last()[i] == after.backend[i]);
            }
            assert(after.backend.last() == after.backend[self.backend.len() + backend.len() as int]);
        } else {
            assert(backend_now == backend);
            assert(after.backend == middle.backend);
        }
        if lookup.binds(PluginRole::Frontend) {
            assert(frontend_now == frontend.push(done));
            assert(after.frontend.drop_last() == middle.frontend);
            assert forall|i: int| 0 <= i < middle.frontend.len() implies after.frontend[i]
                == middle.frontend[i] by {
                assert(after.frontend.drop_last()[i] == after.frontend[i]);
            }
            assert(after.frontend.last() == after.frontend[self.frontend.len()
                + frontend.len() as int]);
        } else {
            assert(frontend_now == frontend);
            assert(after.frontend == middle.frontend);
        }
        assert(backend_added(self.backend, after.backend, lookups, done + 1));
        assert(frontend_added(self.frontend, after.frontend, lookups, done + 1));
        assert(after.failures =~= self.failures + failures_upto(lookups, done + 1));
    }
}

/// What looking one library up gave: the capabilities it declares, or
/// nothing where it is no plugin, and what each contract's symbols resolved
/// to.
pub struct Lookup<P> {
    pub capabilities: Option<PluginCapabilities>,
    pub backend: ContractSymbols<P>,
    pub frontend: ContractSymbols<P>,
}

impl<P> Lookup<P> {
    /// The symbols that were looked up for a role.
    pub open spec fn symbols(&self, role: PluginRole) -> ContractSymbols<P> {
        match role {
            PluginRole::Backend => self.backend,
            PluginRole::Frontend => self.frontend,
        }
    }

    /// Whether the library gets a function table for a role: it is a
    /// plugin, declares the role and has every member of its contract.
    pub open spec fn binds(&self, role: PluginRole) -> bool {
        self.capabilities matches Some(declared) && declares(declared.role(), role)
            && self.symbols(role).complete()
    }

    /// The failure that is reported of a role: one where the library is a
    /// plugin, declares the role and lacks a member, none otherwise.
    pub open spec fn failure(&self, library: usize, role: PluginRole) -> Seq<BindFailure> {
        if self.capabilities matches Some(declared) && declares(declared.role(), role)
            && !self.symbols(role).complete() {
            seq![BindFailure { library, role, missing: self.symbols(role).first_missing().unwrap() }]
        } else {
            Seq::empty()
        }
    }
}

/// The places, among the first `upto` lookups, of the libraries that get a
/// function table for `role`, in rising order.
pub open spec fn bound_places<P>(lookups: Seq<Lookup<P>>, role: PluginRole, upto: int) -> Seq<int>
    decreases upto,
{
    if upto <= 0 || upto > lookups.len() {
        Seq::empty()
    } else if lookups[upto - 1].binds(role) {
        bound_places(lookups, role, upto - 1).push(upto - 1)
    } else {
        bound_places(lookups, role, upto - 1)
    }
}

/// The failures that the first `upto` lookups report, library by library,
/// the backend role before the frontend role.
pub open spec fn failures_upto<P>(lookups: Seq<Lookup<P>>, upto: int) -> Seq<BindFailure>
    decreases upto,
{
    if upto <= 0 || upto > lookups.len() {
        Seq::empty()
    } else {
        failures_upto(lookups, upto - 1) + lookups[upto - 1].failure(
            (upto - 1) as usize,
            PluginRole::Backend,
        ) + lookups[upto - 1].failure((upto - 1) as usize, PluginRole::Frontend)
    }
}

/// The libraries that get a function table for a role are exactly those
/// that are plugins, declare the role and keep its whole contract, each
/// once and in the order of the libraries. A library that lacks a member
/// is not among them, whatever the libraries around it do.
pub proof fn lemma_bound_places<P>(lookups: Seq<Lookup<P>>, role: PluginRole, upto: int)
    requires
        0 <= upto <= lookups.len(),
    ensures
        forall|k: int|
            0 <= k < bound_places(lookups, role, upto).len() ==> 0 <= (#[trigger] bound_places(
                lookups,
                role,
                upto,
            )[k]) < upto && lookups[bound_places(lookups, role, upto)[k]].binds(role),
        forall|k: int, l: int|
            0 <= k < l < bound_places(lookups, role, upto).len() ==> (#[trigger] bound_places(
                lookups,
                role,
                upto,
            )[k]) < (#[trigger] bound_places(lookups, role, upto)[l]),
        forall|i: int|
            0 <= i < upto && (#[trigger] lookups[i]).binds(role) ==> bound_places(
                lookups,
                role,
                upto,
            ).contains(i),
    decreases upto,
{
    if upto > 0 {
        lemma_bound_places(lookups, role, upto - 1);
        let earlier = bound_places(lookups, role, upto - 1);
        let now = bound_places(lookups, role, upto);
        if lookups[upto - 1].binds(role) {
            assert(now == earlier.push(upto - 1));
            assert(now[now.len() - 1] == upto - 1);
            assert forall|i: int| 0 <= i < upto && (#[trigger] lookups[i]).binds(
                role,
            ) implies now.contains(i) by {
                if i < upto - 1 {
                    let k = choose|k: int| 0 <= k < earlier.len() && earlier[k] == i;
                    assert(now[k] == i);
                }
            }
        } else {
            assert(now == earlier);
        }
    }
}

/// Whether `after` holds the backend function tables of `before` and then,
/// in the order of the libraries, one table for each library among the
/// first `upto` that gets one.
pub open spec fn backend_added<P>(
    before: Seq<BackendPluginFunctions<P>>,
    after: Seq<BackendPluginFunctions<P>>,
    lookups: Seq<Lookup<P>>,
    upto: int,
) -> bool {
    let places = bound_places(lookups, PluginRole::Backend, upto);
    &&& after.len() == before.len() + places.len()
    &&& forall|i: int| 0 <= i < before.len() ==> #[trigger] after[i] == before[i]
    &&& forall|k: int|
        0 <= k < places.len() ==> (#[trigger] after[before.len() + k]).binds(
            places[k] as usize,
            lookups[places[k]].capabilities.unwrap().names(),
            lookups[places[k]].backend,
        )
}

/// Whether `after` holds the frontend function tables of `before` and
/// then, in the order of the libraries, one table for each library among
/// the first `upto` that gets one.
pub open spec fn frontend_added<P>(
    before: Seq<FrontendPluginFunctions<P>>,
    after: Seq<FrontendPluginFunctions<P>>,
    lookups: Seq<Lookup<P>>,
    upto: int,
) -> bool {
    let places = bound_places(lookups, PluginRole::Frontend, upto);
    &&& after.len() == before.len() + places.len()
    &&& forall|i: int| 0 <= i < before.len() ==> #[trigger] after[i] == before[i]
    &&& forall|k: int|
        0 <= k < places.len() ==> (#[trigger] after[before.len() + k]).binds(
            places[k] as usize,
            lookups[places[k]].capabilities.unwrap().names(),
            lookups[places[k]].frontend,
        )
}

/// A file of the plugin directory that is no library. It is skipped, and
/// the scan goes on.
#[derive(Debug, PartialEq, Eq)]
pub struct LoadError {
    pub path: String,
}

impl LoadError {
    /// A file that is no library costs that file alone.
    pub open spec fn severity(&self) -> ErrorLevel {
        ErrorLevel::Recoverable
    }

    /// What the error says, in words.
    pub open spec fn text(&self) -> Seq<char> {
        "File was not a library! Please delete the faulty file: "@ + self.path@
    }

    pub fn level(&self) -> (level: ErrorLevel)
        ensures
            level == self.severity(),
    {
        ErrorLevel::Recoverable
    }

    pub fn message(&self) -> (message: String)
        ensures
            message@ == self.text(),
    {
        let mut message = String::from_str(
            "File was not a library! Please delete the faulty file: ",
        );
        message.append(self.path.as_str());
        message
    }
}

/// One attempt to open a file of the plugin directory as a library: the
/// file, and the open handle where the attempt succeeded.
pub struct LoadAttempt<L> {
    pub path: String,
    pub opened: Option<L>,
}

/// The libraries that a run of attempts opens, in the order of the attempts.
pub open spec fn opened_of<L>(attempts: Seq<LoadAttempt<L>>) -> Seq<LoadedLibrary<L>>
    decreases attempts.len(),
{
    if attempts.len() == 0 {
        Seq::empty()
    } else {
        let earlier = opened_of(attempts.drop_last());
        match attempts.last().opened {
            Some(handle) => earlier.push(LoadedLibrary { handle, path: attempts.last().path }),
            None => earlier,
        }
    }
}

/// The files that a run of attempts fails to open, in the order of the
/// attempts.
pub open spec fn failed_of<L>(attempts: Seq<LoadAttempt<L>>) -> Seq<LoadError>
    decreases attempts.len(),
{
    if attempts.len() == 0 {
        Seq::empty()
    } else {
        let earlier = failed_of(attempts.drop_last());
        match attempts.last().opened {
            Some(_) => earlier,
            None => earlier.push(LoadError { path: attempts.last().path }),
        }
    }
}

/// What two runs of attempts open one after the other is what each opens,
/// put together.
pub proof fn lemma_opened_of_both<L>(first: Seq<LoadAttempt<L>>, second: Seq<LoadAttempt<L>>)
    ensures
        opened_of(first + second) == opened_of(first) + opened_of(second),
    decreases second.len(),
{
    if second.len() == 0 {
        assert(first + second =~= first);
        assert(opened_of(first) + opened_of(second) =~= opened_of(first));
    } else {
        lemma_opened_of_both(first, second.drop_last());
        assert((first + second).drop_last() =~= first + second.drop_last());
        assert((first + second).last() == second.last());
        assert(opened_of(first + second) =~= opened_of(first) + opened_of(second));
    }
}

/// What two runs of attempts fail to open one after the other is what each
/// fails to open, put together.
pub proof fn lemma_failed_of_both<L>(first: Seq<LoadAttempt<L>>, second: Seq<LoadAttempt<L>>)
    ensures
        failed_of(first + second) == failed_of(first) + failed_of(second),
    decreases second.len(),
{
    if second.len() == 0 {
        assert(first + second =~= first);
        assert(failed_of(first) + failed_of(second) =~= failed_of(first));
    } else {
        lemma_failed_of_both(first, second.drop_last());
        assert((first + second).drop_last() =~= first + second.drop_last());
        assert((first + second).last() == second.last());
        assert(failed_of(first + second) =~= failed_of(first) + failed_of(second));
    }
}

/// A file that is no library never stands in the way of the others: with
/// or without it, wherever it comes in the directory, the same libraries
/// are loaded in the same order.
pub proof fn lemma_bad_file_is_skipped<L>(
    before: Seq<LoadAttempt<L>>,
    bad: LoadAttempt<L>,
    after: Seq<LoadAttempt<L>>,
)
    requires
        bad.opened is None,
    ensures
        opened_of(before + seq![bad] + after) == opened_of(before + after),
{
    let alone = seq![bad];
    assert(alone.drop_last() =~= Seq::<LoadAttempt<L>>::empty());
    assert(alone.last() == bad);
    assert(opened_of(alone.drop_last()) =~= Seq::<LoadedLibrary<L>>::empty());
    assert(opened_of(alone) =~= Seq::<LoadedLibrary<L>>::empty());
    lemma_opened_of_both(before, alone);
    lemma_opened_of_both(before + alone, after);
    lemma_opened_of_both(before, after);
    assert(opened_of(before) + opened_of(alone) =~= opened_of(before));
}

/// The plugins of the process: the libraries that were opened and the
/// function tables that were bound from them. It is built once and only
/// read afterwards.
pub struct PluginRegistry<L, P> {
    state: RegistryState,
    libraries: Vec<LoadedLibrary<L>>,
    load_errors: Vec<LoadError>,
    backend: Vec<BackendPluginFunctions<P>>,
    frontend: Vec<FrontendPluginFunctions<P>>,
    failures: Vec<BindFailure>,
}

impl<L, P> View for PluginRegistry<L, P> {
    type V = RegistryView<L, P>;

    closed spec fn view(&self) -> RegistryView<L, P> {
        RegistryView {
            state: self.state,
            libraries: self.libraries@,
            load_errors: self.load_errors@,
            backend: self.backend@,
            frontend: self.frontend@,
            failures: self.failures@,
        }
    }
}

impl<L, P> PluginRegistry<L, P> {
    /// A registry on which no build has started.
    pub fn new() -> (registry: Self)
        ensures
            registry@.well_formed(),
            registry@.state is Uninitialized,
            registry@.libraries.len() == 0,
            registry@.load_errors.len() == 0,
            registry@.backend.len() == 0,
            registry@.frontend.len() == 0,
            registry@.failures.len() == 0,
    {
        PluginRegistry {
            state: RegistryState::Uninitialized,
            libraries: Vec::new(),
            load_errors: Vec::new(),
            backend: Vec::new(),
            frontend: Vec::new(),
            failures: Vec::new(),
        }
    }

    /// Where the build stands.
    pub fn state(&self) -> (state: RegistryState)
        ensures
            state == self@.state,
    {
        self.state
    }

    /// Takes one access: the first caller is told to build, callers that
    /// come while it builds are told to wait, later ones to read.
    pub fn access(&mut self) -> (action: AccessAction)
        requires
            old(self)@.well_formed(),
        ensures
            final(self)@.well_formed(),
            action == action_on_access(old(self)@.state),
            final(self)@ == (RegistryView {
                state: state_after_access(old(self)@.state),
                ..old(self)@
            }),
    {
        let (next, action) = on_access(self.state);
        self.state = next;
        action
    }

    /// Takes an opened library into the registry, for good. Gives its
    /// place among the loaded libraries, or nothing, and the registry
    /// unchanged, where no build is under way.
    pub fn add_library(&mut self, handle: L, path: String) -> (place: Option<usize>)
        requires
            old(self)@.well_formed(),
        ensures
            final(self)@.well_formed(),
            old(self)@.state is Loading ==> place == Some(old(self)@.libraries.len() as usize)
                && final(self)@ == (RegistryView {
                libraries: old(self)@.libraries.push(LoadedLibrary { handle, path }),
                ..old(self)@
            }),
            !(old(self)@.state is Loading) ==> place is None && final(self)@ == old(self)@,
    {
        match self.state {
            RegistryState::Loading => {
                let place = self.libraries.len();
                self.libraries.push(LoadedLibrary { handle, path });
                Some(place)
            },
            _ => None,
        }
    }

    /// Notes a file that could not be opened as a library. The file is
    /// skipped, and what was loaded before stays as it is. Says whether a
    /// build is under way; otherwise the registry is unchanged.
    pub fn record_load_error(&mut self, path: String) -> (noted: bool)
        requires
            old(self)@.well_formed(),
        ensures
            final(self)@.well_formed(),
            noted == (old(self)@.state is Loading),
            noted ==> final(self)@ == (RegistryView {
                load_errors: old(self)@.load_errors.push(LoadError { path }),
                ..old(self)@
            }),
            !noted ==> final(self)@ == old(self)@,
    {
        match self.state {
            RegistryState::Loading => {
                self.load_errors.push(LoadError { path });
                true
            },
            _ => false,
        }
    }

    /// Takes the outcome of one attempt to open a file: the library where
    /// it was opened, a note of the file where it was not. Nothing else
    /// changes, and outside a build nothing changes at all.
    pub fn load(&mut self, attempt: LoadAttempt<L>)
        requires
            old(self)@.well_formed(),
        ensures
            final(self)@.well_formed(),
            old(self)@.state is Loading ==> final(self)@ == (RegistryView {
                libraries: old(self)@.libraries + opened_of(seq![attempt]),
                load_errors: old(self)@.load_errors + failed_of(seq![attempt]),
                ..old(self)@
            }),
            !(old(self)@.state is Loading) ==> final(self)@ == old(self)@,
    {
        proof {
            let alone = seq![attempt];
            assert(alone.drop_last() =~= Seq::<LoadAttempt<L>>::empty());
            assert(alone.last() == attempt);
            assert(opened_of(alone.drop_last()) =~= Seq::<LoadedLibrary<L>>::empty());
            assert(failed_of(alone.drop_last()) =~= Seq::<LoadError>::empty());
        }
        let ghost before = self@;
        let LoadAttempt { path, opened } = attempt;
        match opened {
            Some(handle) => {
                self.add_library(handle, path);
                proof {
                    if before.state is Loading {
                        assert(self@.libraries =~= before.libraries + opened_of(seq![attempt]));
                        assert(self@.load_errors =~= before.load_errors + failed_of(
                            seq![attempt],
                        ));
                    }
                }
            },
            None => {
                self.record_load_error(path);
                proof {
                    if before.state is Loading {
                        assert(self@.libraries =~= before.libraries + opened_of(seq![attempt]));
                        assert(self@.load_errors =~= before.load_errors + failed_of(
                            seq![attempt],
                        ));
                    }
                }
            },
        }
    }

    /// Takes the outcomes of a whole scan of the plugin directory, in the
    /// order of the attempts. Every opened library is kept, every other
    /// file is noted and skipped; no attempt keeps a later one from being
    /// taken.
    pub fn load_all(&mut self, attempts: Vec<LoadAttempt<L>>)
        requires
            old(self)@.well_formed(),
        ensures
            final(self)@.well_formed(),
            old(self)@.state is Loading ==> final(self)@ == (RegistryView {
                libraries: old(self)@.libraries + opened_of(attempts@),
                load_errors: old(self)@.load_errors + failed_of(attempts@),
                ..old(self)@
            }),
            !(old(self)@.state is Loading) ==> final(self)@ == old(self)@,
    {
        let ghost before = self@;
        let ghost all = attempts@;
        let mut rest = attempts;
        let mut reversed: Vec<LoadAttempt<L>> = Vec::new();
        while rest.len() > 0
            invariant
                rest@.len() + reversed@.len() == all.len(),
                rest@ == all.subrange(0, rest@.len() as int),
                forall|j: int|
                    0 <= j < reversed@.len() ==> reversed@[j] == all[all.len() - 1 - j],
            decreases rest@.len(),
        {
            match rest.pop() {
                Some(attempt) => {
                    reversed.push(attempt);
                },
                None => {},
            }
        }
        proof {
            assert(all.subrange(0, 0) =~= Seq::<LoadAttempt<L>>::empty());
            assert(before.libraries + opened_of(all.subrange(0, 0)) =~= before.libraries);
            assert(before.load_errors + failed_of(all.subrange(0, 0)) =~= before.load_errors);
        }
        let total = reversed.len();
        let mut done: usize = 0;
        while reversed.len() > 0
            invariant
                all.len() == total,
                done + reversed@.len() == all.len(),
                forall|j: int|
                    0 <= j < reversed@.len() ==> reversed@[j] == all[all.len() - 1 - j],
                self@.well_formed(),
                before.state is Loading ==> self@ == (RegistryView {
                    libraries: before.libraries + opened_of(all.subrange(0, done as int)),
                    load_errors: before.load_errors + failed_of(all.subrange(0, done as int)),
                    ..before
                }),
                !(before.state is Loading) ==> self@ == before,
            decreases reversed@.len(),
        {
            match reversed.pop() {
                Some(attempt) => {
                    proof {
                        let earlier = all.subrange(0, done as int);
                        let now = all.subrange(0, done + 1);
                        assert(attempt == all[done as int]);
                        assert(now =~= earlier + seq![attempt]);
                        lemma_opened_of_both(earlier, seq![attempt]);
                        lemma_failed_of_both(earlier, seq![attempt]);
                        assert(before.libraries + opened_of(earlier) + opened_of(seq![attempt])
                            =~= before.libraries + opened_of(now));
                        assert(before.load_errors + failed_of(earlier) + failed_of(seq![attempt])
                            =~= before.load_errors + failed_of(now));
                    }
                    self.load(attempt);
                    done += 1;
                },
                None => {},
            }
        }
        proof {
            assert(all.subrange(0, all.len() as int) =~= all);
        }
    }

    /// Binds one loaded library. A library without the capabilities entry
    /// point is no plugin and is passed over in silence. Of a plugin, each
    /// declared role is bound on its own: as a whole, or not at all and
    /// with a failure reported. Says whether the library was looked at:
    /// a build is under way and the library is one that the registry
    /// holds. Otherwise the registry is unchanged.
    pub fn bind(
        &mut self,
        library: usize,
        capabilities: Option<PluginCapabilities>,
        backend: ContractSymbols<P>,
        frontend: ContractSymbols<P>,
    ) -> (looked: bool)
        requires
            old(self)@.well_formed(),
        ensures
            final(self)@.well_formed(),
            looked == (old(self)@.state is Loading && library < old(self)@.libraries.len()),
            looked && capabilities is Some ==> old(self)@.bound(
                final(self)@,
                library,
                capabilities.unwrap(),
                backend,
                frontend,
            ),
            !looked || capabilities is None ==> final(self)@ == old(self)@,
    {
        match self.state {
            RegistryState::Loading => {},
            _ => {
                return false;
            },
        }
        if library >= self.libraries.len() {
            return false;
        }
        let capabilities = match capabilities {
            Some(declared) => declared,
            None => {
                return true;
            },
        };
        let ghost before = self@;
        if attempts(capabilities.get_implementation(), PluginRole::Backend) {
            match bind_backend(library, &capabilities, backend) {
                Ok(table) => {
                    self.backend.push(table);
                    proof {
                        assert(self.backend@.drop_last() =~= before.backend);
                        assert forall|i: int| 0 <= i < self.backend@.len() implies (
                        #[trigger] self.backend@[i]).library < self.libraries@.len() by {
                            if i < before.backend.len() {
                                assert(self.backend@[i] == before.backend[i]);
                            }
                        }
                    }
                },
                Err(failure) => {
                    self.failures.push(failure);
                    proof {
                        assert forall|i: int| 0 <= i < self.failures@.len() implies (
                        #[trigger] self.failures@[i]).library < self.libraries@.len() by {
                            if i < before.failures.len() {
                                assert(self.failures@[i] == before.failures[i]);
                            }
                        }
                    }
                },
            }
        }
        let ghost middle = self@;
        proof {
            assert forall|i: int| 0 <= i < middle.backend.len() implies (
            #[trigger] middle.backend[i]).library < middle.libraries.len() by {
                if i < before.backend.len() {
                    assert(middle.backend[i] == before.backend[i]);
                }
            }
            assert forall|i: int| 0 <= i < middle.frontend.len() implies (
            #[trigger] middle.frontend[i]).library < middle.libraries.len() by {
                if i < before.frontend.len() {
                    assert(middle.frontend[i] == before.frontend[i]);
                }
            }
            assert forall|i: int| 0 <= i < middle.failures.len() implies (
            #[trigger] middle.failures[i]).library < middle.libraries.len() by {
                if i < before.failures.len() {
                    assert(middle.failures[i] == before.failures[i]);
                }
            }
            assert(middle.well_formed());
            assert(middle.failures =~= before.failures + RegistryView::<L, P>::failures_of(
                library,
                capabilities,
                PluginRole::Backend,
                backend,
            ));
        }
        if attempts(capabilities.get_implementation(), PluginRole::Frontend) {
            match bind_frontend(library, &capabilities, frontend) {
                Ok(table) => {
                    self.frontend.push(table);
                    proof {
                        assert(self.frontend@.drop_last() =~= before.frontend);
                        assert forall|i: int| 0 <= i < self.frontend@.len() implies (
                        #[trigger] self.frontend@[i]).library < self.libraries@.len() by {
                            if i < before.frontend.len() {
                                assert(self.frontend@[i] == before.frontend[i]);
                            }
                        }
                    }
                },
                Err(failure) => {
                    self.failures.push(failure);
                    proof {
                        assert forall|i: int| 0 <= i < self.failures@.len() implies (
                        #[trigger] self.failures@[i]).library < self.libraries@.len() by {
                            if i < middle.failures.len() {
                                assert(self.failures@[i] == middle.failures[i]);
                            }
                        }
                    }
                },
            }
        }
        proof {
            let last = self@;
            assert forall|i: int| 0 <= i < last.backend.len() implies (
            #[trigger] last.backend[i]).library < last.libraries.len() by {
                if i < middle.backend.len() {
                    assert(last.backend[i] == middle.backend[i]);
                }
            }
            assert forall|i: int| 0 <= i < last.frontend.len() implies (
            #[trigger] last.frontend[i]).library < last.libraries.len() by {
                if i < middle.frontend.len() {
                    assert(last.frontend[i] == middle.frontend[i]);
                }
            }
            assert forall|i: int| 0 <= i < last.failures.len() implies (
            #[trigger] last.failures[i]).library < last.libraries.len() by {
                if i < middle.failures.len() {
                    assert(last.failures[i] == middle.failures[i]);
                }
            }
            assert(self@.failures =~= middle.failures + RegistryView::<L, P>::failures_of(
                library,
                capabilities,
                PluginRole::Frontend,
                frontend,
            ));
        }
        true
    }

    /// Binds the loaded libraries, one after the other, in their order. The
    /// lookup at each place is that of the library at the same place;
    /// lookups for which there is no library are passed over. Gives the
    /// number of libraries that were looked at. Outside a build nothing
    /// changes.
    pub fn bind_all(&mut self, lookups: Vec<Lookup<P>>) -> (looked: usize)
        requires
            old(self)@.well_formed(),
        ensures
            final(self)@.well_formed(),
            old(self)@.state is Loading ==> looked == old(self)@.in_reach(lookups@.len())
                && old(self)@.bound_all(final(self)@, lookups@, looked as int),
            !(old(self)@.state is Loading) ==> looked == 0 && final(self)@ == old(self)@,
    {
        let ghost before = self@;
        let ghost all = lookups@;
        match self.state {
            RegistryState::Loading => {},
            _ => {
                return 0;
            },
        }
        let mut rest = lookups;
        let mut reversed: Vec<Lookup<P>> = Vec::new();
        while rest.len() > 0
            invariant
                rest@.len() + reversed@.len() == all.len(),
                rest@ == all.subrange(0, rest@.len() as int),
                forall|j: int|
                    0 <= j < reversed@.len() ==> reversed@[j] == all[all.len() - 1 - j],
            decreases rest@.len(),
        {
            match rest.pop() {
                Some(lookup) => {
                    reversed.push(lookup);
                },
                None => {},
            }
        }
        let total = reversed.len();
        let limit = if total < self.libraries.len() {
            total
        } else {
            self.libraries.len()
        };
        proof {
            assert(self@.failures + failures_upto(all, 0) =~= self@.failures);
        }
        let mut done: usize = 0;
        while done < limit
            invariant
                all.len() == total,
                limit <= total,
                limit <= before.libraries.len(),
                before.state is Loading,
                done <= limit,
                done + reversed@.len() == all.len(),
                forall|j: int|
                    0 <= j < reversed@.len() ==> reversed@[j] == all[all.len() - 1 - j],
                self@.well_formed(),
                before.bound_all(self@, all, done as int),
            decreases limit - done,
        {
            let ghost middle = self@;
            match reversed.pop() {
                Some(lookup) => {
                    let Lookup { capabilities, backend, frontend } = lookup;
                    self.bind(done, capabilities, backend, frontend);
                    proof {
                        before.lemma_bound_one_more(middle, self@, all, done as int);
                    }
                    done += 1;
                },
                None => {},
            }
        }
        done
    }

    /// Ends the build: from now on the registry is complete and read-only.
    pub fn finish(&mut self)
        requires
            old(self)@.well_formed(),
        ensures
            final(self)@.well_formed(),
            final(self)@ == (RegistryView {
                state: state_after_build(old(self)@.state),
                ..old(self)@
            }),
    {
        self.state = on_built(self.state);
    }

    /// The backend function tables, once the registry is loaded.
    pub fn backend_plugins(&self) -> (tables: Option<&Vec<BackendPluginFunctions<P>>>)
        ensures
            tables is Some <==> self@.state is Loaded,
            tables matches Some(list) ==> list@ == self@.backend,
    {
        match self.state {
            RegistryState::Loaded => Some(&self.backend),
            _ => None,
        }
    }

    /// The frontend function tables, once the registry is loaded.
    pub fn frontend_plugins(&self) -> (tables: Option<&Vec<FrontendPluginFunctions<P>>>)
        ensures
            tables is Some <==> self@.state is Loaded,
            tables matches Some(list) ==> list@ == self@.frontend,
    {
        match self.state {
            RegistryState::Loaded => Some(&self.frontend),
            _ => None,
        }
    }

    /// The libraries that were opened so far.
    pub fn libraries(&self) -> (libraries: &Vec<LoadedLibrary<L>>)
        ensures
            libraries@ == self@.libraries,
    {
        &self.libraries
    }

    /// The files that could not be opened so far.
    pub fn load_errors(&self) -> (errors: &Vec<LoadError>)
        ensures
            errors@ == self@.load_errors,
    {
        &self.load_errors
    }

    /// The bind failures that were reported so far.
    pub fn failures(&self) -> (failures: &Vec<BindFailure>)
        ensures
            failures@ == self@.failures,
    {
        &self.failures
    }
}

/// A plugin that declares both roles, exposes every member of the backend
/// contract and no member of the frontend contract is bound to exactly one
/// backend function table and no frontend function table, and exactly one
/// failure is reported: for the frontend role, and as critical.
pub proof fn lemma_both_declared_backend_only<L, P>(
    before: RegistryView<L, P>,
    after: RegistryView<L, P>,
    library: usize,
    capabilities: PluginCapabilities,
    backend: ContractSymbols<P>,
    frontend: ContractSymbols<P>,
)
    requires
        capabilities.role() == PluginImplementation::Both,
        backend.complete(),
        frontend.name is None,
        frontend.startup is None,
        frontend.shutdown is None,
        frontend.data is None,
        frontend.tests is None,
        before.bound(after, library, capabilities, backend, frontend),
    ensures
        after.backend.len() == before.backend.len() + 1,
        after.backend.drop_last() == before.backend,
        after.backend.last().binds(library, capabilities.names(), backend),
        after.frontend == before.frontend,
        after.failures == before.failures.push(
            BindFailure { library, role: PluginRole::Frontend, missing: EntryPoint::Name },
        ),
        after.failures.last().severity() is Critical,
{
    let none = RegistryView::<L, P>::failures_of(
        library,
        capabilities,
        PluginRole::Backend,
        backend,
    );
    let one = RegistryView::<L, P>::failures_of(
        library,
        capabilities,
        PluginRole::Frontend,
        frontend,
    );
    assert(before.failures + none + one =~= before.failures.push(
        BindFailure { library, role: PluginRole::Frontend, missing: EntryPoint::Name },
    ));
}

/// Each role stands for itself: whether a backend function table is added
/// depends on the declared role and the backend symbols alone, whatever the
/// frontend lookup gave, and the other way round.
pub proof fn lemma_roles_are_independent<L, P>(
    before: RegistryView<L, P>,
    after: RegistryView<L, P>,
    library: usize,
    capabilities: PluginCapabilities,
    backend: ContractSymbols<P>,
    frontend: ContractSymbols<P>,
)
    requires
        before.bound(after, library, capabilities, backend, frontend),
    ensures
        after.backend.len() == before.backend.len() + if declares(
            capabilities.role(),
            PluginRole::Backend,
        ) && backend.complete() {
            1int
        } else {
            0int
        },
        after.frontend.len() == before.frontend.len() + if declares(
            capabilities.role(),
            PluginRole::Frontend,
        ) && frontend.complete() {
            1int
        } else {
            0int
        },
{
}

} // verus!
