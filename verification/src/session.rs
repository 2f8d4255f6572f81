//! The session: one resolved target and one open architecture interface,
//! with the operations that attach to cores and memory.

use vstd::prelude::*;

use crate::config::{
    algorithm_views, copy_algorithms, copy_regions, CoreType, MemoryRegion, RawFlashAlgorithm,
    Registry, Target, TargetSelector, TargetView,
};
use crate::error::Error;
use crate::link::{
    AccessPort, ArchitectureSession, ArmCommunicationInterface, Memory, Probe, ProbeView,
};
use crate::romtable::{walk, ComponentEntry, RomTable, MAX_DEPTH};
use crate::tracing::{repeated_trace_setup_changes_nothing, trace_setup};

verus! {

/// Whether the trace path of a session has been set up.
#[derive(Clone, Copy, Debug, PartialEq, Eq, Structural)]
pub enum TracingState {
    Unconfigured,
    Configured,
}

/// A core that a session attached to: its type, the memory interface it
/// works through and its index.
#[derive(Clone, Copy, Debug, PartialEq, Eq, Structural)]
pub struct Core {
    pub core_type: CoreType,
    pub memory: Memory,
    pub index: usize,
}

impl Core {
    /// The index of the core.
    pub fn id(&self) -> (out: usize)
        ensures
            out == self.index,
    {
        self.index
    }
}

impl CoreType {
    /// A handle on the core of this type and of index `index`, working
    /// through `memory`.
    pub fn attach(self, memory: Memory, index: usize) -> (out: Core)
        ensures
            out == (Core { core_type: self, memory, index }),
    {
        Core { core_type: self, memory, index }
    }
}

/// A session with a debug target. Target and architecture interface are
/// set when the session is made and never replaced. Every operation that
/// needs the link fails at once while the exclusive access window is held.
#[derive(Debug)]
pub struct Session {
    target: Target,
    architecture_session: ArchitectureSession,
    exclusive: bool,
    tracing: TracingState,
}

/// Mathematical value of a [`Session`].
pub struct SessionView {
    /// The target, fixed when the session is made.
    pub target: TargetView,
    /// The debug link behind the architecture interface.
    pub link: ProbeView,
    /// Whether the exclusive access window is held.
    pub exclusive: bool,
    /// Whether the trace path has been set up.
    pub tracing: TracingState,
}

impl View for Session {
    type V = SessionView;

    closed spec fn view(&self) -> SessionView {
        SessionView {
            target: self.target@,
            link: self.architecture_session@,
            exclusive: self.exclusive,
            tracing: self.tracing,
        }
    }
}

/// The target that `selector` stands for, given the registry and the link.
pub open spec fn resolved_target(selector: TargetSelector, registry: Registry, link: ProbeView)
    -> Result<TargetView, Error> {
    match selector {
        TargetSelector::Unspecified(name) => match registry.named(name@) {
            Some(target) => Ok(target),
            None => Err(Error::TargetNotFound),
        },
        TargetSelector::Specified(target) => Ok(target@),
        TargetSelector::Auto => match link.chip {
            None => Err(Error::ChipAutodetectFailed),
            Some(chip) => match registry.with_chip(chip) {
                Some(target) => Ok(target),
                None => Err(Error::TargetNotFound),
            },
        },
    }
}

/// The memory interface that the link gives for the logical index `id`: the
/// dedicated one where there is one, else the access port at position `id`
/// of the enumeration.
pub open spec fn memory_for(link: ProbeView, id: usize) -> Result<Memory, Error> {
    if link.dedicated_memory {
        Ok(Memory::Dedicated)
    } else {
        match link.access_ports {
            None => Err(Error::AccessPortEnumerationFailed),
            Some(ports) => if id < ports.len() {
                Ok(Memory::Port(ports[id as int].id))
            } else {
                Err(Error::AccessPortNotFound(id))
            },
        }
    }
}

/// The memory interface that the link gives where no index is asked for:
/// the dedicated one where there is one, else access port 0.
pub open spec fn best_memory_for(link: ProbeView) -> Memory {
    if link.dedicated_memory {
        Memory::Dedicated
    } else {
        Memory::Port(0)
    }
}

impl SessionView {
    /// What `attach_to_memory(id)` answers on this session.
    pub open spec fn attached_memory(self, id: usize) -> Result<Memory, Error> {
        if self.exclusive {
            Err(Error::AccessConflict)
        } else {
            memory_for(self.link, id)
        }
    }

    /// What `attach_to_best_memory()` answers on this session.
    pub open spec fn best_memory(self) -> Result<Memory, Error> {
        if self.exclusive {
            Err(Error::AccessConflict)
        } else {
            Ok(best_memory_for(self.link))
        }
    }

    /// The core types that the target declares.
    pub open spec fn cores(self) -> Seq<CoreType> {
        seq![self.target.core_type]
    }

    /// What `attach_to_core(n)` answers on this session.
    pub open spec fn attached_core(self, n: usize) -> Result<Core, Error> {
        if n >= self.cores().len() {
            Err(Error::CoreNotFound(n))
        } else {
            match self.attached_memory(n) {
                Ok(memory) => Ok(Core { core_type: self.cores()[n as int], memory, index: n }),
                Err(e) => Err(e),
            }
        }
    }

    /// What `attach_to_core_with_specific_memory(n, memory)` answers on this
    /// session.
    pub open spec fn attached_core_with_memory(self, n: usize, memory: Option<Memory>) -> Result<
        Core,
        Error,
    > {
        if n >= self.cores().len() {
            Err(Error::CoreNotFound(n))
        } else if self.exclusive {
            Err(Error::AccessConflict)
        } else {
            Ok(
                Core {
                    core_type: self.cores()[n as int],
                    memory: match memory {
                        Some(given) => given,
                        None => best_memory_for(self.link),
                    },
                    index: n,
                },
            )
        }
    }
}

impl SessionView {
    /// The component directory that `setup_tracing` reads for the core of
    /// index `core_index`, `None` where it cannot be read.
    pub open spec fn directory(self, core_index: usize) -> Option<Seq<ComponentEntry>> {
        match self.link.access_ports {
            None => None,
            Some(ports) => if core_index >= ports.len() {
                None
            } else {
                walk(self.link.memory, ports[core_index as int].base_address, MAX_DEPTH as nat, 0)
            },
        }
    }

    /// The session after `setup_tracing` for the core of index `core_index`,
    /// and what the call answers. The directory is read at the base address
    /// of the access port at position `core_index` of the enumeration. Only
    /// register writes change the link, and only a setup that went through
    /// changes the tracing state.
    pub open spec fn after_trace_setup(self, core_index: usize) -> (SessionView, Result<(), Error>) {
        if self.exclusive {
            (self, Err(Error::AccessConflict))
        } else {
            match self.link.access_ports {
                None => (self, Err(Error::AccessPortEnumerationFailed)),
                Some(ports) => if core_index >= ports.len() {
                    (self, Err(Error::AccessPortNotFound(core_index)))
                } else {
                    match self.directory(core_index) {
                        None => (self, Err(Error::ComponentDirectoryParseError)),
                        Some(entries) => {
                            let (link, outcome) = trace_setup(self.link, entries);
                            (
                                SessionView {
                                    link,
                                    tracing: if outcome.is_ok() {
                                        TracingState::Configured
                                    } else {
                                        self.tracing
                                    },
                                    ..self
                                },
                                outcome,
                            )
                        },
                    }
                },
            }
        }
    }
}

impl Session {
    /// Opens a session over `probe` with the target that `selector` stands
    /// for. Either the whole session is made or none.
    pub fn new(probe: Probe, selector: TargetSelector, registry: &Registry) -> (out: Result<
        Session,
        Error,
    >)
        ensures
            match resolved_target(selector, *registry, probe@) {
                Ok(target) => out.is_ok() && out.unwrap()@ == (SessionView {
                    target,
                    link: probe@,
                    exclusive: false,
                    tracing: TracingState::Unconfigured,
                }),
                Err(e) => out.is_err() && out.unwrap_err() == e,
            },
    {
        let interface = ArmCommunicationInterface::new(probe);
        let resolved = match selector {
            TargetSelector::Unspecified(name) => registry.get_target_by_name(&name),
            TargetSelector::Specified(target) => Ok(target),
            TargetSelector::Auto => match interface.read_chip_info() {
                Some(chip) => registry.get_target_by_chip_info(chip),
                None => Err(Error::ChipAutodetectFailed),
            },
        };
        match resolved {
            Ok(target) => Ok(
                Session {
                    target,
                    architecture_session: ArchitectureSession::Arm(interface),
                    exclusive: false,
                    tracing: TracingState::Unconfigured,
                },
            ),
            Err(e) => Err(e),
        }
    }

    /// Whether the exclusive access window is held.
    pub fn is_busy(&self) -> (out: bool)
        ensures
            out == self@.exclusive,
    {
        self.exclusive
    }

    /// Whether the trace path has been set up.
    pub fn tracing_state(&self) -> (out: TracingState)
        ensures
            out == self@.tracing,
    {
        self.tracing
    }

    /// The open architecture interface.
    pub fn architecture_session(&self) -> (out: &ArchitectureSession)
        ensures
            out@ == self@.link,
    {
        &self.architecture_session
    }

    /// Takes `probe` as what the link answers from now on. The architecture
    /// interface stays open, and target and tracing state stay. Fails where the exclusive access window is held;
    /// the session is then as it was.
    pub fn refresh_link(&mut self, probe: Probe) -> (out: Result<(), Error>)
        ensures
            old(self)@.exclusive ==> out == Err::<(), Error>(Error::AccessConflict) && final(self)@
                == old(self)@,
            !old(self)@.exclusive ==> out == Ok::<(), Error>(()) && final(self)@ == (SessionView {
                link: probe@,
                ..old(self)@
            }),
    {
        if self.exclusive {
            return Err(Error::AccessConflict);
        }
        match &mut self.architecture_session {
            ArchitectureSession::Arm(interface) => interface.refresh(probe),
        }
        Ok(())
    }

    /// Takes the exclusive access window. Fails at once where it is held
    /// already; the session is then as it was.
    pub fn begin_exclusive_access(&mut self) -> (out: Result<(), Error>)
        ensures
            old(self)@.exclusive ==> out == Err::<(), Error>(Error::AccessConflict) && final(self)@
                == old(self)@,
            !old(self)@.exclusive ==> out == Ok::<(), Error>(()) && final(self)@ == (SessionView {
                exclusive: true,
                ..old(self)@
            }),
    {
        if self.exclusive {
            Err(Error::AccessConflict)
        } else {
            self.exclusive = true;
            Ok(())
        }
    }

    /// Gives the exclusive access window back.
    pub fn end_exclusive_access(&mut self)
        ensures
            final(self)@ == (SessionView { exclusive: false, ..old(self)@ }),
    {
        self.exclusive = false;
    }

    /// The core types that the target declares.
    pub fn list_cores(&self) -> (out: Vec<CoreType>)
        ensures
            out@ == self@.cores(),
    {
        let mut out: Vec<CoreType> = Vec::new();
        out.push(self.target.core_type);
        assert(out@ =~= self@.cores());
        out
    }

    /// Attaches to the core of index `n`, through the memory interface of
    /// the same index.
    pub fn attach_to_core(&self, n: usize) -> (out: Result<Core, Error>)
        ensures
            out == self@.attached_core(n),
    {
        let cores = self.list_cores();
        if n >= cores.len() {
            return Err(Error::CoreNotFound(n));
        }
        match self.attach_to_memory(n) {
            Ok(memory) => Ok(cores[n].attach(memory, n)),
            Err(e) => Err(e),
        }
    }

    /// Attaches to a core of the type `core_type`, whatever the target
    /// declares, through the memory interface of index 0.
    pub fn attach_to_specific_core(&self, core_type: CoreType) -> (out: Result<Core, Error>)
        ensures
            out == match self@.attached_memory(0) {
                Ok(memory) => Ok::<Core, Error>(Core { core_type, memory, index: 0 }),
                Err(e) => Err::<Core, Error>(e),
            },
    {
        match self.attach_to_memory(0) {
            Ok(memory) => Ok(core_type.attach(memory, 0)),
            Err(e) => Err(e),
        }
    }

    /// Attaches to the core of index `n` through `memory`, or through the
    /// best memory interface where none is given.
    pub fn attach_to_core_with_specific_memory(&self, n: usize, memory: Option<Memory>) -> (out:
        Result<Core, Error>)
        ensures
            out == self@.attached_core_with_memory(n, memory),
    {
        let cores = self.list_cores();
        if n >= cores.len() {
            return Err(Error::CoreNotFound(n));
        }
        if self.exclusive {
            return Err(Error::AccessConflict);
        }
        let resolved = match memory {
            Some(given) => given,
            None => match self.attach_to_best_memory() {
                Ok(best) => best,
                Err(e) => {
                    return Err(e);
                },
            },
        };
        Ok(cores[n].attach(resolved, n))
    }

    /// The memory interfaces that the session lists by itself: none.
    pub fn list_memories(&self) -> (out: Vec<Memory>)
        ensures
            out@ == Seq::<Memory>::empty(),
    {
        Vec::new()
    }

    /// The memory interface for the logical index `id`. A dedicated
    /// interface is taken whatever `id` is, and the access ports are then not
    /// enumerated.
    pub fn attach_to_memory(&self, id: usize) -> (out: Result<Memory, Error>)
        ensures
            out == self@.attached_memory(id),
    {
        if self.exclusive {
            return Err(Error::AccessConflict);
        }
        match &self.architecture_session {
            ArchitectureSession::Arm(interface) => {
                match interface.dedicated_memory_interface() {
                    Some(memory) => Ok(memory),
                    None => {
                        match interface.memory_access_ports() {
                            Err(e) => Err(e),
                            Ok(ports) => {
                                if id < ports.len() {
                                    Ok(Memory::Port(ports[id].id))
                                } else {
                                    Err(Error::AccessPortNotFound(id))
                                }
                            },
                        }
                    },
                }
            },
        }
    }

    /// The memory interface where no index is asked for: the dedicated one
    /// where there is one, else access port 0. The access ports are not
    /// enumerated, so the port is not looked for by the addresses it covers.
    pub fn attach_to_best_memory(&self) -> (out: Result<Memory, Error>)
        ensures
            out == self@.best_memory(),
    {
        if self.exclusive {
            return Err(Error::AccessConflict);
        }
        match &self.architecture_session {
            ArchitectureSession::Arm(interface) => {
                match interface.dedicated_memory_interface() {
                    Some(memory) => Ok(memory),
                    None => Ok(Memory::Port(0)),
                }
            },
        }
    }

    /// The flash algorithms of the target.
    pub fn flash_algorithms(&self) -> (out: Vec<RawFlashAlgorithm>)
        ensures
            algorithm_views(out@) == self@.target.flash_algorithms,
    {
        copy_algorithms(&self.target.flash_algorithms)
    }

    /// The memory map of the target.
    pub fn memory_map(&self) -> (out: Vec<MemoryRegion>)
        ensures
            out@ == self@.target.memory_map,
    {
        copy_regions(&self.target.memory_map)
    }

    /// Drains the trace capture buffer and returns what it held.
    pub fn read_swv(&mut self) -> (out: Result<Vec<u8>, Error>)
        ensures
            old(self)@.exclusive ==> out == Err::<Vec<u8>, Error>(Error::AccessConflict)
                && final(self)@ == old(self)@,
            !old(self)@.exclusive ==> match old(self)@.link.trace {
                Some(bytes) => out.is_ok() && out.unwrap()@ == bytes && final(self)@ == (SessionView {
                    link: ProbeView { trace: Some(Seq::<u8>::empty()), ..old(self)@.link },
                    ..old(self)@
                }),
                None => out == Err::<Vec<u8>, Error>(Error::CommunicationError) && final(self)@
                    == old(self)@,
            },
    {
        if self.exclusive {
            return Err(Error::AccessConflict);
        }
        match &mut self.architecture_session {
            ArchitectureSession::Arm(interface) => interface.read_swv(),
        }
    }

    /// Reads the component directory behind the access port of `core` and
    /// routes trace data to the capture buffer.
    pub fn setup_tracing(&mut self, core: &Core) -> (out: Result<(), Error>)
        ensures
            (final(self)@, out) == old(self)@.after_trace_setup(core.index),
    {
        if self.exclusive {
            return Err(Error::AccessConflict);
        }
        match &mut self.architecture_session {
            ArchitectureSession::Arm(interface) => {
                let ports = match interface.memory_access_ports() {
                    Ok(ports) => ports,
                    Err(e) => {
                        return Err(e);
                    },
                };
                if core.id() >= ports.len() {
                    return Err(Error::AccessPortNotFound(core.id()));
                }
                let table = match RomTable::try_parse(interface, ports[core.id()].base_address) {
                    Ok(table) => table,
                    Err(e) => {
                        return Err(e);
                    },
                };
                let outcome = crate::tracing::setup_tracing(interface, &table);
                if outcome.is_ok() {
                    self.tracing = TracingState::Configured;
                }
                outcome
            },
        }
    }
}

/// An index that the target declares no core for is refused as such,
/// whatever state the session is in.
pub proof fn undeclared_core_is_not_found(session: SessionView, n: usize)
    requires
        n >= session.cores().len(),
    ensures
        session.attached_core(n) == Err::<Core, Error>(Error::CoreNotFound(n)),
        session.attached_core_with_memory(n, None) == Err::<Core, Error>(Error::CoreNotFound(n)),
{
}

/// Where the link has a dedicated memory interface, every index resolves to
/// it, and what an enumeration of the access ports would yield has no part
/// in the answer.
pub proof fn dedicated_memory_wins(
    session: SessionView,
    id: usize,
    enumeration: Option<Seq<AccessPort>>,
)
    requires
        !session.exclusive,
        session.link.dedicated_memory,
    ensures
        session.attached_memory(id) == Ok::<Memory, Error>(Memory::Dedicated),
        (SessionView {
            link: ProbeView { access_ports: enumeration, ..session.link },
            ..session
        }).attached_memory(id) == session.attached_memory(id),
{
}

/// Without a dedicated memory interface, index `id` resolves to the access
/// port that stands at position `id` of the enumeration of that moment. The
/// answer follows the enumeration: if the port at that position changes
/// between two calls, so does the memory handed out.
pub proof fn port_memory_follows_enumeration(
    session: SessionView,
    id: usize,
    ports: Seq<AccessPort>,
    later: Seq<AccessPort>,
)
    requires
        !session.exclusive,
        !session.link.dedicated_memory,
        session.link.access_ports == Some(ports),
        id < ports.len(),
        id < later.len(),
    ensures
        session.attached_memory(id) == Ok::<Memory, Error>(Memory::Port(ports[id as int].id)),
        (SessionView {
            link: ProbeView { access_ports: Some(later), ..session.link },
            ..session
        }).attached_memory(id) == Ok::<Memory, Error>(Memory::Port(later[id as int].id)),
{
}

/// Without a dedicated memory interface, the best memory is access port 0,
/// whatever the enumeration would yield.
pub proof fn best_memory_falls_back_to_port_zero(session: SessionView)
    requires
        !session.exclusive,
        !session.link.dedicated_memory,
    ensures
        session.best_memory() == Ok::<Memory, Error>(Memory::Port(0)),
{
}

/// A chip that cannot be identified ends automatic selection with the
/// error of that name, whatever the registry holds.
pub proof fn unidentified_chip_fails_autodetect(registry: Registry, link: ProbeView)
    requires
        link.chip.is_none(),
    ensures
        resolved_target(TargetSelector::Auto, registry, link) == Err::<TargetView, Error>(
            Error::ChipAutodetectFailed,
        ),
{
}

/// While the exclusive access window is held, every operation that needs
/// the link fails with a conflict, and those that could change the session
/// leave it as it was.
pub proof fn held_window_refuses(session: SessionView, id: usize, n: usize, given: Option<Memory>)
    requires
        session.exclusive,
        n < session.cores().len(),
    ensures
        session.attached_memory(id) == Err::<Memory, Error>(Error::AccessConflict),
        session.best_memory() == Err::<Memory, Error>(Error::AccessConflict),
        session.attached_core(n) == Err::<Core, Error>(Error::AccessConflict),
        session.attached_core_with_memory(n, given) == Err::<Core, Error>(Error::AccessConflict),
        session.after_trace_setup(id) == (session, Err::<(), Error>(Error::AccessConflict)),
{
}

/// Setting up tracing never replaces the target, never takes or gives back
/// the access window and never takes a configured trace path back. It
/// answers `Ok` exactly when the session is configured by this very call,
/// and only a failed register write fails with the link changed.
pub proof fn trace_setup_is_one_way(session: SessionView, core_index: usize)
    ensures
        session.after_trace_setup(core_index).0.target == session.target,
        session.after_trace_setup(core_index).0.exclusive == session.exclusive,
        session.tracing == TracingState::Configured ==> session.after_trace_setup(
            core_index,
        ).0.tracing == TracingState::Configured,
        session.after_trace_setup(core_index).1.is_ok() ==> session.after_trace_setup(
            core_index,
        ).0.tracing == TracingState::Configured,
        session.after_trace_setup(core_index).1.is_err() ==> session.after_trace_setup(
            core_index,
        ).0.tracing == session.tracing,
        session.after_trace_setup(core_index).1.is_err() && session.after_trace_setup(core_index).1
            != Err::<(), Error>(Error::TraceSetupFailed) ==> session.after_trace_setup(core_index).0
            == session,
{
}

/// Setting up tracing a second time does not disturb a trace path that
/// was set up: where the first call went through and its register writes
/// left the component directory as it was read, the second call goes
/// through too and leaves the session as the first left it.
pub proof fn repeated_trace_setup_keeps_the_session(session: SessionView, core_index: usize)
    requires
        session.after_trace_setup(core_index).1.is_ok(),
        session.after_trace_setup(core_index).0.directory(core_index) == session.directory(
            core_index,
        ),
    ensures
        session.after_trace_setup(core_index).0.after_trace_setup(core_index)
            == session.after_trace_setup(core_index),
{
    let entries = session.directory(core_index).unwrap();
    repeated_trace_setup_changes_nothing(session.link, entries);
}

} // verus!
