//! The service registry and the protocol around a hook call.
//!
//! A `Hooks` value is built once at startup: it starts empty, takes the
//! modules found in the discovery directory, and is read-only from then on.
//! On each request it decides whether a hook is to be called on a packet,
//! and turns what the hook answered into an action and a packet to send.

use crate::action::Action;
use crate::action::SessionState;
use crate::action::Stage;
use crate::loader::discovery_pattern;
use crate::loader::pattern_of;
use crate::loader::Finding;
use crate::loader::LoadStep;
use crate::loader::ModuleFile;
use crate::loader::MISSING_STEM;
use crate::loader::UNABLE_TO_REGISTER;
use crate::loader::UNSUPPORTED_PATH;
use crate::packet::held_bytes;
use crate::packet::holds_bytes;
use crate::packet::parse_wire;
use crate::packet::wire_format_accepted;
use crate::service::ModuleLoad;
use crate::service::Service;
use crate::service::ServiceHooks;
use crate::trie::trie_entries;
use crate::trie::trie_get;
use crate::trie::trie_insert;
use crate::trie::trie_new;
use dnssector::ParsedPacket;
use qp_trie::Trie;
use vstd::prelude::*;

verus! {

/// Error of a buffer that is not a DNS message.
pub const INVALID_PACKET: &'static str = "Invalid packet";

/// Error of a packet that a hook left without its buffer.
pub const PACKET_LOST: &'static str = "Packet left without data";

/// The registry of services, with the identifier of the master service and
/// the directory in which modules are looked for.
pub struct Hooks<L, E> {
    /// The slot in `records` of each registered identifier.
    services: Trie<Vec<u8>, usize>,
    /// The registered services.
    records: Vec<Service<L, E>>,
    master_service_id: Vec<u8>,
    libraries_path: Option<String>,
}

/// A hook call that is due: the caller invokes `entry` on `packet`, then
/// hands the status that came back to `complete`.
pub struct Invocation<'a, E> {
    /// The entry point to call.
    pub entry: &'a E,
    /// The stage for which it is called.
    pub stage: Stage,
    /// The packet that the hook may read and rewrite.
    pub packet: ParsedPacket,
}

/// Where a packet stands once the framework has looked at it.
pub enum Applied<'a, E> {
    /// No hook is to run: this is the action, and the packet to go with it.
    Done(Action, Vec<u8>),
    /// A hook is to run.
    Call(Invocation<'a, E>),
}

/// The error with which a file is skipped, if it is: that of its name, or
/// for a well-named module, the master or any other, that of its load.
pub open spec fn load_error<L, E>(file: ModuleFile, load: ModuleLoad<L, E>) -> Option<Seq<char>> {
    match file.finding() {
        Finding::MissingStem => Some(MISSING_STEM@),
        Finding::UnsupportedPath => Some(UNSUPPORTED_PATH@),
        Finding::NotRetained | Finding::Master => if load is Failed {
            Some(UNABLE_TO_REGISTER@)
        } else {
            None
        },
    }
}

/// The service that a file brings to the registry, if any. Only the master
/// module brings one; the service of every other module is let go.
pub open spec fn registers<L, E>(file: ModuleFile, load: ModuleLoad<L, E>) -> Option<
    Service<L, E>,
> {
    if file.finding() == Finding::Master {
        Service::of_load(load)
    } else {
        None
    }
}

/// The registry after one file: what the file brings is entered under the
/// master identifier, in place of what stood there.
pub open spec fn registry_after<L, E>(
    services: Map<Seq<u8>, Service<L, E>>,
    master: Seq<u8>,
    file: ModuleFile,
    load: ModuleLoad<L, E>,
) -> Map<Seq<u8>, Service<L, E>> {
    match registers(file, load) {
        Some(service) => services.insert(master, service),
        None => services,
    }
}

/// The registry after a list of files, taken in order.
pub open spec fn registry_after_all<L, E>(
    services: Map<Seq<u8>, Service<L, E>>,
    master: Seq<u8>,
    found: Seq<(ModuleFile, ModuleLoad<L, E>)>,
) -> Map<Seq<u8>, Service<L, E>>
    decreases found.len(),
{
    if found.len() == 0 {
        services
    } else {
        registry_after(
            registry_after_all(services, master, found.drop_last()),
            master,
            found.last().0,
            found.last().1,
        )
    }
}

/// The warnings that a list of files gives rise to: for each file that is
/// skipped with an error, its place in the list and the error, in order.
pub open spec fn warnings_of<L, E>(found: Seq<(ModuleFile, ModuleLoad<L, E>)>) -> Seq<
    (int, Seq<char>),
>
    decreases found.len(),
{
    if found.len() == 0 {
        seq![]
    } else {
        let before = warnings_of(found.drop_last());
        match load_error(found.last().0, found.last().1) {
            Some(e) => before.push((found.len() - 1, e)),
            None => before,
        }
    }
}

/// The registry after a scan of the discovery directory. Without a
/// directory there is nothing to scan: whatever list is handed in, nothing
/// is taken from it.
pub open spec fn registry_after_scan<L, E>(
    directory: Option<Seq<char>>,
    services: Map<Seq<u8>, Service<L, E>>,
    master: Seq<u8>,
    found: Seq<(ModuleFile, ModuleLoad<L, E>)>,
) -> Map<Seq<u8>, Service<L, E>> {
    if directory is Some {
        registry_after_all(services, master, found)
    } else {
        services
    }
}

/// The warnings of a scan of the discovery directory: those of the files
/// found, and none without a directory.
pub open spec fn warnings_of_scan<L, E>(
    directory: Option<Seq<char>>,
    found: Seq<(ModuleFile, ModuleLoad<L, E>)>,
) -> Seq<(int, Seq<char>)> {
    if directory is Some {
        warnings_of(found)
    } else {
        Seq::empty()
    }
}

/// Every identifier leads to a record, and no two lead to the same one.
spec fn linked<L, E>(slots: Map<Seq<u8>, usize>, records: Seq<Service<L, E>>) -> bool {
    &&& forall|id: Seq<u8>| #[trigger] slots.contains_key(id) ==> slots[id] < records.len()
    &&& forall|a: Seq<u8>, b: Seq<u8>|
        #![trigger slots[a], slots[b]]
        slots.contains_key(a) && slots.contains_key(b) && slots[a] == slots[b] ==> a == b
}

/// The map from identifier to service that an index and its records make.
spec fn registry_of<L, E>(slots: Map<Seq<u8>, usize>, records: Seq<Service<L, E>>) -> Map<
    Seq<u8>,
    Service<L, E>,
> {
    Map::new(|id: Seq<u8>| slots.contains_key(id), |id: Seq<u8>| records[slots[id] as int])
}

/// Enters a service under an identifier. A service that the identifier had
/// is released, and its record takes the new service.
fn enter<L, E>(
    slots: &mut Trie<Vec<u8>, usize>,
    records: &mut Vec<Service<L, E>>,
    id: Vec<u8>,
    service: Service<L, E>,
)
    requires
        linked(trie_entries(*old(slots)), old(records)@),
    ensures
        linked(trie_entries(*final(slots)), final(records)@),
        registry_of(trie_entries(*final(slots)), final(records)@) == registry_of(
            trie_entries(*old(slots)),
            old(records)@,
        ).insert(id@, service),
{
    match trie_get(slots, &id) {
        Some(slot) => {
            records[slot] = service;
        },
        None => {
            let slot = records.len();
            records.push(service);
            trie_insert(slots, id, slot);
        },
    }
    assert(registry_of(trie_entries(*slots), records@) =~= registry_of(
        trie_entries(*old(slots)),
        old(records)@,
    ).insert(id@, service));
}

impl<L, E> Hooks<L, E> {
    /// The index and the records belong together.
    #[verifier::type_invariant]
    spec fn well_formed(self) -> bool {
        linked(trie_entries(self.services), self.records@)
    }

    /// The registry as a map from identifier to service.
    pub closed spec fn services(self) -> Map<Seq<u8>, Service<L, E>> {
        registry_of(trie_entries(self.services), self.records@)
    }

    /// The identifier of the master service.
    pub closed spec fn master_id(self) -> Seq<u8> {
        self.master_service_id@
    }

    /// The directory in which modules are looked for, if one is configured.
    pub closed spec fn libraries_path(self) -> Option<Seq<char>> {
        match self.libraries_path {
            Some(path) => Some(path@),
            None => None,
        }
    }

    /// The master service, if it is registered.
    pub open spec fn master(self) -> Option<Service<L, E>> {
        if self.services().contains_key(self.master_id()) {
            Some(self.services()[self.master_id()])
        } else {
            None
        }
    }

    /// The framework is enabled when the master service is registered and
    /// has a loaded module behind it, whatever entry points that module
    /// exports.
    pub open spec fn is_enabled(self) -> bool {
        self.master() matches Some(service) && service.service_hooks is Some
    }

    /// The entry point that the master service has for a stage.
    pub open spec fn master_entry(self, stage: Stage) -> Option<E> {
        match self.master() {
            Some(service) => service.entry(stage),
            None => None,
        }
    }

    /// What `dispatch` makes of the parser's answer on a buffer.
    ///
    /// What the parser turned down is an error. A packet for whose stage the
    /// master service has an entry point goes to that entry point. Any other
    /// packet passes, with the bytes that it holds; should it hold none, it
    /// cannot be sent, which is an error too.
    pub open spec fn dispatches<'a>(
        self,
        parsed: Result<ParsedPacket, dnssector::Error>,
        stage: Stage,
        routed: Result<Applied<'a, E>, &'static str>,
    ) -> bool {
        match routed {
            Ok(Applied::Done(action, passed)) => {
                &&& parsed matches Ok(packet)
                &&& self.master_entry(stage) is None
                &&& action == Action::Pass
                &&& held_bytes(packet) == Some(passed@)
            },
            Ok(Applied::Call(call)) => {
                &&& parsed matches Ok(packet)
                &&& self.master_entry(stage) == Some(*call.entry)
                &&& call.stage == stage
                &&& call.packet == packet
            },
            Err(e) => {
                ||| parsed is Err && e@ == INVALID_PACKET@
                ||| {
                    &&& parsed matches Ok(packet)
                    &&& self.master_entry(stage) is None
                    &&& held_bytes(packet) is None
                    &&& e@ == PACKET_LOST@
                }
            },
        }
    }

    /// What `apply_clientside` and `apply_serverside` make of a packet.
    ///
    /// Disabled, the framework passes every buffer on as it came. Enabled, it
    /// first has the buffer parsed, and turns down what is no DNS message.
    /// Then, where the master module exports no entry point for the stage,
    /// the packet passes as it came; where it exports one, that entry point
    /// is due to be called on the parsed packet, which holds the bytes that
    /// came.
    pub open spec fn applies<'a>(
        self,
        bytes: Seq<u8>,
        stage: Stage,
        applied: Result<Applied<'a, E>, &'static str>,
    ) -> bool {
        match applied {
            Ok(Applied::Done(action, passed)) => {
                &&& action == Action::Pass
                &&& passed@ == bytes
                &&& !self.is_enabled() || (wire_format_accepted(bytes) && self.master_entry(
                    stage,
                ) is None)
            },
            Ok(Applied::Call(call)) => {
                &&& self.is_enabled()
                &&& wire_format_accepted(bytes)
                &&& self.master_entry(stage) == Some(*call.entry)
                &&& call.stage == stage
                &&& held_bytes(call.packet) == Some(bytes)
            },
            Err(e) => {
                &&& self.is_enabled()
                &&& !wire_format_accepted(bytes)
                &&& e@ == INVALID_PACKET@
            },
        }
    }

    /// Creates a registry without services. `libraries_path` is the
    /// directory to look for modules in; without one, nothing is ever
    /// loaded.
    pub fn new(libraries_path: Option<&str>) -> (hooks: Self)
        ensures
            hooks.services() == Map::<Seq<u8>, Service<L, E>>::empty(),
            hooks.master_id() == Seq::<u8>::empty(),
            hooks.libraries_path() == match libraries_path {
                Some(path) => Some(path@),
                None => None,
            },
            !hooks.is_enabled(),
    {
        let libraries_path = match libraries_path {
            Some(path) => Some(path.to_owned()),
            None => None,
        };
        let hooks = Hooks {
            services: trie_new(),
            records: Vec::new(),
            master_service_id: Vec::new(),
            libraries_path,
        };
        assert(hooks.services() =~= Map::<Seq<u8>, Service<L, E>>::empty());
        hooks
    }

    /// The pattern that matches the modules to load, for the extension that
    /// dynamic libraries have on this platform. There is none where no
    /// directory is configured.
    pub fn pattern(&self, extension: &str) -> (pattern: Option<String>)
        ensures
            match pattern {
                Some(p) => self.libraries_path() matches Some(path) && p@ == pattern_of(
                    path,
                    extension@,
                ),
                None => self.libraries_path() is None,
            },
    {
        match &self.libraries_path {
            Some(path) => Some(discovery_pattern(path.as_str(), extension)),
            None => None,
        }
    }

    /// Looks a service up by its identifier.
    pub fn get(&self, id: &Vec<u8>) -> (service: Option<&Service<L, E>>)
        ensures
            service is Some <==> self.services().contains_key(id@),
            service matches Some(s) ==> *s == self.services()[id@],
    {
        proof {
            use_type_invariant(self);
        }
        match trie_get(&self.services, id) {
            Some(slot) => Some(&self.records[slot]),
            None => None,
        }
    }

    /// The hooks of the master service, if the framework is enabled.
    fn master_hooks(&self) -> (hooks: Option<&ServiceHooks<L, E>>)
        ensures
            hooks is Some <==> self.is_enabled(),
            hooks matches Some(h) ==> self.master() matches Some(service)
                && service.service_hooks == Some(*h),
    {
        match self.get(&self.master_service_id) {
            Some(service) => service.service_hooks.as_ref(),
            None => None,
        }
    }

    /// Whether hooks run at all. The stage does not narrow the answer: a
    /// loaded master module enables both stages.
    pub fn enabled(&self, _stage: Stage) -> (enabled: bool)
        ensures
            enabled == self.is_enabled(),
    {
        self.master_hooks().is_some()
    }

    /// Enters a service under an identifier, in place of the service that
    /// the identifier had.
    fn insert(&mut self, id: Vec<u8>, service: Service<L, E>)
        ensures
            final(self).services() == old(self).services().insert(id@, service),
            final(self).master_id() == old(self).master_id(),
            final(self).libraries_path() == old(self).libraries_path(),
    {
        proof {
            use_type_invariant(&*self);
        }
        // The invariant ties the index to the records: both are taken out,
        // changed together, and put back, the index last.
        let mut slots = trie_new();
        let mut records = Vec::new();
        core::mem::swap(&mut self.services, &mut slots);
        core::mem::swap(&mut self.records, &mut records);
        enter(&mut slots, &mut records, id, service);
        core::mem::swap(&mut self.records, &mut records);
        core::mem::swap(&mut self.services, &mut slots);
    }

    /// Takes one file of the discovery directory, with what came of loading
    /// it. A module that failed to load is an error, whichever module it is.
    /// The master module is registered; any other module is let go, and is
    /// released with that. A file that is turned down leaves the registry as
    /// it was.
    pub fn load_library(&mut self, file: &ModuleFile, load: ModuleLoad<L, E>) -> (done: Result<
        (),
        &'static str,
    >)
        ensures
            match done {
                Ok(()) => load_error(*file, load) is None,
                Err(e) => load_error(*file, load) == Some(e@),
            },
            final(self).services() == registry_after(
                old(self).services(),
                old(self).master_id(),
                *file,
                load,
            ),
            final(self).master_id() == old(self).master_id(),
            final(self).libraries_path() == old(self).libraries_path(),
    {
        match file.examine() {
            LoadStep::Reject(e) => Err(e),
            LoadStep::Open(_) => match Service::new(load) {
                Err(_) => Err(UNABLE_TO_REGISTER),
                Ok(service) => {
                    if file.names_master() {
                        let id = self.master_service_id.clone();
                        self.insert(id, service);
                    }
                    Ok(())
                },
            },
        }
    }

    /// Takes the files of the discovery directory in order, each with what
    /// came of loading it, and returns the warnings to log: the place in the
    /// list and the error of each file that was skipped. A file that is
    /// skipped does not keep the files after it from being taken.
    ///
    /// A registry without a directory takes nothing: the list is let go, the
    /// registry stays as it was, and there is no warning.
    pub fn load_libraries(&mut self, found: Vec<(ModuleFile, ModuleLoad<L, E>)>) -> (warnings: Vec<
        (usize, &'static str),
    >)
        ensures
            final(self).services() == registry_after_scan(
                old(self).libraries_path(),
                old(self).services(),
                old(self).master_id(),
                found@,
            ),
            final(self).master_id() == old(self).master_id(),
            final(self).libraries_path() == old(self).libraries_path(),
            warnings@.len() == warnings_of_scan(old(self).libraries_path(), found@).len(),
            forall|k: int|
                0 <= k < warnings@.len() ==> (#[trigger] warnings@[k]).0 == warnings_of_scan(
                    old(self).libraries_path(),
                    found@,
                )[k].0 && warnings@[k].1@ == warnings_of_scan(
                    old(self).libraries_path(),
                    found@,
                )[k].1,
            old(self).libraries_path() is None ==> final(self).services() == old(self).services()
                && warnings@.len() == 0,
    {
        if self.libraries_path.is_none() {
            return Vec::new();
        }
        let mut warnings: Vec<(usize, &'static str)> = Vec::new();
        let ghost all = found@;
        let count = found.len();
        let mut at: usize = 0;
        for item in it: found
            invariant
                all == it.seq(),
                all.len() == count,
                at == it.index(),
                self.services() == registry_after_all(
                    old(self).services(),
                    old(self).master_id(),
                    all.take(at as int),
                ),
                self.master_id() == old(self).master_id(),
                self.libraries_path() == old(self).libraries_path(),
                warnings@.len() == warnings_of(all.take(at as int)).len(),
                forall|k: int|
                    0 <= k < warnings@.len() ==> (#[trigger] warnings@[k]).0 == warnings_of(
                        all.take(at as int),
                    )[k].0 && warnings@[k].1@ == warnings_of(all.take(at as int))[k].1,
        {
            let (file, load) = item;
            proof {
                assert(all.take(at + 1).drop_last() =~= all.take(at as int));
                assert(all.take(at + 1).last() == item);
            }
            match self.load_library(&file, load) {
                Ok(()) => {},
                Err(e) => {
                    warnings.push((at, e));
                },
            }
            at = at + 1;
        }
        proof {
            assert(all.take(at as int) =~= all);
        }
        warnings
    }

    /// Decides what to do with a packet once the parser has answered: an
    /// error, a hook call, or a pass.
    pub fn dispatch(&self, parsed: Result<ParsedPacket, dnssector::Error>, stage: Stage) -> (routed:
        Result<Applied<'_, E>, &'static str>)
        ensures
            self.dispatches(parsed, stage, routed),
    {
        let packet = match parsed {
            Ok(packet) => packet,
            Err(_) => {
                return Err(INVALID_PACKET);
            },
        };
        let entry = match self.get(&self.master_service_id) {
            Some(service) => service.hook(stage),
            None => None,
        };
        match entry {
            Some(entry) => Ok(Applied::Call(Invocation { entry, stage, packet })),
            None => if holds_bytes(&packet) {
                Ok(Applied::Done(Action::Pass, packet.into_packet()))
            } else {
                Err(PACKET_LOST)
            },
        }
    }

    /// The part that the two sides of the resolver share.
    fn apply(&self, packet: Vec<u8>, stage: Stage) -> (applied: Result<
        Applied<'_, E>,
        &'static str,
    >)
        ensures
            self.applies(packet@, stage, applied),
    {
        if !self.enabled(stage) {
            return Ok(Applied::Done(Action::Pass, packet));
        }
        self.dispatch(parse_wire(packet), stage)
    }

    /// Applies the hook of a stage to a packet of a client-facing session.
    /// The state of the session does not change what is done.
    pub fn apply_clientside(
        &self,
        session_state: SessionState,
        packet: Vec<u8>,
        stage: Stage,
    ) -> (applied: Result<Applied<'_, E>, &'static str>)
        ensures
            self.applies(packet@, stage, applied),
    {
        self.apply(packet, stage)
    }

    /// Applies the hook of a stage to a packet of the upstream side.
    pub fn apply_serverside(&self, packet: Vec<u8>, stage: Stage) -> (applied: Result<
        Applied<'_, E>,
        &'static str,
    >)
        ensures
            self.applies(packet@, stage, applied),
    {
        self.apply(packet, stage)
    }
}

impl<'a, E> Invocation<'a, E> {
    /// Ends a hook call on a packet that still holds its buffer: the status
    /// that the hook returned is decoded into an action, and the packet is
    /// turned back into raw bytes, as the hook left them.
    pub fn finish(self, status: i32) -> (done: (Action, Vec<u8>))
        requires
            held_bytes(self.packet) is Some,
        ensures
            done.0 == Action::of_status(status as int),
            Some(done.1@) == held_bytes(self.packet),
    {
        let action = Action::from(status);
        (action, self.packet.into_packet())
    }

    /// Ends a hook call, whatever state the hook left the packet in. It
    /// fails, with `PACKET_LOST`, exactly when the packet has no buffer left
    /// to send.
    pub fn complete(self, status: i32) -> (done: Result<(Action, Vec<u8>), &'static str>)
        ensures
            match done {
                Ok((action, bytes)) => action == Action::of_status(status as int) && Some(bytes@)
                    == held_bytes(self.packet),
                Err(e) => held_bytes(self.packet) is None && e@ == PACKET_LOST@,
            },
    {
        if holds_bytes(&self.packet) {
            Ok(self.finish(status))
        } else {
            Err(PACKET_LOST)
        }
    }
}

} // verus!
