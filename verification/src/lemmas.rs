//! What holds of the framework as a whole: facts that relate loading, the
//! registry and the handling of packets, each proved from the definitions
//! that the contracts use.

use crate::action::Action;
use crate::action::Stage;
use crate::hooks::load_error;
use crate::hooks::registers;
use crate::hooks::registry_after_all;
use crate::hooks::registry_after_scan;
use crate::hooks::warnings_of;
use crate::hooks::warnings_of_scan;
use crate::hooks::Applied;
use crate::hooks::Hooks;
use crate::loader::master_stem;
use crate::loader::Finding;
use crate::loader::ModuleFile;
use crate::loader::MASTER_SERVICE_LIBRARY_NAME;
use crate::loader::UNABLE_TO_REGISTER;
use crate::loader::UNSUPPORTED_PATH;
use crate::packet::wire_format_accepted;
use crate::service::ModuleLoad;
use crate::service::Service;
use crate::text::lemma_ascii_is_text;
use vstd::prelude::*;
use vstd::string::is_ascii_spec_bytes;
use vstd::string::StringSliceAdditionalSpecFns;
use vstd::utf8::encode_utf8_valid_utf8;
use vstd::utf8::valid_utf8;

verus! {

/// The stem of the master module is the six letters of its name.
pub proof fn lemma_master_stem()
    ensures
        master_stem() == seq![0x6du8, 0x61u8, 0x73u8, 0x74u8, 0x65u8, 0x72u8],
{
    reveal_strlit("master");
    is_ascii_spec_bytes(MASTER_SERVICE_LIBRARY_NAME);
    assert(master_stem() =~= seq![0x6du8, 0x61u8, 0x73u8, 0x74u8, 0x65u8, 0x72u8]);
}

/// The master module at a path of 7-bit ASCII is found to be the master
/// module, whatever came of loading it.
pub proof fn lemma_master_at_ascii_path(file: ModuleFile)
    requires
        file.stem matches Some(stem) && stem@ == seq![
            0x6du8,
            0x61u8,
            0x73u8,
            0x74u8,
            0x65u8,
            0x72u8,
        ],
        forall|i: int| 0 <= i < file.path@.len() ==> file.path@[i] < 0x80,
    ensures
        file.is_master(),
        file.finding() == Finding::Master,
{
    lemma_master_stem();
    lemma_ascii_is_text(file.path@);
    lemma_ascii_is_text(file.stem->0@);
}

/// A file whose stem is not text is skipped with a warning and brings
/// nothing to the registry, whatever came of loading it.
pub proof fn lemma_undecodable_stem_is_reported<L, E>(file: ModuleFile, load: ModuleLoad<L, E>)
    requires
        file.stem matches Some(stem) && !valid_utf8(stem@),
    ensures
        !file.is_master(),
        file.finding() == Finding::UnsupportedPath,
        load_error(file, load) == Some(UNSUPPORTED_PATH@),
        registers(file, load) is None,
{
    encode_utf8_valid_utf8(MASTER_SERVICE_LIBRARY_NAME@);
}

/// A module that fails to load is skipped with a warning, the master and
/// every other module alike, and brings nothing to the registry.
pub proof fn lemma_failed_load_is_reported<L, E>(file: ModuleFile, load: ModuleLoad<L, E>)
    requires
        file.finding() == Finding::Master || file.finding() == Finding::NotRetained,
        load is Failed,
    ensures
        load_error(file, load) == Some(UNABLE_TO_REGISTER@),
        registers(file, load) is None,
{
}

/// A module other than the master is never retained: loaded or not, it
/// brings nothing to the registry, and it is reported exactly when its
/// name is no text or its load failed.
pub proof fn lemma_other_module_is_not_retained<L, E>(file: ModuleFile, load: ModuleLoad<L, E>)
    requires
        file.stem is Some,
        !file.is_master(),
    ensures
        registers(file, load) is None,
        load_error(file, load) is Some <==> file.finding() == Finding::UnsupportedPath
            || load is Failed,
{
}

/// Without a directory nothing is loaded: whatever list of files is handed
/// in, the registry stays as it was and no warning is given.
pub proof fn lemma_without_directory_nothing_is_loaded<L, E>(
    services: Map<Seq<u8>, Service<L, E>>,
    master: Seq<u8>,
    found: Seq<(ModuleFile, ModuleLoad<L, E>)>,
)
    ensures
        registry_after_scan(None, services, master, found) == services,
        warnings_of_scan(None, found).len() == 0,
{
}

/// With a directory, a scan takes every file found, in order.
pub proof fn lemma_with_directory_every_file_is_taken<L, E>(
    directory: Seq<char>,
    services: Map<Seq<u8>, Service<L, E>>,
    master: Seq<u8>,
    found: Seq<(ModuleFile, ModuleLoad<L, E>)>,
)
    ensures
        registry_after_scan(Some(directory), services, master, found) == registry_after_all(
            services,
            master,
            found,
        ),
        warnings_of_scan(Some(directory), found) == warnings_of(found),
{
}

/// Loading touches the master entry alone: whatever files are found, every
/// other identifier keeps the service it had, or stays without one.
pub proof fn lemma_only_master_changes<L, E>(
    services: Map<Seq<u8>, Service<L, E>>,
    master: Seq<u8>,
    found: Seq<(ModuleFile, ModuleLoad<L, E>)>,
    id: Seq<u8>,
)
    requires
        id != master,
    ensures
        registry_after_all(services, master, found).contains_key(id) == services.contains_key(id),
        registry_after_all(services, master, found)[id] == services[id],
    decreases found.len(),
{
    if found.len() > 0 {
        lemma_only_master_changes(services, master, found.drop_last(), id);
    }
}

/// A directory without a master module leaves the registry as it was. In
/// particular an empty directory does, and so does one whose files are all
/// named otherwise.
pub proof fn lemma_without_master_nothing_is_registered<L, E>(
    services: Map<Seq<u8>, Service<L, E>>,
    master: Seq<u8>,
    found: Seq<(ModuleFile, ModuleLoad<L, E>)>,
)
    requires
        forall|i: int| 0 <= i < found.len() ==> !(#[trigger] found[i]).0.is_master(),
    ensures
        registry_after_all(services, master, found) == services,
    decreases found.len(),
{
    if found.len() > 0 {
        let rest = found.drop_last();
        assert forall|i: int| 0 <= i < rest.len() implies !(#[trigger] rest[i]).0.is_master() by {
            assert(rest[i] == found[i]);
        }
        lemma_without_master_nothing_is_registered(services, master, rest);
        assert(!found[found.len() - 1].0.is_master());
    }
}

/// A file that is skipped changes nothing: the registry ends as if the file
/// had not been in the directory, so the files after it are taken as they
/// would have been without it.
pub proof fn lemma_skipped_file_changes_nothing<L, E>(
    services: Map<Seq<u8>, Service<L, E>>,
    master: Seq<u8>,
    found: Seq<(ModuleFile, ModuleLoad<L, E>)>,
    at: int,
)
    requires
        0 <= at < found.len(),
        registers(found[at].0, found[at].1) is None,
    ensures
        registry_after_all(services, master, found) == registry_after_all(
            services,
            master,
            found.remove(at),
        ),
    decreases found.len(),
{
    if at == found.len() - 1 {
        assert(found.remove(at) =~= found.drop_last());
    } else {
        let rest = found.drop_last();
        assert(rest[at] == found[at]);
        lemma_skipped_file_changes_nothing(services, master, rest, at);
        assert(found.remove(at).drop_last() =~= rest.remove(at));
        assert(found.remove(at).last() == found.last());
    }
}

/// The last master module that loads is the one in force: once its service
/// is registered, the files after it that bring nothing leave it in place.
pub proof fn lemma_last_master_stands<L, E>(
    services: Map<Seq<u8>, Service<L, E>>,
    master: Seq<u8>,
    found: Seq<(ModuleFile, ModuleLoad<L, E>)>,
    at: int,
)
    requires
        0 <= at < found.len(),
        registers(found[at].0, found[at].1) is Some,
        forall|i: int| at < i < found.len() ==> registers(found[i].0, found[i].1) is None,
    ensures
        registry_after_all(services, master, found).contains_key(master),
        Some(registry_after_all(services, master, found)[master]) == registers(
            found[at].0,
            found[at].1,
        ),
    decreases found.len(),
{
    if at < found.len() - 1 {
        let rest = found.drop_last();
        assert(rest[at] == found[at]);
        assert forall|i: int| at < i < rest.len() implies registers(rest[i].0, rest[i].1)
            is None by {
            assert(rest[i] == found[i]);
        }
        lemma_last_master_stands(services, master, rest, at);
    }
}

/// A registry without a directory stays disabled, whatever is handed to it
/// as the files of a scan.
pub proof fn lemma_without_directory_disabled<L, E>(
    hooks: Hooks<L, E>,
    found: Seq<(ModuleFile, ModuleLoad<L, E>)>,
)
    requires
        hooks.libraries_path() is None,
        hooks.services() == registry_after_scan(
            hooks.libraries_path(),
            Map::empty(),
            hooks.master_id(),
            found,
        ),
    ensures
        !hooks.is_enabled(),
        hooks.services() == Map::<Seq<u8>, Service<L, E>>::empty(),
{
}

/// A registry that was filled from a directory without a master module is
/// disabled.
pub proof fn lemma_without_master_disabled<L, E>(
    hooks: Hooks<L, E>,
    found: Seq<(ModuleFile, ModuleLoad<L, E>)>,
)
    requires
        hooks.services() == registry_after_all(Map::empty(), hooks.master_id(), found),
        forall|i: int| 0 <= i < found.len() ==> !(#[trigger] found[i]).0.is_master(),
    ensures
        !hooks.is_enabled(),
        hooks.services() == Map::<Seq<u8>, Service<L, E>>::empty(),
{
    lemma_without_master_nothing_is_registered(
        Map::<Seq<u8>, Service<L, E>>::empty(),
        hooks.master_id(),
        found,
    );
}

/// Disabled, the framework is a no-op on every buffer, well-formed or not:
/// the action is `Pass` and the bytes are those that came.
pub proof fn lemma_disabled_is_no_op<'a, L, E>(
    hooks: Hooks<L, E>,
    bytes: Seq<u8>,
    stage: Stage,
    applied: Result<Applied<'a, E>, &'static str>,
)
    requires
        hooks.applies(bytes, stage, applied),
        !hooks.is_enabled(),
    ensures
        applied matches Ok(Applied::Done(action, passed)) && action == Action::Pass && passed@
            == bytes,
{
}

/// With a directory that holds no master module, and so with an empty one,
/// the framework is disabled at both stages and passes every buffer on as it
/// came, byte for byte.
pub proof fn lemma_without_master_every_packet_passes<'a, L, E>(
    hooks: Hooks<L, E>,
    found: Seq<(ModuleFile, ModuleLoad<L, E>)>,
    bytes: Seq<u8>,
    stage: Stage,
    applied: Result<Applied<'a, E>, &'static str>,
)
    requires
        hooks.services() == registry_after_all(Map::empty(), hooks.master_id(), found),
        forall|i: int| 0 <= i < found.len() ==> !(#[trigger] found[i]).0.is_master(),
        hooks.applies(bytes, stage, applied),
    ensures
        !hooks.is_enabled(),
        applied matches Ok(Applied::Done(action, passed)) && action == Action::Pass && passed@
            == bytes,
{
    lemma_without_master_disabled(hooks, found);
}

/// Enabled, the framework turns down every buffer that is no DNS message,
/// and no hook call comes of it.
pub proof fn lemma_malformed_is_refused<'a, L, E>(
    hooks: Hooks<L, E>,
    bytes: Seq<u8>,
    stage: Stage,
    applied: Result<Applied<'a, E>, &'static str>,
)
    requires
        hooks.applies(bytes, stage, applied),
        hooks.is_enabled(),
        !wire_format_accepted(bytes),
    ensures
        applied is Err,
{
}

/// A stage for which the master module exports no entry point is a no-op on
/// every DNS message, though the framework is enabled.
pub proof fn lemma_missing_hook_is_no_op<'a, L, E>(
    hooks: Hooks<L, E>,
    bytes: Seq<u8>,
    stage: Stage,
    applied: Result<Applied<'a, E>, &'static str>,
)
    requires
        hooks.applies(bytes, stage, applied),
        hooks.is_enabled(),
        wire_format_accepted(bytes),
        hooks.master_entry(stage) is None,
    ensures
        applied matches Ok(Applied::Done(action, passed)) && action == Action::Pass && passed@
            == bytes,
{
}

/// A hook is due exactly when the framework is enabled, the buffer is a DNS
/// message, and the master module exports an entry point for the stage.
pub proof fn lemma_hook_is_due<'a, L, E>(
    hooks: Hooks<L, E>,
    bytes: Seq<u8>,
    stage: Stage,
    applied: Result<Applied<'a, E>, &'static str>,
)
    requires
        hooks.applies(bytes, stage, applied),
    ensures
        applied matches Ok(Applied::Call(_)) <==> hooks.is_enabled() && wire_format_accepted(bytes)
            && hooks.master_entry(stage) is Some,
{
}

} // verus!
