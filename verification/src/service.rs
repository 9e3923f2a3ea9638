//! A service: a named unit of hook behaviour, backed by a loaded module.
//!
//! The framework does not load modules itself. Whoever does hands it the
//! handle of the module and the entry points that the module exports, as
//! values of two types of its own choosing: `L` for the handle and `E` for
//! an entry point.

use crate::action::Stage;
use vstd::prelude::*;

verus! {

/// Error of a service whose module could not be loaded.
pub const UNABLE_TO_LOAD: &'static str = "Unable to load the dynamic library";

/// The callable surface of a loaded module: the handle that keeps the module
/// in memory, and the entry point that it exports for each stage, if any.
///
/// The fields cannot be reached from outside, so a value never changes once
/// it is built, and the handle lives as long as the entry points beside it.
pub struct ServiceHooks<L, E> {
    library: L,
    hook_recv: Option<E>,
    hook_deliver: Option<E>,
}

impl<L, E> ServiceHooks<L, E> {
    /// The handle of the loaded module.
    pub closed spec fn library(self) -> L {
        self.library
    }

    /// The entry point of the module for a stage, if it exports one.
    pub closed spec fn entry(self, stage: Stage) -> Option<E> {
        match stage {
            Stage::Recv => self.hook_recv,
            Stage::Deliver => self.hook_deliver,
        }
    }

    /// Binds the handle of a module to the entry points that were resolved
    /// in it. Either entry point may be missing.
    pub fn new(library: L, hook_recv: Option<E>, hook_deliver: Option<E>) -> (hooks: Self)
        ensures
            hooks.library() == library,
            hooks.entry(Stage::Recv) == hook_recv,
            hooks.entry(Stage::Deliver) == hook_deliver,
    {
        ServiceHooks { library, hook_recv, hook_deliver }
    }

    /// The entry point to call at a stage: the receive hook on `Recv`, the
    /// deliver hook on `Deliver`, nothing where the module exports none.
    pub fn hook(&self, stage: Stage) -> (hook: Option<&E>)
        ensures
            hook is Some <==> self.entry(stage) is Some,
            hook matches Some(e) ==> self.entry(stage) == Some(*e),
    {
        match stage {
            Stage::Recv => self.hook_recv.as_ref(),
            Stage::Deliver => self.hook_deliver.as_ref(),
        }
    }

    /// The handle of the loaded module.
    pub fn handle(&self) -> (library: &L)
        ensures
            *library == self.library(),
    {
        &self.library
    }
}

/// What became of the module behind a service.
pub enum ModuleLoad<L, E> {
    /// No module was asked for: the service is a placeholder.
    NotRequested,
    /// The module could not be loaded.
    Failed,
    /// The module was loaded, and these are its hooks.
    Loaded(ServiceHooks<L, E>),
}

/// An entry of the registry: the hooks of a service, or nothing for a
/// placeholder.
pub struct Service<L, E> {
    /// The hooks of the service, if a module was loaded for it.
    pub service_hooks: Option<ServiceHooks<L, E>>,
}

impl<L, E> Service<L, E> {
    /// The service that a load leaves: a placeholder where no module was
    /// asked for, the hooks of the module where it was loaded, and no service
    /// at all where loading failed.
    pub open spec fn of_load(load: ModuleLoad<L, E>) -> Option<Self> {
        match load {
            ModuleLoad::NotRequested => Some(Service { service_hooks: None }),
            ModuleLoad::Failed => None,
            ModuleLoad::Loaded(hooks) => Some(Service { service_hooks: Some(hooks) }),
        }
    }

    /// The entry point of the service for a stage: that of its hooks, and
    /// nothing for a placeholder.
    pub open spec fn entry(self, stage: Stage) -> Option<E> {
        match self.service_hooks {
            Some(hooks) => hooks.entry(stage),
            None => None,
        }
    }

    /// Makes the service for the outcome of a load. It fails, with
    /// `UNABLE_TO_LOAD`, exactly when the load did.
    pub fn new(load: ModuleLoad<L, E>) -> (made: Result<Self, &'static str>)
        ensures
            match made {
                Ok(service) => Self::of_load(load) == Some(service),
                Err(e) => Self::of_load(load) is None && e@ == UNABLE_TO_LOAD@,
            },
    {
        match load {
            ModuleLoad::NotRequested => Ok(Service { service_hooks: None }),
            ModuleLoad::Failed => Err(UNABLE_TO_LOAD),
            ModuleLoad::Loaded(hooks) => Ok(Service { service_hooks: Some(hooks) }),
        }
    }

    /// The entry point to call at a stage, if the service has one.
    pub fn hook(&self, stage: Stage) -> (hook: Option<&E>)
        ensures
            hook is Some <==> self.entry(stage) is Some,
            hook matches Some(e) ==> self.entry(stage) == Some(*e),
    {
        match &self.service_hooks {
            Some(hooks) => hooks.hook(stage),
            None => None,
        }
    }
}

} // verus!
