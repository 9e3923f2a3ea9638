//! The vocabulary shared by the framework and its modules: the stage at which
//! a hook runs, and the action that a hook asks for.

use vstd::prelude::*;
use vstd::std_specs::convert::FromSpecImpl;

verus! {

/// Status code by which a hook asks to forward the packet unchanged.
pub const STATUS_PASS: i32 = 1;

/// Status code by which a hook asks for normal cache and resolution handling.
pub const STATUS_LOOKUP: i32 = 2;

/// Status code that the framework itself uses for `Action::Drop`. A hook may
/// return any other code to the same effect.
pub const STATUS_DROP: i32 = 3;

/// State of a client-facing session. It carries nothing yet.
#[derive(Copy, Clone, Debug, Default, PartialEq, Eq, Structural)]
pub struct SessionState;

/// What is to be done with a packet once a hook has seen it.
#[derive(Copy, Clone, Debug, PartialEq, Eq, Structural)]
pub enum Action {
    /// Forward the packet unchanged.
    Pass,
    /// Hand the packet to the cache and the resolver.
    Lookup,
    /// Discard the packet.
    Drop,
}

/// The point of a request at which a hook runs.
#[derive(Copy, Clone, Debug, PartialEq, Eq, Structural)]
pub enum Stage {
    /// A packet has just arrived.
    Recv,
    /// A packet is about to be sent onward.
    Deliver,
}

impl Action {
    /// The status code that stands for an action.
    pub open spec fn status(self) -> int {
        match self {
            Action::Pass => 1,
            Action::Lookup => 2,
            Action::Drop => 3,
        }
    }

    /// The action that a status code asks for. Every code that is neither
    /// "pass" nor "lookup" closes the door: the packet is dropped.
    pub open spec fn of_status(status: int) -> Action {
        if status == 1 {
            Action::Pass
        } else if status == 2 {
            Action::Lookup
        } else {
            Action::Drop
        }
    }
}

impl From<Action> for i32 {
    fn from(v: Action) -> (status: i32) {
        match v {
            Action::Pass => STATUS_PASS,
            Action::Lookup => STATUS_LOOKUP,
            Action::Drop => STATUS_DROP,
        }
    }
}

impl FromSpecImpl<Action> for i32 {
    open spec fn obeys_from_spec() -> bool {
        true
    }

    open spec fn from_spec(v: Action) -> i32 {
        v.status() as i32
    }
}

impl From<i32> for Action {
    fn from(id: i32) -> (action: Action) {
        if id == STATUS_PASS {
            Action::Pass
        } else if id == STATUS_LOOKUP {
            Action::Lookup
        } else {
            Action::Drop
        }
    }
}

impl FromSpecImpl<i32> for Action {
    open spec fn obeys_from_spec() -> bool {
        true
    }

    open spec fn from_spec(id: i32) -> Action {
        Action::of_status(id as int)
    }
}

/// Decoding is total, and each action has exactly the codes that the module
/// interface gives it: `1` alone means pass, `2` alone means lookup, and
/// every other integer, zero and the negative ones included, means drop.
pub proof fn lemma_status_decoding(status: int)
    ensures
        Action::of_status(status) == Action::Pass <==> status == 1,
        Action::of_status(status) == Action::Lookup <==> status == 2,
        Action::of_status(status) == Action::Drop <==> status != 1 && status != 2,
{
}

/// Decoding the status code of an action gives the action back.
pub proof fn lemma_status_round_trip(action: Action)
    ensures
        Action::of_status(action.status()) == action,
        1 <= action.status() <= 3,
{
}

} // verus!
