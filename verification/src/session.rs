//! The per-store state that outlives a call: the loaded manager with the
//! switch that stops its receive loop, and the linking sessions under way.

use vstd::prelude::*;
use crate::errors::SignalError;
use crate::registry::Registry;

verus! {

/// A loaded manager, with the sender that stops the receive loop started
/// for it, while one is running.
pub struct ManagerEntry<M, C> {
    pub manager: M,
    cancel: Option<C>,
}

impl<M, C> ManagerEntry<M, C> {
    /// The manager held.
    pub closed spec fn held_manager(&self) -> M {
        self.manager
    }

    /// The sender that stops the running receive loop, if one was installed.
    pub closed spec fn cancel_sender(&self) -> Option<C> {
        self.cancel
    }

    /// A freshly loaded manager, with no receive loop.
    pub fn new(manager: M) -> (entry: Self)
        ensures
            entry.held_manager() == manager,
            entry.cancel_sender() is None,
    {
        ManagerEntry { manager, cancel: None }
    }

    /// Installs the stop switch of a newly started receive loop, replacing
    /// (and so dropping) the switch of a previous loop.
    pub fn install_cancel(&mut self, sender: C)
        ensures
            final(self).held_manager() == old(self).held_manager(),
            final(self).cancel_sender() == Some(sender),
    {
        self.cancel = Some(sender);
    }

    /// Takes the stop switch out, leaving none; a second call finds nothing.
    pub fn take_cancel(&mut self) -> (sender: Option<C>)
        ensures
            final(self).held_manager() == old(self).held_manager(),
            sender == old(self).cancel_sender(),
            final(self).cancel_sender() is None,
    {
        self.cancel.take()
    }
}

/// What finishing the linking of the store at `path` finds among the sessions under way.
pub open spec fn link_session_outcome<H>(sessions: Map<Seq<char>, H>, path: Seq<char>) -> Result<H, SignalError> {
    if sessions.dom().contains(path) {
        Ok(sessions[path])
    } else {
        Err(SignalError::NoActiveLinkingSession)
    }
}

/// Takes the linking session of the store at `data_path` out of the
/// sessions under way; refused when none was started.
pub fn take_link_session<H>(sessions: &mut Registry<H>, data_path: &String) -> (outcome: Result<H, SignalError>)
    ensures
        outcome == link_session_outcome(old(sessions)@, data_path@),
        final(sessions)@ == old(sessions)@.remove(data_path@),
{
    match sessions.remove(data_path) {
        Some(handle) => Ok(handle),
        None => Err(SignalError::NoActiveLinkingSession),
    }
}

/// Finishing a linking right after it was started for the same store finds
/// that session, and leaves the sessions of the other stores as they were.
pub proof fn law_finish_finds_started_link<H>(sessions: Map<Seq<char>, H>, path: Seq<char>, handle: H)
    ensures
        link_session_outcome(sessions.insert(path, handle), path) == Ok::<H, SignalError>(handle),
        sessions.insert(path, handle).remove(path) == sessions.remove(path),
{
    assert(sessions.insert(path, handle).remove(path) =~= sessions.remove(path));
}

/// A linking session is finished only once: finishing again is refused.
pub proof fn law_link_finishes_once<H>(sessions: Map<Seq<char>, H>, path: Seq<char>)
    ensures
        link_session_outcome(sessions.remove(path), path) == Err::<H, SignalError>(
            SignalError::NoActiveLinkingSession,
        ),
{
}

/// A manager loaded for a store is the one found for that store on later
/// calls, whatever was loaded for the other stores since: after
/// `Registry::insert` of `manager` under `path` (giving `loaded`) and of
/// another store's manager (giving `later`), `Registry::get` of `path` on
/// `later` finds `manager`.
pub proof fn law_loaded_manager_is_reused<M>(
    before: Registry<M>,
    loaded: Registry<M>,
    later: Registry<M>,
    path: Seq<char>,
    manager: M,
    other: Seq<char>,
    other_manager: M,
)
    requires
        loaded@ == before@.insert(path, manager),
        later@ == loaded@.insert(other, other_manager),
        other != path,
    ensures
        loaded@.dom().contains(path),
        loaded@[path] == manager,
        later@.dom().contains(path),
        later@[path] == manager,
{
}

/// Registration as a primary device: always refused, linking is the way in.
pub fn register(data_path: String, phone_number: String, use_voice: bool) -> (outcome: Result<(), SignalError>)
    ensures
        outcome == Err::<(), SignalError>(SignalError::RegistrationUnsupported),
{
    Err(SignalError::RegistrationUnsupported)
}

/// Confirmation of a registration code: always refused, linking is the way in.
pub fn confirm_registration(data_path: String, code: String) -> (outcome: Result<(), SignalError>)
    ensures
        outcome == Err::<(), SignalError>(SignalError::RegistrationUnsupported),
{
    Err(SignalError::RegistrationUnsupported)
}

} // verus!
