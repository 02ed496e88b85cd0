//! The machine's host name, looked up once and kept.
//!
//! A cache starts uninitialized. The first access starts the lookup, and the
//! cache is resolving until the lookup ends; its outcome, or `Unknown` where
//! the lookup failed, is then kept for good. Whoever holds the cache
//! exclusively drives it, so a process shares one cache behind a lock.

use vstd::prelude::*;

verus! {

/// Where a cache stands.
#[derive(Debug)]
enum CacheState {
    /// Nobody has asked yet.
    Uninitialized,
    /// A lookup is under way.
    Resolving,
    /// The name is known, and stays.
    Resolved(String),
}

/// Where a cache stands, in mathematical form.
pub enum CacheModel {
    Uninitialized,
    Resolving,
    Resolved(Seq<char>),
}

/// What is to happen after an access.
#[derive(Debug, PartialEq, Eq)]
pub enum Access {
    /// The caller is the first: it looks the name up and reports the outcome.
    Resolve,
    /// Another lookup is under way: the caller waits for its outcome.
    Wait,
    /// The name is known.
    Ready(String),
}

/// What can happen to a cache.
pub enum CacheEvent {
    /// Somebody asks for the name.
    Accessed,
    /// A lookup ended, with a name or without.
    Completed(Option<Seq<char>>),
}

/// The host name cache.
#[derive(Debug)]
pub struct HostnameCache {
    state: CacheState,
}

impl View for HostnameCache {
    type V = CacheModel;

    closed spec fn view(&self) -> CacheModel {
        match self.state {
            CacheState::Uninitialized => CacheModel::Uninitialized,
            CacheState::Resolving => CacheModel::Resolving,
            CacheState::Resolved(name) => CacheModel::Resolved(name@),
        }
    }
}

/// The name that a lookup settles on: its outcome, or `Unknown` where it
/// failed.
pub open spec fn name_or_unknown(outcome: Option<Seq<char>>) -> Seq<char> {
    match outcome {
        Some(name) => name,
        None => "Unknown"@,
    }
}

/// The state after an access: the first access starts the lookup.
pub open spec fn after_access(state: CacheModel) -> CacheModel {
    match state {
        CacheModel::Uninitialized => CacheModel::Resolving,
        other => other,
    }
}

/// The state after a lookup ended: its outcome is kept, unless a name is
/// kept already.
pub open spec fn after_completion(state: CacheModel, outcome: Option<Seq<char>>) -> CacheModel {
    match state {
        CacheModel::Resolved(name) => CacheModel::Resolved(name),
        _ => CacheModel::Resolved(name_or_unknown(outcome)),
    }
}

/// The state after one event.
pub open spec fn after_event(state: CacheModel, event: CacheEvent) -> CacheModel {
    match event {
        CacheEvent::Accessed => after_access(state),
        CacheEvent::Completed(outcome) => after_completion(state, outcome),
    }
}

/// The state after a run of events, first to last.
pub open spec fn after_events(state: CacheModel, events: Seq<CacheEvent>) -> CacheModel
    decreases events.len(),
{
    if events.len() == 0 {
        state
    } else {
        after_event(after_events(state, events.drop_last()), events.last())
    }
}

/// `gethostname::gethostname`: the operating system's name for this machine,
/// with whatever is not Unicode in it replaced as `to_string_lossy` does. The
/// name depends on the machine, so nothing is claimed of it. On Unix the call
/// always returns; on Windows it can fail if the name changes while it is
/// read.
#[verifier::external_body]
fn system_hostname() -> String {
    gethostname::gethostname().to_string_lossy().to_string()
}

impl HostnameCache {
    /// A cache that nobody has asked yet.
    pub fn new() -> (cache: HostnameCache)
        ensures
            cache@ == CacheModel::Uninitialized,
    {
        HostnameCache { state: CacheState::Uninitialized }
    }

    /// The name, if it is known.
    pub fn get(&self) -> (name: Option<&str>)
        ensures
            match self@ {
                CacheModel::Resolved(kept) => name matches Some(n) && n@ == kept,
                _ => name is None,
            },
    {
        match &self.state {
            CacheState::Resolved(name) => Some(name.as_str()),
            _ => None,
        }
    }

    /// Records an access and says what the caller is to do.
    pub fn access(&mut self) -> (action: Access)
        ensures
            final(self)@ == after_access(old(self)@),
            match old(self)@ {
                CacheModel::Uninitialized => action == Access::Resolve,
                CacheModel::Resolving => action == Access::Wait,
                CacheModel::Resolved(kept) => action matches Access::Ready(name) && name@ == kept,
            },
    {
        match &self.state {
            CacheState::Uninitialized => {
                self.state = CacheState::Resolving;
                Access::Resolve
            },
            CacheState::Resolving => Access::Wait,
            CacheState::Resolved(name) => Access::Ready(name.clone()),
        }
    }

    /// Records the end of a lookup and returns the name that the cache now
    /// keeps: the outcome, or `Unknown` for a failed lookup, unless a name
    /// was kept before, which then stays.
    pub fn complete(&mut self, outcome: Option<String>) -> (name: String)
        ensures
            final(self)@ == after_completion(
                old(self)@,
                match outcome {
                    Some(n) => Some(n@),
                    None => None,
                },
            ),
            final(self)@ == CacheModel::Resolved(name@),
    {
        match &self.state {
            CacheState::Resolved(kept) => kept.clone(),
            _ => {
                let name = match outcome {
                    Some(n) => n,
                    None => "Unknown".to_owned(),
                };
                self.state = CacheState::Resolved(name.clone());
                name
            },
        }
    }

    /// The name, looked up now if it is not known yet. A name that is known
    /// is returned as it is, without a lookup.
    pub fn get_or_resolve(&mut self) -> (name: String)
        ensures
            final(self)@ == CacheModel::Resolved(name@),
            old(self)@ matches CacheModel::Resolved(kept) ==> name@ == kept,
    {
        match self.access() {
            Access::Ready(name) => name,
            _ => self.complete(Some(system_hostname())),
        }
    }
}

/// The machine's host name, from the cache.
pub fn get_hostname(cache: &mut HostnameCache) -> (name: String)
    ensures
        final(cache)@ == CacheModel::Resolved(name@),
        old(cache)@ matches CacheModel::Resolved(kept) ==> name@ == kept,
{
    cache.get_or_resolve()
}

/// A name that is kept stays: no access and no late outcome changes it.
pub proof fn lemma_resolved_is_terminal(name: Seq<char>, events: Seq<CacheEvent>)
    ensures
        after_events(CacheModel::Resolved(name), events) == CacheModel::Resolved(name),
    decreases events.len(),
{
    if events.len() > 0 {
        lemma_resolved_is_terminal(name, events.drop_last());
    }
}

/// Only the first lookup that ends decides the name: whatever happens after
/// it, and whatever later lookups report, the cache keeps that outcome.
pub proof fn lemma_first_outcome_wins(
    state: CacheModel,
    first: Option<Seq<char>>,
    later: Seq<CacheEvent>,
)
    requires
        !(state is Resolved),
    ensures
        after_events(after_completion(state, first), later) == CacheModel::Resolved(
            name_or_unknown(first),
        ),
{
    lemma_resolved_is_terminal(name_or_unknown(first), later);
}

} // verus!
