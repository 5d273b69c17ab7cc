//! Thread IDs and the thread handle.

use vstd::prelude::*;

use crate::thread::global::GlobalKind;
use crate::thread::parker::Parker;

verus! {

/// See `std::thread::ThreadId`. Never `0`.
#[derive(Clone, Copy, Debug, PartialEq, Eq, Structural, Hash)]
pub struct ThreadId(u64);

impl ThreadId {
    #[verifier::type_invariant]
    spec fn non_zero(self) -> bool {
        self.0 != 0
    }

    /// The number of this ID.
    pub closed spec fn value(self) -> u64 {
        self.0
    }

    /// Returns the number of this ID, which is never `0`.
    pub fn as_u64(&self) -> (value: u64)
        ensures
            value == self.value(),
            value != 0,
    {
        proof {
            use_type_invariant(self);
        }
        self.0
    }
}

/// Global counter for [`ThreadId`]s: the last ID handed out, `0` before the
/// first.
#[derive(Debug)]
pub struct ThreadIdCounter {
    /// The last ID handed out.
    pub last: u64,
}

impl ThreadIdCounter {
    /// Creates the counter: no ID handed out yet.
    pub fn new() -> (counter: Self)
        ensures
            counter.last == 0,
    {
        ThreadIdCounter { last: 0 }
    }

    /// Creates a new [`ThreadId`], one above the last.
    ///
    /// Running out of the bit space of `u64` is a panic, so the
    /// counter must not have reached `u64::MAX`.
    pub fn next(&mut self) -> (id: ThreadId)
        requires
            old(self).last < u64::MAX,
        ensures
            id.value() == old(self).last + 1,
            final(self).last == id.value(),
    {
        let id = self.last + 1;
        self.last = id;
        ThreadId(id)
    }
}

/// Every [`ThreadId`] handed out later is larger than one handed out
/// earlier, so no two threads share an ID.
pub proof fn lemma_thread_ids_unique(first: ThreadIdCounter, earlier: ThreadId, later: ThreadId, counter: u64)
    requires
        earlier.value() <= first.last,
        first.last <= counter,
        later.value() == counter + 1,
    ensures
        earlier != later,
        earlier.value() < later.value(),
{
}

/// See `std::thread::Thread`.
#[derive(Debug)]
pub struct Thread {
    /// [`ThreadId`].
    pub id: ThreadId,
    /// Name of the thread.
    pub name: Option<String>,
    /// Parker of the thread.
    pub parker: Parker,
}

/// The name a thread gets from its global context: dedicated and shared
/// workers have one, unless it is empty.
pub open spec fn spec_thread_name(global: Option<GlobalKind>, raw_name: Seq<char>) -> Option<Seq<char>> {
    match global {
        Some(GlobalKind::Dedicated) | Some(GlobalKind::Shared) => if raw_name.len() == 0 {
            None
        } else {
            Some(raw_name)
        },
        _ => None,
    }
}

/// A thread is named after its global context exactly when it is a
/// dedicated or shared worker whose global context has a non-empty name;
/// the name is then that one, unchanged.
pub proof fn lemma_thread_name(global: Option<GlobalKind>, raw_name: Seq<char>)
    ensures
        (global == Some(GlobalKind::Dedicated) || global == Some(GlobalKind::Shared)) && raw_name.len() > 0
            ==> spec_thread_name(global, raw_name) == Some(raw_name),
        spec_thread_name(global, raw_name) is Some ==> (global == Some(GlobalKind::Dedicated) || global
            == Some(GlobalKind::Shared)) && raw_name.len() > 0,
        (spec_thread_name(global, raw_name) matches Some(name) ==> name == raw_name),
{
}

/// Picks the name of the calling thread: `raw_name` is the name of its
/// global context, which only dedicated and shared workers have.
pub fn thread_name(global: Option<GlobalKind>, raw_name: String) -> (name: Option<String>)
    ensures
        match spec_thread_name(global, raw_name@) {
            Some(expected) => name matches Some(n) && n@ == expected,
            None => name is None,
        },
        (global == Some(GlobalKind::Dedicated) || global == Some(GlobalKind::Shared)) && raw_name@.len() > 0
            ==> (name matches Some(n) && n@ == raw_name@),
        name is Some ==> (global == Some(GlobalKind::Dedicated) || global == Some(GlobalKind::Shared)),
{
    proof {
        lemma_thread_name(global, raw_name@);
    }
    match global {
        Some(GlobalKind::Dedicated) | Some(GlobalKind::Shared) => {
            if raw_name.as_str().is_empty() {
                None
            } else {
                Some(raw_name)
            }
        },
        _ => None,
    }
}

impl Thread {
    /// Create a new [`Thread`] with a fresh [`ThreadId`].
    pub fn new_with_name(counter: &mut ThreadIdCounter, name: Option<String>) -> (thread: Self)
        requires
            old(counter).last < u64::MAX,
        ensures
            thread.id.value() == old(counter).last + 1,
            final(counter).last == thread.id.value(),
            thread.name == name,
            !thread.parker.notified,
    {
        Thread { id: counter.next(), name, parker: Parker::new() }
    }

    /// Create a new [`Thread`] for the calling thread, named after its
    /// global context.
    pub fn new(counter: &mut ThreadIdCounter, global: Option<GlobalKind>, raw_name: String) -> (thread: Self)
        requires
            old(counter).last < u64::MAX,
        ensures
            thread.id.value() == old(counter).last + 1,
            final(counter).last == thread.id.value(),
            match spec_thread_name(global, raw_name@) {
                Some(expected) => thread.name matches Some(n) && n@ == expected,
                None => thread.name is None,
            },
            !thread.parker.notified,
    {
        let name = thread_name(global, raw_name);
        Self::new_with_name(counter, name)
    }

    /// See `std::thread::Thread::id()`.
    pub fn id(&self) -> (id: ThreadId)
        ensures
            id == self.id,
    {
        self.id
    }

    /// See `std::thread::Thread::name()`.
    pub fn name(&self) -> (name: Option<&str>)
        ensures
            match self.name {
                Some(n) => name matches Some(s) && s@ == n@,
                None => name is None,
            },
    {
        match &self.name {
            Some(name) => Some(name.as_str()),
            None => None,
        }
    }

    /// See `std::thread::Thread::unpark()`.
    pub fn unpark(&mut self)
        ensures
            final(self).parker.notified,
            final(self).id == old(self).id,
            final(self).name == old(self).name,
    {
        self.parker.unpark();
    }
}

} // verus!
