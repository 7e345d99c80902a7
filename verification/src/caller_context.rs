//! The name of the monitored call that is executing now, which a nested call
//! reads as its caller.
//!
//! A context is a single slot, not a growing list: entering a call puts the
//! call's own name in the slot and hands the previous value out as a token,
//! and leaving the call puts the token's value back. Each logical chain of
//! calls has a context of its own. Where chains share a worker and take
//! turns on it, the chain that resumes exchanges its saved context with the
//! worker's slot, and exchanges them again when it is suspended.

use vstd::prelude::*;

verus! {

/// The slot that holds the name of the nearest enclosing monitored call, or
/// the empty string where there is none.
pub struct CallerContext {
    current: &'static str,
}

/// What a context held before a call was entered. Leaving the call consumes
/// it, so one entry is undone once.
pub struct RestoreToken {
    previous: &'static str,
}

impl View for CallerContext {
    type V = Seq<char>;

    closed spec fn view(&self) -> Seq<char> {
        self.current@
    }
}

impl View for RestoreToken {
    type V = Seq<char>;

    closed spec fn view(&self) -> Seq<char> {
        self.previous@
    }
}

/// Entry of a call named `name` into a context that holds `slot`: what the
/// context holds afterwards, and what the token holds. The context holds the
/// call's own name, and the token what the context held.
pub open spec fn entered(slot: Seq<char>, name: Seq<char>) -> (Seq<char>, Seq<char>) {
    (name, slot)
}

/// Exit with a token that holds `token` from a context that holds `slot`:
/// what the context holds afterwards. It is the token's value, whatever the
/// context held: the value is put back, the slot is not merely cleared.
pub open spec fn left(slot: Seq<char>, token: Seq<char>) -> Seq<char> {
    token
}

/// Exchange of a worker's slot that holds `slot` with a saved context that
/// holds `saved`: what the slot and the saved context hold afterwards.
pub open spec fn exchanged(slot: Seq<char>, saved: Seq<char>) -> (Seq<char>, Seq<char>) {
    (saved, slot)
}

impl CallerContext {
    /// A context in which no monitored call is executing.
    pub fn new() -> (context: CallerContext)
        ensures
            context@ == Seq::<char>::empty(),
    {
        proof {
            reveal_strlit("");
        }
        let context = CallerContext { current: "" };
        context
    }

    /// The name of the nearest enclosing monitored call, empty where no call
    /// is executing.
    pub fn current(&self) -> (name: &'static str)
        ensures
            name@ == self@,
    {
        self.current
    }

    /// Makes `name` the executing call and hands out the value to restore.
    pub fn enter(&mut self, name: &'static str) -> (token: RestoreToken)
        ensures
            (final(self)@, token@) == entered(old(self)@, name@),
    {
        let token = RestoreToken { previous: self.current };
        self.current = name;
        token
    }

    /// Puts back the value that the matching `enter` found.
    pub fn exit(&mut self, token: RestoreToken)
        ensures
            final(self)@ == left(old(self)@, token@),
    {
        self.current = token.previous;
    }

    /// Exchanges the worker's slot with the saved context of a chain: once
    /// when the chain resumes on the worker and once when it is suspended.
    pub fn exchange(&mut self, saved: &mut CallerContext)
        ensures
            (final(self)@, final(saved)@) == exchanged(old(self)@, old(saved)@),
    {
        let kept = self.current;
        self.current = saved.current;
        saved.current = kept;
    }
}

impl RestoreToken {
    /// The value that leaving the call restores.
    pub fn previous(&self) -> (name: &'static str)
        ensures
            name@ == self@,
    {
        self.previous
    }
}

} // verus!
