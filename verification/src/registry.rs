//! The callback registry: at most one handler per event kind.
//!
//! Registration is last-wins and replaces the previous handler atomically
//! from the caller's point of view; dispatch invokes the currently
//! registered handler synchronously and passes no event payload.

use vstd::prelude::*;
use crate::event::ChangeEvent;

verus! {

/// Holds zero or one registered handler for each event kind.
pub struct CallbackRegistry<F> {
    /// The handler currently registered for modify events.
    pub on_modify: Option<F>,
    /// The handler currently registered for access events.
    pub on_access: Option<F>,
}

impl<F> CallbackRegistry<F> {
    /// The registry after a modify-handler registration: the new handler
    /// replaces any previous one, the access slot is untouched.
    pub open spec fn with_modify(self, f: F) -> Self {
        CallbackRegistry { on_modify: Some(f), on_access: self.on_access }
    }

    /// The registry after an access-handler registration.
    pub open spec fn with_access(self, f: F) -> Self {
        CallbackRegistry { on_modify: self.on_modify, on_access: Some(f) }
    }

    /// Which handler an event is dispatched to: modify events go to the
    /// modify slot, access events to the access slot, everything else to
    /// nobody.
    pub open spec fn handler_for(self, event: ChangeEvent) -> Option<F> {
        match event {
            ChangeEvent::Modified => self.on_modify,
            ChangeEvent::Accessed => self.on_access,
            _ => None,
        }
    }
}

impl<F: Fn()> CallbackRegistry<F> {
    /// Every registered handler may be called.
    pub open spec fn handlers_callable(&self) -> bool {
        &&& (self.on_modify matches Some(f) ==> call_requires(f, ()))
        &&& (self.on_access matches Some(f) ==> call_requires(f, ()))
    }

    /// An empty registry: nothing fires on any event.
    pub fn new() -> (r: Self)
        ensures
            r.on_modify is None,
            r.on_access is None,
            r.handlers_callable(),
    {
        CallbackRegistry { on_modify: None, on_access: None }
    }

    /// Register `f` for modify events, replacing any previous registration.
    pub fn set_modify(&mut self, f: F)
        requires
            old(self).handlers_callable(),
            call_requires(f, ()),
        ensures
            *final(self) == old(self).with_modify(f),
            final(self).handlers_callable(),
    {
        self.on_modify = Some(f);
    }

    /// Register `f` for access events, replacing any previous registration.
    pub fn set_access(&mut self, f: F)
        requires
            old(self).handlers_callable(),
            call_requires(f, ()),
        ensures
            *final(self) == old(self).with_access(f),
            final(self).handlers_callable(),
    {
        self.on_access = Some(f);
    }

    /// Invoke the handler registered for `event`, if any, synchronously on
    /// the calling context.  Reports whether a handler fired.
    pub fn invoke(&self, event: &ChangeEvent) -> (fired: bool)
        requires
            self.handlers_callable(),
        ensures
            fired == (self.handler_for(*event) is Some),
            self.handler_for(*event) matches Some(f) ==> call_ensures(f, (), ()),
    {
        match event {
            ChangeEvent::Modified => {
                match &self.on_modify {
                    Some(f) => {
                        f();
                        true
                    },
                    None => false,
                }
            },
            ChangeEvent::Accessed => {
                match &self.on_access {
                    Some(f) => {
                        f();
                        true
                    },
                    None => false,
                }
            },
            _ => false,
        }
    }
}

/// Law: registration is last-wins.  After handler `a` and then handler `b`
/// are registered for modify events, a modify event is dispatched to `b`
/// alone, whatever was registered before.
pub proof fn lemma_modify_registration_last_wins<F>(r: CallbackRegistry<F>, a: F, b: F)
    ensures
        r.with_modify(a).with_modify(b).handler_for(ChangeEvent::Modified) == Some(b),
        r.with_modify(a).with_modify(b).on_access == r.on_access,
{
}

/// Law: registration is last-wins for access handlers as well.
pub proof fn lemma_access_registration_last_wins<F>(r: CallbackRegistry<F>, a: F, b: F)
    ensures
        r.with_access(a).with_access(b).handler_for(ChangeEvent::Accessed) == Some(b),
        r.with_access(a).with_access(b).on_modify == r.on_modify,
{
}

} // verus!
