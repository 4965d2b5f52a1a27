//! The input-method backend state machine.
//!
//! A platform input-method server can go away and come back (for instance
//! when it is restarted) while windows hold contexts on it. The machine
//! here tracks that lifecycle and decides the transactional rebuild: when
//! the backend is replaced, every per-window context is recreated under the
//! new method with its allowed-state and cursor area preserved, and the
//! swap is all-or-nothing — if any context cannot be recreated, the
//! previous contexts stay untouched. The platform calls themselves (opening
//! a method, creating a context) are performed by the backend driver; only
//! their outcomes enter the machine.

use vstd::prelude::*;

verus! {

/// A cursor area saved on a context: position and size in surface
/// coordinates.
#[derive(Debug, Clone, Copy, PartialEq, Eq, Structural)]
pub struct ImeArea {
    pub x: i32,
    pub y: i32,
    pub width: u32,
    pub height: u32,
}

/// The state of one window's input context that survives a rebuild.
#[derive(Debug, Clone, Copy, PartialEq, Eq, Structural)]
pub struct ImeContextState {
    /// The cursor area last set on the context, if any: position and size
    /// in surface coordinates.
    pub area: Option<ImeArea>,
    /// Whether the IME was allowed on that context.
    pub is_allowed: bool,
}

/// What to recreate for one window when the input method is replaced.
#[derive(Debug, Clone, Copy, PartialEq, Eq, Structural)]
pub struct ImeRebuildSpec {
    /// The native window the context belongs to.
    pub window: u64,
    /// The cursor area to restore, if the old context had one.
    pub area: Option<ImeArea>,
    /// The allowed-state to restore; a window without a context counts as
    /// not allowed.
    pub is_allowed: bool,
}

/// The plan entry for one context: its saved state, or defaults where the
/// window never got a context.
pub open spec fn rebuild_spec_of(window: u64, context: Option<ImeContextState>) -> ImeRebuildSpec {
    match context {
        Some(state) => ImeRebuildSpec {
            window,
            area: state.area,
            is_allowed: state.is_allowed,
        },
        None => ImeRebuildSpec { window, area: None, is_allowed: false },
    }
}

/// The per-process input-method bookkeeping: one context slot per window,
/// and the flags that drive recovery when the server goes away.
pub struct ImeInner {
    /// Each window with its context state; a window may be registered
    /// without a live context.
    contexts: Vec<(u64, Option<ImeContextState>)>,
    /// Whether the server-side input method has been destroyed.
    is_destroyed: bool,
    /// Whether the current input method is the fallback one.
    is_fallback: bool,
}

impl ImeInner {
    /// The registered windows and their context states, in registration
    /// order.
    pub closed spec fn spec_contexts(&self) -> Seq<(u64, Option<ImeContextState>)> {
        self.contexts@
    }

    /// Whether the server-side input method is currently destroyed.
    pub closed spec fn spec_is_destroyed(&self) -> bool {
        self.is_destroyed
    }

    /// Whether the current input method is the fallback one.
    pub closed spec fn spec_is_fallback(&self) -> bool {
        self.is_fallback
    }

    /// Fresh bookkeeping: no contexts, a live non-fallback method.
    pub fn new() -> (r: Self)
        ensures
            r.spec_contexts() == Seq::<(u64, Option<ImeContextState>)>::empty(),
            !r.spec_is_destroyed(),
            !r.spec_is_fallback(),
    {
        Self { contexts: Vec::new(), is_destroyed: false, is_fallback: false }
    }

    /// Whether the server-side input method is currently destroyed.
    pub fn is_destroyed(&self) -> (r: bool)
        ensures
            r == self.spec_is_destroyed(),
    {
        self.is_destroyed
    }

    /// Whether the current input method is the fallback one.
    pub fn is_fallback(&self) -> (r: bool)
        ensures
            r == self.spec_is_fallback(),
    {
        self.is_fallback
    }

    /// Register a window's context slot, appended after the existing ones.
    pub fn register_context(&mut self, window: u64, context: Option<ImeContextState>)
        ensures
            final(self).spec_contexts() == old(self).spec_contexts().push((window, context)),
            final(self).spec_is_destroyed() == old(self).spec_is_destroyed(),
            final(self).spec_is_fallback() == old(self).spec_is_fallback(),
    {
        self.contexts.push((window, context));
    }

    /// The plan for rebuilding every context under a new input method:
    /// one entry per registered window, in order, each preserving the
    /// window's saved allowed-state and cursor area.
    pub fn rebuild_plan(&self) -> (r: Vec<ImeRebuildSpec>)
        ensures
            r@.len() == self.spec_contexts().len(),
            forall|i: int|
                0 <= i < r@.len() ==> r@[i] == rebuild_spec_of(
                    self.spec_contexts()[i].0,
                    self.spec_contexts()[i].1,
                ),
    {
        let mut plan: Vec<ImeRebuildSpec> = Vec::new();
        let mut idx: usize = 0;
        while idx < self.contexts.len()
            invariant
                idx <= self.contexts@.len(),
                plan@.len() == idx,
                forall|i: int|
                    0 <= i < idx ==> plan@[i] == rebuild_spec_of(
                        self.contexts@[i].0,
                        self.contexts@[i].1,
                    ),
            decreases self.contexts@.len() - idx,
        {
            let (window, context) = self.contexts[idx];
            let spec = match context {
                Some(state) => ImeRebuildSpec {
                    window,
                    area: state.area,
                    is_allowed: state.is_allowed,
                },
                None => ImeRebuildSpec { window, area: None, is_allowed: false },
            };
            plan.push(spec);
            idx = idx + 1;
        }
        plan
    }

    /// Install the contexts rebuilt under a new input method.
    ///
    /// This is the commit half of the all-or-nothing replacement: the
    /// driver calls it only once every window's context was recreated, one
    /// per registered window in order; a failed rebuild never reaches this
    /// point and leaves the previous contexts untouched.
    pub fn commit_replace(&mut self, new_contexts: Vec<(u64, ImeContextState)>, is_fallback: bool)
        requires
            new_contexts@.len() == old(self).spec_contexts().len(),
            forall|i: int|
                0 <= i < new_contexts@.len() ==> new_contexts@[i].0 == old(
                    self,
                ).spec_contexts()[i].0,
        ensures
            final(self).spec_contexts().len() == old(self).spec_contexts().len(),
            forall|i: int|
                0 <= i < final(self).spec_contexts().len() ==> final(self).spec_contexts()[i] == (
                    new_contexts@[i].0,
                    Some(new_contexts@[i].1),
                ),
            !final(self).spec_is_destroyed(),
            final(self).spec_is_fallback() == is_fallback,
    {
        let mut rebuilt: Vec<(u64, Option<ImeContextState>)> = Vec::new();
        let mut idx: usize = 0;
        while idx < new_contexts.len()
            invariant
                idx <= new_contexts@.len(),
                rebuilt@.len() == idx,
                forall|i: int|
                    0 <= i < idx ==> rebuilt@[i] == (new_contexts@[i].0, Some(new_contexts@[i].1)),
            decreases new_contexts@.len() - idx,
        {
            let (window, state) = new_contexts[idx];
            rebuilt.push((window, Some(state)));
            idx = idx + 1;
        }
        self.contexts = rebuilt;
        self.is_destroyed = false;
        self.is_fallback = is_fallback;
    }

    /// Note that the server destroyed the input method; its resources are
    /// already gone and must not be freed again.
    ///
    /// Returns whether a fallback method should now be opened: that is the
    /// case unless the destroyed method already was the fallback.
    pub fn server_destroyed(&mut self) -> (attempt_fallback: bool)
        ensures
            final(self).spec_is_destroyed(),
            final(self).spec_is_fallback() == old(self).spec_is_fallback(),
            final(self).spec_contexts() == old(self).spec_contexts(),
            attempt_fallback == !old(self).spec_is_fallback(),
    {
        self.is_destroyed = true;
        !self.is_fallback
    }

    /// Note that a replacement attempt triggered by the availability of a
    /// new input method succeeded and was committed: the new method is the
    /// preferred one, not a fallback.
    pub fn instantiate_succeeded(&mut self)
        ensures
            !final(self).spec_is_fallback(),
            final(self).spec_is_destroyed() == old(self).spec_is_destroyed(),
            final(self).spec_contexts() == old(self).spec_contexts(),
    {
        self.is_fallback = false;
    }

    /// Whether a failed replacement attempt is fatal: it is exactly when
    /// the old method is already destroyed, because then no usable input
    /// method remains at all.
    pub fn replace_failure_is_fatal(&self) -> (r: bool)
        ensures
            r == self.spec_is_destroyed(),
    {
        self.is_destroyed
    }
}

} // verus!
