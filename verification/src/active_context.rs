//! The per-thread active compiler context.
//!
//! Python IR objects resolve their context implicitly through one slot per OS
//! thread, filled by `with pliron.Context() as ctx:` and emptied when the
//! block ends. Only one context may be active per thread at a time. Contexts
//! are identified here by a number the owner of the slot hands out.

use vstd::prelude::*;

verus! {

/// Why the active context could not be read or changed.
#[derive(Clone, Copy, Debug, PartialEq, Eq, Structural)]
pub enum CtxError {
    /// No context is active: IR objects were used outside a `with` block.
    NoActiveContext,
    /// A context is already active in this thread.
    AlreadyActive,
    /// The context object no longer owns a context.
    Consumed,
}

/// The slot holding the active context of one thread.
#[derive(Debug)]
pub struct ContextSlot {
    active: Option<u64>,
}

impl View for ContextSlot {
    type V = Option<u64>;

    closed spec fn view(&self) -> Option<u64> {
        self.active
    }
}

/// Reading the slot.
pub open spec fn spec_get(s: Option<u64>) -> Result<u64, CtxError> {
    match s {
        Some(c) => Ok(c),
        None => Err(CtxError::NoActiveContext),
    }
}

/// Activating `ctx`: the new slot and the outcome. An occupied slot is left
/// as it is.
pub open spec fn spec_set(s: Option<u64>, ctx: u64) -> (Option<u64>, Result<(), CtxError>) {
    match s {
        Some(_) => (s, Err(CtxError::AlreadyActive)),
        None => (Some(ctx), Ok(())),
    }
}

impl ContextSlot {
    /// A slot with no active context.
    pub fn new() -> (r: ContextSlot)
        ensures
            r@ is None,
    {
        ContextSlot { active: None }
    }
}

/// The active context.
pub fn get_ctx(slot: &ContextSlot) -> (r: Result<u64, CtxError>)
    ensures
        r == spec_get(slot@),
{
    match slot.active {
        Some(c) => Ok(c),
        None => Err(CtxError::NoActiveContext),
    }
}

/// The active context, for mutation through it.
pub fn get_ctx_mut(slot: &ContextSlot) -> (r: Result<u64, CtxError>)
    ensures
        r == spec_get(slot@),
{
    get_ctx(slot)
}

/// Activate `ctx`; fails, changing nothing, when a context is already active.
pub fn set_active_ctx(slot: &mut ContextSlot, ctx: u64) -> (r: Result<(), CtxError>)
    ensures
        (final(slot)@, r) == spec_set(old(slot)@, ctx),
{
    match slot.active {
        Some(_) => Err(CtxError::AlreadyActive),
        None => {
            slot.active = Some(ctx);
            Ok(())
        },
    }
}

/// Deactivate the current context, if any.
pub fn clear_active_ctx(slot: &mut ContextSlot)
    ensures
        final(slot)@ is None,
{
    slot.active = None;
}

/// The Python-side owner of a compiler context, used as a context manager.
#[derive(Debug)]
pub struct PyContext {
    /// The owned context; `None` once it has been given up.
    pub ctx: Option<u64>,
}

impl PyContext {
    /// A new, inactive context.
    pub fn new(ctx: u64) -> (r: PyContext)
        ensures
            r.ctx == Some(ctx),
    {
        PyContext { ctx: Some(ctx) }
    }

    /// Entering the `with` block: activate the owned context.
    pub fn enter(&self, slot: &mut ContextSlot) -> (r: Result<(), CtxError>)
        ensures
            match self.ctx {
                None => r == Err::<(), CtxError>(CtxError::Consumed) && final(slot)@ == old(slot)@,
                Some(c) => (final(slot)@, r) == spec_set(old(slot)@, c),
            },
    {
        match self.ctx {
            None => Err(CtxError::Consumed),
            Some(c) => set_active_ctx(slot, c),
        }
    }

    /// Leaving the `with` block: deactivate. Always `false`, so that an
    /// exception raised inside the block propagates.
    pub fn exit(&self, slot: &mut ContextSlot) -> (r: bool)
        ensures
            final(slot)@ is None,
            !r,
    {
        clear_active_ctx(slot);
        false
    }
}

/// Law: once a context is activated in an empty slot, reads return it.
pub proof fn lemma_get_after_set(ctx: u64)
    ensures
        spec_set(None, ctx) == (Some(ctx), Ok::<(), CtxError>(())),
        spec_get(spec_set(None, ctx).0) == Ok::<u64, CtxError>(ctx),
{
}

/// Law: only one context may be active at a time; activating a second one
/// fails and leaves the first active.
pub proof fn lemma_one_active(active: u64, ctx: u64)
    ensures
        spec_set(Some(active), ctx) == (Some(active), Err::<(), CtxError>(CtxError::AlreadyActive)),
        spec_get(spec_set(Some(active), ctx).0) == Ok::<u64, CtxError>(active),
{
}

/// Law: inside a `with` block entered on an empty slot, reads return the
/// block's context; after it (`exit` empties the slot) reads fail again and a
/// new block can be entered.
pub proof fn lemma_with_block(ctx: u64, next: u64)
    ensures
        spec_get(spec_set(None, ctx).0) == Ok::<u64, CtxError>(ctx),
        spec_get(None) == Err::<u64, CtxError>(CtxError::NoActiveContext),
        spec_set(None, next) == (Some(next), Ok::<(), CtxError>(())),
{
}

} // verus!
