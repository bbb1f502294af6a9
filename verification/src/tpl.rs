//! The cooperative priority level (TPL) and its scoped raise/restore guard.
//!
//! The firmware keeps the current priority level itself; this layer never
//! caches it.  A raise returns the prior level, and the caller owes the
//! firmware a restore of exactly that value, in reverse nesting order.  The
//! guard packages the pair: acquiring it raises and records the prior
//! level; releasing it — a move, so it can happen only once — restores it.
//! [`TplModel`] is the observed level the contracts and tests speak of.

use vstd::prelude::*;

use crate::fatal::{Fatal, Op};
use crate::table::{planned, StandardBootServices};

verus! {

/// The lowest priority level, at which ordinary work runs.
pub const TPL_APPLICATION: usize = 4;

/// The level of most notify callbacks.
pub const TPL_CALLBACK: usize = 8;

/// The level at which notifications are suppressed.
pub const TPL_NOTIFY: usize = 16;

/// The highest level, masking every interrupt.
pub const TPL_HIGH_LEVEL: usize = 31;

/// A priority level, held as its raw value.  Higher values suppress work
/// at lower ones until restored.
#[derive(Clone, Copy, PartialEq, Eq, Structural, Debug)]
pub struct Tpl {
    pub level: usize,
}

impl Tpl {
    /// The application level.
    pub fn application() -> (t: Tpl)
        ensures
            t.level == TPL_APPLICATION,
    {
        Tpl { level: TPL_APPLICATION }
    }

    /// The callback level.
    pub fn callback() -> (t: Tpl)
        ensures
            t.level == TPL_CALLBACK,
    {
        Tpl { level: TPL_CALLBACK }
    }

    /// The notify level.
    pub fn notify() -> (t: Tpl)
        ensures
            t.level == TPL_NOTIFY,
    {
        Tpl { level: TPL_NOTIFY }
    }

    /// The highest level.
    pub fn high_level() -> (t: Tpl)
        ensures
            t.level == TPL_HIGH_LEVEL,
    {
        Tpl { level: TPL_HIGH_LEVEL }
    }
}

/// The priority level as the firmware observes it.  The firmware owns this
/// state; the model carries it through contracts and tests.
#[derive(Clone, Copy, PartialEq, Eq, Structural, Debug)]
pub struct TplModel {
    pub current: usize,
}

/// What a raise does to the observed level: the level becomes the new one
/// and the prior one is handed back.
pub open spec fn raise_spec(m: TplModel, new: Tpl) -> (TplModel, Tpl) {
    (TplModel { current: new.level }, Tpl { level: m.current })
}

/// What a restore does to the observed level: the level becomes the
/// restored one.
pub open spec fn restore_spec(m: TplModel, prev: Tpl) -> TplModel {
    TplModel { current: prev.level }
}

impl TplModel {
    /// Raise the observed level, returning the prior level the caller must
    /// later restore.
    pub fn raise(&mut self, new: Tpl) -> (prev: Tpl)
        ensures
            (*final(self), prev) == raise_spec(*old(self), new),
    {
        let prev = Tpl { level: self.current };
        self.current = new.level;
        prev
    }

    /// Restore the observed level to a value returned by a matching raise.
    pub fn restore(&mut self, prev: Tpl)
        ensures
            *final(self) == restore_spec(*old(self), prev),
    {
        self.current = prev.level;
    }

    /// Raise the observed level and take the scoped guard that owes the
    /// restore.  The guard records the pre-raise level.
    pub fn raise_tpl_guarded(&mut self, new: Tpl) -> (g: TplGuard)
        ensures
            g.retore_tpl == raise_spec(*old(self), new).1,
            *final(self) == raise_spec(*old(self), new).0,
    {
        let prev = self.raise(new);
        TplGuard { retore_tpl: prev }
    }
}

/// The scoped form of a raise: holds the level to restore.  Releasing the
/// guard consumes it, so the restore happens exactly once however the
/// scope is left.
#[derive(PartialEq, Eq, Structural, Debug)]
pub struct TplGuard {
    pub retore_tpl: Tpl,
}

impl TplGuard {
    /// Release the guard: restore the level recorded at the raise.  The
    /// guard is moved in, so no second release can follow.
    pub fn release(self, m: &mut TplModel)
        ensures
            *final(m) == restore_spec(*old(m), self.retore_tpl),
    {
        m.restore(self.retore_tpl);
    }
}

/// Raising and then restoring what the raise returned leaves the observed
/// priority level as it was, whatever the level raised to.
pub proof fn lemma_raise_restore_round_trip(m: TplModel, l: Tpl)
    ensures
        restore_spec(raise_spec(m, l).0, raise_spec(m, l).1) == m,
{
}

/// The guarded raise restores the pre-raise level on release: the guard
/// taken at the raise carries exactly the prior level, and releasing it
/// brings the observed level back to where it stood, whatever the level
/// raised to.  Release consumes the guard, so it cannot restore twice.
pub proof fn lemma_guarded_raise_restores_once(m: TplModel, l: Tpl)
    ensures
        ({
            let raised = raise_spec(m, l).0;
            let guard_level = raise_spec(m, l).1;
            restore_spec(raised, guard_level) == m
        }),
{
}

/// The raw arguments of a raise-priority call.
#[derive(Clone, Copy, PartialEq, Eq, Structural, Debug)]
pub struct RaiseTplCall {
    /// The address of the table entry to call.
    pub entry: u64,
    /// The level to raise to, as the raw value the entry takes.
    pub new_tpl: usize,
}

/// The raw arguments of a restore-priority call.
#[derive(Clone, Copy, PartialEq, Eq, Structural, Debug)]
pub struct RestoreTplCall {
    /// The address of the table entry to call.
    pub entry: u64,
    /// The level to restore, as the raw value the entry takes.
    pub old_tpl: usize,
}

impl StandardBootServices {
    /// Plan a raise-priority call: the entry to call and the raw level to
    /// pass, or the fatal usage error owed.
    pub fn raise_tpl_call(&self, new_tpl: Tpl) -> (r: Result<RaiseTplCall, Fatal>)
        ensures
            planned(
                *self,
                Op::RaiseTpl,
                r,
                (RaiseTplCall {
                    entry: self.table_spec().entry_spec(Op::RaiseTpl),
                    new_tpl: new_tpl.level,
                }),
            ),
    {
        let entry = self.require_entry(Op::RaiseTpl)?;
        Ok(RaiseTplCall { entry, new_tpl: new_tpl.level })
    }

    /// Plan a restore-priority call: the entry to call and the raw level
    /// to pass — it must be the exact value the matching raise returned —
    /// or the fatal usage error owed.
    pub fn restore_tpl_call(&self, old_tpl: Tpl) -> (r: Result<RestoreTplCall, Fatal>)
        ensures
            planned(
                *self,
                Op::RestoreTpl,
                r,
                (RestoreTplCall {
                    entry: self.table_spec().entry_spec(Op::RestoreTpl),
                    old_tpl: old_tpl.level,
                }),
            ),
    {
        let entry = self.require_entry(Op::RestoreTpl)?;
        Ok(RestoreTplCall { entry, old_tpl: old_tpl.level })
    }
}

/// Read a raise-priority outcome back: the raw value the entry returned is
/// the prior level, handed on unchanged.
pub fn raise_tpl_result(prior: usize) -> (t: Tpl)
    ensures
        t.level == prior,
{
    Tpl { level: prior }
}

} // verus!
