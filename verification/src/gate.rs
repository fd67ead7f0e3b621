//! The unsaved-changes flag and the close-confirmation gate.
//!
//! The shell owns one boolean flag saying whether the front-end reports
//! unsaved edits, and intercepts window-close requests: while the flag is
//! set, a close request is suppressed and the front-end is asked to confirm;
//! while it is clear, the close proceeds. A forced close clears the flag and
//! closes unconditionally.

use crate::events::{Effects, Notification};
use vstd::prelude::*;

verus! {

/// Phase of the close-confirmation gate. `Guarded` while the window is open
/// and close requests are intercepted; `Closing` once a close has been
/// allowed to proceed. `Closing` is terminal: no further close request is
/// observed after it.
#[derive(Clone, Copy, Debug, PartialEq, Eq, Structural)]
pub enum GatePhase {
    /// The window is open; close requests are intercepted.
    Guarded,
    /// A close was allowed to proceed; the window is going away.
    Closing,
}

/// The shell's state: the unsaved-changes flag together with the phase of
/// the close-confirmation gate.
#[derive(Clone, Copy, Debug, PartialEq, Eq, Structural)]
pub struct Shell {
    /// Whether the front-end reports unsaved edits.
    pub is_modified: bool,
    /// Phase of the close-confirmation gate.
    pub phase: GatePhase,
}

/// The state at process start: no unsaved edits, gate guarded.
pub open spec fn initial_shell() -> Shell {
    Shell { is_modified: false, phase: GatePhase::Guarded }
}

/// The state after `set_modified_state(b)`: the flag is overwritten, the
/// gate phase is untouched.
pub open spec fn with_modified(s: Shell, b: bool) -> Shell {
    Shell { is_modified: b, phase: s.phase }
}

/// The state after a close has been allowed to proceed.
pub open spec fn closing(s: Shell) -> Shell {
    Shell { is_modified: s.is_modified, phase: GatePhase::Closing }
}

impl Shell {
    /// A fresh shell: flag clear, gate guarded.
    pub fn new() -> (s: Shell)
        ensures
            s == initial_shell(),
    {
        Shell { is_modified: false, phase: GatePhase::Guarded }
    }

    /// Unconditionally overwrite the unsaved-changes flag.
    pub fn set_modified_state(&mut self, is_modified: bool)
        ensures
            *final(self) == with_modified(*old(self), is_modified),
    {
        self.is_modified = is_modified;
    }

    /// Read the unsaved-changes flag.
    pub fn get_modified_state(&self) -> (r: bool)
        ensures
            r == self.is_modified,
    {
        self.is_modified
    }

    /// Intercept one window-close request.
    ///
    /// While the flag is set, the close is suppressed, the state is left
    /// unchanged, and exactly one `ConfirmClose` notification is emitted;
    /// a repeated request re-emits it. While the flag is clear, the close
    /// proceeds, the phase moves to `Closing`, and nothing is emitted.
    pub fn handle_close_request(&mut self) -> (fx: Effects)
        requires
            old(self).phase is Guarded,
        ensures
            fx.close_window == !old(self).is_modified,
            old(self).is_modified ==> *final(self) == *old(self),
            old(self).is_modified ==> fx.notifications@ == seq![Notification::ConfirmClose],
            !old(self).is_modified ==> *final(self) == closing(*old(self)),
            !old(self).is_modified ==> fx.notifications@ == Seq::<Notification>::empty(),
    {
        if self.is_modified {
            let mut notifications: Vec<Notification> = Vec::new();
            notifications.push(Notification::ConfirmClose);
            proof {
                assert(notifications@ =~= seq![Notification::ConfirmClose]);
            }
            Effects { close_window: false, notifications }
        } else {
            self.phase = GatePhase::Closing;
            let notifications: Vec<Notification> = Vec::new();
            proof {
                assert(notifications@ =~= Seq::<Notification>::empty());
            }
            Effects { close_window: true, notifications }
        }
    }

    /// Clear the unsaved-changes flag and request that the window be closed,
    /// unconditionally. The flag is `false` afterwards whatever it was
    /// before, exactly one close request is issued, and nothing is emitted.
    pub fn force_close_window(&mut self) -> (fx: Effects)
        ensures
            final(self).is_modified == false,
            final(self).phase is Closing,
            fx.close_window,
            fx.notifications@ == Seq::<Notification>::empty(),
    {
        self.is_modified = false;
        self.phase = GatePhase::Closing;
        let notifications: Vec<Notification> = Vec::new();
        proof {
            assert(notifications@ =~= Seq::<Notification>::empty());
        }
        Effects { close_window: true, notifications }
    }
}

impl Default for Shell {
    /// The shell starts with the flag clear and the phase guarded.
    fn default() -> (s: Shell)
        ensures
            s == initial_shell(),
    {
        Shell::new()
    }
}

/// The state reached from process start by a sequence of
/// `set_modified_state` calls, one per element of `calls`, in order.
pub open spec fn shell_after_sets(calls: Seq<bool>) -> Shell
    decreases calls.len(),
{
    if calls.len() == 0 {
        initial_shell()
    } else {
        with_modified(shell_after_sets(calls.drop_last()), calls.last())
    }
}

/// After any sequence of `set_modified_state` calls, the flag read back is
/// the argument of the most recent call, or `false` if there was none.
pub proof fn lemma_get_returns_last_set(calls: Seq<bool>)
    ensures
        shell_after_sets(calls).is_modified == if calls.len() == 0 {
            false
        } else {
            calls.last()
        },
{
}

} // verus!
