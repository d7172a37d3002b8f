//! The widgets that can hold the keyboard focus, and the order in which the
//! focus moves between them.

use vstd::prelude::*;

verus! {

/// A widget of the main screen that can hold the focus.
#[derive(Debug, Clone, Copy, PartialEq, Eq, Structural)]
pub enum FocusedWidget {
    Directory,
    TxtFile,
    McaddonToggle,
    McaddonFile,
    GoButton,
}

/// Whether the widget can hold the focus: the archive list only while the
/// archive toggle is on.
pub open spec fn reachable(w: FocusedWidget, use_mcaddon: bool) -> bool {
    use_mcaddon || w != FocusedWidget::McaddonFile
}

/// How many widgets can hold the focus.
pub open spec fn ring_size(use_mcaddon: bool) -> nat {
    if use_mcaddon {
        5
    } else {
        4
    }
}

/// The widget that follows `w`.
pub open spec fn next_focus(w: FocusedWidget, use_mcaddon: bool) -> FocusedWidget {
    match w {
        FocusedWidget::Directory => FocusedWidget::TxtFile,
        FocusedWidget::TxtFile => FocusedWidget::McaddonToggle,
        FocusedWidget::McaddonToggle => if use_mcaddon {
            FocusedWidget::McaddonFile
        } else {
            FocusedWidget::GoButton
        },
        FocusedWidget::McaddonFile => FocusedWidget::GoButton,
        FocusedWidget::GoButton => FocusedWidget::Directory,
    }
}

/// The widget that precedes `w`.
pub open spec fn previous_focus(w: FocusedWidget, use_mcaddon: bool) -> FocusedWidget {
    match w {
        FocusedWidget::Directory => FocusedWidget::GoButton,
        FocusedWidget::TxtFile => FocusedWidget::Directory,
        FocusedWidget::McaddonToggle => FocusedWidget::TxtFile,
        FocusedWidget::McaddonFile => FocusedWidget::McaddonToggle,
        FocusedWidget::GoButton => if use_mcaddon {
            FocusedWidget::McaddonFile
        } else {
            FocusedWidget::McaddonToggle
        },
    }
}

/// The widget reached from `w` after `k` moves forward.
pub open spec fn next_focus_times(w: FocusedWidget, use_mcaddon: bool, k: nat) -> FocusedWidget
    decreases k,
{
    if k == 0 {
        w
    } else {
        next_focus(next_focus_times(w, use_mcaddon, (k - 1) as nat), use_mcaddon)
    }
}

/// Moving forward keeps the focus on a widget that can hold it.
pub proof fn lemma_next_focus_reachable(w: FocusedWidget, use_mcaddon: bool)
    requires
        reachable(w, use_mcaddon),
    ensures
        reachable(next_focus(w, use_mcaddon), use_mcaddon),
        reachable(previous_focus(w, use_mcaddon), use_mcaddon),
{
}

/// Moving the focus forward once per widget of the ring, from any widget that
/// can hold the focus, comes back to that widget, with the archive toggle on
/// or off.
pub proof fn lemma_focus_ring_closes(w: FocusedWidget, use_mcaddon: bool)
    requires
        reachable(w, use_mcaddon),
    ensures
        next_focus_times(w, use_mcaddon, ring_size(use_mcaddon)) == w,
{
    reveal_with_fuel(next_focus_times, 6);
}

/// For a fixed toggle, moving back undoes moving forward and moving forward
/// undoes moving back, from every widget that can hold the focus.
pub proof fn lemma_focus_ring_inverse(w: FocusedWidget, use_mcaddon: bool)
    requires
        reachable(w, use_mcaddon),
    ensures
        previous_focus(next_focus(w, use_mcaddon), use_mcaddon) == w,
        next_focus(previous_focus(w, use_mcaddon), use_mcaddon) == w,
{
}

} // verus!
