//! Properties of the focus tracker over single events and over runs of
//! events.
use vstd::prelude::*;
use crate::focus::{
    Event, Focused, NodeId, Transition, WindowEvent, WorkspaceEvent, WorkspaceInfo,
    class_of, focused_workspace_empty, is_watched, transition, workspace_empty,
};

verus! {

/// The state of a tracker that starts in `start` and goes through `events`
/// in order.
pub open spec fn state_after(watched: Seq<char>, start: Focused, events: Seq<Event>) -> Focused
    decreases events.len(),
{
    if events.len() == 0 {
        start
    } else {
        transition(watched, state_after(watched, start, events.drop_last()), events.last()).next
    }
}

/// The command that the `i`-th of `events` leads to, for a tracker that
/// starts in `start`.
pub open spec fn command_at(watched: Seq<char>, start: Focused, events: Seq<Event>, i: int) -> Option<NodeId> {
    transition(watched, state_after(watched, start, events.take(i)), events[i]).command
}

/// `ev` is a window of the watched class, with container `id`, gaining focus.
pub open spec fn watched_window_focus(watched: Seq<char>, ev: Event, id: NodeId) -> bool {
    &&& ev matches Event::Window(w)
    &&& w.focus
    &&& w.container.id == id
    &&& is_watched(class_of(w.container), watched)
}

/// `ev` is some window other than container `id` gaining focus.
pub open spec fn other_window_focus(ev: Event, id: NodeId) -> bool {
    &&& ev matches Event::Window(w)
    &&& w.focus
    &&& w.container.id != id
}

proof fn lemma_state_in_run(watched: Seq<char>, start: Focused, x: NodeId, events: Seq<Event>, i: int)
    requires
        1 <= i < events.len(),
        forall|j: int| 0 <= j < events.len() - 1 ==> watched_window_focus(watched, #[trigger] events[j], x),
    ensures
        state_after(watched, start, events.take(i)) == Focused::Scratchpad(x),
    decreases i,
{
    let pre = events.take(i);
    assert(pre.drop_last() =~= events.take(i - 1));
    assert(pre.last() == events[i - 1]);
    assert(watched_window_focus(watched, events[i - 1], x));
    if i > 1 {
        lemma_state_in_run(watched, start, x, events, i - 1);
    } else {
        assert(events.take(0) =~= Seq::<Event>::empty());
    }
}

/// When the watched window gains focus, keeps it for a run of one or more
/// events and then loses it to another window, exactly one command goes out
/// in that run: at the event that ends it, and for that window.
pub proof fn lemma_focus_run_sends_once(watched: Seq<char>, start: Focused, x: NodeId, events: Seq<Event>)
    requires
        events.len() >= 2,
        forall|j: int| 0 <= j < events.len() - 1 ==> watched_window_focus(watched, #[trigger] events[j], x),
        other_window_focus(events.last(), x),
    ensures
        forall|i: int| 1 <= i < events.len() - 1 ==> #[trigger] command_at(watched, start, events, i) == None::<NodeId>,
        command_at(watched, start, events, events.len() - 1) == Some(x),
{
    assert forall|i: int| 1 <= i < events.len() - 1 implies #[trigger] command_at(watched, start, events, i) == None::<NodeId> by {
        lemma_state_in_run(watched, start, x, events, i);
        assert(watched_window_focus(watched, events[i], x));
    }
    lemma_state_in_run(watched, start, x, events, events.len() - 1);
}

/// A window that gains focus while it is already the one tracked sends no
/// command.
pub proof fn lemma_refocus_sends_nothing(watched: Seq<char>, x: NodeId, ev: WindowEvent)
    requires
        ev.container.id == x,
    ensures
        transition(watched, Focused::Scratchpad(x), Event::Window(ev)).command == None::<NodeId>,
{
}

/// A window outside the watched class never becomes the tracked one, and the
/// only command its focus can lead to is for the window tracked before it.
pub proof fn lemma_other_class_not_tracked(watched: Seq<char>, last: Focused, ev: WindowEvent)
    requires
        ev.focus,
        !is_watched(class_of(ev.container), watched),
    ensures
        transition(watched, last, Event::Window(ev)).next !is Scratchpad,
        transition(watched, last, Event::Window(ev)).command != Some(ev.container.id),
        transition(watched, last, Event::Window(ev)).command matches Some(y) ==> last == Focused::Scratchpad(y),
{
}

/// Focusing an empty workspace while the watched window has focus sends that
/// window away once and forgets it; a second empty workspace sends nothing.
pub proof fn lemma_empty_workspace_sends_once(watched: Seq<char>, x: NodeId, first: WorkspaceEvent, second: WorkspaceEvent)
    requires
        first.focus,
        focused_workspace_empty(first.current),
        second.focus,
        focused_workspace_empty(second.current),
    ensures
        transition(watched, Focused::Scratchpad(x), Event::Workspace(first))
            == (Transition { command: Some(x), next: Focused::Other }),
        transition(watched, Focused::Other, Event::Workspace(second))
            == (Transition { command: None, next: Focused::Other }),
{
}

/// Focusing a workspace that holds containers never sends a command, nor
/// changes the state.
pub proof fn lemma_nonempty_workspace_sends_nothing(watched: Seq<char>, last: Focused, ev: WorkspaceEvent, ws: WorkspaceInfo)
    requires
        ev.current == Some(ws),
        !workspace_empty(ws),
    ensures
        transition(watched, last, Event::Workspace(ev)) == (Transition { command: None, next: last }),
{
}

} // verus!
