use vstd::prelude::*;

verus! {

/// Identifier of an i3 container, stable for the container's lifetime.
pub type NodeId = usize;

/// What the tracker last knew to hold focus.
#[derive(Clone, Copy, Debug, PartialEq, Eq, Structural)]
pub enum Focused {
    /// A window of the watched class, with its container id.
    Scratchpad(NodeId),
    /// Something else, or nothing known.
    Other,
}

/// The part of a focused window that the tracker reads.
#[derive(Debug)]
pub struct WindowInfo {
    pub id: NodeId,
    /// The X11 class of the window, when it has one.
    pub class: Option<String>,
}

/// The containers of a freshly focused workspace.
#[derive(Debug)]
pub struct WorkspaceInfo {
    /// Ids of the tiled top-level children.
    pub nodes: Vec<NodeId>,
    /// Ids of the floating containers.
    pub floating_nodes: Vec<NodeId>,
}

/// A window event: `focus` tells whether the window received input focus.
#[derive(Debug)]
pub struct WindowEvent {
    pub focus: bool,
    pub container: WindowInfo,
}

/// A workspace event: `focus` tells whether a workspace received focus;
/// `current` is the workspace now focused, when the event carries it.
#[derive(Debug)]
pub struct WorkspaceEvent {
    pub focus: bool,
    pub current: Option<WorkspaceInfo>,
}

/// The events the tracker subscribes to.
#[derive(Debug)]
pub enum Event {
    Window(WindowEvent),
    Workspace(WorkspaceEvent),
}

/// What one event leads to: the container to send to the scratchpad, if
/// any, and the state to hold once that command has gone out.
#[derive(Clone, Copy, Debug, PartialEq, Eq, Structural)]
pub struct Transition {
    pub command: Option<NodeId>,
    pub next: Focused,
}

/// The class of a window as a sequence of characters.
pub open spec fn class_of(w: WindowInfo) -> Option<Seq<char>> {
    match w.class {
        Some(c) => Some(c@),
        None => None,
    }
}

/// A window belongs to the watched class when it has a class attribute equal
/// to `watched`, character for character.
pub open spec fn is_watched(class: Option<Seq<char>>, watched: Seq<char>) -> bool {
    class == Some(watched)
}

/// A workspace is empty when it has neither tiled nor floating containers.
pub open spec fn workspace_empty(ws: WorkspaceInfo) -> bool {
    ws.nodes@.len() == 0 && ws.floating_nodes@.len() == 0
}

/// A focus event only makes the tracker act when it names a workspace that
/// is known to be empty.
pub open spec fn focused_workspace_empty(current: Option<WorkspaceInfo>) -> bool {
    match current {
        Some(ws) => workspace_empty(ws),
        None => false,
    }
}

/// The watched window loses focus when another container gains it.
pub open spec fn command_on_window_focus(last: Focused, id: NodeId) -> Option<NodeId> {
    match last {
        Focused::Scratchpad(x) => if x != id { Some(x) } else { None },
        Focused::Other => None,
    }
}

/// The state after a window of class `class` and id `id` gains focus.
pub open spec fn focus_after_window(watched: Seq<char>, id: NodeId, class: Option<Seq<char>>) -> Focused {
    if is_watched(class, watched) {
        Focused::Scratchpad(id)
    } else {
        Focused::Other
    }
}

/// A window that gains focus takes it from the tracked window and becomes
/// the tracked one when its class is `watched`; other window events change
/// nothing.
pub open spec fn window_transition(watched: Seq<char>, last: Focused, ev: WindowEvent) -> Transition {
    if ev.focus {
        Transition {
            command: command_on_window_focus(last, ev.container.id),
            next: focus_after_window(watched, ev.container.id, class_of(ev.container)),
        }
    } else {
        Transition { command: None, next: last }
    }
}

/// Focusing an empty workspace sends the tracked window away and forgets
/// it; other workspace events change nothing.
pub open spec fn workspace_transition(last: Focused, ev: WorkspaceEvent) -> Transition {
    if ev.focus && focused_workspace_empty(ev.current) {
        match last {
            Focused::Scratchpad(x) => Transition { command: Some(x), next: Focused::Other },
            Focused::Other => Transition { command: None, next: last },
        }
    } else {
        Transition { command: None, next: last }
    }
}

/// The transition of the tracker in state `last`, following `watched`, on
/// event `ev`.
pub open spec fn transition(watched: Seq<char>, last: Focused, ev: Event) -> Transition {
    match ev {
        Event::Window(w) => window_transition(watched, last, w),
        Event::Workspace(ws) => workspace_transition(last, ws),
    }
}

/// Tells whether a workspace has no containers at all.
pub fn is_empty_workspace(ws: &WorkspaceInfo) -> (r: bool)
    ensures
        r == workspace_empty(*ws),
{
    ws.floating_nodes.len() == 0 && ws.nodes.len() == 0
}

/// Watches focus changes for the windows of one class.
pub struct FocusMonitor {
    scratchpad_class: String,
    last_focused: Focused,
}

impl FocusMonitor {
    /// The class of the windows that go back to the scratchpad.
    pub closed spec fn watched_class(&self) -> Seq<char> {
        self.scratchpad_class@
    }

    /// What the monitor last knew to hold focus.
    pub closed spec fn state(&self) -> Focused {
        self.last_focused
    }

    /// A monitor for windows of class `scratchpad_class`, with nothing known
    /// to hold focus yet.
    pub fn new(scratchpad_class: String) -> (r: Self)
        ensures
            r.watched_class() == scratchpad_class@,
            r.state() == Focused::Other,
    {
        FocusMonitor { scratchpad_class, last_focused: Focused::Other }
    }

    pub fn scratchpad_class(&self) -> (r: &String)
        ensures
            r@ == self.watched_class(),
    {
        &self.scratchpad_class
    }

    pub fn last_focused(&self) -> (r: Focused)
        ensures
            r == self.state(),
    {
        self.last_focused
    }

    /// Tells whether a window belongs to the watched class.
    pub fn is_scratchpad_window(&self, container: &WindowInfo) -> (r: bool)
        ensures
            r == is_watched(class_of(*container), self.watched_class()),
    {
        match &container.class {
            Some(class) => class.eq(&self.scratchpad_class),
            None => false,
        }
    }

    /// The command owed to the watched window when `container` gains focus.
    fn handle_last_focused(&self, container: &WindowInfo) -> (r: Option<NodeId>)
        ensures
            r == command_on_window_focus(self.state(), container.id),
    {
        match self.last_focused {
            Focused::Scratchpad(id) => if id != container.id { Some(id) } else { None },
            Focused::Other => None,
        }
    }

    /// The state once `container` holds focus.
    fn update_last_focused(&self, container: &WindowInfo) -> (r: Focused)
        ensures
            r == focus_after_window(self.watched_class(), container.id, class_of(*container)),
    {
        if self.is_scratchpad_window(container) {
            Focused::Scratchpad(container.id)
        } else {
            Focused::Other
        }
    }

    /// Decides what a window event leads to. A window that gains focus takes
    /// it from the watched window, if that one held it, and becomes the
    /// watched window itself when its class matches.
    pub fn handle_window_event(&self, event: &WindowEvent) -> (r: Transition)
        ensures
            r == window_transition(self.watched_class(), self.state(), *event),
    {
        if event.focus {
            let command = self.handle_last_focused(&event.container);
            let next = self.update_last_focused(&event.container);
            Transition { command, next }
        } else {
            Transition { command: None, next: self.last_focused }
        }
    }

    /// Decides what a workspace event leads to. Switching to an empty
    /// workspace raises no window focus event, so when the watched window
    /// held focus it is sent away here.
    pub fn handle_workspace_event(&self, event: &WorkspaceEvent) -> (r: Transition)
        ensures
            r == workspace_transition(self.state(), *event),
    {
        if event.focus {
            let focused_workspace_is_empty = match &event.current {
                Some(ws) => is_empty_workspace(ws),
                None => false,
            };
            if focused_workspace_is_empty {
                if let Focused::Scratchpad(id) = self.last_focused {
                    return Transition { command: Some(id), next: Focused::Other };
                }
            }
        }
        Transition { command: None, next: self.last_focused }
    }

    /// Decides what any subscribed event leads to.
    pub fn handle_event(&self, event: &Event) -> (r: Transition)
        ensures
            r == transition(self.watched_class(), self.state(), *event),
    {
        match event {
            Event::Window(ev) => self.handle_window_event(ev),
            Event::Workspace(ev) => self.handle_workspace_event(ev),
        }
    }

    /// Takes on the state that a transition leads to, once its command, if
    /// any, has been sent.
    pub fn commit(&mut self, transition: Transition)
        ensures
            final(self).state() == transition.next,
            final(self).watched_class() == old(self).watched_class(),
    {
        self.last_focused = transition.next;
    }

    /// Decides what `event` leads to and takes on the new state at once,
    /// returning the container to send to the scratchpad, if any.
    pub fn process(&mut self, event: &Event) -> (r: Option<NodeId>)
        ensures
            r == transition(old(self).watched_class(), old(self).state(), *event).command,
            final(self).state() == transition(old(self).watched_class(), old(self).state(), *event).next,
            final(self).watched_class() == old(self).watched_class(),
    {
        let t = self.handle_event(event);
        self.commit(t);
        t.command
    }
}

} // verus!
