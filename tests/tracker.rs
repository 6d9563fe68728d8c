use i3_back_to_scratch::command::move_command;
use i3_back_to_scratch::focus::{
    is_empty_workspace, Event, FocusMonitor, Focused, Transition, WindowEvent, WindowInfo,
    WorkspaceEvent, WorkspaceInfo,
};

fn window(id: usize, class: Option<&str>) -> WindowInfo {
    WindowInfo { id, class: class.map(|c| c.to_string()) }
}

fn focus(id: usize, class: Option<&str>) -> Event {
    Event::Window(WindowEvent { focus: true, container: window(id, class) })
}

fn workspace(nodes: Vec<usize>, floating_nodes: Vec<usize>) -> Event {
    Event::Workspace(WorkspaceEvent {
        focus: true,
        current: Some(WorkspaceInfo { nodes, floating_nodes }),
    })
}

fn terminal_monitor() -> FocusMonitor {
    FocusMonitor::new("Terminal".to_string())
}

#[test]
fn terminal_shell_scenario() {
    let mut m = terminal_monitor();
    assert_eq!(m.process(&focus(1, Some("Terminal"))), None);
    assert_eq!(m.last_focused(), Focused::Scratchpad(1));
    assert_eq!(m.process(&focus(2, Some("Shell"))), Some(1));
    assert_eq!(m.last_focused(), Focused::Other);
    assert_eq!(m.process(&focus(1, Some("Terminal"))), None);
    assert_eq!(m.last_focused(), Focused::Scratchpad(1));
    assert_eq!(m.process(&workspace(vec![], vec![])), Some(1));
    assert_eq!(m.last_focused(), Focused::Other);
    assert_eq!(move_command(1), "[con_id=1] move scratchpad");
}

#[test]
fn new_monitor_starts_other() {
    let m = terminal_monitor();
    assert_eq!(m.last_focused(), Focused::Other);
    assert_eq!(m.scratchpad_class(), "Terminal");
}

#[test]
fn run_of_focus_sends_once_at_end() {
    let mut m = FocusMonitor::new("Term".to_string());
    m.process(&focus(3, Some("Other")));
    assert_eq!(m.process(&focus(7, Some("Term"))), None);
    assert_eq!(m.process(&focus(7, Some("Term"))), None);
    assert_eq!(m.process(&focus(7, Some("Term"))), None);
    assert_eq!(m.process(&focus(8, None)), Some(7));
    assert_eq!(m.process(&focus(9, Some("Other"))), None);
}

#[test]
fn run_starting_from_other_watched_window() {
    let mut m = FocusMonitor::new("Term".to_string());
    assert_eq!(m.process(&focus(4, Some("Term"))), None);
    // another window of the same class takes focus: the first one goes away
    assert_eq!(m.process(&focus(5, Some("Term"))), Some(4));
    assert_eq!(m.last_focused(), Focused::Scratchpad(5));
    assert_eq!(m.process(&focus(6, Some("Shell"))), Some(5));
}

#[test]
fn refocus_same_window_sends_nothing() {
    let m = FocusMonitor::new("Term".to_string());
    let mut m = m;
    m.commit(Transition { command: None, next: Focused::Scratchpad(11) });
    for _ in 0..5 {
        assert_eq!(m.process(&focus(11, Some("Term"))), None);
        assert_eq!(m.last_focused(), Focused::Scratchpad(11));
    }
}

#[test]
fn other_class_never_tracked() {
    let mut m = terminal_monitor();
    assert_eq!(m.process(&focus(1, Some("terminal"))), None);
    assert_eq!(m.last_focused(), Focused::Other);
    assert_eq!(m.process(&focus(2, None)), None);
    assert_eq!(m.last_focused(), Focused::Other);
    assert_eq!(m.process(&focus(3, Some("Terminal "))), None);
    assert_eq!(m.last_focused(), Focused::Other);
}

#[test]
fn classifier_is_exact() {
    let m = terminal_monitor();
    assert!(m.is_scratchpad_window(&window(1, Some("Terminal"))));
    assert!(!m.is_scratchpad_window(&window(1, Some("terminal"))));
    assert!(!m.is_scratchpad_window(&window(1, Some("Term"))));
    assert!(!m.is_scratchpad_window(&window(1, Some(""))));
    assert!(!m.is_scratchpad_window(&window(1, None)));
}

#[test]
fn empty_workspace_sends_once() {
    let mut m = terminal_monitor();
    m.process(&focus(42, Some("Terminal")));
    assert_eq!(m.process(&workspace(vec![], vec![])), Some(42));
    assert_eq!(m.last_focused(), Focused::Other);
    assert_eq!(m.process(&workspace(vec![], vec![])), None);
    assert_eq!(m.last_focused(), Focused::Other);
}

#[test]
fn nonempty_workspace_sends_nothing() {
    let mut m = terminal_monitor();
    m.process(&focus(42, Some("Terminal")));
    assert_eq!(m.process(&workspace(vec![5], vec![])), None);
    assert_eq!(m.process(&workspace(vec![], vec![6])), None);
    assert_eq!(m.process(&workspace(vec![5, 7], vec![6])), None);
    assert_eq!(m.last_focused(), Focused::Scratchpad(42));
    let mut other = terminal_monitor();
    assert_eq!(other.process(&workspace(vec![5], vec![])), None);
    assert_eq!(other.last_focused(), Focused::Other);
}

#[test]
fn workspace_without_snapshot_sends_nothing() {
    let mut m = terminal_monitor();
    m.process(&focus(42, Some("Terminal")));
    let ev = Event::Workspace(WorkspaceEvent { focus: true, current: None });
    assert_eq!(m.process(&ev), None);
    assert_eq!(m.last_focused(), Focused::Scratchpad(42));
}

#[test]
fn non_focus_events_are_ignored() {
    let mut m = terminal_monitor();
    m.process(&focus(42, Some("Terminal")));
    let win = Event::Window(WindowEvent { focus: false, container: window(9, Some("Shell")) });
    assert_eq!(m.process(&win), None);
    assert_eq!(m.last_focused(), Focused::Scratchpad(42));
    let ws = Event::Workspace(WorkspaceEvent {
        focus: false,
        current: Some(WorkspaceInfo { nodes: vec![], floating_nodes: vec![] }),
    });
    assert_eq!(m.process(&ws), None);
    assert_eq!(m.last_focused(), Focused::Scratchpad(42));
}

#[test]
fn decision_leaves_state_until_commit() {
    let mut m = terminal_monitor();
    m.process(&focus(1, Some("Terminal")));
    let t = m.handle_event(&focus(2, Some("Shell")));
    assert_eq!(t, Transition { command: Some(1), next: Focused::Other });
    assert_eq!(m.last_focused(), Focused::Scratchpad(1));
    m.commit(t);
    assert_eq!(m.last_focused(), Focused::Other);
}

#[test]
fn window_and_workspace_handlers() {
    let m = terminal_monitor();
    let mut m = m;
    m.commit(Transition { command: None, next: Focused::Scratchpad(3) });
    let w = WindowEvent { focus: true, container: window(4, Some("Terminal")) };
    assert_eq!(
        m.handle_window_event(&w),
        Transition { command: Some(3), next: Focused::Scratchpad(4) }
    );
    let ws = WorkspaceEvent {
        focus: true,
        current: Some(WorkspaceInfo { nodes: vec![], floating_nodes: vec![] }),
    };
    assert_eq!(
        m.handle_workspace_event(&ws),
        Transition { command: Some(3), next: Focused::Other }
    );
}

#[test]
fn empty_workspace_detection() {
    assert!(is_empty_workspace(&WorkspaceInfo { nodes: vec![], floating_nodes: vec![] }));
    assert!(!is_empty_workspace(&WorkspaceInfo { nodes: vec![1], floating_nodes: vec![] }));
    assert!(!is_empty_workspace(&WorkspaceInfo { nodes: vec![], floating_nodes: vec![1] }));
}

#[test]
fn move_command_text() {
    assert_eq!(move_command(0), "[con_id=0] move scratchpad");
    assert_eq!(move_command(9), "[con_id=9] move scratchpad");
    assert_eq!(move_command(10), "[con_id=10] move scratchpad");
    assert_eq!(move_command(94123456789), "[con_id=94123456789] move scratchpad");
    assert_eq!(
        move_command(usize::MAX),
        format!("[con_id={}] move scratchpad", usize::MAX)
    );
}
