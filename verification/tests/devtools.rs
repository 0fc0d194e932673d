use ctool_backend::devtools::{toggle_dev_tools, DevToolsAction};

fn apply(action: DevToolsAction) -> bool {
    match action {
        DevToolsAction::OpenPanel => true,
        DevToolsAction::ClosePanel => false,
    }
}

#[test]
fn closed_panel_is_opened() {
    assert_eq!(toggle_dev_tools(false), DevToolsAction::OpenPanel);
}

#[test]
fn open_panel_is_closed() {
    assert_eq!(toggle_dev_tools(true), DevToolsAction::ClosePanel);
}

#[test]
fn toggling_twice_restores_visibility() {
    for start in [false, true] {
        let once = apply(toggle_dev_tools(start));
        assert_eq!(once, !start);
        let twice = apply(toggle_dev_tools(once));
        assert_eq!(twice, start);
    }
}

#[test]
fn initially_closed_panel_opens_then_closes() {
    let after_first = apply(toggle_dev_tools(false));
    assert!(after_first);
    let after_second = apply(toggle_dev_tools(after_first));
    assert!(!after_second);
}
