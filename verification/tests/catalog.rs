use hyprlib::catalog::EventKind;
use hyprlib::events::{
    ActiveLayout, ActiveSpecial, ActiveWindow, ActiveWindowV2, ChangeFloatingMode, CloseLayer,
    CloseWindow, CreateWorkspace, CreateWorkspaceV2, DestroyWorkspace, DestroyWorkspaceV2, Event,
    FocusedMon, Fullscreen, IgnoreGroupLock, LockGroups, Minimize, MonitorAdded, MonitorAddedV2,
    MonitorRemoved, MoveWindow, MoveWindowV2, MoveWorkspace, MoveWorkspaceV2, OpenLayer,
    OpenWindow, Pin, RenameWorkspace, Screencast, Submap, Urgent, WindowTitle, Workspace,
    WorkspaceV2,
};
use hyprlib::interpreter::{EventInterpretError, Interpreter};

fn decode(line: &str) -> Result<Event, EventInterpretError> {
    Interpreter::new(line).interpret()
}

fn text(s: &str) -> String {
    String::from(s)
}

#[test]
fn decodes_workspace() {
    let expected = Event::Workspace(Workspace { workspace_name: text("alpha") });
    assert_eq!(decode("workspace>>alpha"), Ok(expected.clone()));
    assert_eq!(Event::from("workspace", "alpha"), Ok(expected));
    assert_eq!(EventKind::from_tag("workspace"), Some(EventKind::Workspace));
    assert_eq!(EventKind::Workspace.tag(), "workspace");
    assert_eq!(EventKind::Workspace.arity(), 1);
}

#[test]
fn decodes_workspace_v2() {
    let expected = Event::WorkspaceV2(WorkspaceV2 { workspace_id: 3, workspace_name: text("beta gamma") });
    assert_eq!(decode("workspacev2>>3,beta gamma"), Ok(expected.clone()));
    assert_eq!(Event::from("workspacev2", "3,beta gamma"), Ok(expected));
    assert_eq!(EventKind::from_tag("workspacev2"), Some(EventKind::WorkspaceV2));
    assert_eq!(EventKind::WorkspaceV2.tag(), "workspacev2");
    assert_eq!(EventKind::WorkspaceV2.arity(), 2);
    assert_eq!(
        decode("workspacev2>>3"),
        Err(EventInterpretError::ArityError { variant: EventKind::WorkspaceV2, payload: text("3") })
    );
    assert_eq!(
        decode("workspacev2>>3,beta gamma,extra"),
        Err(EventInterpretError::ArityError { variant: EventKind::WorkspaceV2, payload: text("3,beta gamma,extra") })
    );
    assert_eq!(
        decode("workspacev2>>seven,beta gamma"),
        Err(EventInterpretError::FieldTypeError { variant: EventKind::WorkspaceV2, payload: text("seven,beta gamma") })
    );
}

#[test]
fn decodes_focused_mon() {
    let expected = Event::FocusedMon(FocusedMon { monitor_name: text("alpha"), workspace_name: text("beta gamma") });
    assert_eq!(decode("focusedmon>>alpha,beta gamma"), Ok(expected.clone()));
    assert_eq!(Event::from("focusedmon", "alpha,beta gamma"), Ok(expected));
    assert_eq!(EventKind::from_tag("focusedmon"), Some(EventKind::FocusedMon));
    assert_eq!(EventKind::FocusedMon.tag(), "focusedmon");
    assert_eq!(EventKind::FocusedMon.arity(), 2);
    assert_eq!(
        decode("focusedmon>>alpha"),
        Err(EventInterpretError::ArityError { variant: EventKind::FocusedMon, payload: text("alpha") })
    );
    assert_eq!(
        decode("focusedmon>>alpha,beta gamma,extra"),
        Err(EventInterpretError::ArityError { variant: EventKind::FocusedMon, payload: text("alpha,beta gamma,extra") })
    );
}

#[test]
fn decodes_active_window() {
    let expected = Event::ActiveWindow(ActiveWindow { window_class: text("alpha"), window_title: text("beta gamma") });
    assert_eq!(decode("activewindow>>alpha,beta gamma"), Ok(expected.clone()));
    assert_eq!(Event::from("activewindow", "alpha,beta gamma"), Ok(expected));
    assert_eq!(EventKind::from_tag("activewindow"), Some(EventKind::ActiveWindow));
    assert_eq!(EventKind::ActiveWindow.tag(), "activewindow");
    assert_eq!(EventKind::ActiveWindow.arity(), 2);
    assert_eq!(
        decode("activewindow>>alpha"),
        Err(EventInterpretError::ArityError { variant: EventKind::ActiveWindow, payload: text("alpha") })
    );
    assert_eq!(
        decode("activewindow>>alpha,beta gamma,extra"),
        Err(EventInterpretError::ArityError { variant: EventKind::ActiveWindow, payload: text("alpha,beta gamma,extra") })
    );
}

#[test]
fn decodes_active_window_v2() {
    let expected = Event::ActiveWindowV2(ActiveWindowV2 { window_address: text("alpha") });
    assert_eq!(decode("activewindowv2>>alpha"), Ok(expected.clone()));
    assert_eq!(Event::from("activewindowv2", "alpha"), Ok(expected));
    assert_eq!(EventKind::from_tag("activewindowv2"), Some(EventKind::ActiveWindowV2));
    assert_eq!(EventKind::ActiveWindowV2.tag(), "activewindowv2");
    assert_eq!(EventKind::ActiveWindowV2.arity(), 1);
}

#[test]
fn decodes_fullscreen() {
    let expected = Event::Fullscreen(Fullscreen { enter_fullscreen: true });
    assert_eq!(decode("fullscreen>>1"), Ok(expected.clone()));
    assert_eq!(Event::from("fullscreen", "1"), Ok(expected));
    assert_eq!(EventKind::from_tag("fullscreen"), Some(EventKind::Fullscreen));
    assert_eq!(EventKind::Fullscreen.tag(), "fullscreen");
    assert_eq!(EventKind::Fullscreen.arity(), 1);
}

#[test]
fn decodes_monitor_removed() {
    let expected = Event::MonitorRemoved(MonitorRemoved { monitor_name: text("alpha") });
    assert_eq!(decode("monitorremoved>>alpha"), Ok(expected.clone()));
    assert_eq!(Event::from("monitorremoved", "alpha"), Ok(expected));
    assert_eq!(EventKind::from_tag("monitorremoved"), Some(EventKind::MonitorRemoved));
    assert_eq!(EventKind::MonitorRemoved.tag(), "monitorremoved");
    assert_eq!(EventKind::MonitorRemoved.arity(), 1);
}

#[test]
fn decodes_monitor_added() {
    let expected = Event::MonitorAdded(MonitorAdded { monitor_name: text("alpha") });
    assert_eq!(decode("monitoradded>>alpha"), Ok(expected.clone()));
    assert_eq!(Event::from("monitoradded", "alpha"), Ok(expected));
    assert_eq!(EventKind::from_tag("monitoradded"), Some(EventKind::MonitorAdded));
    assert_eq!(EventKind::MonitorAdded.tag(), "monitoradded");
    assert_eq!(EventKind::MonitorAdded.arity(), 1);
}

#[test]
fn decodes_monitor_added_v2() {
    let expected = Event::MonitorAddedV2(MonitorAddedV2 { monitor_id: 3, monitor_name: text("beta gamma"), monitor_description: text("0x55d") });
    assert_eq!(decode("monitoraddedv2>>3,beta gamma,0x55d"), Ok(expected.clone()));
    assert_eq!(Event::from("monitoraddedv2", "3,beta gamma,0x55d"), Ok(expected));
    assert_eq!(EventKind::from_tag("monitoraddedv2"), Some(EventKind::MonitorAddedV2));
    assert_eq!(EventKind::MonitorAddedV2.tag(), "monitoraddedv2");
    assert_eq!(EventKind::MonitorAddedV2.arity(), 3);
    assert_eq!(
        decode("monitoraddedv2>>3,beta gamma"),
        Err(EventInterpretError::ArityError { variant: EventKind::MonitorAddedV2, payload: text("3,beta gamma") })
    );
    assert_eq!(
        decode("monitoraddedv2>>3,beta gamma,0x55d,extra"),
        Err(EventInterpretError::ArityError { variant: EventKind::MonitorAddedV2, payload: text("3,beta gamma,0x55d,extra") })
    );
    assert_eq!(
        decode("monitoraddedv2>>seven,beta gamma,0x55d"),
        Err(EventInterpretError::FieldTypeError { variant: EventKind::MonitorAddedV2, payload: text("seven,beta gamma,0x55d") })
    );
}

#[test]
fn decodes_create_workspace() {
    let expected = Event::CreateWorkspace(CreateWorkspace { workspace_name: text("alpha") });
    assert_eq!(decode("createworkspace>>alpha"), Ok(expected.clone()));
    assert_eq!(Event::from("createworkspace", "alpha"), Ok(expected));
    assert_eq!(EventKind::from_tag("createworkspace"), Some(EventKind::CreateWorkspace));
    assert_eq!(EventKind::CreateWorkspace.tag(), "createworkspace");
    assert_eq!(EventKind::CreateWorkspace.arity(), 1);
}

#[test]
fn decodes_create_workspace_v2() {
    let expected = Event::CreateWorkspaceV2(CreateWorkspaceV2 { workspace_id: 3, workspace_name: text("beta gamma") });
    assert_eq!(decode("createworkspacev2>>3,beta gamma"), Ok(expected.clone()));
    assert_eq!(Event::from("createworkspacev2", "3,beta gamma"), Ok(expected));
    assert_eq!(EventKind::from_tag("createworkspacev2"), Some(EventKind::CreateWorkspaceV2));
    assert_eq!(EventKind::CreateWorkspaceV2.tag(), "createworkspacev2");
    assert_eq!(EventKind::CreateWorkspaceV2.arity(), 2);
    assert_eq!(
        decode("createworkspacev2>>3"),
        Err(EventInterpretError::ArityError { variant: EventKind::CreateWorkspaceV2, payload: text("3") })
    );
    assert_eq!(
        decode("createworkspacev2>>3,beta gamma,extra"),
        Err(EventInterpretError::ArityError { variant: EventKind::CreateWorkspaceV2, payload: text("3,beta gamma,extra") })
    );
    assert_eq!(
        decode("createworkspacev2>>seven,beta gamma"),
        Err(EventInterpretError::FieldTypeError { variant: EventKind::CreateWorkspaceV2, payload: text("seven,beta gamma") })
    );
}

#[test]
fn decodes_destroy_workspace() {
    let expected = Event::DestroyWorkspace(DestroyWorkspace { workspace_name: text("alpha") });
    assert_eq!(decode("destroyworkspace>>alpha"), Ok(expected.clone()));
    assert_eq!(Event::from("destroyworkspace", "alpha"), Ok(expected));
    assert_eq!(EventKind::from_tag("destroyworkspace"), Some(EventKind::DestroyWorkspace));
    assert_eq!(EventKind::DestroyWorkspace.tag(), "destroyworkspace");
    assert_eq!(EventKind::DestroyWorkspace.arity(), 1);
}

#[test]
fn decodes_destroy_workspace_v2() {
    let expected = Event::DestroyWorkspaceV2(DestroyWorkspaceV2 { workspace_id: 3, workspace_name: text("beta gamma") });
    assert_eq!(decode("destroyworkspacev2>>3,beta gamma"), Ok(expected.clone()));
    assert_eq!(Event::from("destroyworkspacev2", "3,beta gamma"), Ok(expected));
    assert_eq!(EventKind::from_tag("destroyworkspacev2"), Some(EventKind::DestroyWorkspaceV2));
    assert_eq!(EventKind::DestroyWorkspaceV2.tag(), "destroyworkspacev2");
    assert_eq!(EventKind::DestroyWorkspaceV2.arity(), 2);
    assert_eq!(
        decode("destroyworkspacev2>>3"),
        Err(EventInterpretError::ArityError { variant: EventKind::DestroyWorkspaceV2, payload: text("3") })
    );
    assert_eq!(
        decode("destroyworkspacev2>>3,beta gamma,extra"),
        Err(EventInterpretError::ArityError { variant: EventKind::DestroyWorkspaceV2, payload: text("3,beta gamma,extra") })
    );
    assert_eq!(
        decode("destroyworkspacev2>>seven,beta gamma"),
        Err(EventInterpretError::FieldTypeError { variant: EventKind::DestroyWorkspaceV2, payload: text("seven,beta gamma") })
    );
}

#[test]
fn decodes_move_workspace() {
    let expected = Event::MoveWorkspace(MoveWorkspace { workspace_name: text("alpha"), monitor_name: text("beta gamma") });
    assert_eq!(decode("moveworkspace>>alpha,beta gamma"), Ok(expected.clone()));
    assert_eq!(Event::from("moveworkspace", "alpha,beta gamma"), Ok(expected));
    assert_eq!(EventKind::from_tag("moveworkspace"), Some(EventKind::MoveWorkspace));
    assert_eq!(EventKind::MoveWorkspace.tag(), "moveworkspace");
    assert_eq!(EventKind::MoveWorkspace.arity(), 2);
    assert_eq!(
        decode("moveworkspace>>alpha"),
        Err(EventInterpretError::ArityError { variant: EventKind::MoveWorkspace, payload: text("alpha") })
    );
    assert_eq!(
        decode("moveworkspace>>alpha,beta gamma,extra"),
        Err(EventInterpretError::ArityError { variant: EventKind::MoveWorkspace, payload: text("alpha,beta gamma,extra") })
    );
}

#[test]
fn decodes_move_workspace_v2() {
    let expected = Event::MoveWorkspaceV2(MoveWorkspaceV2 { workspace_id: 3, workspace_name: text("beta gamma"), monitor_name: text("0x55d") });
    assert_eq!(decode("moveworkspacev2>>3,beta gamma,0x55d"), Ok(expected.clone()));
    assert_eq!(Event::from("moveworkspacev2", "3,beta gamma,0x55d"), Ok(expected));
    assert_eq!(EventKind::from_tag("moveworkspacev2"), Some(EventKind::MoveWorkspaceV2));
    assert_eq!(EventKind::MoveWorkspaceV2.tag(), "moveworkspacev2");
    assert_eq!(EventKind::MoveWorkspaceV2.arity(), 3);
    assert_eq!(
        decode("moveworkspacev2>>3,beta gamma"),
        Err(EventInterpretError::ArityError { variant: EventKind::MoveWorkspaceV2, payload: text("3,beta gamma") })
    );
    assert_eq!(
        decode("moveworkspacev2>>3,beta gamma,0x55d,extra"),
        Err(EventInterpretError::ArityError { variant: EventKind::MoveWorkspaceV2, payload: text("3,beta gamma,0x55d,extra") })
    );
    assert_eq!(
        decode("moveworkspacev2>>seven,beta gamma,0x55d"),
        Err(EventInterpretError::FieldTypeError { variant: EventKind::MoveWorkspaceV2, payload: text("seven,beta gamma,0x55d") })
    );
}

#[test]
fn decodes_rename_workspace() {
    let expected = Event::RenameWorkspace(RenameWorkspace { workspace_id: 3, new_name: text("beta gamma") });
    assert_eq!(decode("renameworkspace>>3,beta gamma"), Ok(expected.clone()));
    assert_eq!(Event::from("renameworkspace", "3,beta gamma"), Ok(expected));
    assert_eq!(EventKind::from_tag("renameworkspace"), Some(EventKind::RenameWorkspace));
    assert_eq!(EventKind::RenameWorkspace.tag(), "renameworkspace");
    assert_eq!(EventKind::RenameWorkspace.arity(), 2);
    assert_eq!(
        decode("renameworkspace>>3"),
        Err(EventInterpretError::ArityError { variant: EventKind::RenameWorkspace, payload: text("3") })
    );
    assert_eq!(
        decode("renameworkspace>>3,beta gamma,extra"),
        Err(EventInterpretError::ArityError { variant: EventKind::RenameWorkspace, payload: text("3,beta gamma,extra") })
    );
    assert_eq!(
        decode("renameworkspace>>seven,beta gamma"),
        Err(EventInterpretError::FieldTypeError { variant: EventKind::RenameWorkspace, payload: text("seven,beta gamma") })
    );
}

#[test]
fn decodes_active_special() {
    let expected = Event::ActiveSpecial(ActiveSpecial { workspace_name: text("alpha"), monitor_name: text("beta gamma") });
    assert_eq!(decode("activespecial>>alpha,beta gamma"), Ok(expected.clone()));
    assert_eq!(Event::from("activespecial", "alpha,beta gamma"), Ok(expected));
    assert_eq!(EventKind::from_tag("activespecial"), Some(EventKind::ActiveSpecial));
    assert_eq!(EventKind::ActiveSpecial.tag(), "activespecial");
    assert_eq!(EventKind::ActiveSpecial.arity(), 2);
    assert_eq!(
        decode("activespecial>>alpha"),
        Err(EventInterpretError::ArityError { variant: EventKind::ActiveSpecial, payload: text("alpha") })
    );
    assert_eq!(
        decode("activespecial>>alpha,beta gamma,extra"),
        Err(EventInterpretError::ArityError { variant: EventKind::ActiveSpecial, payload: text("alpha,beta gamma,extra") })
    );
}

#[test]
fn decodes_active_layout() {
    let expected = Event::ActiveLayout(ActiveLayout { keyboard_name: text("alpha"), layout_name: text("beta gamma") });
    assert_eq!(decode("activelayout>>alpha,beta gamma"), Ok(expected.clone()));
    assert_eq!(Event::from("activelayout", "alpha,beta gamma"), Ok(expected));
    assert_eq!(EventKind::from_tag("activelayout"), Some(EventKind::ActiveLayout));
    assert_eq!(EventKind::ActiveLayout.tag(), "activelayout");
    assert_eq!(EventKind::ActiveLayout.arity(), 2);
    assert_eq!(
        decode("activelayout>>alpha"),
        Err(EventInterpretError::ArityError { variant: EventKind::ActiveLayout, payload: text("alpha") })
    );
    assert_eq!(
        decode("activelayout>>alpha,beta gamma,extra"),
        Err(EventInterpretError::ArityError { variant: EventKind::ActiveLayout, payload: text("alpha,beta gamma,extra") })
    );
}

#[test]
fn decodes_open_window() {
    let expected = Event::OpenWindow(OpenWindow { window_address: text("alpha"), workspace_name: text("beta gamma"), window_class: text("0x55d"), window_title: text("Example Title") });
    assert_eq!(decode("openwindow>>alpha,beta gamma,0x55d,Example Title"), Ok(expected.clone()));
    assert_eq!(Event::from("openwindow", "alpha,beta gamma,0x55d,Example Title"), Ok(expected));
    assert_eq!(EventKind::from_tag("openwindow"), Some(EventKind::OpenWindow));
    assert_eq!(EventKind::OpenWindow.tag(), "openwindow");
    assert_eq!(EventKind::OpenWindow.arity(), 4);
    assert_eq!(
        decode("openwindow>>alpha,beta gamma,0x55d"),
        Err(EventInterpretError::ArityError { variant: EventKind::OpenWindow, payload: text("alpha,beta gamma,0x55d") })
    );
    assert_eq!(
        decode("openwindow>>alpha,beta gamma,0x55d,Example Title,extra"),
        Err(EventInterpretError::ArityError { variant: EventKind::OpenWindow, payload: text("alpha,beta gamma,0x55d,Example Title,extra") })
    );
}

#[test]
fn decodes_close_window() {
    let expected = Event::CloseWindow(CloseWindow { window_address: text("alpha") });
    assert_eq!(decode("closewindow>>alpha"), Ok(expected.clone()));
    assert_eq!(Event::from("closewindow", "alpha"), Ok(expected));
    assert_eq!(EventKind::from_tag("closewindow"), Some(EventKind::CloseWindow));
    assert_eq!(EventKind::CloseWindow.tag(), "closewindow");
    assert_eq!(EventKind::CloseWindow.arity(), 1);
}

#[test]
fn decodes_move_window() {
    let expected = Event::MoveWindow(MoveWindow { window_address: text("alpha"), workspace_name: text("beta gamma") });
    assert_eq!(decode("movewindow>>alpha,beta gamma"), Ok(expected.clone()));
    assert_eq!(Event::from("movewindow", "alpha,beta gamma"), Ok(expected));
    assert_eq!(EventKind::from_tag("movewindow"), Some(EventKind::MoveWindow));
    assert_eq!(EventKind::MoveWindow.tag(), "movewindow");
    assert_eq!(EventKind::MoveWindow.arity(), 2);
    assert_eq!(
        decode("movewindow>>alpha"),
        Err(EventInterpretError::ArityError { variant: EventKind::MoveWindow, payload: text("alpha") })
    );
    assert_eq!(
        decode("movewindow>>alpha,beta gamma,extra"),
        Err(EventInterpretError::ArityError { variant: EventKind::MoveWindow, payload: text("alpha,beta gamma,extra") })
    );
}

#[test]
fn decodes_move_window_v2() {
    let expected = Event::MoveWindowV2(MoveWindowV2 { window_address: text("alpha"), workspace_id: 42, workspace_name: text("0x55d") });
    assert_eq!(decode("movewindowv2>>alpha,42,0x55d"), Ok(expected.clone()));
    assert_eq!(Event::from("movewindowv2", "alpha,42,0x55d"), Ok(expected));
    assert_eq!(EventKind::from_tag("movewindowv2"), Some(EventKind::MoveWindowV2));
    assert_eq!(EventKind::MoveWindowV2.tag(), "movewindowv2");
    assert_eq!(EventKind::MoveWindowV2.arity(), 3);
    assert_eq!(
        decode("movewindowv2>>alpha,42"),
        Err(EventInterpretError::ArityError { variant: EventKind::MoveWindowV2, payload: text("alpha,42") })
    );
    assert_eq!(
        decode("movewindowv2>>alpha,42,0x55d,extra"),
        Err(EventInterpretError::ArityError { variant: EventKind::MoveWindowV2, payload: text("alpha,42,0x55d,extra") })
    );
    assert_eq!(
        decode("movewindowv2>>alpha,seven,0x55d"),
        Err(EventInterpretError::FieldTypeError { variant: EventKind::MoveWindowV2, payload: text("alpha,seven,0x55d") })
    );
}

#[test]
fn decodes_open_layer() {
    let expected = Event::OpenLayer(OpenLayer { namespace: text("alpha") });
    assert_eq!(decode("openlayer>>alpha"), Ok(expected.clone()));
    assert_eq!(Event::from("openlayer", "alpha"), Ok(expected));
    assert_eq!(EventKind::from_tag("openlayer"), Some(EventKind::OpenLayer));
    assert_eq!(EventKind::OpenLayer.tag(), "openlayer");
    assert_eq!(EventKind::OpenLayer.arity(), 1);
}

#[test]
fn decodes_close_layer() {
    let expected = Event::CloseLayer(CloseLayer { namespace: text("alpha") });
    assert_eq!(decode("closelayer>>alpha"), Ok(expected.clone()));
    assert_eq!(Event::from("closelayer", "alpha"), Ok(expected));
    assert_eq!(EventKind::from_tag("closelayer"), Some(EventKind::CloseLayer));
    assert_eq!(EventKind::CloseLayer.tag(), "closelayer");
    assert_eq!(EventKind::CloseLayer.arity(), 1);
}

#[test]
fn decodes_submap() {
    let expected = Event::Submap(Submap { submap_name: text("alpha") });
    assert_eq!(decode("submap>>alpha"), Ok(expected.clone()));
    assert_eq!(Event::from("submap", "alpha"), Ok(expected));
    assert_eq!(EventKind::from_tag("submap"), Some(EventKind::Submap));
    assert_eq!(EventKind::Submap.tag(), "submap");
    assert_eq!(EventKind::Submap.arity(), 1);
}

#[test]
fn decodes_change_floating_mode() {
    let expected = Event::ChangeFloatingMode(ChangeFloatingMode { window_address: text("alpha"), floating: false });
    assert_eq!(decode("changefloatingmode>>alpha,0"), Ok(expected.clone()));
    assert_eq!(Event::from("changefloatingmode", "alpha,0"), Ok(expected));
    assert_eq!(EventKind::from_tag("changefloatingmode"), Some(EventKind::ChangeFloatingMode));
    assert_eq!(EventKind::ChangeFloatingMode.tag(), "changefloatingmode");
    assert_eq!(EventKind::ChangeFloatingMode.arity(), 2);
    assert_eq!(
        decode("changefloatingmode>>alpha"),
        Err(EventInterpretError::ArityError { variant: EventKind::ChangeFloatingMode, payload: text("alpha") })
    );
    assert_eq!(
        decode("changefloatingmode>>alpha,0,extra"),
        Err(EventInterpretError::ArityError { variant: EventKind::ChangeFloatingMode, payload: text("alpha,0,extra") })
    );
}

#[test]
fn decodes_urgent() {
    let expected = Event::Urgent(Urgent { window_address: text("alpha") });
    assert_eq!(decode("urgent>>alpha"), Ok(expected.clone()));
    assert_eq!(Event::from("urgent", "alpha"), Ok(expected));
    assert_eq!(EventKind::from_tag("urgent"), Some(EventKind::Urgent));
    assert_eq!(EventKind::Urgent.tag(), "urgent");
    assert_eq!(EventKind::Urgent.arity(), 1);
}

#[test]
fn decodes_minimize() {
    let expected = Event::Minimize(Minimize { window_address: text("alpha"), minimized: false });
    assert_eq!(decode("minimize>>alpha,0"), Ok(expected.clone()));
    assert_eq!(Event::from("minimize", "alpha,0"), Ok(expected));
    assert_eq!(EventKind::from_tag("minimize"), Some(EventKind::Minimize));
    assert_eq!(EventKind::Minimize.tag(), "minimize");
    assert_eq!(EventKind::Minimize.arity(), 2);
    assert_eq!(
        decode("minimize>>alpha"),
        Err(EventInterpretError::ArityError { variant: EventKind::Minimize, payload: text("alpha") })
    );
    assert_eq!(
        decode("minimize>>alpha,0,extra"),
        Err(EventInterpretError::ArityError { variant: EventKind::Minimize, payload: text("alpha,0,extra") })
    );
}

#[test]
fn decodes_screencast() {
    let expected = Event::Screencast(Screencast { state: true, owner: 42 });
    assert_eq!(decode("screencast>>1,42"), Ok(expected.clone()));
    assert_eq!(Event::from("screencast", "1,42"), Ok(expected));
    assert_eq!(EventKind::from_tag("screencast"), Some(EventKind::Screencast));
    assert_eq!(EventKind::Screencast.tag(), "screencast");
    assert_eq!(EventKind::Screencast.arity(), 2);
    assert_eq!(
        decode("screencast>>1"),
        Err(EventInterpretError::ArityError { variant: EventKind::Screencast, payload: text("1") })
    );
    assert_eq!(
        decode("screencast>>1,42,extra"),
        Err(EventInterpretError::ArityError { variant: EventKind::Screencast, payload: text("1,42,extra") })
    );
    assert_eq!(
        decode("screencast>>1,seven"),
        Err(EventInterpretError::FieldTypeError { variant: EventKind::Screencast, payload: text("1,seven") })
    );
}

#[test]
fn decodes_window_title() {
    let expected = Event::WindowTitle(WindowTitle { window_address: text("alpha") });
    assert_eq!(decode("windowtitle>>alpha"), Ok(expected.clone()));
    assert_eq!(Event::from("windowtitle", "alpha"), Ok(expected));
    assert_eq!(EventKind::from_tag("windowtitle"), Some(EventKind::WindowTitle));
    assert_eq!(EventKind::WindowTitle.tag(), "windowtitle");
    assert_eq!(EventKind::WindowTitle.arity(), 1);
}

#[test]
fn decodes_ignore_group_lock() {
    let expected = Event::IgnoreGroupLock(IgnoreGroupLock { state: true });
    assert_eq!(decode("ignoregrouplock>>1"), Ok(expected.clone()));
    assert_eq!(Event::from("ignoregrouplock", "1"), Ok(expected));
    assert_eq!(EventKind::from_tag("ignoregrouplock"), Some(EventKind::IgnoreGroupLock));
    assert_eq!(EventKind::IgnoreGroupLock.tag(), "ignoregrouplock");
    assert_eq!(EventKind::IgnoreGroupLock.arity(), 1);
}

#[test]
fn decodes_lock_groups() {
    let expected = Event::LockGroups(LockGroups { state: true });
    assert_eq!(decode("lockgroups>>1"), Ok(expected.clone()));
    assert_eq!(Event::from("lockgroups", "1"), Ok(expected));
    assert_eq!(EventKind::from_tag("lockgroups"), Some(EventKind::LockGroups));
    assert_eq!(EventKind::LockGroups.tag(), "lockgroups");
    assert_eq!(EventKind::LockGroups.arity(), 1);
}

#[test]
fn decodes_config_reloaded() {
    let expected = Event::ConfigReloaded;
    assert_eq!(decode("configreloaded>>"), Ok(expected.clone()));
    assert_eq!(Event::from("configreloaded", ""), Ok(expected));
    assert_eq!(EventKind::from_tag("configreloaded"), Some(EventKind::ConfigReloaded));
    assert_eq!(EventKind::ConfigReloaded.tag(), "configreloaded");
    assert_eq!(EventKind::ConfigReloaded.arity(), 0);
}

#[test]
fn decodes_pin() {
    let expected = Event::Pin(Pin { window_address: text("alpha"), pin_state: false });
    assert_eq!(decode("pin>>alpha,0"), Ok(expected.clone()));
    assert_eq!(Event::from("pin", "alpha,0"), Ok(expected));
    assert_eq!(EventKind::from_tag("pin"), Some(EventKind::Pin));
    assert_eq!(EventKind::Pin.tag(), "pin");
    assert_eq!(EventKind::Pin.arity(), 2);
    assert_eq!(
        decode("pin>>alpha"),
        Err(EventInterpretError::ArityError { variant: EventKind::Pin, payload: text("alpha") })
    );
    assert_eq!(
        decode("pin>>alpha,0,extra"),
        Err(EventInterpretError::ArityError { variant: EventKind::Pin, payload: text("alpha,0,extra") })
    );
}
