//! The catalog of notification kinds: the wire tag of each kind and the
//! ordered types of the fields that its payload carries.

use crate::text::{chars_of, spells};
use vstd::prelude::*;

verus! {

/// The type of one payload field.
#[derive(Clone, Copy, Debug, PartialEq, Eq, Structural)]
pub enum FieldType {
    /// Text, taken as it stands.
    Text,
    /// An unsigned 32-bit decimal number.
    Uint,
    /// A boolean: the text `1` is `true`, any other text is `false`.
    Flag,
}

/// The kinds of notification that the compositor sends. The set is closed:
/// a tag outside it belongs to no kind.
#[derive(Clone, Copy, Debug, PartialEq, Eq, Structural)]
pub enum EventKind {
    /// `workspace`: the active workspace changed on the user's request.
    Workspace,
    /// `workspacev2`: the active workspace changed on the user's request; carries the workspace's id as well.
    WorkspaceV2,
    /// `focusedmon`: another monitor took the focus.
    FocusedMon,
    /// `activewindow`: another window became the active one.
    ActiveWindow,
    /// `activewindowv2`: another window became the active one; carries its address only.
    ActiveWindowV2,
    /// `fullscreen`: a window entered or left fullscreen.
    Fullscreen,
    /// `monitorremoved`: a monitor was disconnected.
    MonitorRemoved,
    /// `monitoradded`: a monitor was connected.
    MonitorAdded,
    /// `monitoraddedv2`: a monitor was connected; carries its id and description as well.
    MonitorAddedV2,
    /// `createworkspace`: a workspace was created.
    CreateWorkspace,
    /// `createworkspacev2`: a workspace was created; carries its id as well.
    CreateWorkspaceV2,
    /// `destroyworkspace`: a workspace was destroyed.
    DestroyWorkspace,
    /// `destroyworkspacev2`: a workspace was destroyed; carries its id as well.
    DestroyWorkspaceV2,
    /// `moveworkspace`: a workspace moved to another monitor.
    MoveWorkspace,
    /// `moveworkspacev2`: a workspace moved to another monitor; carries its id as well.
    MoveWorkspaceV2,
    /// `renameworkspace`: a workspace was renamed.
    RenameWorkspace,
    /// `activespecial`: the special workspace shown on a monitor changed.
    ActiveSpecial,
    /// `activelayout`: a keyboard switched its layout.
    ActiveLayout,
    /// `openwindow`: a window was opened.
    OpenWindow,
    /// `closewindow`: a window was closed.
    CloseWindow,
    /// `movewindow`: a window moved to another workspace.
    MoveWindow,
    /// `movewindowv2`: a window moved to another workspace; carries the workspace's id as well.
    MoveWindowV2,
    /// `openlayer`: a layer surface was mapped.
    OpenLayer,
    /// `closelayer`: a layer surface was unmapped.
    CloseLayer,
    /// `submap`: the keybind submap changed.
    Submap,
    /// `changefloatingmode`: a window switched between floating and tiled.
    ChangeFloatingMode,
    /// `urgent`: a window asked for attention.
    Urgent,
    /// `minimize`: a window asked to be minimized or restored.
    Minimize,
    /// `screencast`: a screen copy session started or ended.
    Screencast,
    /// `windowtitle`: a window changed its title.
    WindowTitle,
    /// `ignoregrouplock`: the setting that ignores group locks was toggled.
    IgnoreGroupLock,
    /// `lockgroups`: the lock on all groups was toggled.
    LockGroups,
    /// `configreloaded`: the compositor finished reloading its configuration.
    ConfigReloaded,
    /// `pin`: a window was pinned or unpinned.
    Pin,
}

impl EventKind {
    /// The kind's wire tag.
    pub open spec fn tag_text(self) -> Seq<char> {
        match self {
            EventKind::Workspace => "workspace"@,
            EventKind::WorkspaceV2 => "workspacev2"@,
            EventKind::FocusedMon => "focusedmon"@,
            EventKind::ActiveWindow => "activewindow"@,
            EventKind::ActiveWindowV2 => "activewindowv2"@,
            EventKind::Fullscreen => "fullscreen"@,
            EventKind::MonitorRemoved => "monitorremoved"@,
            EventKind::MonitorAdded => "monitoradded"@,
            EventKind::MonitorAddedV2 => "monitoraddedv2"@,
            EventKind::CreateWorkspace => "createworkspace"@,
            EventKind::CreateWorkspaceV2 => "createworkspacev2"@,
            EventKind::DestroyWorkspace => "destroyworkspace"@,
            EventKind::DestroyWorkspaceV2 => "destroyworkspacev2"@,
            EventKind::MoveWorkspace => "moveworkspace"@,
            EventKind::MoveWorkspaceV2 => "moveworkspacev2"@,
            EventKind::RenameWorkspace => "renameworkspace"@,
            EventKind::ActiveSpecial => "activespecial"@,
            EventKind::ActiveLayout => "activelayout"@,
            EventKind::OpenWindow => "openwindow"@,
            EventKind::CloseWindow => "closewindow"@,
            EventKind::MoveWindow => "movewindow"@,
            EventKind::MoveWindowV2 => "movewindowv2"@,
            EventKind::OpenLayer => "openlayer"@,
            EventKind::CloseLayer => "closelayer"@,
            EventKind::Submap => "submap"@,
            EventKind::ChangeFloatingMode => "changefloatingmode"@,
            EventKind::Urgent => "urgent"@,
            EventKind::Minimize => "minimize"@,
            EventKind::Screencast => "screencast"@,
            EventKind::WindowTitle => "windowtitle"@,
            EventKind::IgnoreGroupLock => "ignoregrouplock"@,
            EventKind::LockGroups => "lockgroups"@,
            EventKind::ConfigReloaded => "configreloaded"@,
            EventKind::Pin => "pin"@,
        }
    }

    /// The types of the kind's payload fields, in wire order. Its length is
    /// the kind's arity.
    pub open spec fn schema(self) -> Seq<FieldType> {
        match self {
            EventKind::Workspace => seq![FieldType::Text],
            EventKind::WorkspaceV2 => seq![FieldType::Uint, FieldType::Text],
            EventKind::FocusedMon => seq![FieldType::Text, FieldType::Text],
            EventKind::ActiveWindow => seq![FieldType::Text, FieldType::Text],
            EventKind::ActiveWindowV2 => seq![FieldType::Text],
            EventKind::Fullscreen => seq![FieldType::Flag],
            EventKind::MonitorRemoved => seq![FieldType::Text],
            EventKind::MonitorAdded => seq![FieldType::Text],
            EventKind::MonitorAddedV2 => seq![FieldType::Uint, FieldType::Text, FieldType::Text],
            EventKind::CreateWorkspace => seq![FieldType::Text],
            EventKind::CreateWorkspaceV2 => seq![FieldType::Uint, FieldType::Text],
            EventKind::DestroyWorkspace => seq![FieldType::Text],
            EventKind::DestroyWorkspaceV2 => seq![FieldType::Uint, FieldType::Text],
            EventKind::MoveWorkspace => seq![FieldType::Text, FieldType::Text],
            EventKind::MoveWorkspaceV2 => seq![FieldType::Uint, FieldType::Text, FieldType::Text],
            EventKind::RenameWorkspace => seq![FieldType::Uint, FieldType::Text],
            EventKind::ActiveSpecial => seq![FieldType::Text, FieldType::Text],
            EventKind::ActiveLayout => seq![FieldType::Text, FieldType::Text],
            EventKind::OpenWindow => seq![FieldType::Text, FieldType::Text, FieldType::Text, FieldType::Text],
            EventKind::CloseWindow => seq![FieldType::Text],
            EventKind::MoveWindow => seq![FieldType::Text, FieldType::Text],
            EventKind::MoveWindowV2 => seq![FieldType::Text, FieldType::Uint, FieldType::Text],
            EventKind::OpenLayer => seq![FieldType::Text],
            EventKind::CloseLayer => seq![FieldType::Text],
            EventKind::Submap => seq![FieldType::Text],
            EventKind::ChangeFloatingMode => seq![FieldType::Text, FieldType::Flag],
            EventKind::Urgent => seq![FieldType::Text],
            EventKind::Minimize => seq![FieldType::Text, FieldType::Flag],
            EventKind::Screencast => seq![FieldType::Flag, FieldType::Uint],
            EventKind::WindowTitle => seq![FieldType::Text],
            EventKind::IgnoreGroupLock => seq![FieldType::Flag],
            EventKind::LockGroups => seq![FieldType::Flag],
            EventKind::ConfigReloaded => Seq::empty(),
            EventKind::Pin => seq![FieldType::Text, FieldType::Flag],
        }
    }

    /// The kind's wire tag.
    pub fn tag(self) -> (tag: &'static str)
        ensures
            tag@ == self.tag_text(),
    {
        match self {
            EventKind::Workspace => "workspace",
            EventKind::WorkspaceV2 => "workspacev2",
            EventKind::FocusedMon => "focusedmon",
            EventKind::ActiveWindow => "activewindow",
            EventKind::ActiveWindowV2 => "activewindowv2",
            EventKind::Fullscreen => "fullscreen",
            EventKind::MonitorRemoved => "monitorremoved",
            EventKind::MonitorAdded => "monitoradded",
            EventKind::MonitorAddedV2 => "monitoraddedv2",
            EventKind::CreateWorkspace => "createworkspace",
            EventKind::CreateWorkspaceV2 => "createworkspacev2",
            EventKind::DestroyWorkspace => "destroyworkspace",
            EventKind::DestroyWorkspaceV2 => "destroyworkspacev2",
            EventKind::MoveWorkspace => "moveworkspace",
            EventKind::MoveWorkspaceV2 => "moveworkspacev2",
            EventKind::RenameWorkspace => "renameworkspace",
            EventKind::ActiveSpecial => "activespecial",
            EventKind::ActiveLayout => "activelayout",
            EventKind::OpenWindow => "openwindow",
            EventKind::CloseWindow => "closewindow",
            EventKind::MoveWindow => "movewindow",
            EventKind::MoveWindowV2 => "movewindowv2",
            EventKind::OpenLayer => "openlayer",
            EventKind::CloseLayer => "closelayer",
            EventKind::Submap => "submap",
            EventKind::ChangeFloatingMode => "changefloatingmode",
            EventKind::Urgent => "urgent",
            EventKind::Minimize => "minimize",
            EventKind::Screencast => "screencast",
            EventKind::WindowTitle => "windowtitle",
            EventKind::IgnoreGroupLock => "ignoregrouplock",
            EventKind::LockGroups => "lockgroups",
            EventKind::ConfigReloaded => "configreloaded",
            EventKind::Pin => "pin",
        }
    }

    /// The number of fields that the kind's payload must hold.
    pub fn arity(self) -> (n: usize)
        ensures
            n == self.schema().len(),
    {
        match self {
            EventKind::ConfigReloaded => 0,
            EventKind::Workspace
            | EventKind::ActiveWindowV2
            | EventKind::Fullscreen
            | EventKind::MonitorRemoved
            | EventKind::MonitorAdded
            | EventKind::CreateWorkspace
            | EventKind::DestroyWorkspace
            | EventKind::CloseWindow
            | EventKind::OpenLayer
            | EventKind::CloseLayer
            | EventKind::Submap
            | EventKind::Urgent
            | EventKind::WindowTitle
            | EventKind::IgnoreGroupLock
            | EventKind::LockGroups => 1,
            EventKind::WorkspaceV2
            | EventKind::FocusedMon
            | EventKind::ActiveWindow
            | EventKind::CreateWorkspaceV2
            | EventKind::DestroyWorkspaceV2
            | EventKind::MoveWorkspace
            | EventKind::RenameWorkspace
            | EventKind::ActiveSpecial
            | EventKind::ActiveLayout
            | EventKind::MoveWindow
            | EventKind::ChangeFloatingMode
            | EventKind::Minimize
            | EventKind::Screencast
            | EventKind::Pin => 2,
            EventKind::MonitorAddedV2
            | EventKind::MoveWorkspaceV2
            | EventKind::MoveWindowV2 => 3,
            EventKind::OpenWindow => 4,
        }
    }

    /// Every kind of the catalog, each once.
    pub fn all() -> (kinds: Vec<EventKind>)
        ensures
            kinds@ == catalog(),
    {
        vec![
            EventKind::Workspace,
            EventKind::WorkspaceV2,
            EventKind::FocusedMon,
            EventKind::ActiveWindow,
            EventKind::ActiveWindowV2,
            EventKind::Fullscreen,
            EventKind::MonitorRemoved,
            EventKind::MonitorAdded,
            EventKind::MonitorAddedV2,
            EventKind::CreateWorkspace,
            EventKind::CreateWorkspaceV2,
            EventKind::DestroyWorkspace,
            EventKind::DestroyWorkspaceV2,
            EventKind::MoveWorkspace,
            EventKind::MoveWorkspaceV2,
            EventKind::RenameWorkspace,
            EventKind::ActiveSpecial,
            EventKind::ActiveLayout,
            EventKind::OpenWindow,
            EventKind::CloseWindow,
            EventKind::MoveWindow,
            EventKind::MoveWindowV2,
            EventKind::OpenLayer,
            EventKind::CloseLayer,
            EventKind::Submap,
            EventKind::ChangeFloatingMode,
            EventKind::Urgent,
            EventKind::Minimize,
            EventKind::Screencast,
            EventKind::WindowTitle,
            EventKind::IgnoreGroupLock,
            EventKind::LockGroups,
            EventKind::ConfigReloaded,
            EventKind::Pin,
        ]
    }

    /// Looks a wire tag up in the catalog. The match is exact and
    /// case-sensitive; a tag of no kind gives `None`.
    pub fn from_tag(tag: &str) -> (kind: Option<EventKind>)
        ensures
            kind == kind_of_tag(tag@),
    {
        let cs = chars_of(tag);
        let kinds = EventKind::all();
        let n: usize = kinds.len();
        let mut i: usize = 0;
        while i < n
            invariant
                cs@ == tag@,
                kinds@ == catalog(),
                n == kinds@.len(),
                i <= n,
                forall|j: int| 0 <= j < i ==> (#[trigger] kinds@[j]).tag_text() != tag@,
            decreases n - i,
        {
            let kind = kinds[i];
            if spells(&cs, kind.tag()) {
                proof {
                    assert(is_known_tag(tag@));
                    lemma_tags_distinct(kind, kind_of_tag(tag@).unwrap());
                }
                return Some(kind);
            }
            i += 1;
        }
        proof {
            assert forall|k: EventKind| k.tag_text() != tag@ by {
                lemma_catalog_complete(k);
            }
        }
        None
    }
}

/// Every kind, in the order in which the catalog lists them.
pub open spec fn catalog() -> Seq<EventKind> {
    seq![
        EventKind::Workspace,
        EventKind::WorkspaceV2,
        EventKind::FocusedMon,
        EventKind::ActiveWindow,
        EventKind::ActiveWindowV2,
        EventKind::Fullscreen,
        EventKind::MonitorRemoved,
        EventKind::MonitorAdded,
        EventKind::MonitorAddedV2,
        EventKind::CreateWorkspace,
        EventKind::CreateWorkspaceV2,
        EventKind::DestroyWorkspace,
        EventKind::DestroyWorkspaceV2,
        EventKind::MoveWorkspace,
        EventKind::MoveWorkspaceV2,
        EventKind::RenameWorkspace,
        EventKind::ActiveSpecial,
        EventKind::ActiveLayout,
        EventKind::OpenWindow,
        EventKind::CloseWindow,
        EventKind::MoveWindow,
        EventKind::MoveWindowV2,
        EventKind::OpenLayer,
        EventKind::CloseLayer,
        EventKind::Submap,
        EventKind::ChangeFloatingMode,
        EventKind::Urgent,
        EventKind::Minimize,
        EventKind::Screencast,
        EventKind::WindowTitle,
        EventKind::IgnoreGroupLock,
        EventKind::LockGroups,
        EventKind::ConfigReloaded,
        EventKind::Pin,
    ]
}

/// The catalog leaves no kind out.
pub proof fn lemma_catalog_complete(k: EventKind)
    ensures
        catalog().contains(k),
{
    match k {
        EventKind::Workspace => assert(catalog()[0] == k),
        EventKind::WorkspaceV2 => assert(catalog()[1] == k),
        EventKind::FocusedMon => assert(catalog()[2] == k),
        EventKind::ActiveWindow => assert(catalog()[3] == k),
        EventKind::ActiveWindowV2 => assert(catalog()[4] == k),
        EventKind::Fullscreen => assert(catalog()[5] == k),
        EventKind::MonitorRemoved => assert(catalog()[6] == k),
        EventKind::MonitorAdded => assert(catalog()[7] == k),
        EventKind::MonitorAddedV2 => assert(catalog()[8] == k),
        EventKind::CreateWorkspace => assert(catalog()[9] == k),
        EventKind::CreateWorkspaceV2 => assert(catalog()[10] == k),
        EventKind::DestroyWorkspace => assert(catalog()[11] == k),
        EventKind::DestroyWorkspaceV2 => assert(catalog()[12] == k),
        EventKind::MoveWorkspace => assert(catalog()[13] == k),
        EventKind::MoveWorkspaceV2 => assert(catalog()[14] == k),
        EventKind::RenameWorkspace => assert(catalog()[15] == k),
        EventKind::ActiveSpecial => assert(catalog()[16] == k),
        EventKind::ActiveLayout => assert(catalog()[17] == k),
        EventKind::OpenWindow => assert(catalog()[18] == k),
        EventKind::CloseWindow => assert(catalog()[19] == k),
        EventKind::MoveWindow => assert(catalog()[20] == k),
        EventKind::MoveWindowV2 => assert(catalog()[21] == k),
        EventKind::OpenLayer => assert(catalog()[22] == k),
        EventKind::CloseLayer => assert(catalog()[23] == k),
        EventKind::Submap => assert(catalog()[24] == k),
        EventKind::ChangeFloatingMode => assert(catalog()[25] == k),
        EventKind::Urgent => assert(catalog()[26] == k),
        EventKind::Minimize => assert(catalog()[27] == k),
        EventKind::Screencast => assert(catalog()[28] == k),
        EventKind::WindowTitle => assert(catalog()[29] == k),
        EventKind::IgnoreGroupLock => assert(catalog()[30] == k),
        EventKind::LockGroups => assert(catalog()[31] == k),
        EventKind::ConfigReloaded => assert(catalog()[32] == k),
        EventKind::Pin => assert(catalog()[33] == k),
    }
}

/// Whether some kind of the catalog has the wire tag `tag`.
pub open spec fn is_known_tag(tag: Seq<char>) -> bool {
    exists|k: EventKind| k.tag_text() == tag
}

/// The kind whose wire tag is `tag`, if the catalog has one.
pub open spec fn kind_of_tag(tag: Seq<char>) -> Option<EventKind> {
    if is_known_tag(tag) {
        Some(choose|k: EventKind| k.tag_text() == tag)
    } else {
        None
    }
}

/// No two kinds share a wire tag.
pub proof fn lemma_tags_distinct(a: EventKind, b: EventKind)
    requires
        a.tag_text() == b.tag_text(),
    ensures
        a == b,
{
    reveal_strlit("workspace");
    reveal_strlit("workspacev2");
    reveal_strlit("focusedmon");
    reveal_strlit("activewindow");
    reveal_strlit("activewindowv2");
    reveal_strlit("fullscreen");
    reveal_strlit("monitorremoved");
    reveal_strlit("monitoradded");
    reveal_strlit("monitoraddedv2");
    reveal_strlit("createworkspace");
    reveal_strlit("createworkspacev2");
    reveal_strlit("destroyworkspace");
    reveal_strlit("destroyworkspacev2");
    reveal_strlit("moveworkspace");
    reveal_strlit("moveworkspacev2");
    reveal_strlit("renameworkspace");
    reveal_strlit("activespecial");
    reveal_strlit("activelayout");
    reveal_strlit("openwindow");
    reveal_strlit("closewindow");
    reveal_strlit("movewindow");
    reveal_strlit("movewindowv2");
    reveal_strlit("openlayer");
    reveal_strlit("closelayer");
    reveal_strlit("submap");
    reveal_strlit("changefloatingmode");
    reveal_strlit("urgent");
    reveal_strlit("minimize");
    reveal_strlit("screencast");
    reveal_strlit("windowtitle");
    reveal_strlit("ignoregrouplock");
    reveal_strlit("lockgroups");
    reveal_strlit("configreloaded");
    reveal_strlit("pin");
    // Equal texts have equal lengths and equal characters in every place;
    // the longest tag has eighteen of them.
    let x = a.tag_text();
    let y = b.tag_text();
    assert(x.len() == y.len());
    assert(x[0] == y[0]);
    assert(x[1] == y[1]);
    assert(x[2] == y[2]);
    assert(x[3] == y[3]);
    assert(x[4] == y[4]);
    assert(x[5] == y[5]);
    assert(x[6] == y[6]);
    assert(x[7] == y[7]);
    assert(x[8] == y[8]);
    assert(x[9] == y[9]);
    assert(x[10] == y[10]);
    assert(x[11] == y[11]);
    assert(x[12] == y[12]);
    assert(x[13] == y[13]);
    assert(x[14] == y[14]);
    assert(x[15] == y[15]);
    assert(x[16] == y[16]);
    assert(x[17] == y[17]);
}

/// No wire tag holds the character `>`, so no tag can be taken for the
/// delimiter that follows it on the wire, or for part of it.
pub proof fn lemma_tags_hold_no_angle(k: EventKind)
    ensures
        forall|i: int| 0 <= i < k.tag_text().len() ==> k.tag_text()[i] != '>',
{
    reveal_strlit("workspace");
    reveal_strlit("workspacev2");
    reveal_strlit("focusedmon");
    reveal_strlit("activewindow");
    reveal_strlit("activewindowv2");
    reveal_strlit("fullscreen");
    reveal_strlit("monitorremoved");
    reveal_strlit("monitoradded");
    reveal_strlit("monitoraddedv2");
    reveal_strlit("createworkspace");
    reveal_strlit("createworkspacev2");
    reveal_strlit("destroyworkspace");
    reveal_strlit("destroyworkspacev2");
    reveal_strlit("moveworkspace");
    reveal_strlit("moveworkspacev2");
    reveal_strlit("renameworkspace");
    reveal_strlit("activespecial");
    reveal_strlit("activelayout");
    reveal_strlit("openwindow");
    reveal_strlit("closewindow");
    reveal_strlit("movewindow");
    reveal_strlit("movewindowv2");
    reveal_strlit("openlayer");
    reveal_strlit("closelayer");
    reveal_strlit("submap");
    reveal_strlit("changefloatingmode");
    reveal_strlit("urgent");
    reveal_strlit("minimize");
    reveal_strlit("screencast");
    reveal_strlit("windowtitle");
    reveal_strlit("ignoregrouplock");
    reveal_strlit("lockgroups");
    reveal_strlit("configreloaded");
    reveal_strlit("pin");
}

/// Every kind is found again under its own tag.
pub proof fn lemma_kind_of_own_tag(k: EventKind)
    ensures
        kind_of_tag(k.tag_text()) == Some(k),
{
    assert(is_known_tag(k.tag_text()));
    lemma_tags_distinct(k, kind_of_tag(k.tag_text()).unwrap());
}

} // verus!
