//! The notifications themselves: one record type per kind of the catalog,
//! the decoder of each, and the dispatch from a wire tag to its decoder.

use crate::catalog::{kind_of_tag, lemma_kind_of_own_tag, EventKind, FieldType};
use crate::error::{EventInterpretError, Failure};
use crate::text::{
    comma_free, fields, is_one, joined, lemma_fields_of_joined, parse_u32, split_exact, truthy,
    uint_value,
};
use vstd::prelude::*;

verus! {

/// The value of one decoded field.
pub enum Value {
    /// A text field.
    Text(Seq<char>),
    /// A numeric field.
    Uint(u32),
    /// A boolean field.
    Flag(bool),
}

/// The mathematical content of an [`Event`].
pub enum EventModel {
    /// A notification of the catalog: its kind and its field values in wire order.
    Known { kind: EventKind, values: Seq<Value> },
    /// A notification whose tag the catalog does not hold, kept as it came.
    Unknown { tag: Seq<char>, payload: Seq<char> },
}

/// The texts that a payload offers to a schema, one per field: nothing for
/// the empty schema, the whole payload for a single field, and for two or
/// more fields the comma-separated parts, provided there are exactly as many
/// parts as fields.
pub open spec fn payload_parts(schema: Seq<FieldType>, payload: Seq<char>) -> Option<
    Seq<Seq<char>>,
> {
    if schema.len() == 0 {
        Some(Seq::empty())
    } else if schema.len() == 1 {
        Some(seq![payload])
    } else if fields(payload).len() == schema.len() {
        Some(fields(payload))
    } else {
        None
    }
}

/// Whether the text `part` can be read as a field of type `ty`. Text and
/// booleans always can; a number needs decimal digits that fit 32 bits.
pub open spec fn field_readable(ty: FieldType, part: Seq<char>) -> bool {
    ty == FieldType::Uint ==> uint_value(part) is Some
}

/// The value that the text `part` has as a field of type `ty`.
pub open spec fn field_value(ty: FieldType, part: Seq<char>) -> Value {
    match ty {
        FieldType::Text => Value::Text(part),
        FieldType::Uint => Value::Uint(uint_value(part).unwrap()),
        FieldType::Flag => Value::Flag(is_one(part)),
    }
}

/// Whether every one of the texts `parts` can be read as the field of
/// `schema` in its place.
pub open spec fn all_readable(schema: Seq<FieldType>, parts: Seq<Seq<char>>) -> bool {
    forall|i: int| 0 <= i < schema.len() ==> #[trigger] field_readable(schema[i], parts[i])
}

/// The values of the texts `parts`, each read as the field of `schema` in
/// its place.
pub open spec fn values_of(schema: Seq<FieldType>, parts: Seq<Seq<char>>) -> Seq<Value> {
    Seq::new(schema.len(), |i: int| field_value(schema[i], parts[i]))
}

/// What decoding `payload` as a notification of kind `kind` gives: the field
/// values in wire order, or the reason why there are none. The field count
/// is looked at first, the fields themselves only when the count is right.
pub open spec fn decode_payload(kind: EventKind, payload: Seq<char>) -> Result<
    Seq<Value>,
    Failure,
> {
    let schema = kind.schema();
    match payload_parts(schema, payload) {
        None => Err(Failure::Arity { kind, payload }),
        Some(parts) => {
            if all_readable(schema, parts) {
                Ok(values_of(schema, parts))
            } else {
                Err(Failure::FieldType { kind, payload })
            }
        },
    }
}

/// What decoding a tag and a payload gives. A tag of the catalog selects its
/// kind's decoder; any other tag gives the unknown notification, never a
/// failure.
pub open spec fn decode(tag: Seq<char>, payload: Seq<char>) -> Result<EventModel, Failure> {
    match kind_of_tag(tag) {
        None => Ok(EventModel::Unknown { tag, payload }),
        Some(kind) => match decode_payload(kind, payload) {
            Ok(values) => Ok(EventModel::Known { kind, values }),
            Err(failure) => Err(failure),
        },
    }
}

/// Values that agree field by field with a readable payload are what the
/// payload decodes to.
proof fn lemma_decodes_to(kind: EventKind, payload: Seq<char>, values: Seq<Value>)
    requires
        payload_parts(kind.schema(), payload) is Some,
        values.len() == kind.schema().len(),
        forall|i: int|
            0 <= i < values.len() ==> #[trigger] field_readable(
                kind.schema()[i],
                payload_parts(kind.schema(), payload).unwrap()[i],
            ),
        forall|i: int|
            0 <= i < values.len() ==> #[trigger] values[i] == field_value(
                kind.schema()[i],
                payload_parts(kind.schema(), payload).unwrap()[i],
            ),
    ensures
        decode_payload(kind, payload) == Ok::<Seq<Value>, Failure>(values),
{
    let schema = kind.schema();
    let parts = payload_parts(schema, payload).unwrap();
    assert(values =~= values_of(schema, parts));
}

/// Every well-formed payload decodes, for every kind of the catalog: field
/// texts that are as many as the kind has fields, that can each be read as
/// the field in its place and that, where there are two or more, hold no
/// comma, decode when joined by commas to the notification of that kind
/// with exactly their values.
pub proof fn lemma_well_formed_payload_decodes(kind: EventKind, parts: Seq<Seq<char>>)
    requires
        parts.len() == kind.schema().len(),
        all_readable(kind.schema(), parts),
        parts.len() >= 2 ==> forall|k: int| 0 <= k < parts.len() ==> comma_free(#[trigger] parts[k]),
    ensures
        decode(kind.tag_text(), joined(parts)) == Ok::<EventModel, Failure>(
            EventModel::Known { kind, values: values_of(kind.schema(), parts) },
        ),
{
    let schema = kind.schema();
    let payload = joined(parts);
    lemma_kind_of_own_tag(kind);
    if parts.len() >= 2 {
        lemma_fields_of_joined(parts);
    } else if parts.len() == 1 {
        assert(seq![payload] =~= parts);
    } else {
        assert(Seq::<Seq<char>>::empty() =~= parts);
    }
    assert(payload_parts(schema, payload) == Some(parts));
}

/// A payload with too few or too many fields never decodes: for a kind with
/// two or more fields, any other number of comma-separated parts is an
/// arity failure that names the kind and quotes the payload.
pub proof fn lemma_wrong_field_count_fails(kind: EventKind, payload: Seq<char>)
    requires
        kind.schema().len() >= 2,
        fields(payload).len() != kind.schema().len(),
    ensures
        decode(kind.tag_text(), payload) == Err::<EventModel, Failure>(
            Failure::Arity { kind, payload },
        ),
{
    lemma_kind_of_own_tag(kind);
}

/// A payload with the right number of fields fails only for a number: if
/// one of its numeric fields cannot be read, decoding is a field failure
/// that names the kind and quotes the payload.
pub proof fn lemma_unreadable_number_fails(kind: EventKind, payload: Seq<char>, index: int)
    requires
        kind.schema().len() >= 2,
        fields(payload).len() == kind.schema().len(),
        0 <= index < kind.schema().len(),
        kind.schema()[index] == FieldType::Uint,
        uint_value(fields(payload)[index]) is None,
    ensures
        decode(kind.tag_text(), payload) == Err::<EventModel, Failure>(
            Failure::FieldType { kind, payload },
        ),
{
    lemma_kind_of_own_tag(kind);
    assert(!field_readable(kind.schema()[index], fields(payload)[index]));
}

/// A boolean field never fails: for a kind whose only field is a boolean,
/// every payload decodes, to `true` for the text `1` and to `false` for
/// any other text.
pub proof fn lemma_lone_flag_always_decodes(kind: EventKind, payload: Seq<char>)
    requires
        kind.schema() == seq![FieldType::Flag],
    ensures
        decode_payload(kind, payload) == Ok::<Seq<Value>, Failure>(
            seq![Value::Flag(is_one(payload))],
        ),
{
    lemma_decodes_to(kind, payload, seq![Value::Flag(is_one(payload))]);
}

/// Splits the payload of a kind with two or more fields into its parts.
fn split_payload<'a>(kind: EventKind, data: &'a str) -> (split: Result<
    Vec<&'a str>,
    EventInterpretError,
>)
    requires
        kind.schema().len() >= 2,
    ensures
        split matches Ok(parts) ==> payload_parts(kind.schema(), data@) == Some(fields(data@))
            && parts@.len() == kind.schema().len() && forall|k: int|
            0 <= k < parts@.len() ==> (#[trigger] parts@[k])@ == fields(data@)[k],
        split matches Err(error) ==> decode_payload(kind, data@) == Err::<Seq<Value>, Failure>(
            error@,
        ),
{
    match split_exact(data, kind.arity()) {
        Some(parts) => Ok(parts),
        None => Err(EventInterpretError::arity(kind, data)),
    }
}

/// Reads the numeric field at `index` from its text `part`.
fn uint_field(kind: EventKind, data: &str, index: usize, part: &str) -> (number: Result<
    u32,
    EventInterpretError,
>)
    requires
        index < kind.schema().len(),
        kind.schema()[index as int] == FieldType::Uint,
        payload_parts(kind.schema(), data@) matches Some(parts) && parts[index as int] == part@,
    ensures
        number matches Ok(n) ==> uint_value(part@) == Some(n),
        number matches Err(error) ==> decode_payload(kind, data@) == Err::<Seq<Value>, Failure>(
            error@,
        ),
{
    match parse_u32(part) {
        Some(n) => Ok(n),
        None => {
            proof {
                let parts = payload_parts(kind.schema(), data@).unwrap();
                assert(!field_readable(kind.schema()[index as int], parts[index as int]));
            }
            Err(EventInterpretError::field_type(kind, data))
        },
    }
}

/// The active workspace changed on the user's request.
///
/// On the wire: `workspace>>WORKSPACE_NAME`.
#[derive(Debug, Clone, PartialEq)]
pub struct Workspace {
    /// Name of the workspace now shown.
    pub workspace_name: String,
}

impl Workspace {
    /// The field values in wire order.
    pub open spec fn values(&self) -> Seq<Value> {
        seq![Value::Text(self.workspace_name@)]
    }

    /// Decodes the payload of a `workspace` notification: the whole payload is
    /// the one field, commas and all.
    pub fn parse(data: &str) -> (decoded: Result<Workspace, EventInterpretError>)
        ensures
            decoded matches Ok(event) ==> decode_payload(EventKind::Workspace, data@) == Ok::<
                Seq<Value>,
                Failure,
            >(event.values()),
            decoded matches Err(error) ==> decode_payload(EventKind::Workspace, data@) == Err::<
                Seq<Value>,
                Failure,
            >(error@),
    {
        let event = Workspace {
            workspace_name: data.to_owned(),
        };
        proof {
            lemma_decodes_to(EventKind::Workspace, data@, event.values());
        }
        Ok(event)
    }
}

/// The active workspace changed on the user's request; carries the workspace's id as well.
///
/// On the wire: `workspacev2>>WORKSPACE_ID,WORKSPACE_NAME`.
#[derive(Debug, Clone, PartialEq)]
pub struct WorkspaceV2 {
    /// Id of the workspace now shown.
    pub workspace_id: u32,
    /// Its name.
    pub workspace_name: String,
}

impl WorkspaceV2 {
    /// The field values in wire order.
    pub open spec fn values(&self) -> Seq<Value> {
        seq![Value::Uint(self.workspace_id), Value::Text(self.workspace_name@)]
    }

    /// Decodes the payload of a `workspacev2` notification, which must hold
    /// exactly 2 comma-separated fields.
    pub fn parse(data: &str) -> (decoded: Result<WorkspaceV2, EventInterpretError>)
        ensures
            decoded matches Ok(event) ==> decode_payload(EventKind::WorkspaceV2, data@) == Ok::<
                Seq<Value>,
                Failure,
            >(event.values()),
            decoded matches Err(error) ==> decode_payload(EventKind::WorkspaceV2, data@) == Err::<
                Seq<Value>,
                Failure,
            >(error@),
    {
        let parts = split_payload(EventKind::WorkspaceV2, data)?;
        let workspace_id = uint_field(EventKind::WorkspaceV2, data, 0, parts[0])?;
        let event = WorkspaceV2 {
            workspace_id,
            workspace_name: parts[1].to_owned(),
        };
        proof {
            lemma_decodes_to(EventKind::WorkspaceV2, data@, event.values());
        }
        Ok(event)
    }
}

/// Another monitor took the focus.
///
/// On the wire: `focusedmon>>MONITOR_NAME,WORKSPACE_NAME`.
#[derive(Debug, Clone, PartialEq)]
pub struct FocusedMon {
    /// Name of the monitor now focused.
    pub monitor_name: String,
    /// Name of the workspace that it shows.
    pub workspace_name: String,
}

impl FocusedMon {
    /// The field values in wire order.
    pub open spec fn values(&self) -> Seq<Value> {
        seq![Value::Text(self.monitor_name@), Value::Text(self.workspace_name@)]
    }

    /// Decodes the payload of a `focusedmon` notification, which must hold
    /// exactly 2 comma-separated fields.
    pub fn parse(data: &str) -> (decoded: Result<FocusedMon, EventInterpretError>)
        ensures
            decoded matches Ok(event) ==> decode_payload(EventKind::FocusedMon, data@) == Ok::<
                Seq<Value>,
                Failure,
            >(event.values()),
            decoded matches Err(error) ==> decode_payload(EventKind::FocusedMon, data@) == Err::<
                Seq<Value>,
                Failure,
            >(error@),
    {
        let parts = split_payload(EventKind::FocusedMon, data)?;
        let event = FocusedMon {
            monitor_name: parts[0].to_owned(),
            workspace_name: parts[1].to_owned(),
        };
        proof {
            lemma_decodes_to(EventKind::FocusedMon, data@, event.values());
        }
        Ok(event)
    }
}

/// Another window became the active one.
///
/// On the wire: `activewindow>>WINDOW_CLASS,WINDOW_TITLE`.
#[derive(Debug, Clone, PartialEq)]
pub struct ActiveWindow {
    /// Class of the active window.
    pub window_class: String,
    /// Its title.
    pub window_title: String,
}

impl ActiveWindow {
    /// The field values in wire order.
    pub open spec fn values(&self) -> Seq<Value> {
        seq![Value::Text(self.window_class@), Value::Text(self.window_title@)]
    }

    /// Decodes the payload of a `activewindow` notification, which must hold
    /// exactly 2 comma-separated fields.
    pub fn parse(data: &str) -> (decoded: Result<ActiveWindow, EventInterpretError>)
        ensures
            decoded matches Ok(event) ==> decode_payload(EventKind::ActiveWindow, data@) == Ok::<
                Seq<Value>,
                Failure,
            >(event.values()),
            decoded matches Err(error) ==> decode_payload(EventKind::ActiveWindow, data@) == Err::<
                Seq<Value>,
                Failure,
            >(error@),
    {
        let parts = split_payload(EventKind::ActiveWindow, data)?;
        let event = ActiveWindow {
            window_class: parts[0].to_owned(),
            window_title: parts[1].to_owned(),
        };
        proof {
            lemma_decodes_to(EventKind::ActiveWindow, data@, event.values());
        }
        Ok(event)
    }
}

/// Another window became the active one; carries its address only.
///
/// On the wire: `activewindowv2>>WINDOW_ADDRESS`.
#[derive(Debug, Clone, PartialEq)]
pub struct ActiveWindowV2 {
    /// Address of the active window.
    pub window_address: String,
}

impl ActiveWindowV2 {
    /// The field values in wire order.
    pub open spec fn values(&self) -> Seq<Value> {
        seq![Value::Text(self.window_address@)]
    }

    /// Decodes the payload of a `activewindowv2` notification: the whole payload is
    /// the one field, commas and all.
    pub fn parse(data: &str) -> (decoded: Result<ActiveWindowV2, EventInterpretError>)
        ensures
            decoded matches Ok(event) ==> decode_payload(EventKind::ActiveWindowV2, data@) == Ok::<
                Seq<Value>,
                Failure,
            >(event.values()),
            decoded matches Err(error) ==> decode_payload(EventKind::ActiveWindowV2, data@) == Err::<
                Seq<Value>,
                Failure,
            >(error@),
    {
        let event = ActiveWindowV2 {
            window_address: data.to_owned(),
        };
        proof {
            lemma_decodes_to(EventKind::ActiveWindowV2, data@, event.values());
        }
        Ok(event)
    }
}

/// A window entered or left fullscreen.
///
/// On the wire: `fullscreen>>ENTER_FULLSCREEN`.
#[derive(Debug, Clone, PartialEq)]
pub struct Fullscreen {
    /// `true` on entering, `false` on leaving.
    pub enter_fullscreen: bool,
}

impl Fullscreen {
    /// The field values in wire order.
    pub open spec fn values(&self) -> Seq<Value> {
        seq![Value::Flag(self.enter_fullscreen)]
    }

    /// Decodes the payload of a `fullscreen` notification: the whole payload is
    /// the one field, commas and all.
    pub fn parse(data: &str) -> (decoded: Result<Fullscreen, EventInterpretError>)
        ensures
            decoded matches Ok(event) ==> decode_payload(EventKind::Fullscreen, data@) == Ok::<
                Seq<Value>,
                Failure,
            >(event.values()),
            decoded matches Err(error) ==> decode_payload(EventKind::Fullscreen, data@) == Err::<
                Seq<Value>,
                Failure,
            >(error@),
    {
        let event = Fullscreen {
            enter_fullscreen: truthy(data),
        };
        proof {
            lemma_decodes_to(EventKind::Fullscreen, data@, event.values());
        }
        Ok(event)
    }
}

/// A monitor was disconnected.
///
/// On the wire: `monitorremoved>>MONITOR_NAME`.
#[derive(Debug, Clone, PartialEq)]
pub struct MonitorRemoved {
    /// Name of the monitor that left.
    pub monitor_name: String,
}

impl MonitorRemoved {
    /// The field values in wire order.
    pub open spec fn values(&self) -> Seq<Value> {
        seq![Value::Text(self.monitor_name@)]
    }

    /// Decodes the payload of a `monitorremoved` notification: the whole payload is
    /// the one field, commas and all.
    pub fn parse(data: &str) -> (decoded: Result<MonitorRemoved, EventInterpretError>)
        ensures
            decoded matches Ok(event) ==> decode_payload(EventKind::MonitorRemoved, data@) == Ok::<
                Seq<Value>,
                Failure,
            >(event.values()),
            decoded matches Err(error) ==> decode_payload(EventKind::MonitorRemoved, data@) == Err::<
                Seq<Value>,
                Failure,
            >(error@),
    {
        let event = MonitorRemoved {
            monitor_name: data.to_owned(),
        };
        proof {
            lemma_decodes_to(EventKind::MonitorRemoved, data@, event.values());
        }
        Ok(event)
    }
}

/// A monitor was connected.
///
/// On the wire: `monitoradded>>MONITOR_NAME`.
#[derive(Debug, Clone, PartialEq)]
pub struct MonitorAdded {
    /// Name of the new monitor.
    pub monitor_name: String,
}

impl MonitorAdded {
    /// The field values in wire order.
    pub open spec fn values(&self) -> Seq<Value> {
        seq![Value::Text(self.monitor_name@)]
    }

    /// Decodes the payload of a `monitoradded` notification: the whole payload is
    /// the one field, commas and all.
    pub fn parse(data: &str) -> (decoded: Result<MonitorAdded, EventInterpretError>)
        ensures
            decoded matches Ok(event) ==> decode_payload(EventKind::MonitorAdded, data@) == Ok::<
                Seq<Value>,
                Failure,
            >(event.values()),
            decoded matches Err(error) ==> decode_payload(EventKind::MonitorAdded, data@) == Err::<
                Seq<Value>,
                Failure,
            >(error@),
    {
        let event = MonitorAdded {
            monitor_name: data.to_owned(),
        };
        proof {
            lemma_decodes_to(EventKind::MonitorAdded, data@, event.values());
        }
        Ok(event)
    }
}

/// A monitor was connected; carries its id and description as well.
///
/// On the wire: `monitoraddedv2>>MONITOR_ID,MONITOR_NAME,MONITOR_DESCRIPTION`.
#[derive(Debug, Clone, PartialEq)]
pub struct MonitorAddedV2 {
    /// Id of the new monitor.
    pub monitor_id: u32,
    /// Its name.
    pub monitor_name: String,
    /// Its description.
    pub monitor_description: String,
}

impl MonitorAddedV2 {
    /// The field values in wire order.
    pub open spec fn values(&self) -> Seq<Value> {
        seq![Value::Uint(self.monitor_id), Value::Text(self.monitor_name@), Value::Text(self.monitor_description@)]
    }

    /// Decodes the payload of a `monitoraddedv2` notification, which must hold
    /// exactly 3 comma-separated fields.
    pub fn parse(data: &str) -> (decoded: Result<MonitorAddedV2, EventInterpretError>)
        ensures
            decoded matches Ok(event) ==> decode_payload(EventKind::MonitorAddedV2, data@) == Ok::<
                Seq<Value>,
                Failure,
            >(event.values()),
            decoded matches Err(error) ==> decode_payload(EventKind::MonitorAddedV2, data@) == Err::<
                Seq<Value>,
                Failure,
            >(error@),
    {
        let parts = split_payload(EventKind::MonitorAddedV2, data)?;
        let monitor_id = uint_field(EventKind::MonitorAddedV2, data, 0, parts[0])?;
        let event = MonitorAddedV2 {
            monitor_id,
            monitor_name: parts[1].to_owned(),
            monitor_description: parts[2].to_owned(),
        };
        proof {
            lemma_decodes_to(EventKind::MonitorAddedV2, data@, event.values());
        }
        Ok(event)
    }
}

/// A workspace was created.
///
/// On the wire: `createworkspace>>WORKSPACE_NAME`.
#[derive(Debug, Clone, PartialEq)]
pub struct CreateWorkspace {
    /// Name of the new workspace.
    pub workspace_name: String,
}

impl CreateWorkspace {
    /// The field values in wire order.
    pub open spec fn values(&self) -> Seq<Value> {
        seq![Value::Text(self.workspace_name@)]
    }

    /// Decodes the payload of a `createworkspace` notification: the whole payload is
    /// the one field, commas and all.
    pub fn parse(data: &str) -> (decoded: Result<CreateWorkspace, EventInterpretError>)
        ensures
            decoded matches Ok(event) ==> decode_payload(EventKind::CreateWorkspace, data@) == Ok::<
                Seq<Value>,
                Failure,
            >(event.values()),
            decoded matches Err(error) ==> decode_payload(EventKind::CreateWorkspace, data@) == Err::<
                Seq<Value>,
                Failure,
            >(error@),
    {
        let event = CreateWorkspace {
            workspace_name: data.to_owned(),
        };
        proof {
            lemma_decodes_to(EventKind::CreateWorkspace, data@, event.values());
        }
        Ok(event)
    }
}

/// A workspace was created; carries its id as well.
///
/// On the wire: `createworkspacev2>>WORKSPACE_ID,WORKSPACE_NAME`.
#[derive(Debug, Clone, PartialEq)]
pub struct CreateWorkspaceV2 {
    /// Id of the new workspace.
    pub workspace_id: u32,
    /// Its name.
    pub workspace_name: String,
}

impl CreateWorkspaceV2 {
    /// The field values in wire order.
    pub open spec fn values(&self) -> Seq<Value> {
        seq![Value::Uint(self.workspace_id), Value::Text(self.workspace_name@)]
    }

    /// Decodes the payload of a `createworkspacev2` notification, which must hold
    /// exactly 2 comma-separated fields.
    pub fn parse(data: &str) -> (decoded: Result<CreateWorkspaceV2, EventInterpretError>)
        ensures
            decoded matches Ok(event) ==> decode_payload(EventKind::CreateWorkspaceV2, data@) == Ok::<
                Seq<Value>,
                Failure,
            >(event.values()),
            decoded matches Err(error) ==> decode_payload(EventKind::CreateWorkspaceV2, data@) == Err::<
                Seq<Value>,
                Failure,
            >(error@),
    {
        let parts = split_payload(EventKind::CreateWorkspaceV2, data)?;
        let workspace_id = uint_field(EventKind::CreateWorkspaceV2, data, 0, parts[0])?;
        let event = CreateWorkspaceV2 {
            workspace_id,
            workspace_name: parts[1].to_owned(),
        };
        proof {
            lemma_decodes_to(EventKind::CreateWorkspaceV2, data@, event.values());
        }
        Ok(event)
    }
}

/// A workspace was destroyed.
///
/// On the wire: `destroyworkspace>>WORKSPACE_NAME`.
#[derive(Debug, Clone, PartialEq)]
pub struct DestroyWorkspace {
    /// Name of the workspace that is gone.
    pub workspace_name: String,
}

impl DestroyWorkspace {
    /// The field values in wire order.
    pub open spec fn values(&self) -> Seq<Value> {
        seq![Value::Text(self.workspace_name@)]
    }

    /// Decodes the payload of a `destroyworkspace` notification: the whole payload is
    /// the one field, commas and all.
    pub fn parse(data: &str) -> (decoded: Result<DestroyWorkspace, EventInterpretError>)
        ensures
            decoded matches Ok(event) ==> decode_payload(EventKind::DestroyWorkspace, data@) == Ok::<
                Seq<Value>,
                Failure,
            >(event.values()),
            decoded matches Err(error) ==> decode_payload(EventKind::DestroyWorkspace, data@) == Err::<
                Seq<Value>,
                Failure,
            >(error@),
    {
        let event = DestroyWorkspace {
            workspace_name: data.to_owned(),
        };
        proof {
            lemma_decodes_to(EventKind::DestroyWorkspace, data@, event.values());
        }
        Ok(event)
    }
}

/// A workspace was destroyed; carries its id as well.
///
/// On the wire: `destroyworkspacev2>>WORKSPACE_ID,WORKSPACE_NAME`.
#[derive(Debug, Clone, PartialEq)]
pub struct DestroyWorkspaceV2 {
    /// Id of the workspace that is gone.
    pub workspace_id: u32,
    /// Its name.
    pub workspace_name: String,
}

impl DestroyWorkspaceV2 {
    /// The field values in wire order.
    pub open spec fn values(&self) -> Seq<Value> {
        seq![Value::Uint(self.workspace_id), Value::Text(self.workspace_name@)]
    }

    /// Decodes the payload of a `destroyworkspacev2` notification, which must hold
    /// exactly 2 comma-separated fields.
    pub fn parse(data: &str) -> (decoded: Result<DestroyWorkspaceV2, EventInterpretError>)
        ensures
            decoded matches Ok(event) ==> decode_payload(EventKind::DestroyWorkspaceV2, data@) == Ok::<
                Seq<Value>,
                Failure,
            >(event.values()),
            decoded matches Err(error) ==> decode_payload(EventKind::DestroyWorkspaceV2, data@) == Err::<
                Seq<Value>,
                Failure,
            >(error@),
    {
        let parts = split_payload(EventKind::DestroyWorkspaceV2, data)?;
        let workspace_id = uint_field(EventKind::DestroyWorkspaceV2, data, 0, parts[0])?;
        let event = DestroyWorkspaceV2 {
            workspace_id,
            workspace_name: parts[1].to_owned(),
        };
        proof {
            lemma_decodes_to(EventKind::DestroyWorkspaceV2, data@, event.values());
        }
        Ok(event)
    }
}

/// A workspace moved to another monitor.
///
/// On the wire: `moveworkspace>>WORKSPACE_NAME,MONITOR_NAME`.
#[derive(Debug, Clone, PartialEq)]
pub struct MoveWorkspace {
    /// Name of the workspace.
    pub workspace_name: String,
    /// Name of the monitor that it moved to.
    pub monitor_name: String,
}

impl MoveWorkspace {
    /// The field values in wire order.
    pub open spec fn values(&self) -> Seq<Value> {
        seq![Value::Text(self.workspace_name@), Value::Text(self.monitor_name@)]
    }

    /// Decodes the payload of a `moveworkspace` notification, which must hold
    /// exactly 2 comma-separated fields.
    pub fn parse(data: &str) -> (decoded: Result<MoveWorkspace, EventInterpretError>)
        ensures
            decoded matches Ok(event) ==> decode_payload(EventKind::MoveWorkspace, data@) == Ok::<
                Seq<Value>,
                Failure,
            >(event.values()),
            decoded matches Err(error) ==> decode_payload(EventKind::MoveWorkspace, data@) == Err::<
                Seq<Value>,
                Failure,
            >(error@),
    {
        let parts = split_payload(EventKind::MoveWorkspace, data)?;
        let event = MoveWorkspace {
            workspace_name: parts[0].to_owned(),
            monitor_name: parts[1].to_owned(),
        };
        proof {
            lemma_decodes_to(EventKind::MoveWorkspace, data@, event.values());
        }
        Ok(event)
    }
}

/// A workspace moved to another monitor; carries its id as well.
///
/// On the wire: `moveworkspacev2>>WORKSPACE_ID,WORKSPACE_NAME,MONITOR_NAME`.
#[derive(Debug, Clone, PartialEq)]
pub struct MoveWorkspaceV2 {
    /// Id of the workspace.
    pub workspace_id: u32,
    /// Its name.
    pub workspace_name: String,
    /// Name of the monitor that it moved to.
    pub monitor_name: String,
}

impl MoveWorkspaceV2 {
    /// The field values in wire order.
    pub open spec fn values(&self) -> Seq<Value> {
        seq![Value::Uint(self.workspace_id), Value::Text(self.workspace_name@), Value::Text(self.monitor_name@)]
    }

    /// Decodes the payload of a `moveworkspacev2` notification, which must hold
    /// exactly 3 comma-separated fields.
    pub fn parse(data: &str) -> (decoded: Result<MoveWorkspaceV2, EventInterpretError>)
        ensures
            decoded matches Ok(event) ==> decode_payload(EventKind::MoveWorkspaceV2, data@) == Ok::<
                Seq<Value>,
                Failure,
            >(event.values()),
            decoded matches Err(error) ==> decode_payload(EventKind::MoveWorkspaceV2, data@) == Err::<
                Seq<Value>,
                Failure,
            >(error@),
    {
        let parts = split_payload(EventKind::MoveWorkspaceV2, data)?;
        let workspace_id = uint_field(EventKind::MoveWorkspaceV2, data, 0, parts[0])?;
        let event = MoveWorkspaceV2 {
            workspace_id,
            workspace_name: parts[1].to_owned(),
            monitor_name: parts[2].to_owned(),
        };
        proof {
            lemma_decodes_to(EventKind::MoveWorkspaceV2, data@, event.values());
        }
        Ok(event)
    }
}

/// A workspace was renamed.
///
/// On the wire: `renameworkspace>>WORKSPACE_ID,NEW_NAME`.
#[derive(Debug, Clone, PartialEq)]
pub struct RenameWorkspace {
    /// Id of the workspace.
    pub workspace_id: u32,
    /// The name that it has now.
    pub new_name: String,
}

impl RenameWorkspace {
    /// The field values in wire order.
    pub open spec fn values(&self) -> Seq<Value> {
        seq![Value::Uint(self.workspace_id), Value::Text(self.new_name@)]
    }

    /// Decodes the payload of a `renameworkspace` notification, which must hold
    /// exactly 2 comma-separated fields.
    pub fn parse(data: &str) -> (decoded: Result<RenameWorkspace, EventInterpretError>)
        ensures
            decoded matches Ok(event) ==> decode_payload(EventKind::RenameWorkspace, data@) == Ok::<
                Seq<Value>,
                Failure,
            >(event.values()),
            decoded matches Err(error) ==> decode_payload(EventKind::RenameWorkspace, data@) == Err::<
                Seq<Value>,
                Failure,
            >(error@),
    {
        let parts = split_payload(EventKind::RenameWorkspace, data)?;
        let workspace_id = uint_field(EventKind::RenameWorkspace, data, 0, parts[0])?;
        let event = RenameWorkspace {
            workspace_id,
            new_name: parts[1].to_owned(),
        };
        proof {
            lemma_decodes_to(EventKind::RenameWorkspace, data@, event.values());
        }
        Ok(event)
    }
}

/// The special workspace shown on a monitor changed.
///
/// On the wire: `activespecial>>WORKSPACE_NAME,MONITOR_NAME`.
#[derive(Debug, Clone, PartialEq)]
pub struct ActiveSpecial {
    /// Name of the special workspace (empty when it closed).
    pub workspace_name: String,
    /// Name of the monitor.
    pub monitor_name: String,
}

impl ActiveSpecial {
    /// The field values in wire order.
    pub open spec fn values(&self) -> Seq<Value> {
        seq![Value::Text(self.workspace_name@), Value::Text(self.monitor_name@)]
    }

    /// Decodes the payload of a `activespecial` notification, which must hold
    /// exactly 2 comma-separated fields.
    pub fn parse(data: &str) -> (decoded: Result<ActiveSpecial, EventInterpretError>)
        ensures
            decoded matches Ok(event) ==> decode_payload(EventKind::ActiveSpecial, data@) == Ok::<
                Seq<Value>,
                Failure,
            >(event.values()),
            decoded matches Err(error) ==> decode_payload(EventKind::ActiveSpecial, data@) == Err::<
                Seq<Value>,
                Failure,
            >(error@),
    {
        let parts = split_payload(EventKind::ActiveSpecial, data)?;
        let event = ActiveSpecial {
            workspace_name: parts[0].to_owned(),
            monitor_name: parts[1].to_owned(),
        };
        proof {
            lemma_decodes_to(EventKind::ActiveSpecial, data@, event.values());
        }
        Ok(event)
    }
}

/// A keyboard switched its layout.
///
/// On the wire: `activelayout>>KEYBOARD_NAME,LAYOUT_NAME`.
#[derive(Debug, Clone, PartialEq)]
pub struct ActiveLayout {
    /// Name of the keyboard.
    pub keyboard_name: String,
    /// Name of the layout now in use.
    pub layout_name: String,
}

impl ActiveLayout {
    /// The field values in wire order.
    pub open spec fn values(&self) -> Seq<Value> {
        seq![Value::Text(self.keyboard_name@), Value::Text(self.layout_name@)]
    }

    /// Decodes the payload of a `activelayout` notification, which must hold
    /// exactly 2 comma-separated fields.
    pub fn parse(data: &str) -> (decoded: Result<ActiveLayout, EventInterpretError>)
        ensures
            decoded matches Ok(event) ==> decode_payload(EventKind::ActiveLayout, data@) == Ok::<
                Seq<Value>,
                Failure,
            >(event.values()),
            decoded matches Err(error) ==> decode_payload(EventKind::ActiveLayout, data@) == Err::<
                Seq<Value>,
                Failure,
            >(error@),
    {
        let parts = split_payload(EventKind::ActiveLayout, data)?;
        let event = ActiveLayout {
            keyboard_name: parts[0].to_owned(),
            layout_name: parts[1].to_owned(),
        };
        proof {
            lemma_decodes_to(EventKind::ActiveLayout, data@, event.values());
        }
        Ok(event)
    }
}

/// A window was opened.
///
/// On the wire: `openwindow>>WINDOW_ADDRESS,WORKSPACE_NAME,WINDOW_CLASS,WINDOW_TITLE`.
#[derive(Debug, Clone, PartialEq)]
pub struct OpenWindow {
    /// Address of the window.
    pub window_address: String,
    /// Name of the workspace that it opened on.
    pub workspace_name: String,
    /// Its class.
    pub window_class: String,
    /// Its title.
    pub window_title: String,
}

impl OpenWindow {
    /// The field values in wire order.
    pub open spec fn values(&self) -> Seq<Value> {
        seq![Value::Text(self.window_address@), Value::Text(self.workspace_name@), Value::Text(self.window_class@), Value::Text(self.window_title@)]
    }

    /// Decodes the payload of a `openwindow` notification, which must hold
    /// exactly 4 comma-separated fields.
    pub fn parse(data: &str) -> (decoded: Result<OpenWindow, EventInterpretError>)
        ensures
            decoded matches Ok(event) ==> decode_payload(EventKind::OpenWindow, data@) == Ok::<
                Seq<Value>,
                Failure,
            >(event.values()),
            decoded matches Err(error) ==> decode_payload(EventKind::OpenWindow, data@) == Err::<
                Seq<Value>,
                Failure,
            >(error@),
    {
        let parts = split_payload(EventKind::OpenWindow, data)?;
        let event = OpenWindow {
            window_address: parts[0].to_owned(),
            workspace_name: parts[1].to_owned(),
            window_class: parts[2].to_owned(),
            window_title: parts[3].to_owned(),
        };
        proof {
            lemma_decodes_to(EventKind::OpenWindow, data@, event.values());
        }
        Ok(event)
    }
}

/// A window was closed.
///
/// On the wire: `closewindow>>WINDOW_ADDRESS`.
#[derive(Debug, Clone, PartialEq)]
pub struct CloseWindow {
    /// Address of the window.
    pub window_address: String,
}

impl CloseWindow {
    /// The field values in wire order.
    pub open spec fn values(&self) -> Seq<Value> {
        seq![Value::Text(self.window_address@)]
    }

    /// Decodes the payload of a `closewindow` notification: the whole payload is
    /// the one field, commas and all.
    pub fn parse(data: &str) -> (decoded: Result<CloseWindow, EventInterpretError>)
        ensures
            decoded matches Ok(event) ==> decode_payload(EventKind::CloseWindow, data@) == Ok::<
                Seq<Value>,
                Failure,
            >(event.values()),
            decoded matches Err(error) ==> decode_payload(EventKind::CloseWindow, data@) == Err::<
                Seq<Value>,
                Failure,
            >(error@),
    {
        let event = CloseWindow {
            window_address: data.to_owned(),
        };
        proof {
            lemma_decodes_to(EventKind::CloseWindow, data@, event.values());
        }
        Ok(event)
    }
}

/// A window moved to another workspace.
///
/// On the wire: `movewindow>>WINDOW_ADDRESS,WORKSPACE_NAME`.
#[derive(Debug, Clone, PartialEq)]
pub struct MoveWindow {
    /// Address of the window.
    pub window_address: String,
    /// Name of the workspace that it moved to.
    pub workspace_name: String,
}

impl MoveWindow {
    /// The field values in wire order.
    pub open spec fn values(&self) -> Seq<Value> {
        seq![Value::Text(self.window_address@), Value::Text(self.workspace_name@)]
    }

    /// Decodes the payload of a `movewindow` notification, which must hold
    /// exactly 2 comma-separated fields.
    pub fn parse(data: &str) -> (decoded: Result<MoveWindow, EventInterpretError>)
        ensures
            decoded matches Ok(event) ==> decode_payload(EventKind::MoveWindow, data@) == Ok::<
                Seq<Value>,
                Failure,
            >(event.values()),
            decoded matches Err(error) ==> decode_payload(EventKind::MoveWindow, data@) == Err::<
                Seq<Value>,
                Failure,
            >(error@),
    {
        let parts = split_payload(EventKind::MoveWindow, data)?;
        let event = MoveWindow {
            window_address: parts[0].to_owned(),
            workspace_name: parts[1].to_owned(),
        };
        proof {
            lemma_decodes_to(EventKind::MoveWindow, data@, event.values());
        }
        Ok(event)
    }
}

/// A window moved to another workspace; carries the workspace's id as well.
///
/// On the wire: `movewindowv2>>WINDOW_ADDRESS,WORKSPACE_ID,WORKSPACE_NAME`.
#[derive(Debug, Clone, PartialEq)]
pub struct MoveWindowV2 {
    /// Address of the window.
    pub window_address: String,
    /// Id of the workspace that it moved to.
    pub workspace_id: u32,
    /// Name of that workspace.
    pub workspace_name: String,
}

impl MoveWindowV2 {
    /// The field values in wire order.
    pub open spec fn values(&self) -> Seq<Value> {
        seq![Value::Text(self.window_address@), Value::Uint(self.workspace_id), Value::Text(self.workspace_name@)]
    }

    /// Decodes the payload of a `movewindowv2` notification, which must hold
    /// exactly 3 comma-separated fields.
    pub fn parse(data: &str) -> (decoded: Result<MoveWindowV2, EventInterpretError>)
        ensures
            decoded matches Ok(event) ==> decode_payload(EventKind::MoveWindowV2, data@) == Ok::<
                Seq<Value>,
                Failure,
            >(event.values()),
            decoded matches Err(error) ==> decode_payload(EventKind::MoveWindowV2, data@) == Err::<
                Seq<Value>,
                Failure,
            >(error@),
    {
        let parts = split_payload(EventKind::MoveWindowV2, data)?;
        let workspace_id = uint_field(EventKind::MoveWindowV2, data, 1, parts[1])?;
        let event = MoveWindowV2 {
            window_address: parts[0].to_owned(),
            workspace_id,
            workspace_name: parts[2].to_owned(),
        };
        proof {
            lemma_decodes_to(EventKind::MoveWindowV2, data@, event.values());
        }
        Ok(event)
    }
}

/// A layer surface was mapped.
///
/// On the wire: `openlayer>>NAMESPACE`.
#[derive(Debug, Clone, PartialEq)]
pub struct OpenLayer {
    /// Namespace of the layer.
    pub namespace: String,
}

impl OpenLayer {
    /// The field values in wire order.
    pub open spec fn values(&self) -> Seq<Value> {
        seq![Value::Text(self.namespace@)]
    }

    /// Decodes the payload of a `openlayer` notification: the whole payload is
    /// the one field, commas and all.
    pub fn parse(data: &str) -> (decoded: Result<OpenLayer, EventInterpretError>)
        ensures
            decoded matches Ok(event) ==> decode_payload(EventKind::OpenLayer, data@) == Ok::<
                Seq<Value>,
                Failure,
            >(event.values()),
            decoded matches Err(error) ==> decode_payload(EventKind::OpenLayer, data@) == Err::<
                Seq<Value>,
                Failure,
            >(error@),
    {
        let event = OpenLayer {
            namespace: data.to_owned(),
        };
        proof {
            lemma_decodes_to(EventKind::OpenLayer, data@, event.values());
        }
        Ok(event)
    }
}

/// A layer surface was unmapped.
///
/// On the wire: `closelayer>>NAMESPACE`.
#[derive(Debug, Clone, PartialEq)]
pub struct CloseLayer {
    /// Namespace of the layer.
    pub namespace: String,
}

impl CloseLayer {
    /// The field values in wire order.
    pub open spec fn values(&self) -> Seq<Value> {
        seq![Value::Text(self.namespace@)]
    }

    /// Decodes the payload of a `closelayer` notification: the whole payload is
    /// the one field, commas and all.
    pub fn parse(data: &str) -> (decoded: Result<CloseLayer, EventInterpretError>)
        ensures
            decoded matches Ok(event) ==> decode_payload(EventKind::CloseLayer, data@) == Ok::<
                Seq<Value>,
                Failure,
            >(event.values()),
            decoded matches Err(error) ==> decode_payload(EventKind::CloseLayer, data@) == Err::<
                Seq<Value>,
                Failure,
            >(error@),
    {
        let event = CloseLayer {
            namespace: data.to_owned(),
        };
        proof {
            lemma_decodes_to(EventKind::CloseLayer, data@, event.values());
        }
        Ok(event)
    }
}

/// The keybind submap changed.
///
/// On the wire: `submap>>SUBMAP_NAME`.
#[derive(Debug, Clone, PartialEq)]
pub struct Submap {
    /// Name of the submap (empty for the default one).
    pub submap_name: String,
}

impl Submap {
    /// The field values in wire order.
    pub open spec fn values(&self) -> Seq<Value> {
        seq![Value::Text(self.submap_name@)]
    }

    /// Decodes the payload of a `submap` notification: the whole payload is
    /// the one field, commas and all.
    pub fn parse(data: &str) -> (decoded: Result<Submap, EventInterpretError>)
        ensures
            decoded matches Ok(event) ==> decode_payload(EventKind::Submap, data@) == Ok::<
                Seq<Value>,
                Failure,
            >(event.values()),
            decoded matches Err(error) ==> decode_payload(EventKind::Submap, data@) == Err::<
                Seq<Value>,
                Failure,
            >(error@),
    {
        let event = Submap {
            submap_name: data.to_owned(),
        };
        proof {
            lemma_decodes_to(EventKind::Submap, data@, event.values());
        }
        Ok(event)
    }
}

/// A window switched between floating and tiled.
///
/// On the wire: `changefloatingmode>>WINDOW_ADDRESS,FLOATING`.
#[derive(Debug, Clone, PartialEq)]
pub struct ChangeFloatingMode {
    /// Address of the window.
    pub window_address: String,
    /// `true` when it floats now.
    pub floating: bool,
}

impl ChangeFloatingMode {
    /// The field values in wire order.
    pub open spec fn values(&self) -> Seq<Value> {
        seq![Value::Text(self.window_address@), Value::Flag(self.floating)]
    }

    /// Decodes the payload of a `changefloatingmode` notification, which must hold
    /// exactly 2 comma-separated fields.
    pub fn parse(data: &str) -> (decoded: Result<ChangeFloatingMode, EventInterpretError>)
        ensures
            decoded matches Ok(event) ==> decode_payload(EventKind::ChangeFloatingMode, data@) == Ok::<
                Seq<Value>,
                Failure,
            >(event.values()),
            decoded matches Err(error) ==> decode_payload(EventKind::ChangeFloatingMode, data@) == Err::<
                Seq<Value>,
                Failure,
            >(error@),
    {
        let parts = split_payload(EventKind::ChangeFloatingMode, data)?;
        let event = ChangeFloatingMode {
            window_address: parts[0].to_owned(),
            floating: truthy(parts[1]),
        };
        proof {
            lemma_decodes_to(EventKind::ChangeFloatingMode, data@, event.values());
        }
        Ok(event)
    }
}

/// A window asked for attention.
///
/// On the wire: `urgent>>WINDOW_ADDRESS`.
#[derive(Debug, Clone, PartialEq)]
pub struct Urgent {
    /// Address of the window.
    pub window_address: String,
}

impl Urgent {
    /// The field values in wire order.
    pub open spec fn values(&self) -> Seq<Value> {
        seq![Value::Text(self.window_address@)]
    }

    /// Decodes the payload of a `urgent` notification: the whole payload is
    /// the one field, commas and all.
    pub fn parse(data: &str) -> (decoded: Result<Urgent, EventInterpretError>)
        ensures
            decoded matches Ok(event) ==> decode_payload(EventKind::Urgent, data@) == Ok::<
                Seq<Value>,
                Failure,
            >(event.values()),
            decoded matches Err(error) ==> decode_payload(EventKind::Urgent, data@) == Err::<
                Seq<Value>,
                Failure,
            >(error@),
    {
        let event = Urgent {
            window_address: data.to_owned(),
        };
        proof {
            lemma_decodes_to(EventKind::Urgent, data@, event.values());
        }
        Ok(event)
    }
}

/// A window asked to be minimized or restored.
///
/// On the wire: `minimize>>WINDOW_ADDRESS,MINIMIZED`.
#[derive(Debug, Clone, PartialEq)]
pub struct Minimize {
    /// Address of the window.
    pub window_address: String,
    /// `true` when it is minimized now.
    pub minimized: bool,
}

impl Minimize {
    /// The field values in wire order.
    pub open spec fn values(&self) -> Seq<Value> {
        seq![Value::Text(self.window_address@), Value::Flag(self.minimized)]
    }

    /// Decodes the payload of a `minimize` notification, which must hold
    /// exactly 2 comma-separated fields.
    pub fn parse(data: &str) -> (decoded: Result<Minimize, EventInterpretError>)
        ensures
            decoded matches Ok(event) ==> decode_payload(EventKind::Minimize, data@) == Ok::<
                Seq<Value>,
                Failure,
            >(event.values()),
            decoded matches Err(error) ==> decode_payload(EventKind::Minimize, data@) == Err::<
                Seq<Value>,
                Failure,
            >(error@),
    {
        let parts = split_payload(EventKind::Minimize, data)?;
        let event = Minimize {
            window_address: parts[0].to_owned(),
            minimized: truthy(parts[1]),
        };
        proof {
            lemma_decodes_to(EventKind::Minimize, data@, event.values());
        }
        Ok(event)
    }
}

/// A screen copy session started or ended.
///
/// On the wire: `screencast>>STATE,OWNER`.
#[derive(Debug, Clone, PartialEq)]
pub struct Screencast {
    /// `true` while the session is active.
    pub state: bool,
    /// What is shared: 0 for a monitor, 1 for a window.
    pub owner: u32,
}

impl Screencast {
    /// The field values in wire order.
    pub open spec fn values(&self) -> Seq<Value> {
        seq![Value::Flag(self.state), Value::Uint(self.owner)]
    }

    /// Decodes the payload of a `screencast` notification, which must hold
    /// exactly 2 comma-separated fields.
    pub fn parse(data: &str) -> (decoded: Result<Screencast, EventInterpretError>)
        ensures
            decoded matches Ok(event) ==> decode_payload(EventKind::Screencast, data@) == Ok::<
                Seq<Value>,
                Failure,
            >(event.values()),
            decoded matches Err(error) ==> decode_payload(EventKind::Screencast, data@) == Err::<
                Seq<Value>,
                Failure,
            >(error@),
    {
        let parts = split_payload(EventKind::Screencast, data)?;
        let owner = uint_field(EventKind::Screencast, data, 1, parts[1])?;
        let event = Screencast {
            state: truthy(parts[0]),
            owner,
        };
        proof {
            lemma_decodes_to(EventKind::Screencast, data@, event.values());
        }
        Ok(event)
    }
}

/// A window changed its title.
///
/// On the wire: `windowtitle>>WINDOW_ADDRESS`.
#[derive(Debug, Clone, PartialEq)]
pub struct WindowTitle {
    /// Address of the window.
    pub window_address: String,
}

impl WindowTitle {
    /// The field values in wire order.
    pub open spec fn values(&self) -> Seq<Value> {
        seq![Value::Text(self.window_address@)]
    }

    /// Decodes the payload of a `windowtitle` notification: the whole payload is
    /// the one field, commas and all.
    pub fn parse(data: &str) -> (decoded: Result<WindowTitle, EventInterpretError>)
        ensures
            decoded matches Ok(event) ==> decode_payload(EventKind::WindowTitle, data@) == Ok::<
                Seq<Value>,
                Failure,
            >(event.values()),
            decoded matches Err(error) ==> decode_payload(EventKind::WindowTitle, data@) == Err::<
                Seq<Value>,
                Failure,
            >(error@),
    {
        let event = WindowTitle {
            window_address: data.to_owned(),
        };
        proof {
            lemma_decodes_to(EventKind::WindowTitle, data@, event.values());
        }
        Ok(event)
    }
}

/// The setting that ignores group locks was toggled.
///
/// On the wire: `ignoregrouplock>>STATE`.
#[derive(Debug, Clone, PartialEq)]
pub struct IgnoreGroupLock {
    /// `true` when group locks are ignored now.
    pub state: bool,
}

impl IgnoreGroupLock {
    /// The field values in wire order.
    pub open spec fn values(&self) -> Seq<Value> {
        seq![Value::Flag(self.state)]
    }

    /// Decodes the payload of a `ignoregrouplock` notification: the whole payload is
    /// the one field, commas and all.
    pub fn parse(data: &str) -> (decoded: Result<IgnoreGroupLock, EventInterpretError>)
        ensures
            decoded matches Ok(event) ==> decode_payload(EventKind::IgnoreGroupLock, data@) == Ok::<
                Seq<Value>,
                Failure,
            >(event.values()),
            decoded matches Err(error) ==> decode_payload(EventKind::IgnoreGroupLock, data@) == Err::<
                Seq<Value>,
                Failure,
            >(error@),
    {
        let event = IgnoreGroupLock {
            state: truthy(data),
        };
        proof {
            lemma_decodes_to(EventKind::IgnoreGroupLock, data@, event.values());
        }
        Ok(event)
    }
}

/// The lock on all groups was toggled.
///
/// On the wire: `lockgroups>>STATE`.
#[derive(Debug, Clone, PartialEq)]
pub struct LockGroups {
    /// `true` when the groups are locked now.
    pub state: bool,
}

impl LockGroups {
    /// The field values in wire order.
    pub open spec fn values(&self) -> Seq<Value> {
        seq![Value::Flag(self.state)]
    }

    /// Decodes the payload of a `lockgroups` notification: the whole payload is
    /// the one field, commas and all.
    pub fn parse(data: &str) -> (decoded: Result<LockGroups, EventInterpretError>)
        ensures
            decoded matches Ok(event) ==> decode_payload(EventKind::LockGroups, data@) == Ok::<
                Seq<Value>,
                Failure,
            >(event.values()),
            decoded matches Err(error) ==> decode_payload(EventKind::LockGroups, data@) == Err::<
                Seq<Value>,
                Failure,
            >(error@),
    {
        let event = LockGroups {
            state: truthy(data),
        };
        proof {
            lemma_decodes_to(EventKind::LockGroups, data@, event.values());
        }
        Ok(event)
    }
}

/// A window was pinned or unpinned.
///
/// On the wire: `pin>>WINDOW_ADDRESS,PIN_STATE`.
#[derive(Debug, Clone, PartialEq)]
pub struct Pin {
    /// Address of the window.
    pub window_address: String,
    /// `true` when it is pinned now.
    pub pin_state: bool,
}

impl Pin {
    /// The field values in wire order.
    pub open spec fn values(&self) -> Seq<Value> {
        seq![Value::Text(self.window_address@), Value::Flag(self.pin_state)]
    }

    /// Decodes the payload of a `pin` notification, which must hold
    /// exactly 2 comma-separated fields.
    pub fn parse(data: &str) -> (decoded: Result<Pin, EventInterpretError>)
        ensures
            decoded matches Ok(event) ==> decode_payload(EventKind::Pin, data@) == Ok::<
                Seq<Value>,
                Failure,
            >(event.values()),
            decoded matches Err(error) ==> decode_payload(EventKind::Pin, data@) == Err::<
                Seq<Value>,
                Failure,
            >(error@),
    {
        let parts = split_payload(EventKind::Pin, data)?;
        let event = Pin {
            window_address: parts[0].to_owned(),
            pin_state: truthy(parts[1]),
        };
        proof {
            lemma_decodes_to(EventKind::Pin, data@, event.values());
        }
        Ok(event)
    }
}

/// A notification whose tag the catalog does not hold. Nothing of it is
/// interpreted: tag and payload are kept as they came.
#[derive(Debug, Clone, PartialEq)]
pub struct Unknown {
    /// The tag as it stood before the delimiter.
    pub tag: String,
    /// The payload as it stood after the delimiter.
    pub payload: String,
}

/// One decoded notification.
#[derive(Debug, Clone, PartialEq)]
pub enum Event {
    Workspace(Workspace),
    WorkspaceV2(WorkspaceV2),
    FocusedMon(FocusedMon),
    ActiveWindow(ActiveWindow),
    ActiveWindowV2(ActiveWindowV2),
    Fullscreen(Fullscreen),
    MonitorRemoved(MonitorRemoved),
    MonitorAdded(MonitorAdded),
    MonitorAddedV2(MonitorAddedV2),
    CreateWorkspace(CreateWorkspace),
    CreateWorkspaceV2(CreateWorkspaceV2),
    DestroyWorkspace(DestroyWorkspace),
    DestroyWorkspaceV2(DestroyWorkspaceV2),
    MoveWorkspace(MoveWorkspace),
    MoveWorkspaceV2(MoveWorkspaceV2),
    RenameWorkspace(RenameWorkspace),
    ActiveSpecial(ActiveSpecial),
    ActiveLayout(ActiveLayout),
    OpenWindow(OpenWindow),
    CloseWindow(CloseWindow),
    MoveWindow(MoveWindow),
    MoveWindowV2(MoveWindowV2),
    OpenLayer(OpenLayer),
    CloseLayer(CloseLayer),
    Submap(Submap),
    ChangeFloatingMode(ChangeFloatingMode),
    Urgent(Urgent),
    Minimize(Minimize),
    Screencast(Screencast),
    WindowTitle(WindowTitle),
    IgnoreGroupLock(IgnoreGroupLock),
    LockGroups(LockGroups),
    /// The compositor finished reloading its configuration.
    ConfigReloaded,
    Pin(Pin),
    /// A notification of a kind that the catalog does not hold.
    Unknown(Unknown),
}

impl View for Event {
    type V = EventModel;

    open spec fn view(&self) -> EventModel {
        match self {
            Event::Workspace(event) => EventModel::Known {
                kind: EventKind::Workspace,
                values: event.values(),
            },
            Event::WorkspaceV2(event) => EventModel::Known {
                kind: EventKind::WorkspaceV2,
                values: event.values(),
            },
            Event::FocusedMon(event) => EventModel::Known {
                kind: EventKind::FocusedMon,
                values: event.values(),
            },
            Event::ActiveWindow(event) => EventModel::Known {
                kind: EventKind::ActiveWindow,
                values: event.values(),
            },
            Event::ActiveWindowV2(event) => EventModel::Known {
                kind: EventKind::ActiveWindowV2,
                values: event.values(),
            },
            Event::Fullscreen(event) => EventModel::Known {
                kind: EventKind::Fullscreen,
                values: event.values(),
            },
            Event::MonitorRemoved(event) => EventModel::Known {
                kind: EventKind::MonitorRemoved,
                values: event.values(),
            },
            Event::MonitorAdded(event) => EventModel::Known {
                kind: EventKind::MonitorAdded,
                values: event.values(),
            },
            Event::MonitorAddedV2(event) => EventModel::Known {
                kind: EventKind::MonitorAddedV2,
                values: event.values(),
            },
            Event::CreateWorkspace(event) => EventModel::Known {
                kind: EventKind::CreateWorkspace,
                values: event.values(),
            },
            Event::CreateWorkspaceV2(event) => EventModel::Known {
                kind: EventKind::CreateWorkspaceV2,
                values: event.values(),
            },
            Event::DestroyWorkspace(event) => EventModel::Known {
                kind: EventKind::DestroyWorkspace,
                values: event.values(),
            },
            Event::DestroyWorkspaceV2(event) => EventModel::Known {
                kind: EventKind::DestroyWorkspaceV2,
                values: event.values(),
            },
            Event::MoveWorkspace(event) => EventModel::Known {
                kind: EventKind::MoveWorkspace,
                values: event.values(),
            },
            Event::MoveWorkspaceV2(event) => EventModel::Known {
                kind: EventKind::MoveWorkspaceV2,
                values: event.values(),
            },
            Event::RenameWorkspace(event) => EventModel::Known {
                kind: EventKind::RenameWorkspace,
                values: event.values(),
            },
            Event::ActiveSpecial(event) => EventModel::Known {
                kind: EventKind::ActiveSpecial,
                values: event.values(),
            },
            Event::ActiveLayout(event) => EventModel::Known {
                kind: EventKind::ActiveLayout,
                values: event.values(),
            },
            Event::OpenWindow(event) => EventModel::Known {
                kind: EventKind::OpenWindow,
                values: event.values(),
            },
            Event::CloseWindow(event) => EventModel::Known {
                kind: EventKind::CloseWindow,
                values: event.values(),
            },
            Event::MoveWindow(event) => EventModel::Known {
                kind: EventKind::MoveWindow,
                values: event.values(),
            },
            Event::MoveWindowV2(event) => EventModel::Known {
                kind: EventKind::MoveWindowV2,
                values: event.values(),
            },
            Event::OpenLayer(event) => EventModel::Known {
                kind: EventKind::OpenLayer,
                values: event.values(),
            },
            Event::CloseLayer(event) => EventModel::Known {
                kind: EventKind::CloseLayer,
                values: event.values(),
            },
            Event::Submap(event) => EventModel::Known {
                kind: EventKind::Submap,
                values: event.values(),
            },
            Event::ChangeFloatingMode(event) => EventModel::Known {
                kind: EventKind::ChangeFloatingMode,
                values: event.values(),
            },
            Event::Urgent(event) => EventModel::Known {
                kind: EventKind::Urgent,
                values: event.values(),
            },
            Event::Minimize(event) => EventModel::Known {
                kind: EventKind::Minimize,
                values: event.values(),
            },
            Event::Screencast(event) => EventModel::Known {
                kind: EventKind::Screencast,
                values: event.values(),
            },
            Event::WindowTitle(event) => EventModel::Known {
                kind: EventKind::WindowTitle,
                values: event.values(),
            },
            Event::IgnoreGroupLock(event) => EventModel::Known {
                kind: EventKind::IgnoreGroupLock,
                values: event.values(),
            },
            Event::LockGroups(event) => EventModel::Known {
                kind: EventKind::LockGroups,
                values: event.values(),
            },
            Event::ConfigReloaded => EventModel::Known {
                kind: EventKind::ConfigReloaded,
                values: Seq::empty(),
            },
            Event::Pin(event) => EventModel::Known {
                kind: EventKind::Pin,
                values: event.values(),
            },
            Event::Unknown(event) => EventModel::Unknown {
                tag: event.tag@,
                payload: event.payload@,
            },
        }
    }
}

impl Event {
    /// Decodes a notification from its tag and its payload. The tag selects
    /// the decoder by exact match; a tag of no kind is no failure but gives
    /// [`Event::Unknown`] with tag and payload untouched.
    pub fn from(event_type: &str, data: &str) -> (decoded: Result<Event, EventInterpretError>)
        ensures
            decoded matches Ok(event) ==> decode(event_type@, data@) == Ok::<EventModel, Failure>(
                event@,
            ),
            decoded matches Err(error) ==> decode(event_type@, data@) == Err::<
                EventModel,
                Failure,
            >(error@),
    {
        let kind = match EventKind::from_tag(event_type) {
            Some(kind) => kind,
            None => {
                return Ok(
                    Event::Unknown(
                        Unknown { tag: event_type.to_owned(), payload: data.to_owned() },
                    ),
                );
            },
        };
        match kind {
            EventKind::Workspace => match Workspace::parse(data) {
                Ok(event) => Ok(Event::Workspace(event)),
                Err(error) => Err(error),
            },
            EventKind::WorkspaceV2 => match WorkspaceV2::parse(data) {
                Ok(event) => Ok(Event::WorkspaceV2(event)),
                Err(error) => Err(error),
            },
            EventKind::FocusedMon => match FocusedMon::parse(data) {
                Ok(event) => Ok(Event::FocusedMon(event)),
                Err(error) => Err(error),
            },
            EventKind::ActiveWindow => match ActiveWindow::parse(data) {
                Ok(event) => Ok(Event::ActiveWindow(event)),
                Err(error) => Err(error),
            },
            EventKind::ActiveWindowV2 => match ActiveWindowV2::parse(data) {
                Ok(event) => Ok(Event::ActiveWindowV2(event)),
                Err(error) => Err(error),
            },
            EventKind::Fullscreen => match Fullscreen::parse(data) {
                Ok(event) => Ok(Event::Fullscreen(event)),
                Err(error) => Err(error),
            },
            EventKind::MonitorRemoved => match MonitorRemoved::parse(data) {
                Ok(event) => Ok(Event::MonitorRemoved(event)),
                Err(error) => Err(error),
            },
            EventKind::MonitorAdded => match MonitorAdded::parse(data) {
                Ok(event) => Ok(Event::MonitorAdded(event)),
                Err(error) => Err(error),
            },
            EventKind::MonitorAddedV2 => match MonitorAddedV2::parse(data) {
                Ok(event) => Ok(Event::MonitorAddedV2(event)),
                Err(error) => Err(error),
            },
            EventKind::CreateWorkspace => match CreateWorkspace::parse(data) {
                Ok(event) => Ok(Event::CreateWorkspace(event)),
                Err(error) => Err(error),
            },
            EventKind::CreateWorkspaceV2 => match CreateWorkspaceV2::parse(data) {
                Ok(event) => Ok(Event::CreateWorkspaceV2(event)),
                Err(error) => Err(error),
            },
            EventKind::DestroyWorkspace => match DestroyWorkspace::parse(data) {
                Ok(event) => Ok(Event::DestroyWorkspace(event)),
                Err(error) => Err(error),
            },
            EventKind::DestroyWorkspaceV2 => match DestroyWorkspaceV2::parse(data) {
                Ok(event) => Ok(Event::DestroyWorkspaceV2(event)),
                Err(error) => Err(error),
            },
            EventKind::MoveWorkspace => match MoveWorkspace::parse(data) {
                Ok(event) => Ok(Event::MoveWorkspace(event)),
                Err(error) => Err(error),
            },
            EventKind::MoveWorkspaceV2 => match MoveWorkspaceV2::parse(data) {
                Ok(event) => Ok(Event::MoveWorkspaceV2(event)),
                Err(error) => Err(error),
            },
            EventKind::RenameWorkspace => match RenameWorkspace::parse(data) {
                Ok(event) => Ok(Event::RenameWorkspace(event)),
                Err(error) => Err(error),
            },
            EventKind::ActiveSpecial => match ActiveSpecial::parse(data) {
                Ok(event) => Ok(Event::ActiveSpecial(event)),
                Err(error) => Err(error),
            },
            EventKind::ActiveLayout => match ActiveLayout::parse(data) {
                Ok(event) => Ok(Event::ActiveLayout(event)),
                Err(error) => Err(error),
            },
            EventKind::OpenWindow => match OpenWindow::parse(data) {
                Ok(event) => Ok(Event::OpenWindow(event)),
                Err(error) => Err(error),
            },
            EventKind::CloseWindow => match CloseWindow::parse(data) {
                Ok(event) => Ok(Event::CloseWindow(event)),
                Err(error) => Err(error),
            },
            EventKind::MoveWindow => match MoveWindow::parse(data) {
                Ok(event) => Ok(Event::MoveWindow(event)),
                Err(error) => Err(error),
            },
            EventKind::MoveWindowV2 => match MoveWindowV2::parse(data) {
                Ok(event) => Ok(Event::MoveWindowV2(event)),
                Err(error) => Err(error),
            },
            EventKind::OpenLayer => match OpenLayer::parse(data) {
                Ok(event) => Ok(Event::OpenLayer(event)),
                Err(error) => Err(error),
            },
            EventKind::CloseLayer => match CloseLayer::parse(data) {
                Ok(event) => Ok(Event::CloseLayer(event)),
                Err(error) => Err(error),
            },
            EventKind::Submap => match Submap::parse(data) {
                Ok(event) => Ok(Event::Submap(event)),
                Err(error) => Err(error),
            },
            EventKind::ChangeFloatingMode => match ChangeFloatingMode::parse(data) {
                Ok(event) => Ok(Event::ChangeFloatingMode(event)),
                Err(error) => Err(error),
            },
            EventKind::Urgent => match Urgent::parse(data) {
                Ok(event) => Ok(Event::Urgent(event)),
                Err(error) => Err(error),
            },
            EventKind::Minimize => match Minimize::parse(data) {
                Ok(event) => Ok(Event::Minimize(event)),
                Err(error) => Err(error),
            },
            EventKind::Screencast => match Screencast::parse(data) {
                Ok(event) => Ok(Event::Screencast(event)),
                Err(error) => Err(error),
            },
            EventKind::WindowTitle => match WindowTitle::parse(data) {
                Ok(event) => Ok(Event::WindowTitle(event)),
                Err(error) => Err(error),
            },
            EventKind::IgnoreGroupLock => match IgnoreGroupLock::parse(data) {
                Ok(event) => Ok(Event::IgnoreGroupLock(event)),
                Err(error) => Err(error),
            },
            EventKind::LockGroups => match LockGroups::parse(data) {
                Ok(event) => Ok(Event::LockGroups(event)),
                Err(error) => Err(error),
            },
            EventKind::ConfigReloaded => {
                proof {
                    lemma_decodes_to(EventKind::ConfigReloaded, data@, Seq::empty());
                }
                Ok(Event::ConfigReloaded)
            },
            EventKind::Pin => match Pin::parse(data) {
                Ok(event) => Ok(Event::Pin(event)),
                Err(error) => Err(error),
            },
        }
    }
}

} // verus!
