//! Grouping configuration helpers.
//!
//! A database view groups its rows by one field.  The field itself lives
//! in the collaborative-document layer; the helpers here read only its
//! identity and its numeric type tag, so that is what the field model
//! holds, and the host converts at its boundary.

use vstd::prelude::*;

verus! {

/// What the grouping helpers read of a field: its identity and its type
/// tag.
pub struct Field {
    pub id: String,
    pub field_type: i64,
}

/// One group of rows under a grouping field.
pub struct Group {
    pub id: String,
    pub visible: bool,
}

/// Persisted grouping configuration of one view: which field groups the
/// view, and the per-type serialized content.
pub struct GroupSetting {
    pub field_id: String,
    pub field_type: i64,
    pub content: String,
}

impl GroupSetting {
    /// A configuration keyed by `field_id` of `field_type` with the given
    /// content.
    pub fn new(field_id: String, field_type: i64, content: String) -> (r: GroupSetting)
        ensures
            r.field_id == field_id,
            r.field_type == field_type,
            r.content == content,
    {
        GroupSetting { field_id, field_type, content }
    }
}

/// The groups generated for one field, with the optional catch-all group
/// for rows that carry no status.
pub struct GeneratedGroups {
    pub no_status_group: Option<Group>,
    pub groups: Vec<Group>,
}

/// The field types a view can group by.  The host converts the field's
/// numeric tag at its boundary; anything it does not tell apart is
/// `Other`.
#[derive(Clone, Copy, Debug, PartialEq, Eq, Structural)]
pub enum FieldType {
    SingleSelect,
    MultiSelect,
    Checkbox,
    Url,
    DateTime,
    Other,
}

/// Which controller drives a view grouped by a field of each type: a
/// closed dispatch on the type tag.  Fields of any other type fall back to
/// the default controller, which puts every row in one group.
#[derive(Clone, Copy, Debug, PartialEq, Eq, Structural)]
pub enum GroupControllerKind {
    SingleSelect,
    MultiSelect,
    Checkbox,
    Url,
    Date,
    Default,
}

/// Where each field type's grouping is decided.
pub open spec fn spec_controller_kind(ft: FieldType) -> GroupControllerKind {
    match ft {
        FieldType::SingleSelect => GroupControllerKind::SingleSelect,
        FieldType::MultiSelect => GroupControllerKind::MultiSelect,
        FieldType::Checkbox => GroupControllerKind::Checkbox,
        FieldType::Url => GroupControllerKind::Url,
        FieldType::DateTime => GroupControllerKind::Date,
        FieldType::Other => GroupControllerKind::Default,
    }
}

/// Picks the group controller for a grouping field.  The host constructs
/// the controller of the returned kind around its own row and cell data.
pub fn group_controller_kind(ft: FieldType) -> (r: GroupControllerKind)
    ensures
        r == spec_controller_kind(ft),
{
    match ft {
        FieldType::SingleSelect => GroupControllerKind::SingleSelect,
        FieldType::MultiSelect => GroupControllerKind::MultiSelect,
        FieldType::Checkbox => GroupControllerKind::Checkbox,
        FieldType::Url => GroupControllerKind::Url,
        FieldType::DateTime => GroupControllerKind::Date,
        FieldType::Other => GroupControllerKind::Default,
    }
}

/// The `default` grouping configuration for a field: keyed by the field,
/// with empty content.
pub fn default_group_setting(field: &Field) -> (r: GroupSetting)
    ensures
        r.field_id@ == field.id@,
        r.field_type == field.field_type,
        r.content@ == Seq::<char>::empty(),
{
    let field_id = field.id.clone();
    GroupSetting::new(field_id, field.field_type, String::new())
}

/// The visible catch-all group of a field, carrying the field's own id.
pub fn make_no_status_group(field: &Field) -> (r: Group)
    ensures
        r.id@ == field.id@,
        r.visible,
{
    Group { id: field.id.clone(), visible: true }
}

} // verus!
