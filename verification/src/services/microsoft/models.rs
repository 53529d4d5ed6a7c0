//! Raw calendar records as the Microsoft Graph "list calendars" call returns
//! them, before normalization into the unified model.

use vstd::prelude::*;

verus! {

/// The envelope around the Microsoft "list calendars" payload: an OData
/// context string and the list of raw calendar records.
#[derive(Debug, PartialEq, Eq)]
pub struct CalendarsResponse {
    pub odata_context: String,
    pub value: Vec<Calendar>,
}

/// One raw Microsoft calendar record, field for field.
#[derive(Debug, PartialEq, Eq)]
pub struct Calendar {
    pub id: String,
    pub name: String,
    pub color: String,
    pub hex_color: String,
    pub group_class_id: String,
    pub is_default_calendar: bool,
    pub change_key: String,
    pub can_share: bool,
    pub can_view_private_items: bool,
    pub can_edit: bool,
    pub allowed_online_meeting_providers: Vec<String>,
    pub default_online_meeting_provider: String,
    pub is_tallying_responses: bool,
    pub is_removable: bool,
    pub owner: Owner,
}

/// The owner block of a raw Microsoft calendar record.
#[derive(Debug, PartialEq, Eq)]
pub struct Owner {
    pub name: String,
    pub address: String,
}

/// The mathematical content of an [`Owner`].
#[verifier::ext_equal]
pub struct OwnerView {
    pub name: Seq<char>,
    pub address: Seq<char>,
}

impl View for Owner {
    type V = OwnerView;

    open spec fn view(&self) -> OwnerView {
        OwnerView { name: self.name@, address: self.address@ }
    }
}

/// The mathematical content of a raw Microsoft [`Calendar`].
#[verifier::ext_equal]
pub struct CalendarRecordView {
    pub id: Seq<char>,
    pub name: Seq<char>,
    pub color: Seq<char>,
    pub hex_color: Seq<char>,
    pub group_class_id: Seq<char>,
    pub is_default_calendar: bool,
    pub change_key: Seq<char>,
    pub can_share: bool,
    pub can_view_private_items: bool,
    pub can_edit: bool,
    pub allowed_online_meeting_providers: Seq<Seq<char>>,
    pub default_online_meeting_provider: Seq<char>,
    pub is_tallying_responses: bool,
    pub is_removable: bool,
    pub owner: OwnerView,
}

impl View for Calendar {
    type V = CalendarRecordView;

    open spec fn view(&self) -> CalendarRecordView {
        CalendarRecordView {
            id: self.id@,
            name: self.name@,
            color: self.color@,
            hex_color: self.hex_color@,
            group_class_id: self.group_class_id@,
            is_default_calendar: self.is_default_calendar,
            change_key: self.change_key@,
            can_share: self.can_share,
            can_view_private_items: self.can_view_private_items,
            can_edit: self.can_edit,
            allowed_online_meeting_providers: self.allowed_online_meeting_providers.deep_view(),
            default_online_meeting_provider: self.default_online_meeting_provider@,
            is_tallying_responses: self.is_tallying_responses,
            is_removable: self.is_removable,
            owner: self.owner@,
        }
    }
}

/// The mathematical content of a [`CalendarsResponse`].
#[verifier::ext_equal]
pub struct CalendarsResponseView {
    pub odata_context: Seq<char>,
    pub value: Seq<CalendarRecordView>,
}

impl View for CalendarsResponse {
    type V = CalendarsResponseView;

    open spec fn view(&self) -> CalendarsResponseView {
        CalendarsResponseView {
            odata_context: self.odata_context@,
            value: Seq::new(self.value@.len(), |i: int| self.value@[i]@),
        }
    }
}

} // verus!
