//! The unified, provider-agnostic data model.
//!
//! Accounts come from an external account service; calendars come from the
//! per-provider adapters and are normalized into [`Calendar`], the canonical
//! record this core hands to its callers.

use vstd::prelude::*;

use crate::json::{JsonVal, JsonValue};
use crate::services::google::{
    CalendarListItemView, ConferencePropertiesView, DefaultReminderView,
};
use crate::services::microsoft::models::CalendarRecordView;

verus! {

/// The remote calendar backend an account belongs to.
#[derive(Debug, Clone, Copy, PartialEq, Eq, Structural)]
pub enum Provider {
    Google,
    Microsoft,
}

/// A connected user account, as read from the external account service.
/// This core never creates or destroys accounts; it only reads them.
#[derive(Debug, PartialEq, Eq)]
pub struct Account {
    /// Identifier assigned by the account service.
    pub id: String,
    /// Display name of the account.
    pub username: String,
    /// Which provider the account authenticates against.
    pub provider: Provider,
}

/// The mathematical content of an [`Account`].
#[verifier::ext_equal]
pub struct AccountView {
    pub id: Seq<char>,
    pub username: Seq<char>,
    pub provider: Provider,
}

impl View for Account {
    type V = AccountView;

    open spec fn view(&self) -> AccountView {
        AccountView { id: self.id@, username: self.username@, provider: self.provider }
    }
}

impl DeepView for Account {
    type V = AccountView;

    open spec fn deep_view(&self) -> AccountView {
        self.view()
    }
}

impl Clone for Account {
    /// Cloning keeps the account's content.
    fn clone(&self) -> (r: Self)
        ensures
            r@ == self@,
    {
        Account {
            id: self.id.clone(),
            username: self.username.clone(),
            provider: self.provider,
        }
    }
}

impl Account {
    /// Whether two accounts are the same entry of the account service.
    pub fn key_eq(&self, other: &Account) -> (r: bool)
        ensures
            r == (self@ == other@),
    {
        let r = self.id == other.id && self.username == other.username && self.provider
            == other.provider;
        proof {
            if r {
                assert(self@ =~= other@);
            }
        }
        r
    }
}

/// A unified calendar record that works across providers.
#[derive(Debug, PartialEq, Eq)]
pub struct Calendar {
    /// Provider-scoped unique identifier.
    pub id: String,
    /// Human-readable name of the calendar.
    pub name: String,
    /// Optional description.
    pub description: Option<String>,
    /// Timezone associated with the calendar.
    pub timezone: Option<String>,
    /// Background color; provider sentinel values are normalized to `None`.
    pub color: Option<String>,
    /// Access role, normalized to a common vocabulary such as "owner" and
    /// "reader".
    pub access_role: String,
    /// The source provider.
    pub provider: Provider,
    /// Provider-specific fields with no canonical slot, preserved so that no
    /// information from the source payload is silently dropped.
    pub extra: Vec<(String, JsonValue)>,
}

/// The mathematical content of a [`Calendar`].
#[verifier::ext_equal]
pub struct CalendarView {
    pub id: Seq<char>,
    pub name: Seq<char>,
    pub description: Option<Seq<char>>,
    pub timezone: Option<Seq<char>>,
    pub color: Option<Seq<char>>,
    pub access_role: Seq<char>,
    pub provider: Provider,
    pub extra: Seq<(Seq<char>, JsonVal)>,
}

impl View for Calendar {
    type V = CalendarView;

    open spec fn view(&self) -> CalendarView {
        CalendarView {
            id: self.id@,
            name: self.name@,
            description: self.description.deep_view(),
            timezone: self.timezone.deep_view(),
            color: self.color.deep_view(),
            access_role: self.access_role@,
            provider: self.provider,
            extra: self.extra.deep_view(),
        }
    }
}

impl DeepView for Calendar {
    type V = CalendarView;

    open spec fn deep_view(&self) -> CalendarView {
        self.view()
    }
}

/// Whether `extra` carries `key` with exactly the value `val`.
pub open spec fn extra_has(extra: Seq<(Seq<char>, JsonVal)>, key: Seq<char>, val: JsonVal) -> bool {
    exists|i: int| 0 <= i < extra.len() && extra[i] == (key, val)
}

/// A pair carried by either side of a concatenation is carried by the whole.
pub proof fn lemma_extra_has_concat(
    left: Seq<(Seq<char>, JsonVal)>,
    right: Seq<(Seq<char>, JsonVal)>,
    key: Seq<char>,
    val: JsonVal,
)
    requires
        extra_has(left, key, val) || extra_has(right, key, val),
    ensures
        extra_has(left + right, key, val),
{
    if extra_has(left, key, val) {
        let i = choose|i: int| 0 <= i < left.len() && left[i] == (key, val);
        assert((left + right)[i] == (key, val));
    } else {
        let i = choose|i: int| 0 <= i < right.len() && right[i] == (key, val);
        assert((left + right)[left.len() + i] == (key, val));
    }
}

/// The unified record that a raw Microsoft calendar normalizes to: `id` and
/// `name` map across, `color` keeps its value unless it is the provider
/// sentinel "auto" (then absent), editability decides the access role, and
/// every remaining payload field is preserved under [`ms_extra`].
pub open spec fn ms_to_unified(mc: CalendarRecordView) -> CalendarView {
    CalendarView {
        id: mc.id,
        name: mc.name,
        description: None,
        timezone: None,
        color: if mc.color == "auto"@ {
            None
        } else {
            Some(mc.color)
        },
        access_role: if mc.can_edit {
            "owner"@
        } else {
            "reader"@
        },
        provider: Provider::Microsoft,
        extra: ms_extra(mc),
    }
}

/// The Microsoft payload fields with no canonical slot, each under its
/// original payload name, in payload order.
pub open spec fn ms_extra(mc: CalendarRecordView) -> Seq<(Seq<char>, JsonVal)> {
    seq![
        ("hexColor"@, JsonVal::Str(mc.hex_color)),
        ("groupClassId"@, JsonVal::Str(mc.group_class_id)),
        ("isDefaultCalendar"@, JsonVal::Bool(mc.is_default_calendar)),
        ("changeKey"@, JsonVal::Str(mc.change_key)),
        ("canShare"@, JsonVal::Bool(mc.can_share)),
        ("canViewPrivateItems"@, JsonVal::Bool(mc.can_view_private_items)),
        (
            "allowedOnlineMeetingProviders"@,
            JsonVal::Arr(
                mc.allowed_online_meeting_providers.map_values(|s: Seq<char>| JsonVal::Str(s)),
            ),
        ),
        ("defaultOnlineMeetingProvider"@, JsonVal::Str(mc.default_online_meeting_provider)),
        ("isTallyingResponses"@, JsonVal::Bool(mc.is_tallying_responses)),
        ("isRemovable"@, JsonVal::Bool(mc.is_removable)),
        (
            "owner"@,
            JsonVal::Obj(
                seq![
                    ("name"@, JsonVal::Str(mc.owner.name)),
                    ("address"@, JsonVal::Str(mc.owner.address)),
                ],
            ),
        ),
    ]
}

impl Calendar {
    /// Normalizes a raw Microsoft calendar record. Total: every record
    /// converts, whatever its field values.
    pub fn from_microsoft(mc: crate::services::microsoft::models::Calendar) -> (c: Calendar)
        ensures
            c@ == ms_to_unified(mc@),
    {
        let ghost mcv = mc@;
        let crate::services::microsoft::models::Calendar {
            id,
            name,
            color,
            hex_color,
            group_class_id,
            is_default_calendar,
            change_key,
            can_share,
            can_view_private_items,
            can_edit,
            allowed_online_meeting_providers,
            default_online_meeting_provider,
            is_tallying_responses,
            is_removable,
            owner,
        } = mc;

        let mut meeting_providers: Vec<JsonValue> = Vec::new();
        let mut i: usize = 0;
        while i < allowed_online_meeting_providers.len()
            invariant
                i <= allowed_online_meeting_providers@.len(),
                meeting_providers@.len() == i,
                forall|j: int|
                    0 <= j < i ==> #[trigger] meeting_providers@[j] == JsonValue::Str(
                        allowed_online_meeting_providers@[j],
                    ),
            decreases allowed_online_meeting_providers@.len() - i,
        {
            meeting_providers.push(JsonValue::Str(allowed_online_meeting_providers[i].clone()));
            i = i + 1;
        }
        proof {
            assert forall|j: int|
                0 <= j < meeting_providers@.len() implies meeting_providers.deep_view()[j]
                == JsonVal::Str(allowed_online_meeting_providers@[j]@) by {
                assert(meeting_providers@[j] == JsonValue::Str(
                    allowed_online_meeting_providers@[j],
                ));
            }
            assert(meeting_providers.deep_view()
                =~= allowed_online_meeting_providers.deep_view().map_values(
                |s: Seq<char>| JsonVal::Str(s),
            ));
            crate::json::lemma_arr_deep(meeting_providers);
        }

        let mut owner_obj: Vec<(String, JsonValue)> = Vec::new();
        owner_obj.push(("name".to_owned(), JsonValue::Str(owner.name)));
        owner_obj.push(("address".to_owned(), JsonValue::Str(owner.address)));
        proof {
            assert(owner_obj.deep_view() =~= seq![
                ("name"@, JsonVal::Str(mcv.owner.name)),
                ("address"@, JsonVal::Str(mcv.owner.address)),
            ]);
            crate::json::lemma_obj_deep(owner_obj);
        }

        let mut extra: Vec<(String, JsonValue)> = Vec::new();
        extra.push(("hexColor".to_owned(), JsonValue::Str(hex_color)));
        extra.push(("groupClassId".to_owned(), JsonValue::Str(group_class_id)));
        extra.push(("isDefaultCalendar".to_owned(), JsonValue::Bool(is_default_calendar)));
        extra.push(("changeKey".to_owned(), JsonValue::Str(change_key)));
        extra.push(("canShare".to_owned(), JsonValue::Bool(can_share)));
        extra.push(("canViewPrivateItems".to_owned(), JsonValue::Bool(can_view_private_items)));
        extra.push((
            "allowedOnlineMeetingProviders".to_owned(),
            JsonValue::Arr(meeting_providers),
        ));
        extra.push((
            "defaultOnlineMeetingProvider".to_owned(),
            JsonValue::Str(default_online_meeting_provider),
        ));
        extra.push(("isTallyingResponses".to_owned(), JsonValue::Bool(is_tallying_responses)));
        extra.push(("isRemovable".to_owned(), JsonValue::Bool(is_removable)));
        extra.push(("owner".to_owned(), JsonValue::Obj(owner_obj)));

        let c = Calendar {
            id,
            name,
            description: None,
            timezone: None,
            color: if color == "auto".to_owned() {
                None
            } else {
                Some(color)
            },
            access_role: if can_edit {
                "owner".to_owned()
            } else {
                "reader".to_owned()
            },
            provider: Provider::Microsoft,
            extra,
        };
        proof {
            assert(c@.extra =~= ms_extra(mcv));
            assert(c@ =~= ms_to_unified(mcv));
        }
        c
    }
}

/// The unified record that a raw Google calendar list entry normalizes to:
/// the canonical fields map across (`summary` becomes the name, the
/// background color the color), the access role keeps the provider's wire
/// name, and every remaining payload field present on the entry is preserved
/// under [`google_extra`].
pub open spec fn google_to_unified(it: CalendarListItemView) -> CalendarView {
    CalendarView {
        id: it.id,
        name: it.summary,
        description: it.description,
        timezone: it.time_zone,
        color: it.background_color,
        access_role: it.access_role.text(),
        provider: Provider::Google,
        extra: google_extra(it),
    }
}

/// The structured value a reminder is preserved as.
pub open spec fn reminder_val(r: DefaultReminderView) -> JsonVal {
    JsonVal::Obj(seq![("method"@, JsonVal::Str(r.method)), ("minutes"@, JsonVal::Int(r.minutes))])
}

/// The structured value a conference properties block is preserved as.
pub open spec fn conference_val(cp: ConferencePropertiesView) -> JsonVal {
    JsonVal::Obj(
        seq![
            (
                "allowedConferenceSolutionTypes"@,
                JsonVal::Arr(
                    cp.allowed_conference_solution_types.map_values(
                        |s: Seq<char>| JsonVal::Str(s),
                    ),
                ),
            ),
        ],
    )
}

/// The Google payload fields with no canonical slot: the optional ones when
/// present, then the three flags (absent means false) and the reminder list,
/// each under its original payload name.
pub open spec fn google_extra(it: CalendarListItemView) -> Seq<(Seq<char>, JsonVal)> {
    (match it.location {
        Some(l) => seq![("location"@, JsonVal::Str(l))],
        None => Seq::empty(),
    }) + (match it.summary_override {
        Some(s) => seq![("summaryOverride"@, JsonVal::Str(s))],
        None => Seq::empty(),
    }) + (match it.foreground_color {
        Some(f) => seq![("foregroundColor"@, JsonVal::Str(f))],
        None => Seq::empty(),
    }) + (match it.color_id {
        Some(ci) => seq![("colorId"@, JsonVal::Str(ci))],
        None => Seq::empty(),
    }) + (match it.conference_properties {
        Some(cp) => seq![("conferenceProperties"@, conference_val(cp))],
        None => Seq::empty(),
    }) + seq![
        ("deleted"@, JsonVal::Bool(it.deleted == Some(true))),
        ("hidden"@, JsonVal::Bool(it.hidden == Some(true))),
        ("selected"@, JsonVal::Bool(it.selected == Some(true))),
        (
            "defaultReminders"@,
            JsonVal::Arr(it.default_reminders.map_values(|r: DefaultReminderView| reminder_val(r))),
        ),
    ]
}

impl Calendar {
    /// Normalizes a raw Google calendar list entry. Total: every entry
    /// converts, whatever its field values; absent optional fields stay
    /// absent rather than failing.
    pub fn from_google(item: crate::services::google::CalendarListItem) -> (c: Calendar)
        ensures
            c@ == google_to_unified(item@),
    {
        let ghost itv = item@;
        let crate::services::google::CalendarListItem {
            id,
            summary,
            description,
            time_zone,
            background_color,
            foreground_color,
            access_role,
            color_id,
            location,
            summary_override,
            conference_properties,
            deleted,
            hidden,
            selected,
            default_reminders,
        } = item;

        let mut extra: Vec<(String, JsonValue)> = Vec::new();
        match location {
            Some(l) => extra.push(("location".to_owned(), JsonValue::Str(l))),
            None => (),
        }
        match summary_override {
            Some(s) => extra.push(("summaryOverride".to_owned(), JsonValue::Str(s))),
            None => (),
        }
        match foreground_color {
            Some(f) => extra.push(("foregroundColor".to_owned(), JsonValue::Str(f))),
            None => (),
        }
        match color_id {
            Some(ci) => extra.push(("colorId".to_owned(), JsonValue::Str(ci))),
            None => (),
        }
        match conference_properties {
            Some(cp) => {
                let ghost cpv = cp@;
                let mut types_json: Vec<JsonValue> = Vec::new();
                let types = cp.allowed_conference_solution_types;
                let mut i: usize = 0;
                while i < types.len()
                    invariant
                        i <= types@.len(),
                        types_json@.len() == i,
                        forall|j: int|
                            0 <= j < i ==> #[trigger] types_json@[j] == JsonValue::Str(types@[j]),
                    decreases types@.len() - i,
                {
                    types_json.push(JsonValue::Str(types[i].clone()));
                    i = i + 1;
                }
                proof {
                    assert forall|j: int|
                        0 <= j < types_json@.len() implies types_json.deep_view()[j]
                        == JsonVal::Str(types@[j]@) by {
                        assert(types_json@[j] == JsonValue::Str(types@[j]));
                    }
                    assert(types_json.deep_view() =~= cpv.allowed_conference_solution_types
                        .map_values(|s: Seq<char>| JsonVal::Str(s)));
                    crate::json::lemma_arr_deep(types_json);
                }
                let mut cp_obj: Vec<(String, JsonValue)> = Vec::new();
                cp_obj.push((
                    "allowedConferenceSolutionTypes".to_owned(),
                    JsonValue::Arr(types_json),
                ));
                proof {
                    crate::json::lemma_obj_deep(cp_obj);
                    assert(JsonValue::Obj(cp_obj).deep() == conference_val(cpv)) by {
                        assert(cp_obj.deep_view() =~= conference_val(cpv)->Obj_0);
                    }
                }
                extra.push(("conferenceProperties".to_owned(), JsonValue::Obj(cp_obj)));
            },
            None => (),
        }
        extra.push(("deleted".to_owned(), JsonValue::Bool(match deleted {
            Some(b) => b,
            None => false,
        })));
        extra.push(("hidden".to_owned(), JsonValue::Bool(match hidden {
            Some(b) => b,
            None => false,
        })));
        extra.push(("selected".to_owned(), JsonValue::Bool(match selected {
            Some(b) => b,
            None => false,
        })));

        let mut reminders_json: Vec<JsonValue> = Vec::new();
        let mut i: usize = 0;
        while i < default_reminders.len()
            invariant
                i <= default_reminders@.len(),
                reminders_json@.len() == i,
                forall|j: int|
                    0 <= j < i ==> #[trigger] reminders_json@[j].deep() == reminder_val(
                        default_reminders@[j]@,
                    ),
            decreases default_reminders@.len() - i,
        {
            let mut r_obj: Vec<(String, JsonValue)> = Vec::new();
            r_obj.push(("method".to_owned(), JsonValue::Str(default_reminders[i].method.clone())));
            r_obj.push(("minutes".to_owned(), JsonValue::Int(default_reminders[i].minutes)));
            proof {
                crate::json::lemma_obj_deep(r_obj);
                assert(JsonValue::Obj(r_obj).deep() == reminder_val(default_reminders@[i as int]@))
                    by {
                    assert(r_obj.deep_view() =~= reminder_val(default_reminders@[i as int]@)->Obj_0);
                }
            }
            reminders_json.push(JsonValue::Obj(r_obj));
            i = i + 1;
        }
        proof {
            assert forall|j: int|
                0 <= j < reminders_json@.len() implies reminders_json.deep_view()[j]
                == reminder_val(itv.default_reminders[j]) by {
                assert(reminders_json@[j].deep() == reminder_val(default_reminders@[j]@));
            }
            assert(reminders_json.deep_view() =~= itv.default_reminders.map_values(
                |r: DefaultReminderView| reminder_val(r),
            ));
            crate::json::lemma_arr_deep(reminders_json);
        }
        extra.push(("defaultReminders".to_owned(), JsonValue::Arr(reminders_json)));

        let c = Calendar {
            id,
            name: summary,
            description,
            timezone: time_zone,
            color: background_color,
            access_role: access_role.as_string(),
            provider: Provider::Google,
            extra,
        };
        proof {
            assert(c@.extra =~= google_extra(itv));
            assert(c@ =~= google_to_unified(itv));
        }
        c
    }
}

/// Law: every conversion is provider-attributable — a Microsoft record
/// normalizes to a unified calendar tagged Microsoft, a Google entry to one
/// tagged Google. Totality is by type: both conversions are plain functions
/// of the payload, with no failing case.
pub proof fn lemma_conversion_provider(mc: CalendarRecordView, it: CalendarListItemView)
    ensures
        ms_to_unified(mc).provider == Provider::Microsoft,
        google_to_unified(it).provider == Provider::Google,
{
}

/// Law: conversion is idempotent — any two unified records obtained from
/// the same raw Microsoft payload are structurally equal.
pub proof fn lemma_ms_conversion_idempotent(first: Calendar, second: Calendar, mc:
    CalendarRecordView)
    requires
        first@ == ms_to_unified(mc),
        second@ == ms_to_unified(mc),
    ensures
        first@ == second@,
{
}

/// Law: conversion is idempotent — any two unified records obtained from
/// the same raw Google payload are structurally equal.
pub proof fn lemma_google_conversion_idempotent(first: Calendar, second: Calendar, it:
    CalendarListItemView)
    requires
        first@ == google_to_unified(it),
        second@ == google_to_unified(it),
    ensures
        first@ == second@,
{
}

/// Law: round-trip completeness for Microsoft. Every named field of a raw
/// Microsoft record appears on the converted record — `id`, `name`, `color`
/// and `canEdit` through the canonical fields, every other field as a key in
/// `extra` carrying its payload value. Nothing is dropped.
pub proof fn lemma_ms_round_trip(mc: CalendarRecordView)
    ensures
        ms_to_unified(mc).id == mc.id,
        ms_to_unified(mc).name == mc.name,
        mc.color != "auto"@ ==> ms_to_unified(mc).color == Some(mc.color),
        ms_to_unified(mc).access_role == if mc.can_edit {
            "owner"@
        } else {
            "reader"@
        },
        extra_has(ms_to_unified(mc).extra, "hexColor"@, JsonVal::Str(mc.hex_color)),
        extra_has(ms_to_unified(mc).extra, "groupClassId"@, JsonVal::Str(mc.group_class_id)),
        extra_has(
            ms_to_unified(mc).extra,
            "isDefaultCalendar"@,
            JsonVal::Bool(mc.is_default_calendar),
        ),
        extra_has(ms_to_unified(mc).extra, "changeKey"@, JsonVal::Str(mc.change_key)),
        extra_has(ms_to_unified(mc).extra, "canShare"@, JsonVal::Bool(mc.can_share)),
        extra_has(
            ms_to_unified(mc).extra,
            "canViewPrivateItems"@,
            JsonVal::Bool(mc.can_view_private_items),
        ),
        extra_has(
            ms_to_unified(mc).extra,
            "allowedOnlineMeetingProviders"@,
            JsonVal::Arr(
                mc.allowed_online_meeting_providers.map_values(|s: Seq<char>| JsonVal::Str(s)),
            ),
        ),
        extra_has(
            ms_to_unified(mc).extra,
            "defaultOnlineMeetingProvider"@,
            JsonVal::Str(mc.default_online_meeting_provider),
        ),
        extra_has(
            ms_to_unified(mc).extra,
            "isTallyingResponses"@,
            JsonVal::Bool(mc.is_tallying_responses),
        ),
        extra_has(ms_to_unified(mc).extra, "isRemovable"@, JsonVal::Bool(mc.is_removable)),
        extra_has(
            ms_to_unified(mc).extra,
            "owner"@,
            JsonVal::Obj(
                seq![
                    ("name"@, JsonVal::Str(mc.owner.name)),
                    ("address"@, JsonVal::Str(mc.owner.address)),
                ],
            ),
        ),
{
    let e = ms_extra(mc);
    assert(e[0] == ("hexColor"@, JsonVal::Str(mc.hex_color)));
    assert(e[1] == ("groupClassId"@, JsonVal::Str(mc.group_class_id)));
    assert(e[2] == ("isDefaultCalendar"@, JsonVal::Bool(mc.is_default_calendar)));
    assert(e[3] == ("changeKey"@, JsonVal::Str(mc.change_key)));
    assert(e[4] == ("canShare"@, JsonVal::Bool(mc.can_share)));
    assert(e[5] == ("canViewPrivateItems"@, JsonVal::Bool(mc.can_view_private_items)));
    assert(e[6] == (
        "allowedOnlineMeetingProviders"@,
        JsonVal::Arr(mc.allowed_online_meeting_providers.map_values(|s: Seq<char>| JsonVal::Str(s))),
    ));
    assert(e[7] == ("defaultOnlineMeetingProvider"@, JsonVal::Str(
        mc.default_online_meeting_provider,
    )));
    assert(e[8] == ("isTallyingResponses"@, JsonVal::Bool(mc.is_tallying_responses)));
    assert(e[9] == ("isRemovable"@, JsonVal::Bool(mc.is_removable)));
    assert(e[10] == (
        "owner"@,
        JsonVal::Obj(
            seq![
                ("name"@, JsonVal::Str(mc.owner.name)),
                ("address"@, JsonVal::Str(mc.owner.address)),
            ],
        ),
    ));
}

/// Law: round-trip completeness for Google. Every named field present on a
/// raw Google entry appears on the converted record — `id`, `summary`,
/// `description`, `timeZone`, `backgroundColor` and `accessRole` through the
/// canonical fields, every other field as a key in `extra` carrying its
/// payload value (the three flags appear even when absent, as false).
/// Nothing is dropped.
pub proof fn lemma_google_round_trip(it: CalendarListItemView)
    ensures
        google_to_unified(it).id == it.id,
        google_to_unified(it).name == it.summary,
        google_to_unified(it).description == it.description,
        google_to_unified(it).timezone == it.time_zone,
        google_to_unified(it).color == it.background_color,
        google_to_unified(it).access_role == it.access_role.text(),
        it.location matches Some(l) ==> extra_has(
            google_to_unified(it).extra,
            "location"@,
            JsonVal::Str(l),
        ),
        it.summary_override matches Some(s) ==> extra_has(
            google_to_unified(it).extra,
            "summaryOverride"@,
            JsonVal::Str(s),
        ),
        it.foreground_color matches Some(f) ==> extra_has(
            google_to_unified(it).extra,
            "foregroundColor"@,
            JsonVal::Str(f),
        ),
        it.color_id matches Some(ci) ==> extra_has(
            google_to_unified(it).extra,
            "colorId"@,
            JsonVal::Str(ci),
        ),
        it.conference_properties matches Some(cp) ==> extra_has(
            google_to_unified(it).extra,
            "conferenceProperties"@,
            conference_val(cp),
        ),
        extra_has(google_to_unified(it).extra, "deleted"@, JsonVal::Bool(it.deleted == Some(true))),
        extra_has(google_to_unified(it).extra, "hidden"@, JsonVal::Bool(it.hidden == Some(true))),
        extra_has(
            google_to_unified(it).extra,
            "selected"@,
            JsonVal::Bool(it.selected == Some(true)),
        ),
        extra_has(
            google_to_unified(it).extra,
            "defaultReminders"@,
            JsonVal::Arr(
                it.default_reminders.map_values(|r: DefaultReminderView| reminder_val(r)),
            ),
        ),
{
    let s1 = (match it.location {
        Some(l) => seq![("location"@, JsonVal::Str(l))],
        None => Seq::empty(),
    });
    let s2 = (match it.summary_override {
        Some(s) => seq![("summaryOverride"@, JsonVal::Str(s))],
        None => Seq::empty(),
    });
    let s3 = (match it.foreground_color {
        Some(f) => seq![("foregroundColor"@, JsonVal::Str(f))],
        None => Seq::empty(),
    });
    let s4 = (match it.color_id {
        Some(ci) => seq![("colorId"@, JsonVal::Str(ci))],
        None => Seq::empty(),
    });
    let s5 = (match it.conference_properties {
        Some(cp) => seq![("conferenceProperties"@, conference_val(cp))],
        None => Seq::empty(),
    });
    let s6 = seq![
        ("deleted"@, JsonVal::Bool(it.deleted == Some(true))),
        ("hidden"@, JsonVal::Bool(it.hidden == Some(true))),
        ("selected"@, JsonVal::Bool(it.selected == Some(true))),
        (
            "defaultReminders"@,
            JsonVal::Arr(it.default_reminders.map_values(|r: DefaultReminderView| reminder_val(r))),
        ),
    ];
    let e = google_extra(it);
    assert(e == s1 + s2 + s3 + s4 + s5 + s6);

    match it.location {
        Some(l) => {
            assert(s1[0] == ("location"@, JsonVal::Str(l)));
            lemma_extra_has_concat(s1, s2, "location"@, JsonVal::Str(l));
            lemma_extra_has_concat(s1 + s2, s3, "location"@, JsonVal::Str(l));
            lemma_extra_has_concat(s1 + s2 + s3, s4, "location"@, JsonVal::Str(l));
            lemma_extra_has_concat(s1 + s2 + s3 + s4, s5, "location"@, JsonVal::Str(l));
            lemma_extra_has_concat(s1 + s2 + s3 + s4 + s5, s6, "location"@, JsonVal::Str(l));
        },
        None => {},
    }
    match it.summary_override {
        Some(s) => {
            assert(s2[0] == ("summaryOverride"@, JsonVal::Str(s)));
            lemma_extra_has_concat(s1, s2, "summaryOverride"@, JsonVal::Str(s));
            lemma_extra_has_concat(s1 + s2, s3, "summaryOverride"@, JsonVal::Str(s));
            lemma_extra_has_concat(s1 + s2 + s3, s4, "summaryOverride"@, JsonVal::Str(s));
            lemma_extra_has_concat(s1 + s2 + s3 + s4, s5, "summaryOverride"@, JsonVal::Str(s));
            lemma_extra_has_concat(s1 + s2 + s3 + s4 + s5, s6, "summaryOverride"@, JsonVal::Str(s));
        },
        None => {},
    }
    match it.foreground_color {
        Some(f) => {
            assert(s3[0] == ("foregroundColor"@, JsonVal::Str(f)));
            lemma_extra_has_concat(s1 + s2, s3, "foregroundColor"@, JsonVal::Str(f));
            lemma_extra_has_concat(s1 + s2 + s3, s4, "foregroundColor"@, JsonVal::Str(f));
            lemma_extra_has_concat(s1 + s2 + s3 + s4, s5, "foregroundColor"@, JsonVal::Str(f));
            lemma_extra_has_concat(s1 + s2 + s3 + s4 + s5, s6, "foregroundColor"@, JsonVal::Str(f));
        },
        None => {},
    }
    match it.color_id {
        Some(ci) => {
            assert(s4[0] == ("colorId"@, JsonVal::Str(ci)));
            lemma_extra_has_concat(s1 + s2 + s3, s4, "colorId"@, JsonVal::Str(ci));
            lemma_extra_has_concat(s1 + s2 + s3 + s4, s5, "colorId"@, JsonVal::Str(ci));
            lemma_extra_has_concat(s1 + s2 + s3 + s4 + s5, s6, "colorId"@, JsonVal::Str(ci));
        },
        None => {},
    }
    match it.conference_properties {
        Some(cp) => {
            assert(s5[0] == ("conferenceProperties"@, conference_val(cp)));
            lemma_extra_has_concat(s1 + s2 + s3 + s4, s5, "conferenceProperties"@, conference_val(cp));
            lemma_extra_has_concat(
                s1 + s2 + s3 + s4 + s5,
                s6,
                "conferenceProperties"@,
                conference_val(cp),
            );
        },
        None => {},
    }
    assert(s6[0] == ("deleted"@, JsonVal::Bool(it.deleted == Some(true))));
    lemma_extra_has_concat(s1 + s2 + s3 + s4 + s5, s6, "deleted"@, JsonVal::Bool(
        it.deleted == Some(true),
    ));
    assert(s6[1] == ("hidden"@, JsonVal::Bool(it.hidden == Some(true))));
    lemma_extra_has_concat(s1 + s2 + s3 + s4 + s5, s6, "hidden"@, JsonVal::Bool(
        it.hidden == Some(true),
    ));
    assert(s6[2] == ("selected"@, JsonVal::Bool(it.selected == Some(true))));
    lemma_extra_has_concat(s1 + s2 + s3 + s4 + s5, s6, "selected"@, JsonVal::Bool(
        it.selected == Some(true),
    ));
    assert(s6[3] == (
        "defaultReminders"@,
        JsonVal::Arr(it.default_reminders.map_values(|r: DefaultReminderView| reminder_val(r))),
    ));
    lemma_extra_has_concat(s1 + s2 + s3 + s4 + s5, s6, "defaultReminders"@, JsonVal::Arr(
        it.default_reminders.map_values(|r: DefaultReminderView| reminder_val(r)),
    ));
}

} // verus!
