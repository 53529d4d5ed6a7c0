//! The Google provider adapter.
//!
//! Holds the account and the token pair its provider client is built from.
//! Before every fetch the access token is re-derived from the account
//! service and the client is rebuilt with it: tokens are assumed to expire
//! and the account service is the source of truth.

use vstd::prelude::*;

use crate::models::Account;

verus! {

/// The access role a Google calendar list entry grants, in the provider's
/// own vocabulary.
#[derive(Debug, Clone, Copy, PartialEq, Eq, Structural)]
pub enum AccessRole {
    Owner,
    Writer,
    Reader,
    FreeBusyReader,
}

impl AccessRole {
    /// The provider's wire name for this role.
    pub open spec fn text(self) -> Seq<char> {
        match self {
            AccessRole::Owner => "owner"@,
            AccessRole::Writer => "writer"@,
            AccessRole::Reader => "reader"@,
            AccessRole::FreeBusyReader => "freeBusyReader"@,
        }
    }

    /// Renders the provider's wire name for this role.
    pub fn as_string(&self) -> (s: String)
        ensures
            s@ == self.text(),
    {
        match self {
            AccessRole::Owner => "owner".to_owned(),
            AccessRole::Writer => "writer".to_owned(),
            AccessRole::Reader => "reader".to_owned(),
            AccessRole::FreeBusyReader => "freeBusyReader".to_owned(),
        }
    }
}

/// The token pair a Google provider client is built from.
#[derive(Debug)]
pub struct GoogleToken {
    /// The OAuth access token, as handed out by the account service.
    pub access: String,
    /// The refresh token, treated as present only when non-empty.
    pub refresh: Option<String>,
}

/// The mathematical content of a [`GoogleToken`].
#[verifier::ext_equal]
pub struct GoogleTokenView {
    pub access: Seq<char>,
    pub refresh: Option<Seq<char>>,
}

impl View for GoogleToken {
    type V = GoogleTokenView;

    open spec fn view(&self) -> GoogleTokenView {
        GoogleTokenView { access: self.access@, refresh: self.refresh.deep_view() }
    }
}

/// The Google provider adapter: the account it fetches for and the token its
/// provider client is currently built from.
#[derive(Debug)]
pub struct GoogleCalendarService {
    pub account: Account,
    pub token: GoogleToken,
}

impl GoogleCalendarService {
    /// Builds the adapter from the credentials the account service handed
    /// out: the refresh token counts as present only if non-empty.
    pub fn new(account: Account, access_token: String, refresh_token: String) -> (s:
        GoogleCalendarService)
        ensures
            s.account@ == account@,
            s.token@.access == access_token@,
            s.token@.refresh == if refresh_token@.len() == 0 {
                Option::<Seq<char>>::None
            } else {
                Option::<Seq<char>>::Some(refresh_token@)
            },
    {
        let refresh = if refresh_token.as_str().is_empty() {
            None
        } else {
            Some(refresh_token)
        };
        GoogleCalendarService { account, token: GoogleToken { access: access_token, refresh } }
    }

    /// The mandatory refresh before every fetch: rebuilds the provider
    /// client from a freshly derived access token alone.
    pub fn refresh_access_token(&mut self, access_token: String)
        ensures
            final(self).account == old(self).account,
            final(self).token@.access == access_token@,
            final(self).token@.refresh is None,
    {
        self.token = GoogleToken { access: access_token, refresh: None };
    }
}

/// What a list of raw Google entries normalizes to, entry for entry.
pub open spec fn google_converted(items: Seq<CalendarListItem>) -> Seq<
    crate::models::CalendarView,
> {
    items.map_values(|it: CalendarListItem| crate::models::google_to_unified(it@))
}

/// Normalizes every entry of a Google calendar list, in order.
pub fn convert_items(items: Vec<CalendarListItem>) -> (cals: Vec<crate::models::Calendar>)
    ensures
        cals.deep_view() == google_converted(items@),
{
    let ghost orig = items@;
    let mut items = items;
    let mut cals: Vec<crate::models::Calendar> = Vec::new();
    while items.len() > 0
        invariant
            cals@.len() + items@.len() == orig.len(),
            forall|j: int|
                0 <= j < items@.len() ==> #[trigger] items@[j] == orig[cals@.len() + j],
            forall|i: int|
                0 <= i < cals@.len() ==> #[trigger] cals@[i]@ == crate::models::google_to_unified(
                    orig[i]@,
                ),
        decreases items@.len(),
    {
        let item = items.remove(0);
        cals.push(crate::models::Calendar::from_google(item));
    }
    proof {
        assert forall|i: int| 0 <= i < cals@.len() implies cals.deep_view()[i] == google_converted(
            orig,
        )[i] by {
            assert(cals@[i]@ == crate::models::google_to_unified(orig[i]@));
        }
        assert(cals.deep_view() =~= google_converted(orig));
    }
    cals
}

/// A default reminder attached to a Google calendar list entry.
#[derive(Debug, PartialEq, Eq)]
pub struct DefaultReminder {
    pub method: String,
    pub minutes: i64,
}

/// The mathematical content of a [`DefaultReminder`].
#[verifier::ext_equal]
pub struct DefaultReminderView {
    pub method: Seq<char>,
    pub minutes: int,
}

impl View for DefaultReminder {
    type V = DefaultReminderView;

    open spec fn view(&self) -> DefaultReminderView {
        DefaultReminderView { method: self.method@, minutes: self.minutes as int }
    }
}

/// The conference properties block of a Google calendar list entry.
#[derive(Debug, PartialEq, Eq)]
pub struct ConferenceProperties {
    pub allowed_conference_solution_types: Vec<String>,
}

/// The mathematical content of a [`ConferenceProperties`].
#[verifier::ext_equal]
pub struct ConferencePropertiesView {
    pub allowed_conference_solution_types: Seq<Seq<char>>,
}

impl View for ConferenceProperties {
    type V = ConferencePropertiesView;

    open spec fn view(&self) -> ConferencePropertiesView {
        ConferencePropertiesView {
            allowed_conference_solution_types:
                self.allowed_conference_solution_types.deep_view(),
        }
    }
}

/// One raw entry of the Google calendar list, field for field.
#[derive(Debug, PartialEq, Eq)]
pub struct CalendarListItem {
    pub id: String,
    pub summary: String,
    pub description: Option<String>,
    pub time_zone: Option<String>,
    pub background_color: Option<String>,
    pub foreground_color: Option<String>,
    pub access_role: AccessRole,
    pub color_id: Option<String>,
    pub location: Option<String>,
    pub summary_override: Option<String>,
    pub conference_properties: Option<ConferenceProperties>,
    pub deleted: Option<bool>,
    pub hidden: Option<bool>,
    pub selected: Option<bool>,
    pub default_reminders: Vec<DefaultReminder>,
}

/// The mathematical content of a [`CalendarListItem`].
#[verifier::ext_equal]
pub struct CalendarListItemView {
    pub id: Seq<char>,
    pub summary: Seq<char>,
    pub description: Option<Seq<char>>,
    pub time_zone: Option<Seq<char>>,
    pub background_color: Option<Seq<char>>,
    pub foreground_color: Option<Seq<char>>,
    pub access_role: AccessRole,
    pub color_id: Option<Seq<char>>,
    pub location: Option<Seq<char>>,
    pub summary_override: Option<Seq<char>>,
    pub conference_properties: Option<ConferencePropertiesView>,
    pub deleted: Option<bool>,
    pub hidden: Option<bool>,
    pub selected: Option<bool>,
    pub default_reminders: Seq<DefaultReminderView>,
}

impl View for CalendarListItem {
    type V = CalendarListItemView;

    open spec fn view(&self) -> CalendarListItemView {
        CalendarListItemView {
            id: self.id@,
            summary: self.summary@,
            description: self.description.deep_view(),
            time_zone: self.time_zone.deep_view(),
            background_color: self.background_color.deep_view(),
            foreground_color: self.foreground_color.deep_view(),
            access_role: self.access_role,
            color_id: self.color_id.deep_view(),
            location: self.location.deep_view(),
            summary_override: self.summary_override.deep_view(),
            conference_properties: match self.conference_properties {
                Some(cp) => Some(cp@),
                None => None,
            },
            deleted: self.deleted,
            hidden: self.hidden,
            selected: self.selected,
            default_reminders: Seq::new(
                self.default_reminders@.len(),
                |i: int| self.default_reminders@[i]@,
            ),
        }
    }
}

} // verus!
