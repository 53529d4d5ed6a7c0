//! Provider service adapters, the factory that selects among them, and the
//! per-account fetch protocol.
//!
//! A fetch never blocks siblings: each account runs its own
//! [`FetchSession`], a state machine the host drives by performing the
//! returned [`FetchAction`] (a token call, a list call, a decode) and
//! handing back the answer as a [`FetchEvent`]. The machine settles in
//! [`FetchState::Done`] with that account's result.

pub mod google;
pub mod microsoft;

use vstd::prelude::*;

use crate::error::Error;
use crate::models::{Account, AccountView, Calendar, Provider};
use crate::services::google::GoogleCalendarService;
use crate::services::microsoft::{MicrosoftCalendarService, MicrosoftHttpResponse};

verus! {

/// A provider adapter bound to one account: one variant per supported
/// provider, each offering the same capability — fetch the full list of
/// calendars visible to the account.
#[derive(Debug)]
pub enum CalendarService {
    Google(GoogleCalendarService),
    Microsoft(MicrosoftCalendarService),
}

impl CalendarService {
    /// The account this adapter fetches for.
    pub open spec fn account(self) -> AccountView {
        match self {
            CalendarService::Google(g) => g.account@,
            CalendarService::Microsoft(m) => m.account@,
        }
    }

    /// Which provider this adapter speaks to.
    pub open spec fn provider(self) -> Provider {
        match self {
            CalendarService::Google(_) => Provider::Google,
            CalendarService::Microsoft(_) => Provider::Microsoft,
        }
    }
}

/// Resolves which provider adapter serves a given account.
pub struct CalendarServiceFactory;

impl CalendarServiceFactory {
    /// Pure dispatch on the account's provider tag, with the credentials the
    /// account service handed out: a Google account gets a Google adapter
    /// (its refresh token counting as present only if non-empty), a
    /// Microsoft account a Microsoft adapter built from the access token as
    /// bearer token. The match is exhaustive, so a provider added to the
    /// account model without a branch here is a compile-time error.
    pub fn get_service(account: &Account, access_token: String, refresh_token: String) -> (s:
        CalendarService)
        ensures
            s.account() == account@,
            s.provider() == account@.provider,
            (s matches CalendarService::Google(g) ==> g.token@.access == access_token@
                && g.token@.refresh == if refresh_token@.len() == 0 {
                Option::<Seq<char>>::None
            } else {
                Option::<Seq<char>>::Some(refresh_token@)
            }),
            (s matches CalendarService::Microsoft(m) ==> m.bearer_token@ == access_token@),
    {
        match account.provider {
            Provider::Google => CalendarService::Google(
                GoogleCalendarService::new(account.clone(), access_token, refresh_token),
            ),
            Provider::Microsoft => CalendarService::Microsoft(
                MicrosoftCalendarService::new(account.clone(), access_token),
            ),
        }
    }
}

/// Where one account's fetch protocol stands.
#[derive(Debug)]
pub enum FetchState {
    /// Awaiting a fresh access token from the account service.
    RefreshingToken,
    /// Token refreshed; awaiting the provider's list answer.
    Listing,
    /// Microsoft only: the list call answered 200; awaiting the decoded
    /// envelope.
    Decoding,
    /// Settled: this account's result, ready to merge or report.
    Done(Result<Vec<Calendar>, Error>),
}

/// What the host must perform next for the session; the answer comes back as
/// the matching [`FetchEvent`].
#[derive(Debug)]
pub enum FetchAction {
    /// Ask the account service for a fresh access token for this account.
    GetAccessToken,
    /// Call the Google calendar list endpoint with the adapter's current
    /// token; `include_deleted` says whether deleted entries are requested.
    ListGoogleCalendars { include_deleted: bool },
    /// Send the Microsoft "list calendars" request with the adapter's
    /// current bearer token.
    SendMicrosoftRequest,
    /// Decode `body` as a Microsoft calendars envelope.
    DecodeMicrosoftBody { body: String },
    /// Nothing further: the session has settled.
    Report,
}

/// What the outside world answered to the previous action.
#[derive(Debug)]
pub enum FetchEvent {
    /// The account service's answer to the token refresh.
    Token(Result<String, Error>),
    /// The Google list call's answer.
    GoogleItems(Result<Vec<google::CalendarListItem>, Error>),
    /// The Microsoft list call's answer.
    MicrosoftResponse(Result<MicrosoftHttpResponse, Error>),
    /// The decoded Microsoft envelope, or nothing if the body was malformed.
    MicrosoftDecoded(Option<microsoft::models::CalendarsResponse>),
}

/// The diagnostic text a malformed Microsoft body is reported under.
pub open spec fn decode_error_text() -> Seq<char> {
    "Malformed calendars payload"@
}

/// One account's fetch, from mandatory token refresh to settled result.
#[derive(Debug)]
pub struct FetchSession {
    pub service: CalendarService,
    pub state: FetchState,
}

/// How one protocol step relates the session before and after consuming
/// `event`, and the action it asks of the host. This is the full transition
/// relation: the token answer decides between listing and failing; the list
/// answer converts (Google), or is vetted for status 200 and handed on for
/// decoding (Microsoft); the decoded envelope converts; every error settles
/// the session with exactly that error.
pub open spec fn step_spec(
    pre: FetchSession,
    event: FetchEvent,
    post: FetchSession,
    action: FetchAction,
) -> bool {
    match (pre.state, event) {
        (FetchState::RefreshingToken, FetchEvent::Token(answer)) => match answer {
            Ok(token) => {
                &&& post.state is Listing
                &&& match pre.service {
                    CalendarService::Google(g) => {
                        &&& post.service matches CalendarService::Google(g2) && g2.account
                            == g.account && g2.token@.access == token@ && g2.token@.refresh is None
                        &&& action == (FetchAction::ListGoogleCalendars { include_deleted: false })
                    },
                    CalendarService::Microsoft(m) => {
                        &&& post.service matches CalendarService::Microsoft(m2) && m2.account
                            == m.account && m2.bearer_token@ == token@
                        &&& action == FetchAction::SendMicrosoftRequest
                    },
                }
            },
            Err(e) => {
                &&& post.service == pre.service
                &&& post.state == FetchState::Done(Err::<Vec<Calendar>, Error>(e))
                &&& action == FetchAction::Report
            },
        },
        (FetchState::Listing, FetchEvent::GoogleItems(answer)) => {
            &&& pre.service is Google
            &&& post.service == pre.service
            &&& action == FetchAction::Report
            &&& match answer {
                Ok(items) => post.state matches FetchState::Done(res) && res matches Ok(cals)
                    && cals.deep_view() == google::google_converted(items@),
                Err(e) => post.state == FetchState::Done(Err::<Vec<Calendar>, Error>(e)),
            }
        },
        (FetchState::Listing, FetchEvent::MicrosoftResponse(answer)) => {
            &&& pre.service is Microsoft
            &&& post.service == pre.service
            &&& match answer {
                Ok(resp) => {
                    if resp.status == 200 {
                        &&& post.state is Decoding
                        &&& action matches FetchAction::DecodeMicrosoftBody { body } && body@
                            == resp.body@
                    } else {
                        &&& post.state matches FetchState::Done(res) && res matches Err(e)
                            && e matches Error::RemoteApi(m) && m@ == microsoft::ms_error_prefix()
                            + resp.body@
                        &&& action == FetchAction::Report
                    }
                },
                Err(e) => {
                    &&& post.state == FetchState::Done(Err::<Vec<Calendar>, Error>(e))
                    &&& action == FetchAction::Report
                },
            }
        },
        (FetchState::Decoding, FetchEvent::MicrosoftDecoded(decoded)) => {
            &&& pre.service is Microsoft
            &&& post.service == pre.service
            &&& action == FetchAction::Report
            &&& match decoded {
                Some(envelope) => post.state matches FetchState::Done(res) && res matches Ok(cals)
                    && cals.deep_view() == microsoft::ms_converted(envelope@.value),
                None => post.state matches FetchState::Done(res) && res matches Err(e)
                    && e matches Error::PayloadDecode(m) && m@ == decode_error_text(),
            }
        },
        _ => false,
    }
}

impl FetchSession {
    /// Which events the session can consume where it stands: the answer to
    /// the action the previous step asked for.
    pub open spec fn expects(self, event: FetchEvent) -> bool {
        match (self.state, event) {
            (FetchState::RefreshingToken, FetchEvent::Token(_)) => true,
            (FetchState::Listing, FetchEvent::GoogleItems(_)) => self.service is Google,
            (FetchState::Listing, FetchEvent::MicrosoftResponse(_)) => self.service is Microsoft,
            (FetchState::Decoding, FetchEvent::MicrosoftDecoded(_)) => self.service is Microsoft,
            _ => false,
        }
    }

    /// Opens the fetch protocol for one adapter. The first action is always
    /// the token refresh: no list call can precede it.
    pub fn begin(service: CalendarService) -> (r: (FetchSession, FetchAction))
        ensures
            r.0.service == service,
            r.0.state is RefreshingToken,
            r.1 == FetchAction::GetAccessToken,
    {
        (FetchSession { service, state: FetchState::RefreshingToken }, FetchAction::GetAccessToken)
    }

    /// Consumes the answer to the previous action and moves the protocol
    /// forward, per [`step_spec`].
    pub fn step(self, event: FetchEvent) -> (r: (FetchSession, FetchAction))
        requires
            self.expects(event),
        ensures
            step_spec(self, event, r.0, r.1),
    {
        let FetchSession { service, state } = self;
        match (state, event) {
            (FetchState::RefreshingToken, FetchEvent::Token(answer)) => match answer {
                Ok(token) => match service {
                    CalendarService::Google(mut g) => {
                        g.refresh_access_token(token);
                        (
                            FetchSession {
                                service: CalendarService::Google(g),
                                state: FetchState::Listing,
                            },
                            FetchAction::ListGoogleCalendars { include_deleted: false },
                        )
                    },
                    CalendarService::Microsoft(mut m) => {
                        m.refresh_access_token(token);
                        (
                            FetchSession {
                                service: CalendarService::Microsoft(m),
                                state: FetchState::Listing,
                            },
                            FetchAction::SendMicrosoftRequest,
                        )
                    },
                },
                Err(e) => (
                    FetchSession { service, state: FetchState::Done(Err(e)) },
                    FetchAction::Report,
                ),
            },
            (FetchState::Listing, FetchEvent::GoogleItems(answer)) => match answer {
                Ok(items) => {
                    let cals = google::convert_items(items);
                    (
                        FetchSession { service, state: FetchState::Done(Ok(cals)) },
                        FetchAction::Report,
                    )
                },
                Err(e) => (
                    FetchSession { service, state: FetchState::Done(Err(e)) },
                    FetchAction::Report,
                ),
            },
            (FetchState::Listing, FetchEvent::MicrosoftResponse(answer)) => match answer {
                Ok(resp) => match microsoft::response_outcome(resp) {
                    Ok(body) => (
                        FetchSession { service, state: FetchState::Decoding },
                        FetchAction::DecodeMicrosoftBody { body },
                    ),
                    Err(e) => (
                        FetchSession { service, state: FetchState::Done(Err(e)) },
                        FetchAction::Report,
                    ),
                },
                Err(e) => (
                    FetchSession { service, state: FetchState::Done(Err(e)) },
                    FetchAction::Report,
                ),
            },
            (FetchState::Decoding, FetchEvent::MicrosoftDecoded(decoded)) => match decoded {
                Some(envelope) => {
                    let cals = microsoft::convert_response(envelope);
                    (
                        FetchSession { service, state: FetchState::Done(Ok(cals)) },
                        FetchAction::Report,
                    )
                },
                None => (
                    FetchSession {
                        service,
                        state: FetchState::Done(
                            Err(Error::PayloadDecode("Malformed calendars payload".to_owned())),
                        ),
                    },
                    FetchAction::Report,
                ),
            },
            _ => vstd::pervasive::unreached(),
        }
    }
}

/// Law: within one account's fetch, the token refresh strictly precedes the
/// provider list call — a protocol step asks for a list call only when it
/// consumed a successful token answer in the refreshing state.
pub proof fn lemma_refresh_precedes_list(
    pre: FetchSession,
    event: FetchEvent,
    post: FetchSession,
    action: FetchAction,
)
    requires
        step_spec(pre, event, post, action),
        action is ListGoogleCalendars || action is SendMicrosoftRequest,
    ensures
        pre.state is RefreshingToken,
        event matches FetchEvent::Token(answer) && answer is Ok,
{
}

} // verus!
