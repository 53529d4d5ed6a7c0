//! The Microsoft provider adapter.
//!
//! Holds the account and the bearer token its Graph client is built from.
//! Before every fetch the token is re-derived from the account service and
//! the client rebuilt with it. The "list calendars" call answers with an
//! HTTP status and a body: any status other than 200 fails with a
//! remote-API error carrying the body text; a 200 body decodes into a
//! [`models::CalendarsResponse`] envelope whose records normalize into
//! unified calendars.

use vstd::prelude::*;

use crate::error::Error;
use crate::models::Account;

pub mod models;

verus! {

/// The Microsoft provider adapter: the account it fetches for and the bearer
/// token its Graph client is currently built from.
#[derive(Debug)]
pub struct MicrosoftCalendarService {
    pub account: Account,
    pub bearer_token: String,
}

impl MicrosoftCalendarService {
    /// Builds the adapter from the access token the account service handed
    /// out.
    pub fn new(account: Account, access_token: String) -> (s: MicrosoftCalendarService)
        ensures
            s.account@ == account@,
            s.bearer_token@ == access_token@,
    {
        MicrosoftCalendarService { account, bearer_token: access_token }
    }

    /// The mandatory refresh before every fetch: rebuilds the Graph client
    /// from a freshly derived access token.
    pub fn refresh_access_token(&mut self, access_token: String)
        ensures
            final(self).account == old(self).account,
            final(self).bearer_token@ == access_token@,
    {
        self.bearer_token = access_token;
    }
}

/// What the Microsoft "list calendars" HTTP call answered: the status code
/// and the raw body text.
#[derive(Debug)]
pub struct MicrosoftHttpResponse {
    pub status: u16,
    pub body: String,
}

/// The diagnostic prefix a non-success Microsoft response is reported under.
pub open spec fn ms_error_prefix() -> Seq<char> {
    "Failed to fetch calendars: "@
}

/// Decides what a Microsoft "list calendars" response means: status 200
/// hands the body on for decoding; any other status fails with a remote-API
/// error whose message carries the response body text.
pub fn response_outcome(response: MicrosoftHttpResponse) -> (r: Result<String, Error>)
    ensures
        response.status == 200 <==> r is Ok,
        response.status == 200 ==> (r matches Ok(body) && body@ == response.body@),
        response.status != 200 ==> (r matches Err(e) && e matches Error::RemoteApi(m) && m@
            == ms_error_prefix() + response.body@),
{
    if response.status == 200 {
        Ok(response.body)
    } else {
        let mut message = "Failed to fetch calendars: ".to_owned();
        message.append(response.body.as_str());
        Err(Error::RemoteApi(message))
    }
}

/// What a list of raw Microsoft records normalizes to, record for record.
pub open spec fn ms_converted(records: Seq<models::CalendarRecordView>) -> Seq<
    crate::models::CalendarView,
> {
    records.map_values(|mc: models::CalendarRecordView| crate::models::ms_to_unified(mc))
}

/// Normalizes every record of a decoded Microsoft envelope, in order.
pub fn convert_response(response: models::CalendarsResponse) -> (cals: Vec<crate::models::Calendar>)
    ensures
        cals.deep_view() == ms_converted(response@.value),
{
    let ghost orig = response@.value;
    let mut records = response.value;
    proof {
        assert forall|j: int| 0 <= j < records@.len() implies #[trigger] records@[j]@
            == orig[j] by {
        }
    }
    let mut cals: Vec<crate::models::Calendar> = Vec::new();
    while records.len() > 0
        invariant
            cals@.len() + records@.len() == orig.len(),
            forall|j: int|
                0 <= j < records@.len() ==> #[trigger] records@[j]@ == orig[cals@.len() + j],
            forall|i: int|
                0 <= i < cals@.len() ==> #[trigger] cals@[i]@ == crate::models::ms_to_unified(
                    orig[i],
                ),
        decreases records@.len(),
    {
        let record = records.remove(0);
        cals.push(crate::models::Calendar::from_microsoft(record));
    }
    proof {
        assert forall|i: int| 0 <= i < cals@.len() implies cals.deep_view()[i] == ms_converted(
            orig,
        )[i] by {
            assert(cals@[i]@ == crate::models::ms_to_unified(orig[i]));
        }
        assert(cals.deep_view() =~= ms_converted(orig));
    }
    cals
}

} // verus!
