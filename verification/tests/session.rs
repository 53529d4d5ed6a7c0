use calendar_core::error::Error;
use calendar_core::models::{Account, Provider};
use calendar_core::services::google::{AccessRole, CalendarListItem};
use calendar_core::services::microsoft::models::{
    Calendar as MsCalendar, CalendarsResponse, Owner,
};
use calendar_core::services::microsoft::MicrosoftHttpResponse;
use calendar_core::services::{
    CalendarService, CalendarServiceFactory, FetchAction, FetchEvent, FetchSession, FetchState,
};

fn account(id: &str, provider: Provider) -> Account {
    Account { id: id.to_string(), username: format!("user-{id}"), provider }
}

fn google_item(id: &str, summary: &str) -> CalendarListItem {
    CalendarListItem {
        id: id.to_string(),
        summary: summary.to_string(),
        description: None,
        time_zone: None,
        background_color: None,
        foreground_color: None,
        access_role: AccessRole::Owner,
        color_id: None,
        location: None,
        summary_override: None,
        conference_properties: None,
        deleted: None,
        hidden: None,
        selected: None,
        default_reminders: vec![],
    }
}

fn ms_record(id: &str, name: &str) -> MsCalendar {
    MsCalendar {
        id: id.to_string(),
        name: name.to_string(),
        color: "auto".to_string(),
        hex_color: "".to_string(),
        group_class_id: "".to_string(),
        is_default_calendar: false,
        change_key: "".to_string(),
        can_share: false,
        can_view_private_items: false,
        can_edit: false,
        allowed_online_meeting_providers: vec![],
        default_online_meeting_provider: "".to_string(),
        is_tallying_responses: false,
        is_removable: true,
        owner: Owner { name: "".to_string(), address: "".to_string() },
    }
}

#[test]
fn factory_dispatches_on_provider_tag() {
    let google = CalendarServiceFactory::get_service(
        &account("g", Provider::Google),
        "access-g".to_string(),
        "refresh-g".to_string(),
    );
    match google {
        CalendarService::Google(s) => {
            assert_eq!(s.account.id, "g");
            assert_eq!(s.token.access, "access-g");
            assert_eq!(s.token.refresh, Some("refresh-g".to_string()));
        },
        CalendarService::Microsoft(_) => panic!("google account got a microsoft adapter"),
    }

    let microsoft = CalendarServiceFactory::get_service(
        &account("m", Provider::Microsoft),
        "access-m".to_string(),
        "".to_string(),
    );
    match microsoft {
        CalendarService::Microsoft(s) => {
            assert_eq!(s.account.id, "m");
            assert_eq!(s.bearer_token, "access-m");
        },
        CalendarService::Google(_) => panic!("microsoft account got a google adapter"),
    }
}

#[test]
fn empty_refresh_token_counts_as_absent() {
    let service = CalendarServiceFactory::get_service(
        &account("g", Provider::Google),
        "access".to_string(),
        "".to_string(),
    );
    match service {
        CalendarService::Google(s) => assert_eq!(s.token.refresh, None),
        CalendarService::Microsoft(_) => panic!("wrong adapter"),
    }
}

#[test]
fn refresh_rebuilds_google_client_without_refresh_token() {
    let mut service = calendar_core::services::google::GoogleCalendarService::new(
        account("g", Provider::Google),
        "old-access".to_string(),
        "refresh".to_string(),
    );
    service.refresh_access_token("new-access".to_string());
    assert_eq!(service.token.access, "new-access");
    assert_eq!(service.token.refresh, None);
}

#[test]
fn google_session_refresh_precedes_list() {
    let service = CalendarServiceFactory::get_service(
        &account("g", Provider::Google),
        "stale".to_string(),
        "".to_string(),
    );
    let (session, action) = FetchSession::begin(service);
    assert!(matches!(action, FetchAction::GetAccessToken));
    assert!(matches!(session.state, FetchState::RefreshingToken));

    let (session, action) = session.step(FetchEvent::Token(Ok("fresh".to_string())));
    match &action {
        FetchAction::ListGoogleCalendars { include_deleted } => assert!(!*include_deleted),
        other => panic!("expected a google list call, got {other:?}"),
    }
    match &session.service {
        CalendarService::Google(s) => {
            assert_eq!(s.token.access, "fresh");
            assert_eq!(s.token.refresh, None);
        },
        CalendarService::Microsoft(_) => panic!("adapter changed provider"),
    }

    let items = vec![google_item("cal-1", "Personal"), google_item("cal-2", "Team")];
    let (session, action) = session.step(FetchEvent::GoogleItems(Ok(items)));
    assert!(matches!(action, FetchAction::Report));
    match session.state {
        FetchState::Done(Ok(cals)) => {
            assert_eq!(cals.len(), 2);
            assert_eq!(cals[0].id, "cal-1");
            assert_eq!(cals[0].name, "Personal");
            assert_eq!(cals[0].provider, Provider::Google);
            assert_eq!(cals[1].id, "cal-2");
        },
        other => panic!("expected a settled success, got {other:?}"),
    }
}

#[test]
fn token_failure_settles_the_session() {
    let service = CalendarServiceFactory::get_service(
        &account("g", Provider::Google),
        "stale".to_string(),
        "".to_string(),
    );
    let (session, _) = FetchSession::begin(service);
    let failure = Error::AccountService("no session bus".to_string());
    let (session, action) = session.step(FetchEvent::Token(Err(failure.clone())));
    assert!(matches!(action, FetchAction::Report));
    match session.state {
        FetchState::Done(Err(e)) => assert_eq!(e, failure),
        other => panic!("expected a settled failure, got {other:?}"),
    }
}

#[test]
fn microsoft_session_fetches_and_converts() {
    let service = CalendarServiceFactory::get_service(
        &account("m", Provider::Microsoft),
        "stale".to_string(),
        "".to_string(),
    );
    let (session, _) = FetchSession::begin(service);
    let (session, action) = session.step(FetchEvent::Token(Ok("fresh".to_string())));
    assert!(matches!(action, FetchAction::SendMicrosoftRequest));
    match &session.service {
        CalendarService::Microsoft(s) => assert_eq!(s.bearer_token, "fresh"),
        CalendarService::Google(_) => panic!("adapter changed provider"),
    }

    let response = MicrosoftHttpResponse { status: 200, body: "{...}".to_string() };
    let (session, action) = session.step(FetchEvent::MicrosoftResponse(Ok(response)));
    match &action {
        FetchAction::DecodeMicrosoftBody { body } => assert_eq!(body.as_str(), "{...}"),
        other => panic!("expected a decode request, got {other:?}"),
    }
    assert!(matches!(session.state, FetchState::Decoding));

    let envelope = CalendarsResponse {
        odata_context: "https://graph.microsoft.com/v1.0/$metadata#me/calendars".to_string(),
        value: vec![ms_record("ms-1", "Calendar")],
    };
    let (session, action) = session.step(FetchEvent::MicrosoftDecoded(Some(envelope)));
    assert!(matches!(action, FetchAction::Report));
    match session.state {
        FetchState::Done(Ok(cals)) => {
            assert_eq!(cals.len(), 1);
            assert_eq!(cals[0].id, "ms-1");
            assert_eq!(cals[0].name, "Calendar");
            assert_eq!(cals[0].color, None);
            assert_eq!(cals[0].access_role, "reader");
            assert_eq!(cals[0].provider, Provider::Microsoft);
        },
        other => panic!("expected a settled success, got {other:?}"),
    }
}

#[test]
fn microsoft_non_200_fails_with_remote_api_error() {
    let service = CalendarServiceFactory::get_service(
        &account("m", Provider::Microsoft),
        "stale".to_string(),
        "".to_string(),
    );
    let (session, _) = FetchSession::begin(service);
    let (session, _) = session.step(FetchEvent::Token(Ok("fresh".to_string())));
    let response = MicrosoftHttpResponse { status: 403, body: "forbidden".to_string() };
    let (session, action) = session.step(FetchEvent::MicrosoftResponse(Ok(response)));
    assert!(matches!(action, FetchAction::Report));
    match session.state {
        FetchState::Done(Err(Error::RemoteApi(message))) => {
            assert!(message.contains("forbidden"));
            assert_eq!(message, "Failed to fetch calendars: forbidden");
        },
        other => panic!("expected a remote-API failure, got {other:?}"),
    }
}

#[test]
fn microsoft_malformed_body_fails_with_decode_error() {
    let service = CalendarServiceFactory::get_service(
        &account("m", Provider::Microsoft),
        "stale".to_string(),
        "".to_string(),
    );
    let (session, _) = FetchSession::begin(service);
    let (session, _) = session.step(FetchEvent::Token(Ok("fresh".to_string())));
    let response = MicrosoftHttpResponse { status: 200, body: "not json".to_string() };
    let (session, _) = session.step(FetchEvent::MicrosoftResponse(Ok(response)));
    let (session, action) = session.step(FetchEvent::MicrosoftDecoded(None));
    assert!(matches!(action, FetchAction::Report));
    assert!(matches!(session.state, FetchState::Done(Err(Error::PayloadDecode(_)))));
}

#[test]
fn microsoft_transport_failure_settles_the_session() {
    let service = CalendarServiceFactory::get_service(
        &account("m", Provider::Microsoft),
        "stale".to_string(),
        "".to_string(),
    );
    let (session, _) = FetchSession::begin(service);
    let (session, _) = session.step(FetchEvent::Token(Ok("fresh".to_string())));
    let failure = Error::RemoteHttp("connection reset".to_string());
    let (session, action) = session.step(FetchEvent::MicrosoftResponse(Err(failure.clone())));
    assert!(matches!(action, FetchAction::Report));
    match session.state {
        FetchState::Done(Err(e)) => assert_eq!(e, failure),
        other => panic!("expected a settled failure, got {other:?}"),
    }
}

#[test]
fn error_message_surfaces_the_diagnostic() {
    let e = Error::Unknown("something odd".to_string());
    assert_eq!(e.message(), "something odd");
    let e = Error::DateRange("month out of range".to_string());
    assert_eq!(e.message(), "month out of range");
}
