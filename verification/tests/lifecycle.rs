use calendar_core::error::Error;
use calendar_core::lifecycle::{LifecycleManager, LifecyclePhase};
use calendar_core::models::{Account, Calendar, Provider};

fn account(id: &str, provider: Provider) -> Account {
    Account { id: id.to_string(), username: format!("user-{id}"), provider }
}

fn calendar(id: &str, name: &str, provider: Provider) -> Calendar {
    Calendar {
        id: id.to_string(),
        name: name.to_string(),
        description: None,
        timezone: None,
        color: None,
        access_role: "reader".to_string(),
        provider,
        extra: vec![],
    }
}

#[test]
fn client_failure_degrades_silently() {
    let mut manager = LifecycleManager::new();
    let list = manager.on_client_constructed(false);
    assert!(!list);
    assert_eq!(manager.phase, LifecyclePhase::NoClient);
    assert!(manager.accounts.is_empty());
    assert_eq!(manager.store.len(), 0);
}

#[test]
fn client_success_moves_to_ready() {
    let mut manager = LifecycleManager::new();
    let list = manager.on_client_constructed(true);
    assert!(list);
    assert_eq!(manager.phase, LifecyclePhase::ClientReady);
}

#[test]
fn listing_failure_keeps_account_set_empty() {
    let mut manager = LifecycleManager::new();
    manager.on_client_constructed(true);
    manager.on_accounts_listed(Err(Error::AccountService("service unavailable".to_string())));
    assert_eq!(manager.phase, LifecyclePhase::ClientReady);
    assert!(manager.accounts.is_empty());
    assert_eq!(manager.store.len(), 0);
}

#[test]
fn listing_installs_accounts_in_order() {
    let mut manager = LifecycleManager::new();
    manager.on_client_constructed(true);
    let accounts = vec![account("a", Provider::Google), account("b", Provider::Microsoft)];
    manager.on_accounts_listed(Ok(accounts.clone()));
    assert_eq!(manager.phase, LifecyclePhase::AccountsListed);
    assert_eq!(manager.accounts, accounts);
}

#[test]
fn fan_out_requests_one_fetch_per_account() {
    let mut manager = LifecycleManager::new();
    manager.on_client_constructed(true);
    let accounts = vec![
        account("a", Provider::Google),
        account("b", Provider::Microsoft),
        account("c", Provider::Google),
    ];
    manager.on_accounts_listed(Ok(accounts.clone()));
    assert_eq!(manager.fetch_requests(), accounts);
    assert_eq!(manager.phase, LifecyclePhase::CalendarsLoading);
}

#[test]
fn one_failed_fetch_leaves_the_others_untouched() {
    let mut manager = LifecycleManager::new();
    manager.on_client_constructed(true);
    let a = account("a", Provider::Google);
    let b = account("b", Provider::Microsoft);
    let c = account("c", Provider::Google);
    manager.on_accounts_listed(Ok(vec![a.clone(), b.clone(), c.clone()]));

    let cals_a = || vec![calendar("a1", "Work", Provider::Google)];
    let cals_c = || vec![calendar("c1", "Home", Provider::Google)];
    manager.on_calendars_fetched(a.clone(), Ok(cals_a()));
    manager.on_calendars_fetched(
        b.clone(),
        Err(Error::RemoteHttp("connection reset".to_string())),
    );
    manager.on_calendars_fetched(c.clone(), Ok(cals_c()));

    assert_eq!(manager.store.len(), 2);
    assert_eq!(manager.store.get(&a), Some(&cals_a()));
    assert_eq!(manager.store.get(&b), None);
    assert_eq!(manager.store.get(&c), Some(&cals_c()));
}

#[test]
fn completion_order_does_not_change_the_aggregate() {
    let a = account("a", Provider::Google);
    let b = account("b", Provider::Microsoft);
    let c = account("c", Provider::Google);
    let cals_a = || vec![calendar("a1", "Work", Provider::Google)];
    let cals_c = || vec![calendar("c1", "Home", Provider::Google)];
    let failure = || Err(Error::RemoteHttp("connection reset".to_string()));

    let mut fast_a = LifecycleManager::new();
    fast_a.on_client_constructed(true);
    fast_a.on_accounts_listed(Ok(vec![a.clone(), b.clone(), c.clone()]));
    fast_a.on_calendars_fetched(a.clone(), Ok(cals_a()));
    fast_a.on_calendars_fetched(b.clone(), failure());
    fast_a.on_calendars_fetched(c.clone(), Ok(cals_c()));

    let mut fast_c = LifecycleManager::new();
    fast_c.on_client_constructed(true);
    fast_c.on_accounts_listed(Ok(vec![a.clone(), b.clone(), c.clone()]));
    fast_c.on_calendars_fetched(c.clone(), Ok(cals_c()));
    fast_c.on_calendars_fetched(b.clone(), failure());
    fast_c.on_calendars_fetched(a.clone(), Ok(cals_a()));

    assert_eq!(fast_a.store.get(&a), fast_c.store.get(&a));
    assert_eq!(fast_a.store.get(&b), fast_c.store.get(&b));
    assert_eq!(fast_a.store.get(&c), fast_c.store.get(&c));
    assert_eq!(fast_a.store.len(), fast_c.store.len());
}

#[test]
fn refetch_overwrites_previous_result() {
    let mut manager = LifecycleManager::new();
    manager.on_client_constructed(true);
    let a = account("a", Provider::Google);
    manager.on_accounts_listed(Ok(vec![a.clone()]));
    let second = || vec![calendar("a2", "Home", Provider::Google)];
    manager.on_calendars_fetched(a.clone(), Ok(vec![calendar("a1", "Work", Provider::Google)]));
    manager.on_calendars_fetched(a.clone(), Ok(second()));
    assert_eq!(manager.store.get(&a), Some(&second()));
    assert_eq!(manager.store.len(), 1);
}
