use calendar_core::models::{Account, Calendar, Provider};
use calendar_core::store::CalendarStore;

fn account(id: &str, provider: Provider) -> Account {
    Account { id: id.to_string(), username: format!("user-{id}"), provider }
}

fn calendar(id: &str, name: &str, provider: Provider) -> Calendar {
    Calendar {
        id: id.to_string(),
        name: name.to_string(),
        description: None,
        timezone: None,
        color: None,
        access_role: "reader".to_string(),
        provider,
        extra: vec![],
    }
}

#[test]
fn empty_store_has_nothing() {
    let store = CalendarStore::new();
    assert_eq!(store.len(), 0);
    assert!(store.get(&account("a", Provider::Google)).is_none());
    assert!(!store.contains(&account("a", Provider::Google)));
}

#[test]
fn merge_keeps_accounts_in_arrival_order() {
    let mut store = CalendarStore::new();
    let a = account("a", Provider::Google);
    let b = account("b", Provider::Microsoft);
    store.merge(a.clone(), vec![calendar("a1", "Work", Provider::Google)]);
    store.merge(b.clone(), vec![calendar("b1", "Calendar", Provider::Microsoft)]);
    assert_eq!(store.len(), 2);
    assert_eq!(store.accounts(), vec![a.clone(), b.clone()]);
    assert_eq!(store.get(&a).unwrap().len(), 1);
    assert_eq!(store.get(&b).unwrap()[0].name, "Calendar");
}

#[test]
fn last_write_wins_for_one_account() {
    let mut store = CalendarStore::new();
    let a = account("a", Provider::Google);
    let second = || vec![calendar("a3", "Travel", Provider::Google)];
    store.merge(a.clone(), vec![
        calendar("a1", "Work", Provider::Google),
        calendar("a2", "Home", Provider::Google),
    ]);
    store.merge(a.clone(), second());
    assert_eq!(store.len(), 1);
    assert_eq!(store.get(&a), Some(&second()));
}

#[test]
fn overwriting_keeps_display_position() {
    let mut store = CalendarStore::new();
    let a = account("a", Provider::Google);
    let b = account("b", Provider::Microsoft);
    store.merge(a.clone(), vec![]);
    store.merge(b.clone(), vec![]);
    store.merge(a.clone(), vec![calendar("a1", "Work", Provider::Google)]);
    assert_eq!(store.accounts(), vec![a.clone(), b.clone()]);
}

#[test]
fn distinct_accounts_do_not_disturb_each_other() {
    let a = account("a", Provider::Google);
    let b = account("b", Provider::Microsoft);
    let cals_a = || vec![calendar("a1", "Work", Provider::Google)];
    let cals_b = || vec![calendar("b1", "Calendar", Provider::Microsoft)];

    let mut one_way = CalendarStore::new();
    one_way.merge(a.clone(), cals_a());
    one_way.merge(b.clone(), cals_b());

    let mut other_way = CalendarStore::new();
    other_way.merge(b.clone(), cals_b());
    other_way.merge(a.clone(), cals_a());

    assert_eq!(one_way.get(&a), other_way.get(&a));
    assert_eq!(one_way.get(&b), other_way.get(&b));
}
