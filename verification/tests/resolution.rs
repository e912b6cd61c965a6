use prefprobe::resolver::{
    get_int_pref_copyappvalue, get_pref_copyappvalue, get_pref_copyvalue, get_pref_forced,
    resolve_all_scopes,
};
use prefprobe::scope::{scope_list, HostScope, UserScope};
use prefprobe::store::PrefStore;
use prefprobe::value::{decode, PlistDataType, RawPrefValue};

fn str_value(s: &str) -> RawPrefValue {
    RawPrefValue::Text(Some(s.to_string()))
}

fn is_str(v: &Option<PlistDataType>, expected: &str) -> bool {
    matches!(v, Some(PlistDataType::Str(s)) if s == expected)
}

#[test]
fn scope_list_has_fixed_order() {
    let scopes = scope_list();
    assert_eq!(
        scopes,
        vec![
            (UserScope::Current, HostScope::Any),
            (UserScope::Current, HostScope::Current),
            (UserScope::Any, HostScope::Current),
            (UserScope::Any, HostScope::Any),
        ]
    );
}

#[test]
fn value_only_at_any_user_any_host() {
    let mut store = PrefStore::new();
    let url = "https://repo.example.com/munki";
    store.set_value(
        "ManagedInstalls",
        "SoftwareRepoURL",
        UserScope::Any,
        HostScope::Any,
        str_value(url),
    );
    let key = "SoftwareRepoURL".to_string();
    let domain = "ManagedInstalls".to_string();
    let results = resolve_all_scopes(&store, &key, &domain);
    assert_eq!(results.len(), 4);
    assert!(results[0].is_none());
    assert!(results[1].is_none());
    assert!(results[2].is_none());
    assert!(is_str(&results[3], url));
}

#[test]
fn missing_key_resolves_empty_everywhere() {
    let mut store = PrefStore::new();
    store.set_value("OtherDomain", "OtherKey", UserScope::Any, HostScope::Any, str_value("x"));
    let key = "SoftwareRepoURL".to_string();
    let domain = "ManagedInstalls".to_string();
    let results = resolve_all_scopes(&store, &key, &domain);
    assert!(results.iter().all(|r| r.is_none()));
    assert!(get_pref_copyappvalue(&store, &key, &domain).is_none());
    assert!(!get_pref_forced(&store, &key, &domain));
}

#[test]
fn forced_override_wins_over_user_value() {
    let mut store = PrefStore::new();
    store.set_value(
        "ManagedInstalls",
        "SoftwareRepoURL",
        UserScope::Current,
        HostScope::Current,
        str_value("https://user.example.com/munki"),
    );
    store.set_forced(
        "ManagedInstalls",
        "SoftwareRepoURL",
        str_value("https://managed.example.com/munki"),
    );
    let key = "SoftwareRepoURL".to_string();
    let domain = "ManagedInstalls".to_string();
    assert!(get_pref_forced(&store, &key, &domain));
    let effective = get_pref_copyappvalue(&store, &key, &domain);
    assert!(is_str(&effective, "https://managed.example.com/munki"));
}

#[test]
fn is_forced_false_for_unmanaged_key() {
    let mut store = PrefStore::new();
    store.set_value("d", "k", UserScope::Current, HostScope::Any, str_value("present"));
    assert!(!get_pref_forced(&store, &"k".to_string(), &"d".to_string()));
    assert!(!get_pref_forced(&store, &"nope".to_string(), &"d".to_string()));
}

#[test]
fn later_write_shadows_earlier_one() {
    let mut store = PrefStore::new();
    store.set_value("d", "k", UserScope::Any, HostScope::Any, str_value("first"));
    store.set_value("d", "k", UserScope::Any, HostScope::Any, str_value("second"));
    let v = get_pref_copyvalue(&store, &"k".to_string(), &"d".to_string(), UserScope::Any, HostScope::Any);
    assert!(is_str(&v, "second"));
}

#[test]
fn app_value_prefers_most_specific_scope() {
    let mut store = PrefStore::new();
    store.set_value("d", "k", UserScope::Any, HostScope::Any, str_value("broad"));
    store.set_value("d", "k", UserScope::Current, HostScope::Any, str_value("narrow"));
    let v = get_pref_copyappvalue(&store, &"k".to_string(), &"d".to_string());
    assert!(is_str(&v, "narrow"));
}

#[test]
fn scope_lookups_are_independent() {
    let mut store = PrefStore::new();
    store.set_value("d", "k", UserScope::Current, HostScope::Any, str_value("cu-ah"));
    store.set_value("d", "k", UserScope::Any, HostScope::Current, str_value("au-ch"));
    let key = "k".to_string();
    let domain = "d".to_string();
    let results = resolve_all_scopes(&store, &key, &domain);
    assert!(is_str(&results[0], "cu-ah"));
    assert!(results[1].is_none());
    assert!(is_str(&results[2], "au-ch"));
    assert!(results[3].is_none());
}

#[test]
fn int_app_value_reads_stored_integer() {
    let mut store = PrefStore::new();
    store.set_value("d", "days", UserScope::Any, HostScope::Any, RawPrefValue::Number(14));
    assert_eq!(get_int_pref_copyappvalue(&store, &"days".to_string(), &"d".to_string()), 14);
}

#[test]
fn int_app_value_defaults_to_zero_when_absent() {
    let store = PrefStore::new();
    assert_eq!(get_int_pref_copyappvalue(&store, &"days".to_string(), &"d".to_string()), 0);
}

#[test]
fn repeated_lookups_stay_consistent() {
    let mut store = PrefStore::new();
    store.set_value("d", "k", UserScope::Any, HostScope::Any, RawPrefValue::Number(9));
    let key = "k".to_string();
    let domain = "d".to_string();
    for _ in 0..10_000 {
        let raw = store.copy_value(&key, &domain, UserScope::Any, HostScope::Any);
        match decode(raw) {
            Some(PlistDataType::Int(i)) => assert_eq!(i, 9),
            _ => panic!("expected an integer"),
        }
    }
}
