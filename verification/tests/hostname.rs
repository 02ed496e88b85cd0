use rustwester::hostname::{get_hostname, Access, HostnameCache};

#[test]
fn a_new_cache_knows_no_name() {
    let cache = HostnameCache::new();
    assert_eq!(cache.get(), None);
}

#[test]
fn first_access_resolves_and_later_ones_wait() {
    let mut cache = HostnameCache::new();
    assert_eq!(cache.access(), Access::Resolve);
    assert_eq!(cache.get(), None);
    assert_eq!(cache.access(), Access::Wait);
    assert_eq!(cache.access(), Access::Wait);
    assert_eq!(cache.get(), None);
    assert_eq!(cache.complete(Some("box".to_string())), "box");
    assert_eq!(cache.get(), Some("box"));
    assert_eq!(cache.access(), Access::Ready("box".to_string()));
    assert_eq!(cache.access(), Access::Ready("box".to_string()));
}

#[test]
fn failed_lookup_is_kept_as_unknown() {
    let mut cache = HostnameCache::new();
    assert_eq!(cache.access(), Access::Resolve);
    assert_eq!(cache.complete(None), "Unknown");
    assert_eq!(cache.get(), Some("Unknown"));
    assert_eq!(cache.access(), Access::Ready("Unknown".to_string()));
    assert_eq!(cache.complete(Some("late".to_string())), "Unknown");
    assert_eq!(get_hostname(&mut cache), "Unknown");
    assert_eq!(cache.get_or_resolve(), "Unknown");
}

#[test]
fn a_kept_name_never_changes() {
    let mut cache = HostnameCache::new();
    assert_eq!(cache.complete(Some("first".to_string())), "first");
    assert_eq!(cache.complete(Some("second".to_string())), "first");
    assert_eq!(cache.complete(None), "first");
    assert_eq!(cache.access(), Access::Ready("first".to_string()));
    assert_eq!(cache.get_or_resolve(), "first");
    assert_eq!(get_hostname(&mut cache), "first");
    assert_eq!(cache.get(), Some("first"));
}

#[test]
fn an_exotic_name_is_kept_like_any_other() {
    let mut cache = HostnameCache::new();
    assert_eq!(cache.complete(Some("Unknown".to_string())), "Unknown");
    let mut cache = HostnameCache::new();
    assert_eq!(cache.complete(Some(String::new())), "");
    assert_eq!(cache.get(), Some(""));
}

#[test]
fn lookup_runs_for_a_cache_that_is_resolving() {
    let mut cache = HostnameCache::new();
    assert_eq!(cache.access(), Access::Resolve);
    let name = cache.get_or_resolve();
    assert_eq!(name, gethostname::gethostname().to_string_lossy().to_string());
    assert_eq!(cache.get(), Some(name.as_str()));
}

#[test]
fn many_callers_of_one_cache_see_one_name() {
    let cache = std::sync::Mutex::new(HostnameCache::new());
    let names: Vec<String> = (0..8).map(|_| cache.lock().unwrap().get_or_resolve()).collect();
    assert_eq!(names.len(), 8);
    assert!(names.iter().all(|name| *name == names[0]));
    assert_eq!(cache.lock().unwrap().get(), Some(names[0].as_str()));
}

#[test]
fn many_callers_of_one_cache_see_the_first_outcome() {
    let cache = std::sync::Mutex::new(HostnameCache::new());
    let names: Vec<String> = (0..8)
        .map(|caller| {
            let mut cache = cache.lock().unwrap();
            match cache.access() {
                Access::Ready(name) => name,
                _ => cache.complete(Some(format!("name-{caller}"))),
            }
        })
        .collect();
    assert_eq!(names[0], "name-0");
    assert!(names.iter().all(|name| *name == names[0]));
    assert_eq!(cache.lock().unwrap().get(), Some("name-0"));
}
