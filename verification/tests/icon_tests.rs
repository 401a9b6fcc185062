use jolly::icon::{
    fallback_icon, worker_step, IconCache, IconCommand, IconSettings, IconType, WorkerAction,
    WorkerEvent, WorkerState,
};
use std::collections::hash_map::DefaultHasher;
use std::hash::{Hash, Hasher};

fn hash_of(it: &IconType) -> u64 {
    let mut h = DefaultHasher::new();
    it.hash(&mut h);
    h.finish()
}

#[test]
fn url_keys_collapse_to_scheme() {
    let a = IconType::url("http://a.com").unwrap();
    let b = IconType::url("http://b.com").unwrap();
    assert_eq!(a, b);
    assert_eq!(hash_of(&a), hash_of(&b));

    let c = IconType::url("https://a.com").unwrap();
    assert_ne!(a, c);

    assert!(IconType::url("not a url").is_none());
}

#[test]
fn file_keys_compare_by_canonical_path() {
    let here = std::path::Path::new(".").canonicalize().unwrap();
    let also_here = std::path::Path::new("./.").canonicalize().unwrap();

    let a = IconType::file(here.to_string_lossy().into_owned());
    let b = IconType::file(also_here.to_string_lossy().into_owned());
    assert_eq!(a, b);
    assert_eq!(hash_of(&a), hash_of(&b));

    let c = IconType::file("/somewhere/else".to_string());
    assert_ne!(a, c);
}

#[test]
fn cache_queues_exactly_one_request_per_key() {
    let mut cache = IconCache::new();
    cache.register_worker();

    let k = IconType::url("http://a.com").unwrap();

    // first miss: pending, one request queued
    assert!(cache.get(&k).is_none());
    let sent = cache.take_requests();
    assert_eq!(sent, vec![k.clone()]);

    // repeated lookups while pending queue nothing
    assert!(cache.get(&k).is_none());
    assert!(cache.get(&k).is_none());
    assert!(cache.take_requests().is_empty());

    // an equivalent key (same scheme) is the same cache entry
    let k2 = IconType::url("http://b.com").unwrap();
    assert!(cache.get(&k2).is_none());
    assert!(cache.take_requests().is_empty());

    // the result arrives: resolved, still no new request
    cache.add_icon(k.clone(), fallback_icon());
    let icon = cache.get(&k).unwrap();
    assert_eq!(icon, fallback_icon());
    assert!(cache.take_requests().is_empty());

    // in total: exactly one request for k, however often it was asked
}

#[test]
fn cache_without_worker_stays_pending() {
    let mut cache = IconCache::new();
    let k = IconType::file("/tmp/x".to_string());

    assert!(cache.get(&k).is_none());
    assert!(cache.take_requests().is_empty());

    // registering a worker later does not resend: the key stays
    // pending with no request, and only an arriving icon resolves it
    cache.register_worker();
    assert!(cache.get(&k).is_none());
    assert!(cache.take_requests().is_empty());

    cache.add_icon(k.clone(), fallback_icon());
    assert!(cache.get(&k).is_some());
}

#[test]
fn add_icon_is_idempotent_and_terminal() {
    let mut cache = IconCache::new();
    cache.register_worker();
    let k = IconType::custom("x.png".to_string());

    cache.add_icon(k.clone(), fallback_icon());
    cache.add_icon(k.clone(), fallback_icon());
    assert_eq!(cache.get(&k), Some(fallback_icon()));
    // a resolved key never queues a request
    assert!(cache.take_requests().is_empty());
}

#[test]
fn fallback_icon_is_one_grey_pixel() {
    let icon = fallback_icon();
    assert_eq!(icon.width, 1);
    assert_eq!(icon.height, 1);
    assert_eq!(icon.pixels, vec![127, 127, 127, 255]);
}

fn settings() -> IconSettings {
    IconSettings {
        theme: "hicolor".to_string(),
        xdg_folder: None,
    }
}

#[test]
fn worker_requires_settings_first() {
    let k = IconType::url("http://a.com").unwrap();

    // the only accepted first command is LoadSettings
    let (s, a) = worker_step(
        WorkerState::AwaitingSettings,
        WorkerEvent::Command(IconCommand::LoadSettings(settings())),
    );
    assert!(matches!(s, WorkerState::Ready(_)));
    assert!(matches!(a, WorkerAction::Configured));

    let (s, a) = worker_step(
        WorkerState::AwaitingSettings,
        WorkerEvent::Command(IconCommand::LoadIcon(k.clone())),
    );
    assert!(matches!(s, WorkerState::Stopped));
    assert!(matches!(a, WorkerAction::Stop));

    let (s, a) = worker_step(WorkerState::AwaitingSettings, WorkerEvent::Disconnected);
    assert!(matches!(s, WorkerState::Stopped));
    assert!(matches!(a, WorkerAction::Stop));
}

#[test]
fn worker_serves_load_icon_once_ready() {
    let k = IconType::url("http://a.com").unwrap();

    let (s, a) = worker_step(
        WorkerState::Ready(settings()),
        WorkerEvent::Command(IconCommand::LoadIcon(k.clone())),
    );
    assert!(matches!(s, WorkerState::Ready(_)));
    assert_eq!(a, WorkerAction::Resolve(k));

    // a second LoadSettings, or a closed channel, stops the worker
    let (s, a) = worker_step(
        WorkerState::Ready(settings()),
        WorkerEvent::Command(IconCommand::LoadSettings(settings())),
    );
    assert!(matches!(s, WorkerState::Stopped));
    assert!(matches!(a, WorkerAction::Stop));

    let (s, a) = worker_step(WorkerState::Ready(settings()), WorkerEvent::Disconnected);
    assert!(matches!(s, WorkerState::Stopped));
    assert!(matches!(a, WorkerAction::Stop));

    let (s, a) = worker_step(WorkerState::Stopped, WorkerEvent::Disconnected);
    assert!(matches!(s, WorkerState::Stopped));
    assert!(matches!(a, WorkerAction::Stop));
}
