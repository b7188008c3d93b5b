use file_tinder::preview::{PreviewCache, PreviewState};

#[test]
fn first_request_starts_generation() {
    let mut cache = PreviewCache::new();
    assert_eq!(*cache.entry_ref(), PreviewState::NotStarted);
    let start = cache.request("a.txt");
    assert!(start);
    assert_eq!(*cache.entry_ref(), PreviewState::Loading);
}

#[test]
fn repeated_request_does_not_regenerate() {
    let mut cache = PreviewCache::new();
    assert!(cache.request("a.txt"));
    let start = cache.request("a.txt");
    assert!(!start);
    assert_eq!(*cache.entry_ref(), PreviewState::Loading);

    cache.complete("a.txt", Ok(vec![String::from("line")]));
    let start = cache.request("a.txt");
    assert!(!start);
    assert_eq!(
        *cache.entry_ref(),
        PreviewState::Ready(vec![String::from("line")])
    );
}

#[test]
fn completion_commits_ready_or_error() {
    let mut cache = PreviewCache::new();
    cache.request("ok.txt");
    cache.complete("ok.txt", Ok(vec![String::from("text")]));
    assert_eq!(
        *cache.entry_ref(),
        PreviewState::Ready(vec![String::from("text")])
    );

    let mut failing = PreviewCache::new();
    failing.request("bad.bin");
    failing.complete("bad.bin", Err(String::from("unreadable file")));
    assert_eq!(
        *failing.entry_ref(),
        PreviewState::Error(String::from("unreadable file"))
    );
}

#[test]
fn reset_discards_entry_whatever_its_state() {
    let mut loading = PreviewCache::new();
    loading.request("a.txt");
    loading.reset();
    assert_eq!(*loading.entry_ref(), PreviewState::NotStarted);

    let mut ready = PreviewCache::new();
    ready.request("a.txt");
    ready.complete("a.txt", Ok(vec![String::from("x")]));
    ready.reset();
    assert_eq!(*ready.entry_ref(), PreviewState::NotStarted);

    let mut failed = PreviewCache::new();
    failed.request("a.txt");
    failed.complete("a.txt", Err(String::from("boom")));
    failed.reset();
    assert_eq!(*failed.entry_ref(), PreviewState::NotStarted);

    let mut untouched = PreviewCache::new();
    untouched.reset();
    assert_eq!(*untouched.entry_ref(), PreviewState::NotStarted);
}

#[test]
fn switching_files_resets_to_not_started_then_restarts() {
    let mut cache = PreviewCache::new();
    cache.request("a.txt");
    cache.complete("a.txt", Ok(vec![String::from("a")]));
    cache.reset();
    assert_eq!(*cache.entry_ref(), PreviewState::NotStarted);
    let start = cache.request("b.txt");
    assert!(start);
    assert_eq!(*cache.entry_ref(), PreviewState::Loading);
}

#[test]
fn stale_result_for_former_file_is_discarded() {
    let mut cache = PreviewCache::new();
    cache.request("a.txt");
    cache.reset();
    cache.request("b.txt");
    cache.complete("a.txt", Ok(vec![String::from("stale")]));
    assert_eq!(*cache.entry_ref(), PreviewState::Loading);
}

#[test]
fn stale_result_never_resurfaces_when_file_becomes_current_again() {
    let mut cache = PreviewCache::new();
    cache.request("a.txt");
    cache.reset();
    cache.request("b.txt");
    cache.complete("a.txt", Ok(vec![String::from("stale")]));
    cache.reset();
    let start = cache.request("a.txt");
    assert!(start);
    assert_eq!(*cache.entry_ref(), PreviewState::Loading);
}

#[test]
fn completion_after_terminal_state_is_ignored() {
    let mut cache = PreviewCache::new();
    cache.request("a.txt");
    cache.complete("a.txt", Ok(vec![String::from("first")]));
    cache.complete("a.txt", Ok(vec![String::from("second")]));
    assert_eq!(
        *cache.entry_ref(),
        PreviewState::Ready(vec![String::from("first")])
    );
}
