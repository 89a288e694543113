use nooboard_gui::clipboard::history::{
    ClipboardHistoryLoadState, ClipboardHistoryState, ClipboardSelection, DETAIL_CACHE_LIMIT, MAX_HISTORY_PAGES,
};
use nooboard_gui::clipboard::model::{
    ClipboardHistoryAnchor, ClipboardHistoryDirection, ClipboardHistoryPage, ClipboardRecord, ClipboardRecordSource,
};
use nooboard_gui::ids::EventId;

fn record(event_id: EventId, content: &str, created_at_ms: i64) -> ClipboardRecord {
    ClipboardRecord {
        event_id,
        source: ClipboardRecordSource::UserSubmit,
        origin_noob_id: "peer-a".to_string(),
        origin_device_id: "peer-a-device".to_string(),
        created_at_ms,
        applied_at_ms: created_at_ms,
        content: content.to_string(),
    }
}

fn page_of(records: Vec<ClipboardRecord>, has_more: bool) -> ClipboardHistoryPage {
    let next_anchor = records.last().map(|r| ClipboardHistoryAnchor {
        created_at_ms: r.created_at_ms,
        event_id: r.event_id,
    });
    ClipboardHistoryPage { records, has_more, next_anchor }
}

fn ids_of(records: &[ClipboardRecord]) -> Vec<u128> {
    records.iter().map(|r| r.event_id.0).collect()
}

#[test]
fn promote_record_moves_existing_record_to_front() {
    let first_id = EventId(10);
    let second_id = EventId(20);
    let mut state = ClipboardHistoryState::new();
    state.finish_load(
        ClipboardHistoryDirection::Older,
        ClipboardHistoryPage {
            records: vec![record(first_id, "first", 10), record(second_id, "second", 20)],
            has_more: false,
            next_anchor: None,
        },
    );

    state.promote_record(record(second_id, "second", 20));

    let records = state.records();
    assert_eq!(records[0].event_id, second_id);
    assert_eq!(records[1].event_id, first_id);
}

#[test]
fn loading_older_pages_sets_newer_gap_when_window_evicted() {
    let mut state = ClipboardHistoryState::new();
    for page_ix in 0..=MAX_HISTORY_PAGES {
        let event_id = EventId(1000 + page_ix as u128);
        state.finish_load(
            ClipboardHistoryDirection::Older,
            ClipboardHistoryPage {
                records: vec![record(event_id, "row", page_ix as i64)],
                has_more: page_ix < MAX_HISTORY_PAGES,
                next_anchor: Some(ClipboardHistoryAnchor { created_at_ms: page_ix as i64, event_id }),
            },
        );
    }

    assert!(state.has_newer_gap());
    assert_eq!(state.page_count(), MAX_HISTORY_PAGES);
}

#[test]
fn evicted_window_points_newer_anchor_at_new_front() {
    let mut state = ClipboardHistoryState::new();
    for page_ix in 0..=MAX_HISTORY_PAGES {
        let event_id = EventId(1000 + page_ix as u128);
        state.finish_load(
            ClipboardHistoryDirection::Older,
            page_of(vec![record(event_id, "row", page_ix as i64)], true),
        );
    }
    assert_eq!(state.newer_anchor(), Some(ClipboardHistoryAnchor { created_at_ms: 1, event_id: EventId(1001) }));
    assert_eq!(state.records().len(), MAX_HISTORY_PAGES);
    assert!(!state.contains_record(EventId(1000)));
    assert!(state.has_older_gap());
    assert_eq!(state.older_anchor(), Some(ClipboardHistoryAnchor { created_at_ms: 6, event_id: EventId(1006) }));
}

#[test]
fn newer_pages_evict_from_the_back() {
    let mut state = ClipboardHistoryState::new();
    for page_ix in 0..=MAX_HISTORY_PAGES {
        let event_id = EventId(2000 + page_ix as u128);
        state.finish_load(
            ClipboardHistoryDirection::Newer,
            page_of(vec![record(event_id, "row", 100 + page_ix as i64)], true),
        );
    }
    assert_eq!(state.page_count(), MAX_HISTORY_PAGES);
    assert!(state.has_older_gap());
    assert_eq!(state.older_anchor(), Some(ClipboardHistoryAnchor { created_at_ms: 101, event_id: EventId(2001) }));
    assert_eq!(state.records()[0].event_id, EventId(2006));
}

#[test]
fn loading_skips_records_already_shown() {
    let mut state = ClipboardHistoryState::new();
    state.finish_load(
        ClipboardHistoryDirection::Older,
        page_of(vec![record(EventId(1), "a", 3), record(EventId(2), "b", 2)], true),
    );
    state.finish_load(
        ClipboardHistoryDirection::Older,
        page_of(vec![record(EventId(2), "b", 2), record(EventId(3), "c", 1)], false),
    );
    assert_eq!(ids_of(&state.records()), vec![1, 2, 3]);
    assert_eq!(state.page_count(), 2);
    assert!(!state.has_older_gap());
    assert_eq!(state.older_anchor(), None);

    // a page made only of known records adds no page
    state.finish_load(ClipboardHistoryDirection::Newer, page_of(vec![record(EventId(1), "a", 3)], false));
    assert_eq!(state.page_count(), 2);
    assert!(!state.has_newer_gap());
}

#[test]
fn begin_load_refuses_while_loading() {
    let mut state = ClipboardHistoryState::new();
    assert!(!state.bootstrapped());
    assert!(state.begin_load(ClipboardHistoryDirection::Older, true));
    assert_eq!(state.load_state(), ClipboardHistoryLoadState::LoadingInitial);
    assert!(!state.begin_load(ClipboardHistoryDirection::Newer, false));
    state.mark_load_failed();
    assert!(state.bootstrapped());
    assert_eq!(state.load_state(), ClipboardHistoryLoadState::Idle);
    assert!(state.begin_load(ClipboardHistoryDirection::Newer, false));
    assert_eq!(state.load_state(), ClipboardHistoryLoadState::LoadingNewer);
    state.finish_load(ClipboardHistoryDirection::Newer, page_of(vec![], false));
    assert!(state.begin_load(ClipboardHistoryDirection::Older, false));
    assert_eq!(state.load_state(), ClipboardHistoryLoadState::LoadingOlder);
}

#[test]
fn can_load_older_needs_gap_and_idle() {
    let mut state = ClipboardHistoryState::new();
    assert!(!state.can_load_older());
    state.finish_load(ClipboardHistoryDirection::Older, page_of(vec![record(EventId(7), "x", 7)], true));
    assert!(state.can_load_older());
    assert!(!state.can_load_newer());
    state.begin_load(ClipboardHistoryDirection::Older, false);
    assert!(!state.can_load_older());
}

#[test]
fn pinned_record_survives_eviction() {
    let mut state = ClipboardHistoryState::new();
    state.finish_load(ClipboardHistoryDirection::Older, page_of(vec![record(EventId(500), "pinned", 0)], true));
    state.select_history(EventId(500));
    for page_ix in 1..=MAX_HISTORY_PAGES {
        let id = EventId(500 + page_ix as u128);
        state.finish_load(ClipboardHistoryDirection::Older, page_of(vec![record(id, "row", page_ix as i64)], true));
    }
    assert!(!state.contains_record(EventId(500)));
    assert!(state.has_cached_record(EventId(500)));
    let selected = state.selected_record(None).expect("pinned record stays available");
    assert_eq!(selected.event_id, EventId(500));
    assert_eq!(selected.content, "pinned");
}

#[test]
fn selected_record_follows_selection() {
    let mut state = ClipboardHistoryState::new();
    assert_eq!(state.selection(), ClipboardSelection::LatestCommitted);
    assert!(state.selected_record(None).is_none());
    state.finish_load(
        ClipboardHistoryDirection::Older,
        page_of(vec![record(EventId(1), "one", 1), record(EventId(2), "two", 2)], false),
    );
    // latest with no latest record: first loaded record
    assert_eq!(state.selected_record(None).unwrap().event_id, EventId(1));
    let latest = record(EventId(9), "latest", 9);
    assert_eq!(state.selected_record(Some(&latest)).unwrap().event_id, EventId(9));

    state.select_history(EventId(2));
    assert_eq!(state.selected_record(Some(&latest)).unwrap().content, "two");
    state.select_history(EventId(9));
    assert_eq!(state.selected_record(Some(&latest)).unwrap().content, "latest");
    state.select_history(EventId(42));
    assert!(state.selected_record(Some(&latest)).is_none());
    state.cache_record(record(EventId(42), "cached", 42));
    assert_eq!(state.selected_record(Some(&latest)).unwrap().content, "cached");
    state.select_latest();
    assert_eq!(state.selection(), ClipboardSelection::LatestCommitted);
}

#[test]
fn detail_cache_is_bounded() {
    let mut state = ClipboardHistoryState::new();
    let total = DETAIL_CACHE_LIMIT as u128 + 4;
    for id in 0..total {
        state.cache_record(record(EventId(id), "c", id as i64));
    }
    assert!(!state.has_cached_record(EventId(0)));
    assert!(!state.has_cached_record(EventId(3)));
    assert!(state.has_cached_record(EventId(4)));
    assert!(state.has_cached_record(EventId(total - 1)));
}

#[test]
fn detail_cache_keeps_pinned_record() {
    let mut state = ClipboardHistoryState::new();
    state.select_history(EventId(0));
    for id in 0..(DETAIL_CACHE_LIMIT as u128 + 3) {
        state.cache_record(record(EventId(id), "c", id as i64));
    }
    assert!(state.has_cached_record(EventId(0)));
}

#[test]
fn promote_into_empty_history_makes_one_page() {
    let mut state = ClipboardHistoryState::new();
    state.promote_record(record(EventId(77), "new", 1));
    assert_eq!(state.page_count(), 1);
    assert_eq!(ids_of(&state.records()), vec![77]);
}

#[test]
fn promote_drops_emptied_pages() {
    let mut state = ClipboardHistoryState::new();
    state.finish_load(ClipboardHistoryDirection::Older, page_of(vec![record(EventId(1), "a", 3)], true));
    state.finish_load(ClipboardHistoryDirection::Older, page_of(vec![record(EventId(2), "b", 2)], false));
    assert_eq!(state.page_count(), 2);
    state.promote_record(record(EventId(2), "b", 2));
    assert_eq!(state.page_count(), 1);
    assert_eq!(ids_of(&state.records()), vec![2, 1]);
}

#[test]
fn selection_matches_designated_record() {
    assert!(ClipboardSelection::LatestCommitted.matches(EventId(3), Some(EventId(3))));
    assert!(!ClipboardSelection::LatestCommitted.matches(EventId(3), None));
    assert!(ClipboardSelection::Pinned(EventId(4)).matches(EventId(4), Some(EventId(3))));
    assert!(!ClipboardSelection::Pinned(EventId(4)).matches(EventId(3), Some(EventId(3))));
}

#[test]
fn finished_load_shows_only_old_or_page_records() {
    let mut state = ClipboardHistoryState::new();
    state.finish_load(ClipboardHistoryDirection::Older, page_of(vec![record(EventId(5), "a", 50)], true));
    let key = |r: &ClipboardRecord| (r.event_id.0, r.content.clone(), r.created_at_ms);
    let before: Vec<_> = state.records().iter().map(key).collect();
    let page = page_of(vec![record(EventId(5), "dup", 50), record(EventId(4), "b", 40)], false);
    let arrived: Vec<_> = page.records.iter().map(key).collect();
    state.finish_load(ClipboardHistoryDirection::Older, page);
    for shown in state.records() {
        assert!(before.contains(&key(&shown)) || arrived.contains(&key(&shown)));
    }
    assert_eq!(ids_of(&state.records()), vec![5, 4]);
    assert_eq!(state.records()[0].content, "a");
    assert!(state.bootstrapped());
    assert_eq!(state.load_state(), ClipboardHistoryLoadState::Idle);
}

#[test]
fn cached_pinned_record_is_the_one_shown() {
    let mut state = ClipboardHistoryState::new();
    state.select_history(EventId(9));
    let stored = record(EventId(9), "stored", 90);
    state.cache_record(stored.clone());
    let latest = record(EventId(1), "latest", 10);
    let shown = state.selected_record(Some(&latest)).unwrap();
    assert_eq!((shown.event_id, shown.content.as_str()), (stored.event_id, "stored"));
    let shown = state.selected_record(None).unwrap();
    assert_eq!((shown.event_id, shown.content.as_str()), (stored.event_id, "stored"));
}

#[test]
fn cache_stays_within_limit_while_latest_is_selected() {
    let mut state = ClipboardHistoryState::new();
    for id in 0..(DETAIL_CACHE_LIMIT as u128) {
        state.cache_record(record(EventId(id), "c", id as i64));
    }
    state.cache_record(record(EventId(1000), "new", 1000));
    let kept = (0..(DETAIL_CACHE_LIMIT as u128)).filter(|id| state.has_cached_record(EventId(*id))).count();
    assert_eq!(kept, DETAIL_CACHE_LIMIT - 1);
    assert!(state.has_cached_record(EventId(1000)));
    assert!(!state.has_cached_record(EventId(0)));
}
