use nucleus_dashboard_api::walk::{EntryCounter, NucleusPager, PageStep, StreamEvent};

fn run_page(limit: Option<u32>, offset: Option<u32>, n: usize) -> Vec<usize> {
    let mut pager = NucleusPager::new(limit, offset);
    let mut page = Vec::new();
    for i in 0..=n {
        let event = if i < n { StreamEvent::Entry } else { StreamEvent::Finished };
        match pager.on_event(event) {
            PageStep::Skip => continue,
            PageStep::Take => page.push(i),
            PageStep::Stop => break,
        }
    }
    page
}

#[test]
fn pager_defaults_to_first_ten() {
    let pager = NucleusPager::new(None, None);
    assert_eq!(pager.limit(), 10);
    assert_eq!(pager.offset(), 0);
    assert_eq!(run_page(None, None, 25), (0..10).collect::<Vec<_>>());
}

#[test]
fn pager_takes_window_after_offset() {
    assert_eq!(run_page(Some(5), Some(0), 3), vec![0, 1, 2]);
    assert_eq!(run_page(Some(5), Some(0), 20), vec![0, 1, 2, 3, 4]);
    assert_eq!(run_page(Some(3), Some(4), 20), vec![4, 5, 6]);
    assert_eq!(run_page(Some(3), Some(4), 5), vec![4]);
    assert_eq!(run_page(Some(3), Some(9), 5), Vec::<usize>::new());
    assert_eq!(run_page(Some(0), Some(2), 5), Vec::<usize>::new());
}

#[test]
fn pager_page_never_exceeds_limit() {
    for limit in 0..6u32 {
        for offset in 0..6u32 {
            for n in 0..12usize {
                assert!(run_page(Some(limit), Some(offset), n).len() <= limit as usize);
            }
        }
    }
}

#[test]
fn pager_stops_on_failed_read() {
    let mut pager = NucleusPager::new(Some(2), Some(0));
    assert_eq!(pager.on_event(StreamEvent::Failed), PageStep::Stop);
    assert_eq!(pager.on_event(StreamEvent::Entry), PageStep::Take);
    assert_eq!(pager.on_event(StreamEvent::Entry), PageStep::Take);
    assert_eq!(pager.on_event(StreamEvent::Entry), PageStep::Stop);
}

fn run_count(mut counter: EntryCounter, n: usize) -> u64 {
    for i in 0..=n {
        let event = if i < n { StreamEvent::Entry } else { StreamEvent::Finished };
        if !counter.on_event(event) {
            break;
        }
    }
    counter.count()
}

#[test]
fn unbounded_counter_counts_every_entry() {
    assert_eq!(run_count(EntryCounter::unbounded(), 0), 0);
    assert_eq!(run_count(EntryCounter::unbounded(), 17), 17);
}

#[test]
fn capped_counter_stops_at_cap() {
    assert_eq!(run_count(EntryCounter::capped(3), 2), 2);
    assert_eq!(run_count(EntryCounter::capped(3), 3), 3);
    assert_eq!(run_count(EntryCounter::capped(3), 50), 3);
    assert_eq!(
        run_count(EntryCounter::capped(nucleus_dashboard_api::config::ACCOUNT_COUNT_CAP), 10_500),
        10_000
    );
}

#[test]
fn counter_stops_on_failed_read() {
    let mut counter = EntryCounter::unbounded();
    assert!(counter.on_event(StreamEvent::Entry));
    assert!(!counter.on_event(StreamEvent::Failed));
    assert_eq!(counter.count(), 1);
}
