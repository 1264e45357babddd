use trustfall_pandascore_adapter::error::{AdapterError, ErrorSink};
use trustfall_pandascore_adapter::pagination::{drain, Page, PagedBackend, PaginationIterator, Pull};

fn backend(sizes: &[usize], fail_at: Option<usize>) -> PagedBackend<u64> {
    let mut pages = Vec::new();
    let mut next: u64 = 0;
    for (i, &n) in sizes.iter().enumerate() {
        let mut items = Vec::new();
        for _ in 0..n {
            items.push(next);
            next += 1;
        }
        pages.push(Page { items, more: i + 1 < sizes.len() });
    }
    PagedBackend { pages, fail_at }
}

#[test]
fn three_pages_yield_all_items_in_server_order() {
    let b = backend(&[10, 10, 4], None);
    let mut sink = ErrorSink::new();
    let out = drain(&b, "endpoint failure".to_owned(), &mut sink);
    let expected: Vec<u64> = (0..24).collect();
    assert_eq!(out, expected);
    assert_eq!(sink.len(), 0);
}

#[test]
fn failure_on_second_page_truncates_and_records_one_error() {
    let b = backend(&[10, 10, 4], Some(1));
    let mut sink = ErrorSink::new();
    let out = drain(&b, "page 2 unreachable".to_owned(), &mut sink);
    let expected: Vec<u64> = (0..10).collect();
    assert_eq!(out, expected);
    assert_eq!(sink.len(), 1);
    match &sink.entries()[0] {
        AdapterError::EndpointError(cause) => assert_eq!(cause, "page 2 unreachable"),
        other => panic!("expected an endpoint error, got {:?}", other),
    }
}

#[test]
fn page_size_does_not_change_the_drained_sequence() {
    let small = backend(&[25, 25, 25, 25], None);
    let large = backend(&[100], None);
    let mut sink_a = ErrorSink::new();
    let mut sink_b = ErrorSink::new();
    let a = drain(&small, "failure".to_owned(), &mut sink_a);
    let b = drain(&large, "failure".to_owned(), &mut sink_b);
    assert_eq!(a, b);
    assert_eq!(sink_a.len(), 0);
    assert_eq!(sink_b.len(), 0);
}

#[test]
fn failure_on_first_page_yields_nothing_and_one_error() {
    let b = backend(&[5, 5], Some(0));
    let mut sink = ErrorSink::new();
    let out = drain(&b, "down".to_owned(), &mut sink);
    assert!(out.is_empty());
    assert_eq!(sink.len(), 1);
}

#[test]
fn an_empty_listing_yields_nothing_and_no_error() {
    let b = backend(&[0], None);
    let mut sink = ErrorSink::new();
    let out = drain(&b, "failure".to_owned(), &mut sink);
    assert!(out.is_empty());
    assert_eq!(sink.len(), 0);
}

#[test]
fn pull_walks_buffer_then_asks_for_fetches() {
    let mut pag: PaginationIterator<u64> = PaginationIterator::new();
    match pag.pull() {
        Pull::Fetch(c) => assert_eq!(c, 0),
        _ => panic!("a fresh walker must ask for page 0"),
    }
    pag.supply_page(Page { items: vec![7, 8], more: true });
    assert!(matches!(pag.pull(), Pull::Item(7)));
    assert!(matches!(pag.pull(), Pull::Item(8)));
    match pag.pull() {
        Pull::Fetch(c) => assert_eq!(c, 1),
        _ => panic!("an empty buffer with a cursor must ask for the next page"),
    }
    pag.supply_page(Page { items: vec![9], more: false });
    assert!(matches!(pag.pull(), Pull::Item(9)));
    assert!(matches!(pag.pull(), Pull::Done));
    assert!(matches!(pag.pull(), Pull::Done));
}

#[test]
fn failed_fetch_ends_the_walk_and_records_once() {
    let mut pag: PaginationIterator<u64> = PaginationIterator::new();
    let mut sink = ErrorSink::new();
    match pag.pull() {
        Pull::Fetch(_) => pag.fetch_failed("boom".to_owned(), &mut sink),
        _ => panic!("a fresh walker must ask for a fetch"),
    }
    assert!(matches!(pag.pull(), Pull::Done));
    assert_eq!(sink.len(), 1);
}
