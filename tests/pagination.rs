use rullm::pagination::{successful, FetchError, Page, PageStream};

fn page(total_pages: i32, items: Vec<u32>) -> Result<Page<u32>, FetchError> {
    Ok(Page { total_pages, items })
}

fn failure(message: &str) -> Result<Page<u32>, FetchError> {
    Err(FetchError { message: message.to_string() })
}

/// Runs a walk against a server whose answer to page n is `server[n - 1]`.
fn walk(server: Vec<Result<Page<u32>, FetchError>>) -> (Vec<Result<u32, FetchError>>, Vec<i32>) {
    let mut answers: Vec<Option<Result<Page<u32>, FetchError>>> =
        server.into_iter().map(Some).collect();
    let mut stream = PageStream::new();
    let mut emitted = Vec::new();
    let mut fetched = Vec::new();
    while let Some(n) = stream.next_page() {
        fetched.push(n);
        let outcome = answers[(n - 1) as usize].take().expect("page fetched twice");
        emitted.extend(stream.receive(outcome));
    }
    (emitted, fetched)
}

#[test]
fn walk_emits_every_page_in_order() {
    let (emitted, fetched) = walk(vec![page(3, vec![1, 2]), page(3, vec![3]), page(3, vec![4, 5])]);
    assert_eq!(fetched, vec![1, 2, 3]);
    let items: Vec<u32> = emitted.into_iter().map(|r| r.unwrap()).collect();
    assert_eq!(items, vec![1, 2, 3, 4, 5]);
}

#[test]
fn walk_stops_at_first_failed_page() {
    let (emitted, fetched) = walk(vec![
        page(4, vec![1, 2]),
        page(4, vec![3]),
        failure("timeout"),
        page(4, vec![9]),
    ]);
    assert_eq!(fetched, vec![1, 2, 3]);
    assert_eq!(emitted.len(), 4);
    assert_eq!(emitted[0], Ok(1));
    assert_eq!(emitted[1], Ok(2));
    assert_eq!(emitted[2], Ok(3));
    assert_eq!(emitted[3], Err(FetchError { message: "timeout".to_string() }));
}

#[test]
fn walk_failing_on_first_page_emits_one_error() {
    let (emitted, fetched) = walk(vec![failure("down"), page(2, vec![1])]);
    assert_eq!(fetched, vec![1]);
    assert_eq!(emitted, vec![Err(FetchError { message: "down".to_string() })]);
}

#[test]
fn walk_of_single_page_fetches_once() {
    let (emitted, fetched) = walk(vec![page(1, vec![7]), page(1, vec![8])]);
    assert_eq!(fetched, vec![1]);
    assert_eq!(emitted, vec![Ok(7)]);
}

#[test]
fn walk_of_empty_resource_fetches_page_one_only() {
    let (emitted, fetched) = walk(vec![page(0, vec![])]);
    assert_eq!(fetched, vec![1]);
    assert!(emitted.is_empty());
}

#[test]
fn finished_stream_ignores_further_pages() {
    let mut stream = PageStream::new();
    assert!(!stream.is_finished());
    let first = stream.receive(page(1, vec![1]));
    assert_eq!(first, vec![Ok(1)]);
    assert!(stream.is_finished());
    assert_eq!(stream.next_page(), None);
    let more = stream.receive(page(5, vec![2, 3]));
    assert!(more.is_empty());
    assert_eq!(stream.next_page(), None);
}

#[test]
fn successful_drops_failures_and_keeps_order() {
    let results = vec![
        Ok(1u32),
        Err(FetchError { message: "bad".to_string() }),
        Ok(2),
        Ok(3),
    ];
    assert_eq!(successful(results), vec![1, 2, 3]);
}
