use cache_preload::run::{FetchEvent, FetchOutcome, PreloadRun};
use cache_preload::urls::parse_url_list;

fn outcome_url(o: &FetchOutcome) -> String {
    match o {
        FetchOutcome::Success { url, .. } => url.clone(),
        FetchOutcome::Failure { url, .. } => url.clone(),
    }
}

#[test]
fn one_record_per_kept_line_in_input_order() {
    let content = b"# header\nhttps://example.com/a\n\n  https://example.com/b  \n# x\nhttps://example.com/a\n"
        .to_vec();
    let urls = parse_url_list(&content).unwrap();
    assert_eq!(urls.len(), 3);

    let mut run = PreloadRun::new(urls.clone());
    let mut records = Vec::new();
    let mut status = 200u16;
    while !run.done() {
        records.push(run.record(FetchEvent::Completed {
            status,
            elapsed_ms: 1,
        }));
        status += 100;
    }

    assert_eq!(records.len(), urls.len());
    for (record, url) in records.iter().zip(urls.iter()) {
        assert_eq!(&outcome_url(record), url);
    }
    assert_eq!(outcome_url(&records[0]), "https://example.com/a");
    assert_eq!(outcome_url(&records[1]), "https://example.com/b");
    assert_eq!(outcome_url(&records[2]), "https://example.com/a");

    let summary = run.summary(3);
    assert_eq!(summary.success_count, 1);
    assert_eq!(summary.error_count, 2);
}
