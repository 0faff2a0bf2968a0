use cache_preload::errors::PreloadError;
use cache_preload::urls::parse_url_list;

#[test]
fn example_list_yields_two_urls_in_order() {
    let content = b"https://example.com/a\n# comment\n\nhttps://example.com/b".to_vec();
    let urls = parse_url_list(&content).unwrap();
    assert_eq!(
        urls,
        vec![
            "https://example.com/a".to_string(),
            "https://example.com/b".to_string()
        ]
    );
}

#[test]
fn blank_and_comment_lines_yield_no_urls() {
    let content = b"\n   \n# one comment\n\t\n  # another\n".to_vec();
    let urls = parse_url_list(&content).unwrap();
    assert_eq!(urls, Vec::<String>::new());
}

#[test]
fn empty_input_yields_no_urls() {
    let urls = parse_url_list(&Vec::new()).unwrap();
    assert_eq!(urls, Vec::<String>::new());
}

#[test]
fn lines_are_trimmed_of_surrounding_whitespace() {
    let content = b"  https://example.com/padded \t\r\n".to_vec();
    let urls = parse_url_list(&content).unwrap();
    assert_eq!(urls, vec!["https://example.com/padded".to_string()]);
}

#[test]
fn unicode_whitespace_is_trimmed() {
    let content = "\u{2003}https://example.com/u\u{00a0}\n".as_bytes().to_vec();
    let urls = parse_url_list(&content).unwrap();
    assert_eq!(urls, vec!["https://example.com/u".to_string()]);
}

#[test]
fn comment_after_unicode_whitespace_is_skipped() {
    let content = "\u{00a0}# note\nhttps://example.com/x\n".as_bytes().to_vec();
    let urls = parse_url_list(&content).unwrap();
    assert_eq!(urls, vec!["https://example.com/x".to_string()]);
}

#[test]
fn line_of_only_unicode_whitespace_is_blank() {
    let content = "\u{2028}\u{00a0}\u{3000}\n".as_bytes().to_vec();
    let urls = parse_url_list(&content).unwrap();
    assert_eq!(urls, Vec::<String>::new());
}

#[test]
fn comment_after_leading_whitespace_is_skipped() {
    let content = b"   # indented comment\nhttps://example.com/x".to_vec();
    let urls = parse_url_list(&content).unwrap();
    assert_eq!(urls, vec!["https://example.com/x".to_string()]);
}

#[test]
fn duplicate_urls_are_kept() {
    let content = b"https://example.com/a\nhttps://example.com/a\n".to_vec();
    let urls = parse_url_list(&content).unwrap();
    assert_eq!(
        urls,
        vec![
            "https://example.com/a".to_string(),
            "https://example.com/a".to_string()
        ]
    );
}

#[test]
fn trailing_newline_adds_no_entry() {
    let content = b"https://example.com/a\n".to_vec();
    let urls = parse_url_list(&content).unwrap();
    assert_eq!(urls.len(), 1);
}

#[test]
fn undecodable_line_reports_its_one_based_number() {
    let mut content = b"https://example.com/ok\n".to_vec();
    content.push(0xff);
    content.extend_from_slice(b"bad\n");
    let err = parse_url_list(&content).unwrap_err();
    assert_eq!(err, PreloadError::LineDecode { line: 2 });
}

#[test]
fn undecodable_comment_line_still_fails() {
    let mut content = b"# ".to_vec();
    content.push(0xfe);
    content.push(b'\n');
    content.extend_from_slice(b"https://example.com/a\n");
    let err = parse_url_list(&content).unwrap_err();
    assert_eq!(err, PreloadError::LineDecode { line: 1 });
}

#[test]
fn non_ascii_url_is_decoded() {
    let url = "https://example.com/f\u{00e9}e";
    let mut content = url.as_bytes().to_vec();
    content.push(b'\n');
    let urls = parse_url_list(&content).unwrap();
    assert_eq!(urls, vec![url.to_string()]);
}
