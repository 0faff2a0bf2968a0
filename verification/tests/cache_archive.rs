use cache_preload::archive::{archive_entry_name, build_cache_archive, CacheFile};
use flate2::read::GzDecoder;
use std::io::Read;
use tar::Archive;

fn extract(bytes: &[u8]) -> Vec<(String, u32, Vec<u8>)> {
    let mut archive = Archive::new(GzDecoder::new(bytes));
    let mut seen = Vec::new();
    for entry in archive.entries().unwrap() {
        let mut entry = entry.unwrap();
        let path = entry.path().unwrap().to_str().unwrap().to_string();
        let mode = entry.header().mode().unwrap();
        let mut data = Vec::new();
        entry.read_to_end(&mut data).unwrap();
        seen.push((path, mode, data));
    }
    seen
}

#[test]
fn entry_name_sits_under_the_fixed_root() {
    assert_eq!(
        archive_entry_name(&"index/aa/bb".to_string()),
        "cache/index/aa/bb".to_string()
    );
    assert_eq!(archive_entry_name(&"x".to_string()), "cache/x".to_string());
}

#[test]
fn extracting_the_archive_reproduces_every_file() {
    let files = vec![
        CacheFile {
            rel_path: "index-v5/ab/cd".to_string(),
            mode: 0o644,
            data: b"cached response body".to_vec(),
        },
        CacheFile {
            rel_path: "content-v2/sha256/ef".to_string(),
            mode: 0o600,
            data: vec![0u8, 1, 2, 3, 255, 254],
        },
    ];
    let bytes = build_cache_archive(&files).unwrap();
    let seen = extract(&bytes);
    assert_eq!(seen.len(), 2);
    assert_eq!(seen[0].0, "cache/index-v5/ab/cd".to_string());
    assert_eq!(seen[0].1, 0o644);
    assert_eq!(seen[0].2, b"cached response body".to_vec());
    assert_eq!(seen[1].0, "cache/content-v2/sha256/ef".to_string());
    assert_eq!(seen[1].1, 0o600);
    assert_eq!(seen[1].2, vec![0u8, 1, 2, 3, 255, 254]);
    for (path, _, _) in &seen {
        assert!(path.starts_with("cache/"));
    }
}

#[test]
fn archive_of_no_files_extracts_to_no_entries() {
    let bytes = build_cache_archive(&Vec::new()).unwrap();
    let seen = extract(&bytes);
    assert_eq!(seen.len(), 0);
}

#[test]
fn long_entry_paths_survive_the_round_trip() {
    let long = "d".repeat(120);
    let rel = format!("{}/{}", long, long);
    let files = vec![CacheFile {
        rel_path: rel.clone(),
        mode: 0o644,
        data: b"x".to_vec(),
    }];
    let bytes = build_cache_archive(&files).unwrap();
    let seen = extract(&bytes);
    assert_eq!(seen.len(), 1);
    assert_eq!(seen[0].0, format!("cache/{}", rel));
}
