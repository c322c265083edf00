use yana_media::cache::{compute_url_hash, extract_file_extension, generate_cache_path};

#[test]
fn url_hash_is_first_sixteen_hex_of_sha256() {
    // sha256("hello") begins 2cf24dba5fb0a30e...
    assert_eq!(compute_url_hash("hello"), "2cf24dba5fb0a30e");
    // sha256("") begins e3b0c44298fc1c14...
    assert_eq!(compute_url_hash(""), "e3b0c44298fc1c14");
}

#[test]
fn url_hash_is_stable_across_calls() {
    let url = "https://example.test/images/photo.png?size=large";
    let first = compute_url_hash(url);
    let second = compute_url_hash(url);
    assert_eq!(first, second);
    assert_eq!(first.len(), 16);
}

#[test]
fn different_urls_hash_differently() {
    assert_ne!(
        compute_url_hash("https://example.test/a.png"),
        compute_url_hash("https://example.test/b.png")
    );
}

#[test]
fn cache_path_joins_dir_key_and_webp_suffix() {
    let p = generate_cache_path("/data/cache", "hello");
    assert_eq!(p, "/data/cache/2cf24dba5fb0a30e.webp");
}

#[test]
fn cache_path_is_idempotent_per_url() {
    let a = generate_cache_path("/data/cache", "https://example.test/x.jpg");
    let b = generate_cache_path("/data/cache", "https://example.test/x.jpg");
    assert_eq!(a, b);
}

#[test]
fn extension_comes_from_final_path_segment() {
    assert_eq!(extract_file_extension("https://h/a/b/photo.png"), ".png");
    assert_eq!(extract_file_extension("https://h/a/PHOTO.JPG?x=1&y=2"), ".jpg");
    assert_eq!(extract_file_extension("photo.jpeg"), ".jpeg");
    assert_eq!(extract_file_extension("https://h/archive.tar.gz"), ".gz");
}

#[test]
fn extension_falls_back_to_jpg() {
    assert_eq!(extract_file_extension("https://h/a/noext"), ".jpg");
    assert_eq!(extract_file_extension("https://h/a/"), ".jpg");
    assert_eq!(extract_file_extension(""), ".jpg");
    assert_eq!(extract_file_extension("https://h/dir.d/noext?q=.png"), ".jpg");
}
