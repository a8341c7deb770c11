use syncplay::trust::{host_of_url, is_url, is_url_allowed};

#[test]
fn urls_and_hosts() {
    assert!(is_url("https://youtube.com/watch?v=1"));
    assert!(is_url("http://a"));
    assert!(!is_url("movie.mkv"));
    assert!(!is_url("ftp://host/file"));
    assert_eq!(host_of_url("https://user:pw@WWW.YouTube.com:443/watch"), "www.youtube.com");
    assert_eq!(host_of_url("http://example.org?x=1"), "example.org");
}

#[test]
fn trusted_domains_are_enforced() {
    let trusted = vec!["youtube.com".to_string(), "youtu.be".to_string()];
    assert!(is_url_allowed("https://www.youtube.com/watch?v=1", &trusted, true));
    assert!(is_url_allowed("https://youtu.be/abc", &trusted, true));
    assert!(!is_url_allowed("https://notyoutube.com/x", &trusted, true));
    assert!(!is_url_allowed("https://evil.example/x", &trusted, true));
    assert!(is_url_allowed("https://evil.example/x", &trusted, false));
    assert!(is_url_allowed("/home/me/movie.mkv", &trusted, true));
}
