//! URL canonicalization behavior.

use instance_directory::canon::strip_url;

fn canon(s: &str) -> String {
    strip_url(s.to_string())
}

#[test]
fn test_url_rewrites() {
    for schema in ["https", "http"] {
        for suffix in ["/", "/?foo", "/#foo", "//", "/index.php"] {
            let url = format!("{schema}://privatebin.net{suffix}");
            let expected = format!("{schema}://privatebin.net");
            assert_eq!(strip_url(url), expected);
        }
    }
}

#[test]
fn canonical_form_is_stable() {
    let cases = [
        "https://example.com/",
        "https://example.com//",
        "https://example.com/?q=1",
        "https://example.com/#frag",
        "https://example.com/index.php",
        "http://example.com/sub/",
        "https://example.com/a//b///c",
        "http://zerobin-legacy.dssr.ch/",
    ];
    for case in cases {
        let once = canon(case);
        let twice = strip_url(once.clone());
        assert_eq!(once, twice);
    }
}

#[test]
fn query_and_fragment_are_dropped() {
    assert_eq!(canon("https://x.example/?q"), "https://x.example");
    assert_eq!(canon("https://x.example/#f"), "https://x.example");
    assert_eq!(canon("https://x.example/a?q=1#f"), "https://x.example/a");
    assert_eq!(canon("https://x.example/#f?q"), "https://x.example");
}

#[test]
fn sub_path_trailing_slash_is_kept() {
    assert_eq!(canon("https://x.example/sub/"), "https://x.example/sub/");
    assert_eq!(canon("https://x.example/sub//"), "https://x.example/sub/");
}

#[test]
fn duplicate_slashes_collapse() {
    assert_eq!(canon("https://x.example//a//b"), "https://x.example/a/b");
    assert_eq!(canon("http://x.example///"), "http://x.example");
}

#[test]
fn index_php_is_stripped_once() {
    assert_eq!(canon("https://x.example/index.php"), "https://x.example");
    assert_eq!(canon("https://x.example/a/index.php"), "https://x.example/a/");
    // only a single trailing marker is dropped per canonicalization
    assert_eq!(
        canon("https://x.example/index.phpindex.php"),
        "https://x.example/index.php"
    );
}
