use intersystems_ls::uri::Uri;

#[test]
fn parse_accepts_file_url() {
    let uri = Uri::parse("file:///C:/work/Demo.cls").unwrap();
    assert_eq!(uri.as_str(), "file:///C:/work/Demo.cls");
    assert_eq!(uri.scheme(), "file");
}

#[test]
fn parse_normalizes_serialization() {
    let uri = Uri::parse("HTTP://Example.COM").unwrap();
    assert_eq!(uri.as_str(), "http://example.com/");
    assert_eq!(uri.scheme(), "http");
}

#[test]
fn parse_refuses_relative_text() {
    assert!(Uri::parse("not a url").is_none());
    assert!(Uri::parse("").is_none());
}

#[test]
fn uris_compare_by_serialization() {
    let a = Uri::parse("file:///a.cls").unwrap();
    let b = Uri::parse("file:///a.cls").unwrap();
    let c = Uri::parse("file:///b.cls").unwrap();
    assert!(a == b);
    assert!(a != c);
    assert!(a.duplicate() == a);
}
