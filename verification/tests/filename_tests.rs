use srcfetch::get_filename_from_url;
use srcfetch::last_path_segment;
use srcfetch::Error;

#[test]
fn test_get_filename_from_url() {
    let url = "http://releases.llvm.org/6.0.1/llvm-6.0.1.src.tar.xz";
    assert_eq!(
        get_filename_from_url(&url).unwrap(),
        "llvm-6.0.1.src.tar.xz"
    );
}

#[test]
fn filename_is_last_segment_only() {
    assert_eq!(
        get_filename_from_url("https://example.org/a/b/c.tar.gz").unwrap(),
        "c.tar.gz"
    );
}

#[test]
fn filename_single_segment() {
    assert_eq!(
        get_filename_from_url("http://example.org/archive.zip").unwrap(),
        "archive.zip"
    );
}

#[test]
fn filename_ignores_query() {
    assert_eq!(
        get_filename_from_url("http://example.org/dir/file.txt?version=2").unwrap(),
        "file.txt"
    );
}

#[test]
fn bare_host_is_invalid() {
    assert_eq!(
        get_filename_from_url("http://example.org"),
        Err(Error::InvalidUrl)
    );
}

#[test]
fn trailing_slash_is_invalid() {
    assert_eq!(
        get_filename_from_url("http://example.org/dir/"),
        Err(Error::InvalidUrl)
    );
}

#[test]
fn root_path_is_invalid() {
    assert_eq!(
        get_filename_from_url("http://example.org/"),
        Err(Error::InvalidUrl)
    );
}

#[test]
fn url_without_segments_is_invalid() {
    assert_eq!(
        get_filename_from_url("mailto:user@example.org"),
        Err(Error::InvalidUrl)
    );
}

#[test]
fn malformed_url_is_parse_error() {
    assert_eq!(
        get_filename_from_url("not a url at all"),
        Err(Error::UrlParse)
    );
}

#[test]
fn relative_url_is_parse_error() {
    assert_eq!(
        get_filename_from_url("/just/a/path"),
        Err(Error::UrlParse)
    );
}

#[test]
fn last_segment_of_path() {
    assert_eq!(last_path_segment("/6.0.1/llvm-6.0.1.src.tar.xz"), Some("llvm-6.0.1.src.tar.xz".to_string()));
    assert_eq!(last_path_segment("/archive.zip"), Some("archive.zip".to_string()));
    assert_eq!(last_path_segment("/"), None);
    assert_eq!(last_path_segment("/dir/"), None);
    assert_eq!(last_path_segment(""), None);
    assert_eq!(last_path_segment("no-leading-slash"), None);
}

#[test]
fn error_messages() {
    assert_eq!(
        Error::NotADirectory.message(),
        "Download destination must be a directory"
    );
    assert_eq!(Error::UrlParse.message(), "URL parse failed");
    assert_eq!(Error::InvalidUrl.message(), "URL is invalid");
}
