use bim_core::requests::{
    http_download_head, http_timed_upload_head, http_upload_head, tcp_download_request,
    tcp_upload_request, upload_chunk, HTTP_DATA_SIZE, TCP_DATA_SIZE, UPLOAD_CHUNK_LEN,
};
use bim_core::target::UrlParts;
use bim_core::text::{bytes_are, push_decimal};

#[test]
fn decimal_digits() {
    let mut v = Vec::new();
    push_decimal(&mut v, 0);
    assert_eq!(v, b"0".to_vec());
    let mut v = Vec::new();
    push_decimal(&mut v, 1234567890);
    assert_eq!(v, b"1234567890".to_vec());
    let mut v = Vec::new();
    push_decimal(&mut v, u128::MAX);
    assert_eq!(v, u128::MAX.to_string().into_bytes());
}

#[test]
fn bytes_compare_with_text() {
    assert!(bytes_are(b"http", "http"));
    assert!(!bytes_are(b"https", "http"));
    assert!(!bytes_are(b"htt", "http"));
}

#[test]
fn url_parts_of_a_full_url() {
    let u = UrlParts::parse("https://Example.com:8443/speed/down?x=1#frag").unwrap();
    assert_eq!(u.scheme, b"https".to_vec());
    assert_eq!(u.host, Some(b"example.com".to_vec()));
    assert_eq!(u.port, Some(8443));
    assert_eq!(u.path, b"/speed/down".to_vec());
    assert_eq!(u.query, Some(b"x=1".to_vec()));
    assert!(u.uses_tls());
    assert_eq!(u.port_or_known_default(), Some(8443));
    assert_eq!(u.host_port(), Some(b"example.com:8443".to_vec()));
    assert_eq!(u.path_and_query(), b"/speed/down?x=1".to_vec());
}

#[test]
fn url_default_ports() {
    let u = UrlParts::parse("http://127.0.0.1/download").unwrap();
    assert_eq!(u.port, None);
    assert_eq!(u.port_or_known_default(), Some(80));
    assert_eq!(u.host_port(), Some(b"127.0.0.1:80".to_vec()));
    assert!(!u.uses_tls());
    let u = UrlParts::parse("https://example.com").unwrap();
    assert_eq!(u.port_or_known_default(), Some(443));
    assert_eq!(u.path, b"/".to_vec());
    assert_eq!(u.path_and_query(), b"/".to_vec());
    let u = UrlParts::parse("ftp://example.com/").unwrap();
    assert_eq!(u.port_or_known_default(), Some(21));
    let u = UrlParts::parse("ws://example.com/").unwrap();
    assert_eq!(u.port_or_known_default(), Some(80));
    let u = UrlParts::parse("wss://example.com/").unwrap();
    assert_eq!(u.port_or_known_default(), Some(443));
}

#[test]
fn url_without_host_or_known_port() {
    let u = UrlParts::parse("foo://example.com/x").unwrap();
    assert_eq!(u.port_or_known_default(), None);
    assert_eq!(u.host_port(), None);
    assert_eq!(u.host_port_or_default(), b"example.com:80".to_vec());
    let u = UrlParts::parse("mailto:someone@example.com").unwrap();
    assert_eq!(u.host, None);
    assert_eq!(u.host_port(), None);
    assert_eq!(u.host_port_or_default(), b":80".to_vec());
}

#[test]
fn url_parse_rejects_non_urls() {
    assert!(UrlParts::parse("not a url").is_none());
    assert!(UrlParts::parse("").is_none());
}

#[test]
fn download_head_bytes() {
    let head = http_download_head(b"/download", 1700000000123, b"bench.im:80");
    assert_eq!(
        String::from_utf8(head).unwrap(),
        "GET /download?cors=true&r=1700000000123&ckSize=50&size=52428800 HTTP/1.1\r\nHost: bench.im:80\r\nUser-Agent: bim/1.0\r\n\r\n"
    );
}

#[test]
fn upload_head_bytes() {
    let head = http_upload_head(b"/upload?a=b", b"bench.im:443");
    assert_eq!(
        String::from_utf8(head).unwrap(),
        "POST /upload?a=b HTTP/1.1\r\nHost: bench.im:443\r\nUser-Agent: Mozilla/5.0 (Windows NT 10.0; Win64; x64) AppleWebKit/537.36 (KHTML, like Gecko) Chrome/91.0.4472.124 Safari/537.36\r\nContent-Length: 52428800\r\n\r\n"
    );
}

#[test]
fn timed_upload_head_bytes() {
    let head = http_timed_upload_head(b"/up", 42, b"h:1");
    assert_eq!(
        String::from_utf8(head).unwrap(),
        "POST /up?r=42 HTTP/1.1\r\nHost: h:1\r\nUser-Agent: bim/1.0\r\nContent-Length: 52428800\r\n\r\n"
    );
}

#[test]
fn tcp_request_lines() {
    assert_eq!(tcp_download_request(), b"DOWNLOAD 16106127360\n".to_vec());
    assert_eq!(tcp_upload_request(), b"UPLOAD 16106127360 0\n".to_vec());
    assert_eq!(TCP_DATA_SIZE, 15 * 1024 * 1024 * 1024);
    assert_eq!(HTTP_DATA_SIZE, 50 * 1024 * 1024);
}

#[test]
fn upload_chunk_is_the_repeated_alphabet() {
    let c = upload_chunk();
    assert_eq!(c.len(), UPLOAD_CHUNK_LEN);
    let expected = "0123456789AaBbCcDdEeFfGgHhIiJjKkLlMmNnOoPpQqRrSsTtUuVvWwXxYyZz-="
        .repeat(1024)
        .into_bytes();
    assert_eq!(c, expected);
}
