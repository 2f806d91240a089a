use bim_core::select::{
    client_kind, client_step, server_step, str_is, ClientKind, ClientStep, ServerKind, ServerStep,
};
use bim_core::server::{
    response, route_request, route_text, white_space, Route, DOWNLOAD_BLOCKS, DOWNLOAD_BLOCK_LEN,
};

fn padded(req: &str) -> Vec<u8> {
    let mut buf = [0u8; 1024];
    buf[..req.len()].copy_from_slice(req.as_bytes());
    buf.to_vec()
}

#[test]
fn routes_of_requests() {
    assert_eq!(route_request(&padded("GET / HTTP/1.1\r\nHost: x\r\n\r\n")), Route::Name);
    assert_eq!(route_request(&padded("GET /nj HTTP/1.1\r\n\r\n")), Route::NameJustified);
    assert_eq!(route_request(&padded("GET /download?size=5 HTTP/1.1\r\n")), Route::Download);
    assert_eq!(route_request(&padded("POST /upload HTTP/1.1\r\n")), Route::Upload);
    assert_eq!(route_request(&padded("GET /other HTTP/1.1\r\n")), Route::NotFound);
    assert_eq!(route_request(&padded("GET /download/x HTTP/1.1\r\n")), Route::NotFound);
}

#[test]
fn routes_ignore_leading_slashes_and_queries() {
    assert_eq!(route_text("GET ///download HTTP/1.1"), Route::Download);
    assert_eq!(route_text("GET //?a=b HTTP/1.1"), Route::Name);
    assert_eq!(route_text("GET upload HTTP/1.1"), Route::Upload);
}

#[test]
fn routes_without_target_are_ignored() {
    assert_eq!(route_text(""), Route::Ignore);
    assert_eq!(route_text("GET"), Route::Ignore);
    assert_eq!(route_text("\nGET / HTTP/1.1"), Route::Ignore);
    assert_eq!(route_text("   GET   "), Route::Ignore);
}

#[test]
fn zero_padding_is_no_white_space() {
    // Without a line break, the padding sticks to the last word.
    let mut buf = b"GET /nj".to_vec();
    buf.extend_from_slice(&[0u8; 8]);
    assert_eq!(route_request(&buf), Route::NotFound);
}

#[test]
fn unicode_white_space_splits_words() {
    assert_eq!(route_text("GET\u{3000}/download\u{a0}HTTP/1.1"), Route::Download);
    assert!(white_space('\u{85}'));
    assert!(!white_space('\u{0}'));
    assert!(white_space('\t'));
}

#[test]
fn invalid_utf8_is_replaced() {
    let mut buf = b"GET /up".to_vec();
    buf.push(0xff);
    buf.extend_from_slice(b"load HTTP/1.1\r\n");
    assert_eq!(route_request(&buf), Route::NotFound);
}

#[test]
fn line_ending_handling() {
    assert_eq!(route_text("GET /nj\r\nrest"), Route::NameJustified);
    // A carriage return is white space: it ends the word.
    assert_eq!(route_text("GET /nj\r"), Route::NameJustified);
    assert_eq!(route_text("GET /nj\rx"), Route::NameJustified);
}

#[test]
fn responses() {
    assert_eq!(
        response(Route::Name, "测速".as_bytes(), b"x"),
        [b"HTTP/1.1 200 OK\r\nContent-Length: 6\r\n\r\n".to_vec(), "测速".as_bytes().to_vec()].concat()
    );
    assert_eq!(
        response(Route::NameJustified, b"a", b"justified"),
        b"HTTP/1.1 200 OK\r\nContent-Length: 9\r\n\r\njustified".to_vec()
    );
    assert_eq!(
        response(Route::Download, b"a", b"b"),
        b"HTTP/1.1 200 OK\r\nContent-Length: 16777216\r\n\r\n".to_vec()
    );
    assert_eq!(DOWNLOAD_BLOCK_LEN * DOWNLOAD_BLOCKS, 16777216);
    assert_eq!(
        response(Route::Upload, b"a", b"b"),
        b"HTTP/1.1 200 OK\r\nContent-Length: 2\r\n\r\nOK".to_vec()
    );
    assert_eq!(
        response(Route::NotFound, b"a", b"b"),
        b"HTTP/1.1 404 NOT FOUND\r\nContent-Length: 9\r\n\r\nNot Found".to_vec()
    );
    assert_eq!(response(Route::Ignore, b"a", b"b"), Vec::<u8>::new());
}

#[test]
fn client_names() {
    assert_eq!(client_kind("http"), Some(ClientKind::Http));
    assert_eq!(client_kind("tcp"), Some(ClientKind::Tcp));
    assert_eq!(client_kind("HTTP"), None);
    assert_eq!(client_kind(""), None);
    assert!(str_is("测速", "测速"));
    assert!(!str_is("测速", "测"));
}

#[test]
fn server_names_ignore_case() {
    assert_eq!(ServerKind::from_name("http"), Some(ServerKind::Http));
    assert_eq!(ServerKind::from_name("HTTP"), Some(ServerKind::Http));
    assert_eq!(ServerKind::from_name("HtTp"), Some(ServerKind::Http));
    assert_eq!(ServerKind::from_name("https"), None);
    assert_eq!(ServerKind::from_name("Ｈttp"), None);
    assert_eq!(ServerKind::from_lowercase("HTTP"), None);
}

#[test]
fn client_command_line_decisions() {
    assert_eq!(client_step(true, 0, true, true, true), ClientStep::ShowHelp);
    assert_eq!(client_step(false, 1, true, false, false), ClientStep::MissingUrls);
    assert_eq!(client_step(false, 2, true, true, true), ClientStep::PrintName);
    assert_eq!(client_step(false, 2, false, true, true), ClientStep::ConflictingIpFlags);
    assert_eq!(client_step(false, 3, false, true, false), ClientStep::RunTest);
    assert_eq!(server_step(true, 1), ServerStep::ShowHelp);
    assert_eq!(server_step(false, 0), ServerStep::MissingAddress);
    assert_eq!(server_step(false, 1), ServerStep::Serve);
}
