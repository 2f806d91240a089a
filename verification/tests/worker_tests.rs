use bim_core::requests::{HTTP_DATA_SIZE, UPLOAD_CHUNK_LEN};
use bim_core::workers::{
    keep_sampling, ChunkedUpload, ConnectRetry, HttpDownload, HttpUpload, Phase, TcpDownload,
    TcpUpload, TestStage, WorkerAction, CONNECT_ATTEMPTS, READ_BUFFER_LEN, UPLOAD_BLOCK_LEN,
};

#[test]
fn http_download_requests_until_full_then_asks_again() {
    let mut w = HttpDownload::new();
    assert_eq!(w.next_action(false), WorkerAction::SendRequest);
    w.request_sent(true);
    assert_eq!(w.next_action(false), WorkerAction::Read);
    assert_eq!(w.read_done(Some(READ_BUFFER_LEN)), READ_BUFFER_LEN);
    let mut total = READ_BUFFER_LEN;
    while total < HTTP_DATA_SIZE {
        assert_eq!(w.next_action(false), WorkerAction::Read);
        total += w.read_done(Some(READ_BUFFER_LEN));
    }
    assert_eq!(w.received, HTTP_DATA_SIZE);
    // The response is complete: a new request follows.
    assert_eq!(w.next_action(false), WorkerAction::SendRequest);
    assert_eq!(w.phase, Phase::Request);
    w.request_sent(true);
    assert_eq!(w.read_done(Some(10)), 10);
    assert_eq!(w.received, 10);
}

#[test]
fn http_download_stops_on_end_and_errors() {
    let mut w = HttpDownload::new();
    assert_eq!(w.next_action(true), WorkerAction::Stop);
    assert_eq!(w.phase, Phase::Finished);
    assert_eq!(w.next_action(false), WorkerAction::Stop);

    let mut w = HttpDownload::new();
    w.next_action(false);
    w.request_sent(false);
    assert_eq!(w.next_action(false), WorkerAction::Stop);

    let mut w = HttpDownload::new();
    w.next_action(false);
    w.request_sent(true);
    // An empty first reply ends the worker.
    assert_eq!(w.read_done(Some(0)), 0);
    assert_eq!(w.next_action(false), WorkerAction::Stop);

    let mut w = HttpDownload::new();
    w.next_action(false);
    w.request_sent(true);
    w.read_done(Some(100));
    assert_eq!(w.read_done(None), 0);
    assert_eq!(w.next_action(false), WorkerAction::Stop);

    let mut w = HttpDownload::new();
    w.next_action(false);
    w.request_sent(true);
    // The first read happens even when the phase has ended meanwhile.
    assert_eq!(w.next_action(true), WorkerAction::Read);
    w.read_done(Some(100));
    assert_eq!(w.next_action(true), WorkerAction::Stop);
}

#[test]
fn http_upload_sends_announced_size_in_blocks() {
    let mut w = HttpUpload::new();
    assert_eq!(w.next_action(true), WorkerAction::SendRequest);
    w.request_sent(true);
    let mut total = 0u64;
    loop {
        match w.next_action(false) {
            WorkerAction::Write(n) => {
                assert_eq!(n, UPLOAD_BLOCK_LEN);
                total += w.block_written(true);
                w.flushed(true);
            }
            WorkerAction::Stop => break,
            other => panic!("unexpected {:?}", other),
        }
    }
    assert_eq!(total, HTTP_DATA_SIZE);
    assert_eq!(w.sent, HTTP_DATA_SIZE);
    assert_eq!(w.phase, Phase::Finished);
}

#[test]
fn http_upload_stops_on_end_and_errors() {
    let mut w = HttpUpload::new();
    w.next_action(false);
    w.request_sent(true);
    assert_eq!(w.next_action(true), WorkerAction::Stop);

    let mut w = HttpUpload::new();
    w.next_action(false);
    w.request_sent(false);
    assert_eq!(w.next_action(false), WorkerAction::Stop);

    let mut w = HttpUpload::new();
    w.next_action(false);
    w.request_sent(true);
    w.next_action(false);
    assert_eq!(w.block_written(false), 0);
    assert_eq!(w.next_action(false), WorkerAction::Stop);

    let mut w = HttpUpload::new();
    w.next_action(false);
    w.request_sent(true);
    w.next_action(false);
    // The block counts even when the flush after it fails.
    assert_eq!(w.block_written(true), UPLOAD_BLOCK_LEN);
    w.flushed(false);
    assert_eq!(w.next_action(false), WorkerAction::Stop);
}

#[test]
fn chunked_upload_counts_head_and_chunks() {
    let mut w = ChunkedUpload::new();
    assert_eq!(w.next_action(false), WorkerAction::SendRequest);
    assert_eq!(w.request_sent(true, 120), 120);
    assert_eq!(w.next_action(false), WorkerAction::Write(UPLOAD_CHUNK_LEN as u64));
    assert_eq!(w.chunk_written(Some(65536)), 65536);
    assert_eq!(w.sent, 120 + 65536);
    while w.sent < HTTP_DATA_SIZE {
        assert_eq!(w.next_action(false), WorkerAction::Write(65536));
        w.chunk_written(Some(65536));
    }
    assert_eq!(w.next_action(false), WorkerAction::SendRequest);
    assert_eq!(w.next_action(true), WorkerAction::Stop);
}

#[test]
fn chunked_upload_stops_on_errors() {
    let mut w = ChunkedUpload::new();
    w.next_action(false);
    assert_eq!(w.request_sent(false, 120), 0);
    assert_eq!(w.next_action(false), WorkerAction::Stop);

    let mut w = ChunkedUpload::new();
    w.next_action(false);
    w.request_sent(true, 120);
    w.next_action(false);
    assert_eq!(w.chunk_written(None), 0);
    assert_eq!(w.next_action(false), WorkerAction::Stop);
}

#[test]
fn tcp_download_flow() {
    let mut w = TcpDownload::new();
    // The request goes out even if the phase has ended.
    assert_eq!(w.next_action(true), WorkerAction::SendRequest);
    w.request_sent(true);
    assert_eq!(w.next_action(true), WorkerAction::Read);
    assert_eq!(w.read_done(Some(500)), 500);
    assert_eq!(w.next_action(false), WorkerAction::Read);
    assert_eq!(w.read_done(Some(0)), 0);
    assert_eq!(w.next_action(false), WorkerAction::Read);
    assert_eq!(w.next_action(true), WorkerAction::Stop);

    let mut w = TcpDownload::new();
    w.next_action(false);
    w.request_sent(true);
    assert_eq!(w.read_done(Some(0)), 0);
    assert_eq!(w.next_action(false), WorkerAction::Stop);

    let mut w = TcpDownload::new();
    w.next_action(false);
    w.request_sent(false);
    assert_eq!(w.next_action(false), WorkerAction::Stop);
}

#[test]
fn tcp_upload_flow() {
    let mut w = TcpUpload::new();
    assert_eq!(w.next_action(false), WorkerAction::SendRequest);
    assert_eq!(w.request_sent(true, 21), 21);
    assert_eq!(w.next_action(false), WorkerAction::Write(65536));
    assert_eq!(w.chunk_written(Some(1000)), 1000);
    assert_eq!(w.next_action(true), WorkerAction::Stop);

    let mut w = TcpUpload::new();
    w.next_action(false);
    w.request_sent(true, 21);
    w.next_action(false);
    assert_eq!(w.chunk_written(None), 0);
    assert_eq!(w.next_action(false), WorkerAction::Stop);

    let mut w = TcpUpload::new();
    w.next_action(false);
    assert_eq!(w.request_sent(false, 21), 0);
    assert_eq!(w.next_action(false), WorkerAction::Stop);
}

#[test]
fn connect_gives_up_after_three_attempts() {
    let mut r = ConnectRetry::new();
    assert_eq!(r.left, CONNECT_ATTEMPTS);
    assert!(r.failed());
    assert!(r.failed());
    assert!(!r.failed());
    assert!(!r.failed());
}

#[test]
fn sampling_window_is_fourteen_seconds() {
    assert!(keep_sampling(0));
    assert!(keep_sampling(13_999_999));
    assert!(!keep_sampling(14_000_000));
}

#[test]
fn run_stages() {
    let s = TestStage::start();
    assert_eq!(s, TestStage::Ping);
    assert_eq!(s.advance(false), TestStage::Done(false));
    let s = s.advance(true);
    assert_eq!(s, TestStage::Upload);
    assert_eq!(s.advance(false), TestStage::Done(false));
    let s = s.advance(true);
    assert_eq!(s, TestStage::Download);
    assert_eq!(s.advance(true), TestStage::Done(true));
    assert_eq!(s.advance(false), TestStage::Done(false));
    assert_eq!(TestStage::Done(true).advance(false), TestStage::Done(true));
}

#[test]
fn unconnected_workers_pass_the_barrier_and_stop() {
    let mut w = HttpDownload::new();
    assert!(w.connection_failed());
    assert_eq!(w.next_action(false), WorkerAction::Stop);
    let mut w = HttpUpload::new();
    assert!(w.connection_failed());
    assert_eq!(w.next_action(false), WorkerAction::Stop);
    let mut w = ChunkedUpload::new();
    assert!(w.connection_failed());
    assert_eq!(w.next_action(false), WorkerAction::Stop);
    let mut w = TcpDownload::new();
    assert!(w.connection_failed());
    assert_eq!(w.next_action(false), WorkerAction::Stop);
    let mut w = TcpUpload::new();
    assert!(w.connection_failed());
    assert_eq!(w.next_action(false), WorkerAction::Stop);
}
