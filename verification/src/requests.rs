//! The requests that the clients send.

use vstd::prelude::*;
use crate::text::{ascii_bytes, decimal, push_bytes, push_decimal, push_str};

verus! {

/// Chunks asked for in one HTTP download request.
pub const HTTP_CHUNK_COUNT: u64 = 50;

/// Bytes asked for, or sent, in one HTTP transfer (50 MiB).
pub const HTTP_DATA_SIZE: u64 = 52428800;

/// Bytes announced in a TCP speed-test request (15 GiB).
pub const TCP_DATA_SIZE: u128 = 16106127360;

/// Length of the chunk that the TCP and asynchronous uploads write.
pub const UPLOAD_CHUNK_LEN: usize = 65536;

/// The request head of one HTTP download request, asking for
/// `HTTP_CHUNK_COUNT` chunks and `HTTP_DATA_SIZE` bytes.
pub open spec fn download_head_of(path: Seq<u8>, now_millis: nat, host_port: Seq<u8>) -> Seq<u8> {
    ascii_bytes("GET "@) + path + ascii_bytes("?cors=true&r="@) + decimal(now_millis)
        + ascii_bytes("&ckSize="@) + decimal(50) + ascii_bytes("&size="@) + decimal(52428800)
        + ascii_bytes(" HTTP/1.1\r\nHost: "@) + host_port + ascii_bytes(
        "\r\nUser-Agent: bim/1.0\r\n\r\n"@,
    )
}

/// The request head of the HTTP upload, announcing `HTTP_DATA_SIZE` bytes.
pub open spec fn upload_head_of(path_query: Seq<u8>, host_port: Seq<u8>) -> Seq<u8> {
    ascii_bytes("POST "@) + path_query + ascii_bytes(" HTTP/1.1\r\nHost: "@) + host_port
        + ascii_bytes(
        "\r\nUser-Agent: Mozilla/5.0 (Windows NT 10.0; Win64; x64) AppleWebKit/537.36 (KHTML, like Gecko) Chrome/91.0.4472.124 Safari/537.36\r\nContent-Length: "@,
    ) + decimal(52428800) + ascii_bytes("\r\n\r\n"@)
}

/// The request head of one upload request of the asynchronous client.
pub open spec fn timed_upload_head_of(path: Seq<u8>, now_millis: nat, host_port: Seq<u8>) -> Seq<u8> {
    ascii_bytes("POST "@) + path + ascii_bytes("?r="@) + decimal(now_millis) + ascii_bytes(
        " HTTP/1.1\r\nHost: "@,
    ) + host_port + ascii_bytes("\r\nUser-Agent: bim/1.0\r\nContent-Length: "@) + decimal(
        52428800,
    ) + ascii_bytes("\r\n\r\n"@)
}

/// The request line of a TCP speed-test download.
pub open spec fn tcp_download_request_of() -> Seq<u8> {
    ascii_bytes("DOWNLOAD "@) + decimal(16106127360) + ascii_bytes("\n"@)
}

/// The request line of a TCP speed-test upload.
pub open spec fn tcp_upload_request_of() -> Seq<u8> {
    ascii_bytes("UPLOAD "@) + decimal(16106127360) + ascii_bytes(" 0\n"@)
}

/// `k` copies of `s`, one after the other.
pub open spec fn repeat(s: Seq<u8>, k: nat) -> Seq<u8>
    decreases k,
{
    if k == 0 {
        Seq::empty()
    } else {
        repeat(s, (k - 1) as nat) + s
    }
}

/// The 64 characters the upload chunk is made of.
pub open spec fn chunk_alphabet() -> Seq<u8> {
    ascii_bytes("0123456789AaBbCcDdEeFfGgHhIiJjKkLlMmNnOoPpQqRrSsTtUuVvWwXxYyZz-="@)
}

/// The upload chunk is `UPLOAD_CHUNK_LEN` bytes long.
pub proof fn law_upload_chunk_len()
    ensures
        repeat(chunk_alphabet(), 1024).len() == UPLOAD_CHUNK_LEN,
{
    reveal_strlit("0123456789AaBbCcDdEeFfGgHhIiJjKkLlMmNnOoPpQqRrSsTtUuVvWwXxYyZz-=");
    assert forall|k: nat| k <= 1024 implies #[trigger] repeat(chunk_alphabet(), k).len() == 64 * k by {
        lemma_repeat_len(chunk_alphabet(), k);
    }
}

proof fn lemma_repeat_len(s: Seq<u8>, k: nat)
    ensures
        repeat(s, k).len() == s.len() * k,
    decreases k,
{
    if k > 0 {
        let k1 = (k - 1) as nat;
        lemma_repeat_len(s, k1);
        let l = s.len();
        assert(l * k == l * k1 + l) by (nonlinear_arith)
            requires
                k == k1 + 1,
        ;
    } else {
        assert(s.len() * k == 0) by (nonlinear_arith)
            requires
                k == 0,
        ;
    }
}

/// The announced sizes: 50 chunks of 1 MiB over HTTP, 15 GiB over TCP.
pub proof fn law_announced_sizes()
    ensures
        HTTP_DATA_SIZE == HTTP_CHUNK_COUNT * 1024 * 1024,
        TCP_DATA_SIZE == 15 * 1024 * 1024 * 1024,
{
}

/// The request head of one HTTP download request (see `download_head_of`).
pub fn http_download_head(path: &[u8], now_millis: u128, host_port: &[u8]) -> (v: Vec<u8>)
    ensures
        v@ == download_head_of(path@, now_millis as nat, host_port@),
{
    proof {
        reveal_strlit("GET ");
        reveal_strlit("?cors=true&r=");
        reveal_strlit("&ckSize=");
        reveal_strlit("&size=");
        reveal_strlit(" HTTP/1.1\r\nHost: ");
        reveal_strlit("\r\nUser-Agent: bim/1.0\r\n\r\n");
    }
    let mut v: Vec<u8> = Vec::new();
    push_str(&mut v, "GET ");
    push_bytes(&mut v, path);
    push_str(&mut v, "?cors=true&r=");
    push_decimal(&mut v, now_millis);
    push_str(&mut v, "&ckSize=");
    push_decimal(&mut v, HTTP_CHUNK_COUNT as u128);
    push_str(&mut v, "&size=");
    push_decimal(&mut v, HTTP_DATA_SIZE as u128);
    push_str(&mut v, " HTTP/1.1\r\nHost: ");
    push_bytes(&mut v, host_port);
    push_str(&mut v, "\r\nUser-Agent: bim/1.0\r\n\r\n");
    v
}

/// The request head of the HTTP upload (see `upload_head_of`).
pub fn http_upload_head(path_query: &[u8], host_port: &[u8]) -> (v: Vec<u8>)
    ensures
        v@ == upload_head_of(path_query@, host_port@),
{
    proof {
        reveal_strlit("POST ");
        reveal_strlit(" HTTP/1.1\r\nHost: ");
        reveal_strlit(
            "\r\nUser-Agent: Mozilla/5.0 (Windows NT 10.0; Win64; x64) AppleWebKit/537.36 (KHTML, like Gecko) Chrome/91.0.4472.124 Safari/537.36\r\nContent-Length: ",
        );
        reveal_strlit("\r\n\r\n");
    }
    let mut v: Vec<u8> = Vec::new();
    push_str(&mut v, "POST ");
    push_bytes(&mut v, path_query);
    push_str(&mut v, " HTTP/1.1\r\nHost: ");
    push_bytes(&mut v, host_port);
    push_str(
        &mut v,
        "\r\nUser-Agent: Mozilla/5.0 (Windows NT 10.0; Win64; x64) AppleWebKit/537.36 (KHTML, like Gecko) Chrome/91.0.4472.124 Safari/537.36\r\nContent-Length: ",
    );
    push_decimal(&mut v, HTTP_DATA_SIZE as u128);
    push_str(&mut v, "\r\n\r\n");
    v
}

/// The request head of one upload request of the asynchronous client (see
/// `timed_upload_head_of`).
pub fn http_timed_upload_head(path: &[u8], now_millis: u128, host_port: &[u8]) -> (v: Vec<u8>)
    ensures
        v@ == timed_upload_head_of(path@, now_millis as nat, host_port@),
{
    proof {
        reveal_strlit("POST ");
        reveal_strlit("?r=");
        reveal_strlit(" HTTP/1.1\r\nHost: ");
        reveal_strlit("\r\nUser-Agent: bim/1.0\r\nContent-Length: ");
        reveal_strlit("\r\n\r\n");
    }
    let mut v: Vec<u8> = Vec::new();
    push_str(&mut v, "POST ");
    push_bytes(&mut v, path);
    push_str(&mut v, "?r=");
    push_decimal(&mut v, now_millis);
    push_str(&mut v, " HTTP/1.1\r\nHost: ");
    push_bytes(&mut v, host_port);
    push_str(&mut v, "\r\nUser-Agent: bim/1.0\r\nContent-Length: ");
    push_decimal(&mut v, HTTP_DATA_SIZE as u128);
    push_str(&mut v, "\r\n\r\n");
    v
}

/// The request line of a TCP speed-test download.
pub fn tcp_download_request() -> (v: Vec<u8>)
    ensures
        v@ == tcp_download_request_of(),
{
    proof {
        reveal_strlit("DOWNLOAD ");
        reveal_strlit("\n");
    }
    let mut v: Vec<u8> = Vec::new();
    push_str(&mut v, "DOWNLOAD ");
    push_decimal(&mut v, TCP_DATA_SIZE);
    push_str(&mut v, "\n");
    v
}

/// The request line of a TCP speed-test upload.
pub fn tcp_upload_request() -> (v: Vec<u8>)
    ensures
        v@ == tcp_upload_request_of(),
{
    proof {
        reveal_strlit("UPLOAD ");
        reveal_strlit(" 0\n");
    }
    let mut v: Vec<u8> = Vec::new();
    push_str(&mut v, "UPLOAD ");
    push_decimal(&mut v, TCP_DATA_SIZE);
    push_str(&mut v, " 0\n");
    v
}

/// The chunk that the TCP and asynchronous uploads write: the alphabet
/// repeated 1024 times.
pub fn upload_chunk() -> (v: Vec<u8>)
    ensures
        v@ == repeat(chunk_alphabet(), 1024),
{
    proof {
        reveal_strlit("0123456789AaBbCcDdEeFfGgHhIiJjKkLlMmNnOoPpQqRrSsTtUuVvWwXxYyZz-=");
    }
    let mut v: Vec<u8> = Vec::new();
    let mut k: usize = 0;
    while k < 1024
        invariant
            k <= 1024,
            v@ == repeat(chunk_alphabet(), k as nat),
        decreases 1024 - k,
    {
        proof {
            reveal_strlit("0123456789AaBbCcDdEeFfGgHhIiJjKkLlMmNnOoPpQqRrSsTtUuVvWwXxYyZz-=");
        }
        push_str(&mut v, "0123456789AaBbCcDdEeFfGgHhIiJjKkLlMmNnOoPpQqRrSsTtUuVvWwXxYyZz-=");
        k += 1;
    }
    v
}

} // verus!
