//! Latency statistics over the round-trip samples of a ping test.

use vstd::prelude::*;

verus! {

broadcast use vstd::seq_lib::group_to_multiset_ensures;

/// Whether a sequence of samples is in ascending order.
pub open spec fn is_sorted(s: Seq<u128>) -> bool {
    forall|i: int, j: int| 0 <= i <= j < s.len() ==> s[i] <= s[j]
}

/// Where `x` goes in `r`: before the first element that is not smaller.
pub open spec fn insert_pos(x: u128, r: Seq<u128>) -> nat
    decreases r.len(),
{
    if r.len() == 0 {
        0
    } else if x <= r[0] {
        0
    } else {
        1 + insert_pos(x, r.drop_first())
    }
}

/// `s` in ascending order, built by inserting its elements one by one.
pub open spec fn sort_seq(s: Seq<u128>) -> Seq<u128>
    decreases s.len(),
{
    if s.len() == 0 {
        Seq::empty()
    } else {
        let r = sort_seq(s.drop_last());
        r.insert(insert_pos(s.last(), r) as int, s.last())
    }
}

proof fn lemma_insert_pos(x: u128, r: Seq<u128>)
    ensures
        insert_pos(x, r) <= r.len(),
        forall|k: int| 0 <= k < insert_pos(x, r) ==> r[k] < x,
        insert_pos(x, r) < r.len() ==> x <= r[insert_pos(x, r) as int],
    decreases r.len(),
{
    if r.len() > 0 && x > r[0] {
        lemma_insert_pos(x, r.drop_first());
        assert forall|k: int| 0 <= k < insert_pos(x, r) implies r[k] < x by {
            if k > 0 {
                assert(r[k] == r.drop_first()[k - 1]);
            }
        }
    }
}

proof fn lemma_insert_sorted(x: u128, r: Seq<u128>)
    requires
        is_sorted(r),
    ensures
        is_sorted(r.insert(insert_pos(x, r) as int, x)),
        r.insert(insert_pos(x, r) as int, x).len() == r.len() + 1,
{
    lemma_insert_pos(x, r);
    let p = insert_pos(x, r) as int;
    let t = r.insert(p, x);
    assert forall|i: int, j: int| 0 <= i <= j < t.len() implies t[i] <= t[j] by {
        if i < p && j < p {
        } else if i < p && j == p {
        } else if i < p {
            assert(r[i] <= r[j - 1]);
        } else if i == p && j == p {
        } else if i == p {
            assert(x <= r[p]);
            assert(r[p] <= r[j - 1]);
        } else {
            assert(r[i - 1] <= r[j - 1]);
        }
    }
}

/// The insertion sort yields an ascending permutation of its input.
pub proof fn law_sort_seq(s: Seq<u128>)
    ensures
        is_sorted(sort_seq(s)),
        sort_seq(s).len() == s.len(),
        sort_seq(s).to_multiset() == s.to_multiset(),
    decreases s.len(),
{
    if s.len() > 0 {
        let r = sort_seq(s.drop_last());
        law_sort_seq(s.drop_last());
        lemma_insert_sorted(s.last(), r);
        lemma_insert_pos(s.last(), r);
        vstd::seq_lib::to_multiset_insert(r, insert_pos(s.last(), r) as int, s.last());
        vstd::seq_lib::to_multiset_build(s.drop_last(), s.last());
        assert(s.drop_last().push(s.last()) =~= s);
    }
}

/// Inserts `x` into the ascending vector `v`, keeping it ascending.
fn insert_sorted(v: &mut Vec<u128>, x: u128)
    ensures
        final(v)@ == old(v)@.insert(insert_pos(x, old(v)@) as int, x),
{
    let ghost r = v@;
    let n = v.len();
    let mut p: usize = 0;
    proof {
        assert(r.skip(0) =~= r);
    }
    while p < n && v[p] < x
        invariant
            v@ == r,
            n == r.len(),
            p <= n,
            insert_pos(x, r) == p + insert_pos(x, r.skip(p as int)),
        decreases n - p,
    {
        proof {
            assert(r.skip(p as int).drop_first() =~= r.skip(p + 1));
        }
        p += 1;
    }
    proof {
        if p == n {
            assert(r.skip(p as int).len() == 0);
        }
    }
    v.insert(p, x);
}

/// The samples in ascending order.
pub fn sort_samples(s: &Vec<u128>) -> (r: Vec<u128>)
    ensures
        r@ == sort_seq(s@),
{
    let mut r: Vec<u128> = Vec::new();
    let n = s.len();
    let mut i: usize = 0;
    while i < n
        invariant
            n == s@.len(),
            i <= n,
            r@ == sort_seq(s@.take(i as int)),
        decreases n - i,
    {
        proof {
            assert(s@.take(i + 1).drop_last() =~= s@.take(i as int));
        }
        insert_sorted(&mut r, s[i]);
        i += 1;
    }
    proof {
        assert(s@.take(n as int) =~= s@);
    }
    r
}


/// A reply time that the HTTP client keeps: it arrived, within a second.
pub open spec fn is_valid_reply(r: u128) -> bool {
    0 < r < 1_000_000
}

/// The kept reply times, in the order they were measured.
pub open spec fn valid_replies(s: Seq<u128>) -> Seq<u128>
    decreases s.len(),
{
    if s.len() == 0 {
        Seq::empty()
    } else if is_valid_reply(s.last()) {
        valid_replies(s.drop_last()).push(s.last())
    } else {
        valid_replies(s.drop_last())
    }
}

/// How many of the `n` sorted reply times are dropped at each end: the
/// nearest integer to 5% of `n`, halves rounded up.
pub open spec fn http_trim_count(n: nat) -> nat {
    (n + 10) / 20
}

/// The sorted reply times that the HTTP client bases latency and jitter on:
/// the kept replies, sorted, with the trim count dropped at each end; `None`
/// when nothing remains.
pub open spec fn http_ping_window_of(s: Seq<u128>) -> Option<Seq<u128>> {
    let f = valid_replies(s);
    let n = f.len();
    let rc = http_trim_count(n);
    if n == 0 || n < 2 * rc || n - 2 * rc == 0 {
        None
    } else {
        Some(sort_seq(f).subrange(rc as int, n - rc))
    }
}

/// The middle part of the sorted kept reply times (see `http_ping_window_of`).
pub fn http_ping_window(samples: &Vec<u128>) -> (w: Option<Vec<u128>>)
    ensures
        match w {
            Some(v) => http_ping_window_of(samples@) == Some(v@),
            None => http_ping_window_of(samples@).is_none(),
        },
{
    let mut kept: Vec<u128> = Vec::new();
    let n = samples.len();
    let mut i: usize = 0;
    while i < n
        invariant
            n == samples@.len(),
            i <= n,
            kept@ == valid_replies(samples@.take(i as int)),
        decreases n - i,
    {
        proof {
            assert(samples@.take(i + 1).drop_last() =~= samples@.take(i as int));
        }
        let r = samples[i];
        if r > 0 && r < 1_000_000 {
            kept.push(r);
        }
        i += 1;
    }
    proof {
        assert(samples@.take(n as int) =~= samples@);
    }
    if kept.len() == 0 {
        return None;
    }
    let sorted = sort_samples(&kept);
    proof {
        law_sort_seq(kept@);
    }
    let len = sorted.len();
    let rc = len / 20 + (len % 20 + 10) / 20;
    if len < 2 * rc || len - 2 * rc == 0 {
        return None;
    }
    let w = copy_range(&sorted, rc, len - rc);
    Some(w)
}

/// The sum of the samples.
pub open spec fn sample_sum(w: Seq<u128>) -> int
    decreases w.len(),
{
    if w.len() == 0 {
        0
    } else {
        sample_sum(w.drop_last()) + w.last()
    }
}

/// The sum of the distances between neighbouring samples.
pub open spec fn gap_sum(w: Seq<u128>) -> int
    decreases w.len(),
{
    if w.len() < 2 {
        0
    } else {
        let a = w[w.len() - 2];
        let b = w.last();
        gap_sum(w.drop_last()) + if b >= a { b - a } else { a - b }
    }
}

/// Integer results of the HTTP client's ping test, over its latency window.
#[derive(PartialEq, Eq, Structural, Clone, Copy, Debug)]
pub struct HttpPingStats {
    /// The first (smallest) sample of the window, in microseconds.
    pub latency_micros: u128,
    /// The sum of the window's samples.
    pub sum: u128,
    /// The sum of the distances between neighbouring samples of the window.
    pub gap_total: u128,
    /// How many samples the window holds.
    pub count: usize,
}

/// The HTTP client's statistics: latency, sum, neighbour distances and size
/// of its latency window; `None` when there is no window.
pub open spec fn http_ping_stats_of(s: Seq<u128>) -> Option<HttpPingStats> {
    match http_ping_window_of(s) {
        None => None,
        Some(w) => Some(HttpPingStats {
            latency_micros: w[0],
            sum: sample_sum(w) as u128,
            gap_total: gap_sum(w) as u128,
            count: w.len() as usize,
        }),
    }
}

/// The HTTP client's ping statistics (see `http_ping_stats_of`).
pub fn http_ping_stats(samples: &Vec<u128>) -> (r: Option<HttpPingStats>)
    ensures
        r == http_ping_stats_of(samples@),
{
    let w = match http_ping_window(samples) {
        Some(w) => w,
        None => {
            return None;
        },
    };
    proof {
        law_http_window(samples@);
    }
    let n = w.len();
    let mut sum: u128 = 0;
    let mut gaps: u128 = 0;
    let mut i: usize = 0;
    while i < n
        invariant
            n == w@.len(),
            n > 0,
            i <= n,
            forall|k: int| 0 <= k < n ==> is_valid_reply(#[trigger] w@[k]),
            sum == sample_sum(w@.take(i as int)),
            gaps == gap_sum(w@.take(i as int)),
            sum <= 1_000_000 * i,
            gaps <= 1_000_000 * i,
            n <= usize::MAX,
        decreases n - i,
    {
        proof {
            assert(w@.take(i + 1).drop_last() =~= w@.take(i as int));
            assert(is_valid_reply(w@[i as int]));
            if i > 0 {
                assert(is_valid_reply(w@[i - 1]));
                assert(w@.take(i + 1)[i - 1] == w@[i - 1]);
            }
        }
        let x = w[i];
        sum = sum + x;
        if i > 0 {
            let y = w[i - 1];
            let d = if x >= y { x - y } else { y - x };
            gaps = gaps + d;
        }
        i += 1;
    }
    proof {
        assert(w@.take(n as int) =~= w@);
    }
    Some(HttpPingStats { latency_micros: w[0], sum, gap_total: gaps, count: n })
}

/// Copies `v[from..to]`.
fn copy_range(v: &Vec<u128>, from: usize, to: usize) -> (r: Vec<u128>)
    requires
        from <= to <= v@.len(),
    ensures
        r@ == v@.subrange(from as int, to as int),
{
    let mut r: Vec<u128> = Vec::new();
    let mut i = from;
    while i < to
        invariant
            from <= i <= to,
            to <= v@.len(),
            r@ == v@.subrange(from as int, i as int),
        decreases to - i,
    {
        r.push(v[i]);
        i += 1;
        proof {
            assert(r@ =~= v@.subrange(from as int, i as int));
        }
    }
    r
}

/// How many samples are positive (a reply arrived).
pub open spec fn positive_count(s: Seq<u128>) -> nat
    decreases s.len(),
{
    if s.len() == 0 {
        0
    } else {
        positive_count(s.drop_last()) + if s.last() > 0 { 1nat } else { 0nat }
    }
}

/// Sum of the distances from `m` of the positive samples.
pub open spec fn jitter_sum(s: Seq<u128>, m: u128) -> int
    decreases s.len(),
{
    if s.len() == 0 {
        0
    } else {
        jitter_sum(s.drop_last(), m) + if s.last() > 0 {
            if s.last() >= m { s.last() - m } else { m - s.last() }
        } else {
            0
        }
    }
}

/// The index range of the sorted samples that the TCP client keeps, given
/// `valid` replies: a tenth (rounded up) is dropped at each end, unless that
/// leaves nothing, in which case all are kept.
pub open spec fn tcp_bounds(valid: nat) -> (nat, nat) {
    let rc = valid / 10 + (valid % 10 + 9) / 10;
    let start: nat = if rc <= valid { rc } else { valid };
    let end: nat = if valid >= rc { (valid - rc) as nat } else { 0 };
    if start >= end { (0, valid) } else { (start, end) }
}

/// The positive samples (the replies), in the order they were measured.
pub open spec fn positive_samples(s: Seq<u128>) -> Seq<u128>
    decreases s.len(),
{
    if s.len() == 0 {
        Seq::empty()
    } else if s.last() > 0 {
        positive_samples(s.drop_last()).push(s.last())
    } else {
        positive_samples(s.drop_last())
    }
}

/// The samples the TCP client bases latency and jitter on: the replies,
/// sorted, then bounded by `tcp_bounds`.
pub open spec fn tcp_window(raw: Seq<u128>) -> Seq<u128> {
    let valid = positive_count(raw);
    let (start, end) = tcp_bounds(valid);
    sort_seq(positive_samples(raw)).subrange(start as int, end as int)
}

proof fn lemma_positive_samples(s: Seq<u128>)
    ensures
        positive_samples(s).len() == positive_count(s),
        forall|i: int| 0 <= i < positive_samples(s).len() ==> #[trigger] positive_samples(s)[i] > 0,
    decreases s.len(),
{
    if s.len() > 0 {
        lemma_positive_samples(s.drop_last());
    }
}

/// Integer results of the TCP client's ping test.
#[derive(PartialEq, Eq, Structural, Clone, Copy, Debug)]
pub struct TcpPingStats {
    /// The smallest sample of the window, in microseconds.
    pub min_micros: u128,
    /// Sum of the distances from the minimum of the window's positive samples.
    pub jitter_total: u128,
    /// Number of positive samples in the window.
    pub jitter_count: usize,
}

/// The TCP client's statistics over the samples of one ping test, in
/// measurement order (0 where no reply came); `None` when no reply came.
pub open spec fn tcp_ping_stats_of(raw: Seq<u128>) -> Option<TcpPingStats> {
    if positive_count(raw) == 0 {
        None
    } else {
        let w = tcp_window(raw);
        Some(TcpPingStats {
            min_micros: w[0],
            jitter_total: jitter_sum(w, w[0]) as u128,
            jitter_count: positive_count(w) as usize,
        })
    }
}

/// The jitter total that the TCP client accumulates.
pub open spec fn tcp_jitter_total(raw: Seq<u128>) -> int {
    if positive_count(raw) == 0 {
        0
    } else {
        jitter_sum(tcp_window(raw), tcp_window(raw)[0])
    }
}

/// Counts the positive samples.
fn count_positive(s: &Vec<u128>) -> (c: usize)
    ensures
        c as nat == positive_count(s@),
{
    let n = s.len();
    let mut c: usize = 0;
    let mut i: usize = 0;
    while i < n
        invariant
            n == s@.len(),
            i <= n,
            c as nat == positive_count(s@.take(i as int)),
            c <= i,
        decreases n - i,
    {
        proof {
            assert(s@.take(i + 1).drop_last() =~= s@.take(i as int));
        }
        if s[i] > 0 {
            c += 1;
        }
        i += 1;
    }
    proof {
        assert(s@.take(n as int) =~= s@);
    }
    c
}

/// The sum of the distances from `m` of the positive samples, or `None`
/// when it exceeds `u128::MAX`.
fn checked_jitter_sum(s: &Vec<u128>, m: u128) -> (r: Option<u128>)
    ensures
        match r {
            Some(t) => t == jitter_sum(s@, m),
            None => jitter_sum(s@, m) > u128::MAX,
        },
{
    let n = s.len();
    let mut total: u128 = 0;
    let mut i: usize = 0;
    while i < n
        invariant
            n == s@.len(),
            i <= n,
            total == jitter_sum(s@.take(i as int), m),
        decreases n - i,
    {
        proof {
            assert(s@.take(i + 1).drop_last() =~= s@.take(i as int));
        }
        let p = s[i];
        if p > 0 {
            let d = if p >= m { p - m } else { m - p };
            match total.checked_add(d) {
                Some(t) => {
                    total = t;
                },
                None => {
                    proof {
                        lemma_jitter_sum_grows(s@, m, (i + 1) as nat);
                    }
                    return None;
                },
            }
        }
        i += 1;
    }
    proof {
        assert(s@.take(n as int) =~= s@);
    }
    Some(total)
}

proof fn lemma_jitter_sum_grows(s: Seq<u128>, m: u128, k: nat)
    requires
        k <= s.len(),
    ensures
        jitter_sum(s.take(k as int), m) <= jitter_sum(s, m),
    decreases s.len(),
{
    if k < s.len() {
        assert(s.drop_last().take(k as int) =~= s.take(k as int));
        lemma_jitter_sum_grows(s.drop_last(), m, k);
    } else {
        assert(s.take(k as int) =~= s);
    }
}

/// The window of `tcp_window`.
fn tcp_window_exec(raw: &Vec<u128>) -> (w: Vec<u128>)
    ensures
        w@ == tcp_window(raw@),
        positive_count(raw@) > 0 ==> w@.len() > 0,
{
    let mut replies: Vec<u128> = Vec::new();
    let n = raw.len();
    let mut i: usize = 0;
    while i < n
        invariant
            n == raw@.len(),
            i <= n,
            replies@ == positive_samples(raw@.take(i as int)),
        decreases n - i,
    {
        proof {
            assert(raw@.take(i + 1).drop_last() =~= raw@.take(i as int));
        }
        if raw[i] > 0 {
            replies.push(raw[i]);
        }
        i += 1;
    }
    proof {
        assert(raw@.take(n as int) =~= raw@);
        assert(replies@ == positive_samples(raw@));
        lemma_positive_samples(raw@);
    }
    let valid = replies.len();
    let sorted = sort_samples(&replies);
    proof {
        law_sort_seq(replies@);
    }
    let rc = valid / 10 + (valid % 10 + 9) / 10;
    let start0 = if rc <= valid { rc } else { valid };
    let end0 = if valid >= rc { valid - rc } else { 0 };
    let (start, end) = if start0 >= end0 { (0, valid) } else { (start0, end0) };
    copy_range(&sorted, start, end)
}

/// The TCP client's ping statistics (see `tcp_ping_stats_of`).
pub fn tcp_ping_stats(raw: &Vec<u128>) -> (r: Option<TcpPingStats>)
    requires
        tcp_jitter_total(raw@) <= u128::MAX,
    ensures
        r == tcp_ping_stats_of(raw@),
{
    let w = tcp_window_exec(raw);
    if w.len() == 0 {
        return None;
    }
    let m = w[0];
    let total = match checked_jitter_sum(&w, m) {
        Some(t) => t,
        None => {
            return None;
        },
    };
    let count = count_positive(&w);
    Some(TcpPingStats { min_micros: m, jitter_total: total, jitter_count: count })
}

/// Whether the TCP client's jitter total fits in `u128`, so that
/// `tcp_ping_stats` may be called.
pub fn tcp_ping_fits(raw: &Vec<u128>) -> (b: bool)
    ensures
        b == (tcp_jitter_total(raw@) <= u128::MAX),
{
    let w = tcp_window_exec(raw);
    if w.len() == 0 {
        return true;
    }
    let m = w[0];
    checked_jitter_sum(&w, m).is_some()
}

/// The smallest positive sample, capped at ten seconds (the starting value
/// of the asynchronous client's minimum).
pub open spec fn capped_min(s: Seq<u128>) -> u128
    decreases s.len(),
{
    if s.len() == 0 {
        10_000_000
    } else {
        let m = capped_min(s.drop_last());
        if s.last() > 0 && s.last() < m { s.last() } else { m }
    }
}

/// Integer results of the asynchronous client's ping test.
#[derive(PartialEq, Eq, Structural, Clone, Copy, Debug)]
pub struct CappedPingStats {
    /// The smallest positive sample (at most ten seconds), in microseconds.
    pub min_micros: u128,
    /// Sum of the distances of the positive samples from the minimum.
    pub jitter_total: u128,
}

/// The asynchronous client's statistics over its samples; `None` when no
/// reply came.
pub open spec fn capped_ping_stats_of(raw: Seq<u128>) -> Option<CappedPingStats> {
    if positive_count(raw) == 0 {
        None
    } else {
        Some(CappedPingStats {
            min_micros: capped_min(raw),
            jitter_total: jitter_sum(raw, capped_min(raw)) as u128,
        })
    }
}

/// The capped minimum of the samples.
fn capped_min_exec(raw: &Vec<u128>) -> (m: u128)
    ensures
        m == capped_min(raw@),
{
    let n = raw.len();
    let mut m: u128 = 10_000_000;
    let mut i: usize = 0;
    while i < n
        invariant
            n == raw@.len(),
            i <= n,
            m == capped_min(raw@.take(i as int)),
        decreases n - i,
    {
        proof {
            assert(raw@.take(i + 1).drop_last() =~= raw@.take(i as int));
        }
        let p = raw[i];
        if p > 0 && p < m {
            m = p;
        }
        i += 1;
    }
    proof {
        assert(raw@.take(n as int) =~= raw@);
    }
    m
}

/// The asynchronous client's ping statistics (see `capped_ping_stats_of`).
pub fn capped_ping_stats(raw: &Vec<u128>) -> (r: Option<CappedPingStats>)
    requires
        jitter_sum(raw@, capped_min(raw@)) <= u128::MAX,
    ensures
        r == capped_ping_stats_of(raw@),
{
    if count_positive(raw) == 0 {
        return None;
    }
    let m = capped_min_exec(raw);
    match checked_jitter_sum(raw, m) {
        Some(t) => Some(CappedPingStats { min_micros: m, jitter_total: t }),
        None => None,
    }
}

/// Whether the asynchronous client's jitter total fits in `u128`, so that
/// `capped_ping_stats` may be called.
pub fn capped_ping_fits(raw: &Vec<u128>) -> (b: bool)
    ensures
        b == (jitter_sum(raw@, capped_min(raw@)) <= u128::MAX),
{
    let m = capped_min_exec(raw);
    checked_jitter_sum(raw, m).is_some()
}

proof fn lemma_valid_replies(s: Seq<u128>)
    ensures
        forall|i: int| 0 <= i < valid_replies(s).len() ==> is_valid_reply(#[trigger] valid_replies(s)[i]),
        valid_replies(s).len() <= s.len(),
    decreases s.len(),
{
    if s.len() > 0 {
        lemma_valid_replies(s.drop_last());
    }
}

proof fn lemma_sorted_elements_from(s: Seq<u128>, x: u128)
    requires
        sort_seq(s).contains(x),
    ensures
        s.contains(x),
{
    law_sort_seq(s);
    assert(sort_seq(s).to_multiset().count(x) > 0);
    assert(s.to_multiset().count(x) > 0);
}

/// The HTTP client's latency window is sorted, holds only kept replies (that
/// arrived within a second), and has the trim count dropped at each end.
pub proof fn law_http_window(s: Seq<u128>)
    requires
        http_ping_window_of(s).is_some(),
    ensures
        is_sorted(http_ping_window_of(s).unwrap()),
        http_ping_window_of(s).unwrap().len() == valid_replies(s).len() - 2 * http_trim_count(
            valid_replies(s).len(),
        ),
        forall|i: int|
            0 <= i < http_ping_window_of(s).unwrap().len() ==> is_valid_reply(
                #[trigger] http_ping_window_of(s).unwrap()[i],
            ),
{
    let f = valid_replies(s);
    let n = f.len();
    let rc = http_trim_count(n);
    let t = sort_seq(f);
    law_sort_seq(f);
    lemma_valid_replies(s);
    let w = http_ping_window_of(s).unwrap();
    assert(w == t.subrange(rc as int, n - rc));
    assert forall|i: int| 0 <= i < w.len() implies is_valid_reply(#[trigger] w[i]) by {
        assert(w[i] == t[i + rc]);
        assert(t.contains(w[i]));
        lemma_sorted_elements_from(f, w[i]);
        let j = choose|j: int| 0 <= j < f.len() && f[j] == w[i];
        assert(is_valid_reply(f[j]));
    }
}

/// The TCP client's window holds only replies: its minimum is a positive
/// sample, at most every sample of the window.
pub proof fn law_tcp_minimum(raw: Seq<u128>)
    requires
        positive_count(raw) > 0,
    ensures
        tcp_window(raw).len() > 0,
        forall|i: int|
            0 <= i < tcp_window(raw).len() ==> tcp_window(raw)[0] <= #[trigger] tcp_window(raw)[i],
        forall|i: int| 0 <= i < tcp_window(raw).len() ==> #[trigger] tcp_window(raw)[i] > 0,
{
    let r = positive_samples(raw);
    lemma_positive_samples(raw);
    law_sort_seq(r);
    let t = sort_seq(r);
    let (start, end) = tcp_bounds(positive_count(raw));
    let w = tcp_window(raw);
    assert(w == t.subrange(start as int, end as int));
    assert forall|i: int| 0 <= i < w.len() implies #[trigger] w[i] > 0 by {
        assert(w[i] == t[i + start]);
        assert(t.contains(w[i]));
        lemma_sorted_elements_from(r, w[i]);
        let j = choose|j: int| 0 <= j < r.len() && r[j] == w[i];
        assert(r[j] > 0);
    }
}

/// The asynchronous client's minimum is at most ten seconds and at most
/// every positive sample, and it is one of the positive samples unless it is
/// the ten seconds it starts from.
pub proof fn law_capped_min(s: Seq<u128>)
    ensures
        capped_min(s) <= 10_000_000,
        forall|i: int| 0 <= i < s.len() && s[i] > 0 ==> capped_min(s) <= #[trigger] s[i],
        capped_min(s) == 10_000_000 || exists|i: int|
            0 <= i < s.len() && s[i] > 0 && #[trigger] s[i] == capped_min(s),
    decreases s.len(),
{
    if s.len() > 0 {
        law_capped_min(s.drop_last());
        let m = capped_min(s.drop_last());
        if !(s.last() > 0 && s.last() < m) && m != 10_000_000 {
            let j = choose|j: int|
                0 <= j < s.drop_last().len() && s.drop_last()[j] > 0 && #[trigger] s.drop_last()[j] == m;
            assert(s[j] == s.drop_last()[j]);
        }
        assert forall|i: int| 0 <= i < s.len() && s[i] > 0 implies capped_min(s) <= #[trigger] s[i] by {
            if i < s.len() - 1 {
                assert(s[i] == s.drop_last()[i]);
            }
        }
    }
}

proof fn lemma_valid_replies_filter(s: Seq<u128>, pred: spec_fn(u128) -> bool)
    requires
        forall|r: u128| #[trigger] pred(r) == is_valid_reply(r),
    ensures
        valid_replies(s) == s.filter(pred),
    decreases s.len(),
{
    reveal(Seq::filter);
    if s.len() > 0 {
        lemma_valid_replies_filter(s.drop_last(), pred);
    }
}

proof fn lemma_positive_filter(s: Seq<u128>, pred: spec_fn(u128) -> bool)
    requires
        forall|r: u128| #[trigger] pred(r) == (r > 0),
    ensures
        positive_samples(s) == s.filter(pred),
        positive_count(s) == s.filter(pred).len(),
    decreases s.len(),
{
    reveal(Seq::filter);
    lemma_positive_samples(s);
    if s.len() > 0 {
        lemma_positive_filter(s.drop_last(), pred);
    }
}

/// The HTTP client keeps exactly the samples strictly between 0 and
/// 1_000_000 microseconds (a reply within a second), in measurement order.
/// With `n` kept replies it has a window exactly when `n > 0`: the kept
/// replies sorted, with `(n + 10) / 20` dropped at each end.
pub proof fn law_http_kept_replies(s: Seq<u128>)
    ensures
        ({
            let f = s.filter(|r: u128| 0 < r < 1_000_000);
            let n = f.len();
            let c = (n + 10) / 20;
            &&& (http_ping_window_of(s).is_some() <==> n > 0)
            &&& (n > 0 ==> http_ping_window_of(s) == Some(
                sort_seq(f).subrange(c as int, n - c),
            ))
        }),
{
    let pred = |r: u128| 0 < r < 1_000_000;
    lemma_valid_replies_filter(s, pred);
    let f = s.filter(pred);
    let n = f.len();
    law_sort_seq(f);
    assert(n > 0 ==> 2 * ((n + 10) / 20) < n);
}

/// Equal replies `r` with `0 < r < 1_000_000` are all kept: of `n > 0` of
/// them the window holds `n - 2 * ((n + 10) / 20)` copies of `r`, and the
/// latency is `r`.
pub proof fn law_http_equal_replies(s: Seq<u128>, r: u128)
    requires
        s.len() > 0,
        0 < r < 1_000_000,
        forall|i: int| 0 <= i < s.len() ==> s[i] == r,
    ensures
        ({
            let n = s.len();
            let c = (n + 10) / 20;
            http_ping_window_of(s) == Some(Seq::new((n - 2 * c) as nat, |i: int| r))
        }),
        http_ping_stats_of(s).unwrap().latency_micros == r,
{
    let n = s.len();
    let c = (n + 10) / 20;
    let pred = |x: u128| 0 < x < 1_000_000;
    lemma_valid_replies_filter(s, pred);
    law_http_kept_replies(s);
    lemma_equal_replies_kept(s, r);
    let f = valid_replies(s);
    assert(f =~= s);
    law_sort_seq(s);
    let t = sort_seq(s);
    assert forall|i: int| 0 <= i < t.len() implies t[i] == r by {
        assert(t.contains(t[i]));
        lemma_sorted_elements_from(s, t[i]);
    }
    let w = http_ping_window_of(s).unwrap();
    assert(w =~= Seq::new((n - 2 * c) as nat, |i: int| r));
}

proof fn lemma_equal_replies_kept(s: Seq<u128>, r: u128)
    requires
        0 < r < 1_000_000,
        forall|i: int| 0 <= i < s.len() ==> s[i] == r,
    ensures
        valid_replies(s) == s,
    decreases s.len(),
{
    if s.len() > 0 {
        lemma_equal_replies_kept(s.drop_last(), r);
        assert(s.drop_last().push(s.last()) =~= s);
    }
}

/// The TCP client keeps the positive samples (the replies); with `v` of
/// them, sorted, it drops `(v + 9) / 10` (a tenth, rounded up) at each end
/// when something remains, and keeps all of them otherwise. Its minimum is
/// the first sample of that window.
pub proof fn law_tcp_window_trim(raw: Seq<u128>)
    ensures
        ({
            let p = raw.filter(|x: u128| x > 0);
            let v = p.len();
            let c = (v + 9) / 10;
            &&& (v > 2 * c ==> tcp_window(raw) == sort_seq(p).subrange(c as int, v - c))
            &&& (v <= 2 * c ==> tcp_window(raw) == sort_seq(p))
            &&& (tcp_ping_stats_of(raw).is_some() <==> v > 0)
            &&& (v > 0 ==> tcp_ping_stats_of(raw).unwrap().min_micros == sort_seq(p)[
                if v > 2 * c { c as int } else { 0 }
            ])
        }),
{
    let pred = |x: u128| x > 0;
    lemma_positive_filter(raw, pred);
    let p = raw.filter(pred);
    let v = p.len();
    law_sort_seq(p);
    assert(sort_seq(p).subrange(0, v as int) =~= sort_seq(p));
}

proof fn lemma_gap_sum_sorted(w: Seq<u128>)
    requires
        w.len() > 0,
        is_sorted(w),
    ensures
        gap_sum(w) == w[w.len() - 1] - w[0],
    decreases w.len(),
{
    if w.len() >= 2 {
        lemma_gap_sum_sorted(w.drop_last());
        assert(w[w.len() - 2] <= w[w.len() - 1]);
    }
}

proof fn lemma_sum_of_equal(k: nat, r: u128)
    ensures
        sample_sum(Seq::new(k, |i: int| r)) == k * r,
        gap_sum(Seq::new(k, |i: int| r)) == 0,
    decreases k,
{
    if k > 0 {
        let q = Seq::new(k, |i: int| r);
        assert(q.drop_last() =~= Seq::new((k - 1) as nat, |i: int| r));
        lemma_sum_of_equal((k - 1) as nat, r);
        assert(k * r == (k - 1) * r + r) by (nonlinear_arith);
    }
}

/// The HTTP client's neighbour distances over its sorted window add up to
/// the distance between the window's last and first sample.
pub proof fn law_http_gap_total(s: Seq<u128>)
    requires
        http_ping_window_of(s).is_some(),
    ensures
        ({
            let w = http_ping_window_of(s).unwrap();
            let st = http_ping_stats_of(s).unwrap();
            &&& st.latency_micros == w[0]
            &&& st.gap_total == w[w.len() - 1] - w[0]
            &&& st.latency_micros <= w[w.len() - 1]
        }),
{
    law_http_window(s);
    let w = http_ping_window_of(s).unwrap();
    lemma_gap_sum_sorted(w);
}

/// Of `n > 0` equal replies `r` with `0 < r < 1_000_000`, the HTTP client's
/// window holds `k = n - 2 * ((n + 10) / 20)` of them: their sum is `k * r`
/// and their neighbour distances add up to zero.
pub proof fn law_http_equal_stats(s: Seq<u128>, r: u128)
    requires
        s.len() > 0,
        s.len() <= usize::MAX,
        0 < r < 1_000_000,
        forall|i: int| 0 <= i < s.len() ==> s[i] == r,
    ensures
        ({
            let n = s.len();
            let k = n - 2 * ((n + 10) / 20);
            let st = http_ping_stats_of(s).unwrap();
            &&& st.sum == k * r
            &&& st.gap_total == 0
            &&& st.count == k
            &&& st.latency_micros == r
        }),
{
    let n = s.len();
    let c = (n + 10) / 20;
    let k = (n - 2 * c) as nat;
    law_http_equal_replies(s, r);
    lemma_sum_of_equal(k, r);
    assert(k * r <= usize::MAX * 1_000_000) by (nonlinear_arith)
        requires
            k <= n,
            n <= usize::MAX,
            r < 1_000_000,
    ;
    assert(usize::MAX * 1_000_000 <= u128::MAX);
    lemma_valid_replies(s);
}

proof fn lemma_jitter_above(s: Seq<u128>, m: u128)
    requires
        forall|i: int| 0 <= i < s.len() ==> s[i] > 0 && s[i] >= m,
    ensures
        jitter_sum(s, m) == sample_sum(s) - s.len() * m,
        positive_count(s) == s.len(),
    decreases s.len(),
{
    if s.len() > 0 {
        let k = s.len();
        lemma_jitter_above(s.drop_last(), m);
        assert(k * m == (k - 1) * m + m) by (nonlinear_arith);
    }
}

/// The TCP client's jitter is taken over every sample of its window: the
/// count is the window's size, and the total is the sum of the window's
/// samples less the minimum once per sample.
pub proof fn law_tcp_jitter(raw: Seq<u128>)
    requires
        positive_count(raw) > 0,
    ensures
        ({
            let w = tcp_window(raw);
            &&& positive_count(w) == w.len()
            &&& tcp_jitter_total(raw) == sample_sum(w) - w.len() * w[0]
            &&& w.len() <= raw.len()
        }),
        raw.len() <= usize::MAX ==> tcp_ping_stats_of(raw).unwrap().jitter_count == tcp_window(
            raw,
        ).len(),
{
    law_tcp_minimum(raw);
    let w = tcp_window(raw);
    lemma_jitter_above(w, w[0]);
    lemma_positive_samples(raw);
    law_sort_seq(positive_samples(raw));
    lemma_positive_count_bounded(raw);
}

proof fn lemma_positive_count_bounded(s: Seq<u128>)
    ensures
        positive_count(s) <= s.len(),
    decreases s.len(),
{
    if s.len() > 0 {
        lemma_positive_count_bounded(s.drop_last());
    }
}
} // verus!
