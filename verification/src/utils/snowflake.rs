//! Snowflake reply identifiers: milliseconds since a custom epoch, a node id and
//! a per-process sequence number packed into 64 bits, then written in URL-safe
//! base64.
use vstd::prelude::*;

verus! {

/// The custom epoch, 2021-01-01T00:00:00Z, in milliseconds since the Unix epoch.
pub const EPOCH_OFFSET: u64 = 1609459200000;

/// Bits of the identifier that hold the node id.
pub const NODE_ID_BITS: u64 = 10;

/// Bits of the identifier that hold the sequence number.
pub const SEQUENCE_BITS: u64 = 12;

/// Milliseconds between the custom epoch and `timestamp_ms`, wrapping below zero
/// as `u64` subtraction does in a release build.
pub open spec fn since_epoch(timestamp_ms: u64) -> u64 {
    vstd::wrapping::u64_specs::wrapping_sub(timestamp_ms, EPOCH_OFFSET)
}

/// The 64-bit identifier: the time since the epoch above bit 22, the low 10
/// bits of the node id in bits 12 to 21, and the low 12 bits of the sequence
/// number in bits 0 to 11, read as a signed number.
pub open spec fn snowflake_spec(timestamp_ms: u64, node_id: u16, sequence: u16) -> i64 {
    ((since_epoch(timestamp_ms) << 22u64) | (((node_id & 0x3ffu16) as u64) << 12u64) | ((
    sequence & 0xfffu16) as u64)) as i64
}

/// The eight big-endian bytes of `x`.
pub open spec fn be_i64_bytes(x: i64) -> Seq<u8> {
    let u = x as u64;
    seq![
        (u >> 56u64) as u8,
        ((u >> 48u64) & 0xffu64) as u8,
        ((u >> 40u64) & 0xffu64) as u8,
        ((u >> 32u64) & 0xffu64) as u8,
        ((u >> 24u64) & 0xffu64) as u8,
        ((u >> 16u64) & 0xffu64) as u8,
        ((u >> 8u64) & 0xffu64) as u8,
        (u & 0xffu64) as u8,
    ]
}

/// The URL-safe base64 digit for a six-bit value: `A`-`Z`, `a`-`z`, `0`-`9`,
/// then `-` and `_`.
pub open spec fn b64_char(v: nat) -> char {
    if v < 26 {
        (v + 65) as char
    } else if v < 52 {
        (v + 71) as char
    } else if v < 62 {
        (v - 4) as char
    } else if v == 62 {
        '-'
    } else {
        '_'
    }
}

/// Padded URL-safe base64 (RFC 4648, section 5): every three bytes become four
/// digits; a last group of one or two bytes becomes two or three digits and
/// is padded with `=` to four.
pub open spec fn base64_url_safe(b: Seq<u8>) -> Seq<char>
    decreases b.len(),
{
    if b.len() == 0 {
        Seq::empty()
    } else if b.len() == 1 {
        seq![b64_char(b[0] as nat / 4), b64_char((b[0] as nat % 4) * 16), '=', '=']
    } else if b.len() == 2 {
        seq![
            b64_char(b[0] as nat / 4),
            b64_char((b[0] as nat % 4) * 16 + b[1] as nat / 16),
            b64_char((b[1] as nat % 16) * 4),
            '=',
        ]
    } else {
        seq![
            b64_char(b[0] as nat / 4),
            b64_char((b[0] as nat % 4) * 16 + b[1] as nat / 16),
            b64_char((b[1] as nat % 16) * 4 + b[2] as nat / 64),
            b64_char(b[2] as nat % 64),
        ] + base64_url_safe(b.skip(3))
    }
}

/// `base64::engine::general_purpose::URL_SAFE.encode`: the padded URL-safe
/// base64 text of `bytes`. The encoder panics only when the text's length
/// would overflow `usize`, which the `requires` rules out.
#[verifier::external_body]
fn url_safe_base64(bytes: &[u8]) -> (r: String)
    requires
        bytes@.len() <= 3 * (usize::MAX / 4),
    ensures
        r@ == base64_url_safe(bytes@),
{
    base64::Engine::encode(&base64::engine::general_purpose::URL_SAFE, bytes)
}

/// Milliseconds since the Unix epoch of a clock reading of `secs` seconds and
/// `nanos` nanoseconds, as `Duration::as_millis` counts them, cut to 64 bits.
pub open spec fn millis_of(secs: u64, nanos: u32) -> u64 {
    ((secs as u128) * 1000 + (nanos / 1_000_000) as u128) as u64
}

/// The text of the identifier made at `timestamp_ms` on `node_id` with the
/// sequence number `sequence`.
pub open spec fn snowflake_text(timestamp_ms: u64, node_id: u16, sequence: u16) -> Seq<char> {
    base64_url_safe(be_i64_bytes(snowflake_spec(timestamp_ms, node_id, sequence)))
}

/// Milliseconds since the Unix epoch of a clock reading (seconds and
/// nanoseconds), as `Duration::as_millis` counts them; `None` without a reading.
fn millis_since_unix_epoch(reading: Option<(u64, u32)>) -> (r: Option<u128>)
    ensures
        match reading {
            Some(t) => r == Some(((t.0 as u128) * 1000 + (t.1 / 1_000_000) as u128) as u128),
            None => r is None,
        },
{
    match reading {
        Some((secs, nanos)) => Some((secs as u128) * 1000 + (nanos / 1_000_000) as u128),
        None => None,
    }
}

/// The numeric identifier for a reading of the clock, a node id and a sequence number.
pub fn snowflake_id_value(timestamp_ms: u64, node_id: u16, sequence: u16) -> (r: i64)
    ensures
        r == snowflake_spec(timestamp_ms, node_id, sequence),
{
    let node_id = node_id & 0x3ff;
    let since = timestamp_ms.wrapping_sub(EPOCH_OFFSET);
    let sequence = sequence & 0xfff;
    ((since << 22u64) | ((node_id as u64) << 12u64) | (sequence as u64)) as i64
}

/// The eight big-endian bytes of `x`, as `x.to_be_bytes()` gives them.
fn i64_be_bytes(x: i64) -> (r: Vec<u8>)
    ensures
        r@ == be_i64_bytes(x),
{
    let u = x as u64;
    let mut r: Vec<u8> = Vec::new();
    r.push((u >> 56u64) as u8);
    r.push(((u >> 48u64) & 0xffu64) as u8);
    r.push(((u >> 40u64) & 0xffu64) as u8);
    r.push(((u >> 32u64) & 0xffu64) as u8);
    r.push(((u >> 24u64) & 0xffu64) as u8);
    r.push(((u >> 16u64) & 0xffu64) as u8);
    r.push(((u >> 8u64) & 0xffu64) as u8);
    r.push((u & 0xffu64) as u8);
    assert(r@ =~= be_i64_bytes(x));
    r
}

/// The text form of the identifier: URL-safe base64 of its big-endian bytes.
pub fn snowflake_from_parts(timestamp_ms: u64, node_id: u16, sequence: u16) -> (r: String)
    ensures
        r@ == base64_url_safe(be_i64_bytes(snowflake_spec(timestamp_ms, node_id, sequence))),
        r@.len() == 12,
        r@[11] == '=',
{
    let id = snowflake_id_value(timestamp_ms, node_id, sequence);
    let bytes = i64_be_bytes(id);
    proof {
        lemma_base64_of_eight(bytes@);
    }
    url_safe_base64(bytes.as_slice())
}

/// The identifier for `node_id` made from the clock reading `reading`
/// (seconds and nanoseconds since the Unix epoch), taking the next value of the
/// sequence counter, which then moves on by one, wrapping. Its time field is the
/// reading in milliseconds (cut to 64 bits); `None` only without a reading.
pub fn snowflake_id_at(node_id: u16, sequence: &mut u16, reading: Option<(u64, u32)>) -> (r: Option<String>)
    ensures
        *final(sequence) == vstd::wrapping::u16_specs::wrapping_add(*old(sequence), 1),
        match reading {
            Some((secs, nanos)) => r matches Some(s) && s@ == snowflake_text(
                millis_of(secs, nanos),
                node_id,
                *old(sequence),
            ),
            None => r is None,
        },
{
    let seq_now = *sequence;
    *sequence = seq_now.wrapping_add(1);
    match millis_since_unix_epoch(reading) {
        Some(ms) => {
            let timestamp = ms as u64;
            let s = snowflake_from_parts(timestamp, node_id, seq_now);
            Some(s)
        },
        None => None,
    }
}

/// A new identifier for `node_id`, taking the next value of the sequence
/// counter (which then moves on by one, wrapping) and the current time in
/// milliseconds (truncated to 64 bits). `None` only when the clock reads
/// earlier than the Unix epoch.
pub fn generate_snowflake_id(node_id: u16, sequence: &mut u16) -> (r: Option<String>)
    ensures
        *final(sequence) == vstd::wrapping::u16_specs::wrapping_add(*old(sequence), 1),
        r matches Some(s) ==> exists|t: u64|
            s@ == base64_url_safe(be_i64_bytes(#[trigger] snowflake_spec(t, node_id, *old(sequence)))),
{
    snowflake_id_at(node_id, sequence, crate::utils::time::unix_time_now())
}

/// Times that fit the identifier's time field: from the custom epoch on, for
/// 2^42 milliseconds.
pub open spec fn in_time_field(timestamp_ms: u64) -> bool {
    EPOCH_OFFSET <= timestamp_ms && timestamp_ms - EPOCH_OFFSET < 0x40000000000
}

/// The time can be read back from an identifier: two made at different
/// milliseconds that fit the time field differ, whatever their nodes and
/// sequence numbers.
pub proof fn law_snowflake_time_distinct(t1: u64, t2: u64, n1: u16, n2: u16, s1: u16, s2: u16)
    requires
        t1 != t2,
        in_time_field(t1),
        in_time_field(t2),
    ensures
        snowflake_text(t1, n1, s1) != snowflake_text(t2, n2, s2),
{
    law_snowflake_fields(t1, n1, s1);
    law_snowflake_fields(t2, n2, s2);
    let a = since_epoch(t1);
    let b = since_epoch(t2);
    assert(a == t1 - EPOCH_OFFSET && b == t2 - EPOCH_OFFSET);
    assert(a & 0x3ffffffffffu64 == a) by (bit_vector)
        requires
            a < 0x40000000000u64,
    ;
    assert(b & 0x3ffffffffffu64 == b) by (bit_vector)
        requires
            b < 0x40000000000u64,
    ;
    if snowflake_text(t1, n1, s1) == snowflake_text(t2, n2, s2) {
        law_base64_injective(
            be_i64_bytes(snowflake_spec(t1, n1, s1)),
            be_i64_bytes(snowflake_spec(t2, n2, s2)),
        );
        lemma_be_i64_bytes_injective(snowflake_spec(t1, n1, s1), snowflake_spec(t2, n2, s2));
    }
}

proof fn lemma_base64_of_eight(b: Seq<u8>)
    requires
        b.len() == 8,
    ensures
        base64_url_safe(b).len() == 12,
        base64_url_safe(b)[11] == '=',
{
    let b1 = b.skip(3);
    let b2 = b1.skip(3);
    assert(b2.len() == 2);
    assert(base64_url_safe(b2).len() == 4);
    assert(base64_url_safe(b1).len() == 8);
}

proof fn lemma_base64_len(b: Seq<u8>)
    ensures
        base64_url_safe(b).len() == 4 * ((b.len() + 2) / 3),
    decreases b.len(),
{
    if b.len() >= 3 {
        lemma_base64_len(b.skip(3));
    }
}

proof fn lemma_b64_char_props(v: nat, w: nat)
    requires
        v < 64,
        w < 64,
    ensures
        b64_char(v) != '=',
        b64_char(v) == b64_char(w) ==> v == w,
{
    assert(b64_char(v) != '=');
}

proof fn lemma_b64_group(a0: u8, a1: u8, a2: u8, b0: u8, b1: u8, b2: u8)
    requires
        a0 / 4 == b0 / 4,
        (a0 % 4) * 16 + a1 / 16 == (b0 % 4) * 16 + b1 / 16,
        (a1 % 16) * 4 + a2 / 64 == (b1 % 16) * 4 + b2 / 64,
        a2 % 64 == b2 % 64,
    ensures
        a0 == b0 && a1 == b1 && a2 == b2,
{
    assert(a0 == b0 && a1 == b1 && a2 == b2) by (bit_vector)
        requires
            a0 / 4 == b0 / 4,
            (a0 % 4) * 16 + a1 / 16 == (b0 % 4) * 16 + b1 / 16,
            (a1 % 16) * 4 + a2 / 64 == (b1 % 16) * 4 + b2 / 64,
            a2 % 64 == b2 % 64,
    ;
}

/// Base64 loses nothing: different bytes give different text.
pub proof fn law_base64_injective(a: Seq<u8>, b: Seq<u8>)
    requires
        base64_url_safe(a) == base64_url_safe(b),
    ensures
        a == b,
    decreases a.len(),
{
    lemma_base64_len(a);
    lemma_base64_len(b);
    let ea = base64_url_safe(a);
    let eb = base64_url_safe(b);
    if a.len() == 0 || b.len() == 0 {
        assert(a.len() == 0 && b.len() == 0);
        assert(a =~= b);
        return;
    }
    let x0 = a[0] as nat;
    let y0 = b[0] as nat;
    lemma_b64_char_props(x0 / 4, y0 / 4);
    assert(ea[0] == eb[0]);
    if a.len() == 1 {
        if b.len() == 1 {
            lemma_b64_char_props((x0 % 4) * 16, (y0 % 4) * 16);
            assert(ea[1] == eb[1]);
            lemma_b64_group(a[0], 0, 0, b[0], 0, 0);
            assert(a =~= b);
        } else if b.len() == 2 {
            lemma_b64_char_props((b[1] as nat % 16) * 4, 0);
            assert(ea[2] == eb[2]);
        } else {
            lemma_b64_char_props((b[1] as nat % 16) * 4 + b[2] as nat / 64, 0);
            assert(ea[2] == eb[2]);
        }
        return;
    }
    if a.len() == 2 {
        if b.len() == 1 {
            lemma_b64_char_props((a[1] as nat % 16) * 4, 0);
            assert(ea[2] == eb[2]);
        } else if b.len() == 2 {
            lemma_b64_char_props((x0 % 4) * 16 + a[1] as nat / 16, (y0 % 4) * 16 + b[1] as nat / 16);
            lemma_b64_char_props((a[1] as nat % 16) * 4, (b[1] as nat % 16) * 4);
            assert(ea[1] == eb[1]);
            assert(ea[2] == eb[2]);
            lemma_b64_group(a[0], a[1], 0, b[0], b[1], 0);
            assert(a =~= b);
        } else {
            lemma_b64_char_props(b[2] as nat % 64, 0);
            assert(ea[3] == eb[3]);
        }
        return;
    }
    if b.len() == 1 {
        lemma_b64_char_props((a[1] as nat % 16) * 4 + a[2] as nat / 64, 0);
        assert(ea[2] == eb[2]);
        return;
    }
    if b.len() == 2 {
        lemma_b64_char_props(a[2] as nat % 64, 0);
        assert(ea[3] == eb[3]);
        return;
    }
    lemma_b64_char_props((x0 % 4) * 16 + a[1] as nat / 16, (y0 % 4) * 16 + b[1] as nat / 16);
    lemma_b64_char_props((a[1] as nat % 16) * 4 + a[2] as nat / 64, (b[1] as nat % 16) * 4 + b[2] as nat / 64);
    lemma_b64_char_props(a[2] as nat % 64, b[2] as nat % 64);
    assert(ea[0] == b64_char(x0 / 4) && eb[0] == b64_char(y0 / 4));
    assert(ea[1] == b64_char((x0 % 4) * 16 + a[1] as nat / 16));
    assert(eb[1] == b64_char((y0 % 4) * 16 + b[1] as nat / 16));
    assert(ea[2] == b64_char((a[1] as nat % 16) * 4 + a[2] as nat / 64));
    assert(eb[2] == b64_char((b[1] as nat % 16) * 4 + b[2] as nat / 64));
    assert(ea[3] == b64_char(a[2] as nat % 64));
    assert(eb[3] == b64_char(b[2] as nat % 64));
    assert(ea[1] == eb[1]);
    assert(ea[2] == eb[2]);
    assert(ea[3] == eb[3]);
    lemma_b64_group(a[0], a[1], a[2], b[0], b[1], b[2]);
    assert(base64_url_safe(a.skip(3)) =~= ea.skip(4));
    assert(base64_url_safe(b.skip(3)) =~= eb.skip(4));
    law_base64_injective(a.skip(3), b.skip(3));
    assert(a =~= b) by {
        assert forall|i: int| 0 <= i < a.len() implies a[i] == b[i] by {
            if i >= 3 {
                assert(a[i] == a.skip(3)[i - 3]);
                assert(b[i] == b.skip(3)[i - 3]);
            }
        }
    }
}

/// The sequence number and node id can be read back from an identifier's low
/// bits, and the time since the epoch from its high bits.
pub proof fn law_snowflake_fields(timestamp_ms: u64, node_id: u16, sequence: u16)
    ensures
        (snowflake_spec(timestamp_ms, node_id, sequence) as u64) & 0xfffu64 == (sequence
            & 0xfffu16) as u64,
        ((snowflake_spec(timestamp_ms, node_id, sequence) as u64) >> 12u64) & 0x3ffu64 == (node_id
            & 0x3ffu16) as u64,
        (snowflake_spec(timestamp_ms, node_id, sequence) as u64) >> 22u64 == since_epoch(
            timestamp_ms,
        ) & 0x3ffffffffffu64,
{
    let t = since_epoch(timestamp_ms);
    let n = (node_id & 0x3ffu16) as u64;
    let q = (sequence & 0xfffu16) as u64;
    assert(n < 0x400) by (bit_vector)
        requires
            n == (node_id & 0x3ffu16) as u64,
    ;
    assert(q < 0x1000) by (bit_vector)
        requires
            q == (sequence & 0xfffu16) as u64,
    ;
    let id = (t << 22u64) | (n << 12u64) | q;
    assert(id & 0xfffu64 == q && (id >> 12u64) & 0x3ffu64 == n && id >> 22u64 == t
        & 0x3ffffffffffu64) by (bit_vector)
        requires
            id == (t << 22u64) | (n << 12u64) | q,
            n < 0x400,
            q < 0x1000,
    ;
    assert((id as i64) as u64 == id) by (bit_vector);
}

/// Two identifiers made at the same millisecond on the same node differ when
/// their sequence numbers differ in the low 12 bits, and two made with the same
/// sequence number at the same millisecond differ when the nodes differ in the
/// low 10 bits.
pub proof fn law_snowflake_distinct(timestamp_ms: u64, node_a: u16, node_b: u16, seq_a: u16, seq_b: u16)
    requires
        (seq_a & 0xfffu16) != (seq_b & 0xfffu16) || (node_a & 0x3ffu16) != (node_b & 0x3ffu16),
    ensures
        snowflake_spec(timestamp_ms, node_a, seq_a) != snowflake_spec(timestamp_ms, node_b, seq_b),
{
    law_snowflake_fields(timestamp_ms, node_a, seq_a);
    law_snowflake_fields(timestamp_ms, node_b, seq_b);
    assert((seq_a & 0xfffu16) as u64 != (seq_b & 0xfffu16) as u64 || (node_a & 0x3ffu16) as u64
        != (node_b & 0x3ffu16) as u64);
}


proof fn lemma_be_i64_bytes_injective(x: i64, y: i64)
    requires
        be_i64_bytes(x) == be_i64_bytes(y),
    ensures
        x == y,
{
    let bx = be_i64_bytes(x);
    let by = be_i64_bytes(y);
    assert(bx[0] == by[0] && bx[1] == by[1] && bx[2] == by[2] && bx[3] == by[3]);
    assert(bx[4] == by[4] && bx[5] == by[5] && bx[6] == by[6] && bx[7] == by[7]);
    let u = x as u64;
    let v = y as u64;
    assert(u == v) by (bit_vector)
        requires
            (u >> 56u64) as u8 == (v >> 56u64) as u8,
            ((u >> 48u64) & 0xffu64) as u8 == ((v >> 48u64) & 0xffu64) as u8,
            ((u >> 40u64) & 0xffu64) as u8 == ((v >> 40u64) & 0xffu64) as u8,
            ((u >> 32u64) & 0xffu64) as u8 == ((v >> 32u64) & 0xffu64) as u8,
            ((u >> 24u64) & 0xffu64) as u8 == ((v >> 24u64) & 0xffu64) as u8,
            ((u >> 16u64) & 0xffu64) as u8 == ((v >> 16u64) & 0xffu64) as u8,
            ((u >> 8u64) & 0xffu64) as u8 == ((v >> 8u64) & 0xffu64) as u8,
            (u & 0xffu64) as u8 == (v & 0xffu64) as u8,
    ;
    assert(x == y) by (bit_vector)
        requires
            x as u64 == y as u64,
    ;
}

/// Two identifier texts differ whenever their sequence numbers differ in the
/// low 12 bits, whatever the times and nodes.
pub proof fn law_snowflake_text_distinct(t1: u64, t2: u64, n1: u16, n2: u16, s1: u16, s2: u16)
    requires
        (s1 & 0xfffu16) != (s2 & 0xfffu16),
    ensures
        base64_url_safe(be_i64_bytes(snowflake_spec(t1, n1, s1))) != base64_url_safe(
            be_i64_bytes(snowflake_spec(t2, n2, s2)),
        ),
{
    law_snowflake_fields(t1, n1, s1);
    law_snowflake_fields(t2, n2, s2);
    if base64_url_safe(be_i64_bytes(snowflake_spec(t1, n1, s1))) == base64_url_safe(
        be_i64_bytes(snowflake_spec(t2, n2, s2)),
    ) {
        law_base64_injective(
            be_i64_bytes(snowflake_spec(t1, n1, s1)),
            be_i64_bytes(snowflake_spec(t2, n2, s2)),
        );
        lemma_be_i64_bytes_injective(snowflake_spec(t1, n1, s1), snowflake_spec(t2, n2, s2));
        assert((s1 & 0xfffu16) as u64 != (s2 & 0xfffu16) as u64);
    }
}

/// Identifiers handed out by one process are distinct over any stretch of
/// fewer than 4096 calls: the counter `sequence` moves on by one per call
/// (wrapping), so `k` calls later, with `0 < k < 4096`, the texts differ
/// whatever the clock read and whatever node ids were used.
pub proof fn law_generated_ids_distinct(t1: u64, t2: u64, n1: u16, n2: u16, sequence: u16, k: int, later: u16)
    requires
        0 < k < 4096,
        later as int == (sequence as int + k) % 65536,
    ensures
        base64_url_safe(be_i64_bytes(snowflake_spec(t1, n1, sequence))) != base64_url_safe(
            be_i64_bytes(snowflake_spec(t2, n2, later)),
        ),
{
    let a = sequence;
    let b = later;
    assert(a & 0xfffu16 == a % 4096) by (bit_vector);
    assert(b & 0xfffu16 == b % 4096) by (bit_vector);
    assert((a as int) % 4096 != (b as int) % 4096) by (nonlinear_arith)
        requires
            0 < k < 4096,
            b as int == (a as int + k) % 65536,
            0 <= a < 65536,
    {
        let s = a as int + k;
        assert(s % 65536 % 4096 == s % 4096) by (nonlinear_arith)
            requires
                s >= 0,
        ;
    }
    law_snowflake_text_distinct(t1, t2, n1, n2, a, b);
}

} // verus!
