//! Type-length-value framing of the reply log kept in a thread's `reply_data`.
//!
//! A frame is one type byte, the value's length as a big-endian `u32`, then the
//! value's bytes. A log is frames laid end to end; new replies are appended.
use vstd::prelude::*;

verus! {

/// The type byte of a reply frame.
pub const REPLY_TYPE: u8 = 1;

/// Why a log could not be read, or a value not framed.
#[derive(Debug, Clone, Copy, PartialEq, Eq, Structural)]
pub enum TlvError {
    /// A frame ends before its length field or its value does.
    UnexpectedEof,
    /// A frame's value is not the encoding of a value of the expected type.
    InvalidValue,
}

/// Values kept in the log as frames of their own type byte.
pub trait Tlv: Sized {
    /// The type byte of this kind of value.
    fn get_type() -> u8;

    /// The frame of `self`.
    fn encode(&self) -> Result<Vec<u8>, TlvError>;

    /// All values of this kind in a log, in order.
    fn decode(data: &[u8]) -> Result<Vec<Self>, TlvError>;
}

/// Every entry is present.
pub open spec fn all_some<T>(s: Seq<Option<T>>) -> bool {
    forall|i: int| 0 <= i < s.len() ==> (#[trigger] s[i]) is Some
}

/// The entries, unwrapped.
pub open spec fn unwrap_all<T>(s: Seq<Option<T>>) -> Seq<T> {
    s.map_values(|o: Option<T>| o->0)
}

/// The values of a log whose frames were each read as a value: all of them
/// when every frame was read, `None` as soon as one was not.
pub fn all_decoded<T>(decoded: Vec<Option<T>>) -> (r: Option<Vec<T>>)
    ensures
        all_some(decoded@) ==> (r matches Some(v) && v@ == unwrap_all(decoded@)),
        !all_some(decoded@) ==> r is None,
{
    let ghost orig = decoded@;
    let mut items = decoded;
    let mut out: Vec<T> = Vec::new();
    while items.len() > 0
        invariant
            orig == decoded@,
            items@ == orig.take(items@.len() as int),
            items@.len() <= orig.len(),
            out@ == unwrap_all(orig.skip(items@.len() as int)),
            forall|i: int| items@.len() <= i < orig.len() ==> (#[trigger] orig[i]) is Some,
        decreases items@.len(),
    {
        let ghost before = items@.len();
        let o = items.pop().unwrap();
        assert(o == orig[before - 1]);
        match o {
            Some(x) => {
                out.insert(0, x);
                assert(items@ =~= orig.take(items@.len() as int));
                assert(out@ =~= unwrap_all(orig.skip(items@.len() as int)));
            },
            None => {
                assert(orig[before - 1] is None);
                return None;
            },
        }
    }
    assert(orig.skip(0) =~= orig);
    Some(out)
}

/// The four big-endian bytes of `n`.
pub open spec fn be_u32_bytes(n: u32) -> Seq<u8> {
    seq![
        (n / 0x1000000) as u8,
        ((n / 0x10000) % 0x100) as u8,
        ((n / 0x100) % 0x100) as u8,
        (n % 0x100) as u8,
    ]
}

/// The number that four big-endian bytes denote.
pub open spec fn be_u32_value(b: Seq<u8>) -> nat
    recommends
        b.len() == 4,
{
    (b[0] as nat) * 0x1000000 + (b[1] as nat) * 0x10000 + (b[2] as nat) * 0x100 + (b[3] as nat)
}

/// One frame: the type byte, the value's length (modulo 2^32) and the value.
pub open spec fn frame(value_type: u8, value: Seq<u8>) -> Seq<u8> {
    seq![value_type] + be_u32_bytes(value.len() as u32) + value
}

/// What reading `blob` for frames of type `expected` yields: the values in order,
/// or `None` where a frame of that type is cut short. A byte that is not
/// `expected` where a frame would start is passed over on its own.
pub open spec fn decode_spec(blob: Seq<u8>, expected: u8) -> Option<Seq<Seq<u8>>>
    decreases blob.len(),
{
    if blob.len() == 0 {
        Some(Seq::empty())
    } else if blob[0] != expected {
        decode_spec(blob.drop_first(), expected)
    } else if blob.len() < 5 {
        None
    } else {
        let len = be_u32_value(blob.subrange(1, 5)) as int;
        if blob.len() < 5 + len {
            None
        } else {
            match decode_spec(blob.skip(5 + len), expected) {
                Some(rest) => Some(seq![blob.subrange(5, 5 + len)] + rest),
                None => None,
            }
        }
    }
}

/// The views of a list of byte vectors.
pub open spec fn byte_views(items: Seq<Vec<u8>>) -> Seq<Seq<u8>> {
    items.map_values(|v: Vec<u8>| v@)
}

proof fn lemma_be_u32_roundtrip(n: u32)
    ensures
        be_u32_value(be_u32_bytes(n)) == n,
{
    let b = be_u32_bytes(n);
    assert(b[0] == (n / 0x1000000) as u8);
    assert(n == (n / 0x1000000) * 0x1000000 + ((n / 0x10000) % 0x100) * 0x10000 + ((n / 0x100)
        % 0x100) * 0x100 + n % 0x100) by (nonlinear_arith);
}

/// Writes `n` as four big-endian bytes.
fn be_bytes_of(n: u32) -> (r: Vec<u8>)
    ensures
        r@ == be_u32_bytes(n),
{
    let mut r: Vec<u8> = Vec::new();
    r.push((n / 0x1000000) as u8);
    r.push(((n / 0x10000) % 0x100) as u8);
    r.push(((n / 0x100) % 0x100) as u8);
    r.push((n % 0x100) as u8);
    assert(r@ =~= be_u32_bytes(n));
    r
}

/// Frames `value` under `value_type`. As the length field holds 32 bits, a value
/// of 2^32 bytes or more gets its length modulo 2^32.
pub fn encode(value_type: u8, value: &[u8]) -> (r: Vec<u8>)
    ensures
        r@ == frame(value_type, value@),
{
    let length = value.len() as u32;
    let mut tlv: Vec<u8> = Vec::new();
    tlv.push(value_type);
    let mut len_bytes = be_bytes_of(length);
    tlv.append(&mut len_bytes);
    let mut body = vstd::slice::slice_to_vec(value);
    tlv.append(&mut body);
    assert(tlv@ =~= frame(value_type, value@));
    tlv
}


/// `prefix` put in front of a reading's values; a failed reading stays failed.
pub open spec fn prepend_items(prefix: Seq<Seq<u8>>, rest: Option<Seq<Seq<u8>>>) -> Option<
    Seq<Seq<u8>>,
> {
    match rest {
        Some(r) => Some(prefix + r),
        None => None,
    }
}

/// Reads the values of all frames of type `expected_type` in `blob`, in order.
/// A byte that is not `expected_type` where a frame would start is passed over
/// on its own; a frame cut short fails the whole reading.
pub fn decode(blob: &[u8], expected_type: u8) -> (r: Result<Vec<Vec<u8>>, TlvError>)
    ensures
        match decode_spec(blob@, expected_type) {
            Some(items) => r is Ok && byte_views(r->Ok_0@) == items,
            None => r == Err::<Vec<Vec<u8>>, TlvError>(TlvError::UnexpectedEof),
        },
{
    let mut items: Vec<Vec<u8>> = Vec::new();
    let mut pos: usize = 0;
    let n = blob.len();
    assert(blob@.skip(0) =~= blob@);
    assert(byte_views(items@) =~= Seq::<Seq<u8>>::empty());
    while pos < n
        invariant
            n == blob@.len(),
            pos <= n,
            decode_spec(blob@, expected_type) == prepend_items(
                byte_views(items@),
                decode_spec(blob@.skip(pos as int), expected_type),
            ),
        decreases n - pos,
    {
        let ghost rest = blob@.skip(pos as int);
        let t = blob[pos];
        assert(rest[0] == t);
        if t != expected_type {
            assert(rest.drop_first() =~= blob@.skip(pos + 1));
            pos = pos + 1;
        } else {
            if n - pos < 5 {
                return Err(TlvError::UnexpectedEof);
            }
            let b0 = blob[pos + 1] as u64;
            let b1 = blob[pos + 2] as u64;
            let b2 = blob[pos + 3] as u64;
            let b3 = blob[pos + 4] as u64;
            let len: u64 = b0 * 0x1000000 + b1 * 0x10000 + b2 * 0x100 + b3;
            assert(rest.subrange(1, 5) =~= blob@.subrange(pos + 1, pos + 5));
            assert(len == be_u32_value(rest.subrange(1, 5)));
            if len > (n - pos - 5) as u64 {
                return Err(TlvError::UnexpectedEof);
            }
            let end: usize = pos + 5 + len as usize;
            let value = vstd::slice::slice_to_vec(&blob[pos + 5..end]);
            assert(value@ =~= rest.subrange(5, 5 + len as int));
            assert(rest.skip(5 + len as int) =~= blob@.skip(end as int));
            let ghost old_items = items@;
            items.push(value);
            assert(byte_views(items@) =~= byte_views(old_items) + seq![value@]);
            proof {
                match decode_spec(blob@.skip(end as int), expected_type) {
                    Some(r) => {
                        assert(byte_views(old_items) + (seq![value@] + r) =~= byte_views(items@)
                            + r);
                    },
                    None => {},
                }
            }
            pos = end;
        }
    }
    assert(blob@.skip(n as int) =~= Seq::<u8>::empty());
    assert(byte_views(items@) + Seq::<Seq<u8>>::empty() =~= byte_views(items@));
    Ok(items)
}


/// Reading two logs laid end to end: when the first reads cleanly, the
/// values of the second follow those of the first.
pub proof fn law_decode_concat(a: Seq<u8>, b: Seq<u8>, expected: u8)
    requires
        decode_spec(a, expected) is Some,
    ensures
        decode_spec(a + b, expected) == prepend_items(
            decode_spec(a, expected).unwrap(),
            decode_spec(b, expected),
        ),
    decreases a.len(),
{
    let ab = a + b;
    if a.len() == 0 {
        assert(ab =~= b);
        match decode_spec(b, expected) {
            Some(r) => assert(Seq::<Seq<u8>>::empty() + r =~= r),
            None => {},
        }
    } else if a[0] != expected {
        assert(ab.drop_first() =~= a.drop_first() + b);
        law_decode_concat(a.drop_first(), b, expected);
    } else {
        let len = be_u32_value(a.subrange(1, 5)) as int;
        assert(ab.subrange(1, 5) =~= a.subrange(1, 5));
        assert(ab.subrange(5, 5 + len) =~= a.subrange(5, 5 + len));
        assert(ab.skip(5 + len) =~= a.skip(5 + len) + b);
        law_decode_concat(a.skip(5 + len), b, expected);
        let head = seq![a.subrange(5, 5 + len)];
        let tail = decode_spec(a.skip(5 + len), expected).unwrap();
        match decode_spec(b, expected) {
            Some(r) => assert(head + (tail + r) =~= (head + tail) + r),
            None => {},
        }
    }
}

/// A frame read on its own gives back exactly its value, provided the value's
/// length fits the 32-bit length field.
pub proof fn law_decode_of_encode(value_type: u8, value: Seq<u8>)
    requires
        value.len() <= u32::MAX,
    ensures
        decode_spec(frame(value_type, value), value_type) == Some(seq![value]),
{
    let f = frame(value_type, value);
    lemma_be_u32_roundtrip(value.len() as u32);
    assert(f.subrange(1, 5) =~= be_u32_bytes(value.len() as u32));
    assert(f.subrange(5, 5 + value.len() as int) =~= value);
    assert(f[0] == value_type);
    assert(f.len() == 5 + value.len());
    assert(f.skip(5 + value.len() as int) =~= Seq::<u8>::empty());
    assert(decode_spec(f.skip(5 + value.len() as int), value_type) == Some(
        Seq::<Seq<u8>>::empty(),
    ));
    assert(seq![value] + Seq::<Seq<u8>>::empty() =~= seq![value]);
}

/// Appending a frame to a log that reads cleanly (as a comment is appended to a
/// thread's reply log) adds exactly its value at the end of what the log reads as.
pub proof fn law_append_frame(log: Seq<u8>, value_type: u8, value: Seq<u8>)
    requires
        decode_spec(log, value_type) is Some,
        value.len() <= u32::MAX,
    ensures
        decode_spec(log + frame(value_type, value), value_type) == Some(
            decode_spec(log, value_type).unwrap().push(value),
        ),
{
    law_decode_concat(log, frame(value_type, value), value_type);
    law_decode_of_encode(value_type, value);
    assert(decode_spec(log, value_type).unwrap() + seq![value] =~= decode_spec(
        log,
        value_type,
    ).unwrap().push(value));
}

/// The log made by appending a frame of type `value_type` for each value in turn.
pub open spec fn frames_of(value_type: u8, values: Seq<Seq<u8>>) -> Seq<u8>
    decreases values.len(),
{
    if values.len() == 0 {
        Seq::empty()
    } else {
        frames_of(value_type, values.drop_last()) + frame(value_type, values.last())
    }
}

/// Every log built by appending frames, starting from the empty log, reads
/// cleanly and gives back exactly the appended values in order, provided each
/// value's length fits the 32-bit length field.
pub proof fn law_log_of_frames(value_type: u8, values: Seq<Seq<u8>>)
    requires
        forall|i: int| 0 <= i < values.len() ==> (#[trigger] values[i]).len() <= u32::MAX,
    ensures
        decode_spec(frames_of(value_type, values), value_type) == Some(values),
    decreases values.len(),
{
    if values.len() == 0 {
        law_decode_empty(value_type);
        assert(values =~= Seq::<Seq<u8>>::empty());
    } else {
        let init = values.drop_last();
        assert forall|i: int| 0 <= i < init.len() implies (#[trigger] init[i]).len() <= u32::MAX by {
            assert(init[i] == values[i]);
        }
        law_log_of_frames(value_type, init);
        assert(values.last() == values[values.len() - 1]);
        law_append_frame(frames_of(value_type, init), value_type, values.last());
        assert(init.push(values.last()) =~= values);
    }
}

/// The empty log reads as no values.
pub proof fn law_decode_empty(expected: u8)
    ensures
        decode_spec(Seq::empty(), expected) == Some(Seq::<Seq<u8>>::empty()),
{
}

} // verus!
