//! Framing of a byte stream into consecutive self-delimiting JSON values.
//!
//! Decoding finds where the first value of a buffer ends from the JSON
//! grammar alone, so values can be read back to back without a length
//! prefix. Encoding appends one value followed by a newline separator.
use core::marker::PhantomData;
use vstd::prelude::*;

verus! {

/// What a JSON parser finds at the start of a byte buffer.
#[derive(PartialEq, Eq, Structural, Clone, Copy, Debug)]
pub enum Scan {
    /// A complete value (after optional leading whitespace) ends at this offset.
    Complete(usize),
    /// The bytes are empty, blank, or a value cut short: more data may complete it.
    Incomplete,
    /// No continuation of the bytes is a JSON value.
    Malformed,
}

/// What serde_json's stream deserializer reports for the first value of `b`.
pub uninterp spec fn json_scan(b: Seq<u8>) -> Scan;

/// Relies on `serde_json::Deserializer::from_slice(b).into_iter()` and its
/// first item: a parsed value and the stream's `byte_offset` after it, no item
/// at all (nothing but whitespace), or an error, which is classified by
/// `serde_json::Error::is_eof` as truncated input or as malformed input.
#[verifier::external_body]
fn scan_first_value(b: &[u8]) -> (r: Scan)
    ensures
        r == json_scan(b@),
        b@.len() == 0 ==> r == Scan::Incomplete,
        r matches Scan::Complete(n) ==> 0 < n <= b@.len(),
{
    let mut values = serde_json::Deserializer::from_slice(b).into_iter::<serde::de::IgnoredAny>();
    match values.next() {
        Some(Ok(_)) => Scan::Complete(values.byte_offset()),
        None => Scan::Incomplete,
        Some(Err(e)) if e.is_eof() => Scan::Incomplete,
        Some(Err(_)) => Scan::Malformed,
    }
}

/// The byte written after each encoded value: a newline.
pub const SEPARATOR: u8 = 0x0a;

/// An error of the codec.
#[derive(PartialEq, Eq, Structural, Clone, Copy, Debug)]
pub enum Error {
    /// The stream holds bytes that no continuation turns into a JSON value.
    Json,
    /// An item handed to the encoder is not exactly one complete JSON value.
    NotAValue,
}

/// Incremental encoder and decoder of a stream of JSON values, each of which
/// the application reads as a `T`.
pub struct Codec<T> {
    pub marker: PhantomData<T>,
}

/// The bytes that encoding the JSON text `item` appends: the text and a newline.
pub open spec fn framed(item: Seq<u8>) -> Seq<u8> {
    item.push(SEPARATOR)
}

/// Whether `c` is an ASCII decimal digit.
pub open spec fn is_digit(c: u8) -> bool {
    0x30 <= c <= 0x39
}

/// What decoding makes of the parser's finding `scan` on `b`: a value that
/// ends with a digit at the very end of the buffer is a number that more
/// bytes may still extend, so it counts as cut short.
pub open spec fn settle(scan: Scan, b: Seq<u8>) -> Scan {
    match scan {
        Scan::Complete(n) => if n as int == b.len() && n > 0 && is_digit(b[n - 1]) {
            Scan::Incomplete
        } else {
            scan
        },
        _ => scan,
    }
}

/// What decoding finds at the front of `b`.
pub open spec fn frame_scan(b: Seq<u8>) -> Scan {
    settle(json_scan(b), b)
}

/// Whether `item` is exactly one complete JSON value (possibly after
/// whitespace) that ends at its last byte.
pub open spec fn is_single_value(item: Seq<u8>) -> bool {
    json_scan(item) == Scan::Complete(item.len() as usize)
}

impl<T> Codec<T> {
    /// A codec; it holds no state, so all codecs of one type are alike.
    pub fn new() -> (r: Self)
        ensures
            r == (Codec::<T> { marker: PhantomData }),
    {
        Codec { marker: PhantomData }
    }

    /// Acts on what the parser found at the front of `src`: a complete value
    /// of `n` bytes is taken off and returned, unless it is a number ending
    /// at the end of `src`; anything else leaves `src` as it was and reports
    /// a truncated (`Ok(None)`) or malformed value.
    pub fn decode_scanned(&mut self, scan: Scan, src: &mut Vec<u8>) -> (r: Result<Option<Vec<u8>>, Error>)
        requires
            scan matches Scan::Complete(n) ==> n <= old(src)@.len(),
        ensures
            match settle(scan, old(src)@) {
                Scan::Complete(n) => {
                    &&& r matches Ok(Some(v))
                    &&& v@ == old(src)@.subrange(0, n as int)
                    &&& final(src)@ == old(src)@.subrange(n as int, old(src)@.len() as int)
                },
                Scan::Incomplete => r == Ok::<Option<Vec<u8>>, Error>(None) && final(src)@ == old(src)@,
                Scan::Malformed => r == Err::<Option<Vec<u8>>, Error>(Error::Json) && final(src)@ == old(src)@,
            },
    {
        match scan {
            Scan::Complete(n) => {
                if n == src.len() && n > 0 && 0x30 <= src[n - 1] && src[n - 1] <= 0x39 {
                    return Ok(None);
                }
                let mut value = src.split_off(n);
                core::mem::swap(src, &mut value);
                Ok(Some(value))
            },
            Scan::Incomplete => Ok(None),
            Scan::Malformed => Err(Error::Json),
        }
    }

    /// Takes the first complete value off the front of `src`.
    ///
    /// On success the returned bytes are exactly those the value occupies
    /// (with any whitespace before it) and they are removed from `src`. A
    /// truncated value, including a number that reaches the end of `src`, gives `Ok(None)` and a malformed one `Err(Error::Json)`;
    /// in both cases `src` is left as it was.
    pub fn decode(&mut self, src: &mut Vec<u8>) -> (r: Result<Option<Vec<u8>>, Error>)
        ensures
            match frame_scan(old(src)@) {
                Scan::Complete(n) => {
                    &&& 0 < n <= old(src)@.len()
                    &&& r matches Ok(Some(v))
                    &&& v@ == old(src)@.subrange(0, n as int)
                    &&& final(src)@ == old(src)@.subrange(n as int, old(src)@.len() as int)
                },
                Scan::Incomplete => r == Ok::<Option<Vec<u8>>, Error>(None) && final(src)@ == old(src)@,
                Scan::Malformed => r == Err::<Option<Vec<u8>>, Error>(Error::Json) && final(src)@ == old(src)@,
            },
    {
        let scan = scan_first_value(src.as_slice());
        self.decode_scanned(scan, src)
    }

    /// Acts on what the parser found in `item`: only if it is one complete
    /// value ending at the last byte of `item` are `item` and a newline
    /// appended to `dst`; otherwise `dst` is left as it was.
    pub fn encode_scanned(&mut self, scan: Scan, item: &[u8], dst: &mut Vec<u8>) -> (r: Result<(), Error>)
        ensures
            r is Ok <==> scan == Scan::Complete(item@.len() as usize),
            r is Ok ==> final(dst)@ == old(dst)@ + framed(item@),
            r is Err ==> r == Err::<(), Error>(Error::NotAValue) && final(dst)@ == old(dst)@,
    {
        match scan {
            Scan::Complete(n) => {
                if n != item.len() {
                    return Err(Error::NotAValue);
                }
            },
            _ => {
                return Err(Error::NotAValue);
            },
        }
        dst.extend_from_slice(item);
        dst.push(SEPARATOR);
        assert(final(dst)@ =~= old(dst)@ + framed(item@));
        Ok(())
    }

    /// Appends the JSON text `item` and a newline to `dst`.
    ///
    /// `item` must be exactly one complete JSON value; otherwise nothing is
    /// written and `Err(Error::NotAValue)` is returned.
    pub fn encode(&mut self, item: &[u8], dst: &mut Vec<u8>) -> (r: Result<(), Error>)
        ensures
            r is Ok <==> is_single_value(item@),
            r is Ok ==> final(dst)@ == old(dst)@ + framed(item@),
            r is Err ==> r == Err::<(), Error>(Error::NotAValue) && final(dst)@ == old(dst)@,
    {
        let scan = scan_first_value(item);
        self.encode_scanned(scan, item, dst)
    }
}

} // verus!
