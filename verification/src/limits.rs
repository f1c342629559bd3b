//! Limits on what an upstream server may send.
//!
//! No response of more than [`MAX_RESPONSE_SIZE`] bytes is taken: one that
//! announces more in `Content-Length` is refused before its body is read,
//! and one that sends more is refused with the chunk that crosses the
//! limit. A response that is taken is either held in memory or passed
//! through as it arrives.

use crate::error::{AppError, ErrorKind};
use crate::http::{header_of, header_value, Header};
use crate::text::{chars_contain, chars_of, has_substring};
use vstd::prelude::*;
use vstd::string::*;

verus! {

/// The largest response that is taken: 50 MiB.
pub const MAX_RESPONSE_SIZE: usize = 52_428_800;

/// The size above which a response is passed through instead of held in
/// memory: 1 MiB.
pub const STREAM_THRESHOLD: usize = 1_048_576;

/// `c` is a decimal digit.
pub open spec fn is_digit(c: char) -> bool {
    '0' <= c <= '9'
}

/// `s` holds decimal digits only.
pub open spec fn all_digits(s: Seq<char>) -> bool {
    forall|i: int| 0 <= i < s.len() ==> is_digit(#[trigger] s[i])
}

/// The number that the digits `s` write.
pub open spec fn digits_value(s: Seq<char>) -> nat
    decreases s.len(),
{
    if s.len() == 0 {
        0
    } else {
        (digits_value(s.drop_last()) * 10 + (s.last() as u32 - '0' as u32)) as nat
    }
}

/// The digits of a length: `s` without the `+` it may begin with.
pub open spec fn length_digits(s: Seq<char>) -> Seq<char> {
    if s.len() > 0 && s[0] == '+' {
        s.subrange(1, s.len() as int)
    } else {
        s
    }
}

/// The length that a `Content-Length` value declares: the number it writes
/// in decimal digits, however large. Anything else declares nothing.
pub open spec fn declared_length(value: Seq<char>) -> Option<nat> {
    let digits = length_digits(value);
    if digits.len() > 0 && all_digits(digits) {
        Some(digits_value(digits))
    } else {
        None
    }
}

/// The value declares a length above `limit`.
pub open spec fn declares_over(value: Seq<char>, limit: nat) -> bool {
    declared_length(value) matches Some(n) && n > limit
}

/// The headers announce a body of more than `limit` bytes.
pub open spec fn announces_over(headers: Seq<Header>, limit: nat) -> bool {
    header_of(headers, "content-length"@) matches Some(v) && declares_over(v, limit)
}

/// The content type the headers name; empty where they name none.
pub open spec fn content_type_of(headers: Seq<Header>) -> Seq<char> {
    match header_of(headers, "content-type"@) {
        Some(v) => v,
        None => Seq::empty(),
    }
}

/// A response with these headers is passed through rather than held: it
/// announces more than [`STREAM_THRESHOLD`] bytes, or it is not JSON.
pub open spec fn is_streamed(headers: Seq<Header>) -> bool {
    announces_over(headers, STREAM_THRESHOLD as nat) || !has_substring(
        content_type_of(headers),
        "application/json"@,
    )
}

/// What is done with the body of a response.
#[derive(Clone, Copy, Debug, PartialEq, Eq, Structural)]
pub enum Delivery {
    /// It is refused: it is too large.
    Refuse,
    /// It is passed through as it arrives.
    Stream,
    /// It is read into memory.
    Buffer,
}

/// What is done with the body of a final response with these headers.
pub open spec fn delivery_of(headers: Seq<Header>) -> Delivery {
    if announces_over(headers, MAX_RESPONSE_SIZE as nat) {
        Delivery::Refuse
    } else if is_streamed(headers) {
        Delivery::Stream
    } else {
        Delivery::Buffer
    }
}

/// Whether `value` declares a length above `limit`.
pub fn length_exceeds(value: &str, limit: usize) -> (r: bool)
    ensures
        r == declares_over(value@, limit as nat),
{
    let v = chars_of(value);
    let start: usize = if v.len() > 0 && v[0] == '+' {
        1
    } else {
        0
    };
    let ghost digits = length_digits(v@);
    assert(digits == v@.subrange(start as int, v.len() as int));
    if start == v.len() {
        return false;
    }
    let mut total: u128 = 0;
    let mut over = false;
    let mut i: usize = start;
    while i < v.len()
        invariant
            start <= i <= v.len(),
            digits == length_digits(value@),
            digits == v@.subrange(start as int, v.len() as int),
            all_digits(digits.take(i - start)),
            !over ==> total == digits_value(digits.take(i - start)) && total <= limit,
            over ==> digits_value(digits.take(i - start)) > limit,
        decreases v.len() - i,
    {
        let c = v[i];
        if !('0' <= c && c <= '9') {
            assert(digits[i - start] == c && !is_digit(digits[i - start]));
            return false;
        }
        let d: u128 = (c as u32 - '0' as u32) as u128;
        proof {
            let next = digits.take(i - start + 1);
            assert(next.drop_last() == digits.take(i - start));
            assert(next.last() == c);
            assert forall|k: int| 0 <= k < next.len() implies is_digit(#[trigger] next[k]) by {
                if k < i - start {
                    assert(digits.take(i - start)[k] == next[k]);
                }
            }
        }
        if !over {
            total = total * 10 + d;
            if total > limit as u128 {
                over = true;
            }
        }
        i += 1;
    }
    assert(digits.take(v.len() - start) == digits);
    over
}

/// Decides what is done with the body of a final response.
pub fn delivery(headers: &Vec<Header>) -> (r: Delivery)
    ensures
        r == delivery_of(headers@),
{
    let declared = header_value(headers, "content-length");
    let over_max = match &declared {
        Some(v) => length_exceeds(v.as_str(), MAX_RESPONSE_SIZE),
        None => false,
    };
    if over_max {
        return Delivery::Refuse;
    }
    let over_threshold = match &declared {
        Some(v) => length_exceeds(v.as_str(), STREAM_THRESHOLD),
        None => false,
    };
    let content_type = match header_value(headers, "content-type") {
        Some(v) => chars_of(v.as_str()),
        None => Vec::new(),
    };
    let json = chars_of("application/json");
    if over_threshold || !chars_contain(&content_type, &json) {
        Delivery::Stream
    } else {
        Delivery::Buffer
    }
}

/// Whether the headers announce a body above [`MAX_RESPONSE_SIZE`].
pub fn too_large(headers: &Vec<Header>) -> (r: bool)
    ensures
        r == announces_over(headers@, MAX_RESPONSE_SIZE as nat),
{
    match header_value(headers, "content-length") {
        Some(v) => length_exceeds(v.as_str(), MAX_RESPONSE_SIZE),
        None => false,
    }
}

fn oversized() -> (r: AppError)
    ensures
        r@.kind == ErrorKind::ResponseTooLarge,
{
    AppError::ResponseTooLarge(String::from_str("Response exceeded maximum size while reading"))
}

/// A body as it is read, chunk by chunk, under a limit. It never holds
/// more than its limit.
#[derive(Debug)]
pub struct BodyBuffer {
    data: Vec<u8>,
    limit: usize,
}

impl BodyBuffer {
    /// The bytes read so far.
    pub closed spec fn bytes(&self) -> Seq<u8> {
        self.data@
    }

    /// The most bytes this buffer takes.
    pub closed spec fn capacity(&self) -> nat {
        self.limit as nat
    }

    #[verifier::type_invariant]
    spec fn within_limit(&self) -> bool {
        self.data@.len() <= self.limit
    }

    /// An empty buffer that takes up to `limit` bytes.
    pub fn new(limit: usize) -> (r: BodyBuffer)
        ensures
            r.bytes() == Seq::<u8>::empty(),
            r.capacity() == limit,
    {
        BodyBuffer { data: Vec::new(), limit }
    }

    /// How many bytes were read so far.
    pub fn len(&self) -> (r: usize)
        ensures
            r == self.bytes().len(),
            r <= self.capacity(),
    {
        proof {
            use_type_invariant(self);
        }
        self.data.len()
    }

    /// Takes the next chunk. A chunk that would bring the body over the
    /// limit is refused with `ResponseTooLarge`, and nothing of it is kept.
    pub fn push_chunk(&mut self, chunk: &[u8]) -> (r: Result<(), AppError>)
        ensures
            final(self).capacity() == old(self).capacity(),
            old(self).bytes().len() + chunk@.len() <= old(self).capacity() ==> r is Ok
                && final(self).bytes() == old(self).bytes() + chunk@,
            old(self).bytes().len() + chunk@.len() > old(self).capacity() ==> (r matches Err(e)
                && e@.kind == ErrorKind::ResponseTooLarge) && final(self).bytes()
                == old(self).bytes(),
    {
        proof {
            use_type_invariant(&*self);
        }
        if chunk.len() > self.limit - self.data.len() {
            return Err(oversized());
        }
        let mut data: Vec<u8> = Vec::new();
        std::mem::swap(&mut data, &mut self.data);
        let mut i: usize = 0;
        while i < chunk.len()
            invariant
                i <= chunk.len(),
                data@ == old(self).data@ + chunk@.take(i as int),
            decreases chunk.len() - i,
        {
            data.push(chunk[i]);
            assert(chunk@.take(i + 1) == chunk@.take(i as int).push(chunk@[i as int]));
            i += 1;
        }
        assert(chunk@.take(chunk.len() as int) == chunk@);
        self.data = data;
        Ok(())
    }

    /// The body that was read.
    pub fn into_bytes(self) -> (r: Vec<u8>)
        ensures
            r@ == self.bytes(),
    {
        self.data
    }
}

/// The length of a body that is passed through as it arrives, counted
/// chunk by chunk under a limit. It never counts more than its limit.
#[derive(Debug)]
pub struct BodyGauge {
    seen: usize,
    limit: usize,
}

impl BodyGauge {
    /// How many bytes were let through so far.
    pub closed spec fn passed(&self) -> nat {
        self.seen as nat
    }

    /// The most bytes this gauge lets through.
    pub closed spec fn capacity(&self) -> nat {
        self.limit as nat
    }

    #[verifier::type_invariant]
    spec fn within_limit(&self) -> bool {
        self.seen <= self.limit
    }

    /// A gauge that has seen nothing and lets up to `limit` bytes through.
    pub fn new(limit: usize) -> (r: BodyGauge)
        ensures
            r.passed() == 0,
            r.capacity() == limit,
    {
        BodyGauge { seen: 0, limit }
    }

    /// How many bytes were let through so far.
    pub fn len(&self) -> (r: usize)
        ensures
            r == self.passed(),
            r <= self.capacity(),
    {
        proof {
            use_type_invariant(self);
        }
        self.seen
    }

    /// Counts a chunk of `length` bytes. A chunk that would bring the body
    /// over the limit is refused with `ResponseTooLarge` and not counted.
    pub fn count_chunk(&mut self, length: usize) -> (r: Result<(), AppError>)
        ensures
            final(self).capacity() == old(self).capacity(),
            old(self).passed() + length <= old(self).capacity() ==> r is Ok
                && final(self).passed() == old(self).passed() + length,
            old(self).passed() + length > old(self).capacity() ==> (r matches Err(e) && e@.kind
                == ErrorKind::ResponseTooLarge) && final(self).passed() == old(self).passed(),
    {
        proof {
            use_type_invariant(&*self);
        }
        if length > self.limit - self.seen {
            return Err(oversized());
        }
        self.seen = self.seen + length;
        Ok(())
    }
}

} // verus!
