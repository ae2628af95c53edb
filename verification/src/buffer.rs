//! The accumulation buffer that both decoders consume, and the one operation
//! they share: taking the first newline-terminated line off its front.

use bytes::BytesMut;
use vstd::prelude::*;

verus! {

/// The line terminator, `\n`.
pub const NEWLINE: u8 = 0x0A;

/// `bytes::BytesMut`, the buffer in which a session's bytes accumulate.
#[verifier::external_type_specification]
#[verifier::external_body]
pub struct ExBytesMut(bytes::BytesMut);

/// The bytes that a buffer holds, front first.
pub uninterp spec fn buffered(buf: BytesMut) -> Seq<u8>;

/// `BytesMut::len`: the number of bytes that the buffer holds.
pub assume_specification[ bytes::BytesMut::len ](buf: &BytesMut) -> (n: usize)
    ensures
        n == buffered(*buf).len(),
;

/// `BytesMut::split_to`: the first `at` bytes leave the buffer and are
/// returned, the others stay, in order. The method panics when `at` is
/// beyond the length, which the precondition excludes.
pub assume_specification[ bytes::BytesMut::split_to ](buf: &mut BytesMut, at: usize) -> (head:
    BytesMut)
    requires
        at <= buffered(*old(buf)).len(),
    ensures
        buffered(head) == buffered(*old(buf)).subrange(0, at as int),
        buffered(*final(buf)) == buffered(*old(buf)).skip(at as int),
;

/// `AsRef<[u8]>::as_ref` on a `BytesMut`: the slice of the bytes it holds.
#[verifier::external_body]
pub(crate) fn bytes_of(buf: &BytesMut) -> (bytes: &[u8])
    ensures
        bytes@ == buffered(*buf),
{
    buf.as_ref()
}

/// The index of the first newline in `s`, if it holds one.
pub open spec fn first_newline(s: Seq<u8>) -> Option<int>
    decreases s.len(),
{
    if s.len() == 0 {
        None
    } else if s[0] == NEWLINE {
        Some(0)
    } else {
        match first_newline(s.skip(1)) {
            Some(i) => Some(i + 1),
            None => None,
        }
    }
}

/// `first_newline` finds a newline that no newline precedes, and finds none
/// only where there is none.
pub proof fn lemma_first_newline(s: Seq<u8>)
    ensures
        match first_newline(s) {
            Some(i) => 0 <= i < s.len() && s[i] == NEWLINE && forall|j: int|
                0 <= j < i ==> s[j] != NEWLINE,
            None => forall|j: int| 0 <= j < s.len() ==> s[j] != NEWLINE,
        },
    decreases s.len(),
{
    if s.len() != 0 && s[0] != NEWLINE {
        let t = s.skip(1);
        lemma_first_newline(t);
        match first_newline(t) {
            Some(i) => {
                assert forall|j: int| 0 <= j < i + 1 implies s[j] != NEWLINE by {
                    if j > 0 {
                        assert(s[j] == t[j - 1]);
                    }
                }
            },
            None => {
                assert forall|j: int| 0 <= j < s.len() implies s[j] != NEWLINE by {
                    if j > 0 {
                        assert(s[j] == t[j - 1]);
                    }
                }
            },
        }
    }
}

/// An index that holds the first newline of `s` is what `first_newline` finds.
pub proof fn lemma_first_newline_is(s: Seq<u8>, i: int)
    requires
        0 <= i < s.len(),
        s[i] == NEWLINE,
        forall|j: int| 0 <= j < i ==> s[j] != NEWLINE,
    ensures
        first_newline(s) == Some(i),
{
    lemma_first_newline(s);
}

/// Without a newline in `s`, `first_newline` finds none.
pub proof fn lemma_no_newline(s: Seq<u8>)
    requires
        forall|j: int| 0 <= j < s.len() ==> s[j] != NEWLINE,
    ensures
        first_newline(s) is None,
{
    lemma_first_newline(s);
}

/// The first line of `s`, without its newline. Meant for an `s` that holds a
/// newline.
pub open spec fn first_line(s: Seq<u8>) -> Seq<u8> {
    s.subrange(0, first_newline(s).unwrap())
}

/// What follows the first line of `s` and its newline.
pub open spec fn after_first_line(s: Seq<u8>) -> Seq<u8> {
    s.skip(first_newline(s).unwrap() + 1)
}

/// The first line of a buffer stays its first line, whatever is appended to
/// the buffer.
pub proof fn lemma_first_line_append(a: Seq<u8>, b: Seq<u8>)
    requires
        first_newline(a) is Some,
    ensures
        first_newline(a + b) == first_newline(a),
        first_line(a + b) == first_line(a),
        after_first_line(a + b) == after_first_line(a) + b,
{
    lemma_first_newline(a);
    let i = first_newline(a).unwrap();
    assert((a + b)[i] == a[i]);
    assert forall|j: int| 0 <= j < i implies (a + b)[j] != NEWLINE by {
        assert((a + b)[j] == a[j]);
    }
    lemma_first_newline_is(a + b, i);
    assert(first_line(a + b) =~= first_line(a));
    assert(after_first_line(a + b) =~= after_first_line(a) + b);
}

/// Scans `bytes` for its first newline.
pub fn find_newline(bytes: &[u8]) -> (pos: Option<usize>)
    ensures
        match pos {
            Some(i) => first_newline(bytes@) == Some(i as int) && i < bytes@.len() <= usize::MAX,
            None => first_newline(bytes@) is None,
        },
{
    let mut i: usize = 0;
    while i < bytes.len()
        invariant
            i <= bytes.len(),
            forall|j: int| 0 <= j < i ==> bytes@[j] != NEWLINE,
        decreases bytes.len() - i,
    {
        if bytes[i] == NEWLINE {
            proof {
                lemma_first_newline_is(bytes@, i as int);
            }
            return Some(i);
        }
        i += 1;
    }
    proof {
        lemma_no_newline(bytes@);
    }
    None
}

/// Takes the first line off the front of `src` and returns it, newline
/// included. A buffer that holds no newline is left as it is.
pub fn take_line(src: &mut BytesMut) -> (taken: Option<BytesMut>)
    ensures
        match taken {
            Some(t) => first_newline(buffered(*old(src))) is Some && buffered(t) == first_line(
                buffered(*old(src)),
            ).push(NEWLINE) && buffered(*final(src)) == after_first_line(buffered(*old(src))),
            None => first_newline(buffered(*old(src))) is None && buffered(*final(src))
                == buffered(*old(src)),
        },
{
    let found = find_newline(bytes_of(src));
    match found {
        Some(pos) => {
            let taken = src.split_to(pos + 1);
            proof {
                let s = buffered(*old(src));
                lemma_first_newline(s);
                assert(s.subrange(0, pos + 1) =~= first_line(s).push(NEWLINE));
            }
            Some(taken)
        },
        None => None,
    }
}

} // verus!
