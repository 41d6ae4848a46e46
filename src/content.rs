use bytes::Bytes;
use vstd::prelude::*;

verus! {

#[verifier::external_type_specification]
#[verifier::external_body]
pub struct ExBytes(Bytes);

/// The bytes that a `Bytes` buffer holds.
pub uninterp spec fn bytes_of(b: Bytes) -> Seq<u8>;

/// Relies on `Bytes::new`: an empty buffer.
pub assume_specification[ Bytes::new ]() -> (r: Bytes)
    ensures
        bytes_of(r) == Seq::<u8>::empty(),
;

/// Relies on `Bytes::len`: the number of bytes held.
pub assume_specification[ Bytes::len ](b: &Bytes) -> (r: usize)
    ensures
        r == bytes_of(*b).len(),
;

/// Relies on `Bytes::split_off`: `b` keeps `[0, at)` and `[at, len)` is
/// returned; it panics where `at` exceeds the length.
pub assume_specification[ Bytes::split_off ](b: &mut Bytes, at: usize) -> (r: Bytes)
    requires
        at <= bytes_of(*old(b)).len(),
    ensures
        bytes_of(*final(b)) == bytes_of(*old(b)).take(at as int),
        bytes_of(r) == bytes_of(*old(b)).skip(at as int),
;

/// Relies on `Bytes::split_to`: `b` keeps `[at, len)` and `[0, at)` is
/// returned; it panics where `at` exceeds the length.
pub assume_specification[ Bytes::split_to ](b: &mut Bytes, at: usize) -> (r: Bytes)
    requires
        at <= bytes_of(*old(b)).len(),
    ensures
        bytes_of(*final(b)) == bytes_of(*old(b)).skip(at as int),
        bytes_of(r) == bytes_of(*old(b)).take(at as int),
;

/// The bytes of `content` that a read of `size` bytes at `offset` returns:
/// none at or past the end, else at most `size` of them from `offset` on.
pub open spec fn read_window(content: Seq<u8>, offset: u64, size: u32) -> Seq<u8> {
    if offset >= content.len() {
        Seq::empty()
    } else if content.len() - offset <= size {
        content.skip(offset as int)
    } else {
        content.subrange(offset as int, offset + size)
    }
}

/// Cuts the window `[offset, offset + size)` out of the whole content,
/// clamped to the bytes that are there.
pub fn clamp_read(content: Bytes, offset: u64, size: u32) -> (r: Bytes)
    ensures
        bytes_of(r) == read_window(bytes_of(content), offset, size),
{
    let mut body = content;
    if (body.len() as u64) > offset {
        body = body.split_off(offset as usize);
    } else {
        body = Bytes::new();
    }
    if (body.len() as u64) > (size as u64) {
        body = body.split_to(size as usize);
    }
    proof {
        let c = bytes_of(content);
        if offset < c.len() && c.len() - offset > size {
            assert(c.skip(offset as int).take(size as int) =~= c.subrange(offset as int, offset + size));
        }
    }
    body
}


/// A read at or past the end of content of length `L` returns nothing; a
/// read at `o < L` of `s` bytes returns exactly `min(s, L - o)` bytes, those
/// of the content from `o` on.
pub proof fn lemma_read_window(content: Seq<u8>, offset: u64, size: u32)
    ensures
        offset >= content.len() ==> read_window(content, offset, size).len() == 0,
        offset < content.len() ==> {
            let w = read_window(content, offset, size);
            &&& w.len() == (if size <= content.len() - offset {
                size as int
            } else {
                content.len() - offset
            })
            &&& forall|i: int| 0 <= i < w.len() ==> #[trigger] w[i] == content[offset + i]
        },
{
}

} // verus!
