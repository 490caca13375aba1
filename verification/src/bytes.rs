//! The bounded byte buffers of `heapless_bytes`, in the three capacities that
//! the service uses, and what is assumed of them.

use heapless_bytes::Bytes;
use vstd::prelude::*;

verus! {

/// Capacity of a [`Message`].
pub const MAX_MESSAGE_LENGTH: usize = 1024;

/// Capacity of a [`MediumData`].
pub const MAX_MEDIUM_DATA_LENGTH: usize = 256;

/// Capacity of a [`ShortData`].
pub const MAX_SHORT_DATA_LENGTH: usize = 128;

/// `heapless_bytes::Bytes`, a byte buffer of fixed capacity. Nothing is assumed
/// of the type itself; what a buffer holds goes by the names below.
#[verifier::external_type_specification]
#[verifier::external_body]
pub struct ExBytes<const N: usize>(heapless_bytes::Bytes<N>);

/// The buffer for the `info` of an expansion.
pub type Message = Bytes<MAX_MESSAGE_LENGTH>;

/// The buffer for input keying material and for a salt.
pub type MediumData = Bytes<MAX_MEDIUM_DATA_LENGTH>;

/// The buffer that an expansion fills; its capacity bounds the length of a
/// derived key.
pub type ShortData = Bytes<MAX_SHORT_DATA_LENGTH>;

/// The bytes that a [`Message`] holds, first to last.
pub uninterp spec fn message_bytes(data: Message) -> Seq<u8>;

/// The bytes that a [`MediumData`] holds, first to last.
pub uninterp spec fn medium_data_bytes(data: MediumData) -> Seq<u8>;

/// The bytes that a [`ShortData`] holds, first to last.
pub uninterp spec fn short_data_bytes(data: ShortData) -> Seq<u8>;

/// What a buffer holding `bytes` holds once resized to `new_len`: the first
/// `new_len` bytes where it shrinks, the old bytes followed by zeros where it
/// grows.
pub open spec fn resized(bytes: Seq<u8>, new_len: nat) -> Seq<u8> {
    Seq::new(new_len, |i: int| if i < bytes.len() { bytes[i] } else { 0u8 })
}

/// `Bytes::as_slice` on a [`Message`]. Assumed: the slice is the buffer's
/// content, and the content never exceeds the buffer's capacity.
#[verifier::external_body]
pub(crate) fn message_as_slice(data: &Message) -> (slice: &[u8])
    ensures
        slice@ == message_bytes(*data),
        slice@.len() <= MAX_MESSAGE_LENGTH,
{
    data.as_slice()
}

/// `Bytes::as_slice` on a [`MediumData`]. Assumed: the slice is the buffer's
/// content, and the content never exceeds the buffer's capacity.
#[verifier::external_body]
pub(crate) fn medium_data_as_slice(data: &MediumData) -> (slice: &[u8])
    ensures
        slice@ == medium_data_bytes(*data),
        slice@.len() <= MAX_MEDIUM_DATA_LENGTH,
{
    data.as_slice()
}

/// `Bytes::as_slice` on a [`ShortData`]. Assumed: the slice is the buffer's
/// content, and the content never exceeds the buffer's capacity.
#[verifier::external_body]
pub(crate) fn short_data_as_slice(data: &ShortData) -> (slice: &[u8])
    ensures
        slice@ == short_data_bytes(*data),
        slice@.len() <= MAX_SHORT_DATA_LENGTH,
{
    data.as_slice()
}

/// `Bytes::from_slice` for a [`MediumData`]. Assumed: it succeeds exactly when
/// the slice fits the capacity, and the buffer then holds a copy of the slice.
#[verifier::external_body]
pub(crate) fn medium_data_from_slice(slice: &[u8]) -> (made: Result<MediumData, ()>)
    ensures
        made is Ok <==> slice@.len() <= MAX_MEDIUM_DATA_LENGTH,
        made is Ok ==> medium_data_bytes(made->Ok_0) == slice@,
{
    Bytes::from_slice(slice)
}

/// `Bytes::new` for a [`ShortData`]. Assumed: the new buffer is empty.
#[verifier::external_body]
pub(crate) fn short_data_new() -> (data: ShortData)
    ensures
        short_data_bytes(data) == Seq::<u8>::empty(),
{
    Bytes::new()
}

/// `Bytes::resize_default` on a [`ShortData`]. Assumed: it fails, leaving the
/// buffer as it was, exactly when `new_len` exceeds the capacity; otherwise the
/// buffer is truncated to `new_len` bytes or filled up to it with zeros.
#[verifier::external_body]
pub(crate) fn short_data_resize_default(
    data: &mut ShortData,
    new_len: usize,
) -> (done: Result<(), ()>)
    ensures
        done is Ok <==> new_len <= MAX_SHORT_DATA_LENGTH,
        done is Ok ==> short_data_bytes(*final(data)) == resized(
            short_data_bytes(*old(data)),
            new_len as nat,
        ),
        done is Err ==> short_data_bytes(*final(data)) == short_data_bytes(*old(data)),
{
    data.resize_default(new_len)
}

} // verus!
