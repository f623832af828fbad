//! The compression codecs of the forwarder-to-processor wire. The forwarder
//! compresses each batch with the one codec that it is configured with and
//! names it in a header; the processor undoes the codec that the header names.

use vstd::prelude::*;
use crate::text::{eq_ignore_ascii_case, eq_ignoring_ascii_case};

verus! {

/// A compression codec.
#[derive(Debug, Clone, Copy, PartialEq, Eq, Structural)]
pub enum Codec {
    /// An LZ4 block, with the length of the plain data in front.
    Lz4,
    /// A Zstandard frame.
    Zstd,
}

/// The most bytes of plain data that are unpacked from one body: 64 MiB. It
/// bounds the memory that a body can claim from its receiver.
pub const MAX_PLAIN_LEN: usize = 67_108_864;

/// The longest LZ4 block that is unpacked. `lz4_flex` adds up the length
/// bytes of a block in 32 bits, and in a block of this length no such sum
/// leaves that range.
pub const MAX_LZ4_BLOCK_LEN: usize = 16_843_009;

/// The bytes that `lz4_flex::compress_prepend_size` makes of `data`, in this
/// build of it: the crate picks its match finder by the target.
pub uninterp spec fn lz4_compressed(data: Seq<u8>) -> Seq<u8>;

/// The bytes that `lz4_flex::decompress_size_prepended` gets out of `data`, or
/// `None` where it rejects them.
pub uninterp spec fn lz4_decompressed(data: Seq<u8>) -> Option<Seq<u8>>;

/// The frame that `zstd::stream::encode_all` makes of `data` at the default
/// level, or `None` where it reports an error.
pub uninterp spec fn zstd_compressed(data: Seq<u8>) -> Option<Seq<u8>>;

/// The bytes that `zstd::bulk::decompress` gets out of `data` when it may
/// write at most `capacity` bytes, or `None` where it rejects them.
pub uninterp spec fn zstd_decompressed(data: Seq<u8>, capacity: nat) -> Option<Seq<u8>>;

/// The length that an LZ4 block declares for its plain data: its first four
/// bytes as a number, lowest byte first.
pub open spec fn lz4_declared_len(data: Seq<u8>) -> nat
    recommends
        data.len() >= 4,
{
    (data[0] as nat) + 256 * (data[1] as nat) + 65536 * (data[2] as nat) + 16777216 * (
    data[3] as nat)
}

/// Whether an LZ4 block is unpacked at all: it is no longer than
/// [`MAX_LZ4_BLOCK_LEN`] and declares no more than [`MAX_PLAIN_LEN`] bytes of
/// plain data.
pub open spec fn lz4_admitted(data: Seq<u8>) -> bool {
    data.len() <= MAX_LZ4_BLOCK_LEN && (data.len() >= 4 ==> lz4_declared_len(data)
        <= MAX_PLAIN_LEN)
}

/// What was unpacked, where it is no longer than [`MAX_PLAIN_LEN`].
pub open spec fn within_limit(plain: Option<Seq<u8>>) -> Option<Seq<u8>> {
    match plain {
        Some(bytes) => if bytes.len() <= MAX_PLAIN_LEN {
            Some(bytes)
        } else {
            None
        },
        None => None,
    }
}

/// What `codec` makes of `data`, or `None` where it does not compress them:
/// an LZ4 block carries no more than `u32::MAX` bytes, the most that its
/// length field counts, and Zstandard may report an error.
pub open spec fn compressed(codec: Codec, data: Seq<u8>) -> Option<Seq<u8>> {
    match codec {
        Codec::Lz4 => if data.len() <= u32::MAX {
            Some(lz4_compressed(data))
        } else {
            None
        },
        Codec::Zstd => zstd_compressed(data),
    }
}

/// What `codec` gets out of `data`, or `None` where it rejects them, as it
/// does with an LZ4 block that is not admitted and with all that holds more
/// than [`MAX_PLAIN_LEN`] bytes of plain data.
pub open spec fn decompressed(codec: Codec, data: Seq<u8>) -> Option<Seq<u8>> {
    match codec {
        Codec::Lz4 => if lz4_admitted(data) {
            within_limit(lz4_decompressed(data))
        } else {
            None
        },
        Codec::Zstd => within_limit(zstd_decompressed(data, MAX_PLAIN_LEN as nat)),
    }
}

/// Whether a receiver unpacks `packed`, which `codec` made of `plain_len`
/// bytes: the plain data is within [`MAX_PLAIN_LEN`], and an LZ4 block is
/// within [`MAX_LZ4_BLOCK_LEN`].
pub open spec fn within_receiver_limits(codec: Codec, plain_len: nat, packed_len: nat) -> bool {
    plain_len <= MAX_PLAIN_LEN && (codec == Codec::Lz4 ==> packed_len <= MAX_LZ4_BLOCK_LEN)
}

/// The name under which a header announces `codec`.
pub open spec fn codec_name(codec: Codec) -> Seq<char> {
    match codec {
        Codec::Lz4 => "lz4"@,
        Codec::Zstd => "zstd"@,
    }
}

/// The codec that `name` announces, in any case of its letters.
pub open spec fn codec_named(name: Seq<char>) -> Option<Codec> {
    if eq_ignoring_ascii_case(name, "lz4"@) {
        Some(Codec::Lz4)
    } else if eq_ignoring_ascii_case(name, "zstd"@) {
        Some(Codec::Zstd)
    } else {
        None
    }
}

/// `lz4_flex::compress_prepend_size`: the compressed block behind the length
/// of `data` as four bytes, lowest first. The format is lossless: as long as
/// that length fits in the four bytes, decompressing the result gives `data`
/// back.
#[verifier::external_body]
fn lz4_compress(data: &[u8]) -> (r: Vec<u8>)
    ensures
        r@ == lz4_compressed(data@),
        data@.len() <= u32::MAX ==> r@.len() >= 4 && lz4_declared_len(r@) == data@.len()
            && lz4_decompressed(r@) == Some(data@),
{
    lz4_flex::compress_prepend_size(data)
}

/// `lz4_flex::decompress_size_prepended`: the plain data, or `None` on any
/// error. It sets aside as many bytes as the block declares before it unpacks
/// any, and it adds up the length bytes of the block in 32 bits, so the caller
/// bounds the declared length and the length of the block.
#[verifier::external_body]
fn lz4_decompress(data: &[u8]) -> (r: Option<Vec<u8>>)
    requires
        lz4_admitted(data@),
    ensures
        match r {
            Some(plain) => lz4_decompressed(data@) == Some(plain@),
            None => lz4_decompressed(data@) is None,
        },
{
    lz4_flex::decompress_size_prepended(data).ok()
}

/// `zstd::stream::encode_all` at level 0, the default: one frame, or `None`
/// on any error. The format is lossless: `zstd::bulk::decompress` with room
/// for all of `data` gets `data` back out of the frame.
#[verifier::external_body]
fn zstd_compress(data: &[u8]) -> (r: Option<Vec<u8>>)
    ensures
        match r {
            Some(frame) => zstd_compressed(data@) == Some(frame@) && forall|capacity: nat|
                data@.len() <= capacity <= MAX_PLAIN_LEN ==> #[trigger] zstd_decompressed(
                    frame@,
                    capacity,
                ) == Some(data@),
            None => zstd_compressed(data@) is None,
        },
{
    zstd::stream::encode_all(data, 0).ok()
}

/// `zstd::bulk::decompress`: the plain data, which is at most `capacity` bytes
/// long, or `None` on any error. It sets aside `capacity` bytes before it
/// unpacks any.
#[verifier::external_body]
fn zstd_decompress(data: &[u8], capacity: usize) -> (r: Option<Vec<u8>>)
    requires
        capacity <= MAX_PLAIN_LEN,
    ensures
        match r {
            Some(plain) => zstd_decompressed(data@, capacity as nat) == Some(plain@) && plain@.len()
                <= capacity,
            None => zstd_decompressed(data@, capacity as nat) is None,
        },
{
    zstd::bulk::decompress(data, capacity).ok()
}

/// The text of a header that may be absent.
pub open spec fn header_view(encoding: Option<&str>) -> Option<Seq<char>> {
    match encoding {
        Some(name) => Some(name@),
        None => None,
    }
}

/// The plain bytes of a body: what the codec that the header names gets out
/// of it, and the body itself where there is no header or it names no codec.
/// `None` where the named codec rejects the body.
pub open spec fn plain_body(encoding: Option<Seq<char>>, body: Seq<u8>) -> Option<Seq<u8>> {
    match encoding {
        Some(name) => match codec_named(name) {
            Some(codec) => decompressed(codec, body),
            None => Some(body),
        },
        None => Some(body),
    }
}

/// A codec is found again under its own name.
pub proof fn lemma_codec_named_by_its_name(codec: Codec)
    ensures
        codec_named(codec_name(codec)) == Some(codec),
{
    reveal_strlit("lz4");
    reveal_strlit("zstd");
    if codec == Codec::Zstd {
        assert("zstd"@.len() != "lz4"@.len());
    }
}

impl Codec {
    /// The name under which a header announces this codec.
    pub fn name(&self) -> (r: &'static str)
        ensures
            r@ == codec_name(*self),
    {
        match self {
            Codec::Lz4 => "lz4",
            Codec::Zstd => "zstd",
        }
    }

    /// The codec that `name` announces, in any case of its letters, or `None`
    /// where it announces none.
    pub fn from_name(name: &str) -> (r: Option<Codec>)
        ensures
            r == codec_named(name@),
    {
        if eq_ignore_ascii_case(name, "lz4") {
            Some(Codec::Lz4)
        } else if eq_ignore_ascii_case(name, "zstd") {
            Some(Codec::Zstd)
        } else {
            None
        }
    }

    /// Compresses `data`, or returns `None` where the codec does not compress
    /// it. Where this succeeds and the result is within the limits of a
    /// receiver, `decompress` gives the same bytes back.
    pub fn compress(&self, data: &[u8]) -> (r: Option<Vec<u8>>)
        ensures
            match r {
                Some(packed) => compressed(*self, data@) == Some(packed@) && (
                within_receiver_limits(*self, data@.len(), packed@.len()) ==> decompressed(
                    *self,
                    packed@,
                ) == Some(data@)),
                None => compressed(*self, data@) is None,
            },
    {
        match self {
            Codec::Lz4 => {
                if data.len() as u64 > u32::MAX as u64 {
                    None
                } else {
                    Some(lz4_compress(data))
                }
            },
            Codec::Zstd => zstd_compress(data),
        }
    }

    /// Decompresses `data`, or returns `None` where the codec rejects it.
    /// What is returned is no longer than [`MAX_PLAIN_LEN`].
    pub fn decompress(&self, data: &[u8]) -> (r: Option<Vec<u8>>)
        ensures
            match r {
                Some(plain) => decompressed(*self, data@) == Some(plain@) && plain@.len()
                    <= MAX_PLAIN_LEN,
                None => decompressed(*self, data@) is None,
            },
    {
        let plain = match self {
            Codec::Lz4 => {
                if data.len() > MAX_LZ4_BLOCK_LEN {
                    return None;
                }
                if data.len() >= 4 {
                    let declared: u64 = (data[0] as u64) + 256 * (data[1] as u64) + 65536 * (
                    data[2] as u64) + 16777216 * (data[3] as u64);
                    if declared > MAX_PLAIN_LEN as u64 {
                        return None;
                    }
                }
                lz4_decompress(data)
            },
            Codec::Zstd => zstd_decompress(data, MAX_PLAIN_LEN),
        };
        match plain {
            Some(bytes) => if bytes.len() <= MAX_PLAIN_LEN {
                Some(bytes)
            } else {
                None
            },
            None => None,
        }
    }
}

} // verus!
