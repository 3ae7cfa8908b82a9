//! The framing envelope: a magic tag, a payload variant and the payload.
//!
//! On the wire an envelope is
//!
//! | offset | bytes | content                                        |
//! |--------|-------|------------------------------------------------|
//! | 0      | 3     | the magic tag `"RNM"`                          |
//! | 3      | 1     | the variant: 0 stored raw, 1 stored compressed |
//! | 4      | 8     | the length of the payload, little-endian       |
//! | 12     | n     | the payload                                    |
//!
//! and nothing follows the payload.

use crate::bytes::{
    append_bytes, copy_bytes, copy_range, le_bytes, lemma_le_bytes_len, length_bytes, matches_at,
    outcome,
};
use vstd::prelude::*;

verus! {

/// Number of envelope bytes in front of the payload.
pub const HEADER_LEN: usize = 12;

/// The decompressor sums a run of `0xFF` length bytes into a 32-bit counter.
/// A run shorter than this keeps that sum in range.
pub const RUN_LIMIT: usize = 0x0101_0101;

/// The most that the decompressor adds to a position besides the sum of a
/// run: 19 for the shortest long match and 254 for the byte that ends the
/// run.
pub const RUN_SLACK: usize = 273;

/// Why a framed buffer could not be opened.
#[derive(Clone, Copy, Debug, PartialEq, Eq)]
pub enum FrameError {
    /// The buffer does not start with the magic tag.
    BadMagic,
    /// The variant byte or the length field does not fit the buffer.
    Malformed,
    /// The payload is marked compressed and cannot be decompressed.
    DecompressFailed,
}

/// The payload of an envelope.
#[derive(Debug, PartialEq, Eq)]
pub enum FileData {
    Compressed(Vec<u8>),
    Uncompressed(Vec<u8>),
}

/// An envelope held in memory.
#[derive(Debug, PartialEq, Eq)]
pub struct File {
    magic: [u8; 3],
    data: FileData,
}

/// The mathematical value of a [`FileData`].
pub enum Payload {
    Compressed(Seq<u8>),
    Uncompressed(Seq<u8>),
}

/// The mathematical value of a [`File`].
pub struct Envelope {
    pub magic: Seq<u8>,
    pub data: Payload,
}

impl Payload {
    /// The stored bytes, whichever the variant.
    pub open spec fn bytes(self) -> Seq<u8> {
        match self {
            Payload::Compressed(b) => b,
            Payload::Uncompressed(b) => b,
        }
    }

    /// The variant byte of the wire form.
    pub open spec fn tag(self) -> u8 {
        match self {
            Payload::Uncompressed(_) => 0,
            Payload::Compressed(_) => 1,
        }
    }
}

impl View for FileData {
    type V = Payload;

    open spec fn view(&self) -> Payload {
        match self {
            FileData::Compressed(b) => Payload::Compressed(b@),
            FileData::Uncompressed(b) => Payload::Uncompressed(b@),
        }
    }
}

impl View for File {
    type V = Envelope;

    closed spec fn view(&self) -> Envelope {
        Envelope { magic: self.magic@, data: self.data@ }
    }
}

/// The magic tag, `"RNM"`.
pub open spec fn magic() -> Seq<u8> {
    seq![0x52u8, 0x4Eu8, 0x4Du8]
}

/// Whether `bytes` starts with the magic tag.
pub open spec fn has_magic(bytes: Seq<u8>) -> bool {
    bytes.len() >= 3 && bytes.subrange(0, 3) == magic()
}

/// What `lz4_flex::block::decompress_size_prepended` returns for a buffer
/// that it takes (see [`unpackable`]), `None` standing for each of its
/// errors.
pub uninterp spec fn lz4_unpacked(packed: Seq<u8>) -> Option<Seq<u8>>;

/// The input lengths that the compressor takes: the length is stored in 32
/// bits, and the output buffer is sized as 110% of it.
pub open spec fn packable(len: nat) -> bool {
    len <= 0xFFFF_FFFF && len * 110 <= usize::MAX
}

/// Length of the run of `0xFF` bytes that ends just before position `end`.
pub open spec fn ff_run(bytes: Seq<u8>, end: int) -> nat
    decreases end,
{
    if end <= 0 || end > bytes.len() || bytes[end - 1] != 0xFF {
        0
    } else {
        1 + ff_run(bytes, end - 1)
    }
}

/// The size that a compressed buffer announces for its content: its first
/// four bytes, little-endian. A shorter buffer announces nothing.
pub open spec fn announced(bytes: Seq<u8>) -> nat {
    if bytes.len() < 4 {
        0
    } else {
        (bytes[0] + 256 * bytes[1] + 65536 * bytes[2] + 16777216 * bytes[3]) as nat
    }
}

/// Whether the decompressor can count a run of `run` bytes of `0xFF` while
/// it fills a buffer of `size` bytes: the run stays below [`RUN_LIMIT`], and
/// a position in the buffer plus the length that the run stands for stays
/// within `usize`.
pub open spec fn countable(run: nat, size: nat) -> bool {
    run < RUN_LIMIT && RUN_SLACK + 255 * run + size <= usize::MAX
}

/// The buffers that the decompressor takes: the announced size can be
/// allocated, and every run of `0xFF` bytes can be counted.
pub open spec fn unpackable(bytes: Seq<u8>) -> bool {
    &&& announced(bytes) <= usize::MAX / 2
    &&& forall|end: int|
        0 <= end <= bytes.len() ==> countable(#[trigger] ff_run(bytes, end), announced(bytes))
}

/// The payload kept for `raw` once its compressed form `packed` is known:
/// the compressed form only where it is strictly shorter and can be
/// decompressed again.
pub open spec fn chosen(raw: Seq<u8>, packed: Seq<u8>) -> Payload {
    if packed.len() < raw.len() && unpackable(packed) {
        Payload::Compressed(packed)
    } else {
        Payload::Uncompressed(raw)
    }
}

/// Whether `file` is an envelope around `raw`: it carries the magic tag and
/// holds either `raw` itself or a strictly shorter compressed form from which
/// the decompressor gives `raw` back.
pub open spec fn wraps(file: Envelope, raw: Seq<u8>) -> bool {
    &&& file.magic == magic()
    &&& match file.data {
        Payload::Uncompressed(stored) => stored == raw,
        Payload::Compressed(packed) => {
            &&& packed.len() < raw.len()
            &&& unpackable(packed)
            &&& lz4_unpacked(packed) == Some(raw)
        },
    }
}

/// The payload that an envelope gives back.
pub open spec fn loaded(file: Envelope) -> Result<Seq<u8>, FrameError> {
    if file.magic != magic() {
        Err(FrameError::BadMagic)
    } else {
        match file.data {
            Payload::Uncompressed(raw) => Ok(raw),
            Payload::Compressed(packed) => if unpackable(packed) {
                match lz4_unpacked(packed) {
                    Some(raw) => Ok(raw),
                    None => Err(FrameError::DecompressFailed),
                }
            } else {
                Err(FrameError::DecompressFailed)
            },
        }
    }
}

/// The wire form of an envelope.
pub open spec fn encoded(file: Envelope) -> Seq<u8> {
    file.magic + seq![file.data.tag()] + le_bytes(file.data.bytes().len(), 8) + file.data.bytes()
}

/// The envelope that a wire form holds. The magic tag is taken as found.
pub open spec fn decoded(bytes: Seq<u8>) -> Result<Envelope, FrameError> {
    let n = bytes.len() as int;
    if n < HEADER_LEN || bytes[3] > 1 || bytes.subrange(4, 12) != le_bytes((n - HEADER_LEN) as nat, 8) {
        Err(FrameError::Malformed)
    } else {
        Ok(
            Envelope {
                magic: bytes.subrange(0, 3),
                data: if bytes[3] == 1 {
                    Payload::Compressed(bytes.subrange(12, n))
                } else {
                    Payload::Uncompressed(bytes.subrange(12, n))
                },
            },
        )
    }
}

/// Whether `bytes` is a framed form of `payload`: the wire form of an
/// envelope around it. Which of the two forms the compressor leads to is
/// not fixed: its output differs from one kind of machine to another.
pub open spec fn frames(bytes: Seq<u8>, payload: Seq<u8>) -> bool {
    decoded(bytes) matches Ok(file) && wraps(file, payload)
}

/// The payload of a framed buffer: the magic tag is checked first, then the
/// layout, then the payload is decompressed where it is marked so.
pub open spec fn unframed(bytes: Seq<u8>) -> Result<Seq<u8>, FrameError> {
    if !has_magic(bytes) {
        Err(FrameError::BadMagic)
    } else {
        match decoded(bytes) {
            Err(e) => Err(e),
            Ok(file) => loaded(file),
        }
    }
}

/// Calls `lz4_flex::block::compress_prepend_size`. Trusted: as the crate
/// documents for the pair, `decompress_size_prepended` gives the input back
/// from the result, where it takes the result. Nothing else is said of the
/// result.
#[verifier::external_body]
fn lz4_pack(raw: &[u8]) -> (packed: Vec<u8>)
    requires
        packable(raw@.len()),
    ensures
        unpackable(packed@) ==> lz4_unpacked(packed@) == Some(raw@),
{
    lz4_flex::block::compress_prepend_size(raw)
}

/// Calls `lz4_flex::block::decompress_size_prepended`. Trusted: on a buffer
/// that is [`unpackable`] the call returns, and what it returns is a function
/// of the buffer; each of the crate's errors becomes `None`.
#[verifier::external_body]
fn lz4_unpack(packed: &[u8]) -> (raw: Option<Vec<u8>>)
    requires
        unpackable(packed@),
    ensures
        match raw {
            Some(bytes) => lz4_unpacked(packed@) == Some(bytes@),
            None => lz4_unpacked(packed@) is None,
        },
{
    lz4_flex::block::decompress_size_prepended(packed).ok()
}

/// The magic tag as bytes.
pub fn magic_tag() -> (tag: [u8; 3])
    ensures
        tag@ == magic(),
{
    let tag: [u8; 3] = [0x52, 0x4E, 0x4D];
    assert(tag@ =~= magic());
    tag
}

/// Whether the compressor takes an input of `len` bytes.
pub fn can_pack(len: usize) -> (yes: bool)
    ensures
        yes == packable(len as nat),
{
    len <= 0xFFFF_FFFF && len <= usize::MAX / 110
}

/// The size that `bytes` announces.
pub fn announced_size(bytes: &[u8]) -> (size: u64)
    ensures
        size == announced(bytes@),
{
    if bytes.len() < 4 {
        0
    } else {
        bytes[0] as u64 + 256 * (bytes[1] as u64) + 65536 * (bytes[2] as u64) + 16777216 * (
        bytes[3] as u64)
    }
}

/// Whether the decompressor takes `bytes`.
pub fn can_unpack(bytes: &[u8]) -> (yes: bool)
    ensures
        yes == unpackable(bytes@),
{
    let size = announced_size(bytes);
    let most = usize::MAX as u64;
    if size > most / 2 {
        return false;
    }
    // the longest run that can be counted
    let room = (most - RUN_SLACK as u64 - size) / 255;
    let longest: u64 = if room < RUN_LIMIT as u64 {
        room
    } else {
        RUN_LIMIT as u64 - 1
    };
    assert(forall|run: nat| run <= longest <==> countable(run, size as nat));
    let mut run: u64 = 0;
    let mut i: usize = 0;
    while i < bytes.len()
        invariant
            i <= bytes@.len(),
            run == ff_run(bytes@, i as int),
            run <= longest < RUN_LIMIT,
            size == announced(bytes@),
            forall|run: nat| run <= longest <==> countable(run, size as nat),
            forall|end: int|
                0 <= end <= i ==> countable(#[trigger] ff_run(bytes@, end), size as nat),
        decreases bytes@.len() - i,
    {
        if bytes[i] == 0xFF {
            run += 1;
            if run > longest {
                assert(!countable(ff_run(bytes@, i + 1), size as nat));
                return false;
            }
        } else {
            run = 0;
        }
        i += 1;
    }
    true
}

impl File {
    /// The magic tag that this envelope carries.
    pub fn magic(&self) -> (tag: [u8; 3])
        ensures
            tag@ == self@.magic,
    {
        self.magic
    }

    /// The payload as stored.
    pub fn data(&self) -> (data: &FileData)
        ensures
            data@ == self@.data,
    {
        &self.data
    }

    /// Wraps `raw`, given its compressed form: the compressed form is kept
    /// only where it is strictly shorter than `raw`.
    pub fn keep(raw: &[u8], packed: Vec<u8>) -> (file: File)
        ensures
            file@ == (Envelope { magic: magic(), data: chosen(raw@, packed@) }),
    {
        if packed.len() < raw.len() && can_unpack(packed.as_slice()) {
            File { magic: magic_tag(), data: FileData::Compressed(packed) }
        } else {
            File { magic: magic_tag(), data: FileData::Uncompressed(copy_bytes(raw)) }
        }
    }

    /// Wraps `bytes`: compressed where that makes them strictly shorter, as
    /// they are otherwise. The envelope gives `bytes` back.
    pub fn save(bytes: &[u8]) -> (file: File)
        ensures
            wraps(file@, bytes@),
            loaded(file@) == Ok::<Seq<u8>, FrameError>(bytes@),
    {
        if can_pack(bytes.len()) {
            let packed = lz4_pack(bytes);
            File::keep(bytes, packed)
        } else {
            File { magic: magic_tag(), data: FileData::Uncompressed(copy_bytes(bytes)) }
        }
    }

    /// The payload of this envelope, decompressed where it is stored
    /// compressed.
    pub fn load(&self) -> (r: Result<Vec<u8>, FrameError>)
        ensures
            outcome(r) == loaded(self@),
    {
        let tag = magic_tag();
        if self.magic[0] != tag[0] || self.magic[1] != tag[1] || self.magic[2] != tag[2] {
            assert(self.magic@ != magic());
            return Err(FrameError::BadMagic);
        }
        assert(self.magic@ =~= magic());
        match &self.data {
            FileData::Uncompressed(raw) => Ok(copy_bytes(raw.as_slice())),
            FileData::Compressed(packed) => {
                if !can_unpack(packed.as_slice()) {
                    return Err(FrameError::DecompressFailed);
                }
                match lz4_unpack(packed.as_slice()) {
                    Some(raw) => Ok(raw),
                    None => Err(FrameError::DecompressFailed),
                }
            },
        }
    }

    /// The wire form of this envelope.
    pub fn to_bytes(&self) -> (out: Vec<u8>)
        requires
            self@.data.bytes().len() + HEADER_LEN <= usize::MAX,
        ensures
            out@ == encoded(self@),
    {
        let mut out: Vec<u8> = Vec::new();
        out.push(self.magic[0]);
        out.push(self.magic[1]);
        out.push(self.magic[2]);
        assert(out@ =~= self.magic@);
        match &self.data {
            FileData::Uncompressed(raw) => {
                out.push(0);
                let field = length_bytes(raw.len());
                append_bytes(&mut out, field.as_slice());
                append_bytes(&mut out, raw.as_slice());
            },
            FileData::Compressed(packed) => {
                out.push(1);
                let field = length_bytes(packed.len());
                append_bytes(&mut out, field.as_slice());
                append_bytes(&mut out, packed.as_slice());
            },
        }
        out
    }

    /// Reads an envelope from its wire form. The magic tag is taken as found:
    /// [`File::load`] checks it.
    pub fn from_bytes(bytes: &[u8]) -> (r: Result<File, FrameError>)
        ensures
            match r {
                Ok(file) => decoded(bytes@) == Ok::<Envelope, FrameError>(file@),
                Err(e) => decoded(bytes@) == Err::<Envelope, FrameError>(e),
            },
    {
        let n = bytes.len();
        if n < HEADER_LEN || bytes[3] > 1 {
            return Err(FrameError::Malformed);
        }
        let field = length_bytes(n - HEADER_LEN);
        proof {
            lemma_le_bytes_len((n - HEADER_LEN) as nat, 8);
        }
        if !matches_at(bytes, 4, field.as_slice()) {
            return Err(FrameError::Malformed);
        }
        let magic: [u8; 3] = [bytes[0], bytes[1], bytes[2]];
        assert(magic@ =~= bytes@.subrange(0, 3));
        let payload = copy_range(bytes, HEADER_LEN, n);
        let data = if bytes[3] == 1 {
            FileData::Compressed(payload)
        } else {
            FileData::Uncompressed(payload)
        };
        Ok(File { magic, data })
    }
}

/// Reading back the wire form of an envelope gives the envelope.
pub proof fn lemma_decode_encode(file: Envelope)
    requires
        file.magic.len() == 3,
    ensures
        decoded(encoded(file)) == Ok::<Envelope, FrameError>(file),
{
    let payload = file.data.bytes();
    let bytes = encoded(file);
    lemma_le_bytes_len(payload.len(), 8);
    assert(bytes.len() == HEADER_LEN + payload.len());
    assert(bytes[3] == file.data.tag());
    assert(bytes.subrange(0, 3) =~= file.magic);
    assert(bytes.subrange(4, 12) =~= le_bytes(payload.len(), 8));
    assert(bytes.subrange(12, bytes.len() as int) =~= payload);
}

/// Frames `payload`: wraps it in an envelope and gives the wire form.
/// Unframing the result gives `payload` back.
pub fn frame(payload: &[u8]) -> (out: Vec<u8>)
    requires
        payload@.len() + HEADER_LEN <= usize::MAX,
    ensures
        frames(out@, payload@),
        out@.len() <= payload@.len() + HEADER_LEN,
        unframed(out@) == Ok::<Seq<u8>, FrameError>(payload@),
{
    let file = File::save(payload);
    let out = file.to_bytes();
    proof {
        lemma_decode_encode(file@);
        lemma_frame_never_inflates(out@, payload@);
        lemma_unframe_frame(out@, payload@);
    }
    out
}

/// Opens a framed buffer: checks the magic tag and the layout, and gives the
/// payload, decompressed where it is stored compressed.
pub fn unframe(bytes: &[u8]) -> (r: Result<Vec<u8>, FrameError>)
    ensures
        outcome(r) == unframed(bytes@),
{
    let tag = magic_tag();
    if bytes.len() < 3 || !matches_at(bytes, 0, tag.as_slice()) {
        return Err(FrameError::BadMagic);
    }
    match File::from_bytes(bytes) {
        Err(e) => Err(e),
        Ok(file) => file.load(),
    }
}

/// Compression never inflates: a framed buffer is at most [`HEADER_LEN`]
/// bytes longer than its payload; the payload is stored compressed only
/// where that is strictly shorter, and stored unchanged otherwise.
pub proof fn lemma_frame_never_inflates(bytes: Seq<u8>, payload: Seq<u8>)
    requires
        frames(bytes, payload),
    ensures
        bytes.len() <= payload.len() + HEADER_LEN,
        decoded(bytes).unwrap().data is Compressed ==> bytes.len() < payload.len() + HEADER_LEN,
        decoded(bytes).unwrap().data is Uncompressed ==> bytes.subrange(
            HEADER_LEN as int,
            bytes.len() as int,
        ) == payload,
{
}

/// Unframing a framed form of a payload gives the payload.
pub proof fn lemma_unframe_frame(bytes: Seq<u8>, payload: Seq<u8>)
    requires
        frames(bytes, payload),
    ensures
        has_magic(bytes),
        unframed(bytes) == Ok::<Seq<u8>, FrameError>(payload),
{
}

/// A framed buffer starts with the magic tag, and a buffer that differs from
/// it in one byte of the tag is refused as `BadMagic`.
pub proof fn lemma_magic_guards(bytes: Seq<u8>, payload: Seq<u8>, at: int, byte: u8)
    requires
        frames(bytes, payload),
        0 <= at < 3,
        byte != bytes[at],
    ensures
        has_magic(bytes),
        unframed(bytes.update(at, byte)) == Err::<Seq<u8>, FrameError>(FrameError::BadMagic),
{
    let bad = bytes.update(at, byte);
    assert(bad.subrange(0, 3)[at] == byte);
    assert(bytes.subrange(0, 3)[at] == bytes[at]);
}

/// Why a payload could not be sealed.
#[derive(Clone, Copy, Debug, PartialEq, Eq)]
pub enum SealError {
    /// The sealed form would be longer than a buffer can be.
    TooLarge,
}

/// Whether `bytes` is a stored form of `payload`: a framed form of a framed
/// form of it.
pub open spec fn seals(bytes: Seq<u8>, payload: Seq<u8>) -> bool {
    unframed(bytes) matches Ok(inner) && frames(bytes, inner) && frames(inner, payload)
}

/// The payload of a stored form: the outer envelope is opened, then the
/// inner one.
pub open spec fn unsealed(bytes: Seq<u8>) -> Result<Seq<u8>, FrameError> {
    match unframed(bytes) {
        Ok(inner) => unframed(inner),
        Err(e) => Err(e),
    }
}

/// Frames `payload` twice. Unsealing the result gives `payload` back.
pub fn seal(payload: &[u8]) -> (r: Result<Vec<u8>, SealError>)
    ensures
        match r {
            Ok(out) => {
                &&& seals(out@, payload@)
                &&& out@.len() <= payload@.len() + 2 * HEADER_LEN <= usize::MAX
                &&& unsealed(out@) == Ok::<Seq<u8>, FrameError>(payload@)
            },
            Err(_) => payload@.len() + 2 * HEADER_LEN > usize::MAX,
        },
{
    if payload.len() > usize::MAX - 2 * HEADER_LEN {
        return Err(SealError::TooLarge);
    }
    let inner = frame(payload);
    Ok(frame(inner.as_slice()))
}

/// Opens a stored form: both envelopes, the outer one first.
pub fn unseal(bytes: &[u8]) -> (r: Result<Vec<u8>, FrameError>)
    ensures
        outcome(r) == unsealed(bytes@),
{
    match unframe(bytes) {
        Ok(inner) => unframe(inner.as_slice()),
        Err(e) => Err(e),
    }
}

} // verus!
