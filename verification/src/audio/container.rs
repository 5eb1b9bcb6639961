//! Chunk-walking decoder for RIFF/WAVE containers.
//!
//! The payload is found by walking the chunk list that starts at byte 12, never
//! by a fixed offset: converters may emit metadata chunks before the samples.

use vstd::prelude::*;

verus! {

/// Smallest buffer that is accepted as a container.
pub const MIN_CONTAINER_LEN: usize = 44;

/// Offset of the first chunk header.
pub const CHUNK_LIST_START: usize = 12;

/// Length of a chunk header: a four-byte identifier and a four-byte size.
pub const CHUNK_HEADER_LEN: usize = 8;

/// Why a buffer could not be decoded.
#[derive(Clone, Copy, Debug, PartialEq, Eq, Structural)]
pub enum ContainerError {
    /// The buffer is shorter than 44 bytes or a magic marker is wrong.
    Malformed,
    /// The chunk walk reached the end of the buffer without seeing a data chunk.
    NoDataChunk,
}

/// Where the sample payload lies inside the buffer.
#[derive(Clone, Copy, Debug, PartialEq, Eq, Structural)]
pub struct DataChunk {
    pub offset: usize,
    pub len: usize,
}

/// The marker `RIFF`.
pub open spec fn riff_tag() -> Seq<u8> {
    seq![0x52u8, 0x49u8, 0x46u8, 0x46u8]
}

/// The marker `WAVE`.
pub open spec fn wave_tag() -> Seq<u8> {
    seq![0x57u8, 0x41u8, 0x56u8, 0x45u8]
}

/// The identifier `data`.
pub open spec fn data_tag() -> Seq<u8> {
    seq![0x64u8, 0x61u8, 0x74u8, 0x61u8]
}

/// The identifier `fmt ` (with its trailing space).
pub open spec fn fmt_tag() -> Seq<u8> {
    seq![0x66u8, 0x6du8, 0x74u8, 0x20u8]
}

/// The four bytes at `at` are those of `tag`.
pub open spec fn has_tag(bytes: Seq<u8>, at: int, tag: Seq<u8>) -> bool {
    &&& 0 <= at
    &&& at + 4 <= bytes.len()
    &&& bytes[at] == tag[0]
    &&& bytes[at + 1] == tag[1]
    &&& bytes[at + 2] == tag[2]
    &&& bytes[at + 3] == tag[3]
}

/// Value of four bytes read as a little-endian unsigned integer.
pub open spec fn le_u32(b0: u8, b1: u8, b2: u8, b3: u8) -> int {
    b0 as int + 256 * (b1 as int) + 65536 * (b2 as int) + 16777216 * (b3 as int)
}

/// Declared size of the chunk whose header starts at `pos`.
pub open spec fn chunk_size(bytes: Seq<u8>, pos: int) -> int {
    le_u32(bytes[pos + 4], bytes[pos + 5], bytes[pos + 6], bytes[pos + 7])
}

/// Bytes that a chunk body of `size` bytes takes up: odd sizes get one pad byte.
pub open spec fn padded(size: int) -> int {
    size + size % 2
}

/// The chunk walk from `pos`: offset and length of the first data chunk's
/// payload, the length cut to what the buffer holds.
pub open spec fn find_data(bytes: Seq<u8>, pos: int) -> Option<(int, int)>
    decreases bytes.len() - pos,
{
    if pos < 0 || pos + 8 > bytes.len() {
        None
    } else if has_tag(bytes, pos, data_tag()) {
        let room = bytes.len() - (pos + 8);
        let size = chunk_size(bytes, pos);
        Some((pos + 8, if size <= room { size } else { room }))
    } else {
        let next = pos + 8 + padded(chunk_size(bytes, pos));
        if next > bytes.len() {
            None
        } else {
            find_data(bytes, next)
        }
    }
}

/// The buffer is long enough and carries both magic markers.
pub open spec fn header_ok(bytes: Seq<u8>) -> bool {
    &&& bytes.len() >= 44
    &&& has_tag(bytes, 0, riff_tag())
    &&& has_tag(bytes, 8, wave_tag())
}

/// What decoding a buffer yields.
pub open spec fn locate(bytes: Seq<u8>) -> Result<(int, int), ContainerError> {
    if !header_ok(bytes) {
        Err(ContainerError::Malformed)
    } else {
        match find_data(bytes, 12) {
            Some(found) => Ok(found),
            None => Err(ContainerError::NoDataChunk),
        }
    }
}

/// What the walk finds is a data chunk: the payload lies right behind a
/// header that carries the data identifier, at or behind the walk's start,
/// within the buffer, and it is no longer than the header declares.
pub proof fn lemma_found_payload_follows_data_header(bytes: Seq<u8>, pos: int)
    requires
        find_data(bytes, pos).is_some(),
    ensures
        ({
            let (offset, len) = find_data(bytes, pos).unwrap();
            &&& pos + 8 <= offset
            &&& has_tag(bytes, offset - 8, data_tag())
            &&& 0 <= len <= chunk_size(bytes, offset - 8)
            &&& offset + len <= bytes.len()
        }),
    decreases bytes.len() - pos,
{
    if !has_tag(bytes, pos, data_tag()) {
        lemma_found_payload_follows_data_header(
            bytes,
            pos + 8 + padded(chunk_size(bytes, pos)),
        );
    }
}

/// Reads the little-endian size field of the chunk header at `pos`.
fn read_chunk_size(bytes: &[u8], pos: usize) -> (size: u32)
    requires
        pos + 8 <= bytes@.len() <= usize::MAX,
    ensures
        size as int == chunk_size(bytes@, pos as int),
{
    let b0: u32 = bytes[pos + 4] as u32;
    let b1: u32 = bytes[pos + 5] as u32;
    let b2: u32 = bytes[pos + 6] as u32;
    let b3: u32 = bytes[pos + 7] as u32;
    b0 + 256 * b1 + 65536 * b2 + 16777216 * b3
}

/// Validates the header and walks the chunk list to the sample payload.
pub fn locate_data_chunk(bytes: &[u8]) -> (found: Result<DataChunk, ContainerError>)
    ensures
        match found {
            Ok(chunk) => locate(bytes@) == Ok::<(int, int), ContainerError>(
                (chunk.offset as int, chunk.len as int),
            ) && chunk.offset + chunk.len <= bytes@.len(),
            Err(e) => locate(bytes@) == Err::<(int, int), ContainerError>(e),
        },
        bytes@.len() < 44 || !has_tag(bytes@, 0, riff_tag()) || !has_tag(bytes@, 8, wave_tag())
            <==> found == Err::<DataChunk, ContainerError>(ContainerError::Malformed),
        header_ok(bytes@) && find_data(bytes@, 12).is_none() <==> found == Err::<
            DataChunk,
            ContainerError,
        >(ContainerError::NoDataChunk),
{
    let n: usize = bytes.len();
    if n < MIN_CONTAINER_LEN {
        return Err(ContainerError::Malformed);
    }
    if !(bytes[0] == 0x52 && bytes[1] == 0x49 && bytes[2] == 0x46 && bytes[3] == 0x46) {
        return Err(ContainerError::Malformed);
    }
    if !(bytes[8] == 0x57 && bytes[9] == 0x41 && bytes[10] == 0x56 && bytes[11] == 0x45) {
        return Err(ContainerError::Malformed);
    }
    let mut pos: usize = CHUNK_LIST_START;
    while n - pos >= CHUNK_HEADER_LEN
        invariant
            n == bytes@.len(),
            12 <= pos <= n,
            header_ok(bytes@),
            find_data(bytes@, pos as int) == find_data(bytes@, 12),
        decreases n - pos,
    {
        let size: u32 = read_chunk_size(bytes, pos);
        let room: usize = n - pos - CHUNK_HEADER_LEN;
        if bytes[pos] == 0x64 && bytes[pos + 1] == 0x61 && bytes[pos + 2] == 0x74 && bytes[pos
            + 3] == 0x61 {
            let len: usize = if (size as u64) <= (room as u64) {
                size as usize
            } else {
                room
            };
            return Ok(DataChunk { offset: pos + CHUNK_HEADER_LEN, len });
        }
        let skip: u64 = size as u64 + (size % 2) as u64;
        if skip > room as u64 {
            return Err(ContainerError::NoDataChunk);
        }
        pos = pos + CHUNK_HEADER_LEN + skip as usize;
    }
    Err(ContainerError::NoDataChunk)
}

} // verus!
