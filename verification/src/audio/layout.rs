//! Byte layout of containers, an encoder for the smallest one, and the laws
//! that tie the layout to the decoder.

use vstd::prelude::*;
use crate::audio::container::{
    chunk_size, data_tag, find_data, fmt_tag, has_tag, header_ok, le_u32, locate, padded,
    riff_tag, wave_tag, ContainerError,
};
use crate::audio::samples::{decode, le_i16, samples_of, AudioError};

verus! {

/// Largest number of samples that the smallest container can carry: its size
/// fields are 32 bits wide.
pub const MAX_ENCODED_SAMPLES: usize = 0x7fff_ffed;

/// The four bytes of `n` in little-endian order.
pub open spec fn le_bytes(n: int) -> Seq<u8> {
    seq![
        (n % 256) as u8,
        ((n / 256) % 256) as u8,
        ((n / 65536) % 256) as u8,
        ((n / 16777216) % 256) as u8,
    ]
}

/// The pad byte that follows a body of odd length.
pub open spec fn pad_bytes(n: int) -> Seq<u8> {
    if n % 2 == 1 {
        seq![0u8]
    } else {
        Seq::<u8>::empty()
    }
}

/// One chunk: identifier, size, body, pad.
pub open spec fn chunk_bytes(id: Seq<u8>, body: Seq<u8>) -> Seq<u8> {
    id + le_bytes(body.len() as int) + body + pad_bytes(body.len() as int)
}

/// A list of chunks, one after the other.
pub open spec fn chunks_bytes(chunks: Seq<(Seq<u8>, Seq<u8>)>) -> Seq<u8>
    decreases chunks.len(),
{
    if chunks.len() == 0 {
        Seq::<u8>::empty()
    } else {
        chunks_bytes(chunks.drop_last()) + chunk_bytes(chunks.last().0, chunks.last().1)
    }
}

/// A chunk that the walk may skip: a four-byte identifier other than `data`
/// and a body whose length fits the size field.
pub open spec fn skippable(chunk: (Seq<u8>, Seq<u8>)) -> bool {
    &&& chunk.0.len() == 4
    &&& chunk.0 != data_tag()
    &&& chunk.1.len() <= 0xffff_ffff
}

/// A container: the twelve-byte header, the leading chunks, the data chunk.
pub open spec fn container_bytes(lead: Seq<(Seq<u8>, Seq<u8>)>, payload: Seq<u8>) -> Seq<u8> {
    let rest = wave_tag() + chunks_bytes(lead) + chunk_bytes(data_tag(), payload);
    riff_tag() + le_bytes(rest.len() as int) + rest
}

/// Body of the format chunk for mono 16-bit PCM at 16 kHz.
pub open spec fn pcm_format_body() -> Seq<u8> {
    seq![
        1u8, 0u8, 1u8, 0u8, 0x80u8, 0x3eu8, 0u8, 0u8, 0u8, 0x7du8, 0u8, 0u8, 2u8, 0u8, 16u8, 0u8,
    ]
}

/// Low byte of a sample.
pub open spec fn sample_lo(s: i16) -> u8 {
    ((if s < 0 {
        s + 65536
    } else {
        s as int
    }) % 256) as u8
}

/// High byte of a sample.
pub open spec fn sample_hi(s: i16) -> u8 {
    ((if s < 0 {
        s + 65536
    } else {
        s as int
    }) / 256) as u8
}

/// The payload that holds `samples`, two little-endian bytes each.
pub open spec fn sample_bytes(samples: Seq<i16>) -> Seq<u8> {
    Seq::new(
        2 * samples.len(),
        |i: int|
            if i % 2 == 0 {
                sample_lo(samples[i / 2])
            } else {
                sample_hi(samples[i / 2])
            },
    )
}

/// The smallest container for `samples`: header, format chunk, data chunk.
pub open spec fn minimal_container(samples: Seq<i16>) -> Seq<u8> {
    container_bytes(seq![(fmt_tag(), pcm_format_body())], sample_bytes(samples))
}

/// Reading back the four bytes of `n` gives `n`.
pub proof fn lemma_le_bytes_read_back(n: int)
    requires
        0 <= n <= 0xffff_ffff,
    ensures
        le_bytes(n).len() == 4,
        le_u32(le_bytes(n)[0], le_bytes(n)[1], le_bytes(n)[2], le_bytes(n)[3]) == n,
{
}

/// Reading back the two bytes of a sample gives the sample.
pub proof fn lemma_sample_bytes_read_back(s: i16)
    ensures
        le_i16(sample_lo(s), sample_hi(s)) == s,
{
}

/// Length of one chunk.
pub proof fn lemma_chunk_len(id: Seq<u8>, body: Seq<u8>)
    requires
        id.len() == 4,
    ensures
        chunk_bytes(id, body).len() == 8 + padded(body.len() as int),
{
}

/// A skippable chunk that lies at `pos` is stepped over by the walk.
pub proof fn lemma_walk_steps_over(bytes: Seq<u8>, pos: int, id: Seq<u8>, body: Seq<u8>)
    requires
        skippable((id, body)),
        0 <= pos,
        pos + chunk_bytes(id, body).len() <= bytes.len(),
        bytes.subrange(pos, pos + chunk_bytes(id, body).len() as int) == chunk_bytes(id, body),
    ensures
        find_data(bytes, pos) == find_data(bytes, pos + chunk_bytes(id, body).len() as int),
{
    let chunk = chunk_bytes(id, body);
    let size = body.len() as int;
    lemma_chunk_len(id, body);
    lemma_le_bytes_read_back(size);
    assert forall|k: int| 0 <= k < 8 implies bytes[pos + k] == chunk[k] by {
        assert(bytes.subrange(pos, pos + chunk.len() as int)[k] == bytes[pos + k]);
    }
    assert(chunk[0] == id[0] && chunk[1] == id[1] && chunk[2] == id[2] && chunk[3] == id[3]);
    assert(chunk[4] == le_bytes(size)[0] && chunk[5] == le_bytes(size)[1] && chunk[6]
        == le_bytes(size)[2] && chunk[7] == le_bytes(size)[3]);
    assert(chunk_size(bytes, pos) == size);
    if has_tag(bytes, pos, data_tag()) {
        assert(id =~= data_tag());
    }
}

/// Leading skippable chunks that lie at `pos` are all stepped over.
pub proof fn lemma_walk_steps_over_all(bytes: Seq<u8>, pos: int, lead: Seq<(Seq<u8>, Seq<u8>)>)
    requires
        forall|i: int| 0 <= i < lead.len() ==> skippable(#[trigger] lead[i]),
        0 <= pos,
        pos + chunks_bytes(lead).len() <= bytes.len(),
        bytes.subrange(pos, pos + chunks_bytes(lead).len() as int) == chunks_bytes(lead),
    ensures
        find_data(bytes, pos) == find_data(bytes, pos + chunks_bytes(lead).len() as int),
    decreases lead.len(),
{
    if lead.len() > 0 {
        let front = lead.drop_last();
        let last = lead.last();
        let front_len = chunks_bytes(front).len() as int;
        let all = chunks_bytes(lead);
        let last_bytes = chunk_bytes(last.0, last.1);
        assert(all == chunks_bytes(front) + last_bytes);
        assert(bytes.subrange(pos, pos + front_len) =~= all.subrange(0, front_len));
        assert(all.subrange(0, front_len) =~= chunks_bytes(front));
        assert forall|i: int| 0 <= i < front.len() implies skippable(#[trigger] front[i]) by {
            assert(front[i] == lead[i]);
        }
        lemma_walk_steps_over_all(bytes, pos, front);
        assert(bytes.subrange(pos + front_len, pos + front_len + last_bytes.len() as int)
            =~= all.subrange(front_len, all.len() as int));
        assert(all.subrange(front_len, all.len() as int) =~= last_bytes);
        lemma_walk_steps_over(bytes, pos + front_len, last.0, last.1);
    }
}

/// The decoder finds the payload behind any run of skippable chunks, of even
/// or odd size, and whatever follows the data chunk: the offset is that of the
/// payload and the length is the payload's own.
pub proof fn lemma_data_chunk_found(
    lead: Seq<(Seq<u8>, Seq<u8>)>,
    payload: Seq<u8>,
    trailer: Seq<u8>,
)
    requires
        forall|i: int| 0 <= i < lead.len() ==> skippable(#[trigger] lead[i]),
        payload.len() <= 0xffff_ffff,
        (container_bytes(lead, payload) + trailer).len() >= 44,
    ensures
        locate(container_bytes(lead, payload) + trailer) == Ok::<(int, int), ContainerError>(
            (20 + chunks_bytes(lead).len() as int, payload.len() as int),
        ),
        (container_bytes(lead, payload) + trailer).subrange(
            20 + chunks_bytes(lead).len() as int,
            20 + chunks_bytes(lead).len() as int + payload.len() as int,
        ) == payload,
{
    let bytes = container_bytes(lead, payload) + trailer;
    let lead_bytes = chunks_bytes(lead);
    let data = chunk_bytes(data_tag(), payload);
    let rest = wave_tag() + lead_bytes + data;
    let at: int = 12 + lead_bytes.len() as int;
    lemma_chunk_len(data_tag(), payload);
    lemma_le_bytes_read_back(payload.len() as int);
    assert(bytes.len() == 12 + lead_bytes.len() + data.len() + trailer.len());
    assert forall|k: int| 0 <= k < 4 implies bytes[k] == riff_tag()[k] by {}
    assert forall|k: int| 0 <= k < 4 implies bytes[8 + k] == wave_tag()[k] by {
        assert(rest[k] == wave_tag()[k]);
        assert(bytes[8 + k] == rest[k]);
    }
    assert(header_ok(bytes));
    assert forall|k: int| 0 <= k < lead_bytes.len() implies bytes[12 + k] == lead_bytes[k] by {
        assert(rest[4 + k] == lead_bytes[k]);
        assert(bytes[8 + (4 + k)] == rest[4 + k]);
    }
    assert(bytes.subrange(12, 12 + lead_bytes.len() as int) =~= lead_bytes);
    lemma_walk_steps_over_all(bytes, 12, lead);
    assert forall|k: int| 0 <= k < data.len() implies bytes[at + k] == data[k] by {
        assert(rest[4 + lead_bytes.len() + k] == data[k]);
        assert(bytes[8 + (4 + lead_bytes.len() + k)] == rest[4 + lead_bytes.len() + k]);
    }
    assert(data[0] == data_tag()[0] && data[1] == data_tag()[1] && data[2] == data_tag()[2]
        && data[3] == data_tag()[3]);
    let size = payload.len() as int;
    assert(data[4] == le_bytes(size)[0] && data[5] == le_bytes(size)[1] && data[6] == le_bytes(
        size,
    )[2] && data[7] == le_bytes(size)[3]);
    assert(bytes[at + 0] == data[0]);
    assert(bytes[at + 1] == data[1]);
    assert(bytes[at + 2] == data[2]);
    assert(bytes[at + 3] == data[3]);
    assert(bytes[at + 4] == data[4]);
    assert(bytes[at + 5] == data[5]);
    assert(bytes[at + 6] == data[6]);
    assert(bytes[at + 7] == data[7]);
    assert(has_tag(bytes, at, data_tag()));
    assert(chunk_size(bytes, at) == size);
    assert(find_data(bytes, at) == Some((at + 8, size)));
    assert forall|k: int| 0 <= k < payload.len() implies bytes[at + 8 + k] == payload[k] by {
        assert(data[8 + k] == payload[k]);
        assert(bytes[at + (8 + k)] == data[8 + k]);
    }
    assert(bytes.subrange(at + 8, at + 8 + payload.len() as int) =~= payload);
}

/// The leading chunks of the smallest container are the format chunk alone,
/// which takes 24 bytes and can be skipped.
proof fn lemma_format_chunk_len()
    ensures
        chunks_bytes(seq![(fmt_tag(), pcm_format_body())]) == chunk_bytes(
            fmt_tag(),
            pcm_format_body(),
        ),
        chunks_bytes(seq![(fmt_tag(), pcm_format_body())]).len() == 24,
        skippable((fmt_tag(), pcm_format_body())),
{
    let lead = seq![(fmt_tag(), pcm_format_body())];
    assert(lead.drop_last() =~= Seq::<(Seq<u8>, Seq<u8>)>::empty());
    assert(chunks_bytes(lead.drop_last()) =~= Seq::<u8>::empty());
    assert(chunks_bytes(lead) =~= chunk_bytes(fmt_tag(), pcm_format_body()));
    lemma_chunk_len(fmt_tag(), pcm_format_body());
    assert(fmt_tag()[0] != data_tag()[0]);
}

/// Decoding the smallest container for a sample sequence gives the sequence
/// back, sample for sample; for the empty sequence it reports an empty buffer.
pub proof fn lemma_round_trip(samples: Seq<i16>)
    requires
        samples.len() <= MAX_ENCODED_SAMPLES,
    ensures
        samples.len() > 0 ==> decode(minimal_container(samples)) == Ok::<Seq<i16>, AudioError>(
            samples,
        ),
        samples.len() == 0 ==> decode(minimal_container(samples)) == Err::<
            Seq<i16>,
            AudioError,
        >(AudioError::EmptySampleBuffer),
        locate(minimal_container(samples)) == Ok::<(int, int), ContainerError>(
            (44, 2 * samples.len() as int),
        ),
{
    let lead = seq![(fmt_tag(), pcm_format_body())];
    let payload = sample_bytes(samples);
    let bytes = minimal_container(samples);
    lemma_format_chunk_len();
    lemma_chunk_len(data_tag(), payload);
    assert(bytes + Seq::<u8>::empty() =~= bytes);
    lemma_data_chunk_found(lead, payload, Seq::<u8>::empty());
    assert(bytes.subrange(44, 44 + 2 * samples.len() as int) == payload);
    assert forall|i: int| 0 <= i < samples.len() implies samples_of(payload)[i] == samples[i] by {
        lemma_sample_bytes_read_back(samples[i]);
        assert(payload[2 * i] == sample_lo(samples[i]));
        assert(payload[2 * i + 1] == sample_hi(samples[i]));
    }
    assert(samples_of(payload) =~= samples);
}

/// Appends the four little-endian bytes of `n`.
fn push_u32_le(out: &mut Vec<u8>, n: u32)
    ensures
        final(out)@ == old(out)@ + le_bytes(n as int),
{
    out.push((n % 256) as u8);
    out.push(((n / 256) % 256) as u8);
    out.push(((n / 65536) % 256) as u8);
    out.push(((n / 16777216) % 256) as u8);
    assert(out@ =~= old(out)@ + le_bytes(n as int));
}

/// Appends four given bytes.
fn push_tag(out: &mut Vec<u8>, b0: u8, b1: u8, b2: u8, b3: u8)
    ensures
        final(out)@ == old(out)@ + seq![b0, b1, b2, b3],
{
    out.push(b0);
    out.push(b1);
    out.push(b2);
    out.push(b3);
    assert(out@ =~= old(out)@ + seq![b0, b1, b2, b3]);
}

/// Appends the two little-endian bytes of a sample.
fn push_sample(out: &mut Vec<u8>, s: i16)
    ensures
        final(out)@ == old(out)@.push(sample_lo(s)).push(sample_hi(s)),
{
    let u: u16 = if s < 0 {
        (s + 32767 + 1) as u16 + 32768
    } else {
        s as u16
    };
    out.push((u % 256) as u8);
    out.push((u / 256) as u8);
}

/// Encodes samples into the smallest container: the twelve-byte header, a
/// sixteen-byte format chunk for mono 16-bit PCM at 16 kHz, and the data chunk.
pub fn encode_minimal_container(samples: &[i16]) -> (out: Vec<u8>)
    requires
        samples@.len() <= MAX_ENCODED_SAMPLES,
    ensures
        out@ == minimal_container(samples@),
        out@.len() == 44 + 2 * samples@.len(),
{
    let n: usize = samples.len();
    let payload_len: u32 = (2 * n) as u32;
    let mut out: Vec<u8> = Vec::new();
    push_tag(&mut out, 0x52, 0x49, 0x46, 0x46);
    push_u32_le(&mut out, 36 + payload_len);
    push_tag(&mut out, 0x57, 0x41, 0x56, 0x45);
    push_tag(&mut out, 0x66, 0x6d, 0x74, 0x20);
    push_u32_le(&mut out, 16);
    push_tag(&mut out, 1, 0, 1, 0);
    push_tag(&mut out, 0x80, 0x3e, 0, 0);
    push_tag(&mut out, 0, 0x7d, 0, 0);
    push_tag(&mut out, 2, 0, 16, 0);
    push_tag(&mut out, 0x64, 0x61, 0x74, 0x61);
    push_u32_le(&mut out, payload_len);
    let ghost head = out@;
    let ghost payload = sample_bytes(samples@);
    proof {
        lemma_format_chunk_len();
        assert(pad_bytes(16) =~= Seq::<u8>::empty());
        assert(pad_bytes(payload.len() as int) =~= Seq::<u8>::empty());
        assert(chunk_bytes(fmt_tag(), pcm_format_body()) =~= fmt_tag() + le_bytes(16)
            + pcm_format_body());
        assert(chunk_bytes(data_tag(), payload) =~= data_tag() + le_bytes(payload_len as int)
            + payload);
        assert(head.len() == 44);
        assert(head + payload =~= minimal_container(samples@));
    }
    let mut i: usize = 0;
    while i < n
        invariant
            n == samples@.len(),
            i <= n,
            head.len() == 44,
            payload == sample_bytes(samples@),
            out@.len() == 44 + 2 * i,
            out@ =~= head + payload.subrange(0, 2 * i),
        decreases n - i,
    {
        push_sample(&mut out, samples[i]);
        assert(payload[2 * i] == sample_lo(samples@[i as int]));
        assert(payload[2 * i + 1] == sample_hi(samples@[i as int]));
        i = i + 1;
    }
    assert(payload.subrange(0, 2 * n) =~= payload);
    out
}

} // verus!
