//! The SEN5x wire format: every data word travels as its two bytes, most
//! significant first, followed by the CRC-8 of those two bytes. A write frame
//! is a two-byte command followed by such CRC-protected words; a response is
//! a sequence of CRC-protected words.
use vstd::prelude::*;
use crate::crc::{
    crc8,
    crc8_word,
    crc_pair,
    lemma_crc8_of_pair,
    lemma_crc_detects_single_byte_error,
    spec_crc8,
};
use crate::error::Sen5xError;

verus! {

/// The largest number of data words in one request or response.
pub const MAX_RESPONSE_WORDS: usize = 16;

/// Most significant byte of a word.
pub open spec fn word_hi(w: u16) -> u8 {
    (w / 256) as u8
}

/// Least significant byte of a word.
pub open spec fn word_lo(w: u16) -> u8 {
    (w % 256) as u8
}

/// The word whose bytes, most significant first, are `hi`, `lo`.
pub open spec fn be_word(hi: u8, lo: u8) -> u16 {
    (hi * 256 + lo) as u16
}

/// The bytes of a sequence of words, each most significant byte first.
pub open spec fn words_to_bytes(words: Seq<u16>) -> Seq<u8> {
    Seq::new(
        2 * words.len(),
        |i: int|
            if i % 2 == 0 {
                word_hi(words[i / 2])
            } else {
                word_lo(words[i / 2])
            },
    )
}

/// Byte `i` of the wire form of `data`: each pair of data bytes is followed
/// by its CRC.
pub open spec fn framed_byte(data: Seq<u8>, i: int) -> u8 {
    let k = i / 3;
    if i % 3 == 0 {
        data[2 * k]
    } else if i % 3 == 1 {
        data[2 * k + 1]
    } else {
        crc_pair(data[2 * k], data[2 * k + 1])
    }
}

/// The wire form of an even number of data bytes: each two-byte word is
/// followed by its CRC byte.
pub open spec fn with_crcs(data: Seq<u8>) -> Seq<u8> {
    Seq::new(3 * (data.len() / 2), |i: int| framed_byte(data, i))
}

/// Whether the CRC byte of word `k` of a response matches its data bytes.
pub open spec fn chunk_crc_ok(response: Seq<u8>, k: int) -> bool {
    crc_pair(response[3 * k], response[3 * k + 1]) == response[3 * k + 2]
}

/// Whether every complete three-byte chunk of a response carries a valid CRC.
pub open spec fn crcs_valid(response: Seq<u8>) -> bool {
    forall|k: int| 0 <= k < response.len() / 3 ==> #[trigger] chunk_crc_ok(response, k)
}

/// The data words carried by a response (a trailing partial chunk is ignored).
pub open spec fn response_words(response: Seq<u8>) -> Seq<u16> {
    Seq::new(response.len() / 3, |k: int| be_word(response[3 * k], response[3 * k + 1]))
}

/// The data bytes carried by a response, CRC bytes removed.
pub open spec fn response_bytes(response: Seq<u8>) -> Seq<u8> {
    Seq::new(2 * (response.len() / 3), |i: int| response[3 * (i / 2) + i % 2])
}

/// Whether `payload` can be sent in one frame: an even number of bytes, at
/// most `MAX_RESPONSE_WORDS` words.
pub open spec fn payload_fits(payload: Seq<u8>) -> bool {
    payload.len() % 2 == 0 && payload.len() / 2 <= MAX_RESPONSE_WORDS
}

/// The frame of a command followed by CRC-protected data bytes.
pub open spec fn command_frame(command: Seq<u8>, payload: Seq<u8>) -> Seq<u8> {
    command + with_crcs(payload)
}

/// Word of two bytes, most significant first.
pub fn word_from_bytes(hi: u8, lo: u8) -> (w: u16)
    ensures
        w == be_word(hi, lo),
        w as int == hi * 256 + lo,
{
    (hi as u16) * 256 + (lo as u16)
}

/// Bytes of a word, most significant first.
pub fn word_to_bytes(w: u16) -> (r: (u8, u8))
    ensures
        r.0 == word_hi(w),
        r.1 == word_lo(w),
        w as int == r.0 * 256 + r.1,
{
    ((w / 256) as u8, (w % 256) as u8)
}

/// A command followed by an even number of raw data bytes, each two-byte
/// word followed by its CRC, as one frame.
pub fn frame_payload(command: [u8; 2], payload: &[u8]) -> (frame: Vec<u8>)
    requires
        payload_fits(payload@),
    ensures
        frame@ == command_frame(command@, payload@),
{
    let mut frame: Vec<u8> = Vec::new();
    frame.push(command[0]);
    frame.push(command[1]);
    let ghost data = payload@;
    let n = payload.len() / 2;
    let mut k: usize = 0;
    while k < n
        invariant
            n == data.len() / 2,
            n <= MAX_RESPONSE_WORDS,
            data.len() % 2 == 0,
            data == payload@,
            k <= n,
            frame@.len() == 2 + 3 * k,
            frame@[0] == command[0],
            frame@[1] == command[1],
            forall|j: int| 0 <= j < 3 * k ==> #[trigger] frame@[2 + j] == framed_byte(data, j),
        decreases n - k,
    {
        let hi = payload[2 * k];
        let lo = payload[2 * k + 1];
        let crc = crc8_word(hi, lo);
        frame.push(hi);
        frame.push(lo);
        frame.push(crc);
        proof {
            assert((3 * k as int) / 3 == k as int && (3 * k as int) % 3 == 0);
            assert((3 * k as int + 1) / 3 == k as int && (3 * k as int + 1) % 3 == 1);
            assert((3 * k as int + 2) / 3 == k as int && (3 * k as int + 2) % 3 == 2);
            assert forall|j: int| 0 <= j < 3 * (k + 1) implies #[trigger] frame@[2 + j]
                == framed_byte(data, j) by {
                if j >= 3 * k {
                    assert(framed_byte(data, 3 * k as int) == hi);
                    assert(framed_byte(data, 3 * k as int + 1) == lo);
                    assert(framed_byte(data, 3 * k as int + 2) == crc);
                }
            }
        }
        k = k + 1;
    }
    proof {
        let expected = command_frame(command@, data);
        assert(expected.len() == frame@.len());
        assert forall|i: int| 0 <= i < frame@.len() implies frame@[i] == expected[i] by {
            if i >= 2 {
                assert(frame@[2 + (i - 2)] == framed_byte(data, i - 2));
            }
        }
        assert(frame@ =~= expected);
    }
    frame
}

/// A command followed by data words, each CRC-protected, as one frame.
pub fn frame_words(command: [u8; 2], words: &[u16]) -> (frame: Vec<u8>)
    requires
        words@.len() <= MAX_RESPONSE_WORDS,
    ensures
        frame@ == command_frame(command@, words_to_bytes(words@)),
{
    let mut payload: Vec<u8> = Vec::new();
    let mut k: usize = 0;
    while k < words.len()
        invariant
            k <= words.len() <= MAX_RESPONSE_WORDS,
            payload@ =~= words_to_bytes(words@.take(k as int)),
        decreases words.len() - k,
    {
        let (hi, lo) = word_to_bytes(words[k]);
        payload.push(hi);
        payload.push(lo);
        proof {
            let next = words_to_bytes(words@.take(k + 1));
            assert forall|i: int| 0 <= i < next.len() implies payload@[i] == next[i] by {
                if i < 2 * k {
                    assert(words@.take(k + 1)[i / 2] == words@.take(k as int)[i / 2]);
                }
            }
            assert(payload@ =~= next);
        }
        k = k + 1;
    }
    proof {
        assert(words@.take(words.len() as int) =~= words@);
    }
    frame_payload(command, payload.as_slice())
}

/// Checks a received CRC byte against the CRC-8 of its data bytes.
pub fn check_crc<E>(data: &[u8], expected_crc: u8) -> (r: Result<(), Sen5xError<E>>)
    ensures
        spec_crc8(data@) == expected_crc ==> r is Ok,
        spec_crc8(data@) != expected_crc ==> r matches Err(Sen5xError::Crc),
{
    if crc8(data) != expected_crc {
        Err(Sen5xError::Crc)
    } else {
        Ok(())
    }
}

/// Checks the CRC byte of word `k` of a response.
fn check_chunk_crc<E>(response: &[u8], k: usize) -> (r: Result<(), Sen5xError<E>>)
    requires
        3 * k + 3 <= response@.len(),
    ensures
        chunk_crc_ok(response@, k as int) ==> r is Ok,
        !chunk_crc_ok(response@, k as int) ==> r matches Err(Sen5xError::Crc),
{
    let len = response.len();
    assert(3 * k + 3 <= len);
    let data = vstd::slice::slice_subrange(response, 3 * k, 3 * k + 2);
    proof {
        assert(data@ =~= seq![response@[3 * k as int], response@[3 * k + 1]]);
        lemma_crc8_of_pair(response@[3 * k as int], response@[3 * k + 1]);
    }
    check_crc(data, response[3 * k + 2])
}

/// Decodes a response of CRC-protected words. Every three-byte chunk must
/// carry a valid CRC; the first mismatch fails with `Sen5xError::Crc`.
pub fn decode_words<E>(response: &[u8]) -> (r: Result<Vec<u16>, Sen5xError<E>>)
    ensures
        crcs_valid(response@) ==> (r matches Ok(words) && words@ == response_words(response@)),
        !crcs_valid(response@) ==> r matches Err(Sen5xError::Crc),
{
    let len = response.len();
    let n = len / 3;
    let mut words: Vec<u16> = Vec::new();
    let mut k: usize = 0;
    while k < n
        invariant
            len == response@.len(),
            n == len / 3,
            3 * n <= len,
            k <= n,
            words@.len() == k,
            forall|j: int| 0 <= j < k ==> #[trigger] chunk_crc_ok(response@, j),
            forall|j: int| 0 <= j < k ==> #[trigger] words@[j] == response_words(response@)[j],
        decreases n - k,
    {
        if let Err(e) = check_chunk_crc(response, k) {
            return Err(e);
        }
        let hi = response[3 * k];
        let lo = response[3 * k + 1];
        words.push(word_from_bytes(hi, lo));
        k = k + 1;
    }
    proof {
        assert(words@ =~= response_words(response@));
    }
    Ok(words)
}

/// Decodes a response of CRC-protected words into its data bytes. Every
/// three-byte chunk must carry a valid CRC; the first mismatch fails with
/// `Sen5xError::Crc`.
pub fn decode_bytes<E>(response: &[u8]) -> (r: Result<Vec<u8>, Sen5xError<E>>)
    ensures
        crcs_valid(response@) ==> (r matches Ok(bytes) && bytes@ == response_bytes(response@)),
        !crcs_valid(response@) ==> r matches Err(Sen5xError::Crc),
{
    let len = response.len();
    let n = len / 3;
    let mut bytes: Vec<u8> = Vec::new();
    let mut k: usize = 0;
    while k < n
        invariant
            len == response@.len(),
            n == len / 3,
            3 * n <= len,
            k <= n,
            bytes@.len() == 2 * k,
            forall|j: int| 0 <= j < k ==> #[trigger] chunk_crc_ok(response@, j),
            forall|i: int| 0 <= i < 2 * k ==> #[trigger] bytes@[i] == response_bytes(response@)[i],
        decreases n - k,
    {
        if let Err(e) = check_chunk_crc(response, k) {
            return Err(e);
        }
        let hi = response[3 * k];
        let lo = response[3 * k + 1];
        bytes.push(hi);
        bytes.push(lo);
        proof {
            assert((2 * k as int) / 2 == k as int && (2 * k as int) % 2 == 0);
            assert((2 * k as int + 1) / 2 == k as int && (2 * k as int + 1) % 2 == 1);
        }
        k = k + 1;
    }
    proof {
        assert(bytes@ =~= response_bytes(response@));
    }
    Ok(bytes)
}

/// Every frame the driver builds is accepted by the response decoder: the
/// CRC-protected wire form of an even number of data bytes has only valid
/// CRCs, and decoding it gives back the data bytes.
pub proof fn lemma_bytes_round_trip(data: Seq<u8>)
    requires
        data.len() % 2 == 0,
    ensures
        crcs_valid(with_crcs(data)),
        response_bytes(with_crcs(data)) == data,
{
    let r = with_crcs(data);
    assert(r.len() / 3 == data.len() / 2);
    assert forall|k: int| 0 <= k < r.len() / 3 implies #[trigger] chunk_crc_ok(r, k) by {
        assert((3 * k) / 3 == k && (3 * k) % 3 == 0);
        assert((3 * k + 1) / 3 == k && (3 * k + 1) % 3 == 1);
        assert((3 * k + 2) / 3 == k && (3 * k + 2) % 3 == 2);
    }
    let d = response_bytes(r);
    assert forall|i: int| 0 <= i < data.len() implies d[i] == data[i] by {
        let k = i / 2;
        assert(3 * k + i % 2 < r.len());
        assert((3 * k + i % 2) / 3 == k && (3 * k + i % 2) % 3 == i % 2);
    }
    assert(d =~= data);
}

/// Word `k` of the wire form of a word sequence decodes to word `k`.
proof fn lemma_word_round_trip_at(words: Seq<u16>, k: int)
    requires
        0 <= k < words.len(),
    ensures
        response_words(with_crcs(words_to_bytes(words)))[k] == words[k],
{
    let b = words_to_bytes(words);
    let r = with_crcs(b);
    assert(b.len() == 2 * words.len());
    assert(b.len() / 2 == words.len());
    assert(r.len() == 3 * words.len());
    assert(r.len() / 3 == words.len());
    assert((3 * k) / 3 == k && (3 * k) % 3 == 0);
    assert((3 * k + 1) / 3 == k && (3 * k + 1) % 3 == 1);
    assert((2 * k) / 2 == k && (2 * k) % 2 == 0);
    assert((2 * k + 1) / 2 == k && (2 * k + 1) % 2 == 1);
    assert(r[3 * k] == b[2 * k]);
    assert(r[3 * k + 1] == b[2 * k + 1]);
    assert(b[2 * k] == word_hi(words[k]));
    assert(b[2 * k + 1] == word_lo(words[k]));
    let w = words[k];
    assert((w / 256) * 256 + w % 256 == w);
}

/// Words written to the wire are read back unchanged: the CRC-protected wire
/// form of a word sequence passes every CRC check and decodes to the same
/// words.
pub proof fn lemma_words_round_trip(words: Seq<u16>)
    ensures
        crcs_valid(with_crcs(words_to_bytes(words))),
        response_words(with_crcs(words_to_bytes(words))) == words,
{
    let b = words_to_bytes(words);
    assert(b.len() % 2 == 0);
    lemma_bytes_round_trip(b);
    let w = response_words(with_crcs(b));
    assert(w.len() == words.len());
    assert forall|k: int| 0 <= k < words.len() implies w[k] == words[k] by {
        lemma_word_round_trip_at(words, k);
    }
    assert(w =~= words);
}

/// A single corrupted byte anywhere in the wire form of valid data, be it a
/// data byte or a CRC byte, fails the CRC check of its word.
pub proof fn lemma_corrupted_byte_detected(data: Seq<u8>, i: int, b: u8)
    requires
        data.len() % 2 == 0,
        0 <= i < with_crcs(data).len(),
        b != with_crcs(data)[i],
    ensures
        !crcs_valid(with_crcs(data).update(i, b)),
{
    let r = with_crcs(data);
    let c = r.update(i, b);
    let k = i / 3;
    assert(0 <= k < c.len() / 3);
    assert((3 * k) / 3 == k && (3 * k) % 3 == 0);
    assert((3 * k + 1) / 3 == k && (3 * k + 1) % 3 == 1);
    assert((3 * k + 2) / 3 == k && (3 * k + 2) % 3 == 2);
    assert(i == 3 * k + i % 3);
    let hi = data[2 * k];
    let lo = data[2 * k + 1];
    lemma_crc_detects_single_byte_error(hi, lo, b);
    assert(!chunk_crc_ok(c, k));
}

/// Words travel most significant byte first: the high byte of `w` is
/// `w / 256`, its low byte `w % 256`, and the two bytes `hi`, `lo` carry the
/// word `hi * 256 + lo`.
pub proof fn lemma_big_endian(w: u16, hi: u8, lo: u8)
    ensures
        word_hi(w) as int == w / 256,
        word_lo(w) as int == w % 256,
        be_word(hi, lo) as int == hi * 256 + lo,
{
}

/// The layout of a frame: the two command bytes, then for each data word its
/// high byte, its low byte and the CRC of those two bytes.
pub proof fn lemma_frame_layout(command: Seq<u8>, data: Seq<u8>, k: int)
    requires
        command.len() == 2,
        data.len() % 2 == 0,
        0 <= k < data.len() / 2,
    ensures
        command_frame(command, data).len() == 2 + 3 * (data.len() / 2),
        command_frame(command, data)[0] == command[0],
        command_frame(command, data)[1] == command[1],
        command_frame(command, data)[2 + 3 * k] == data[2 * k],
        command_frame(command, data)[3 + 3 * k] == data[2 * k + 1],
        command_frame(command, data)[4 + 3 * k] == crc_pair(data[2 * k], data[2 * k + 1]),
{
    assert((3 * k) / 3 == k && (3 * k) % 3 == 0);
    assert((3 * k + 1) / 3 == k && (3 * k + 1) % 3 == 1);
    assert((3 * k + 2) / 3 == k && (3 * k + 2) % 3 == 2);
}

} // verus!
