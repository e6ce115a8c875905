use vstd::prelude::*;

use crate::error::MeaError;

verus! {

/// Number of electrode channels in one sample.
pub const CHANNELS: usize = 32;

/// Number of readings in one channel.
pub const READINGS_PER_CHANNEL: usize = 4096;

/// Number of devices whose blocks a full payload concatenates.
pub const DEVICES: usize = 4;

/// Bytes per reading: one IEEE-754 single-precision float.
pub const READING_BYTES: usize = 4;

/// Readings in one device's block.
pub const BLOCK_READINGS: usize = CHANNELS * READINGS_PER_CHANNEL;

/// Byte length of a payload that holds only the requested device's block.
pub const ONE_DEVICE_BYTES: usize = BLOCK_READINGS * READING_BYTES;

/// Byte length of a payload that holds the blocks of all devices.
pub const ALL_DEVICES_BYTES: usize = DEVICES * ONE_DEVICE_BYTES;

/// One reading: the four bytes of a float in the sender's native byte order.
pub type Reading = [u8; 4];

/// One decoded acquisition: when it was captured and its 32 x 4096 readings.
#[derive(Debug, Clone)]
pub struct LiveData {
    /// The capture instant in RFC 3339 form.
    pub timestamp: String,
    /// `data[c][k]` is reading `k` of channel `c`.
    pub data: Vec<Vec<Reading>>,
}

/// The bytes of reading `k` of a flat payload.
pub open spec fn reading_of(payload: Seq<u8>, k: int) -> Seq<u8> {
    payload.subrange(4 * k, 4 * k + 4)
}

/// The byte lengths that a binary payload may have.
pub open spec fn valid_payload_len(len: nat) -> bool {
    len == ONE_DEVICE_BYTES || len == ALL_DEVICES_BYTES
}

/// The reading index at which the requested device's block starts.
pub open spec fn block_offset(len: nat, mea_index: nat) -> int {
    if len == ALL_DEVICES_BYTES {
        mea_index * BLOCK_READINGS
    } else {
        0
    }
}

/// The 32 x 4096 readings that start at reading `offset`, channel after channel.
pub open spec fn reshape(payload: Seq<u8>, offset: int) -> Seq<Seq<Seq<u8>>> {
    Seq::new(
        CHANNELS as nat,
        |c: int|
            Seq::new(
                READINGS_PER_CHANNEL as nat,
                |k: int| reading_of(payload, offset + c * READINGS_PER_CHANNEL + k),
            ),
    )
}

/// The channels that a payload carries for the device with zero-based index `mea_index`.
pub open spec fn decoded_channels(payload: Seq<u8>, mea_index: nat) -> Seq<Seq<Seq<u8>>> {
    reshape(payload, block_offset(payload.len(), mea_index))
}

/// A grid of exactly 32 channels of exactly 4096 readings each.
pub open spec fn has_sample_shape(channels: Seq<Seq<Seq<u8>>>) -> bool {
    &&& channels.len() == CHANNELS
    &&& forall|c: int| 0 <= c < CHANNELS ==> (#[trigger] channels[c]).len() == READINGS_PER_CHANNEL
}

impl LiveData {
    /// The readings as bytes, channel by channel.
    pub open spec fn channels(&self) -> Seq<Seq<Seq<u8>>> {
        self.data@.map_values(|ch: Vec<Reading>| ch@.map_values(|r: Reading| r@))
    }

    /// Whether the sample has 32 channels of 4096 readings.
    pub open spec fn wf(&self) -> bool {
        has_sample_shape(self.channels())
    }

    /// Checks the channel and reading counts.
    pub fn is_well_formed(&self) -> (r: bool)
        ensures
            r == self.wf(),
    {
        if self.data.len() != CHANNELS {
            return false;
        }
        let mut c: usize = 0;
        while c < CHANNELS
            invariant
                self.data@.len() == CHANNELS,
                c <= CHANNELS,
                forall|i: int| 0 <= i < c ==> (#[trigger] self.channels()[i]).len() == READINGS_PER_CHANNEL,
            decreases CHANNELS - c,
        {
            if self.data[c].len() != READINGS_PER_CHANNEL {
                assert(self.channels()[c as int].len() != READINGS_PER_CHANNEL);
                return false;
            }
            c += 1;
        }
        true
    }
}

/// The error for a payload of `len` bytes that fits no layout.
pub open spec fn size_error(len: nat) -> MeaError {
    MeaError::PayloadSize {
        got_bytes: len as usize,
        expected_one_bytes: ONE_DEVICE_BYTES,
        expected_all_bytes: ALL_DEVICES_BYTES,
    }
}

/// Decodes a binary payload into a sample for the device with zero-based
/// index `mea_index`, stamped with `timestamp`.
///
/// A payload of one block is taken whole; a payload of four blocks yields the
/// block at `mea_index`. Any other size is a `PayloadSize` error.
pub fn decode_payload(payload: &Vec<u8>, mea_index: u32, timestamp: String) -> (r: Result<LiveData, MeaError>)
    requires
        mea_index < DEVICES,
    ensures
        match r {
            Ok(d) => {
                &&& valid_payload_len(payload@.len())
                &&& d.channels() == decoded_channels(payload@, mea_index as nat)
                &&& d.timestamp == timestamp
                &&& d.wf()
            },
            Err(e) => !valid_payload_len(payload@.len()) && e == size_error(payload@.len()),
        },
{
    let len = payload.len();
    if len != ONE_DEVICE_BYTES && len != ALL_DEVICES_BYTES {
        return Err(
            MeaError::PayloadSize {
                got_bytes: len,
                expected_one_bytes: ONE_DEVICE_BYTES,
                expected_all_bytes: ALL_DEVICES_BYTES,
            },
        );
    }
    let offset: usize = if len == ALL_DEVICES_BYTES {
        mea_index as usize * BLOCK_READINGS
    } else {
        0
    };
    let ghost want = decoded_channels(payload@, mea_index as nat);
    assert(offset == block_offset(len as nat, mea_index as nat));
    let mut data: Vec<Vec<Reading>> = Vec::with_capacity(CHANNELS);
    let mut c: usize = 0;
    while c < CHANNELS
        invariant
            payload@.len() == len,
            valid_payload_len(len as nat),
            offset == block_offset(len as nat, mea_index as nat),
            mea_index < DEVICES,
            want == reshape(payload@, offset as int),
            c <= CHANNELS,
            data@.len() == c,
            forall|i: int| 0 <= i < c ==> (#[trigger] data@[i])@.map_values(|r: Reading| r@) == want[i],
        decreases CHANNELS - c,
    {
        let mut ch: Vec<Reading> = Vec::with_capacity(READINGS_PER_CHANNEL);
        let base: usize = offset + c * READINGS_PER_CHANNEL;
        let mut k: usize = 0;
        while k < READINGS_PER_CHANNEL
            invariant
                payload@.len() == len,
                valid_payload_len(len as nat),
                offset == block_offset(len as nat, mea_index as nat),
                mea_index < DEVICES,
                c < CHANNELS,
                base == offset + c * READINGS_PER_CHANNEL,
                k <= READINGS_PER_CHANNEL,
                ch@.len() == k,
                forall|j: int| 0 <= j < k ==> (#[trigger] ch@[j])@ == reading_of(payload@, base + j),
            decreases READINGS_PER_CHANNEL - k,
        {
            let at: usize = 4 * (base + k);
            let r: Reading = [payload[at], payload[at + 1], payload[at + 2], payload[at + 3]];
            assert(r@ =~= reading_of(payload@, base + k));
            ch.push(r);
            k += 1;
        }
        assert(ch@.map_values(|r: Reading| r@) =~= want[c as int]);
        data.push(ch);
        c += 1;
    }
    let d = LiveData { timestamp, data };
    assert(d.channels() =~= want);
    Ok(d)
}

/// A payload of exactly one block decodes to that block reshaped in order,
/// whichever device was asked for.
pub proof fn lemma_one_block_ignores_selector(payload: Seq<u8>, a: nat, b: nat)
    requires
        payload.len() == ONE_DEVICE_BYTES,
        a < DEVICES,
        b < DEVICES,
    ensures
        decoded_channels(payload, a) == decoded_channels(payload, b),
        decoded_channels(payload, a) == reshape(payload, 0),
{
}

/// A payload of all four blocks decodes, for selector `mea_id`, to the
/// readings `[(mea_id - 1) * 32 * 4096, mea_id * 32 * 4096)` reshaped in order.
pub proof fn lemma_all_blocks_select_range(payload: Seq<u8>, mea_id: nat)
    requires
        payload.len() == ALL_DEVICES_BYTES,
        1 <= mea_id <= DEVICES,
    ensures
        decoded_channels(payload, (mea_id - 1) as nat) == reshape(
            payload.subrange(
                READING_BYTES * (mea_id - 1) * BLOCK_READINGS,
                READING_BYTES * mea_id * BLOCK_READINGS,
            ),
            0,
        ),
{
    assert(BLOCK_READINGS == 131072 && READING_BYTES == 4);
    let off: int = (mea_id - 1) * BLOCK_READINGS;
    let block = payload.subrange(4 * off, 4 * (off + BLOCK_READINGS));
    assert(block == payload.subrange(
        READING_BYTES * (mea_id - 1) * BLOCK_READINGS,
        READING_BYTES * mea_id * BLOCK_READINGS,
    ));
    assert forall|c: int, k: int|
        0 <= c < CHANNELS && 0 <= k < READINGS_PER_CHANNEL implies #[trigger] reading_of(
        payload,
        off + c * READINGS_PER_CHANNEL + k,
    ) == reading_of(block, 0 + c * READINGS_PER_CHANNEL + k) by {
        assert(reading_of(payload, off + c * READINGS_PER_CHANNEL + k) =~= reading_of(
            block,
            0 + c * READINGS_PER_CHANNEL + k,
        ));
    }
    assert(decoded_channels(payload, (mea_id - 1) as nat) =~~= reshape(block, 0));
}

/// Decoding one payload twice for one device yields the same readings, byte
/// for byte; only the timestamps may differ.
pub proof fn lemma_decode_repeatable(payload: Seq<u8>, mea_index: nat, first: LiveData, second: LiveData)
    requires
        first.channels() == decoded_channels(payload, mea_index),
        second.channels() == decoded_channels(payload, mea_index),
    ensures
        first.channels() == second.channels(),
{
}

} // verus!
