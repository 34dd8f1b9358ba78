//! Decoding the fixed-layout telemetry block, and assembling one
//! measurement record per polling cycle.
//!
//! The layout is fixed: bytes 0 to 3 hold the device-status word, bytes 4
//! to 7 the measurement-status word, and bytes 8 onward one packed
//! single-precision value per requested signal kind, each word least-
//! significant byte first.  A buffer is decoded all-or-nothing.

use vstd::prelude::*;

use crate::fault::DeviceError;
use crate::fault::classify;
use crate::fault::device_faults;
use crate::signal::Signal;
use crate::signal::filter_signals;
use crate::signal::filtered;
use crate::status::ClipxStatus;
use crate::status::MeasurementStatus;
use crate::words::bytes_of_word;
use crate::words::lemma_word_bytes_round_trip;
use crate::words::push_word;
use crate::words::read_word;
use crate::words::word_at;

verus! {

/// Why a buffer fails to match the fixed layout.
#[derive(Clone, Copy, Debug, PartialEq, Eq, Structural)]
pub enum DecodeError {
    /// The buffer is shorter than the 8 status bytes plus 4 bytes per
    /// requested signal.
    TooShort,
    /// The buffer is longer than the 8 status bytes plus 4 bytes per
    /// requested signal.
    TooLong,
}

/// Why a cycle reports no measurement values.
#[derive(Debug, PartialEq, Eq)]
pub enum GetMeasurementError {
    /// One or more active device faults, in classification order.
    Device(Vec<DeviceError>),
    /// The buffer does not match the fixed layout.
    Decode(DecodeError),
}

/// The device status at the front of a telemetry buffer.
pub open spec fn status_of(buf: Seq<u8>) -> ClipxStatus {
    ClipxStatus { word: word_at(buf, 0) }
}

/// The measurement status at byte offset 4 of a telemetry buffer.
pub open spec fn measurement_status_of(buf: Seq<u8>) -> MeasurementStatus {
    MeasurementStatus { word: word_at(buf, 4) }
}

/// The `n` packed signal values behind the two status words, each the raw
/// bit pattern of one single-precision value.
pub open spec fn values_of(buf: Seq<u8>, n: nat) -> Seq<u32> {
    Seq::new(n, |i: int| word_at(buf, 8 + 4 * i))
}

/// Split a telemetry buffer into the device status, the measurement
/// status and the `n` packed signal values.  Decoding is all-or-nothing:
/// the buffer must be exactly `8 + 4 * n` bytes long.
pub fn decode_measurement(buf: &[u8], n: usize) -> (r: Result<
    (ClipxStatus, MeasurementStatus, Vec<u32>),
    DecodeError,
>)
    ensures
        match r {
            Ok(parts) => {
                &&& buf@.len() == 8 + 4 * (n as int)
                &&& parts.0 == status_of(buf@)
                &&& parts.1 == measurement_status_of(buf@)
                &&& parts.2@ == values_of(buf@, n as nat)
            },
            Err(DecodeError::TooShort) => buf@.len() < 8 + 4 * (n as int),
            Err(DecodeError::TooLong) => buf@.len() > 8 + 4 * (n as int),
        },
{
    let len = buf.len();
    if len < 8 {
        return Err(DecodeError::TooShort);
    }
    let avail = len - 8;
    if avail / 4 < n {
        return Err(DecodeError::TooShort);
    }
    if avail > 4 * n {
        return Err(DecodeError::TooLong);
    }
    let device_word = read_word(buf, 0);
    let measurement_word = read_word(buf, 4);
    let mut values: Vec<u32> = Vec::new();
    let mut i: usize = 0;
    while i < n
        invariant
            i <= n,
            buf@.len() == 8 + 4 * (n as int),
            buf@.len() <= usize::MAX,
            values@.len() == i as int,
            forall|j: int| 0 <= j < i as int ==> values@[j] == word_at(buf@, 8 + 4 * j),
        decreases n - i,
    {
        let value = read_word(buf, 8 + 4 * i);
        values.push(value);
        i = i + 1;
    }
    assert(values@ =~= values_of(buf@, n as nat));
    Ok((
        ClipxStatus::from_word(device_word),
        MeasurementStatus::from_word(measurement_word),
        values,
    ))
}

/// The signal values flattened to bytes, four per value, least-significant
/// byte first.
pub open spec fn flat_values(values: Seq<u32>) -> Seq<u8>
    decreases values.len(),
{
    if values.len() == 0 {
        Seq::empty()
    } else {
        bytes_of_word(values[0]) + flat_values(values.drop_first())
    }
}

/// Flattening is four bytes per value.
pub proof fn lemma_flat_values_len(values: Seq<u32>)
    ensures
        flat_values(values).len() == 4 * values.len(),
    decreases values.len(),
{
    if values.len() > 0 {
        lemma_flat_values_len(values.drop_first());
    }
}

/// Flattening one more value appends its four bytes.
pub proof fn lemma_flat_values_push(values: Seq<u32>, value: u32)
    ensures
        flat_values(values.push(value)) == flat_values(values) + bytes_of_word(value),
    decreases values.len(),
{
    let pushed = values.push(value);
    if values.len() == 0 {
        assert(pushed[0] == value);
        assert(pushed.drop_first() =~= Seq::<u32>::empty());
        assert(flat_values(pushed.drop_first()) == Seq::<u8>::empty());
        assert(flat_values(values) == Seq::<u8>::empty());
        assert(flat_values(pushed) =~= flat_values(values) + bytes_of_word(value));
    } else {
        let rest = values.drop_first();
        assert(pushed[0] == values[0]);
        assert(pushed.drop_first() =~= rest.push(value));
        lemma_flat_values_push(rest, value);
        assert(flat_values(pushed) == bytes_of_word(values[0]) + (flat_values(rest)
            + bytes_of_word(value)));
        assert(flat_values(values) == bytes_of_word(values[0]) + flat_values(rest));
        assert(flat_values(pushed) =~= flat_values(values) + bytes_of_word(value));
    }
}

/// The word at position `i` of a flattened value sequence is the value.
pub proof fn lemma_flat_values_word_at(values: Seq<u32>, i: int)
    requires
        0 <= i < values.len(),
    ensures
        word_at(flat_values(values), 4 * i) == values[i],
    decreases i,
{
    lemma_flat_values_len(values.drop_first());
    if i == 0 {
        lemma_word_bytes_round_trip(values[0]);
        assert(word_at(flat_values(values), 0) == values[0]);
    } else {
        lemma_flat_values_word_at(values.drop_first(), i - 1);
        assert(word_at(flat_values(values), 4 * i) == word_at(
            flat_values(values.drop_first()),
            4 * (i - 1),
        ));
    }
}

/// A telemetry buffer laid out from its parts: device-status word,
/// measurement-status word, then the packed signal values.
pub open spec fn encoded(cs: ClipxStatus, ms: MeasurementStatus, values: Seq<u32>) -> Seq<u8> {
    bytes_of_word(cs.word) + bytes_of_word(ms.word) + flat_values(values)
}

/// Lay out a telemetry buffer from its parts, per the fixed layout.
pub fn encode_measurement(
    cs: &ClipxStatus,
    ms: &MeasurementStatus,
    values: &Vec<u32>,
) -> (r: Vec<u8>)
    ensures
        r@ == encoded(*cs, *ms, values@),
{
    let mut out: Vec<u8> = Vec::new();
    push_word(&mut out, cs.word);
    push_word(&mut out, ms.word);
    proof {
        assert(values@.subrange(0, 0) =~= Seq::<u32>::empty());
        assert(out@ =~= bytes_of_word(cs.word) + bytes_of_word(ms.word) + flat_values(
            values@.subrange(0, 0),
        ));
    }
    let mut i: usize = 0;
    while i < values.len()
        invariant
            i <= values@.len(),
            out@ == bytes_of_word(cs.word) + bytes_of_word(ms.word) + flat_values(
                values@.subrange(0, i as int),
            ),
        decreases values@.len() - i,
    {
        push_word(&mut out, values[i]);
        proof {
            lemma_flat_values_push(values@.subrange(0, i as int), values@[i as int]);
            assert(values@.subrange(0, i as int).push(values@[i as int]) =~= values@.subrange(
                0,
                i as int + 1,
            ));
            assert(out@ =~= bytes_of_word(cs.word) + bytes_of_word(ms.word) + flat_values(
                values@.subrange(0, i as int + 1),
            ));
        }
        i = i + 1;
    }
    proof {
        assert(values@.subrange(0, values@.len() as int) =~= values@);
    }
    out
}

/// Law: laying out any statuses and values and decoding the buffer back
/// reproduces the original flags and value bit patterns exactly.
pub proof fn lemma_round_trip(cs: ClipxStatus, ms: MeasurementStatus, values: Seq<u32>)
    ensures
        encoded(cs, ms, values).len() == 8 + 4 * values.len(),
        status_of(encoded(cs, ms, values)) == cs,
        measurement_status_of(encoded(cs, ms, values)) == ms,
        values_of(encoded(cs, ms, values), values.len()) == values,
{
    let buf = encoded(cs, ms, values);
    lemma_flat_values_len(values);
    lemma_word_bytes_round_trip(cs.word);
    lemma_word_bytes_round_trip(ms.word);
    assert(word_at(buf, 0) == cs.word);
    assert(word_at(buf, 4) == ms.word);
    assert forall|i: int| 0 <= i < values.len() implies values_of(buf, values.len())[i]
        == values[i] by {
        lemma_flat_values_word_at(values, i);
        assert(word_at(buf, 8 + 4 * i) == word_at(flat_values(values), 4 * i));
    }
    assert(values_of(buf, values.len()) =~= values);
}

/// Decode a telemetry buffer and produce either the filtered signal
/// values or the typed error of the cycle, never both: a layout failure
/// preempts fault reporting, and any active device fault discards the
/// cycle's values even when they are individually valid.
pub fn get_measurement(buf: &[u8], signal_types: &Vec<Signal>) -> (r: Result<
    Vec<(Signal, Option<u32>)>,
    GetMeasurementError,
>)
    ensures
        buf@.len() == 8 + 4 * signal_types@.len() && device_faults(status_of(buf@)).len() == 0
            ==> r matches Ok(_),
        match r {
            Ok(items) => {
                &&& buf@.len() == 8 + 4 * signal_types@.len()
                &&& device_faults(status_of(buf@)).len() == 0
                &&& items@ == filtered(
                    measurement_status_of(buf@),
                    signal_types@,
                    values_of(buf@, signal_types@.len()),
                )
            },
            Err(GetMeasurementError::Device(faults)) => {
                &&& buf@.len() == 8 + 4 * signal_types@.len()
                &&& faults@ == device_faults(status_of(buf@))
                &&& faults@.len() > 0
            },
            Err(GetMeasurementError::Decode(DecodeError::TooShort)) => buf@.len() < 8 + 4
                * signal_types@.len(),
            Err(GetMeasurementError::Decode(DecodeError::TooLong)) => buf@.len() > 8 + 4
                * signal_types@.len(),
        },
{
    let parts = match decode_measurement(buf, signal_types.len()) {
        Ok(parts) => parts,
        Err(e) => {
            return Err(GetMeasurementError::Decode(e));
        },
    };
    let (cs, ms, values) = parts;
    let faults = classify(&cs);
    if faults.len() > 0 {
        return Err(GetMeasurementError::Device(faults));
    }
    Ok(filter_signals(&ms, signal_types, &values))
}

/// One output record per polling cycle: the cycle's timestamp and either
/// the filtered signal values or the typed error.  The core keeps no
/// state between cycles.
#[derive(Debug, PartialEq, Eq)]
pub struct MeasurementRecord {
    /// Milliseconds since the caller's epoch, wrapping modulo 2^64.
    pub time_millis: u64,
    /// The cycle's outcome: one value slot per requested kind, or the
    /// error that invalidated the cycle.
    pub result: Result<Vec<(Signal, Option<u32>)>, GetMeasurementError>,
}

/// Assemble the record of one polling cycle from the elapsed time in
/// milliseconds and the cycle's telemetry buffer.  The timestamp wraps
/// modulo 2^64, never erring; the outcome follows the strict priority
/// chain of `get_measurement`.
pub fn assemble(
    elapsed_millis: u128,
    buf: &[u8],
    signal_types: &Vec<Signal>,
) -> (r: MeasurementRecord)
    ensures
        r.time_millis == elapsed_millis as int % 0x1_0000_0000_0000_0000,
        buf@.len() == 8 + 4 * signal_types@.len() && device_faults(status_of(buf@)).len() == 0
            ==> r.result matches Ok(_),
        match r.result {
            Ok(items) => {
                &&& buf@.len() == 8 + 4 * signal_types@.len()
                &&& device_faults(status_of(buf@)).len() == 0
                &&& items@ == filtered(
                    measurement_status_of(buf@),
                    signal_types@,
                    values_of(buf@, signal_types@.len()),
                )
            },
            Err(GetMeasurementError::Device(faults)) => {
                &&& buf@.len() == 8 + 4 * signal_types@.len()
                &&& faults@ == device_faults(status_of(buf@))
                &&& faults@.len() > 0
            },
            Err(GetMeasurementError::Decode(DecodeError::TooShort)) => buf@.len() < 8 + 4
                * signal_types@.len(),
            Err(GetMeasurementError::Decode(DecodeError::TooLong)) => buf@.len() > 8 + 4
                * signal_types@.len(),
        },
{
    let time_millis = (elapsed_millis % 0x1_0000_0000_0000_0000u128) as u64;
    MeasurementRecord { time_millis, result: get_measurement(buf, signal_types) }
}

} // verus!
