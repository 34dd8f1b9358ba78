//! The signal kinds a device reports each cycle, and the validity filter
//! that pairs each requested kind with its decoded value or with nothing
//! when the kind's invalid bit is set.

use vstd::prelude::*;

use crate::status::MeasurementStatus;
use crate::words::get_bit;

verus! {

/// One of the named measurement channels a device reports per cycle.  The
/// caller supplies an ordered list of kinds, positionally aligned with the
/// decoded value sequence.
#[derive(Clone, Copy, Debug, PartialEq, Eq, Structural)]
pub enum Signal {
    /// Input signal in the unit of the measured variable, e.g. in mV/V.
    Electrical,
    /// Gross signal.
    Gross,
    /// Net signal.
    Net,
    /// Peak value minimum.
    Minimum,
    /// Peak value maximum.
    Maximum,
    /// Peak-to-peak value.
    PeakToPeak,
    /// Captured value 1.
    Captured1,
    /// Captured value 2.
    Captured2,
    /// Value on the device's own bus at address 1.
    Bus1,
    /// Value on the device's own bus at address 2.
    Bus2,
    /// Value on the device's own bus at address 3.
    Bus3,
    /// Value on the device's own bus at address 4.
    Bus4,
    /// Value on the device's own bus at address 5.
    Bus5,
    /// Value on the device's own bus at address 6.
    Bus6,
    /// Value of the calculation channel 1.
    Calculated1,
    /// Value of the calculation channel 2.
    Calculated2,
    /// Value of the calculation channel 3.
    Calculated3,
    /// Value of the calculation channel 4.
    Calculated4,
    /// Value of the calculation channel 5.
    Calculated5,
    /// Value of the calculation channel 6.
    Calculated6,
    /// Value 1 transmitted via Ethernet.
    ExternalEthernet1,
    /// Value 2 transmitted via Ethernet.
    ExternalEthernet2,
    /// Value 1 transmitted via the fieldbus.
    ExternalFieldbus1,
    /// Value 2 transmitted via the fieldbus.
    ExternalFieldbus2,
    /// Value of the analog output in V or mA.
    AnalogOutput,
}

/// The invalid marker of `kind` in the measurement-status word: a total
/// map, one bit per kind.
pub open spec fn invalid_flag(ms: MeasurementStatus, kind: Signal) -> bool {
    match kind {
        Signal::Electrical => ms.electrical(),
        Signal::Gross => ms.gross(),
        Signal::Net => ms.net(),
        Signal::Minimum => ms.minimum(),
        Signal::Maximum => ms.maximum(),
        Signal::PeakToPeak => ms.peak_to_peak(),
        Signal::Captured1 => ms.captured1(),
        Signal::Captured2 => ms.captured2(),
        Signal::Bus1 => ms.bus1(),
        Signal::Bus2 => ms.bus2(),
        Signal::Bus3 => ms.bus3(),
        Signal::Bus4 => ms.bus4(),
        Signal::Bus5 => ms.bus5(),
        Signal::Bus6 => ms.bus6(),
        Signal::Calculated1 => ms.calculated1(),
        Signal::Calculated2 => ms.calculated2(),
        Signal::Calculated3 => ms.calculated3(),
        Signal::Calculated4 => ms.calculated4(),
        Signal::Calculated5 => ms.calculated5(),
        Signal::Calculated6 => ms.calculated6(),
        Signal::ExternalEthernet1 => ms.external_ethernet1(),
        Signal::ExternalEthernet2 => ms.external_ethernet2(),
        Signal::ExternalFieldbus1 => ms.external_fieldbus1(),
        Signal::ExternalFieldbus2 => ms.external_fieldbus2(),
        Signal::AnalogOutput => ms.analog_output(),
    }
}

/// Read the invalid marker of `kind` from the measurement-status word.
pub fn is_invalid(ms: &MeasurementStatus, kind: Signal) -> (r: bool)
    ensures
        r == invalid_flag(*ms, kind),
{
    match kind {
        Signal::Electrical => get_bit(ms.word, 2),
        Signal::Gross => get_bit(ms.word, 3),
        Signal::Net => get_bit(ms.word, 4),
        Signal::Minimum => get_bit(ms.word, 5),
        Signal::Maximum => get_bit(ms.word, 6),
        Signal::PeakToPeak => get_bit(ms.word, 7),
        Signal::Captured1 => get_bit(ms.word, 8),
        Signal::Captured2 => get_bit(ms.word, 9),
        Signal::Bus1 => get_bit(ms.word, 10),
        Signal::Bus2 => get_bit(ms.word, 11),
        Signal::Bus3 => get_bit(ms.word, 12),
        Signal::Bus4 => get_bit(ms.word, 13),
        Signal::Bus5 => get_bit(ms.word, 14),
        Signal::Bus6 => get_bit(ms.word, 15),
        Signal::Calculated1 => get_bit(ms.word, 21),
        Signal::Calculated2 => get_bit(ms.word, 22),
        Signal::Calculated3 => get_bit(ms.word, 23),
        Signal::Calculated4 => get_bit(ms.word, 24),
        Signal::Calculated5 => get_bit(ms.word, 25),
        Signal::Calculated6 => get_bit(ms.word, 26),
        Signal::ExternalEthernet1 => get_bit(ms.word, 27),
        Signal::ExternalEthernet2 => get_bit(ms.word, 28),
        Signal::ExternalFieldbus1 => get_bit(ms.word, 29),
        Signal::ExternalFieldbus2 => get_bit(ms.word, 30),
        Signal::AnalogOutput => get_bit(ms.word, 31),
    }
}

/// The filtered output: each requested kind in caller order, paired with
/// its decoded value, or with nothing when its invalid bit is set.
pub open spec fn filtered(
    ms: MeasurementStatus,
    kinds: Seq<Signal>,
    values: Seq<u32>,
) -> Seq<(Signal, Option<u32>)>
    recommends
        values.len() == kinds.len(),
{
    Seq::new(
        kinds.len(),
        |i: int|
            (
                kinds[i],
                if invalid_flag(ms, kinds[i]) {
                    None
                } else {
                    Some(values[i])
                },
            ),
    )
}

/// Pair each requested kind with its decoded value, dropping the value of
/// every kind whose invalid bit is set.  The output keeps the caller's
/// order and length.
pub fn filter_signals(
    ms: &MeasurementStatus,
    kinds: &Vec<Signal>,
    values: &Vec<u32>,
) -> (r: Vec<(Signal, Option<u32>)>)
    requires
        values@.len() == kinds@.len(),
    ensures
        r@ == filtered(*ms, kinds@, values@),
{
    let mut r: Vec<(Signal, Option<u32>)> = Vec::new();
    let mut i: usize = 0;
    while i < kinds.len()
        invariant
            i <= kinds@.len(),
            values@.len() == kinds@.len(),
            r@.len() == i as int,
            forall|j: int| 0 <= j < i as int ==> r@[j] == filtered(*ms, kinds@, values@)[j],
        decreases kinds@.len() - i as int,
    {
        let kind = kinds[i];
        let value = if is_invalid(ms, kind) {
            None
        } else {
            Some(values[i])
        };
        r.push((kind, value));
        i = i + 1;
    }
    assert(r@ =~= filtered(*ms, kinds@, values@));
    r
}

} // verus!
