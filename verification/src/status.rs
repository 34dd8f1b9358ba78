//! The two packed status words of the telemetry block: the device-status
//! word and the measurement-status word.  Both hold 32 single-bit flags,
//! least-significant bit first, with fixed reserved runs; each named flag
//! below is pinned to its bit offset.

use vstd::prelude::*;

use crate::words::bit;

verus! {

/// The device-status word: readiness, synchronization, the fault bits,
/// connectivity and heartbeat.  Immutable once decoded.
///
/// Bit layout, least-significant bit first: bits 0 to 21 are the flags from
/// `device_ready` to `ethernet_connection_established` in declaration
/// order, bit 22 is reserved, bits 23 and 24 are `ppmp_connected` and
/// `error_ppmp`, bits 25 to 28 are reserved, and bits 29 to 31 are
/// `reading_teds`, `error_teds` and `heartbeat`.
#[derive(Clone, Copy, Debug, PartialEq, Eq, Structural)]
pub struct ClipxStatus {
    /// The packed 32-flag word as it stands in the telemetry block.
    pub word: u32,
}

impl ClipxStatus {
    /// The status holding the packed word `w`.
    pub fn from_word(w: u32) -> (r: ClipxStatus)
        ensures
            r.word == w,
    {
        ClipxStatus { word: w }
    }

    /// Flag at bit 0 of the word.
    pub open spec fn device_ready(self) -> bool {
        bit(self.word, 0)
    }

    /// Flag at bit 1 of the word.
    pub open spec fn sync_master(self) -> bool {
        bit(self.word, 1)
    }

    /// Flag at bit 2 of the word.
    pub open spec fn sync_subdevice(self) -> bool {
        bit(self.word, 2)
    }

    /// Flag at bit 3 of the word.
    pub open spec fn sync_slave_no_sync_in(self) -> bool {
        bit(self.word, 3)
    }

    /// Flag at bit 4 of the word.
    pub open spec fn change_parameter_set(self) -> bool {
        bit(self.word, 4)
    }

    /// Flag at bit 5 of the word.
    pub open spec fn error_parameter_set(self) -> bool {
        bit(self.word, 5)
    }

    /// Flag at bit 6 of the word.
    pub open spec fn error_file_system(self) -> bool {
        bit(self.word, 6)
    }

    /// Flag at bit 7 of the word.
    pub open spec fn error_adc_communication(self) -> bool {
        bit(self.word, 7)
    }

    /// Flag at bit 8 of the word.
    pub open spec fn error_adc_irq(self) -> bool {
        bit(self.word, 8)
    }

    /// Flag at bit 9 of the word.
    pub open spec fn error_adc_frozen(self) -> bool {
        bit(self.word, 9)
    }

    /// Flag at bit 10 of the word.
    pub open spec fn error_adc_dma(self) -> bool {
        bit(self.word, 10)
    }

    /// Flag at bit 11 of the word.
    pub open spec fn error_dac_communication(self) -> bool {
        bit(self.word, 11)
    }

    /// Flag at bit 12 of the word.
    pub open spec fn dac_alarm(self) -> bool {
        bit(self.word, 12)
    }

    /// Flag at bit 13 of the word.
    pub open spec fn error_one_wire_communication(self) -> bool {
        bit(self.word, 13)
    }

    /// Flag at bit 14 of the word.
    pub open spec fn error_clipx_bus(self) -> bool {
        bit(self.word, 14)
    }

    /// Flag at bit 15 of the word.
    pub open spec fn error_external_ram(self) -> bool {
        bit(self.word, 15)
    }

    /// Flag at bit 16 of the word.
    pub open spec fn error_sensor_excitation(self) -> bool {
        bit(self.word, 16)
    }

    /// Flag at bit 17 of the word.
    pub open spec fn fieldbus_io(self) -> bool {
        bit(self.word, 17)
    }

    /// Flag at bit 18 of the word.
    pub open spec fn error_fieldbus_controller(self) -> bool {
        bit(self.word, 18)
    }

    /// Flag at bit 19 of the word.
    pub open spec fn error_factory_calibration(self) -> bool {
        bit(self.word, 19)
    }

    /// Flag at bit 20 of the word.
    pub open spec fn test_signal_active(self) -> bool {
        bit(self.word, 20)
    }

    /// Flag at bit 21 of the word.
    pub open spec fn ethernet_connection_established(self) -> bool {
        bit(self.word, 21)
    }

    /// Flag at bit 23 of the word.
    pub open spec fn ppmp_connected(self) -> bool {
        bit(self.word, 23)
    }

    /// Flag at bit 24 of the word.
    pub open spec fn error_ppmp(self) -> bool {
        bit(self.word, 24)
    }

    /// Flag at bit 29 of the word.
    pub open spec fn reading_teds(self) -> bool {
        bit(self.word, 29)
    }

    /// Flag at bit 30 of the word.
    pub open spec fn error_teds(self) -> bool {
        bit(self.word, 30)
    }

    /// Flag at bit 31 of the word.
    pub open spec fn heartbeat(self) -> bool {
        bit(self.word, 31)
    }
}

/// The measurement-status word: one invalid marker per signal kind, a set
/// bit meaning the corresponding value must not be trusted this cycle.
/// Immutable once decoded.
///
/// Bit layout, least-significant bit first: bits 0 and 1 are reserved, bits
/// 2 to 15 are the flags from `electrical` to `bus6` in declaration order,
/// bits 16 to 20 are reserved, and bits 21 to 31 are the flags from
/// `calculated1` to `analog_output` in declaration order.
#[derive(Clone, Copy, Debug, PartialEq, Eq, Structural)]
pub struct MeasurementStatus {
    /// The packed 32-flag word as it stands in the telemetry block.
    pub word: u32,
}

impl MeasurementStatus {
    /// The status holding the packed word `w`.
    pub fn from_word(w: u32) -> (r: MeasurementStatus)
        ensures
            r.word == w,
    {
        MeasurementStatus { word: w }
    }

    /// Flag at bit 2 of the word.
    pub open spec fn electrical(self) -> bool {
        bit(self.word, 2)
    }

    /// Flag at bit 3 of the word.
    pub open spec fn gross(self) -> bool {
        bit(self.word, 3)
    }

    /// Flag at bit 4 of the word.
    pub open spec fn net(self) -> bool {
        bit(self.word, 4)
    }

    /// Flag at bit 5 of the word.
    pub open spec fn minimum(self) -> bool {
        bit(self.word, 5)
    }

    /// Flag at bit 6 of the word.
    pub open spec fn maximum(self) -> bool {
        bit(self.word, 6)
    }

    /// Flag at bit 7 of the word.
    pub open spec fn peak_to_peak(self) -> bool {
        bit(self.word, 7)
    }

    /// Flag at bit 8 of the word.
    pub open spec fn captured1(self) -> bool {
        bit(self.word, 8)
    }

    /// Flag at bit 9 of the word.
    pub open spec fn captured2(self) -> bool {
        bit(self.word, 9)
    }

    /// Flag at bit 10 of the word.
    pub open spec fn bus1(self) -> bool {
        bit(self.word, 10)
    }

    /// Flag at bit 11 of the word.
    pub open spec fn bus2(self) -> bool {
        bit(self.word, 11)
    }

    /// Flag at bit 12 of the word.
    pub open spec fn bus3(self) -> bool {
        bit(self.word, 12)
    }

    /// Flag at bit 13 of the word.
    pub open spec fn bus4(self) -> bool {
        bit(self.word, 13)
    }

    /// Flag at bit 14 of the word.
    pub open spec fn bus5(self) -> bool {
        bit(self.word, 14)
    }

    /// Flag at bit 15 of the word.
    pub open spec fn bus6(self) -> bool {
        bit(self.word, 15)
    }

    /// Flag at bit 21 of the word.
    pub open spec fn calculated1(self) -> bool {
        bit(self.word, 21)
    }

    /// Flag at bit 22 of the word.
    pub open spec fn calculated2(self) -> bool {
        bit(self.word, 22)
    }

    /// Flag at bit 23 of the word.
    pub open spec fn calculated3(self) -> bool {
        bit(self.word, 23)
    }

    /// Flag at bit 24 of the word.
    pub open spec fn calculated4(self) -> bool {
        bit(self.word, 24)
    }

    /// Flag at bit 25 of the word.
    pub open spec fn calculated5(self) -> bool {
        bit(self.word, 25)
    }

    /// Flag at bit 26 of the word.
    pub open spec fn calculated6(self) -> bool {
        bit(self.word, 26)
    }

    /// Flag at bit 27 of the word.
    pub open spec fn external_ethernet1(self) -> bool {
        bit(self.word, 27)
    }

    /// Flag at bit 28 of the word.
    pub open spec fn external_ethernet2(self) -> bool {
        bit(self.word, 28)
    }

    /// Flag at bit 29 of the word.
    pub open spec fn external_fieldbus1(self) -> bool {
        bit(self.word, 29)
    }

    /// Flag at bit 30 of the word.
    pub open spec fn external_fieldbus2(self) -> bool {
        bit(self.word, 30)
    }

    /// Flag at bit 31 of the word.
    pub open spec fn analog_output(self) -> bool {
        bit(self.word, 31)
    }
}

} // verus!
