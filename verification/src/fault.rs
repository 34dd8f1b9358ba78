//! The fault taxonomy and the classifier that maps a decoded device-status
//! word to the ordered sequence of active faults.

use vstd::prelude::*;

use crate::status::ClipxStatus;
use crate::words::get_bit;

verus! {

/// A fault of the device's internal hardware or software.  Contact the
/// vendor and share the error information if encountered.
#[derive(Clone, Copy, Debug, PartialEq, Eq, Structural)]
pub enum InternalError {
    /// Error related to the internal file system.
    FileSystem,
    /// Error related to analog-digital converter communication.
    AdcCommunication,
    /// Error related to analog-digital converter interrupt request.
    AdcIrq,
    /// No change in the analog-digital converter state in 50 ms.
    AdcFrozen,
    /// Error related to analog-digital converter direct memory access.
    AdcDma,
    /// Error related to digital-analog converter communication.
    DacCommunication,
    /// Error in the RAM of the device (not in the RAM of the CPU).
    ExternalRam,
    /// Internal error in the fieldbus controller.
    FieldbusController,
    /// There is an error in the factory calibration of the device.
    FactoryCalibration,
}

/// An issue that precludes reporting measurements for the cycle.
#[derive(Clone, Copy, Debug, PartialEq, Eq, Structural)]
pub enum DeviceError {
    /// The device is not switched on, not initialized, or the Ethernet
    /// connection is off.
    NotReady,
    /// Error in the currently loaded parameter set.
    ParameterSet,
    /// The internal function of the device has failed.
    Internal(InternalError),
    /// No current can flow at the current output; there is a line break.
    DacAlarm,
    /// The 1-wire TEDS cannot be read.
    OneWireCommunication,
    /// The device's own bus is not working correctly.
    ClipxBus,
    /// The excitation voltage for the sensor has been short-circuited.
    SensorExcitation,
    /// The test signal is activated; no measured values are captured.
    TestSignalActive,
    /// There is an error in the PPMP connection.
    Ppmp,
    /// The data in the TEDS module either contain errors or cannot be set.
    Teds,
    /// The device has not reported as alive for more than 1.0 second.
    ///
    /// This fault is never decoded from the status word: the caller tracks
    /// the time since the last successfully decoded frame and synthesizes
    /// it; this crate only defines the variant.
    NoHeartbeat,
}

/// One fault if its bit is active this cycle, nothing otherwise.
pub open spec fn fault_when(active: bool, fault: DeviceError) -> Seq<DeviceError> {
    if active {
        seq![fault]
    } else {
        Seq::empty()
    }
}

/// The ordered sequence of active faults of a device-status word: the nine
/// internal fault bits first, then the device fault bits, each checked in a
/// fixed order, with a cleared `device_ready` contributing `NotReady`.
pub open spec fn device_faults(s: ClipxStatus) -> Seq<DeviceError> {
    fault_when(s.error_file_system(), DeviceError::Internal(InternalError::FileSystem))
        + fault_when(
        s.error_adc_communication(),
        DeviceError::Internal(InternalError::AdcCommunication),
    ) + fault_when(s.error_adc_irq(), DeviceError::Internal(InternalError::AdcIrq))
        + fault_when(s.error_adc_frozen(), DeviceError::Internal(InternalError::AdcFrozen))
        + fault_when(s.error_adc_dma(), DeviceError::Internal(InternalError::AdcDma))
        + fault_when(
        s.error_dac_communication(),
        DeviceError::Internal(InternalError::DacCommunication),
    ) + fault_when(s.error_external_ram(), DeviceError::Internal(InternalError::ExternalRam))
        + fault_when(
        s.error_fieldbus_controller(),
        DeviceError::Internal(InternalError::FieldbusController),
    ) + fault_when(
        s.error_factory_calibration(),
        DeviceError::Internal(InternalError::FactoryCalibration),
    ) + fault_when(!s.device_ready(), DeviceError::NotReady)
        + fault_when(s.error_parameter_set(), DeviceError::ParameterSet)
        + fault_when(s.dac_alarm(), DeviceError::DacAlarm)
        + fault_when(s.error_one_wire_communication(), DeviceError::OneWireCommunication)
        + fault_when(s.error_clipx_bus(), DeviceError::ClipxBus)
        + fault_when(s.error_sensor_excitation(), DeviceError::SensorExcitation)
        + fault_when(s.test_signal_active(), DeviceError::TestSignalActive)
        + fault_when(s.error_ppmp(), DeviceError::Ppmp)
        + fault_when(s.error_teds(), DeviceError::Teds)
}

/// Append `fault` to `faults` iff its bit is active.
fn push_fault(faults: &mut Vec<DeviceError>, active: bool, fault: DeviceError)
    ensures
        final(faults)@ == old(faults)@ + fault_when(active, fault),
{
    if active {
        faults.push(fault);
    }
    assert(faults@ =~= old(faults)@ + fault_when(active, fault));
}

/// Classify a decoded device-status word into the ordered sequence of
/// active faults.  An empty result means the cycle's values can be
/// trusted.
#[verifier::rlimit(60)]
pub fn classify(status: &ClipxStatus) -> (r: Vec<DeviceError>)
    ensures
        r@ == device_faults(*status),
{
    let s = *status;
    let mut faults: Vec<DeviceError> = Vec::new();
    push_fault(
        &mut faults,
        get_bit(s.word, 6),
        DeviceError::Internal(InternalError::FileSystem),
    );
    assert(faults@ =~= fault_when(
        s.error_file_system(),
        DeviceError::Internal(InternalError::FileSystem),
    ));
    push_fault(
        &mut faults,
        get_bit(s.word, 7),
        DeviceError::Internal(InternalError::AdcCommunication),
    );
    push_fault(&mut faults, get_bit(s.word, 8), DeviceError::Internal(InternalError::AdcIrq));
    push_fault(&mut faults, get_bit(s.word, 9), DeviceError::Internal(InternalError::AdcFrozen));
    push_fault(&mut faults, get_bit(s.word, 10), DeviceError::Internal(InternalError::AdcDma));
    push_fault(
        &mut faults,
        get_bit(s.word, 11),
        DeviceError::Internal(InternalError::DacCommunication),
    );
    push_fault(
        &mut faults,
        get_bit(s.word, 15),
        DeviceError::Internal(InternalError::ExternalRam),
    );
    push_fault(
        &mut faults,
        get_bit(s.word, 18),
        DeviceError::Internal(InternalError::FieldbusController),
    );
    push_fault(
        &mut faults,
        get_bit(s.word, 19),
        DeviceError::Internal(InternalError::FactoryCalibration),
    );
    push_fault(&mut faults, !get_bit(s.word, 0), DeviceError::NotReady);
    push_fault(&mut faults, get_bit(s.word, 5), DeviceError::ParameterSet);
    push_fault(&mut faults, get_bit(s.word, 12), DeviceError::DacAlarm);
    push_fault(&mut faults, get_bit(s.word, 13), DeviceError::OneWireCommunication);
    push_fault(&mut faults, get_bit(s.word, 14), DeviceError::ClipxBus);
    push_fault(&mut faults, get_bit(s.word, 16), DeviceError::SensorExcitation);
    push_fault(&mut faults, get_bit(s.word, 20), DeviceError::TestSignalActive);
    push_fault(&mut faults, get_bit(s.word, 24), DeviceError::Ppmp);
    push_fault(&mut faults, get_bit(s.word, 30), DeviceError::Teds);
    assert(faults@ == device_faults(s));
    faults
}

/// Law: when `device_ready` is cleared and no other fault bit is set, the
/// classification is exactly the single `NotReady` fault.
pub proof fn lemma_not_ready_sole_fault(s: ClipxStatus)
    requires
        !s.device_ready(),
        !s.error_parameter_set(),
        !s.error_file_system(),
        !s.error_adc_communication(),
        !s.error_adc_irq(),
        !s.error_adc_frozen(),
        !s.error_adc_dma(),
        !s.error_dac_communication(),
        !s.dac_alarm(),
        !s.error_one_wire_communication(),
        !s.error_clipx_bus(),
        !s.error_external_ram(),
        !s.error_sensor_excitation(),
        !s.error_fieldbus_controller(),
        !s.error_factory_calibration(),
        !s.test_signal_active(),
        !s.error_ppmp(),
        !s.error_teds(),
    ensures
        device_faults(s) == seq![DeviceError::NotReady],
{
    assert(device_faults(s) =~= seq![DeviceError::NotReady]);
}

/// Law: when `device_ready` is set and no fault bit is set, the
/// classification is empty and the cycle's values can be trusted.
pub proof fn lemma_clean_status_no_faults(s: ClipxStatus)
    requires
        s.device_ready(),
        !s.error_parameter_set(),
        !s.error_file_system(),
        !s.error_adc_communication(),
        !s.error_adc_irq(),
        !s.error_adc_frozen(),
        !s.error_adc_dma(),
        !s.error_dac_communication(),
        !s.dac_alarm(),
        !s.error_one_wire_communication(),
        !s.error_clipx_bus(),
        !s.error_external_ram(),
        !s.error_sensor_excitation(),
        !s.error_fieldbus_controller(),
        !s.error_factory_calibration(),
        !s.test_signal_active(),
        !s.error_ppmp(),
        !s.error_teds(),
    ensures
        device_faults(s) == Seq::<DeviceError>::empty(),
{
    assert(device_faults(s) =~= Seq::<DeviceError>::empty());
}

} // verus!
