//! The Status register: a read-only decoder over a raw 16-bit value.
use crate::bits::{bit16, field16, get_bit16, get_bits16};
use crate::devsel::{devsel_decoded, DevselTiming};
use crate::render::{bool_str, bool_text};
use vstd::prelude::*;
use vstd::string::StringExecFns;

verus! {

/// The Status register of a PCI function's configuration space.
#[derive(Clone, Copy, PartialEq, Eq, Structural)]
pub struct StatusRegister(u16);

impl View for StatusRegister {
    type V = u16;

    /// The raw register value.
    closed spec fn view(&self) -> u16 {
        self.0
    }
}

/// The structured dump of a Status register whose raw value is `v`.
pub open spec fn status_dump(v: u16) -> Seq<char> {
    "StatusRegister { parity_error_detected: "@ + bool_text(bit16(v, 15))
        + ", signalled_system_error: "@ + bool_text(bit16(v, 14))
        + ", received_master_abort: "@ + bool_text(bit16(v, 13))
        + ", received_target_abort: "@ + bool_text(bit16(v, 12))
        + ", signalled_target_abort: "@ + bool_text(bit16(v, 11))
        + ", devsel_timing: "@ + DevselTiming::result_text(devsel_decoded(field16(v, 9, 2) as u8))
        + ", master_data_parity_error: "@ + bool_text(bit16(v, 8))
        + ", fast_back_to_back_capable: "@ + bool_text(bit16(v, 7))
        + ", capable_66mhz: "@ + bool_text(bit16(v, 5))
        + ", has_capability_list: "@ + bool_text(bit16(v, 4))
        + ", interrupt_status: "@ + bool_text(bit16(v, 3))
        + " }"@
}

impl StatusRegister {
    /// Wraps a raw value; every 16-bit pattern is accepted.
    pub fn new(value: u16) -> (r: StatusRegister)
        ensures
            r@ == value,
    {
        StatusRegister(value)
    }

    /// Will be `true` whenever the device detects a parity error, even if
    /// parity error handling is disabled.
    pub fn parity_error_detected(&self) -> (r: bool)
        ensures
            r == bit16(self@, 15),
    {
        get_bit16(self.0, 15)
    }

    /// Will be `true` whenever the device asserts SERR#.
    pub fn signalled_system_error(&self) -> (r: bool)
        ensures
            r == bit16(self@, 14),
    {
        get_bit16(self.0, 14)
    }

    /// Will be `true`, for a master device, whenever its transaction (except
    /// for Special Cycle transactions) is terminated with Master-Abort.
    pub fn received_master_abort(&self) -> (r: bool)
        ensures
            r == bit16(self@, 13),
    {
        get_bit16(self.0, 13)
    }

    /// Will be `true`, for a master device, whenever its transaction is
    /// terminated with Target-Abort.
    pub fn received_target_abort(&self) -> (r: bool)
        ensures
            r == bit16(self@, 12),
    {
        get_bit16(self.0, 12)
    }

    /// Will be `true` whenever a target device terminates a transaction with
    /// Target-Abort.
    pub fn signalled_target_abort(&self) -> (r: bool)
        ensures
            r == bit16(self@, 11),
    {
        get_bit16(self.0, 11)
    }

    /// The slowest time that a device will assert DEVSEL# for any bus command
    /// except Configuration Space reads and writes, decoded from bits 9 and 10.
    /// The code 3 is reported as an error. For PCIe always `Fast`.
    pub fn devsel_timing(&self) -> (r: Result<DevselTiming, ()>)
        ensures
            r == devsel_decoded(field16(self@, 9, 2) as u8),
    {
        let bits = get_bits16(self.0, 9, 11);
        DevselTiming::decode(bits as u8)
    }

    /// Will be `true` only when the bus agent asserted PERR# on a read or
    /// observed PERR# on a write, acted as the bus master for that operation,
    /// and the Parity Error Response bit of the Command register is set.
    pub fn master_data_parity_error(&self) -> (r: bool)
        ensures
            r == bit16(self@, 8),
    {
        get_bit16(self.0, 8)
    }

    /// If `true` the device can accept fast back-to-back transactions that are
    /// not from the same agent. For PCIe always `false`.
    pub fn fast_back_to_back_capable(&self) -> (r: bool)
        ensures
            r == bit16(self@, 7),
    {
        get_bit16(self.0, 7)
    }

    /// If `true` the device is capable of running at 66 MHz; otherwise it runs
    /// at 33 MHz. For PCIe always `false`.
    pub fn capable_66mhz(&self) -> (r: bool)
        ensures
            r == bit16(self@, 5),
    {
        get_bit16(self.0, 5)
    }

    /// If `true` the device implements the pointer to a New Capabilities
    /// linked list. For PCIe always `true`.
    pub fn has_capability_list(&self) -> (r: bool)
        ensures
            r == bit16(self@, 4),
    {
        get_bit16(self.0, 4)
    }

    /// The state of the device's INTx# signal. It is asserted when this is
    /// `true` and the Interrupt Disable bit of the Command register is clear.
    pub fn interrupt_status(&self) -> (r: bool)
        ensures
            r == bit16(self@, 3),
    {
        get_bit16(self.0, 3)
    }

    /// A structured dump naming every field with its decoded value; a failed
    /// DEVSEL# timing decode is shown as its error.
    pub fn debug_string(&self) -> (s: String)
        ensures
            s@ == status_dump(self@),
    {
        let mut s = String::from_str("StatusRegister { parity_error_detected: ");
        s.append(bool_str(self.parity_error_detected()));
        s.append(", signalled_system_error: ");
        s.append(bool_str(self.signalled_system_error()));
        s.append(", received_master_abort: ");
        s.append(bool_str(self.received_master_abort()));
        s.append(", received_target_abort: ");
        s.append(bool_str(self.received_target_abort()));
        s.append(", signalled_target_abort: ");
        s.append(bool_str(self.signalled_target_abort()));
        s.append(", devsel_timing: ");
        s.append(DevselTiming::result_str(&self.devsel_timing()));
        s.append(", master_data_parity_error: ");
        s.append(bool_str(self.master_data_parity_error()));
        s.append(", fast_back_to_back_capable: ");
        s.append(bool_str(self.fast_back_to_back_capable()));
        s.append(", capable_66mhz: ");
        s.append(bool_str(self.capable_66mhz()));
        s.append(", has_capability_list: ");
        s.append(bool_str(self.has_capability_list()));
        s.append(", interrupt_status: ");
        s.append(bool_str(self.interrupt_status()));
        s.append(" }");
        s
    }
}

} // verus!
