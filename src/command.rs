//! The Command register: a read-only decoder over a raw 16-bit value, its
//! partial write into the combined Command/Status doubleword, and a builder.
use crate::bits::{
    bit16, bit32, field16, get_bit16, get_bits16, lemma_bits16_equal, lemma_with_bit16, set_bit16,
    set_bits32, with_bit16, with_field32,
};
use crate::render::{bool_str, bool_text};
use vstd::prelude::*;
use vstd::string::StringExecFns;

verus! {

/// The bits of the Command/Status doubleword that the Command register owns:
/// bits 0 to 6 and 8 to 10.
pub const COMMAND_MASK: u32 = 0x77f;

/// Whether bit `i` is one of the fields of the Command register.
pub open spec fn is_command_bit(i: u16) -> bool {
    i <= 6 || (8 <= i && i <= 10)
}

/// `image` with the bits that the Command register owns taken from `cmd`, and
/// every other bit kept.
pub open spec fn command_image(image: u32, cmd: u16) -> u32 {
    (image & !COMMAND_MASK) | ((cmd as u32) & COMMAND_MASK)
}

/// The structured dump of a Command register whose raw value is `v`.
pub open spec fn command_dump(v: u16) -> Seq<char> {
    "CommandRegister { interrupts_disabled: "@ + bool_text(bit16(v, 10))
        + ", fast_back_to_back_enabled: "@ + bool_text(bit16(v, 9))
        + ", serr_enabled: "@ + bool_text(bit16(v, 8))
        + ", parity_error_response: "@ + bool_text(bit16(v, 6))
        + ", vga_palette_snoop: "@ + bool_text(bit16(v, 5))
        + ", memory_write_and_invalidate_enabled: "@ + bool_text(bit16(v, 4))
        + ", monitor_special_cycles: "@ + bool_text(bit16(v, 3))
        + ", bus_mastering_enabled: "@ + bool_text(bit16(v, 2))
        + ", memory_space_access_enabled: "@ + bool_text(bit16(v, 1))
        + ", io_space_access_enabled: "@ + bool_text(bit16(v, 0))
        + " }"@
}

/// The Command register of a PCI function's configuration space.
#[derive(Clone, Copy, PartialEq, Eq, Structural)]
pub struct CommandRegister(u16);

impl View for CommandRegister {
    type V = u16;

    /// The raw register value.
    closed spec fn view(&self) -> u16 {
        self.0
    }
}

impl Default for CommandRegister {
    /// Every field disabled.
    fn default() -> (r: CommandRegister)
        ensures
            r@ == 0,
    {
        CommandRegister(0)
    }
}

impl CommandRegister {
    /// Wraps a raw value, as read from the device.
    pub fn from_u16(data: u16) -> (r: CommandRegister)
        ensures
            r@ == data,
    {
        CommandRegister(data)
    }

    /// Writes the bits that this register owns (0 to 6 and 8 to 10) into the
    /// combined Command/Status doubleword `data`; bit 7 and bits 11 to 31
    /// keep their values.
    pub fn write_info(&self, data: &mut u32)
        ensures
            *final(data) == command_image(*old(data), self@),
            forall|i: u32|
                i < 32 ==> #[trigger] bit32(*final(data), i) == if is_command_bit(i as u16) {
                    bit16(self@, i as u16)
                } else {
                    bit32(*old(data), i)
                },
    {
        let ghost d0 = *data;
        let v = self.0;
        let high = get_bits16(v, 8, 11);
        assert((high as u32) >> 3u32 == 0) by (bit_vector)
            requires
                high == field16(v, 8, 3),
        ;
        set_bits32(data, 8, 11, high as u32);
        let ghost d1 = *data;
        let low = get_bits16(v, 0, 7);
        assert((low as u32) >> 7u32 == 0) by (bit_vector)
            requires
                low == field16(v, 0, 7),
        ;
        set_bits32(data, 0, 7, low as u32);
        let ghost d2 = *data;
        assert(d2 == command_image(d0, v)) by (bit_vector)
            requires
                d1 == with_field32(d0, 8, 3, field16(v, 8, 3) as u32),
                d2 == with_field32(d1, 0, 7, field16(v, 0, 7) as u32),
        ;
        proof {
            lemma_write_info_isolation(d0, v);
        }
    }

    /// A builder that starts from this register's value.
    pub fn builder(&self) -> (r: CommandRegisterBuilder)
        ensures
            r@ == self@,
    {
        CommandRegisterBuilder(self.0)
    }

    /// If `true` the assertion of the device's INTx# signal is disabled.
    pub fn interrupts_disabled(&self) -> (r: bool)
        ensures
            r == bit16(self@, 10),
    {
        get_bit16(self.0, 10)
    }

    /// If `true` the device may generate fast back-to-back transactions to
    /// other agents; otherwise only to the same agent.
    pub fn fast_back_to_back_enabled(&self) -> (r: bool)
        ensures
            r == bit16(self@, 9),
    {
        get_bit16(self.0, 9)
    }

    /// If `true` the SERR# driver is enabled.
    pub fn serr_enabled(&self) -> (r: bool)
        ensures
            r == bit16(self@, 8),
    {
        get_bit16(self.0, 8)
    }

    /// If `true` the device takes its normal action (asserting PERR#) when a
    /// parity error is detected; otherwise it only sets bit 15 of the Status
    /// register and continues as normal.
    pub fn parity_error_response(&self) -> (r: bool)
        ensures
            r == bit16(self@, 6),
    {
        get_bit16(self.0, 6)
    }

    /// If `true` the device does not respond to palette register writes and
    /// snoops the data instead.
    pub fn vga_palette_snoop(&self) -> (r: bool)
        ensures
            r == bit16(self@, 5),
    {
        get_bit16(self.0, 5)
    }

    /// If `true` the device may generate the Memory Write and Invalidate
    /// command; otherwise Memory Write must be used.
    pub fn memory_write_and_invalidate_enabled(&self) -> (r: bool)
        ensures
            r == bit16(self@, 4),
    {
        get_bit16(self.0, 4)
    }

    /// If `true` the device monitors Special Cycle operations.
    pub fn monitor_special_cycles(&self) -> (r: bool)
        ensures
            r == bit16(self@, 3),
    {
        get_bit16(self.0, 3)
    }

    /// If `true` the device may behave as a bus master.
    pub fn bus_mastering_enabled(&self) -> (r: bool)
        ensures
            r == bit16(self@, 2),
    {
        get_bit16(self.0, 2)
    }

    /// If `true` the device responds to Memory Space accesses.
    pub fn memory_space_access_enabled(&self) -> (r: bool)
        ensures
            r == bit16(self@, 1),
    {
        get_bit16(self.0, 1)
    }

    /// If `true` the device responds to I/O Space accesses.
    pub fn io_space_access_enabled(&self) -> (r: bool)
        ensures
            r == bit16(self@, 0),
    {
        get_bit16(self.0, 0)
    }

    /// A structured dump naming every field with its value.
    pub fn debug_string(&self) -> (s: String)
        ensures
            s@ == command_dump(self@),
    {
        let mut s = String::from_str("CommandRegister { interrupts_disabled: ");
        s.append(bool_str(self.interrupts_disabled()));
        s.append(", fast_back_to_back_enabled: ");
        s.append(bool_str(self.fast_back_to_back_enabled()));
        s.append(", serr_enabled: ");
        s.append(bool_str(self.serr_enabled()));
        s.append(", parity_error_response: ");
        s.append(bool_str(self.parity_error_response()));
        s.append(", vga_palette_snoop: ");
        s.append(bool_str(self.vga_palette_snoop()));
        s.append(", memory_write_and_invalidate_enabled: ");
        s.append(bool_str(self.memory_write_and_invalidate_enabled()));
        s.append(", monitor_special_cycles: ");
        s.append(bool_str(self.monitor_special_cycles()));
        s.append(", bus_mastering_enabled: ");
        s.append(bool_str(self.bus_mastering_enabled()));
        s.append(", memory_space_access_enabled: ");
        s.append(bool_str(self.memory_space_access_enabled()));
        s.append(", io_space_access_enabled: ");
        s.append(bool_str(self.io_space_access_enabled()));
        s.append(" }");
        s
    }
}

/// An accumulator for a new Command register value: each setter sets or clears
/// exactly one field bit, and `build` freezes the result.
pub struct CommandRegisterBuilder(u16);

impl View for CommandRegisterBuilder {
    type V = u16;

    /// The accumulated raw value.
    closed spec fn view(&self) -> u16 {
        self.0
    }
}

impl Default for CommandRegisterBuilder {
    /// Every field disabled.
    fn default() -> (r: CommandRegisterBuilder)
        ensures
            r@ == 0,
    {
        CommandRegisterBuilder(0)
    }
}

impl CommandRegisterBuilder {
    /// If `true` the assertion of the device's INTx# signal is disabled.
    /// Sets bit 10 and keeps every other bit.
    pub fn interrupt_disable(&mut self, disable: bool) -> (r: &mut CommandRegisterBuilder)
        ensures
            r@ == with_bit16(old(self)@, 10, disable),
            *final(self) == *final(r),
    {
        set_bit16(&mut self.0, 10, disable);
        self
    }

    /// If `true` the device may generate fast back-to-back transactions to
    /// other agents; otherwise only to the same agent.
    /// Sets bit 9 and keeps every other bit.
    pub fn fast_back_to_back_enable(&mut self, enable: bool) -> (r: &mut CommandRegisterBuilder)
        ensures
            r@ == with_bit16(old(self)@, 9, enable),
            *final(self) == *final(r),
    {
        set_bit16(&mut self.0, 9, enable);
        self
    }

    /// If `true` the SERR# driver is enabled.
    /// Sets bit 8 and keeps every other bit.
    pub fn serr_enable(&mut self, enable: bool) -> (r: &mut CommandRegisterBuilder)
        ensures
            r@ == with_bit16(old(self)@, 8, enable),
            *final(self) == *final(r),
    {
        set_bit16(&mut self.0, 8, enable);
        self
    }

    /// If `true` the device takes its normal action (asserting PERR#) when a
    /// parity error is detected; otherwise it only sets bit 15 of the Status
    /// register and continues as normal.
    /// Sets bit 6 and keeps every other bit.
    pub fn parity_error_response(&mut self, response: bool) -> (r: &mut CommandRegisterBuilder)
        ensures
            r@ == with_bit16(old(self)@, 6, response),
            *final(self) == *final(r),
    {
        set_bit16(&mut self.0, 6, response);
        self
    }

    /// If `true` the device does not respond to palette register writes and
    /// snoops the data instead.
    /// Sets bit 5 and keeps every other bit.
    pub fn vga_palette_snoop(&mut self, snoop: bool) -> (r: &mut CommandRegisterBuilder)
        ensures
            r@ == with_bit16(old(self)@, 5, snoop),
            *final(self) == *final(r),
    {
        set_bit16(&mut self.0, 5, snoop);
        self
    }

    /// If `true` the device may generate the Memory Write and Invalidate
    /// command; otherwise Memory Write must be used.
    /// Sets bit 4 and keeps every other bit.
    pub fn memory_write_and_invalidate_enable(&mut self, enable: bool) -> (r: &mut CommandRegisterBuilder)
        ensures
            r@ == with_bit16(old(self)@, 4, enable),
            *final(self) == *final(r),
    {
        set_bit16(&mut self.0, 4, enable);
        self
    }

    /// If `true` the device monitors Special Cycle operations.
    /// Sets bit 3 and keeps every other bit.
    pub fn monitor_special_cycles(&mut self, cycles: bool) -> (r: &mut CommandRegisterBuilder)
        ensures
            r@ == with_bit16(old(self)@, 3, cycles),
            *final(self) == *final(r),
    {
        set_bit16(&mut self.0, 3, cycles);
        self
    }

    /// If `true` the device may behave as a bus master.
    /// Sets bit 2 and keeps every other bit.
    pub fn bus_mastering(&mut self, mastering: bool) -> (r: &mut CommandRegisterBuilder)
        ensures
            r@ == with_bit16(old(self)@, 2, mastering),
            *final(self) == *final(r),
    {
        set_bit16(&mut self.0, 2, mastering);
        self
    }

    /// If `true` the device responds to Memory Space accesses.
    /// Sets bit 1 and keeps every other bit.
    pub fn memory_space_access(&mut self, access: bool) -> (r: &mut CommandRegisterBuilder)
        ensures
            r@ == with_bit16(old(self)@, 1, access),
            *final(self) == *final(r),
    {
        set_bit16(&mut self.0, 1, access);
        self
    }

    /// If `true` the device responds to I/O Space accesses.
    /// Sets bit 0 and keeps every other bit.
    pub fn io_space_access(&mut self, access: bool) -> (r: &mut CommandRegisterBuilder)
        ensures
            r@ == with_bit16(old(self)@, 0, access),
            *final(self) == *final(r),
    {
        set_bit16(&mut self.0, 0, access);
        self
    }

    /// Freezes the accumulated value into a register.
    pub fn build(self) -> (r: CommandRegister)
        ensures
            r@ == self@,
    {
        CommandRegister(self.0)
    }
}

/// Writing a Command register into a doubleword sets exactly the bits it owns
/// (0 to 6 and 8 to 10) to the register's bits and leaves bit 7 and bits 11 to
/// 31 as they were; writing it a second time changes nothing more.
pub proof fn lemma_write_info_isolation(image: u32, cmd: u16)
    ensures
        forall|i: u32|
            i < 32 ==> #[trigger] bit32(command_image(image, cmd), i) == if is_command_bit(
                i as u16,
            ) {
                bit16(cmd, i as u16)
            } else {
                bit32(image, i)
            },
        command_image(command_image(image, cmd), cmd) == command_image(image, cmd),
{
    assert forall|i: u32| i < 32 implies #[trigger] bit32(command_image(image, cmd), i)
        == if is_command_bit(i as u16) {
        bit16(cmd, i as u16)
    } else {
        bit32(image, i)
    } by {
        assert(bit32((image & !0x77fu32) | ((cmd as u32) & 0x77fu32), i) == if (i as u16 <= 6 || (
        8 <= i as u16 && i as u16 <= 10)) {
            bit16(cmd, i as u16)
        } else {
            bit32(image, i)
        }) by (bit_vector)
            requires
                i < 32,
        ;
    }
    let once = command_image(image, cmd);
    assert(((once & !0x77fu32) | ((cmd as u32) & 0x77fu32)) == once) by (bit_vector)
        requires
            once == (image & !0x77fu32) | ((cmd as u32) & 0x77fu32),
    ;
}

/// The raw value that a builder holds after the settings `ops` are applied in
/// order to the value `v`; a setting is a field's bit position and the value
/// that a setter gives it.
pub open spec fn apply_settings(v: u16, ops: Seq<(u16, bool)>) -> u16
    decreases ops.len(),
{
    if ops.len() == 0 {
        v
    } else {
        with_bit16(apply_settings(v, ops.drop_last()), ops.last().0, ops.last().1)
    }
}

/// The last value that `ops` gives to bit `i`, or `default` where none does.
pub open spec fn last_setting(ops: Seq<(u16, bool)>, i: u16, default: bool) -> bool
    decreases ops.len(),
{
    if ops.len() == 0 {
        default
    } else if ops.last().0 == i {
        ops.last().1
    } else {
        last_setting(ops.drop_last(), i, default)
    }
}

/// After any sequence of setter calls, each field holds the last value given
/// to it, or the value it started with where none was given; a bit that is not
/// a field keeps its starting value.
pub proof fn lemma_settings_last_wins(v: u16, ops: Seq<(u16, bool)>)
    requires
        forall|k: int| 0 <= k < ops.len() ==> is_command_bit(#[trigger] ops[k].0),
    ensures
        forall|i: u16|
            i < 16 ==> #[trigger] bit16(apply_settings(v, ops), i) == last_setting(
                ops,
                i,
                bit16(v, i),
            ),
        forall|i: u16|
            i < 16 && !is_command_bit(i) ==> #[trigger] bit16(apply_settings(v, ops), i) == bit16(
                v,
                i,
            ),
    decreases ops.len(),
{
    if ops.len() > 0 {
        let rest = ops.drop_last();
        assert forall|k: int| 0 <= k < rest.len() implies is_command_bit(#[trigger] rest[k].0) by {
            assert(rest[k] == ops[k]);
        }
        lemma_settings_last_wins(v, rest);
        assert(is_command_bit(ops[ops.len() - 1].0));
        assert forall|i: u16| i < 16 implies #[trigger] bit16(apply_settings(v, ops), i)
            == last_setting(ops, i, bit16(v, i)) by {
            lemma_with_bit16(apply_settings(v, rest), ops.last().0, ops.last().1, i);
        }
        assert forall|i: u16| i < 16 && !is_command_bit(i) implies #[trigger] bit16(
            apply_settings(v, ops),
            i,
        ) == bit16(v, i) by {
            lemma_with_bit16(apply_settings(v, rest), ops.last().0, ops.last().1, i);
            assert(bit16(apply_settings(v, rest), i) == bit16(v, i));
        }
    }
}

/// Two sequences of setter calls that give every field the same last value
/// build the same register, whatever order the calls came in.
pub proof fn lemma_settings_order_independent(
    v: u16,
    ops1: Seq<(u16, bool)>,
    ops2: Seq<(u16, bool)>,
)
    requires
        forall|k: int| 0 <= k < ops1.len() ==> is_command_bit(#[trigger] ops1[k].0),
        forall|k: int| 0 <= k < ops2.len() ==> is_command_bit(#[trigger] ops2[k].0),
        forall|i: u16|
            i < 16 ==> #[trigger] last_setting(ops1, i, bit16(v, i)) == last_setting(
                ops2,
                i,
                bit16(v, i),
            ),
    ensures
        apply_settings(v, ops1) == apply_settings(v, ops2),
{
    lemma_settings_last_wins(v, ops1);
    lemma_settings_last_wins(v, ops2);
    let a = apply_settings(v, ops1);
    let b = apply_settings(v, ops2);
    assert forall|i: u16| i < 16 implies bit16(a, i) == bit16(b, i) by {
        assert(last_setting(ops1, i, bit16(v, i)) == last_setting(ops2, i, bit16(v, i)));
    }
    lemma_bits16_equal(a, b);
}

/// A register made from a raw value, turned into a builder and built again with
/// no setter in between, equals the first: it holds the same raw value, and so
/// gives the same value for every field and the same dump.
pub proof fn lemma_builder_round_trip(
    raw: u16,
    c: CommandRegister,
    b: CommandRegisterBuilder,
    d: CommandRegister,
)
    requires
        c@ == raw,
        b@ == c@,
        d@ == b@,
    ensures
        d@ == raw,
        d == c,
        forall|i: u16| #[trigger] bit16(d@, i) == bit16(c@, i),
        command_dump(d@) == command_dump(c@),
{
}

} // verus!
