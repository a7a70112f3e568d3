//! Byte layout of the GPIO register file, the packed pin-configuration
//! word, and the single-pin capabilities handed out by the pad layer.
//!
//! The offsets here are an ABI contract with the silicon: each register of
//! a GPIO group sits at a fixed byte offset from the group's base address,
//! groups are 0x100 bytes apart, and the pin-configuration array starts at
//! 0x80 with one 32-bit word per pin. The capabilities do not touch
//! hardware themselves; they compute the exact address and single-bit mask
//! for a volatile store or load, which the unverified runtime performs.

use vstd::prelude::*;

verus! {

/// Size in bytes of one GPIO group's register file.
pub const GPIO_GROUP_SIZE: u32 = 0x100;

/// Byte offset of the version register inside the whole GPIO block.
pub const GPIO_VERSION_OFFSET: u32 = 0xffc;

/// Access discipline of a register cell: which of load and store the
/// hardware allows. Every access is a single volatile hardware-width
/// operation; a register outside its discipline must never be touched.
#[derive(Clone, Copy, Debug, PartialEq, Eq, Structural)]
pub enum AccessMode {
    /// Loads only.
    ReadOnly,
    /// Stores only; a load has no defined value.
    WriteOnly,
    /// Loads and stores.
    ReadWrite,
}

/// One register of a GPIO group.
pub enum GpioRegister {
    /// Input state, read-only.
    InputState,
    /// Output configuration, read-write.
    OutputConfig,
    /// Interrupt enable, read-write.
    InterruptEnable,
    /// Interrupt state, read-write.
    InterruptState,
    /// Output clear, write-only and self-clearing: only bits written as 1
    /// take effect.
    OutputClear,
    /// Output set, write-only and self-clearing.
    OutputSet,
    /// Output toggle, write-only and self-clearing.
    OutputToggle,
    /// Per-pin configuration word, read-write; one per pin index.
    PinConfig(u8),
}

impl GpioRegister {
    /// A pin-configuration register must name one of the 32 pins.
    pub open spec fn valid(self) -> bool {
        match self {
            GpioRegister::PinConfig(n) => n < 32,
            _ => true,
        }
    }

    /// Byte offset of this register from the group's base, per the
    /// hardware datasheet.
    pub open spec fn spec_offset(self) -> int {
        match self {
            GpioRegister::InputState => 0x00,
            GpioRegister::OutputConfig => 0x04,
            GpioRegister::InterruptEnable => 0x08,
            GpioRegister::InterruptState => 0x0c,
            GpioRegister::OutputClear => 0x10,
            GpioRegister::OutputSet => 0x14,
            GpioRegister::OutputToggle => 0x18,
            GpioRegister::PinConfig(n) => 0x80 + 4 * n,
        }
    }

    /// The access discipline the datasheet gives this register.
    pub open spec fn spec_access(self) -> AccessMode {
        match self {
            GpioRegister::InputState => AccessMode::ReadOnly,
            GpioRegister::OutputConfig => AccessMode::ReadWrite,
            GpioRegister::InterruptEnable => AccessMode::ReadWrite,
            GpioRegister::InterruptState => AccessMode::ReadWrite,
            GpioRegister::OutputClear => AccessMode::WriteOnly,
            GpioRegister::OutputSet => AccessMode::WriteOnly,
            GpioRegister::OutputToggle => AccessMode::WriteOnly,
            GpioRegister::PinConfig(_) => AccessMode::ReadWrite,
        }
    }

    /// A load is defined only for a readable register.
    pub open spec fn readable(self) -> bool {
        self.spec_access() != AccessMode::WriteOnly
    }

    /// A store is defined only for a writable register.
    pub open spec fn writable(self) -> bool {
        self.spec_access() != AccessMode::ReadOnly
    }

    /// The access discipline the datasheet gives this register.
    pub fn access(self) -> (a: AccessMode)
        ensures
            a == self.spec_access(),
    {
        match self {
            GpioRegister::InputState => AccessMode::ReadOnly,
            GpioRegister::OutputConfig => AccessMode::ReadWrite,
            GpioRegister::InterruptEnable => AccessMode::ReadWrite,
            GpioRegister::InterruptState => AccessMode::ReadWrite,
            GpioRegister::OutputClear => AccessMode::WriteOnly,
            GpioRegister::OutputSet => AccessMode::WriteOnly,
            GpioRegister::OutputToggle => AccessMode::WriteOnly,
            GpioRegister::PinConfig(_) => AccessMode::ReadWrite,
        }
    }

    /// Byte offset of this register from the group's base.
    pub fn offset(self) -> (o: u32)
        requires
            self.valid(),
        ensures
            o == self.spec_offset(),
            o + 4 <= GPIO_GROUP_SIZE,
    {
        match self {
            GpioRegister::InputState => 0x00,
            GpioRegister::OutputConfig => 0x04,
            GpioRegister::InterruptEnable => 0x08,
            GpioRegister::InterruptState => 0x0c,
            GpioRegister::OutputClear => 0x10,
            GpioRegister::OutputSet => 0x14,
            GpioRegister::OutputToggle => 0x18,
            GpioRegister::PinConfig(n) => 0x80 + 4 * (n as u32),
        }
    }
}

/// Byte offset of GPIO group `index` inside the whole block: the first 15
/// groups are contiguous from the block base; a reserved gap and the
/// version register follow; two more groups start at 0x1000.
pub open spec fn spec_group_offset(index: int) -> int {
    if index < 15 {
        0x100 * index
    } else {
        0x1000 + 0x100 * (index - 15)
    }
}

/// Byte offset of GPIO group `index` inside the whole block.
pub fn group_offset(index: u8) -> (o: u32)
    requires
        index < 17,
    ensures
        o == spec_group_offset(index as int),
{
    if index < 15 {
        0x100 * (index as u32)
    } else {
        0x1000 + 0x100 * (index as u32 - 15)
    }
}

/// One volatile store for the unverified runtime to perform: write `mask`
/// to the 32-bit register at `address`.
#[derive(Clone, Copy)]
pub struct RegisterWrite {
    /// Physical byte address of the register.
    pub address: u32,
    /// The value to store; for the self-clearing output registers this is a
    /// single-bit mask.
    pub mask: u32,
}

/// Output capability for one pin of one GPIO group. Obtained only by
/// consuming that pin's pad, so at most one output capability per pin can
/// ever exist. Its methods compute the exact single-bit writes to the
/// write-only, self-clearing output registers; bits left 0 in the mask are
/// no-ops on the hardware, so each write touches this pin alone.
pub struct Output {
    pin: u8,
    base: u32,
}

impl Output {
    /// The bound pin index.
    pub closed spec fn pin(self) -> u8 {
        self.pin
    }

    /// Base address of the pin's GPIO group.
    pub closed spec fn base(self) -> u32 {
        self.base
    }

    /// The capability is bound to a real pin and its group's register file
    /// lies within the address space.
    pub open spec fn wf(self) -> bool {
        self.pin() < 32 && self.base() + GPIO_GROUP_SIZE <= u32::MAX
    }

    pub(crate) fn __new(pin: u8, base: u32) -> (o: Self)
        requires
            pin < 32,
            base + GPIO_GROUP_SIZE <= u32::MAX,
        ensures
            o.wf(),
            o.pin() == pin,
            o.base() == base,
    {
        Output { pin, base }
    }

    /// The store that drives this pin high: its bit in the output-set
    /// register.
    pub fn set_command(&self) -> (w: RegisterWrite)
        requires
            self.wf(),
        ensures
            w.address == self.base() + GpioRegister::OutputSet.spec_offset(),
            w.mask == 1u32 << (self.pin() as u32),
            GpioRegister::OutputSet.writable(),
    {
        RegisterWrite { address: self.base + 0x14, mask: 1u32 << (self.pin as u32) }
    }

    /// The store that drives this pin low: its bit in the output-clear
    /// register.
    pub fn clear_command(&self) -> (w: RegisterWrite)
        requires
            self.wf(),
        ensures
            w.address == self.base() + GpioRegister::OutputClear.spec_offset(),
            w.mask == 1u32 << (self.pin() as u32),
            GpioRegister::OutputClear.writable(),
    {
        RegisterWrite { address: self.base + 0x10, mask: 1u32 << (self.pin as u32) }
    }

    /// The store that flips this pin: its bit in the output-toggle register.
    pub fn toggle_command(&self) -> (w: RegisterWrite)
        requires
            self.wf(),
        ensures
            w.address == self.base() + GpioRegister::OutputToggle.spec_offset(),
            w.mask == 1u32 << (self.pin() as u32),
            GpioRegister::OutputToggle.writable(),
    {
        RegisterWrite { address: self.base + 0x18, mask: 1u32 << (self.pin as u32) }
    }
}

/// Input capability for one pin of one GPIO group, obtained by consuming
/// that pin's pad.
pub struct Input {
    pin: u8,
    base: u32,
}

impl Input {
    /// The bound pin index.
    pub closed spec fn pin(self) -> u8 {
        self.pin
    }

    /// Base address of the pin's GPIO group.
    pub closed spec fn base(self) -> u32 {
        self.base
    }

    /// The capability is bound to a real pin and its group's register file
    /// lies within the address space.
    pub open spec fn wf(self) -> bool {
        self.pin() < 32 && self.base() + GPIO_GROUP_SIZE <= u32::MAX
    }

    pub(crate) fn __new(pin: u8, base: u32) -> (o: Self)
        requires
            pin < 32,
            base + GPIO_GROUP_SIZE <= u32::MAX,
        ensures
            o.wf(),
            o.pin() == pin,
            o.base() == base,
    {
        Input { pin, base }
    }

    /// Address of the input-state register the runtime must load from.
    pub fn state_address(&self) -> (a: u32)
        requires
            self.wf(),
        ensures
            a == self.base() + GpioRegister::InputState.spec_offset(),
            GpioRegister::InputState.readable(),
    {
        self.base
    }

    /// This pin's level, extracted from a word loaded from the input-state
    /// register.
    pub fn level_from_state(&self, state: u32) -> (b: bool)
        requires
            self.wf(),
        ensures
            b == ((state >> (self.pin() as u32)) & 1 == 1),
    {
        (state >> (self.pin as u32)) & 1 == 1
    }
}

/// Pull resistor discipline of a pin.
#[derive(Clone, Copy)]
pub enum PullMode {
    /// No pull resistor.
    Disabled,
    /// Pull-up resistor enabled.
    PullUp,
    /// Pull-down resistor enabled.
    PullDown,
}

impl PullMode {
    /// The 2-bit encoding stored in the pin-configuration word.
    pub open spec fn spec_code(self) -> u32 {
        match self {
            PullMode::Disabled => 0,
            PullMode::PullUp => 1,
            PullMode::PullDown => 2,
        }
    }
}

/// Function-select field: bits 0..=3.
pub open spec fn spec_function_select(bits: u32) -> u32 {
    bits & 0xf
}

/// Drive-strength field: bits 4..=6.
pub open spec fn spec_drive_strength(bits: u32) -> u32 {
    (bits >> 4) & 0x7
}

/// Pull-mode field: bits 8..=9.
pub open spec fn spec_pull_code(bits: u32) -> u32 {
    (bits >> 8) & 0x3
}

/// Input-enable field: bit 12.
pub open spec fn spec_input_enabled(bits: u32) -> bool {
    bits & 0x1000 != 0
}

/// Output-enable field: bit 13.
pub open spec fn spec_output_enabled(bits: u32) -> bool {
    bits & 0x2000 != 0
}

/// One pin-configuration word, a packed bit-field. The setters below form a
/// fluent chain over a value read from the hardware register, so a
/// read-modify-write through them updates one field and provably leaves
/// every other field untouched.
#[derive(Clone, Copy)]
pub struct PinConfig {
    /// The raw register word.
    pub bits: u32,
}

impl PinConfig {
    /// Wrap a word read from a pin-configuration register.
    pub fn from_bits(bits: u32) -> (r: Self)
        ensures
            r.bits == bits,
    {
        PinConfig { bits }
    }

    /// The function-select field.
    pub fn function_select(&self) -> (f: u32)
        ensures
            f == spec_function_select(self.bits),
    {
        self.bits & 0xf
    }

    /// The drive-strength field.
    pub fn drive_strength(&self) -> (d: u32)
        ensures
            d == spec_drive_strength(self.bits),
    {
        (self.bits >> 4) & 0x7
    }

    /// The pull-mode field's 2-bit code.
    pub fn pull_code(&self) -> (c: u32)
        ensures
            c == spec_pull_code(self.bits),
    {
        (self.bits >> 8) & 0x3
    }

    /// Whether the input path is enabled.
    pub fn input_enabled(&self) -> (b: bool)
        ensures
            b == spec_input_enabled(self.bits),
    {
        self.bits & 0x1000 != 0
    }

    /// Whether the output driver is enabled.
    pub fn output_enabled(&self) -> (b: bool)
        ensures
            b == spec_output_enabled(self.bits),
    {
        self.bits & 0x2000 != 0
    }

    /// Select which internal signal the pin routes.
    pub fn with_function_select(self, f: u32) -> (r: Self)
        requires
            f < 16,
        ensures
            spec_function_select(r.bits) == f,
            spec_drive_strength(r.bits) == spec_drive_strength(self.bits),
            spec_pull_code(r.bits) == spec_pull_code(self.bits),
            spec_input_enabled(r.bits) == spec_input_enabled(self.bits),
            spec_output_enabled(r.bits) == spec_output_enabled(self.bits),
    {
        let bits = (self.bits & !0xfu32) | f;
        proof {
            let b = self.bits;
            assert((b & !0xfu32 | f) & 0xf == f
                && ((b & !0xfu32 | f) >> 4) & 0x7 == (b >> 4) & 0x7
                && ((b & !0xfu32 | f) >> 8) & 0x3 == (b >> 8) & 0x3
                && ((b & !0xfu32 | f) & 0x1000 != 0) == (b & 0x1000 != 0)
                && ((b & !0xfu32 | f) & 0x2000 != 0) == (b & 0x2000 != 0)) by (bit_vector)
                requires f < 16;
        }
        PinConfig { bits }
    }

    /// Set the drive-strength level.
    pub fn with_drive_strength(self, d: u32) -> (r: Self)
        requires
            d < 8,
        ensures
            spec_drive_strength(r.bits) == d,
            spec_function_select(r.bits) == spec_function_select(self.bits),
            spec_pull_code(r.bits) == spec_pull_code(self.bits),
            spec_input_enabled(r.bits) == spec_input_enabled(self.bits),
            spec_output_enabled(r.bits) == spec_output_enabled(self.bits),
    {
        let bits = (self.bits & !0x70u32) | (d << 4);
        proof {
            let b = self.bits;
            assert(((b & !0x70u32 | d << 4) >> 4) & 0x7 == d
                && (b & !0x70u32 | d << 4) & 0xf == b & 0xf
                && ((b & !0x70u32 | d << 4) >> 8) & 0x3 == (b >> 8) & 0x3
                && ((b & !0x70u32 | d << 4) & 0x1000 != 0) == (b & 0x1000 != 0)
                && ((b & !0x70u32 | d << 4) & 0x2000 != 0) == (b & 0x2000 != 0)) by (bit_vector)
                requires d < 8;
        }
        PinConfig { bits }
    }

    /// Set the pull-resistor mode.
    pub fn with_pull_mode(self, m: PullMode) -> (r: Self)
        ensures
            spec_pull_code(r.bits) == m.spec_code(),
            spec_function_select(r.bits) == spec_function_select(self.bits),
            spec_drive_strength(r.bits) == spec_drive_strength(self.bits),
            spec_input_enabled(r.bits) == spec_input_enabled(self.bits),
            spec_output_enabled(r.bits) == spec_output_enabled(self.bits),
    {
        let c: u32 = match m {
            PullMode::Disabled => 0,
            PullMode::PullUp => 1,
            PullMode::PullDown => 2,
        };
        let bits = (self.bits & !0x300u32) | (c << 8);
        proof {
            let b = self.bits;
            assert(((b & !0x300u32 | c << 8) >> 8) & 0x3 == c
                && (b & !0x300u32 | c << 8) & 0xf == b & 0xf
                && ((b & !0x300u32 | c << 8) >> 4) & 0x7 == (b >> 4) & 0x7
                && ((b & !0x300u32 | c << 8) & 0x1000 != 0) == (b & 0x1000 != 0)
                && ((b & !0x300u32 | c << 8) & 0x2000 != 0) == (b & 0x2000 != 0)) by (bit_vector)
                requires c < 4;
        }
        PinConfig { bits }
    }

    /// Enable or disable the input path.
    pub fn with_input_enabled(self, on: bool) -> (r: Self)
        ensures
            spec_input_enabled(r.bits) == on,
            spec_function_select(r.bits) == spec_function_select(self.bits),
            spec_drive_strength(r.bits) == spec_drive_strength(self.bits),
            spec_pull_code(r.bits) == spec_pull_code(self.bits),
            spec_output_enabled(r.bits) == spec_output_enabled(self.bits),
    {
        let bits = if on {
            self.bits | 0x1000u32
        } else {
            self.bits & !0x1000u32
        };
        proof {
            let b = self.bits;
            assert((b | 0x1000u32) & 0x1000 != 0
                && (b & !0x1000u32) & 0x1000 == 0
                && (b | 0x1000u32) & 0xf == b & 0xf
                && (b & !0x1000u32) & 0xf == b & 0xf
                && ((b | 0x1000u32) >> 4) & 0x7 == (b >> 4) & 0x7
                && ((b & !0x1000u32) >> 4) & 0x7 == (b >> 4) & 0x7
                && ((b | 0x1000u32) >> 8) & 0x3 == (b >> 8) & 0x3
                && ((b & !0x1000u32) >> 8) & 0x3 == (b >> 8) & 0x3
                && ((b | 0x1000u32) & 0x2000 != 0) == (b & 0x2000 != 0)
                && ((b & !0x1000u32) & 0x2000 != 0) == (b & 0x2000 != 0)) by (bit_vector);
        }
        PinConfig { bits }
    }

    /// Enable or disable the output driver.
    pub fn with_output_enabled(self, on: bool) -> (r: Self)
        ensures
            spec_output_enabled(r.bits) == on,
            spec_function_select(r.bits) == spec_function_select(self.bits),
            spec_drive_strength(r.bits) == spec_drive_strength(self.bits),
            spec_pull_code(r.bits) == spec_pull_code(self.bits),
            spec_input_enabled(r.bits) == spec_input_enabled(self.bits),
    {
        let bits = if on {
            self.bits | 0x2000u32
        } else {
            self.bits & !0x2000u32
        };
        proof {
            let b = self.bits;
            assert((b | 0x2000u32) & 0x2000 != 0
                && (b & !0x2000u32) & 0x2000 == 0
                && (b | 0x2000u32) & 0xf == b & 0xf
                && (b & !0x2000u32) & 0xf == b & 0xf
                && ((b | 0x2000u32) >> 4) & 0x7 == (b >> 4) & 0x7
                && ((b & !0x2000u32) >> 4) & 0x7 == (b >> 4) & 0x7
                && ((b | 0x2000u32) >> 8) & 0x3 == (b >> 8) & 0x3
                && ((b & !0x2000u32) >> 8) & 0x3 == (b >> 8) & 0x3
                && ((b | 0x2000u32) & 0x1000 != 0) == (b & 0x1000 != 0)
                && ((b & !0x2000u32) & 0x1000 != 0) == (b & 0x1000 != 0)) by (bit_vector);
        }
        PinConfig { bits }
    }
}

} // verus!
