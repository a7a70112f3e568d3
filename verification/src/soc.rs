//! D13x chip support: the peripheral ownership root and the GPIO pads.
//!
//! A pad is a zero-sized token for one physical pin, typed by its
//! peripheral and pin index. Converting a pad into an input or output
//! capability consumes it, and pads are neither cloneable nor obtainable
//! from a raw index, so two capabilities for the same pin cannot coexist
//! within one ownership root. The program's entry point must call
//! `Peripherals::take` exactly once and thread the value through; that
//! single-call discipline is the runtime glue's obligation, since this
//! crate holds no process-wide state.

use core::marker::PhantomData;
use vstd::prelude::*;
use crate::gpio::{Input, Output, GPIO_GROUP_SIZE};

verus! {

/// Base physical address of GPIO group A's register file.
pub const GPIOA_BASE: u32 = 0x1870_0000;

/// Peripheral ownership structures available on BootROM.
pub struct Peripherals {
    /// General Purpose Input/Output peripheral group A.
    pub gpioa: GpioAPads,
}

impl Peripherals {
    pub fn __new() -> Self {
        Peripherals { gpioa: GpioAPads::__new() }
    }

    /// Take the peripherals. The caller must call this once per program,
    /// at the entry point, and pass the value on from there.
    pub fn take() -> Self {
        Peripherals::__new()
    }
}

/// General Purpose Input/Output peripheral group A.
pub struct GPIOA {
    _private: (),
}

impl GPIOA {
    /// Base physical address of this group's register file.
    pub fn base_address() -> (a: u32)
        ensures
            a == GPIOA_BASE,
            a + GPIO_GROUP_SIZE <= u32::MAX,
    {
        0x1870_0000
    }
}

/// GPIO pad with statically known peripheral and pin index. A zero-sized,
/// move-only token: it exists at most once per pin and is consumed by
/// conversion into a capability.
pub struct GpioPad<T, const N: u8> {
    _private: PhantomData<T>,
}

impl<const N: u8> GpioPad<GPIOA, N> {
    /// Consume this pad and bind an output capability to its pin.
    pub fn into_output(self) -> (o: Output)
        requires
            N < 32,
        ensures
            o.wf(),
            o.pin() == N,
            o.base() == GPIOA_BASE,
    {
        Output::__new(N, GPIOA::base_address())
    }

    /// Consume this pad and bind an input capability to its pin.
    pub fn into_input(self) -> (o: Input)
        requires
            N < 32,
        ensures
            o.wf(),
            o.pin() == N,
            o.base() == GPIOA_BASE,
    {
        Input::__new(N, GPIOA::base_address())
    }
}

/// GPIOA pads.
pub struct GpioAPads {
    /// GPIO pad PA0.
    pub pa0: GpioPad<GPIOA, 0>,
    /// GPIO pad PA1.
    pub pa1: GpioPad<GPIOA, 1>,
    /// GPIO pad PA2.
    pub pa2: GpioPad<GPIOA, 2>,
    /// GPIO pad PA3.
    pub pa3: GpioPad<GPIOA, 3>,
    /// GPIO pad PA4.
    pub pa4: GpioPad<GPIOA, 4>,
    /// GPIO pad PA5.
    pub pa5: GpioPad<GPIOA, 5>,
}

impl GpioAPads {
    pub fn __new() -> Self {
        GpioAPads {
            pa0: GpioPad { _private: PhantomData },
            pa1: GpioPad { _private: PhantomData },
            pa2: GpioPad { _private: PhantomData },
            pa3: GpioPad { _private: PhantomData },
            pa4: GpioPad { _private: PhantomData },
            pa5: GpioPad { _private: PhantomData },
        }
    }
}

} // verus!
