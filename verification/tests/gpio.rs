use artinchip_boot::gpio::{
    group_offset, AccessMode, GpioRegister, PinConfig, PullMode, GPIO_GROUP_SIZE,
    GPIO_VERSION_OFFSET,
};
use artinchip_boot::soc::{Peripherals, GPIOA_BASE};

#[test]
fn struct_register_block_offset() {
    assert_eq!(group_offset(0), 0x0);
    assert_eq!(GPIO_VERSION_OFFSET, 0xffc);
    assert_eq!(group_offset(15), 0x1000);
}

#[test]
fn struct_gpio_group_offset() {
    assert_eq!(GPIO_GROUP_SIZE, 0x100);
    assert_eq!(GpioRegister::InputState.offset(), 0x0);
    assert_eq!(GpioRegister::OutputConfig.offset(), 0x4);
    assert_eq!(GpioRegister::InterruptEnable.offset(), 0x8);
    assert_eq!(GpioRegister::InterruptState.offset(), 0xc);
    assert_eq!(GpioRegister::OutputClear.offset(), 0x10);
    assert_eq!(GpioRegister::OutputSet.offset(), 0x14);
    assert_eq!(GpioRegister::OutputToggle.offset(), 0x18);
    assert_eq!(GpioRegister::PinConfig(0).offset(), 0x80);
}

#[test]
fn pin_config_array_spans_group() {
    assert_eq!(GpioRegister::PinConfig(31).offset(), 0xfc);
    assert_eq!(GpioRegister::PinConfig(31).offset() + 4, GPIO_GROUP_SIZE);
    assert_eq!(group_offset(14), 0xe00);
    assert_eq!(group_offset(16), 0x1100);
}

#[test]
fn register_access_disciplines() {
    assert_eq!(GpioRegister::InputState.access(), AccessMode::ReadOnly);
    assert_eq!(GpioRegister::OutputConfig.access(), AccessMode::ReadWrite);
    assert_eq!(GpioRegister::InterruptEnable.access(), AccessMode::ReadWrite);
    assert_eq!(GpioRegister::InterruptState.access(), AccessMode::ReadWrite);
    assert_eq!(GpioRegister::OutputClear.access(), AccessMode::WriteOnly);
    assert_eq!(GpioRegister::OutputSet.access(), AccessMode::WriteOnly);
    assert_eq!(GpioRegister::OutputToggle.access(), AccessMode::WriteOnly);
    assert_eq!(GpioRegister::PinConfig(7).access(), AccessMode::ReadWrite);
}

#[test]
fn pin_config_setters_preserve_other_fields() {
    let all = PinConfig::from_bits(0xffff_ffff);
    assert_eq!(all.with_function_select(0).bits, 0xffff_fff0);
    assert_eq!(all.with_drive_strength(0).bits, 0xffff_ff8f);
    assert_eq!(all.with_pull_mode(PullMode::Disabled).bits, 0xffff_fcff);
    assert_eq!(all.with_input_enabled(false).bits, 0xffff_efff);
    assert_eq!(all.with_output_enabled(false).bits, 0xffff_dfff);
}

#[test]
fn pin_config_fluent_chain() {
    let cfg = PinConfig::from_bits(0)
        .with_function_select(2)
        .with_drive_strength(1)
        .with_pull_mode(PullMode::PullDown)
        .with_input_enabled(true);
    assert_eq!(cfg.bits, 0x1212);
    assert_eq!(cfg.function_select(), 2);
    assert_eq!(cfg.drive_strength(), 1);
    assert_eq!(cfg.pull_code(), 2);
    assert!(cfg.input_enabled());
    assert!(!cfg.output_enabled());
    let cfg = cfg.with_pull_mode(PullMode::PullUp).with_output_enabled(true);
    assert_eq!(cfg.pull_code(), 1);
    assert!(cfg.output_enabled());
}

#[test]
fn output_capability_commands() {
    let p = Peripherals::take();
    let out1 = p.gpioa.pa1.into_output();
    let set = out1.set_command();
    assert_eq!(set.address, GPIOA_BASE + 0x14);
    assert_eq!(set.mask, 0b10);
    let clear = out1.clear_command();
    assert_eq!(clear.address, GPIOA_BASE + 0x10);
    assert_eq!(clear.mask, 0b10);
    let toggle = out1.toggle_command();
    assert_eq!(toggle.address, GPIOA_BASE + 0x18);
    assert_eq!(toggle.mask, 0b10);
}

#[test]
fn input_capability_reads_single_bit() {
    let p = Peripherals::take();
    let in5 = p.gpioa.pa5.into_input();
    assert_eq!(in5.state_address(), GPIOA_BASE);
    assert!(in5.level_from_state(0b10_0000));
    assert!(!in5.level_from_state(!0b10_0000u32));
}

#[test]
fn pad_is_consumed_by_conversion() {
    // A pad moves into the capability; the pad for a pin can yield one
    // capability only. (Reusing `p.gpioa.pa0` after this line is a
    // use-after-move the compiler rejects.)
    let p = Peripherals::take();
    let out0 = p.gpioa.pa0.into_output();
    assert_eq!(out0.set_command().mask, 1);
    let in1 = p.gpioa.pa1.into_input();
    assert_eq!(in1.state_address(), GPIOA_BASE);
}
