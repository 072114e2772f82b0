use mcu_core::gpio::{GpioExt, GpioPort};

#[test]
fn split_hands_out_pins_in_order() {
    let parts = GpioPort::new().split();
    assert_eq!(parts.pins.len(), 16);
    for (k, pin) in parts.pins.iter().enumerate() {
        assert_eq!(pin.get_id(), k as u8);
    }
}

#[test]
fn output_pin_drives_exactly_its_bit() {
    let mut parts = GpioPort::new().split();
    let pin3 = parts.pins.remove(3).into_push_pull_5ma_output(&mut parts.port);
    assert_eq!(parts.port.dir, 1 << 3);
    assert_eq!(parts.port.pd_drv, 0);

    pin3.set_high(&mut parts.port);
    assert_eq!(parts.port.out, 1 << 3);
    assert!(pin3.is_set_high(&parts.port));
    assert!(!pin3.is_set_low(&parts.port));

    pin3.set_low(&mut parts.port);
    assert_eq!(parts.port.out, 0);
    assert!(pin3.is_set_low(&parts.port));
}

#[test]
fn high_drive_output_sets_the_drive_bit() {
    let mut parts = GpioPort::new().split();
    let pin7 = parts.pins.remove(7).into_push_pull_20ma_output(&mut parts.port);
    assert_eq!(parts.port.dir, 1 << 7);
    assert_eq!(parts.port.pd_drv, 1 << 7);
    pin7.set_high(&mut parts.port);
    assert_eq!(parts.port.out, 1 << 7);
}

#[test]
fn input_pin_reads_the_external_level() {
    let mut parts = GpioPort::new().split();
    let pin2 = parts.pins.remove(2).into_floating_input(&mut parts.port);
    assert!(pin2.is_low(&parts.port));
    assert!(!pin2.is_high(&parts.port));

    parts.port.set_input_level(2, true);
    assert!(pin2.is_high(&parts.port));

    // Another pin's level does not leak over.
    parts.port.set_input_level(4, true);
    assert!(pin2.is_high(&parts.port));
    parts.port.set_input_level(2, false);
    assert!(pin2.is_low(&parts.port));
}

#[test]
fn pull_configuration_touches_exactly_its_bit() {
    let mut parts = GpioPort::new().split();
    let p0 = parts.pins.remove(0);
    let p1 = parts.pins.remove(0);
    let _down = p0.into_pull_down_input(&mut parts.port);
    assert_eq!(parts.port.pu, 1 << 0);
    assert_eq!(parts.port.pd_drv, 0);
    let _up = p1.into_pull_up_input(&mut parts.port);
    assert_eq!(parts.port.pu, 1 << 0);
    assert_eq!(parts.port.pd_drv, 1 << 1);
    assert_eq!(parts.port.dir, 0);
}
