use airship_core::AirshipController;
use airship_core::ConfigurationError;
use airship_core::ControlPalette;
use airship_core::ThrustCommand;
use airship_core::allocate;
use airship_core::ensure_unique_keys;

fn keys(names: &[&str]) -> Vec<String> {
    let mut v: Vec<String> = Vec::new();
    for n in names {
        v.push((*n).to_string());
    }
    v
}

#[test]
fn unique_keys_check() {
    assert!(ensure_unique_keys(&keys(&["W", "A", "S"])));
    assert!(!ensure_unique_keys(&keys(&["W", "A", "W"])));
    assert!(ensure_unique_keys(&keys(&[])));
}

#[test]
fn palette_rejects_duplicate_keys() {
    let r = ControlPalette::new(keys(&["W", "W"]));
    assert!(matches!(r, Err(ConfigurationError::DuplicateKey)));
}

#[test]
fn palette_rejects_unknown_key_on_set() {
    let mut p = ControlPalette::new(keys(&["A"])).unwrap();
    let r = p.set_value(&"W".to_string(), true);
    assert!(matches!(r, Err(ConfigurationError::UnknownKey)));
    // The palette is untouched by the failed write.
    assert_eq!(p.get_value(&"A".to_string()).unwrap(), false);
}

#[test]
fn palette_starts_released_and_overwrites() {
    let mut p = ControlPalette::new(keys(&["W", "A"])).unwrap();
    assert_eq!(p.get_value(&"W".to_string()).unwrap(), false);
    p.set_value(&"W".to_string(), true).unwrap();
    assert_eq!(p.get_value(&"W".to_string()).unwrap(), true);
    assert_eq!(p.get_value(&"A".to_string()).unwrap(), false);
    p.set_value(&"W".to_string(), false).unwrap();
    assert_eq!(p.get_value(&"W".to_string()).unwrap(), false);
}

#[test]
fn palette_get_value_unknown_key() {
    let p = ControlPalette::new(keys(&["A"])).unwrap();
    let r = p.get_value(&"W".to_string());
    assert!(matches!(r, Err(ConfigurationError::UnknownKey)));
}

#[test]
fn palette_reads_in_query_order() {
    let mut p = ControlPalette::new(keys(&["W", "A", "S"])).unwrap();
    p.set_value(&"A".to_string(), true).unwrap();
    let values = p.get_values(keys(&["S", "A"])).unwrap();
    assert_eq!(values, vec![false, true]);
}

#[test]
fn palette_get_values_errors() {
    let p = ControlPalette::new(keys(&["W", "A"])).unwrap();
    assert!(matches!(
        p.get_values(keys(&["W", "W"])),
        Err(ConfigurationError::DuplicateKey)
    ));
    assert!(matches!(
        p.get_values(keys(&["W", "S"])),
        Err(ConfigurationError::UnknownKey)
    ));
}

#[test]
fn palette_writes_by_key() {
    let mut p = ControlPalette::new(keys(&["W", "A", "S"])).unwrap();
    p.set_values(keys(&["S", "W"]), vec![true, false]).unwrap();
    assert_eq!(p.get_value(&"S".to_string()).unwrap(), true);
    assert_eq!(p.get_value(&"W".to_string()).unwrap(), false);
    assert_eq!(p.get_value(&"A".to_string()).unwrap(), false);
}

#[test]
fn palette_set_values_errors() {
    let mut p = ControlPalette::new(keys(&["W", "A"])).unwrap();
    assert!(matches!(
        p.set_values(keys(&["W"]), vec![true, false]),
        Err(ConfigurationError::LengthMismatch)
    ));
    assert!(matches!(
        p.set_values(keys(&["W", "W"]), vec![true, true]),
        Err(ConfigurationError::DuplicateKey)
    ));
    assert!(matches!(
        p.set_values(keys(&["W", "S"]), vec![true, true]),
        Err(ConfigurationError::UnknownKey)
    ));
    // A failed write leaves every flag as it was.
    assert_eq!(p.get_value(&"W".to_string()).unwrap(), false);
    assert_eq!(p.get_value(&"A".to_string()).unwrap(), false);
}

#[test]
fn allocation_splits_axes() {
    let c = allocate(2_000_000, 1_000_000, 3_000_000);
    assert_eq!(c.right, 1_000_000);
    assert_eq!(c.left, 3_000_000);
    assert_eq!(c.bottom_right, 3_000_000);
    assert_eq!(c.bottom_left, 3_000_000);
}

#[test]
fn allocation_is_deterministic() {
    let a = allocate(7, -3, 11);
    let b = allocate(7, -3, 11);
    assert_eq!(a, b);
    assert_eq!(
        a,
        ThrustCommand { right: 10, left: 4, bottom_right: 11, bottom_left: 11 }
    );
}

fn controller_keys() -> Vec<String> {
    keys(&["W", "A", "S", "D", "CTRL", "SPACE"])
}

#[test]
fn controller_rejects_duplicate_keys() {
    let r = AirshipController::new(keys(&["W", "W", "S", "D", "CTRL", "SPACE"]), 20_000, 0, 0, 0);
    assert!(matches!(r, Err(ConfigurationError::DuplicateKey)));
}

#[test]
fn controller_poll_unknown_key() {
    let mut c = AirshipController::new(controller_keys(), 20_000, 0, 0, 0).unwrap();
    let r = c.poll(&"Q".to_string(), true);
    assert!(matches!(r, Err(ConfigurationError::UnknownKey)));
}

#[test]
fn throttle_integrates_held_forward_key() {
    let mut c = AirshipController::new(controller_keys(), 20_000, 0, 0, 0).unwrap();
    c.poll(&"W".to_string(), true).unwrap();
    for _ in 0..5 {
        c.update();
    }
    // Five ticks at rate 0.02 accumulate 0.10 on the forward axis, with the
    // calibrated sign: forward throttle moves by back minus forward key.
    assert_eq!(c.forward_throttle(), -100_000);
    assert_eq!(c.turn_throttle(), 0);
    assert_eq!(c.vertical_throttle(), 0);
}

#[test]
fn throttle_holds_after_release() {
    let mut c = AirshipController::new(controller_keys(), 20_000, 0, 0, 0).unwrap();
    c.poll(&"W".to_string(), true).unwrap();
    for _ in 0..5 {
        c.update();
    }
    c.poll(&"W".to_string(), false).unwrap();
    for _ in 0..3 {
        c.update();
    }
    // No decay: the integrator keeps its value once the key is released.
    assert_eq!(c.forward_throttle(), -100_000);
}

#[test]
fn opposing_keys_cancel() {
    let mut c = AirshipController::new(controller_keys(), 20_000, 0, 0, 0).unwrap();
    c.poll(&"W".to_string(), true).unwrap();
    c.poll(&"S".to_string(), true).unwrap();
    c.update();
    assert_eq!(c.forward_throttle(), 0);
}

#[test]
fn update_allocates_from_new_throttle() {
    let mut c = AirshipController::new(controller_keys(), 20_000, 0, 0, 0).unwrap();
    c.poll(&"D".to_string(), true).unwrap();
    let cmd = c.update();
    // One tick of the right key: turn throttle moves by left minus right.
    assert_eq!(c.turn_throttle(), -20_000);
    assert_eq!(cmd.right, 20_000);
    assert_eq!(cmd.left, -20_000);
    assert_eq!(cmd.bottom_right, 0);
    assert_eq!(cmd.bottom_left, 0);
}

#[test]
fn vertical_axis_follows_up_minus_down() {
    let mut c = AirshipController::new(controller_keys(), 20_000, 0, 0, 4_000_000).unwrap();
    c.poll(&"SPACE".to_string(), true).unwrap();
    c.update();
    assert_eq!(c.vertical_throttle(), 4_020_000);
    c.poll(&"SPACE".to_string(), false).unwrap();
    c.poll(&"CTRL".to_string(), true).unwrap();
    c.update();
    c.update();
    assert_eq!(c.vertical_throttle(), 3_980_000);
}

#[test]
fn controller_reads_back_key_states() {
    let mut c = AirshipController::new(controller_keys(), 20_000, 0, 0, 0).unwrap();
    assert_eq!(c.key_count(), 6);
    assert_eq!(c.key_name(4), "CTRL");
    c.poll(&"A".to_string(), true).unwrap();
    assert_eq!(c.get_value(&"A".to_string()).unwrap(), true);
    assert_eq!(c.get_value(&"W".to_string()).unwrap(), false);
}
