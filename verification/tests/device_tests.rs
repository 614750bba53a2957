use pros_async::adi::{AdiAnalogIn, AdiAnalogOut, AdiError, AdiPotentiometer, AdiSlot};
use pros_async::error::{
    port_error_from_errno, PortError, ERRNO_EACCES, ERRNO_EADDRINUSE, ERRNO_EDOM, ERRNO_ENODEV,
    ERRNO_ENXIO,
};
use pros_async::motor::{
    brake_mode_from_code, gearset_from_code, motor_faults_from_raw, motor_status_from_raw,
    BrakeMode, Gearset, MotorError, MotorFaults, MotorStatus, FAULT_DRV_OVER_CURRENT,
    FAULT_MOTOR_OVER_TEMP, FLAG_BUSY, FLAG_ZERO_POSITION, FLAG_ZERO_VELOCITY,
};
use pros_async::vision::{
    vision_error_from_errno, vision_object_from_raw, vision_objects_from_records, LedMode, Rgb,
    VisionError, VisionObject, VisionOriginPoint, VisionRecord, VisionSensor, WhiteBalance,
    VISION_OBJECT_ERR_SIG,
};

const PROS_ERR: i32 = i32::MAX;

#[test]
fn port_errors_map_from_their_errno_codes() {
    assert_eq!(port_error_from_errno(ERRNO_ENXIO), Some(PortError::PortOutOfRange));
    assert_eq!(port_error_from_errno(ERRNO_ENODEV), Some(PortError::PortCannotBeConfigured));
    assert_eq!(port_error_from_errno(ERRNO_EADDRINUSE), Some(PortError::AlreadyInUse));
    assert_eq!(port_error_from_errno(1), None);
}

#[test]
fn motor_fault_bits_decode() {
    let faults = MotorFaults(FAULT_MOTOR_OVER_TEMP | FAULT_DRV_OVER_CURRENT);
    assert!(faults.is_over_temperature());
    assert!(faults.is_driver_over_current());
    assert!(!faults.is_driver_fault());
    assert!(!faults.is_over_current());
    assert!(!MotorFaults(0).is_over_temperature());
}

#[test]
fn motor_status_bits_decode() {
    let status = MotorStatus(FLAG_ZERO_VELOCITY);
    assert!(status.is_stopped());
    assert!(!status.is_zeroed());
    assert!(MotorStatus(FLAG_ZERO_POSITION).is_zeroed());
}

#[test]
fn motor_status_word_is_checked_before_use() {
    assert_eq!(motor_status_from_raw(FLAG_ZERO_VELOCITY, 0), Ok(MotorStatus(FLAG_ZERO_VELOCITY)));
    assert_eq!(motor_status_from_raw(FLAG_BUSY | FLAG_ZERO_POSITION, 0), Err(MotorError::Busy));
    assert_eq!(
        motor_status_from_raw(PROS_ERR as u32, ERRNO_ENXIO),
        Err(MotorError::Port(PortError::PortOutOfRange))
    );
}

#[test]
fn motor_fault_word_is_checked_before_use() {
    assert_eq!(motor_faults_from_raw(0x05, 0), Ok(MotorFaults(0x05)));
    assert_eq!(
        motor_faults_from_raw(PROS_ERR as u32, ERRNO_ENODEV),
        Err(MotorError::Port(PortError::PortCannotBeConfigured))
    );
}

#[test]
fn vision_errors_map_from_their_errno_codes() {
    assert_eq!(vision_error_from_errno(112), Some(VisionError::ReadingFailed));
    assert_eq!(vision_error_from_errno(ERRNO_EDOM), Some(VisionError::IndexTooHigh));
    assert_eq!(vision_error_from_errno(ERRNO_EACCES), Some(VisionError::PortTaken));
    assert_eq!(
        vision_error_from_errno(ERRNO_ENXIO),
        Some(VisionError::Port(PortError::PortOutOfRange))
    );
    assert_eq!(vision_error_from_errno(1), None);
}

fn record(signature: u16, seed: i16) -> VisionRecord {
    VisionRecord {
        signature,
        top_coord: seed,
        left_coord: seed + 1,
        x_middle_coord: seed + 2,
        y_middle_coord: seed + 3,
        width: seed + 4,
        height: seed + 5,
    }
}

#[test]
fn vision_object_assembles_from_raw_fields() {
    let obj = vision_object_from_raw(record(3, 10), 0);
    assert_eq!(
        obj,
        Ok(VisionObject { top: 10, left: 11, middle_x: 12, middle_y: 13, width: 14, height: 15 })
    );
}

#[test]
fn vision_object_error_signature_surfaces_errno() {
    let obj = vision_object_from_raw(record(VISION_OBJECT_ERR_SIG, 0), ERRNO_EDOM);
    assert_eq!(obj, Err(VisionError::IndexTooHigh));
}

#[test]
fn record_conversion_keeps_order_and_drops_error_markers() {
    let records = vec![
        record(1, 10),
        record(VISION_OBJECT_ERR_SIG, 20),
        record(2, 30),
        record(VISION_OBJECT_ERR_SIG, 40),
        record(3, 50),
    ];
    let objects = vision_objects_from_records(&records);
    assert_eq!(objects.len(), 3);
    assert_eq!(objects[0].top, 10);
    assert_eq!(objects[1].top, 30);
    assert_eq!(objects[2].top, 50);
    assert!(vision_objects_from_records(&vec![]).is_empty());
}

#[test]
fn vision_sensor_keeps_its_port() {
    let sensor = VisionSensor::new(9);
    assert_eq!(sensor.port_index(), 9);
}

#[test]
fn rgb_packs_and_unpacks() {
    let c = Rgb::new(0xAA, 0xBB, 0xCC);
    assert_eq!(c.to_u32(), 0x00AABBCC);
    assert_eq!(Rgb::from_u32(0x00AABBCC), c);
    // The top byte of the word is ignored on the way in.
    assert_eq!(Rgb::from_u32(0xFFAABBCC), c);
    assert_eq!(Rgb::from_u32(Rgb::new(1, 2, 3).to_u32()), Rgb::new(1, 2, 3));
}

#[test]
fn vision_setting_words() {
    assert_eq!(VisionOriginPoint::TopLeft.code(), 0);
    assert_eq!(VisionOriginPoint::Center.code(), 1);
    assert_eq!(WhiteBalance::Auto.fixed_word(), None);
    assert_eq!(WhiteBalance::Rgb(Rgb::new(1, 0, 2)).fixed_word(), Some(0x00010002));
    assert_eq!(LedMode::Off.color_word(), None);
    assert_eq!(LedMode::On(Rgb::new(0, 1, 0)).color_word(), Some(0x00000100));
}

#[test]
fn brake_and_gearset_wire_codes_round_trip() {
    assert_eq!(BrakeMode::Coast.code(), 0);
    assert_eq!(BrakeMode::Brake.code(), 1);
    assert_eq!(BrakeMode::Hold.code(), 2);
    assert_eq!(Gearset::Red.code(), 0);
    assert_eq!(Gearset::Green.code(), 1);
    assert_eq!(Gearset::Blue.code(), 2);
    for mode in [BrakeMode::Coast, BrakeMode::Brake, BrakeMode::Hold] {
        assert_eq!(brake_mode_from_code(mode.code(), 0), Ok(mode));
    }
    for gearset in [Gearset::Red, Gearset::Green, Gearset::Blue] {
        assert_eq!(gearset_from_code(gearset.code(), 0), Ok(gearset));
    }
    assert_eq!(
        gearset_from_code(PROS_ERR, ERRNO_ENXIO),
        Err(MotorError::Port(PortError::PortOutOfRange))
    );
    assert_eq!(
        brake_mode_from_code(PROS_ERR, ERRNO_ENODEV),
        Err(MotorError::Port(PortError::PortCannotBeConfigured))
    );
}

#[test]
fn adi_slots_carry_their_port_indices() {
    assert_eq!(AdiSlot::A.index(), 1);
    assert_eq!(AdiSlot::H.index(), 8);
    assert_eq!(AdiAnalogIn::new(AdiSlot::C).port(), 3);
    assert_eq!(AdiAnalogOut::new(AdiSlot::D).port(), 4);
}

#[test]
fn potentiometer_keeps_port_and_reference() {
    let pot = AdiPotentiometer::new(AdiSlot::B, 1234);
    assert_eq!(pot.port(), 2);
    assert_eq!(pot.reference(), 1234);
    let pot: Result<AdiPotentiometer, AdiError> = AdiPotentiometer::try_new(AdiSlot::G, -1);
    let pot = pot.unwrap();
    assert_eq!(pot.port(), 7);
    assert_eq!(pot.reference(), -1);
}
