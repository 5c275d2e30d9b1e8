use ninebot::error::CoreError;
use ninebot::frame::{Attribute, Direction, ReadWrite, ScooterCommand};

#[test]
fn test_light_on_command_bytes() {
    let cmd = ScooterCommand {
        direction: Direction::MasterToMotor,
        read_write: ReadWrite::Write,
        attribute: Attribute::TailLight,
        payload: vec![0x02, 0x00],
    };

    let bytes = cmd.as_bytes();
    assert_eq!(bytes[0], 0x04);
    assert_eq!(bytes[1], 0x20);
    assert_eq!(bytes[2], 0x03);
    assert_eq!(bytes[3], 0x7D);
    assert_eq!(bytes[4], 0x02);
    assert_eq!(bytes[5], 0x00);
}

#[test]
fn test_light_off_command_bytes() {
    let cmd = ScooterCommand {
        direction: Direction::MasterToMotor,
        read_write: ReadWrite::Write,
        attribute: Attribute::TailLight,
        payload: vec![0x00, 0x00],
    };

    let bytes = cmd.as_bytes();
    assert_eq!(bytes[0], 0x04);
    assert_eq!(bytes[1], 0x20);
    assert_eq!(bytes[2], 0x03);
    assert_eq!(bytes[3], 0x7D);
    assert_eq!(bytes[4], 0x00);
    assert_eq!(bytes[5], 0x00);
}

#[test]
fn test_lock_command_bytes() {
    let cmd = ScooterCommand {
        direction: Direction::MasterToMotor,
        read_write: ReadWrite::Write,
        attribute: Attribute::Lock,
        payload: vec![0x01, 0x00],
    };

    let bytes = cmd.as_bytes();
    assert_eq!(bytes[0], 0x04);
    assert_eq!(bytes[1], 0x20);
    assert_eq!(bytes[2], 0x03);
    assert_eq!(bytes[3], 0x70);
    assert_eq!(bytes[4], 0x01);
    assert_eq!(bytes[5], 0x00);
}

#[test]
fn test_unlock_command_bytes() {
    let cmd = ScooterCommand {
        direction: Direction::MasterToMotor,
        read_write: ReadWrite::Write,
        attribute: Attribute::Unlock,
        payload: vec![0x01, 0x00],
    };

    let bytes = cmd.as_bytes();
    assert_eq!(bytes[0], 0x04);
    assert_eq!(bytes[1], 0x20);
    assert_eq!(bytes[2], 0x03);
    assert_eq!(bytes[3], 0x71);
    assert_eq!(bytes[4], 0x01);
    assert_eq!(bytes[5], 0x00);
}

#[test]
fn lock_frame_is_known_vector() {
    let cmd = ScooterCommand {
        direction: Direction::MasterToMotor,
        read_write: ReadWrite::Write,
        attribute: Attribute::Lock,
        payload: vec![0x01, 0x00],
    };
    assert_eq!(cmd.as_bytes(), vec![0x04, 0x20, 0x03, 0x70, 0x01, 0x00]);
}

#[test]
fn decode_reads_back_encoded_frames() {
    let frames = vec![
        ScooterCommand {
            direction: Direction::MasterToMotor,
            read_write: ReadWrite::Write,
            attribute: Attribute::TailLight,
            payload: vec![0x02, 0x00],
        },
        ScooterCommand {
            direction: Direction::MotorToMaster,
            read_write: ReadWrite::Read,
            attribute: Attribute::Other(0x1A),
            payload: vec![],
        },
        ScooterCommand {
            direction: Direction::MasterToMotor,
            read_write: ReadWrite::Read,
            attribute: Attribute::Unlock,
            payload: vec![0xAB; 253],
        },
    ];
    for f in frames {
        let bytes = f.as_bytes();
        assert_eq!(bytes.len(), f.payload.len() + 4);
        assert_eq!(ScooterCommand::decode(&bytes), Ok(f));
    }
}

#[test]
fn decode_names_registers() {
    let cmd = ScooterCommand::decode(&[0x02, 0x20, 0x01, 0x7D]).unwrap();
    assert_eq!(cmd.attribute, Attribute::TailLight);
    assert_eq!(cmd.read_write, ReadWrite::Read);
    assert!(cmd.payload.is_empty());
}

#[test]
fn decode_refuses_short_buffer() {
    assert_eq!(ScooterCommand::decode(&[0x02, 0x20, 0x03]), Err(CoreError::MalformedFrame));
    assert_eq!(ScooterCommand::decode(&[]), Err(CoreError::MalformedFrame));
}

#[test]
fn decode_refuses_wrong_length() {
    assert_eq!(
        ScooterCommand::decode(&[0x05, 0x20, 0x03, 0x70, 0x01, 0x00]),
        Err(CoreError::MalformedFrame)
    );
    assert_eq!(
        ScooterCommand::decode(&[0x03, 0x20, 0x03, 0x70, 0x01, 0x00]),
        Err(CoreError::MalformedFrame)
    );
}

#[test]
fn decode_refuses_unknown_codes() {
    assert_eq!(
        ScooterCommand::decode(&[0x04, 0x21, 0x03, 0x70, 0x01, 0x00]),
        Err(CoreError::MalformedFrame)
    );
    assert_eq!(
        ScooterCommand::decode(&[0x04, 0x20, 0x02, 0x70, 0x01, 0x00]),
        Err(CoreError::MalformedFrame)
    );
}
