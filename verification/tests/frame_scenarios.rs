use eldritchwire::AddressedCommand;
use eldritchwire::FixedPointDecimal;
use eldritchwire::Operation;
use eldritchwire::commands::Command;
use eldritchwire::commands::configuration_commands::ConfigurationCommand;
use eldritchwire::commands::lens_commands::LensCommand;
use eldritchwire::commands::video_commands::VideoCommand;
use eldritchwire::error::EldritchError;
use eldritchwire::parse_frame_packet;
use eldritchwire::parse_packet;
use eldritchwire::verify_padding;

#[test]
fn oversized_frame_rejected() {
    let frame = vec![0u8; 256];
    assert_eq!(parse_frame_packet(frame), Err(EldritchError::PacketToLarge));
}

#[test]
fn empty_frame_decodes_to_nothing() {
    assert_eq!(parse_frame_packet(Vec::new()), Ok(Vec::new()));
    assert_eq!(parse_packet(Vec::new()), Ok(Vec::new()));
}

#[test]
fn largest_frame_decodes() {
    // 21 exposure records of 12 bytes each fill 252 of the 255 allowed
    // bytes.
    let record = [
        0x04, 0x08, 0x00, 0x00, 0x01, 0x05, 0x03, 0x00, 0x10, 0x27, 0x00, 0x00,
    ];
    let mut frame: Vec<u8> = Vec::new();
    for _ in 0..21 {
        frame.extend_from_slice(&record);
    }
    let commands = parse_frame_packet(frame).expect("a full frame of records decodes");
    assert_eq!(commands.len(), 21);
}

#[test]
fn reserved_byte_fails_frame() {
    let frame = vec![
        0x00, 0x05, 0x00, 0xFF, // Header with a nonzero reserved byte
        0x00, 0x80, 0x01, 0x9a, 0xfd, // Command
        0x00, 0x00, 0x00, // Padding
    ];
    assert_eq!(parse_frame_packet(frame), Err(EldritchError::InvalidHeader));
}

#[test]
fn focus_out_of_bounds_fails_frame() {
    // Focus value 1.1 with bounds enabled.
    let frame = vec![
        0x00, 0x06, 0x00, 0x00, // Header
        0x00, 0x00, 0x80, 0x00, 0xCC, 0x08, // Command
        0x00, 0x00, // Padding
    ];
    assert_eq!(parse_frame_packet(frame), Err(EldritchError::DataOutOfBounds));
}

#[test]
fn nonzero_padding_byte_fails_frame() {
    // A five-byte boolean record takes three padding bytes; the last one
    // is nonzero.
    let frame = vec![
        0x00, 0x05, 0x00, 0x00, // Header
        0x00, 0x06, 0x00, 0x00, 0x01, // Command
        0x00, 0x00, 0xFF, // Padding with an offender at index 2
    ];
    assert_eq!(
        parse_frame_packet(frame),
        Err(EldritchError::PaddingViolation(String::from(
            "Padding byte at index: 2 is not 0x00"
        )))
    );
}

#[test]
fn padding_message_carries_two_digit_index() {
    let mut padding = vec![0u8; 12];
    padding[10] = 0x01;
    assert_eq!(
        verify_padding(&padding, 8),
        Err(EldritchError::PaddingViolation(String::from(
            "Padding byte at index: 10 is not 0x00"
        )))
    );
}

#[test]
fn strict_mode_reports_truncated_body() {
    // The declared body runs one byte past the end of the frame.
    let frame = vec![
        0x00, 0x06, 0x00, 0x00, // Header
        0x00, 0x00, 0x80, 0x01, 0x33, // Body one byte short
    ];
    assert_eq!(
        parse_packet(frame.clone()),
        Err(EldritchError::EndOfPacket)
    );
    // The tolerant parser ends cleanly with nothing decoded.
    assert_eq!(parse_frame_packet(frame), Ok(Vec::new()));
}

#[test]
fn strict_mode_reports_truncated_padding() {
    let frame = vec![
        0x00, 0x06, 0x00, 0x00, // Header
        0x00, 0x00, 0x80, 0x01, 0x33, 0x01, // Command
        0x00, // One padding byte of two
    ];
    assert_eq!(
        parse_packet(frame.clone()),
        Err(EldritchError::EndOfPacket)
    );
    // The tolerant parser keeps the record already decoded.
    let commands = parse_frame_packet(frame).expect("trailing truncation is tolerated");
    assert_eq!(
        commands,
        vec![AddressedCommand {
            device_id: 0,
            command: Command::Lens(LensCommand::Focus {
                operation: Operation::Increment,
                data: FixedPointDecimal { raw_val: 0x0133 }
            })
        }]
    );
}

#[test]
fn strict_mode_decodes_commands_without_devices() {
    let frame = vec![
        0x00, 0x06, 0x00, 0x00, // Header
        0x00, 0x00, 0x80, 0x01, 0x33, 0x01, // Command
        0x00, 0x00, // Padding
        0x04, 0x08, 0x00, 0x00, // Header
        0x01, 0x05, 0x03, 0x00, 0x10, 0x27, 0x00, 0x00, // Command
    ];
    assert_eq!(
        parse_packet(frame),
        Ok(vec![
            Command::Lens(LensCommand::Focus {
                operation: Operation::Increment,
                data: FixedPointDecimal { raw_val: 0x0133 }
            }),
            Command::Video(VideoCommand::ExposureUS {
                operation: Operation::Assign,
                data: 10000
            }),
        ])
    );
}

#[test]
fn frame_with_string_record_decodes() {
    let frame = vec![
        0x05, 0x06, 0x00, 0x00, // Header
        0x07, 0x01, 0x05, 0x00, 0x65, 0x6e, // System language "en"
        0x00, 0x00, // Padding
    ];
    assert_eq!(
        parse_frame_packet(frame),
        Ok(vec![AddressedCommand {
            device_id: 5,
            command: Command::Configuration(ConfigurationCommand::SystemLanguage {
                operation: Operation::Assign,
                data: String::from("en")
            })
        }])
    );
}

#[test]
fn short_buffers_never_panic() {
    // Every buffer up to 16 bytes of a repeating pattern comes back as
    // some result.
    let pattern = [
        0x00, 0x06, 0x00, 0x00, 0x00, 0x00, 0x80, 0x01, 0x33, 0x01, 0x00, 0x00, 0xFF, 0x07, 0x03,
        0x09,
    ];
    for n in 0..=pattern.len() {
        let _ = parse_frame_packet(pattern[..n].to_vec());
        let _ = parse_packet(pattern[..n].to_vec());
    }
}
