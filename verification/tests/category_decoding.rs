use eldritchwire::FixedPointDecimal;
use eldritchwire::Operation;
use eldritchwire::commands::Command;
use eldritchwire::commands::CommandData;
use eldritchwire::commands::audio_commands;
use eldritchwire::commands::audio_commands::AudioCommand;
use eldritchwire::commands::audio_commands::InputLevelsData;
use eldritchwire::commands::color_correction_commands;
use eldritchwire::commands::color_correction_commands::ColorCorrectionCommand;
use eldritchwire::commands::color_correction_commands::ContrastAdjustData;
use eldritchwire::commands::configuration_commands;
use eldritchwire::commands::configuration_commands::ConfigurationCommand;
use eldritchwire::commands::configuration_commands::LocationData;
use eldritchwire::commands::configuration_commands::RealTimeClockData;
use eldritchwire::commands::display_commands;
use eldritchwire::commands::display_commands::DisplayCommand;
use eldritchwire::commands::display_commands::FocusAssistData;
use eldritchwire::commands::media_commands;
use eldritchwire::commands::media_commands::CodecData;
use eldritchwire::commands::media_commands::MediaCommand;
use eldritchwire::commands::media_commands::TransportModeData;
use eldritchwire::commands::output_commands;
use eldritchwire::commands::output_commands::OutputCommand;
use eldritchwire::commands::output_commands::OverlaysData;
use eldritchwire::commands::parse_command;
use eldritchwire::commands::ptz_control_commands;
use eldritchwire::commands::ptz_control_commands::MemoryPresetData;
use eldritchwire::commands::ptz_control_commands::PanTiltVelocityData;
use eldritchwire::commands::ptz_control_commands::PtzControlCommand;
use eldritchwire::commands::reference_commands;
use eldritchwire::commands::reference_commands::ReferenceCommand;
use eldritchwire::commands::tally_commands;
use eldritchwire::commands::tally_commands::TallyCommand;
use eldritchwire::commands::video_commands;
use eldritchwire::commands::video_commands::DisplayLUTData;
use eldritchwire::commands::video_commands::ManualWhiteBalanceData;
use eldritchwire::commands::video_commands::RecordingFormatData;
use eldritchwire::commands::video_commands::VideoCommand;
use eldritchwire::error::EldritchError;

fn cmd(bytes: &[u8]) -> CommandData<'_> {
    CommandData::new(bytes).expect("record holds the four mandatory bytes")
}

#[test]
fn audio_phantom_power_on() {
    let bytes = [0x02, 0x06, 0x00, 0x00, 0x01];
    let command = audio_commands::parse_command(cmd(&bytes));
    assert_eq!(
        command,
        Ok(AudioCommand::PhantomPower {
            operation: Operation::Assign,
            data: true
        })
    );
}

#[test]
fn audio_boolean_rejects_nonzero_operation() {
    let bytes = [0x02, 0x06, 0x00, 0x01, 0x01];
    let command = audio_commands::parse_command(cmd(&bytes));
    assert_eq!(
        command,
        Err(EldritchError::InvalidCommandData {
            message: String::from("Invalid operation for command"),
            data: vec![0x02, 0x06, 0x00, 0x01, 0x01],
        })
    );
}

#[test]
fn lens_boolean_rejects_nonzero_operation() {
    let bytes = [0x00, 0x06, 0x00, 0x02, 0x01];
    let command = parse_command(&bytes);
    assert_eq!(
        command,
        Err(EldritchError::InvalidCommandData {
            message: String::from("Invalid operation for command"),
            data: vec![0x00, 0x06, 0x00, 0x02, 0x01],
        })
    );
}

#[test]
fn audio_mic_level_at_boundaries() {
    let zero = [0x02, 0x00, 0x80, 0x00, 0x00, 0x00];
    assert_eq!(
        audio_commands::parse_command(cmd(&zero)),
        Ok(AudioCommand::MicLevel {
            operation: Operation::Assign,
            data: FixedPointDecimal { raw_val: 0 }
        })
    );
    // Raw 2048 is exactly the real value 1.0.
    let one = [0x02, 0x00, 0x80, 0x00, 0x00, 0x08];
    assert_eq!(
        audio_commands::parse_command(cmd(&one)),
        Ok(AudioCommand::MicLevel {
            operation: Operation::Assign,
            data: FixedPointDecimal { raw_val: 2048 }
        })
    );
    // Raw 2049 lies just above 1.0.
    let above = [0x02, 0x00, 0x80, 0x00, 0x01, 0x08];
    assert_eq!(
        audio_commands::parse_command(cmd(&above)),
        Err(EldritchError::DataOutOfBounds)
    );
}

#[test]
fn audio_input_levels() {
    let bytes = [0x02, 0x05, 0x80, 0x00, 0x00, 0x04, 0x00, 0x08];
    assert_eq!(
        audio_commands::parse_command(cmd(&bytes)),
        Ok(AudioCommand::InputLevels {
            operation: Operation::Assign,
            data: InputLevelsData {
                channel_one: FixedPointDecimal { raw_val: 0x0400 },
                channel_two: FixedPointDecimal { raw_val: 0x0800 },
            }
        })
    );
}

#[test]
fn audio_input_type_bounds() {
    let three = [0x02, 0x04, 0x01, 0x00, 0x03];
    assert_eq!(
        audio_commands::parse_command(cmd(&three)),
        Ok(AudioCommand::InputType {
            operation: Operation::Assign,
            data: 3
        })
    );
    let four = [0x02, 0x04, 0x01, 0x00, 0x04];
    assert_eq!(
        audio_commands::parse_command(cmd(&four)),
        Err(EldritchError::DataOutOfBounds)
    );
}

#[test]
fn video_gain_legacy_boundaries() {
    let low = [0x01, 0x01, 0x01, 0x00, 0x01];
    assert_eq!(
        video_commands::parse_command(cmd(&low)),
        Ok(VideoCommand::GainUpToCamera49 {
            operation: Operation::Assign,
            data: 1
        })
    );
    let high = [0x01, 0x01, 0x01, 0x00, 0x10];
    assert_eq!(
        video_commands::parse_command(cmd(&high)),
        Ok(VideoCommand::GainUpToCamera49 {
            operation: Operation::Assign,
            data: 16
        })
    );
    let below = [0x01, 0x01, 0x01, 0x00, 0x00];
    assert_eq!(
        video_commands::parse_command(cmd(&below)),
        Err(EldritchError::DataOutOfBounds)
    );
    let above = [0x01, 0x01, 0x01, 0x00, 0x11];
    assert_eq!(
        video_commands::parse_command(cmd(&above)),
        Err(EldritchError::DataOutOfBounds)
    );
}

#[test]
fn video_gain_negative_value() {
    let bytes = [0x01, 0x0d, 0x01, 0x00, 0xff];
    assert_eq!(
        video_commands::parse_command(cmd(&bytes)),
        Ok(VideoCommand::Gain {
            operation: Operation::Assign,
            data: -1
        })
    );
}

#[test]
fn video_manual_white_balance() {
    let bytes = [0x01, 0x02, 0x02, 0x00, 0x04, 0x10, 0xfc, 0xff];
    assert_eq!(
        video_commands::parse_command(cmd(&bytes)),
        Ok(VideoCommand::ManualWhiteBalance {
            operation: Operation::Assign,
            data: ManualWhiteBalanceData {
                color_temp: 0x1004,
                tint: -4
            }
        })
    );
}

#[test]
fn video_recording_format() {
    let bytes = [
        0x01, 0x09, 0x02, 0x00, 0x18, 0x00, 0x18, 0x00, 0x80, 0x07, 0x38, 0x04, 0x00, 0x00,
    ];
    assert_eq!(
        video_commands::parse_command(cmd(&bytes)),
        Ok(VideoCommand::RecordingFormat {
            operation: Operation::Assign,
            data: RecordingFormatData {
                file_frame_rate: 24,
                sensor_frame_rate: 24,
                frame_width: 1920,
                frame_height: 1080,
                flags: 0
            }
        })
    );
}

#[test]
fn video_display_lut() {
    let bytes = [0x01, 0x0f, 0x01, 0x00, 0x01, 0x01];
    assert_eq!(
        video_commands::parse_command(cmd(&bytes)),
        Ok(VideoCommand::DisplayLUT {
            operation: Operation::Assign,
            data: DisplayLUTData {
                selected: 1,
                enabled: 1
            }
        })
    );
}

#[test]
fn video_exposure_wrong_payload_length() {
    let bytes = [0x01, 0x05, 0x03, 0x00, 0x10, 0x27];
    assert_eq!(
        video_commands::parse_command(cmd(&bytes)),
        Err(EldritchError::InvalidCommandData {
            message: String::from("Invalid data length for command"),
            data: vec![0x01, 0x05, 0x03, 0x00, 0x10, 0x27],
        })
    );
}

#[test]
fn video_iso_negative_out_of_bounds() {
    let bytes = [0x01, 0x0e, 0x03, 0x00, 0xff, 0xff, 0xff, 0xff];
    assert_eq!(
        video_commands::parse_command(cmd(&bytes)),
        Err(EldritchError::DataOutOfBounds)
    );
}

#[test]
fn output_overlay_enabled_full_range() {
    let bytes = [0x03, 0x00, 0x02, 0x00, 0x00, 0x80];
    assert_eq!(
        output_commands::parse_command(cmd(&bytes)),
        Ok(OutputCommand::OverlayEnabled {
            operation: Operation::Assign,
            data: i16::MIN
        })
    );
}

#[test]
fn output_frame_guides_opacity_boundaries() {
    // Raw 205 is the least raw value whose real value reaches 0.1.
    let low = [0x03, 0x02, 0x80, 0x00, 0xcd, 0x00];
    assert_eq!(
        output_commands::parse_command(cmd(&low)),
        Ok(OutputCommand::FrameGuidesOpacity {
            operation: Operation::Assign,
            data: FixedPointDecimal { raw_val: 205 }
        })
    );
    let below = [0x03, 0x02, 0x80, 0x00, 0xcc, 0x00];
    assert_eq!(
        output_commands::parse_command(cmd(&below)),
        Err(EldritchError::DataOutOfBounds)
    );
}

#[test]
fn output_overlays_composite() {
    let bytes = [0x03, 0x03, 0x01, 0x00, 0x02, 0x32, 0x5a, 0x01];
    assert_eq!(
        output_commands::parse_command(cmd(&bytes)),
        Ok(OutputCommand::Overlays {
            operation: Operation::Assign,
            data: OverlaysData {
                frame_guide_style: 2,
                frame_guide_opacity: 50,
                safe_area_percentage: 90,
                grid_style: 1
            }
        })
    );
}

#[test]
fn display_focus_assist() {
    let bytes = [0x04, 0x05, 0x01, 0x00, 0x01, 0x02];
    assert_eq!(
        display_commands::parse_command(cmd(&bytes)),
        Ok(DisplayCommand::FocusAssist {
            operation: Operation::Assign,
            data: FocusAssistData {
                focus_assist_method: 1,
                focus_line_color: 2
            }
        })
    );
}

#[test]
fn display_color_bars_bounds() {
    let edge = [0x04, 0x04, 0x01, 0x00, 0x1e];
    assert_eq!(
        display_commands::parse_command(cmd(&edge)),
        Ok(DisplayCommand::ColorBarsDisplayTime {
            operation: Operation::Assign,
            data: 30
        })
    );
    let above = [0x04, 0x04, 0x01, 0x00, 0x1f];
    assert_eq!(
        display_commands::parse_command(cmd(&above)),
        Err(EldritchError::DataOutOfBounds)
    );
}

#[test]
fn tally_brightness_variants() {
    let front = [0x05, 0x01, 0x80, 0x01, 0x00, 0x04];
    assert_eq!(
        tally_commands::parse_command(cmd(&front)),
        Ok(TallyCommand::FrontTallyBrightness {
            operation: Operation::Increment,
            data: FixedPointDecimal { raw_val: 0x0400 }
        })
    );
    let rear = [0x05, 0x02, 0x80, 0x00, 0x00, 0x08];
    assert_eq!(
        tally_commands::parse_command(cmd(&rear)),
        Ok(TallyCommand::RearTallyBrightness {
            operation: Operation::Assign,
            data: FixedPointDecimal { raw_val: 0x0800 }
        })
    );
    let unknown = [0x05, 0x03, 0x80, 0x00, 0x00, 0x08];
    assert_eq!(
        tally_commands::parse_command(cmd(&unknown)),
        Err(EldritchError::InvalidCommandData {
            message: String::from("Unknown parameter for command group"),
            data: vec![0x05, 0x03, 0x80, 0x00, 0x00, 0x08],
        })
    );
}

#[test]
fn reference_source_and_offset() {
    let source = [0x06, 0x00, 0x01, 0x00, 0x01];
    assert_eq!(
        reference_commands::parse_command(cmd(&source)),
        Ok(ReferenceCommand::Source {
            operation: Operation::Assign,
            data: 1
        })
    );
    let offset = [0x06, 0x01, 0x03, 0x00, 0x9c, 0xff, 0xff, 0xff];
    assert_eq!(
        reference_commands::parse_command(cmd(&offset)),
        Ok(ReferenceCommand::Offset {
            operation: Operation::Assign,
            data: -100
        })
    );
}

#[test]
fn configuration_real_time_clock() {
    let bytes = [
        0x07, 0x00, 0x03, 0x00, 0x40, 0xe2, 0x01, 0x00, 0x0f, 0x27, 0x34, 0x01,
    ];
    assert_eq!(
        configuration_commands::parse_command(cmd(&bytes)),
        Ok(ConfigurationCommand::RealTimeClock {
            operation: Operation::Assign,
            data: RealTimeClockData {
                time: 0x0001e240,
                date: 0x0134270f
            }
        })
    );
}

#[test]
fn configuration_system_language() {
    let bytes = [0x07, 0x01, 0x05, 0x00, 0x65, 0x6e];
    assert_eq!(
        configuration_commands::parse_command(cmd(&bytes)),
        Ok(ConfigurationCommand::SystemLanguage {
            operation: Operation::Assign,
            data: String::from("en")
        })
    );
}

#[test]
fn configuration_system_language_bad_utf8() {
    let bytes = [0x07, 0x01, 0x05, 0x00, 0xff];
    assert_eq!(
        configuration_commands::parse_command(cmd(&bytes)),
        Err(EldritchError::InvalidCommandData {
            message: String::from("Invalid string data for command"),
            data: vec![0x07, 0x01, 0x05, 0x00, 0xff],
        })
    );
}

#[test]
fn configuration_time_zone_and_location() {
    let zone = [0x07, 0x03, 0x03, 0x00, 0x3c, 0x00, 0x00, 0x00];
    assert_eq!(
        configuration_commands::parse_command(cmd(&zone)),
        Ok(ConfigurationCommand::TimeZone {
            operation: Operation::Assign,
            data: 60
        })
    );
    let location = [
        0x07, 0x04, 0x04, 0x00, 0x01, 0x00, 0x00, 0x00, 0x00, 0x00, 0x00, 0x00, 0xff, 0xff, 0xff,
        0xff, 0xff, 0xff, 0xff, 0xff,
    ];
    assert_eq!(
        configuration_commands::parse_command(cmd(&location)),
        Ok(ConfigurationCommand::Location {
            operation: Operation::Assign,
            data: LocationData {
                laditude: 1,
                longitude: -1
            }
        })
    );
}

#[test]
fn color_correction_contrast_and_luma_mix() {
    let contrast = [0x08, 0x04, 0x80, 0x00, 0x00, 0x04, 0x00, 0x08];
    assert_eq!(
        color_correction_commands::parse_command(cmd(&contrast)),
        Ok(ColorCorrectionCommand::ContrastAdjust {
            operation: Operation::Assign,
            data: ContrastAdjustData {
                pivot: FixedPointDecimal { raw_val: 0x0400 },
                adj: FixedPointDecimal { raw_val: 0x0800 },
            }
        })
    );
    let luma_above = [0x08, 0x05, 0x80, 0x00, 0x01, 0x08];
    assert_eq!(
        color_correction_commands::parse_command(cmd(&luma_above)),
        Err(EldritchError::DataOutOfBounds)
    );
    let reset = [0x08, 0x07, 0x00, 0x00];
    assert_eq!(
        color_correction_commands::parse_command(cmd(&reset)),
        Ok(ColorCorrectionCommand::CorrectionResetDefault)
    );
}

#[test]
fn media_codec_and_transport_mode() {
    let codec = [0x0a, 0x00, 0x01, 0x00, 0x03, 0x02];
    assert_eq!(
        media_commands::parse_command(cmd(&codec)),
        Ok(MediaCommand::Codec {
            operation: Operation::Assign,
            data: CodecData {
                basic_codec: 3,
                codec_varient: 2
            }
        })
    );
    let transport = [0x0a, 0x01, 0x01, 0x00, 0x02, 0x01, 0x00, 0x01, 0x02];
    assert_eq!(
        media_commands::parse_command(cmd(&transport)),
        Ok(MediaCommand::TransportMode {
            operation: Operation::Assign,
            data: TransportModeData {
                mode: 2,
                speed: 1,
                flags: 0,
                slot_one_storage_medium: 1,
                slot_two_storage_medium: 2
            }
        })
    );
}

#[test]
fn ptz_velocity_and_preset() {
    let velocity = [0x0b, 0x00, 0x80, 0x00, 0x00, 0x04, 0x00, 0xfc];
    assert_eq!(
        ptz_control_commands::parse_command(cmd(&velocity)),
        Ok(PtzControlCommand::PanTiltVelocity {
            operation: Operation::Assign,
            data: PanTiltVelocityData {
                pan_velocity: FixedPointDecimal { raw_val: 0x0400 },
                tilt_velocity: FixedPointDecimal { raw_val: 0xfc00u16 as i16 },
            }
        })
    );
    let preset = [0x0b, 0x01, 0x01, 0x00, 0x00, 0x05];
    assert_eq!(
        ptz_control_commands::parse_command(cmd(&preset)),
        Ok(PtzControlCommand::MemoryPreset {
            operation: Operation::Assign,
            data: MemoryPresetData {
                preset_command: 0,
                preset_slot: 5
            }
        })
    );
}

#[test]
fn unknown_category_rejected() {
    let bytes = [0x09, 0x00, 0x01, 0x00, 0x00];
    assert_eq!(
        parse_command(&bytes),
        Err(EldritchError::InvalidCommandData {
            message: String::from("No matching command group"),
            data: vec![0x09, 0x00, 0x01, 0x00, 0x00],
        })
    );
}

#[test]
fn record_too_short_rejected() {
    let bytes = [0x00, 0x00, 0x80];
    assert_eq!(
        parse_command(&bytes),
        Err(EldritchError::InvalidCommandData {
            message: String::from("Package to short"),
            data: vec![0x00, 0x00, 0x80],
        })
    );
}

#[test]
fn fpd_round_trips_raw_value() {
    let positive = [0x33, 0x01];
    assert_eq!(
        FixedPointDecimal::from_data(&positive).raw_val,
        i16::from_le_bytes(positive)
    );
    let negative = [0x9a, 0xfd];
    assert_eq!(
        FixedPointDecimal::from_data(&negative).raw_val,
        i16::from_le_bytes(negative)
    );
    let extremes = [0xff, 0x7f];
    assert_eq!(
        FixedPointDecimal::from_data(&extremes).raw_val,
        i16::from_le_bytes(extremes)
    );
    let minimum = [0x00, 0x80];
    assert_eq!(
        FixedPointDecimal::from_data(&minimum).raw_val,
        i16::from_le_bytes(minimum)
    );
}

#[test]
fn command_data_accessors_and_raw() {
    let bytes = [0x01, 0x05, 0x03, 0x00, 0x10, 0x27, 0x00, 0x00];
    let view = cmd(&bytes);
    assert_eq!(0x01, view.category());
    assert_eq!(0x05, view.parameter());
    assert_eq!(0x03, view.data_type());
    assert_eq!(0x00, view.operation());
    assert_eq!(&bytes[4..], view.data_buff());
    assert_eq!(&bytes[..], view.raw());
}

#[test]
fn wrong_data_type_carries_record_bytes() {
    // A display brightness record declared fixed-point but sent as int8.
    let bytes = [0x04, 0x00, 0x01, 0x00, 0x10];
    assert_eq!(
        parse_command(&bytes),
        Err(EldritchError::InvalidCommandData {
            message: String::from("Invalid Data type for command"),
            data: vec![0x04, 0x00, 0x01, 0x00, 0x10],
        })
    );
}
