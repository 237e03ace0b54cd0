use eldritchwire::FixedPointDecimal;
use eldritchwire::Operation;
use eldritchwire::commands::Command;
use eldritchwire::commands::CommandData;
use eldritchwire::commands::color_correction_commands::ColorCorrectionCommand;
use eldritchwire::commands::color_correction_commands::RedGreenBlueLuma;
use eldritchwire::commands::display_commands::DisplayCommand;
use eldritchwire::commands::lens_commands::LensCommand;
use eldritchwire::commands::parse_command;
use eldritchwire::commands::video_commands::VideoCommand;
use eldritchwire::commands::video_commands::VideoModeData;

#[test]
fn commands_parse_lens_focus_command() {
    let command_data: [u8; 6] = [0x00, 0x00, 0x80, 0x01, 0x33, 0x01];
    let command = parse_command(&command_data);
    assert_eq!(
        command,
        Ok(Command::Lens(LensCommand::Focus {
            operation: Operation::Increment,
            data: FixedPointDecimal {
                raw_val: 0x0133u16 as i16
            }
        }))
    );
}

#[test]
fn commands_parse_lens_ois_command() {
    let cmd_data = [0x00, 0x06, 0x00, 0x00, 0x001];
    let cmd = parse_command(&cmd_data);
    assert_eq!(
        cmd,
        Ok(Command::Lens(LensCommand::OpticalImageStabalization {
            operation: Operation::Assign,
            data: true
        }))
    );
}

#[test]
fn parse_set_exposure_command() {
    let cmd_data = [0x01, 0x05, 0x03, 0x00, 0x10, 0x27, 0x00, 0x00];
    let cmd = parse_command(&cmd_data);
    assert_eq!(
        cmd,
        Ok(Command::Video(VideoCommand::ExposureUS {
            operation: Operation::Assign,
            data: 10000
        }))
    );
}

#[test]
fn parse_add_15_percent_zebra() {
    let cmd_data = [0x04, 0x02, 0x80, 0x01, 0x33, 0x01];
    let cmd = parse_command(&cmd_data);
    assert_eq!(
        cmd,
        Ok(Command::Display(DisplayCommand::ZebraLevel {
            operation: Operation::Increment,
            data: FixedPointDecimal::from_data(&[0x33, 0x01])
        }))
    );
}

#[test]
fn parse_video_mode_command() {
    let cmd_data = [0x01, 0x00, 0x01, 0x00, 0x18, 0x01, 0x03, 0x00, 0x00];
    let cmd = parse_command(&cmd_data);
    assert_eq!(
        cmd,
        Ok(Command::Video(VideoCommand::VideoMode {
            operation: Operation::Assign,
            data: VideoModeData {
                frame_rate: 24,
                m_rate: 1,
                dimensions: 3,
                interlaced: 0,
                color_space: 0,
            }
        },))
    );
}

#[test]
fn parse_subtract_gamma() {
    let cmd_data = [
        0x08, 0x01, 0x80, 0x01, 0x00, 0x00, 0x9a, 0xfd, 0x9a, 0xfd, 0x00, 0x00,
    ];
    let cmd = parse_command(&cmd_data);
    assert_eq!(
        cmd,
        Ok(Command::ColorCorrection(
            ColorCorrectionCommand::GammaAdjust {
                operation: Operation::Increment,
                data: RedGreenBlueLuma {
                    red: FixedPointDecimal { raw_val: 0x00 },
                    green: FixedPointDecimal {
                        raw_val: 0xfd9au16 as i16
                    },
                    blue: FixedPointDecimal {
                        raw_val: 0xfd9au16 as i16
                    },
                    luma: FixedPointDecimal { raw_val: 0x00 },
                }
            }
        ))
    );
}

#[test]
fn commands_parse_command_data_success() {
    let cmd_data = [0x00, 0x06, 0x00, 0x00, 0x001];
    if let Ok(cmd_data) = CommandData::new(&cmd_data) {
        assert_eq!(
            cmd_data,
            CommandData {
                bytes: &[0x00, 0x06, 0x00, 0x00, 0x001]
            }
        );
        assert_eq!(0x00, cmd_data.category());
    } else {
        panic!();
    }
}

#[test]
fn commands_parse_command_data_success_longer_data() {
    let cmd_data: [u8; 6] = [0x00, 0x00, 0x80, 0x01, 0x9a, 0xfd];
    if let Ok(cmd_data) = CommandData::new(&cmd_data) {
        assert_eq!(
            cmd_data,
            CommandData {
                bytes: &[0x00, 0x00, 0x80, 0x01, 0x9a, 0xfd],
            }
        );
    } else {
        panic!();
    }
}

#[test]
fn packet_command() {
    let cmd_data: [u8; 6] = [0x00, 0x02, 0x80, 0x00, 0x8D, 0x1C];
    if let Ok(cmd_data) = parse_command(&cmd_data) {
        assert_eq!(
            cmd_data,
            Command::Lens(LensCommand::ApatureFStop {
                operation: Operation::Assign,
                data: FixedPointDecimal {
                    raw_val: 0x1c8d_u16 as i16
                }
            })
        );
    } else {
        panic!();
    }
    assert!(true);
}

#[test]
fn bug_nd_filter_stop_command() {
    let cmd_data: [u8; 6] = [0x01, 0x10, 0x80, 0x00, 0x00, 0x00];
    if let Ok(cmd) = parse_command(&cmd_data) {
        assert_eq!(cmd, Command::Video(VideoCommand::NDFilterStop));
    } else {
        panic!();
    }
}
