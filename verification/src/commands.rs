//! Command records: the zero-copy view over one record and the dispatch
//! from its category byte to the per-group decoders.

pub mod audio_commands;
pub mod color_correction_commands;
pub mod configuration_commands;
pub mod display_commands;
pub mod lens_commands;
pub mod media_commands;
pub mod output_commands;
pub mod protocol;
pub mod ptz_control_commands;
pub mod reference_commands;
pub mod tally_commands;
pub mod video_commands;

use vstd::prelude::*;

use crate::error::DecodeFailure;
use crate::error::EldritchError;
use crate::error::failure_error;
use crate::error::matches_failure;

verus! {

/// One decoded command, tagged with its category.
#[derive(Clone, Debug, PartialEq)]
pub enum Command {
    Lens(lens_commands::LensCommand),
    Video(video_commands::VideoCommand),
    Audio(audio_commands::AudioCommand),
    Output(output_commands::OutputCommand),
    Display(display_commands::DisplayCommand),
    Tally(tally_commands::TallyCommand),
    Reference(reference_commands::ReferenceCommand),
    Configuration(configuration_commands::ConfigurationCommand),
    ColorCorrection(color_correction_commands::ColorCorrectionCommand),
    Media(media_commands::MediaCommand),
    PtzControl(ptz_control_commands::PtzControlCommand),
}

/// A window over the bytes of one command record: four mandatory bytes
/// (category, parameter, data type, operation) followed by the payload.
/// The view borrows the frame buffer; it copies nothing.
#[derive(Debug, PartialEq)]
pub struct CommandData<'a> {
    pub bytes: &'a [u8],
}

impl<'a> CommandData<'a> {
    /// A command record is well formed when it holds the four mandatory
    /// bytes.
    pub open spec fn wf(&self) -> bool {
        self.bytes@.len() >= 4
    }

    /// Wraps a record, rejecting one too short for the mandatory bytes.
    pub fn new(bytes: &'a [u8]) -> (r: Result<Self, EldritchError>)
        ensures
            bytes@.len() >= 4 ==> (r matches Ok(c) && c.bytes@ == bytes@ && c.wf()),
            bytes@.len() < 4 ==> (r matches Err(e) && matches_failure(
                e,
                DecodeFailure::TooShort,
                bytes@,
            )),
    {
        if bytes.len() < 4 {
            Err(failure_error(DecodeFailure::TooShort, bytes))
        } else {
            Ok(Self { bytes })
        }
    }

    /// The whole record, mandatory bytes and payload.
    pub fn raw(&self) -> (r: &[u8])
        ensures
            r@ == self.bytes@,
    {
        self.bytes
    }

    /// The command-group byte.
    pub fn category(&self) -> (r: u8)
        requires
            self.wf(),
        ensures
            r == self.bytes@[0],
    {
        self.bytes[0]
    }

    /// The parameter byte naming the command within its group.
    pub fn parameter(&self) -> (r: u8)
        requires
            self.wf(),
        ensures
            r == self.bytes@[1],
    {
        self.bytes[1]
    }

    /// The wire data-type byte.
    pub fn data_type(&self) -> (r: u8)
        requires
            self.wf(),
        ensures
            r == self.bytes@[2],
    {
        self.bytes[2]
    }

    /// The operation byte.
    pub fn operation(&self) -> (r: u8)
        requires
            self.wf(),
        ensures
            r == self.bytes@[3],
    {
        self.bytes[3]
    }

    /// The payload: everything after the four mandatory bytes.
    pub fn data_buff(&self) -> (r: &[u8])
        requires
            self.wf(),
        ensures
            r@ == self.bytes@.subrange(4, self.bytes@.len() as int),
    {
        vstd::slice::slice_subrange(self.bytes, 4, self.bytes.len())
    }
}

/// Holds when `r` is the decode result that the wire contract prescribes
/// for a record with bytes `b`.
pub open spec fn parse_command_matches(b: Seq<u8>, r: Result<Command, EldritchError>) -> bool {
    if b.len() < 4 {
        r matches Err(e) && matches_failure(e, DecodeFailure::TooShort, b)
    } else if b[0] == 0x00 {
        match r {
            Ok(c) => c matches Command::Lens(lc) && lens_commands::spec_parse_lens(b) == Ok::<
                _,
                DecodeFailure,
            >(lc),
            Err(e) => lens_commands::spec_parse_lens(b) matches Err(f) && matches_failure(e, f, b),
        }
    } else if b[0] == 0x01 {
        match r {
            Ok(c) => c matches Command::Video(vc) && video_commands::spec_parse_video(b) == Ok::<
                _,
                DecodeFailure,
            >(vc),
            Err(e) => video_commands::spec_parse_video(b) matches Err(f) && matches_failure(
                e,
                f,
                b,
            ),
        }
    } else if b[0] == 0x02 {
        match r {
            Ok(c) => c matches Command::Audio(ac) && audio_commands::spec_parse_audio(b) == Ok::<
                _,
                DecodeFailure,
            >(ac),
            Err(e) => audio_commands::spec_parse_audio(b) matches Err(f) && matches_failure(
                e,
                f,
                b,
            ),
        }
    } else if b[0] == 0x03 {
        match r {
            Ok(c) => c matches Command::Output(oc) && output_commands::spec_parse_output(b) == Ok::<
                _,
                DecodeFailure,
            >(oc),
            Err(e) => output_commands::spec_parse_output(b) matches Err(f) && matches_failure(
                e,
                f,
                b,
            ),
        }
    } else if b[0] == 0x04 {
        match r {
            Ok(c) => c matches Command::Display(dc) && display_commands::spec_parse_display(b)
                == Ok::<_, DecodeFailure>(dc),
            Err(e) => display_commands::spec_parse_display(b) matches Err(f) && matches_failure(
                e,
                f,
                b,
            ),
        }
    } else if b[0] == 0x05 {
        match r {
            Ok(c) => c matches Command::Tally(tc) && tally_commands::spec_parse_tally(b) == Ok::<
                _,
                DecodeFailure,
            >(tc),
            Err(e) => tally_commands::spec_parse_tally(b) matches Err(f) && matches_failure(
                e,
                f,
                b,
            ),
        }
    } else if b[0] == 0x06 {
        match r {
            Ok(c) => c matches Command::Reference(rc) && reference_commands::spec_parse_reference(b)
                == Ok::<_, DecodeFailure>(rc),
            Err(e) => reference_commands::spec_parse_reference(b) matches Err(f) && matches_failure(
                e,
                f,
                b,
            ),
        }
    } else if b[0] == 0x07 {
        match r {
            Ok(c) => c matches Command::Configuration(cc)
                && configuration_commands::configuration_matches(b, Ok(cc)),
            Err(e) => configuration_commands::configuration_matches(b, Err(e)),
        }
    } else if b[0] == 0x08 {
        match r {
            Ok(c) => c matches Command::ColorCorrection(cc)
                && color_correction_commands::spec_parse_color_correction(b) == Ok::<
                _,
                DecodeFailure,
            >(cc),
            Err(e) => color_correction_commands::spec_parse_color_correction(b) matches Err(f)
                && matches_failure(e, f, b),
        }
    } else if b[0] == 0x0a {
        match r {
            Ok(c) => c matches Command::Media(mc) && media_commands::spec_parse_media(b) == Ok::<
                _,
                DecodeFailure,
            >(mc),
            Err(e) => media_commands::spec_parse_media(b) matches Err(f) && matches_failure(
                e,
                f,
                b,
            ),
        }
    } else if b[0] == 0x0b {
        match r {
            Ok(c) => c matches Command::PtzControl(pc)
                && ptz_control_commands::spec_parse_ptz_control(b) == Ok::<_, DecodeFailure>(pc),
            Err(e) => ptz_control_commands::spec_parse_ptz_control(b) matches Err(f)
                && matches_failure(e, f, b),
        }
    } else {
        r matches Err(e) && matches_failure(e, DecodeFailure::UnknownCategory, b)
    }
}

/// Whether a record's bytes decode to a command: the frame parser stops
/// at the first record for which this fails.
pub open spec fn spec_record_ok(b: Seq<u8>) -> bool {
    &&& b.len() >= 4
    &&& if b[0] == 0x00 {
        lens_commands::spec_parse_lens(b) is Ok
    } else if b[0] == 0x01 {
        video_commands::spec_parse_video(b) is Ok
    } else if b[0] == 0x02 {
        audio_commands::spec_parse_audio(b) is Ok
    } else if b[0] == 0x03 {
        output_commands::spec_parse_output(b) is Ok
    } else if b[0] == 0x04 {
        display_commands::spec_parse_display(b) is Ok
    } else if b[0] == 0x05 {
        tally_commands::spec_parse_tally(b) is Ok
    } else if b[0] == 0x06 {
        reference_commands::spec_parse_reference(b) is Ok
    } else if b[0] == 0x07 {
        if b[1] == 0x01 {
            b[2] == 0x05 && vstd::utf8::valid_utf8(protocol::spec_payload(b))
        } else {
            configuration_commands::spec_parse_configuration(b) is Ok
        }
    } else if b[0] == 0x08 {
        color_correction_commands::spec_parse_color_correction(b) is Ok
    } else if b[0] == 0x0a {
        media_commands::spec_parse_media(b) is Ok
    } else if b[0] == 0x0b {
        ptz_control_commands::spec_parse_ptz_control(b) is Ok
    } else {
        false
    }
}

/// A record decode succeeds exactly when `spec_record_ok` holds of its
/// bytes.
pub proof fn lemma_parse_command_ok(b: Seq<u8>, r: Result<Command, EldritchError>)
    requires
        parse_command_matches(b, r),
    ensures
        (r is Ok) == spec_record_ok(b),
{
}

/// Decodes one command record: wraps the bytes, dispatches on the category
/// byte, and hands the record to its group's decoder.
pub fn parse_command(cmd_buffer: &[u8]) -> (r: Result<Command, EldritchError>)
    ensures
        parse_command_matches(cmd_buffer@, r),
{
    let cmd_data = match CommandData::new(cmd_buffer) {
        Ok(c) => c,
        Err(e) => {
            return Err(e);
        },
    };
    match cmd_data.category() {
        0x00 => match lens_commands::parse_command(cmd_data) {
            Ok(c) => Ok(Command::Lens(c)),
            Err(e) => Err(e),
        },
        0x01 => match video_commands::parse_command(cmd_data) {
            Ok(c) => Ok(Command::Video(c)),
            Err(e) => Err(e),
        },
        0x02 => match audio_commands::parse_command(cmd_data) {
            Ok(c) => Ok(Command::Audio(c)),
            Err(e) => Err(e),
        },
        0x03 => match output_commands::parse_command(cmd_data) {
            Ok(c) => Ok(Command::Output(c)),
            Err(e) => Err(e),
        },
        0x04 => match display_commands::parse_command(cmd_data) {
            Ok(c) => Ok(Command::Display(c)),
            Err(e) => Err(e),
        },
        0x05 => match tally_commands::parse_command(cmd_data) {
            Ok(c) => Ok(Command::Tally(c)),
            Err(e) => Err(e),
        },
        0x06 => match reference_commands::parse_command(cmd_data) {
            Ok(c) => Ok(Command::Reference(c)),
            Err(e) => Err(e),
        },
        0x07 => match configuration_commands::parse_command(cmd_data) {
            Ok(c) => Ok(Command::Configuration(c)),
            Err(e) => Err(e),
        },
        0x08 => match color_correction_commands::parse_command(cmd_data) {
            Ok(c) => Ok(Command::ColorCorrection(c)),
            Err(e) => Err(e),
        },
        0x0a => match media_commands::parse_command(cmd_data) {
            Ok(c) => Ok(Command::Media(c)),
            Err(e) => Err(e),
        },
        0x0b => match ptz_control_commands::parse_command(cmd_data) {
            Ok(c) => Ok(Command::PtzControl(c)),
            Err(e) => Err(e),
        },
        _ => Err(failure_error(DecodeFailure::UnknownCategory, cmd_buffer)),
    }
}

} // verus!
