//! The `compress` command: what it declares to the chat platform, and the
//! message that answers a call of it.

use crate::outcome::{CompressionOutcome, OutcomeView};
use crate::pipeline::{compress, compress_spec};
use crate::request::{
    preset_of, quality_of, request_of, CompressionRequest, OptionValue, RequestError, MAX_PRESET,
    MAX_QUALITY, MIN_PRESET, MIN_QUALITY,
};
use crate::stage::{lemma_four_steps_reach_the_outcome, proceed_spec, Stage, StageView};
use crate::text::{decimal, decimal_string};
use vstd::prelude::*;

verus! {

/// The kind of value that an option of the command takes.
#[derive(Clone, Copy, Debug, PartialEq, Eq, Structural)]
pub enum OptionKind {
    Attachment,
    Integer,
}

/// One option of the command, as it is declared to the platform.
#[derive(Clone, Debug, PartialEq, Eq)]
pub struct OptionSchema {
    pub kind: OptionKind,
    pub name: String,
    pub description: String,
    pub required: bool,
    /// The least integer the platform lets through, if it is bounded.
    pub min_value: Option<u64>,
    /// The greatest integer the platform lets through, if it is bounded.
    pub max_value: Option<u64>,
}

/// An `OptionSchema` with its texts as sequences.
pub struct OptionSchemaView {
    pub kind: OptionKind,
    pub name: Seq<char>,
    pub description: Seq<char>,
    pub required: bool,
    pub min_value: Option<u64>,
    pub max_value: Option<u64>,
}

impl View for OptionSchema {
    type V = OptionSchemaView;

    open spec fn view(&self) -> OptionSchemaView {
        OptionSchemaView {
            kind: self.kind,
            name: self.name@,
            description: self.description@,
            required: self.required,
            min_value: self.min_value,
            max_value: self.max_value,
        }
    }
}

impl OptionSchemaView {
    /// The platform lets `value` through for this option.
    pub open spec fn admits(self, value: i64) -> bool {
        &&& self.kind == OptionKind::Integer
        &&& self.min_value matches Some(least) ==> least <= value
        &&& self.max_value matches Some(greatest) ==> value <= greatest
    }
}

/// The command, as it is declared to the platform.
#[derive(Clone, Debug, PartialEq, Eq)]
pub struct CommandSchema {
    pub name: String,
    pub description: String,
    /// The options in the order in which they are declared.
    pub options: Vec<OptionSchema>,
}

/// A `CommandSchema` over sequences.
pub struct CommandSchemaView {
    pub name: Seq<char>,
    pub description: Seq<char>,
    pub options: Seq<OptionSchemaView>,
}

impl View for CommandSchema {
    type V = CommandSchemaView;

    open spec fn view(&self) -> CommandSchemaView {
        CommandSchemaView {
            name: self.name@,
            description: self.description@,
            options: self.options@.map_values(|option: OptionSchema| option@),
        }
    }
}

/// The image to compress: a required attachment.
pub open spec fn image_option() -> OptionSchemaView {
    OptionSchemaView {
        kind: OptionKind::Attachment,
        name: "image"@,
        description: "Image to compress"@,
        required: true,
        min_value: None,
        max_value: None,
    }
}

/// The quality: an optional integer from 1 to 100.
pub open spec fn quality_option() -> OptionSchemaView {
    OptionSchemaView {
        kind: OptionKind::Integer,
        name: "quality"@,
        description: "Quality level for jpg and webp to suppress to"@,
        required: false,
        min_value: Some(MIN_QUALITY as u64),
        max_value: Some(MAX_QUALITY as u64),
    }
}

/// The preset: an optional integer from 1 to 6.
pub open spec fn preset_option() -> OptionSchemaView {
    OptionSchemaView {
        kind: OptionKind::Integer,
        name: "preset"@,
        description: "Png preset level for png (1-6); default compression used otherwise"@,
        required: false,
        min_value: Some(MIN_PRESET as u64),
        max_value: Some(MAX_PRESET as u64),
    }
}

/// The declaration of the `compress` command: its name, what it says of
/// itself, and its three options in order.
pub open spec fn command_schema() -> CommandSchemaView {
    CommandSchemaView {
        name: "compress"@,
        description: "Takes an image from the user and outputs a compressed image if under 8 MB"@,
        options: seq![image_option(), quality_option(), preset_option()],
    }
}

/// Declares the `compress` command: an image, which is required, then a
/// quality from 1 to 100 and a preset from 1 to 6, which are not.
pub fn register() -> (schema: CommandSchema)
    ensures
        schema@ == command_schema(),
{
    let image = OptionSchema {
        kind: OptionKind::Attachment,
        name: String::from_str("image"),
        description: String::from_str("Image to compress"),
        required: true,
        min_value: None,
        max_value: None,
    };
    let quality = OptionSchema {
        kind: OptionKind::Integer,
        name: String::from_str("quality"),
        description: String::from_str("Quality level for jpg and webp to suppress to"),
        required: false,
        min_value: Some(MIN_QUALITY as u64),
        max_value: Some(MAX_QUALITY as u64),
    };
    let preset = OptionSchema {
        kind: OptionKind::Integer,
        name: String::from_str("preset"),
        description: String::from_str(
            "Png preset level for png (1-6); default compression used otherwise",
        ),
        required: false,
        min_value: Some(MIN_PRESET as u64),
        max_value: Some(MAX_PRESET as u64),
    };
    let mut options: Vec<OptionSchema> = Vec::new();
    options.push(image);
    options.push(quality);
    options.push(preset);
    let schema = CommandSchema {
        name: String::from_str("compress"),
        description: String::from_str(
            "Takes an image from the user and outputs a compressed image if under 8 MB",
        ),
        options,
    };
    assert(schema@.options =~= command_schema().options);
    schema
}

/// The command declares for its settings exactly the integers that make a
/// request: what the platform lets through for the quality or the preset is
/// never refused, and what it holds back would be.
pub proof fn lemma_declared_ranges_match_requests(value: i64)
    ensures
        quality_option().admits(value) <==> quality_of(Some(OptionValue::Integer(value))) is Some,
        preset_option().admits(value) <==> preset_of(Some(OptionValue::Integer(value))) is Some,
{
}

/// A file that goes out with a message.
#[derive(Clone, Debug, PartialEq, Eq)]
pub struct Attachment {
    pub data: Vec<u8>,
    pub filename: String,
}

/// An `Attachment` over sequences.
pub struct AttachmentView {
    pub data: Seq<u8>,
    pub filename: Seq<char>,
}

impl View for Attachment {
    type V = AttachmentView;

    open spec fn view(&self) -> AttachmentView {
        AttachmentView { data: self.data@, filename: self.filename@ }
    }
}

/// The answer to a command: a text, and a file where there is one to send.
#[derive(Clone, Debug, PartialEq, Eq)]
pub struct Message {
    pub text: String,
    pub attachment: Option<Attachment>,
}

/// A `Message` over sequences.
pub struct MessageView {
    pub text: Seq<char>,
    pub attachment: Option<AttachmentView>,
}

impl View for Message {
    type V = MessageView;

    open spec fn view(&self) -> MessageView {
        MessageView {
            text: self.text@,
            attachment: match self.attachment {
                Some(file) => Some(file@),
                None => None,
            },
        }
    }
}

/// A message that is only a text.
pub open spec fn notice(text: Seq<char>) -> MessageView {
    MessageView { text, attachment: None }
}

/// What is said of a compressed file.
pub open spec fn reduced_text(filename: Seq<char>, input_size: nat, size: nat) -> Seq<char> {
    "Reduced image size of "@ + filename + " from "@ + decimal(input_size) + " bytes to "@
        + decimal(size) + " bytes"@
}

/// The answer to an outcome, for a file that came as `filename` with
/// `input_size` bytes. A file goes out with `Compressed` only, under the
/// name it came with.
pub open spec fn respond_spec(
    outcome: OutcomeView,
    filename: Seq<char>,
    input_size: nat,
) -> MessageView {
    match outcome {
        OutcomeView::Compressed { bytes, size } => MessageView {
            text: reduced_text(filename, input_size, size),
            attachment: Some(AttachmentView { data: bytes, filename }),
        },
        OutcomeView::NoImprovement => notice("Could not compress image any further"@),
        OutcomeView::StillTooLarge => notice("Could not compress image to less than 8 MB"@),
        OutcomeView::UnsupportedFormat => notice(
            "Failed to compress image: Unsupported image type"@,
        ),
        OutcomeView::DecodeFailed { reason } => notice(
            "Failed to compress image: Could not decode image: "@ + reason,
        ),
        OutcomeView::EncodeFailed { reason } => notice("Failed to compress image: "@ + reason),
    }
}

/// The answer to a setting that was refused.
pub open spec fn refusal_spec(error: RequestError) -> MessageView {
    match error {
        RequestError::InvalidQuality => notice("Invalid quality level"@),
        RequestError::InvalidPreset => notice("Invalid preset level"@),
    }
}

/// The answer to a run that stands at `stage`: the answer to its outcome
/// where it ended by itself, and otherwise the notice that it was cancelled.
pub open spec fn answer_spec(
    stage: StageView,
    filename: Seq<char>,
    input_size: nat,
) -> MessageView {
    match stage.outcome() {
        Some(outcome) => respond_spec(outcome, filename, input_size),
        None => notice("Compression was cancelled"@),
    }
}

/// The answer to a call of the command on a downloaded file.
pub open spec fn run_spec(
    filename: Seq<char>,
    input_size: nat,
    bytes: Seq<u8>,
    quality: Option<OptionValue>,
    preset: Option<OptionValue>,
) -> MessageView {
    match request_of(quality, preset) {
        Err(error) => refusal_spec(error),
        Ok(request) => respond_spec(compress_spec(bytes, input_size, request), filename, input_size),
    }
}

impl Message {
    /// A message that is only a text.
    pub fn notice(text: &str) -> (message: Message)
        ensures
            message@ == notice(text@),
    {
        Message { text: String::from_str(text), attachment: None }
    }

    /// The answer where the command came without an attachment.
    pub fn missing_attachment() -> (message: Message)
        ensures
            message@ == notice("Please provide a valid attachment"@),
    {
        Message::notice("Please provide a valid attachment")
    }

    /// The answer where the attachment could not be fetched.
    pub fn download_failed(error: &str) -> (message: Message)
        ensures
            message@ == notice("Could not download image: "@ + error@),
    {
        Message {
            text: String::from_str("Could not download image: ").concat(error),
            attachment: None,
        }
    }

    /// The answer to a run that was given up before it ended.
    pub fn cancelled() -> (message: Message)
        ensures
            message@ == notice("Compression was cancelled"@),
    {
        Message::notice("Compression was cancelled")
    }

    /// The answer to a setting that was refused.
    pub fn refusal(error: RequestError) -> (message: Message)
        ensures
            message@ == refusal_spec(error),
    {
        match error {
            RequestError::InvalidQuality => Message::notice("Invalid quality level"),
            RequestError::InvalidPreset => Message::notice("Invalid preset level"),
        }
    }

    /// The answer to a command of another name.
    pub fn unknown_command(name: &str) -> (message: Message)
        ensures
            message@ == notice("Unknown command: "@ + name@),
    {
        Message { text: String::from_str("Unknown command: ").concat(name), attachment: None }
    }
}

/// Turns an outcome into the answer for the user.
pub fn respond(outcome: CompressionOutcome, filename: &str, input_size: usize) -> (message:
    Message)
    ensures
        message@ == respond_spec(outcome@, filename@, input_size as nat),
{
    match outcome {
        CompressionOutcome::Compressed { bytes, size } => {
            let before = decimal_string(input_size);
            let after = decimal_string(size);
            let mut text = String::from_str("Reduced image size of ");
            text.append(filename);
            text.append(" from ");
            text.append(before.as_str());
            text.append(" bytes to ");
            text.append(after.as_str());
            text.append(" bytes");
            Message {
                text,
                attachment: Some(Attachment { data: bytes, filename: String::from_str(filename) }),
            }
        },
        CompressionOutcome::NoImprovement => Message::notice(
            "Could not compress image any further",
        ),
        CompressionOutcome::StillTooLarge => Message::notice(
            "Could not compress image to less than 8 MB",
        ),
        CompressionOutcome::UnsupportedFormat => Message::notice(
            "Failed to compress image: Unsupported image type",
        ),
        CompressionOutcome::DecodeFailed { reason } => Message {
            text: String::from_str("Failed to compress image: Could not decode image: ").concat(
                reason.as_str(),
            ),
            attachment: None,
        },
        CompressionOutcome::EncodeFailed { reason } => Message {
            text: String::from_str("Failed to compress image: ").concat(reason.as_str()),
            attachment: None,
        },
    }
}

/// Answers a run that was driven stage by stage and stands at `stage`, for a
/// file that came as `filename` with `input_size` bytes.
pub fn answer(stage: Stage, filename: &str, input_size: usize) -> (message: Message)
    ensures
        message@ == answer_spec(stage@, filename@, input_size as nat),
{
    match stage.into_outcome() {
        Some(outcome) => respond(outcome, filename, input_size),
        None => Message::cancelled(),
    }
}

/// Answers a call of the command: `bytes` is the downloaded attachment,
/// which came as `filename` with `input_size` bytes, and the two settings
/// are what the caller gave for the quality and the preset. A setting that
/// is refused is answered before anything is compressed: first a quality
/// that is no integer, then a preset that is no integer, then a quality out
/// of range, then a preset out of range. The run is taken
/// in one go and never cancelled; a caller with a deadline drives a `Stage`
/// and hands it to `answer`.
pub fn run(
    filename: &str,
    input_size: usize,
    bytes: &[u8],
    quality: Option<OptionValue>,
    preset: Option<OptionValue>,
) -> (message: Message)
    ensures
        message@ == run_spec(filename@, input_size as nat, bytes@, quality, preset),
{
    match CompressionRequest::from_options(quality, preset) {
        Err(error) => Message::refusal(error),
        Ok(request) => respond(compress(bytes, input_size, request), filename, input_size),
    }
}

/// A run that was driven stage by stage and never cancelled is answered as
/// `run` answers: for settings that make a request, the answer to four
/// stages let through is the answer of `run`.
pub proof fn lemma_run_answers_as_a_run_let_through(
    filename: Seq<char>,
    input_size: nat,
    bytes: Seq<u8>,
    quality: Option<OptionValue>,
    preset: Option<OptionValue>,
)
    requires
        request_of(quality, preset) is Ok,
    ensures
        run_spec(filename, input_size, bytes, quality, preset) == answer_spec(
            proceed_spec(
                StageView::Detecting,
                4,
                bytes,
                input_size,
                request_of(quality, preset)->Ok_0,
            ),
            filename,
            input_size,
        ),
{
    lemma_four_steps_reach_the_outcome(bytes, input_size, request_of(quality, preset)->Ok_0);
}

/// A file goes out exactly when the outcome is `Compressed`, and it is then
/// the outcome's bytes under the name the input came with.
pub proof fn lemma_file_goes_out_only_when_compressed(
    outcome: OutcomeView,
    filename: Seq<char>,
    input_size: nat,
)
    ensures
        respond_spec(outcome, filename, input_size).attachment is Some <==> outcome is Compressed,
        outcome matches OutcomeView::Compressed { bytes, size } ==> respond_spec(
            outcome,
            filename,
            input_size,
        ).attachment == Some(AttachmentView { data: bytes, filename }),
{
}

} // verus!
