//! The payload decoder: an encoded blob becomes a decoded message, or the
//! stage at which decoding stopped.  It keeps no state and does no I/O.

use vstd::prelude::*;
use crate::codec::{base64_decode, base64_decoded, gunzip_to_string, gunzipped_text, is_json,
    json_parses};

verus! {

/// The step of the pipeline that rejected a blob.
#[derive(Clone, Copy, Debug, PartialEq, Eq, Structural)]
pub enum DecodeStage {
    /// The blob is not standard base64.
    Base64,
    /// The bytes are not a gzip stream of UTF-8 text.
    Gzip,
}

/// A failure that ends the handling of one blob and of nothing else.
#[derive(Clone, Copy, Debug, PartialEq, Eq, Structural)]
pub struct DecodeError {
    pub stage: DecodeStage,
}

/// The text that a blob carried, tagged by whether it is a JSON document.
#[derive(Clone, Debug, PartialEq, Eq)]
pub enum DecodedMessage {
    /// The text is a well-formed JSON document.
    Structured(String),
    /// The text is anything else.
    Raw(String),
}

/// The mathematical value of a [`DecodedMessage`].
pub enum MessageView {
    Structured(Seq<char>),
    Raw(Seq<char>),
}

impl View for DecodedMessage {
    type V = MessageView;

    open spec fn view(&self) -> MessageView {
        match self {
            DecodedMessage::Structured(text) => MessageView::Structured(text@),
            DecodedMessage::Raw(text) => MessageView::Raw(text@),
        }
    }
}

/// The message made of `text`, given whether it is structured.
pub open spec fn tagged(text: Seq<char>, structured: bool) -> MessageView {
    if structured {
        MessageView::Structured(text)
    } else {
        MessageView::Raw(text)
    }
}

/// What a stage hands on: the value it produced, or its own name as the error.
pub open spec fn staged<T>(value: Option<T>, stage: DecodeStage) -> Result<T, DecodeError> {
    match value {
        Some(v) => Ok(v),
        None => Err(DecodeError { stage }),
    }
}

/// The whole pipeline on `blob`: base64, then gzip, then the JSON test.
pub open spec fn decoded(blob: Seq<char>) -> Result<MessageView, DecodeError> {
    match base64_decoded(blob) {
        None => Err(DecodeError { stage: DecodeStage::Base64 }),
        Some(bytes) => match gunzipped_text(bytes) {
            None => Err(DecodeError { stage: DecodeStage::Gzip }),
            Some(text) => Ok(tagged(text, json_parses(text))),
        },
    }
}

/// The value of a decoding outcome.
pub open spec fn outcome_view(outcome: Result<DecodedMessage, DecodeError>) -> Result<
    MessageView,
    DecodeError,
> {
    match outcome {
        Ok(message) => Ok(message@),
        Err(error) => Err(error),
    }
}

impl DecodeStage {
    /// The stage's name as it appears in reports.
    pub fn name(&self) -> (out: &'static str)
        ensures
            *self == DecodeStage::Base64 ==> out@ == "base64"@,
            *self == DecodeStage::Gzip ==> out@ == "gzip"@,
    {
        match self {
            DecodeStage::Base64 => "base64",
            DecodeStage::Gzip => "gzip",
        }
    }
}

impl DecodedMessage {
    /// Tags `text` as structured or raw.
    pub fn from_text(text: String, structured: bool) -> (out: DecodedMessage)
        ensures
            out@ == tagged(text@, structured),
    {
        if structured {
            DecodedMessage::Structured(text)
        } else {
            DecodedMessage::Raw(text)
        }
    }

    /// Whether the text is a JSON document.
    pub fn is_structured(&self) -> (out: bool)
        ensures
            out == (self@ is Structured),
    {
        match self {
            DecodedMessage::Structured(_) => true,
            DecodedMessage::Raw(_) => false,
        }
    }

    /// The decoded text, whatever its tag.
    pub fn text(&self) -> (out: &str)
        ensures
            self@ == tagged(out@, self@ is Structured),
    {
        match self {
            DecodedMessage::Structured(text) => text.as_str(),
            DecodedMessage::Raw(text) => text.as_str(),
        }
    }
}

/// Turns the optional result of one stage into that stage's outcome.
pub fn stage_result<T>(value: Option<T>, stage: DecodeStage) -> (out: Result<T, DecodeError>)
    ensures
        out == staged(value, stage),
{
    match value {
        Some(v) => Ok(v),
        None => Err(DecodeError { stage }),
    }
}

/// The stateless decoder of text blobs.
pub struct PayloadDecoder;

impl PayloadDecoder {
    /// Decodes one text blob.  A blob that is not base64 fails at the first
    /// stage, one whose bytes do not inflate to text at the second; text that
    /// is not JSON is no failure and comes back raw.
    pub fn decode(blob: &str) -> (out: Result<DecodedMessage, DecodeError>)
        ensures
            outcome_view(out) == decoded(blob@),
            base64_decoded(blob@) is None ==> out == Err::<DecodedMessage, DecodeError>(
                DecodeError { stage: DecodeStage::Base64 },
            ),
            base64_decoded(blob@) is Some && gunzipped_text(base64_decoded(blob@)->Some_0) is None
                ==> out == Err::<DecodedMessage, DecodeError>(
                DecodeError { stage: DecodeStage::Gzip },
            ),
    {
        let bytes = match stage_result(base64_decode(blob), DecodeStage::Base64) {
            Ok(bytes) => bytes,
            Err(error) => {
                return Err(error);
            },
        };
        let text = match stage_result(gunzip_to_string(bytes.as_slice()), DecodeStage::Gzip) {
            Ok(text) => text,
            Err(error) => {
                return Err(error);
            },
        };
        let structured = is_json(text.as_str());
        Ok(DecodedMessage::from_text(text, structured))
    }
}

/// Round trip: a blob that is the base64 of the gzip of `text` decodes to
/// `text` itself, structured where `text` is JSON and raw otherwise.
pub proof fn law_round_trip(blob: Seq<char>, bytes: Seq<u8>, text: Seq<char>)
    ensures
        base64_decoded(blob) == Some(bytes) && gunzipped_text(bytes) == Some(text) ==> decoded(
            blob,
        ) == Ok::<MessageView, DecodeError>(
            if json_parses(text) {
                MessageView::Structured(text)
            } else {
                MessageView::Raw(text)
            },
        ),
{
}

/// A blob fails at exactly one stage or at none: the base64 stage where it is
/// not base64, the gzip stage where its bytes do not inflate.
pub proof fn law_failure_stage(blob: Seq<char>)
    ensures
        decoded(blob) is Err <==> (base64_decoded(blob) is None || gunzipped_text(
            base64_decoded(blob)->Some_0,
        ) is None),
        base64_decoded(blob) is None ==> decoded(blob) == Err::<MessageView, DecodeError>(
            DecodeError { stage: DecodeStage::Base64 },
        ),
        base64_decoded(blob) is Some && gunzipped_text(base64_decoded(blob)->Some_0) is None
            ==> decoded(blob) == Err::<MessageView, DecodeError>(
            DecodeError { stage: DecodeStage::Gzip },
        ),
{
}

} // verus!
