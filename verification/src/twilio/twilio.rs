//! The messages of a media stream.

use vstd::prelude::*;
use vstd::string::*;

use crate::encoding;
use crate::encoding::to_base64;

verus! {

#[derive(Debug)]
pub struct TwilioConnectedEvent {
    pub event: String,
    pub protocol: String,
    pub version: String,
}

#[derive(Debug)]
pub struct TwilioStartEvent {
    pub event: String,
    pub sequence_number: String,
    pub start: TwilioStartMetadata,
    pub stream_sid: String,
}

#[derive(Debug)]
pub struct TwilioStartMetadata {
    pub stream_sid: String,
    pub account_sid: String,
    pub call_sid: String,
    pub tracks: Vec<String>,
    /// The parameters by name, each as the text of its JSON value.
    pub custom_parameters: Vec<(String, String)>,
    pub media_format: TwilioMediaFormat,
}

#[derive(Debug)]
pub struct TwilioMediaFormat {
    pub encoding: String,
    pub sample_rate: i32,
    pub channels: i32,
}

#[derive(Debug)]
pub struct TwilioMediaEvent {
    pub event: String,
    pub sequence_number: String,
    pub media: TwilioMediaPayload,
    pub stream_sid: String,
}

#[derive(Debug)]
pub struct TwilioMediaPayload {
    pub track: String,
    pub chunk: String,
    pub timestamp: String,
    /// The audio, as base64.
    pub payload: String,
}

#[derive(Debug)]
pub struct TwilioStopEvent {
    pub event: String,
    pub sequence_number: String,
    pub stop: TwilioStopMetadata,
    pub stream_sid: String,
}

#[derive(Debug)]
pub struct TwilioStopMetadata {
    pub account_sid: String,
    pub call_sid: String,
}

#[derive(Debug)]
pub struct TwilioMarkEvent {
    pub event: String,
    pub stream_sid: String,
    pub sequence_number: String,
    pub mark: TwilioMarkPayload,
}

#[derive(Debug)]
pub struct TwilioDtmfEvent {
    pub event: String,
    pub stream_sid: String,
    pub sequence_number: String,
    pub dtmf: TwilioDtmfPayload,
}

#[derive(Debug)]
pub struct TwilioDtmfPayload {
    pub track: String,
    pub digit: String,
}

#[derive(Debug)]
pub struct TwilioMarkPayload {
    pub name: String,
}

/// Audio to be played to the caller.
#[derive(Debug)]
pub struct TwilioMediaMessage {
    pub event: String,
    pub stream_sid: String,
    pub media: TwilioMediaMessagePayload,
}

#[derive(Debug)]
pub struct TwilioMediaMessagePayload {
    pub payload: String,
}

/// A mark behind the audio that was sent.
#[derive(Debug)]
pub struct TwilioMarkMessage {
    pub event: String,
    pub stream_sid: String,
    pub mark: TwilioMarkMessagePayload,
}

#[derive(Debug)]
pub struct TwilioMarkMessagePayload {
    pub name: String,
}

/// The request to drop the audio that is waiting to be played.
#[derive(Debug)]
pub struct TwilioClearMessage {
    pub event: String,
    pub stream_sid: String,
}

/// What is posted when a call comes in.
#[derive(Debug)]
pub struct TwilioWebhookForm {
    pub call_sid: Option<String>,
    pub from: Option<String>,
    pub to: Option<String>,
    pub call_status: Option<String>,
}

/// The mathematical counterpart of a message to the caller's side.
pub enum OutgoingView {
    Media { event: Seq<char>, stream_sid: Seq<char>, payload: Seq<char> },
    Clear { event: Seq<char>, stream_sid: Seq<char> },
}

/// The message that carries the audio `payload`.
pub open spec fn media(stream_sid: Seq<char>, payload: Seq<char>) -> OutgoingView {
    OutgoingView::Media { event: "media"@, stream_sid, payload }
}

/// The message that has the waiting audio dropped.
pub open spec fn clear(stream_sid: Seq<char>) -> OutgoingView {
    OutgoingView::Clear { event: "clear"@, stream_sid }
}

impl View for TwilioMediaMessage {
    type V = OutgoingView;

    open spec fn view(&self) -> OutgoingView {
        OutgoingView::Media {
            event: self.event@,
            stream_sid: self.stream_sid@,
            payload: self.media.payload@,
        }
    }
}

impl View for TwilioClearMessage {
    type V = OutgoingView;

    open spec fn view(&self) -> OutgoingView {
        OutgoingView::Clear { event: self.event@, stream_sid: self.stream_sid@ }
    }
}

/// The message that carries a frame. Before the stream has its name none can be sent.
pub fn media_message(stream_sid: &str, frame: &[u8]) -> (r: Option<TwilioMediaMessage>)
    requires
        encoding::encoded_len(frame@.len()) <= isize::MAX,
    ensures
        match r {
            Some(message) => {
                &&& stream_sid@.len() > 0
                &&& message@ == media(stream_sid@, encoding::encoded(frame@))
            },
            None => stream_sid@.len() == 0,
        },
{
    if stream_sid.is_empty() {
        return None;
    }
    Some(
        TwilioMediaMessage {
            event: "media".to_owned(),
            stream_sid: stream_sid.to_owned(),
            media: TwilioMediaMessagePayload { payload: to_base64(frame) },
        },
    )
}

/// The message that has the waiting audio dropped. Before the stream has its name none can be
/// sent.
pub fn clear_message(stream_sid: &str) -> (r: Option<TwilioClearMessage>)
    ensures
        match r {
            Some(message) => {
                &&& stream_sid@.len() > 0
                &&& message@ == clear(stream_sid@)
            },
            None => stream_sid@.len() == 0,
        },
{
    if stream_sid.is_empty() {
        return None;
    }
    Some(TwilioClearMessage { event: "clear".to_owned(), stream_sid: stream_sid.to_owned() })
}

/// A frame is sent to its stream as base64, and read back as it was; and what waits is dropped at
/// its stream. Without the name of a stream neither can be sent.
pub proof fn law_messages_go_to_their_stream(
    stream_sid: &str,
    frame: &[u8],
    r: Option<TwilioMediaMessage>,
    s: Option<TwilioClearMessage>,
)
    requires
        call_ensures(media_message, (stream_sid, frame), r),
        call_ensures(clear_message, (stream_sid,), s),
    ensures
        r is Some <==> stream_sid@.len() > 0,
        s is Some <==> stream_sid@.len() > 0,
        r matches Some(m) ==> m.event@ == "media"@ && m.stream_sid@ == stream_sid@
            && encoding::is_base64(m.media.payload@) && encoding::decoded(m.media.payload@)
            == frame@,
        s matches Some(m) ==> m.event@ == "clear"@ && m.stream_sid@ == stream_sid@,
{
    encoding::law_decoding_undoes_encoding(frame@);
}

} // verus!
