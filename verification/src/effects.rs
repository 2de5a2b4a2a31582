//! What the conversation logic asks of its surroundings.
//!
//! The logic never touches the user interface, the transport or the timer
//! itself. Each of its steps returns a list of effects, and whoever drives it
//! carries them out in order.

use vstd::prelude::*;
use vstd::string::StringExecFns;
use crate::protocol::{OpenAIRealtimeMessage, OpenAIRealtimeMessageView};

verus! {

/// Period of the timer that drives the sending of captured audio, in
/// milliseconds.
pub const AUDIO_STREAMING_PERIOD_MS: u64 = 20;

/// What the status line shows.
#[derive(Debug, PartialEq)]
pub enum StatusText {
    ReadyToConnect,
    SessionReady,
    SessionConfigured,
    NotConnected,
    Listening,
    PlayingAudio,
    ResponseListening,
    ResponsePlaying,
    UserSpeechDetected,
    Processing,
    UserSpeechTranscribed,
    AiSpeechTruncated,
    ConversationStopped,
    /// An error, with the message that came with it.
    Error(String),
}

/// What a `StatusText` holds.
pub enum StatusTextView {
    ReadyToConnect,
    SessionReady,
    SessionConfigured,
    NotConnected,
    Listening,
    PlayingAudio,
    ResponseListening,
    ResponsePlaying,
    UserSpeechDetected,
    Processing,
    UserSpeechTranscribed,
    AiSpeechTruncated,
    ConversationStopped,
    Error(Seq<char>),
}

impl StatusTextView {
    /// The text on the status line.
    pub open spec fn text(self) -> Seq<char> {
        match self {
            StatusTextView::ReadyToConnect => "Ready to connect"@,
            StatusTextView::SessionReady => "✅ Session ready"@,
            StatusTextView::SessionConfigured => "✅ Session configured"@,
            StatusTextView::NotConnected => "❌ Not connected to OpenAI"@,
            StatusTextView::Listening => "🎤 Listening..."@,
            StatusTextView::PlayingAudio => "🔊 Playing audio..."@,
            StatusTextView::ResponseListening => "✅ Response generated - 🎤 listening..."@,
            StatusTextView::ResponsePlaying => "✅ Response generated - 🔊 playing audio"@,
            StatusTextView::UserSpeechDetected => "🎤 User speech detected"@,
            StatusTextView::Processing => "🤔 Processing..."@,
            StatusTextView::UserSpeechTranscribed => "✅ User speech transcribed"@,
            StatusTextView::AiSpeechTruncated => "✅ AI speech truncated"@,
            StatusTextView::ConversationStopped => "⏹️ Conversation stopped"@,
            StatusTextView::Error(message) => "❌ Error: "@ + message,
        }
    }
}

impl View for StatusText {
    type V = StatusTextView;

    open spec fn view(&self) -> StatusTextView {
        match self {
            StatusText::ReadyToConnect => StatusTextView::ReadyToConnect,
            StatusText::SessionReady => StatusTextView::SessionReady,
            StatusText::SessionConfigured => StatusTextView::SessionConfigured,
            StatusText::NotConnected => StatusTextView::NotConnected,
            StatusText::Listening => StatusTextView::Listening,
            StatusText::PlayingAudio => StatusTextView::PlayingAudio,
            StatusText::ResponseListening => StatusTextView::ResponseListening,
            StatusText::ResponsePlaying => StatusTextView::ResponsePlaying,
            StatusText::UserSpeechDetected => StatusTextView::UserSpeechDetected,
            StatusText::Processing => StatusTextView::Processing,
            StatusText::UserSpeechTranscribed => StatusTextView::UserSpeechTranscribed,
            StatusText::AiSpeechTruncated => StatusTextView::AiSpeechTruncated,
            StatusText::ConversationStopped => StatusTextView::ConversationStopped,
            StatusText::Error(message) => StatusTextView::Error(message@),
        }
    }
}

impl StatusText {
    /// The text on the status line.
    pub fn text(&self) -> (text: String)
        ensures
            text@ == self@.text(),
    {
        match self {
            StatusText::ReadyToConnect => "Ready to connect".to_owned(),
            StatusText::SessionReady => "✅ Session ready".to_owned(),
            StatusText::SessionConfigured => "✅ Session configured".to_owned(),
            StatusText::NotConnected => "❌ Not connected to OpenAI".to_owned(),
            StatusText::Listening => "🎤 Listening...".to_owned(),
            StatusText::PlayingAudio => "🔊 Playing audio...".to_owned(),
            StatusText::ResponseListening => "✅ Response generated - 🎤 listening...".to_owned(),
            StatusText::ResponsePlaying => "✅ Response generated - 🔊 playing audio".to_owned(),
            StatusText::UserSpeechDetected => "🎤 User speech detected".to_owned(),
            StatusText::Processing => "🤔 Processing...".to_owned(),
            StatusText::UserSpeechTranscribed => "✅ User speech transcribed".to_owned(),
            StatusText::AiSpeechTruncated => "✅ AI speech truncated".to_owned(),
            StatusText::ConversationStopped => "⏹️ Conversation stopped".to_owned(),
            StatusText::Error(message) => "❌ Error: ".to_owned().concat(message.as_str()),
        }
    }
}

/// What the connection line shows.
#[derive(Clone, Copy, Debug, PartialEq, Eq)]
pub enum ConnectionText {
    MissingApiKey,
    Connecting,
    Connected,
    Disconnected,
}

impl ConnectionText {
    /// The text on the connection line.
    pub open spec fn text_spec(self) -> Seq<char> {
        match self {
            ConnectionText::MissingApiKey => "❌ Please set OPENAI_API_KEY"@,
            ConnectionText::Connecting => "🔄 Connecting..."@,
            ConnectionText::Connected => "✅ Connected to OpenAI"@,
            ConnectionText::Disconnected => "❌ Disconnected"@,
        }
    }

    /// The text on the connection line.
    pub fn text(&self) -> (text: String)
        ensures
            text@ == self.text_spec(),
    {
        match self {
            ConnectionText::MissingApiKey => "❌ Please set OPENAI_API_KEY".to_owned(),
            ConnectionText::Connecting => "🔄 Connecting...".to_owned(),
            ConnectionText::Connected => "✅ Connected to OpenAI".to_owned(),
            ConnectionText::Disconnected => "❌ Disconnected".to_owned(),
        }
    }
}

/// What the connect button shows.
#[derive(Clone, Copy, Debug, PartialEq, Eq)]
pub enum ButtonText {
    Connect,
    Connected,
}

impl ButtonText {
    /// The text on the connect button.
    pub open spec fn text_spec(self) -> Seq<char> {
        match self {
            ButtonText::Connect => "🔗 Connect and start conversation"@,
            ButtonText::Connected => "✅ Connected"@,
        }
    }

    /// The text on the connect button.
    pub fn text(&self) -> (text: String)
        ensures
            text@ == self.text_spec(),
    {
        match self {
            ButtonText::Connect => "🔗 Connect and start conversation".to_owned(),
            ButtonText::Connected => "✅ Connected".to_owned(),
        }
    }
}

/// One header of the request that opens the transport.
#[derive(Debug, PartialEq)]
pub struct Header {
    pub name: String,
    pub value: String,
}

/// The request that opens the transport.
#[derive(Debug, PartialEq)]
pub struct TransportRequest {
    pub url: String,
    pub headers: Vec<Header>,
}

/// What a `Header` holds.
pub struct HeaderView {
    pub name: Seq<char>,
    pub value: Seq<char>,
}

/// What a `TransportRequest` holds.
pub struct TransportRequestView {
    pub url: Seq<char>,
    pub headers: Seq<HeaderView>,
}

impl View for Header {
    type V = HeaderView;

    open spec fn view(&self) -> HeaderView {
        HeaderView { name: self.name@, value: self.value@ }
    }
}

impl DeepView for Header {
    type V = HeaderView;

    open spec fn deep_view(&self) -> HeaderView {
        self.view()
    }
}

impl View for TransportRequest {
    type V = TransportRequestView;

    open spec fn view(&self) -> TransportRequestView {
        TransportRequestView { url: self.url@, headers: self.headers.deep_view() }
    }
}

/// One thing for the surroundings to do.
#[derive(Debug, PartialEq)]
pub enum Effect {
    /// Show this on the status line.
    SetStatus(StatusText),
    /// Show this on the connection line.
    SetConnectionStatus(ConnectionText),
    /// Show this on the connect button.
    SetConnectButton(ButtonText),
    /// Show this as the transcript.
    SetTranscript(String),
    /// Hide the voice selector and show the name of the chosen voice.
    ShowSelectedVoice(String),
    /// Show the voice selector again.
    ShowVoiceSelector,
    /// Open the transport with this request.
    OpenTransport(TransportRequest),
    /// Send this message over the transport, if it is open.
    Send(OpenAIRealtimeMessage),
    /// Close the transport.
    CloseTransport,
    /// Start the timer that fires every `AUDIO_STREAMING_PERIOD_MS`.
    StartTimer,
    /// Stop that timer.
    StopTimer,
}

/// What an `Effect` holds.
pub enum EffectView {
    SetStatus(StatusTextView),
    SetConnectionStatus(ConnectionText),
    SetConnectButton(ButtonText),
    SetTranscript(Seq<char>),
    ShowSelectedVoice(Seq<char>),
    ShowVoiceSelector,
    OpenTransport(TransportRequestView),
    Send(OpenAIRealtimeMessageView),
    CloseTransport,
    StartTimer,
    StopTimer,
}

impl View for Effect {
    type V = EffectView;

    open spec fn view(&self) -> EffectView {
        match self {
            Effect::SetStatus(text) => EffectView::SetStatus(text@),
            Effect::SetConnectionStatus(text) => EffectView::SetConnectionStatus(*text),
            Effect::SetConnectButton(text) => EffectView::SetConnectButton(*text),
            Effect::SetTranscript(text) => EffectView::SetTranscript(text@),
            Effect::ShowSelectedVoice(voice) => EffectView::ShowSelectedVoice(voice@),
            Effect::ShowVoiceSelector => EffectView::ShowVoiceSelector,
            Effect::OpenTransport(request) => EffectView::OpenTransport(request@),
            Effect::Send(message) => EffectView::Send(message@),
            Effect::CloseTransport => EffectView::CloseTransport,
            Effect::StartTimer => EffectView::StartTimer,
            Effect::StopTimer => EffectView::StopTimer,
        }
    }
}

impl DeepView for Effect {
    type V = EffectView;

    open spec fn deep_view(&self) -> EffectView {
        self.view()
    }
}

/// The line that names the chosen voice.
pub open spec fn selected_voice_line(voice: Seq<char>) -> Seq<char> {
    "Selected voice: "@ + voice
}

impl Effect {
    /// The line that names the chosen voice.
    pub fn selected_voice_text(voice: &str) -> (text: String)
        ensures
            text@ == selected_voice_line(voice@),
    {
        "Selected voice: ".to_owned().concat(voice)
    }
}

} // verus!
