//! The messages of the realtime speech API, in both directions.
//!
//! On the wire each message is a JSON object whose `type` member selects the
//! shape of the rest. The types here are those shapes as plain data; turning
//! them into text and back is left to the caller.

use vstd::prelude::*;

verus! {

/// `serde_json::Value`: a JSON value. The library carries such values
/// through and never looks into them.
#[verifier::external_type_specification]
#[verifier::external_body]
pub struct ExJsonValue(serde_json::Value);

/// A non-negative decimal number with three places after the point, held as
/// its count of thousandths: `Thousandths(800)` is 0.8.
#[derive(Clone, Copy, Debug, PartialEq, Eq)]
pub struct Thousandths(pub u32);

/// A message from the client to the service.
#[derive(Debug, PartialEq)]
pub enum OpenAIRealtimeMessage {
    /// `session.update`
    SessionUpdate { session: SessionConfig },
    /// `input_audio_buffer.append`; `audio` is base64 of PCM16 bytes.
    InputAudioBufferAppend { audio: String },
    /// `input_audio_buffer.commit`
    InputAudioBufferCommit,
    /// `response.create`
    ResponseCreate { response: ResponseConfig },
    /// `conversation.item.create`
    ConversationItemCreate { item: ConversationItem },
    /// `conversation.item.truncate`
    ConversationItemTruncate {
        item_id: String,
        content_index: u32,
        audio_end_ms: u32,
        event_id: Option<String>,
    },
}

/// The parameters of a session.
#[derive(Debug, PartialEq)]
pub struct SessionConfig {
    pub modalities: Vec<String>,
    pub instructions: String,
    pub voice: String,
    pub input_audio_format: String,
    pub output_audio_format: String,
    pub input_audio_transcription: Option<TranscriptionConfig>,
    pub input_audio_noise_reduction: Option<NoiseReductionConfig>,
    pub turn_detection: Option<TurnDetectionConfig>,
    pub tools: Vec<serde_json::Value>,
    pub tool_choice: String,
    pub temperature: Thousandths,
    pub max_response_output_tokens: Option<u32>,
}

/// How the service is to reduce noise in the input audio.
#[derive(Debug, PartialEq)]
pub struct NoiseReductionConfig {
    /// The `type` member.
    pub noise_reduction_type: String,
}

/// How the service is to transcribe the input audio.
#[derive(Debug, PartialEq)]
pub struct TranscriptionConfig {
    pub model: String,
}

/// How the service is to find the boundaries of the user's turns.
#[derive(Debug, PartialEq)]
pub struct TurnDetectionConfig {
    /// The `type` member.
    pub detection_type: String,
    pub threshold: Thousandths,
    pub prefix_padding_ms: u32,
    pub silence_duration_ms: u32,
    pub interrupt_response: bool,
    pub create_response: bool,
}

/// The parameters of one response.
#[derive(Debug, PartialEq)]
pub struct ResponseConfig {
    pub modalities: Vec<String>,
    pub instructions: Option<String>,
    pub voice: Option<String>,
    pub output_audio_format: Option<String>,
    pub tools: Option<Vec<serde_json::Value>>,
    pub tool_choice: Option<String>,
    pub temperature: Option<Thousandths>,
    pub max_output_tokens: Option<u32>,
}

/// An item of the conversation.
#[derive(Debug, PartialEq)]
pub struct ConversationItem {
    pub id: Option<String>,
    /// The `type` member.
    pub item_type: String,
    pub role: String,
    pub content: Vec<ContentPart>,
}

/// One part of the content of a conversation item.
#[derive(Debug, PartialEq)]
pub struct ContentPart {
    /// The `type` member.
    pub part_type: String,
    pub text: Option<String>,
}

/// A message from the service to the client.
#[derive(Debug, PartialEq)]
pub enum OpenAIRealtimeResponse {
    /// `error`
    Error { error: ErrorDetails },
    /// `session.created`
    SessionCreated { session: serde_json::Value },
    /// `session.updated`
    SessionUpdated { session: serde_json::Value },
    /// `conversation.item.created`
    ConversationItemCreated { item: serde_json::Value },
    /// `conversation.item.truncated`
    ConversationItemTruncated { item: serde_json::Value },
    /// `response.audio.delta`; `delta` is base64 of PCM16 bytes.
    ResponseAudioDelta {
        response_id: String,
        item_id: String,
        output_index: u32,
        content_index: u32,
        delta: String,
    },
    /// `response.audio.done`
    ResponseAudioDone { response_id: String, item_id: String, output_index: u32, content_index: u32 },
    /// `response.text.delta`
    ResponseTextDelta {
        response_id: String,
        item_id: String,
        output_index: u32,
        content_index: u32,
        delta: String,
    },
    /// `response.audio_transcript.delta`
    ResponseAudioTranscriptDelta {
        response_id: String,
        item_id: String,
        output_index: u32,
        content_index: u32,
        delta: String,
    },
    /// `response.done`
    ResponseDone { response: serde_json::Value },
    /// `input_audio_buffer.speech_started`
    InputAudioBufferSpeechStarted { audio_start_ms: u32, item_id: String },
    /// `input_audio_buffer.speech_stopped`
    InputAudioBufferSpeechStopped { audio_end_ms: u32, item_id: String },
    /// Any other message.
    Other,
}

/// What the service says about an error.
#[derive(Debug, PartialEq)]
pub struct ErrorDetails {
    pub code: Option<String>,
    pub message: String,
    pub param: Option<String>,
    /// The `type` member.
    pub error_type: Option<String>,
}

/// What a `SessionConfig` holds.
pub struct SessionConfigView {
    pub modalities: Seq<Seq<char>>,
    pub instructions: Seq<char>,
    pub voice: Seq<char>,
    pub input_audio_format: Seq<char>,
    pub output_audio_format: Seq<char>,
    pub input_audio_transcription: Option<TranscriptionConfigView>,
    pub input_audio_noise_reduction: Option<NoiseReductionConfigView>,
    pub turn_detection: Option<TurnDetectionConfigView>,
    pub tools: Seq<serde_json::Value>,
    pub tool_choice: Seq<char>,
    pub temperature: Thousandths,
    pub max_response_output_tokens: Option<u32>,
}

/// What a `NoiseReductionConfig` holds.
pub struct NoiseReductionConfigView {
    pub noise_reduction_type: Seq<char>,
}

/// What a `TranscriptionConfig` holds.
pub struct TranscriptionConfigView {
    pub model: Seq<char>,
}

/// What a `TurnDetectionConfig` holds.
pub struct TurnDetectionConfigView {
    pub detection_type: Seq<char>,
    pub threshold: Thousandths,
    pub prefix_padding_ms: u32,
    pub silence_duration_ms: u32,
    pub interrupt_response: bool,
    pub create_response: bool,
}

/// What a `ResponseConfig` holds.
pub struct ResponseConfigView {
    pub modalities: Seq<Seq<char>>,
    pub instructions: Option<Seq<char>>,
    pub voice: Option<Seq<char>>,
    pub output_audio_format: Option<Seq<char>>,
    pub tools: Option<Seq<serde_json::Value>>,
    pub tool_choice: Option<Seq<char>>,
    pub temperature: Option<Thousandths>,
    pub max_output_tokens: Option<u32>,
}

/// What a `ConversationItem` holds.
pub struct ConversationItemView {
    pub id: Option<Seq<char>>,
    pub item_type: Seq<char>,
    pub role: Seq<char>,
    pub content: Seq<ContentPartView>,
}

/// What a `ContentPart` holds.
pub struct ContentPartView {
    pub part_type: Seq<char>,
    pub text: Option<Seq<char>>,
}

/// What an `OpenAIRealtimeMessage` holds.
pub enum OpenAIRealtimeMessageView {
    SessionUpdate { session: SessionConfigView },
    InputAudioBufferAppend { audio: Seq<char> },
    InputAudioBufferCommit,
    ResponseCreate { response: ResponseConfigView },
    ConversationItemCreate { item: ConversationItemView },
    ConversationItemTruncate {
        item_id: Seq<char>,
        content_index: u32,
        audio_end_ms: u32,
        event_id: Option<Seq<char>>,
    },
}

impl View for NoiseReductionConfig {
    type V = NoiseReductionConfigView;

    open spec fn view(&self) -> NoiseReductionConfigView {
        NoiseReductionConfigView { noise_reduction_type: self.noise_reduction_type@ }
    }
}

impl DeepView for NoiseReductionConfig {
    type V = NoiseReductionConfigView;

    open spec fn deep_view(&self) -> NoiseReductionConfigView {
        self.view()
    }
}

impl View for TranscriptionConfig {
    type V = TranscriptionConfigView;

    open spec fn view(&self) -> TranscriptionConfigView {
        TranscriptionConfigView { model: self.model@ }
    }
}

impl DeepView for TranscriptionConfig {
    type V = TranscriptionConfigView;

    open spec fn deep_view(&self) -> TranscriptionConfigView {
        self.view()
    }
}

impl View for TurnDetectionConfig {
    type V = TurnDetectionConfigView;

    open spec fn view(&self) -> TurnDetectionConfigView {
        TurnDetectionConfigView {
            detection_type: self.detection_type@,
            threshold: self.threshold,
            prefix_padding_ms: self.prefix_padding_ms,
            silence_duration_ms: self.silence_duration_ms,
            interrupt_response: self.interrupt_response,
            create_response: self.create_response,
        }
    }
}

impl DeepView for TurnDetectionConfig {
    type V = TurnDetectionConfigView;

    open spec fn deep_view(&self) -> TurnDetectionConfigView {
        self.view()
    }
}

impl View for SessionConfig {
    type V = SessionConfigView;

    open spec fn view(&self) -> SessionConfigView {
        SessionConfigView {
            modalities: self.modalities.deep_view(),
            instructions: self.instructions@,
            voice: self.voice@,
            input_audio_format: self.input_audio_format@,
            output_audio_format: self.output_audio_format@,
            input_audio_transcription: self.input_audio_transcription.deep_view(),
            input_audio_noise_reduction: self.input_audio_noise_reduction.deep_view(),
            turn_detection: self.turn_detection.deep_view(),
            tools: self.tools@,
            tool_choice: self.tool_choice@,
            temperature: self.temperature,
            max_response_output_tokens: self.max_response_output_tokens,
        }
    }
}

impl DeepView for SessionConfig {
    type V = SessionConfigView;

    open spec fn deep_view(&self) -> SessionConfigView {
        self.view()
    }
}

impl View for ResponseConfig {
    type V = ResponseConfigView;

    open spec fn view(&self) -> ResponseConfigView {
        ResponseConfigView {
            modalities: self.modalities.deep_view(),
            instructions: self.instructions.deep_view(),
            voice: self.voice.deep_view(),
            output_audio_format: self.output_audio_format.deep_view(),
            tools: match self.tools {
                Some(t) => Some(t@),
                None => None,
            },
            tool_choice: self.tool_choice.deep_view(),
            temperature: self.temperature,
            max_output_tokens: self.max_output_tokens,
        }
    }
}

impl DeepView for ResponseConfig {
    type V = ResponseConfigView;

    open spec fn deep_view(&self) -> ResponseConfigView {
        self.view()
    }
}

impl View for ContentPart {
    type V = ContentPartView;

    open spec fn view(&self) -> ContentPartView {
        ContentPartView { part_type: self.part_type@, text: self.text.deep_view() }
    }
}

impl DeepView for ContentPart {
    type V = ContentPartView;

    open spec fn deep_view(&self) -> ContentPartView {
        self.view()
    }
}

impl View for ConversationItem {
    type V = ConversationItemView;

    open spec fn view(&self) -> ConversationItemView {
        ConversationItemView {
            id: self.id.deep_view(),
            item_type: self.item_type@,
            role: self.role@,
            content: self.content.deep_view(),
        }
    }
}

impl DeepView for ConversationItem {
    type V = ConversationItemView;

    open spec fn deep_view(&self) -> ConversationItemView {
        self.view()
    }
}

impl View for OpenAIRealtimeMessage {
    type V = OpenAIRealtimeMessageView;

    open spec fn view(&self) -> OpenAIRealtimeMessageView {
        match self {
            OpenAIRealtimeMessage::SessionUpdate { session } => OpenAIRealtimeMessageView::SessionUpdate {
                session: session@,
            },
            OpenAIRealtimeMessage::InputAudioBufferAppend { audio } => OpenAIRealtimeMessageView::InputAudioBufferAppend {
                audio: audio@,
            },
            OpenAIRealtimeMessage::InputAudioBufferCommit => OpenAIRealtimeMessageView::InputAudioBufferCommit,
            OpenAIRealtimeMessage::ResponseCreate { response } => OpenAIRealtimeMessageView::ResponseCreate {
                response: response@,
            },
            OpenAIRealtimeMessage::ConversationItemCreate { item } => OpenAIRealtimeMessageView::ConversationItemCreate {
                item: item@,
            },
            OpenAIRealtimeMessage::ConversationItemTruncate {
                item_id,
                content_index,
                audio_end_ms,
                event_id,
            } => OpenAIRealtimeMessageView::ConversationItemTruncate {
                item_id: item_id@,
                content_index: *content_index,
                audio_end_ms: *audio_end_ms,
                event_id: event_id.deep_view(),
            },
        }
    }
}

impl DeepView for OpenAIRealtimeMessage {
    type V = OpenAIRealtimeMessageView;

    open spec fn deep_view(&self) -> OpenAIRealtimeMessageView {
        self.view()
    }
}

/// What the session tells the assistant to do.
pub const SESSION_INSTRUCTIONS: &'static str =
    "You are a helpful AI assistant. Respond naturally and conversationally. Always respond in the same language as the user.";

/// What the greeting response tells the assistant to do.
pub const GREETING_INSTRUCTIONS: &'static str =
    "You are a helpful AI assistant. Respond naturally and conversationally,\n                 start with a very short but enthusiastic and playful greeting in English, the greeting must not exceed 3 words";

/// The format of the audio in both directions.
pub const AUDIO_FORMAT: &'static str = "pcm16";

/// Loudness above which the service takes the input for speech, in
/// thousandths of full scale.
pub const VAD_THRESHOLD: u32 = 500;

/// Audio before the detected start of speech that belongs to the turn, in
/// milliseconds.
pub const VAD_PREFIX_PADDING_MS: u32 = 300;

/// Silence that ends a turn, in milliseconds.
pub const VAD_SILENCE_DURATION_MS: u32 = 200;

/// Sampling temperature of the assistant, in thousandths.
pub const TEMPERATURE: u32 = 800;

/// Most tokens that one response may hold.
pub const MAX_OUTPUT_TOKENS: u32 = 4096;

/// The modalities of a voice conversation: text and audio.
pub open spec fn voice_chat_modalities() -> Seq<Seq<char>> {
    seq!["text"@, "audio"@]
}

/// The session of a voice conversation with the given voice and
/// transcription model: PCM16 audio both ways, far-field noise reduction,
/// and turns found by the service, which answers at the end of each turn and
/// lets speech interrupt its answer.
pub open spec fn voice_chat_session(voice: Seq<char>, transcription_model: Seq<char>) -> SessionConfigView {
    SessionConfigView {
        modalities: voice_chat_modalities(),
        instructions: SESSION_INSTRUCTIONS@,
        voice,
        input_audio_format: AUDIO_FORMAT@,
        output_audio_format: AUDIO_FORMAT@,
        input_audio_transcription: Some(TranscriptionConfigView { model: transcription_model }),
        input_audio_noise_reduction: Some(NoiseReductionConfigView { noise_reduction_type: "far_field"@ }),
        turn_detection: Some(
            TurnDetectionConfigView {
                detection_type: "server_vad"@,
                threshold: Thousandths(VAD_THRESHOLD),
                prefix_padding_ms: VAD_PREFIX_PADDING_MS,
                silence_duration_ms: VAD_SILENCE_DURATION_MS,
                interrupt_response: true,
                create_response: true,
            },
        ),
        tools: Seq::empty(),
        tool_choice: "none"@,
        temperature: Thousandths(TEMPERATURE),
        max_response_output_tokens: Some(MAX_OUTPUT_TOKENS),
    }
}

/// The response that opens a conversation: a short spoken greeting in the
/// given voice.
pub open spec fn greeting_response(voice: Seq<char>) -> ResponseConfigView {
    ResponseConfigView {
        modalities: voice_chat_modalities(),
        instructions: Some(GREETING_INSTRUCTIONS@),
        voice: Some(voice),
        output_audio_format: Some(AUDIO_FORMAT@),
        tools: None,
        tool_choice: None,
        temperature: Some(Thousandths(TEMPERATURE)),
        max_output_tokens: Some(MAX_OUTPUT_TOKENS),
    }
}

fn modalities() -> (list: Vec<String>)
    ensures
        list.deep_view() == voice_chat_modalities(),
{
    let mut list: Vec<String> = Vec::new();
    list.push("text".to_owned());
    list.push("audio".to_owned());
    assert(list.deep_view() =~= voice_chat_modalities());
    list
}

impl SessionConfig {
    /// The session of a voice conversation with the given voice and
    /// transcription model.
    pub fn voice_chat(voice: &str, transcription_model: &str) -> (config: SessionConfig)
        ensures
            config@ == voice_chat_session(voice@, transcription_model@),
    {
        SessionConfig {
            modalities: modalities(),
            instructions: SESSION_INSTRUCTIONS.to_owned(),
            voice: voice.to_owned(),
            input_audio_format: AUDIO_FORMAT.to_owned(),
            output_audio_format: AUDIO_FORMAT.to_owned(),
            input_audio_transcription: Some(TranscriptionConfig { model: transcription_model.to_owned() }),
            input_audio_noise_reduction: Some(
                NoiseReductionConfig { noise_reduction_type: "far_field".to_owned() },
            ),
            turn_detection: Some(
                TurnDetectionConfig {
                    detection_type: "server_vad".to_owned(),
                    threshold: Thousandths(VAD_THRESHOLD),
                    prefix_padding_ms: VAD_PREFIX_PADDING_MS,
                    silence_duration_ms: VAD_SILENCE_DURATION_MS,
                    interrupt_response: true,
                    create_response: true,
                },
            ),
            tools: Vec::new(),
            tool_choice: "none".to_owned(),
            temperature: Thousandths(TEMPERATURE),
            max_response_output_tokens: Some(MAX_OUTPUT_TOKENS),
        }
    }
}

impl ResponseConfig {
    /// The response that opens a conversation: a short spoken greeting in
    /// the given voice.
    pub fn greeting(voice: &str) -> (config: ResponseConfig)
        ensures
            config@ == greeting_response(voice@),
    {
        ResponseConfig {
            modalities: modalities(),
            instructions: Some(GREETING_INSTRUCTIONS.to_owned()),
            voice: Some(voice.to_owned()),
            output_audio_format: Some(AUDIO_FORMAT.to_owned()),
            tools: None,
            tool_choice: None,
            temperature: Some(Thousandths(TEMPERATURE)),
            max_output_tokens: Some(MAX_OUTPUT_TOKENS),
        }
    }
}

} // verus!
