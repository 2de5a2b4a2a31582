//! The conversation session: who may speak when.
//!
//! The session owns the conversation state and decides, for every event, how
//! that state and the audio buffers change and what the surroundings are to
//! do. It performs no input or output of its own.

use vstd::prelude::*;
use vstd::string::{StrSliceExecFns, StringExecFns};
use vstd::utf8::encode_utf8;
use crate::buffers::{AudioState, DuplexAudioBuffers};
use crate::effects::{ButtonText, ConnectionText, Effect, EffectView, Header, HeaderView, StatusText, StatusTextView, TransportRequest, TransportRequestView};
use crate::pcm16::{pcm16_decode, pcm16_samples};
use crate::protocol::{greeting_response, voice_chat_session, OpenAIRealtimeMessage, OpenAIRealtimeMessageView, OpenAIRealtimeResponse, ResponseConfig, SessionConfig};
use crate::wire_audio::{base64_standard_decoding, decode_wire_audio, encode_wire_audio, wire_audio};

verus! {

/// Where the realtime service is reached.
pub const REALTIME_URL: &'static str =
    "wss://api.openai.com/v1/realtime?model=gpt-4o-realtime-preview-2025-06-03";

/// Length of the transcript, in bytes of UTF-8, beyond which its beginning
/// is cut off.
pub const TRANSCRIPT_LIMIT: usize = 500;

/// Number of characters that are cut off the beginning of a transcript that
/// has grown beyond `TRANSCRIPT_LIMIT`.
pub const TRANSCRIPT_CUT: usize = 200;

/// What the user interface shows of its controls at the time of an event.
#[derive(Debug, PartialEq)]
pub struct UiControls {
    /// Whether the user may interrupt the assistant by speaking.
    pub interruptions_enabled: bool,
    /// The voice that is selected.
    pub selected_voice: String,
    /// The transcription model that is selected.
    pub transcription_model: String,
}

/// What a `UiControls` holds.
pub struct UiControlsView {
    pub interruptions_enabled: bool,
    pub selected_voice: Seq<char>,
    pub transcription_model: Seq<char>,
}

impl View for UiControls {
    type V = UiControlsView;

    open spec fn view(&self) -> UiControlsView {
        UiControlsView {
            interruptions_enabled: self.interruptions_enabled,
            selected_voice: self.selected_voice@,
            transcription_model: self.transcription_model@,
        }
    }
}

/// What the user has done to the controls since the last event.
#[derive(Debug, PartialEq)]
pub struct UiActions {
    /// The connect button was clicked.
    pub connect_clicked: bool,
    /// The reset button was clicked.
    pub reset_clicked: bool,
    /// The interruptions toggle was switched, and to what.
    pub interruptions_changed: Option<bool>,
    /// Another transcription model was selected.
    pub transcription_model_changed: bool,
}

/// What the transport reports.
#[derive(Debug, PartialEq)]
pub enum TransportEvent {
    /// The transport is open.
    Opened,
    /// A text frame has arrived: the message in it, or nothing where the
    /// text is no message that the client knows how to read.
    TextFrame(Option<OpenAIRealtimeResponse>),
    /// A binary frame has arrived. The protocol has no use for it.
    BinaryFrame(Vec<u8>),
    /// The transport has failed.
    Error(String),
    /// The transport is closed.
    Closed,
}

/// The state of a conversation session.
///
/// `user_is_interrupting` guards incoming audio: while it is set, audio
/// deltas are discarded. No event sets it; the end of a response clears it.
/// It is there for an embedding that confirms interruptions by some means of
/// its own.
#[derive(Debug, PartialEq)]
pub struct App {
    /// Whether the service has opened a session.
    pub is_connected: bool,
    /// Whether a conversation is under way.
    pub conversation_active: bool,
    /// What the assistant has said so far, as far as it is kept.
    pub current_transcript: String,
    /// The credential for the service, if there is one.
    pub openai_api_key: Option<String>,
    /// Whether the timer that drives the sending of captured audio runs.
    pub audio_streaming_timer: bool,
    /// Whether captured audio has been sent in this conversation.
    pub has_sent_audio: bool,
    /// Whether the assistant is in the middle of a response.
    pub ai_is_responding: bool,
    /// Whether the user is taken to be interrupting the assistant.
    pub user_is_interrupting: bool,
    /// The item of the response whose audio is arriving.
    pub current_assistant_item_id: Option<String>,
    /// The voice that the session was configured with.
    pub selected_voice: String,
}

/// What an `App` holds.
pub struct AppView {
    pub is_connected: bool,
    pub conversation_active: bool,
    pub current_transcript: Seq<char>,
    pub openai_api_key: Option<Seq<char>>,
    pub audio_streaming_timer: bool,
    pub has_sent_audio: bool,
    pub ai_is_responding: bool,
    pub user_is_interrupting: bool,
    pub current_assistant_item_id: Option<Seq<char>>,
    pub selected_voice: Seq<char>,
}

impl View for App {
    type V = AppView;

    open spec fn view(&self) -> AppView {
        AppView {
            is_connected: self.is_connected,
            conversation_active: self.conversation_active,
            current_transcript: self.current_transcript@,
            openai_api_key: self.openai_api_key.deep_view(),
            audio_streaming_timer: self.audio_streaming_timer,
            has_sent_audio: self.has_sent_audio,
            ai_is_responding: self.ai_is_responding,
            user_is_interrupting: self.user_is_interrupting,
            current_assistant_item_id: self.current_assistant_item_id.deep_view(),
            selected_voice: self.selected_voice@,
        }
    }
}

/// The outcome of a step that leaves the audio buffers alone: the session
/// after it, and what the surroundings are to do, in order.
pub struct Outcome {
    pub app: AppView,
    pub effects: Seq<EffectView>,
}

/// The outcome of one step of the session: the session and the audio
/// buffers after it, and what the surroundings are to do, in order.
pub struct Step {
    pub app: AppView,
    pub audio: AudioState,
    pub effects: Seq<EffectView>,
}

impl Step {
    /// The step that is followed by further effects.
    pub open spec fn then_effects(self, effects: Seq<EffectView>) -> Step {
        Step { effects: self.effects + effects, ..self }
    }
}

/// The transcript after `delta` has been added at its end. A transcript that
/// is then longer than `TRANSCRIPT_LIMIT` bytes of UTF-8 loses its first
/// `TRANSCRIPT_CUT` characters, or all of them if it has fewer.
pub open spec fn extended_transcript(transcript: Seq<char>, delta: Seq<char>) -> Seq<char> {
    let whole = transcript + delta;
    if encode_utf8(whole).len() > TRANSCRIPT_LIMIT {
        if whole.len() >= TRANSCRIPT_CUT {
            whole.skip(TRANSCRIPT_CUT as int)
        } else {
            Seq::empty()
        }
    } else {
        whole
    }
}

/// The request that opens the transport for the holder of `api_key`.
pub open spec fn transport_request(api_key: Seq<char>) -> TransportRequestView {
    TransportRequestView {
        url: REALTIME_URL@,
        headers: seq![
            HeaderView { name: "Authorization"@, value: "Bearer "@ + api_key },
            HeaderView { name: "OpenAI-Beta"@, value: "realtime=v1"@ },
        ],
    }
}

impl AppView {
    /// The session before anything has happened.
    pub open spec fn initial(api_key: Option<Seq<char>>) -> AppView {
        AppView {
            is_connected: false,
            conversation_active: false,
            current_transcript: Seq::empty(),
            openai_api_key: api_key,
            audio_streaming_timer: false,
            has_sent_audio: false,
            ai_is_responding: false,
            user_is_interrupting: false,
            current_assistant_item_id: None,
            selected_voice: Seq::empty(),
        }
    }

    /// What the connect button shows.
    pub open spec fn connect_button(self) -> ButtonText {
        if self.is_connected {
            ButtonText::Connected
        } else {
            ButtonText::Connect
        }
    }

    /// What a request to connect leads to: without a credential a notice,
    /// with one the opening of the transport.
    pub open spec fn connect(self) -> Seq<EffectView> {
        match self.openai_api_key {
            None => seq![EffectView::SetConnectionStatus(ConnectionText::MissingApiKey)],
            Some(api_key) => seq![
                EffectView::OpenTransport(transport_request(api_key)),
                EffectView::SetConnectionStatus(ConnectionText::Connecting),
            ],
        }
    }

    /// The session after it has taken the selected voice, and the session
    /// update that tells the service about it.
    pub open spec fn update_session_config(self, controls: UiControlsView) -> Outcome {
        Outcome {
            app: AppView { selected_voice: controls.selected_voice, ..self },
            effects: seq![
                EffectView::ShowSelectedVoice(controls.selected_voice),
                EffectView::Send(
                    OpenAIRealtimeMessageView::SessionUpdate {
                        session: voice_chat_session(controls.selected_voice, controls.transcription_model),
                    },
                ),
            ],
        }
    }

    /// The step that changes nothing and asks for nothing.
    pub open spec fn idle(self, audio: AudioState) -> Step {
        Step { app: self, audio, effects: Seq::empty() }
    }

    /// The start of a conversation. It needs a session; with one, both
    /// buffers are emptied, capture is switched on, the assistant is asked
    /// for a greeting and the streaming timer is started.
    pub open spec fn start_conversation(self, audio: AudioState) -> Step {
        if !self.is_connected {
            Step { app: self, audio, effects: seq![EffectView::SetStatus(StatusTextView::NotConnected)] }
        } else {
            Step {
                app: AppView {
                    conversation_active: true,
                    ai_is_responding: false,
                    has_sent_audio: false,
                    current_transcript: Seq::empty(),
                    audio_streaming_timer: true,
                    ..self
                },
                audio: audio.clear_audio().with_recording(true),
                effects: seq![
                    EffectView::Send(
                        OpenAIRealtimeMessageView::ResponseCreate {
                            response: greeting_response(self.selected_voice),
                        },
                    ),
                    EffectView::SetConnectButton(ButtonText::Connected),
                    EffectView::StartTimer,
                ],
            }
        }
    }

    /// The end of a conversation: capture is switched off, the pending
    /// playback audio is dropped and the streaming timer is stopped.
    pub open spec fn stop_conversation(self, audio: AudioState) -> Step {
        Step {
            app: AppView {
                conversation_active: false,
                ai_is_responding: false,
                audio_streaming_timer: false,
                ..self
            },
            audio: audio.with_recording(false).clear_playback(),
            effects: if self.audio_streaming_timer {
                seq![EffectView::StopTimer, EffectView::SetStatus(StatusTextView::ConversationStopped)]
            } else {
                seq![EffectView::SetStatus(StatusTextView::ConversationStopped)]
            },
        }
    }

    /// A reset: the conversation is stopped, the session forgotten, the
    /// display put back to what it showed at the start and the transport
    /// closed.
    pub open spec fn reset_all(self, audio: AudioState) -> Step {
        let stopped = self.stop_conversation(audio);
        Step {
            app: AppView {
                is_connected: false,
                has_sent_audio: false,
                current_transcript: Seq::empty(),
                ..stopped.app
            },
            audio: stopped.audio,
            effects: stopped.effects + seq![
                EffectView::SetStatus(StatusTextView::ReadyToConnect),
                EffectView::SetTranscript(Seq::empty()),
                EffectView::ShowVoiceSelector,
                EffectView::SetConnectButton(ButtonText::Connect),
                EffectView::CloseTransport,
            ],
        }
    }

    /// The audio buffers after `bytes` of PCM16 audio have arrived from the
    /// assistant. Audio is taken only while the assistant is responding.
    pub open spec fn add_audio_to_playback(self, audio: AudioState, bytes: Seq<u8>) -> AudioState {
        if self.ai_is_responding {
            audio.push_playback(pcm16_samples(bytes))
        } else {
            audio
        }
    }

    /// The sending of what has been captured: the capture buffer is emptied
    /// and its samples go out in one audio message. Nothing is sent where
    /// nothing was captured, nor where the samples have no text.
    pub open spec fn send_audio_chunk(self, audio: AudioState) -> Step {
        if audio.capture.len() == 0 {
            self.idle(audio)
        } else {
            match wire_audio(audio.capture) {
                Some(text) => Step {
                    app: AppView { has_sent_audio: true, ..self },
                    audio: audio.drain_capture(),
                    effects: seq![
                        EffectView::Send(OpenAIRealtimeMessageView::InputAudioBufferAppend { audio: text }),
                    ],
                },
                None => self.idle(audio.drain_capture()),
            }
        }
    }

    /// Whether a timer tick is to switch capture back on: nothing is left to
    /// play, the user may not interrupt, capture is off, a conversation is
    /// under way and the assistant is not responding.
    pub open spec fn resumes_recording(self, audio: AudioState, interruptions_enabled: bool) -> bool {
        &&& audio.playback.len() == 0
        &&& !interruptions_enabled
        &&& !audio.recording
        &&& self.conversation_active
        &&& !self.ai_is_responding
    }

    /// A tick of the streaming timer: while a conversation is under way,
    /// what has been captured is sent; after that, capture is switched back
    /// on where `resumes_recording` says so.
    pub open spec fn timer(self, audio: AudioState, interruptions_enabled: bool) -> Step {
        if !self.audio_streaming_timer {
            self.idle(audio)
        } else {
            let sent = if self.conversation_active {
                self.send_audio_chunk(audio)
            } else {
                self.idle(audio)
            };
            if sent.app.resumes_recording(sent.audio, interruptions_enabled) {
                Step {
                    app: sent.app,
                    audio: sent.audio.with_recording(true),
                    effects: sent.effects.push(EffectView::SetStatus(StatusTextView::Listening)),
                }
            } else {
                sent
            }
        }
    }

    /// The arrival of a piece of the assistant's audio, `decoded` being the
    /// bytes that its base64 text stands for.
    ///
    /// While the user is interrupting, the piece is discarded. Otherwise the
    /// assistant counts as responding, and the item of the first piece of a
    /// turn is remembered. During a conversation capture follows the
    /// interruptions switch: off where the user may not interrupt, so that
    /// the assistant does not hear itself, on where the user may. The audio
    /// is queued for playback, unless the text was no base64.
    pub open spec fn audio_delta(
        self,
        audio: AudioState,
        interruptions_enabled: bool,
        item_id: Seq<char>,
        decoded: Option<Seq<u8>>,
    ) -> Step {
        if self.user_is_interrupting {
            self.idle(audio)
        } else {
            let app = AppView {
                ai_is_responding: true,
                current_assistant_item_id: match self.current_assistant_item_id {
                    Some(id) => Some(id),
                    None => Some(item_id),
                },
                ..self
            };
            let switched = if self.conversation_active {
                audio.with_recording(interruptions_enabled)
            } else {
                audio
            };
            Step {
                app,
                audio: match decoded {
                    Some(bytes) => app.add_audio_to_playback(switched, bytes),
                    None => switched,
                },
                effects: seq![EffectView::SetStatus(StatusTextView::PlayingAudio)],
            }
        }
    }

    /// The arrival of a piece of the transcript of what the assistant says.
    pub open spec fn transcript_delta(self, audio: AudioState, delta: Seq<char>) -> Step {
        let transcript = extended_transcript(self.current_transcript, delta);
        Step {
            app: AppView { ai_is_responding: true, current_transcript: transcript, ..self },
            audio,
            effects: seq![EffectView::SetTranscript(transcript)],
        }
    }

    /// The end of a response. The assistant no longer counts as responding
    /// and the user no longer as interrupting. During a conversation capture
    /// is switched back on at once where the user may interrupt; where not,
    /// only if nothing is left to play.
    pub open spec fn response_done(self, audio: AudioState, interruptions_enabled: bool) -> Step {
        let app = AppView {
            user_is_interrupting: false,
            ai_is_responding: false,
            current_assistant_item_id: None,
            ..self
        };
        if !self.conversation_active {
            app.idle(audio)
        } else if interruptions_enabled || audio.playback.len() == 0 {
            Step {
                app,
                audio: audio.with_recording(true),
                effects: seq![EffectView::SetStatus(StatusTextView::ResponseListening)],
            }
        } else {
            Step { app, audio, effects: seq![EffectView::SetStatus(StatusTextView::ResponsePlaying)] }
        }
    }

    /// The user has begun to speak: whatever the assistant was saying is cut
    /// off, and during a conversation capture is switched on.
    pub open spec fn speech_started(self, audio: AudioState) -> Step {
        let cut = audio.interrupt_playback();
        Step {
            app: self,
            audio: if self.conversation_active {
                cut.with_recording(true)
            } else {
                cut
            },
            effects: seq![EffectView::SetStatus(StatusTextView::UserSpeechDetected)],
        }
    }

    /// The user has stopped speaking: during a conversation capture is
    /// switched off while the answer is awaited.
    pub open spec fn speech_stopped(self, audio: AudioState) -> Step {
        Step {
            app: self,
            audio: if self.conversation_active {
                audio.with_recording(false)
            } else {
                audio
            },
            effects: seq![EffectView::SetStatus(StatusTextView::Processing)],
        }
    }

    /// The service reports an error: it is shown, and during a conversation
    /// capture is switched on, so that the user is not left muted.
    pub open spec fn service_error(self, audio: AudioState, message: Seq<char>) -> Step {
        Step {
            app: self,
            audio: if self.conversation_active {
                audio.with_recording(true)
            } else {
                audio
            },
            effects: seq![EffectView::SetStatus(StatusTextView::Error(message))],
        }
    }

    /// The service has opened a session: the session is configured.
    pub open spec fn session_created(self, audio: AudioState, controls: UiControlsView) -> Step {
        let connected = AppView { is_connected: true, ..self };
        let configured = connected.update_session_config(controls);
        Step {
            app: configured.app,
            audio,
            effects: seq![
                EffectView::SetStatus(StatusTextView::SessionReady),
                EffectView::SetConnectionStatus(ConnectionText::Connected),
            ] + configured.effects + seq![EffectView::SetConnectButton(ButtonText::Connected)],
        }
    }

    /// The service has taken the session's configuration: the conversation
    /// starts.
    pub open spec fn session_updated(self, audio: AudioState) -> Step {
        let started = self.start_conversation(audio);
        Step {
            effects: seq![EffectView::SetStatus(StatusTextView::SessionConfigured)] + started.effects,
            ..started
        }
    }

    /// What a message from the service leads to.
    pub open spec fn response(
        self,
        audio: AudioState,
        controls: UiControlsView,
        response: OpenAIRealtimeResponse,
    ) -> Step {
        match response {
            OpenAIRealtimeResponse::SessionCreated { .. } => self.session_created(audio, controls),
            OpenAIRealtimeResponse::SessionUpdated { .. } => self.session_updated(audio),
            OpenAIRealtimeResponse::ResponseAudioDelta { item_id, delta, .. } => self.audio_delta(
                audio,
                controls.interruptions_enabled,
                item_id@,
                base64_standard_decoding(delta@),
            ),
            OpenAIRealtimeResponse::ResponseAudioTranscriptDelta { delta, .. } => self.transcript_delta(
                audio,
                delta@,
            ),
            OpenAIRealtimeResponse::ResponseDone { .. } => self.response_done(
                audio,
                controls.interruptions_enabled,
            ),
            OpenAIRealtimeResponse::InputAudioBufferSpeechStarted { .. } => self.speech_started(audio),
            OpenAIRealtimeResponse::InputAudioBufferSpeechStopped { .. } => self.speech_stopped(audio),
            OpenAIRealtimeResponse::ConversationItemCreated { .. } => Step {
                app: self,
                audio,
                effects: seq![EffectView::SetStatus(StatusTextView::UserSpeechTranscribed)],
            },
            OpenAIRealtimeResponse::ConversationItemTruncated { .. } => Step {
                app: self,
                audio,
                effects: seq![EffectView::SetStatus(StatusTextView::AiSpeechTruncated)],
            },
            OpenAIRealtimeResponse::Error { error } => self.service_error(audio, error.message@),
            OpenAIRealtimeResponse::ResponseAudioDone { .. } => self.idle(audio),
            OpenAIRealtimeResponse::ResponseTextDelta { .. } => self.idle(audio),
            OpenAIRealtimeResponse::Other => self.idle(audio),
        }
    }

    /// The transport is gone: the session is over and no conversation is
    /// under way. Nothing reconnects by itself.
    pub open spec fn disconnected(self) -> AppView {
        AppView { is_connected: false, conversation_active: false, ..self }
    }

    /// What a report of the transport leads to.
    pub open spec fn transport_event(
        self,
        audio: AudioState,
        controls: UiControlsView,
        event: TransportEvent,
    ) -> Step {
        match event {
            TransportEvent::Opened => self.idle(audio),
            TransportEvent::TextFrame(Some(response)) => self.response(audio, controls, response),
            TransportEvent::TextFrame(None) => self.idle(audio),
            TransportEvent::BinaryFrame(_) => self.idle(audio),
            TransportEvent::Error(message) => Step {
                app: self.disconnected(),
                audio,
                effects: seq![
                    EffectView::SetStatus(StatusTextView::Error(message@)),
                    EffectView::SetConnectionStatus(ConnectionText::Disconnected),
                    EffectView::SetConnectButton(ButtonText::Connect),
                ],
            },
            TransportEvent::Closed => Step {
                app: self.disconnected(),
                audio,
                effects: seq![
                    EffectView::SetConnectionStatus(ConnectionText::Disconnected),
                    EffectView::SetConnectButton(ButtonText::Connect),
                ],
            },
        }
    }

    /// What the user's actions lead to, taken in this order: connect, reset,
    /// the interruptions toggle, the choice of a transcription model.
    /// Switching interruptions on switches capture on.
    pub open spec fn actions(self, audio: AudioState, controls: UiControlsView, actions: UiActions) -> Step {
        let connected = if actions.connect_clicked {
            self.idle(audio).then_effects(self.connect())
        } else {
            self.idle(audio)
        };
        let reset = if actions.reset_clicked {
            let step = connected.app.reset_all(connected.audio);
            Step { effects: connected.effects + step.effects, ..step }
        } else {
            connected
        };
        let toggled = if actions.interruptions_changed == Some(true) {
            Step { audio: reset.audio.with_recording(true), ..reset }
        } else {
            reset
        };
        if actions.transcription_model_changed {
            let configured = toggled.app.update_session_config(controls);
            Step { app: configured.app, audio: toggled.audio, effects: toggled.effects + configured.effects }
        } else {
            toggled
        }
    }
}

/// A list of one effect.
fn one_effect(effect: Effect) -> (effects: Vec<Effect>)
    ensures
        effects.deep_view() == seq![effect@],
{
    let mut effects: Vec<Effect> = Vec::new();
    effects.push(effect);
    assert(effects.deep_view() =~= seq![effect@]);
    effects
}

/// Adds one effect at the end of a list.
fn push_effect(effects: &mut Vec<Effect>, effect: Effect)
    ensures
        final(effects).deep_view() == old(effects).deep_view().push(effect@),
{
    effects.push(effect);
    assert(effects.deep_view() =~= old(effects).deep_view().push(effect@));
}

/// Adds a list of effects at the end of a list.
fn append_effects(effects: &mut Vec<Effect>, more: Vec<Effect>)
    ensures
        final(effects).deep_view() == old(effects).deep_view() + more.deep_view(),
{
    let ghost added = more.deep_view();
    let mut more = more;
    effects.append(&mut more);
    assert(effects.deep_view() =~= old(effects).deep_view() + added);
}

impl App {
    /// A session that has not connected yet.
    pub fn new(openai_api_key: Option<String>) -> (app: App)
        ensures
            app@ == AppView::initial(openai_api_key.deep_view()),
    {
        App {
            is_connected: false,
            conversation_active: false,
            current_transcript: String::new(),
            openai_api_key,
            audio_streaming_timer: false,
            has_sent_audio: false,
            ai_is_responding: false,
            user_is_interrupting: false,
            current_assistant_item_id: None,
            selected_voice: String::new(),
        }
    }

    /// What the connect button is to show.
    pub fn update_ui_state(&self) -> (effect: Effect)
        ensures
            effect@ == EffectView::SetConnectButton(self@.connect_button()),
    {
        if self.is_connected {
            Effect::SetConnectButton(ButtonText::Connected)
        } else {
            Effect::SetConnectButton(ButtonText::Connect)
        }
    }

    /// Answers a request to connect. Without a credential the request fails
    /// with a notice to the user; with one, the transport is to be opened at
    /// the realtime endpoint, with the credential as bearer token and the
    /// header that names the protocol version.
    pub fn connect_to_openai(&self) -> (effects: Vec<Effect>)
        ensures
            effects.deep_view() == self@.connect(),
    {
        match &self.openai_api_key {
            None => one_effect(Effect::SetConnectionStatus(ConnectionText::MissingApiKey)),
            Some(api_key) => {
                let mut headers: Vec<Header> = Vec::new();
                headers.push(
                    Header {
                        name: "Authorization".to_owned(),
                        value: "Bearer ".to_owned().concat(api_key.as_str()),
                    },
                );
                headers.push(Header { name: "OpenAI-Beta".to_owned(), value: "realtime=v1".to_owned() });
                let request = TransportRequest { url: REALTIME_URL.to_owned(), headers };
                assert(request@.headers =~= transport_request(api_key@).headers);
                let mut effects: Vec<Effect> = one_effect(Effect::OpenTransport(request));
                push_effect(&mut effects, Effect::SetConnectionStatus(ConnectionText::Connecting));
                assert(effects.deep_view() =~= self@.connect());
                effects
            },
        }
    }

    /// Takes the selected voice and tells the service how the session is to
    /// be: the audio formats, the transcription model, and how turns are
    /// detected.
    pub fn update_session_config(&mut self, controls: &UiControls) -> (effects: Vec<Effect>)
        ensures
            final(self)@ == old(self)@.update_session_config(controls@).app,
            effects.deep_view() == old(self)@.update_session_config(controls@).effects,
    {
        self.selected_voice = controls.selected_voice.clone();
        let session = SessionConfig::voice_chat(
            self.selected_voice.as_str(),
            controls.transcription_model.as_str(),
        );
        let mut effects: Vec<Effect> = one_effect(Effect::ShowSelectedVoice(self.selected_voice.clone()));
        push_effect(&mut effects, Effect::Send(OpenAIRealtimeMessage::SessionUpdate { session }));
        assert(effects.deep_view() =~= old(self)@.update_session_config(controls@).effects);
        effects
    }

    /// Starts a conversation, if there is a session: empties both audio
    /// buffers, switches capture on, asks the assistant for a greeting and
    /// has the streaming timer started.
    pub fn start_conversation(&mut self, buffers: &mut DuplexAudioBuffers) -> (effects: Vec<Effect>)
        ensures
            final(self)@ == old(self)@.start_conversation(old(buffers)@).app,
            final(buffers)@ == old(self)@.start_conversation(old(buffers)@).audio,
            effects.deep_view() == old(self)@.start_conversation(old(buffers)@).effects,
    {
        if !self.is_connected {
            return one_effect(Effect::SetStatus(StatusText::NotConnected));
        }
        self.conversation_active = true;
        self.ai_is_responding = false;
        self.has_sent_audio = false;
        buffers.clear_audio();
        buffers.set_recording(true);
        self.current_transcript = String::new();
        let response = ResponseConfig::greeting(self.selected_voice.as_str());
        let mut effects: Vec<Effect> = one_effect(Effect::Send(OpenAIRealtimeMessage::ResponseCreate { response }));
        push_effect(&mut effects, self.update_ui_state());
        self.audio_streaming_timer = true;
        push_effect(&mut effects, Effect::StartTimer);
        assert(effects.deep_view() =~= old(self)@.start_conversation(old(buffers)@).effects);
        effects
    }

    /// Stops the conversation: switches capture off, drops the pending
    /// playback audio and has the streaming timer stopped.
    pub fn stop_conversation(&mut self, buffers: &mut DuplexAudioBuffers) -> (effects: Vec<Effect>)
        ensures
            final(self)@ == old(self)@.stop_conversation(old(buffers)@).app,
            final(buffers)@ == old(self)@.stop_conversation(old(buffers)@).audio,
            effects.deep_view() == old(self)@.stop_conversation(old(buffers)@).effects,
    {
        self.conversation_active = false;
        self.ai_is_responding = false;
        buffers.set_recording(false);
        let mut effects: Vec<Effect> = Vec::new();
        if self.audio_streaming_timer {
            self.audio_streaming_timer = false;
            push_effect(&mut effects, Effect::StopTimer);
        }
        buffers.clear_playback();
        push_effect(&mut effects, Effect::SetStatus(StatusText::ConversationStopped));
        assert(effects.deep_view() =~= old(self)@.stop_conversation(old(buffers)@).effects);
        effects
    }

    /// Resets everything: stops the conversation, forgets the session, puts
    /// the display back to what it showed at the start and has the transport
    /// closed.
    pub fn reset_all(&mut self, buffers: &mut DuplexAudioBuffers) -> (effects: Vec<Effect>)
        ensures
            final(self)@ == old(self)@.reset_all(old(buffers)@).app,
            final(buffers)@ == old(self)@.reset_all(old(buffers)@).audio,
            effects.deep_view() == old(self)@.reset_all(old(buffers)@).effects,
    {
        let mut effects: Vec<Effect> = self.stop_conversation(buffers);
        self.is_connected = false;
        self.has_sent_audio = false;
        self.current_transcript = String::new();
        push_effect(&mut effects, Effect::SetStatus(StatusText::ReadyToConnect));
        push_effect(&mut effects, Effect::SetTranscript(String::new()));
        push_effect(&mut effects, Effect::ShowVoiceSelector);
        push_effect(&mut effects, self.update_ui_state());
        push_effect(&mut effects, Effect::CloseTransport);
        assert(effects.deep_view() =~= old(self)@.reset_all(old(buffers)@).effects);
        effects
    }

    /// Queues PCM16 audio from the assistant for playback. Audio that
    /// arrives while the assistant is not responding belongs to a turn that
    /// is over, and is dropped.
    pub fn add_audio_to_playback(&self, buffers: &mut DuplexAudioBuffers, audio_bytes: Vec<u8>)
        ensures
            final(buffers)@ == self@.add_audio_to_playback(old(buffers)@, audio_bytes@),
            !self@.ai_is_responding ==> final(buffers)@ == old(buffers)@,
    {
        if !self.ai_is_responding {
            return ;
        }
        let samples: Vec<i16> = pcm16_decode(audio_bytes.as_slice());
        buffers.push_playback(samples.as_slice());
    }

    /// Sends what has been captured since the last time: takes the samples
    /// out of the capture buffer and has them sent as one audio message.
    pub fn send_audio_chunk_to_openai(&mut self, buffers: &mut DuplexAudioBuffers) -> (effects: Vec<Effect>)
        ensures
            final(self)@ == old(self)@.send_audio_chunk(old(buffers)@).app,
            final(buffers)@ == old(self)@.send_audio_chunk(old(buffers)@).audio,
            effects.deep_view() == old(self)@.send_audio_chunk(old(buffers)@).effects,
    {
        let mut effects: Vec<Effect> = Vec::new();
        if let Some(samples) = buffers.drain_capture() {
            if let Some(audio) = encode_wire_audio(samples.as_slice()) {
                push_effect(&mut effects, Effect::Send(OpenAIRealtimeMessage::InputAudioBufferAppend { audio }));
                self.has_sent_audio = true;
            }
        } else {
            assert(old(buffers)@.capture =~= Seq::empty());
        }
        assert(effects.deep_view() =~= old(self)@.send_audio_chunk(old(buffers)@).effects);
        effects
    }

    /// Handles a tick of the streaming timer: sends what has been captured,
    /// and switches capture back on where the end of the assistant's turn
    /// has gone by without doing so.
    pub fn handle_timer(&mut self, buffers: &mut DuplexAudioBuffers, interruptions_enabled: bool) -> (effects: Vec<Effect>)
        ensures
            final(self)@ == old(self)@.timer(old(buffers)@, interruptions_enabled).app,
            final(buffers)@ == old(self)@.timer(old(buffers)@, interruptions_enabled).audio,
            effects.deep_view() == old(self)@.timer(old(buffers)@, interruptions_enabled).effects,
    {
        let mut effects: Vec<Effect> = Vec::new();
        if !self.audio_streaming_timer {
            assert(effects.deep_view() =~= Seq::<EffectView>::empty());
            return effects;
        }
        if self.conversation_active {
            effects = self.send_audio_chunk_to_openai(buffers);
        }
        if buffers.playback_audio().len() == 0 && !interruptions_enabled && !buffers.is_recording()
            && self.conversation_active && !self.ai_is_responding {
            buffers.set_recording(true);
            push_effect(&mut effects, Effect::SetStatus(StatusText::Listening));
        }
        assert(effects.deep_view() =~= old(self)@.timer(old(buffers)@, interruptions_enabled).effects);
        effects
    }

    /// Handles a piece of the assistant's audio.
    fn handle_audio_delta(
        &mut self,
        buffers: &mut DuplexAudioBuffers,
        interruptions_enabled: bool,
        item_id: String,
        delta: String,
    ) -> (effects: Vec<Effect>)
        ensures
            final(self)@ == old(self)@.audio_delta(
                old(buffers)@,
                interruptions_enabled,
                item_id@,
                base64_standard_decoding(delta@),
            ).app,
            final(buffers)@ == old(self)@.audio_delta(
                old(buffers)@,
                interruptions_enabled,
                item_id@,
                base64_standard_decoding(delta@),
            ).audio,
            effects.deep_view() == old(self)@.audio_delta(
                old(buffers)@,
                interruptions_enabled,
                item_id@,
                base64_standard_decoding(delta@),
            ).effects,
    {
        if self.user_is_interrupting {
            let effects: Vec<Effect> = Vec::new();
            assert(effects.deep_view() =~= Seq::<EffectView>::empty());
            return effects;
        }
        if self.current_assistant_item_id.is_none() {
            self.current_assistant_item_id = Some(item_id);
        }
        self.ai_is_responding = true;
        if self.conversation_active {
            buffers.set_recording(interruptions_enabled);
        }
        if let Some(audio_bytes) = decode_wire_audio(delta.as_str()) {
            assert(audio_bytes.deep_view() =~= audio_bytes@);
            self.add_audio_to_playback(buffers, audio_bytes);
        }
        one_effect(Effect::SetStatus(StatusText::PlayingAudio))
    }

    /// Handles the end of a response.
    fn handle_response_done(&mut self, buffers: &mut DuplexAudioBuffers, interruptions_enabled: bool) -> (effects: Vec<Effect>)
        ensures
            final(self)@ == old(self)@.response_done(old(buffers)@, interruptions_enabled).app,
            final(buffers)@ == old(self)@.response_done(old(buffers)@, interruptions_enabled).audio,
            effects.deep_view() == old(self)@.response_done(old(buffers)@, interruptions_enabled).effects,
    {
        self.user_is_interrupting = false;
        self.ai_is_responding = false;
        self.current_assistant_item_id = None;
        if !self.conversation_active {
            let effects: Vec<Effect> = Vec::new();
            assert(effects.deep_view() =~= Seq::<EffectView>::empty());
            effects
        } else if interruptions_enabled || buffers.playback_audio().len() == 0 {
            buffers.set_recording(true);
            one_effect(Effect::SetStatus(StatusText::ResponseListening))
        } else {
            one_effect(Effect::SetStatus(StatusText::ResponsePlaying))
        }
    }

    /// Handles a message from the service.
    ///
    /// The kind of the message decides what happens; most of what else a
    /// message holds is of no account. A new session is configured; a
    /// configured session starts the conversation; audio and transcript of
    /// the assistant are taken in; the end of a response and the start and
    /// end of the user's speech move the microphone and the playback between
    /// the two speakers; an error is shown. Messages of any other kind are
    /// ignored.
    pub fn handle_openai_message(
        &mut self,
        buffers: &mut DuplexAudioBuffers,
        controls: &UiControls,
        response: OpenAIRealtimeResponse,
    ) -> (effects: Vec<Effect>)
        ensures
            final(self)@ == old(self)@.response(old(buffers)@, controls@, response).app,
            final(buffers)@ == old(self)@.response(old(buffers)@, controls@, response).audio,
            effects.deep_view() == old(self)@.response(old(buffers)@, controls@, response).effects,
    {
        let ghost step = old(self)@.response(old(buffers)@, controls@, response);
        match response {
            OpenAIRealtimeResponse::SessionCreated { .. } => {
                let mut effects: Vec<Effect> = one_effect(Effect::SetStatus(StatusText::SessionReady));
                self.is_connected = true;
                push_effect(&mut effects, Effect::SetConnectionStatus(ConnectionText::Connected));
                let configured: Vec<Effect> = self.update_session_config(controls);
                append_effects(&mut effects, configured);
                push_effect(&mut effects, self.update_ui_state());
                assert(effects.deep_view() =~= step.effects);
                effects
            },
            OpenAIRealtimeResponse::SessionUpdated { .. } => {
                let mut effects: Vec<Effect> = one_effect(Effect::SetStatus(StatusText::SessionConfigured));
                let started: Vec<Effect> = self.start_conversation(buffers);
                append_effects(&mut effects, started);
                effects
            },
            OpenAIRealtimeResponse::ResponseAudioDelta { item_id, delta, .. } => {
                self.handle_audio_delta(buffers, controls.interruptions_enabled, item_id, delta)
            },
            OpenAIRealtimeResponse::ResponseAudioTranscriptDelta { delta, .. } => {
                self.ai_is_responding = true;
                extend_transcript(&mut self.current_transcript, delta.as_str());
                one_effect(Effect::SetTranscript(self.current_transcript.clone()))
            },
            OpenAIRealtimeResponse::ResponseDone { .. } => {
                self.handle_response_done(buffers, controls.interruptions_enabled)
            },
            OpenAIRealtimeResponse::InputAudioBufferSpeechStarted { .. } => {
                buffers.interrupt_playback();
                if self.conversation_active {
                    buffers.set_recording(true);
                }
                one_effect(Effect::SetStatus(StatusText::UserSpeechDetected))
            },
            OpenAIRealtimeResponse::InputAudioBufferSpeechStopped { .. } => {
                if self.conversation_active {
                    buffers.set_recording(false);
                }
                one_effect(Effect::SetStatus(StatusText::Processing))
            },
            OpenAIRealtimeResponse::ConversationItemCreated { .. } => {
                one_effect(Effect::SetStatus(StatusText::UserSpeechTranscribed))
            },
            OpenAIRealtimeResponse::ConversationItemTruncated { .. } => {
                one_effect(Effect::SetStatus(StatusText::AiSpeechTruncated))
            },
            OpenAIRealtimeResponse::Error { error } => {
                if self.conversation_active {
                    buffers.set_recording(true);
                }
                one_effect(Effect::SetStatus(StatusText::Error(error.message)))
            },
            _ => {
                let effects: Vec<Effect> = Vec::new();
                assert(effects.deep_view() =~= Seq::<EffectView>::empty());
                effects
            },
        }
    }

    /// Handles a report of the transport.
    ///
    /// A text frame is handled as the message in it; a frame that holds no
    /// readable message is dropped. When the transport fails or closes, the
    /// session is over and so is the conversation; it takes a new request to
    /// connect to go on.
    pub fn handle_websocket_message(
        &mut self,
        buffers: &mut DuplexAudioBuffers,
        controls: &UiControls,
        message: TransportEvent,
    ) -> (effects: Vec<Effect>)
        ensures
            final(self)@ == old(self)@.transport_event(old(buffers)@, controls@, message).app,
            final(buffers)@ == old(self)@.transport_event(old(buffers)@, controls@, message).audio,
            effects.deep_view() == old(self)@.transport_event(old(buffers)@, controls@, message).effects,
    {
        let ghost step = old(self)@.transport_event(old(buffers)@, controls@, message);
        match message {
            TransportEvent::TextFrame(Some(response)) => self.handle_openai_message(buffers, controls, response),
            TransportEvent::Error(error) => {
                self.is_connected = false;
                self.conversation_active = false;
                let mut effects: Vec<Effect> = one_effect(Effect::SetStatus(StatusText::Error(error)));
                push_effect(&mut effects, Effect::SetConnectionStatus(ConnectionText::Disconnected));
                push_effect(&mut effects, self.update_ui_state());
                assert(effects.deep_view() =~= step.effects);
                effects
            },
            TransportEvent::Closed => {
                self.is_connected = false;
                self.conversation_active = false;
                let mut effects: Vec<Effect> = one_effect(
                    Effect::SetConnectionStatus(ConnectionText::Disconnected),
                );
                push_effect(&mut effects, self.update_ui_state());
                assert(effects.deep_view() =~= step.effects);
                effects
            },
            _ => {
                let effects: Vec<Effect> = Vec::new();
                assert(effects.deep_view() =~= Seq::<EffectView>::empty());
                effects
            },
        }
    }

    /// Handles what the user has done to the controls: a click on connect, a
    /// click on reset, a switch of the interruptions toggle and the choice of
    /// a transcription model, in this order.
    pub fn handle_actions(
        &mut self,
        buffers: &mut DuplexAudioBuffers,
        controls: &UiControls,
        actions: &UiActions,
    ) -> (effects: Vec<Effect>)
        ensures
            final(self)@ == old(self)@.actions(old(buffers)@, controls@, *actions).app,
            final(buffers)@ == old(self)@.actions(old(buffers)@, controls@, *actions).audio,
            effects.deep_view() == old(self)@.actions(old(buffers)@, controls@, *actions).effects,
    {
        let mut effects: Vec<Effect> = Vec::new();
        assert(effects.deep_view() =~= Seq::<EffectView>::empty());
        if actions.connect_clicked {
            let connected: Vec<Effect> = self.connect_to_openai();
            append_effects(&mut effects, connected);
        }
        if actions.reset_clicked {
            let reset: Vec<Effect> = self.reset_all(buffers);
            append_effects(&mut effects, reset);
        }
        match actions.interruptions_changed {
            Some(true) => {
                buffers.set_recording(true);
            },
            _ => {},
        }
        if actions.transcription_model_changed {
            let configured: Vec<Effect> = self.update_session_config(controls);
            append_effects(&mut effects, configured);
        }
        assert(effects.deep_view() =~= old(self)@.actions(old(buffers)@, controls@, *actions).effects);
        effects
    }
}

/// Adds `delta` at the end of a transcript and keeps the transcript within
/// bounds.
fn extend_transcript(transcript: &mut String, delta: &str)
    ensures
        final(transcript)@ == extended_transcript(old(transcript)@, delta@),
{
    transcript.append(delta);
    if transcript.as_str().as_bytes().len() > TRANSCRIPT_LIMIT {
        let count: usize = transcript.as_str().unicode_len();
        if count >= TRANSCRIPT_CUT {
            let kept: String = transcript.as_str().substring_char(TRANSCRIPT_CUT, count).to_owned();
            assert(kept@ =~= (old(transcript)@ + delta@).skip(TRANSCRIPT_CUT as int));
            *transcript = kept;
        } else {
            *transcript = String::new();
        }
    }
}

/// Once the start of the user's speech has been handled, nothing is left to
/// play, playback is off and the cursor is at the start, whatever the
/// buffers held before.
pub proof fn lemma_speech_started_clears_playback(
    app: AppView,
    audio: AudioState,
    controls: UiControlsView,
    response: OpenAIRealtimeResponse,
)
    requires
        response is InputAudioBufferSpeechStarted,
    ensures
        app.response(audio, controls, response).audio.playback.len() == 0,
        !app.response(audio, controls, response).audio.playing,
        app.response(audio, controls, response).audio.cursor == 0,
        app.conversation_active ==> app.response(audio, controls, response).audio.recording,
{
}

/// Audio that arrives while the assistant is not responding leaves the
/// buffers as they are.
pub proof fn lemma_stray_audio_is_dropped(app: AppView, audio: AudioState, bytes: Seq<u8>)
    requires
        !app.ai_is_responding,
    ensures
        app.add_audio_to_playback(audio, bytes) == audio,
{
}

/// A piece of the assistant's audio that arrives while the user is
/// interrupting, or whose text is no base64, leaves the playback buffer as
/// it is.
pub proof fn lemma_unplayable_audio_keeps_playback(
    app: AppView,
    audio: AudioState,
    controls: UiControlsView,
    response: OpenAIRealtimeResponse,
)
    requires
        response is ResponseAudioDelta,
        app.user_is_interrupting || base64_standard_decoding(response->ResponseAudioDelta_delta@) is None,
    ensures
        app.response(audio, controls, response).audio.playback == audio.playback,
        app.response(audio, controls, response).audio.cursor == audio.cursor,
        app.response(audio, controls, response).audio.playing == audio.playing,
{
}

/// Any other piece of the assistant's audio is queued for playback: behind
/// what is playing, or in place of what was left over while nothing played.
pub proof fn lemma_playable_audio_is_queued(
    app: AppView,
    audio: AudioState,
    controls: UiControlsView,
    response: OpenAIRealtimeResponse,
)
    requires
        response is ResponseAudioDelta,
        !app.user_is_interrupting,
        base64_standard_decoding(response->ResponseAudioDelta_delta@) is Some,
    ensures
        app.response(audio, controls, response).audio.playing,
        app.response(audio, controls, response).audio.playback == if audio.playing {
            audio.playback + pcm16_samples(base64_standard_decoding(response->ResponseAudioDelta_delta@)->0)
        } else {
            pcm16_samples(base64_standard_decoding(response->ResponseAudioDelta_delta@)->0)
        },
{
}

/// While the user is interrupting, a piece of the assistant's audio changes
/// nothing at all.
pub proof fn lemma_interrupted_audio_is_discarded(
    app: AppView,
    audio: AudioState,
    controls: UiControlsView,
    response: OpenAIRealtimeResponse,
)
    requires
        response is ResponseAudioDelta,
        app.user_is_interrupting,
    ensures
        app.response(audio, controls, response) == app.idle(audio),
{
}

/// A piece of the assistant's audio that is taken in during a conversation
/// sets capture to what the interruptions switch says: off where the user
/// may not interrupt, so that the assistant does not hear itself.
pub proof fn lemma_assistant_audio_mutes_capture(
    app: AppView,
    audio: AudioState,
    controls: UiControlsView,
    response: OpenAIRealtimeResponse,
)
    requires
        response is ResponseAudioDelta,
        app.conversation_active,
        !app.user_is_interrupting,
    ensures
        app.response(audio, controls, response).audio.recording == controls.interruptions_enabled,
        app.response(audio, controls, response).app.ai_is_responding,
{
}

/// Where the user may not interrupt, the end of a response leaves capture
/// off while audio is left to play; the first tick of the timer that finds
/// the playback buffer empty switches capture on.
pub proof fn lemma_turn_resume_policy(app: AppView, audio: AudioState, later: AudioState)
    requires
        app.conversation_active,
        app.audio_streaming_timer,
        !audio.recording,
        audio.playback.len() > 0,
        later.playback.len() == 0,
    ensures
        !app.response_done(audio, false).audio.recording,
        app.response_done(audio, false).app.timer(later, false).audio.recording,
{
}

/// Where the user may interrupt, or nothing is left to play, the end of a
/// response switches capture on at once.
pub proof fn lemma_response_done_resumes(app: AppView, audio: AudioState, interruptions_enabled: bool)
    requires
        app.conversation_active,
        interruptions_enabled || audio.playback.len() == 0,
    ensures
        app.response_done(audio, interruptions_enabled).audio.recording,
{
}

/// No step of the session breaks the invariant of the audio buffers.
pub proof fn lemma_steps_keep_audio_well_formed(
    app: AppView,
    audio: AudioState,
    controls: UiControlsView,
    response: OpenAIRealtimeResponse,
    event: TransportEvent,
    actions: UiActions,
)
    requires
        audio.well_formed(),
    ensures
        app.response(audio, controls, response).audio.well_formed(),
        app.transport_event(audio, controls, event).audio.well_formed(),
        app.timer(audio, controls.interruptions_enabled).audio.well_formed(),
        app.actions(audio, controls, actions).audio.well_formed(),
        app.start_conversation(audio).audio.well_formed(),
        app.stop_conversation(audio).audio.well_formed(),
        app.reset_all(audio).audio.well_formed(),
{
}

/// Outside a conversation nothing is sent on a tick of the timer, and
/// capture stays as it is.
pub proof fn lemma_idle_timer_is_silent(app: AppView, audio: AudioState, interruptions_enabled: bool)
    requires
        !app.conversation_active,
    ensures
        app.timer(audio, interruptions_enabled) == app.idle(audio),
{
}

/// What a tick of the timer sends is all that was captured, in the order of
/// capture, and the capture buffer is empty afterwards.
pub proof fn lemma_timer_sends_all_captured(app: AppView, audio: AudioState, interruptions_enabled: bool)
    requires
        app.conversation_active,
        app.audio_streaming_timer,
        audio.capture.len() > 0,
    ensures
        app.timer(audio, interruptions_enabled).audio.capture.len() == 0,
        wire_audio(audio.capture) matches Some(text) ==> app.timer(audio, interruptions_enabled).effects[0]
            == EffectView::Send(OpenAIRealtimeMessageView::InputAudioBufferAppend { audio: text })
            && app.timer(audio, interruptions_enabled).app.has_sent_audio,
{
}

} // verus!
