use base64::Engine;
use realtime_audio::buffers::DuplexAudioBuffers;
use realtime_audio::effects::{
    ButtonText, ConnectionText, Effect, Header, StatusText, TransportRequest, AUDIO_STREAMING_PERIOD_MS,
};
use realtime_audio::protocol::{
    ErrorDetails, NoiseReductionConfig, OpenAIRealtimeMessage, OpenAIRealtimeResponse, ResponseConfig,
    SessionConfig, Thousandths, TranscriptionConfig, TurnDetectionConfig, AUDIO_FORMAT,
    GREETING_INSTRUCTIONS, SESSION_INSTRUCTIONS,
};
use realtime_audio::session::{
    App, TransportEvent, UiActions, UiControls, REALTIME_URL, TRANSCRIPT_CUT, TRANSCRIPT_LIMIT,
};

fn controls(interruptions_enabled: bool) -> UiControls {
    UiControls {
        interruptions_enabled,
        selected_voice: "alloy".to_string(),
        transcription_model: "whisper-1".to_string(),
    }
}

fn no_actions() -> UiActions {
    UiActions {
        connect_clicked: false,
        reset_clicked: false,
        interruptions_changed: None,
        transcription_model_changed: false,
    }
}

fn active_session() -> App {
    let mut app = App::new(Some("key".to_string()));
    app.is_connected = true;
    app.conversation_active = true;
    app.audio_streaming_timer = true;
    app.selected_voice = "alloy".to_string();
    app
}

fn audio(playback: Vec<i16>, playing: bool, recording: bool) -> DuplexAudioBuffers {
    DuplexAudioBuffers::from_parts(Vec::new(), playback, 0, playing, recording).unwrap()
}

fn audio_delta(item_id: &str, delta: &str) -> OpenAIRealtimeResponse {
    OpenAIRealtimeResponse::ResponseAudioDelta {
        response_id: "resp_1".to_string(),
        item_id: item_id.to_string(),
        output_index: 0,
        content_index: 0,
        delta: delta.to_string(),
    }
}

fn transcript_delta(delta: &str) -> OpenAIRealtimeResponse {
    OpenAIRealtimeResponse::ResponseAudioTranscriptDelta {
        response_id: "resp_1".to_string(),
        item_id: "item_1".to_string(),
        output_index: 0,
        content_index: 0,
        delta: delta.to_string(),
    }
}

fn speech_started() -> OpenAIRealtimeResponse {
    OpenAIRealtimeResponse::InputAudioBufferSpeechStarted { audio_start_ms: 120, item_id: "item_u".to_string() }
}

fn speech_stopped() -> OpenAIRealtimeResponse {
    OpenAIRealtimeResponse::InputAudioBufferSpeechStopped { audio_end_ms: 900, item_id: "item_u".to_string() }
}

fn response_done() -> OpenAIRealtimeResponse {
    OpenAIRealtimeResponse::ResponseDone { response: serde_json::Value::Null }
}

fn status(text: StatusText) -> Vec<Effect> {
    vec![Effect::SetStatus(text)]
}

fn expected_session(voice: &str, model: &str) -> SessionConfig {
    SessionConfig {
        modalities: vec!["text".to_string(), "audio".to_string()],
        instructions: "You are a helpful AI assistant. Respond naturally and conversationally. Always respond in the same language as the user.".to_string(),
        voice: voice.to_string(),
        input_audio_format: "pcm16".to_string(),
        output_audio_format: "pcm16".to_string(),
        input_audio_transcription: Some(TranscriptionConfig { model: model.to_string() }),
        input_audio_noise_reduction: Some(NoiseReductionConfig { noise_reduction_type: "far_field".to_string() }),
        turn_detection: Some(TurnDetectionConfig {
            detection_type: "server_vad".to_string(),
            threshold: Thousandths(500),
            prefix_padding_ms: 300,
            silence_duration_ms: 200,
            interrupt_response: true,
            create_response: true,
        }),
        tools: vec![],
        tool_choice: "none".to_string(),
        temperature: Thousandths(800),
        max_response_output_tokens: Some(4096),
    }
}

fn expected_greeting(voice: &str) -> ResponseConfig {
    ResponseConfig {
        modalities: vec!["text".to_string(), "audio".to_string()],
        instructions: Some("You are a helpful AI assistant. Respond naturally and conversationally,\n                 start with a very short but enthusiastic and playful greeting in English, the greeting must not exceed 3 words".to_string()),
        voice: Some(voice.to_string()),
        output_audio_format: Some("pcm16".to_string()),
        tools: None,
        tool_choice: None,
        temperature: Some(Thousandths(800)),
        max_output_tokens: Some(4096),
    }
}

#[test]
fn constants_of_the_protocol() {
    assert_eq!(AUDIO_FORMAT, "pcm16");
    assert_eq!(AUDIO_STREAMING_PERIOD_MS, 20);
    assert_eq!(TRANSCRIPT_LIMIT, 500);
    assert_eq!(TRANSCRIPT_CUT, 200);
    assert_eq!(REALTIME_URL, "wss://api.openai.com/v1/realtime?model=gpt-4o-realtime-preview-2025-06-03");
    assert!(SESSION_INSTRUCTIONS.ends_with("same language as the user."));
    assert!(GREETING_INSTRUCTIONS.ends_with("must not exceed 3 words"));
}

#[test]
fn voice_chat_session_has_the_agreed_parameters() {
    assert_eq!(SessionConfig::voice_chat("shimmer", "whisper-1"), expected_session("shimmer", "whisper-1"));
}

#[test]
fn greeting_response_has_the_agreed_parameters() {
    assert_eq!(ResponseConfig::greeting("echo"), expected_greeting("echo"));
}

#[test]
fn status_texts() {
    assert_eq!(StatusText::ReadyToConnect.text(), "Ready to connect");
    assert_eq!(StatusText::SessionReady.text(), "✅ Session ready");
    assert_eq!(StatusText::SessionConfigured.text(), "✅ Session configured");
    assert_eq!(StatusText::NotConnected.text(), "❌ Not connected to OpenAI");
    assert_eq!(StatusText::Listening.text(), "🎤 Listening...");
    assert_eq!(StatusText::PlayingAudio.text(), "🔊 Playing audio...");
    assert_eq!(StatusText::ResponseListening.text(), "✅ Response generated - 🎤 listening...");
    assert_eq!(StatusText::ResponsePlaying.text(), "✅ Response generated - 🔊 playing audio");
    assert_eq!(StatusText::UserSpeechDetected.text(), "🎤 User speech detected");
    assert_eq!(StatusText::Processing.text(), "🤔 Processing...");
    assert_eq!(StatusText::UserSpeechTranscribed.text(), "✅ User speech transcribed");
    assert_eq!(StatusText::AiSpeechTruncated.text(), "✅ AI speech truncated");
    assert_eq!(StatusText::ConversationStopped.text(), "⏹️ Conversation stopped");
    assert_eq!(StatusText::Error("quota".to_string()).text(), "❌ Error: quota");
}

#[test]
fn connection_and_button_texts() {
    assert_eq!(ConnectionText::MissingApiKey.text(), "❌ Please set OPENAI_API_KEY");
    assert_eq!(ConnectionText::Connecting.text(), "🔄 Connecting...");
    assert_eq!(ConnectionText::Connected.text(), "✅ Connected to OpenAI");
    assert_eq!(ConnectionText::Disconnected.text(), "❌ Disconnected");
    assert_eq!(ButtonText::Connect.text(), "🔗 Connect and start conversation");
    assert_eq!(ButtonText::Connected.text(), "✅ Connected");
    assert_eq!(Effect::selected_voice_text("coral"), "Selected voice: coral");
}

#[test]
fn new_session_is_disconnected() {
    let app = App::new(None);
    assert_eq!(
        app,
        App {
            is_connected: false,
            conversation_active: false,
            current_transcript: String::new(),
            openai_api_key: None,
            audio_streaming_timer: false,
            has_sent_audio: false,
            ai_is_responding: false,
            user_is_interrupting: false,
            current_assistant_item_id: None,
            selected_voice: String::new(),
        }
    );
    assert_eq!(app.update_ui_state(), Effect::SetConnectButton(ButtonText::Connect));
}

#[test]
fn connect_without_a_credential_fails_with_a_notice() {
    let app = App::new(None);
    assert_eq!(app.connect_to_openai(), vec![Effect::SetConnectionStatus(ConnectionText::MissingApiKey)]);
}

#[test]
fn connect_opens_the_transport_with_the_credential() {
    let app = App::new(Some("sk-test".to_string()));
    assert_eq!(
        app.connect_to_openai(),
        vec![
            Effect::OpenTransport(TransportRequest {
                url: "wss://api.openai.com/v1/realtime?model=gpt-4o-realtime-preview-2025-06-03".to_string(),
                headers: vec![
                    Header { name: "Authorization".to_string(), value: "Bearer sk-test".to_string() },
                    Header { name: "OpenAI-Beta".to_string(), value: "realtime=v1".to_string() },
                ],
            }),
            Effect::SetConnectionStatus(ConnectionText::Connecting),
        ]
    );
    assert!(!app.is_connected);
}

#[test]
fn session_created_configures_the_session() {
    let mut app = App::new(Some("key".to_string()));
    let mut b = DuplexAudioBuffers::new();
    let effects = app.handle_openai_message(
        &mut b,
        &controls(false),
        OpenAIRealtimeResponse::SessionCreated { session: serde_json::Value::Null },
    );
    assert_eq!(
        effects,
        vec![
            Effect::SetStatus(StatusText::SessionReady),
            Effect::SetConnectionStatus(ConnectionText::Connected),
            Effect::ShowSelectedVoice("alloy".to_string()),
            Effect::Send(OpenAIRealtimeMessage::SessionUpdate { session: expected_session("alloy", "whisper-1") }),
            Effect::SetConnectButton(ButtonText::Connected),
        ]
    );
    assert!(app.is_connected);
    assert!(!app.conversation_active);
    assert_eq!(app.selected_voice, "alloy");
}

#[test]
fn session_updated_starts_the_conversation() {
    let mut app = App::new(Some("key".to_string()));
    app.is_connected = true;
    app.selected_voice = "sage".to_string();
    app.current_transcript = "old words".to_string();
    app.has_sent_audio = true;
    app.ai_is_responding = true;
    let mut b = DuplexAudioBuffers::from_parts(vec![1, 2], vec![3, 4], 1, true, false).unwrap();
    let effects = app.handle_openai_message(
        &mut b,
        &controls(false),
        OpenAIRealtimeResponse::SessionUpdated { session: serde_json::Value::Null },
    );
    assert_eq!(
        effects,
        vec![
            Effect::SetStatus(StatusText::SessionConfigured),
            Effect::Send(OpenAIRealtimeMessage::ResponseCreate { response: expected_greeting("sage") }),
            Effect::SetConnectButton(ButtonText::Connected),
            Effect::StartTimer,
        ]
    );
    assert!(app.conversation_active);
    assert!(app.audio_streaming_timer);
    assert!(!app.ai_is_responding);
    assert!(!app.has_sent_audio);
    assert_eq!(app.current_transcript, "");
    assert!(b.is_recording());
    assert!(!b.is_playing());
    assert_eq!(b.playback_position(), 0);
    assert!(b.recorded_audio().is_empty());
    assert!(b.playback_audio().is_empty());
}

#[test]
fn conversation_does_not_start_without_a_session() {
    let mut app = App::new(Some("key".to_string()));
    let mut b = DuplexAudioBuffers::from_parts(vec![1, 2], vec![3, 4], 1, true, false).unwrap();
    let effects = app.start_conversation(&mut b);
    assert_eq!(effects, status(StatusText::NotConnected));
    assert_eq!(app, App::new(Some("key".to_string())));
    assert_eq!(b.recorded_audio(), &vec![1, 2]);
    assert_eq!(b.playback_audio(), &vec![3, 4]);
    assert!(!b.is_recording());
}

#[test]
fn stop_conversation_mutes_and_drops_playback() {
    let mut app = active_session();
    app.ai_is_responding = true;
    let mut b = DuplexAudioBuffers::from_parts(vec![1, 2], vec![3, 4], 1, true, true).unwrap();
    let effects = app.stop_conversation(&mut b);
    assert_eq!(effects, vec![Effect::StopTimer, Effect::SetStatus(StatusText::ConversationStopped)]);
    assert!(!app.conversation_active);
    assert!(!app.ai_is_responding);
    assert!(!app.audio_streaming_timer);
    assert!(app.is_connected);
    assert!(!b.is_recording());
    assert!(b.playback_audio().is_empty());
    assert_eq!(b.playback_position(), 0);
    assert_eq!(b.recorded_audio(), &vec![1, 2]);
}

#[test]
fn stop_conversation_without_a_timer_stops_none() {
    let mut app = App::new(None);
    let mut b = DuplexAudioBuffers::new();
    assert_eq!(app.stop_conversation(&mut b), status(StatusText::ConversationStopped));
}

#[test]
fn reset_goes_back_to_the_start() {
    let mut app = active_session();
    app.has_sent_audio = true;
    app.current_transcript = "hello".to_string();
    let mut b = audio(vec![3, 4], true, true);
    let effects = app.reset_all(&mut b);
    assert_eq!(
        effects,
        vec![
            Effect::StopTimer,
            Effect::SetStatus(StatusText::ConversationStopped),
            Effect::SetStatus(StatusText::ReadyToConnect),
            Effect::SetTranscript(String::new()),
            Effect::ShowVoiceSelector,
            Effect::SetConnectButton(ButtonText::Connect),
            Effect::CloseTransport,
        ]
    );
    assert!(!app.is_connected);
    assert!(!app.conversation_active);
    assert!(!app.has_sent_audio);
    assert_eq!(app.current_transcript, "");
    assert_eq!(app.openai_api_key, Some("key".to_string()));
    assert!(!b.is_recording());
    assert!(b.playback_audio().is_empty());
}

#[test]
fn audio_delta_is_queued_and_mutes_the_microphone() {
    let mut app = active_session();
    let mut b = audio(vec![], false, true);
    let effects = app.handle_openai_message(&mut b, &controls(false), audio_delta("item_a", "AAABAA=="));
    assert_eq!(effects, status(StatusText::PlayingAudio));
    assert!(app.ai_is_responding);
    assert_eq!(app.current_assistant_item_id, Some("item_a".to_string()));
    assert!(!b.is_recording());
    assert!(b.is_playing());
    assert_eq!(b.playback_audio(), &vec![0, 1]);
}

#[test]
fn audio_delta_keeps_the_microphone_open_where_the_user_may_interrupt() {
    let mut app = active_session();
    let mut b = audio(vec![], false, false);
    app.handle_openai_message(&mut b, &controls(true), audio_delta("item_a", "AAABAA=="));
    assert!(b.is_recording());
    assert_eq!(b.playback_audio(), &vec![0, 1]);
}

#[test]
fn audio_delta_remembers_the_first_item_of_a_turn() {
    let mut app = active_session();
    let mut b = DuplexAudioBuffers::new();
    app.handle_openai_message(&mut b, &controls(false), audio_delta("item_a", "AAABAA=="));
    app.handle_openai_message(&mut b, &controls(false), audio_delta("item_b", "/v8="));
    assert_eq!(app.current_assistant_item_id, Some("item_a".to_string()));
    assert_eq!(b.playback_audio(), &vec![0, 1, -2]);
}

#[test]
fn audio_delta_outside_a_conversation_leaves_the_microphone_alone() {
    let mut app = App::new(None);
    let mut b = audio(vec![], false, true);
    app.handle_openai_message(&mut b, &controls(false), audio_delta("item_a", "AAABAA=="));
    assert!(b.is_recording());
    assert!(app.ai_is_responding);
    assert_eq!(b.playback_audio(), &vec![0, 1]);
}

#[test]
fn audio_delta_that_is_not_base64_queues_nothing() {
    let mut app = active_session();
    let mut b = audio(vec![7], true, true);
    let effects = app.handle_openai_message(&mut b, &controls(false), audio_delta("item_a", "***"));
    assert_eq!(effects, status(StatusText::PlayingAudio));
    assert!(app.ai_is_responding);
    assert!(!b.is_recording());
    assert_eq!(b.playback_audio(), &vec![7]);
}

#[test]
fn audio_delta_is_discarded_while_the_user_interrupts() {
    let mut app = active_session();
    app.user_is_interrupting = true;
    let mut b = audio(vec![7], true, true);
    let effects = app.handle_openai_message(&mut b, &controls(false), audio_delta("item_a", "AAABAA=="));
    assert_eq!(effects, vec![]);
    assert!(!app.ai_is_responding);
    assert_eq!(app.current_assistant_item_id, None);
    assert!(b.is_recording());
    assert_eq!(b.playback_audio(), &vec![7]);
}

#[test]
fn stray_audio_does_not_touch_the_playback_buffer() {
    let mut app = active_session();
    app.ai_is_responding = false;
    let mut b = audio(vec![1, 2, 3], true, false);
    app.add_audio_to_playback(&mut b, vec![0x04, 0x00, 0x05, 0x00]);
    assert_eq!(b.playback_audio(), &vec![1, 2, 3]);
    assert!(b.is_playing());
    let mut idle = audio(vec![1, 2, 3], false, false);
    app.add_audio_to_playback(&mut idle, vec![0x04, 0x00, 0x05, 0x00]);
    assert_eq!(idle.playback_audio(), &vec![1, 2, 3]);
    assert!(!idle.is_playing());
}

#[test]
fn audio_of_a_response_is_decoded_and_queued() {
    let mut app = active_session();
    app.ai_is_responding = true;
    let mut b = audio(vec![1, 2, 3], true, false);
    app.add_audio_to_playback(&mut b, vec![0x04, 0x00, 0xfb, 0xff, 0x09]);
    assert_eq!(b.playback_audio(), &vec![1, 2, 3, 4, -5]);
}

#[test]
fn transcript_grows_by_each_delta() {
    let mut app = active_session();
    let mut b = DuplexAudioBuffers::new();
    assert_eq!(
        app.handle_openai_message(&mut b, &controls(false), transcript_delta("Hello")),
        vec![Effect::SetTranscript("Hello".to_string())]
    );
    assert_eq!(
        app.handle_openai_message(&mut b, &controls(false), transcript_delta(", world")),
        vec![Effect::SetTranscript("Hello, world".to_string())]
    );
    assert!(app.ai_is_responding);
    assert_eq!(app.current_transcript, "Hello, world");
}

#[test]
fn transcript_of_exactly_the_limit_is_kept() {
    let mut app = active_session();
    let mut b = DuplexAudioBuffers::new();
    app.current_transcript = "a".repeat(499);
    app.handle_openai_message(&mut b, &controls(false), transcript_delta("b"));
    assert_eq!(app.current_transcript.len(), 500);
}

#[test]
fn transcript_beyond_the_limit_loses_its_beginning() {
    let mut app = active_session();
    let mut b = DuplexAudioBuffers::new();
    app.current_transcript = "a".repeat(200) + &"b".repeat(300);
    let effects = app.handle_openai_message(&mut b, &controls(false), transcript_delta("c"));
    let expected = "b".repeat(300) + "c";
    assert_eq!(effects, vec![Effect::SetTranscript(expected.clone())]);
    assert_eq!(app.current_transcript, expected);
}

#[test]
fn transcript_limit_counts_bytes_and_the_cut_counts_characters() {
    let mut app = active_session();
    let mut b = DuplexAudioBuffers::new();
    // 250 characters of two bytes each: 500 bytes, not yet beyond the limit
    app.current_transcript = "é".repeat(250);
    app.handle_openai_message(&mut b, &controls(false), transcript_delta("!"));
    assert_eq!(app.current_transcript, "é".repeat(50) + "!");
}

#[test]
fn transcript_of_few_wide_characters_is_cut_to_nothing() {
    let mut app = active_session();
    let mut b = DuplexAudioBuffers::new();
    // 126 characters of four bytes each: 504 bytes, but fewer than 200 characters
    let effects = app.handle_openai_message(&mut b, &controls(false), transcript_delta(&"🎤".repeat(126)));
    assert_eq!(effects, vec![Effect::SetTranscript(String::new())]);
    assert_eq!(app.current_transcript, "");
}

#[test]
fn response_done_resumes_at_once_where_the_user_may_interrupt() {
    let mut app = active_session();
    app.ai_is_responding = true;
    app.user_is_interrupting = true;
    app.current_assistant_item_id = Some("item_a".to_string());
    let mut b = audio(vec![1, 2], true, false);
    let effects = app.handle_openai_message(&mut b, &controls(true), response_done());
    assert_eq!(effects, status(StatusText::ResponseListening));
    assert!(b.is_recording());
    assert!(!app.ai_is_responding);
    assert!(!app.user_is_interrupting);
    assert_eq!(app.current_assistant_item_id, None);
    assert_eq!(b.playback_audio(), &vec![1, 2]);
}

#[test]
fn response_done_resumes_when_nothing_is_left_to_play() {
    let mut app = active_session();
    app.ai_is_responding = true;
    let mut b = audio(vec![], false, false);
    let effects = app.handle_openai_message(&mut b, &controls(false), response_done());
    assert_eq!(effects, status(StatusText::ResponseListening));
    assert!(b.is_recording());
}

#[test]
fn turn_resumes_only_after_playback_has_drained() {
    let mut app = active_session();
    app.ai_is_responding = true;
    let mut b = audio(vec![1, 2, 3], true, false);
    let effects = app.handle_openai_message(&mut b, &controls(false), response_done());
    assert_eq!(effects, status(StatusText::ResponsePlaying));
    assert!(!b.is_recording());
    // a tick while audio is left changes nothing
    assert_eq!(app.handle_timer(&mut b, false), vec![]);
    assert!(!b.is_recording());
    // the speaker plays the rest
    b.on_playback_frame(6, 2);
    assert!(b.playback_audio().is_empty());
    assert!(!b.is_recording());
    // the next tick finds the buffer empty
    assert_eq!(app.handle_timer(&mut b, false), status(StatusText::Listening));
    assert!(b.is_recording());
    // and the one after that has nothing to do
    assert_eq!(app.handle_timer(&mut b, false), vec![]);
}

#[test]
fn response_done_outside_a_conversation_only_clears_the_turn() {
    let mut app = App::new(None);
    app.ai_is_responding = true;
    app.current_assistant_item_id = Some("item_a".to_string());
    let mut b = audio(vec![], false, false);
    assert_eq!(app.handle_openai_message(&mut b, &controls(true), response_done()), vec![]);
    assert!(!app.ai_is_responding);
    assert_eq!(app.current_assistant_item_id, None);
    assert!(!b.is_recording());
}

#[test]
fn speech_started_clears_playback() {
    for (playback, playing, recording) in
        [(vec![], false, false), (vec![1, 2, 3], true, false), (vec![4], false, true), (vec![5, 6], true, true)]
    {
        let mut app = active_session();
        app.ai_is_responding = true;
        let mut b = audio(playback, playing, recording);
        let effects = app.handle_openai_message(&mut b, &controls(false), speech_started());
        assert_eq!(effects, status(StatusText::UserSpeechDetected));
        assert!(b.playback_audio().is_empty());
        assert!(!b.is_playing());
        assert_eq!(b.playback_position(), 0);
        assert!(b.is_recording());
        assert!(app.ai_is_responding);
        assert!(!app.user_is_interrupting);
    }
}

#[test]
fn speech_started_outside_a_conversation_leaves_the_microphone_alone() {
    let mut app = App::new(None);
    let mut b = DuplexAudioBuffers::from_parts(vec![], vec![1, 2], 1, true, false).unwrap();
    app.handle_openai_message(&mut b, &controls(false), speech_started());
    assert!(b.playback_audio().is_empty());
    assert!(!b.is_playing());
    assert_eq!(b.playback_position(), 0);
    assert!(!b.is_recording());
}

#[test]
fn speech_stopped_mutes_while_the_answer_is_awaited() {
    let mut app = active_session();
    let mut b = audio(vec![], false, true);
    let effects = app.handle_openai_message(&mut b, &controls(false), speech_stopped());
    assert_eq!(effects, status(StatusText::Processing));
    assert!(!b.is_recording());
    let mut idle = App::new(None);
    let mut c = audio(vec![], false, true);
    idle.handle_openai_message(&mut c, &controls(false), speech_stopped());
    assert!(c.is_recording());
}

#[test]
fn item_events_only_change_the_status() {
    let mut app = active_session();
    let before = active_session();
    let mut b = audio(vec![1], true, false);
    assert_eq!(
        app.handle_openai_message(
            &mut b,
            &controls(false),
            OpenAIRealtimeResponse::ConversationItemCreated { item: serde_json::Value::Null },
        ),
        status(StatusText::UserSpeechTranscribed)
    );
    assert_eq!(
        app.handle_openai_message(
            &mut b,
            &controls(false),
            OpenAIRealtimeResponse::ConversationItemTruncated { item: serde_json::Value::Bool(true) },
        ),
        status(StatusText::AiSpeechTruncated)
    );
    assert_eq!(app, before);
    assert_eq!(b.playback_audio(), &vec![1]);
    assert!(b.is_playing());
    assert!(!b.is_recording());
}

#[test]
fn service_error_is_shown_and_unmutes() {
    let error = |message: &str| OpenAIRealtimeResponse::Error {
        error: ErrorDetails {
            code: Some("rate_limit".to_string()),
            message: message.to_string(),
            param: None,
            error_type: Some("invalid_request_error".to_string()),
        },
    };
    let mut app = active_session();
    let mut b = audio(vec![], false, false);
    let effects = app.handle_openai_message(&mut b, &controls(false), error("slow down"));
    assert_eq!(effects, status(StatusText::Error("slow down".to_string())));
    assert!(b.is_recording());
    assert!(app.conversation_active);
    let mut idle = App::new(None);
    let mut c = audio(vec![], false, false);
    idle.handle_openai_message(&mut c, &controls(false), error("slow down"));
    assert!(!c.is_recording());
}

#[test]
fn other_messages_are_ignored() {
    let messages = || {
        vec![
            OpenAIRealtimeResponse::Other,
            OpenAIRealtimeResponse::ResponseAudioDone {
                response_id: "r".to_string(),
                item_id: "i".to_string(),
                output_index: 0,
                content_index: 0,
            },
            OpenAIRealtimeResponse::ResponseTextDelta {
                response_id: "r".to_string(),
                item_id: "i".to_string(),
                output_index: 0,
                content_index: 0,
                delta: "text".to_string(),
            },
        ]
    };
    for message in messages() {
        let mut app = active_session();
        let mut b = DuplexAudioBuffers::from_parts(vec![1], vec![2], 1, true, true).unwrap();
        assert_eq!(app.handle_openai_message(&mut b, &controls(false), message), vec![]);
        assert_eq!(app, active_session());
        assert_eq!(b.recorded_audio(), &vec![1]);
        assert_eq!(b.playback_audio(), &vec![2]);
        assert_eq!(b.playback_position(), 1);
    }
}

#[test]
fn timer_sends_what_was_captured() {
    let mut app = active_session();
    let mut b = DuplexAudioBuffers::new();
    b.set_recording(true);
    b.on_capture_frame(&[0, 9, 1, 9]);
    let effects = app.handle_timer(&mut b, true);
    assert_eq!(
        effects,
        vec![Effect::Send(OpenAIRealtimeMessage::InputAudioBufferAppend { audio: "AAABAA==".to_string() })]
    );
    assert!(app.has_sent_audio);
    assert!(b.recorded_audio().is_empty());
    assert_eq!(app.handle_timer(&mut b, true), vec![]);
}

#[test]
fn timer_that_was_stopped_does_nothing() {
    let mut app = active_session();
    app.audio_streaming_timer = false;
    let mut b = DuplexAudioBuffers::from_parts(vec![1, 2], vec![], 0, false, false).unwrap();
    assert_eq!(app.handle_timer(&mut b, false), vec![]);
    assert_eq!(b.recorded_audio(), &vec![1, 2]);
    assert!(!b.is_recording());
    assert!(!app.has_sent_audio);
}

#[test]
fn timer_outside_a_conversation_sends_nothing() {
    let mut app = active_session();
    app.conversation_active = false;
    let mut b = DuplexAudioBuffers::from_parts(vec![1, 2], vec![], 0, false, false).unwrap();
    assert_eq!(app.handle_timer(&mut b, false), vec![]);
    assert_eq!(b.recorded_audio(), &vec![1, 2]);
    assert!(!b.is_recording());
}

#[test]
fn timer_does_not_resume_while_the_assistant_responds() {
    let mut app = active_session();
    app.ai_is_responding = true;
    let mut b = audio(vec![], false, false);
    assert_eq!(app.handle_timer(&mut b, false), vec![]);
    assert!(!b.is_recording());
}

#[test]
fn timer_does_not_resume_where_the_user_may_interrupt() {
    let mut app = active_session();
    let mut b = audio(vec![], false, false);
    assert_eq!(app.handle_timer(&mut b, true), vec![]);
    assert!(!b.is_recording());
}

#[test]
fn send_audio_chunk_of_nothing_sends_nothing() {
    let mut app = active_session();
    let mut b = DuplexAudioBuffers::new();
    assert_eq!(app.send_audio_chunk_to_openai(&mut b), vec![]);
    assert!(!app.has_sent_audio);
}

#[test]
fn transport_close_ends_the_session() {
    let mut app = active_session();
    let mut b = audio(vec![1], true, true);
    let effects = app.handle_websocket_message(&mut b, &controls(false), TransportEvent::Closed);
    assert_eq!(
        effects,
        vec![
            Effect::SetConnectionStatus(ConnectionText::Disconnected),
            Effect::SetConnectButton(ButtonText::Connect),
        ]
    );
    assert!(!app.is_connected);
    assert!(!app.conversation_active);
    assert_eq!(b.playback_audio(), &vec![1]);
    assert!(b.is_recording());
}

#[test]
fn transport_error_ends_the_session_and_is_shown() {
    let mut app = active_session();
    let mut b = DuplexAudioBuffers::new();
    let effects =
        app.handle_websocket_message(&mut b, &controls(false), TransportEvent::Error("reset by peer".to_string()));
    assert_eq!(
        effects,
        vec![
            Effect::SetStatus(StatusText::Error("reset by peer".to_string())),
            Effect::SetConnectionStatus(ConnectionText::Disconnected),
            Effect::SetConnectButton(ButtonText::Connect),
        ]
    );
    assert!(!app.is_connected);
    assert!(!app.conversation_active);
}

#[test]
fn transport_frames_without_a_message_are_dropped() {
    for event in [
        TransportEvent::Opened,
        TransportEvent::TextFrame(None),
        TransportEvent::BinaryFrame(vec![1, 2, 3]),
    ] {
        let mut app = active_session();
        let mut b = audio(vec![1], true, true);
        assert_eq!(app.handle_websocket_message(&mut b, &controls(false), event), vec![]);
        assert_eq!(app, active_session());
        assert_eq!(b.playback_audio(), &vec![1]);
    }
}

#[test]
fn transport_text_frame_is_handled_as_its_message() {
    let mut app = active_session();
    let mut b = audio(vec![1], true, true);
    let effects =
        app.handle_websocket_message(&mut b, &controls(false), TransportEvent::TextFrame(Some(speech_started())));
    assert_eq!(effects, status(StatusText::UserSpeechDetected));
    assert!(b.playback_audio().is_empty());
}

#[test]
fn actions_are_taken_in_order() {
    let mut app = active_session();
    let mut b = audio(vec![1], true, false);
    let actions = UiActions {
        connect_clicked: true,
        reset_clicked: true,
        interruptions_changed: Some(true),
        transcription_model_changed: true,
    };
    let c = UiControls {
        interruptions_enabled: true,
        selected_voice: "verse".to_string(),
        transcription_model: "some-other-model".to_string(),
    };
    let effects = app.handle_actions(&mut b, &c, &actions);
    assert_eq!(effects.len(), 2 + 7 + 2);
    assert!(matches!(effects[0], Effect::OpenTransport(_)));
    assert_eq!(effects[1], Effect::SetConnectionStatus(ConnectionText::Connecting));
    assert_eq!(effects[2], Effect::StopTimer);
    assert_eq!(effects[8], Effect::CloseTransport);
    assert_eq!(effects[9], Effect::ShowSelectedVoice("verse".to_string()));
    assert_eq!(
        effects[10],
        Effect::Send(OpenAIRealtimeMessage::SessionUpdate { session: expected_session("verse", "some-other-model") })
    );
    assert!(b.is_recording());
    assert!(!app.is_connected);
    assert_eq!(app.selected_voice, "verse");
}

#[test]
fn no_action_changes_nothing() {
    let mut app = active_session();
    let mut b = audio(vec![1], true, false);
    assert_eq!(app.handle_actions(&mut b, &controls(false), &no_actions()), vec![]);
    assert_eq!(app, active_session());
    assert!(!b.is_recording());
}

#[test]
fn switching_interruptions_off_leaves_the_microphone_alone() {
    let mut app = active_session();
    let mut b = audio(vec![], false, false);
    let actions = UiActions { interruptions_changed: Some(false), ..no_actions() };
    assert_eq!(app.handle_actions(&mut b, &controls(false), &actions), vec![]);
    assert!(!b.is_recording());
    let actions = UiActions { interruptions_changed: Some(true), ..no_actions() };
    assert_eq!(app.handle_actions(&mut b, &controls(true), &actions), vec![]);
    assert!(b.is_recording());
}

#[test]
fn conversation_from_connect_to_interruption() {
    let mut app = App::new(Some("sk-test".to_string()));
    let mut b = DuplexAudioBuffers::new();
    let c = controls(false);

    // connect
    let effects = app.handle_actions(&mut b, &c, &UiActions { connect_clicked: true, ..no_actions() });
    assert!(matches!(effects[0], Effect::OpenTransport(_)));

    // session.created: the session update goes out
    let effects = app.handle_websocket_message(
        &mut b,
        &c,
        TransportEvent::TextFrame(Some(OpenAIRealtimeResponse::SessionCreated { session: serde_json::Value::Null })),
    );
    assert!(effects
        .contains(&Effect::Send(OpenAIRealtimeMessage::SessionUpdate { session: expected_session("alloy", "whisper-1") })));
    assert!(app.is_connected);

    // session.updated: the conversation starts
    let effects = app.handle_websocket_message(
        &mut b,
        &c,
        TransportEvent::TextFrame(Some(OpenAIRealtimeResponse::SessionUpdated { session: serde_json::Value::Null })),
    );
    assert_eq!(effects.last(), Some(&Effect::StartTimer));
    assert!(app.conversation_active);
    assert!(b.is_recording());

    // the microphone delivers 960 hardware samples: 480 are queued
    let frame: Vec<i16> = (0..960).map(|i| (i % 7 - 3) as i16).collect();
    b.on_capture_frame(&frame);
    assert_eq!(b.recorded_audio().len(), 480);

    // the tick sends them in one message: base64 of 960 bytes
    let effects = app.handle_timer(&mut b, c.interruptions_enabled);
    assert_eq!(effects.len(), 1);
    let text = match &effects[0] {
        Effect::Send(OpenAIRealtimeMessage::InputAudioBufferAppend { audio }) => audio.clone(),
        other => panic!("unexpected effect {:?}", other),
    };
    let bytes = base64::engine::general_purpose::STANDARD.decode(&text).unwrap();
    assert_eq!(bytes.len(), 960);
    let sent: Vec<i16> = bytes.chunks(2).map(|pair| i16::from_le_bytes([pair[0], pair[1]])).collect();
    let kept: Vec<i16> = frame.iter().step_by(2).copied().collect();
    assert_eq!(sent, kept);
    assert!(app.has_sent_audio);
    assert!(b.recorded_audio().is_empty());

    // the assistant answers
    let reply = base64::engine::general_purpose::STANDARD.encode([1u8, 0, 2, 0, 3, 0]);
    app.handle_websocket_message(&mut b, &c, TransportEvent::TextFrame(Some(audio_delta("item_a", &reply))));
    assert_eq!(b.playback_audio(), &vec![1, 2, 3]);
    assert!(b.is_playing());
    assert!(!b.is_recording());
    assert_eq!(b.on_playback_frame(3, 1), vec![vec![1, 1, 2]]);

    // the user speaks in the middle of the reply
    let effects = app.handle_websocket_message(&mut b, &c, TransportEvent::TextFrame(Some(speech_started())));
    assert_eq!(effects, status(StatusText::UserSpeechDetected));
    assert!(b.playback_audio().is_empty());
    assert!(!b.is_playing());
    assert_eq!(b.playback_position(), 0);
    assert!(b.is_recording());
}
