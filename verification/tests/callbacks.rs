use csound::CallbackRegistry;
use csound::ChannelData;
use csound::ChannelWrite;
use csound::Dispatch;
use csound::EventKind;
use csound::FileTypes;
use csound::MessageType;
use csound::RtAudioParams;
use csound::Status;
use csound::callbacks::input_channel_reply;

fn params() -> RtAudioParams {
    RtAudioParams {
        devName: Some(String::from("default")),
        devNum: 3,
        bufSamp_SW: 256,
        bufSamp_HW: 1024,
        nChannels: 2,
        sampleFormat: 6,
        sampleRate: 44100.0f32.to_bits(),
    }
}

#[test]
fn registered_message_closure_runs_exactly_once_with_translated_args() {
    let mut reg = CallbackRegistry::new();
    reg.register(EventKind::Message);
    let mut log: Vec<(MessageType, String)> = Vec::new();
    let mut closure = |mtype: MessageType, text: &str| log.push((mtype, text.to_string()));
    match reg.dispatch_message(0x4000, Some(String::from("overall amps"))) {
        Dispatch::Invoke((mtype, text)) => closure(mtype, &text),
        Dispatch::Neutral(()) => {}
    }
    assert_eq!(log.len(), 1);
    assert_eq!(log[0].0, MessageType::CSOUNDMSG_WARNING);
    assert_eq!(log[0].1, "overall amps");
}

#[test]
fn unregistered_message_is_dropped() {
    let reg = CallbackRegistry::new();
    match reg.dispatch_message(0, Some(String::from("ignored"))) {
        Dispatch::Invoke(_) => panic!("no closure is installed"),
        Dispatch::Neutral(()) => {}
    }
}

#[test]
fn invalid_message_text_is_dropped_even_when_registered() {
    let mut reg = CallbackRegistry::new();
    reg.register(EventKind::Message);
    match reg.dispatch_message(0, None) {
        Dispatch::Invoke(_) => panic!("undecodable text must not reach the closure"),
        Dispatch::Neutral(()) => {}
    }
}

#[test]
fn neutral_outcomes_when_nothing_is_registered() {
    let reg = CallbackRegistry::new();
    assert_eq!(reg.dispatch_play_open(params()), Dispatch::Neutral(Status::CS_ERROR));
    assert_eq!(reg.dispatch_rec_open(params()), Dispatch::Neutral(Status::CS_ERROR));
    assert_eq!(reg.dispatch_rt_record(128), Dispatch::Neutral(0));
    assert_eq!(reg.dispatch_rt_play(128), Dispatch::Neutral(()));
    assert_eq!(reg.dispatch_sense_event(), Dispatch::Neutral(()));
    assert_eq!(reg.dispatch_rt_close(), Dispatch::Neutral(()));
    assert_eq!(reg.dispatch_cscore(), Dispatch::Neutral(()));
    assert_eq!(reg.dispatch_midi_read(3), Dispatch::Neutral(0));
    assert_eq!(reg.dispatch_midi_write(3), Dispatch::Neutral(0));
    assert_eq!(reg.dispatch_midi_in_close(), Dispatch::Neutral(0));
    assert_eq!(reg.dispatch_midi_out_close(), Dispatch::Neutral(0));
    assert_eq!(reg.dispatch_yield(), Dispatch::Neutral(false));
    assert_eq!(
        reg.dispatch_channel_input(Some(String::from("freq"))),
        Dispatch::Neutral(())
    );
    match reg.dispatch_audio_dev_list(None, None, None, 2, 1) {
        Dispatch::Invoke(_) => panic!("no closure is installed"),
        Dispatch::Neutral(code) => assert_eq!(code, 0),
    }
    match reg.dispatch_file_open(Some(String::from("a.wav")), 14, 1, 0) {
        Dispatch::Invoke(_) => panic!("no closure is installed"),
        Dispatch::Neutral(()) => {}
    }
}

#[test]
fn registered_open_closure_sees_the_device_parameters() {
    let mut reg = CallbackRegistry::new();
    reg.register(EventKind::PlayOpen);
    match reg.dispatch_play_open(params()) {
        Dispatch::Invoke(p) => {
            assert_eq!(p.devName.as_deref(), Some("default"));
            assert_eq!(p.devNum, 3);
            assert_eq!(p.nChannels, 2);
            assert_eq!(f32::from_bits(p.sampleRate), 44100.0);
        }
        Dispatch::Neutral(_) => panic!("a closure is installed"),
    }
}

#[test]
fn file_open_event_translates_every_field() {
    let mut reg = CallbackRegistry::new();
    reg.register(EventKind::FileOpen);
    match reg.dispatch_file_open(Some(String::from("take1.wav")), 14, 1, 1) {
        Dispatch::Invoke(info) => {
            assert_eq!(info.name.as_deref(), Some("take1.wav"));
            assert_eq!(info.file_type, FileTypes::CSFTYPE_WAVE);
            assert!(info.is_writing);
            assert!(info.is_temp);
        }
        Dispatch::Neutral(()) => panic!("a closure is installed"),
    }
}

#[test]
fn midi_open_with_unreadable_name_fails_whatever_is_registered() {
    let mut reg = CallbackRegistry::new();
    reg.register(EventKind::MidiInOpen);
    assert_eq!(reg.dispatch_midi_in_open(None), Dispatch::Neutral(-1));
    assert_eq!(reg.dispatch_midi_out_open(None), Dispatch::Neutral(-1));
    match reg.dispatch_midi_in_open(Some(String::from("hw:1"))) {
        Dispatch::Invoke(name) => assert_eq!(name, "hw:1"),
        Dispatch::Neutral(_) => panic!("a closure is installed"),
    }
    assert_eq!(
        reg.dispatch_midi_out_open(Some(String::from("hw:1"))),
        Dispatch::Neutral(0)
    );
}

#[test]
fn registering_replaces_and_unregistering_empties_one_slot() {
    let mut reg = CallbackRegistry::new();
    reg.register(EventKind::Yield);
    reg.register(EventKind::Yield);
    assert!(reg.is_registered(EventKind::Yield));
    assert!(!reg.is_registered(EventKind::Message));
    reg.unregister(EventKind::Yield);
    assert!(!reg.is_registered(EventKind::Yield));
    assert_eq!(reg.dispatch_yield(), Dispatch::Neutral(false));
}

#[test]
fn control_reply_is_stored_and_oversized_text_reply_is_dropped() {
    let bits = 440.0f64.to_bits();
    assert_eq!(
        input_channel_reply(ChannelData::CS_CONTROL_CHANNEL(bits), 8),
        ChannelWrite::Control(bits)
    );
    assert_eq!(
        input_channel_reply(ChannelData::CS_STRING_CHANNEL(String::from("abc")), 4),
        ChannelWrite::Text(String::from("abc"))
    );
    assert_eq!(
        input_channel_reply(ChannelData::CS_STRING_CHANNEL(String::from("abcd")), 4),
        ChannelWrite::Skip
    );
    assert_eq!(input_channel_reply(ChannelData::CS_UNKNOWN_CHANNEL, 64), ChannelWrite::Skip);
}

#[test]
fn output_channel_notification_carries_name_and_data() {
    let mut reg = CallbackRegistry::new();
    assert_eq!(
        reg.dispatch_channel_output(
            Some(String::from("k1")),
            ChannelData::CS_CONTROL_CHANNEL(2.5f64.to_bits())
        ),
        Dispatch::Neutral(())
    );
    reg.register(EventKind::ChannelOutput);
    match reg.dispatch_channel_output(
        Some(String::from("k1")),
        ChannelData::CS_CONTROL_CHANNEL(2.5f64.to_bits()),
    ) {
        Dispatch::Invoke((name, data)) => {
            assert_eq!(name, "k1");
            assert_eq!(data, ChannelData::CS_CONTROL_CHANNEL(2.5f64.to_bits()));
        }
        Dispatch::Neutral(()) => panic!("a closure is installed"),
    }
    assert_eq!(
        reg.dispatch_channel_output(None, ChannelData::CS_UNKNOWN_CHANNEL),
        Dispatch::Neutral(())
    );
}
