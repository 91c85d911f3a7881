use csound::AudioChannel;
use csound::ChannelData;
use csound::ChannelError;
use csound::ControlChannel;
use csound::ControlChannelType;
use csound::Csound;
use csound::Dispatch;
use csound::EventKind;
use csound::MessageType;
use csound::PvsDataExt;
use csound::Status;
use csound::StrChannel;

fn started() -> Csound {
    let mut cs = Csound::new();
    cs.start(8, 1, 1, 32).unwrap();
    cs
}

#[test]
fn start_once_then_reset_allows_a_second_start() {
    let mut cs = Csound::new();
    assert!(cs.start(16, 2, 2, 64).is_ok());
    assert_eq!(cs.get_ksmps(), 16);
    assert_eq!(cs.input_channels(), 2);
    assert_eq!(cs.output_channels(), 2);
    assert_eq!(cs.get_input_buffer_size(), 128);
    assert_eq!(cs.get_output_buffer_size(), 128);
    assert!(cs.start(16, 2, 2, 64).is_err());
    cs.reset();
    assert!(cs.start(8, 1, 1, 32).is_ok());
}

#[test]
fn control_round_trip_through_typed_views() {
    let mut cs = started();
    let win = cs.get_input_channel::<ControlChannel>("freq").unwrap();
    cs.write_control(&win, 440.0f64.to_bits());
    let rout = cs.get_output_channel::<ControlChannel>("freq").unwrap();
    assert_eq!(rout.index, win.index);
    assert_eq!(f64::from_bits(cs.read_control(&rout)), 440.0);
}

#[test]
fn acquiring_the_same_channel_twice_observes_the_same_memory() {
    let mut cs = started();
    let first = cs.get_input_channel::<ControlChannel>("amp").unwrap();
    let second = cs.get_input_channel::<ControlChannel>("amp").unwrap();
    assert_eq!(first.index, second.index);
    assert_eq!(cs.list_channels().unwrap().len(), 1);
    cs.write_control(&first, 7u64);
    let rout = cs.get_output_channel::<ControlChannel>("amp").unwrap();
    assert_eq!(rout.index, first.index);
    assert_eq!(cs.read_control(&rout), 7u64);
}

#[test]
fn oversized_audio_write_copies_exactly_the_view_length() {
    let mut cs = started();
    let win = cs.get_input_channel::<AudioChannel>("wave").unwrap();
    assert_eq!(win.get_size(), 8);
    let long: Vec<u64> = (1..=12u64).collect();
    let n = cs.write_audio(&win, &long);
    assert_eq!(n, 8);
    let rout = cs.get_output_channel::<AudioChannel>("wave").unwrap();
    let mut out = vec![0u64; 8];
    assert_eq!(cs.read_audio(&rout, &mut out), 8);
    assert_eq!(out, (1..=8u64).collect::<Vec<u64>>());
}

#[test]
fn short_audio_write_leaves_the_tail_in_place() {
    let mut cs = started();
    let win = cs.get_input_channel::<AudioChannel>("wave").unwrap();
    let full: Vec<u64> = (1..=8u64).collect();
    assert_eq!(cs.write_audio(&win, &full), 8);
    let short = vec![90u64, 91u64];
    assert_eq!(cs.write_audio(&win, &short), 2);
    let rout = cs.get_output_channel::<AudioChannel>("wave").unwrap();
    let mut out = vec![0u64; 8];
    cs.read_audio(&rout, &mut out);
    assert_eq!(out, vec![90, 91, 3, 4, 5, 6, 7, 8]);
}

#[test]
fn conflicting_kind_fails_with_type_conflict() {
    let mut cs = started();
    cs.get_input_channel::<ControlChannel>("mixed").unwrap();
    let again = cs.get_input_channel::<AudioChannel>("mixed");
    assert_eq!(again.unwrap_err(), ChannelError::TypeConflict);
    let ptr = cs.get_channel_ptr("mixed", ControlChannelType::CSOUND_AUDIO_CHANNEL, true, false);
    assert_eq!(ptr.unwrap_err(), ChannelError::TypeConflict);
    assert_eq!(cs.list_channels().unwrap().len(), 1);
}

#[test]
fn invalid_names_are_refused() {
    let mut cs = started();
    assert_eq!(
        cs.get_input_channel::<ControlChannel>("").unwrap_err(),
        ChannelError::InvalidName
    );
    assert_eq!(
        cs.get_output_channel::<ControlChannel>("fr\0eq").unwrap_err(),
        ChannelError::InvalidName
    );
    assert!(cs.list_channels().is_none());
}

#[test]
fn channel_ptr_copies_are_bounded_both_ways() {
    let mut cs = started();
    let p = cs
        .get_channel_ptr("line", ControlChannelType::CSOUND_AUDIO_CHANNEL, true, true)
        .unwrap();
    assert_eq!(p.get_size(), 8);
    let long: Vec<u64> = (10..30u64).collect();
    assert_eq!(cs.write_channel(&p, &long), 8);
    let mut small = vec![0u64; 3];
    assert_eq!(cs.read_channel(&p, &mut small), 3);
    assert_eq!(small, vec![10, 11, 12]);
}

#[test]
fn named_control_channel_access() {
    let mut cs = started();
    assert!(cs.get_control_channel("gain").is_err());
    let p = cs
        .get_channel_ptr("gain", ControlChannelType::CSOUND_CONTROL_CHANNEL, true, true)
        .unwrap();
    cs.set_control_channel("gain", 0.5f64.to_bits());
    assert_eq!(f64::from_bits(cs.get_control_channel("gain").unwrap()), 0.5);
    let mut one = vec![0u64; 1];
    assert_eq!(cs.read_channel(&p, &mut one), 1);
    assert_eq!(f64::from_bits(one[0]), 0.5);
}

#[test]
fn named_audio_channel_access() {
    let mut cs = started();
    cs.get_channel_ptr("band", ControlChannelType::CSOUND_AUDIO_CHANNEL, true, true)
        .unwrap();
    let input: Vec<u64> = (100..108u64).collect();
    assert!(cs.write_audio_channel("band", &input));
    let mut out = vec![0u64; 8];
    assert!(cs.read_audio_channel("band", &mut out));
    assert_eq!(out, input);
    assert!(!cs.read_audio_channel("absent", &mut out));
}

#[test]
fn string_channel_write_read_and_data_size() {
    let mut cs = started();
    let win = cs.get_input_channel::<StrChannel>("title").unwrap();
    assert_eq!(win.get_size(), 1);
    assert_eq!(cs.get_channel_data_size("title"), 1);
    assert!(!cs.write_string(&win, "too long for a fresh channel"));
    assert_eq!(cs.get_string_channel("title"), "");
    cs.set_string_channel("title", "toccata");
    assert_eq!(cs.get_string_channel("title"), "toccata");
    assert_eq!(cs.get_channel_data_size("title"), 8);
    let win2 = cs.get_input_channel::<StrChannel>("title").unwrap();
    assert_eq!(win2.get_size(), 8);
    assert!(cs.write_string(&win2, "fugue"));
    let rout = cs.get_output_channel::<StrChannel>("title").unwrap();
    assert_eq!(cs.read_string(&rout), "fugue");
}

#[test]
fn data_sizes_follow_the_channel_kind() {
    let mut cs = started();
    cs.get_channel_ptr("k1", ControlChannelType::CSOUND_CONTROL_CHANNEL, true, false)
        .unwrap();
    cs.get_channel_ptr("a1", ControlChannelType::CSOUND_AUDIO_CHANNEL, true, false)
        .unwrap();
    assert_eq!(cs.get_channel_data_size("k1"), 8);
    assert_eq!(cs.get_channel_data_size("a1"), 64);
    assert_eq!(cs.get_channel_data_size("nothing"), 0);
}

#[test]
fn hints_survive_a_set_get_trip_on_control_channels_only() {
    let mut cs = started();
    cs.get_channel_ptr("knob", ControlChannelType::CSOUND_CONTROL_CHANNEL, true, true)
        .unwrap();
    let mut hints = csound::ChannelHints::default();
    hints.behav = csound::ChannelBehavior::CHANNEL_LIN;
    hints.dflt = 0.25f64.to_bits();
    hints.min = 0.0f64.to_bits();
    hints.max = 1.0f64.to_bits();
    hints.width = 120;
    hints.attributes = String::from("slider");
    assert!(cs.set_channel_hints("knob", &hints).is_ok());
    let back = cs.get_channel_hints("knob").unwrap();
    assert_eq!(back.behav, csound::ChannelBehavior::CHANNEL_LIN);
    assert_eq!(f64::from_bits(back.dflt), 0.25);
    assert_eq!(back.width, 120);
    assert_eq!(back.attributes, "slider");
    assert_eq!(
        cs.set_channel_hints("nothing", &hints).unwrap_err(),
        csound::Status::CS_ERROR
    );
    cs.get_channel_ptr("a2", ControlChannelType::CSOUND_AUDIO_CHANNEL, true, false)
        .unwrap();
    assert_eq!(cs.set_channel_hints("a2", &hints).unwrap_err(), csound::Status::CS_ERROR);
    assert_eq!(cs.get_channel_hints("a2").unwrap_err(), csound::Status::CS_ERROR);
}

#[test]
fn list_channels_reports_names_kinds_and_directions() {
    let mut cs = started();
    assert!(cs.list_channels().is_none());
    cs.get_channel_ptr("k1", ControlChannelType::CSOUND_CONTROL_CHANNEL, true, false)
        .unwrap();
    cs.get_channel_ptr("a1", ControlChannelType::CSOUND_AUDIO_CHANNEL, false, true)
        .unwrap();
    let list = cs.list_channels().unwrap();
    assert_eq!(list.len(), 2);
    assert_eq!(list[0].name, "k1");
    assert_eq!(list[0].type_, 1 + 16);
    assert_eq!(list[1].name, "a1");
    assert_eq!(list[1].type_, 2 + 32);
}

#[test]
fn message_log_scenario_records_exactly_one_entry() {
    let mut cs = Csound::new();
    cs.callbacks.register(EventKind::Message);
    cs.start(8, 1, 1, 32).unwrap();
    let mut log: Vec<String> = Vec::new();
    let text = "instr 1 playing";
    for outcome in [
        cs.callbacks.dispatch_message(0x0000, Some(String::from(text))),
        cs.callbacks.dispatch_message(0x0000, None),
    ] {
        if let Dispatch::Invoke((mtype, message)) = outcome {
            assert_eq!(mtype, MessageType::CSOUNDMSG_DEFAULT);
            log.push(message);
        }
    }
    assert_eq!(log, vec![String::from(text)]);
}

#[test]
fn record_scenario_fills_the_input_scratch_buffer() {
    let mut cs = Csound::new();
    cs.callbacks.register(EventKind::RtRecord);
    cs.start(8, 1, 1, 32).unwrap();
    let spin = cs.get_spin().unwrap();
    let n = match cs.callbacks.dispatch_rt_record(spin.get_size()) {
        Dispatch::Invoke(requested) => {
            let filled = vec![0.5f64.to_bits(); requested];
            cs.write_buffer(&spin, &filled)
        }
        Dispatch::Neutral(n) => n,
    };
    assert_eq!(n, 8);
    let mut out = vec![0u64; 8];
    assert_eq!(cs.read_buffer(&spin, &mut out), 8);
    for sample in out {
        assert_eq!(f64::from_bits(sample), 0.5);
    }
}

#[test]
fn channel_value_request_scenario_writes_the_reply_back() {
    let mut cs = Csound::new();
    cs.callbacks.register(EventKind::ChannelInput);
    cs.start(8, 1, 1, 32).unwrap();
    cs.get_channel_ptr("freq", ControlChannelType::CSOUND_CONTROL_CHANNEL, true, false)
        .unwrap();
    if let Dispatch::Invoke(name) = cs.callbacks.dispatch_channel_input(Some(String::from("freq")))
    {
        let reply = ChannelData::CS_CONTROL_CHANNEL(440.0f64.to_bits());
        cs.deliver_channel_input(&name, reply);
    } else {
        panic!("a closure is installed and the name is readable");
    }
    assert_eq!(f64::from_bits(cs.get_control_channel("freq").unwrap()), 440.0);
}

#[test]
fn output_channel_event_presents_the_live_kind() {
    let mut cs = started();
    cs.get_channel_ptr("k1", ControlChannelType::CSOUND_CONTROL_CHANNEL, true, true)
        .unwrap();
    cs.set_control_channel("k1", 2.5f64.to_bits());
    match cs.output_channel_event("k1") {
        Some(ChannelData::CS_CONTROL_CHANNEL(bits)) => assert_eq!(f64::from_bits(bits), 2.5),
        other => panic!("a control channel presents its value, got {:?}", other),
    }
    cs.get_input_channel::<StrChannel>("s1").unwrap();
    cs.set_string_channel("s1", "text");
    match cs.output_channel_event("s1") {
        Some(ChannelData::CS_STRING_CHANNEL(s)) => assert_eq!(s, "text"),
        other => panic!("a string channel presents its text, got {:?}", other),
    }
    cs.get_input_channel::<AudioChannel>("a1").unwrap();
    assert_eq!(cs.output_channel_event("a1"), None);
    assert_eq!(cs.output_channel_event("missing"), None);
}

#[test]
fn views_are_refused_before_start_and_after_reset() {
    let mut cs = Csound::new();
    assert!(cs.get_spin().is_none());
    assert!(cs.get_spout().is_none());
    assert!(cs.get_input_buffer().is_none());
    assert!(cs.get_output_buffer().is_none());
    let mut out = vec![0u64; 4];
    assert!(cs.read_output_buffer(&mut out).is_err());
    assert!(cs.read_spout_buffer(&mut out).is_err());
    assert!(cs.write_input_buffer(&out).is_err());
    assert!(cs.write_spin_buffer(&out).is_err());
    cs.start(8, 1, 1, 32).unwrap();
    assert!(cs.get_spin().is_some());
    cs.reset();
    assert!(cs.get_spin().is_none());
    assert!(cs.list_channels().is_none());
}

#[test]
fn global_buffer_copies_truncate_like_the_views() {
    let mut cs = started();
    assert_eq!(cs.get_input_buffer_size(), 32);
    let long: Vec<u64> = (0..40u64).collect();
    assert_eq!(cs.write_input_buffer(&long).unwrap(), 32);
    let mut out = vec![0u64; 5];
    assert_eq!(cs.read_output_buffer(&mut out).unwrap(), 5);
    assert_eq!(out, vec![0, 0, 0, 0, 0]);
    let spin_in: Vec<u64> = (1..=3u64).collect();
    assert_eq!(cs.write_spin_buffer(&spin_in).unwrap(), 3);
    let mut spout_out = vec![9u64; 12];
    assert_eq!(cs.read_spout_buffer(&mut spout_out).unwrap(), 8);
    assert_eq!(&spout_out[8..], &[9, 9, 9, 9]);
}

#[test]
fn spin_samples_are_addressed_by_frame_and_channel() {
    let mut cs = Csound::new();
    cs.start(4, 2, 2, 8).unwrap();
    cs.set_spin_sample(1, 1, 0.25f64.to_bits());
    let spin = cs.get_spin().unwrap();
    let mut out = vec![0u64; 8];
    cs.read_buffer(&spin, &mut out);
    assert_eq!(f64::from_bits(out[3]), 0.25);
    assert_eq!(cs.get_spout_sample(3, 1), 0);
    cs.clear_spin();
    cs.read_buffer(&spin, &mut out);
    assert_eq!(out, vec![0u64; 8]);
}

#[test]
fn pvs_channel_round_trip_and_window_mismatch() {
    let mut cs = started();
    let mut frame = PvsDataExt::new(16);
    frame.frame[0] = 0.5f32.to_bits();
    frame.framecount = 3;
    cs.set_pvs_channel("fsig", &frame);
    let mut back = PvsDataExt::new(16);
    assert!(cs.get_pvs_channel("fsig", &mut back).is_ok());
    assert_eq!(back.N, 16);
    assert_eq!(back.framecount, 3);
    assert_eq!(f32::from_bits(back.frame[0]), 0.5);
    let mut wrong = PvsDataExt::new(8);
    assert_eq!(cs.get_pvs_channel("fsig", &mut wrong).unwrap_err(), Status::CS_MEMORY);
    assert_eq!(cs.get_pvs_channel("absent", &mut wrong).unwrap_err(), Status::CS_ERROR);
    let other = PvsDataExt::new(8);
    cs.set_pvs_channel("fsig", &other);
    let mut again = PvsDataExt::new(16);
    assert!(cs.get_pvs_channel("fsig", &mut again).is_ok());
    assert_eq!(again.framecount, 3);
}

#[test]
fn channel_kind_probe_reports_without_creating() {
    let mut cs = started();
    assert_eq!(cs.channel_kind("later").unwrap_err(), ChannelError::NotFound);
    assert_eq!(cs.channel_kind("").unwrap_err(), ChannelError::InvalidName);
    cs.get_channel_ptr("later", ControlChannelType::CSOUND_AUDIO_CHANNEL, true, false)
        .unwrap();
    assert_eq!(cs.channel_kind("later").unwrap(), ControlChannelType::CSOUND_AUDIO_CHANNEL);
    assert_eq!(cs.list_channels().unwrap().len(), 1);
}
