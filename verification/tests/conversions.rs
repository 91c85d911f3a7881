use csound::ChannelBehavior;
use csound::CircularBuffer;
use csound::ControlChannelType;
use csound::Csound;
use csound::FileTypes;
use csound::Language;
use csound::MessageType;
use csound::PvsDataExt;
use csound::Status;

#[test]
fn message_types_decode_their_attribute_words() {
    assert_eq!(MessageType::from_u32(0x0000), MessageType::CSOUNDMSG_DEFAULT);
    assert_eq!(MessageType::from_u32(0x1000), MessageType::CSOUNDMSG_ERROR);
    assert_eq!(MessageType::from_u32(0x2000), MessageType::CSOUNDMSG_ORCH);
    assert_eq!(MessageType::from_u32(0x3000), MessageType::CSOUNDMSG_REALTIME);
    assert_eq!(MessageType::from_u32(0x4000), MessageType::CSOUNDMSG_WARNING);
    assert_eq!(MessageType::from_u32(0x5000), MessageType::CSOUNDMSG_STDOUT);
    assert_eq!(MessageType::from_u32(0x1234), MessageType::CSOUNDMSG_ERROR);
}

#[test]
fn status_codes_round_trip() {
    let named = [
        (Status::CS_SIGNAL, -5),
        (Status::CS_MEMORY, -4),
        (Status::CS_PERFORMANCE, -3),
        (Status::CS_INITIALIZATION, -2),
        (Status::CS_ERROR, -1),
        (Status::CS_SUCCESS, 0),
        (Status::CS_OK(7), 7),
    ];
    for (status, code) in named {
        assert_eq!(status.to_i32(), code);
        assert_eq!(Status::from_i32(code), status);
    }
}

#[test]
fn channel_behavior_codes_round_trip() {
    assert_eq!(ChannelBehavior::from_u32(0), ChannelBehavior::CHANNEL_NO_HINTS);
    assert_eq!(ChannelBehavior::from_u32(1), ChannelBehavior::CHANNEL_INT);
    assert_eq!(ChannelBehavior::from_u32(2), ChannelBehavior::CHANNEL_LIN);
    assert_eq!(ChannelBehavior::from_u32(3), ChannelBehavior::CHANNEL_EXP);
    assert_eq!(ChannelBehavior::CHANNEL_EXP.to_u32(), 3);
    assert_eq!(ChannelBehavior::CHANNEL_NO_HINTS.to_u32(), 0);
}

#[test]
fn channel_type_codes_round_trip() {
    assert_eq!(ControlChannelType::CSOUND_CONTROL_CHANNEL.bits(), 1);
    assert_eq!(ControlChannelType::CSOUND_AUDIO_CHANNEL.bits(), 2);
    assert_eq!(ControlChannelType::CSOUND_STRING_CHANNEL.bits(), 3);
    assert_eq!(
        ControlChannelType::from_bits(2),
        ControlChannelType::CSOUND_AUDIO_CHANNEL
    );
    assert_eq!(
        ControlChannelType::from_bits(9),
        ControlChannelType::CSOUND_UNKNOWN_CHANNEL
    );
}

#[test]
fn file_type_codes_follow_the_native_table() {
    assert_eq!(FileTypes::from_u8(0), FileTypes::CSFTYPE_UNKNOWN);
    assert_eq!(FileTypes::from_u8(1), FileTypes::CSFTYPE_UNIFIED_CSD);
    assert_eq!(FileTypes::from_u8(14), FileTypes::CSFTYPE_WAVE);
    assert_eq!(FileTypes::from_u8(63), FileTypes::CSFTYPE_OTHER_TEXT);
    assert_eq!(FileTypes::from_u8(64), FileTypes::CSFTYPE_UNKNOWN);
    assert_eq!(FileTypes::from_u8(200), FileTypes::CSFTYPE_UNKNOWN);
    assert_eq!(FileTypes::CSFTYPE_WAVE.to_u8(), 14);
    assert_eq!(FileTypes::CSFTYPE_OTHER_BINARY.to_u8(), 64);
    assert_eq!(Language::CSLANGUAGE_DEFAULT, Language::CSLANGUAGE_DEFAULT);
}

#[test]
fn pvs_frame_comes_up_zeroed() {
    let pvs = PvsDataExt::new(16);
    assert_eq!(pvs.N, 16);
    assert_eq!(pvs.winsize, 16);
    assert_eq!(pvs.frame.len(), 16);
    assert!(pvs.frame.iter().all(|s| *s == 0));
}

#[test]
fn circular_buffer_queues_in_order_and_respects_its_capacity() {
    let cs = Csound::new();
    let mut buf: CircularBuffer<u64> = cs.create_circular_buffer(4);
    assert_eq!(buf.len(), 0);
    assert_eq!(buf.write(&[1, 2, 3], 3).unwrap(), 3);
    assert_eq!(buf.write(&[4, 5, 6], 3).unwrap(), 1);
    assert_eq!(buf.len(), 4);
    let mut out = vec![0u64; 2];
    assert_eq!(buf.peek(&mut out, 2).unwrap(), 2);
    assert_eq!(out, vec![1, 2]);
    assert_eq!(buf.len(), 4);
    assert_eq!(buf.read(&mut out, 2).unwrap(), 2);
    assert_eq!(out, vec![1, 2]);
    assert_eq!(buf.len(), 2);
    let mut rest = vec![0u64; 4];
    assert_eq!(buf.read(&mut rest, 4).unwrap(), 2);
    assert_eq!(&rest[..2], &[3, 4]);
    assert_eq!(buf.len(), 0);
}

#[test]
fn circular_buffer_refuses_requests_its_arguments_cannot_carry() {
    let mut buf: CircularBuffer<u64> = CircularBuffer::with_capacity(4);
    assert!(buf.write(&[1, 2], 3).is_err());
    let mut out = vec![0u64; 2];
    assert!(buf.read(&mut out, 3).is_err());
    assert!(buf.peek(&mut out, 3).is_err());
    buf.write(&[8, 9], 2).unwrap();
    buf.flush();
    assert_eq!(buf.len(), 0);
    assert_eq!(buf.read(&mut out, 2).unwrap(), 0);
    assert_eq!(out, vec![0, 0]);
}
