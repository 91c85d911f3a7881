use vstd::prelude::*;

verus! {

/// Severity class attached to every message the engine emits.
#[allow(non_camel_case_types)]
#[derive(Debug, Clone, Copy, PartialEq, Eq, Structural)]
pub enum MessageType {
    CSOUNDMSG_DEFAULT,
    CSOUNDMSG_ERROR,
    CSOUNDMSG_ORCH,
    CSOUNDMSG_REALTIME,
    CSOUNDMSG_WARNING,
    CSOUNDMSG_STDOUT,
}

/// The message class encoded by an attribute word; codes outside the
/// documented set are read as errors.
pub open spec fn message_type_of(value: u32) -> MessageType {
    if value == 0x0000 {
        MessageType::CSOUNDMSG_DEFAULT
    } else if value == 0x1000 {
        MessageType::CSOUNDMSG_ERROR
    } else if value == 0x2000 {
        MessageType::CSOUNDMSG_ORCH
    } else if value == 0x3000 {
        MessageType::CSOUNDMSG_REALTIME
    } else if value == 0x4000 {
        MessageType::CSOUNDMSG_WARNING
    } else if value == 0x5000 {
        MessageType::CSOUNDMSG_STDOUT
    } else {
        MessageType::CSOUNDMSG_ERROR
    }
}

impl MessageType {
    /// Decodes the attribute word that accompanies a message event.
    pub fn from_u32(value: u32) -> (r: MessageType)
        ensures
            r == message_type_of(value),
    {
        match value {
            0x0000 => MessageType::CSOUNDMSG_DEFAULT,
            0x1000 => MessageType::CSOUNDMSG_ERROR,
            0x2000 => MessageType::CSOUNDMSG_ORCH,
            0x3000 => MessageType::CSOUNDMSG_REALTIME,
            0x4000 => MessageType::CSOUNDMSG_WARNING,
            0x5000 => MessageType::CSOUNDMSG_STDOUT,
            _ => MessageType::CSOUNDMSG_ERROR,
        }
    }
}

/// Result class of an engine call, mirroring the native status codes.
#[allow(non_camel_case_types)]
#[derive(Debug, Clone, Copy, PartialEq, Eq, Structural)]
pub enum Status {
    CS_SIGNAL,
    CS_MEMORY,
    CS_PERFORMANCE,
    CS_INITIALIZATION,
    CS_ERROR,
    CS_SUCCESS,
    CS_OK(i32),
}

/// The status named by a native return code: the documented negative codes
/// and zero map to their named variants, anything else is carried verbatim.
pub open spec fn status_of(value: i32) -> Status {
    if value == -5 {
        Status::CS_SIGNAL
    } else if value == -4 {
        Status::CS_MEMORY
    } else if value == -3 {
        Status::CS_PERFORMANCE
    } else if value == -2 {
        Status::CS_INITIALIZATION
    } else if value == -1 {
        Status::CS_ERROR
    } else if value == 0 {
        Status::CS_SUCCESS
    } else {
        Status::CS_OK(value)
    }
}

/// The native return code that stands for a status.
pub open spec fn status_code(s: Status) -> i32 {
    match s {
        Status::CS_SIGNAL => -5i32,
        Status::CS_MEMORY => -4i32,
        Status::CS_PERFORMANCE => -3i32,
        Status::CS_INITIALIZATION => -2i32,
        Status::CS_ERROR => -1i32,
        Status::CS_SUCCESS => 0i32,
        Status::CS_OK(value) => value,
    }
}

impl Status {
    /// Reads a native return code.
    pub fn from_i32(value: i32) -> (r: Status)
        ensures
            r == status_of(value),
    {
        match value {
            -5 => Status::CS_SIGNAL,
            -4 => Status::CS_MEMORY,
            -3 => Status::CS_PERFORMANCE,
            -2 => Status::CS_INITIALIZATION,
            -1 => Status::CS_ERROR,
            0 => Status::CS_SUCCESS,
            value => Status::CS_OK(value),
        }
    }

    /// The native return code this status stands for.
    pub fn to_i32(&self) -> (r: i32)
        ensures
            r == status_code(*self),
    {
        match self {
            Status::CS_SIGNAL => -5,
            Status::CS_MEMORY => -4,
            Status::CS_PERFORMANCE => -3,
            Status::CS_INITIALIZATION => -2,
            Status::CS_ERROR => -1,
            Status::CS_SUCCESS => 0,
            Status::CS_OK(value) => *value,
        }
    }
}

/// A value read from or written to a named bus channel.  Control values are
/// carried as the bit pattern of the engine's double-precision sample type.
#[allow(non_camel_case_types)]
#[derive(Debug, Clone, PartialEq)]
pub enum ChannelData {
    CS_CONTROL_CHANNEL(u64),
    CS_STRING_CHANNEL(String),
    CS_UNKNOWN_CHANNEL,
}

/// Content kind of a named bus channel.
#[allow(non_camel_case_types)]
#[derive(Debug, Clone, Copy, PartialEq, Eq, Structural)]
pub enum ControlChannelType {
    CSOUND_UNKNOWN_CHANNEL,
    CSOUND_CONTROL_CHANNEL,
    CSOUND_AUDIO_CHANNEL,
    CSOUND_STRING_CHANNEL,
    CSOUND_PVS_CHANNEL,
    CSOUND_VAR_CHANNEL,
}

/// The native code of a channel content kind.
pub open spec fn channel_type_code(t: ControlChannelType) -> u32 {
    match t {
        ControlChannelType::CSOUND_UNKNOWN_CHANNEL => 0,
        ControlChannelType::CSOUND_CONTROL_CHANNEL => 1,
        ControlChannelType::CSOUND_AUDIO_CHANNEL => 2,
        ControlChannelType::CSOUND_STRING_CHANNEL => 3,
        ControlChannelType::CSOUND_PVS_CHANNEL => 4,
        ControlChannelType::CSOUND_VAR_CHANNEL => 5,
    }
}

impl ControlChannelType {
    /// The native code of this content kind.
    pub fn bits(&self) -> (r: u32)
        ensures
            r == channel_type_code(*self),
    {
        match self {
            ControlChannelType::CSOUND_UNKNOWN_CHANNEL => 0,
            ControlChannelType::CSOUND_CONTROL_CHANNEL => 1,
            ControlChannelType::CSOUND_AUDIO_CHANNEL => 2,
            ControlChannelType::CSOUND_STRING_CHANNEL => 3,
            ControlChannelType::CSOUND_PVS_CHANNEL => 4,
            ControlChannelType::CSOUND_VAR_CHANNEL => 5,
        }
    }

    /// Reads a native content-kind code; codes outside the documented set
    /// are unknown.
    pub fn from_bits(value: u32) -> (r: ControlChannelType)
        ensures
            r == (if value == 1 { ControlChannelType::CSOUND_CONTROL_CHANNEL }
                else if value == 2 { ControlChannelType::CSOUND_AUDIO_CHANNEL }
                else if value == 3 { ControlChannelType::CSOUND_STRING_CHANNEL }
                else if value == 4 { ControlChannelType::CSOUND_PVS_CHANNEL }
                else if value == 5 { ControlChannelType::CSOUND_VAR_CHANNEL }
                else { ControlChannelType::CSOUND_UNKNOWN_CHANNEL }),
    {
        match value {
            1 => ControlChannelType::CSOUND_CONTROL_CHANNEL,
            2 => ControlChannelType::CSOUND_AUDIO_CHANNEL,
            3 => ControlChannelType::CSOUND_STRING_CHANNEL,
            4 => ControlChannelType::CSOUND_PVS_CHANNEL,
            5 => ControlChannelType::CSOUND_VAR_CHANNEL,
            _ => ControlChannelType::CSOUND_UNKNOWN_CHANNEL,
        }
    }
}

/// Locale selector understood by the engine's message translation.
#[allow(non_camel_case_types)]
#[derive(Debug, Clone, Copy, PartialEq, Eq, Structural)]
pub enum Language {
    CSLANGUAGE_DEFAULT,
    CSLANGUAGE_AFRIKAANS,
    CSLANGUAGE_ALBANIAN,
    CSLANGUAGE_ARABIC,
    CSLANGUAGE_ARMENIAN,
    CSLANGUAGE_ASSAMESE,
    CSLANGUAGE_AZERI,
    CSLANGUAGE_BASQUE,
    CSLANGUAGE_BELARUSIAN,
    CSLANGUAGE_BENGALI,
    CSLANGUAGE_BULGARIAN,
    CSLANGUAGE_CATALAN,
    CSLANGUAGE_CHINESE,
    CSLANGUAGE_CROATIAN,
    CSLANGUAGE_CZECH,
    CSLANGUAGE_DANISH,
    CSLANGUAGE_DUTCH,
    CSLANGUAGE_ENGLISH_UK,
    CSLANGUAGE_ENGLISH_US,
    CSLANGUAGE_ESTONIAN,
    CSLANGUAGE_FAEROESE,
    CSLANGUAGE_FARSI,
    CSLANGUAGE_FINNISH,
    CSLANGUAGE_FRENCH,
    CSLANGUAGE_GEORGIAN,
    CSLANGUAGE_GERMAN,
    CSLANGUAGE_GREEK,
    CSLANGUAGE_GUJARATI,
    CSLANGUAGE_HEBREW,
    CSLANGUAGE_HINDI,
    CSLANGUAGE_HUNGARIAN,
    CSLANGUAGE_ICELANDIC,
    CSLANGUAGE_INDONESIAN,
    CSLANGUAGE_ITALIAN,
    CSLANGUAGE_JAPANESE,
    CSLANGUAGE_KANNADA,
    CSLANGUAGE_KASHMIRI,
    CSLANGUAGE_KONKANI,
    CSLANGUAGE_KOREAN,
    CSLANGUAGE_LATVIAN,
    CSLANGUAGE_LITHUANIAN,
    CSLANGUAGE_MACEDONIAN,
    CSLANGUAGE_MALAY,
    CSLANGUAGE_MALAYALAM,
    CSLANGUAGE_MANIPURI,
    CSLANGUAGE_MARATHI,
    CSLANGUAGE_NEPALI,
    CSLANGUAGE_NORWEGIAN,
    CSLANGUAGE_ORIYA,
    CSLANGUAGE_POLISH,
    CSLANGUAGE_PORTUGUESE,
    CSLANGUAGE_PUNJABI,
    CSLANGUAGE_ROMANIAN,
    CSLANGUAGE_RUSSIAN,
    CSLANGUAGE_SANSKRIT,
    CSLANGUAGE_SERBIAN,
    CSLANGUAGE_SINDHI,
    CSLANGUAGE_SLOVAK,
    CSLANGUAGE_SLOVENIAN,
    CSLANGUAGE_SPANISH,
    CSLANGUAGE_SWAHILI,
    CSLANGUAGE_SWEDISH,
    CSLANGUAGE_TAMIL,
    CSLANGUAGE_TATAR,
    CSLANGUAGE_TELUGU,
    CSLANGUAGE_THAI,
    CSLANGUAGE_TURKISH,
    CSLANGUAGE_UKRAINIAN,
    CSLANGUAGE_URDU,
    CSLANGUAGE_UZBEK,
    CSLANGUAGE_VIETNAMESE,
    CSLANGUAGE_COLUMBIAN,
}

/// Kind tag the engine attaches to every file it opens.
#[allow(non_camel_case_types)]
#[derive(Debug, Clone, Copy, PartialEq, Eq, Structural)]
pub enum FileTypes {
    CSFTYPE_UNKNOWN,
    CSFTYPE_UNIFIED_CSD,
    CSFTYPE_ORCHESTRA,
    CSFTYPE_SCORE,
    CSFTYPE_ORC_INCLUDE,
    CSFTYPE_SCO_INCLUDE,
    CSFTYPE_SCORE_OUT,
    CSFTYPE_SCOT,
    CSFTYPE_OPTIONS,
    CSFTYPE_EXTRACT_PARMS,
    CSFTYPE_RAW_AUDIO,
    CSFTYPE_IRCAM,
    CSFTYPE_AIFF,
    CSFTYPE_AIFC,
    CSFTYPE_WAVE,
    CSFTYPE_AU,
    CSFTYPE_SD2,
    CSFTYPE_W64,
    CSFTYPE_WAVEX,
    CSFTYPE_FLAC,
    CSFTYPE_CAF,
    CSFTYPE_WVE,
    CSFTYPE_OGG,
    CSFTYPE_MPC2K,
    CSFTYPE_RF64,
    CSFTYPE_AVR,
    CSFTYPE_HTK,
    CSFTYPE_MAT4,
    CSFTYPE_MAT5,
    CSFTYPE_NIST,
    CSFTYPE_PAF,
    CSFTYPE_PVF,
    CSFTYPE_SDS,
    CSFTYPE_SVX,
    CSFTYPE_VOC,
    CSFTYPE_XI,
    CSFTYPE_UNKNOWN_AUDIO,
    CSFTYPE_SOUNDFONT,
    CSFTYPE_STD_MIDI,
    CSFTYPE_MIDI_SYSEX,
    CSFTYPE_HETRO,
    CSFTYPE_HETROT,
    CSFTYPE_PVC,
    CSFTYPE_PVCEX,
    CSFTYPE_CVANAL,
    CSFTYPE_LPC,
    CSFTYPE_ATS,
    CSFTYPE_LORIS,
    CSFTYPE_SDIF,
    CSFTYPE_HRTF,
    CSFTYPE_UNUSED,
    CSFTYPE_LADSPA_PLUGIN,
    CSFTYPE_SNAPSHOT,
    CSFTYPE_FTABLES_TEXT,
    CSFTYPE_FTABLES_BINARY,
    CSFTYPE_XSCANU_MATRIX,
    CSFTYPE_FLOATS_TEXT,
    CSFTYPE_FLOATS_BINARY,
    CSFTYPE_INTEGER_TEXT,
    CSFTYPE_INTEGER_BINARY,
    CSFTYPE_IMAGE_PNG,
    CSFTYPE_POSTSCRIPT,
    CSFTYPE_SCRIPT_TEXT,
    CSFTYPE_OTHER_TEXT,
    CSFTYPE_OTHER_BINARY,
}

/// The file kind named by a native type code; codes outside the
/// documented range are unknown.
pub open spec fn file_type_of(value: u8) -> FileTypes {
    if value == 0 {
        FileTypes::CSFTYPE_UNKNOWN
    } else if value == 1 {
        FileTypes::CSFTYPE_UNIFIED_CSD
    } else if value == 2 {
        FileTypes::CSFTYPE_ORCHESTRA
    } else if value == 3 {
        FileTypes::CSFTYPE_SCORE
    } else if value == 4 {
        FileTypes::CSFTYPE_ORC_INCLUDE
    } else if value == 5 {
        FileTypes::CSFTYPE_SCO_INCLUDE
    } else if value == 6 {
        FileTypes::CSFTYPE_SCORE_OUT
    } else if value == 7 {
        FileTypes::CSFTYPE_SCOT
    } else if value == 8 {
        FileTypes::CSFTYPE_OPTIONS
    } else if value == 9 {
        FileTypes::CSFTYPE_EXTRACT_PARMS
    } else if value == 10 {
        FileTypes::CSFTYPE_RAW_AUDIO
    } else if value == 11 {
        FileTypes::CSFTYPE_IRCAM
    } else if value == 12 {
        FileTypes::CSFTYPE_AIFF
    } else if value == 13 {
        FileTypes::CSFTYPE_AIFC
    } else if value == 14 {
        FileTypes::CSFTYPE_WAVE
    } else if value == 15 {
        FileTypes::CSFTYPE_AU
    } else if value == 16 {
        FileTypes::CSFTYPE_SD2
    } else if value == 17 {
        FileTypes::CSFTYPE_W64
    } else if value == 18 {
        FileTypes::CSFTYPE_WAVEX
    } else if value == 19 {
        FileTypes::CSFTYPE_FLAC
    } else if value == 20 {
        FileTypes::CSFTYPE_CAF
    } else if value == 21 {
        FileTypes::CSFTYPE_WVE
    } else if value == 22 {
        FileTypes::CSFTYPE_OGG
    } else if value == 23 {
        FileTypes::CSFTYPE_MPC2K
    } else if value == 24 {
        FileTypes::CSFTYPE_RF64
    } else if value == 25 {
        FileTypes::CSFTYPE_AVR
    } else if value == 26 {
        FileTypes::CSFTYPE_HTK
    } else if value == 27 {
        FileTypes::CSFTYPE_MAT4
    } else if value == 28 {
        FileTypes::CSFTYPE_MAT5
    } else if value == 29 {
        FileTypes::CSFTYPE_NIST
    } else if value == 30 {
        FileTypes::CSFTYPE_PAF
    } else if value == 31 {
        FileTypes::CSFTYPE_PVF
    } else if value == 32 {
        FileTypes::CSFTYPE_SDS
    } else if value == 33 {
        FileTypes::CSFTYPE_SVX
    } else if value == 34 {
        FileTypes::CSFTYPE_VOC
    } else if value == 35 {
        FileTypes::CSFTYPE_XI
    } else if value == 36 {
        FileTypes::CSFTYPE_UNKNOWN_AUDIO
    } else if value == 37 {
        FileTypes::CSFTYPE_SOUNDFONT
    } else if value == 38 {
        FileTypes::CSFTYPE_STD_MIDI
    } else if value == 39 {
        FileTypes::CSFTYPE_MIDI_SYSEX
    } else if value == 40 {
        FileTypes::CSFTYPE_HETRO
    } else if value == 41 {
        FileTypes::CSFTYPE_HETROT
    } else if value == 42 {
        FileTypes::CSFTYPE_PVC
    } else if value == 43 {
        FileTypes::CSFTYPE_PVCEX
    } else if value == 44 {
        FileTypes::CSFTYPE_CVANAL
    } else if value == 45 {
        FileTypes::CSFTYPE_LPC
    } else if value == 46 {
        FileTypes::CSFTYPE_ATS
    } else if value == 47 {
        FileTypes::CSFTYPE_LORIS
    } else if value == 48 {
        FileTypes::CSFTYPE_SDIF
    } else if value == 49 {
        FileTypes::CSFTYPE_HRTF
    } else if value == 50 {
        FileTypes::CSFTYPE_UNUSED
    } else if value == 51 {
        FileTypes::CSFTYPE_LADSPA_PLUGIN
    } else if value == 52 {
        FileTypes::CSFTYPE_SNAPSHOT
    } else if value == 53 {
        FileTypes::CSFTYPE_FTABLES_TEXT
    } else if value == 54 {
        FileTypes::CSFTYPE_FTABLES_BINARY
    } else if value == 55 {
        FileTypes::CSFTYPE_XSCANU_MATRIX
    } else if value == 56 {
        FileTypes::CSFTYPE_FLOATS_TEXT
    } else if value == 57 {
        FileTypes::CSFTYPE_FLOATS_BINARY
    } else if value == 58 {
        FileTypes::CSFTYPE_INTEGER_TEXT
    } else if value == 59 {
        FileTypes::CSFTYPE_INTEGER_BINARY
    } else if value == 60 {
        FileTypes::CSFTYPE_IMAGE_PNG
    } else if value == 61 {
        FileTypes::CSFTYPE_POSTSCRIPT
    } else if value == 62 {
        FileTypes::CSFTYPE_SCRIPT_TEXT
    } else if value == 63 {
        FileTypes::CSFTYPE_OTHER_TEXT
    } else {
        FileTypes::CSFTYPE_UNKNOWN
    }
}

/// The native type code of a file kind.
pub open spec fn file_type_code(t: FileTypes) -> u8 {
    match t {
        FileTypes::CSFTYPE_UNKNOWN => 0,
        FileTypes::CSFTYPE_UNIFIED_CSD => 1,
        FileTypes::CSFTYPE_ORCHESTRA => 2,
        FileTypes::CSFTYPE_SCORE => 3,
        FileTypes::CSFTYPE_ORC_INCLUDE => 4,
        FileTypes::CSFTYPE_SCO_INCLUDE => 5,
        FileTypes::CSFTYPE_SCORE_OUT => 6,
        FileTypes::CSFTYPE_SCOT => 7,
        FileTypes::CSFTYPE_OPTIONS => 8,
        FileTypes::CSFTYPE_EXTRACT_PARMS => 9,
        FileTypes::CSFTYPE_RAW_AUDIO => 10,
        FileTypes::CSFTYPE_IRCAM => 11,
        FileTypes::CSFTYPE_AIFF => 12,
        FileTypes::CSFTYPE_AIFC => 13,
        FileTypes::CSFTYPE_WAVE => 14,
        FileTypes::CSFTYPE_AU => 15,
        FileTypes::CSFTYPE_SD2 => 16,
        FileTypes::CSFTYPE_W64 => 17,
        FileTypes::CSFTYPE_WAVEX => 18,
        FileTypes::CSFTYPE_FLAC => 19,
        FileTypes::CSFTYPE_CAF => 20,
        FileTypes::CSFTYPE_WVE => 21,
        FileTypes::CSFTYPE_OGG => 22,
        FileTypes::CSFTYPE_MPC2K => 23,
        FileTypes::CSFTYPE_RF64 => 24,
        FileTypes::CSFTYPE_AVR => 25,
        FileTypes::CSFTYPE_HTK => 26,
        FileTypes::CSFTYPE_MAT4 => 27,
        FileTypes::CSFTYPE_MAT5 => 28,
        FileTypes::CSFTYPE_NIST => 29,
        FileTypes::CSFTYPE_PAF => 30,
        FileTypes::CSFTYPE_PVF => 31,
        FileTypes::CSFTYPE_SDS => 32,
        FileTypes::CSFTYPE_SVX => 33,
        FileTypes::CSFTYPE_VOC => 34,
        FileTypes::CSFTYPE_XI => 35,
        FileTypes::CSFTYPE_UNKNOWN_AUDIO => 36,
        FileTypes::CSFTYPE_SOUNDFONT => 37,
        FileTypes::CSFTYPE_STD_MIDI => 38,
        FileTypes::CSFTYPE_MIDI_SYSEX => 39,
        FileTypes::CSFTYPE_HETRO => 40,
        FileTypes::CSFTYPE_HETROT => 41,
        FileTypes::CSFTYPE_PVC => 42,
        FileTypes::CSFTYPE_PVCEX => 43,
        FileTypes::CSFTYPE_CVANAL => 44,
        FileTypes::CSFTYPE_LPC => 45,
        FileTypes::CSFTYPE_ATS => 46,
        FileTypes::CSFTYPE_LORIS => 47,
        FileTypes::CSFTYPE_SDIF => 48,
        FileTypes::CSFTYPE_HRTF => 49,
        FileTypes::CSFTYPE_UNUSED => 50,
        FileTypes::CSFTYPE_LADSPA_PLUGIN => 51,
        FileTypes::CSFTYPE_SNAPSHOT => 52,
        FileTypes::CSFTYPE_FTABLES_TEXT => 53,
        FileTypes::CSFTYPE_FTABLES_BINARY => 54,
        FileTypes::CSFTYPE_XSCANU_MATRIX => 55,
        FileTypes::CSFTYPE_FLOATS_TEXT => 56,
        FileTypes::CSFTYPE_FLOATS_BINARY => 57,
        FileTypes::CSFTYPE_INTEGER_TEXT => 58,
        FileTypes::CSFTYPE_INTEGER_BINARY => 59,
        FileTypes::CSFTYPE_IMAGE_PNG => 60,
        FileTypes::CSFTYPE_POSTSCRIPT => 61,
        FileTypes::CSFTYPE_SCRIPT_TEXT => 62,
        FileTypes::CSFTYPE_OTHER_TEXT => 63,
        FileTypes::CSFTYPE_OTHER_BINARY => 64,
    }
}

impl FileTypes {
    /// Reads the native file-type code carried by a file-open event.
    pub fn from_u8(value: u8) -> (r: FileTypes)
        ensures
            r == file_type_of(value),
    {
        match value {
            1 => FileTypes::CSFTYPE_UNIFIED_CSD,
            2 => FileTypes::CSFTYPE_ORCHESTRA,
            3 => FileTypes::CSFTYPE_SCORE,
            4 => FileTypes::CSFTYPE_ORC_INCLUDE,
            5 => FileTypes::CSFTYPE_SCO_INCLUDE,
            6 => FileTypes::CSFTYPE_SCORE_OUT,
            7 => FileTypes::CSFTYPE_SCOT,
            8 => FileTypes::CSFTYPE_OPTIONS,
            9 => FileTypes::CSFTYPE_EXTRACT_PARMS,
            10 => FileTypes::CSFTYPE_RAW_AUDIO,
            11 => FileTypes::CSFTYPE_IRCAM,
            12 => FileTypes::CSFTYPE_AIFF,
            13 => FileTypes::CSFTYPE_AIFC,
            14 => FileTypes::CSFTYPE_WAVE,
            15 => FileTypes::CSFTYPE_AU,
            16 => FileTypes::CSFTYPE_SD2,
            17 => FileTypes::CSFTYPE_W64,
            18 => FileTypes::CSFTYPE_WAVEX,
            19 => FileTypes::CSFTYPE_FLAC,
            20 => FileTypes::CSFTYPE_CAF,
            21 => FileTypes::CSFTYPE_WVE,
            22 => FileTypes::CSFTYPE_OGG,
            23 => FileTypes::CSFTYPE_MPC2K,
            24 => FileTypes::CSFTYPE_RF64,
            25 => FileTypes::CSFTYPE_AVR,
            26 => FileTypes::CSFTYPE_HTK,
            27 => FileTypes::CSFTYPE_MAT4,
            28 => FileTypes::CSFTYPE_MAT5,
            29 => FileTypes::CSFTYPE_NIST,
            30 => FileTypes::CSFTYPE_PAF,
            31 => FileTypes::CSFTYPE_PVF,
            32 => FileTypes::CSFTYPE_SDS,
            33 => FileTypes::CSFTYPE_SVX,
            34 => FileTypes::CSFTYPE_VOC,
            35 => FileTypes::CSFTYPE_XI,
            36 => FileTypes::CSFTYPE_UNKNOWN_AUDIO,
            37 => FileTypes::CSFTYPE_SOUNDFONT,
            38 => FileTypes::CSFTYPE_STD_MIDI,
            39 => FileTypes::CSFTYPE_MIDI_SYSEX,
            40 => FileTypes::CSFTYPE_HETRO,
            41 => FileTypes::CSFTYPE_HETROT,
            42 => FileTypes::CSFTYPE_PVC,
            43 => FileTypes::CSFTYPE_PVCEX,
            44 => FileTypes::CSFTYPE_CVANAL,
            45 => FileTypes::CSFTYPE_LPC,
            46 => FileTypes::CSFTYPE_ATS,
            47 => FileTypes::CSFTYPE_LORIS,
            48 => FileTypes::CSFTYPE_SDIF,
            49 => FileTypes::CSFTYPE_HRTF,
            50 => FileTypes::CSFTYPE_UNUSED,
            51 => FileTypes::CSFTYPE_LADSPA_PLUGIN,
            52 => FileTypes::CSFTYPE_SNAPSHOT,
            53 => FileTypes::CSFTYPE_FTABLES_TEXT,
            54 => FileTypes::CSFTYPE_FTABLES_BINARY,
            55 => FileTypes::CSFTYPE_XSCANU_MATRIX,
            56 => FileTypes::CSFTYPE_FLOATS_TEXT,
            57 => FileTypes::CSFTYPE_FLOATS_BINARY,
            58 => FileTypes::CSFTYPE_INTEGER_TEXT,
            59 => FileTypes::CSFTYPE_INTEGER_BINARY,
            60 => FileTypes::CSFTYPE_IMAGE_PNG,
            61 => FileTypes::CSFTYPE_POSTSCRIPT,
            62 => FileTypes::CSFTYPE_SCRIPT_TEXT,
            63 => FileTypes::CSFTYPE_OTHER_TEXT,
            _ => FileTypes::CSFTYPE_UNKNOWN,
        }
    }

    /// The native type code of this file kind.
    pub fn to_u8(&self) -> (r: u8)
        ensures
            r == file_type_code(*self),
    {
        match self {
            FileTypes::CSFTYPE_UNKNOWN => 0,
            FileTypes::CSFTYPE_UNIFIED_CSD => 1,
            FileTypes::CSFTYPE_ORCHESTRA => 2,
            FileTypes::CSFTYPE_SCORE => 3,
            FileTypes::CSFTYPE_ORC_INCLUDE => 4,
            FileTypes::CSFTYPE_SCO_INCLUDE => 5,
            FileTypes::CSFTYPE_SCORE_OUT => 6,
            FileTypes::CSFTYPE_SCOT => 7,
            FileTypes::CSFTYPE_OPTIONS => 8,
            FileTypes::CSFTYPE_EXTRACT_PARMS => 9,
            FileTypes::CSFTYPE_RAW_AUDIO => 10,
            FileTypes::CSFTYPE_IRCAM => 11,
            FileTypes::CSFTYPE_AIFF => 12,
            FileTypes::CSFTYPE_AIFC => 13,
            FileTypes::CSFTYPE_WAVE => 14,
            FileTypes::CSFTYPE_AU => 15,
            FileTypes::CSFTYPE_SD2 => 16,
            FileTypes::CSFTYPE_W64 => 17,
            FileTypes::CSFTYPE_WAVEX => 18,
            FileTypes::CSFTYPE_FLAC => 19,
            FileTypes::CSFTYPE_CAF => 20,
            FileTypes::CSFTYPE_WVE => 21,
            FileTypes::CSFTYPE_OGG => 22,
            FileTypes::CSFTYPE_MPC2K => 23,
            FileTypes::CSFTYPE_RF64 => 24,
            FileTypes::CSFTYPE_AVR => 25,
            FileTypes::CSFTYPE_HTK => 26,
            FileTypes::CSFTYPE_MAT4 => 27,
            FileTypes::CSFTYPE_MAT5 => 28,
            FileTypes::CSFTYPE_NIST => 29,
            FileTypes::CSFTYPE_PAF => 30,
            FileTypes::CSFTYPE_PVF => 31,
            FileTypes::CSFTYPE_SDS => 32,
            FileTypes::CSFTYPE_SVX => 33,
            FileTypes::CSFTYPE_VOC => 34,
            FileTypes::CSFTYPE_XI => 35,
            FileTypes::CSFTYPE_UNKNOWN_AUDIO => 36,
            FileTypes::CSFTYPE_SOUNDFONT => 37,
            FileTypes::CSFTYPE_STD_MIDI => 38,
            FileTypes::CSFTYPE_MIDI_SYSEX => 39,
            FileTypes::CSFTYPE_HETRO => 40,
            FileTypes::CSFTYPE_HETROT => 41,
            FileTypes::CSFTYPE_PVC => 42,
            FileTypes::CSFTYPE_PVCEX => 43,
            FileTypes::CSFTYPE_CVANAL => 44,
            FileTypes::CSFTYPE_LPC => 45,
            FileTypes::CSFTYPE_ATS => 46,
            FileTypes::CSFTYPE_LORIS => 47,
            FileTypes::CSFTYPE_SDIF => 48,
            FileTypes::CSFTYPE_HRTF => 49,
            FileTypes::CSFTYPE_UNUSED => 50,
            FileTypes::CSFTYPE_LADSPA_PLUGIN => 51,
            FileTypes::CSFTYPE_SNAPSHOT => 52,
            FileTypes::CSFTYPE_FTABLES_TEXT => 53,
            FileTypes::CSFTYPE_FTABLES_BINARY => 54,
            FileTypes::CSFTYPE_XSCANU_MATRIX => 55,
            FileTypes::CSFTYPE_FLOATS_TEXT => 56,
            FileTypes::CSFTYPE_FLOATS_BINARY => 57,
            FileTypes::CSFTYPE_INTEGER_TEXT => 58,
            FileTypes::CSFTYPE_INTEGER_BINARY => 59,
            FileTypes::CSFTYPE_IMAGE_PNG => 60,
            FileTypes::CSFTYPE_POSTSCRIPT => 61,
            FileTypes::CSFTYPE_SCRIPT_TEXT => 62,
            FileTypes::CSFTYPE_OTHER_TEXT => 63,
            FileTypes::CSFTYPE_OTHER_BINARY => 64,
        }
    }
}

} // verus!
