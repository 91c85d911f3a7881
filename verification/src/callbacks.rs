use vstd::prelude::*;

use crate::channels::text_byte_len;
use crate::enums::ChannelData;
use crate::enums::FileTypes;
use crate::enums::MessageType;
use crate::enums::Status;
use crate::enums::file_type_of;
use crate::enums::message_type_of;
use crate::rtaudio::CsAudioDevice;
use crate::rtaudio::RtAudioParams;

verus! {

/// Record of one file the engine opened, handed to the file-open closure.
#[derive(Debug, Clone, PartialEq)]
pub struct FileInfo {
    /// Path of the file, full or relative; absent when the native path was
    /// not valid text.
    pub name: Option<String>,
    /// What the engine opened the file as.
    pub file_type: FileTypes,
    /// True when the engine is writing the file, false when reading.
    pub is_writing: bool,
    /// True when the file is a temporary one the engine will delete.
    pub is_temp: bool,
}

/// The closed set of engine events a host closure can be installed for.
#[derive(Debug, Clone, Copy, PartialEq, Eq, Structural)]
pub enum EventKind {
    Message,
    SenseEvent,
    AudioDeviceList,
    PlayOpen,
    RecOpen,
    RtPlay,
    RtRecord,
    RtClose,
    Cscore,
    ChannelInput,
    ChannelOutput,
    FileOpen,
    MidiInOpen,
    MidiOutOpen,
    MidiRead,
    MidiWrite,
    MidiInClose,
    MidiOutClose,
    Yield,
}

/// What a trampoline decides when its event fires: hand the translated
/// arguments to the installed closure, or answer the neutral value without
/// calling anyone.
#[derive(Debug, Clone, PartialEq)]
pub enum Dispatch<A, R> {
    /// Invoke the installed closure with exactly these arguments.
    Invoke(A),
    /// No closure is to be called; answer this value to the engine.
    Neutral(R),
}

/// Which event slots hold a host closure.  One registry belongs to one
/// engine instance; the closures themselves are type-erased values the
/// embedding keeps beside it, one per occupied slot, replaced rather than
/// stacked on re-registration.
#[derive(Debug, Clone)]
pub struct CallbackRegistry {
    pub message_cb: bool,
    pub sense_event_cb: bool,
    pub devlist_cb: bool,
    pub play_open_cb: bool,
    pub rec_open_cb: bool,
    pub rt_play_cb: bool,
    pub rt_rec_cb: bool,
    pub rt_close_cb: bool,
    pub cscore_cb: bool,
    pub input_channel_cb: bool,
    pub output_channel_cb: bool,
    pub file_open_cb: bool,
    pub midi_in_open_cb: bool,
    pub midi_out_open_cb: bool,
    pub midi_read_cb: bool,
    pub midi_write_cb: bool,
    pub midi_in_close_cb: bool,
    pub midi_out_close_cb: bool,
    pub yield_cb: bool,
}

impl CallbackRegistry {
    /// Whether the slot for `kind` holds a closure.
    pub open spec fn spec_registered(self, kind: EventKind) -> bool {
        match kind {
            EventKind::Message => self.message_cb,
            EventKind::SenseEvent => self.sense_event_cb,
            EventKind::AudioDeviceList => self.devlist_cb,
            EventKind::PlayOpen => self.play_open_cb,
            EventKind::RecOpen => self.rec_open_cb,
            EventKind::RtPlay => self.rt_play_cb,
            EventKind::RtRecord => self.rt_rec_cb,
            EventKind::RtClose => self.rt_close_cb,
            EventKind::Cscore => self.cscore_cb,
            EventKind::ChannelInput => self.input_channel_cb,
            EventKind::ChannelOutput => self.output_channel_cb,
            EventKind::FileOpen => self.file_open_cb,
            EventKind::MidiInOpen => self.midi_in_open_cb,
            EventKind::MidiOutOpen => self.midi_out_open_cb,
            EventKind::MidiRead => self.midi_read_cb,
            EventKind::MidiWrite => self.midi_write_cb,
            EventKind::MidiInClose => self.midi_in_close_cb,
            EventKind::MidiOutClose => self.midi_out_close_cb,
            EventKind::Yield => self.yield_cb,
        }
    }

    /// The registry value with every slot empty.
    pub open spec fn spec_empty() -> CallbackRegistry {
        CallbackRegistry {
            message_cb: false,
            sense_event_cb: false,
            devlist_cb: false,
            play_open_cb: false,
            rec_open_cb: false,
            rt_play_cb: false,
            rt_rec_cb: false,
            rt_close_cb: false,
            cscore_cb: false,
            input_channel_cb: false,
            output_channel_cb: false,
            file_open_cb: false,
            midi_in_open_cb: false,
            midi_out_open_cb: false,
            midi_read_cb: false,
            midi_write_cb: false,
            midi_in_close_cb: false,
            midi_out_close_cb: false,
            yield_cb: false,
        }
    }

    /// A registry with every slot empty.
    pub fn new() -> (r: CallbackRegistry)
        ensures
            r == CallbackRegistry::spec_empty(),
            forall|kind: EventKind| !r.spec_registered(kind),
    {
        CallbackRegistry {
            message_cb: false,
            sense_event_cb: false,
            devlist_cb: false,
            play_open_cb: false,
            rec_open_cb: false,
            rt_play_cb: false,
            rt_rec_cb: false,
            rt_close_cb: false,
            cscore_cb: false,
            input_channel_cb: false,
            output_channel_cb: false,
            file_open_cb: false,
            midi_in_open_cb: false,
            midi_out_open_cb: false,
            midi_read_cb: false,
            midi_write_cb: false,
            midi_in_close_cb: false,
            midi_out_close_cb: false,
            yield_cb: false,
        }
    }

    /// Marks the slot for `kind` occupied.  Registering over an occupied
    /// slot replaces its closure, so the slot state does not change; no
    /// other slot is touched.
    pub fn register(&mut self, kind: EventKind)
        ensures
            final(self).message_cb == (kind == EventKind::Message || old(self).message_cb),
            final(self).sense_event_cb == (kind == EventKind::SenseEvent || old(self).sense_event_cb),
            final(self).devlist_cb == (kind == EventKind::AudioDeviceList || old(self).devlist_cb),
            final(self).play_open_cb == (kind == EventKind::PlayOpen || old(self).play_open_cb),
            final(self).rec_open_cb == (kind == EventKind::RecOpen || old(self).rec_open_cb),
            final(self).rt_play_cb == (kind == EventKind::RtPlay || old(self).rt_play_cb),
            final(self).rt_rec_cb == (kind == EventKind::RtRecord || old(self).rt_rec_cb),
            final(self).rt_close_cb == (kind == EventKind::RtClose || old(self).rt_close_cb),
            final(self).cscore_cb == (kind == EventKind::Cscore || old(self).cscore_cb),
            final(self).input_channel_cb == (kind == EventKind::ChannelInput || old(self).input_channel_cb),
            final(self).output_channel_cb == (kind == EventKind::ChannelOutput || old(self).output_channel_cb),
            final(self).file_open_cb == (kind == EventKind::FileOpen || old(self).file_open_cb),
            final(self).midi_in_open_cb == (kind == EventKind::MidiInOpen || old(self).midi_in_open_cb),
            final(self).midi_out_open_cb == (kind == EventKind::MidiOutOpen || old(self).midi_out_open_cb),
            final(self).midi_read_cb == (kind == EventKind::MidiRead || old(self).midi_read_cb),
            final(self).midi_write_cb == (kind == EventKind::MidiWrite || old(self).midi_write_cb),
            final(self).midi_in_close_cb == (kind == EventKind::MidiInClose || old(self).midi_in_close_cb),
            final(self).midi_out_close_cb == (kind == EventKind::MidiOutClose || old(self).midi_out_close_cb),
            final(self).yield_cb == (kind == EventKind::Yield || old(self).yield_cb),
    {
        let next = CallbackRegistry {
            message_cb: self.message_cb || kind == EventKind::Message,
            sense_event_cb: self.sense_event_cb || kind == EventKind::SenseEvent,
            devlist_cb: self.devlist_cb || kind == EventKind::AudioDeviceList,
            play_open_cb: self.play_open_cb || kind == EventKind::PlayOpen,
            rec_open_cb: self.rec_open_cb || kind == EventKind::RecOpen,
            rt_play_cb: self.rt_play_cb || kind == EventKind::RtPlay,
            rt_rec_cb: self.rt_rec_cb || kind == EventKind::RtRecord,
            rt_close_cb: self.rt_close_cb || kind == EventKind::RtClose,
            cscore_cb: self.cscore_cb || kind == EventKind::Cscore,
            input_channel_cb: self.input_channel_cb || kind == EventKind::ChannelInput,
            output_channel_cb: self.output_channel_cb || kind == EventKind::ChannelOutput,
            file_open_cb: self.file_open_cb || kind == EventKind::FileOpen,
            midi_in_open_cb: self.midi_in_open_cb || kind == EventKind::MidiInOpen,
            midi_out_open_cb: self.midi_out_open_cb || kind == EventKind::MidiOutOpen,
            midi_read_cb: self.midi_read_cb || kind == EventKind::MidiRead,
            midi_write_cb: self.midi_write_cb || kind == EventKind::MidiWrite,
            midi_in_close_cb: self.midi_in_close_cb || kind == EventKind::MidiInClose,
            midi_out_close_cb: self.midi_out_close_cb || kind == EventKind::MidiOutClose,
            yield_cb: self.yield_cb || kind == EventKind::Yield,
        };
        *self = next;
    }




    /// Empties the slot for `kind`; no other slot is touched.
    pub fn unregister(&mut self, kind: EventKind)
        ensures
            final(self).message_cb == (old(self).message_cb && !(kind == EventKind::Message)),
            final(self).sense_event_cb == (old(self).sense_event_cb && !(kind == EventKind::SenseEvent)),
            final(self).devlist_cb == (old(self).devlist_cb && !(kind == EventKind::AudioDeviceList)),
            final(self).play_open_cb == (old(self).play_open_cb && !(kind == EventKind::PlayOpen)),
            final(self).rec_open_cb == (old(self).rec_open_cb && !(kind == EventKind::RecOpen)),
            final(self).rt_play_cb == (old(self).rt_play_cb && !(kind == EventKind::RtPlay)),
            final(self).rt_rec_cb == (old(self).rt_rec_cb && !(kind == EventKind::RtRecord)),
            final(self).rt_close_cb == (old(self).rt_close_cb && !(kind == EventKind::RtClose)),
            final(self).cscore_cb == (old(self).cscore_cb && !(kind == EventKind::Cscore)),
            final(self).input_channel_cb == (old(self).input_channel_cb && !(kind == EventKind::ChannelInput)),
            final(self).output_channel_cb == (old(self).output_channel_cb && !(kind == EventKind::ChannelOutput)),
            final(self).file_open_cb == (old(self).file_open_cb && !(kind == EventKind::FileOpen)),
            final(self).midi_in_open_cb == (old(self).midi_in_open_cb && !(kind == EventKind::MidiInOpen)),
            final(self).midi_out_open_cb == (old(self).midi_out_open_cb && !(kind == EventKind::MidiOutOpen)),
            final(self).midi_read_cb == (old(self).midi_read_cb && !(kind == EventKind::MidiRead)),
            final(self).midi_write_cb == (old(self).midi_write_cb && !(kind == EventKind::MidiWrite)),
            final(self).midi_in_close_cb == (old(self).midi_in_close_cb && !(kind == EventKind::MidiInClose)),
            final(self).midi_out_close_cb == (old(self).midi_out_close_cb && !(kind == EventKind::MidiOutClose)),
            final(self).yield_cb == (old(self).yield_cb && !(kind == EventKind::Yield)),
    {
        let next = CallbackRegistry {
            message_cb: self.message_cb && !(kind == EventKind::Message),
            sense_event_cb: self.sense_event_cb && !(kind == EventKind::SenseEvent),
            devlist_cb: self.devlist_cb && !(kind == EventKind::AudioDeviceList),
            play_open_cb: self.play_open_cb && !(kind == EventKind::PlayOpen),
            rec_open_cb: self.rec_open_cb && !(kind == EventKind::RecOpen),
            rt_play_cb: self.rt_play_cb && !(kind == EventKind::RtPlay),
            rt_rec_cb: self.rt_rec_cb && !(kind == EventKind::RtRecord),
            rt_close_cb: self.rt_close_cb && !(kind == EventKind::RtClose),
            cscore_cb: self.cscore_cb && !(kind == EventKind::Cscore),
            input_channel_cb: self.input_channel_cb && !(kind == EventKind::ChannelInput),
            output_channel_cb: self.output_channel_cb && !(kind == EventKind::ChannelOutput),
            file_open_cb: self.file_open_cb && !(kind == EventKind::FileOpen),
            midi_in_open_cb: self.midi_in_open_cb && !(kind == EventKind::MidiInOpen),
            midi_out_open_cb: self.midi_out_open_cb && !(kind == EventKind::MidiOutOpen),
            midi_read_cb: self.midi_read_cb && !(kind == EventKind::MidiRead),
            midi_write_cb: self.midi_write_cb && !(kind == EventKind::MidiWrite),
            midi_in_close_cb: self.midi_in_close_cb && !(kind == EventKind::MidiInClose),
            midi_out_close_cb: self.midi_out_close_cb && !(kind == EventKind::MidiOutClose),
            yield_cb: self.yield_cb && !(kind == EventKind::Yield),
        };
        *self = next;
    }




    /// Whether a closure is installed for `kind`.
    pub fn is_registered(&self, kind: EventKind) -> (r: bool)
        ensures
            r == self.spec_registered(kind),
    {
        match kind {
            EventKind::Message => self.message_cb,
            EventKind::SenseEvent => self.sense_event_cb,
            EventKind::AudioDeviceList => self.devlist_cb,
            EventKind::PlayOpen => self.play_open_cb,
            EventKind::RecOpen => self.rec_open_cb,
            EventKind::RtPlay => self.rt_play_cb,
            EventKind::RtRecord => self.rt_rec_cb,
            EventKind::RtClose => self.rt_close_cb,
            EventKind::Cscore => self.cscore_cb,
            EventKind::ChannelInput => self.input_channel_cb,
            EventKind::ChannelOutput => self.output_channel_cb,
            EventKind::FileOpen => self.file_open_cb,
            EventKind::MidiInOpen => self.midi_in_open_cb,
            EventKind::MidiOutOpen => self.midi_out_open_cb,
            EventKind::MidiRead => self.midi_read_cb,
            EventKind::MidiWrite => self.midi_write_cb,
            EventKind::MidiInClose => self.midi_in_close_cb,
            EventKind::MidiOutClose => self.midi_out_close_cb,
            EventKind::Yield => self.yield_cb,
        }
    }

    /// Trampoline decision for a message event.  `text` is the message as
    /// decoded at the native boundary, absent when the native bytes were
    /// not valid text; such a message is dropped rather than delivered.
    pub fn dispatch_message(&self, attr: u32, text: Option<String>) -> (r: Dispatch<
        (MessageType, String),
        (),
    >)
        ensures
            self.spec_registered(EventKind::Message) && text is Some ==> r == Dispatch::<
                (MessageType, String),
                (),
            >::Invoke((message_type_of(attr), text->Some_0)),
            !self.spec_registered(EventKind::Message) || text is None ==> r == Dispatch::<
                (MessageType, String),
                (),
            >::Neutral(()),
    {
        match text {
            Some(s) if self.message_cb => Dispatch::Invoke((MessageType::from_u32(attr), s)),
            _ => Dispatch::Neutral(()),
        }
    }

    /// Trampoline decision for a score sense-event tick; the event carries
    /// nothing and answers nothing.
    pub fn dispatch_sense_event(&self) -> (r: Dispatch<(), ()>)
        ensures
            self.spec_registered(EventKind::SenseEvent) ==> r == Dispatch::<(), ()>::Invoke(()),
            !self.spec_registered(EventKind::SenseEvent) ==> r == Dispatch::<(), ()>::Neutral(()),
    {
        if self.sense_event_cb {
            Dispatch::Invoke(())
        } else {
            Dispatch::Neutral(())
        }
    }

    /// Trampoline decision for one entry of an audio-device enumeration.
    /// The device record is rebuilt from the fields the native record
    /// carries, with the direction flag widened from the separate native
    /// argument; the engine is answered 0 whether or not a closure ran.
    pub fn dispatch_audio_dev_list(
        &self,
        device_name: Option<String>,
        device_id: Option<String>,
        rt_module: Option<String>,
        max_nchnls: u32,
        is_output: i32,
    ) -> (r: Dispatch<CsAudioDevice, i32>)
        ensures
            self.spec_registered(EventKind::AudioDeviceList) ==> {
                &&& r is Invoke
                &&& r->Invoke_0.device_name == device_name
                &&& r->Invoke_0.device_id == device_id
                &&& r->Invoke_0.rt_module == rt_module
                &&& r->Invoke_0.max_nchnls == max_nchnls
                &&& r->Invoke_0.isOutput == is_output as u32
            },
            !self.spec_registered(EventKind::AudioDeviceList) ==> r == Dispatch::<
                CsAudioDevice,
                i32,
            >::Neutral(0i32),
    {
        if self.devlist_cb {
            Dispatch::Invoke(
                CsAudioDevice {
                    device_name,
                    device_id,
                    rt_module,
                    max_nchnls,
                    isOutput: is_output as u32,
                },
            )
        } else {
            Dispatch::Neutral(0)
        }
    }

    /// Trampoline decision for opening the real-time playback device.
    /// With no closure installed the open is answered as not successful.
    pub fn dispatch_play_open(&self, params: RtAudioParams) -> (r: Dispatch<RtAudioParams, Status>)
        ensures
            self.spec_registered(EventKind::PlayOpen) ==> r == Dispatch::<
                RtAudioParams,
                Status,
            >::Invoke(params),
            !self.spec_registered(EventKind::PlayOpen) ==> r == Dispatch::<
                RtAudioParams,
                Status,
            >::Neutral(Status::CS_ERROR),
    {
        if self.play_open_cb {
            Dispatch::Invoke(params)
        } else {
            Dispatch::Neutral(Status::CS_ERROR)
        }
    }

    /// Trampoline decision for opening the real-time record device.
    /// With no closure installed the open is answered as not successful.
    pub fn dispatch_rec_open(&self, params: RtAudioParams) -> (r: Dispatch<RtAudioParams, Status>)
        ensures
            self.spec_registered(EventKind::RecOpen) ==> r == Dispatch::<
                RtAudioParams,
                Status,
            >::Invoke(params),
            !self.spec_registered(EventKind::RecOpen) ==> r == Dispatch::<
                RtAudioParams,
                Status,
            >::Neutral(Status::CS_ERROR),
    {
        if self.rec_open_cb {
            Dispatch::Invoke(params)
        } else {
            Dispatch::Neutral(Status::CS_ERROR)
        }
    }

    /// Trampoline decision for a real-time play event over `nsmps` output
    /// samples: the closure, if any, is shown that many samples.
    pub fn dispatch_rt_play(&self, nsmps: usize) -> (r: Dispatch<usize, ()>)
        ensures
            self.spec_registered(EventKind::RtPlay) ==> r == Dispatch::<usize, ()>::Invoke(nsmps),
            !self.spec_registered(EventKind::RtPlay) ==> r == Dispatch::<usize, ()>::Neutral(()),
    {
        if self.rt_play_cb {
            Dispatch::Invoke(nsmps)
        } else {
            Dispatch::Neutral(())
        }
    }

    /// Trampoline decision for a real-time record request of `nsmps`
    /// samples.  The closure answers how many samples it wrote; with no
    /// closure installed, zero samples are recorded.
    pub fn dispatch_rt_record(&self, nsmps: usize) -> (r: Dispatch<usize, usize>)
        ensures
            self.spec_registered(EventKind::RtRecord) ==> r == Dispatch::<usize, usize>::Invoke(
                nsmps,
            ),
            !self.spec_registered(EventKind::RtRecord) ==> r == Dispatch::<usize, usize>::Neutral(
                0usize,
            ),
    {
        if self.rt_rec_cb {
            Dispatch::Invoke(nsmps)
        } else {
            Dispatch::Neutral(0)
        }
    }

    /// Trampoline decision for closing the real-time device.
    pub fn dispatch_rt_close(&self) -> (r: Dispatch<(), ()>)
        ensures
            self.spec_registered(EventKind::RtClose) ==> r == Dispatch::<(), ()>::Invoke(()),
            !self.spec_registered(EventKind::RtClose) ==> r == Dispatch::<(), ()>::Neutral(()),
    {
        if self.rt_close_cb {
            Dispatch::Invoke(())
        } else {
            Dispatch::Neutral(())
        }
    }

    /// Trampoline decision for a cscore processing step.
    pub fn dispatch_cscore(&self) -> (r: Dispatch<(), ()>)
        ensures
            self.spec_registered(EventKind::Cscore) ==> r == Dispatch::<(), ()>::Invoke(()),
            !self.spec_registered(EventKind::Cscore) ==> r == Dispatch::<(), ()>::Neutral(()),
    {
        if self.cscore_cb {
            Dispatch::Invoke(())
        } else {
            Dispatch::Neutral(())
        }
    }

    /// Trampoline decision for a request for the value of a named input
    /// channel.  A name that was not valid text suppresses the request, as
    /// does an empty slot; nothing is then written back.
    pub fn dispatch_channel_input(&self, name: Option<String>) -> (r: Dispatch<String, ()>)
        ensures
            self.spec_registered(EventKind::ChannelInput) && name is Some ==> r == Dispatch::<
                String,
                (),
            >::Invoke(name->Some_0),
            !self.spec_registered(EventKind::ChannelInput) || name is None ==> r == Dispatch::<
                String,
                (),
            >::Neutral(()),
    {
        match name {
            Some(s) if self.input_channel_cb => Dispatch::Invoke(s),
            _ => Dispatch::Neutral(()),
        }
    }

    /// Trampoline decision for a notification that a named output channel
    /// changed.  `data` is the value read from the channel, already shaped
    /// by its live content kind; an invalid name suppresses the event.
    pub fn dispatch_channel_output(&self, name: Option<String>, data: ChannelData) -> (r: Dispatch<
        (String, ChannelData),
        (),
    >)
        ensures
            self.spec_registered(EventKind::ChannelOutput) && name is Some ==> r == Dispatch::<
                (String, ChannelData),
                (),
            >::Invoke((name->Some_0, data)),
            !self.spec_registered(EventKind::ChannelOutput) || name is None ==> r == Dispatch::<
                (String, ChannelData),
                (),
            >::Neutral(()),
    {
        match name {
            Some(s) if self.output_channel_cb => Dispatch::Invoke((s, data)),
            _ => Dispatch::Neutral(()),
        }
    }

    /// Trampoline decision for a file-open notification.  The native
    /// arguments are folded into a [`FileInfo`] record: the type code
    /// selects a file kind, the operation and temporary flags are read as
    /// booleans, and an unreadable path is carried as an absent name.
    pub fn dispatch_file_open(
        &self,
        name: Option<String>,
        file_type: u8,
        operation: i32,
        is_temp: i32,
    ) -> (r: Dispatch<FileInfo, ()>)
        ensures
            self.spec_registered(EventKind::FileOpen) ==> {
                &&& r is Invoke
                &&& r->Invoke_0.name == name
                &&& r->Invoke_0.file_type == file_type_of(file_type)
                &&& r->Invoke_0.is_writing == (operation != 0)
                &&& r->Invoke_0.is_temp == (is_temp != 0)
            },
            !self.spec_registered(EventKind::FileOpen) ==> r == Dispatch::<
                FileInfo,
                (),
            >::Neutral(()),
    {
        if self.file_open_cb {
            Dispatch::Invoke(
                FileInfo {
                    name,
                    file_type: FileTypes::from_u8(file_type),
                    is_writing: operation != 0,
                    is_temp: is_temp != 0,
                },
            )
        } else {
            Dispatch::Neutral(())
        }
    }

    /// Trampoline decision for opening a real-time MIDI input device.  An
    /// unreadable device name fails the open; a readable one reaches the
    /// closure when installed, and the open succeeds either way.
    pub fn dispatch_midi_in_open(&self, name: Option<String>) -> (r: Dispatch<String, i32>)
        ensures
            name is None ==> r == Dispatch::<String, i32>::Neutral(-1i32),
            name is Some && self.spec_registered(EventKind::MidiInOpen) ==> r == Dispatch::<
                String,
                i32,
            >::Invoke(name->Some_0),
            name is Some && !self.spec_registered(EventKind::MidiInOpen) ==> r == Dispatch::<
                String,
                i32,
            >::Neutral(0i32),
    {
        match name {
            None => Dispatch::Neutral(-1),
            Some(s) => {
                if self.midi_in_open_cb {
                    Dispatch::Invoke(s)
                } else {
                    Dispatch::Neutral(0)
                }
            },
        }
    }

    /// Trampoline decision for opening a real-time MIDI output device,
    /// with the same shape as the input open.
    pub fn dispatch_midi_out_open(&self, name: Option<String>) -> (r: Dispatch<String, i32>)
        ensures
            name is None ==> r == Dispatch::<String, i32>::Neutral(-1i32),
            name is Some && self.spec_registered(EventKind::MidiOutOpen) ==> r == Dispatch::<
                String,
                i32,
            >::Invoke(name->Some_0),
            name is Some && !self.spec_registered(EventKind::MidiOutOpen) ==> r == Dispatch::<
                String,
                i32,
            >::Neutral(0i32),
    {
        match name {
            None => Dispatch::Neutral(-1),
            Some(s) => {
                if self.midi_out_open_cb {
                    Dispatch::Invoke(s)
                } else {
                    Dispatch::Neutral(0)
                }
            },
        }
    }

    /// Trampoline decision for a read of up to `nbytes` bytes of MIDI
    /// input.  The closure answers how many bytes it produced; with no
    /// closure installed, zero bytes are produced.
    pub fn dispatch_midi_read(&self, nbytes: usize) -> (r: Dispatch<usize, usize>)
        ensures
            self.spec_registered(EventKind::MidiRead) ==> r == Dispatch::<usize, usize>::Invoke(
                nbytes,
            ),
            !self.spec_registered(EventKind::MidiRead) ==> r == Dispatch::<usize, usize>::Neutral(
                0usize,
            ),
    {
        if self.midi_read_cb {
            Dispatch::Invoke(nbytes)
        } else {
            Dispatch::Neutral(0)
        }
    }

    /// Trampoline decision for a write of `nbytes` bytes of MIDI output.
    /// The closure answers how many bytes it consumed; with no closure
    /// installed, zero bytes are consumed.
    pub fn dispatch_midi_write(&self, nbytes: usize) -> (r: Dispatch<usize, usize>)
        ensures
            self.spec_registered(EventKind::MidiWrite) ==> r == Dispatch::<usize, usize>::Invoke(
                nbytes,
            ),
            !self.spec_registered(EventKind::MidiWrite) ==> r == Dispatch::<usize, usize>::Neutral(
                0usize,
            ),
    {
        if self.midi_write_cb {
            Dispatch::Invoke(nbytes)
        } else {
            Dispatch::Neutral(0)
        }
    }

    /// Trampoline decision for closing the real-time MIDI input device;
    /// the close is reported successful whether or not a closure ran.
    pub fn dispatch_midi_in_close(&self) -> (r: Dispatch<(), i32>)
        ensures
            self.spec_registered(EventKind::MidiInClose) ==> r == Dispatch::<(), i32>::Invoke(()),
            !self.spec_registered(EventKind::MidiInClose) ==> r == Dispatch::<(), i32>::Neutral(
                0i32,
            ),
    {
        if self.midi_in_close_cb {
            Dispatch::Invoke(())
        } else {
            Dispatch::Neutral(0)
        }
    }

    /// Trampoline decision for closing the real-time MIDI output device;
    /// the close is reported successful whether or not a closure ran.
    pub fn dispatch_midi_out_close(&self) -> (r: Dispatch<(), i32>)
        ensures
            self.spec_registered(EventKind::MidiOutClose) ==> r == Dispatch::<(), i32>::Invoke(()),
            !self.spec_registered(EventKind::MidiOutClose) ==> r == Dispatch::<(), i32>::Neutral(
                0i32,
            ),
    {
        if self.midi_out_close_cb {
            Dispatch::Invoke(())
        } else {
            Dispatch::Neutral(0)
        }
    }

    /// Trampoline decision for the cooperative-cancellation poll.  The
    /// closure answers whether the long operation may continue; with no
    /// closure installed the poll answers "do not continue", matching the
    /// native wrapper, which only installs this trampoline together with a
    /// closure.
    pub fn dispatch_yield(&self) -> (r: Dispatch<(), bool>)
        ensures
            self.spec_registered(EventKind::Yield) ==> r == Dispatch::<(), bool>::Invoke(()),
            !self.spec_registered(EventKind::Yield) ==> r == Dispatch::<(), bool>::Neutral(false),
    {
        if self.yield_cb {
            Dispatch::Invoke(())
        } else {
            Dispatch::Neutral(false)
        }
    }
}

/// What the channel-input trampoline writes back into the channel once the
/// closure has answered.
#[derive(Debug, Clone, PartialEq)]
pub enum ChannelWrite {
    /// Store this control value (a sample bit pattern).
    Control(u64),
    /// Store this text, NUL-terminated, in the channel's byte buffer.
    Text(String),
    /// Store nothing.
    Skip,
}

/// How a closure's answer to a channel-input request reaches the channel
/// memory: a control value is stored as is; text is stored only when it
/// fits the channel's byte buffer together with its NUL terminator, and is
/// otherwise dropped; an unknown-channel answer stores nothing.
pub fn input_channel_reply(reply: ChannelData, datasize: usize) -> (r: ChannelWrite)
    ensures
        reply matches ChannelData::CS_CONTROL_CHANNEL(v) ==> r == ChannelWrite::Control(v),
        reply matches ChannelData::CS_STRING_CHANNEL(s) ==> r == (if text_byte_len(s@) < datasize {
            ChannelWrite::Text(s)
        } else {
            ChannelWrite::Skip
        }),
        reply is CS_UNKNOWN_CHANNEL ==> r == ChannelWrite::Skip,
{
    match reply {
        ChannelData::CS_CONTROL_CHANNEL(v) => ChannelWrite::Control(v),
        ChannelData::CS_STRING_CHANNEL(s) => {
            if s.as_str().as_bytes().len() < datasize {
                ChannelWrite::Text(s)
            } else {
                ChannelWrite::Skip
            }
        },
        ChannelData::CS_UNKNOWN_CHANNEL => ChannelWrite::Skip,
    }
}

} // verus!
