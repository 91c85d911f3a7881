use vstd::prelude::*;

use crate::callbacks::CallbackRegistry;
use crate::callbacks::ChannelWrite;
use crate::callbacks::input_channel_reply;
use crate::channels::AudioChannel;
use crate::channels::ChannelBehavior;
use crate::channels::ChannelError;
use crate::channels::ChannelHints;
use crate::channels::ControlChannel;
use crate::channels::InputChannel;
use crate::channels::IsChannel;
use crate::channels::OutputChannel;
use crate::channels::PvsDataExt;
use crate::channels::StrChannel;
use crate::channels::ChannelInfo;
use crate::channels::text_byte_len;
use crate::circular::CircularBuffer;
use crate::enums::ChannelData;
use crate::enums::Status;
use crate::enums::channel_type_code;
use crate::enums::ControlChannelType;

verus! {

/// One named bus channel of the engine's shared memory.  Control and audio
/// channels hold samples (as bit patterns of the engine's sample type);
/// string channels hold text.
pub struct Channel {
    /// The channel name; engine-compatible text, unique per engine.
    pub name: String,
    /// Content kind: control, audio or string.
    pub kind: ControlChannelType,
    /// Whether the channel has been requested for host-to-engine use.
    pub input: bool,
    /// Whether the channel has been requested for engine-to-host use.
    pub output: bool,
    /// Sample storage: one sample for a control channel, one control period
    /// for an audio channel, empty for a string channel.
    pub data: Vec<u64>,
    /// Text storage of a string channel; empty for the other kinds.
    pub text: String,
    /// Display metadata of a control channel.
    pub hints: ChannelHints,
    /// The analysis frame of a pvs channel; absent for the other kinds.
    pub pvs: Option<PvsDataExt>,
}

/// Engine-compatible channel-name text: non-empty, and free of NUL bytes so
/// it survives the trip through a C string.
pub open spec fn valid_channel_name(s: Seq<char>) -> bool {
    let b = vstd::utf8::encode_utf8(s);
    &&& b.len() > 0
    &&& forall|i: int| 0 <= i < b.len() ==> b[i] != 0
}

/// Whether one channel record is well formed under the engine's current
/// samples-per-control-period.
pub open spec fn channel_wf(ch: Channel, ksmps: u32) -> bool {
    &&& valid_channel_name(ch.name@)
    &&& match ch.kind {
        ControlChannelType::CSOUND_CONTROL_CHANNEL => ch.data@.len() == 1 && ch.text@.len() == 0
            && ch.pvs is None,
        ControlChannelType::CSOUND_AUDIO_CHANNEL => ch.data@.len() == ksmps && ch.text@.len() == 0
            && ch.pvs is None,
        ControlChannelType::CSOUND_STRING_CHANNEL => ch.data@.len() == 0 && text_byte_len(
            ch.text@,
        ) < usize::MAX && ch.pvs is None,
        ControlChannelType::CSOUND_PVS_CHANNEL => ch.data@.len() == 0 && ch.text@.len() == 0 && (
        ch.pvs matches Some(p) && p.frame@.len() == p.N),
        _ => false,
    }
}

/// One engine instance: its bus channels, its raw audio buffers, the
/// attributes the buffer sizes derive from, and the callback registry the
/// instance owns.  The shared memory the native engine would expose through
/// raw pointers is held here as plain vectors; a view (a channel or buffer
/// handle) names a region of it by index and length.
pub struct Csound {
    /// Whether the instance has been prepared for performance; buffers
    /// exist and channels can be produced only in that state.
    pub started: bool,
    /// Samples per control period.
    pub ksmps: u32,
    /// Number of output channels.
    pub nchnls: u32,
    /// Number of input channels.
    pub nchnls_i: u32,
    /// Per-control-period audio input scratch buffer.
    pub spin: Vec<u64>,
    /// Per-control-period audio output scratch buffer.
    pub spout: Vec<u64>,
    /// Global audio input buffer.
    pub input_buffer: Vec<u64>,
    /// Global audio output buffer.
    pub output_buffer: Vec<u64>,
    /// The named bus channels, in creation order.
    pub channels: Vec<Channel>,
    /// The callback registry owned by this instance.
    pub callbacks: CallbackRegistry,
}

impl Csound {
    /// Well-formedness: before a start everything is empty; once started,
    /// buffer lengths follow the engine attributes; channels are well
    /// formed, with distinct names, and exist only while started.
    pub open spec fn wf(self) -> bool {
        &&& self.spin@.len() == (if self.started {
            self.ksmps as nat * self.nchnls_i as nat
        } else {
            0
        })
        &&& self.spout@.len() == (if self.started {
            self.ksmps as nat * self.nchnls as nat
        } else {
            0
        })
        &&& (!self.started ==> self.input_buffer@.len() == 0 && self.output_buffer@.len() == 0
            && self.channels@.len() == 0)
        &&& forall|i: int|
            0 <= i < self.channels@.len() ==> channel_wf(#[trigger] self.channels@[i], self.ksmps)
        &&& forall|i: int, j: int|
            0 <= i < j < self.channels@.len() ==> self.channels@[i].name@ != self.channels@[
                j
            ].name@
    }

    /// A fresh engine instance: not started, no channels, no buffers, an
    /// empty callback registry, and the engine's default attribute values.
    pub fn new() -> (r: Csound)
        ensures
            r.wf(),
            !r.started,
            r.ksmps == 10 && r.nchnls == 1 && r.nchnls_i == 1,
            r.channels@.len() == 0,
            r.callbacks == CallbackRegistry::spec_empty(),
            forall|kind: crate::callbacks::EventKind| !r.callbacks.spec_registered(kind),
    {
        Csound {
            started: false,
            ksmps: 10,
            nchnls: 1,
            nchnls_i: 1,
            spin: Vec::new(),
            spout: Vec::new(),
            input_buffer: Vec::new(),
            output_buffer: Vec::new(),
            channels: Vec::new(),
            callbacks: CallbackRegistry::new(),
        }
    }

    /// Prepares the instance for performance with the attributes the
    /// orchestra settled on: the control period, the channel counts and the
    /// global buffer size in frames.  All four buffers come up zeroed at
    /// the lengths those attributes fix.  Starting a started instance is
    /// refused and changes nothing.
    pub fn start(
        &mut self,
        ksmps: u32,
        input_channels: u32,
        output_channels: u32,
        buffer_frames: u32,
    ) -> (r: Result<(), &'static str>)
        requires
            old(self).wf(),
            ksmps as nat * input_channels as nat <= usize::MAX,
            ksmps as nat * output_channels as nat <= usize::MAX,
            buffer_frames as nat * input_channels as nat <= usize::MAX,
            buffer_frames as nat * output_channels as nat <= usize::MAX,
        ensures
            final(self).wf(),
            r is Err <==> old(self).started,
            old(self).started ==> *final(self) == *old(self),
            !old(self).started ==> {
                &&& final(self).started
                &&& final(self).ksmps == ksmps
                &&& final(self).nchnls_i == input_channels
                &&& final(self).nchnls == output_channels
                &&& final(self).spin@ == Seq::new(
                    ksmps as nat * input_channels as nat,
                    |i: int| 0u64,
                )
                &&& final(self).spout@ == Seq::new(
                    ksmps as nat * output_channels as nat,
                    |i: int| 0u64,
                )
                &&& final(self).input_buffer@ == Seq::new(
                    buffer_frames as nat * input_channels as nat,
                    |i: int| 0u64,
                )
                &&& final(self).output_buffer@ == Seq::new(
                    buffer_frames as nat * output_channels as nat,
                    |i: int| 0u64,
                )
                &&& final(self).channels@ == old(self).channels@
                &&& final(self).callbacks == old(self).callbacks
            },
    {
        if self.started {
            return Err("already started; reset before starting again");
        }
        self.ksmps = ksmps;
        self.nchnls_i = input_channels;
        self.nchnls = output_channels;
        self.spin = zeroed_samples((ksmps as usize) * (input_channels as usize));
        self.spout = zeroed_samples((ksmps as usize) * (output_channels as usize));
        self.input_buffer = zeroed_samples((buffer_frames as usize) * (input_channels as usize));
        self.output_buffer = zeroed_samples((buffer_frames as usize) * (output_channels as usize));
        self.started = true;
        Ok(())
    }

    /// Resets the instance for a new performance: buffers and channels are
    /// released and the instance is no longer started.  The callback
    /// registry survives a reset, as it does in the native engine.
    pub fn reset(&mut self)
        ensures
            final(self).wf(),
            !final(self).started,
            final(self).channels@.len() == 0,
            final(self).callbacks == old(self).callbacks,
    {
        self.started = false;
        self.spin = Vec::new();
        self.spout = Vec::new();
        self.input_buffer = Vec::new();
        self.output_buffer = Vec::new();
        self.channels = Vec::new();
    }

    /// Samples per control period.
    pub fn get_ksmps(&self) -> (r: u32)
        ensures
            r == self.ksmps,
    {
        self.ksmps
    }

    /// Number of output channels.
    pub fn output_channels(&self) -> (r: u32)
        ensures
            r == self.nchnls,
    {
        self.nchnls
    }

    /// Number of input channels.
    pub fn input_channels(&self) -> (r: u32)
        ensures
            r == self.nchnls_i,
    {
        self.nchnls_i
    }

    /// Number of samples in the global audio input buffer.
    pub fn get_input_buffer_size(&self) -> (r: usize)
        ensures
            r == self.input_buffer@.len(),
    {
        self.input_buffer.len()
    }

    /// Number of samples in the global audio output buffer.
    pub fn get_output_buffer_size(&self) -> (r: usize)
        ensures
            r == self.output_buffer@.len(),
    {
        self.output_buffer.len()
    }
}

/// A handle to one sample-bearing (control or audio) channel: the channel's
/// position in the engine's channel list, its element count, and its kind.
/// It stays usable while the channel list is not torn down by a reset.
#[derive(Debug, Clone, Copy, PartialEq, Eq, Structural)]
pub struct ControlChannelPtr {
    /// Position of the channel in the engine's channel list.
    pub index: usize,
    /// Number of samples the channel holds.
    pub len: usize,
    /// Content kind of the channel.
    pub channel_type: ControlChannelType,
}

impl ControlChannelPtr {
    /// The channel length, in samples.
    pub fn get_size(&self) -> (r: usize)
        ensures
            r == self.len,
    {
        self.len
    }
}

/// Hints that carry no information, as a fresh channel gets them.
pub open spec fn hints_defaulted(h: ChannelHints) -> bool {
    &&& h.behav == ChannelBehavior::CHANNEL_NO_HINTS
    &&& h.dflt == 0 && h.min == 0 && h.max == 0
    &&& h.x == 0 && h.y == 0 && h.width == 0 && h.height == 0
    &&& h.attributes@ == Seq::<char>::empty()
}

/// The element count a view of this channel reports: one sample for a
/// control channel, a control period for an audio channel, and the byte
/// size of the stored text plus its NUL terminator for a string channel.
pub open spec fn channel_view_len(ch: Channel, ksmps: u32) -> int {
    match ch.kind {
        ControlChannelType::CSOUND_CONTROL_CHANNEL => 1,
        ControlChannelType::CSOUND_AUDIO_CHANNEL => ksmps as int,
        ControlChannelType::CSOUND_STRING_CHANNEL => text_byte_len(ch.text@) as int + 1,
        _ => 0,
    }
}

impl Csound {
    /// Whether a channel named `name` exists.
    pub open spec fn spec_has_channel(self, name: Seq<char>) -> bool {
        exists|i: int| 0 <= i < self.channels@.len() && self.channels@[i].name@ == name
    }

    /// The position of the channel named `name`; meaningful only when one
    /// exists, and then unique because names are.
    pub open spec fn spec_channel_index(self, name: Seq<char>) -> int {
        choose|i: int| 0 <= i < self.channels@.len() && self.channels@[i].name@ == name
    }

    /// Everything but the channel list agrees between the two states.
    pub open spec fn same_but_channels(self, other: Csound) -> bool {
        &&& self.started == other.started
        &&& self.ksmps == other.ksmps
        &&& self.nchnls == other.nchnls
        &&& self.nchnls_i == other.nchnls_i
        &&& self.spin@ == other.spin@
        &&& self.spout@ == other.spout@
        &&& self.input_buffer@ == other.input_buffer@
        &&& self.output_buffer@ == other.output_buffer@
        &&& self.callbacks == other.callbacks
    }

    /// Whether a sample-channel handle refers to a live channel of this
    /// engine state: the index is in range and kind and length agree with
    /// the channel found there.
    pub open spec fn ptr_valid(self, p: ControlChannelPtr) -> bool {
        &&& (p.index as int) < self.channels@.len()
        &&& self.channels@[p.index as int].kind == p.channel_type
        &&& (p.channel_type == ControlChannelType::CSOUND_CONTROL_CHANNEL || p.channel_type
            == ControlChannelType::CSOUND_AUDIO_CHANNEL)
        &&& p.len == self.channels@[p.index as int].data@.len()
    }
}

impl Default for Csound {
    /// The same fresh instance [`Csound::new`] produces.
    fn default() -> (r: Csound)
        ensures
            r.wf(),
            !r.started,
            r.channels@.len() == 0,
            r.callbacks == CallbackRegistry::spec_empty(),
    {
        Csound::new()
    }
}

/// A channel position that carries `name` is the unique one the name maps
/// to.
pub proof fn lemma_channel_index_unique(cs: Csound, name: Seq<char>, i: int)
    requires
        cs.wf(),
        0 <= i < cs.channels@.len(),
        cs.channels@[i].name@ == name,
    ensures
        cs.spec_has_channel(name),
        cs.spec_channel_index(name) == i,
{
    assert(cs.spec_has_channel(name));
    let j = cs.spec_channel_index(name);
    if j < i {
        assert(cs.channels@[j].name@ != cs.channels@[i].name@);
    } else if i < j {
        assert(cs.channels@[i].name@ != cs.channels@[j].name@);
    }
}

/// How acquiring a named channel relates the state before (`pre`) and after
/// (`post`), the request, and the outcome `r` (position and element count
/// on success).  An invalid name is refused; a name in use with another
/// content kind is a conflict; a name in use with the requested kind yields
/// the existing channel, its direction widened by the requested one; an
/// unused name yields a fresh zeroed channel at the end of the list.  The
/// engine model never runs out of memory, so `ChannelError::OutOfMemory` is
/// never produced.
pub open spec fn acquire_outcome(
    pre: Csound,
    post: Csound,
    name: Seq<char>,
    kind: ControlChannelType,
    input: bool,
    output: bool,
    r: Result<(usize, usize), ChannelError>,
) -> bool {
    if !valid_channel_name(name) {
        &&& r == Result::<(usize, usize), ChannelError>::Err(ChannelError::InvalidName)
        &&& post == pre
    } else if pre.spec_has_channel(name) {
        let i = pre.spec_channel_index(name);
        if pre.channels@[i].kind != kind {
            &&& r == Result::<(usize, usize), ChannelError>::Err(ChannelError::TypeConflict)
            &&& post == pre
        } else {
            &&& r is Ok
            &&& r->Ok_0.0 == i
            &&& r->Ok_0.1 == channel_view_len(pre.channels@[i], pre.ksmps)
            &&& post.channels@.len() == pre.channels@.len()
            &&& post.channels@[i].name@ == pre.channels@[i].name@
            &&& post.channels@[i].kind == pre.channels@[i].kind
            &&& post.channels@[i].input == (pre.channels@[i].input || input)
            &&& post.channels@[i].output == (pre.channels@[i].output || output)
            &&& post.channels@[i].data@ == pre.channels@[i].data@
            &&& post.channels@[i].text@ == pre.channels@[i].text@
            &&& post.channels@[i].hints == pre.channels@[i].hints
            &&& post.channels@[i].pvs == pre.channels@[i].pvs
            &&& forall|j: int|
                0 <= j < pre.channels@.len() && j != i ==> post.channels@[j] == pre.channels@[j]
            &&& post.same_but_channels(pre)
        }
    } else {
        let n = pre.channels@.len() as int;
        let ch = post.channels@[n];
        &&& r is Ok
        &&& r->Ok_0.0 == n
        &&& r->Ok_0.1 == channel_view_len(ch, pre.ksmps)
        &&& post.channels@.len() == n + 1
        &&& forall|j: int| 0 <= j < n ==> post.channels@[j] == pre.channels@[j]
        &&& ch.name@ == name
        &&& ch.kind == kind
        &&& ch.input == input
        &&& ch.output == output
        &&& ch.data@ == Seq::new(
            match kind {
                ControlChannelType::CSOUND_CONTROL_CHANNEL => 1nat,
                ControlChannelType::CSOUND_AUDIO_CHANNEL => pre.ksmps as nat,
                _ => 0nat,
            },
            |k: int| 0u64,
        )
        &&& ch.text@ == Seq::<char>::empty()
        &&& hints_defaulted(ch.hints)
        &&& ch.pvs is None
        &&& post.same_but_channels(pre)
    }
}

impl Csound {
    /// Whether `name` is engine-compatible channel-name text.
    fn check_name(name: &str) -> (r: bool)
        ensures
            r == valid_channel_name(name@),
    {
        let bytes = name.as_bytes();
        if bytes.len() == 0 {
            return false;
        }
        let mut i: usize = 0;
        while i < bytes.len()
            invariant
                i <= bytes@.len(),
                bytes@ == vstd::utf8::encode_utf8(name@),
                bytes@.len() > 0,
                forall|j: int| 0 <= j < i ==> bytes@[j] != 0,
            decreases bytes@.len() - i,
        {
            if bytes[i] == 0 {
                return false;
            }
            i = i + 1;
        }
        true
    }

    /// The position of the channel named `name`, if one exists.
    fn find_channel(&self, name: &String) -> (r: Option<usize>)
        requires
            self.wf(),
        ensures
            match r {
                Some(i) => {
                    &&& (i as int) < self.channels@.len()
                    &&& self.channels@[i as int].name@ == name@
                    &&& self.spec_has_channel(name@)
                    &&& self.spec_channel_index(name@) == i as int
                },
                None => !self.spec_has_channel(name@),
            },
    {
        let mut i: usize = 0;
        while i < self.channels.len()
            invariant
                self.wf(),
                i <= self.channels@.len(),
                forall|j: int| 0 <= j < i ==> self.channels@[j].name@ != name@,
            decreases self.channels@.len() - i,
        {
            if self.channels[i].name == *name {
                proof {
                    lemma_channel_index_unique(*self, name@, i as int);
                }
                return Some(i);
            }
            i = i + 1;
        }
        None
    }

    /// Looks the named channel up, creating it if needed, and answers its
    /// position and element count; the workhorse behind every public
    /// acquisition.
    fn acquire(
        &mut self,
        name: &str,
        kind: ControlChannelType,
        input: bool,
        output: bool,
    ) -> (r: Result<(usize, usize), ChannelError>)
        requires
            old(self).wf(),
            old(self).started,
            kind == ControlChannelType::CSOUND_CONTROL_CHANNEL || kind
                == ControlChannelType::CSOUND_AUDIO_CHANNEL || kind
                == ControlChannelType::CSOUND_STRING_CHANNEL,
        ensures
            final(self).wf(),
            final(self).started,
            acquire_outcome(*old(self), *final(self), name@, kind, input, output, r),
            r matches Ok(v) ==> {
                &&& (v.0 as int) < final(self).channels@.len()
                &&& final(self).channels@[v.0 as int].kind == kind
                &&& v.1 == channel_view_len(final(self).channels@[v.0 as int], final(self).ksmps)
            },
    {
        if !Self::check_name(name) {
            return Err(ChannelError::InvalidName);
        }
        let owned = name.to_owned();
        match self.find_channel(&owned) {
            Some(i) => {
                if self.channels[i].kind != kind {
                    return Err(ChannelError::TypeConflict);
                }
                let len: usize = match kind {
                    ControlChannelType::CSOUND_AUDIO_CHANNEL => self.ksmps as usize,
                    ControlChannelType::CSOUND_STRING_CHANNEL => {
                        self.channels[i].text.as_str().as_bytes().len() + 1
                    },
                    _ => 1,
                };
                let ch = &mut self.channels[i];
                if input {
                    ch.input = true;
                }
                if output {
                    ch.output = true;
                }
                Ok((i, len))
            },
            None => {
                proof {
                    assert(vstd::utf8::encode_utf8(Seq::<char>::empty()).len() == 0);
                }
                let len: usize = match kind {
                    ControlChannelType::CSOUND_AUDIO_CHANNEL => self.ksmps as usize,
                    _ => 1,
                };
                let data_len: usize = match kind {
                    ControlChannelType::CSOUND_AUDIO_CHANNEL => self.ksmps as usize,
                    ControlChannelType::CSOUND_STRING_CHANNEL => 0,
                    _ => 1,
                };
                let ch = Channel {
                    name: owned,
                    kind,
                    input,
                    output,
                    data: zeroed_samples(data_len),
                    text: String::new(),
                    hints: ChannelHints::default(),
                    pvs: None,
                };
                let index = self.channels.len();
                self.channels.push(ch);
                Ok((index, len))
            },
        }
    }

    /// The live content kind of the channel `name`, without creating or
    /// changing anything — the probe the native layer offers by asking for
    /// a channel pointer of unknown kind.
    pub fn channel_kind(&self, name: &str) -> (r: Result<ControlChannelType, ChannelError>)
        requires
            self.wf(),
        ensures
            !valid_channel_name(name@) ==> r == Result::<
                ControlChannelType,
                ChannelError,
            >::Err(ChannelError::InvalidName),
            valid_channel_name(name@) && !self.spec_has_channel(name@) ==> r == Result::<
                ControlChannelType,
                ChannelError,
            >::Err(ChannelError::NotFound),
            valid_channel_name(name@) && self.spec_has_channel(name@) ==> r == Result::<
                ControlChannelType,
                ChannelError,
            >::Ok(self.channels@[self.spec_channel_index(name@)].kind),
    {
        if !Self::check_name(name) {
            return Err(ChannelError::InvalidName);
        }
        let owned = name.to_owned();
        match self.find_channel(&owned) {
            Some(i) => Ok(self.channels[i].kind),
            None => Err(ChannelError::NotFound),
        }
    }

    /// Produces a handle to the sample-bearing channel `name`, creating the
    /// channel first if it does not exist yet.  The requested content kind
    /// must be control or audio (the native channel-pointer call does not
    /// serve string channels), and the direction flags are recorded on the
    /// channel.  The relation between states, request and outcome is
    /// [`acquire_outcome`]; in particular, a second request for the same
    /// name and kind hands out a handle to the same channel rather than a
    /// new one.
    pub fn get_channel_ptr(
        &mut self,
        name: &str,
        channel_type: ControlChannelType,
        input: bool,
        output: bool,
    ) -> (r: Result<ControlChannelPtr, ChannelError>)
        requires
            old(self).wf(),
            old(self).started,
            channel_type == ControlChannelType::CSOUND_CONTROL_CHANNEL || channel_type
                == ControlChannelType::CSOUND_AUDIO_CHANNEL,
        ensures
            final(self).wf(),
            final(self).started,
            acquire_outcome(
                *old(self),
                *final(self),
                name@,
                channel_type,
                input,
                output,
                match r {
                    Ok(p) => Result::<(usize, usize), ChannelError>::Ok((p.index, p.len)),
                    Err(e) => Result::<(usize, usize), ChannelError>::Err(e),
                },
            ),
            r matches Ok(p) ==> p.channel_type == channel_type && final(self).ptr_valid(p),
    {
        match self.acquire(name, channel_type, input, output) {
            Ok((index, len)) => Ok(ControlChannelPtr { index, len, channel_type }),
            Err(e) => Err(e),
        }
    }

    /// Whether a writable channel view refers to a live channel of this
    /// engine state with the view's content kind and element count, on a
    /// channel requested for input.
    pub open spec fn in_channel_valid<T: IsChannel>(self, ch: InputChannel<T>) -> bool {
        &&& (ch.index as int) < self.channels@.len()
        &&& self.channels@[ch.index as int].kind == T::spec_c_type()
        &&& self.channels@[ch.index as int].input
        &&& ch.len == channel_view_len(self.channels@[ch.index as int], self.ksmps)
    }

    /// Whether a readable channel view refers to a live channel of this
    /// engine state with the view's content kind and element count, on a
    /// channel requested for output.
    pub open spec fn out_channel_valid<T: IsChannel>(self, ch: OutputChannel<T>) -> bool {
        &&& (ch.index as int) < self.channels@.len()
        &&& self.channels@[ch.index as int].kind == T::spec_c_type()
        &&& self.channels@[ch.index as int].output
        &&& ch.len == channel_view_len(self.channels@[ch.index as int], self.ksmps)
    }

    /// Produces a writable view of the channel `name` with the content kind
    /// the marker type `T` fixes, creating the channel if it does not exist
    /// yet; the channel is recorded as requested for input.  Acquiring a
    /// name twice yields views of the same channel, never a second one.
    pub fn get_input_channel<T: IsChannel>(&mut self, name: &str) -> (r: Result<
        InputChannel<T>,
        ChannelError,
    >)
        requires
            old(self).wf(),
            old(self).started,
            T::spec_c_type() == ControlChannelType::CSOUND_CONTROL_CHANNEL || T::spec_c_type()
                == ControlChannelType::CSOUND_AUDIO_CHANNEL || T::spec_c_type()
                == ControlChannelType::CSOUND_STRING_CHANNEL,
        ensures
            final(self).wf(),
            final(self).started,
            acquire_outcome(
                *old(self),
                *final(self),
                name@,
                T::spec_c_type(),
                true,
                false,
                match r {
                    Ok(ch) => Result::<(usize, usize), ChannelError>::Ok((ch.index, ch.len)),
                    Err(e) => Result::<(usize, usize), ChannelError>::Err(e),
                },
            ),
            r matches Ok(ch) ==> final(self).in_channel_valid::<T>(ch),
    {
        match self.acquire(name, T::c_type(), true, false) {
            Ok((index, len)) => Ok(
                InputChannel { index, len, phantom: core::marker::PhantomData },
            ),
            Err(e) => Err(e),
        }
    }

    /// Produces a readable view of the channel `name` with the content kind
    /// the marker type `T` fixes, creating the channel if it does not exist
    /// yet; the channel is recorded as requested for output.
    pub fn get_output_channel<T: IsChannel>(&mut self, name: &str) -> (r: Result<
        OutputChannel<T>,
        ChannelError,
    >)
        requires
            old(self).wf(),
            old(self).started,
            T::spec_c_type() == ControlChannelType::CSOUND_CONTROL_CHANNEL || T::spec_c_type()
                == ControlChannelType::CSOUND_AUDIO_CHANNEL || T::spec_c_type()
                == ControlChannelType::CSOUND_STRING_CHANNEL,
        ensures
            final(self).wf(),
            final(self).started,
            acquire_outcome(
                *old(self),
                *final(self),
                name@,
                T::spec_c_type(),
                false,
                true,
                match r {
                    Ok(ch) => Result::<(usize, usize), ChannelError>::Ok((ch.index, ch.len)),
                    Err(e) => Result::<(usize, usize), ChannelError>::Err(e),
                },
            ),
            r matches Ok(ch) ==> final(self).out_channel_valid::<T>(ch),
    {
        match self.acquire(name, T::c_type(), false, true) {
            Ok((index, len)) => Ok(
                OutputChannel { index, len, phantom: core::marker::PhantomData },
            ),
            Err(e) => Err(e),
        }
    }
}

/// The two channels agree on everything but their sample storage.
pub open spec fn same_channel_but_data(a: Channel, b: Channel) -> bool {
    &&& a.name@ == b.name@
    &&& a.kind == b.kind
    &&& a.input == b.input
    &&& a.output == b.output
    &&& a.text@ == b.text@
    &&& a.hints == b.hints
    &&& a.pvs == b.pvs
}

/// The two channels agree on everything but their text storage.
pub open spec fn same_channel_but_text(a: Channel, b: Channel) -> bool {
    &&& a.name@ == b.name@
    &&& a.kind == b.kind
    &&& a.input == b.input
    &&& a.output == b.output
    &&& a.data@ == b.data@
    &&& a.hints == b.hints
    &&& a.pvs == b.pvs
}

impl Csound {
    /// Only the channel at position `i` differs between the two states,
    /// and the channel list kept its length.
    pub open spec fn only_channel_changed(self, post: Csound, i: int) -> bool {
        &&& post.channels@.len() == self.channels@.len()
        &&& forall|j: int|
            0 <= j < self.channels@.len() && j != i ==> post.channels@[j] == self.channels@[j]
        &&& post.same_but_channels(self)
    }

    /// Reads the sample a writable control-channel view holds.  The native
    /// layer lets the holder of a channel pointer read it whatever its
    /// direction; the readable view's accessor is [`Csound::read_control`].
    pub fn read_control(&self, ch: &OutputChannel<ControlChannel>) -> (r: u64)
        requires
            self.wf(),
            self.out_channel_valid::<ControlChannel>(*ch),
        ensures
            r == self.channels@[ch.index as int].data@[0],
    {
        self.channels[ch.index].data[0]
    }

    /// Stores one sample in the channel a writable control view refers to;
    /// nothing else changes, and the view stays usable.
    pub fn write_control(&mut self, ch: &InputChannel<ControlChannel>, value: u64)
        requires
            old(self).wf(),
            old(self).in_channel_valid::<ControlChannel>(*ch),
        ensures
            final(self).wf(),
            final(self).in_channel_valid::<ControlChannel>(*ch),
            old(self).only_channel_changed(*final(self), ch.index as int),
            same_channel_but_data(
                final(self).channels@[ch.index as int],
                old(self).channels@[ch.index as int],
            ),
            final(self).channels@[ch.index as int].data@ == old(self).channels@[
                ch.index as int
            ].data@.update(0, value),
    {
        let i = ch.index;
        let mut c = self.channels.remove(i);
        c.data.set(0, value);
        let ghost csnap = c;
        self.channels.insert(i, c);
        proof {
            assert(self.channels@ =~= old(self).channels@.update(i as int, csnap));
        }
    }
}

/// A zeroed sample buffer}

impl Csound {
    /// Copies one control period of samples from a readable audio-channel
    /// view into `output`; `output` keeps its length and everything past
    /// the copied prefix.
    pub fn read_audio(&self, ch: &OutputChannel<AudioChannel>, output: &mut Vec<u64>) -> (n: usize)
        requires
            self.wf(),
            self.out_channel_valid::<AudioChannel>(*ch),
        ensures
            n == (if old(output)@.len() <= ch.len {
                old(output)@.len() as int
            } else {
                ch.len as int
            }),
            final(output)@.len() == old(output)@.len(),
            forall|k: int|
                0 <= k < n ==> final(output)@[k] == self.channels@[ch.index as int].data@[k],
            forall|k: int| n <= k < old(output)@.len() ==> final(output)@[k] == old(output)@[k],
    {
        copy_prefix(output, &self.channels[ch.index].data)
    }

    /// Copies samples from `input` into the channel a writable audio view
    /// refers to.  Exactly `min(input.len(), ch.len)` samples are copied:
    /// an oversized input is silently truncated to the view's length, and
    /// a short one leaves the channel's tail as it was.
    pub fn write_audio(&mut self, ch: &InputChannel<AudioChannel>, input: &Vec<u64>) -> (n: usize)
        requires
            old(self).wf(),
            old(self).in_channel_valid::<AudioChannel>(*ch),
        ensures
            final(self).wf(),
            final(self).in_channel_valid::<AudioChannel>(*ch),
            n == (if input@.len() <= ch.len {
                input@.len() as int
            } else {
                ch.len as int
            }),
            old(self).only_channel_changed(*final(self), ch.index as int),
            same_channel_but_data(
                final(self).channels@[ch.index as int],
                old(self).channels@[ch.index as int],
            ),
            final(self).channels@[ch.index as int].data@.len() == old(self).channels@[
                ch.index as int
            ].data@.len(),
            forall|k: int|
                0 <= k < n ==> final(self).channels@[ch.index as int].data@[k] == input@[k],
            forall|k: int|
                n <= k < ch.len ==> final(self).channels@[ch.index as int].data@[k] == old(
                    self,
                ).channels@[ch.index as int].data@[k],
    {
        let i = ch.index;
        let mut c = self.channels.remove(i);
        let n = copy_prefix(&mut c.data, input);
        let ghost csnap = c;
        self.channels.insert(i, c);
        proof {
            assert(self.channels@ =~= old(self).channels@.update(i as int, csnap));
        }
        n
    }

    /// The text a readable string-channel view refers to.
    pub fn read_string(&self, ch: &OutputChannel<StrChannel>) -> (r: String)
        requires
            self.wf(),
            self.out_channel_valid::<StrChannel>(*ch),
        ensures
            r@ == self.channels@[ch.index as int].text@,
    {
        self.channels[ch.index].text.clone()
    }

    /// Replaces the text of the channel a writable string view refers to,
    /// provided the new text and its NUL terminator fit the view's byte
    /// budget; text that does not fit is dropped whole, and the channel
    /// keeps its old contents.
    pub fn write_string(&mut self, ch: &InputChannel<StrChannel>, content: &str) -> (stored: bool)
        requires
            old(self).wf(),
            old(self).in_channel_valid::<StrChannel>(*ch),
        ensures
            final(self).wf(),
            stored == (text_byte_len(content@) < ch.len),
            !stored ==> *final(self) == *old(self),
            stored ==> {
                &&& old(self).only_channel_changed(*final(self), ch.index as int)
                &&& same_channel_but_text(
                    final(self).channels@[ch.index as int],
                    old(self).channels@[ch.index as int],
                )
                &&& final(self).channels@[ch.index as int].text@ == content@
            },
    {
        if content.as_bytes().len() >= ch.len {
            return false;
        }
        let i = ch.index;
        let mut c = self.channels.remove(i);
        c.text = content.to_owned();
        let ghost csnap = c;
        self.channels.insert(i, c);
        proof {
            assert(self.channels@ =~= old(self).channels@.update(i as int, csnap));
        }
        true
    }

    /// Copies up to `min(dest.len(), p.len)` samples out of the channel a
    /// sample-channel handle refers to; `dest` keeps its length and its
    /// tail.
    pub fn read_channel(&self, p: &ControlChannelPtr, dest: &mut Vec<u64>) -> (n: usize)
        requires
            self.wf(),
            self.ptr_valid(*p),
        ensures
            n == (if old(dest)@.len() <= p.len {
                old(dest)@.len() as int
            } else {
                p.len as int
            }),
            final(dest)@.len() == old(dest)@.len(),
            forall|k: int|
                0 <= k < n ==> final(dest)@[k] == self.channels@[p.index as int].data@[k],
            forall|k: int| n <= k < old(dest)@.len() ==> final(dest)@[k] == old(dest)@[k],
    {
        copy_prefix(dest, &self.channels[p.index].data)
    }

    /// Copies exactly `min(src.len(), p.len)` samples from `src` into the
    /// channel a sample-channel handle refers to; an oversized source is
    /// silently truncated, a short one leaves the channel's tail as it was.
    pub fn write_channel(&mut self, p: &ControlChannelPtr, src: &Vec<u64>) -> (n: usize)
        requires
            old(self).wf(),
            old(self).ptr_valid(*p),
        ensures
            final(self).wf(),
            final(self).ptr_valid(*p),
            n == (if src@.len() <= p.len {
                src@.len() as int
            } else {
                p.len as int
            }),
            old(self).only_channel_changed(*final(self), p.index as int),
            same_channel_but_data(
                final(self).channels@[p.index as int],
                old(self).channels@[p.index as int],
            ),
            final(self).channels@[p.index as int].data@.len() == old(self).channels@[
                p.index as int
            ].data@.len(),
            forall|k: int|
                0 <= k < n ==> final(self).channels@[p.index as int].data@[k] == src@[k],
            forall|k: int|
                n <= k < p.len ==> final(self).channels@[p.index as int].data@[k] == old(
                    self,
                ).channels@[p.index as int].data@[k],
    {
        let i = p.index;
        let mut c = self.channels.remove(i);
        let n = copy_prefix(&mut c.data, src);
        let ghost csnap = c;
        self.channels.insert(i, c);
        proof {
            assert(self.channels@ =~= old(self).channels@.update(i as int, csnap));
        }
        n
    }

    /// The value of the control channel `name`; an error when no channel
    /// of that name and kind exists.
    pub fn get_control_channel(&self, name: &str) -> (r: Result<u64, &'static str>)
        requires
            self.wf(),
        ensures
            r is Ok <==> (self.spec_has_channel(name@) && self.channels@[self.spec_channel_index(
                name@,
            )].kind == ControlChannelType::CSOUND_CONTROL_CHANNEL),
            r matches Ok(v) ==> v == self.channels@[self.spec_channel_index(name@)].data@[0],
    {
        let owned = name.to_owned();
        match self.find_channel(&owned) {
            Some(i) => {
                if self.channels[i].kind == ControlChannelType::CSOUND_CONTROL_CHANNEL {
                    Ok(self.channels[i].data[0])
                } else {
                    Err("channel not exist or is not a control channel")
                }
            },
            None => Err("channel not exist or is not a control channel"),
        }
    }

    /// Sets the value of the control channel `name`; a missing channel, or
    /// one of another kind, leaves the engine unchanged.
    pub fn set_control_channel(&mut self, name: &str, value: u64)
        requires
            old(self).wf(),
        ensures
            final(self).wf(),
            !(old(self).spec_has_channel(name@) && old(self).channels@[old(
                self,
            ).spec_channel_index(name@)].kind == ControlChannelType::CSOUND_CONTROL_CHANNEL)
                ==> *final(self) == *old(self),
            (old(self).spec_has_channel(name@) && old(self).channels@[old(self).spec_channel_index(
                name@,
            )].kind == ControlChannelType::CSOUND_CONTROL_CHANNEL) ==> {
                let i = old(self).spec_channel_index(name@);
                &&& old(self).only_channel_changed(*final(self), i)
                &&& same_channel_but_data(final(self).channels@[i], old(self).channels@[i])
                &&& final(self).channels@[i].data@ == old(self).channels@[i].data@.update(0, value)
            },
    {
        let owned = name.to_owned();
        match self.find_channel(&owned) {
            Some(i) => {
                if self.channels[i].kind == ControlChannelType::CSOUND_CONTROL_CHANNEL {
                    let mut c = self.channels.remove(i);
                    c.data.set(0, value);
                    let ghost csnap = c;
                    self.channels.insert(i, c);
                    proof {
                        assert(self.channels@ =~= old(self).channels@.update(i as int, csnap));
                    }
                }
            },
            None => {},
        }
    }

    /// Copies one control period of samples out of the audio channel
    /// `name` into the front of `output`, which must have room for it; a
    /// missing channel, or one of another kind, leaves `output` unchanged.
    pub fn read_audio_channel(&self, name: &str, output: &mut Vec<u64>) -> (copied: bool)
        requires
            self.wf(),
            old(output)@.len() >= self.ksmps,
        ensures
            final(output)@.len() == old(output)@.len(),
            copied <==> (self.spec_has_channel(name@) && self.channels@[self.spec_channel_index(
                name@,
            )].kind == ControlChannelType::CSOUND_AUDIO_CHANNEL),
            !copied ==> final(output)@ == old(output)@,
            copied ==> {
                let ch = self.channels@[self.spec_channel_index(name@)];
                &&& forall|k: int| 0 <= k < self.ksmps ==> final(output)@[k] == ch.data@[k]
                &&& forall|k: int|
                    self.ksmps <= k < old(output)@.len() ==> final(output)@[k] == old(output)@[k]
            },
    {
        let owned = name.to_owned();
        match self.find_channel(&owned) {
            Some(i) => {
                if self.channels[i].kind == ControlChannelType::CSOUND_AUDIO_CHANNEL {
                    copy_prefix(output, &self.channels[i].data);
                    true
                } else {
                    false
                }
            },
            None => false,
        }
    }

    /// Copies one control period of samples from the front of `input` into
    /// the audio channel `name`; a missing channel, or one of another
    /// kind, changes nothing.  `input` must hold a full control period for
    /// every input channel, as the native wrapper demands.
    pub fn write_audio_channel(&mut self, name: &str, input: &Vec<u64>) -> (copied: bool)
        requires
            old(self).wf(),
            input@.len() >= old(self).ksmps as nat * old(self).nchnls_i as nat,
            input@.len() >= old(self).ksmps,
        ensures
            final(self).wf(),
            copied <==> (old(self).spec_has_channel(name@) && old(self).channels@[old(
                self,
            ).spec_channel_index(name@)].kind == ControlChannelType::CSOUND_AUDIO_CHANNEL),
            !copied ==> *final(self) == *old(self),
            copied ==> {
                let i = old(self).spec_channel_index(name@);
                &&& old(self).only_channel_changed(*final(self), i)
                &&& same_channel_but_data(final(self).channels@[i], old(self).channels@[i])
                &&& final(self).channels@[i].data@.len() == old(self).channels@[i].data@.len()
                &&& forall|k: int|
                    0 <= k < old(self).ksmps ==> final(self).channels@[i].data@[k] == input@[k]
            },
    {
        let owned = name.to_owned();
        match self.find_channel(&owned) {
            Some(i) => {
                if self.channels[i].kind == ControlChannelType::CSOUND_AUDIO_CHANNEL {
                    let mut c = self.channels.remove(i);
                    copy_prefix(&mut c.data, input);
                    let ghost csnap = c;
                    self.channels.insert(i, c);
                    proof {
                        assert(self.channels@ =~= old(self).channels@.update(i as int, csnap));
                    }
                    true
                } else {
                    false
                }
            },
            None => false,
        }
    }

    /// The text held by the string channel `name`; empty when no string
    /// channel of that name exists.
    pub fn get_string_channel(&self, name: &str) -> (r: String)
        requires
            self.wf(),
        ensures
            (self.spec_has_channel(name@) && self.channels@[self.spec_channel_index(name@)].kind
                == ControlChannelType::CSOUND_STRING_CHANNEL) ==> r@ == self.channels@[
                self.spec_channel_index(name@)
            ].text@,
            !(self.spec_has_channel(name@) && self.channels@[self.spec_channel_index(name@)].kind
                == ControlChannelType::CSOUND_STRING_CHANNEL) ==> r@ == Seq::<char>::empty(),
    {
        let owned = name.to_owned();
        match self.find_channel(&owned) {
            Some(i) => {
                if self.channels[i].kind == ControlChannelType::CSOUND_STRING_CHANNEL {
                    self.channels[i].text.clone()
                } else {
                    String::new()
                }
            },
            None => String::new(),
        }
    }

    /// Replaces the text of the string channel `name`, growing its storage
    /// as the native engine does; a missing channel, or one of another
    /// kind, changes nothing.
    pub fn set_string_channel(&mut self, name: &str, content: &str)
        requires
            old(self).wf(),
            text_byte_len(content@) < usize::MAX,
        ensures
            final(self).wf(),
            !(old(self).spec_has_channel(name@) && old(self).channels@[old(
                self,
            ).spec_channel_index(name@)].kind == ControlChannelType::CSOUND_STRING_CHANNEL)
                ==> *final(self) == *old(self),
            (old(self).spec_has_channel(name@) && old(self).channels@[old(self).spec_channel_index(
                name@,
            )].kind == ControlChannelType::CSOUND_STRING_CHANNEL) ==> {
                let i = old(self).spec_channel_index(name@);
                &&& old(self).only_channel_changed(*final(self), i)
                &&& same_channel_but_text(final(self).channels@[i], old(self).channels@[i])
                &&& final(self).channels@[i].text@ == content@
            },
    {
        let owned = name.to_owned();
        match self.find_channel(&owned) {
            Some(i) => {
                if self.channels[i].kind == ControlChannelType::CSOUND_STRING_CHANNEL {
                    let mut c = self.channels.remove(i);
                    c.text = content.to_owned();
                    let ghost csnap = c;
                    self.channels.insert(i, c);
                    proof {
                        assert(self.channels@ =~= old(self).channels@.update(i as int, csnap));
                    }
                }
            },
            None => {},
        }
    }

    /// The byte size of the data stored in the channel `name`: the sample
    /// size for a control channel, a control period of samples for an
    /// audio channel, the stored text plus its NUL terminator for a string
    /// channel, and zero when no channel of that name exists.
    pub fn get_channel_data_size(&self, name: &str) -> (r: usize)
        requires
            self.wf(),
            self.ksmps as nat * 8 <= usize::MAX,
        ensures
            !self.spec_has_channel(name@) ==> r == 0,
            self.spec_has_channel(name@) ==> {
                let ch = self.channels@[self.spec_channel_index(name@)];
                match ch.kind {
                    ControlChannelType::CSOUND_CONTROL_CHANNEL => r == 8,
                    ControlChannelType::CSOUND_AUDIO_CHANNEL => r == self.ksmps as int * 8,
                    ControlChannelType::CSOUND_STRING_CHANNEL => r == text_byte_len(ch.text@) + 1,
                    _ => r == 0,
                }
            },
    {
        let owned = name.to_owned();
        match self.find_channel(&owned) {
            Some(i) => {
                match self.channels[i].kind {
                    ControlChannelType::CSOUND_CONTROL_CHANNEL => 8,
                    ControlChannelType::CSOUND_AUDIO_CHANNEL => (self.ksmps as usize) * 8,
                    ControlChannelType::CSOUND_STRING_CHANNEL => {
                        self.channels[i].text.as_str().as_bytes().len() + 1
                    },
                    _ => 0,
                }
            },
            None => 0,
        }
    }

    /// What an output-channel event presents to the host for the channel
    /// `name`: the current value of a control channel, the current text of
    /// a string channel, and nothing for any other channel or for a name
    /// not in use — the native trampoline queries the live channel kind
    /// first and forwards only those two kinds.
    pub fn output_channel_event(&self, name: &str) -> (r: Option<ChannelData>)
        requires
            self.wf(),
        ensures
            !self.spec_has_channel(name@) ==> r is None,
            self.spec_has_channel(name@) ==> {
                let ch = self.channels@[self.spec_channel_index(name@)];
                match ch.kind {
                    ControlChannelType::CSOUND_CONTROL_CHANNEL => r == Some(
                        ChannelData::CS_CONTROL_CHANNEL(ch.data@[0]),
                    ),
                    ControlChannelType::CSOUND_STRING_CHANNEL => r matches Some(
                        ChannelData::CS_STRING_CHANNEL(s),
                    ) && s@ == ch.text@,
                    _ => r is None,
                }
            },
    {
        let owned = name.to_owned();
        match self.find_channel(&owned) {
            Some(i) => {
                match self.channels[i].kind {
                    ControlChannelType::CSOUND_CONTROL_CHANNEL => Some(
                        ChannelData::CS_CONTROL_CHANNEL(self.channels[i].data[0]),
                    ),
                    ControlChannelType::CSOUND_STRING_CHANNEL => Some(
                        ChannelData::CS_STRING_CHANNEL(self.channels[i].text.clone()),
                    ),
                    _ => None,
                }
            },
            None => None,
        }
    }

    /// Applies a host closure's answer to an input-channel request to the
    /// channel `name`: a control value lands in a control channel, text
    /// lands in a string channel when it fits the channel's byte budget
    /// (its current data size), and every other combination changes
    /// nothing.
    pub fn deliver_channel_input(&mut self, name: &str, reply: ChannelData)
        requires
            old(self).wf(),
        ensures
            final(self).wf(),
            !old(self).spec_has_channel(name@) ==> *final(self) == *old(self),
            old(self).spec_has_channel(name@) ==> {
                let i = old(self).spec_channel_index(name@);
                let ch = old(self).channels@[i];
                match reply {
                    ChannelData::CS_CONTROL_CHANNEL(v) => {
                        if ch.kind == ControlChannelType::CSOUND_CONTROL_CHANNEL {
                            &&& old(self).only_channel_changed(*final(self), i)
                            &&& same_channel_but_data(final(self).channels@[i], ch)
                            &&& final(self).channels@[i].data@ == ch.data@.update(0, v)
                        } else {
                            *final(self) == *old(self)
                        }
                    },
                    ChannelData::CS_STRING_CHANNEL(s) => {
                        if ch.kind == ControlChannelType::CSOUND_STRING_CHANNEL && text_byte_len(
                            s@,
                        ) < text_byte_len(ch.text@) + 1 {
                            &&& old(self).only_channel_changed(*final(self), i)
                            &&& same_channel_but_text(final(self).channels@[i], ch)
                            &&& final(self).channels@[i].text@ == s@
                        } else {
                            *final(self) == *old(self)
                        }
                    },
                    ChannelData::CS_UNKNOWN_CHANNEL => *final(self) == *old(self),
                }
            },
    {
        let owned = name.to_owned();
        match self.find_channel(&owned) {
            Some(i) => {
                let kind = self.channels[i].kind;
                let budget: usize = match kind {
                    ControlChannelType::CSOUND_STRING_CHANNEL => {
                        self.channels[i].text.as_str().as_bytes().len() + 1
                    },
                    _ => 8,
                };
                match input_channel_reply(reply, budget) {
                    ChannelWrite::Control(v) => {
                        if kind == ControlChannelType::CSOUND_CONTROL_CHANNEL {
                            let mut c = self.channels.remove(i);
                            c.data.set(0, v);
                            let ghost csnap = c;
                            self.channels.insert(i, c);
                            proof {
                                assert(self.channels@ =~= old(self).channels@.update(
                                    i as int,
                                    csnap,
                                ));
                            }
                        }
                    },
                    ChannelWrite::Text(s) => {
                        if kind == ControlChannelType::CSOUND_STRING_CHANNEL {
                            let mut c = self.channels.remove(i);
                            c.text = s;
                            let ghost csnap = c;
                            self.channels.insert(i, c);
                            proof {
                                assert(self.channels@ =~= old(self).channels@.update(
                                    i as int,
                                    csnap,
                                ));
                            }
                        }
                    },
                    ChannelWrite::Skip => {},
                }
            },
            None => {},
        }
    }
}

/// The two analysis frames agree field for field.
pub open spec fn pvs_frame_eq(a: PvsDataExt, b: PvsDataExt) -> bool {
    &&& a.N == b.N
    &&& a.sliding == b.sliding
    &&& a.NB == b.NB
    &&& a.overlap == b.overlap
    &&& a.winsize == b.winsize
    &&& a.wintype == b.wintype
    &&& a.format == b.format
    &&& a.framecount == b.framecount
    &&& a.frame@ == b.frame@
}

/// Text that survives the trip through a C string: no NUL byte inside.
pub open spec fn nul_free(s: Seq<char>) -> bool {
    forall|i: int|
        0 <= i < vstd::utf8::encode_utf8(s).len() ==> vstd::utf8::encode_utf8(s)[i] != 0
}

/// The native type code of a channel, direction bits included.
pub open spec fn channel_type_flags(ch: Channel) -> i32 {
    (channel_type_code(ch.kind) + (if ch.input {
        16u32
    } else {
        0u32
    }) + (if ch.output {
        32u32
    } else {
        0u32
    })) as i32
}

impl Csound {
    /// Whether `s` holds no NUL byte.
    fn check_nul_free(s: &str) -> (r: bool)
        ensures
            r == nul_free(s@),
    {
        let bytes = s.as_bytes();
        let mut i: usize = 0;
        while i < bytes.len()
            invariant
                i <= bytes@.len(),
                bytes@ == vstd::utf8::encode_utf8(s@),
                forall|j: int| 0 <= j < i ==> bytes@[j] != 0,
            decreases bytes@.len() - i,
        {
            if bytes[i] == 0 {
                return false;
            }
            i = i + 1;
        }
        true
    }

    /// Attaches display hints to the control channel `name`.  Text with an
    /// embedded NUL cannot reach the engine, and only an existing control
    /// channel can carry hints; both failures answer the engine's error
    /// status and change nothing.
    pub fn set_channel_hints(&mut self, name: &str, hint: &ChannelHints) -> (r: Result<
        (),
        Status,
    >)
        requires
            old(self).wf(),
        ensures
            final(self).wf(),
            r is Ok <==> (nul_free(name@) && nul_free(hint.attributes@) && old(
                self,
            ).spec_has_channel(name@) && old(self).channels@[old(self).spec_channel_index(
                name@,
            )].kind == ControlChannelType::CSOUND_CONTROL_CHANNEL),
            r is Err ==> *final(self) == *old(self) && r == Result::<(), Status>::Err(
                Status::CS_ERROR,
            ),
            r is Ok ==> {
                let i = old(self).spec_channel_index(name@);
                &&& old(self).only_channel_changed(*final(self), i)
                &&& final(self).channels@[i].name@ == old(self).channels@[i].name@
                &&& final(self).channels@[i].kind == old(self).channels@[i].kind
                &&& final(self).channels@[i].input == old(self).channels@[i].input
                &&& final(self).channels@[i].output == old(self).channels@[i].output
                &&& final(self).channels@[i].data@ == old(self).channels@[i].data@
                &&& final(self).channels@[i].text@ == old(self).channels@[i].text@
                &&& final(self).channels@[i].pvs == old(self).channels@[i].pvs
                &&& final(self).channels@[i].hints == *hint
            },
    {
        if !Self::check_nul_free(name) || !Self::check_nul_free(hint.attributes.as_str()) {
            return Err(Status::CS_ERROR);
        }
        let owned = name.to_owned();
        match self.find_channel(&owned) {
            Some(i) => {
                if self.channels[i].kind == ControlChannelType::CSOUND_CONTROL_CHANNEL {
                    let mut c = self.channels.remove(i);
                    c.hints = hint.clone();
                    let ghost csnap = c;
                    self.channels.insert(i, c);
                    proof {
                        assert(self.channels@ =~= old(self).channels@.update(i as int, csnap));
                    }
                    Ok(())
                } else {
                    Err(Status::CS_ERROR)
                }
            },
            None => Err(Status::CS_ERROR),
        }
    }

    /// The display hints of the control channel `name`; the engine's error
    /// status when the name cannot reach the engine or no control channel
    /// of that name exists.
    pub fn get_channel_hints(&self, name: &str) -> (r: Result<ChannelHints, Status>)
        requires
            self.wf(),
        ensures
            r is Ok <==> (nul_free(name@) && self.spec_has_channel(name@) && self.channels@[
                self.spec_channel_index(name@)
            ].kind == ControlChannelType::CSOUND_CONTROL_CHANNEL),
            r matches Ok(h) ==> h == self.channels@[self.spec_channel_index(name@)].hints,
            r is Err ==> r == Result::<ChannelHints, Status>::Err(
                Status::CS_ERROR,
            ),
    {
        if !Self::check_nul_free(name) {
            return Err(Status::CS_ERROR);
        }
        let owned = name.to_owned();
        match self.find_channel(&owned) {
            Some(i) => {
                if self.channels[i].kind == ControlChannelType::CSOUND_CONTROL_CHANNEL {
                    Ok(self.channels[i].hints.clone())
                } else {
                    Err(Status::CS_ERROR)
                }
            },
            None => Err(Status::CS_ERROR),
        }
    }

    /// A snapshot of every bus channel, in creation order: name, native
    /// type code with direction bits, and hints.  Nothing is listed while
    /// no channel exists.
    pub fn list_channels(&self) -> (r: Option<Vec<ChannelInfo>>)
        requires
            self.wf(),
        ensures
            r is Some <==> self.channels@.len() > 0,
            r matches Some(list) ==> {
                &&& list@.len() == self.channels@.len()
                &&& forall|i: int|
                    0 <= i < list@.len() ==> {
                        &&& (#[trigger] list@[i]).name@ == self.channels@[i].name@
                        &&& list@[i].type_ == channel_type_flags(self.channels@[i])
                        &&& list@[i].hints == self.channels@[i].hints
                    }
            },
    {
        if self.channels.len() == 0 {
            return None;
        }
        let mut list: Vec<ChannelInfo> = Vec::new();
        let mut i: usize = 0;
        while i < self.channels.len()
            invariant
                self.wf(),
                i <= self.channels@.len(),
                list@.len() == i,
                forall|j: int|
                    0 <= j < i ==> {
                        &&& (#[trigger] list@[j]).name@ == self.channels@[j].name@
                        &&& list@[j].type_ == channel_type_flags(self.channels@[j])
                        &&& list@[j].hints == self.channels@[j].hints
                    },
            decreases self.channels@.len() - i,
        {
            let c = &self.channels[i];
            let mut code: u32 = c.kind.bits();
            if c.input {
                code = code + 16;
            }
            if c.output {
                code = code + 32;
            }
            let info = ChannelInfo {
                name: c.name.clone(),
                type_: code as i32,
                hints: c.hints.clone(),
            };
            list.push(info);
            i = i + 1;
        }
        Some(list)
    }
}

/// Direction marker of a buffer view whose holder may only read.
pub struct Readable;

/// Direction marker of a buffer view whose holder may also write.
pub struct Writable;

/// Which of the engine's raw audio buffers a buffer view refers to.
#[derive(Debug, Clone, Copy, PartialEq, Eq, Structural)]
pub enum BufferTarget {
    /// The per-control-period input scratch buffer.
    Spin,
    /// The per-control-period output scratch buffer.
    Spout,
    /// The global audio input buffer.
    InputBuffer,
    /// The global audio output buffer.
    OutputBuffer,
}

/// A view of one raw engine buffer: which buffer, how many samples, and at
/// the type level whether the holder may write through it.
#[derive(Debug)]
pub struct BufferPtr<T> {
    /// The buffer viewed.
    pub target: BufferTarget,
    /// Number of samples the view covers.
    pub len: usize,
    /// Direction marker.
    pub phantom: core::marker::PhantomData<T>,
}

impl<T> BufferPtr<T> {
    /// The buffer length, in samples.
    pub fn get_size(&self) -> (r: usize)
        ensures
            r == self.len,
    {
        self.len
    }
}

impl Csound {
    /// The contents of one raw buffer in this state.
    pub open spec fn buffer_seq(self, t: BufferTarget) -> Seq<u64> {
        match t {
            BufferTarget::Spin => self.spin@,
            BufferTarget::Spout => self.spout@,
            BufferTarget::InputBuffer => self.input_buffer@,
            BufferTarget::OutputBuffer => self.output_buffer@,
        }
    }

    /// Whether a buffer view refers to a live buffer of this engine state
    /// at its current length.
    pub open spec fn buffer_ptr_valid<T>(self, p: BufferPtr<T>) -> bool {
        &&& self.started
        &&& p.len == self.buffer_seq(p.target).len()
    }

    /// Everything but the four raw buffers agrees between the two states.
    pub open spec fn same_but_buffers(self, other: Csound) -> bool {
        &&& self.started == other.started
        &&& self.ksmps == other.ksmps
        &&& self.nchnls == other.nchnls
        &&& self.nchnls_i == other.nchnls_i
        &&& self.channels@ == other.channels@
        &&& self.callbacks == other.callbacks
    }

    /// A writable view of the audio input scratch buffer, for handing the
    /// engine one control period of input samples; absent until the
    /// instance is started.
    pub fn get_spin(&self) -> (r: Option<BufferPtr<Writable>>)
        ensures
            r is Some <==> self.started,
            r matches Some(p) ==> p.target == BufferTarget::Spin && self.buffer_ptr_valid(p),
    {
        if self.started {
            Some(
                BufferPtr {
                    target: BufferTarget::Spin,
                    len: self.spin.len(),
                    phantom: core::marker::PhantomData,
                },
            )
        } else {
            None
        }
    }

    /// A readable view of the audio output scratch buffer; absent until
    /// the instance is started.
    pub fn get_spout(&self) -> (r: Option<BufferPtr<Readable>>)
        ensures
            r is Some <==> self.started,
            r matches Some(p) ==> p.target == BufferTarget::Spout && self.buffer_ptr_valid(p),
    {
        if self.started {
            Some(
                BufferPtr {
                    target: BufferTarget::Spout,
                    len: self.spout.len(),
                    phantom: core::marker::PhantomData,
                },
            )
        } else {
            None
        }
    }

    /// A writable view of the global audio input buffer; absent until the
    /// instance is started.
    pub fn get_input_buffer(&self) -> (r: Option<BufferPtr<Writable>>)
        ensures
            r is Some <==> self.started,
            r matches Some(p) ==> p.target == BufferTarget::InputBuffer && self.buffer_ptr_valid(
                p,
            ),
    {
        if self.started {
            Some(
                BufferPtr {
                    target: BufferTarget::InputBuffer,
                    len: self.input_buffer.len(),
                    phantom: core::marker::PhantomData,
                },
            )
        } else {
            None
        }
    }

    /// A readable view of the global audio output buffer; absent until the
    /// instance is started.
    pub fn get_output_buffer(&self) -> (r: Option<BufferPtr<Readable>>)
        ensures
            r is Some <==> self.started,
            r matches Some(p) ==> p.target == BufferTarget::OutputBuffer && self.buffer_ptr_valid(
                p,
            ),
    {
        if self.started {
            Some(
                BufferPtr {
                    target: BufferTarget::OutputBuffer,
                    len: self.output_buffer.len(),
                    phantom: core::marker::PhantomData,
                },
            )
        } else {
            None
        }
    }

    /// Copies up to `min(out.len(), p.len)` samples out of the buffer a
    /// view refers to; `out` keeps its length and its tail.
    pub fn read_buffer<T>(&self, p: &BufferPtr<T>, out: &mut Vec<u64>) -> (n: usize)
        requires
            self.wf(),
            self.buffer_ptr_valid::<T>(*p),
        ensures
            n == (if old(out)@.len() <= p.len {
                old(out)@.len() as int
            } else {
                p.len as int
            }),
            final(out)@.len() == old(out)@.len(),
            forall|k: int| 0 <= k < n ==> final(out)@[k] == self.buffer_seq(p.target)[k],
            forall|k: int| n <= k < old(out)@.len() ==> final(out)@[k] == old(out)@[k],
    {
        match p.target {
            BufferTarget::Spin => copy_prefix(out, &self.spin),
            BufferTarget::Spout => copy_prefix(out, &self.spout),
            BufferTarget::InputBuffer => copy_prefix(out, &self.input_buffer),
            BufferTarget::OutputBuffer => copy_prefix(out, &self.output_buffer),
        }
    }

    /// Copies exactly `min(src.len(), p.len)` samples from `src` into the
    /// buffer a writable view refers to; an oversized source is silently
    /// truncated to the view's length, and the buffer keeps its tail.  The
    /// other buffers and the rest of the engine are untouched.
    pub fn write_buffer(&mut self, p: &BufferPtr<Writable>, src: &Vec<u64>) -> (n: usize)
        requires
            old(self).wf(),
            old(self).buffer_ptr_valid::<Writable>(*p),
        ensures
            final(self).wf(),
            final(self).buffer_ptr_valid::<Writable>(*p),
            final(self).same_but_buffers(*old(self)),
            n == (if src@.len() <= p.len {
                src@.len() as int
            } else {
                p.len as int
            }),
            final(self).buffer_seq(p.target).len() == p.len,
            forall|k: int| 0 <= k < n ==> final(self).buffer_seq(p.target)[k] == src@[k],
            forall|k: int|
                n <= k < p.len ==> final(self).buffer_seq(p.target)[k] == old(self).buffer_seq(
                    p.target,
                )[k],
            forall|t: BufferTarget|
                t != p.target ==> final(self).buffer_seq(t) == old(self).buffer_seq(t),
    {
        match p.target {
            BufferTarget::Spin => copy_prefix(&mut self.spin, src),
            BufferTarget::Spout => copy_prefix(&mut self.spout, src),
            BufferTarget::InputBuffer => copy_prefix(&mut self.input_buffer, src),
            BufferTarget::OutputBuffer => copy_prefix(&mut self.output_buffer, src),
        }
    }

    /// Copies up to `min(output.len(), buffer size)` samples out of the
    /// global audio output buffer; refused while the instance is not
    /// started, since the buffer does not exist yet.
    pub fn read_output_buffer(&self, output: &mut Vec<u64>) -> (r: Result<usize, &'static str>)
        requires
            self.wf(),
        ensures
            r is Err <==> !self.started,
            r is Err ==> final(output)@ == old(output)@,
            final(output)@.len() == old(output)@.len(),
            r matches Ok(n) ==> {
                &&& n == (if old(output)@.len() <= self.output_buffer@.len() {
                    old(output)@.len() as int
                } else {
                    self.output_buffer@.len() as int
                })
                &&& forall|k: int| 0 <= k < n ==> final(output)@[k] == self.output_buffer@[k]
                &&& forall|k: int|
                    n <= k < old(output)@.len() ==> final(output)@[k] == old(output)@[k]
            },
    {
        if !self.started {
            return Err("the output buffer is not initialized");
        }
        Ok(copy_prefix(output, &self.output_buffer))
    }

    /// Copies up to `min(input.len(), buffer size)` samples into the
    /// global audio input buffer; refused while the instance is not
    /// started.
    pub fn write_input_buffer(&mut self, input: &Vec<u64>) -> (r: Result<usize, &'static str>)
        requires
            old(self).wf(),
        ensures
            final(self).wf(),
            r is Err <==> !old(self).started,
            r is Err ==> *final(self) == *old(self),
            r matches Ok(n) ==> {
                &&& final(self).same_but_buffers(*old(self))
                &&& final(self).spin@ == old(self).spin@
                &&& final(self).spout@ == old(self).spout@
                &&& final(self).output_buffer@ == old(self).output_buffer@
                &&& n == (if input@.len() <= old(self).input_buffer@.len() {
                    input@.len() as int
                } else {
                    old(self).input_buffer@.len() as int
                })
                &&& final(self).input_buffer@.len() == old(self).input_buffer@.len()
                &&& forall|k: int| 0 <= k < n ==> final(self).input_buffer@[k] == input@[k]
                &&& forall|k: int|
                    n <= k < old(self).input_buffer@.len() ==> final(self).input_buffer@[k] == old(
                        self,
                    ).input_buffer@[k]
            },
    {
        if !self.started {
            return Err("the input buffer is not initialized");
        }
        Ok(copy_prefix(&mut self.input_buffer, input))
    }

    /// Copies up to `min(output.len(), spout size)` samples out of the
    /// audio output scratch buffer; refused while the instance is not
    /// started.
    pub fn read_spout_buffer(&self, output: &mut Vec<u64>) -> (r: Result<usize, &'static str>)
        requires
            self.wf(),
        ensures
            r is Err <==> !self.started,
            r is Err ==> final(output)@ == old(output)@,
            final(output)@.len() == old(output)@.len(),
            r matches Ok(n) ==> {
                &&& n == (if old(output)@.len() <= self.spout@.len() {
                    old(output)@.len() as int
                } else {
                    self.spout@.len() as int
                })
                &&& forall|k: int| 0 <= k < n ==> final(output)@[k] == self.spout@[k]
                &&& forall|k: int|
                    n <= k < old(output)@.len() ==> final(output)@[k] == old(output)@[k]
            },
    {
        if !self.started {
            return Err("the spout buffer is not initialized");
        }
        Ok(copy_prefix(output, &self.spout))
    }

    /// Copies up to `min(input.len(), spin size)` samples into the audio
    /// input scratch buffer; refused while the instance is not started.
    pub fn write_spin_buffer(&mut self, input: &Vec<u64>) -> (r: Result<usize, &'static str>)
        requires
            old(self).wf(),
        ensures
            final(self).wf(),
            r is Err <==> !old(self).started,
            r is Err ==> *final(self) == *old(self),
            r matches Ok(n) ==> {
                &&& final(self).same_but_buffers(*old(self))
                &&& final(self).spout@ == old(self).spout@
                &&& final(self).input_buffer@ == old(self).input_buffer@
                &&& final(self).output_buffer@ == old(self).output_buffer@
                &&& n == (if input@.len() <= old(self).spin@.len() {
                    input@.len() as int
                } else {
                    old(self).spin@.len() as int
                })
                &&& final(self).spin@.len() == old(self).spin@.len()
                &&& forall|k: int| 0 <= k < n ==> final(self).spin@[k] == input@[k]
                &&& forall|k: int|
                    n <= k < old(self).spin@.len() ==> final(self).spin@[k] == old(self).spin@[k]
            },
    {
        if !self.started {
            return Err("the spin buffer is not initialized");
        }
        Ok(copy_prefix(&mut self.spin, input))
    }

    /// Zeroes the audio input scratch buffer.
    pub fn clear_spin(&mut self)
        requires
            old(self).wf(),
        ensures
            final(self).wf(),
            final(self).same_but_buffers(*old(self)),
            final(self).spout@ == old(self).spout@,
            final(self).input_buffer@ == old(self).input_buffer@,
            final(self).output_buffer@ == old(self).output_buffer@,
            final(self).spin@ == Seq::new(old(self).spin@.len(), |i: int| 0u64),
    {
        let n = self.spin.len();
        self.spin = zeroed_samples(n);
    }

    /// Stores one sample of the audio input scratch buffer, addressed by
    /// frame and channel number, as the engine lays the buffer out.
    pub fn set_spin_sample(&mut self, frame: u32, channel: u32, sample: u64)
        requires
            old(self).wf(),
            old(self).started,
            frame < old(self).ksmps,
            channel < old(self).nchnls_i,
        ensures
            final(self).wf(),
            final(self).same_but_buffers(*old(self)),
            final(self).spout@ == old(self).spout@,
            final(self).input_buffer@ == old(self).input_buffer@,
            final(self).output_buffer@ == old(self).output_buffer@,
            final(self).spin@ == old(self).spin@.update(
                frame as int * old(self).nchnls_i as int + channel as int,
                sample,
            ),
    {
        let len = self.spin.len();
        proof {
            let f = frame as int;
            let c = channel as int;
            let k = old(self).ksmps as int;
            let w = old(self).nchnls_i as int;
            assert(0 <= f && 0 <= c && 0 <= w && f < k && c < w ==> f * w + c < k * w)
                by (nonlinear_arith);
            assert(f * w + c < len as int);
        }
        let index = (frame as usize) * (self.nchnls_i as usize) + (channel as usize);
        self.spin.set(index, sample);
    }

    /// The sample of the audio output scratch buffer addressed by frame
    /// and channel number.
    pub fn get_spout_sample(&self, frame: u32, channel: u32) -> (r: u64)
        requires
            self.wf(),
            self.started,
            frame < self.ksmps,
            channel < self.nchnls,
        ensures
            r == self.spout@[frame as int * self.nchnls as int + channel as int],
    {
        let len = self.spout.len();
        proof {
            let f = frame as int;
            let c = channel as int;
            let k = self.ksmps as int;
            let w = self.nchnls as int;
            assert(0 <= f && 0 <= c && 0 <= w && f < k && c < w ==> f * w + c < k * w)
                by (nonlinear_arith);
            assert(f * w + c < len as int);
        }
        let index = (frame as usize) * (self.nchnls as usize) + (channel as usize);
        self.spout[index]
    }
}

impl Csound {
    /// Copies the analysis frame of the pvs channel `name` into
    /// `pvs_data`.  A name with an embedded NUL, a missing channel or a
    /// channel of another kind answer the engine's error status; a pvs
    /// channel whose window does not match the one `pvs_data` was made for
    /// answers the engine's memory status.  `pvs_data` is only touched on
    /// success.
    pub fn get_pvs_channel(&self, name: &str, pvs_data: &mut PvsDataExt) -> (r: Result<
        (),
        Status,
    >)
        requires
            self.wf(),
        ensures
            r is Ok <==> (nul_free(name@) && self.spec_has_channel(name@) && self.channels@[
                self.spec_channel_index(name@)
            ].kind == ControlChannelType::CSOUND_PVS_CHANNEL && self.channels@[
                self.spec_channel_index(name@)
            ].pvs->Some_0.N == old(pvs_data).N),
            r is Err ==> *final(pvs_data) == *old(pvs_data),
            r is Err ==> (r == Result::<(), Status>::Err(
                Status::CS_ERROR,
            ) || r == Result::<(), Status>::Err(Status::CS_MEMORY)),
            r == Result::<(), Status>::Err(Status::CS_MEMORY) <==> (
            nul_free(name@) && self.spec_has_channel(name@) && self.channels@[
                self.spec_channel_index(name@)
            ].kind == ControlChannelType::CSOUND_PVS_CHANNEL && self.channels@[
                self.spec_channel_index(name@)
            ].pvs->Some_0.N != old(pvs_data).N),
            r is Ok ==> {
                let p = self.channels@[self.spec_channel_index(name@)].pvs->Some_0;
                &&& final(pvs_data).N == p.N
                &&& final(pvs_data).sliding == p.sliding
                &&& final(pvs_data).NB == p.NB
                &&& final(pvs_data).overlap == p.overlap
                &&& final(pvs_data).winsize == p.winsize
                &&& final(pvs_data).wintype == p.wintype
                &&& final(pvs_data).format == p.format
                &&& final(pvs_data).framecount == p.framecount
                &&& final(pvs_data).frame@ == p.frame@
            },
    {
        if !Self::check_nul_free(name) {
            return Err(Status::CS_ERROR);
        }
        let owned = name.to_owned();
        match self.find_channel(&owned) {
            Some(i) => {
                if self.channels[i].kind != ControlChannelType::CSOUND_PVS_CHANNEL {
                    return Err(Status::CS_ERROR);
                }
                match &self.channels[i].pvs {
                    Some(p) => {
                        if p.N == pvs_data.N {
                            *pvs_data = p.clone();
                            Ok(())
                        } else {
                            Err(Status::CS_MEMORY)
                        }
                    },
                    None => Err(Status::CS_ERROR),
                }
            },
            None => Err(Status::CS_ERROR),
        }
    }

    /// Hands an analysis frame to the pvs channel `name`, creating the
    /// channel when the name is engine-compatible and not yet in use.  An
    /// existing pvs channel takes the frame only when its window matches;
    /// a channel of another kind, a frame whose sample count does not
    /// match its own window, or an instance that is not started are left
    /// unchanged, as the native wrapper ignores these failures.
    pub fn set_pvs_channel(&mut self, name: &str, pvs_data: &PvsDataExt)
        requires
            old(self).wf(),
        ensures
            final(self).wf(),
            !(valid_channel_name(name@) && pvs_data.frame@.len() == pvs_data.N) ==> *final(self)
                == *old(self),
            (valid_channel_name(name@) && pvs_data.frame@.len() == pvs_data.N && old(
                self,
            ).spec_has_channel(name@)) ==> {
                let i = old(self).spec_channel_index(name@);
                let ch = old(self).channels@[i];
                if ch.kind == ControlChannelType::CSOUND_PVS_CHANNEL && ch.pvs->Some_0.N
                    == pvs_data.N {
                    &&& old(self).only_channel_changed(*final(self), i)
                    &&& final(self).channels@[i].name@ == ch.name@
                    &&& final(self).channels@[i].kind == ch.kind
                    &&& final(self).channels@[i].input == ch.input
                    &&& final(self).channels@[i].output == ch.output
                    &&& final(self).channels@[i].data@ == ch.data@
                    &&& final(self).channels@[i].text@ == ch.text@
                    &&& final(self).channels@[i].hints == ch.hints
                    &&& pvs_frame_eq(final(self).channels@[i].pvs->Some_0, *pvs_data)
                } else {
                    *final(self) == *old(self)
                }
            },
            (valid_channel_name(name@) && pvs_data.frame@.len() == pvs_data.N && !old(
                self,
            ).spec_has_channel(name@)) ==> {
                if old(self).started {
                    let n = old(self).channels@.len() as int;
                    let ch = final(self).channels@[n];
                    &&& final(self).channels@.len() == n + 1
                    &&& forall|j: int|
                        0 <= j < n ==> final(self).channels@[j] == old(self).channels@[j]
                    &&& final(self).same_but_channels(*old(self))
                    &&& ch.name@ == name@
                    &&& ch.kind == ControlChannelType::CSOUND_PVS_CHANNEL
                    &&& ch.input && !ch.output
                    &&& pvs_frame_eq(ch.pvs->Some_0, *pvs_data)
                } else {
                    *final(self) == *old(self)
                }
            },
    {
        if !Self::check_name(name) {
            return ;
        }
        if pvs_data.frame.len() != pvs_data.N as usize {
            return ;
        }
        let owned = name.to_owned();
        match self.find_channel(&owned) {
            Some(i) => {
                if self.channels[i].kind != ControlChannelType::CSOUND_PVS_CHANNEL {
                    return ;
                }
                let matches_window = match &self.channels[i].pvs {
                    Some(p) => p.N == pvs_data.N,
                    None => false,
                };
                if matches_window {
                    let mut c = self.channels.remove(i);
                    c.pvs = Some(pvs_data.clone());
                    let ghost csnap = c;
                    self.channels.insert(i, c);
                    proof {
                        assert(self.channels@ =~= old(self).channels@.update(i as int, csnap));
                    }
                }
            },
            None => {
                if self.started {
                    let ch = Channel {
                        name: owned,
                        kind: ControlChannelType::CSOUND_PVS_CHANNEL,
                        input: true,
                        output: false,
                        data: Vec::new(),
                        text: String::new(),
                        hints: ChannelHints::default(),
                        pvs: Some(pvs_data.clone()),
                    };
                    self.channels.push(ch);
                }
            },
        }
    }

    /// An empty circular buffer with room for `len` items, like the one the
    /// engine would allocate for this instance.
    pub fn create_circular_buffer<T: Copy>(&self, len: u32) -> (r: CircularBuffer<T>)
        ensures
            r.wf(),
            r.view() == Seq::<T>::empty(),
            r.capacity() == len,
    {
        CircularBuffer::with_capacity(len)
    }
}

/// Round trip: after a value is written through a writable control view,
/// a read through a readable control view of the same channel yields that
/// value, and the readable view is still good for the state after the
/// write.  The premises are exactly what [`Csound::write_control`] ensures
/// of the state `post` it leaves behind, and the conclusion speaks of what
/// [`Csound::read_control`] returns on `post`.
pub proof fn lemma_control_round_trip(
    pre: Csound,
    post: Csound,
    win: InputChannel<ControlChannel>,
    rout: OutputChannel<ControlChannel>,
    value: u64,
)
    requires
        pre.wf(),
        pre.in_channel_valid::<ControlChannel>(win),
        pre.out_channel_valid::<ControlChannel>(rout),
        rout.index == win.index,
        pre.only_channel_changed(post, win.index as int),
        same_channel_but_data(post.channels@[win.index as int], pre.channels@[win.index as int]),
        post.channels@[win.index as int].data@ == pre.channels@[win.index as int].data@.update(
            0,
            value,
        ),
    ensures
        post.out_channel_valid::<ControlChannel>(rout),
        post.channels@[rout.index as int].data@[0] == value,
{
}

/// Idempotence of acquisition: once a channel has been produced for a name
/// and kind, acquiring the same name with the same kind again succeeds,
/// creates no second channel, and hands out the same channel position — the
/// two views observe the same underlying memory.
pub proof fn lemma_acquire_idempotent(
    s0: Csound,
    s1: Csound,
    s2: Csound,
    name: Seq<char>,
    kind: ControlChannelType,
    in1: bool,
    out1: bool,
    in2: bool,
    out2: bool,
    r1: Result<(usize, usize), ChannelError>,
    r2: Result<(usize, usize), ChannelError>,
)
    requires
        s0.wf(),
        s1.wf(),
        acquire_outcome(s0, s1, name, kind, in1, out1, r1),
        acquire_outcome(s1, s2, name, kind, in2, out2, r2),
        r1 is Ok,
    ensures
        r2 is Ok,
        r2->Ok_0.0 == r1->Ok_0.0,
        s2.channels@.len() == s1.channels@.len(),
{
    let i = r1->Ok_0.0 as int;
    if s0.spec_has_channel(name) {
        let i0 = s0.spec_channel_index(name);
        assert(s1.channels@[i0].name@ == name);
        lemma_channel_index_unique(s1, name, i0);
    } else {
        let n = s0.channels@.len() as int;
        assert(s1.channels@[n].name@ == name);
        lemma_channel_index_unique(s1, name, n);
    }
    assert(s1.spec_channel_index(name) == i);
    assert(s1.channels@[i].kind == kind);
}

/// Kind conflict: once a channel has been produced for a name, acquiring
/// the same name with a different content kind fails with
/// [`ChannelError::TypeConflict`] and leaves the engine unchanged — it
/// never silently succeeds.
pub proof fn lemma_acquire_kind_conflict(
    s0: Csound,
    s1: Csound,
    s2: Csound,
    name: Seq<char>,
    kind1: ControlChannelType,
    kind2: ControlChannelType,
    in1: bool,
    out1: bool,
    in2: bool,
    out2: bool,
    r1: Result<(usize, usize), ChannelError>,
    r2: Result<(usize, usize), ChannelError>,
)
    requires
        s0.wf(),
        s1.wf(),
        acquire_outcome(s0, s1, name, kind1, in1, out1, r1),
        acquire_outcome(s1, s2, name, kind2, in2, out2, r2),
        r1 is Ok,
        kind1 != kind2,
    ensures
        r2 == Result::<(usize, usize), ChannelError>::Err(ChannelError::TypeConflict),
        s2 == s1,
{
    let i = r1->Ok_0.0 as int;
    if s0.spec_has_channel(name) {
        let i0 = s0.spec_channel_index(name);
        assert(s1.channels@[i0].name@ == name);
        lemma_channel_index_unique(s1, name, i0);
    } else {
        let n = s0.channels@.len() as int;
        assert(s1.channels@[n].name@ == name);
        lemma_channel_index_unique(s1, name, n);
    }
    assert(s1.channels@[s1.spec_channel_index(name)].kind == kind1);
}

/// Copies `min(dst.len(), src.len())` elements from the front of `src`
/// over the front of `dst`, which keeps its length and its tail.
fn copy_prefix(dst: &mut Vec<u64>, src: &Vec<u64>) -> (n: usize)
    ensures
        n == (if old(dst)@.len() <= src@.len() {
            old(dst)@.len() as int
        } else {
            src@.len() as int
        }),
        final(dst)@.len() == old(dst)@.len(),
        forall|k: int| 0 <= k < n ==> final(dst)@[k] == src@[k],
        forall|k: int| n <= k < old(dst)@.len() ==> final(dst)@[k] == old(dst)@[k],
{
    let n = if dst.len() <= src.len() {
        dst.len()
    } else {
        src.len()
    };
    let mut k: usize = 0;
    while k < n
        invariant
            k <= n,
            n <= dst@.len(),
            n <= src@.len(),
            dst@.len() == old(dst)@.len(),
            forall|j: int| 0 <= j < k ==> dst@[j] == src@[j],
            forall|j: int| k <= j < old(dst)@.len() ==> dst@[j] == old(dst)@[j],
        decreases n - k,
    {
        dst.set(k, src[k]);
        k = k + 1;
    }
    n
}

/// A zeroed sample buffer of the given length.
fn zeroed_samples(n: usize) -> (r: Vec<u64>)
    ensures
        r@ == Seq::new(n as nat, |i: int| 0u64),
{
    let mut v: Vec<u64> = Vec::new();
    let mut i: usize = 0;
    while i < n
        invariant
            i <= n,
            v@ == Seq::new(i as nat, |j: int| 0u64),
        decreases n - i,
    {
        v.push(0);
        i = i + 1;
    }
    proof {
        assert(v@ =~= Seq::new(n as nat, |i: int| 0u64));
    }
    v
}

} // verus!
