use vstd::prelude::*;

use crate::enums::ControlChannelType;

verus! {

/// The number of bytes a piece of text occupies in engine memory, which
/// stores text UTF-8 encoded.
pub open spec fn text_byte_len(s: Seq<char>) -> nat {
    vstd::utf8::encode_utf8(s).len()
}

/// Scaling behaviour a front end should assume for a control channel,
/// as carried in the channel's hints.
#[allow(non_camel_case_types)]
#[derive(Debug, Clone, Copy, PartialEq, Eq, Structural)]
pub enum ChannelBehavior {
    CHANNEL_NO_HINTS,
    CHANNEL_INT,
    CHANNEL_LIN,
    CHANNEL_EXP,
}

/// The native code of a channel behaviour.
pub open spec fn channel_behavior_code(b: ChannelBehavior) -> u32 {
    match b {
        ChannelBehavior::CHANNEL_NO_HINTS => 0,
        ChannelBehavior::CHANNEL_INT => 1,
        ChannelBehavior::CHANNEL_LIN => 2,
        ChannelBehavior::CHANNEL_EXP => 3,
    }
}

/// The behaviour named by a native code in the documented range.
pub open spec fn channel_behavior_of(value: u32) -> ChannelBehavior {
    if value == 0 {
        ChannelBehavior::CHANNEL_NO_HINTS
    } else if value == 1 {
        ChannelBehavior::CHANNEL_INT
    } else if value == 2 {
        ChannelBehavior::CHANNEL_LIN
    } else {
        ChannelBehavior::CHANNEL_EXP
    }
}

impl ChannelBehavior {
    /// Reads a native behaviour code.  Codes outside the documented range
    /// name no behaviour, so they are ruled out up front.
    pub fn from_u32(value: u32) -> (r: ChannelBehavior)
        requires
            value <= 3,
        ensures
            r == channel_behavior_of(value),
    {
        match value {
            0 => ChannelBehavior::CHANNEL_NO_HINTS,
            1 => ChannelBehavior::CHANNEL_INT,
            2 => ChannelBehavior::CHANNEL_LIN,
            _ => ChannelBehavior::CHANNEL_EXP,
        }
    }

    /// The native code of this behaviour.
    pub fn to_u32(&self) -> (r: u32)
        ensures
            r == channel_behavior_code(*self),
    {
        match self {
            ChannelBehavior::CHANNEL_NO_HINTS => 0,
            ChannelBehavior::CHANNEL_INT => 1,
            ChannelBehavior::CHANNEL_LIN => 2,
            ChannelBehavior::CHANNEL_EXP => 3,
        }
    }
}

/// Display metadata attached to a control channel.  The default, minimum
/// and maximum values are bit patterns of the engine's sample type.
#[derive(Debug, PartialEq)]
pub struct ChannelHints {
    pub behav: ChannelBehavior,
    pub dflt: u64,
    pub min: u64,
    pub max: u64,
    pub x: i32,
    pub y: i32,
    pub width: i32,
    pub height: i32,
    pub attributes: String,
}

impl Default for ChannelHints {
    /// Hints that hint nothing: no behaviour, zero bounds, no attributes.
    fn default() -> (r: ChannelHints)
        ensures
            r.behav == ChannelBehavior::CHANNEL_NO_HINTS,
            r.dflt == 0 && r.min == 0 && r.max == 0,
            r.x == 0 && r.y == 0 && r.width == 0 && r.height == 0,
            r.attributes@ == Seq::<char>::empty(),
    {
        ChannelHints {
            behav: ChannelBehavior::CHANNEL_NO_HINTS,
            dflt: 0,
            min: 0,
            max: 0,
            x: 0,
            y: 0,
            width: 0,
            height: 0,
            attributes: String::new(),
        }
    }
}

impl Clone for ChannelHints {
    /// An exact copy of the hints.
    fn clone(&self) -> (r: ChannelHints)
        ensures
            r == *self,
    {
        ChannelHints {
            behav: self.behav,
            dflt: self.dflt,
            min: self.min,
            max: self.max,
            x: self.x,
            y: self.y,
            width: self.width,
            height: self.height,
            attributes: self.attributes.clone(),
        }
    }
}

/// Everything the engine reports about one named bus channel.
#[derive(Debug, Clone)]
pub struct ChannelInfo {
    /// The channel name.
    pub name: String,
    /// The channel's native type code, direction bits included.
    pub type_: i32,
    /// Channel extra metadata.
    pub hints: ChannelHints,
}

/// Phase-vocoder analysis frame exchanged over a pvs channel.  The frame
/// samples are bit patterns of the engine's single-precision sample type.
#[allow(non_snake_case)]
#[derive(Debug, PartialEq)]
pub struct PvsDataExt {
    pub N: u32,
    pub sliding: u32,
    pub NB: i32,
    pub overlap: u32,
    pub winsize: u32,
    pub wintype: u32,
    pub format: u32,
    pub framecount: u32,
    pub frame: Vec<u32>,
}

impl PvsDataExt {
    /// A zeroed analysis frame for a window of `winsize` samples.
    pub fn new(winsize: u32) -> (r: PvsDataExt)
        ensures
            r.N == winsize,
            r.sliding == 0 && r.NB == 0 && r.overlap == 0,
            r.winsize == winsize,
            r.wintype == 0 && r.format == 0 && r.framecount == 0,
            r.frame@.len() == winsize,
            forall|i: int| 0 <= i < r.frame@.len() ==> r.frame@[i] == 0,
    {
        let mut frame: Vec<u32> = Vec::new();
        let mut i: u32 = 0;
        while i < winsize
            invariant
                i <= winsize,
                frame@.len() == i,
                forall|j: int| 0 <= j < frame@.len() ==> frame@[j] == 0,
            decreases winsize - i,
        {
            frame.push(0);
            i = i + 1;
        }
        PvsDataExt {
            N: winsize,
            sliding: 0,
            NB: 0,
            overlap: 0,
            winsize,
            wintype: 0,
            format: 0,
            framecount: 0,
            frame,
        }
    }
}

impl Clone for PvsDataExt {
    /// An exact copy of the analysis frame.
    fn clone(&self) -> (r: PvsDataExt)
        ensures
            r.N == self.N,
            r.sliding == self.sliding,
            r.NB == self.NB,
            r.overlap == self.overlap,
            r.winsize == self.winsize,
            r.wintype == self.wintype,
            r.format == self.format,
            r.framecount == self.framecount,
            r.frame@ == self.frame@,
    {
        PvsDataExt {
            N: self.N,
            sliding: self.sliding,
            NB: self.NB,
            overlap: self.overlap,
            winsize: self.winsize,
            wintype: self.wintype,
            format: self.format,
            framecount: self.framecount,
            frame: clone_frame(&self.frame),
        }
    }
}

/// An element-for-element copy of an analysis frame's samples.
fn clone_frame(v: &Vec<u32>) -> (r: Vec<u32>)
    ensures
        r@ == v@,
{
    let mut r: Vec<u32> = Vec::new();
    let mut i: usize = 0;
    while i < v.len()
        invariant
            i <= v@.len(),
            r@ == v@.subrange(0, i as int),
        decreases v@.len() - i,
    {
        r.push(v[i]);
        i = i + 1;
    }
    proof {
        assert(r@ =~= v@);
    }
    r
}

/// Marker for views of a control channel: one sample-sized value.
#[derive(Debug)]
pub struct ControlChannel;

/// Marker for views of an audio channel: one control period of samples.
#[derive(Debug)]
pub struct AudioChannel;

/// Marker for views of a string channel: a bounded byte buffer.
#[derive(Debug)]
pub struct StrChannel;

/// Content kinds that channel views can carry, fixed per marker type at
/// compile time.
pub trait IsChannel {
    /// The content kind this marker stands for.
    spec fn spec_c_type() -> ControlChannelType;

    /// The content kind this marker stands for.
    fn c_type() -> (r: ControlChannelType)
        ensures
            r == Self::spec_c_type(),
    ;
}

impl IsChannel for ControlChannel {
    open spec fn spec_c_type() -> ControlChannelType {
        ControlChannelType::CSOUND_CONTROL_CHANNEL
    }

    fn c_type() -> (r: ControlChannelType) {
        ControlChannelType::CSOUND_CONTROL_CHANNEL
    }
}

impl IsChannel for AudioChannel {
    open spec fn spec_c_type() -> ControlChannelType {
        ControlChannelType::CSOUND_AUDIO_CHANNEL
    }

    fn c_type() -> (r: ControlChannelType) {
        ControlChannelType::CSOUND_AUDIO_CHANNEL
    }
}

impl IsChannel for StrChannel {
    open spec fn spec_c_type() -> ControlChannelType {
        ControlChannelType::CSOUND_STRING_CHANNEL
    }

    fn c_type() -> (r: ControlChannelType) {
        ControlChannelType::CSOUND_STRING_CHANNEL
    }
}

/// A host-to-engine view of one named channel: the holder may write the
/// channel's contents.  The marker type fixes the content kind at compile
/// time, so only the accessors matching that kind exist for it.
#[derive(Debug)]
pub struct InputChannel<T> {
    /// Position of the channel in the engine's channel list.
    pub index: usize,
    /// Element count of the view.
    pub len: usize,
    /// Content-kind marker.
    pub phantom: core::marker::PhantomData<T>,
}

/// An engine-to-host view of one named channel: the holder may read the
/// channel's contents, and nothing more.
#[derive(Debug)]
pub struct OutputChannel<T> {
    /// Position of the channel in the engine's channel list.
    pub index: usize,
    /// Element count of the view.
    pub len: usize,
    /// Content-kind marker.
    pub phantom: core::marker::PhantomData<T>,
}

impl<T> InputChannel<T> {
    /// The view's element count.
    pub fn get_size(&self) -> (r: usize)
        ensures
            r == self.len,
    {
        self.len
    }
}

impl<T> OutputChannel<T> {
    /// The view's element count.
    pub fn get_size(&self) -> (r: usize)
        ensures
            r == self.len,
    {
        self.len
    }
}

/// Why a named channel could not be produced.
#[derive(Debug, Clone, Copy, PartialEq, Eq, Structural)]
pub enum ChannelError {
    /// No channel of that name exists.
    NotFound,
    /// A channel of that name exists with another content kind.
    TypeConflict,
    /// The engine could not allocate storage for the channel.
    OutOfMemory,
    /// The name is not engine-compatible text.
    InvalidName,
}

} // verus!
