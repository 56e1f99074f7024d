//! What the audio layer decides before it hands samples to the sound card.

use vstd::prelude::*;

verus! {

/// The number of buffers that a streaming source keeps queued before it
/// starts to use the played ones again.
pub const NUM_BUFFER_POOL: i32 = 100;

/// How the samples of a sound are laid out.
#[derive(Clone, Copy, Debug, PartialEq, Eq, Structural)]
pub enum ChannelLayout {
    /// One channel.
    Mono,
    /// Two channels, left and right in turn.
    Stereo,
}

/// What a stream's header says of its samples.
#[derive(Clone, Copy, Debug, PartialEq, Eq, Structural)]
pub struct StreamFormat {
    pub layout: ChannelLayout,
    /// The samples of one second for each channel.
    pub sample_rate: i32,
}

/// The layout of a stream with `audio_channels` channels, if it has one.
pub open spec fn channel_layout_of(audio_channels: u8) -> Option<ChannelLayout> {
    if audio_channels == 1 {
        Some(ChannelLayout::Mono)
    } else if audio_channels == 2 {
        Some(ChannelLayout::Stereo)
    } else {
        None
    }
}

/// The layout of a stream with `audio_channels` channels. The sound card is
/// given one channel or two; a stream with none or with more has no layout.
pub fn channel_layout(audio_channels: u8) -> (layout: Option<ChannelLayout>)
    ensures
        layout == channel_layout_of(audio_channels),
{
    if audio_channels == 1 {
        Some(ChannelLayout::Mono)
    } else if audio_channels == 2 {
        Some(ChannelLayout::Stereo)
    } else {
        None
    }
}

/// Whether a stream has more channels than the sound card is given.
pub fn too_many_channels(audio_channels: u8) -> (too_many: bool)
    ensures
        too_many == (audio_channels > 2),
{
    audio_channels > 2
}

/// The format of a stream whose header gives `audio_channels` channels and
/// the sample rate `audio_sample_rate`: the rate is handed on as a signed
/// number of the same 32 bits.
pub fn stream_format(audio_channels: u8, audio_sample_rate: u32) -> (format: Option<StreamFormat>)
    ensures
        format == match channel_layout_of(audio_channels) {
            Some(layout) => Some(StreamFormat { layout, sample_rate: audio_sample_rate as i32 }),
            None => None,
        },
{
    match channel_layout(audio_channels) {
        Some(layout) => Some(
            StreamFormat {
                layout,
                sample_rate: #[verifier::truncate]
                (audio_sample_rate as i32),
            },
        ),
        None => None,
    }
}

/// Whether a streaming source with `buffers_queued` buffers in its queue
/// takes a new buffer for the next packet. With a full pool it takes back a
/// buffer that was played and fills that one again.
pub fn takes_new_buffer(buffers_queued: i32) -> (fresh: bool)
    ensures
        fresh == (buffers_queued < NUM_BUFFER_POOL),
{
    buffers_queued < NUM_BUFFER_POOL
}

} // verus!
