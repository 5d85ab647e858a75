//! Decisions taken while a file is decoded packet by packet.
//!
//! The caller owns the reader and the decoder. It asks here which track to
//! decode, what to do with each packet that the reader hands out, and what to
//! do with each result of the decoder. The samples themselves never pass
//! through this module.

use vstd::prelude::*;

verus! {

/// Sample rate and channel count of the decoded stream.
#[derive(Clone, Copy, Debug, PartialEq, Eq, Structural)]
pub struct StreamFormat {
    pub sample_rate: u32,
    pub channels: usize,
}

/// What the reader returned.
#[derive(Clone, Copy, Debug, PartialEq, Eq, Structural)]
pub enum ReadEvent {
    /// No packet: the stream has ended or cannot be read further.
    NoPacket,
    /// A packet of track `track`.
    Packet { track: u32 },
}

/// What to do after a read.
#[derive(Clone, Copy, Debug, PartialEq, Eq, Structural)]
pub enum ReadAction {
    /// Stop reading.
    Finish,
    /// Drop the packet and read on.
    Skip,
    /// Hand the packet to the decoder.
    Decode,
}

/// What the decoder returned for one packet.
#[derive(Clone, Copy, Debug, PartialEq, Eq, Structural)]
pub enum DecodeEvent {
    /// The packet could not be decoded.
    Failed,
    /// The packet was decoded into samples of this format.
    Decoded { format: StreamFormat },
}

/// The format that is reported when no packet was decoded at all.
pub open spec fn initial_format() -> StreamFormat {
    StreamFormat { sample_rate: 0, channels: 2 }
}

/// Whether `index` is the first track whose codec is known.
pub open spec fn first_known(unknown_codec: Seq<bool>, index: int) -> bool {
    &&& 0 <= index < unknown_codec.len()
    &&& !unknown_codec[index]
    &&& forall|earlier: int| 0 <= earlier < index ==> unknown_codec[earlier]
}

/// The action after a read, while track `selected` is decoded.
pub open spec fn read_action(selected: u32, event: ReadEvent) -> ReadAction {
    match event {
        ReadEvent::NoPacket => ReadAction::Finish,
        ReadEvent::Packet { track } => if track == selected {
            ReadAction::Decode
        } else {
            ReadAction::Skip
        },
    }
}

/// The format after one result of the decoder: that of the packet if it was
/// decoded, else the format before.
pub open spec fn format_after(format: StreamFormat, event: DecodeEvent) -> StreamFormat {
    match event {
        DecodeEvent::Failed => format,
        DecodeEvent::Decoded { format: decoded } => decoded,
    }
}

/// The format after a run of results of the decoder, oldest first.
pub open spec fn format_after_all(events: Seq<DecodeEvent>) -> StreamFormat
    decreases events.len(),
{
    if events.len() == 0 {
        initial_format()
    } else {
        format_after(format_after_all(events.drop_last()), events.last())
    }
}

/// The format before the first packet.
pub fn start_format() -> (format: StreamFormat)
    ensures
        format == initial_format(),
{
    StreamFormat { sample_rate: 0, channels: 2 }
}

/// Picks the track to decode: the first whose codec is known. `unknown_codec`
/// says of each track, in the order of the file, whether its codec is unknown.
pub fn select_track(unknown_codec: &Vec<bool>) -> (track: Option<usize>)
    ensures
        match track {
            Some(index) => first_known(unknown_codec@, index as int),
            None => forall|i: int| 0 <= i < unknown_codec.len() ==> unknown_codec[i],
        },
{
    let mut index: usize = 0;
    while index < unknown_codec.len()
        invariant
            index <= unknown_codec.len(),
            forall|i: int| 0 <= i < index ==> unknown_codec[i],
        decreases unknown_codec.len() - index,
    {
        if !unknown_codec[index] {
            return Some(index);
        }
        index += 1;
    }
    None
}

/// Decides what to do after a read: stop when there is no packet, decode a
/// packet of the selected track, drop any other.
pub fn on_read(selected: u32, event: ReadEvent) -> (action: ReadAction)
    ensures
        action == read_action(selected, event),
{
    match event {
        ReadEvent::NoPacket => ReadAction::Finish,
        ReadEvent::Packet { track } => if track == selected {
            ReadAction::Decode
        } else {
            ReadAction::Skip
        },
    }
}

/// Takes in one result of the decoder. Returns the format from now on and
/// whether the packet's samples are appended to the output: a decoded packet
/// sets the format and is appended, a failed one changes nothing and is
/// dropped.
pub fn on_decode(format: StreamFormat, event: DecodeEvent) -> (next: (StreamFormat, bool))
    ensures
        next.0 == format_after(format, event),
        next.1 <==> event is Decoded,
{
    match event {
        DecodeEvent::Failed => (format, false),
        DecodeEvent::Decoded { format: decoded } => (decoded, true),
    }
}

/// After any run of results the format is that of the last packet that was
/// decoded, or the initial one if none was.
pub proof fn lemma_format_is_last_decoded(events: Seq<DecodeEvent>)
    ensures
        (forall|i: int| 0 <= i < events.len() ==> events[i] is Failed) ==> format_after_all(events)
            == initial_format(),
        forall|i: int|
            0 <= i < events.len() && events[i] is Decoded && (forall|j: int|
                i < j < events.len() ==> events[j] is Failed) ==> format_after_all(events)
                == events[i]->format,
    decreases events.len(),
{
    if events.len() > 0 {
        let before = events.drop_last();
        lemma_format_is_last_decoded(before);
        assert forall|i: int|
            0 <= i < events.len() && events[i] is Decoded && (forall|j: int|
                i < j < events.len() ==> events[j] is Failed) implies format_after_all(events)
            == events[i]->format by {
            if i < events.len() - 1 {
                assert(events.last() is Failed);
                assert(before[i] == events[i]);
                assert forall|j: int| i < j < before.len() implies before[j] is Failed by {
                    assert(before[j] == events[j]);
                }
            }
        }
        if forall|i: int| 0 <= i < events.len() ==> events[i] is Failed {
            assert forall|i: int| 0 <= i < before.len() implies before[i] is Failed by {
                assert(before[i] == events[i]);
            }
        }
    }
}

} // verus!
