//! Playback buffers: one slot with its ownership status, a pair of slots that
//! alternate, and the stereo session that fills and queues them in lockstep.
use vstd::prelude::*;

use crate::decode::{DecodeError, Decoder, Progress};

verus! {

#[derive(Debug, Clone, Copy, PartialEq, Eq, Structural)]
pub enum ChannelID {
    FrontLeft,
    FrontRight,
}

/// Channel mask of the front left speaker in a decoder's channel layout.
pub const FRONT_LEFT_MASK: u32 = 0x1;

/// Channel mask of the front right speaker in a decoder's channel layout.
pub const FRONT_RIGHT_MASK: u32 = 0x2;

impl ChannelID {
    /// The output channel that a layout made of exactly one front speaker
    /// feeds; any other layout has none.
    pub fn try_from_mask(mask: u32) -> (r: Result<ChannelID, ()>)
        ensures
            mask == FRONT_LEFT_MASK <==> r == Ok::<ChannelID, ()>(ChannelID::FrontLeft),
            mask == FRONT_RIGHT_MASK <==> r == Ok::<ChannelID, ()>(ChannelID::FrontRight),
            mask != FRONT_LEFT_MASK && mask != FRONT_RIGHT_MASK <==> r is Err,
    {
        if mask == FRONT_LEFT_MASK {
            Ok(ChannelID::FrontLeft)
        } else if mask == FRONT_RIGHT_MASK {
            Ok(ChannelID::FrontRight)
        } else {
            Err(())
        }
    }
}

/// Who owns a playback slot: software (`Free`, `Done`) or the playback engine
/// (`Queued`).
#[derive(Debug, Clone, Copy, PartialEq, Eq, Structural)]
pub enum Status {
    /// Never queued.
    Free,
    /// Handed to the engine, which may be reading it.
    Queued,
    /// The engine has drained it; software may refill it.
    Done,
}

/// The status changes a slot may go through: software queues a free or a
/// drained slot, and the engine marks a queued slot drained.
pub open spec fn status_step(a: Status, b: Status) -> bool {
    a == b || (a == Status::Free && b == Status::Queued) || (a == Status::Queued && b == Status::Done)
        || (a == Status::Done && b == Status::Queued)
}

/// The status a slot takes when the engine reports `reported` for it: only the
/// drain of a queued slot is taken from the engine.
pub open spec fn after_report(current: Status, reported: Status) -> Status {
    if current == Status::Queued && reported == Status::Done {
        Status::Done
    } else {
        current
    }
}

/// A playback slot as a value: its bytes and its status.
pub struct WaveView {
    pub data: Seq<u8>,
    pub status: Status,
}

/// The bytes of `dst` after `src` was copied to its front.
pub open spec fn overwritten(dst: Seq<u8>, src: Seq<u8>) -> Seq<u8> {
    src + dst.skip(src.len() as int)
}

/// A fixed-capacity playback slot.
pub struct Wave {
    data: Vec<u8>,
    status: Status,
}

impl View for Wave {
    type V = WaveView;

    closed spec fn view(&self) -> WaveView {
        WaveView { data: self.data@, status: self.status }
    }
}

impl Wave {
    /// A free slot of `len` zero bytes.
    pub fn new(len: usize) -> (r: Wave)
        ensures
            r@.data == Seq::new(len as nat, |i: int| 0u8),
            r@.status == Status::Free,
    {
        let mut data: Vec<u8> = Vec::new();
        let mut i: usize = 0;
        while i < len
            invariant
                i <= len,
                data@ == Seq::new(i as nat, |k: int| 0u8),
            decreases len - i,
        {
            data.push(0u8);
            i = i + 1;
            assert(data@ =~= Seq::new(i as nat, |k: int| 0u8));
        }
        Wave { data, status: Status::Free }
    }

    pub fn status(&self) -> (r: Status)
        ensures
            r == self@.status,
    {
        self.status
    }

    pub fn get_buffer(&self) -> (r: &Vec<u8>)
        ensures
            r@ == self@.data,
    {
        &self.data
    }

    /// Capacity of the slot, in bytes.
    pub fn len(&self) -> (r: usize)
        ensures
            r == self@.data.len(),
    {
        self.data.len()
    }

    /// Copies `src` to the front of the slot; the rest keeps its bytes.
    fn write(&mut self, src: &Vec<u8>)
        requires
            old(self)@.status != Status::Queued,
            src@.len() <= old(self)@.data.len(),
        ensures
            final(self)@.data == overwritten(old(self)@.data, src@),
            final(self)@.status == old(self)@.status,
    {
        let n = src.len();
        let mut i: usize = 0;
        while i < n
            invariant
                n == src@.len(),
                i <= n,
                n <= old(self)@.data.len(),
                self.status == old(self)@.status,
                self.data@.len() == old(self)@.data.len(),
                forall|k: int| 0 <= k < i ==> self.data@[k] == src@[k],
                forall|k: int| i <= k < self.data@.len() ==> self.data@[k] == old(self)@.data[k],
            decreases n - i,
        {
            self.data.set(i, src[i]);
            i = i + 1;
        }
        assert(self.data@ =~= overwritten(old(self)@.data, src@));
    }

    /// Hands the slot to the engine.
    fn queue(&mut self)
        requires
            old(self)@.status != Status::Queued,
        ensures
            final(self)@.data == old(self)@.data,
            final(self)@.status == Status::Queued,
    {
        self.status = Status::Queued;
    }

    /// Takes in the status that the engine reports for this slot.
    fn report(&mut self, reported: Status)
        ensures
            final(self)@.data == old(self)@.data,
            final(self)@.status == after_report(old(self)@.status, reported),
    {
        if self.status == Status::Queued && reported == Status::Done {
            self.status = Status::Done;
        }
    }
}

/// A pair of slots and the flag that selects the current one.
pub struct DoubleBufferView {
    pub second: bool,
    pub first_slot: WaveView,
    pub second_slot: WaveView,
}

impl DoubleBufferView {
    pub open spec fn current(self) -> WaveView {
        if self.second {
            self.second_slot
        } else {
            self.first_slot
        }
    }

    pub open spec fn other(self) -> WaveView {
        if self.second {
            self.first_slot
        } else {
            self.second_slot
        }
    }

    /// The same pair with the other slot selected.
    pub open spec fn flipped(self) -> DoubleBufferView {
        DoubleBufferView { second: !self.second, ..self }
    }

    /// The same pair with the current slot replaced by `w`.
    pub open spec fn with_current(self, w: WaveView) -> DoubleBufferView {
        if self.second {
            DoubleBufferView { second_slot: w, ..self }
        } else {
            DoubleBufferView { first_slot: w, ..self }
        }
    }

    /// A slot is never free while the other one has been queued: both are
    /// primed at once.
    pub open spec fn free_together(self) -> bool {
        (self.first_slot.status == Status::Free) == (self.second_slot.status == Status::Free)
    }

    /// Both slots hold `len` bytes.
    pub open spec fn has_len(self, len: nat) -> bool {
        self.first_slot.data.len() == len && self.second_slot.data.len() == len
    }
}

/// Audio double-buffering: software fills one slot while the engine drains
/// the other.
pub struct DoubleBuffer {
    altern: bool,
    wave1: Wave,
    wave2: Wave,
}

impl View for DoubleBuffer {
    type V = DoubleBufferView;

    closed spec fn view(&self) -> DoubleBufferView {
        DoubleBufferView { second: self.altern, first_slot: self.wave1@, second_slot: self.wave2@ }
    }
}

impl DoubleBuffer {
    /// Two free slots of `len` zero bytes; the first is current.
    pub fn new(len: usize) -> (r: DoubleBuffer)
        ensures
            !r@.second,
            r@.first_slot.data == Seq::new(len as nat, |i: int| 0u8),
            r@.second_slot.data == Seq::new(len as nat, |i: int| 0u8),
            r@.first_slot.status == Status::Free,
            r@.second_slot.status == Status::Free,
    {
        DoubleBuffer { altern: false, wave1: Wave::new(len), wave2: Wave::new(len) }
    }

    /// Whether the current slot has finished playing.
    pub fn should_altern(&self) -> (r: bool)
        ensures
            r == (self@.current().status == Status::Done),
    {
        self.current().status() == Status::Done
    }

    /// Whether the current slot was never queued.
    pub fn is_free(&self) -> (r: bool)
        ensures
            r == (self@.current().status == Status::Free),
    {
        self.current().status() == Status::Free
    }

    /// The current slot, without alternating.
    pub fn current(&self) -> (r: &Wave)
        ensures
            r@ == self@.current(),
    {
        if self.altern {
            &self.wave2
        } else {
            &self.wave1
        }
    }

    /// The first slot (`second == false`) or the second one.
    pub fn slot(&self, second: bool) -> (r: &Wave)
        ensures
            r@ == (if second {
                self@.second_slot
            } else {
                self@.first_slot
            }),
    {
        if second {
            &self.wave2
        } else {
            &self.wave1
        }
    }

    /// Whether the second slot is the current one.
    pub fn is_second(&self) -> (r: bool)
        ensures
            r == self@.second,
    {
        self.altern
    }

    /// Selects the other slot.
    pub fn altern(&mut self)
        ensures
            final(self)@ == old(self)@.flipped(),
    {
        self.altern = !self.altern;
    }

    /// Copies `src` to the front of the current slot.
    pub fn write(&mut self, src: &Vec<u8>)
        requires
            old(self)@.current().status != Status::Queued,
            src@.len() <= old(self)@.current().data.len(),
        ensures
            final(self)@ == old(self)@.with_current(
                WaveView { data: overwritten(old(self)@.current().data, src@), ..old(self)@.current() },
            ),
    {
        if self.altern {
            self.wave2.write(src);
        } else {
            self.wave1.write(src);
        }
    }

    /// Hands the current slot to the engine.
    pub fn queue(&mut self)
        requires
            old(self)@.current().status != Status::Queued,
        ensures
            final(self)@ == old(self)@.with_current(
                WaveView { status: Status::Queued, ..old(self)@.current() },
            ),
    {
        if self.altern {
            self.wave2.queue();
        } else {
            self.wave1.queue();
        }
    }

    /// Takes in the status that the engine reports for the current slot.
    pub fn report(&mut self, reported: Status)
        ensures
            final(self)@ == old(self)@.with_current(
                WaveView { status: after_report(old(self)@.current().status, reported), ..old(self)@.current() },
            ),
    {
        if self.altern {
            self.wave2.report(reported);
        } else {
            self.wave1.report(reported);
        }
    }
}


/// Where a session stands.
#[derive(Debug, Clone, Copy, PartialEq, Eq, Structural)]
pub enum SessionState {
    /// Refills go on as slots drain.
    Playing,
    /// The stream has ended: queued slots finish, nothing is refilled.
    Draining,
    /// The codec failed: no further work is done.
    Faulted,
}

/// What a tick asks of the engine's driver.
#[derive(Debug, Clone, Copy, PartialEq, Eq, Structural)]
pub enum Tick {
    /// Nothing to do this time.
    Idle,
    /// Both slots of each channel were queued: enqueue, per channel, the slot
    /// given here first (`true` for the second slot), then the other one.
    Prime(bool),
    /// Both channels' current slots have drained: decode the next chunk and
    /// hand it to `refill`.
    Refill,
    /// The session has faulted.
    Fault,
}

/// The decision a tick takes, given the channels' buffers once the engine's
/// reports are taken in.
pub open spec fn tick_of(state: SessionState, left: DoubleBufferView, right: DoubleBufferView) -> Tick {
    if state == SessionState::Faulted {
        Tick::Fault
    } else if left.current().status == Status::Free && right.current().status == Status::Free {
        Tick::Prime(left.second)
    } else if left.current().status == Status::Done && right.current().status == Status::Done
        && state == SessionState::Playing {
        Tick::Refill
    } else {
        Tick::Idle
    }
}

/// Both slots of a pair handed to the engine, the current one first, with the
/// selection back where it was.
pub open spec fn primed(b: DoubleBufferView) -> DoubleBufferView {
    DoubleBufferView {
        first_slot: WaveView { status: Status::Queued, ..b.first_slot },
        second_slot: WaveView { status: Status::Queued, ..b.second_slot },
        ..b
    }
}

/// The pair once the current slot has been reported on.
pub open spec fn reported(b: DoubleBufferView, s: Status) -> DoubleBufferView {
    b.with_current(WaveView { status: after_report(b.current().status, s), ..b.current() })
}

/// The pair once `src` was written into the current slot, the slot queued and
/// the selection flipped.
pub open spec fn refilled(b: DoubleBufferView, src: Seq<u8>) -> DoubleBufferView {
    b.with_current(WaveView { data: overwritten(b.current().data, src), status: Status::Queued }).flipped()
}

/// Stereo audio being streamed: a decoder and one double buffer per channel,
/// flipped in lockstep.
pub struct Music {
    decoder: Decoder,
    wave_left: DoubleBuffer,
    wave_right: DoubleBuffer,
    capacity: usize,
    state: SessionState,
}

impl Music {
    pub closed spec fn decoder(&self) -> Decoder {
        self.decoder
    }

    pub closed spec fn left(&self) -> DoubleBufferView {
        self.wave_left@
    }

    pub closed spec fn right(&self) -> DoubleBufferView {
        self.wave_right@
    }

    pub closed spec fn capacity(&self) -> nat {
        self.capacity as nat
    }

    pub closed spec fn state(&self) -> SessionState {
        self.state
    }

    /// The buffers keep their capacity, the two channels stay in phase, and
    /// the decoder keeps its invariant.
    pub open spec fn wf(&self) -> bool {
        &&& self.well_shaped()
        &&& self.left().free_together()
        &&& self.right().free_together()
    }

    /// The buffers keep their capacity and the two channels stay in phase.
    pub open spec fn well_shaped(&self) -> bool {
        &&& self.decoder().wf()
        &&& self.capacity() > 0
        &&& self.left().has_len(self.capacity())
        &&& self.right().has_len(self.capacity())
        &&& self.left().second == self.right().second
    }

    /// The pair of buffers of one channel.
    pub open spec fn channel(&self, channel_id: ChannelID) -> DoubleBufferView {
        match channel_id {
            ChannelID::FrontLeft => self.left(),
            ChannelID::FrontRight => self.right(),
        }
    }

    /// A session with buffers of one second of 16-bit audio at 44.1 kHz per
    /// channel.
    pub fn new(decoder: Decoder) -> (r: Music)
        requires
            decoder.wf(),
        ensures
            r.wf(),
            r.capacity() == 176400,
            r.decoder() == decoder,
            r.state() == SessionState::Playing,
    {
        Self::with_capacity(decoder, 176400)
    }

    /// A session whose buffers hold `capacity` bytes each; both slots of both
    /// channels start free and zeroed, the first one current.
    pub fn with_capacity(decoder: Decoder, capacity: usize) -> (r: Music)
        requires
            decoder.wf(),
            capacity > 0,
        ensures
            r.wf(),
            r.capacity() == capacity,
            r.decoder() == decoder,
            r.state() == SessionState::Playing,
            !r.left().second,
            r.left() == r.right(),
            r.left().first_slot.data == Seq::new(capacity as nat, |i: int| 0u8),
            r.left().second_slot.data == Seq::new(capacity as nat, |i: int| 0u8),
            r.left().first_slot.status == Status::Free,
            r.left().second_slot.status == Status::Free,
    {
        let wave_left = DoubleBuffer::new(capacity);
        let wave_right = DoubleBuffer::new(capacity);
        Music { decoder, wave_left, wave_right, capacity, state: SessionState::Playing }
    }

    /// Length of each buffer, in bytes.
    pub fn buffer_len(&self) -> (r: usize)
        requires
            self.wf(),
        ensures
            r == self.capacity(),
    {
        self.wave_left.current().len()
    }

    /// Whether the decoder's stream has stopped, by its end or by a fault.
    pub fn has_ended(&self) -> (r: bool)
        ensures
            r == self.decoder().end().is_some(),
    {
        self.decoder.has_ended()
    }

    /// Number of decoded bytes per channel not yet handed out.
    pub fn pending_len(&self) -> (r: usize)
        ensures
            r == self.decoder().pending_left().len(),
    {
        self.decoder.pending_len()
    }

    pub fn session_state(&self) -> (r: SessionState)
        ensures
            r == self.state(),
    {
        self.state
    }

    /// One channel's double buffer.
    pub fn buffer(&self, channel_id: ChannelID) -> (r: &DoubleBuffer)
        ensures
            r@ == self.channel(channel_id),
    {
        match channel_id {
            ChannelID::FrontLeft => &self.wave_left,
            ChannelID::FrontRight => &self.wave_right,
        }
    }

    /// Writes 16-bit audio to the front of one channel's current slot.
    ///
    /// Fails with `Queued` when that slot is owned by the engine, and then
    /// changes nothing.
    pub fn write_single_channel(&mut self, channel_id: ChannelID, src: &Vec<u8>) -> (r: Result<(), Status>)
        requires
            old(self).wf(),
            src@.len() % 2 == 0,
            src@.len() <= old(self).capacity(),
        ensures
            final(self).wf(),
            r is Err <==> old(self).channel(channel_id).current().status == Status::Queued,
            r is Err ==> r == Err::<(), Status>(Status::Queued) && *final(self) == *old(self),
            r is Ok ==> final(self).channel(channel_id) == old(self).channel(channel_id).with_current(
                WaveView { data: overwritten(old(self).channel(channel_id).current().data, src@),
                    ..old(self).channel(channel_id).current() },
            ),
            channel_id == ChannelID::FrontLeft ==> final(self).right() == old(self).right(),
            channel_id == ChannelID::FrontRight ==> final(self).left() == old(self).left(),
            final(self).decoder() == old(self).decoder(),
            final(self).state() == old(self).state(),
            final(self).capacity() == old(self).capacity(),
    {
        match channel_id {
            ChannelID::FrontLeft => {
                if self.wave_left.current().status() == Status::Queued {
                    return Err(Status::Queued);
                }
                self.wave_left.write(src);
            },
            ChannelID::FrontRight => {
                if self.wave_right.current().status() == Status::Queued {
                    return Err(Status::Queued);
                }
                self.wave_right.write(src);
            },
        }
        Ok(())
    }

    /// Fills both slots of a fresh session before playback: the first chunk
    /// goes to the current slots, the second to the other slots, and the
    /// selection ends where it began. If either decode failed, the first
    /// failure is handed back and nothing changes.
    pub fn prefill(
        &mut self,
        first: Result<(Vec<u8>, Vec<u8>), DecodeError>,
        second: Result<(Vec<u8>, Vec<u8>), DecodeError>,
    ) -> (r: Result<(), DecodeError>)
        requires
            old(self).wf(),
            old(self).left().current().status == Status::Free,
            old(self).right().current().status == Status::Free,
            first matches Ok((l, rt)) ==> l@.len() <= old(self).capacity() && rt@.len() <= old(self).capacity(),
            second matches Ok((l, rt)) ==> l@.len() <= old(self).capacity() && rt@.len() <= old(self).capacity(),
        ensures
            final(self).wf(),
            final(self).decoder() == old(self).decoder(),
            final(self).state() == old(self).state(),
            final(self).capacity() == old(self).capacity(),
            first matches Err(e) ==> r == Err::<(), DecodeError>(e) && *final(self) == *old(self),
            first is Ok && second is Err ==> r == Err::<(), DecodeError>(second->Err_0) && *final(self)
                == *old(self),
            first is Ok && second is Ok ==> {
                let (l1, r1) = first->Ok_0;
                let (l2, r2) = second->Ok_0;
                let ol = old(self).left();
                let or = old(self).right();
                &&& r is Ok
                &&& final(self).left() == ol.with_current(
                    WaveView { data: overwritten(ol.current().data, l1@), ..ol.current() }).flipped().with_current(
                    WaveView { data: overwritten(ol.other().data, l2@), ..ol.other() }).flipped()
                &&& final(self).right() == or.with_current(
                    WaveView { data: overwritten(or.current().data, r1@), ..or.current() }).flipped().with_current(
                    WaveView { data: overwritten(or.other().data, r2@), ..or.other() }).flipped()
                &&& final(self).left().second == ol.second
                &&& final(self).left().current().data == overwritten(ol.current().data, l1@)
                &&& final(self).left().other().data == overwritten(ol.other().data, l2@)
                &&& final(self).right().current().data == overwritten(or.current().data, r1@)
                &&& final(self).right().other().data == overwritten(or.other().data, r2@)
            },
    {
        match first {
            Err(e) => Err(e),
            Ok((l1, r1)) => match second {
                Err(e) => Err(e),
                Ok((l2, r2)) => {
                    self.write_stereo(&l1, &r1);
                    self.altern();
                    self.write_stereo(&l2, &r2);
                    self.altern();
                    Ok(())
                },
            },
        }
    }

    /// Hands the decoder the next decoded unit when it can take it: the stream
    /// still goes on, both channels carry as many samples, and the leftover
    /// stays within memory. Otherwise nothing changes.
    pub fn push_checked(&mut self, left: &Vec<i16>, right: &Vec<i16>) -> (r: bool)
        requires
            old(self).wf(),
        ensures
            final(self).wf(),
            r == (old(self).decoder().end().is_none() && left@.len() == right@.len()
                && old(self).decoder().pending_left().len() + 2 * left@.len() <= usize::MAX),
            !r ==> *final(self) == *old(self),
            final(self).left() == old(self).left(),
            final(self).right() == old(self).right(),
            final(self).state() == old(self).state(),
            final(self).capacity() == old(self).capacity(),
            r ==> {
                let d0 = old(self).decoder();
                let d1 = final(self).decoder();
                let added_left = d1.pending_left().skip(d0.pending_left().len() as int);
                let added_right = d1.pending_right().skip(d0.pending_right().len() as int);
                &&& d1.end().is_none()
                &&& d1.emitted_left() == d0.emitted_left()
                &&& d1.emitted_right() == d0.emitted_right()
                &&& d1.pending_left() == d0.pending_left() + added_left
                &&& d1.pending_right() == d0.pending_right() + added_right
                &&& crate::pcm::is_sample_rendering(left@, added_left)
                &&& crate::pcm::is_sample_rendering(right@, added_right)
                &&& d1.decoded_left() == d0.decoded_left() + added_left
                &&& d1.decoded_right() == d0.decoded_right() + added_right
            },
    {
        let ok = !self.has_ended() && left.len() == right.len() && left.len() <= (usize::MAX
            - self.pending_len()) / 2;
        if ok {
            self.push_unit(left, right);
        }
        ok
    }

    /// Copies the two runs into the channels' current slots.
    fn write_stereo(&mut self, left_audio: &Vec<u8>, right_audio: &Vec<u8>)
        requires
            old(self).wf(),
            old(self).left().current().status != Status::Queued,
            old(self).right().current().status != Status::Queued,
            left_audio@.len() <= old(self).capacity(),
            right_audio@.len() <= old(self).capacity(),
        ensures
            final(self).wf(),
            final(self).decoder() == old(self).decoder(),
            final(self).state() == old(self).state(),
            final(self).capacity() == old(self).capacity(),
            final(self).left() == old(self).left().with_current(
                WaveView { data: overwritten(old(self).left().current().data, left_audio@), ..old(self).left().current() }),
            final(self).right() == old(self).right().with_current(
                WaveView { data: overwritten(old(self).right().current().data, right_audio@), ..old(self).right().current() }),
    {
        self.wave_left.write(left_audio);
        self.wave_right.write(right_audio);
    }

    /// Selects the other slot of both channels.
    pub fn altern(&mut self)
        requires
            old(self).well_shaped(),
        ensures
            final(self).well_shaped(),
            old(self).wf() ==> final(self).wf(),
            final(self).left() == old(self).left().flipped(),
            final(self).right() == old(self).right().flipped(),
            final(self).decoder() == old(self).decoder(),
            final(self).state() == old(self).state(),
            final(self).capacity() == old(self).capacity(),
    {
        self.wave_left.altern();
        self.wave_right.altern();
    }

    /// Writes a decoded chunk (left, right) into both channels' current slots.
    /// A failed decode is handed back and nothing changes.
    pub fn decode_within(&mut self, chunk: Result<(Vec<u8>, Vec<u8>), DecodeError>) -> (r: Result<(), DecodeError>)
        requires
            old(self).wf(),
            chunk matches Ok((l, rt)) ==> {
                &&& old(self).left().current().status != Status::Queued
                &&& old(self).right().current().status != Status::Queued
                &&& l@.len() <= old(self).capacity()
                &&& rt@.len() <= old(self).capacity()
            },
        ensures
            final(self).wf(),
            final(self).decoder() == old(self).decoder(),
            final(self).state() == old(self).state(),
            final(self).capacity() == old(self).capacity(),
            chunk matches Err(e) ==> r == Err::<(), DecodeError>(e) && *final(self) == *old(self),
            chunk matches Ok((l, rt)) ==> {
                &&& r is Ok
                &&& final(self).left() == old(self).left().with_current(
                    WaveView { data: overwritten(old(self).left().current().data, l@), ..old(self).left().current() })
                &&& final(self).right() == old(self).right().with_current(
                    WaveView { data: overwritten(old(self).right().current().data, rt@), ..old(self).right().current() })
            },
    {
        match chunk {
            Ok((l, rt)) => {
                self.write_stereo(&l, &rt);
                Ok(())
            },
            Err(e) => Err(e),
        }
    }

    /// Asks the decoder for a run of one buffer's length per channel.
    pub fn decode_step(&mut self) -> (r: Progress)
        requires
            old(self).wf(),
        ensures
            final(self).wf(),
            final(self).left() == old(self).left(),
            final(self).right() == old(self).right(),
            final(self).state() == old(self).state(),
            final(self).capacity() == old(self).capacity(),
            !(r is Chunk) ==> *final(self) == *old(self),
            ({
                let d0 = old(self).decoder();
                let d1 = final(self).decoder();
                &&& d1.end() == d0.end()
                &&& d1.decoded_left() == d0.decoded_left()
                &&& d1.decoded_right() == d0.decoded_right()
                &&& (d0.outcome(old(self).capacity()) matches Some(e) ==> r == Progress::Ended(e))
                &&& (r is NeedUnit <==> (d0.outcome(old(self).capacity()) is None && d0.end().is_none()
                    && d0.pending_left().len() < old(self).capacity()))
                &&& (!(r is Chunk) ==> d1 == d0)
                &&& (r is Chunk <==> (d0.outcome(old(self).capacity()) is None && (d0.end().is_some()
                    || d0.pending_left().len() >= old(self).capacity())))
                &&& (r matches Progress::Chunk(left, right) ==> {
                    &&& left@.len() == (if d0.pending_left().len() >= old(self).capacity() {
                        old(self).capacity() as int
                    } else {
                        d0.pending_left().len() as int
                    })
                    &&& 0 < left@.len() <= old(self).capacity()
                    &&& left@.len() == right@.len()
                    &&& (left@.len() < old(self).capacity() ==> d0.end() == Some(DecodeError::EndOfStream))
                    &&& d0.pending_left() == left@ + d1.pending_left()
                    &&& d0.pending_right() == right@ + d1.pending_right()
                    &&& d1.emitted_left() == d0.emitted_left() + left@
                    &&& d1.emitted_right() == d0.emitted_right() + right@
                })
            }),
    {
        let r = self.decoder.decode_until(self.capacity);
        proof {
            if let Progress::Chunk(left, _) = &r {
                let d0 = old(self).decoder();
                let n = left@.len() as int;
                assert(d0.pending_left() =~= d0.pending_left().take(n) + d0.pending_left().skip(n));
                assert(d0.pending_right() =~= d0.pending_right().take(n) + d0.pending_right().skip(n));
            }
        }
        r
    }

    /// Hands the decoder the next decoded unit.
    pub fn push_unit(&mut self, left: &Vec<i16>, right: &Vec<i16>)
        requires
            old(self).wf(),
            old(self).decoder().end().is_none(),
            left@.len() == right@.len(),
            old(self).decoder().pending_left().len() + 2 * left@.len() <= usize::MAX,
        ensures
            final(self).wf(),
            final(self).left() == old(self).left(),
            final(self).right() == old(self).right(),
            final(self).state() == old(self).state(),
            final(self).capacity() == old(self).capacity(),
            ({
                let d0 = old(self).decoder();
                let d1 = final(self).decoder();
                let added_left = d1.pending_left().skip(d0.pending_left().len() as int);
                let added_right = d1.pending_right().skip(d0.pending_right().len() as int);
                &&& d1.end().is_none()
                &&& d1.emitted_left() == d0.emitted_left()
                &&& d1.emitted_right() == d0.emitted_right()
                &&& d1.pending_left() == d0.pending_left() + added_left
                &&& d1.pending_right() == d0.pending_right() + added_right
                &&& crate::pcm::is_sample_rendering(left@, added_left)
                &&& crate::pcm::is_sample_rendering(right@, added_right)
                &&& d1.decoded_left() == d0.decoded_left() + added_left
                &&& d1.decoded_right() == d0.decoded_right() + added_right
            }),
    {
        self.decoder.push_unit(left, right);
        proof {
            let d0 = old(self).decoder();
            let d1 = self.decoder;
            let k = d0.pending_left().len() as int;
            assert(d1.pending_left() =~= d1.pending_left().take(k) + d1.pending_left().skip(k));
            assert(d1.pending_right() =~= d1.pending_right().take(k) + d1.pending_right().skip(k));
        }
    }

    /// Tells the decoder that the codec has no more units.
    pub fn end_of_stream(&mut self)
        requires
            old(self).wf(),
        ensures
            final(self).wf(),
            final(self).left() == old(self).left(),
            final(self).right() == old(self).right(),
            final(self).state() == old(self).state(),
            final(self).capacity() == old(self).capacity(),
            final(self).decoder().end() == (if old(self).decoder().end().is_none() {
                Some(DecodeError::EndOfStream)
            } else {
                old(self).decoder().end()
            }),
            final(self).decoder().pending_left() == old(self).decoder().pending_left(),
            final(self).decoder().decoded_left() == old(self).decoder().decoded_left(),
            final(self).decoder().decoded_right() == old(self).decoder().decoded_right(),
            final(self).decoder().emitted_left() == old(self).decoder().emitted_left(),
            final(self).decoder().emitted_right() == old(self).decoder().emitted_right(),
    {
        self.decoder.end_of_stream();
    }

    /// Tells the decoder that the codec reported a malformed unit.
    pub fn fault(&mut self)
        requires
            old(self).wf(),
        ensures
            final(self).wf(),
            final(self).left() == old(self).left(),
            final(self).right() == old(self).right(),
            final(self).state() == old(self).state(),
            final(self).capacity() == old(self).capacity(),
            final(self).decoder().end() == Some(DecodeError::DecodeFault),
            final(self).decoder().pending_left() == old(self).decoder().pending_left(),
            final(self).decoder().decoded_left() == old(self).decoder().decoded_left(),
            final(self).decoder().decoded_right() == old(self).decoder().decoded_right(),
            final(self).decoder().emitted_left() == old(self).decoder().emitted_left(),
            final(self).decoder().emitted_right() == old(self).decoder().emitted_right(),
    {
        self.decoder.fault();
    }

    /// Hands both channels' current slots to the engine.
    fn queue(&mut self)
        requires
            old(self).well_shaped(),
            old(self).left().current().status != Status::Queued,
            old(self).right().current().status != Status::Queued,
        ensures
            final(self).well_shaped(),
            final(self).left() == old(self).left().with_current(
                WaveView { status: Status::Queued, ..old(self).left().current() }),
            final(self).right() == old(self).right().with_current(
                WaveView { status: Status::Queued, ..old(self).right().current() }),
            final(self).decoder() == old(self).decoder(),
            final(self).state() == old(self).state(),
            final(self).capacity() == old(self).capacity(),
    {
        self.wave_left.queue();
        self.wave_right.queue();
    }

    /// One tick of the session.
    ///
    /// `left` and `right` are the statuses the engine reports for each
    /// channel's current slot. When both current slots are free, both slots of
    /// both channels are queued at once. When both have drained and the
    /// stream goes on, a refill is asked for. Only when every channel is ready
    /// does anything but the reports change.
    pub fn play(&mut self, left: Status, right: Status) -> (r: Tick)
        requires
            old(self).wf(),
        ensures
            final(self).wf(),
            final(self).decoder() == old(self).decoder(),
            final(self).state() == old(self).state(),
            final(self).capacity() == old(self).capacity(),
            r == tick_of(old(self).state(), reported(old(self).left(), left), reported(old(self).right(), right)),
            r is Prime ==> final(self).left() == primed(reported(old(self).left(), left))
                && final(self).right() == primed(reported(old(self).right(), right)),
            !(r is Prime) ==> final(self).left() == reported(old(self).left(), left)
                && final(self).right() == reported(old(self).right(), right),
    {
        self.wave_left.report(left);
        self.wave_right.report(right);
        if self.state == SessionState::Faulted {
            return Tick::Fault;
        }
        if self.wave_left.is_free() && self.wave_right.is_free() {
            let first = self.wave_left.is_second();
            self.queue();
            self.altern();
            self.queue();
            self.altern();
            proof {
                assert(self.wave_left@ =~= primed(reported(old(self).left(), left)));
                assert(self.wave_right@ =~= primed(reported(old(self).right(), right)));
            }
            Tick::Prime(first)
        } else if self.wave_left.should_altern() && self.wave_right.should_altern() && self.state
            == SessionState::Playing {
            Tick::Refill
        } else {
            Tick::Idle
        }
    }

    /// Completes a refill that a tick asked for, with the outcome of decoding
    /// the next chunk: the chunk is written into both current slots, which are
    /// queued, and both channels flip; the slot selection that was queued is
    /// returned. At the end of the stream the session drains; on any other
    /// failure it faults. A failure changes no buffer.
    pub fn refill(&mut self, chunk: Result<(Vec<u8>, Vec<u8>), DecodeError>) -> (r: Result<bool, DecodeError>)
        requires
            old(self).wf(),
            old(self).left().current().status == Status::Done,
            old(self).right().current().status == Status::Done,
            chunk matches Ok((l, rt)) ==> l@.len() <= old(self).capacity() && rt@.len() <= old(self).capacity(),
        ensures
            final(self).wf(),
            final(self).decoder() == old(self).decoder(),
            final(self).capacity() == old(self).capacity(),
            chunk matches Ok((l, rt)) ==> {
                &&& r == Ok::<bool, DecodeError>(old(self).left().second)
                &&& final(self).left() == refilled(old(self).left(), l@)
                &&& final(self).right() == refilled(old(self).right(), rt@)
                &&& final(self).state() == old(self).state()
            },
            chunk matches Err(e) ==> {
                &&& r == Err::<bool, DecodeError>(e)
                &&& final(self).left() == old(self).left()
                &&& final(self).right() == old(self).right()
                &&& final(self).state() == (if e == DecodeError::EndOfStream {
                    SessionState::Draining
                } else {
                    SessionState::Faulted
                })
            },
    {
        let queued = self.wave_left.is_second();
        match self.decode_within(chunk) {
            Ok(()) => {
                self.queue();
                self.altern();
                proof {
                    assert(self.wave_left@ =~= refilled(old(self).left(), chunk->Ok_0.0@));
                    assert(self.wave_right@ =~= refilled(old(self).right(), chunk->Ok_0.1@));
                }
                Ok(queued)
            },
            Err(e) => {
                if e == DecodeError::EndOfStream {
                    self.state = SessionState::Draining;
                } else {
                    self.state = SessionState::Faulted;
                }
                Err(e)
            },
        }
    }
}

/// Alternating twice selects the slot that was current at first, and leaves
/// the pair as it was.
pub proof fn lemma_altern_round_trip(b: DoubleBuffer)
    ensures
        b@.flipped().flipped() == b@,
        b@.flipped().flipped().current() == b@.current(),
        b@.flipped().current() == b@.other(),
{
}

/// Along any run of allowed status changes, a slot that has been queued is
/// never free again; so no slot goes from queued to free without being
/// drained first.
pub proof fn lemma_queued_never_free(trace: Seq<Status>, i: int, j: int)
    requires
        forall|k: int| 0 <= k < trace.len() - 1 ==> #[trigger] status_step(trace[k], trace[k + 1]),
        0 <= i <= j < trace.len(),
        trace[i] == Status::Queued,
    ensures
        trace[j] != Status::Free,
        forall|k: int| i <= k <= j ==> #[trigger] trace[k] != Status::Free,
    decreases j - i,
{
    if i < j {
        lemma_queued_never_free(trace, i, j - 1);
        let k = j - 1;
        assert(status_step(trace[k], trace[k + 1]));
    }
}

/// Every change that a session makes to a slot's status is an allowed one:
/// an engine report, the priming of a free pair, and the refill of a drained
/// slot.
pub proof fn lemma_session_steps(b: DoubleBufferView, reported_status: Status, src: Seq<u8>)
    ensures
        status_step(b.first_slot.status, reported(b, reported_status).first_slot.status),
        status_step(b.second_slot.status, reported(b, reported_status).second_slot.status),
        b.current().status == Status::Free && b.free_together() ==> status_step(b.first_slot.status,
            primed(b).first_slot.status) && status_step(b.second_slot.status, primed(b).second_slot.status),
        b.current().status == Status::Done ==> status_step(b.first_slot.status, refilled(b, src).first_slot.status)
            && status_step(b.second_slot.status, refilled(b, src).second_slot.status),
{
}

/// A refill is asked for only when both channels' current slots have drained;
/// when the engine has drained one channel's slot and not the other's, the
/// tick leaves every byte of every slot as it was.
pub proof fn lemma_lockstep(m: Music, left: Status, right: Status)
    requires
        m.wf(),
    ensures
        ({
            let l = reported(m.left(), left);
            let r = reported(m.right(), right);
            let t = tick_of(m.state(), l, r);
            &&& (t == Tick::Refill ==> l.current().status == Status::Done && r.current().status == Status::Done)
            &&& ((l.current().status == Status::Done) != (r.current().status == Status::Done) ==> !(t is Prime)
                && !(t is Refill))
            &&& l.first_slot.data == m.left().first_slot.data
            &&& l.second_slot.data == m.left().second_slot.data
            &&& r.first_slot.data == m.right().first_slot.data
            &&& r.second_slot.data == m.right().second_slot.data
        }),
{
}

} // verus!
