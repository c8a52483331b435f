//! Accumulation of decoded units into exact-length byte runs per channel.
//!
//! The codec itself lives outside the library: whoever drives a [`Decoder`]
//! asks it for a run with [`Decoder::decode_until`], and each time it answers
//! [`Progress::NeedUnit`] feeds it the next decoded unit ([`Decoder::push_unit`])
//! or reports how the stream stopped ([`Decoder::end_of_stream`],
//! [`Decoder::fault`]).
use vstd::prelude::*;

use crate::pcm::{is_sample_rendering, samples_to_bytes};

verus! {

#[derive(Debug, Clone, Copy, PartialEq, Eq, Structural)]
pub enum DecodeError {
    /// No more data: the stream has ended.
    EndOfStream,
    /// The codec reported a structurally invalid unit; fatal, never retried.
    DecodeFault,
    /// The source is neither mono nor stereo.
    ChannelLayoutMismatch,
    /// The container format could not be recognised.
    UnsupportedFormat,
    /// No track carries a codec that can be decoded.
    UnsupportedCodec,
}

/// What a call of [`Decoder::decode_until`] came to.
pub enum Progress {
    /// A run for each channel (left, right).
    Chunk(Vec<u8>, Vec<u8>),
    /// Not enough data yet: the next decoded unit is needed.
    NeedUnit,
    /// Nothing more will come.
    Ended(DecodeError),
}

/// Carries decoded-but-unreturned bytes of each channel between calls.
pub struct Decoder {
    channels: usize,
    /// Leftover run of the left channel, in decode order.
    left: Vec<u8>,
    /// Leftover run of the right channel, in decode order.
    right: Vec<u8>,
    /// How the stream stopped, once it has.
    end: Option<DecodeError>,
    /// Every byte ever decoded, per channel.
    decoded_left: Ghost<Seq<u8>>,
    decoded_right: Ghost<Seq<u8>>,
    /// Every byte ever handed out, per channel.
    emitted_left: Ghost<Seq<u8>>,
    emitted_right: Ghost<Seq<u8>>,
}

impl Decoder {
    pub closed spec fn channel_count(&self) -> nat {
        self.channels as nat
    }

    /// Leftover bytes of the left channel.
    pub closed spec fn pending_left(&self) -> Seq<u8> {
        self.left@
    }

    /// Leftover bytes of the right channel.
    pub closed spec fn pending_right(&self) -> Seq<u8> {
        self.right@
    }

    pub closed spec fn end(&self) -> Option<DecodeError> {
        self.end
    }

    pub closed spec fn decoded_left(&self) -> Seq<u8> {
        self.decoded_left@
    }

    pub closed spec fn decoded_right(&self) -> Seq<u8> {
        self.decoded_right@
    }

    pub closed spec fn emitted_left(&self) -> Seq<u8> {
        self.emitted_left@
    }

    pub closed spec fn emitted_right(&self) -> Seq<u8> {
        self.emitted_right@
    }

    /// The channels stay aligned, and what was decoded is exactly what was
    /// handed out followed by what is left over.
    pub open spec fn wf(&self) -> bool {
        &&& 1 <= self.channel_count() <= 2
        &&& (self.end() matches Some(e) ==> e == DecodeError::EndOfStream || e == DecodeError::DecodeFault)
        &&& self.pending_left().len() == self.pending_right().len()
        &&& self.decoded_left() == self.emitted_left() + self.pending_left()
        &&& self.decoded_right() == self.emitted_right() + self.pending_right()
    }

    /// What [`Decoder::decode_until`] answers on this state, leaving the runs
    /// it hands out aside.
    pub open spec fn outcome(&self, max_len: nat) -> Option<DecodeError> {
        if self.end() == Some(DecodeError::DecodeFault) {
            Some(DecodeError::DecodeFault)
        } else if self.pending_left().len() >= max_len {
            None
        } else if self.end().is_none() {
            None
        } else if self.pending_left().len() > 0 {
            None
        } else {
            Some(DecodeError::EndOfStream)
        }
    }

    /// Starts a session for a source with `channels` channels: mono and stereo
    /// are accepted, anything else is a layout mismatch.
    pub fn new(channels: usize) -> (r: Result<Decoder, DecodeError>)
        ensures
            (channels == 1 || channels == 2) <==> r is Ok,
            r is Err ==> r == Err::<Decoder, DecodeError>(DecodeError::ChannelLayoutMismatch),
            r matches Ok(d) ==> {
                &&& d.wf()
                &&& d.channel_count() == channels
                &&& d.pending_left().len() == 0
                &&& d.decoded_left().len() == 0
                &&& d.decoded_right().len() == 0
                &&& d.end().is_none()
            },
    {
        if channels == 1 || channels == 2 {
            Ok(Decoder {
                channels,
                left: Vec::new(),
                right: Vec::new(),
                end: None,
                decoded_left: Ghost(Seq::empty()),
                decoded_right: Ghost(Seq::empty()),
                emitted_left: Ghost(Seq::empty()),
                emitted_right: Ghost(Seq::empty()),
            })
        } else {
            Err(DecodeError::ChannelLayoutMismatch)
        }
    }

    /// Number of leftover bytes per channel.
    pub fn pending_len(&self) -> (r: usize)
        ensures
            r == self.pending_left().len(),
    {
        self.left.len()
    }

    /// Whether the stream has stopped, by its end or by a fault.
    pub fn has_ended(&self) -> (r: bool)
        ensures
            r == self.end().is_some(),
    {
        self.end.is_some()
    }

    /// Takes the first `len` leftover bytes of each channel out.
    fn take_front(&mut self, len: usize) -> (r: (Vec<u8>, Vec<u8>))
        requires
            old(self).wf(),
            len <= old(self).pending_left().len(),
        ensures
            final(self).wf(),
            r.0@ == old(self).pending_left().take(len as int),
            r.1@ == old(self).pending_right().take(len as int),
            final(self).pending_left() == old(self).pending_left().skip(len as int),
            final(self).pending_right() == old(self).pending_right().skip(len as int),
            final(self).emitted_left() == old(self).emitted_left() + r.0@,
            final(self).emitted_right() == old(self).emitted_right() + r.1@,
            final(self).decoded_left() == old(self).decoded_left(),
            final(self).decoded_right() == old(self).decoded_right(),
            final(self).end() == old(self).end(),
            final(self).channel_count() == old(self).channel_count(),
    {
        let ghost old_left = self.left@;
        let ghost old_right = self.right@;
        let mut out_left = self.left.split_off(len);
        let mut out_right = self.right.split_off(len);
        std::mem::swap(&mut self.left, &mut out_left);
        std::mem::swap(&mut self.right, &mut out_right);
        proof {
            assert(old_left =~= out_left@ + self.left@);
            assert(old_right =~= out_right@ + self.right@);
            self.emitted_left@ = self.emitted_left@ + out_left@;
            self.emitted_right@ = self.emitted_right@ + out_right@;
            assert(self.decoded_left@ =~= self.emitted_left@ + self.left@);
            assert(self.decoded_right@ =~= self.emitted_right@ + self.right@);
        }
        (out_left, out_right)
    }

    /// Asks for a run of exactly `max_len` bytes per channel.
    ///
    /// A run is handed out once enough has accumulated; the excess stays as
    /// leftover, in order. Short of that, the next unit is asked for while the
    /// stream goes on. Once it has ended, whatever is left is handed out as a
    /// final, shorter run, and with nothing left the answer is `EndOfStream`.
    /// After a fault the answer is always `DecodeFault`.
    pub fn decode_until(&mut self, max_len: usize) -> (r: Progress)
        requires
            old(self).wf(),
            max_len > 0,
        ensures
            final(self).wf(),
            final(self).end() == old(self).end(),
            final(self).channel_count() == old(self).channel_count(),
            final(self).decoded_left() == old(self).decoded_left(),
            final(self).decoded_right() == old(self).decoded_right(),
            old(self).outcome(max_len as nat) matches Some(e) ==> r == Progress::Ended(e),
            r is NeedUnit <==> (old(self).outcome(max_len as nat) is None && old(self).end().is_none()
                && old(self).pending_left().len() < max_len),
            r is Chunk <==> (old(self).outcome(max_len as nat) is None && (old(self).end().is_some()
                || old(self).pending_left().len() >= max_len)),
            !(r is Chunk) ==> *final(self) == *old(self),
            r matches Progress::Chunk(left, right) ==> {
                let n = if old(self).pending_left().len() >= max_len {
                    max_len as int
                } else {
                    old(self).pending_left().len() as int
                };
                &&& 0 < left@.len() <= max_len
                &&& left@.len() == n
                &&& right@.len() == n
                &&& (left@.len() < max_len ==> old(self).end() == Some(DecodeError::EndOfStream))
                &&& left@ == old(self).pending_left().take(n)
                &&& right@ == old(self).pending_right().take(n)
                &&& final(self).pending_left() == old(self).pending_left().skip(n)
                &&& final(self).pending_right() == old(self).pending_right().skip(n)
                &&& final(self).emitted_left() == old(self).emitted_left() + left@
                &&& final(self).emitted_right() == old(self).emitted_right() + right@
            },
    {
        if self.end == Some(DecodeError::DecodeFault) {
            return Progress::Ended(DecodeError::DecodeFault);
        }
        let have = self.left.len();
        if have >= max_len {
            let (l, r) = self.take_front(max_len);
            Progress::Chunk(l, r)
        } else if self.end.is_none() {
            Progress::NeedUnit
        } else if have > 0 {
            let (l, r) = self.take_front(have);
            Progress::Chunk(l, r)
        } else {
            Progress::Ended(DecodeError::EndOfStream)
        }
    }

    /// Appends one decoded unit, given as the 16-bit samples of the left and
    /// right channel, to the leftover runs.
    pub fn push_unit(&mut self, left: &Vec<i16>, right: &Vec<i16>)
        requires
            old(self).wf(),
            old(self).end().is_none(),
            left@.len() == right@.len(),
            old(self).pending_left().len() + 2 * left@.len() <= usize::MAX,
        ensures
            final(self).wf(),
            final(self).end() == old(self).end(),
            final(self).channel_count() == old(self).channel_count(),
            final(self).emitted_left() == old(self).emitted_left(),
            final(self).emitted_right() == old(self).emitted_right(),
            final(self).pending_left().len() == old(self).pending_left().len() + 2 * left@.len(),
            final(self).pending_left().take(old(self).pending_left().len() as int) == old(self).pending_left(),
            final(self).pending_right().take(old(self).pending_right().len() as int) == old(self).pending_right(),
            is_sample_rendering(left@, final(self).pending_left().skip(old(self).pending_left().len() as int)),
            is_sample_rendering(right@, final(self).pending_right().skip(old(self).pending_right().len() as int)),
            final(self).decoded_left() == old(self).decoded_left()
                + final(self).pending_left().skip(old(self).pending_left().len() as int),
            final(self).decoded_right() == old(self).decoded_right()
                + final(self).pending_right().skip(old(self).pending_right().len() as int),
    {
        let mut bytes_left = samples_to_bytes(left);
        let mut bytes_right = samples_to_bytes(right);
        let ghost unit_left = bytes_left@;
        let ghost unit_right = bytes_right@;
        let ghost old_left = self.left@;
        let ghost old_right = self.right@;
        self.left.append(&mut bytes_left);
        self.right.append(&mut bytes_right);
        proof {
            self.decoded_left@ = self.decoded_left@ + unit_left;
            self.decoded_right@ = self.decoded_right@ + unit_right;
            assert(self.left@.take(old_left.len() as int) =~= old_left);
            assert(self.right@.take(old_right.len() as int) =~= old_right);
            assert(self.left@.skip(old_left.len() as int) =~= unit_left);
            assert(self.right@.skip(old_right.len() as int) =~= unit_right);
            assert(self.decoded_left@ =~= self.emitted_left@ + self.left@);
            assert(self.decoded_right@ =~= self.emitted_right@ + self.right@);
        }
    }

    /// Records that the codec has no more units. What is left over can still
    /// be handed out.
    pub fn end_of_stream(&mut self)
        requires
            old(self).wf(),
        ensures
            final(self).wf(),
            final(self).end() == (if old(self).end().is_none() {
                Some(DecodeError::EndOfStream)
            } else {
                old(self).end()
            }),
            final(self).pending_left() == old(self).pending_left(),
            final(self).pending_right() == old(self).pending_right(),
            final(self).decoded_left() == old(self).decoded_left(),
            final(self).decoded_right() == old(self).decoded_right(),
            final(self).emitted_left() == old(self).emitted_left(),
            final(self).emitted_right() == old(self).emitted_right(),
            final(self).channel_count() == old(self).channel_count(),
    {
        if self.end.is_none() {
            self.end = Some(DecodeError::EndOfStream);
        }
    }

    /// Records that the codec reported a malformed unit: the session is over.
    pub fn fault(&mut self)
        requires
            old(self).wf(),
        ensures
            final(self).wf(),
            final(self).end() == Some(DecodeError::DecodeFault),
            final(self).pending_left() == old(self).pending_left(),
            final(self).pending_right() == old(self).pending_right(),
            final(self).decoded_left() == old(self).decoded_left(),
            final(self).decoded_right() == old(self).decoded_right(),
            final(self).emitted_left() == old(self).emitted_left(),
            final(self).emitted_right() == old(self).emitted_right(),
            final(self).channel_count() == old(self).channel_count(),
    {
        self.end = Some(DecodeError::DecodeFault);
    }
}

/// Nothing is lost, reordered or repeated: once the decoder answers that the
/// stream has ended, the runs it handed out, joined in order, are exactly the
/// bytes decoded from the source, for each channel.
pub proof fn lemma_no_loss(d: Decoder, max_len: nat)
    requires
        d.wf(),
        d.outcome(max_len) == Some(DecodeError::EndOfStream),
    ensures
        d.emitted_left() == d.decoded_left(),
        d.emitted_right() == d.decoded_right(),
{
    assert(d.pending_left().len() == 0);
    assert(d.emitted_left() + d.pending_left() =~= d.emitted_left());
    assert(d.emitted_right() + d.pending_right() =~= d.emitted_right());
}

} // verus!
