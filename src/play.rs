//! Audio playback handler: holds at most one music track and drives its ticks.
use vstd::prelude::*;

use crate::audio::{primed, refilled, reported, tick_of, Music, SessionState, Status, Tick};
use crate::pcm::is_sample_rendering;
use crate::decode::{DecodeError, Progress};

verus! {

/// Holds one music track at a time; loading another replaces it.
pub struct Player {
    music: Option<Music>,
}

impl Player {
    pub closed spec fn music(&self) -> Option<Music> {
        self.music
    }

    pub open spec fn wf(&self) -> bool {
        self.music() matches Some(m) ==> m.wf()
    }

    /// A player with no track loaded.
    pub fn new() -> (r: Player)
        ensures
            r.music().is_none(),
            r.wf(),
    {
        Player { music: None }
    }

    /// Loads a music track for playback, discarding the one before.
    pub fn load_music(&mut self, music: Music)
        requires
            music.wf(),
        ensures
            final(self).music() == Some(music),
            final(self).wf(),
    {
        self.music = Some(music);
    }

    /// The loaded track, to read its buffers.
    pub fn track(&self) -> (r: Option<&Music>)
        ensures
            r.is_some() == self.music().is_some(),
            r matches Some(m) ==> *m == self.music()->Some_0,
    {
        match &self.music {
            Some(m) => Some(m),
            None => None,
        }
    }

    pub fn is_loaded(&self) -> (r: bool)
        ensures
            r == self.music().is_some(),
    {
        self.music.is_some()
    }

    /// Audio frame handler: one tick of the loaded track, given the statuses
    /// the engine reports for the current slot of the left and the right
    /// channel. Without a track nothing happens.
    pub fn play(&mut self, left: Status, right: Status) -> (r: Tick)
        requires
            old(self).wf(),
        ensures
            final(self).wf(),
            final(self).music().is_some() == old(self).music().is_some(),
            old(self).music().is_none() ==> r == Tick::Idle,
            old(self).music() matches Some(m) ==> {
                let n = final(self).music()->Some_0;
                &&& r == tick_of(m.state(), reported(m.left(), left), reported(m.right(), right))
                &&& n.decoder() == m.decoder()
                &&& n.state() == m.state()
                &&& n.capacity() == m.capacity()
                &&& n.left() == (if r is Prime {
                    primed(reported(m.left(), left))
                } else {
                    reported(m.left(), left)
                })
                &&& n.right() == (if r is Prime {
                    primed(reported(m.right(), right))
                } else {
                    reported(m.right(), right)
                })
            },
    {
        match self.music.take() {
            Some(mut m) => {
                let r = m.play(left, right);
                self.music = Some(m);
                r
            },
            None => Tick::Idle,
        }
    }

    /// Asks the loaded track's decoder for the next chunk; without a track the
    /// stream counts as ended.
    pub fn decode_step(&mut self) -> (r: Progress)
        requires
            old(self).wf(),
        ensures
            final(self).wf(),
            final(self).music().is_some() == old(self).music().is_some(),
            old(self).music().is_none() ==> r == Progress::Ended(DecodeError::EndOfStream),
            old(self).music() matches Some(m) ==> {
                let n = final(self).music()->Some_0;
                let d0 = m.decoder();
                let d1 = n.decoder();
                &&& n.left() == m.left()
                &&& n.right() == m.right()
                &&& n.state() == m.state()
                &&& n.capacity() == m.capacity()
                &&& d1.end() == d0.end()
                &&& d1.decoded_left() == d0.decoded_left()
                &&& d1.decoded_right() == d0.decoded_right()
                &&& (d0.outcome(m.capacity()) matches Some(e) ==> r == Progress::Ended(e))
                &&& (r is NeedUnit <==> (d0.outcome(m.capacity()) is None && d0.end().is_none()
                    && d0.pending_left().len() < m.capacity()))
                &&& (!(r is Chunk) ==> n == m)
                &&& (r is Chunk <==> (d0.outcome(m.capacity()) is None && (d0.end().is_some()
                    || d0.pending_left().len() >= m.capacity())))
                &&& (r matches Progress::Chunk(l, rt) ==> {
                    &&& l@.len() == (if d0.pending_left().len() >= m.capacity() {
                        m.capacity() as int
                    } else {
                        d0.pending_left().len() as int
                    })
                    &&& 0 < l@.len() <= m.capacity()
                    &&& l@.len() == rt@.len()
                    &&& (l@.len() < m.capacity() ==> d0.end() == Some(DecodeError::EndOfStream))
                    &&& d0.pending_left() == l@ + d1.pending_left()
                    &&& d0.pending_right() == rt@ + d1.pending_right()
                    &&& d1.emitted_left() == d0.emitted_left() + l@
                    &&& d1.emitted_right() == d0.emitted_right() + rt@
                })
            },
    {
        match self.music.take() {
            Some(mut m) => {
                let r = m.decode_step();
                self.music = Some(m);
                r
            },
            None => Progress::Ended(DecodeError::EndOfStream),
        }
    }

    /// Hands the loaded track's decoder its next decoded unit. Without a
    /// track, or once its stream has ended, or when the unit's channels differ
    /// in length or the leftover would outgrow memory, the unit is refused.
    pub fn push_unit(&mut self, left: &Vec<i16>, right: &Vec<i16>) -> (r: bool)
        requires
            old(self).wf(),
        ensures
            final(self).wf(),
            final(self).music().is_some() == old(self).music().is_some(),
            r == (old(self).music() matches Some(m) && m.decoder().end().is_none() && left@.len() == right@.len()
                && m.decoder().pending_left().len() + 2 * left@.len() <= usize::MAX),
            !r ==> final(self).music() == old(self).music(),
            r ==> {
                let m = old(self).music()->Some_0;
                let n = final(self).music()->Some_0;
                let d0 = m.decoder();
                let d1 = n.decoder();
                let added_left = d1.pending_left().skip(d0.pending_left().len() as int);
                let added_right = d1.pending_right().skip(d0.pending_right().len() as int);
                &&& n.left() == m.left()
                &&& n.right() == m.right()
                &&& n.state() == m.state()
                &&& n.capacity() == m.capacity()
                &&& d1.end().is_none()
                &&& d1.emitted_left() == d0.emitted_left()
                &&& d1.emitted_right() == d0.emitted_right()
                &&& d1.pending_left() == d0.pending_left() + added_left
                &&& d1.pending_right() == d0.pending_right() + added_right
                &&& is_sample_rendering(left@, added_left)
                &&& is_sample_rendering(right@, added_right)
                &&& d1.decoded_left() == d0.decoded_left() + added_left
                &&& d1.decoded_right() == d0.decoded_right() + added_right
            },
    {
        match self.music.take() {
            Some(mut m) => {
                let ok = m.push_checked(left, right);
                self.music = Some(m);
                ok
            },
            None => false,
        }
    }

    /// Tells the loaded track's decoder that the codec has no more units.
    pub fn end_of_stream(&mut self)
        requires
            old(self).wf(),
        ensures
            final(self).wf(),
            final(self).music().is_some() == old(self).music().is_some(),
            old(self).music() matches Some(m) ==> {
                let n = final(self).music()->Some_0;
                &&& n.left() == m.left()
                &&& n.right() == m.right()
                &&& n.state() == m.state()
                &&& n.capacity() == m.capacity()
                &&& n.decoder().end() == (if m.decoder().end().is_none() {
                    Some(DecodeError::EndOfStream)
                } else {
                    m.decoder().end()
                })
                &&& n.decoder().pending_left() == m.decoder().pending_left()
                &&& n.decoder().decoded_left() == m.decoder().decoded_left()
                &&& n.decoder().decoded_right() == m.decoder().decoded_right()
                &&& n.decoder().emitted_left() == m.decoder().emitted_left()
                &&& n.decoder().emitted_right() == m.decoder().emitted_right()
            },
    {
        match self.music.take() {
            Some(mut m) => {
                m.end_of_stream();
                self.music = Some(m);
            },
            None => {},
        }
    }

    /// Tells the loaded track's decoder that the codec reported a malformed
    /// unit.
    pub fn fault(&mut self)
        requires
            old(self).wf(),
        ensures
            final(self).wf(),
            final(self).music().is_some() == old(self).music().is_some(),
            old(self).music() matches Some(m) ==> {
                let n = final(self).music()->Some_0;
                &&& n.left() == m.left()
                &&& n.right() == m.right()
                &&& n.state() == m.state()
                &&& n.capacity() == m.capacity()
                &&& n.decoder().end() == Some(DecodeError::DecodeFault)
                &&& n.decoder().pending_left() == m.decoder().pending_left()
                &&& n.decoder().decoded_left() == m.decoder().decoded_left()
                &&& n.decoder().decoded_right() == m.decoder().decoded_right()
                &&& n.decoder().emitted_left() == m.decoder().emitted_left()
                &&& n.decoder().emitted_right() == m.decoder().emitted_right()
            },
    {
        match self.music.take() {
            Some(mut m) => {
                m.fault();
                self.music = Some(m);
            },
            None => {},
        }
    }

    /// Completes a refill of the loaded track with the outcome of decoding its
    /// next chunk. It is refused (`None`), changing nothing, when no track is
    /// loaded, when the track's current slots have not both drained, or when a
    /// chunk outgrows the buffers.
    pub fn refill(&mut self, chunk: Result<(Vec<u8>, Vec<u8>), DecodeError>) -> (r: Option<Result<bool, DecodeError>>)
        requires
            old(self).wf(),
        ensures
            final(self).wf(),
            final(self).music().is_some() == old(self).music().is_some(),
            old(self).music().is_none() ==> r.is_none(),
            old(self).music() matches Some(m) ==> ({
                let ready = m.left().current().status == Status::Done && m.right().current().status
                    == Status::Done && (chunk matches Ok((l, rt)) ==> l@.len() <= m.capacity() && rt@.len()
                    <= m.capacity());
                &&& !ready ==> r.is_none() && final(self).music() == old(self).music()
                &&& ready && chunk is Ok ==> {
                    let n = final(self).music()->Some_0;
                    &&& r == Some(Ok::<bool, DecodeError>(m.left().second))
                    &&& n.left() == refilled(m.left(), chunk->Ok_0.0@)
                    &&& n.right() == refilled(m.right(), chunk->Ok_0.1@)
                    &&& n.state() == m.state()
                    &&& n.decoder() == m.decoder()
                }
                &&& ready && chunk is Err ==> {
                    let n = final(self).music()->Some_0;
                    let e = chunk->Err_0;
                    &&& r == Some(Err::<bool, DecodeError>(e))
                    &&& n.left() == m.left()
                    &&& n.right() == m.right()
                    &&& n.decoder() == m.decoder()
                    &&& n.state() == (if e == DecodeError::EndOfStream {
                        SessionState::Draining
                    } else {
                        SessionState::Faulted
                    })
                }
            }),
    {
        match self.music.take() {
            Some(mut m) => {
                let fits = match &chunk {
                    Ok((l, rt)) => l.len() <= m.buffer_len() && rt.len() <= m.buffer_len(),
                    Err(_) => true,
                };
                let ready = m.buffer(crate::audio::ChannelID::FrontLeft).should_altern() && m.buffer(
                    crate::audio::ChannelID::FrontRight,
                ).should_altern() && fits;
                let r = if ready {
                    Some(m.refill(chunk))
                } else {
                    None
                };
                self.music = Some(m);
                r
            },
            None => None,
        }
    }
}

} // verus!
