//! The audio streams of a display, by id: playback streams and capture streams, each
//! backed by a pipeline, and the samples captured that wait to be read.

use vstd::prelude::*;

use std::collections::HashMap;

use crate::text::push_decimal;

verus! {

broadcast use vstd::std_specs::hash::group_hash_axioms;

/// An error of the audio streams.
#[derive(Clone, Debug)]
pub enum AudioError {
    /// A stream of that id is set up already.
    AlreadySetup(u64),
    /// No stream of that id is set up.
    NotFound(u64),
    /// The pipeline failed, with this message.
    Failed(String),
}

/// The message of an audio error.
pub open spec fn audio_error_message(e: AudioError) -> Seq<char> {
    match e {
        AudioError::AlreadySetup(id) => "id "@ + crate::text::decimal(id as nat) + " is already setup"@,
        AudioError::NotFound(id) => "Stream not found: "@ + crate::text::decimal(id as nat),
        AudioError::Failed(m) => m@,
    }
}

impl AudioError {
    /// The message of the error.
    pub fn message(&self) -> (r: String)
        ensures
            r@ == audio_error_message(*self),
    {
        match self {
            AudioError::AlreadySetup(id) => {
                let mut s = String::from_str("id ");
                push_decimal(&mut s, *id);
                s.append(" is already setup");
                s
            },
            AudioError::NotFound(id) => {
                let mut s = String::from_str("Stream not found: ");
                push_decimal(&mut s, *id);
                s
            },
            AudioError::Failed(m) => String::from_str(m.as_str()),
        }
    }
}

/// The state a pipeline is set to: playing when enabled, ready otherwise.
#[derive(Debug, PartialEq, Eq, Clone, Copy, Structural)]
pub enum PipelineState {
    Playing,
    Ready,
}

/// The state a stream's pipeline is set to when it is enabled or disabled.
pub fn pipeline_state(enabled: bool) -> (r: PipelineState)
    ensures
        r == (if enabled {
            PipelineState::Playing
        } else {
            PipelineState::Ready
        }),
{
    if enabled {
        PipelineState::Playing
    } else {
        PipelineState::Ready
    }
}

/// The captured bytes that wait to be read, oldest first.
#[derive(Clone, Debug)]
pub struct SampleQueue {
    pub queue: Vec<u8>,
}

impl SampleQueue {
    /// Nothing captured.
    pub fn new() -> (r: SampleQueue)
        ensures
            r.queue@.len() == 0,
    {
        SampleQueue { queue: Vec::new() }
    }

    /// Whether fewer than `size` bytes wait, so that a read of `size` bytes must wait
    /// for more samples.
    pub fn needs_more(&self, size: u64) -> (r: bool)
        ensures
            r == (self.queue@.len() < size),
    {
        (self.queue.len() as u64) < size
    }

    /// A captured sample's bytes join the queue.
    pub fn push_sample(&mut self, data: &[u8])
        ensures
            final(self).queue@ == old(self).queue@ + data@,
    {
        let mut i: usize = 0;
        let ghost start = self.queue@;
        while i < data.len()
            invariant
                i <= data@.len(),
                self.queue@ == start + data@.subrange(0, i as int),
            decreases data@.len() - i,
        {
            self.queue.push(data[i]);
            proof {
                assert(self.queue@ =~= start + data@.subrange(0, i + 1));
            }
            i = i + 1;
        }
        proof {
            assert(data@.subrange(0, data@.len() as int) =~= data@);
        }
    }

    /// Reads the `size` oldest bytes; the others keep waiting.
    pub fn take(&mut self, size: u64) -> (r: Vec<u8>)
        requires
            size <= old(self).queue@.len(),
        ensures
            r@ == old(self).queue@.subrange(0, size as int),
            final(self).queue@ == old(self).queue@.subrange(size as int, old(self).queue@.len() as int),
            r@ + final(self).queue@ == old(self).queue@,
    {
        let len = self.queue.len();
        assert(size <= len);
        let mut taken = self.queue.split_off(size as usize);
        std::mem::swap(&mut self.queue, &mut taken);
        proof {
            assert(taken@ + self.queue@ =~= old(self).queue@);
        }
        taken
    }
}

/// A capture stream: its pipeline and the bytes captured.
pub struct AudioIn<I> {
    pub pipeline: I,
    pub samples: SampleQueue,
}

/// The audio streams, by id: `O` is a playback pipeline, `I` a capture pipeline.
pub struct GstAudio<O, I> {
    pub out: HashMap<u64, O>,
    pub in_: HashMap<u64, AudioIn<I>>,
}

impl<O, I> GstAudio<O, I> {
    /// No streams.
    pub fn new() -> (r: GstAudio<O, I>)
        ensures
            r.out@ == Map::<u64, O>::empty(),
            r.in_@ == Map::<u64, AudioIn<I>>::empty(),
    {
        GstAudio { out: HashMap::new(), in_: HashMap::new() }
    }

    /// Sets up the playback stream `id` with the pipeline `make` builds: refused when
    /// the id is set up already (nothing is built then); the pipeline's error when
    /// building fails.
    pub fn init_out<F: FnOnce() -> Result<O, String>>(&mut self, id: u64, make: F) -> (r: Result<(), AudioError>)
        requires
            make.requires(()),
        ensures
            final(self).in_@ == old(self).in_@,
            old(self).out@.contains_key(id) ==> (r matches Err(AudioError::AlreadySetup(i)) && i == id)
                && final(self).out@ == old(self).out@,
            !old(self).out@.contains_key(id) ==> exists|made: Result<O, String>|
                make.ensures((), made) && match made {
                    Ok(o) => r is Ok && final(self).out@ == old(self).out@.insert(id, o),
                    Err(e) => (r matches Err(AudioError::Failed(m)) && m@ == e@) && final(self).out@ == old(self).out@,
                },
    {
        if self.out.contains_key(&id) {
            return Err(AudioError::AlreadySetup(id));
        }
        let made = make();
        match made {
            Ok(o) => {
                self.out.insert(id, o);
                Ok(())
            },
            Err(e) => Err(AudioError::Failed(e)),
        }
    }

    /// Closes the playback stream `id`, if it is set up.
    pub fn fini_out(&mut self, id: u64)
        ensures
            final(self).out@ == old(self).out@.remove(id),
            final(self).in_@ == old(self).in_@,
    {
        self.out.remove(&id);
    }

    /// The pipeline of the playback stream `id`.
    pub fn get_out(&self, id: u64) -> (r: Result<&O, AudioError>)
        ensures
            self.out@.contains_key(id) ==> (r matches Ok(o) && *o == self.out@[id]),
            !self.out@.contains_key(id) ==> (r matches Err(AudioError::NotFound(i)) && i == id),
    {
        match self.out.get(&id) {
            Some(o) => Ok(o),
            None => Err(AudioError::NotFound(id)),
        }
    }

    /// The pipeline of playback stream `id` and the state to set it to, for enabling or
    /// disabling the stream.
    pub fn set_enabled_out(&self, id: u64, enabled: bool) -> (r: Result<(&O, PipelineState), AudioError>)
        ensures
            self.out@.contains_key(id) ==> (r matches Ok((o, st)) && *o == self.out@[id] && st == (if enabled {
                PipelineState::Playing
            } else {
                PipelineState::Ready
            })),
            !self.out@.contains_key(id) ==> (r matches Err(AudioError::NotFound(i)) && i == id),
    {
        let o = self.get_out(id)?;
        Ok((o, pipeline_state(enabled)))
    }

    /// The pipeline of capture stream `id` and the state to set it to, for enabling or
    /// disabling the stream.
    pub fn set_enabled_in(&self, id: u64, enabled: bool) -> (r: Result<(&I, PipelineState), AudioError>)
        ensures
            self.in_@.contains_key(id) ==> (r matches Ok((p, st)) && *p == self.in_@[id].pipeline && st == (if enabled {
                PipelineState::Playing
            } else {
                PipelineState::Ready
            })),
            !self.in_@.contains_key(id) ==> (r matches Err(AudioError::NotFound(i)) && i == id),
    {
        let s = self.get_in(id)?;
        Ok((&s.pipeline, pipeline_state(enabled)))
    }

    /// Sets up the capture stream `id` with the pipeline `make` builds, and no bytes
    /// captured: refused when the id is set up already (nothing is built then); the
    /// pipeline's error when building fails.
    pub fn init_in<F: FnOnce() -> Result<I, String>>(&mut self, id: u64, make: F) -> (r: Result<(), AudioError>)
        requires
            make.requires(()),
        ensures
            final(self).out@ == old(self).out@,
            old(self).in_@.contains_key(id) ==> (r matches Err(AudioError::AlreadySetup(i)) && i == id)
                && final(self).in_@ == old(self).in_@,
            !old(self).in_@.contains_key(id) ==> exists|made: Result<I, String>|
                make.ensures((), made) && match made {
                    Ok(p) => r is Ok && final(self).in_@.dom() == old(self).in_@.dom().insert(id) && final(self).in_@[id].pipeline == p && final(self).in_@[id].samples.queue@.len() == 0 && (forall|k: u64|
                        k != id && #[trigger] old(self).in_@.contains_key(k) ==> final(self).in_@[k] == old(self).in_@[k]),
                    Err(e) => (r matches Err(AudioError::Failed(m)) && m@ == e@) && final(self).in_@ == old(self).in_@,
                },
    {
        if self.in_.contains_key(&id) {
            return Err(AudioError::AlreadySetup(id));
        }
        let made = make();
        match made {
            Ok(p) => {
                self.in_.insert(id, AudioIn { pipeline: p, samples: SampleQueue::new() });
                Ok(())
            },
            Err(e) => Err(AudioError::Failed(e)),
        }
    }

    /// Closes the capture stream `id`, if it is set up; its bytes are dropped.
    pub fn fini_in(&mut self, id: u64)
        ensures
            final(self).in_@ == old(self).in_@.remove(id),
            final(self).out@ == old(self).out@,
    {
        self.in_.remove(&id);
    }

    /// The capture stream `id`.
    pub fn get_in(&self, id: u64) -> (r: Result<&AudioIn<I>, AudioError>)
        ensures
            self.in_@.contains_key(id) ==> (r matches Ok(s) && *s == self.in_@[id]),
            !self.in_@.contains_key(id) ==> (r matches Err(AudioError::NotFound(i)) && i == id),
    {
        match self.in_.get(&id) {
            Some(s) => Ok(s),
            None => Err(AudioError::NotFound(id)),
        }
    }

    /// A sample captured by stream `id` joins its bytes.
    pub fn push_in(&mut self, id: u64, data: &[u8]) -> (r: Result<(), AudioError>)
        ensures
            final(self).out@ == old(self).out@,
            final(self).in_@.dom() == old(self).in_@.dom(),
            !old(self).in_@.contains_key(id) ==> (r matches Err(AudioError::NotFound(i)) && i == id)
                && final(self).in_@ == old(self).in_@,
            old(self).in_@.contains_key(id) ==> r is Ok && final(self).in_@[id].samples.queue@ == old(self).in_@[id].samples.queue@ + data@ && final(self).in_@[id].pipeline == old(self).in_@[id].pipeline,
            forall|k: u64| k != id && #[trigger] old(self).in_@.contains_key(k) ==> final(self).in_@[k] == old(self).in_@[k],
    {
        match self.in_.remove(&id) {
            None => Err(AudioError::NotFound(id)),
            Some(mut s) => {
                s.samples.push_sample(data);
                self.in_.insert(id, s);
                proof {
                    assert(final(self).in_@.dom() =~= old(self).in_@.dom());
                }
                Ok(())
            },
        }
    }

    /// Reads `size` bytes captured by stream `id`: the oldest, when that many wait
    /// (`None` while fewer do, and the read waits for more samples).
    pub fn read_in(&mut self, id: u64, size: u64) -> (r: Result<Option<Vec<u8>>, AudioError>)
        ensures
            final(self).out@ == old(self).out@,
            final(self).in_@.dom() == old(self).in_@.dom(),
            !old(self).in_@.contains_key(id) ==> (r matches Err(AudioError::NotFound(i)) && i == id)
                && final(self).in_@ == old(self).in_@,
            old(self).in_@.contains_key(id) ==> {
                let q = old(self).in_@[id].samples.queue@;
                &&& final(self).in_@[id].pipeline == old(self).in_@[id].pipeline
                &&& if q.len() < size {
                    r matches Ok(None) && final(self).in_@[id].samples.queue@ == q
                } else {
                    &&& r matches Ok(Some(v)) && v@ == q.subrange(0, size as int)
                    &&& final(self).in_@[id].samples.queue@ == q.subrange(size as int, q.len() as int)
                }
            },
            forall|k: u64| k != id && #[trigger] old(self).in_@.contains_key(k) ==> final(self).in_@[k] == old(self).in_@[k],
    {
        match self.in_.remove(&id) {
            None => Err(AudioError::NotFound(id)),
            Some(mut s) => {
                let r = if s.samples.needs_more(size) {
                    None
                } else {
                    Some(s.samples.take(size))
                };
                self.in_.insert(id, s);
                proof {
                    assert(final(self).in_@.dom() =~= old(self).in_@.dom());
                }
                Ok(r)
            },
        }
    }
}

/// What a capture stream delivers is what it captured, in order: bytes read, then
/// the bytes still waiting, are the bytes waiting before and the sample pushed.
pub proof fn law_capture_keeps_order(before: Seq<u8>, sample: Seq<u8>, size: nat)
    requires
        size <= before.len() + sample.len(),
    ensures
        (before + sample).subrange(0, size as int) + (before + sample).subrange(size as int, (before + sample).len() as int)
            == before + sample,
{
    assert((before + sample).subrange(0, size as int) + (before + sample).subrange(
        size as int,
        (before + sample).len() as int,
    ) =~= before + sample);
}

/// A stream closed can be set up again: after `fini_out` or `fini_in` of an id, the id
/// is free, and the other streams stay.
pub proof fn law_fini_frees_the_id<V>(streams: Map<u64, V>, id: u64)
    ensures
        !streams.remove(id).contains_key(id),
        forall|k: u64| k != id && streams.contains_key(k) ==> #[trigger] streams.remove(id).contains_key(k) && streams.remove(id)[k] == streams[k],
{
}

} // verus!
