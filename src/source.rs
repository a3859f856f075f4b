use vstd::prelude::*;
use crate::transport::{is_reset, PlaybackInfo};
use crate::window::AudioSamples;

verus! {

/// What produces samples: a decoded file, the microphone, or nothing
/// (`Silent`).
#[derive(Clone, Debug)]
pub enum AudioSource {
    File(String),
    Microphone,
    Silent,
}

/// Two selections are the same when they are the same kind and, for files,
/// name the same path.
pub open spec fn same_source(a: AudioSource, b: AudioSource) -> bool {
    match (a, b) {
        (AudioSource::File(p), AudioSource::File(q)) => p@ == q@,
        (AudioSource::Microphone, AudioSource::Microphone) => true,
        (AudioSource::Silent, AudioSource::Silent) => true,
        _ => false,
    }
}

impl AudioSource {
    pub fn same(&self, other: &AudioSource) -> (r: bool)
        ensures
            r == same_source(*self, *other),
    {
        match (self, other) {
            (AudioSource::File(p), AudioSource::File(q)) => p.eq(q),
            (AudioSource::Microphone, AudioSource::Microphone) => true,
            (AudioSource::Silent, AudioSource::Silent) => true,
            _ => false,
        }
    }

    pub fn duplicate(&self) -> (r: AudioSource)
        ensures
            same_source(r, *self),
            r == *self,
    {
        match self {
            AudioSource::File(p) => AudioSource::File(p.clone()),
            AudioSource::Microphone => AudioSource::Microphone,
            AudioSource::Silent => AudioSource::Silent,
        }
    }
}

impl PartialEq for AudioSource {
    fn eq(&self, other: &AudioSource) -> (r: bool) {
        self.same(other)
    }
}

impl vstd::std_specs::cmp::PartialEqSpecImpl for AudioSource {
    open spec fn obeys_eq_spec() -> bool {
        true
    }

    open spec fn eq_spec(&self, other: &AudioSource) -> bool {
        same_source(*self, *other)
    }
}

/// One step of a source switch, for the host to carry out in order.
#[derive(Clone, Debug)]
pub enum SourceStep {
    /// Stop the file sink and drop the microphone stream; once done, no
    /// producer writes samples.
    StopAll,
    /// Decode the file at this path and feed its samples to the channel.
    StartFile(String),
    /// Open the input device and feed its blocks to the channel.
    StartMicrophone,
}

/// The steps that start the producer of a selection.
pub open spec fn start_steps(s: AudioSource) -> Seq<SourceStep> {
    match s {
        AudioSource::File(p) => seq![SourceStep::StartFile(p)],
        AudioSource::Microphone => seq![SourceStep::StartMicrophone],
        AudioSource::Silent => Seq::empty(),
    }
}

/// The steps of a switch from `current` to `requested`: none when the
/// selection is unchanged, else a full stop followed by the new start.
pub open spec fn switch_steps(current: AudioSource, requested: AudioSource) -> Seq<SourceStep> {
    if same_source(current, requested) {
        Seq::empty()
    } else {
        seq![SourceStep::StopAll] + start_steps(requested)
    }
}

/// The selection in force after a request.
pub open spec fn selected_after(current: AudioSource, requested: AudioSource) -> AudioSource {
    if same_source(current, requested) {
        current
    } else {
        requested
    }
}

/// All steps of a series of requests, starting from `current`.
pub open spec fn session_steps(current: AudioSource, requests: Seq<AudioSource>) -> Seq<SourceStep>
    decreases requests.len(),
{
    if requests.len() == 0 {
        Seq::empty()
    } else {
        switch_steps(current, requests[0]) + session_steps(
            selected_after(current, requests[0]),
            requests.drop_first(),
        )
    }
}

/// Number of producers writing samples after `steps`, from `live` of them.
pub open spec fn live_after(live: nat, steps: Seq<SourceStep>) -> nat
    decreases steps.len(),
{
    if steps.len() == 0 {
        live
    } else {
        let next: nat = match steps[0] {
            SourceStep::StopAll => 0,
            _ => live + 1,
        };
        live_after(next, steps.drop_first())
    }
}

/// The producers that a selection leaves running once its steps are done.
pub open spec fn live_for(s: AudioSource) -> nat {
    match s {
        AudioSource::Silent => 0,
        _ => 1,
    }
}

proof fn lemma_live_after_concat(live: nat, a: Seq<SourceStep>, b: Seq<SourceStep>)
    ensures
        live_after(live, a + b) == live_after(live_after(live, a), b),
    decreases a.len(),
{
    if a.len() > 0 {
        assert((a + b).drop_first() =~= a.drop_first() + b);
        let next: nat = match a[0] {
            SourceStep::StopAll => 0,
            _ => live + 1,
        };
        lemma_live_after_concat(next, a.drop_first(), b);
    } else {
        assert(a + b =~= b);
    }
}

proof fn lemma_switch_single(live: nat, current: AudioSource, requested: AudioSource, k: int)
    requires
        live <= live_for(current),
        0 <= k <= switch_steps(current, requested).len(),
    ensures
        live_after(live, switch_steps(current, requested).take(k)) <= 1,
        live_after(live, switch_steps(current, requested)) <= live_for(
            selected_after(current, requested),
        ),
{
    let steps = switch_steps(current, requested);
    let e = Seq::<SourceStep>::empty();
    if !same_source(current, requested) {
        let st = start_steps(requested);
        let s1 = steps.take(1);
        assert(steps[0] == SourceStep::StopAll);
        assert(s1.len() == 1 && s1[0] == steps[0]);
        assert(s1.drop_first() =~= e);
        assert(live_after(0, e) == 0);
        assert(live_after(live, s1) == 0);
        if k == 0 {
            assert(steps.take(k) =~= e);
        } else if k == 1 {
            assert(steps.take(k) =~= s1);
        } else {
            assert(steps.take(k) =~= steps);
        }
        if st.len() == 0 {
            assert(steps =~= s1);
        } else {
            assert(steps.drop_first() =~= st);
            assert(st.drop_first() =~= e);
            assert(live_after(live, steps) == live_after(0, st));
            assert(live_after(0, st) == live_after(1, e));
        }
    } else {
        assert(steps.take(k) =~= e);
        assert(steps =~= e);
    }
}

/// However selections follow one another, at most one producer writes
/// samples at any point of the switching steps: every start comes after a
/// completed stop of whatever ran before.
pub proof fn lemma_single_producer(
    live: nat,
    current: AudioSource,
    requests: Seq<AudioSource>,
    k: int,
)
    requires
        live <= live_for(current),
        0 <= k <= session_steps(current, requests).len(),
    ensures
        live_after(live, session_steps(current, requests).take(k)) <= 1,
        live_after(live, session_steps(current, requests)) <= 1,
    decreases requests.len(),
{
    if requests.len() > 0 {
        let r = requests[0];
        let a = switch_steps(current, r);
        let next = selected_after(current, r);
        let b = session_steps(next, requests.drop_first());
        let all = session_steps(current, requests);
        assert(all == a + b);
        lemma_switch_single(live, current, r, a.len() as int);
        assert(a.take(a.len() as int) =~= a);
        let mid = live_after(live, a);
        lemma_live_after_concat(live, a, b);
        lemma_single_producer(mid, next, requests.drop_first(), b.len() as int);
        assert(b.take(b.len() as int) =~= b);
        if k <= a.len() {
            assert(all.take(k) =~= a.take(k));
            lemma_switch_single(live, current, r, k);
        } else {
            assert(all.take(k) =~= a + b.take(k - a.len()));
            lemma_live_after_concat(live, a, b.take(k - a.len()));
            lemma_single_producer(mid, next, requests.drop_first(), k - a.len());
        }
    } else {
        assert(session_steps(current, requests).take(k) =~= Seq::<SourceStep>::empty());
    }
}

/// Selecting the same source twice in a row switches once: the second
/// request finds it already selected and yields no step.
pub proof fn lemma_set_source_idempotent(current: AudioSource, requested: AudioSource)
    ensures
        switch_steps(selected_after(current, requested), requested) == Seq::<SourceStep>::empty(),
{
}

/// Picks the input device to open: the first of `names` equal to the wanted
/// name. `None` means the system default device is to be used, because no
/// name is wanted or none matches.
pub fn select_device(names: &Vec<String>, wanted: &Option<String>) -> (r: Option<usize>)
    ensures
        wanted.is_none() ==> r.is_none(),
        r.is_some() ==> {
            let i = r.unwrap() as int;
            &&& 0 <= i < names@.len()
            &&& names@[i]@ == wanted.unwrap()@
            &&& forall|j: int| 0 <= j < i ==> (#[trigger] names@[j])@ != wanted.unwrap()@
        },
        r.is_none() && wanted.is_some() ==> forall|j: int|
            0 <= j < names@.len() ==> (#[trigger] names@[j])@ != wanted.unwrap()@,
{
    match wanted {
        None => None,
        Some(w) => {
            let mut i: usize = 0;
            while i < names.len()
                invariant
                    *wanted == Some(*w),
                    i <= names@.len(),
                    forall|j: int| 0 <= j < i ==> (#[trigger] names@[j])@ != w@,
                decreases names@.len() - i,
            {
                if names[i].eq(w) {
                    return Some(i);
                }
                i = i + 1;
            }
            None
        },
    }
}

/// The current selection, and the producer that its steps have started.
pub struct SelectedAudioSource {
    source: AudioSource,
    running: bool,
}

impl SelectedAudioSource {
    pub closed spec fn spec_source(&self) -> AudioSource {
        self.source
    }

    /// Whether a producer was started for the selection and is still
    /// believed to run.
    pub closed spec fn spec_running(&self) -> bool {
        self.running
    }

    /// A running producer always belongs to a selection that has one.
    pub open spec fn wf(&self) -> bool {
        self.spec_running() ==> live_for(self.spec_source()) == 1
    }

    pub fn new() -> (r: Self)
        ensures
            r.wf(),
            r.spec_source() == AudioSource::Silent,
            !r.spec_running(),
    {
        SelectedAudioSource { source: AudioSource::Silent, running: false }
    }

    pub fn source(&self) -> (r: &AudioSource)
        ensures
            *r == self.spec_source(),
    {
        &self.source
    }

    pub fn running(&self) -> (r: bool)
        ensures
            r == self.spec_running(),
    {
        self.running
    }

    /// Selects `requested`.
    ///
    /// An unchanged selection does nothing and returns no step. Otherwise
    /// the buffered samples are dropped, the transport is reset, and the
    /// steps returned stop every producer and then start the new one.
    pub fn set_source<T: Copy>(
        &mut self,
        requested: AudioSource,
        samples: &mut AudioSamples<T>,
        playback: &mut PlaybackInfo,
    ) -> (r: Vec<SourceStep>)
        requires
            old(self).wf(),
        ensures
            final(self).wf(),
            r@ == switch_steps(old(self).spec_source(), requested),
            final(self).spec_source() == selected_after(old(self).spec_source(), requested),
            same_source(old(self).spec_source(), requested) ==> {
                &&& *final(self) == *old(self)
                &&& final(samples)@ == old(samples)@
                &&& *final(playback) == *old(playback)
            },
            !same_source(old(self).spec_source(), requested) ==> {
                &&& final(self).spec_running() == (live_for(requested) == 1)
                &&& final(samples)@ == Seq::<T>::empty()
                &&& is_reset(*final(playback))
            },
    {
        if self.source.same(&requested) {
            return Vec::new();
        }
        samples.clear();
        playback.reset();
        let mut steps: Vec<SourceStep> = Vec::new();
        steps.push(SourceStep::StopAll);
        let running = match &requested {
            AudioSource::File(p) => {
                steps.push(SourceStep::StartFile(p.clone()));
                true
            },
            AudioSource::Microphone => {
                steps.push(SourceStep::StartMicrophone);
                true
            },
            AudioSource::Silent => false,
        };
        assert(steps@ =~= switch_steps(self.source, requested));
        self.source = requested;
        self.running = running;
        steps
    }

    /// Records that starting the selected producer failed: the selection
    /// falls back to no source, so that the same request can be issued again.
    pub fn start_failed(&mut self)
        ensures
            final(self).wf(),
            final(self).spec_source() == AudioSource::Silent,
            !final(self).spec_running(),
    {
        self.source = AudioSource::Silent;
        self.running = false;
    }
}

} // verus!
