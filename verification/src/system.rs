use crate::object_store;
use crate::object_store::Client;
use crate::output::Output;
use crate::output::outputs_wf;
use crate::output::spec_find_output;
use crate::queue::FifoQueue;
use crate::voice::Voice;
use crate::voice::active_count;
use crate::voice::lemma_active_count_push;
use crate::voice::lemma_non_deleted_count_push;
use crate::voice::non_deleted_count;
use crate::voice::spec_find_voice;
use crate::voice::voices_wf;
use vstd::prelude::*;

verus! {

/// The coordinators' world: the entity records, the two object-store
/// buckets and the two FIFO queues they drive. The entity collections
/// are the single source of truth for status; every transition goes
/// through a compare-based update against them.
pub struct System {
    pub voices: Vec<Voice>,
    pub outputs: Vec<Output>,
    pub samples: Client,
    pub outputs_bucket: Client,
    pub train_queue: FifoQueue,
    pub output_queue: FifoQueue,
}

impl System {
    /// Invariants the coordinator operations establish and preserve:
    /// well-formed voice and output collections (unique ids, unique
    /// live names, `Active` exactly when an external id is attached),
    /// well-formed stores, and an output's audio blob existing in the
    /// outputs bucket exactly when its status is `Done`.
    pub open spec fn wf(&self) -> bool {
        &&& voices_wf(self.voices@)
        &&& outputs_wf(self.outputs@)
        &&& self.samples.wf()
        &&& self.outputs_bucket.wf()
        &&& forall|i: int|
            0 <= i < self.outputs@.len() ==> (((#[trigger] self.outputs@[i]).status is Done)
                <==> object_store::has_key(self.outputs_bucket.objects@, self.outputs@[i].id@))
    }

    pub fn new(
        samples_bucket: &str,
        outputs_bucket: &str,
        train_queue_url: String,
        output_queue_url: String,
    ) -> (s: System)
        ensures
            s.wf(),
            s.voices@.len() == 0,
            s.outputs@.len() == 0,
            s.samples.objects@.len() == 0,
            s.samples.bucket@ == samples_bucket@,
            s.outputs_bucket.objects@.len() == 0,
            s.outputs_bucket.bucket@ == outputs_bucket@,
            s.train_queue.messages@.len() == 0,
            s.train_queue.queue_url == train_queue_url,
            s.output_queue.messages@.len() == 0,
            s.output_queue.queue_url == output_queue_url,
    {
        System {
            voices: Vec::new(),
            outputs: Vec::new(),
            samples: Client::new(samples_bucket),
            outputs_bucket: Client::new(outputs_bucket),
            train_queue: FifoQueue::new(train_queue_url),
            output_queue: FifoQueue::new(output_queue_url),
        }
    }

    pub(crate) fn find_voice_index(&self, id: &str) -> (r: Option<usize>)
        ensures
            match r {
                Some(i) => 0 <= i < self.voices@.len() && self.voices@[i as int].id@ == id@,
                None => !crate::voice::has_voice(self.voices@, id@),
            },
    {
        let id_s = String::from_str(id);
        let n = self.voices.len();
        let mut i: usize = 0;
        while i < n
            invariant
                0 <= i <= n,
                n == self.voices@.len(),
                id_s@ == id@,
                forall|j: int| 0 <= j < i ==> (#[trigger] self.voices@[j]).id@ != id@,
            decreases n - i,
        {
            if self.voices[i].id == id_s {
                return Some(i);
            }
            i = i + 1;
        }
        None
    }

    pub(crate) fn find_output_index(&self, id: &str) -> (r: Option<usize>)
        ensures
            match r {
                Some(i) => 0 <= i < self.outputs@.len() && self.outputs@[i as int].id@ == id@,
                None => !crate::output::has_output(self.outputs@, id@),
            },
    {
        let id_s = String::from_str(id);
        let n = self.outputs.len();
        let mut i: usize = 0;
        while i < n
            invariant
                0 <= i <= n,
                n == self.outputs@.len(),
                id_s@ == id@,
                forall|j: int| 0 <= j < i ==> (#[trigger] self.outputs@[j]).id@ != id@,
            decreases n - i,
        {
            if self.outputs[i].id == id_s {
                return Some(i);
            }
            i = i + 1;
        }
        None
    }

    /// Whether a non-deleted voice already carries `name`.
    pub(crate) fn live_name_exists(&self, name: &String) -> (r: bool)
        ensures
            r == crate::voice::has_live_name(self.voices@, name@),
    {
        let n = self.voices.len();
        let mut i: usize = 0;
        while i < n
            invariant
                0 <= i <= n,
                n == self.voices@.len(),
                forall|j: int|
                    0 <= j < i ==> !(!((#[trigger] self.voices@[j]).status is Deleted)
                        && self.voices@[j].name@ == name@),
            decreases n - i,
        {
            if !matches!(self.voices[i].status, crate::voice::VoiceStatus::Deleted)
                && self.voices[i].name == *name {
                return true;
            }
            i = i + 1;
        }
        false
    }

    /// A copy of the voice record with the given id, if any.
    pub fn read_voice(&self, id: &str) -> (r: Option<Voice>)
        requires
            self.wf(),
        ensures
            r == spec_find_voice(self.voices@, id@),
    {
        match self.find_voice_index(id) {
            Some(i) => {
                let v = self.voices[i].clone();
                proof {
                    let j = crate::voice::voice_index(self.voices@, id@);
                    assert(self.voices@[j].id@ == id@);
                    assert(j == i);
                }
                Some(v)
            },
            None => None,
        }
    }

    /// A copy of the output record with the given id, if any.
    pub fn read_output(&self, id: &str) -> (r: Option<Output>)
        requires
            self.wf(),
        ensures
            r == spec_find_output(self.outputs@, id@),
    {
        match self.find_output_index(id) {
            Some(i) => {
                let o = self.outputs[i].clone();
                proof {
                    let j = crate::output::output_index(self.outputs@, id@);
                    assert(self.outputs@[j].id@ == id@);
                    assert(j == i);
                }
                Some(o)
            },
            None => None,
        }
    }

    /// Copies of all voice records, in creation order.
    pub fn list_voices(&self) -> (r: Vec<Voice>)
        ensures
            r@ == self.voices@,
    {
        let n = self.voices.len();
        let mut r: Vec<Voice> = Vec::new();
        let mut i: usize = 0;
        while i < n
            invariant
                0 <= i <= n,
                n == self.voices@.len(),
                r@ == self.voices@.take(i as int),
            decreases n - i,
        {
            r.push(self.voices[i].clone());
            proof {
                assert(r@ =~= self.voices@.take(i + 1));
            }
            i = i + 1;
        }
        proof {
            assert(self.voices@.take(n as int) =~= self.voices@);
        }
        r
    }

    /// How many voices are currently `Active`.
    pub fn active_voices_count(&self) -> (c: u64)
        ensures
            c == active_count(self.voices@),
    {
        let n = self.voices.len();
        let mut c: u64 = 0;
        let mut i: usize = 0;
        while i < n
            invariant
                0 <= i <= n,
                n == self.voices@.len(),
                c == active_count(self.voices@.take(i as int)),
                c <= i,
            decreases n - i,
        {
            proof {
                lemma_active_count_push(self.voices@.take(i as int), self.voices@[i as int]);
                assert(self.voices@.take(i as int).push(self.voices@[i as int]) =~= self.voices@
                    .take(i + 1));
            }
            if matches!(self.voices[i].status, crate::voice::VoiceStatus::Active) {
                c = c + 1;
            }
            i = i + 1;
        }
        proof {
            assert(self.voices@.take(n as int) =~= self.voices@);
        }
        c
    }

    /// How many voices are not deleted: the population the upload-slot
    /// quota is charged against.
    pub(crate) fn non_deleted_voices_count(&self) -> (c: u64)
        ensures
            c == non_deleted_count(self.voices@),
    {
        let n = self.voices.len();
        let mut c: u64 = 0;
        let mut i: usize = 0;
        while i < n
            invariant
                0 <= i <= n,
                n == self.voices@.len(),
                c == non_deleted_count(self.voices@.take(i as int)),
                c <= i,
            decreases n - i,
        {
            proof {
                lemma_non_deleted_count_push(self.voices@.take(i as int), self.voices@[i as int]);
                assert(self.voices@.take(i as int).push(self.voices@[i as int]) =~= self.voices@
                    .take(i + 1));
            }
            if !matches!(self.voices[i].status, crate::voice::VoiceStatus::Deleted) {
                c = c + 1;
            }
            i = i + 1;
        }
        proof {
            assert(self.voices@.take(n as int) =~= self.voices@);
        }
        c
    }
}

} // verus!
