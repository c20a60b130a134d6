use crate::errors::PipelineError;
use crate::object_store;
use crate::object_store::spec_lookup;
use crate::object_store::spec_signed_url;
use crate::output::Output;
use crate::output::OutputStatus;
use crate::output::PopulatedOutput;
use crate::output::has_output;
use crate::output::lemma_outputs_push;
use crate::output::lemma_outputs_update;
use crate::output::output_index;
use crate::output::spec_find_output;
use crate::queue::FifoMessage;
use crate::queue::published;
use crate::system::System;
use crate::text::contains_seq;
use crate::text::spec_trim;
use crate::text::text_contains;
use crate::text::trim;
use crate::voice::Voice;
use crate::voice::has_voice;
use crate::voice::spec_find_voice;
use crate::voice::voice_index;
use vstd::prelude::*;

verus! {

/// Request body for asking for a new output.
pub struct OutputPayload {
    pub voice_id: String,
    pub text: String,
}

/// Request body for the output text search.
pub struct SearchOutputTextPayload {
    pub text: String,
}

/// Everything a synthesis worker must hand to the synthesis service to
/// render an output: the external voice id and the text.
#[derive(Debug)]
pub struct GenerationTask {
    pub output_id: String,
    pub eleven_labs_id: String,
    pub text: String,
}

/// One output of the text search, with its voice attached: the outputs
/// whose text contains the term, in creation order, skipping outputs
/// whose voice record is gone.
pub open spec fn spec_search(outputs: Seq<Output>, voices: Seq<Voice>, term: Seq<char>) -> Seq<
    PopulatedOutput,
>
    decreases outputs.len(),
{
    if outputs.len() == 0 {
        Seq::empty()
    } else {
        spec_search(outputs.drop_last(), voices, term) + if contains_seq(
            outputs.last().text@,
            term,
        ) && has_voice(voices, outputs.last().voice@) {
            seq![spec_populate(outputs.last(), voices)]
        } else {
            Seq::empty()
        }
    }
}

/// An output joined with the voice record it refers to.
pub open spec fn spec_populate(o: Output, voices: Seq<Voice>) -> PopulatedOutput {
    PopulatedOutput {
        id: o.id,
        voice: voices[voice_index(voices, o.voice@)],
        text: o.text,
        status: o.status,
        created_at: o.created_at,
        updated_at: o.updated_at,
    }
}

impl System {
    /// Requests a new output: trims the text, records a `Pending`
    /// output under the given id and publishes a generation message
    /// grouped by the voice (outputs of one voice are never interleaved)
    /// and deduplicated by the output id (each request is published at
    /// most once).
    ///
    /// An unknown voice is `NotFound`; one not `Active` is
    /// `InvalidState`; text that trims to nothing is `InvalidInput`; an
    /// id already used by an output or by a blob in the outputs bucket
    /// is `Conflict`. No failure changes anything — in particular,
    /// nothing is ever published on a failure.
    pub fn create_output(&mut self, id: String, body: OutputPayload, now: u64) -> (r: Result<
        Output,
        PipelineError,
    >)
        requires
            old(self).wf(),
        ensures
            final(self).wf(),
            r matches Err(_) ==> *final(self) == *old(self),
            r matches Err(PipelineError::NotFound) <==> !has_voice(
                old(self).voices@,
                body.voice_id@,
            ),
            r matches Err(PipelineError::InvalidState) <==> (spec_find_voice(
                old(self).voices@,
                body.voice_id@,
            ) matches Some(v0) && !(v0.status is Active)),
            r matches Err(PipelineError::InvalidInput) <==> (spec_find_voice(
                old(self).voices@,
                body.voice_id@,
            ) matches Some(v0) && v0.status is Active && spec_trim(body.text@).len() == 0),
            r matches Err(PipelineError::Conflict) <==> (spec_find_voice(
                old(self).voices@,
                body.voice_id@,
            ) matches Some(v0) && v0.status is Active && spec_trim(body.text@).len() > 0 && (
            has_output(old(self).outputs@, id@) || object_store::has_key(
                old(self).outputs_bucket.objects@,
                id@,
            ))),
            r is Ok <==> (spec_find_voice(old(self).voices@, body.voice_id@) matches Some(v0)
                && v0.status is Active && spec_trim(body.text@).len() > 0 && !has_output(
                old(self).outputs@,
                id@,
            ) && !object_store::has_key(old(self).outputs_bucket.objects@, id@)),
            r matches Ok(o) ==> {
                &&& o.id == id
                &&& o.voice == body.voice_id
                &&& o.text@ == spec_trim(body.text@)
                &&& o.status is Pending
                &&& o.created_at == now
                &&& o.updated_at == now
                &&& final(self).outputs@ == old(self).outputs@.push(o)
                &&& published(
                    old(self).output_queue.messages@,
                    final(self).output_queue.messages@,
                    id@,
                    body.voice_id@,
                    id@,
                )
                &&& final(self).output_queue.queue_url == old(self).output_queue.queue_url
                &&& final(self).voices == old(self).voices
                &&& final(self).samples == old(self).samples
                &&& final(self).outputs_bucket == old(self).outputs_bucket
                &&& final(self).train_queue == old(self).train_queue
            },
    {
        let i = match self.find_voice_index(body.voice_id.as_str()) {
            Some(i) => i,
            None => {
                return Err(PipelineError::NotFound);
            },
        };
        proof {
            let j = voice_index(self.voices@, body.voice_id@);
            assert(self.voices@[j].id@ == body.voice_id@);
            assert(j == i);
        }
        if !matches!(self.voices[i].status, crate::voice::VoiceStatus::Active) {
            return Err(PipelineError::InvalidState);
        }
        let trimmed = trim(body.text.as_str());
        if trimmed.unicode_len() == 0 {
            return Err(PipelineError::InvalidInput);
        }
        if let Some(_) = self.find_output_index(id.as_str()) {
            return Err(PipelineError::Conflict);
        }
        if self.outputs_bucket.contains_key(id.as_str()) {
            return Err(PipelineError::Conflict);
        }
        self.output_queue.send_fifo_message(
            FifoMessage {
                body: id.clone(),
                group: body.voice_id.clone(),
                deduplication_id: id.clone(),
            },
        );
        proof {
            let oldq = old(self).output_queue.messages@;
            let newq = self.output_queue.messages@;
            if !crate::queue::has_dedup(oldq, id@) {
                assert(newq.subrange(0, oldq.len() as int) =~= oldq);
            }
        }
        let o = Output {
            id,
            voice: body.voice_id,
            text: trimmed,
            status: OutputStatus::Pending,
            created_at: now,
            updated_at: now,
        };
        proof {
            lemma_outputs_push(self.outputs@, o);
        }
        let out = o.clone();
        self.outputs.push(o);
        Ok(out)
    }

    /// Prepares the synthesis of an output for the generation worker:
    /// reads the output and its voice and hands back what the synthesis
    /// call needs.
    ///
    /// An unknown output, or a gone voice record, is `NotFound`. An
    /// output already `Done` yields no task at all: the redelivered
    /// message is already handled, and the worker must neither call the
    /// synthesis service again nor touch the stored blob. A voice
    /// without an external id is `InvalidState`: a data integrity
    /// violation the coordinator's own invariant rules out, checked all
    /// the same. Nothing is changed in any case.
    pub fn begin_generation(&self, output_id: &str) -> (r: Result<
        Option<GenerationTask>,
        PipelineError,
    >)
        requires
            self.wf(),
        ensures
            r matches Err(PipelineError::NotFound) <==> (!has_output(self.outputs@, output_id@) || (
            spec_find_output(self.outputs@, output_id@) matches Some(o0) && o0.status is Pending
                && !has_voice(self.voices@, o0.voice@))),
            r matches Ok(t) && t is None <==> (spec_find_output(self.outputs@, output_id@)
                matches Some(o0) && o0.status is Done),
            r matches Err(PipelineError::InvalidState) <==> (spec_find_output(
                self.outputs@,
                output_id@,
            ) matches Some(o0) && o0.status is Pending && (spec_find_voice(
                self.voices@,
                o0.voice@,
            ) matches Some(v0) && v0.eleven_labs_id is None)),
            r matches Ok(t) ==> (t matches Some(task) ==> (spec_find_output(
                self.outputs@,
                output_id@,
            ) matches Some(o0) && spec_find_voice(self.voices@, o0.voice@) matches Some(v0) && {
                &&& o0.status is Pending
                &&& task.output_id@ == output_id@
                &&& v0.eleven_labs_id matches Some(x) && task.eleven_labs_id == x
                &&& task.text == o0.text
            })),
            r is Ok <==> (spec_find_output(self.outputs@, output_id@) matches Some(o0) && (o0.status
                is Done || (spec_find_voice(self.voices@, o0.voice@) matches Some(v0)
                && v0.eleven_labs_id is Some))),
    {
        let i = match self.find_output_index(output_id) {
            Some(i) => i,
            None => {
                return Err(PipelineError::NotFound);
            },
        };
        proof {
            let j = output_index(self.outputs@, output_id@);
            assert(self.outputs@[j].id@ == output_id@);
            assert(j == i);
        }
        if matches!(self.outputs[i].status, OutputStatus::Done) {
            return Ok(None);
        }
        let o = &self.outputs[i];
        let j = match self.find_voice_index(o.voice.as_str()) {
            Some(j) => j,
            None => {
                return Err(PipelineError::NotFound);
            },
        };
        proof {
            let j2 = voice_index(self.voices@, o.voice@);
            assert(self.voices@[j2].id@ == o.voice@);
            assert(j2 == j);
        }
        match &self.voices[j].eleven_labs_id {
            Some(e) => Ok(
                Some(
                    GenerationTask {
                        output_id: String::from_str(output_id),
                        eleven_labs_id: e.clone(),
                        text: o.text.clone(),
                    },
                ),
            ),
            None => Err(PipelineError::InvalidState),
        }
    }

    /// Commits a finished synthesis: writes the audio under the
    /// output's id in the outputs bucket, and only then marks the
    /// output `Done` — the status update is the commit point, and a
    /// retry after a failed update finds the blob already written and
    /// only the update left to do.
    ///
    /// An unknown output is `NotFound`. An output already `Done` is
    /// left exactly as it is — in particular its stored blob is never
    /// overwritten — and returned as the success value.
    pub fn complete_generation(&mut self, output_id: &str, audio: Vec<u8>, now: u64) -> (r: Result<
        Output,
        PipelineError,
    >)
        requires
            old(self).wf(),
        ensures
            final(self).wf(),
            r matches Err(_) ==> *final(self) == *old(self),
            r matches Err(PipelineError::NotFound) <==> !has_output(old(self).outputs@, output_id@),
            r is Ok <==> has_output(old(self).outputs@, output_id@),
            r matches Ok(o) ==> (spec_find_output(old(self).outputs@, output_id@) matches Some(o0)
                && if o0.status is Done {
                o == o0 && *final(self) == *old(self)
            } else {
                &&& o == (Output { status: OutputStatus::Done, updated_at: now, ..o0 })
                &&& final(self).outputs@ == old(self).outputs@.update(
                    output_index(old(self).outputs@, output_id@),
                    o,
                )
                &&& spec_lookup(final(self).outputs_bucket.objects@, output_id@) == Some(audio@)
                &&& forall|k: Seq<char>|
                    k != output_id@ ==> spec_lookup(final(self).outputs_bucket.objects@, k)
                        == spec_lookup(old(self).outputs_bucket.objects@, k)
                &&& final(self).outputs_bucket.bucket == old(self).outputs_bucket.bucket
                &&& final(self).voices == old(self).voices
                &&& final(self).samples == old(self).samples
                &&& final(self).train_queue == old(self).train_queue
                &&& final(self).output_queue == old(self).output_queue
            }),
    {
        let i = match self.find_output_index(output_id) {
            Some(i) => i,
            None => {
                return Err(PipelineError::NotFound);
            },
        };
        proof {
            let j = output_index(self.outputs@, output_id@);
            assert(self.outputs@[j].id@ == output_id@);
            assert(j == i);
        }
        if matches!(self.outputs[i].status, OutputStatus::Done) {
            return Ok(self.outputs[i].clone());
        }
        self.outputs_bucket.put_object(output_id, audio);
        let o0 = self.outputs[i].clone();
        let o = Output { status: OutputStatus::Done, updated_at: now, ..o0 };
        proof {
            lemma_outputs_update(self.outputs@, i as int, o);
        }
        let out = o.clone();
        self.outputs.set(i, o);
        proof {
            assert forall|p: int| 0 <= p < self.outputs@.len() implies (((
            #[trigger] self.outputs@[p]).status is Done) <==> object_store::has_key(
                self.outputs_bucket.objects@,
                self.outputs@[p].id@,
            )) by {
                if p != i {
                    assert(self.outputs@[p] == old(self).outputs@[p]);
                    assert(old(self).outputs@[p].id@ != old(self).outputs@[i as int].id@);
                    assert(spec_lookup(self.outputs_bucket.objects@, self.outputs@[p].id@)
                        == spec_lookup(old(self).outputs_bucket.objects@, self.outputs@[p].id@));
                }
            }
        }
        Ok(out)
    }

    /// The read-side text search: every output whose text contains the
    /// term, in creation order, each joined with its voice record;
    /// outputs whose voice record is gone are skipped.
    pub fn search_text(&self, term: &str) -> (r: Vec<PopulatedOutput>)
        requires
            self.wf(),
        ensures
            r@ == spec_search(self.outputs@, self.voices@, term@),
    {
        let n = self.outputs.len();
        let mut r: Vec<PopulatedOutput> = Vec::new();
        let mut i: usize = 0;
        while i < n
            invariant
                0 <= i <= n,
                n == self.outputs@.len(),
                self.wf(),
                r@ == spec_search(self.outputs@.take(i as int), self.voices@, term@),
            decreases n - i,
        {
            proof {
                assert(self.outputs@.take(i + 1).drop_last() =~= self.outputs@.take(i as int));
                assert(self.outputs@.take(i + 1).last() == self.outputs@[i as int]);
            }
            if text_contains(self.outputs[i].text.as_str(), term) {
                match self.find_voice_index(self.outputs[i].voice.as_str()) {
                    Some(j) => {
                        proof {
                            let j2 = voice_index(self.voices@, self.outputs@[i as int].voice@);
                            assert(self.voices@[j2].id@ == self.outputs@[i as int].voice@);
                            assert(j2 == j);
                        }
                        let o = &self.outputs[i];
                        r.push(
                            PopulatedOutput {
                                id: o.id.clone(),
                                voice: self.voices[j].clone(),
                                text: o.text.clone(),
                                status: o.status,
                                created_at: o.created_at,
                                updated_at: o.updated_at,
                            },
                        );
                        proof {
                            assert(r@ =~= spec_search(
                                self.outputs@.take(i + 1),
                                self.voices@,
                                term@,
                            ));
                        }
                    },
                    None => {},
                }
            }
            i = i + 1;
        }
        proof {
            assert(self.outputs@.take(n as int) =~= self.outputs@);
        }
        r
    }

    /// A time-bounded capability URL for downloading an output's audio
    /// blob. The output need not be `Done` yet; fetching the URL of a
    /// still-pending output merely yields a URL whose object is absent.
    pub fn get_output_presigned(&self, output_id: &str) -> (r: Result<String, PipelineError>)
        requires
            self.wf(),
        ensures
            r is Ok <==> has_output(self.outputs@, output_id@),
            r matches Err(e) ==> e is NotFound,
            r matches Ok(u) ==> u@ == spec_signed_url(
                self.outputs_bucket.bucket@,
                output_id@,
                "GET"@,
                60,
            ),
    {
        if let None = self.find_output_index(output_id) {
            return Err(PipelineError::NotFound);
        }
        Ok(self.outputs_bucket.get_presigned_url(output_id))
    }
}

} // verus!
