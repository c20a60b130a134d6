use crate::errors::PipelineError;
use crate::object_store::spec_lookup;
use crate::object_store::spec_signed_url;
use crate::queue::FifoMessage;
use crate::queue::published;
use crate::system::System;
use crate::text::sample_key;
use crate::text::slug_of;
use crate::text::slugify;
use crate::text::spec_sample_key;
use crate::text::spec_voice_id_of_key;
use crate::text::voice_id_of_sample_key;
use crate::voice::Voice;
use crate::voice::VoiceStatus;
use crate::voice::has_live_name;
use crate::voice::has_voice;
use crate::voice::lemma_voices_push;
use crate::voice::lemma_voices_update;
use crate::voice::non_deleted_count;
use crate::voice::spec_find_voice;
use crate::voice::voice_index;
use vstd::prelude::*;

verus! {

/// Request body for reserving an upload slot.
#[derive(Debug)]
pub struct UploadSampleBody {
    pub voice_name: String,
    pub description: Option<String>,
}

/// Everything a training worker must hand to the synthesis service to
/// register a voice: the voice's name and description, and the uploaded
/// sample bytes.
#[derive(Debug)]
pub struct TrainingTask {
    pub voice_id: String,
    pub voice_name: String,
    pub description: Option<String>,
    pub sample: Vec<u8>,
}

/// The number of non-deleted voices at which reservations are refused.
pub const VOICE_QUOTA: u64 = 10;

/// How long an upload capability URL stays valid, in seconds.
pub const UPLOAD_URL_TTL_SECS: u64 = 120;

impl System {
    /// Reserves an upload slot: creates a `Draft` voice named by the
    /// slug of the requested name and returns it together with a
    /// time-bounded upload URL for the voice's sample key.
    ///
    /// Refuses with `QuotaExceeded` when ten or more non-deleted voices
    /// exist, and with `Conflict` when a non-deleted voice already
    /// carries the slugged name or the id is already taken. No failure
    /// changes anything.
    pub fn request_put_url(&mut self, id: String, body: UploadSampleBody, now: u64) -> (r: Result<
        (Voice, String),
        PipelineError,
    >)
        requires
            old(self).wf(),
        ensures
            final(self).wf(),
            r matches Err(_) ==> *final(self) == *old(self),
            r matches Err(PipelineError::QuotaExceeded) <==> non_deleted_count(old(self).voices@)
                >= VOICE_QUOTA,
            r matches Err(PipelineError::Conflict) <==> (non_deleted_count(old(self).voices@)
                < VOICE_QUOTA && (has_live_name(old(self).voices@, slug_of(body.voice_name@))
                || has_voice(old(self).voices@, id@))),
            r is Ok <==> (non_deleted_count(old(self).voices@) < VOICE_QUOTA && !has_live_name(
                old(self).voices@,
                slug_of(body.voice_name@),
            ) && !has_voice(old(self).voices@, id@)),
            r matches Ok((v, url)) ==> {
                &&& v.id == id
                &&& v.name@ == slug_of(body.voice_name@)
                &&& v.status is Draft
                &&& v.description == body.description
                &&& v.eleven_labs_id is None
                &&& v.created_at == now
                &&& v.updated_at == now
                &&& final(self).voices@ == old(self).voices@.push(v)
                &&& url@ == spec_signed_url(
                    old(self).samples.bucket@,
                    spec_sample_key(id@),
                    "PUT"@,
                    UPLOAD_URL_TTL_SECS as nat,
                )
                &&& final(self).outputs == old(self).outputs
                &&& final(self).samples == old(self).samples
                &&& final(self).outputs_bucket == old(self).outputs_bucket
                &&& final(self).train_queue == old(self).train_queue
                &&& final(self).output_queue == old(self).output_queue
            },
    {
        let count = self.non_deleted_voices_count();
        if count >= VOICE_QUOTA {
            return Err(PipelineError::QuotaExceeded);
        }
        let name = slugify(body.voice_name.as_str());
        if self.live_name_exists(&name) {
            return Err(PipelineError::Conflict);
        }
        if let Some(_) = self.find_voice_index(id.as_str()) {
            return Err(PipelineError::Conflict);
        }
        let key = sample_key(id.as_str());
        let url = self.samples.put_presigned_url(key.as_str(), UPLOAD_URL_TTL_SECS);
        let v = Voice {
            id,
            name,
            status: VoiceStatus::Draft,
            description: body.description,
            eleven_labs_id: None,
            created_at: now,
            updated_at: now,
        };
        proof {
            lemma_voices_push(self.voices@, v);
        }
        let out = v.clone();
        self.voices.push(v);
        Ok((out, url))
    }

    /// Handles an upload notification for an object key: parses the
    /// voice id out of the key, publishes a training message grouped
    /// and deduplicated by that id, and advances the voice from `Draft`
    /// to `Training`.
    ///
    /// A key of the wrong shape is `InvalidInput`; an unknown voice is
    /// `NotFound`; a voice already `Active` or `Deleted` is
    /// `InvalidState`. A repeated notification for a voice already
    /// `Training` publishes nothing new (the deduplication key is still
    /// queued) or republishes once, and leaves the status `Training`.
    /// No failure changes anything.
    pub fn on_sample_uploaded(&mut self, key: &str, now: u64) -> (r: Result<Voice, PipelineError>)
        requires
            old(self).wf(),
        ensures
            final(self).wf(),
            r matches Err(_) ==> *final(self) == *old(self),
            r matches Err(PipelineError::InvalidInput) <==> spec_voice_id_of_key(key@) is None,
            r matches Err(PipelineError::NotFound) <==> (spec_voice_id_of_key(key@) matches Some(
                vid,
            ) && !has_voice(old(self).voices@, vid)),
            r matches Err(PipelineError::InvalidState) <==> (spec_voice_id_of_key(key@)
                matches Some(vid) && spec_find_voice(old(self).voices@, vid) matches Some(v0) && (
            v0.status is Active || v0.status is Deleted)),
            r is Ok <==> (spec_voice_id_of_key(key@) matches Some(vid) && spec_find_voice(
                old(self).voices@,
                vid,
            ) matches Some(v0) && (v0.status is Draft || v0.status is Training)),
            r matches Ok(v) ==> (spec_voice_id_of_key(key@) matches Some(vid) && spec_find_voice(
                old(self).voices@,
                vid,
            ) matches Some(v0) && {
                &&& v == (Voice { status: VoiceStatus::Training, updated_at: now, ..v0 })
                &&& final(self).voices@ == old(self).voices@.update(
                    voice_index(old(self).voices@, vid),
                    v,
                )
                &&& published(
                    old(self).train_queue.messages@,
                    final(self).train_queue.messages@,
                    vid,
                    vid,
                    vid,
                )
                &&& final(self).train_queue.queue_url == old(self).train_queue.queue_url
                &&& final(self).outputs == old(self).outputs
                &&& final(self).samples == old(self).samples
                &&& final(self).outputs_bucket == old(self).outputs_bucket
                &&& final(self).output_queue == old(self).output_queue
            }),
    {
        let vid = match voice_id_of_sample_key(key) {
            Some(vid) => vid,
            None => {
                return Err(PipelineError::InvalidInput);
            },
        };
        let i = match self.find_voice_index(vid.as_str()) {
            Some(i) => i,
            None => {
                return Err(PipelineError::NotFound);
            },
        };
        proof {
            let j = voice_index(self.voices@, vid@);
            assert(self.voices@[j].id@ == vid@);
            assert(j == i);
        }
        let status = self.voices[i].status;
        if matches!(status, VoiceStatus::Active) || matches!(status, VoiceStatus::Deleted) {
            return Err(PipelineError::InvalidState);
        }
        self.train_queue.send_fifo_message(
            FifoMessage { body: vid.clone(), group: vid.clone(), deduplication_id: vid.clone() },
        );
        proof {
            let oldq = old(self).train_queue.messages@;
            let newq = self.train_queue.messages@;
            if !crate::queue::has_dedup(oldq, vid@) {
                assert(newq.subrange(0, oldq.len() as int) =~= oldq);
            }
        }
        let v0 = self.voices[i].clone();
        let v = Voice { status: VoiceStatus::Training, updated_at: now, ..v0 };
        proof {
            lemma_voices_update(self.voices@, i as int, v);
        }
        let out = v.clone();
        self.voices.set(i, v);
        Ok(out)
    }

    /// Prepares the training of a voice for the training worker: reads
    /// the voice and, unless it is already `Active`, fetches its sample
    /// from the samples bucket.
    ///
    /// An unknown voice is `NotFound`. A voice already `Active` yields
    /// no task at all: the redelivered message is already handled, and
    /// the worker must not call the synthesis service again. A missing
    /// sample blob is `UpstreamFailure`, to be retried by redelivery.
    /// Nothing is changed in any case.
    pub fn begin_training(&self, voice_id: &str) -> (r: Result<
        Option<TrainingTask>,
        PipelineError,
    >)
        requires
            self.wf(),
        ensures
            r matches Err(PipelineError::NotFound) <==> !has_voice(self.voices@, voice_id@),
            r matches Ok(t) && t is None <==> (spec_find_voice(self.voices@, voice_id@)
                matches Some(v0) && v0.status is Active),
            r matches Err(PipelineError::UpstreamFailure) <==> (spec_find_voice(
                self.voices@,
                voice_id@,
            ) matches Some(v0) && !(v0.status is Active) && spec_lookup(
                self.samples.objects@,
                spec_sample_key(voice_id@),
            ) is None),
            r matches Ok(t) ==> (t matches Some(task) ==> (spec_find_voice(self.voices@, voice_id@)
                matches Some(v0) && {
                &&& !(v0.status is Active)
                &&& task.voice_id@ == voice_id@
                &&& task.voice_name == v0.name
                &&& task.description == v0.description
                &&& spec_lookup(self.samples.objects@, spec_sample_key(voice_id@)) == Some(
                    task.sample@,
                )
            })),
            r is Ok <==> (spec_find_voice(self.voices@, voice_id@) matches Some(v0) && (v0.status
                is Active || spec_lookup(
                self.samples.objects@,
                spec_sample_key(voice_id@),
            ) is Some)),
    {
        let i = match self.find_voice_index(voice_id) {
            Some(i) => i,
            None => {
                return Err(PipelineError::NotFound);
            },
        };
        proof {
            let j = voice_index(self.voices@, voice_id@);
            assert(self.voices@[j].id@ == voice_id@);
            assert(j == i);
        }
        let v0 = &self.voices[i];
        if matches!(v0.status, VoiceStatus::Active) {
            return Ok(None);
        }
        let key = sample_key(voice_id);
        let sample = match self.samples.get_object(key.as_str()) {
            Some(d) => d,
            None => {
                return Err(PipelineError::UpstreamFailure);
            },
        };
        Ok(
            Some(
                TrainingTask {
                    voice_id: String::from_str(voice_id),
                    voice_name: v0.name.clone(),
                    description: match &v0.description {
                        Some(d) => Some(d.clone()),
                        None => None,
                    },
                    sample,
                },
            ),
        )
    }

    /// Commits a successful training: the compare-based update that
    /// turns a `Training` voice `Active` and attaches the external id
    /// the synthesis service returned.
    ///
    /// An unknown voice is `NotFound`. A voice already `Active` is left
    /// exactly as it is — another delivery already handled this — and
    /// returned as the success value; in particular its external id is
    /// never overwritten. A `Draft` or `Deleted` voice fails the
    /// compare with `Conflict`. No failure changes anything.
    pub fn complete_training(&mut self, voice_id: &str, eleven_labs_id: String, now: u64) -> (r:
        Result<Voice, PipelineError>)
        requires
            old(self).wf(),
        ensures
            final(self).wf(),
            r matches Err(_) ==> *final(self) == *old(self),
            r matches Err(PipelineError::NotFound) <==> !has_voice(old(self).voices@, voice_id@),
            r matches Err(PipelineError::Conflict) <==> (spec_find_voice(
                old(self).voices@,
                voice_id@,
            ) matches Some(v0) && (v0.status is Draft || v0.status is Deleted)),
            r is Ok <==> (spec_find_voice(old(self).voices@, voice_id@) matches Some(v0) && (
            v0.status is Active || v0.status is Training)),
            r matches Ok(v) ==> (spec_find_voice(old(self).voices@, voice_id@) matches Some(v0)
                && if v0.status is Active {
                v == v0 && *final(self) == *old(self)
            } else {
                &&& v == (Voice {
                    status: VoiceStatus::Active,
                    eleven_labs_id: Some(eleven_labs_id),
                    updated_at: now,
                    ..v0
                })
                &&& final(self).voices@ == old(self).voices@.update(
                    voice_index(old(self).voices@, voice_id@),
                    v,
                )
                &&& final(self).outputs == old(self).outputs
                &&& final(self).samples == old(self).samples
                &&& final(self).outputs_bucket == old(self).outputs_bucket
                &&& final(self).train_queue == old(self).train_queue
                &&& final(self).output_queue == old(self).output_queue
            }),
    {
        let i = match self.find_voice_index(voice_id) {
            Some(i) => i,
            None => {
                return Err(PipelineError::NotFound);
            },
        };
        proof {
            let j = voice_index(self.voices@, voice_id@);
            assert(self.voices@[j].id@ == voice_id@);
            assert(j == i);
        }
        let status = self.voices[i].status;
        match status {
            VoiceStatus::Active => Ok(self.voices[i].clone()),
            VoiceStatus::Training => {
                let v0 = self.voices[i].clone();
                let v = Voice {
                    status: VoiceStatus::Active,
                    eleven_labs_id: Some(eleven_labs_id),
                    updated_at: now,
                    ..v0
                };
                proof {
                    lemma_voices_update(self.voices@, i as int, v);
                }
                let out = v.clone();
                self.voices.set(i, v);
                Ok(out)
            },
            _ => Err(PipelineError::Conflict),
        }
    }

    /// Checks that a voice may be deleted and hands back the external
    /// id the synthesis service must be told to delete. Nothing is
    /// changed: the deletion is committed only by
    /// `complete_delete_voice`, after the external delete succeeded.
    ///
    /// An unknown voice is `NotFound`; one not `Active` is
    /// `InvalidState`.
    pub fn begin_delete_voice(&self, voice_id: &str) -> (r: Result<String, PipelineError>)
        requires
            self.wf(),
        ensures
            r matches Err(PipelineError::NotFound) <==> !has_voice(self.voices@, voice_id@),
            r matches Err(PipelineError::InvalidState) <==> (spec_find_voice(
                self.voices@,
                voice_id@,
            ) matches Some(v0) && !(v0.status is Active)),
            r is Ok <==> (spec_find_voice(self.voices@, voice_id@) matches Some(v0) && v0.status
                is Active),
            r matches Ok(e) ==> (spec_find_voice(self.voices@, voice_id@) matches Some(v0)
                && v0.eleven_labs_id matches Some(x) && x == e),
    {
        let i = match self.find_voice_index(voice_id) {
            Some(i) => i,
            None => {
                return Err(PipelineError::NotFound);
            },
        };
        proof {
            let j = voice_index(self.voices@, voice_id@);
            assert(self.voices@[j].id@ == voice_id@);
            assert(j == i);
        }
        if !matches!(self.voices[i].status, VoiceStatus::Active) {
            return Err(PipelineError::InvalidState);
        }
        match &self.voices[i].eleven_labs_id {
            Some(e) => Ok(e.clone()),
            None => Err(PipelineError::InvalidState),
        }
    }

    /// Commits a confirmed deletion: removes the voice's sample blob
    /// and marks the record `Deleted` with its external id cleared.
    /// Must only be called once the synthesis service confirmed the
    /// external delete; if that call failed, nothing may be committed
    /// and the voice stays `Active`.
    ///
    /// An unknown voice is `NotFound`; one not `Active` is
    /// `InvalidState`. No failure changes anything.
    pub fn complete_delete_voice(&mut self, voice_id: &str, now: u64) -> (r: Result<
        Voice,
        PipelineError,
    >)
        requires
            old(self).wf(),
        ensures
            final(self).wf(),
            r matches Err(_) ==> *final(self) == *old(self),
            r matches Err(PipelineError::NotFound) <==> !has_voice(old(self).voices@, voice_id@),
            r matches Err(PipelineError::InvalidState) <==> (spec_find_voice(
                old(self).voices@,
                voice_id@,
            ) matches Some(v0) && !(v0.status is Active)),
            r is Ok <==> (spec_find_voice(old(self).voices@, voice_id@) matches Some(v0)
                && v0.status is Active),
            r matches Ok(v) ==> (spec_find_voice(old(self).voices@, voice_id@) matches Some(v0)
                && {
                &&& v == (Voice {
                    status: VoiceStatus::Deleted,
                    eleven_labs_id: None,
                    updated_at: now,
                    ..v0
                })
                &&& final(self).voices@ == old(self).voices@.update(
                    voice_index(old(self).voices@, voice_id@),
                    v,
                )
                &&& spec_lookup(final(self).samples.objects@, spec_sample_key(voice_id@)) is None
                &&& forall|k: Seq<char>|
                    k != spec_sample_key(voice_id@) ==> spec_lookup(final(self).samples.objects@, k)
                        == spec_lookup(old(self).samples.objects@, k)
                &&& final(self).samples.bucket == old(self).samples.bucket
                &&& final(self).outputs == old(self).outputs
                &&& final(self).outputs_bucket == old(self).outputs_bucket
                &&& final(self).train_queue == old(self).train_queue
                &&& final(self).output_queue == old(self).output_queue
            }),
    {
        let i = match self.find_voice_index(voice_id) {
            Some(i) => i,
            None => {
                return Err(PipelineError::NotFound);
            },
        };
        proof {
            let j = voice_index(self.voices@, voice_id@);
            assert(self.voices@[j].id@ == voice_id@);
            assert(j == i);
        }
        if !matches!(self.voices[i].status, VoiceStatus::Active) {
            return Err(PipelineError::InvalidState);
        }
        let key = sample_key(voice_id);
        self.samples.delete_object(key.as_str());
        let v0 = self.voices[i].clone();
        let v = Voice {
            status: VoiceStatus::Deleted,
            eleven_labs_id: None,
            updated_at: now,
            ..v0
        };
        proof {
            lemma_voices_update(self.voices@, i as int, v);
        }
        let out = v.clone();
        self.voices.set(i, v);
        Ok(out)
    }
}

} // verus!
