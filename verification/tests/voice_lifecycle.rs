use parrot_api::errors::PipelineError;
use parrot_api::system::System;
use parrot_api::voice::VoiceStatus;
use parrot_api::voice_lifecycle::UploadSampleBody;

fn fresh_system() -> System {
    System::new(
        "samples",
        "outputs",
        "train-queue.fifo".to_string(),
        "output-queue.fifo".to_string(),
    )
}

fn reserve(sys: &mut System, id: &str, name: &str, now: u64) -> Result<(parrot_api::voice::Voice, String), PipelineError> {
    sys.request_put_url(
        id.to_string(),
        UploadSampleBody {
            voice_name: name.to_string(),
            description: None,
        },
        now,
    )
}

/// Scenario A end to end: reserve a slot for "nova", simulate the
/// upload notification, process the training message, and watch the
/// voice go Draft -> Training -> Active with its external id attached.
#[test]
fn scenario_a_reserve_upload_train() {
    let mut sys = fresh_system();
    let (voice, url) = reserve(&mut sys, "v1", "nova", 1).unwrap();
    assert_eq!(voice.status, VoiceStatus::Draft);
    assert_eq!(voice.name, "nova");
    assert_eq!(voice.eleven_labs_id, None);
    assert_eq!(voice.created_at, 1);
    assert!(url.contains("v1.mp3"));
    assert!(url.contains("samples"));
    assert!(url.contains("method=PUT"));

    // the client uploads the sample, then the store notifies us
    sys.samples.put_object("v1.mp3", vec![1, 2, 3]);
    let training = sys.on_sample_uploaded("v1.mp3", 2).unwrap();
    assert_eq!(training.status, VoiceStatus::Training);
    assert_eq!(sys.train_queue.messages.len(), 1);
    assert_eq!(sys.train_queue.messages[0].body, "v1");
    assert_eq!(sys.train_queue.messages[0].group, "v1");
    assert_eq!(sys.train_queue.messages[0].deduplication_id, "v1");

    // the training worker consumes the message
    let delivered = sys.train_queue.receive_fifo_message();
    assert_eq!(delivered, vec!["v1".to_string()]);
    let task = sys.begin_training("v1").unwrap().unwrap();
    assert_eq!(task.voice_id, "v1");
    assert_eq!(task.voice_name, "nova");
    assert_eq!(task.sample, vec![1, 2, 3]);
    let active = sys.complete_training("v1", "ext-1".to_string(), 3).unwrap();
    assert_eq!(active.status, VoiceStatus::Active);
    assert_eq!(active.eleven_labs_id, Some("ext-1".to_string()));
    assert_eq!(active.updated_at, 3);
}

/// Every observed voice has an external id exactly while it is Active.
#[test]
fn active_iff_external_id() {
    let mut sys = fresh_system();
    reserve(&mut sys, "v1", "nova", 1).unwrap();
    sys.samples.put_object("v1.mp3", vec![1]);
    sys.on_sample_uploaded("v1.mp3", 2).unwrap();
    for v in sys.list_voices() {
        assert_eq!(v.status == VoiceStatus::Active, v.eleven_labs_id.is_some());
    }
    sys.complete_training("v1", "ext-1".to_string(), 3).unwrap();
    for v in sys.list_voices() {
        assert_eq!(v.status == VoiceStatus::Active, v.eleven_labs_id.is_some());
    }
    sys.complete_delete_voice("v1", 4).unwrap();
    for v in sys.list_voices() {
        assert_eq!(v.status == VoiceStatus::Active, v.eleven_labs_id.is_some());
    }
}

/// Redelivering a training message for a voice that is already Active
/// is a no-op: no task (so no second synthesis call), no state change,
/// no error; a repeated commit never overwrites the external id.
#[test]
fn training_redelivery_is_noop() {
    let mut sys = fresh_system();
    reserve(&mut sys, "v1", "nova", 1).unwrap();
    sys.samples.put_object("v1.mp3", vec![1]);
    sys.on_sample_uploaded("v1.mp3", 2).unwrap();
    sys.complete_training("v1", "ext-1".to_string(), 3).unwrap();

    let again = sys.begin_training("v1").unwrap();
    assert!(again.is_none());
    let committed = sys.complete_training("v1", "ext-other".to_string(), 9).unwrap();
    assert_eq!(committed.eleven_labs_id, Some("ext-1".to_string()));
    assert_eq!(committed.updated_at, 3);
}

/// Reserving a slot under a name an existing non-deleted voice carries
/// fails with Conflict and creates no record.
#[test]
fn reserve_conflict_on_taken_name() {
    let mut sys = fresh_system();
    reserve(&mut sys, "v1", "nova", 1).unwrap();
    let err = reserve(&mut sys, "v2", "nova", 2).unwrap_err();
    assert_eq!(err, PipelineError::Conflict);
    assert_eq!(sys.list_voices().len(), 1);
}

/// Once the name's owner is deleted, the name is free again.
#[test]
fn reserve_name_free_after_delete() {
    let mut sys = fresh_system();
    reserve(&mut sys, "v1", "nova", 1).unwrap();
    sys.samples.put_object("v1.mp3", vec![1]);
    sys.on_sample_uploaded("v1.mp3", 2).unwrap();
    sys.complete_training("v1", "ext-1".to_string(), 3).unwrap();
    sys.complete_delete_voice("v1", 4).unwrap();
    let (voice, _) = reserve(&mut sys, "v2", "nova", 5).unwrap();
    assert_eq!(voice.name, "nova");
}

/// The eleventh non-deleted voice is refused with QuotaExceeded.
#[test]
fn reserve_quota_exceeded() {
    let mut sys = fresh_system();
    for i in 0..10 {
        let id = format!("v{i}");
        let name = format!("voice number {i}");
        reserve(&mut sys, &id, &name, i).unwrap();
    }
    let err = reserve(&mut sys, "v10", "one too many", 10).unwrap_err();
    assert_eq!(err, PipelineError::QuotaExceeded);
    assert_eq!(sys.list_voices().len(), 10);
}

/// The stored name is the slug of the requested name, not the raw text.
#[test]
fn reserve_slugs_the_name() {
    let mut sys = fresh_system();
    let (voice, _) = reserve(&mut sys, "v1", "My Test String!!!1!1", 1).unwrap();
    assert_eq!(voice.name, "my-test-string-1-1");
    let (voice2, _) = reserve(&mut sys, "v2", "You & Me", 2).unwrap();
    assert_eq!(voice2.name, "you-me");
}

/// Two reservations whose names slug to the same text collide.
#[test]
fn reserve_conflict_on_equal_slugs() {
    let mut sys = fresh_system();
    reserve(&mut sys, "v1", "Hello World", 1).unwrap();
    let err = reserve(&mut sys, "v2", "hello   world", 2).unwrap_err();
    assert_eq!(err, PipelineError::Conflict);
}

/// An upload notification whose key has no id stem is rejected as
/// invalid input, before anything is looked up.
#[test]
fn upload_notification_bad_key() {
    let mut sys = fresh_system();
    assert_eq!(
        sys.on_sample_uploaded("nokey", 1).unwrap_err(),
        PipelineError::InvalidInput
    );
    assert_eq!(
        sys.on_sample_uploaded(".mp3", 1).unwrap_err(),
        PipelineError::InvalidInput
    );
    assert_eq!(
        sys.on_sample_uploaded("v9.mp3", 1).unwrap_err(),
        PipelineError::NotFound
    );
    assert_eq!(sys.train_queue.messages.len(), 0);
}

/// Duplicate upload notifications collapse on the deduplication key:
/// one message, status still Training.
#[test]
fn upload_notification_deduplicates() {
    let mut sys = fresh_system();
    reserve(&mut sys, "v1", "nova", 1).unwrap();
    sys.samples.put_object("v1.mp3", vec![1]);
    sys.on_sample_uploaded("v1.mp3", 2).unwrap();
    let again = sys.on_sample_uploaded("v1.mp3", 3).unwrap();
    assert_eq!(again.status, VoiceStatus::Training);
    assert_eq!(sys.train_queue.messages.len(), 1);
}

/// A notification for a voice already Active is rejected without any
/// state change.
#[test]
fn upload_notification_rejected_when_active() {
    let mut sys = fresh_system();
    reserve(&mut sys, "v1", "nova", 1).unwrap();
    sys.samples.put_object("v1.mp3", vec![1]);
    sys.on_sample_uploaded("v1.mp3", 2).unwrap();
    sys.train_queue.receive_fifo_message();
    sys.complete_training("v1", "ext-1".to_string(), 3).unwrap();
    let err = sys.on_sample_uploaded("v1.mp3", 4).unwrap_err();
    assert_eq!(err, PipelineError::InvalidState);
    assert_eq!(sys.train_queue.messages.len(), 0);
    assert_eq!(
        sys.read_voice("v1").unwrap().status,
        VoiceStatus::Active
    );
}

/// A training message whose sample blob is gone fails retryably, and
/// the voice stays Training and eligible for reprocessing.
#[test]
fn training_missing_blob_is_retryable() {
    let mut sys = fresh_system();
    reserve(&mut sys, "v1", "nova", 1).unwrap();
    sys.samples.put_object("v1.mp3", vec![1]);
    sys.on_sample_uploaded("v1.mp3", 2).unwrap();
    sys.samples.delete_object("v1.mp3");
    let err = sys.begin_training("v1").unwrap_err();
    assert_eq!(err, PipelineError::UpstreamFailure);
    assert!(err.retryable());
    assert_eq!(sys.read_voice("v1").unwrap().status, VoiceStatus::Training);
}

/// Committing a training for a voice still in Draft fails the
/// compare-based update.
#[test]
fn training_commit_needs_training_status() {
    let mut sys = fresh_system();
    reserve(&mut sys, "v1", "nova", 1).unwrap();
    let err = sys.complete_training("v1", "ext-1".to_string(), 2).unwrap_err();
    assert_eq!(err, PipelineError::Conflict);
    assert_eq!(sys.read_voice("v1").unwrap().status, VoiceStatus::Draft);
}

/// Scenario C: when the external delete fails, nothing is committed —
/// the voice stays Active and its sample blob stays in the bucket.
#[test]
fn scenario_c_failed_external_delete_commits_nothing() {
    let mut sys = fresh_system();
    reserve(&mut sys, "v1", "nova", 1).unwrap();
    sys.samples.put_object("v1.mp3", vec![1, 2]);
    sys.on_sample_uploaded("v1.mp3", 2).unwrap();
    sys.complete_training("v1", "ext-1".to_string(), 3).unwrap();

    let external_id = sys.begin_delete_voice("v1").unwrap();
    assert_eq!(external_id, "ext-1");
    // the synthesis service's delete call fails here: the commit step
    // is never reached
    let v = sys.read_voice("v1").unwrap();
    assert_eq!(v.status, VoiceStatus::Active);
    assert_eq!(v.eleven_labs_id, Some("ext-1".to_string()));
    assert!(sys.samples.get_object("v1.mp3").is_some());
}

/// A confirmed delete clears the external id, removes the sample blob
/// and soft-deletes the record.
#[test]
fn delete_voice_commits_after_confirmation() {
    let mut sys = fresh_system();
    reserve(&mut sys, "v1", "nova", 1).unwrap();
    sys.samples.put_object("v1.mp3", vec![1, 2]);
    sys.on_sample_uploaded("v1.mp3", 2).unwrap();
    sys.complete_training("v1", "ext-1".to_string(), 3).unwrap();

    sys.begin_delete_voice("v1").unwrap();
    let deleted = sys.complete_delete_voice("v1", 4).unwrap();
    assert_eq!(deleted.status, VoiceStatus::Deleted);
    assert_eq!(deleted.eleven_labs_id, None);
    assert!(sys.samples.get_object("v1.mp3").is_none());
    assert_eq!(sys.list_voices().len(), 1);
}

/// Deletion requires an Active voice.
#[test]
fn delete_voice_requires_active() {
    let mut sys = fresh_system();
    reserve(&mut sys, "v1", "nova", 1).unwrap();
    assert_eq!(
        sys.begin_delete_voice("v1").unwrap_err(),
        PipelineError::InvalidState
    );
    assert_eq!(
        sys.begin_delete_voice("missing").unwrap_err(),
        PipelineError::NotFound
    );
    assert_eq!(
        sys.complete_delete_voice("v1", 2).unwrap_err(),
        PipelineError::InvalidState
    );
}

/// The description given at reservation rides along into the record and
/// into the training task handed to the synthesis worker.
#[test]
fn description_flows_to_training_task() {
    let mut sys = fresh_system();
    let (voice, _) = sys
        .request_put_url(
            "v1".to_string(),
            UploadSampleBody {
                voice_name: "nova".to_string(),
                description: Some("warm narrator".to_string()),
            },
            1,
        )
        .unwrap();
    assert_eq!(voice.description, Some("warm narrator".to_string()));
    sys.samples.put_object("v1.mp3", vec![1]);
    sys.on_sample_uploaded("v1.mp3", 2).unwrap();
    let task = sys.begin_training("v1").unwrap().unwrap();
    assert_eq!(task.description, Some("warm narrator".to_string()));
}

/// The active-voice count follows activations and deletions.
#[test]
fn active_voices_count_tracks_status() {
    let mut sys = fresh_system();
    assert_eq!(sys.active_voices_count(), 0);
    reserve(&mut sys, "v1", "nova", 1).unwrap();
    assert_eq!(sys.active_voices_count(), 0);
    sys.samples.put_object("v1.mp3", vec![1]);
    sys.on_sample_uploaded("v1.mp3", 2).unwrap();
    sys.complete_training("v1", "ext-1".to_string(), 3).unwrap();
    assert_eq!(sys.active_voices_count(), 1);
    sys.complete_delete_voice("v1", 4).unwrap();
    assert_eq!(sys.active_voices_count(), 0);
}
