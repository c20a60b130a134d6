use parrot_api::errors::PipelineError;
use parrot_api::output::OutputStatus;
use parrot_api::output_generation::OutputPayload;
use parrot_api::system::System;
use parrot_api::voice::VoiceStatus;
use parrot_api::voice_lifecycle::UploadSampleBody;

fn system_with_active_voice() -> System {
    let mut sys = System::new(
        "samples",
        "outputs",
        "train-queue.fifo".to_string(),
        "output-queue.fifo".to_string(),
    );
    sys.request_put_url(
        "v1".to_string(),
        UploadSampleBody {
            voice_name: "nova".to_string(),
            description: Some("warm narrator".to_string()),
        },
        1,
    )
    .unwrap();
    sys.samples.put_object("v1.mp3", vec![1, 2, 3]);
    sys.on_sample_uploaded("v1.mp3", 2).unwrap();
    sys.train_queue.receive_fifo_message();
    sys.complete_training("v1", "ext-1".to_string(), 3).unwrap();
    sys
}

fn request(sys: &mut System, id: &str, voice: &str, text: &str, now: u64) -> Result<parrot_api::output::Output, PipelineError> {
    sys.create_output(
        id.to_string(),
        OutputPayload {
            voice_id: voice.to_string(),
            text: text.to_string(),
        },
        now,
    )
}

/// Scenario B end to end: request an output with padded text, see the
/// trimmed Pending record and its queued message, then process the
/// message: the blob lands under the output id and the status commits
/// to Done.
#[test]
fn scenario_b_request_and_generate() {
    let mut sys = system_with_active_voice();
    let output = request(&mut sys, "o1", "v1", "  Hello world  ", 5).unwrap();
    assert_eq!(output.text, "Hello world");
    assert_eq!(output.status, OutputStatus::Pending);
    assert_eq!(output.voice, "v1");
    assert_eq!(sys.output_queue.messages.len(), 1);
    assert_eq!(sys.output_queue.messages[0].body, "o1");
    assert_eq!(sys.output_queue.messages[0].group, "v1");
    assert_eq!(sys.output_queue.messages[0].deduplication_id, "o1");

    let delivered = sys.output_queue.receive_fifo_message();
    assert_eq!(delivered, vec!["o1".to_string()]);
    let task = sys.begin_generation("o1").unwrap().unwrap();
    assert_eq!(task.eleven_labs_id, "ext-1");
    assert_eq!(task.text, "Hello world");
    let done = sys.complete_generation("o1", vec![9, 9, 9], 6).unwrap();
    assert_eq!(done.status, OutputStatus::Done);
    assert_eq!(done.updated_at, 6);
    assert_eq!(sys.outputs_bucket.get_object("o1"), Some(vec![9, 9, 9]));
}

/// Redelivering a generation message after the output is Done yields no
/// task and never overwrites the stored blob.
#[test]
fn generation_redelivery_keeps_blob() {
    let mut sys = system_with_active_voice();
    request(&mut sys, "o1", "v1", "Hello", 5).unwrap();
    sys.complete_generation("o1", vec![9, 9], 6).unwrap();

    assert!(sys.begin_generation("o1").unwrap().is_none());
    let again = sys.complete_generation("o1", vec![7], 7).unwrap();
    assert_eq!(again.status, OutputStatus::Done);
    assert_eq!(again.updated_at, 6);
    assert_eq!(sys.outputs_bucket.get_object("o1"), Some(vec![9, 9]));
}

/// Requesting an output against a Draft voice fails with InvalidState
/// and enqueues nothing.
#[test]
fn request_output_draft_voice_rejected() {
    let mut sys = System::new(
        "samples",
        "outputs",
        "train-queue.fifo".to_string(),
        "output-queue.fifo".to_string(),
    );
    sys.request_put_url(
        "v1".to_string(),
        UploadSampleBody {
            voice_name: "nova".to_string(),
            description: None,
        },
        1,
    )
    .unwrap();
    assert_eq!(sys.read_voice("v1").unwrap().status, VoiceStatus::Draft);
    let err = request(&mut sys, "o1", "v1", "Hello", 2).unwrap_err();
    assert_eq!(err, PipelineError::InvalidState);
    assert_eq!(sys.output_queue.messages.len(), 0);
    assert!(sys.read_output("o1").is_none());
}

/// An unknown voice is NotFound; text that trims to nothing is
/// InvalidInput; a reused output id is Conflict.
#[test]
fn request_output_input_errors() {
    let mut sys = system_with_active_voice();
    assert_eq!(
        request(&mut sys, "o1", "ghost", "Hello", 5).unwrap_err(),
        PipelineError::NotFound
    );
    assert_eq!(
        request(&mut sys, "o1", "v1", "   ", 5).unwrap_err(),
        PipelineError::InvalidInput
    );
    request(&mut sys, "o1", "v1", "Hello", 5).unwrap();
    assert_eq!(
        request(&mut sys, "o1", "v1", "Other", 6).unwrap_err(),
        PipelineError::Conflict
    );
    assert_eq!(sys.output_queue.messages.len(), 1);
}

/// Each request is enqueued at most once, keyed by the output id; a
/// second output for the same voice shares the group.
#[test]
fn generation_messages_grouped_by_voice() {
    let mut sys = system_with_active_voice();
    request(&mut sys, "o1", "v1", "One", 5).unwrap();
    request(&mut sys, "o2", "v1", "Two", 6).unwrap();
    assert_eq!(sys.output_queue.messages.len(), 2);
    assert_eq!(sys.output_queue.messages[0].group, "v1");
    assert_eq!(sys.output_queue.messages[1].group, "v1");
    assert_eq!(sys.output_queue.messages[0].deduplication_id, "o1");
    assert_eq!(sys.output_queue.messages[1].deduplication_id, "o2");
}

/// A generation message whose voice carries no external id is a data
/// integrity failure, surfaced as InvalidState.
#[test]
fn generation_without_external_id_is_fatal() {
    let mut sys = system_with_active_voice();
    request(&mut sys, "o1", "v1", "Hello", 5).unwrap();
    sys.begin_delete_voice("v1").unwrap();
    sys.complete_delete_voice("v1", 6).unwrap();
    let err = sys.begin_generation("o1").unwrap_err();
    assert_eq!(err, PipelineError::InvalidState);
    assert!(!err.retryable());
}

/// The text search returns the outputs whose text contains the term,
/// joined with their voice records, in creation order.
#[test]
fn search_text_joins_voices() {
    let mut sys = system_with_active_voice();
    request(&mut sys, "o1", "v1", "the quick brown fox", 5).unwrap();
    request(&mut sys, "o2", "v1", "lazy dogs sleep", 6).unwrap();
    request(&mut sys, "o3", "v1", "quick thinking", 7).unwrap();

    let hits = sys.search_text("quick");
    assert_eq!(hits.len(), 2);
    assert_eq!(hits[0].id, "o1");
    assert_eq!(hits[1].id, "o3");
    assert_eq!(hits[0].voice.id, "v1");
    assert_eq!(hits[0].voice.name, "nova");
    assert_eq!(hits[0].text, "the quick brown fox");

    assert_eq!(sys.search_text("zebra").len(), 0);
}

/// The download URL names the outputs bucket and the output id, and can
/// be fetched before the output is Done.
#[test]
fn output_download_url() {
    let mut sys = system_with_active_voice();
    request(&mut sys, "o1", "v1", "Hello", 5).unwrap();
    let url = sys.get_output_presigned("o1").unwrap();
    assert!(url.contains("outputs"));
    assert!(url.contains("/o1"));
    assert!(url.contains("method=GET"));
    assert!(url.contains("expires=60"));
    assert_eq!(
        sys.get_output_presigned("ghost").unwrap_err(),
        PipelineError::NotFound
    );
}
