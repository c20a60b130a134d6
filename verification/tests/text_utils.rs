use parrot_api::object_store::Client;
use parrot_api::queue::{FifoMessage, FifoQueue};
use parrot_api::text::{sample_key, text_contains, trim, u64_to_dec_string, voice_id_of_sample_key};
use parrot_api::types::{CloneVoiceFifoMessage, CreateOutputFifoMessage, TrainSampleFifoMessage};

#[test]
fn trim_strips_both_ends() {
    assert_eq!(trim("  Hello world  "), "Hello world");
    assert_eq!(trim("\t\n x \r"), "x");
    assert_eq!(trim("nothing-to-do"), "nothing-to-do");
    assert_eq!(trim("   "), "");
    assert_eq!(trim(""), "");
    assert_eq!(trim(" inner  spaces kept "), "inner  spaces kept");
}

#[test]
fn sample_key_round_trips() {
    let key = sample_key("v1");
    assert_eq!(key, "v1.mp3");
    assert_eq!(voice_id_of_sample_key(&key), Some("v1".to_string()));
    assert_eq!(voice_id_of_sample_key("v1.mp3"), Some("v1".to_string()));
    assert_eq!(voice_id_of_sample_key(".mp3"), None);
    assert_eq!(voice_id_of_sample_key("v1.wav"), None);
    assert_eq!(voice_id_of_sample_key("v1"), None);
    assert_eq!(voice_id_of_sample_key("a.mp3.mp3"), Some("a.mp3".to_string()));
}

#[test]
fn text_contains_finds_runs() {
    assert!(text_contains("the quick brown fox", "quick"));
    assert!(text_contains("abc", ""));
    assert!(text_contains("abc", "abc"));
    assert!(!text_contains("abc", "abcd"));
    assert!(!text_contains("the quick brown fox", "Quick"));
    assert!(text_contains("aaab", "aab"));
}

#[test]
fn decimal_rendering() {
    assert_eq!(u64_to_dec_string(0), "0");
    assert_eq!(u64_to_dec_string(7), "7");
    assert_eq!(u64_to_dec_string(120), "120");
    assert_eq!(u64_to_dec_string(1009), "1009");
    assert_eq!(u64_to_dec_string(u64::MAX), "18446744073709551615");
}

#[test]
fn message_envelopes_round_trip() {
    let m = TrainSampleFifoMessage { voice_id: "v1".to_string() };
    let encoded = m.encode();
    assert_eq!(encoded, "{\"voice_id\":\"v1\"}");
    assert_eq!(TrainSampleFifoMessage::decode(&encoded), Some(m));

    let c = CloneVoiceFifoMessage { voice_id: "v2".to_string() };
    assert_eq!(CloneVoiceFifoMessage::decode(&c.encode()), Some(c));

    let o = CreateOutputFifoMessage { output_id: "o1".to_string() };
    let encoded = o.encode();
    assert_eq!(encoded, "{\"output_id\":\"o1\"}");
    assert_eq!(CreateOutputFifoMessage::decode(&encoded), Some(o));
}

#[test]
fn message_envelopes_reject_other_shapes() {
    assert_eq!(TrainSampleFifoMessage::decode(""), None);
    assert_eq!(TrainSampleFifoMessage::decode("{}"), None);
    assert_eq!(TrainSampleFifoMessage::decode("{\"output_id\":\"o1\"}"), None);
    assert_eq!(TrainSampleFifoMessage::decode("{\"voice_id\":\"v1\""), None);
    assert_eq!(
        TrainSampleFifoMessage::decode("{\"voice_id\":\"a\"b\"}"),
        None
    );
}

#[test]
fn object_store_put_get_delete() {
    let mut c = Client::new("bucket");
    assert_eq!(c.get_object("k"), None);
    c.put_object("k", vec![1, 2]);
    assert_eq!(c.get_object("k"), Some(vec![1, 2]));
    c.put_object("k", vec![3]);
    assert_eq!(c.get_object("k"), Some(vec![3]));
    c.put_object("k2", vec![4]);
    c.delete_object("k");
    assert_eq!(c.get_object("k"), None);
    assert_eq!(c.get_object("k2"), Some(vec![4]));
    let url = c.put_presigned_url("k3", 120);
    assert_eq!(url, "https://bucket/k3?method=PUT&expires=120");
    let url = c.get_presigned_url("k3");
    assert_eq!(url, "https://bucket/k3?method=GET&expires=60");
}

#[test]
fn queue_dedup_and_order() {
    let mut q = FifoQueue::new("q.fifo".to_string());
    q.send_fifo_message(FifoMessage {
        body: "a".to_string(),
        group: "g".to_string(),
        deduplication_id: "d1".to_string(),
    });
    q.send_fifo_message(FifoMessage {
        body: "b".to_string(),
        group: "g".to_string(),
        deduplication_id: "d1".to_string(),
    });
    q.send_fifo_message(FifoMessage {
        body: "c".to_string(),
        group: "g".to_string(),
        deduplication_id: "d2".to_string(),
    });
    assert_eq!(q.messages.len(), 2);
    let delivered = q.receive_fifo_message();
    assert_eq!(delivered, vec!["a".to_string(), "c".to_string()]);
    assert_eq!(q.messages.len(), 0);
}
