use vstd::prelude::*;

verus! {

/// Handle on the external synthesis service: everything a caller needs
/// to talk to it. The network calls themselves live outside the library;
/// the coordinators receive their results as plain values.
#[derive(Debug)]
pub struct ElevenLabs {
    pub api_key: String,
}

impl ElevenLabs {
    pub fn new(api_key: String) -> (c: ElevenLabs)
        ensures
            c.api_key == api_key,
    {
        ElevenLabs { api_key }
    }

    pub fn base_url() -> (u: String)
        ensures
            u@ == "https://api.elevenlabs.io/v1"@,
    {
        String::from_str("https://api.elevenlabs.io/v1")
    }
}

/// Error detail inside a structured error payload of the synthesis
/// service.
#[derive(Debug)]
pub struct ErrorMessage {
    pub status: String,
    pub message: String,
}

/// Structured error payload of the synthesis service; receiving one
/// means the call failed, whatever the transport said.
#[derive(Debug)]
pub struct ErrorResponse {
    pub detail: ErrorMessage,
}

/// A voice as the synthesis service reports it.
#[derive(Debug)]
pub struct Voice {
    pub voice_id: String,
    pub name: String,
    pub category: String,
    pub description: Option<String>,
}

/// Reply to a voice-registration call: the external id of the new voice.
#[derive(Debug)]
pub struct AddVoiceResponse {
    pub voice_id: String,
}

/// Reply to a voice-listing call.
#[derive(Debug)]
pub struct VoicesResponse {
    pub voices: Vec<Voice>,
}

} // verus!
