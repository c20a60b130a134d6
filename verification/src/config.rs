use vstd::prelude::*;

verus! {

/// Deployment stage, read from configuration at process start.
#[derive(Debug)]
pub enum Stage {
    Local,
    Test,
    Prod,
    Other(String),
}

/// Logging verbosity, read from configuration at process start.
#[derive(Clone, Copy, Debug, PartialEq, Eq, Structural)]
pub enum LogLevel {
    Debug,
    Info,
    Error,
}

/// Process-wide settings, loaded once at startup and passed explicitly
/// into the gateways; nothing reads configuration mid-operation.
#[derive(Debug)]
pub struct Config {
    pub stage: Stage,
    pub log_level: LogLevel,
    pub eleven_labs_api_key: String,
    pub authentication_token: String,
    pub clone_voice_queue_url: String,
    pub train_voice_queue_url: String,
    pub create_output_queue_url: String,
    pub samples_bucket_name: String,
    pub outputs_bucket_name: String,
}

/// Parses an upper-cased stage setting. Any unknown value is kept
/// verbatim under `Other`.
pub fn stage_of(s: &str) -> (r: Stage)
    ensures
        s@ == "LOCAL"@ ==> r is Local,
        s@ == "PROD"@ ==> r is Prod,
        s@ == "TEST"@ ==> r is Test,
        s@ != "LOCAL"@ && s@ != "PROD"@ && s@ != "TEST"@ ==> (r matches Stage::Other(o)
            && o@ == s@),
{
    proof {
        reveal_strlit("LOCAL");
        reveal_strlit("PROD");
        reveal_strlit("TEST");
        assert("LOCAL"@.len() == 5);
        assert("PROD"@.len() == 4);
        assert("TEST"@.len() == 4);
        assert("PROD"@[0] == 'P');
        assert("TEST"@[0] == 'T');
    }
    let v = String::from_str(s);
    if v == String::from_str("LOCAL") {
        Stage::Local
    } else if v == String::from_str("PROD") {
        Stage::Prod
    } else if v == String::from_str("TEST") {
        Stage::Test
    } else {
        Stage::Other(v)
    }
}

/// Parses an upper-cased log-level setting; anything unknown falls back
/// to `Error`.
pub fn log_level_of(s: &str) -> (r: LogLevel)
    ensures
        s@ == "DEBUG"@ ==> r is Debug,
        s@ == "INFO"@ ==> r is Info,
        s@ != "DEBUG"@ && s@ != "INFO"@ ==> r is Error,
{
    proof {
        reveal_strlit("DEBUG");
        reveal_strlit("INFO");
        assert("DEBUG"@.len() == 5);
        assert("INFO"@.len() == 4);
    }
    let v = String::from_str(s);
    if v == String::from_str("DEBUG") {
        LogLevel::Debug
    } else if v == String::from_str("INFO") {
        LogLevel::Info
    } else {
        LogLevel::Error
    }
}

} // verus!
