use vstd::prelude::*;

verus! {

/// The wire shape of a queue payload that carries one entity id under
/// one fixed field: the given prefix (`{"<field>":"`), the id, then
/// `"}`.
pub open spec fn spec_id_payload(prefix: Seq<char>, id: Seq<char>) -> Seq<char> {
    prefix + id + "\"}"@
}

/// Reads an id back out of a payload of that shape: the text must start
/// with the prefix, end with `"}`, and hold no quote in between. Any
/// other text is rejected.
pub open spec fn spec_decode_id_payload(s: Seq<char>, prefix: Seq<char>) -> Option<Seq<char>> {
    if s.len() >= prefix.len() + 2 && s.subrange(0, prefix.len() as int) == prefix && s.subrange(
        s.len() - 2,
        s.len() as int,
    ) == "\"}"@ && (forall|i: int| prefix.len() <= i < s.len() - 2 ==> (#[trigger] s[i]) != '"') {
        Some(s.subrange(prefix.len() as int, s.len() - 2))
    } else {
        None
    }
}

/// An encoded id payload always decodes back to the id it carries,
/// for every id free of quotes.
pub proof fn lemma_id_payload_round_trip(prefix: Seq<char>, id: Seq<char>)
    requires
        forall|i: int| 0 <= i < id.len() ==> (#[trigger] id[i]) != '"',
    ensures
        spec_decode_id_payload(spec_id_payload(prefix, id), prefix) == Some(id),
{
    reveal_strlit("\"}");
    assert("\"}"@.len() == 2);
    let s = spec_id_payload(prefix, id);
    assert(s.len() == prefix.len() + id.len() + 2);
    assert(s.subrange(0, prefix.len() as int) =~= prefix);
    assert(s.subrange(s.len() - 2, s.len() as int) =~= "\"}"@);
    assert forall|i: int| prefix.len() <= i < s.len() - 2 implies (#[trigger] s[i]) != '"' by {
        assert(s[i] == id[i - prefix.len()]);
    }
    assert(s.subrange(prefix.len() as int, s.len() - 2) =~= id);
}

fn encode_id_payload(prefix: &str, id: &str) -> (s: String)
    ensures
        s@ == spec_id_payload(prefix@, id@),
{
    let mut s = String::from_str(prefix);
    s.append(id);
    s.append("\"}");
    s
}

fn decode_id_payload(s: &str, prefix: &str) -> (r: Option<String>)
    ensures
        match r {
            Some(id) => spec_decode_id_payload(s@, prefix@) == Some(id@),
            None => spec_decode_id_payload(s@, prefix@) is None,
        },
{
    proof {
        reveal_strlit("\"}");
        assert("\"}"@.len() == 2);
        assert("\"}"@[0] == '"');
        assert("\"}"@[1] == '}');
    }
    let n = s.unicode_len();
    let p = prefix.unicode_len();
    if n < 2 || n - 2 < p {
        return None;
    }
    let mut i: usize = 0;
    while i < p
        invariant
            0 <= i <= p,
            p == prefix@.len(),
            p + 2 <= n == s@.len(),
            forall|j: int| 0 <= j < i ==> s@[j] == (#[trigger] prefix@[j]),
        decreases p - i,
    {
        if s.get_char(i) != prefix.get_char(i) {
            proof {
                let head = s@.subrange(0, p as int);
                assert(head[i as int] == s@[i as int]);
            }
            return None;
        }
        i = i + 1;
    }
    proof {
        assert(s@.subrange(0, p as int) =~= prefix@);
    }
    if s.get_char(n - 2) != '"' || s.get_char(n - 1) != '}' {
        proof {
            let tail = s@.subrange(n - 2, n as int);
            assert(tail[0] == s@[n - 2]);
            assert(tail[1] == s@[n - 1]);
        }
        return None;
    }
    proof {
        assert(s@.subrange(n - 2, n as int) =~= "\"}"@);
    }
    let mut j: usize = p;
    while j < n - 2
        invariant
            p <= j <= n - 2,
            p == prefix@.len(),
            p + 2 <= n == s@.len(),
            forall|k: int| p <= k < j ==> (#[trigger] s@[k]) != '"',
        decreases n - j,
    {
        if s.get_char(j) == '"' {
            return None;
        }
        j = j + 1;
    }
    Some(s.substring_char(p, n - 2).to_owned())
}

/// Queue payload that references a voice to be cloned.
#[derive(Debug, PartialEq)]
pub struct CloneVoiceFifoMessage {
    pub voice_id: String,
}

/// Queue payload that references a voice whose sample awaits training.
#[derive(Debug, PartialEq)]
pub struct TrainSampleFifoMessage {
    pub voice_id: String,
}

/// Queue payload that references an output awaiting synthesis.
#[derive(Debug, PartialEq)]
pub struct CreateOutputFifoMessage {
    pub output_id: String,
}

impl CloneVoiceFifoMessage {
    pub open spec fn spec_encoded(&self) -> Seq<char> {
        spec_id_payload("{\"voice_id\":\""@, self.voice_id@)
    }

    pub fn encode(&self) -> (s: String)
        ensures
            s@ == self.spec_encoded(),
    {
        encode_id_payload("{\"voice_id\":\"", self.voice_id.as_str())
    }

    pub fn decode(s: &str) -> (r: Option<CloneVoiceFifoMessage>)
        ensures
            match r {
                Some(m) => spec_decode_id_payload(s@, "{\"voice_id\":\""@) == Some(m.voice_id@),
                None => spec_decode_id_payload(s@, "{\"voice_id\":\""@) is None,
            },
    {
        match decode_id_payload(s, "{\"voice_id\":\"") {
            Some(id) => Some(CloneVoiceFifoMessage { voice_id: id }),
            None => None,
        }
    }
}

impl TrainSampleFifoMessage {
    pub open spec fn spec_encoded(&self) -> Seq<char> {
        spec_id_payload("{\"voice_id\":\""@, self.voice_id@)
    }

    pub fn encode(&self) -> (s: String)
        ensures
            s@ == self.spec_encoded(),
    {
        encode_id_payload("{\"voice_id\":\"", self.voice_id.as_str())
    }

    pub fn decode(s: &str) -> (r: Option<TrainSampleFifoMessage>)
        ensures
            match r {
                Some(m) => spec_decode_id_payload(s@, "{\"voice_id\":\""@) == Some(m.voice_id@),
                None => spec_decode_id_payload(s@, "{\"voice_id\":\""@) is None,
            },
    {
        match decode_id_payload(s, "{\"voice_id\":\"") {
            Some(id) => Some(TrainSampleFifoMessage { voice_id: id }),
            None => None,
        }
    }
}

impl CreateOutputFifoMessage {
    pub open spec fn spec_encoded(&self) -> Seq<char> {
        spec_id_payload("{\"output_id\":\""@, self.output_id@)
    }

    pub fn encode(&self) -> (s: String)
        ensures
            s@ == self.spec_encoded(),
    {
        encode_id_payload("{\"output_id\":\"", self.output_id.as_str())
    }

    pub fn decode(s: &str) -> (r: Option<CreateOutputFifoMessage>)
        ensures
            match r {
                Some(m) => spec_decode_id_payload(s@, "{\"output_id\":\""@) == Some(m.output_id@),
                None => spec_decode_id_payload(s@, "{\"output_id\":\""@) is None,
            },
    {
        match decode_id_payload(s, "{\"output_id\":\"") {
            Some(id) => Some(CreateOutputFifoMessage { output_id: id }),
            None => None,
        }
    }
}

} // verus!
