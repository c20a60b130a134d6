use vstd::prelude::*;

verus! {

/// Lifecycle states of a voice. Transitions are driven solely by the
/// coordinator operations in `voice_lifecycle`:
/// `Draft -> Training -> Active -> Deleted`; anything else is rejected.
#[derive(Clone, Copy, Debug, PartialEq, Eq, Structural)]
pub enum VoiceStatus {
    Active,
    Draft,
    Training,
    Deleted,
}

impl VoiceStatus {
    pub fn to_string(&self) -> (s: String)
        ensures
            s@ == self.spec_label(),
    {
        match self {
            VoiceStatus::Active => String::from_str("Active"),
            VoiceStatus::Draft => String::from_str("Draft"),
            VoiceStatus::Training => String::from_str("Training"),
            VoiceStatus::Deleted => String::from_str("Deleted"),
        }
    }

    pub open spec fn spec_label(&self) -> Seq<char> {
        match self {
            VoiceStatus::Active => "Active"@,
            VoiceStatus::Draft => "Draft"@,
            VoiceStatus::Training => "Training"@,
            VoiceStatus::Deleted => "Deleted"@,
        }
    }
}

/// A voice record: a trained reference to one vocal identity.
///
/// `eleven_labs_id` is the identifier under which the synthesis service
/// knows the voice; it is present exactly while the voice is `Active`.
#[derive(Debug)]
pub struct Voice {
    pub id: String,
    pub name: String,
    pub status: VoiceStatus,
    pub description: Option<String>,
    pub eleven_labs_id: Option<String>,
    pub created_at: u64,
    pub updated_at: u64,
}

impl Clone for Voice {
    fn clone(&self) -> (v: Voice)
        ensures
            v == *self,
    {
        Voice {
            id: self.id.clone(),
            name: self.name.clone(),
            status: self.status,
            description: match &self.description {
                Some(d) => Some(d.clone()),
                None => None,
            },
            eleven_labs_id: match &self.eleven_labs_id {
                Some(e) => Some(e.clone()),
                None => None,
            },
            created_at: self.created_at,
            updated_at: self.updated_at,
        }
    }
}

/// A voice is registered with the synthesis service exactly while it is
/// `Active`: `eleven_labs_id` is present if and only if the status is
/// `Active`.
pub open spec fn voice_consistent(v: Voice) -> bool {
    (v.status is Active) <==> (v.eleven_labs_id is Some)
}

/// Well-formedness of a collection of voice records: every record is
/// consistent, ids are unique, and at most one non-deleted voice exists
/// per name.
pub open spec fn voices_wf(vs: Seq<Voice>) -> bool {
    &&& forall|i: int| 0 <= i < vs.len() ==> voice_consistent(#[trigger] vs[i])
    &&& forall|i: int, j: int|
        0 <= i < j < vs.len() ==> (#[trigger] vs[i]).id@ != (#[trigger] vs[j]).id@
    &&& forall|i: int, j: int|
        0 <= i < j < vs.len() && !((#[trigger] vs[i]).status is Deleted) && !((
        #[trigger] vs[j]).status is Deleted) ==> vs[i].name@ != vs[j].name@
}

/// Whether some record in `vs` has id `id`.
pub open spec fn has_voice(vs: Seq<Voice>, id: Seq<char>) -> bool {
    exists|i: int| 0 <= i < vs.len() && (#[trigger] vs[i]).id@ == id
}

/// The index of the record with id `id`, where one exists.
pub open spec fn voice_index(vs: Seq<Voice>, id: Seq<char>) -> int {
    choose|i: int| 0 <= i < vs.len() && (#[trigger] vs[i]).id@ == id
}

/// The record with id `id`, where one exists.
pub open spec fn spec_find_voice(vs: Seq<Voice>, id: Seq<char>) -> Option<Voice> {
    if has_voice(vs, id) {
        Some(vs[voice_index(vs, id)])
    } else {
        None
    }
}

/// Whether some non-deleted record in `vs` carries the name `name`.
pub open spec fn has_live_name(vs: Seq<Voice>, name: Seq<char>) -> bool {
    exists|i: int|
        0 <= i < vs.len() && !((#[trigger] vs[i]).status is Deleted) && vs[i].name@ == name
}

/// How many records in `vs` are not deleted (draft, training or active).
pub open spec fn non_deleted_count(vs: Seq<Voice>) -> nat
    decreases vs.len(),
{
    if vs.len() == 0 {
        0
    } else {
        non_deleted_count(vs.drop_last()) + if vs.last().status is Deleted {
            0nat
        } else {
            1nat
        }
    }
}

/// How many records in `vs` are `Active`.
pub open spec fn active_count(vs: Seq<Voice>) -> nat
    decreases vs.len(),
{
    if vs.len() == 0 {
        0
    } else {
        active_count(vs.drop_last()) + if vs.last().status is Active {
            1nat
        } else {
            0nat
        }
    }
}

/// Replacing the record at `i` with one that keeps its id and name,
/// stays consistent, and does not resurrect a deleted voice preserves
/// well-formedness; lookups of every other id are unchanged.
pub proof fn lemma_voices_update(vs: Seq<Voice>, i: int, v: Voice)
    requires
        voices_wf(vs),
        0 <= i < vs.len(),
        v.id@ == vs[i].id@,
        v.name@ == vs[i].name@,
        voice_consistent(v),
        vs[i].status is Deleted ==> v.status is Deleted,
    ensures
        voices_wf(vs.update(i, v)),
        spec_find_voice(vs.update(i, v), v.id@) == Some(v),
        forall|id: Seq<char>|
            id != v.id@ ==> spec_find_voice(vs.update(i, v), id) == spec_find_voice(vs, id),
{
    let new = vs.update(i, v);
    assert(has_voice(new, v.id@)) by {
        assert(new[i].id@ == v.id@);
    }
    assert(voice_index(new, v.id@) == i) by {
        let j = voice_index(new, v.id@);
        if j != i {
            assert(vs[j].id@ == new[j].id@);
        }
    }
    assert forall|id: Seq<char>| id != v.id@ implies spec_find_voice(new, id) == spec_find_voice(
        vs,
        id,
    ) by {
        if has_voice(vs, id) {
            let j = voice_index(vs, id);
            assert(j != i);
            assert(new[j].id@ == id);
            assert(has_voice(new, id));
            let j2 = voice_index(new, id);
            assert(j2 != i);
            assert(vs[j2].id@ == id);
            assert(j2 == j);
        } else {
            if has_voice(new, id) {
                let j2 = voice_index(new, id);
                assert(j2 != i);
                assert(vs[j2].id@ == id);
            }
        }
    }
}

/// Appending a consistent record with a fresh id, and a fresh live name
/// where it is not deleted, preserves well-formedness; lookups of every
/// other id are unchanged.
pub proof fn lemma_voices_push(vs: Seq<Voice>, v: Voice)
    requires
        voices_wf(vs),
        !has_voice(vs, v.id@),
        voice_consistent(v),
        !(v.status is Deleted) ==> !has_live_name(vs, v.name@),
    ensures
        voices_wf(vs.push(v)),
        spec_find_voice(vs.push(v), v.id@) == Some(v),
        forall|id: Seq<char>|
            id != v.id@ ==> spec_find_voice(vs.push(v), id) == spec_find_voice(vs, id),
{
    let new = vs.push(v);
    let n = vs.len() as int;
    assert forall|i: int, j: int| 0 <= i < j < new.len() implies (#[trigger] new[i]).id@ != (
    #[trigger] new[j]).id@ by {
        if j < n {
            assert(new[i] == vs[i] && new[j] == vs[j]);
        } else {
            assert(new[i] == vs[i] && new[j] == v);
            assert(!(vs[i].id@ == v.id@));
        }
    }
    assert forall|i: int, j: int|
        0 <= i < j < new.len() && !((#[trigger] new[i]).status is Deleted) && !((
        #[trigger] new[j]).status is Deleted) implies new[i].name@ != new[j].name@ by {
        if j < n {
            assert(new[i] == vs[i] && new[j] == vs[j]);
        } else {
            assert(new[i] == vs[i] && new[j] == v);
            assert(!(vs[i].status is Deleted) && vs[i].name@ == v.name@ ==> has_live_name(
                vs,
                v.name@,
            ));
        }
    }
    assert(has_voice(new, v.id@)) by {
        assert(new[n].id@ == v.id@);
    }
    assert(voice_index(new, v.id@) == n) by {
        let j = voice_index(new, v.id@);
        if j != n {
            assert(vs[j].id@ == v.id@);
        }
    }
    assert forall|id: Seq<char>| id != v.id@ implies spec_find_voice(new, id) == spec_find_voice(
        vs,
        id,
    ) by {
        if has_voice(vs, id) {
            let j = voice_index(vs, id);
            assert(new[j].id@ == id);
            assert(has_voice(new, id));
            let j2 = voice_index(new, id);
            assert(j2 != n);
            assert(j2 == j);
        } else {
            if has_voice(new, id) {
                let j2 = voice_index(new, id);
                assert(j2 != n);
                assert(vs[j2].id@ == id);
            }
        }
    }
}

pub broadcast proof fn lemma_non_deleted_count_push(vs: Seq<Voice>, v: Voice)
    ensures
        #[trigger] non_deleted_count(vs.push(v)) == non_deleted_count(vs) + if v.status
            is Deleted {
            0nat
        } else {
            1nat
        },
{
    assert(vs.push(v).drop_last() =~= vs);
}

pub broadcast proof fn lemma_active_count_push(vs: Seq<Voice>, v: Voice)
    ensures
        #[trigger] active_count(vs.push(v)) == active_count(vs) + if v.status is Active {
            1nat
        } else {
            0nat
        },
{
    assert(vs.push(v).drop_last() =~= vs);
}

} // verus!
