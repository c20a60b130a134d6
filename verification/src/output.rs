use crate::voice::Voice;
use vstd::prelude::*;

verus! {

/// Lifecycle states of an output. A `Pending` output becomes `Done`
/// exactly once, after its audio blob is durably written; there is no
/// other transition.
#[derive(Clone, Copy, Debug, PartialEq, Eq, Structural)]
pub enum OutputStatus {
    Pending,
    Done,
}

impl OutputStatus {
    pub fn to_string(&self) -> (s: String)
        ensures
            s@ == self.spec_label(),
    {
        match self {
            OutputStatus::Pending => String::from_str("Pending"),
            OutputStatus::Done => String::from_str("Done"),
        }
    }

    pub open spec fn spec_label(&self) -> Seq<char> {
        match self {
            OutputStatus::Pending => "Pending"@,
            OutputStatus::Done => "Done"@,
        }
    }
}

/// One synthesis request: text to be spoken with a given voice. The id
/// doubles as the object-store key of the finished audio blob.
#[derive(Debug)]
pub struct Output {
    pub id: String,
    pub voice: String,
    pub text: String,
    pub status: OutputStatus,
    pub created_at: u64,
    pub updated_at: u64,
}

impl Clone for Output {
    fn clone(&self) -> (o: Output)
        ensures
            o == *self,
    {
        Output {
            id: self.id.clone(),
            voice: self.voice.clone(),
            text: self.text.clone(),
            status: self.status,
            created_at: self.created_at,
            updated_at: self.updated_at,
        }
    }
}

/// An output together with the voice record it refers to, as returned by
/// the read-side text search.
#[derive(Debug)]
pub struct PopulatedOutput {
    pub id: String,
    pub voice: Voice,
    pub text: String,
    pub status: OutputStatus,
    pub created_at: u64,
    pub updated_at: u64,
}

impl Clone for PopulatedOutput {
    fn clone(&self) -> (o: PopulatedOutput)
        ensures
            o == *self,
    {
        PopulatedOutput {
            id: self.id.clone(),
            voice: self.voice.clone(),
            text: self.text.clone(),
            status: self.status,
            created_at: self.created_at,
            updated_at: self.updated_at,
        }
    }
}

/// Well-formedness of a collection of output records: ids are unique.
pub open spec fn outputs_wf(os: Seq<Output>) -> bool {
    forall|i: int, j: int|
        0 <= i < j < os.len() ==> (#[trigger] os[i]).id@ != (#[trigger] os[j]).id@
}

/// Whether some record in `os` has id `id`.
pub open spec fn has_output(os: Seq<Output>, id: Seq<char>) -> bool {
    exists|i: int| 0 <= i < os.len() && (#[trigger] os[i]).id@ == id
}

/// The index of the record with id `id`, where one exists.
pub open spec fn output_index(os: Seq<Output>, id: Seq<char>) -> int {
    choose|i: int| 0 <= i < os.len() && (#[trigger] os[i]).id@ == id
}

/// The record with id `id`, where one exists.
pub open spec fn spec_find_output(os: Seq<Output>, id: Seq<char>) -> Option<Output> {
    if has_output(os, id) {
        Some(os[output_index(os, id)])
    } else {
        None
    }
}

/// Replacing the record at `i` with one that keeps its id preserves
/// well-formedness; lookups of every other id are unchanged.
pub proof fn lemma_outputs_update(os: Seq<Output>, i: int, o: Output)
    requires
        outputs_wf(os),
        0 <= i < os.len(),
        o.id@ == os[i].id@,
    ensures
        outputs_wf(os.update(i, o)),
        spec_find_output(os.update(i, o), o.id@) == Some(o),
        forall|id: Seq<char>|
            id != o.id@ ==> spec_find_output(os.update(i, o), id) == spec_find_output(os, id),
{
    let new = os.update(i, o);
    assert(has_output(new, o.id@)) by {
        assert(new[i].id@ == o.id@);
    }
    assert(output_index(new, o.id@) == i) by {
        let j = output_index(new, o.id@);
        if j != i {
            assert(os[j].id@ == new[j].id@);
        }
    }
    assert forall|id: Seq<char>| id != o.id@ implies spec_find_output(new, id) == spec_find_output(
        os,
        id,
    ) by {
        if has_output(os, id) {
            let j = output_index(os, id);
            assert(j != i);
            assert(new[j].id@ == id);
            assert(has_output(new, id));
            let j2 = output_index(new, id);
            assert(j2 != i);
            assert(os[j2].id@ == id);
            assert(j2 == j);
        } else {
            if has_output(new, id) {
                let j2 = output_index(new, id);
                assert(j2 != i);
                assert(os[j2].id@ == id);
            }
        }
    }
}

/// Appending a record with a fresh id preserves well-formedness;
/// lookups of every other id are unchanged.
pub proof fn lemma_outputs_push(os: Seq<Output>, o: Output)
    requires
        outputs_wf(os),
        !has_output(os, o.id@),
    ensures
        outputs_wf(os.push(o)),
        spec_find_output(os.push(o), o.id@) == Some(o),
        forall|id: Seq<char>|
            id != o.id@ ==> spec_find_output(os.push(o), id) == spec_find_output(os, id),
{
    let new = os.push(o);
    let n = os.len() as int;
    assert forall|i: int, j: int| 0 <= i < j < new.len() implies (#[trigger] new[i]).id@ != (
    #[trigger] new[j]).id@ by {
        if j < n {
            assert(new[i] == os[i] && new[j] == os[j]);
        } else {
            assert(new[i] == os[i] && new[j] == o);
            assert(!(os[i].id@ == o.id@));
        }
    }
    assert(has_output(new, o.id@)) by {
        assert(new[n].id@ == o.id@);
    }
    assert(output_index(new, o.id@) == n) by {
        let j = output_index(new, o.id@);
        if j != n {
            assert(os[j].id@ == o.id@);
        }
    }
    assert forall|id: Seq<char>| id != o.id@ implies spec_find_output(new, id) == spec_find_output(
        os,
        id,
    ) by {
        if has_output(os, id) {
            let j = output_index(os, id);
            assert(new[j].id@ == id);
            assert(has_output(new, id));
            let j2 = output_index(new, id);
            assert(j2 != n);
            assert(j2 == j);
        } else {
            if has_output(new, id) {
                let j2 = output_index(new, id);
                assert(j2 != n);
                assert(os[j2].id@ == id);
            }
        }
    }
}

} // verus!
