use crate::text::spec_u64_dec;
use crate::text::u64_to_dec_string;
use vstd::prelude::*;

verus! {

/// One stored object: an opaque byte blob under a plain string key.
pub struct Blob {
    pub key: String,
    pub data: Vec<u8>,
}

/// Whether some blob in `objs` is stored under `key`.
pub open spec fn has_key(objs: Seq<Blob>, key: Seq<char>) -> bool {
    exists|i: int| 0 <= i < objs.len() && (#[trigger] objs[i]).key@ == key
}

/// The index of the blob stored under `key`, where one exists.
pub open spec fn key_index(objs: Seq<Blob>, key: Seq<char>) -> int {
    choose|i: int| 0 <= i < objs.len() && (#[trigger] objs[i]).key@ == key
}

/// The bytes stored under `key`, where a blob exists.
pub open spec fn spec_lookup(objs: Seq<Blob>, key: Seq<char>) -> Option<Seq<u8>> {
    if has_key(objs, key) {
        Some(objs[key_index(objs, key)].data@)
    } else {
        None
    }
}

/// No two blobs share a key.
pub open spec fn keys_unique(objs: Seq<Blob>) -> bool {
    forall|i: int, j: int|
        0 <= i < j < objs.len() ==> (#[trigger] objs[i]).key@ != (#[trigger] objs[j]).key@
}

proof fn lemma_lookup_update(objs: Seq<Blob>, i: int, nb: Blob)
    requires
        keys_unique(objs),
        0 <= i < objs.len(),
        objs[i].key@ == nb.key@,
    ensures
        keys_unique(objs.update(i, nb)),
        spec_lookup(objs.update(i, nb), nb.key@) == Some(nb.data@),
        forall|k: Seq<char>|
            k != nb.key@ ==> spec_lookup(objs.update(i, nb), k) == spec_lookup(objs, k),
{
    let new = objs.update(i, nb);
    assert(has_key(new, nb.key@)) by {
        assert(new[i].key@ == nb.key@);
    }
    assert(key_index(new, nb.key@) == i) by {
        let j = key_index(new, nb.key@);
        if j != i {
            assert(objs[j].key@ == new[j].key@);
        }
    }
    assert forall|k: Seq<char>| k != nb.key@ implies spec_lookup(new, k) == spec_lookup(
        objs,
        k,
    ) by {
        if has_key(objs, k) {
            let j = key_index(objs, k);
            assert(j != i);
            assert(new[j].key@ == k);
            assert(has_key(new, k));
            let j2 = key_index(new, k);
            assert(j2 != i);
            assert(objs[j2].key@ == k);
            assert(j2 == j);
        } else {
            if has_key(new, k) {
                let j2 = key_index(new, k);
                assert(j2 != i);
                assert(objs[j2].key@ == k);
            }
        }
    }
}

proof fn lemma_lookup_push(objs: Seq<Blob>, nb: Blob)
    requires
        keys_unique(objs),
        !has_key(objs, nb.key@),
    ensures
        keys_unique(objs.push(nb)),
        spec_lookup(objs.push(nb), nb.key@) == Some(nb.data@),
        forall|k: Seq<char>| k != nb.key@ ==> spec_lookup(objs.push(nb), k) == spec_lookup(objs, k),
{
    let new = objs.push(nb);
    let n = objs.len() as int;
    assert forall|i: int, j: int| 0 <= i < j < new.len() implies (#[trigger] new[i]).key@ != (
    #[trigger] new[j]).key@ by {
        if j < n {
            assert(new[i] == objs[i] && new[j] == objs[j]);
        } else {
            assert(new[i] == objs[i] && new[j] == nb);
            assert(!(objs[i].key@ == nb.key@));
        }
    }
    assert(has_key(new, nb.key@)) by {
        assert(new[n].key@ == nb.key@);
    }
    assert(key_index(new, nb.key@) == n) by {
        let j = key_index(new, nb.key@);
        if j != n {
            assert(objs[j].key@ == nb.key@);
        }
    }
    assert forall|k: Seq<char>| k != nb.key@ implies spec_lookup(new, k) == spec_lookup(
        objs,
        k,
    ) by {
        if has_key(objs, k) {
            let j = key_index(objs, k);
            assert(new[j].key@ == k);
            assert(has_key(new, k));
            let j2 = key_index(new, k);
            assert(j2 != n);
            assert(j2 == j);
        } else {
            if has_key(new, k) {
                let j2 = key_index(new, k);
                assert(j2 != n);
                assert(objs[j2].key@ == k);
            }
        }
    }
}

proof fn lemma_lookup_remove(objs: Seq<Blob>, i: int)
    requires
        keys_unique(objs),
        0 <= i < objs.len(),
    ensures
        keys_unique(objs.remove(i)),
        spec_lookup(objs.remove(i), objs[i].key@) is None,
        forall|k: Seq<char>|
            k != objs[i].key@ ==> spec_lookup(objs.remove(i), k) == spec_lookup(objs, k),
{
    let new = objs.remove(i);
    let key = objs[i].key@;
    assert forall|a: int, b: int| 0 <= a < b < new.len() implies (#[trigger] new[a]).key@ != (
    #[trigger] new[b]).key@ by {
        let a0 = if a < i {
            a
        } else {
            a + 1
        };
        let b0 = if b < i {
            b
        } else {
            b + 1
        };
        assert(new[a] == objs[a0] && new[b] == objs[b0]);
    }
    if has_key(new, key) {
        let j2 = key_index(new, key);
        let j0 = if j2 < i {
            j2
        } else {
            j2 + 1
        };
        assert(new[j2] == objs[j0]);
        assert(objs[j0].key@ == key && objs[i].key@ == key && j0 != i);
    }
    assert forall|k: Seq<char>| k != key implies spec_lookup(new, k) == spec_lookup(objs, k) by {
        if has_key(objs, k) {
            let j = key_index(objs, k);
            assert(j != i);
            let j2 = if j < i {
                j
            } else {
                j - 1
            };
            assert(new[j2] == objs[j]);
            assert(has_key(new, k));
            let j3 = key_index(new, k);
            let j30 = if j3 < i {
                j3
            } else {
                j3 + 1
            };
            assert(new[j3] == objs[j30]);
            assert(j30 == j);
        } else {
            if has_key(new, k) {
                let j3 = key_index(new, k);
                let j30 = if j3 < i {
                    j3
                } else {
                    j3 + 1
                };
                assert(new[j3] == objs[j30]);
            }
        }
    }
}

/// Deterministic in-memory object-store gateway: byte blobs under plain
/// string keys, plus capability URLs for direct upload and download.
pub struct Client {
    pub bucket: String,
    pub objects: Vec<Blob>,
}

/// The capability URL the store hands out for one key: it names the
/// bucket, the key, the HTTP method it permits and its expiry.
pub open spec fn spec_signed_url(
    bucket: Seq<char>,
    key: Seq<char>,
    method: Seq<char>,
    expires_secs: nat,
) -> Seq<char> {
    "https://"@ + bucket + "/"@ + key + "?method="@ + method + "&expires="@ + spec_u64_dec(
        expires_secs,
    )
}

impl Client {
    pub open spec fn wf(&self) -> bool {
        keys_unique(self.objects@)
    }

    pub fn new(bucket: &str) -> (c: Client)
        ensures
            c.wf(),
            c.bucket@ == bucket@,
            c.objects@.len() == 0,
    {
        Client { bucket: String::from_str(bucket), objects: Vec::new() }
    }

    fn find_index(&self, key: &str) -> (r: Option<usize>)
        ensures
            match r {
                Some(i) => 0 <= i < self.objects@.len() && self.objects@[i as int].key@ == key@,
                None => !has_key(self.objects@, key@),
            },
    {
        let key_s = String::from_str(key);
        let n = self.objects.len();
        let mut i: usize = 0;
        while i < n
            invariant
                0 <= i <= n,
                n == self.objects@.len(),
                key_s@ == key@,
                forall|j: int| 0 <= j < i ==> (#[trigger] self.objects@[j]).key@ != key@,
            decreases n - i,
        {
            if self.objects[i].key == key_s {
                return Some(i);
            }
            i = i + 1;
        }
        None
    }

    /// Whether a blob is stored under `key`.
    pub fn contains_key(&self, key: &str) -> (r: bool)
        ensures
            r == has_key(self.objects@, key@),
    {
        match self.find_index(key) {
            Some(i) => {
                proof {
                    assert(self.objects@[i as int].key@ == key@);
                }
                true
            },
            None => false,
        }
    }

    /// The bytes stored under `key`, or nothing where no such object
    /// exists.
    pub fn get_object(&self, key: &str) -> (r: Option<Vec<u8>>)
        requires
            self.wf(),
        ensures
            match r {
                Some(d) => spec_lookup(self.objects@, key@) == Some(d@),
                None => spec_lookup(self.objects@, key@) is None,
            },
    {
        match self.find_index(key) {
            Some(i) => {
                let d = self.objects[i].data.clone();
                proof {
                    assert(has_key(self.objects@, key@));
                    let j = key_index(self.objects@, key@);
                    assert(self.objects@[j].key@ == key@);
                    assert(j == i);
                }
                Some(d)
            },
            None => None,
        }
    }

    /// Stores `body` under `key`, overwriting any blob already there.
    pub fn put_object(&mut self, key: &str, body: Vec<u8>)
        requires
            old(self).wf(),
        ensures
            final(self).wf(),
            final(self).bucket == old(self).bucket,
            spec_lookup(final(self).objects@, key@) == Some(body@),
            forall|k: Seq<char>|
                k != key@ ==> spec_lookup(final(self).objects@, k) == spec_lookup(
                    old(self).objects@,
                    k,
                ),
    {
        let nb = Blob { key: String::from_str(key), data: body };
        match self.find_index(key) {
            Some(i) => {
                proof {
                    lemma_lookup_update(self.objects@, i as int, nb);
                }
                self.objects.set(i, nb);
            },
            None => {
                proof {
                    lemma_lookup_push(self.objects@, nb);
                }
                self.objects.push(nb);
            },
        }
    }

    /// Removes the blob under `key`; removing an absent key changes
    /// nothing.
    pub fn delete_object(&mut self, key: &str)
        requires
            old(self).wf(),
        ensures
            final(self).wf(),
            final(self).bucket == old(self).bucket,
            spec_lookup(final(self).objects@, key@) is None,
            forall|k: Seq<char>|
                k != key@ ==> spec_lookup(final(self).objects@, k) == spec_lookup(
                    old(self).objects@,
                    k,
                ),
    {
        match self.find_index(key) {
            Some(i) => {
                proof {
                    lemma_lookup_remove(self.objects@, i as int);
                    let j = key_index(self.objects@, key@);
                    assert(self.objects@[j].key@ == key@);
                    assert(j == i);
                }
                self.objects.remove(i);
            },
            None => {},
        }
    }

    /// A time-bounded capability URL for reading the blob under `key`.
    pub fn get_presigned_url(&self, key: &str) -> (u: String)
        ensures
            u@ == spec_signed_url(self.bucket@, key@, "GET"@, 60),
    {
        let mut u = String::from_str("https://");
        u.append(self.bucket.as_str());
        u.append("/");
        u.append(key);
        u.append("?method=");
        u.append("GET");
        u.append("&expires=");
        u.append(u64_to_dec_string(60).as_str());
        u
    }

    /// A time-bounded capability URL for writing the blob under `key`.
    pub fn put_presigned_url(&self, key: &str, expires_secs: u64) -> (u: String)
        ensures
            u@ == spec_signed_url(self.bucket@, key@, "PUT"@, expires_secs as nat),
    {
        let mut u = String::from_str("https://");
        u.append(self.bucket.as_str());
        u.append("/");
        u.append(key);
        u.append("?method=");
        u.append("PUT");
        u.append("&expires=");
        u.append(u64_to_dec_string(expires_secs).as_str());
        u
    }
}

} // verus!
