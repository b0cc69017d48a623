//! The shared service state: the metadata store, the blob store and the
//! identity store, with their joint well-formedness invariant.
//!
//! The two file-side stores are kept in lockstep: row `i` of the metadata
//! store describes row `i` of the blob store, so a blob and its metadata are
//! created together and destroyed together.

use vstd::prelude::*;

use crate::data::Blob;
use crate::data::File;
use crate::data::Identity;

verus! {

/// File ids are pairwise distinct.
pub open spec fn distinct_file_ids(rows: Seq<File>) -> bool {
    forall|a: int, b: int| 0 <= a < b < rows.len() ==> rows[a].id@ != rows[b].id@
}

/// Identity keys and usernames are each pairwise distinct.
pub open spec fn distinct_identities(rows: Seq<Identity>) -> bool {
    forall|a: int, b: int|
        0 <= a < b < rows.len() ==> rows[a].key@ != rows[b].key@ && rows[a].username@
            != rows[b].username@
}

/// The whole mutable state of the service.
pub struct ServiceState {
    /// The metadata store: one row per live file.
    pub files: Vec<File>,
    /// The blob store: the bytes of each live file, in the same order.
    pub blobs: Vec<Blob>,
    /// The identity store: the registered users.
    pub users: Vec<Identity>,
}

impl ServiceState {
    /// The invariant of the file side: ids unique, blob row `i` paired with
    /// metadata row `i`, the recorded size equal to the blob's length, and
    /// every live record strictly under its positive download limit.
    pub open spec fn wf_files(self) -> bool {
        &&& distinct_file_ids(self.files@)
        &&& self.blobs@.len() == self.files@.len()
        &&& forall|i: int|
            0 <= i < self.files@.len() ==> {
                &&& (#[trigger] self.blobs@[i]).id@ == self.files@[i].id@
                &&& self.files@[i].file_size == self.blobs@[i].bytes@.len()
                &&& 1 <= self.files@[i].download_limit
                &&& 0 <= self.files@[i].download_count < self.files@[i].download_limit
            }
    }

    /// The invariant of the identity side: keys and usernames unique.
    pub open spec fn wf_users(self) -> bool {
        distinct_identities(self.users@)
    }

    /// The invariant every operation requires and preserves.
    pub open spec fn wf(self) -> bool {
        self.wf_files() && self.wf_users()
    }

    /// A record with this id exists.
    pub open spec fn has_file(self, id: Seq<char>) -> bool {
        exists|i: int| 0 <= i < self.files@.len() && (#[trigger] self.files@[i]).id@ == id
    }

    /// The row index of the record with this id (meaningful when it exists).
    pub open spec fn file_index(self, id: Seq<char>) -> int {
        choose|i: int| 0 <= i < self.files@.len() && (#[trigger] self.files@[i]).id@ == id
    }

    /// The record with this id.
    pub open spec fn file_at(self, id: Seq<char>) -> File {
        self.files@[self.file_index(id)]
    }

    /// The stored bytes of the file with this id.
    pub open spec fn blob_at(self, id: Seq<char>) -> Seq<u8> {
        self.blobs@[self.file_index(id)].bytes@
    }

    /// A blob with this id exists.
    pub open spec fn has_blob(self, id: Seq<char>) -> bool {
        exists|j: int| 0 <= j < self.blobs@.len() && (#[trigger] self.blobs@[j]).id@ == id
    }

    /// An identity with this key exists.
    pub open spec fn has_key(self, key: Seq<char>) -> bool {
        exists|i: int| 0 <= i < self.users@.len() && (#[trigger] self.users@[i]).key@ == key
    }

    /// The row index of the identity with this key (meaningful when it exists).
    pub open spec fn user_index(self, key: Seq<char>) -> int {
        choose|i: int| 0 <= i < self.users@.len() && (#[trigger] self.users@[i]).key@ == key
    }

    /// The username behind this key.
    pub open spec fn owner_of(self, key: Seq<char>) -> Seq<char> {
        self.users@[self.user_index(key)].username@
    }

    /// An identity with this username exists.
    pub open spec fn has_username(self, name: Seq<char>) -> bool {
        exists|i: int|
            0 <= i < self.users@.len() && (#[trigger] self.users@[i]).username@ == name
    }

    /// An empty service state: no files, no blobs, no users.
    pub fn new() -> (s: ServiceState)
        ensures
            s.wf(),
            s.files@.len() == 0,
            s.blobs@.len() == 0,
            s.users@.len() == 0,
    {
        ServiceState { files: Vec::new(), blobs: Vec::new(), users: Vec::new() }
    }

    /// Linear scan of the metadata store for an id.
    pub fn file_pos(&self, id: &String) -> (r: Option<usize>)
        requires
            self.wf(),
        ensures
            match r {
                Some(i) => self.has_file(id@) && i as int == self.file_index(id@),
                None => !self.has_file(id@),
            },
    {
        let n = self.files.len();
        let mut k: usize = 0;
        while k < n
            invariant
                self.wf(),
                n == self.files@.len(),
                k <= n,
                forall|i: int| 0 <= i < k ==> (#[trigger] self.files@[i]).id@ != id@,
            decreases n - k,
        {
            if self.files[k].id == *id {
                proof {
                    self.lemma_file_index(k as int, id@);
                }
                return Some(k);
            }
            k += 1;
        }
        None
    }

    /// Linear scan of the blob store for an id.  Under the invariant a blob
    /// sits at the same row as its metadata.
    pub fn blob_pos(&self, id: &String) -> (r: Option<usize>)
        requires
            self.wf(),
        ensures
            match r {
                Some(i) => self.has_file(id@) && i as int == self.file_index(id@),
                None => !self.has_file(id@),
            },
    {
        let n = self.blobs.len();
        let mut k: usize = 0;
        while k < n
            invariant
                self.wf(),
                n == self.blobs@.len(),
                k <= n,
                forall|i: int| 0 <= i < k ==> (#[trigger] self.blobs@[i]).id@ != id@,
            decreases n - k,
        {
            if self.blobs[k].id == *id {
                proof {
                    assert(self.files@[k as int].id@ == id@);
                    self.lemma_file_index(k as int, id@);
                }
                return Some(k);
            }
            k += 1;
        }
        proof {
            if self.has_file(id@) {
                let i = choose|i: int|
                    0 <= i < self.files@.len() && (#[trigger] self.files@[i]).id@ == id@;
                assert(self.blobs@[i].id@ == id@);
            }
        }
        None
    }

    /// Linear scan of the identity store for a key.
    pub fn user_pos_by_key(&self, key: &String) -> (r: Option<usize>)
        requires
            self.wf(),
        ensures
            match r {
                Some(i) => self.has_key(key@) && i as int == self.user_index(key@),
                None => !self.has_key(key@),
            },
    {
        let n = self.users.len();
        let mut k: usize = 0;
        while k < n
            invariant
                self.wf(),
                n == self.users@.len(),
                k <= n,
                forall|i: int| 0 <= i < k ==> (#[trigger] self.users@[i]).key@ != key@,
            decreases n - k,
        {
            if self.users[k].key == *key {
                proof {
                    self.lemma_user_index(k as int, key@);
                }
                return Some(k);
            }
            k += 1;
        }
        None
    }

    /// Linear scan of the identity store for a username.
    pub fn user_pos_by_name(&self, name: &String) -> (r: Option<usize>)
        requires
            self.wf(),
        ensures
            match r {
                Some(i) => self.has_username(name@) && (i as int) < self.users@.len()
                    && self.users@[i as int].username@ == name@,
                None => !self.has_username(name@),
            },
    {
        let n = self.users.len();
        let mut k: usize = 0;
        while k < n
            invariant
                self.wf(),
                n == self.users@.len(),
                k <= n,
                forall|i: int| 0 <= i < k ==> (#[trigger] self.users@[i]).username@ != name@,
            decreases n - k,
        {
            if self.users[k].username == *name {
                return Some(k);
            }
            k += 1;
        }
        None
    }

    /// A row that holds the id is the row `file_index` names: ids are unique.
    pub proof fn lemma_file_index(self, i: int, id: Seq<char>)
        requires
            distinct_file_ids(self.files@),
            0 <= i < self.files@.len(),
            self.files@[i].id@ == id,
        ensures
            self.has_file(id),
            self.file_index(id) == i,
    {
        assert(self.has_file(id));
        let j = self.file_index(id);
        if i < j {
            assert(self.files@[i].id@ != self.files@[j].id@);
        } else if j < i {
            assert(self.files@[j].id@ != self.files@[i].id@);
        }
    }

    /// A row that holds the key is the row `user_index` names: keys are unique.
    pub proof fn lemma_user_index(self, i: int, key: Seq<char>)
        requires
            distinct_identities(self.users@),
            0 <= i < self.users@.len(),
            self.users@[i].key@ == key,
        ensures
            self.has_key(key),
            self.user_index(key) == i,
    {
        assert(self.has_key(key));
        let j = self.user_index(key);
        if i < j {
            assert(self.users@[i].key@ != self.users@[j].key@);
        } else if j < i {
            assert(self.users@[j].key@ != self.users@[i].key@);
        }
    }
}

/// Removing one row keeps file ids pairwise distinct, and no remaining row
/// holds the removed row's id.
pub proof fn lemma_files_remove(rows: Seq<File>, i: int)
    requires
        0 <= i < rows.len(),
        distinct_file_ids(rows),
    ensures
        distinct_file_ids(rows.remove(i)),
        forall|a: int| 0 <= a < rows.remove(i).len() ==> (#[trigger] rows.remove(i)[a]).id@
            != rows[i].id@,
{
    let post = rows.remove(i);
    assert forall|a: int| 0 <= a < post.len() implies (#[trigger] post[a]).id@ != rows[i].id@ by {
        if a < i {
            assert(post[a] == rows[a]);
        } else {
            assert(post[a] == rows[a + 1]);
        }
    }
    assert forall|a: int, b: int| 0 <= a < b < post.len() implies post[a].id@ != post[b].id@ by {
        let a2 = if a < i { a } else { a + 1 };
        let b2 = if b < i { b } else { b + 1 };
        assert(post[a] == rows[a2]);
        assert(post[b] == rows[b2]);
    }
}

/// Replacing a row with one that carries the same id keeps ids distinct.
pub proof fn lemma_files_update_same_id(rows: Seq<File>, i: int, f: File)
    requires
        0 <= i < rows.len(),
        distinct_file_ids(rows),
        f.id@ == rows[i].id@,
    ensures
        distinct_file_ids(rows.update(i, f)),
{
    let post = rows.update(i, f);
    assert forall|a: int, b: int| 0 <= a < b < post.len() implies post[a].id@ != post[b].id@ by {
        assert(rows[a].id@ != rows[b].id@);
    }
}

/// Appending a row with a fresh id keeps ids distinct.
pub proof fn lemma_files_push(rows: Seq<File>, f: File)
    requires
        distinct_file_ids(rows),
        forall|a: int| 0 <= a < rows.len() ==> (#[trigger] rows[a]).id@ != f.id@,
    ensures
        distinct_file_ids(rows.push(f)),
{
    let post = rows.push(f);
    assert forall|a: int, b: int| 0 <= a < b < post.len() implies post[a].id@ != post[b].id@ by {
        if b < rows.len() {
            assert(rows[a].id@ != rows[b].id@);
        } else {
            assert(post[b] == f);
            assert(post[a] == rows[a]);
        }
    }
}

/// Appending an identity with a fresh key and a fresh username keeps both
/// distinct.
pub proof fn lemma_identities_push(rows: Seq<Identity>, u: Identity)
    requires
        distinct_identities(rows),
        forall|a: int| 0 <= a < rows.len() ==> (#[trigger] rows[a]).key@ != u.key@,
        forall|a: int| 0 <= a < rows.len() ==> (#[trigger] rows[a]).username@ != u.username@,
    ensures
        distinct_identities(rows.push(u)),
{
    let post = rows.push(u);
    assert forall|a: int, b: int|
        0 <= a < b < post.len() implies post[a].key@ != post[b].key@ && post[a].username@
        != post[b].username@ by {
        if b < rows.len() {
            assert(rows[a].key@ != rows[b].key@);
        } else {
            assert(post[b] == u);
            assert(post[a] == rows[a]);
        }
    }
}

} // verus!
