//! The service operations: registration, authentication, upload acceptance,
//! and the consumption engine that accounts downloads and destroys a file
//! exactly when its limit is reached.
//!
//! Every operation is a single atomic transition of a [`ServiceState`].  The
//! host program must apply transitions for one file identifier under mutual
//! exclusion (a per-identifier critical section); each contract here then
//! describes one such atomic step.

use vstd::prelude::*;
use vstd::string::StringExecFns;

use crate::data::ApiError;
use crate::data::Blob;
use crate::data::Download;
use crate::data::File;
use crate::data::FileView;
use crate::data::Identity;
use crate::store::ServiceState;
use crate::store::lemma_files_push;
use crate::store::lemma_files_remove;
use crate::store::lemma_files_update_same_id;
use crate::store::lemma_identities_push;

verus! {

/// A caller-supplied string, or the `"unknown"` sentinel when absent.
pub open spec fn or_unknown(s: Option<String>) -> Seq<char> {
    match s {
        Some(v) => v@,
        None => "unknown"@,
    }
}

/// The download limit a record gets: the caller's value when it is positive,
/// the default of 1 otherwise.
pub open spec fn effective_limit_spec(l: Option<i32>) -> int {
    match l {
        Some(n) => if n >= 1 {
            n as int
        } else {
            1
        },
        None => 1,
    }
}

/// The absolute retrieval URL for a file id.
pub open spec fn url_spec(use_tls: bool, base: Seq<char>, id: Seq<char>) -> Seq<char> {
    (if use_tls {
        "https://"@
    } else {
        "http://"@
    }) + base + "/download/"@ + id
}

/// The key header's content, where present.
pub open spec fn key_view(k: Option<String>) -> Seq<char> {
    match k {
        Some(s) => s@,
        None => Seq::empty(),
    }
}

/// The record an accepted upload creates.
pub open spec fn fresh_record_view(
    fresh_id: Seq<char>,
    file_name: Option<String>,
    content_type: Option<String>,
    download_limit: Option<i32>,
    body: Seq<u8>,
    upload_time: int,
    use_tls: bool,
    base_url: Seq<char>,
    owner: Seq<char>,
) -> FileView {
    FileView {
        id: fresh_id,
        file_name: or_unknown(file_name),
        content_type: or_unknown(content_type),
        upload_time: upload_time,
        download_limit: effective_limit_spec(download_limit),
        download_count: 0,
        file_size: body.len() as int,
        download_url: url_spec(use_tls, base_url, fresh_id),
        owner: owner,
    }
}

/// How a successful upload changes the state: the record and its blob are
/// appended together, and the identity store is untouched.
pub open spec fn accept_applied(
    pre: ServiceState,
    post: ServiceState,
    f: File,
    body: Vec<u8>,
) -> bool {
    &&& post.files@ == pre.files@.push(f)
    &&& post.blobs@ == pre.blobs@.push(Blob { id: f.id, bytes: body })
    &&& post.users@ == pre.users@
}

/// How a successful consumption changes the state: the served payload is the
/// stored blob, the response metadata is the stored record's, the counter
/// grows by exactly one, and the record and blob are removed together exactly
/// when the new counter reaches the limit.
pub open spec fn consume_applied(
    pre: ServiceState,
    post: ServiceState,
    id: Seq<char>,
    d: Download,
) -> bool {
    let i = pre.file_index(id);
    let f = pre.files@[i];
    &&& d.bytes@ == pre.blobs@[i].bytes@
    &&& d.content_type@ == f.content_type@
    &&& d.file_name@ == f.file_name@
    &&& d.file_size == f.file_size
    &&& if f.download_count + 1 >= f.download_limit {
        post.files@ == pre.files@.remove(i) && post.blobs@ == pre.blobs@.remove(i)
    } else {
        post.files@ == pre.files@.update(
            i,
            File { download_count: (f.download_count + 1) as i32, ..f },
        ) && post.blobs@ == pre.blobs@
    }
    &&& post.users@ == pre.users@
}

/// The validated download limit: the caller's positive value, else 1.
pub fn effective_download_limit(l: Option<i32>) -> (r: i32)
    ensures
        r as int == effective_limit_spec(l),
        1 <= r,
{
    match l {
        Some(n) => if n >= 1 {
            n
        } else {
            1
        },
        None => 1,
    }
}

/// The caller's string, or a fresh `"unknown"` when absent.
fn or_unknown_exec(s: Option<String>) -> (r: String)
    ensures
        r@ == or_unknown(s),
{
    match s {
        Some(v) => v,
        None => "unknown".to_owned(),
    }
}

/// Builds the absolute URL a file can be retrieved under.
pub fn build_download_url(use_tls: bool, base_url: &String, id: &String) -> (r: String)
    ensures
        r@ == url_spec(use_tls, base_url@, id@),
{
    let mut url: String = if use_tls {
        "https://".to_owned()
    } else {
        "http://".to_owned()
    };
    url.append(base_url.as_str());
    url.append("/download/");
    url.append(id.as_str());
    url
}

/// A verified byte-for-byte copy of a blob's payload.
fn clone_bytes(v: &Vec<u8>) -> (r: Vec<u8>)
    ensures
        r@ == v@,
{
    let n = v.len();
    let mut out: Vec<u8> = Vec::new();
    let mut k: usize = 0;
    while k < n
        invariant
            n == v@.len(),
            k <= n,
            out@ == v@.subrange(0, k as int),
        decreases n - k,
    {
        out.push(v[k]);
        proof {
            assert(v@.subrange(0, k as int).push(v@[k as int]) =~= v@.subrange(0, k as int + 1));
        }
        k += 1;
    }
    proof {
        assert(v@.subrange(0, n as int) =~= v@);
    }
    out
}

impl ServiceState {
    /// Resolves an identity key to its username; an unknown key is an
    /// authorization failure.
    pub fn authenticate(&self, key: &String) -> (r: Result<String, ApiError>)
        requires
            self.wf(),
        ensures
            self.has_key(key@) ==> (r matches Ok(u) && u@ == self.owner_of(key@)),
            !self.has_key(key@) ==> r == Err::<String, ApiError>(ApiError::Authorization),
    {
        match self.user_pos_by_key(key) {
            Some(i) => Ok(self.users[i].username.clone()),
            None => Err(ApiError::Authorization),
        }
    }

    /// Registers a new identity under a fresh key, gated by the configuration
    /// flag.  Success is owed exactly when registration is allowed, the
    /// username is free, and the fresh key does not collide.
    pub fn register(
        &mut self,
        username: String,
        password: String,
        fresh_key: String,
        allow_register: bool,
    ) -> (r: Result<String, ApiError>)
        requires
            old(self).wf(),
        ensures
            final(self).wf(),
            final(self).files@ == old(self).files@,
            final(self).blobs@ == old(self).blobs@,
            !allow_register ==> r == Err::<String, ApiError>(ApiError::Forbidden) && *final(self)
                == *old(self),
            allow_register && old(self).has_username(username@) ==> r == Err::<
                String,
                ApiError,
            >(ApiError::Conflict) && *final(self) == *old(self),
            allow_register && !old(self).has_username(username@) && old(self).has_key(fresh_key@)
                ==> r == Err::<String, ApiError>(ApiError::Persistence) && *final(self) == *old(
                self,
            ),
            allow_register && !old(self).has_username(username@) && !old(self).has_key(fresh_key@)
                ==> (r matches Ok(k) && k == fresh_key && final(self).users@ == old(
                self,
            ).users@.push(
                Identity { key: fresh_key, username: username, password: password },
            )),
    {
        if !allow_register {
            return Err(ApiError::Forbidden);
        }
        match self.user_pos_by_name(&username) {
            Some(_) => {
                return Err(ApiError::Conflict);
            },
            None => {},
        }
        match self.user_pos_by_key(&fresh_key) {
            Some(_) => {
                return Err(ApiError::Persistence);
            },
            None => {},
        }
        let ghost pre = *self;
        let ghost new_user = Identity {
            key: fresh_key,
            username: username,
            password: password,
        };
        let returned = fresh_key.clone();
        self.users.push(Identity { key: fresh_key, username, password });
        proof {
            assert forall|a: int| 0 <= a < pre.users@.len() implies (#[trigger] pre.users@[a]).key@
                != new_user.key@ by {
                if pre.users@[a].key@ == new_user.key@ {
                    pre.lemma_user_index(a, new_user.key@);
                }
            }
            assert forall|a: int|
                0 <= a < pre.users@.len() implies (#[trigger] pre.users@[a]).username@
                != new_user.username@ by {}
            lemma_identities_push(pre.users@, new_user);
        }
        Ok(returned)
    }

    /// Accepts an upload: authorizes the caller, stores the blob and the
    /// record together, and hands the completed record back.  The fresh
    /// identifier and the upload time come from the caller, so that this
    /// whole transition is a function of its arguments.
    pub fn accept(
        &mut self,
        owner_key: Option<String>,
        file_name: Option<String>,
        content_type: Option<String>,
        download_limit: Option<i32>,
        body: Vec<u8>,
        fresh_id: String,
        upload_time: i64,
        use_tls: bool,
        base_url: &String,
    ) -> (r: Result<File, ApiError>)
        requires
            old(self).wf(),
            body@.len() <= i64::MAX,
        ensures
            final(self).wf(),
            owner_key is None ==> r == Err::<File, ApiError>(ApiError::Validation) && *final(self)
                == *old(self),
            owner_key is Some && !old(self).has_key(key_view(owner_key)) ==> r == Err::<
                File,
                ApiError,
            >(ApiError::Authorization) && *final(self) == *old(self),
            owner_key is Some && old(self).has_key(key_view(owner_key)) && old(self).has_file(
                fresh_id@,
            ) ==> r == Err::<File, ApiError>(ApiError::Persistence) && *final(self) == *old(self),
            owner_key is Some && old(self).has_key(key_view(owner_key)) && !old(self).has_file(
                fresh_id@,
            ) ==> (r matches Ok(f) && accept_applied(*old(self), *final(self), f, body) && f@
                == fresh_record_view(
                fresh_id@,
                file_name,
                content_type,
                download_limit,
                body@,
                upload_time as int,
                use_tls,
                base_url@,
                old(self).owner_of(key_view(owner_key)),
            )),
    {
        // The key header must be present before any storage work happens.
        let key = match owner_key {
            Some(k) => k,
            None => {
                return Err(ApiError::Validation);
            },
        };
        // Resolve the key to the owning username.
        let owner = match self.authenticate(&key) {
            Ok(u) => u,
            Err(e) => {
                return Err(e);
            },
        };
        // A duplicate identifier would corrupt both stores; surface it as the
        // metadata insert failure it would become, with nothing written, so
        // that no blob outlives a failed insert.
        match self.file_pos(&fresh_id) {
            Some(_) => {
                return Err(ApiError::Persistence);
            },
            None => {},
        }
        let size = body.len();
        let file_size: i64 = size as i64;
        let name = or_unknown_exec(file_name);
        let ctype = or_unknown_exec(content_type);
        let limit = effective_download_limit(download_limit);
        let url = build_download_url(use_tls, base_url, &fresh_id);
        let stored = File {
            id: fresh_id.clone(),
            file_name: name.clone(),
            content_type: ctype.clone(),
            upload_time,
            download_limit: limit,
            download_count: 0,
            file_size,
            download_url: url.clone(),
            owner: owner.clone(),
        };
        let ghost pre = *self;
        // The blob is written first, the record inserted second: the record
        // never points at bytes that were not stored.
        self.blobs.push(Blob { id: fresh_id.clone(), bytes: body });
        self.files.push(stored);
        proof {
            assert forall|a: int| 0 <= a < pre.files@.len() implies (#[trigger] pre.files@[a]).id@
                != fresh_id@ by {
                if pre.files@[a].id@ == fresh_id@ {
                    pre.lemma_file_index(a, fresh_id@);
                }
            }
            lemma_files_push(pre.files@, self.files@.last());
        }
        Ok(
            File {
                id: fresh_id,
                file_name: name,
                content_type: ctype,
                upload_time,
                download_limit: limit,
                download_count: 0,
                file_size,
                download_url: url,
                owner,
            },
        )
    }

    /// Serves one consumption of a file: checks both stores, accounts the
    /// download, returns the full payload, and destroys the record and the
    /// blob together exactly when the new counter reaches the limit.
    pub fn consume(&mut self, file_id: &String) -> (r: Result<Download, ApiError>)
        requires
            old(self).wf(),
        ensures
            final(self).wf(),
            !old(self).has_file(file_id@) ==> r == Err::<Download, ApiError>(ApiError::NotFound)
                && *final(self) == *old(self),
            old(self).has_file(file_id@) ==> (r matches Ok(d) && consume_applied(
                *old(self),
                *final(self),
                file_id@,
                d,
            )),
    {
        // The blob must exist.
        let bi = match self.blob_pos(file_id) {
            Some(i) => i,
            None => {
                return Err(ApiError::NotFound);
            },
        };
        // The metadata row must exist.  The stores are updated in separate
        // steps, so neither check alone is authoritative.
        let fi = match self.file_pos(file_id) {
            Some(i) => i,
            None => {
                return Err(ApiError::NotFound);
            },
        };
        let ghost pre = *self;
        proof {
            // The invariant bounds the counter strictly below the limit, so
            // the increment below cannot overflow.
            assert(pre.blobs@[fi as int].id@ == pre.files@[fi as int].id@);
        }
        // Account the consumption: the counter grows by exactly one per
        // successful call, whatever the payload size.
        let old_f = self.files.remove(fi);
        let new_count = old_f.download_count + 1;
        let updated = File { download_count: new_count, ..old_f };
        let ghost updated_g = updated;
        self.files.insert(fi, updated);
        proof {
            assert(self.files@ =~= pre.files@.update(fi as int, updated_g));
            lemma_files_update_same_id(pre.files@, fi as int, updated_g);
            assert forall|j: int| 0 <= j < self.files@.len() implies {
                &&& (#[trigger] self.blobs@[j]).id@ == self.files@[j].id@
                &&& self.files@[j].file_size == self.blobs@[j].bytes@.len()
                &&& 1 <= self.files@[j].download_limit
                &&& 0 <= self.files@[j].download_count
            } by {
                assert(pre.blobs@[j].id@ == pre.files@[j].id@);
                if j != fi as int {
                    assert(self.files@[j] == pre.files@[j]);
                }
            }
        }
        // Read the full payload before any deletion: the request that
        // exhausts the limit is still served its bytes.
        let payload = clone_bytes(&self.blobs[bi].bytes);
        let d = Download {
            bytes: payload,
            content_type: self.files[fi].content_type.clone(),
            file_name: self.files[fi].file_name.clone(),
            file_size: self.files[fi].file_size,
        };
        // Expiry: once the limit is reached, the blob goes first, the record
        // second, and neither survives the call.
        if new_count >= self.files[fi].download_limit {
            self.blobs.remove(bi);
            self.files.remove(fi);
            proof {
                assert(self.files@ =~= pre.files@.remove(fi as int));
                lemma_files_remove(pre.files@, fi as int);
                assert forall|j: int| 0 <= j < self.files@.len() implies {
                    &&& (#[trigger] self.blobs@[j]).id@ == self.files@[j].id@
                    &&& self.files@[j].file_size == self.blobs@[j].bytes@.len()
                    &&& 1 <= self.files@[j].download_limit
                    &&& 0 <= self.files@[j].download_count
                        < self.files@[j].download_limit
                } by {
                    let j2 = if j < fi as int {
                        j
                    } else {
                        j + 1
                    };
                    assert(self.files@[j] == pre.files@[j2]);
                    assert(self.blobs@[j] == pre.blobs@[j2]);
                    assert(pre.blobs@[j2].id@ == pre.files@[j2].id@);
                }
            }
        } else {
            proof {
                assert forall|j: int|
                    0 <= j < self.files@.len() implies (#[trigger] self.files@[j]).download_count
                    < self.files@[j].download_limit by {
                    assert(pre.blobs@[j].id@ == pre.files@[j].id@);
                    if j != fi as int {
                        assert(self.files@[j] == pre.files@[j]);
                    }
                }
            }
        }
        Ok(d)
    }

    /// Accepts an upload under a freshly generated identifier and the current
    /// time: the whole upload path.  Success is owed whenever the key header
    /// is present and authorized, except in the negligible case that the
    /// fresh identifier collides with a live one, which surfaces as the
    /// persistence failure the insert would become, with nothing written.
    pub fn upload(
        &mut self,
        owner_key: Option<String>,
        file_name: Option<String>,
        content_type: Option<String>,
        download_limit: Option<i32>,
        body: Vec<u8>,
        use_tls: bool,
        base_url: &String,
    ) -> (r: Result<File, ApiError>)
        requires
            old(self).wf(),
            body@.len() <= i64::MAX,
        ensures
            final(self).wf(),
            owner_key is None ==> r == Err::<File, ApiError>(ApiError::Validation) && *final(self)
                == *old(self),
            owner_key is Some && !old(self).has_key(key_view(owner_key)) ==> r == Err::<
                File,
                ApiError,
            >(ApiError::Authorization) && *final(self) == *old(self),
            owner_key is Some && old(self).has_key(key_view(owner_key)) ==> match r {
                Ok(f) => {
                    &&& accept_applied(*old(self), *final(self), f, body)
                    &&& !old(self).has_file(f.id@)
                    &&& f@.id.len() == 36
                    &&& f@.file_name == or_unknown(file_name)
                    &&& f@.content_type == or_unknown(content_type)
                    &&& f@.download_limit == effective_limit_spec(download_limit)
                    &&& f@.download_count == 0
                    &&& f@.file_size == body@.len()
                    &&& f@.download_url == url_spec(use_tls, base_url@, f@.id)
                    &&& f@.owner == old(self).owner_of(key_view(owner_key))
                },
                Err(e) => e == ApiError::Persistence && *final(self) == *old(self),
            },
    {
        let fresh_id = crate::ids::generate_token();
        let upload_time = crate::ids::current_timestamp();
        self.accept(
            owner_key,
            file_name,
            content_type,
            download_limit,
            body,
            fresh_id,
            upload_time,
            use_tls,
            base_url,
        )
    }

    /// Registers a user under a freshly generated key: the whole registration
    /// path, gated by the configuration flag.  Success is owed whenever
    /// registration is enabled and the username is free, except in the
    /// negligible case that the fresh key collides with an existing one.
    pub fn register_user(
        &mut self,
        username: String,
        password: String,
        allow_register: bool,
    ) -> (r: Result<String, ApiError>)
        requires
            old(self).wf(),
        ensures
            final(self).wf(),
            final(self).files@ == old(self).files@,
            final(self).blobs@ == old(self).blobs@,
            !allow_register ==> r == Err::<String, ApiError>(ApiError::Forbidden) && *final(self)
                == *old(self),
            allow_register && old(self).has_username(username@) ==> r == Err::<
                String,
                ApiError,
            >(ApiError::Conflict) && *final(self) == *old(self),
            allow_register && !old(self).has_username(username@) ==> match r {
                Ok(k) => {
                    &&& k@.len() == 36
                    &&& !old(self).has_key(k@)
                    &&& final(self).users@ == old(self).users@.push(
                        Identity { key: k, username: username, password: password },
                    )
                },
                Err(e) => e == ApiError::Persistence && *final(self) == *old(self),
            },
    {
        let fresh_key = crate::ids::generate_token();
        self.register(username, password, fresh_key, allow_register)
    }

    /// The full contents of the metadata store.
    pub fn all_files(&self) -> (r: &Vec<File>)
        ensures
            r@ == self.files@,
    {
        &self.files
    }
}

} // verus!
