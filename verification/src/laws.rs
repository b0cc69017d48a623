//! The laws the service obeys, proved from the transition contracts.
//!
//! Each proof function here states one property of the service for every
//! state and every input, over the same spec functions the operations'
//! contracts use.  Consumption steps are related by
//! [`consume_applied`](crate::service::consume_applied) and uploads by
//! [`accept_applied`](crate::service::accept_applied), exactly what
//! [`ServiceState::consume`](crate::store::ServiceState) and
//! [`ServiceState::accept`](crate::store::ServiceState) ensure of themselves.

use vstd::prelude::*;

use crate::data::Download;
use crate::data::File;
use crate::data::FileView;
use crate::service::accept_applied;
use crate::service::consume_applied;
use crate::store::ServiceState;
use crate::store::lemma_files_remove;

verus! {

/// While a record exists, its counter is non-negative and strictly under its
/// positive limit, so a consumption is always owed to a live file.
pub proof fn lemma_count_within_limit(s: ServiceState, id: Seq<char>)
    requires
        s.wf(),
        s.has_file(id),
    ensures
        0 <= s.file_at(id)@.download_count < s.file_at(id)@.download_limit,
        s.file_at(id)@.file_size == s.blob_at(id).len(),
{
    let i = s.file_index(id);
    assert(0 <= i < s.files@.len() && s.files@[i].id@ == id);
    assert(s.blobs@[i].id@ == s.files@[i].id@);
}

/// A blob and its metadata row exist together: in every well-formed state,
/// an identifier has a blob exactly when it has a record, so neither
/// outlives the other across any operation.
pub proof fn lemma_stores_in_step(s: ServiceState, id: Seq<char>)
    requires
        s.wf(),
    ensures
        s.has_file(id) <==> s.has_blob(id),
{
    if s.has_file(id) {
        let i = s.file_index(id);
        assert(0 <= i < s.files@.len() && s.files@[i].id@ == id);
        assert(s.blobs@[i].id@ == s.files@[i].id@);
        assert(s.has_blob(id));
    }
    if s.has_blob(id) {
        let j = choose|j: int| 0 <= j < s.blobs@.len() && (#[trigger] s.blobs@[j]).id@ == id;
        assert(s.blobs@[j].id@ == s.files@[j].id@);
        assert(s.has_file(id));
    }
}

/// One successful consumption, in full: the served payload and metadata are
/// the stored ones; the counter grows by exactly one and never shrinks; the
/// record and its blob are destroyed together exactly when the new counter
/// reaches the limit; and every other file is untouched.
pub proof fn lemma_consume_step(pre: ServiceState, post: ServiceState, id: Seq<char>, d: Download)
    requires
        pre.wf(),
        post.wf(),
        pre.has_file(id),
        consume_applied(pre, post, id, d),
    ensures
        0 <= pre.file_at(id)@.download_count < pre.file_at(id)@.download_limit,
        d.bytes@ == pre.blob_at(id),
        d.content_type@ == pre.file_at(id)@.content_type,
        d.file_name@ == pre.file_at(id)@.file_name,
        d.file_size == pre.file_at(id).file_size,
        post.has_file(id) <==> pre.file_at(id)@.download_count + 1 < pre.file_at(
            id,
        )@.download_limit,
        post.has_file(id) ==> {
            &&& post.file_at(id)@ == FileView {
                download_count: pre.file_at(id)@.download_count + 1,
                ..pre.file_at(id)@
            }
            &&& post.blob_at(id) == pre.blob_at(id)
        },
        forall|o: Seq<char>| o != id ==> ((#[trigger] post.has_file(o)) <==> pre.has_file(o)),
        forall|o: Seq<char>|
            o != id && pre.has_file(o) ==> (#[trigger] post.file_at(o)) == pre.file_at(o)
                && post.blob_at(o) == pre.blob_at(o),
{
    let i = pre.file_index(id);
    assert(0 <= i < pre.files@.len() && pre.files@[i].id@ == id);
    let f = pre.files@[i];
    assert(pre.blobs@[i].id@ == pre.files@[i].id@);
    if f.download_count + 1 >= f.download_limit {
        lemma_files_remove(pre.files@, i);
        assert(!post.has_file(id)) by {
            if post.has_file(id) {
                let j = post.file_index(id);
                assert(0 <= j < post.files@.len() && post.files@[j].id@ == id);
            }
        }
        assert forall|o: Seq<char>| o != id implies ((#[trigger] post.has_file(o))
            <==> pre.has_file(o)) by {
            if pre.has_file(o) {
                let j = pre.file_index(o);
                assert(0 <= j < pre.files@.len() && pre.files@[j].id@ == o);
                if j < i {
                    assert(post.files@[j] == pre.files@[j]);
                    assert(post.has_file(o));
                } else {
                    assert(j != i);
                    assert(post.files@[j - 1] == pre.files@[j]);
                    assert(post.has_file(o));
                }
            }
            if post.has_file(o) {
                let j = post.file_index(o);
                assert(0 <= j < post.files@.len() && post.files@[j].id@ == o);
                let j2 = if j < i {
                    j
                } else {
                    j + 1
                };
                assert(post.files@[j] == pre.files@[j2]);
                assert(pre.has_file(o));
            }
        }
        assert forall|o: Seq<char>| o != id && pre.has_file(o) implies (#[trigger] post.file_at(o))
            == pre.file_at(o) && post.blob_at(o) == pre.blob_at(o) by {
            let j = pre.file_index(o);
            assert(0 <= j < pre.files@.len() && pre.files@[j].id@ == o);
            assert(j != i);
            let j2 = if j < i {
                j
            } else {
                j - 1
            };
            assert(post.files@[j2] == pre.files@[j]);
            assert(post.blobs@[j2] == pre.blobs@[j]);
            post.lemma_file_index(j2, o);
        }
    } else {
        let fkept = File { download_count: (f.download_count + 1) as i32, ..f };
        assert(post.files@[i] == fkept);
        post.lemma_file_index(i, id);
        assert forall|o: Seq<char>| o != id implies ((#[trigger] post.has_file(o))
            <==> pre.has_file(o)) by {
            if pre.has_file(o) {
                let j = pre.file_index(o);
                assert(0 <= j < pre.files@.len() && pre.files@[j].id@ == o);
                assert(j != i);
                assert(post.files@[j] == pre.files@[j]);
                assert(post.has_file(o));
            }
            if post.has_file(o) {
                let j = post.file_index(o);
                assert(0 <= j < post.files@.len() && post.files@[j].id@ == o);
                assert(j != i);
                assert(pre.files@[j] == post.files@[j]);
                assert(pre.has_file(o));
            }
        }
        assert forall|o: Seq<char>| o != id && pre.has_file(o) implies (#[trigger] post.file_at(o))
            == pre.file_at(o) && post.blob_at(o) == pre.blob_at(o) by {
            let j = pre.file_index(o);
            assert(0 <= j < pre.files@.len() && pre.files@[j].id@ == o);
            assert(j != i);
            assert(post.files@[j] == pre.files@[j]);
            post.lemma_file_index(j, o);
        }
    }
}

/// Race safety under per-identifier atomicity: on a file whose limit is 1,
/// the consumption that succeeds destroys the record and the blob, so of two
/// calls applied in either order the second finds nothing and fails.  Exactly
/// one of the two succeeds: the first is owed success because the record is
/// live, and the second cannot succeed because it is gone.
pub proof fn lemma_single_use_race(pre: ServiceState, post: ServiceState, id: Seq<char>, d: Download)
    requires
        pre.wf(),
        post.wf(),
        pre.has_file(id),
        pre.file_at(id)@.download_limit == 1,
        consume_applied(pre, post, id, d),
    ensures
        !post.has_file(id),
        !post.has_blob(id),
{
    lemma_consume_step(pre, post, id, d);
    lemma_stores_in_step(post, id);
}

/// Limit enforcement over a whole run: a chain of successful consumptions of
/// one identifier is never longer than the downloads the record had left at
/// the start; the record survives exactly the runs shorter than that; where
/// it survives, its counter has grown by the length of the run, one per
/// consumption, so the counter never decreases and never passes the limit;
/// and every consumption of the run, the exhausting one included, serves the
/// bytes stored at the start.
pub proof fn lemma_limit_enforcement(
    states: Seq<ServiceState>,
    downloads: Seq<Download>,
    id: Seq<char>,
)
    requires
        states.len() == downloads.len() + 1,
        forall|k: int| 0 <= k < states.len() ==> (#[trigger] states[k]).wf(),
        forall|k: int| 0 <= k < downloads.len() ==> (#[trigger] states[k]).has_file(id),
        forall|k: int|
            0 <= k < downloads.len() ==> consume_applied(
                states[k],
                states[k + 1],
                id,
                #[trigger] downloads[k],
            ),
    ensures
        downloads.len() > 0 ==> downloads.len() <= states[0].file_at(id)@.download_limit
            - states[0].file_at(id)@.download_count,
        downloads.len() > 0 ==> (states.last().has_file(id) <==> downloads.len() < states[0].file_at(
            id,
        )@.download_limit - states[0].file_at(id)@.download_count),
        downloads.len() > 0 && states.last().has_file(id) ==> states.last().file_at(
            id,
        )@.download_count == states[0].file_at(id)@.download_count + downloads.len(),
        forall|k: int|
            0 <= k < downloads.len() ==> (#[trigger] downloads[k]).bytes@ == states[0].blob_at(id),
    decreases downloads.len(),
{
    if downloads.len() > 0 {
        lemma_consume_step(states[0], states[1], id, downloads[0]);
        let c0 = states[0].file_at(id)@.download_count;
        let lim = states[0].file_at(id)@.download_limit;
        if downloads.len() == 1 {
            assert(states.last() == states[1]);
        } else {
            assert(states[1].has_file(id));
            assert(states[1].file_at(id)@.download_count == c0 + 1);
            assert(states[1].file_at(id)@.download_limit == lim);
            assert(states[1].blob_at(id) == states[0].blob_at(id));
            let tail_s = states.drop_first();
            let tail_d = downloads.drop_first();
            assert forall|k: int| 0 <= k < tail_s.len() implies (#[trigger] tail_s[k]).wf() by {
                assert(tail_s[k] == states[k + 1]);
            }
            assert forall|k: int|
                0 <= k < tail_d.len() implies (#[trigger] tail_s[k]).has_file(id) by {
                assert(tail_s[k] == states[k + 1]);
            }
            assert forall|k: int|
                0 <= k < tail_d.len() implies consume_applied(
                    tail_s[k],
                    tail_s[k + 1],
                    id,
                    #[trigger] tail_d[k],
                ) by {
                assert(tail_d[k] == downloads[k + 1]);
                assert(tail_s[k] == states[k + 1]);
                assert(tail_s[k + 1] == states[k + 2]);
            }
            lemma_limit_enforcement(tail_s, tail_d, id);
            assert(tail_s.last() == states.last());
            assert(tail_s[0] == states[1]);
            assert forall|k: int|
                0 <= k < downloads.len() implies (#[trigger] downloads[k]).bytes@
                == states[0].blob_at(id) by {
                if k > 0 {
                    assert(tail_d[k - 1] == downloads[k]);
                    assert(tail_d[k - 1].bytes@ == tail_s[0].blob_at(id));
                }
            }
        }
    }
}

/// Round-trip fidelity: consuming a file right after its upload returns
/// exactly the uploaded bytes and the metadata the upload recorded.
pub proof fn lemma_round_trip(
    pre: ServiceState,
    mid: ServiceState,
    post: ServiceState,
    f: File,
    body: Vec<u8>,
    d: Download,
)
    requires
        pre.wf(),
        mid.wf(),
        !pre.has_file(f.id@),
        accept_applied(pre, mid, f, body),
        consume_applied(mid, post, f.id@, d),
    ensures
        d.bytes@ == body@,
        d.content_type@ == f@.content_type,
        d.file_name@ == f@.file_name,
        d.file_size == f.file_size,
{
    let n = pre.files@.len() as int;
    assert(mid.files@[n] == f);
    mid.lemma_file_index(n, f.id@);
    assert(mid.blobs@[n].bytes@ == body@);
}

} // verus!
