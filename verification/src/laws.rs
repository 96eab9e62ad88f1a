//! What holds of the store and of the reduction of answers, whatever the
//! calls and whatever the answer.

use vstd::prelude::*;
use vstd::utf8::valid_utf8;
use crate::bytes::find_from;
use crate::multipart::utf8;
use crate::records::{NftView, ProjectView, TrackView, UploadOutcome};
use crate::response::{
    hash_span, pin_size_of, reply_outcome, status_failure_text, HASH_MARKER, PARSE_FAILURE,
    SIZE_MARKER, STATUS_OK,
};
use crate::store::{numbered_otherwise, StoreView};

verus! {

/// One change of the store, with the values it is made with.
pub enum StoreOp {
    CreateProject { title: Seq<char>, description: Seq<char>, owner: Seq<char> },
    AddTrack {
        project_id: u64,
        name: Seq<char>,
        ipfs_hash: Seq<char>,
        uploaded_by: Seq<char>,
        timestamp: u64,
    },
    AddContributor { project_id: u64, contributor: Seq<char> },
    RemoveTrack { project_id: u64, track_id: u64 },
    MintNft {
        name: Seq<char>,
        description: Seq<char>,
        image_url: Seq<char>,
        creator: Seq<char>,
        project_id: u64,
        price: u64,
    },
}

/// The store after one change.
pub open spec fn apply(store: StoreView, op: StoreOp) -> StoreView {
    match op {
        StoreOp::CreateProject { title, description, owner } => store.create_project(
            title,
            description,
            owner,
        ),
        StoreOp::AddTrack {
            project_id,
            name,
            ipfs_hash,
            uploaded_by,
            timestamp,
        } => store.add_track(project_id, name, ipfs_hash, uploaded_by, timestamp),
        StoreOp::AddContributor { project_id, contributor } => store.add_contributor(
            project_id,
            contributor,
        ),
        StoreOp::RemoveTrack { project_id, track_id } => store.remove_track(project_id, track_id),
        StoreOp::MintNft {
            name,
            description,
            image_url,
            creator,
            project_id,
            price,
        } => store.mint_nft(name, description, image_url, creator, project_id, price),
    }
}

/// The store after the changes `ops`, made in order.
pub open spec fn apply_all(store: StoreView, ops: Seq<StoreOp>) -> StoreView
    decreases ops.len(),
{
    if ops.len() == 0 {
        store
    } else {
        apply(apply_all(store, ops.drop_last()), ops.last())
    }
}

/// How many of `ops` create a project.
pub open spec fn project_creations(ops: Seq<StoreOp>) -> nat
    decreases ops.len(),
{
    if ops.len() == 0 {
        0
    } else {
        project_creations(ops.drop_last()) + if ops.last() is CreateProject {
            1nat
        } else {
            0nat
        }
    }
}

/// How many of `ops` mint a collectible.
pub open spec fn nft_mintings(ops: Seq<StoreOp>) -> nat
    decreases ops.len(),
{
    if ops.len() == 0 {
        0
    } else {
        nft_mintings(ops.drop_last()) + if ops.last() is MintNft {
            1nat
        } else {
            0nat
        }
    }
}

/// The next project identifier counts the creations and nothing else, as
/// long as the counter does not run out.
pub proof fn lemma_project_counter_counts(store: StoreView, ops: Seq<StoreOp>)
    requires
        store.next_project_id + project_creations(ops) <= u64::MAX,
    ensures
        apply_all(store, ops).next_project_id == store.next_project_id + project_creations(ops),
    decreases ops.len(),
{
    if ops.len() > 0 {
        lemma_project_counter_counts(store, ops.drop_last());
    }
}

/// The next collectible identifier counts the mintings and nothing else, as
/// long as the counter does not run out.
pub proof fn lemma_nft_counter_counts(store: StoreView, ops: Seq<StoreOp>)
    requires
        store.next_nft_id + nft_mintings(ops) <= u64::MAX,
    ensures
        apply_all(store, ops).next_nft_id == store.next_nft_id + nft_mintings(ops),
    decreases ops.len(),
{
    if ops.len() > 0 {
        lemma_nft_counter_counts(store, ops.drop_last());
    }
}

/// A longer run holds at least the creations and the mintings of each of its
/// beginnings.
pub proof fn lemma_counts_grow(ops: Seq<StoreOp>, shorter: int, longer: int)
    requires
        0 <= shorter <= longer <= ops.len(),
    ensures
        project_creations(ops.take(shorter)) <= project_creations(ops.take(longer)),
        nft_mintings(ops.take(shorter)) <= nft_mintings(ops.take(longer)),
    decreases longer - shorter,
{
    if shorter < longer {
        lemma_counts_grow(ops, shorter, longer - 1);
        assert(ops.take(longer).drop_last() =~= ops.take(longer - 1));
    }
}

/// The identifier that the change at position `at` of `ops` is given, if it
/// creates a project: the next project identifier of the store before it.
pub open spec fn project_id_issued(store: StoreView, ops: Seq<StoreOp>, at: int) -> u64 {
    apply_all(store, ops.take(at)).next_project_id
}

/// The identifier that the change at position `at` of `ops` is given, if it
/// mints a collectible: the next collectible identifier of the store before it.
pub open spec fn nft_id_issued(store: StoreView, ops: Seq<StoreOp>, at: int) -> u64 {
    apply_all(store, ops.take(at)).next_nft_id
}

/// In any run of changes, a later creation of a project is given a greater
/// identifier than an earlier one, whatever is minted, added or removed in
/// between. So no project identifier is given twice. The runs in which the
/// counter runs out before the later creation are left out.
pub proof fn lemma_project_ids_increase(
    store: StoreView,
    ops: Seq<StoreOp>,
    earlier: int,
    later: int,
)
    requires
        0 <= earlier < later < ops.len(),
        ops[earlier] is CreateProject,
        ops[later] is CreateProject,
        store.next_project_id + project_creations(ops.take(later)) <= u64::MAX,
    ensures
        project_id_issued(store, ops, earlier) < project_id_issued(store, ops, later),
        project_id_issued(store, ops, earlier) != project_id_issued(store, ops, later),
{
    lemma_counts_grow(ops, earlier, later);
    lemma_counts_grow(ops, earlier + 1, later);
    lemma_project_counter_counts(store, ops.take(earlier));
    lemma_project_counter_counts(store, ops.take(later));
    assert(ops.take(earlier + 1).drop_last() =~= ops.take(earlier));
}

/// In any run of changes, a later minting is given a greater identifier than
/// an earlier one, whatever projects are created in between. The runs in
/// which the counter runs out before the later minting are left out.
pub proof fn lemma_nft_ids_increase(store: StoreView, ops: Seq<StoreOp>, earlier: int, later: int)
    requires
        0 <= earlier < later < ops.len(),
        ops[earlier] is MintNft,
        ops[later] is MintNft,
        store.next_nft_id + nft_mintings(ops.take(later)) <= u64::MAX,
    ensures
        nft_id_issued(store, ops, earlier) < nft_id_issued(store, ops, later),
        nft_id_issued(store, ops, earlier) != nft_id_issued(store, ops, later),
{
    lemma_counts_grow(ops, earlier, later);
    lemma_counts_grow(ops, earlier + 1, later);
    lemma_nft_counter_counts(store, ops.take(earlier));
    lemma_nft_counter_counts(store, ops.take(later));
    assert(ops.take(earlier + 1).drop_last() =~= ops.take(earlier));
}

/// Minting leaves the projects and their counter alone, and creating a project
/// leaves the collectibles and their counter alone.
pub proof fn lemma_counters_are_separate(
    store: StoreView,
    title: Seq<char>,
    description: Seq<char>,
    owner: Seq<char>,
    name: Seq<char>,
    image_url: Seq<char>,
    creator: Seq<char>,
    project_id: u64,
    price: u64,
)
    ensures
        store.mint_nft(name, description, image_url, creator, project_id, price).next_project_id
            == store.next_project_id,
        store.mint_nft(name, description, image_url, creator, project_id, price).projects
            == store.projects,
        store.create_project(title, description, owner).next_nft_id == store.next_nft_id,
        store.create_project(title, description, owner).nfts == store.nfts,
{
}

/// Adding a contributor a second time changes nothing: the project lists the
/// name once.
pub proof fn lemma_add_contributor_idempotent(
    store: StoreView,
    project_id: u64,
    contributor: Seq<char>,
)
    ensures
        store.add_contributor(project_id, contributor).add_contributor(project_id, contributor)
            == store.add_contributor(project_id, contributor),
        store.projects.contains_key(project_id) && !store.projects[project_id].contributors.contains(
            contributor,
        ) ==> store.add_contributor(project_id, contributor).add_contributor(
            project_id,
            contributor,
        ).projects[project_id].contributors == store.projects[project_id].contributors.push(
            contributor,
        ),
{
    if store.projects.contains_key(project_id) {
        let listed = store.projects[project_id].contributors;
        if !listed.contains(contributor) {
            assert(listed.push(contributor)[listed.len() as int] == contributor);
        }
    }
}

/// The tracks are numbered from one upwards in their order.
pub open spec fn numbered_in_order(tracks: Seq<TrackView>) -> bool {
    forall|i: int| 0 <= i < tracks.len() ==> (#[trigger] tracks[i]).id == i + 1
}

/// A new project has its tracks numbered in order, trivially, and adding a
/// track keeps them so: as long as no track is removed, no two tracks of a
/// project have the same number. After a removal this can fail: the next
/// track is numbered by the count, which a track that stayed may have.
pub proof fn lemma_tracks_stay_numbered_in_order(
    store: StoreView,
    project_id: u64,
    name: Seq<char>,
    ipfs_hash: Seq<char>,
    uploaded_by: Seq<char>,
    timestamp: u64,
)
    requires
        store.projects.contains_key(project_id),
        numbered_in_order(store.projects[project_id].tracks),
        store.projects[project_id].tracks.len() < u64::MAX,
    ensures
        numbered_in_order(
            store.add_track(
                project_id,
                name,
                ipfs_hash,
                uploaded_by,
                timestamp,
            ).projects[project_id].tracks,
        ),
        store.add_track(
            project_id,
            name,
            ipfs_hash,
            uploaded_by,
            timestamp,
        ).projects[project_id].tracks.len() == store.projects[project_id].tracks.len() + 1,
        numbered_in_order(Seq::<TrackView>::empty()),
{
}

/// Tracks that are numbered in order have different numbers.
pub proof fn lemma_numbered_in_order_is_distinct(tracks: Seq<TrackView>, i: int, j: int)
    requires
        numbered_in_order(tracks),
        0 <= i < j < tracks.len(),
    ensures
        tracks[i].id != tracks[j].id,
{
}

/// Taking out the tracks of one number leaves a list without that number as
/// it is.
pub proof fn lemma_filter_keeps_other_tracks(tracks: Seq<TrackView>, track_id: u64)
    requires
        forall|i: int| 0 <= i < tracks.len() ==> tracks[i].id != track_id,
    ensures
        tracks.filter(numbered_otherwise(track_id)) == tracks,
    decreases tracks.len(),
{
    reveal(Seq::filter);
    if tracks.len() > 0 {
        lemma_filter_keeps_other_tracks(tracks.drop_last(), track_id);
    }
}

/// Removing a track number that a project does not hold leaves the whole
/// store as it is: the tracks of the project keep their count and order.
pub proof fn lemma_remove_absent_track(store: StoreView, project_id: u64, track_id: u64)
    requires
        store.projects.contains_key(project_id),
        forall|i: int|
            0 <= i < store.projects[project_id].tracks.len()
                ==> store.projects[project_id].tracks[i].id != track_id,
    ensures
        store.remove_track(project_id, track_id) == store,
{
    lemma_filter_keeps_other_tracks(store.projects[project_id].tracks, track_id);
    assert(store.remove_track(project_id, track_id).projects =~= store.projects);
}

/// Where no project stands under an identifier, adding a track to it, adding
/// a contributor to it and removing a track from it leave the store as it is.
pub proof fn lemma_unknown_project_changes_nothing(
    store: StoreView,
    project_id: u64,
    name: Seq<char>,
    ipfs_hash: Seq<char>,
    uploaded_by: Seq<char>,
    timestamp: u64,
    contributor: Seq<char>,
    track_id: u64,
)
    requires
        !store.projects.contains_key(project_id),
    ensures
        store.add_track(project_id, name, ipfs_hash, uploaded_by, timestamp) == store,
        store.add_contributor(project_id, contributor) == store,
        store.remove_track(project_id, track_id) == store,
{
}

/// Each change keeps the store well formed, as long as neither counter runs
/// out.
pub proof fn lemma_changes_keep_well_formed(store: StoreView, op: StoreOp)
    requires
        store.well_formed(),
        store.next_project_id < u64::MAX,
        store.next_nft_id < u64::MAX,
    ensures
        apply(store, op).well_formed(),
{
}

/// A sequence that is as long as the set of its elements is large holds no
/// element twice.
pub proof fn lemma_distinct_when_set_is_as_large<A>(s: Seq<A>)
    requires
        s.to_set().len() == s.len(),
    ensures
        s.no_duplicates(),
{
    if !s.no_duplicates() {
        let (a, b) = choose|a: int, b: int|
            0 <= a < s.len() && 0 <= b < s.len() && a != b && s[a] == s[b];
        let first = if a < b {
            a
        } else {
            b
        };
        let second = if a < b {
            b
        } else {
            a
        };
        let shorter = s.remove(second);
        assert forall|x: A| s.to_set().contains(x) implies shorter.to_set().contains(x) by {
            let k = choose|k: int| 0 <= k < s.len() && s[k] == x;
            if k < second {
                assert(shorter[k] == x);
            } else if k == second {
                assert(shorter[first] == x);
            } else {
                assert(shorter[k - 1] == x);
            }
        }
        assert forall|x: A| shorter.to_set().contains(x) implies s.to_set().contains(x) by {
            let k = choose|k: int| 0 <= k < shorter.len() && shorter[k] == x;
            if k < second {
                assert(s[k] == x);
            } else {
                assert(s[k + 1] == x);
            }
        }
        assert(shorter.to_set() =~= s.to_set());
        shorter.lemma_cardinality_of_set();
    }
}

/// A listing of the projects of a well-formed store, as long as the store
/// holds projects and with the stored projects as its set, holds every stored
/// project once and nothing else.
pub proof fn lemma_project_listing_is_exact(store: StoreView, listed: Seq<ProjectView>)
    requires
        store.well_formed(),
        listed.len() == store.projects.dom().len(),
        listed.to_set() == store.projects.values(),
    ensures
        listed.no_duplicates(),
        forall|id: u64| #[trigger]
            store.projects.contains_key(id) ==> listed.contains(store.projects[id]),
        forall|i: int|
            0 <= i < listed.len() ==> store.projects.contains_key(#[trigger] listed[i].id)
                && store.projects[listed[i].id] == listed[i],
{
    store.projects.lemma_injective_values_len();
    lemma_distinct_when_set_is_as_large(listed);
    assert forall|id: u64| #[trigger] store.projects.contains_key(id) implies listed.contains(
        store.projects[id],
    ) by {
        assert(store.projects.values().contains(store.projects[id]));
    }
    assert forall|i: int| 0 <= i < listed.len() implies store.projects.contains_key(
        #[trigger] listed[i].id,
    ) && store.projects[listed[i].id] == listed[i] by {
        assert(listed.to_set().contains(listed[i]));
    }
}

/// A listing of the collectibles of a well-formed store, as long as the store
/// holds collectibles and with the stored collectibles as its set, holds every
/// stored collectible once and nothing else.
pub proof fn lemma_nft_listing_is_exact(store: StoreView, listed: Seq<NftView>)
    requires
        store.well_formed(),
        listed.len() == store.nfts.dom().len(),
        listed.to_set() == store.nfts.values(),
    ensures
        listed.no_duplicates(),
        forall|id: u64| #[trigger] store.nfts.contains_key(id) ==> listed.contains(store.nfts[id]),
        forall|i: int|
            0 <= i < listed.len() ==> store.nfts.contains_key(#[trigger] listed[i].id)
                && store.nfts[listed[i].id] == listed[i],
{
    store.nfts.lemma_injective_values_len();
    lemma_distinct_when_set_is_as_large(listed);
    assert forall|id: u64| #[trigger] store.nfts.contains_key(id) implies listed.contains(
        store.nfts[id],
    ) by {
        assert(store.nfts.values().contains(store.nfts[id]));
    }
    assert forall|i: int| 0 <= i < listed.len() implies store.nfts.contains_key(
        #[trigger] listed[i].id,
    ) && store.nfts[listed[i].id] == listed[i] by {
        assert(listed.to_set().contains(listed[i]));
    }
}

/// An answer with any status but success is a failure without identifier and
/// size, whose description is not empty, whatever its body holds.
pub proof fn lemma_other_status_fails(status: u64, body: Seq<u8>)
    requires
        status != STATUS_OK,
    ensures
        reply_outcome(status, body) == UploadOutcome::failed(status_failure_text(status)),
        !reply_outcome(status, body).success,
        reply_outcome(status, body).ipfs_hash.len() == 0,
        reply_outcome(status, body).pin_size == 0,
        reply_outcome(status, body).error matches Some(reason) && reason.len() > 0,
{
    reveal_strlit("Pinata API error: ");
}

/// A successful answer whose body lacks the identifier marker is the one
/// failure to parse, whatever else the body holds.
pub proof fn lemma_missing_identifier_fails(body: Seq<u8>)
    requires
        find_from(body, utf8(HASH_MARKER), 0) is None,
    ensures
        reply_outcome(STATUS_OK, body) == UploadOutcome::failed(PARSE_FAILURE@),
{
}

/// Whether a successful answer is a success rests on the identifier alone: a
/// body without the size marker reports size zero and succeeds all the same.
pub proof fn lemma_size_never_decides(body: Seq<u8>)
    ensures
        reply_outcome(STATUS_OK, body).success <==> valid_utf8(body) && hash_span(body) is Some,
        find_from(body, utf8(SIZE_MARKER), 0) is None ==> pin_size_of(body) == 0,
        reply_outcome(STATUS_OK, body).well_formed(),
{
}

} // verus!
