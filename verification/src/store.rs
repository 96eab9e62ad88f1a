//! The record store: projects and collectibles under sequential identifiers.
//!
//! The store is an owned value. Whoever holds it exclusively may change it;
//! every operation runs to its end and always answers: an unknown identifier
//! is answered with `false`, `None` or an empty list.
//!
//! A track is numbered by the count of its project's tracks at the time it is
//! added, plus one. After a removal a later track can therefore get a number
//! that an earlier track of the same project had.

use std::collections::HashMap;
use vstd::prelude::*;
use vstd::std_specs::hash::{axiom_spec_values_iter, group_hash_axioms, spec_values_iter};
use vstd::std_specs::iter::IteratorSpec;
use crate::records::{
    clone_tracks, nft_views, project_views, string_views, track_views, MusicProject, NFTMetadata,
    NftView, ProjectView, Track, TrackView,
};

verus! {

broadcast use group_hash_axioms;

/// The tracks that are not numbered `track_id`.
pub open spec fn numbered_otherwise(track_id: u64) -> spec_fn(TrackView) -> bool {
    |t: TrackView| t.id != track_id
}

/// What a [`RecordStore`] holds, as plain values.
pub struct StoreView {
    pub projects: Map<u64, ProjectView>,
    pub nfts: Map<u64, NftView>,
    pub next_project_id: u64,
    pub next_nft_id: u64,
}

impl StoreView {
    /// The store in which nothing was created yet. Identifiers start at 1.
    pub open spec fn empty() -> StoreView {
        StoreView { projects: Map::empty(), nfts: Map::empty(), next_project_id: 1, next_nft_id: 1 }
    }

    /// The records are finitely many; each stands under its own identifier,
    /// which was issued before; no project lists a contributor twice.
    pub open spec fn well_formed(self) -> bool {
        &&& self.projects.dom().finite()
        &&& self.nfts.dom().finite()
        &&& self.next_project_id >= 1
        &&& self.next_nft_id >= 1
        &&& forall|id: u64| #[trigger]
            self.projects.contains_key(id) ==> {
                &&& 1 <= id < self.next_project_id
                &&& self.projects[id].id == id
                &&& self.projects[id].contributors.no_duplicates()
            }
        &&& forall|id: u64| #[trigger]
            self.nfts.contains_key(id) ==> {
                &&& 1 <= id < self.next_nft_id
                &&& self.nfts[id].id == id
            }
    }

    /// The store after a project was created under the next project identifier.
    pub open spec fn create_project(
        self,
        title: Seq<char>,
        description: Seq<char>,
        owner: Seq<char>,
    ) -> StoreView {
        let project = ProjectView {
            id: self.next_project_id,
            title,
            description,
            owner,
            contributors: Seq::empty(),
            tracks: Seq::empty(),
        };
        StoreView {
            projects: self.projects.insert(self.next_project_id, project),
            next_project_id: (self.next_project_id + 1) as u64,
            ..self
        }
    }

    /// The store after a collectible was minted under the next collectible
    /// identifier. The project it names need not exist.
    pub open spec fn mint_nft(
        self,
        name: Seq<char>,
        description: Seq<char>,
        image_url: Seq<char>,
        creator: Seq<char>,
        project_id: u64,
        price: u64,
    ) -> StoreView {
        let nft = NftView {
            id: self.next_nft_id,
            name,
            description,
            image_url,
            creator,
            project_id,
            price,
        };
        StoreView {
            nfts: self.nfts.insert(self.next_nft_id, nft),
            next_nft_id: (self.next_nft_id + 1) as u64,
            ..self
        }
    }

    /// The store with the project under `project_id` replaced by `project`.
    pub open spec fn with_project(self, project_id: u64, project: ProjectView) -> StoreView {
        StoreView { projects: self.projects.insert(project_id, project), ..self }
    }

    /// The store after a track was added to the project under `project_id`:
    /// the track comes last and is numbered by the count of the tracks before
    /// it, plus one. Without such a project the store stays as it is.
    pub open spec fn add_track(
        self,
        project_id: u64,
        name: Seq<char>,
        ipfs_hash: Seq<char>,
        uploaded_by: Seq<char>,
        timestamp: u64,
    ) -> StoreView {
        if self.projects.contains_key(project_id) {
            let project = self.projects[project_id];
            let track = TrackView {
                id: (project.tracks.len() + 1) as u64,
                name,
                ipfs_hash,
                uploaded_by,
                timestamp,
            };
            self.with_project(
                project_id,
                ProjectView { tracks: project.tracks.push(track), ..project },
            )
        } else {
            self
        }
    }

    /// The store after `contributor` joined the project under `project_id`:
    /// the name comes last, unless the project lists it already. Without such
    /// a project the store stays as it is.
    pub open spec fn add_contributor(self, project_id: u64, contributor: Seq<char>) -> StoreView {
        if self.projects.contains_key(project_id) {
            let project = self.projects[project_id];
            if project.contributors.contains(contributor) {
                self
            } else {
                self.with_project(
                    project_id,
                    ProjectView { contributors: project.contributors.push(contributor), ..project },
                )
            }
        } else {
            self
        }
    }

    /// The store after every track numbered `track_id` left the project under
    /// `project_id`; the other tracks keep their order. Without such a project
    /// the store stays as it is.
    pub open spec fn remove_track(self, project_id: u64, track_id: u64) -> StoreView {
        if self.projects.contains_key(project_id) {
            let project = self.projects[project_id];
            self.with_project(
                project_id,
                ProjectView {
                    tracks: project.tracks.filter(numbered_otherwise(track_id)),
                    ..project
                },
            )
        } else {
            self
        }
    }
}

/// The projects and collectibles of the service, and the identifiers that
/// come next.
pub struct RecordStore {
    projects: HashMap<u64, MusicProject>,
    nfts: HashMap<u64, NFTMetadata>,
    next_project_id: u64,
    next_nft_id: u64,
}

impl View for RecordStore {
    type V = StoreView;

    closed spec fn view(&self) -> StoreView {
        StoreView {
            projects: self.projects@.map_values(|p: MusicProject| p@),
            nfts: self.nfts@.map_values(|n: NFTMetadata| n@),
            next_project_id: self.next_project_id,
            next_nft_id: self.next_nft_id,
        }
    }
}

impl RecordStore {
    /// A store in which nothing was created yet.
    pub fn new() -> (store: Self)
        ensures
            store@ == StoreView::empty(),
            store@.well_formed(),
    {
        let store = RecordStore {
            projects: HashMap::new(),
            nfts: HashMap::new(),
            next_project_id: 1,
            next_nft_id: 1,
        };
        assert(store@.projects =~= Map::empty());
        assert(store@.nfts =~= Map::empty());
        store
    }

    /// Creates a project without contributors or tracks and returns its
    /// identifier, the next of the project identifiers.
    pub fn create_project(&mut self, title: String, description: String, owner: String) -> (id: u64)
        requires
            old(self)@.next_project_id < u64::MAX,
        ensures
            id == old(self)@.next_project_id,
            final(self)@ == old(self)@.create_project(title@, description@, owner@),
            old(self)@.well_formed() ==> final(self)@.well_formed(),
    {
        let id = self.next_project_id;
        self.next_project_id = id + 1;
        let project = MusicProject {
            id,
            title,
            description,
            owner,
            contributors: Vec::new(),
            tracks: Vec::new(),
        };
        proof {
            assert(string_views(project.contributors@) =~= Seq::empty());
            assert(track_views(project.tracks@) =~= Seq::empty());
        }
        self.projects.insert(id, project);
        proof {
            assert(self@.projects =~= old(self)@.create_project(
                title@,
                description@,
                owner@,
            ).projects);
        }
        id
    }

    /// Mints a collectible and returns its identifier, the next of the
    /// collectible identifiers. Nothing checks that `project_id` names a
    /// project, nor what `price` is counted in.
    pub fn mint_nft(
        &mut self,
        name: String,
        description: String,
        image_url: String,
        creator: String,
        project_id: u64,
        price: u64,
    ) -> (id: u64)
        requires
            old(self)@.next_nft_id < u64::MAX,
        ensures
            id == old(self)@.next_nft_id,
            final(self)@ == old(self)@.mint_nft(
                name@,
                description@,
                image_url@,
                creator@,
                project_id,
                price,
            ),
            old(self)@.well_formed() ==> final(self)@.well_formed(),
    {
        let id = self.next_nft_id;
        self.next_nft_id = id + 1;
        let nft = NFTMetadata { id, name, description, image_url, creator, project_id, price };
        self.nfts.insert(id, nft);
        proof {
            assert(self@.nfts =~= old(self)@.mint_nft(
                name@,
                description@,
                image_url@,
                creator@,
                project_id,
                price,
            ).nfts);
        }
        id
    }

    /// The project under `project_id`, if there is one.
    pub fn get_project(&self, project_id: u64) -> (found: Option<MusicProject>)
        ensures
            match found {
                Some(project) => self@.projects.contains_key(project_id) && project@
                    == self@.projects[project_id],
                None => !self@.projects.contains_key(project_id),
            },
    {
        match self.projects.get(&project_id) {
            Some(project) => Some(project.clone()),
            None => None,
        }
    }

    /// The collectible under `nft_id`, if there is one.
    pub fn get_nft(&self, nft_id: u64) -> (found: Option<NFTMetadata>)
        ensures
            match found {
                Some(nft) => self@.nfts.contains_key(nft_id) && nft@ == self@.nfts[nft_id],
                None => !self@.nfts.contains_key(nft_id),
            },
    {
        match self.nfts.get(&nft_id) {
            Some(nft) => Some(nft.clone()),
            None => None,
        }
    }

    /// The tracks of the project under `project_id` in upload order; none if
    /// there is no such project.
    pub fn get_project_tracks(&self, project_id: u64) -> (tracks: Vec<Track>)
        ensures
            track_views(tracks@) == if self@.projects.contains_key(project_id) {
                self@.projects[project_id].tracks
            } else {
                Seq::<TrackView>::empty()
            },
    {
        match self.projects.get(&project_id) {
            Some(project) => clone_tracks(&project.tracks),
            None => {
                let tracks: Vec<Track> = Vec::new();
                tracks
            },
        }
    }

    /// Adds a track to the project under `project_id`, behind the tracks it
    /// has, and numbers it by their count plus one. Returns whether there is
    /// such a project.
    pub fn add_track(
        &mut self,
        project_id: u64,
        name: String,
        ipfs_hash: String,
        uploaded_by: String,
        timestamp: u64,
    ) -> (added: bool)
        requires
            old(self)@.projects.contains_key(project_id) ==> old(
                self,
            )@.projects[project_id].tracks.len() < u64::MAX,
        ensures
            added == old(self)@.projects.contains_key(project_id),
            final(self)@ == old(self)@.add_track(
                project_id,
                name@,
                ipfs_hash@,
                uploaded_by@,
                timestamp,
            ),
            old(self)@.well_formed() ==> final(self)@.well_formed(),
    {
        match self.projects.remove(&project_id) {
            None => {
                assert(self.projects@ =~= old(self).projects@);
                false
            },
            Some(mut project) => {
                let ghost before = project;
                let id = project.tracks.len() as u64 + 1;
                project.tracks.push(Track { id, name, ipfs_hash, uploaded_by, timestamp });
                proof {
                    assert(track_views(project.tracks@) =~= track_views(before.tracks@).push(
                        project.tracks@.last()@,
                    ));
                }
                self.projects.insert(project_id, project);
                proof {
                    assert(self@.projects =~= old(self)@.add_track(
                        project_id,
                        name@,
                        ipfs_hash@,
                        uploaded_by@,
                        timestamp,
                    ).projects);
                }
                true
            },
        }
    }

    /// Lists `contributor` with the project under `project_id`, unless the
    /// project lists that name already. Returns whether there is such a
    /// project.
    pub fn add_contributor(&mut self, project_id: u64, contributor: String) -> (known: bool)
        ensures
            known == old(self)@.projects.contains_key(project_id),
            final(self)@ == old(self)@.add_contributor(project_id, contributor@),
            old(self)@.well_formed() ==> final(self)@.well_formed(),
    {
        match self.projects.remove(&project_id) {
            None => {
                assert(self.projects@ =~= old(self).projects@);
                false
            },
            Some(mut project) => {
                let ghost before = project;
                let listed = holds_string(&project.contributors, &contributor);
                if !listed {
                    project.contributors.push(contributor);
                    proof {
                        assert(string_views(project.contributors@) =~= string_views(
                            before.contributors@,
                        ).push(contributor@));
                    }
                }
                self.projects.insert(project_id, project);
                proof {
                    assert(self@.projects =~= old(self)@.add_contributor(
                        project_id,
                        contributor@,
                    ).projects);
                }
                true
            },
        }
    }

    /// Takes every track numbered `track_id` out of the project under
    /// `project_id`. Returns whether there is such a project, also where it
    /// had no such track.
    pub fn remove_track(&mut self, project_id: u64, track_id: u64) -> (known: bool)
        ensures
            known == old(self)@.projects.contains_key(project_id),
            final(self)@ == old(self)@.remove_track(project_id, track_id),
            old(self)@.well_formed() ==> final(self)@.well_formed(),
    {
        match self.projects.remove(&project_id) {
            None => {
                assert(self.projects@ =~= old(self).projects@);
                false
            },
            Some(project) => {
                let MusicProject { id, title, description, owner, contributors, tracks } = project;
                let kept = tracks_without(tracks, track_id);
                self.projects.insert(
                    project_id,
                    MusicProject { id, title, description, owner, contributors, tracks: kept },
                );
                proof {
                    assert(self@.projects =~= old(self)@.remove_track(
                        project_id,
                        track_id,
                    ).projects);
                }
                true
            },
        }
    }

    /// The identifier that the next project will get.
    pub fn next_project_id(&self) -> (id: u64)
        ensures
            id == self@.next_project_id,
    {
        self.next_project_id
    }

    /// The identifier that the next collectible will get.
    pub fn next_nft_id(&self) -> (id: u64)
        ensures
            id == self@.next_nft_id,
    {
        self.next_nft_id
    }

    /// How many tracks the project under `project_id` has, if there is such a
    /// project.
    pub fn track_count(&self, project_id: u64) -> (count: Option<usize>)
        ensures
            match count {
                Some(n) => self@.projects.contains_key(project_id)
                    && self@.projects[project_id].tracks.len() == n,
                None => !self@.projects.contains_key(project_id),
            },
    {
        match self.projects.get(&project_id) {
            Some(project) => Some(project.tracks.len()),
            None => None,
        }
    }

    /// Every project of the store, once each, in no particular order.
    pub fn list_projects(&self) -> (listed: Vec<MusicProject>)
        ensures
            listed@.len() == self@.projects.dom().len(),
            project_views(listed@).to_set() == self@.projects.values(),
    {
        let mut listed: Vec<MusicProject> = Vec::new();
        for project in it: self.projects.values()
            invariant
                it.seq() == spec_values_iter(&self.projects).remaining(),
                listed@.len() == it.index(),
                forall|j: int| 0 <= j < it.index() ==> listed@[j]@ == (*it.seq()[j])@,
        {
            listed.push(project.clone());
        }
        proof {
            axiom_spec_values_iter(&self.projects);
            assert(self@.projects.dom() =~= self.projects@.dom());
            lemma_views_of_walk(
                self.projects@,
                spec_values_iter(&self.projects).remaining().unref(),
                self@.projects,
                project_views(listed@),
                |r: MusicProject| r@,
            );
        }
        listed
    }

    /// Every collectible of the store, once each, in no particular order.
    pub fn list_nfts(&self) -> (listed: Vec<NFTMetadata>)
        ensures
            listed@.len() == self@.nfts.dom().len(),
            nft_views(listed@).to_set() == self@.nfts.values(),
    {
        let mut listed: Vec<NFTMetadata> = Vec::new();
        for nft in it: self.nfts.values()
            invariant
                it.seq() == spec_values_iter(&self.nfts).remaining(),
                listed@.len() == it.index(),
                forall|j: int| 0 <= j < it.index() ==> listed@[j]@ == (*it.seq()[j])@,
        {
            listed.push(nft.clone());
        }
        proof {
            axiom_spec_values_iter(&self.nfts);
            assert(self@.nfts.dom() =~= self.nfts@.dom());
            lemma_views_of_walk(
                self.nfts@,
                spec_values_iter(&self.nfts).remaining().unref(),
                self@.nfts,
                nft_views(listed@),
                |r: NFTMetadata| r@,
            );
        }
        listed
    }
}

/// Where a walk passes the values of a map, the views of what it passed are
/// the values of the map of views.
proof fn lemma_views_of_walk<V, W>(
    stored: Map<u64, V>,
    walked: Seq<V>,
    viewed: Map<u64, W>,
    listed: Seq<W>,
    view_of: spec_fn(V) -> W,
)
    requires
        walked.to_set() == stored.values(),
        viewed.dom() == stored.dom(),
        forall|k: u64| stored.contains_key(k) ==> #[trigger] viewed[k] == view_of(stored[k]),
        listed.len() == walked.len(),
        forall|j: int| 0 <= j < walked.len() ==> #[trigger] listed[j] == view_of(walked[j]),
    ensures
        listed.to_set() == viewed.values(),
{
    assert forall|v: W| listed.to_set().contains(v) implies viewed.values().contains(v) by {
        let j = choose|j: int| 0 <= j < listed.len() && listed[j] == v;
        assert(walked.to_set().contains(walked[j]));
        let k = choose|k: u64| stored.contains_key(k) && stored[k] == walked[j];
    }
    assert forall|v: W| viewed.values().contains(v) implies listed.to_set().contains(v) by {
        let k = choose|k: u64| viewed.contains_key(k) && viewed[k] == v;
        assert(stored.values().contains(stored[k]));
        let j = choose|j: int| 0 <= j < walked.len() && walked[j] == stored[k];
        assert(listed[j] == v);
    }
}

/// Whether `strings` holds a string that reads as `wanted` does.
pub fn holds_string(strings: &Vec<String>, wanted: &String) -> (held: bool)
    ensures
        held == string_views(strings@).contains(wanted@),
{
    let mut i: usize = 0;
    while i < strings.len()
        invariant
            i <= strings.len(),
            forall|j: int| 0 <= j < i ==> string_views(strings@)[j] != wanted@,
        decreases strings.len() - i,
    {
        if strings[i] == *wanted {
            assert(string_views(strings@)[i as int] == wanted@);
            return true;
        }
        i += 1;
    }
    false
}

/// The tracks of `tracks` that are not numbered `track_id`, in their order.
pub fn tracks_without(tracks: Vec<Track>, track_id: u64) -> (kept: Vec<Track>)
    ensures
        track_views(kept@) == track_views(tracks@).filter(numbered_otherwise(track_id)),
{
    let ghost wanted = numbered_otherwise(track_id);
    let ghost all = tracks@;
    let mut rest = tracks;
    let mut kept_reversed: Vec<Track> = Vec::new();
    // Walks from the last track to the first and back, so that no track is
    // copied.
    while rest.len() > 0
        invariant
            wanted == numbered_otherwise(track_id),
            track_views(all).filter(wanted) == track_views(rest@).filter(wanted) + track_views(
                kept_reversed@,
            ).reverse(),
        decreases rest.len(),
    {
        let ghost before = rest@;
        let track = rest.pop().unwrap();
        proof {
            reveal(Seq::filter);
            assert(track_views(before).drop_last() =~= track_views(rest@));
        }
        if track.id != track_id {
            kept_reversed.push(track);
        }
    }
    let mut kept: Vec<Track> = Vec::new();
    proof {
        reveal(Seq::filter);
    }
    while kept_reversed.len() > 0
        invariant
            track_views(all).filter(wanted) == track_views(kept@) + track_views(
                kept_reversed@,
            ).reverse(),
        decreases kept_reversed.len(),
    {
        let track = kept_reversed.pop().unwrap();
        kept.push(track);
    }
    kept
}

} // verus!
