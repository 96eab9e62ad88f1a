//! The records the service keeps and exchanges, each with its mathematical view.

use vstd::prelude::*;

verus! {

/// One uploaded audio track of a project.
pub struct Track {
    pub id: u64,
    pub name: String,
    pub ipfs_hash: String,
    pub uploaded_by: String,
    pub timestamp: u64,
}

/// What a [`Track`] holds, as plain values.
pub struct TrackView {
    pub id: u64,
    pub name: Seq<char>,
    pub ipfs_hash: Seq<char>,
    pub uploaded_by: Seq<char>,
    pub timestamp: u64,
}

impl View for Track {
    type V = TrackView;

    open spec fn view(&self) -> TrackView {
        TrackView {
            id: self.id,
            name: self.name@,
            ipfs_hash: self.ipfs_hash@,
            uploaded_by: self.uploaded_by@,
            timestamp: self.timestamp,
        }
    }
}

impl Clone for Track {
    fn clone(&self) -> (copy: Self)
        ensures
            copy == *self,
    {
        Track {
            id: self.id,
            name: self.name.clone(),
            ipfs_hash: self.ipfs_hash.clone(),
            uploaded_by: self.uploaded_by.clone(),
            timestamp: self.timestamp,
        }
    }
}

/// The views of a sequence of tracks, in order.
pub open spec fn track_views(tracks: Seq<Track>) -> Seq<TrackView> {
    tracks.map_values(|t: Track| t@)
}

/// Copies a list of tracks, element by element.
pub fn clone_tracks(tracks: &Vec<Track>) -> (copy: Vec<Track>)
    ensures
        copy@ == tracks@,
{
    let mut copy: Vec<Track> = Vec::new();
    let mut i: usize = 0;
    while i < tracks.len()
        invariant
            i <= tracks.len(),
            copy@ == tracks@.subrange(0, i as int),
        decreases tracks.len() - i,
    {
        copy.push(tracks[i].clone());
        i += 1;
    }
    copy
}

/// The views of a sequence of strings, in order.
pub open spec fn string_views(strings: Seq<String>) -> Seq<Seq<char>> {
    strings.map_values(|s: String| s@)
}

/// Copies a list of strings, element by element.
pub fn clone_strings(strings: &Vec<String>) -> (copy: Vec<String>)
    ensures
        copy@ == strings@,
{
    let mut copy: Vec<String> = Vec::new();
    let mut i: usize = 0;
    while i < strings.len()
        invariant
            i <= strings.len(),
            copy@ == strings@.subrange(0, i as int),
        decreases strings.len() - i,
    {
        copy.push(strings[i].clone());
        i += 1;
    }
    copy
}

/// A collaborative project: its description, who works on it, and its tracks
/// in upload order.
pub struct MusicProject {
    pub id: u64,
    pub title: String,
    pub description: String,
    pub owner: String,
    pub contributors: Vec<String>,
    pub tracks: Vec<Track>,
}

/// What a [`MusicProject`] holds, as plain values.
pub struct ProjectView {
    pub id: u64,
    pub title: Seq<char>,
    pub description: Seq<char>,
    pub owner: Seq<char>,
    pub contributors: Seq<Seq<char>>,
    pub tracks: Seq<TrackView>,
}

impl View for MusicProject {
    type V = ProjectView;

    open spec fn view(&self) -> ProjectView {
        ProjectView {
            id: self.id,
            title: self.title@,
            description: self.description@,
            owner: self.owner@,
            contributors: string_views(self.contributors@),
            tracks: track_views(self.tracks@),
        }
    }
}

impl Clone for MusicProject {
    fn clone(&self) -> (copy: Self)
        ensures
            copy@ == self@,
    {
        MusicProject {
            id: self.id,
            title: self.title.clone(),
            description: self.description.clone(),
            owner: self.owner.clone(),
            contributors: clone_strings(&self.contributors),
            tracks: clone_tracks(&self.tracks),
        }
    }
}

/// The views of a sequence of projects, in order.
pub open spec fn project_views(projects: Seq<MusicProject>) -> Seq<ProjectView> {
    projects.map_values(|p: MusicProject| p@)
}

/// The description of a minted collectible. `project_id` names the project it
/// came from; nothing checks that such a project exists.
pub struct NFTMetadata {
    pub id: u64,
    pub name: String,
    pub description: String,
    pub image_url: String,
    pub creator: String,
    pub project_id: u64,
    pub price: u64,
}

/// What an [`NFTMetadata`] holds, as plain values.
pub struct NftView {
    pub id: u64,
    pub name: Seq<char>,
    pub description: Seq<char>,
    pub image_url: Seq<char>,
    pub creator: Seq<char>,
    pub project_id: u64,
    pub price: u64,
}

impl View for NFTMetadata {
    type V = NftView;

    open spec fn view(&self) -> NftView {
        NftView {
            id: self.id,
            name: self.name@,
            description: self.description@,
            image_url: self.image_url@,
            creator: self.creator@,
            project_id: self.project_id,
            price: self.price,
        }
    }
}

impl Clone for NFTMetadata {
    fn clone(&self) -> (copy: Self)
        ensures
            copy == *self,
    {
        NFTMetadata {
            id: self.id,
            name: self.name.clone(),
            description: self.description.clone(),
            image_url: self.image_url.clone(),
            creator: self.creator.clone(),
            project_id: self.project_id,
            price: self.price,
        }
    }
}

/// The views of a sequence of collectibles, in order.
pub open spec fn nft_views(nfts: Seq<NFTMetadata>) -> Seq<NftView> {
    nfts.map_values(|n: NFTMetadata| n@)
}

/// One file to pin: its bytes, how to name and type it, and the credentials of
/// the pinning service for this one call.
pub struct PinataUploadRequest {
    pub file_data: Vec<u8>,
    pub file_name: String,
    pub content_type: String,
    pub api_key: String,
    pub secret_key: String,
}

impl Clone for PinataUploadRequest {
    fn clone(&self) -> (copy: Self)
        ensures
            copy.file_data@ == self.file_data@,
            copy.file_name == self.file_name,
            copy.content_type == self.content_type,
            copy.api_key == self.api_key,
            copy.secret_key == self.secret_key,
    {
        PinataUploadRequest {
            file_data: self.file_data.clone(),
            file_name: self.file_name.clone(),
            content_type: self.content_type.clone(),
            api_key: self.api_key.clone(),
            secret_key: self.secret_key.clone(),
        }
    }
}

/// How one pinning attempt ended: the content identifier and its size, or the
/// reason for the failure, never both.
pub struct PinataUploadResponse {
    pub success: bool,
    pub ipfs_hash: String,
    pub pin_size: u64,
    pub error: Option<String>,
}

/// What a [`PinataUploadResponse`] holds, as plain values.
pub struct UploadOutcome {
    pub success: bool,
    pub ipfs_hash: Seq<char>,
    pub pin_size: u64,
    pub error: Option<Seq<char>>,
}

impl View for PinataUploadResponse {
    type V = UploadOutcome;

    open spec fn view(&self) -> UploadOutcome {
        UploadOutcome {
            success: self.success,
            ipfs_hash: self.ipfs_hash@,
            pin_size: self.pin_size,
            error: match self.error {
                Some(reason) => Some(reason@),
                None => None,
            },
        }
    }
}

impl Clone for PinataUploadResponse {
    fn clone(&self) -> (copy: Self)
        ensures
            copy == *self,
    {
        PinataUploadResponse {
            success: self.success,
            ipfs_hash: self.ipfs_hash.clone(),
            pin_size: self.pin_size,
            error: match &self.error {
                Some(reason) => Some(reason.clone()),
                None => None,
            },
        }
    }
}

impl UploadOutcome {
    /// The outcome of a pin that succeeded.
    pub open spec fn pinned(ipfs_hash: Seq<char>, pin_size: u64) -> UploadOutcome {
        UploadOutcome { success: true, ipfs_hash, pin_size, error: None }
    }

    /// The outcome of a pin that failed for `reason`.
    pub open spec fn failed(reason: Seq<char>) -> UploadOutcome {
        UploadOutcome { success: false, ipfs_hash: Seq::empty(), pin_size: 0, error: Some(reason) }
    }

    /// Success carries no error; failure carries an error and nothing else.
    pub open spec fn well_formed(self) -> bool {
        if self.success {
            self.error is None
        } else {
            self.error is Some && self.ipfs_hash.len() == 0 && self.pin_size == 0
        }
    }
}

impl PinataUploadResponse {
    /// The response for a file that was pinned under `ipfs_hash`.
    pub fn pinned(ipfs_hash: String, pin_size: u64) -> (response: Self)
        ensures
            response@ == UploadOutcome::pinned(ipfs_hash@, pin_size),
            response@.well_formed(),
    {
        PinataUploadResponse { success: true, ipfs_hash, pin_size, error: None }
    }

    /// The response for an attempt that failed for `reason`.
    pub fn failed(reason: String) -> (response: Self)
        ensures
            response@ == UploadOutcome::failed(reason@),
            response@.well_formed(),
    {
        PinataUploadResponse {
            success: false,
            ipfs_hash: String::new(),
            pin_size: 0,
            error: Some(reason),
        }
    }
}

} // verus!
