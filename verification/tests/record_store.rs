use music_collab_backend::records::{MusicProject, NFTMetadata, Track};
use music_collab_backend::store::{holds_string, tracks_without, RecordStore};

fn s(text: &str) -> String {
    text.to_string()
}

fn project(store: &mut RecordStore, title: &str) -> u64 {
    store.create_project(s(title), s("about ") + title, s("owner-1"))
}

fn track(id: u64, name: &str) -> Track {
    Track { id, name: s(name), ipfs_hash: s("Qm") + name, uploaded_by: s("u"), timestamp: 9 }
}

fn ids(tracks: &[Track]) -> Vec<u64> {
    tracks.iter().map(|t| t.id).collect()
}

#[test]
fn project_ids_start_at_one_and_grow() {
    let mut store = RecordStore::new();
    let mut last = 0;
    for n in 1..=20u64 {
        let id = project(&mut store, "p");
        assert_eq!(id, n);
        assert!(id > last);
        last = id;
    }
}

#[test]
fn minting_does_not_touch_project_ids() {
    let mut store = RecordStore::new();
    assert_eq!(project(&mut store, "a"), 1);
    assert_eq!(store.mint_nft(s("n"), s("d"), s("img"), s("c"), 1, 10), 1);
    assert_eq!(store.mint_nft(s("n"), s("d"), s("img"), s("c"), 1, 10), 2);
    assert_eq!(project(&mut store, "b"), 2);
    assert_eq!(store.mint_nft(s("n"), s("d"), s("img"), s("c"), 2, 10), 3);
    assert_eq!(project(&mut store, "c"), 3);
    assert_eq!(store.list_projects().len(), 3);
    assert_eq!(store.list_nfts().len(), 3);
}

#[test]
fn created_project_is_stored_empty() {
    let mut store = RecordStore::new();
    let id = store.create_project(s("Song"), s("A song"), s("alice"));
    let found: MusicProject = store.get_project(id).unwrap();
    assert_eq!(found.id, id);
    assert_eq!(found.title, "Song");
    assert_eq!(found.description, "A song");
    assert_eq!(found.owner, "alice");
    assert!(found.contributors.is_empty());
    assert!(found.tracks.is_empty());
}

#[test]
fn unknown_ids_are_answered_with_absence() {
    let mut store = RecordStore::new();
    assert!(store.get_project(1).is_none());
    assert!(store.get_nft(1).is_none());
    assert!(store.get_project_tracks(1).is_empty());
    assert!(store.list_projects().is_empty());
    assert!(store.list_nfts().is_empty());
    project(&mut store, "a");
    assert!(store.get_project(0).is_none());
    assert!(store.get_project(2).is_none());
    assert!(store.get_project(u64::MAX).is_none());
    assert!(store.get_project_tracks(2).is_empty());
}

#[test]
fn add_contributor_is_idempotent() {
    let mut store = RecordStore::new();
    let id = project(&mut store, "a");
    assert!(store.add_contributor(id, s("bob")));
    assert!(store.add_contributor(id, s("bob")));
    assert_eq!(store.get_project(id).unwrap().contributors, vec![s("bob")]);
    assert!(store.add_contributor(id, s("carol")));
    assert!(store.add_contributor(id, s("bob")));
    assert!(store.add_contributor(id, s("Bob")));
    assert_eq!(store.get_project(id).unwrap().contributors, vec![s("bob"), s("carol"), s("Bob")]);
}

#[test]
fn add_contributor_to_unknown_project_is_refused() {
    let mut store = RecordStore::new();
    let id = project(&mut store, "a");
    assert!(!store.add_contributor(id + 1, s("bob")));
    assert!(store.get_project(id).unwrap().contributors.is_empty());
    assert_eq!(store.list_projects().len(), 1);
}

#[test]
fn tracks_are_numbered_by_count_plus_one() {
    let mut store = RecordStore::new();
    let first = project(&mut store, "a");
    let second = project(&mut store, "b");
    assert!(store.add_track(first, s("intro"), s("Qm1"), s("alice"), 1000));
    assert!(store.add_track(first, s("verse"), s("Qm2"), s("bob"), 500));
    assert!(store.add_track(second, s("other"), s("Qm3"), s("bob"), 7));
    let tracks = store.get_project_tracks(first);
    assert_eq!(ids(&tracks), vec![1, 2]);
    assert_eq!(tracks[0].name, "intro");
    assert_eq!(tracks[0].ipfs_hash, "Qm1");
    assert_eq!(tracks[0].uploaded_by, "alice");
    assert_eq!(tracks[0].timestamp, 1000);
    assert_eq!(tracks[1].name, "verse");
    assert_eq!(tracks[1].timestamp, 500);
    // numbers are per project
    assert_eq!(ids(&store.get_project_tracks(second)), vec![1]);
    assert_eq!(ids(&store.get_project(first).unwrap().tracks), vec![1, 2]);
}

#[test]
fn track_number_can_come_again_after_a_removal() {
    let mut store = RecordStore::new();
    let id = project(&mut store, "a");
    assert!(store.add_track(id, s("one"), s("Qm1"), s("u"), 1));
    assert!(store.add_track(id, s("two"), s("Qm2"), s("u"), 2));
    assert!(store.add_track(id, s("three"), s("Qm3"), s("u"), 3));
    assert!(store.remove_track(id, 1));
    assert_eq!(ids(&store.get_project_tracks(id)), vec![2, 3]);
    assert!(store.add_track(id, s("four"), s("Qm4"), s("u"), 4));
    let tracks = store.get_project_tracks(id);
    assert_eq!(ids(&tracks), vec![2, 3, 3]);
    assert_eq!(tracks[1].name, "three");
    assert_eq!(tracks[2].name, "four");
    // removing the number takes both
    assert!(store.remove_track(id, 3));
    assert_eq!(ids(&store.get_project_tracks(id)), vec![2]);
}

#[test]
fn removing_an_absent_track_changes_nothing() {
    let mut store = RecordStore::new();
    let id = project(&mut store, "a");
    assert!(store.add_track(id, s("one"), s("Qm1"), s("u"), 11));
    assert!(store.add_track(id, s("two"), s("Qm2"), s("v"), 22));
    let before = store.get_project_tracks(id);
    assert!(store.remove_track(id, 99));
    assert!(store.remove_track(id, 0));
    let after = store.get_project_tracks(id);
    assert_eq!(after.len(), before.len());
    for (a, b) in after.iter().zip(before.iter()) {
        assert_eq!(a.id, b.id);
        assert_eq!(a.name, b.name);
        assert_eq!(a.ipfs_hash, b.ipfs_hash);
        assert_eq!(a.uploaded_by, b.uploaded_by);
        assert_eq!(a.timestamp, b.timestamp);
    }
    // also on a project without tracks
    let empty = project(&mut store, "b");
    assert!(store.remove_track(empty, 1));
    assert!(store.get_project_tracks(empty).is_empty());
}

#[test]
fn unknown_project_refuses_tracks_and_keeps_the_state() {
    let mut store = RecordStore::new();
    let id = project(&mut store, "a");
    assert!(store.add_track(id, s("one"), s("Qm1"), s("u"), 11));
    assert!(!store.add_track(id + 1, s("x"), s("Qm"), s("u"), 1));
    assert!(!store.remove_track(id + 1, 1));
    assert!(!store.add_track(0, s("x"), s("Qm"), s("u"), 1));
    assert!(!store.remove_track(0, 1));
    assert_eq!(store.list_projects().len(), 1);
    assert!(store.get_project(id + 1).is_none());
    assert_eq!(ids(&store.get_project_tracks(id)), vec![1]);
    // the counter did not move either
    assert_eq!(project(&mut store, "b"), id + 1);
}

#[test]
fn removal_keeps_the_order_of_the_rest() {
    let mut store = RecordStore::new();
    let id = project(&mut store, "a");
    for n in 0..5u64 {
        assert!(store.add_track(id, format!("t{}", n), s("Qm"), s("u"), n));
    }
    assert!(store.remove_track(id, 3));
    let tracks = store.get_project_tracks(id);
    assert_eq!(ids(&tracks), vec![1, 2, 4, 5]);
    assert_eq!(
        tracks.iter().map(|t| t.name.clone()).collect::<Vec<_>>(),
        vec![s("t0"), s("t1"), s("t3"), s("t4")]
    );
}

#[test]
fn tracks_without_filters_by_number() {
    let tracks = vec![track(1, "a"), track(2, "b"), track(1, "c"), track(3, "d")];
    let kept = tracks_without(tracks, 1);
    assert_eq!(ids(&kept), vec![2, 3]);
    assert_eq!(kept[0].name, "b");
    assert_eq!(kept[1].name, "d");
    assert!(tracks_without(Vec::new(), 1).is_empty());
    let all = tracks_without(vec![track(5, "x"), track(6, "y")], 7);
    assert_eq!(ids(&all), vec![5, 6]);
    assert!(tracks_without(vec![track(5, "x"), track(5, "y")], 5).is_empty());
}

#[test]
fn holds_string_compares_text() {
    let names = vec![s("bob"), s("carol")];
    assert!(holds_string(&names, &s("bob")));
    assert!(holds_string(&names, &s("carol")));
    assert!(!holds_string(&names, &s("Carol")));
    assert!(!holds_string(&names, &s("")));
    assert!(!holds_string(&Vec::new(), &s("bob")));
}

#[test]
fn minted_token_is_stored_as_given() {
    let mut store = RecordStore::new();
    // the project need not exist
    let id = store.mint_nft(s("Cover"), s("Cover art"), s("ipfs://img"), s("dave"), 404, 2500);
    assert_eq!(id, 1);
    let nft: NFTMetadata = store.get_nft(id).unwrap();
    assert_eq!(nft.id, 1);
    assert_eq!(nft.name, "Cover");
    assert_eq!(nft.description, "Cover art");
    assert_eq!(nft.image_url, "ipfs://img");
    assert_eq!(nft.creator, "dave");
    assert_eq!(nft.project_id, 404);
    assert_eq!(nft.price, 2500);
    assert!(store.get_project(404).is_none());
    assert!(store.get_nft(2).is_none());
    let second = store.mint_nft(s("B"), s(""), s(""), s(""), 0, 0);
    assert_eq!(second, 2);
    assert_eq!(store.get_nft(2).unwrap().price, 0);
}

#[test]
fn listings_hold_every_record_once() {
    let mut store = RecordStore::new();
    for n in 0..7u64 {
        project(&mut store, &format!("p{}", n));
        store.mint_nft(format!("n{}", n), s("d"), s("i"), s("c"), n, n * 10);
    }
    let mut project_ids: Vec<u64> = store.list_projects().iter().map(|p| p.id).collect();
    project_ids.sort();
    assert_eq!(project_ids, vec![1, 2, 3, 4, 5, 6, 7]);
    let mut listed = store.list_nfts();
    listed.sort_by_key(|n| n.id);
    assert_eq!(listed.len(), 7);
    for (i, nft) in listed.iter().enumerate() {
        assert_eq!(nft.id, i as u64 + 1);
        assert_eq!(nft.name, format!("n{}", i));
        assert_eq!(nft.price, i as u64 * 10);
    }
}

#[test]
fn listing_shows_the_current_state_of_each_project() {
    let mut store = RecordStore::new();
    let a = project(&mut store, "a");
    let b = project(&mut store, "b");
    store.add_contributor(a, s("bob"));
    store.add_track(b, s("t"), s("Qm"), s("u"), 1);
    for p in store.list_projects() {
        if p.id == a {
            assert_eq!(p.contributors, vec![s("bob")]);
            assert!(p.tracks.is_empty());
        } else {
            assert_eq!(p.id, b);
            assert!(p.contributors.is_empty());
            assert_eq!(ids(&p.tracks), vec![1]);
        }
    }
}

#[test]
fn returned_records_are_copies() {
    let mut store = RecordStore::new();
    let id = project(&mut store, "a");
    let mut copy = store.get_project(id).unwrap();
    copy.title = s("changed");
    copy.contributors.push(s("mallory"));
    let mut tracks = store.get_project_tracks(id);
    tracks.push(track(1, "x"));
    assert_eq!(store.get_project(id).unwrap().title, "a");
    assert!(store.get_project(id).unwrap().contributors.is_empty());
    assert!(store.get_project_tracks(id).is_empty());
}
