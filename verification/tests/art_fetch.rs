use winrmpc::model::{art_key_for, RecentAlbum};
use winrmpc::ui::app::art::ArtQueue;
use winrmpc::keyset::KeySet;
use winrmpc::ui::app::art_fetch::{
    album_local_outcome, album_local_plan, album_remote_outcome, art_list_for, art_plan, artist_art_key,
    recent_art_to_fetch, split_art_key, ArtList, ArtSource, CacheWrite,
};
use winrmpc::ui::app::lyrics::{artist_bio_store_key, bio_step, LookupStep};
use winrmpc::ui::message::ArtOutcome;
use winrmpc::ui::message::View;

#[test]
fn cd_tracks_never_ask_for_art() {
    assert_eq!(art_plan("cdda:///3"), None);
}

#[test]
fn a_song_tries_local_sources_before_musicbrainz() {
    let p = art_plan("music/a.flac").unwrap();
    assert_eq!(
        p.sources,
        vec![ArtSource::Cache, ArtSource::MpdTag, ArtSource::CoverFile, ArtSource::KnownMissing, ArtSource::MusicBrainz]
    );
    assert!(p.remember_miss);
}

#[test]
fn an_album_only_lookup_does_not_remember_a_miss() {
    let p = art_plan("").unwrap();
    assert_eq!(p.sources, vec![ArtSource::Cache, ArtSource::KnownMissing, ArtSource::MusicBrainz]);
    assert!(!p.remember_miss);
}

#[test]
fn art_keys_split_back_into_artist_and_album() {
    let key = art_key_for("Tiamat", "Wildhoney");
    assert_eq!(split_art_key(&key), Some(("Tiamat".to_string(), "Wildhoney".to_string())));
    assert_eq!(split_art_key("no separator"), None);
    assert_eq!(split_art_key("a\u{1f}b\u{1f}c"), Some(("a".to_string(), "b\u{1f}c".to_string())));
    assert_eq!(artist_art_key("Tiamat"), "artist:Tiamat");
}

#[test]
fn only_missing_recent_covers_are_fetched() {
    let mut q = ArtQueue::new();
    q.mark_loaded(art_key_for("A", "x"));
    let recents = vec![
        RecentAlbum { artist: "A".to_string(), album: "x".to_string() },
        RecentAlbum { artist: "A".to_string(), album: "y".to_string() },
    ];
    assert_eq!(recent_art_to_fetch(&recents, &q), vec![art_key_for("A", "y")]);
}

#[test]
fn only_album_lists_queue_covers() {
    assert_eq!(art_list_for(&View::Albums), Some(ArtList::Albums));
    assert_eq!(art_list_for(&View::RecentlyPlayed), Some(ArtList::RecentlyPlayed));
    assert_eq!(art_list_for(&View::Queue), None);
}

#[test]
fn the_local_stage_tries_cache_tag_cover_then_the_remembered_miss() {
    let plan = album_local_plan();
    assert_eq!(plan.sources, vec![ArtSource::Cache, ArtSource::MpdTag, ArtSource::CoverFile, ArtSource::KnownMissing]);
    assert!(!plan.remember_miss);
    let b = |x: u8| Some(vec![x]);
    assert!(matches!(album_local_outcome(b(1), false, false, None, None, true), (ArtOutcome::Loaded(d), false) if d == vec![1]));
    assert!(matches!(album_local_outcome(None, false, true, b(2), None, true), (ArtOutcome::MpdMiss, false)));
    assert!(matches!(album_local_outcome(None, true, true, b(2), b(3), false), (ArtOutcome::Loaded(d), true) if d == vec![2]));
    assert!(matches!(album_local_outcome(None, true, true, None, b(3), false), (ArtOutcome::Loaded(d), true) if d == vec![3]));
    assert!(matches!(album_local_outcome(None, true, false, b(2), b(3), true), (ArtOutcome::Missing, false)));
    assert!(matches!(album_local_outcome(None, true, true, None, None, false), (ArtOutcome::MpdMiss, false)));
}

#[test]
fn the_musicbrainz_stage_stores_what_it_finds_and_remembers_a_miss() {
    assert!(matches!(album_remote_outcome(Some(vec![1]), Some(vec![2])), (ArtOutcome::Loaded(d), CacheWrite::Nothing) if d == vec![1]));
    assert!(matches!(album_remote_outcome(None, Some(vec![2])), (ArtOutcome::Loaded(d), CacheWrite::Bytes) if d == vec![2]));
    assert!(matches!(album_remote_outcome(None, None), (ArtOutcome::Missing, CacheWrite::Miss)));
}

#[test]
fn biographies_are_looked_up_once_store_first() {
    let mut known = KeySet::new();
    assert_eq!(bio_step(&known, "Bach"), LookupStep::ReadStore);
    known.insert("Bach".to_string());
    assert_eq!(bio_step(&known, "Bach"), LookupStep::Nothing);
    assert_eq!(artist_bio_store_key("Bach"), "artist:Bach");
}
