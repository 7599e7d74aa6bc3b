use jukebox::{is_track_name, music_directory, Pool, PoolError};

fn names(list: &[&str]) -> Vec<String> {
    list.iter().map(|s| s.to_string()).collect()
}

#[test]
fn pool_keeps_only_mp3_files() {
    let pool = Pool::from_names(&names(&["a.mp3", "b.mp3", "c.txt"])).unwrap();
    assert_eq!(pool.len(), 2);
    assert_eq!(pool.track(0), "a.mp3");
    assert_eq!(pool.track(1), "b.mp3");
    for _ in 0..200 {
        let t = pool.pick_track();
        assert!(t == "a.mp3" || t == "b.mp3");
    }
}

#[test]
fn pool_without_tracks_is_refused() {
    assert_eq!(Pool::from_names(&names(&[])).err(), Some(PoolError::NoTracks));
    assert_eq!(
        Pool::from_names(&names(&["c.txt", "notes", ".mp3", "song.MP3"])).err(),
        Some(PoolError::NoTracks)
    );
}

#[test]
fn random_pick_reaches_every_track() {
    let pool = Pool::from_names(&names(&["a.mp3", "b.mp3", "c.mp3"])).unwrap();
    let mut seen = [false; 3];
    for _ in 0..1000 {
        let t = pool.pick_track();
        let i = (0..3).find(|&i| pool.track(i) == t).unwrap();
        seen[i] = true;
    }
    assert_eq!(seen, [true, true, true]);
}

#[test]
fn single_track_pool_always_picks_it() {
    let pool = Pool::from_names(&names(&["x.txt", "only.mp3"])).unwrap();
    for _ in 0..20 {
        assert_eq!(pool.pick_track(), "only.mp3");
    }
}

#[test]
fn track_names_need_stem_and_exact_extension() {
    assert!(is_track_name("a.mp3"));
    assert!(is_track_name("..mp3"));
    assert!(is_track_name("song.old.mp3"));
    assert!(is_track_name("chanson é.mp3"));
    assert!(!is_track_name(".mp3"));
    assert!(!is_track_name("mp3"));
    assert!(!is_track_name("a.MP3"));
    assert!(!is_track_name("a.mp3.txt"));
    assert!(!is_track_name("a.mp4"));
    assert!(!is_track_name("amp3"));
    assert!(!is_track_name(""));
}

#[test]
fn directory_comes_from_the_single_argument() {
    assert_eq!(music_directory(&names(&["jukebox", "/music"])), "/music");
    assert_eq!(music_directory(&names(&["jukebox"])), "./");
    assert_eq!(music_directory(&names(&["jukebox", "a", "b"])), "./");
    assert_eq!(music_directory(&names(&[])), "./");
}
