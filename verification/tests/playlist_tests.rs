use mado::playlist::{is_supported_extension, is_video_extension, is_video_file, LoopMode, Playlist, PlaylistItem};

fn list(names: &[&str]) -> Playlist {
    let mut pl = Playlist::default();
    pl.append(names.iter().map(|s| s.to_string()).collect());
    pl
}

fn paths(pl: &Playlist) -> Vec<String> {
    pl.items.iter().map(|it| it.path.clone()).collect()
}

#[test]
fn loop_mode_cycles_off_one_all() {
    assert_eq!(LoopMode::Off.next(), LoopMode::One);
    assert_eq!(LoopMode::One.next(), LoopMode::All);
    assert_eq!(LoopMode::All.next(), LoopMode::Off);
    for m in [LoopMode::Off, LoopMode::One, LoopMode::All] {
        assert_eq!(m.next().next().next(), m);
    }
}

#[test]
fn loop_mode_labels_and_glyphs() {
    assert_eq!(LoopMode::Off.label(), "Loop Off");
    assert_eq!(LoopMode::One.label(), "Loop One");
    assert_eq!(LoopMode::All.label(), "Loop All");
    assert_eq!(LoopMode::Off.glyph(), "→");
    assert_eq!(LoopMode::One.glyph(), "⟳1");
    assert_eq!(LoopMode::All.glyph(), "⟳");
}

#[test]
fn new_item_is_not_flipped() {
    let it = PlaylistItem::new("/tmp/a.mp4".to_string());
    assert_eq!(it.path, "/tmp/a.mp4");
    assert!(!it.flip_h);
    assert!(!it.flip_v);
}

#[test]
fn default_playlist_is_empty() {
    let pl = Playlist::default();
    assert!(pl.is_empty());
    assert_eq!(pl.len(), 0);
    assert_eq!(pl.current, 0);
    assert_eq!(pl.loop_mode, LoopMode::Off);
    assert!(pl.current_item().is_none());
}

#[test]
fn append_accumulates_and_reports_first_fill() {
    let mut pl = Playlist::default();
    assert!(pl.append(vec!["a.mp4".to_string(), "b.mov".to_string()]));
    assert!(!pl.append(vec!["c.mkv".to_string()]));
    assert!(!pl.append(vec![]));
    assert_eq!(paths(&pl), vec!["a.mp4", "b.mov", "c.mkv"]);
    assert_eq!(pl.current, 0);
    let mut empty = Playlist::default();
    assert!(!empty.append(vec![]));
}

#[test]
fn clear_empties_and_resets_current() {
    let mut pl = list(&["a", "b", "c"]);
    pl.select(2);
    pl.clear();
    assert!(pl.is_empty());
    assert_eq!(pl.current, 0);
}

#[test]
fn remove_clamps_current() {
    let mut pl = list(&["a", "b", "c"]);
    pl.select(2);
    pl.remove(2);
    assert_eq!(paths(&pl), vec!["a", "b"]);
    assert_eq!(pl.current, 1);
    // removing an earlier clip does not shift the current index
    pl.remove(0);
    assert_eq!(paths(&pl), vec!["b"]);
    assert_eq!(pl.current, 0);
    pl.remove(5);
    assert_eq!(paths(&pl), vec!["b"]);
    pl.remove(0);
    assert!(pl.is_empty());
    assert_eq!(pl.current, 0);
}

#[test]
fn remove_before_current_keeps_index() {
    let mut pl = list(&["a", "b", "c", "d"]);
    pl.select(2);
    pl.remove(0);
    assert_eq!(pl.current, 2);
    assert_eq!(pl.current_item().unwrap().path, "d");
}

#[test]
fn move_up_and_down_follow_current() {
    let mut pl = list(&["a", "b", "c"]);
    pl.select(1);
    assert!(pl.move_up(1));
    assert_eq!(paths(&pl), vec!["b", "a", "c"]);
    assert_eq!(pl.current, 0);
    assert!(!pl.move_up(0));
    assert!(!pl.move_up(3));
    assert!(pl.move_down(0));
    assert_eq!(paths(&pl), vec!["a", "b", "c"]);
    assert_eq!(pl.current, 1);
    assert!(!pl.move_down(2));
    assert!(!pl.move_down(usize::MAX));
    // moving a neighbour of the current clip shifts the index with it
    assert!(pl.move_down(0));
    assert_eq!(paths(&pl), vec!["b", "a", "c"]);
    assert_eq!(pl.current, 0);
}

#[test]
fn select_only_inside_list() {
    let mut pl = list(&["a", "b"]);
    assert!(pl.select(1));
    assert_eq!(pl.current, 1);
    assert!(!pl.select(2));
    assert_eq!(pl.current, 1);
}

#[test]
fn advance_loop_off_stops_after_last() {
    let mut pl = list(&["a", "b", "c"]);
    assert_eq!(pl.advance(), Some(1));
    assert_eq!(pl.advance(), Some(2));
    assert_eq!(pl.advance(), None);
    assert_eq!(pl.current, 2);
}

#[test]
fn advance_loop_one_repeats() {
    let mut pl = list(&["a", "b"]);
    pl.loop_mode = LoopMode::One;
    pl.select(1);
    assert_eq!(pl.advance(), Some(1));
    assert_eq!(pl.advance(), Some(1));
}

#[test]
fn advance_loop_all_wraps() {
    let mut pl = list(&["a", "b", "c"]);
    pl.loop_mode = LoopMode::All;
    pl.select(1);
    assert_eq!(pl.advance(), Some(2));
    assert_eq!(pl.advance(), Some(0));
    assert_eq!(pl.advance(), Some(1));
}

#[test]
fn advance_empty_is_none() {
    let mut pl = Playlist::default();
    for m in [LoopMode::Off, LoopMode::One, LoopMode::All] {
        pl.loop_mode = m;
        assert_eq!(pl.advance(), None);
    }
}

#[test]
fn current_item_mut_writes_through() {
    let mut pl = list(&["a", "b"]);
    pl.select(1);
    pl.current_item_mut().unwrap().flip_h = true;
    assert!(pl.items[1].flip_h);
    assert!(!pl.items[0].flip_h);
    let mut empty = Playlist::default();
    assert!(empty.current_item_mut().is_none());
}

#[test]
fn video_extensions() {
    assert!(is_supported_extension("mp4"));
    assert!(is_supported_extension("webm"));
    assert!(is_supported_extension("3gp"));
    assert!(!is_supported_extension("MP4"));
    assert!(!is_supported_extension("txt"));
    assert!(is_video_extension("MoV"));
    assert!(is_video_extension("MPEG"));
    assert!(!is_video_extension("png"));
}

#[test]
fn video_files_by_extension() {
    assert!(is_video_file("/Users/me/Movies/clip.MP4"));
    assert!(is_video_file("clip.mkv"));
    assert!(is_video_file("a.b.avi"));
    assert!(!is_video_file("/Users/me/notes.txt"));
    assert!(!is_video_file("/Users/me/mp4"));
    assert!(!is_video_file(".mp4"));
    assert!(!is_video_file(""));
    assert!(!is_video_file("dir.mp4/file"));
    assert!(is_video_file("C:\\Videos\\clip.MP4"));
    assert!(is_video_file("D:clip.webm"));
    assert!(is_video_file("C:\\Videos\\take.2\\clip.3GP"));
    assert!(!is_video_file("C:\\Videos\\clip.png"));
    assert!(is_video_file("clip.mp4/"));
    assert!(is_video_file("/Movies/clip.MOV//"));
    assert!(is_video_file("/Movies/clip.mkv/."));
    assert!(!is_video_file("/Movies/clip.txt/"));
}
