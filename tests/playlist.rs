use syncplay::playlist::{Playlist, PlaylistItem};

fn three() -> Playlist {
    let mut playlist = Playlist::new();
    playlist.set_items(vec![
        "file1.mp4".to_string(),
        "file2.mp4".to_string(),
        "file3.mp4".to_string(),
    ]);
    playlist
}

#[test]
fn test_playlist_add_items() {
    let mut playlist = Playlist::new();
    playlist.add_item("file1.mp4".to_string());
    playlist.add_item("file2.mp4".to_string());

    assert_eq!(playlist.len(), 2);
    assert_eq!(playlist.get_current_index(), Some(0));
}

#[test]
fn test_playlist_set_items() {
    let mut playlist = Playlist::new();
    playlist.set_items(vec![
        "file1.mp4".to_string(),
        "file2.mp4".to_string(),
        "file3.mp4".to_string(),
    ]);

    assert_eq!(playlist.len(), 3);
    assert_eq!(playlist.get_current_index(), Some(0));
}

#[test]
fn test_playlist_navigation() {
    let mut playlist = Playlist::new();
    playlist.set_items(vec![
        "file1.mp4".to_string(),
        "file2.mp4".to_string(),
        "file3.mp4".to_string(),
    ]);

    let item = playlist.next();
    assert_eq!(item.unwrap().filename, "file2.mp4");
    assert_eq!(playlist.get_current_index(), Some(1));

    playlist.next();
    assert_eq!(playlist.get_current_index(), Some(2));

    playlist.next();
    assert_eq!(playlist.get_current_index(), Some(0));

    let item = playlist.previous();
    assert_eq!(item.unwrap().filename, "file3.mp4");
    assert_eq!(playlist.get_current_index(), Some(2));
}

#[test]
fn test_playlist_remove() {
    let mut playlist = Playlist::new();
    playlist.set_items(vec![
        "file1.mp4".to_string(),
        "file2.mp4".to_string(),
        "file3.mp4".to_string(),
    ]);

    playlist.set_current_index(1);
    playlist.remove_item(1);

    assert_eq!(playlist.len(), 2);
    assert_eq!(playlist.get_current_index(), Some(1));
}

#[test]
fn test_playlist_reorder() {
    let mut playlist = Playlist::new();
    playlist.set_items(vec![
        "file1.mp4".to_string(),
        "file2.mp4".to_string(),
        "file3.mp4".to_string(),
    ]);

    playlist.set_current_index(0);
    playlist.reorder(0, 2);

    let items = playlist.get_items();
    assert_eq!(items[0].filename, "file2.mp4");
    assert_eq!(items[2].filename, "file1.mp4");
    assert_eq!(playlist.get_current_index(), Some(2));
}

#[test]
fn test_playlist_clear() {
    let mut playlist = Playlist::new();
    playlist.set_items(vec!["file1.mp4".to_string()]);

    playlist.clear();
    assert!(playlist.is_empty());
    assert_eq!(playlist.get_current_index(), None);
}

#[test]
fn empty_playlist_has_no_current_and_navigation_gives_none() {
    let mut playlist = Playlist::new();
    assert_eq!(playlist.get_current_index(), None);
    assert_eq!(playlist.next(), None);
    assert_eq!(playlist.previous(), None);
    assert_eq!(playlist.get_current_item(), None);
    assert!(!playlist.remove_item(0));
    assert!(!playlist.set_current_index(0));
    assert!(!playlist.reorder(0, 0));
    playlist.set_items(Vec::new());
    assert_eq!(playlist.get_current_index(), None);
}

#[test]
fn remove_adjusts_current_index() {
    let mut playlist = three();
    playlist.set_current_index(2);
    assert!(playlist.remove_item(0));
    assert_eq!(playlist.get_current_index(), Some(1));
    assert_eq!(playlist.get_current_item().unwrap().filename, "file3.mp4");

    // Removing the current last item snaps to the new end.
    assert!(playlist.remove_item(1));
    assert_eq!(playlist.get_current_index(), Some(0));
    assert_eq!(playlist.get_current_item().unwrap().filename, "file2.mp4");

    assert!(!playlist.remove_item(5));
    assert!(playlist.remove_item(0));
    assert_eq!(playlist.get_current_index(), None);
    assert!(playlist.is_empty());
}

#[test]
fn reorder_keeps_current_item() {
    let mut playlist = three();
    playlist.set_current_index(1);
    assert!(playlist.reorder(0, 2));
    assert_eq!(playlist.get_current_index(), Some(0));
    assert_eq!(playlist.get_current_item().unwrap().filename, "file2.mp4");

    assert!(playlist.reorder(2, 0));
    assert_eq!(playlist.get_current_index(), Some(1));
    assert_eq!(playlist.get_current_item().unwrap().filename, "file2.mp4");

    assert!(!playlist.reorder(0, 3));
    let names: Vec<String> = playlist.get_items().into_iter().map(|i| i.filename).collect();
    assert_eq!(names, vec!["file1.mp4", "file2.mp4", "file3.mp4"]);
}

#[test]
fn next_with_loop_stops_or_wraps_at_end() {
    let mut playlist = three();
    playlist.set_current_index(2);
    assert_eq!(playlist.next_with_loop(false), None);
    assert_eq!(playlist.get_current_index(), Some(2));
    let item = playlist.next_with_loop(true).unwrap();
    assert_eq!(item.filename, "file1.mp4");
    assert_eq!(playlist.get_current_index(), Some(0));
    assert_eq!(playlist.next_with_loop(false).unwrap().filename, "file2.mp4");
}

#[test]
fn previous_wraps_to_last() {
    let mut playlist = three();
    assert_eq!(playlist.previous().unwrap().filename, "file3.mp4");
    assert_eq!(playlist.get_current_index(), Some(2));
}

#[test]
fn index_stays_valid_over_mixed_operations() {
    let mut playlist = Playlist::new();
    for i in 0..5 {
        playlist.add_item(format!("f{}", i));
    }
    playlist.set_current_index(4);
    playlist.reorder(4, 0);
    playlist.remove_item(3);
    playlist.next();
    playlist.previous();
    playlist.remove_item(0);
    let n = playlist.len();
    let cur = playlist.get_current_index().unwrap();
    assert!(cur < n);
    while !playlist.is_empty() {
        playlist.remove_item(0);
        match playlist.get_current_index() {
            Some(c) => assert!(c < playlist.len()),
            None => assert!(playlist.is_empty()),
        }
    }
}

#[test]
fn playlist_item_constructors() {
    let a = PlaylistItem::new("a.mkv".to_string());
    assert_eq!(a.duration, None);
    let b = PlaylistItem::with_duration("b.mkv".to_string(), 90_500);
    assert_eq!(b.duration, Some(90_500));
    assert_eq!(b.filename, "b.mkv");
}
