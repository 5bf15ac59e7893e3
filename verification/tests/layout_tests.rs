use cliano::layout::file_to_key_map;
use cliano::layout::key_for_file;
use cliano::layout::key_is_mapped;
use cliano::layout::key_layout;

#[test]
fn file_map_has_one_row_per_layout_entry() {
    let map = file_to_key_map();
    assert_eq!(map.len(), 13);
    assert_eq!(map[0], (String::from("C4.wav"), 'a'));
    assert_eq!(map[1], (String::from("Db4.wav"), 'w'));
    assert_eq!(map[3], (String::from("Eb4.wav"), 'e'));
    assert_eq!(map[5], (String::from("F4.wav"), 'f'));
    assert_eq!(map[6], (String::from("Gb4.wav"), 't'));
    assert_eq!(map[8], (String::from("Ab4.wav"), 'y'));
    assert_eq!(map[10], (String::from("Bb4.wav"), 'u'));
    assert_eq!(map[12], (String::from("C5.wav"), 'k'));
}

#[test]
fn file_map_keys_are_distinct() {
    let map = file_to_key_map();
    for i in 0..map.len() {
        for j in 0..map.len() {
            if i != j {
                assert_ne!(map[i].0, map[j].0);
                assert_ne!(map[i].1, map[j].1);
            }
        }
    }
}

#[test]
fn key_for_file_resolves_layout_files() {
    assert_eq!(key_for_file("C4.wav"), Some('a'));
    assert_eq!(key_for_file("Db4.wav"), Some('w'));
    assert_eq!(key_for_file("F4.wav"), Some('f'));
    assert_eq!(key_for_file("Gb4.wav"), Some('t'));
    assert_eq!(key_for_file("Bb4.wav"), Some('u'));
    assert_eq!(key_for_file("C5.wav"), Some('k'));
}

#[test]
fn key_for_file_ignores_foreign_names() {
    assert_eq!(key_for_file("readme.txt"), None);
    assert_eq!(key_for_file("c4.wav"), None);
    assert_eq!(key_for_file("C4.WAV"), None);
    assert_eq!(key_for_file(""), None);
    assert_eq!(key_for_file("H4.wav"), None);
    assert_eq!(key_for_file("Cb4.wav"), None);
    assert_eq!(key_for_file("Fb4.wav"), None);
}

#[test]
fn mapped_keys_are_the_layout_keys() {
    for k in ['a', 'w', 's', 'e', 'd', 'f', 't', 'g', 'y', 'h', 'u', 'j', 'k'] {
        assert!(key_is_mapped(k));
    }
    for k in ['z', 'q', 'A', ' ', '1'] {
        assert!(!key_is_mapped(k));
    }
}

#[test]
fn layout_rows_align_with_file_map() {
    let layout = key_layout();
    let map = file_to_key_map();
    assert_eq!(layout.len(), map.len());
    for i in 0..layout.len() {
        assert_eq!(layout[i].key, map[i].1);
        assert_eq!(layout[i].file, map[i].0);
    }
    assert_eq!(layout[0].note, "C ");
    assert_eq!(layout[1].note, "Db");
    assert_eq!(layout[12].note, "C5");
}
