use cliano::store::SampleStore;

fn listing(entries: &[(&str, &[u8])]) -> Vec<(String, Vec<u8>)> {
    entries.iter().map(|(name, bytes)| (String::from(*name), bytes.to_vec())).collect()
}

#[test]
fn build_keeps_matching_files_only() {
    let files = listing(&[
        ("C4.wav", &[1, 2, 3]),
        ("notes.txt", &[9, 9]),
        ("F4.wav", &[4]),
        ("c5.wav", &[7]),
    ]);
    let store = SampleStore::build(&files);
    assert_eq!(store.get('a'), Some(&vec![1, 2, 3]));
    assert_eq!(store.get('f'), Some(&vec![4]));
    assert_eq!(store.get('k'), None);
    assert_eq!(store.get('s'), None);
}

#[test]
fn build_of_empty_listing_is_empty() {
    let files = listing(&[]);
    let store = SampleStore::build(&files);
    assert_eq!(store.get('a'), None);
    assert_eq!(store.get('k'), None);
}

#[test]
fn build_later_file_of_same_name_wins() {
    let files = listing(&[("C4.wav", &[1]), ("C4.wav", &[2])]);
    let store = SampleStore::build(&files);
    assert_eq!(store.get('a'), Some(&vec![2]));
}

#[test]
fn insert_sample_replaces_prior_bytes() {
    let mut store = SampleStore::new();
    assert_eq!(store.get('a'), None);
    store.insert_sample('a', vec![1]);
    assert_eq!(store.get('a'), Some(&vec![1]));
    store.insert_sample('a', vec![2, 3]);
    assert_eq!(store.get('a'), Some(&vec![2, 3]));
    store.insert_sample('f', vec![4]);
    assert_eq!(store.get('a'), Some(&vec![2, 3]));
    assert_eq!(store.get('f'), Some(&vec![4]));
}
