use sqlite3_ext::Blob;

#[test]
fn debug() {
    let blob = Blob::from([1, 2, 3, 4]);
    assert_eq!(format!("{blob:?}"), "Blob([1, 2, 3, 4])");
}

#[test]
fn truncate() {
    let mut blob = Blob::from([1, 2, 3, 4]);
    assert_eq!(blob.as_slice(), [1, 2, 3, 4]);
    blob.truncate(2);
    assert_eq!(blob.as_slice(), [1, 2]);
}

#[test]
fn truncate_past_the_end_keeps_everything() {
    let mut blob = Blob::from([1, 2, 3]);
    blob.truncate(3);
    assert_eq!(blob.as_slice(), [1, 2, 3]);
    blob.truncate(10);
    assert_eq!(blob.as_slice(), [1, 2, 3]);
    assert_eq!(blob.len(), 3);
    blob.truncate(0);
    assert_eq!(blob.len(), 0);
}

#[test]
fn blob_from_slice_and_into_vec() {
    let blob = Blob::from_slice(&[9, 8, 7]);
    assert_eq!(blob.len(), 3);
    assert_eq!(blob.into_vec(), vec![9, 8, 7]);
}
