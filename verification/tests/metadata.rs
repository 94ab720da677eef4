use chain_store::databases::Checkpoint;
use chain_store::databases::Metadata;
use chain_store::error::StorageError;
use chain_store::structs::Date;
use chain_store::structs::Height;

#[test]
fn import_without_a_file_starts_afresh() {
    let metadata = Metadata::import(None).unwrap();
    assert_eq!(metadata, Metadata::default());
    assert_eq!(metadata.insert_count, 0);
    assert_eq!(metadata.remove_count, 0);
    assert_eq!(metadata.checkpoint, None);
    assert_eq!(metadata.last_height(), None);
    assert_eq!(metadata.last_date(), None);
}

#[test]
fn counters_count_calls() {
    let mut metadata = Metadata::default();
    metadata.called_insert();
    metadata.called_insert();
    metadata.called_remove();
    assert_eq!(metadata.insert_count, 2);
    assert_eq!(metadata.remove_count, 1);
    assert_eq!(metadata.checkpoint, None);
}

#[test]
fn export_advances_height_and_date_together() {
    let mut metadata = Metadata::default();
    metadata.called_insert();
    let file = metadata.export(Height::new(100), Date::new(2024, 1, 1));
    assert_eq!(metadata.last_height(), Some(Height { value: 100 }));
    assert_eq!(metadata.last_date(), Some(Date { year: 2024, month: 1, day: 1 }));
    assert_eq!(metadata.insert_count, 1);
    assert_eq!(file, metadata.encode());
}

#[test]
fn checkpoint_file_layout() {
    let metadata = Metadata {
        insert_count: 0x0102,
        remove_count: 3,
        checkpoint: Some(Checkpoint { height: Height::new(100), date: Date::new(2024, 1, 31) }),
    };
    let expected: Vec<u8> = vec![
        0x02, 0x01, 0, 0, 0, 0, 0, 0, // inserts
        3, 0, 0, 0, 0, 0, 0, 0, // removes
        1, // a flush completed
        100, 0, 0, 0, // height
        0xe8, 0x07, // year 2024
        1, 31,
    ];
    assert_eq!(metadata.encode(), expected);
    assert_eq!(Metadata::decode(&expected), Some(metadata));
}

#[test]
fn fresh_checkpoint_file_is_all_zero() {
    let file = Metadata::default().encode();
    assert_eq!(file, vec![0u8; 25]);
    assert_eq!(Metadata::decode(&file), Some(Metadata::default()));
}

#[test]
fn checkpoint_file_round_trip() {
    let mut metadata = Metadata::default();
    metadata.called_insert();
    metadata.called_remove();
    metadata.called_insert();
    let file = metadata.export(Height::new(840_000), Date::new(2024, 4, 20));
    assert_eq!(file.len(), 25);
    assert_eq!(Metadata::import(Some(&file)), Ok(metadata));
    let max = Metadata {
        insert_count: u64::MAX,
        remove_count: u64::MAX,
        checkpoint: Some(Checkpoint { height: Height::new(u32::MAX), date: Date::new(u16::MAX, 255, 255) }),
    };
    assert_eq!(Metadata::decode(&max.encode()), Some(max));
}

#[test]
fn import_of_a_damaged_file_fails() {
    assert_eq!(Metadata::import(Some(&[])), Err(StorageError::EncodeDecodeFailed));
    assert_eq!(Metadata::import(Some(&[0u8; 24])), Err(StorageError::EncodeDecodeFailed));
    assert_eq!(Metadata::import(Some(&[0u8; 26])), Err(StorageError::EncodeDecodeFailed));
    let mut file = vec![0u8; 25];
    file[16] = 2;
    assert_eq!(Metadata::import(Some(&file)), Err(StorageError::EncodeDecodeFailed));
    // a position without the mark that a flush completed
    let mut file = vec![0u8; 25];
    file[17] = 100;
    assert_eq!(Metadata::decode(&file), None);
    assert_eq!(Metadata::import(Some(&file)), Err(StorageError::EncodeDecodeFailed));
}

#[test]
fn reset_forgets_counts_and_checkpoint() {
    let mut metadata = Metadata::default();
    metadata.called_insert();
    metadata.export(Height::new(5), Date::new(2009, 1, 9));
    metadata.reset();
    assert_eq!(metadata, Metadata::default());
}
