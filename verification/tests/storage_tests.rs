use humidistat::error::Error;
use humidistat::storage::{NvStorage, ERASED};

#[test]
fn new_storage_is_erased() {
    let storage = NvStorage::new(0x9000, 8);
    assert_eq!(storage.start(), 0x9000);
    assert_eq!(storage.size(), 8);
    assert_eq!(storage.read(0x9000, 8).unwrap(), vec![ERASED; 8]);
    assert_eq!(ERASED, 0xFF);
}

#[test]
fn write_then_read_back() {
    let mut storage = NvStorage::new(100, 10);
    assert_eq!(storage.write(103, &[1, 2, 3]), Ok(()));
    assert_eq!(
        storage.read(100, 10).unwrap(),
        vec![0xFF, 0xFF, 0xFF, 1, 2, 3, 0xFF, 0xFF, 0xFF, 0xFF]
    );
    assert_eq!(storage.read(104, 2).unwrap(), vec![2, 3]);
    assert_eq!(storage.read(105, 0).unwrap(), Vec::<u8>::new());
}

#[test]
fn write_at_the_edges_of_the_window() {
    let mut storage = NvStorage::new(100, 4);
    assert_eq!(storage.write(100, &[9]), Ok(()));
    assert_eq!(storage.write(103, &[7]), Ok(()));
    assert_eq!(storage.write(104, &[]), Ok(()));
    assert_eq!(storage.read(100, 4).unwrap(), vec![9, 0xFF, 0xFF, 7]);
}

#[test]
fn access_outside_of_the_window_fails() {
    let mut storage = NvStorage::new(100, 4);
    assert!(matches!(storage.read(99, 1), Err(Error::GeneralFault { .. })));
    assert!(matches!(storage.read(103, 2), Err(Error::GeneralFault { .. })));
    assert!(matches!(storage.read(105, 0), Err(Error::GeneralFault { .. })));
    assert!(matches!(storage.write(99, &[1, 2]), Err(Error::GeneralFault { .. })));
    assert!(matches!(storage.write(102, &[1, 2, 3]), Err(Error::GeneralFault { .. })));
    // Nothing was written by the failed calls.
    assert_eq!(storage.read(100, 4).unwrap(), vec![0xFF; 4]);
}

#[test]
fn window_at_the_top_of_the_address_space() {
    let mut storage = NvStorage::new(u32::MAX - 1, 2);
    assert_eq!(storage.write(u32::MAX, &[5]), Ok(()));
    assert_eq!(storage.read(u32::MAX - 1, 2).unwrap(), vec![0xFF, 5]);
    assert!(storage.read(u32::MAX, 2).is_err());
}
