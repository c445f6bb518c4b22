use sm4::eeprom::{FlashMemory, Page, Storage, CELL_COUNT, FLASH_IMAGE_SIZE};

fn erased_storage() -> Storage {
    let mut storage = Storage::new(FlashMemory::new(vec![0xff; FLASH_IMAGE_SIZE]));
    storage.init().unwrap();
    storage
}

fn header(storage: Storage, page_offset: usize) -> (u8, u8, Storage) {
    let flash = storage.release();
    let bytes = flash.read();
    let h = (bytes[page_offset], bytes[page_offset + 1]);
    (h.0, h.1, Storage::new(flash))
}

#[test]
fn pages() {
    assert_eq!(Page::Page0.id(), 0);
    assert_eq!(Page::Page1.id(), 1);
    assert_eq!(Page::Page0.start_address(), 0x0800_4000);
    assert_eq!(Page::Page1.start_address(), 0x0800_8000);
    assert_eq!(Page::size(), 0x3fff);
    assert_eq!(Page::cell_count(), 2730);
    assert_eq!(CELL_COUNT, 2730);
    assert_eq!(Page::Page0.sector(), 1);
    assert_eq!(Page::Page1.sector(), 2);
    assert_eq!(Page::Page0.next(), Page::Page1);
    assert_eq!(Page::Page1.next(), Page::Page0);
}

#[test]
fn init_formats_a_flash_without_active_page() {
    let storage = Storage::new(FlashMemory::new(vec![0x00; FLASH_IMAGE_SIZE]));
    let mut storage = storage;
    storage.init().unwrap();
    let (lo, hi, storage) = header(storage, 0x4000);
    assert_eq!((lo, hi), (0xef, 0xbe));
    let (lo, hi, storage) = header(storage, 0x8000);
    assert_eq!((lo, hi), (0xff, 0xff));
    assert_eq!(storage.read(0x6107), None);
}

#[test]
fn init_keeps_a_flash_with_active_page() {
    let mut storage = erased_storage();
    storage.write(0x6107, 42).unwrap();
    storage.init().unwrap();
    assert_eq!(storage.read(0x6107), Some(42));
}

#[test]
fn read_after_write() {
    let mut storage = erased_storage();
    assert_eq!(storage.read(0x6109), None);
    storage.write(0x6109, 0x3f33_3333).unwrap();
    assert_eq!(storage.read(0x6109), Some(0x3f33_3333));
    storage.write(0x6109, 7).unwrap();
    assert_eq!(storage.read(0x6109), Some(7));
}

#[test]
fn write_keeps_other_keys() {
    let mut storage = erased_storage();
    storage.write(0x6101, 1).unwrap();
    storage.write(0x6202, 2).unwrap();
    storage.write(0x6101, 3).unwrap();
    assert_eq!(storage.read(0x6101), Some(3));
    assert_eq!(storage.read(0x6202), Some(2));
    assert_eq!(storage.read(0x6203), None);
}

#[test]
fn write_raw_takes_little_endian_bytes() {
    let mut storage = erased_storage();
    storage.write_raw(0x6107, &[0x00, 0x00, 0x48, 0x42, 0x99]).unwrap();
    assert_eq!(storage.read(0x6107), Some(0x4248_0000));
}

#[test]
fn erase_forgets_all_values() {
    let mut storage = erased_storage();
    storage.write(0x6107, 5).unwrap();
    storage.erase().unwrap();
    assert_eq!(storage.read(0x6107), None);
}

#[test]
fn full_page_moves_to_the_other_page() {
    let mut storage = erased_storage();
    // fill every cell of the first page, the last write to key 2 being the newest
    for i in 0..CELL_COUNT as u32 {
        storage.write(if i % 2 == 0 { 1 } else { 2 }, i).unwrap();
    }
    assert_eq!(storage.read(1), Some(CELL_COUNT as u32 - 2));
    assert_eq!(storage.read(2), Some(CELL_COUNT as u32 - 1));
    // the next write moves the newest values to the second page and marks it active;
    // the new value itself goes to the erased first page
    storage.write(3, 99).unwrap();
    let (lo, hi, storage) = header(storage, 0x8000);
    assert_eq!((lo, hi), (0xef, 0xbe));
    let (lo, hi, storage) = header(storage, 0x4000);
    assert_eq!((lo, hi), (0xff, 0xff));
    assert_eq!(storage.read(1), Some(CELL_COUNT as u32 - 2));
    assert_eq!(storage.read(2), Some(CELL_COUNT as u32 - 1));
    assert_eq!(storage.read(3), None);
}

#[test]
fn flash_programming_clears_bits_only() {
    let mut flash = FlashMemory::new(vec![0xff; FLASH_IMAGE_SIZE]);
    flash.program(0x10, &[0xf0, 0x0f]).unwrap();
    flash.program(0x10, &[0x3c, 0xff]).unwrap();
    assert_eq!(&flash.read()[0x10..0x12], &[0x30, 0x0f][..]);
    flash.erase(0).unwrap();
    assert_eq!(&flash.read()[0x10..0x12], &[0xff, 0xff][..]);
}

#[test]
fn storage_keeps_working_after_a_move() {
    let mut storage = erased_storage();
    for i in 0..CELL_COUNT as u32 {
        storage.write(0x6100 + (i % 5) as u16, i).unwrap();
    }
    storage.write(0x6200, 1).unwrap();
    // the second page is active now and takes the next values
    storage.write(0x6201, 2).unwrap();
    storage.write(0x6100, 3).unwrap();
    assert_eq!(storage.read(0x6201), Some(2));
    assert_eq!(storage.read(0x6100), Some(3));
    for k in 1..5u16 {
        let newest = (0..CELL_COUNT as u32).filter(|i| i % 5 == k as u32).max().unwrap();
        assert_eq!(storage.read(0x6100 + k), Some(newest));
    }
}

#[test]
fn never_written_key_reads_nothing() {
    let mut storage = erased_storage();
    storage.write(1, 10).unwrap();
    storage.write(2, 20).unwrap();
    storage.write(1, 11).unwrap();
    assert_eq!(storage.read(1), Some(11));
    assert_eq!(storage.read(2), Some(20));
    assert_eq!(storage.read(3), None);
}

#[test]
fn initialization_is_reported() {
    let storage = Storage::new(FlashMemory::new(vec![0x00; FLASH_IMAGE_SIZE]));
    assert!(!storage.is_initialized());
    assert!(erased_storage().is_initialized());
}
