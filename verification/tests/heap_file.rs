use page_disk::disk::{addressable, page_offset, DiskManager};
use page_disk::page_id::PageId;
use std::io::{Cursor, ErrorKind, Read, Result, Seek, SeekFrom, Write};

fn heap_with(contents: &[u8]) -> Cursor<Vec<u8>> {
    Cursor::new(contents.to_vec())
}

fn manager_of(heap: &Cursor<Vec<u8>>) -> DiskManager {
    DiskManager::new(heap.get_ref().len() as u64)
}

fn read_page_data(heap: &mut Cursor<Vec<u8>>, page_id: PageId, data: &mut [u8]) -> Result<()> {
    assert!(addressable(page_id));
    heap.seek(SeekFrom::Start(page_offset(page_id)))?;
    heap.read_exact(data)
}

fn write_page_data(heap: &mut Cursor<Vec<u8>>, page_id: PageId, data: &[u8]) -> Result<()> {
    assert!(addressable(page_id));
    heap.seek(SeekFrom::Start(page_offset(page_id)))?;
    heap.write_all(data)
}

#[test]
fn test_disk_manager_new() {
    let heap = heap_with(b"Hello, World!");

    let disk_manager = manager_of(&heap);

    assert_eq!(heap.get_ref().as_slice(), b"Hello, World!");
    assert_eq!(disk_manager.next_page_id(), 0);
}

#[test]
fn test_disk_manager_read_page_data() {
    let mut heap = heap_with(b"Hello, World!");
    let page_id = PageId(0);
    let mut buf = vec![0; 13];

    read_page_data(&mut heap, page_id, &mut buf).unwrap();

    assert_eq!(buf, b"Hello, World!");
}

#[test]
fn test_disk_manager_write_page_data() {
    let mut heap = heap_with(b"");
    let page_id = PageId(0);
    let buf = b"Hello, World!";

    write_page_data(&mut heap, page_id, buf).unwrap();

    assert_eq!(heap.get_ref().as_slice(), b"Hello, World!");
}

#[test]
fn test_disk_manager_allocate_page() {
    let heap = heap_with(b"");
    let mut disk_manager = manager_of(&heap);

    assert_eq!(disk_manager.next_page_id(), 0);
    disk_manager.allocate_page();
    assert_eq!(disk_manager.next_page_id(), 1);
}

#[test]
fn written_page_reads_back_and_is_found_again() {
    let mut heap = heap_with(b"");
    let mut disk_manager = manager_of(&heap);

    let page_id = disk_manager.allocate_page();
    assert_eq!(page_id, PageId(0));
    write_page_data(&mut heap, page_id, &[0x41; 4096]).unwrap();
    let mut buf = vec![0u8; 4096];
    read_page_data(&mut heap, page_id, &mut buf).unwrap();
    assert_eq!(buf, vec![0x41u8; 4096]);
    heap.flush().unwrap();

    let mut again = Cursor::new(heap.into_inner());
    assert_eq!(manager_of(&again).next_page_id(), 1);
    let mut buf = vec![0u8; 4096];
    read_page_data(&mut again, PageId(0), &mut buf).unwrap();
    assert_eq!(buf, vec![0x41u8; 4096]);
}

#[test]
fn pages_are_written_side_by_side() {
    let mut heap = heap_with(b"");
    let mut disk_manager = manager_of(&heap);

    let first = disk_manager.allocate_page();
    let second = disk_manager.allocate_page();
    write_page_data(&mut heap, second, &[2; 4096]).unwrap();
    write_page_data(&mut heap, first, &[1; 4096]).unwrap();

    let mut buf = vec![0u8; 4096];
    read_page_data(&mut heap, second, &mut buf).unwrap();
    assert_eq!(buf, vec![2u8; 4096]);
    read_page_data(&mut heap, first, &mut buf).unwrap();
    assert_eq!(buf, vec![1u8; 4096]);
    assert_eq!(heap.get_ref().len(), 8192);
}

#[test]
fn reading_past_the_end_is_an_eof_error() {
    let mut heap = heap_with(&[7; 4096]);

    let mut buf = vec![0u8; 4096];
    let err = read_page_data(&mut heap, PageId(1), &mut buf).unwrap_err();
    assert_eq!(err.kind(), ErrorKind::UnexpectedEof);
    let err = read_page_data(&mut heap, PageId(500), &mut buf).unwrap_err();
    assert_eq!(err.kind(), ErrorKind::UnexpectedEof);
    read_page_data(&mut heap, PageId(0), &mut buf).unwrap();
    assert_eq!(buf, vec![7u8; 4096]);
}

#[test]
fn partial_trailing_page_is_claimed_by_the_next_id() {
    let mut contents = vec![9u8; 4096 * 2];
    contents.extend_from_slice(b"tail");
    let mut heap = heap_with(&contents);
    let mut disk_manager = manager_of(&heap);

    assert_eq!(disk_manager.next_page_id(), 2);
    let page_id = disk_manager.allocate_page();
    assert_eq!(page_id, PageId(2));
    write_page_data(&mut heap, page_id, b"head").unwrap();
    let mut buf = vec![0u8; 4];
    read_page_data(&mut heap, page_id, &mut buf).unwrap();
    assert_eq!(buf, b"head");
    assert_eq!(heap.get_ref().len(), 4096 * 2 + 4);
}
