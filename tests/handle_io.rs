use os_inode::{open_file, wrap, OSInode, OpenFlags, READ_ALL_CHUNK};

/// Byte-range read from an in-memory file, as the underlying inode does.
fn read_at(file: &[u8], offset: usize, buf: &mut [u8]) -> usize {
    if offset >= file.len() {
        return 0;
    }
    let n = buf.len().min(file.len() - offset);
    buf[..n].copy_from_slice(&file[offset..offset + n]);
    n
}

/// Byte-range write into an in-memory file, growing it as needed.
fn write_at(file: &mut Vec<u8>, offset: usize, buf: &[u8]) -> usize {
    if file.len() < offset + buf.len() {
        file.resize(offset + buf.len(), 0);
    }
    file[offset..offset + buf.len()].copy_from_slice(buf);
    buf.len()
}

fn read(h: &mut OSInode, file: &[u8], bufs: &mut [Vec<u8>]) -> usize {
    let mut total = 0usize;
    for slice in bufs.iter_mut() {
        let n = read_at(file, h.offset(), slice);
        match h.advance_read(total, n) {
            Some(t) => total = t,
            None => break,
        }
    }
    total
}

fn write(h: &mut OSInode, file: &mut Vec<u8>, bufs: &[Vec<u8>]) -> usize {
    let mut total = 0usize;
    for slice in bufs.iter() {
        let n = write_at(file, h.offset(), slice);
        total = h.advance_write(total, slice.len(), n).expect("short write");
    }
    total
}

#[test]
fn new_handle_starts_at_zero() {
    let h = OSInode::new(true, false, 3);
    assert!(h.readable());
    assert!(!h.writable());
    assert_eq!(h.get_inode_id(), 3);
    assert_eq!(h.offset(), 0);
}

#[test]
fn scatter_read_stops_at_end_of_file() {
    let file: Vec<u8> = (1..=10).collect();
    let mut h = OSInode::new(true, false, 1);
    let mut bufs = vec![vec![0u8; 5], vec![0u8; 5], vec![0xAAu8; 5]];
    assert_eq!(read(&mut h, &file, &mut bufs), 10);
    assert_eq!(bufs[0], vec![1, 2, 3, 4, 5]);
    assert_eq!(bufs[1], vec![6, 7, 8, 9, 10]);
    assert_eq!(bufs[2], vec![0xAA; 5]);
    assert_eq!(h.offset(), 10);
}

#[test]
fn advance_read_of_zero_keeps_cursor() {
    let mut h = OSInode::new(true, false, 1);
    assert_eq!(h.advance_read(7, 0), None);
    assert_eq!(h.offset(), 0);
    assert_eq!(h.advance_read(7, 4), Some(11));
    assert_eq!(h.offset(), 4);
}

#[test]
fn advance_write_refuses_short_write() {
    let mut h = OSInode::new(false, true, 1);
    assert_eq!(h.advance_write(0, 6, 6), Some(6));
    assert_eq!(h.advance_write(6, 6, 2), None);
    assert_eq!(h.offset(), 6);
}

#[test]
fn write_then_read_from_fresh_handle_round_trips() {
    let mut file: Vec<u8> = Vec::new();
    let data: Vec<u8> = b"hello, scatter".to_vec();
    let step = open_file(OpenFlags::create().union(OpenFlags::wronly()), false);
    let mut w = wrap(step, 2).unwrap();
    let written = write(&mut w, &mut file, &[data[..6].to_vec(), data[6..].to_vec()]);
    assert_eq!(written, data.len());
    assert_eq!(w.offset(), data.len());

    let step = open_file(OpenFlags::rdonly(), true);
    let mut r = wrap(step, 2).unwrap();
    assert_eq!(r.offset(), 0);
    let mut bufs = vec![vec![0u8; 4], vec![0u8; 20]];
    let n = read(&mut r, &file, &mut bufs);
    assert_eq!(n, data.len());
    let mut got = bufs[0].clone();
    got.extend_from_slice(&bufs[1][..n - 4]);
    assert_eq!(got, data);
}

#[test]
fn read_all_drains_from_cursor_in_chunks() {
    let file: Vec<u8> = (0..1200u32).map(|i| (i % 251) as u8).collect();
    let mut h = OSInode::new(true, false, 6);
    let mut data: Vec<u8> = Vec::new();
    let mut chunk = [0u8; READ_ALL_CHUNK];
    let mut steps = 0;
    loop {
        let len = read_at(&file, h.offset(), &mut chunk);
        if !h.read_all_step(&mut data, &chunk[..len]) {
            break;
        }
        steps += 1;
    }
    assert_eq!(steps, 3);
    assert_eq!(data, file);
    assert_eq!(h.offset(), 1200);
    assert!(!h.read_all_step(&mut data, &[]));
    assert_eq!(data.len(), 1200);
}
