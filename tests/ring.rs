use memtier::error::{EventOpenError, RingError};
use memtier::handle::{check_ring_pages, ring_mmap_len};
use memtier::ring::{copy_from_ring, is_sample_record, PerfMmapBuf};
use memtier::sample::{decode_sample, sample_prefix_length};

fn header(type_: u32, size: u16) -> Vec<u8> {
    let mut h = type_.to_le_bytes().to_vec();
    h.extend_from_slice(&0u16.to_le_bytes());
    h.extend_from_slice(&size.to_le_bytes());
    h
}

fn ring_with(stream: &[u8], size: usize, start: usize) -> Vec<u8> {
    let mut ring = vec![0u8; size];
    for (i, b) in stream.iter().enumerate() {
        ring[(start + i) % size] = *b;
    }
    ring
}

#[test]
fn straddling_copy_joins_both_halves() {
    let ring: Vec<u8> = (10..18).collect();
    let rec = copy_from_ring(&ring, 6, 6);
    assert_eq!(&rec[0..2], &ring[6..8]);
    assert_eq!(&rec[2..6], &ring[0..4]);
}

#[test]
fn straddling_copy_equals_linear_read() {
    let ring: Vec<u8> = (0..16).map(|i| i * 3).collect();
    let doubled: Vec<u8> = ring.iter().chain(ring.iter()).copied().collect();
    for off in 0..16 {
        for len in 0..=16 {
            assert_eq!(copy_from_ring(&ring, off, len), doubled[off..off + len].to_vec());
        }
    }
}

#[test]
fn drain_walks_records_across_the_wrap() {
    let mut stream = header(9, 16);
    stream.extend_from_slice(&[1, 2, 3, 4, 5, 6, 7, 8]);
    stream.extend(header(2, 8));
    stream.extend(header(9, 12));
    stream.extend_from_slice(&[0xaa, 0xbb, 0xcc, 0xdd]);
    let ring = ring_with(&stream, 64, 40);
    let mut buf = PerfMmapBuf::new(0, 4096, 64, 40, 4096 + 64).unwrap();
    let head = 40 + stream.len() as u64;
    let recs = buf.drain(&ring, head).unwrap();
    assert_eq!(recs.len(), 3);
    assert_eq!(recs[0], stream[0..16].to_vec());
    assert_eq!(recs[1], stream[16..24].to_vec());
    assert_eq!(recs[2], stream[24..36].to_vec());
    assert!(is_sample_record(&recs[0]));
    assert!(!is_sample_record(&recs[1]));
    assert_eq!(buf.data_tail(), head);
    assert_eq!(buf.wrapped_data_tail(), head % 64);
    assert!(buf.drain(&ring, head).unwrap().is_empty());
}

#[test]
fn drain_stops_before_a_partial_header() {
    let stream = header(9, 8);
    let ring = ring_with(&stream, 16, 0);
    let mut buf = PerfMmapBuf::new(1, 4096, 16, 0, 8192).unwrap();
    assert!(buf.drain(&ring, 4).unwrap().is_empty());
    assert_eq!(buf.data_tail(), 0);
    assert_eq!(buf.drain(&ring, 8).unwrap().len(), 1);
    assert_eq!(buf.data_tail(), 8);
    assert_eq!(buf.version(), 1);
}

#[test]
fn tail_advances_by_the_record_size() {
    let mut stream = header(9, 24);
    stream.extend_from_slice(&[0u8; 16]);
    let ring = ring_with(&stream, 64, 0);
    let mut buf = PerfMmapBuf::new(0, 4096, 64, 0, 8192).unwrap();
    let rec = buf.read_sample(&ring, 24).unwrap().unwrap();
    assert_eq!(rec.len(), 24);
    assert_eq!(buf.data_tail(), 24);
    assert_eq!(buf.read_sample(&ring, 24).unwrap(), None);
}

#[test]
fn zero_size_record_is_corruption() {
    let ring = ring_with(&header(9, 0), 16, 0);
    let mut buf = PerfMmapBuf::new(0, 4096, 16, 0, 8192).unwrap();
    assert_eq!(buf.drain(&ring, 16), Err(RingError::UndersizedRecord));
    assert_eq!(buf.data_tail(), 0);
}

#[test]
fn oversized_record_is_corruption() {
    let ring = ring_with(&header(9, 40), 64, 0);
    let mut buf = PerfMmapBuf::new(0, 4096, 64, 0, 8192).unwrap();
    assert_eq!(buf.drain(&ring, 32), Err(RingError::OversizedRecord));
    assert_eq!(buf.data_tail(), 0);
}

#[test]
fn head_behind_tail_is_corruption() {
    let ring = vec![0u8; 16];
    let mut buf = PerfMmapBuf::new(0, 4096, 16, 100, 8192).unwrap();
    assert_eq!(buf.drain(&ring, 50), Err(RingError::HeadBehindTail));
    assert_eq!(buf.data_tail(), 100);
}

#[test]
fn ring_geometry_is_checked() {
    assert!(PerfMmapBuf::new(0, 4096, 4096, 0, 8192).is_ok());
    assert_eq!(
        PerfMmapBuf::new(0, 0, 4096, 0, 8192).err(),
        Some(EventOpenError::MmapInvalidSize)
    );
    assert!(PerfMmapBuf::new(0, 4096, 8192, 0, 8192).is_err());
    assert!(PerfMmapBuf::new(0, 4096, 4, 0, 8192).is_err());
}

#[test]
fn ring_page_counts() {
    for pages in [2u64, 3, 5, 9, 17, 65537, 1 + (1 << 40)] {
        assert_eq!(check_ring_pages(pages), Ok(()), "{}", pages);
    }
    for pages in [0u64, 1, 4, 6, 7, 10, 65536, 65538] {
        assert_eq!(
            check_ring_pages(pages),
            Err(EventOpenError::MmapInvalidSize),
            "{}",
            pages
        );
    }
    assert_eq!(ring_mmap_len(65537, 4096), Ok(65537 * 4096));
    assert_eq!(ring_mmap_len(65536, 4096), Err(EventOpenError::MmapInvalidSize));
    assert_eq!(ring_mmap_len(1 + (1 << 62), 4096), Err(EventOpenError::MmapInvalidSize));
}

fn sample(mask_fields: &[u64]) -> Vec<u8> {
    let mut rec = header(9, (8 + 8 * mask_fields.len()) as u16);
    for v in mask_fields {
        rec.extend_from_slice(&v.to_le_bytes());
    }
    rec
}

#[test]
fn sample_fields_in_kernel_order() {
    let mask = 0x1 | 0x2 | 0x4 | 0x8;
    let tid = (7u64 << 32) | 5;
    let rec = sample(&[0x4000_1000, tid, 99, 0xdead_beef]);
    let s = decode_sample(&rec, mask).unwrap();
    assert_eq!(s.ip, Some(0x4000_1000));
    assert_eq!(s.tid, Some((5, 7)));
    assert_eq!(s.time, Some(99));
    assert_eq!(s.addr, Some(0xdead_beef));
    assert_eq!(s.identifier, None);
    assert_eq!(s.period, None);
    assert_eq!(sample_prefix_length(mask), 40);
}

#[test]
fn unselecting_a_field_shortens_the_sample() {
    let mask = 0x1 | 0x2 | 0x4 | 0x8;
    for bit in [0x1u64, 0x2, 0x4, 0x8] {
        assert_eq!(sample_prefix_length(mask & !bit), 32);
    }
    let rec = sample(&[0x4000_1000, 99, 0xdead_beef]);
    let s = decode_sample(&rec, mask & !0x2).unwrap();
    assert_eq!(s.ip, Some(0x4000_1000));
    assert_eq!(s.tid, None);
    assert_eq!(s.time, Some(99));
    assert_eq!(s.addr, Some(0xdead_beef));
}

#[test]
fn identifier_leads_the_sample() {
    let rec = sample(&[11, 22, 33, 44, 55, 66]);
    let s = decode_sample(&rec, 0x1000f | 0x100).unwrap();
    assert_eq!(s.identifier, Some(11));
    assert_eq!(s.ip, Some(22));
    assert_eq!(s.tid, Some((33, 0)));
    assert_eq!(s.time, Some(44));
    assert_eq!(s.addr, Some(55));
    assert_eq!(s.period, Some(66));
}

#[test]
fn short_sample_is_not_decoded() {
    let rec = sample(&[1, 2, 3]);
    assert!(decode_sample(&rec, 0xf).is_none());
    assert!(decode_sample(&rec, 0x7).is_some());
}
