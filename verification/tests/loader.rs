use nx_lifter::image::LoadError;
use nx_lifter::image::NroSegment;
use nx_lifter::image::NroSegmentType;
use nx_lifter::image::SwitchExecutable;

/// Writes `val` as a little-endian word at `pos`.
fn put_u32(buf: &mut Vec<u8>, pos: usize, val: u32) {
    buf[pos] = (val & 0xFF) as u8;
    buf[pos + 1] = ((val >> 8) & 0xFF) as u8;
    buf[pos + 2] = ((val >> 16) & 0xFF) as u8;
    buf[pos + 3] = ((val >> 24) & 0xFF) as u8;
}

/// A well-formed container: a 0x80-byte header followed by a text segment
/// of 8 bytes, a read-only segment of 4 bytes and a read-write segment of 4
/// bytes, with a declared zero-fill of 16 bytes.
fn build_container() -> Vec<u8> {
    let mut buf = vec![0u8; 0x80];
    buf[0x10] = b'N';
    buf[0x11] = b'R';
    buf[0x12] = b'O';
    buf[0x13] = b'0';
    put_u32(&mut buf, 0x14, 0); // version
    put_u32(&mut buf, 0x18, 0x90); // header size
    put_u32(&mut buf, 0x20, 0x80); // text offset
    put_u32(&mut buf, 0x24, 8); // text size
    put_u32(&mut buf, 0x28, 0x88); // ro offset
    put_u32(&mut buf, 0x2C, 4); // ro size
    put_u32(&mut buf, 0x30, 0x8C); // data offset
    put_u32(&mut buf, 0x34, 4); // data size
    put_u32(&mut buf, 0x38, 16); // zero-fill size
    for i in 0..8 {
        buf.push(0x10 + i as u8);
    }
    for i in 0..4 {
        buf.push(0x20 + i as u8);
    }
    for i in 0..4 {
        buf.push(0x30 + i as u8);
    }
    buf
}

#[test]
fn load_well_formed_container() {
    let raw = build_container();
    let img = SwitchExecutable::read_nro(raw.clone()).unwrap();
    assert_eq!(img.program(), &raw);
    assert_eq!(img.text(), &vec![0x10, 0x11, 0x12, 0x13, 0x14, 0x15, 0x16, 0x17]);
    assert_eq!(img.ro(), &vec![0x20, 0x21, 0x22, 0x23]);
    assert_eq!(img.data(), &vec![0x30, 0x31, 0x32, 0x33]);
    assert_eq!(img.bss_size(), 16);
}

#[test]
fn segment_getter_matches_fields() {
    let raw = build_container();
    let img = SwitchExecutable::read_nro(raw).unwrap();
    assert_eq!(img.segment(NroSegmentType::TEXT), img.text());
    assert_eq!(img.segment(NroSegmentType::RO), img.ro());
    assert_eq!(img.segment(NroSegmentType::DATA), img.data());
}

#[test]
fn descriptors_expose_byte_ranges() {
    let raw = build_container();
    let img = SwitchExecutable::read_nro(raw).unwrap();
    let t = img.descriptor(NroSegmentType::TEXT);
    assert_eq!((t.offset, t.size), (0x80, 8));
    let r = img.descriptor(NroSegmentType::RO);
    assert_eq!((r.offset, r.size), (0x88, 4));
    let d = img.descriptor(NroSegmentType::DATA);
    assert_eq!((d.offset, d.size), (0x8C, 4));
    // The zero-fill region is anchored at the end of the read-write range.
    assert_eq!(img.zero_fill_start(), 0x90);
}

#[test]
fn zero_fill_is_zeroed_and_sized() {
    let raw = build_container();
    let img = SwitchExecutable::read_nro(raw).unwrap();
    let z = img.zero_fill();
    assert_eq!(z.len(), 16);
    assert!(z.iter().all(|b| *b == 0));
}

#[test]
fn bad_magic_is_rejected() {
    let mut raw = build_container();
    raw[0x12] = b'X';
    let r = SwitchExecutable::read_nro(raw);
    assert!(matches!(r, Err(LoadError::BadMagic)));
}

#[test]
fn truncated_before_magic() {
    let raw = build_container();
    let r = SwitchExecutable::read_nro(raw[..0x10].to_vec());
    assert!(matches!(r, Err(LoadError::Truncated)));
}

#[test]
fn truncation_anywhere_before_descriptor_end_is_safe() {
    let raw = build_container();
    for cut in 0..0x38 {
        let r = SwitchExecutable::read_nro(raw[..cut].to_vec());
        assert!(matches!(r, Err(LoadError::Truncated)), "cut at {cut}");
    }
}

#[test]
fn truncated_after_descriptors_still_rejected() {
    let raw = build_container();
    let r = SwitchExecutable::read_nro(raw[..0x3A].to_vec());
    assert!(matches!(r, Err(LoadError::Truncated)));
}

#[test]
fn out_of_bounds_segment_is_rejected() {
    let mut raw = build_container();
    put_u32(&mut raw, 0x24, 0x10000); // text size beyond the buffer
    let r = SwitchExecutable::read_nro(raw);
    assert!(matches!(r, Err(LoadError::OutOfBounds)));
}

#[test]
fn out_of_bounds_offset_is_rejected() {
    let mut raw = build_container();
    put_u32(&mut raw, 0x30, 0xFFFF_FFFF); // data offset beyond the buffer
    let r = SwitchExecutable::read_nro(raw);
    assert!(matches!(r, Err(LoadError::OutOfBounds)));
}

#[test]
fn descriptor_reads_offset_and_size() {
    let raw = build_container();
    let d = NroSegment::new(&raw, 0x20).unwrap();
    assert_eq!(d.offset, 0x80);
    assert_eq!(d.size, 8);
    let short = vec![0u8; 4];
    assert!(matches!(NroSegment::new(&short, 0), Err(LoadError::Truncated)));
}
