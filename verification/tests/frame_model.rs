use camlab::frame::Frame;

fn gray(width: u32, height: u32, bytes: Vec<u8>) -> Frame {
    Frame::from_raw(width, height, 1, bytes).expect("length matches dimensions")
}

#[test]
fn solid_fills_every_byte() {
    let f = Frame::solid(4, 3, 3, 7).expect("fits in memory");
    assert_eq!(f.width, 4);
    assert_eq!(f.height, 3);
    assert_eq!(f.channels, 3);
    assert_eq!(f.data.len(), 36);
    assert!(f.data.iter().all(|&b| b == 7));
}

#[test]
fn solid_rejects_overflowing_dimensions() {
    assert!(Frame::solid(u32::MAX, u32::MAX, 3, 0).is_none());
}

#[test]
fn from_raw_rejects_mismatched_buffers() {
    assert!(Frame::from_raw(2, 2, 1, vec![0; 3]).is_none());
    assert!(Frame::from_raw(2, 2, 2, vec![0; 8]).is_none());
    assert!(Frame::from_raw(2, 2, 1, vec![0; 4]).is_some());
}

#[test]
fn flip_reverses_each_row() {
    let f = gray(3, 2, vec![1, 2, 3, 4, 5, 6]);
    let r = Frame::flip_horizontal(&f);
    assert_eq!(r.width, 3);
    assert_eq!(r.height, 2);
    assert_eq!(r.data, vec![3, 2, 1, 6, 5, 4]);
}

#[test]
fn flip_moves_whole_pixels() {
    let f = Frame::from_raw(2, 1, 3, vec![1, 2, 3, 9, 8, 7]).unwrap();
    let r = Frame::flip_horizontal(&f);
    assert_eq!(r.data, vec![9, 8, 7, 1, 2, 3]);
}

#[test]
fn flip_twice_restores_the_frame() {
    let f = gray(4, 2, vec![5, 0, 9, 1, 2, 3, 4, 8]);
    let r = Frame::flip_horizontal(&Frame::flip_horizontal(&f));
    assert_eq!(r.data, f.data);
}

#[test]
fn gray_expands_to_opaque_rgba() {
    let f = gray(2, 1, vec![10, 200]);
    let r = Frame::expand_gray_to_rgba(&f);
    assert_eq!(r.width, 2);
    assert_eq!(r.height, 1);
    assert_eq!(r.channels, 4);
    assert_eq!(r.data, vec![10, 10, 10, 255, 200, 200, 200, 255]);
}
