use camlab::frame::Frame;
use camlab::moving_average::MatMovingAverage;

fn gray(width: u32, height: u32, bytes: Vec<u8>) -> Frame {
    Frame::from_raw(width, height, 1, bytes).expect("length matches dimensions")
}

#[test]
fn empty_average_is_none() {
    let ma = MatMovingAverage::new(5);
    assert!(ma.average().is_none());
}

#[test]
fn average_divides_by_current_occupancy() {
    let mut ma = MatMovingAverage::new(3);
    ma.push(gray(2, 1, vec![10, 0]));
    assert_eq!(ma.average().unwrap().data, vec![10, 0]);
    ma.push(gray(2, 1, vec![20, 3]));
    assert_eq!(ma.average().unwrap().data, vec![15, 1]);
    ma.push(gray(2, 1, vec![30, 3]));
    assert_eq!(ma.average().unwrap().data, vec![20, 2]);
}

#[test]
fn full_buffer_averages_only_the_window() {
    let mut ma = MatMovingAverage::new(3);
    for v in [10, 20, 30, 40] {
        ma.push(gray(1, 1, vec![v]));
    }
    assert_eq!(ma.average().unwrap().data, vec![30]);
}

#[test]
fn mean_truncates_toward_zero() {
    let mut ma = MatMovingAverage::new(2);
    ma.push(gray(1, 1, vec![1]));
    ma.push(gray(1, 1, vec![2]));
    assert_eq!(ma.average().unwrap().data, vec![1]);
}

#[test]
fn average_keeps_the_frame_geometry() {
    let mut ma = MatMovingAverage::new(2);
    ma.push(gray(3, 2, vec![0, 2, 4, 6, 8, 10]));
    ma.push(gray(3, 2, vec![2, 4, 6, 8, 10, 12]));
    let a = ma.average().unwrap();
    assert_eq!(a.width, 3);
    assert_eq!(a.height, 2);
    assert_eq!(a.channels, 1);
    assert_eq!(a.data, vec![1, 3, 5, 7, 9, 11]);
}
