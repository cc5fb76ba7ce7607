use camlab::config::FilterKind;
use camlab::config::ImageProcessingConfiguration;
use camlab::display::ConfigCell;
use camlab::display::DisplayState;
use camlab::frame::Frame;

#[test]
fn tick_retains_previous_frame() {
    let mut d = DisplayState::new();
    assert!(d.latest_frame.is_none());
    d.on_tick(None);
    assert!(d.latest_frame.is_none());
    d.on_tick(Some(Frame::solid(1, 1, 1, 5).unwrap()));
    assert_eq!(d.latest_frame.as_ref().unwrap().data, vec![5]);
    d.on_tick(None);
    assert_eq!(d.latest_frame.as_ref().unwrap().data, vec![5]);
    d.on_tick(Some(Frame::solid(1, 1, 1, 9).unwrap()));
    assert_eq!(d.latest_frame.as_ref().unwrap().data, vec![9]);
}

#[test]
fn config_cell_commits_only_changed_snapshots() {
    let mut cell = ConfigCell::new(ImageProcessingConfiguration::default());
    let mut edited = cell.read();
    edited.scale = 8;
    cell.commit(false, edited);
    assert_eq!(cell.read().scale, 4);
    cell.commit(true, edited);
    assert_eq!(cell.read().scale, 8);
}

#[test]
fn config_cell_reads_whole_snapshots() {
    let mut cell = ConfigCell::new(ImageProcessingConfiguration::default());
    let mut replacement = ImageProcessingConfiguration::default();
    replacement.gray_before_scale = true;
    replacement.scale = 2;
    replacement.canny_low = 7;
    replacement.canny_high = 21;
    cell.write(replacement);
    let seen = cell.read();
    assert_eq!(seen, replacement);
}

#[test]
fn default_configuration_matches_the_controls() {
    let c = ImageProcessingConfiguration::default();
    assert!(!c.gray_before_scale);
    assert_eq!(c.scale, 4);
    assert!(matches!(c.scale_filter, FilterKind::Nearest));
    assert!(!c.blur);
    assert_eq!(c.blur_sigma, 4);
    assert!(!c.canny);
    assert_eq!(c.canny_low, 5);
    assert_eq!(c.canny_high, 15);
}

#[test]
fn clamped_enforces_slider_ranges() {
    let c = ImageProcessingConfiguration::clamped(
        true, 99, FilterKind::Gaussian, true, 0, true, 29, 99);
    assert!(c.gray_before_scale);
    assert_eq!(c.scale, 8);
    assert_eq!(c.blur_sigma, 1);
    assert_eq!(c.canny_high, 30);
    assert_eq!(c.canny_low, 29);

    let c2 = ImageProcessingConfiguration::clamped(
        false, 0, FilterKind::Nearest, false, 50, false, 20, 10);
    assert_eq!(c2.scale, 1);
    assert_eq!(c2.blur_sigma, 20);
    assert_eq!(c2.canny_high, 10);
    assert_eq!(c2.canny_low, 10);
}
