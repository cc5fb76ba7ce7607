use camlab::config::FilterKind;
use camlab::config::ImageProcessingConfiguration;
use camlab::frame::Frame;
use camlab::pipeline::refine_frame;

fn lab_config(gray_before_scale: bool) -> ImageProcessingConfiguration {
    ImageProcessingConfiguration {
        gray_before_scale,
        scale: 4,
        scale_filter: FilterKind::Nearest,
        blur: false,
        blur_sigma: 4,
        canny: false,
        canny_low: 5,
        canny_high: 15,
    }
}

fn gradient_rgb(width: u32, height: u32) -> Frame {
    let mut data = Vec::new();
    for y in 0..height {
        for x in 0..width {
            data.push((x * 7 % 256) as u8);
            data.push((y * 13 % 256) as u8);
            data.push(((x + y) * 5 % 256) as u8);
        }
    }
    Frame::from_raw(width, height, 3, data).expect("length matches dimensions")
}

/// A one-channel frame that is black left of `step_x` and white from it on.
fn step_gray(width: u32, height: u32, step_x: u32) -> Frame {
    let mut data = Vec::new();
    for _y in 0..height {
        for x in 0..width {
            data.push(if x < step_x { 0 } else { 255 });
        }
    }
    Frame::from_raw(width, height, 1, data).expect("length matches dimensions")
}

#[test]
fn solid_color_frame_yields_no_edges() {
    let frame = Frame::solid(640, 480, 3, 90).expect("fits in memory");
    let cfg = lab_config(false);
    let out = cfg.call(frame);
    assert_eq!(out.width, 160);
    assert_eq!(out.height, 120);
    assert_eq!(out.channels, 1);
    assert_eq!(out.data.len(), 160 * 120);
    assert!(out.data.iter().all(|&b| b == 0));
}

#[test]
fn edge_pipeline_is_deterministic() {
    let frame = gradient_rgb(64, 48);
    let cfg = lab_config(false);
    let first = cfg.call(frame.clone());
    let second = cfg.call(frame);
    assert_eq!(first.width, second.width);
    assert_eq!(first.height, second.height);
    assert_eq!(first.data, second.data);
}

#[test]
fn stage_order_keeps_dimensions() {
    let frame = gradient_rgb(64, 48);
    let gray_first = lab_config(true).scaled_grayscale(frame.clone());
    let scale_first = lab_config(false).scaled_grayscale(frame);
    assert_eq!(gray_first.width, 16);
    assert_eq!(gray_first.height, 12);
    assert_eq!(scale_first.width, 16);
    assert_eq!(scale_first.height, 12);
    assert_eq!(gray_first.channels, 1);
    assert_eq!(scale_first.channels, 1);
}

#[test]
fn both_stage_orders_approximate_gray_intensity() {
    let frame = Frame::solid(64, 48, 3, 100).expect("fits in memory");
    let gray_first = lab_config(true).scaled_grayscale(frame.clone());
    let scale_first = lab_config(false).scaled_grayscale(frame);
    assert!(gray_first.data.iter().all(|&b| (95..=105).contains(&b)));
    assert!(scale_first.data.iter().all(|&b| (95..=105).contains(&b)));
}

#[test]
fn process_without_stages_returns_the_frame() {
    let frame = gradient_rgb(16, 16);
    let cfg = lab_config(false);
    let out = cfg.process(frame.clone());
    assert_eq!(out.channels, 3);
    assert_eq!(out.data, frame.data);
}

#[test]
fn blur_spreads_an_impulse() {
    let mut data = vec![0u8; 9 * 9 * 3];
    let center = (4 * 9 + 4) * 3;
    data[center] = 255;
    data[center + 1] = 255;
    data[center + 2] = 255;
    let frame = Frame::from_raw(9, 9, 3, data).unwrap();
    let mut cfg = lab_config(false);
    cfg.blur = true;
    cfg.blur_sigma = 2;
    let out = cfg.process(frame);
    assert_eq!(out.channels, 3);
    let out_center = out.data[center];
    let out_neighbor = out.data[center + 3];
    assert!(out_center < 255);
    assert!(out_center > 0);
    assert!(out_neighbor > 0);
}

#[test]
fn toggled_canny_finds_no_edges_in_solid_color() {
    let frame = Frame::solid(32, 32, 3, 140).expect("fits in memory");
    let mut cfg = lab_config(false);
    cfg.canny = true;
    cfg.canny_low = 5;
    cfg.canny_high = 15;
    let out = cfg.process(frame);
    assert_eq!(out.channels, 1);
    assert_eq!(out.data.len(), 32 * 32);
    assert!(out.data.iter().all(|&b| b == 0));
}

#[test]
fn refinement_detects_and_flips_a_step_edge() {
    let frame = step_gray(64, 16, 16);
    let out = refine_frame(frame, 1, 1, 1, 1, 10, 30);
    assert_eq!(out.width, 64);
    assert_eq!(out.height, 16);
    assert_eq!(out.channels, 1);
    let mut edge_columns = Vec::new();
    for x in 0..64u32 {
        let column_has_edge =
            (0..16u32).any(|y| out.data[(y * 64 + x) as usize] != 0);
        if column_has_edge {
            edge_columns.push(x);
        }
    }
    assert!(!edge_columns.is_empty());
    assert!(edge_columns.iter().all(|&x| (43..=52).contains(&x)));
}

#[test]
fn strong_bilateral_smoothing_removes_the_step_edge() {
    // A color sigma far above the intensity range makes the bilateral
    // filter an ordinary smoothing over its wide window, flattening the
    // step below the edge thresholds.
    let frame = step_gray(64, 16, 16);
    let out = refine_frame(frame, 1, 31, 10000, 100, 60, 120);
    assert_eq!(out.data.len(), 64 * 16);
    assert!(out.data.iter().all(|&b| b == 0));
}
