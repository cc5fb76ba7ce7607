//! A camera-lab library: a frame model, configurable image-filter
//! pipelines (resize, grayscale, Gaussian blur, bilateral filter, Canny
//! edge detection, temporal moving average), the decision core of a
//! camera frame source with a bounded frame channel, and the display
//! loop's bookkeeping.


pub mod config;
pub mod display;
pub mod frame;
pub mod moving_average;
pub mod pipeline;
pub mod stages;
pub mod stream;
