use mandelbrust::config::{ConfigError, RenderConfig};
use mandelbrust::palette::map_color;
use mandelbrust::raster::{fill_row, pixel_offset, render};

#[test]
fn config_accepts_valid_frame() {
    let config = RenderConfig::new(1050, 700, 128).unwrap();
    assert_eq!(config.width(), 1050);
    assert_eq!(config.height(), 700);
    assert_eq!(config.escape_budget(), 128);
    assert_eq!(config.buffer_len(), 1050 * 700 * 4);
}

#[test]
fn config_rejects_each_bad_input() {
    assert_eq!(RenderConfig::new(0, 700, 128).unwrap_err(), ConfigError::ZeroWidth);
    assert_eq!(RenderConfig::new(0, 0, 0).unwrap_err(), ConfigError::ZeroWidth);
    assert_eq!(RenderConfig::new(10, 0, 128).unwrap_err(), ConfigError::ZeroHeight);
    assert_eq!(RenderConfig::new(10, 10, 0).unwrap_err(), ConfigError::ZeroBudget);
    assert_eq!(RenderConfig::new(usize::MAX, 2, 1).unwrap_err(), ConfigError::BufferTooLarge);
    assert_eq!(RenderConfig::new(usize::MAX / 4 + 1, 1, 1).unwrap_err(), ConfigError::BufferTooLarge);
    assert!(RenderConfig::new(usize::MAX / 4, 1, 1).is_ok());
}

#[test]
fn pixel_offsets_are_row_major() {
    let config = RenderConfig::new(3, 2, 8).unwrap();
    assert_eq!(pixel_offset(&config, 0, 0), 0);
    assert_eq!(pixel_offset(&config, 2, 0), 8);
    assert_eq!(pixel_offset(&config, 0, 1), 12);
    assert_eq!(pixel_offset(&config, 2, 1), 20);
}

#[test]
fn render_colours_each_pixel_by_its_count() {
    let config = RenderConfig::new(2, 2, 128).unwrap();
    let counts = vec![0usize, 1, 16, 128];
    let buf = render(&config, &counts);
    assert_eq!(buf.len(), 16);
    assert_eq!(&buf[0..4], &[66, 30, 15, 255]);
    assert_eq!(&buf[4..8], &[25, 7, 26, 255]);
    assert_eq!(&buf[8..12], &[66, 30, 15, 255]);
    assert_eq!(&buf[12..16], &[66, 30, 15, 255]);
}

#[test]
fn fill_row_touches_only_its_row() {
    let config = RenderConfig::new(2, 3, 16).unwrap();
    let counts = vec![1usize, 2, 3, 4, 5, 6];
    let mut buf = vec![7u8; 24];
    fill_row(&config, &mut buf, &counts, 1);
    assert_eq!(&buf[0..8], &[7u8; 8]);
    assert_eq!(&buf[8..12], &map_color(3));
    assert_eq!(&buf[12..16], &map_color(4));
    assert_eq!(&buf[16..24], &[7u8; 8]);
}

#[test]
fn rows_in_any_order_give_the_same_buffer() {
    let config = RenderConfig::new(4, 3, 64).unwrap();
    let counts: Vec<usize> = (0..12).map(|i| i * 5 % 23).collect();
    let whole = render(&config, &counts);
    let mut backwards = vec![0u8; 48];
    for y in (0..3).rev() {
        fill_row(&config, &mut backwards, &counts, y);
    }
    let mut twice = vec![255u8; 48];
    for y in [2usize, 0, 2, 1, 0] {
        fill_row(&config, &mut twice, &counts, y);
    }
    assert_eq!(whole, backwards);
    assert_eq!(whole, twice);
    assert_eq!(whole, render(&config, &counts));
}
