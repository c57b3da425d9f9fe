//! Tests of the flat ARGB buffer helpers.

use fractal_texture::argb::matrix2buffer_color;
use fractal_texture::argb::matrix2buffer_simple;
use fractal_texture::argb::to_argb;

#[test]
fn to_argb_packs_gray() {
    assert_eq!(to_argb(0), 0x00000000);
    assert_eq!(to_argb(0xFF), 0x00FFFFFF);
    assert_eq!(to_argb(0x12), 0x00121212);
}

#[test]
fn simple_buffer_is_row_major() {
    let matrix = vec![vec![1u32, 2, 3], vec![4, 5, 6]];
    let buffer = matrix2buffer_simple(&matrix);
    assert_eq!(buffer.len(), 6);
    assert_eq!(
        buffer,
        vec![
            to_argb(1),
            to_argb(2),
            to_argb(3),
            to_argb(4),
            to_argb(5),
            to_argb(6),
        ]
    );
}

#[test]
fn simple_buffer_single_cell() {
    let matrix = vec![vec![200u32]];
    let buffer = matrix2buffer_simple(&matrix);
    assert_eq!(buffer, vec![to_argb(200)]);
}

#[test]
fn color_buffer_scales_blocks() {
    let matrix = vec![vec![0u32, 1], vec![2, 3]];
    let colors = vec![0x00FFFFFF, 0x00FF0000, 0x0000FF00, 0x000000FF];
    let xscale = 2;
    let yscale = 3;
    let buffer = matrix2buffer_color(&matrix, &colors, xscale, yscale);
    let window_width = 2 * xscale;
    let window_height = 2 * yscale;
    assert_eq!(buffer.len(), window_width * window_height);
    for py in 0..window_height {
        for px in 0..window_width {
            let expected = colors[matrix[py / yscale][px / xscale] as usize];
            assert_eq!(buffer[py * window_width + px], expected);
        }
    }
}

#[test]
fn color_buffer_unit_scale_picks_palette() {
    let matrix = vec![vec![3u32, 0]];
    let colors = vec![10u32, 11, 12, 13];
    let buffer = matrix2buffer_color(&matrix, &colors, 1, 1);
    assert_eq!(buffer, vec![13, 10]);
}
