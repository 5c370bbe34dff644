use polished_boot::drawing::{draw_bresenham, framebuffer_x_demo, PixelBuffer, WHITE_PIXEL};

fn grid(width: usize, height: usize, stride: usize) -> PixelBuffer {
    PixelBuffer { pixels: vec![0u32; stride * height], width, height, stride }
}

fn pixel(fb: &PixelBuffer, x: usize, y: usize) -> u32 {
    fb.pixels[y * fb.stride + x]
}

#[test]
fn test_bresenham_horizontal_line() {
    let mut fb = grid(5, 3, 6);
    draw_bresenham(0, 1, 4, 1, &mut fb);
    for x in 0..5 {
        assert_eq!(pixel(&fb, x, 1), WHITE_PIXEL);
    }
    for x in 0..5 {
        assert_eq!(pixel(&fb, x, 0), 0);
        assert_eq!(pixel(&fb, x, 2), 0);
    }
}

#[test]
fn test_bresenham_diagonal() {
    let mut fb = grid(3, 3, 3);
    draw_bresenham(0, 0, 2, 2, &mut fb);
    assert_eq!(pixel(&fb, 0, 0), WHITE_PIXEL);
    assert_eq!(pixel(&fb, 1, 1), WHITE_PIXEL);
    assert_eq!(pixel(&fb, 2, 2), WHITE_PIXEL);
    assert_eq!(pixel(&fb, 2, 0), 0);
    assert_eq!(pixel(&fb, 0, 2), 0);
}

#[test]
fn test_bresenham_single_point() {
    let mut fb = grid(3, 3, 3);
    draw_bresenham(1, 1, 1, 1, &mut fb);
    assert_eq!(pixel(&fb, 1, 1), WHITE_PIXEL);
    assert_eq!(fb.pixels.iter().filter(|&&p| p == WHITE_PIXEL).count(), 1);
}

#[test]
fn test_bresenham_endpoints_off_grid_are_clipped() {
    let mut fb = grid(2, 2, 2);
    draw_bresenham(0, 0, 5, 0, &mut fb);
    assert_eq!(pixel(&fb, 0, 0), WHITE_PIXEL);
    assert_eq!(pixel(&fb, 1, 0), WHITE_PIXEL);
    assert_eq!(pixel(&fb, 0, 1), 0);
    assert_eq!(pixel(&fb, 1, 1), 0);
}

#[test]
fn test_x_demo_marks_corners() {
    let mut fb = grid(3, 3, 4);
    framebuffer_x_demo(&mut fb);
    assert_eq!(pixel(&fb, 0, 0), WHITE_PIXEL);
    assert_eq!(pixel(&fb, 2, 0), WHITE_PIXEL);
    assert_eq!(pixel(&fb, 0, 2), WHITE_PIXEL);
    assert_eq!(pixel(&fb, 2, 2), WHITE_PIXEL);
    assert_eq!(pixel(&fb, 1, 1), WHITE_PIXEL);
    // Padding cells beyond the visible width stay untouched.
    for y in 0..3 {
        assert_eq!(fb.pixels[y * 4 + 3], 0);
    }
}
