use std::cell::{Cell, RefCell};

use ring_window::{draw, pack_color, paint};

/// The concentric rings around the top-left corner, twenty pixels apart.
fn ring_shade(x: u32, y: u32) -> u8 {
    let x = x as f32;
    let y = y as f32;
    let radius = (x * x + y * y).sqrt();
    (((radius * std::f32::consts::TAU / 20.0).cos() / 2.0 + 0.5) * 160.0) as u8
}

#[test]
fn origin_is_pure_ring_color() {
    for (w, h) in [(1u32, 1u32), (4, 2), (640, 480), (u32::MAX, 7)] {
        assert_eq!(draw(0, 0, w, h, &ring_shade), (0, 0, 160));
    }
}

#[test]
fn draw_is_deterministic() {
    let a = draw(17, 9, 40, 30, &ring_shade);
    let b = draw(17, 9, 40, 30, &ring_shade);
    assert_eq!(a, b);
}

#[test]
fn draw_exact_values() {
    // red 255 * 1 / 2, green 120 * 1 / 4, blue from radius sqrt(2)
    assert_eq!(draw(1, 1, 4, 2, &ring_shade), (127, 30, 152));
    // bottom-right pixel of a 4 by 2 frame
    assert_eq!(draw(3, 1, 4, 2, &ring_shade).0, 127);
    assert_eq!(draw(3, 1, 4, 2, &ring_shade).1, 90);
    // half a band out the ring is dark
    assert_eq!(draw(10, 0, 20, 20, &ring_shade), (0, 60, 0));
}

#[test]
fn ramps_truncate() {
    // 255 * 2 / 3 = 170, 120 * 2 / 7 = 34.28...
    assert_eq!(draw(2, 2, 7, 3, &ring_shade).0, 170);
    assert_eq!(draw(2, 2, 7, 3, &ring_shade).1, 34);
    assert_eq!(draw(99, 99, 100, 100, &ring_shade).0, 252);
    assert_eq!(draw(99, 99, 100, 100, &ring_shade).1, 118);
}

#[test]
fn rings_depend_on_radius_only() {
    assert_eq!(draw(3, 4, 10, 10, &ring_shade).2, 79);
    assert_eq!(draw(5, 0, 10, 10, &ring_shade).2, 79);
    assert_eq!(draw(3, 4, 500, 9, &ring_shade).2, 79);
}

#[test]
fn red_never_drops_down_a_column() {
    let mut prev = 0u8;
    for y in 0..37u32 {
        let (r, _, _) = draw(5, y, 11, 37, &ring_shade);
        assert!(r >= prev);
        prev = r;
    }
}

#[test]
fn green_never_drops_along_a_row() {
    let mut prev = 0u8;
    for x in 0..53u32 {
        let (_, g, _) = draw(x, 3, 53, 11, &ring_shade);
        assert!(g >= prev);
        prev = g;
    }
}

#[test]
fn pack_color_layout() {
    assert_eq!(pack_color(0x12, 0x34, 0x56), 0xFF12_3456);
    assert_eq!(pack_color(0, 0, 0), 0xFF00_0000);
    assert_eq!(pack_color(255, 255, 255), 0xFFFF_FFFF);
}

#[test]
fn paint_fills_every_cell_row_major() {
    let (w, h) = (6u32, 3u32);
    let mut buf = vec![0u32; 18];
    paint(&mut buf, w, h, &ring_shade);
    for (i, cell) in buf.iter().enumerate() {
        let x = i as u32 % w;
        let y = i as u32 / w;
        let (r, g, b) = draw(x, y, w, h, &ring_shade);
        assert_eq!(*cell, pack_color(r, g, b));
    }
}

#[test]
fn paint_counts_each_cell_once() {
    let calls = Cell::new(0u32);
    let seen = RefCell::new(vec![0u32; 12]);
    let counting = |x: u32, y: u32| {
        calls.set(calls.get() + 1);
        seen.borrow_mut()[(y * 4 + x) as usize] += 1;
        0u8
    };
    let mut buf = vec![0u32; 12];
    paint(&mut buf, 4, 3, &counting);
    assert_eq!(calls.get(), 12);
    assert!(seen.borrow().iter().all(|&n| n == 1));
}
