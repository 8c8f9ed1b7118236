use raytracing::file::{BufferWriter, FileWriter};
use raytracing::render::{write_row, Reassembler};
use raytracing::structs::Color;

fn row(v: i32, width: usize) -> Vec<Color> {
    let mut r = Vec::new();
    for k in 0..width {
        r.push(Color::new(v, k as i32, 0));
    }
    r
}

#[test]
fn buffer_writer_keeps_arrival_order() {
    let mut w = BufferWriter::new();
    w.write(Color::new(1, 0, 0));
    w.write(Color::new(2, 0, 0));
    w.write(Color::new(3, 0, 0));
    assert_eq!(w.colors, vec![Color::new(1, 0, 0), Color::new(2, 0, 0), Color::new(3, 0, 0)]);
}

#[test]
fn write_row_streams_left_to_right() {
    let mut w = BufferWriter::new();
    write_row(&row(9, 3), &mut w);
    assert_eq!(w.colors, vec![Color::new(9, 0, 0), Color::new(9, 1, 0), Color::new(9, 2, 0)]);
}

#[test]
fn in_order_arrival_is_delivered_immediately() {
    let mut r = Reassembler::new(2, 2);
    let mut w = BufferWriter::new();
    r.submit(0, row(0, 2));
    r.deliver_ready(&mut w);
    assert_eq!(w.colors.len(), 2);
    r.submit(1, row(1, 2));
    r.deliver_ready(&mut w);
    assert_eq!(w.colors.len(), 4);
    assert_eq!(w.colors[0], Color::new(0, 0, 0));
    assert_eq!(w.colors[2], Color::new(1, 0, 0));
}

#[test]
fn reordered_arrival_is_delivered_ascending() {
    // Row 3 arrives before rows 0, 1 and 2; the sink must still see
    // row 0 first, then 1, 2 and 3.
    let mut r = Reassembler::new(1, 4);
    let mut w = BufferWriter::new();
    r.submit(3, row(3, 1));
    r.deliver_ready(&mut w);
    assert_eq!(w.colors.len(), 0);
    r.submit(0, row(0, 1));
    r.deliver_ready(&mut w);
    assert_eq!(w.colors.len(), 1);
    r.submit(2, row(2, 1));
    r.deliver_ready(&mut w);
    assert_eq!(w.colors.len(), 1);
    r.submit(1, row(1, 1));
    r.deliver_ready(&mut w);
    let expected = vec![
        Color::new(0, 0, 0),
        Color::new(1, 0, 0),
        Color::new(2, 0, 0),
        Color::new(3, 0, 0),
    ];
    assert_eq!(w.colors, expected);
}

#[test]
fn delivered_pixel_count_matches_dimensions() {
    let width = 3;
    let height = 5;
    let mut r = Reassembler::new(width, height);
    let mut w = BufferWriter::new();
    for i in (0..height).rev() {
        r.submit(i, row(i as i32, width));
    }
    r.deliver_ready(&mut w);
    assert_eq!(r.next_row, height);
    assert_eq!(w.colors.len(), width * height);
    for i in 0..height {
        for j in 0..width {
            assert_eq!(w.colors[i * width + j], Color::new(i as i32, j as i32, 0));
        }
    }
}

#[test]
fn has_row_tracks_buffered_rows() {
    let mut r = Reassembler::new(1, 3);
    assert!(!r.has_row(0));
    assert!(!r.has_row(2));
    r.submit(2, row(2, 1));
    assert!(r.has_row(2));
    assert!(!r.has_row(0));
}

#[test]
fn delivery_stops_at_first_gap() {
    let mut r = Reassembler::new(2, 3);
    let mut w = BufferWriter::new();
    r.submit(0, row(0, 2));
    r.submit(2, row(2, 2));
    r.deliver_ready(&mut w);
    // Row 1 is still missing: only row 0 may be delivered.
    assert_eq!(r.next_row, 1);
    assert_eq!(w.colors.len(), 2);
}
