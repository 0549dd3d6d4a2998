use gdiplus::brush::SolidBrush;
use gdiplus::enums::SmoothingMode;
use gdiplus::enums::Status;
use gdiplus::graphics::Graphics;
use gdiplus::pen::Pen;
use gdiplus::types::Point;
use gdiplus::types::RectF;
use gdiplus::Error;

fn pt(x: f32, y: f32) -> Point {
    (x.to_bits(), y.to_bits())
}

fn context(handle: usize) -> Graphics {
    Graphics::from_hdc(0, handle).unwrap()
}

fn pen(handle: usize) -> Pen {
    Pen::new(0, handle).unwrap()
}

fn brush(handle: usize) -> SolidBrush {
    SolidBrush::new(0, handle).unwrap()
}

#[test]
fn context_is_constructed_on_success_status() {
    let g = context(11);
    assert_eq!(g.graphics(), 11);
}

#[test]
fn context_is_not_constructed_on_rejected_surface() {
    match Graphics::from_hdc(2, 0) {
        Err(Error::Status(Status::InvalidParameter)) => (),
        _ => panic!("a rejected surface handle should yield the invalid-parameter status"),
    }
}

#[test]
fn pen_and_brush_follow_their_create_status() {
    assert_eq!(pen(21).pen(), 21);
    assert_eq!(brush(31).brush(), 31);
    match Pen::new(3, 0) {
        Err(Error::Status(Status::OutOfMemory)) => (),
        _ => panic!("a failed pen create should yield the translated status"),
    }
    match SolidBrush::new(99, 0) {
        Err(Error::Code(99)) => (),
        _ => panic!("a failed brush create should carry an unknown code raw"),
    }
}

#[test]
fn set_smoothing_mode_follows_the_reported_status() {
    let mut g = context(11);
    assert!(g.set_smoothing_mode(SmoothingMode::AntiAlias, 0).is_ok());
    match g.set_smoothing_mode(SmoothingMode::HighQuality, 1) {
        Err(Error::Status(Status::GenericError)) => (),
        _ => panic!("a failed mode switch should yield the translated status"),
    }
}

#[test]
fn pen_session_starts_at_the_origin() {
    let mut g = context(11);
    let mut p = pen(21);
    let s = g.with_pen(&mut p);
    assert_eq!(s.current_pos(), pt(0.0, 0.0));
    assert_eq!(s.graphics(), 11);
    assert_eq!(s.pen(), 21);
}

#[test]
fn move_to_always_updates_the_position() {
    let mut g = context(11);
    let mut p = pen(21);
    let mut s = g.with_pen(&mut p);
    s.move_to(pt(3.5, -1.25));
    assert_eq!(s.current_pos(), pt(3.5, -1.25));
    s.move_to(pt(0.0, 7.0));
    assert_eq!(s.current_pos(), pt(0.0, 7.0));
}

#[test]
fn line_to_updates_the_position_only_on_success() {
    let mut g = context(11);
    let mut p = pen(21);
    let mut s = g.with_pen(&mut p);
    s.move_to(pt(1.0, 1.0));
    assert!(s.line_to(pt(5.0, 6.0), 0).is_ok());
    assert_eq!(s.current_pos(), pt(5.0, 6.0));
    match s.line_to(pt(9.0, 9.0), 2) {
        Err(Error::Status(Status::InvalidParameter)) => (),
        _ => panic!("a failed draw should yield the translated status"),
    }
    assert_eq!(s.current_pos(), pt(5.0, 6.0));
}

#[test]
fn draw_line_leaves_the_position_alone() {
    let mut g = context(11);
    let mut p = pen(21);
    let mut s = g.with_pen(&mut p);
    s.move_to(pt(2.0, 2.0));
    assert!(s.draw_line(pt(0.0, 0.0), pt(4.0, 4.0), 0).is_ok());
    assert_eq!(s.current_pos(), pt(2.0, 2.0));
    assert!(s.draw_line(pt(0.0, 0.0), pt(4.0, 4.0), 7).is_err());
    assert_eq!(s.current_pos(), pt(2.0, 2.0));
}

#[test]
fn modify_propagates_the_capability_result() {
    let mut g = context(11);
    let mut p = pen(21);
    let mut s = g.with_pen(&mut p);
    s.move_to(pt(8.0, 8.0));
    assert!(s.modify(|_pen: &mut Pen| Ok(())).is_ok());
    match s.modify(|_pen: &mut Pen| Err(Error::Status(Status::WrongState))) {
        Err(Error::Status(Status::WrongState)) => (),
        _ => panic!("the capability's failure should come back unchanged"),
    }
    assert_eq!(s.current_pos(), pt(8.0, 8.0));
}

#[test]
fn replace_rebinds_the_session_pen() {
    let mut g = context(11);
    let mut p1 = pen(21);
    let mut p2 = pen(22);
    let mut s = g.with_pen(&mut p1);
    s.move_to(pt(1.0, 2.0));
    s.replace(&mut p2);
    assert_eq!(s.pen(), 22);
    assert_eq!(s.current_pos(), pt(1.0, 2.0));
}

#[test]
fn chained_draw_scenario_tracks_the_position() {
    let mut g = context(11);
    assert!(g.set_smoothing_mode(SmoothingMode::AntiAlias, 0).is_ok());
    let mut p = pen(21);
    let mut s = g.with_pen(&mut p);
    assert_eq!(s.current_pos(), pt(0.0, 0.0));
    let chained = s.move_to(pt(0.0, 0.0)).line_to(pt(10.0, 10.0), 0);
    assert!(chained.is_ok());
    assert_eq!(s.current_pos(), pt(10.0, 10.0));
}

#[test]
fn brush_session_reaches_both_handles() {
    let mut g = context(11);
    let mut b = brush(31);
    let s = g.with_brush(&mut b);
    assert_eq!(s.graphics(), 11);
    assert_eq!(s.brush(), 31);
}

#[test]
fn fill_rectangle_follows_the_reported_status() {
    let mut g = context(11);
    let mut b = brush(31);
    let mut s = g.with_brush(&mut b);
    assert!(s.fill_rectangle(pt(1.0, 2.0), 3.0f32.to_bits(), 4.0f32.to_bits(), 0).is_ok());
    match s.fill_rectangle(pt(1.0, 2.0), 3.0f32.to_bits(), 4.0f32.to_bits(), 8) {
        Err(Error::Status(Status::WrongState)) => (),
        _ => panic!("a failed fill should yield the translated status"),
    }
}

#[test]
fn fill_rectangles_accepts_an_empty_batch() {
    let mut g = context(11);
    let mut b = brush(31);
    let mut s = g.with_brush(&mut b);
    let rects: Vec<RectF> = vec![];
    assert!(s.fill_rectangles(rects, 0).is_ok());
}

#[test]
fn fill_rectangles_fails_atomically_with_the_translated_status() {
    let mut g = context(11);
    let mut b = brush(31);
    let mut s = g.with_brush(&mut b);
    let rects = vec![
        RectF { x: 1.0f32.to_bits(), y: 2.0f32.to_bits(), width: 3.0f32.to_bits(), height: 4.0f32.to_bits() },
        RectF { x: 5.0f32.to_bits(), y: 6.0f32.to_bits(), width: 7.0f32.to_bits(), height: 8.0f32.to_bits() },
    ];
    assert!(s.fill_rectangles(rects.clone(), 0).is_ok());
    match s.fill_rectangles(rects, 4) {
        Err(Error::Status(Status::ObjectBusy)) => (),
        _ => panic!("a failed batch fill should yield the translated status"),
    }
}

#[test]
fn brush_modify_and_replace_work_like_the_pen_session() {
    let mut g = context(11);
    let mut b1 = brush(31);
    let mut b2 = brush(32);
    let mut s = g.with_brush(&mut b1);
    assert!(s.modify(|_brush: &mut SolidBrush| Ok(())).is_ok());
    match s.modify(|_brush: &mut SolidBrush| Err(Error::Code(500))) {
        Err(Error::Code(500)) => (),
        _ => panic!("the capability's failure should come back unchanged"),
    }
    s.replace(&mut b2);
    assert_eq!(s.brush(), 32);
}
