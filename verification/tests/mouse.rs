use mikan_os::mouse::{mouse_observer, move_relative, report_displacement, Vector2D};

#[test]
fn mouse_report_is_decoded() {
    assert_eq!(report_displacement(&vec![0x01, 0x05, 0xfb]), Some((5, -5)));
    assert_eq!(report_displacement(&vec![0x00, 0x7f, 0x80]), Some((127, -128)));
    assert_eq!(report_displacement(&vec![0x00, 0xff, 0x00, 0x99]), Some((-1, 0)));
    assert_eq!(report_displacement(&vec![0x00, 0x01]), None);
    assert_eq!(report_displacement(&Vec::new()), None);
}

#[test]
fn cursor_moves_by_the_displacement() {
    let start = Vector2D { x: 300, y: 200 };
    assert_eq!(mouse_observer(start, 5, -7), Vector2D { x: 305, y: 193 });
    assert_eq!(mouse_observer(start, -128, 127), Vector2D { x: 172, y: 327 });
    assert_eq!(mouse_observer(start, 0, 0), start);
}

#[test]
fn cursor_position_wraps_at_the_coordinate_range() {
    assert_eq!(
        mouse_observer(Vector2D { x: 0, y: 0xffff_ffff }, -1, 1),
        Vector2D { x: 0xffff_ffff, y: 0 }
    );
    assert_eq!(
        move_relative(Vector2D { x: 10, y: 20 }, Vector2D { x: 0xffff_fffe, y: 3 }),
        Vector2D { x: 8, y: 23 }
    );
}
