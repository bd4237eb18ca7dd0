use squiggly_lines::fixed::UNIT;
use squiggly_lines::window::Point;
use squiggly_lines::window::Window;

#[test]
fn to_window_hits_the_edges_exactly() {
    let windows = [
        Window { left: -512, right: 512, bottom: -384, top: 384 },
        Window { left: 0, right: 1, bottom: 0, top: 1 },
        Window { left: 5, right: 5, bottom: 5, top: 5 },
        Window { left: 7, right: -9, bottom: 24_576, top: -24_576 },
        Window { left: i32::MIN, right: i32::MAX, bottom: i32::MAX, top: i32::MIN },
    ];
    for win in windows {
        let low = win.to_window(-UNIT, -UNIT);
        assert_eq!(low, Point { x: win.left, y: win.bottom });
        let high = win.to_window(UNIT, UNIT);
        assert_eq!(high, Point { x: win.right, y: win.top });
    }
}

#[test]
fn to_window_maps_along_a_straight_line() {
    let win = Window { left: -400, right: 400, bottom: -300, top: 300 };
    assert_eq!(win.to_window(0, 0), Point { x: 0, y: 0 });
    assert_eq!(win.to_window(500_000, 479_426), Point { x: 200, y: 143 });
    assert_eq!(win.to_window(3_000_000, -3_000_000), Point { x: 1200, y: -900 });
    let odd = Window { left: -3, right: 4, bottom: 7, top: -9 };
    assert_eq!(odd.to_window(0, 0), Point { x: 0, y: -1 });
}

#[test]
fn to_window_keeps_left_of_right_and_below_of_above() {
    let win = Window { left: -400, right: 400, bottom: -300, top: 300 };
    let mut previous = win.to_window(-2 * UNIT, -2 * UNIT);
    for step in -199..=200 {
        let next = win.to_window(step * 10_000, step * 10_000);
        assert!(previous.x <= next.x);
        assert!(previous.y <= next.y);
        previous = next;
    }
}

#[test]
fn to_window_saturates() {
    let win = Window { left: i32::MIN, right: i32::MAX, bottom: 0, top: i32::MAX };
    assert_eq!(win.to_window(i32::MAX, i32::MAX), Point { x: i32::MAX, y: i32::MAX });
    assert_eq!(win.to_window(i32::MIN, 0), Point { x: i32::MIN, y: 1_073_741_823 });
}
