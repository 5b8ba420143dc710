use tui_apps::layout::{centered_rect, middle, shares_around, Rect};

fn rect(x: u16, y: u16, width: u16, height: u16) -> Rect {
    Rect { x, y, width, height }
}

fn encloses(outer: Rect, inner: Rect) -> bool {
    outer.x <= inner.x
        && inner.x as u32 + inner.width as u32 <= outer.x as u32 + outer.width as u32
        && outer.y <= inner.y
        && inner.y as u32 + inner.height as u32 <= outer.y as u32 + outer.height as u32
}

fn line(start: u16, length: u16, percent: u32) -> u16 {
    let reach = (start as u32 + length as u32).min(u16::MAX as u32) - start as u32;
    (start as u32 + (reach * percent + 50) / 100) as u16
}

fn expected(percent_x: u16, percent_y: u16, outer: Rect) -> Rect {
    let margin_x = (100 - percent_x as u32) / 2;
    let margin_y = (100 - percent_y as u32) / 2;
    let left = line(outer.x, outer.width, margin_x);
    let right = line(outer.x, outer.width, margin_x + percent_x as u32);
    let top = line(outer.y, outer.height, margin_y);
    let bottom = line(outer.y, outer.height, margin_y + percent_y as u32);
    rect(left, top, right - left, bottom - top)
}

#[test]
fn shares_leave_the_rest_in_two_halves() {
    assert_eq!(shares_around(60), [20, 60, 20]);
    assert_eq!(shares_around(50), [25, 50, 25]);
    assert_eq!(shares_around(25), [37, 25, 37]);
    assert_eq!(shares_around(0), [50, 0, 50]);
    assert_eq!(shares_around(99), [0, 99, 0]);
    assert_eq!(shares_around(100), [0, 100, 0]);
}

#[test]
fn middle_picks_the_second_part() {
    let parts = vec![rect(0, 0, 1, 1), rect(1, 0, 2, 1), rect(3, 0, 1, 1)];
    assert_eq!(middle(&parts), rect(1, 0, 2, 1));
}

#[test]
fn centered_rect_takes_the_middle_half() {
    assert_eq!(centered_rect(50, 50, rect(0, 0, 100, 100)), rect(25, 25, 50, 50));
    assert_eq!(centered_rect(50, 50, rect(10, 20, 100, 40)), rect(35, 30, 50, 20));
}

#[test]
fn centered_rect_splits_each_axis_by_its_own_percentage() {
    assert_eq!(centered_rect(60, 20, rect(0, 0, 100, 50)), rect(20, 20, 60, 10));
    assert_eq!(centered_rect(20, 60, rect(0, 0, 100, 50)), rect(40, 10, 20, 30));
}

#[test]
fn centered_rect_of_everything_is_the_whole() {
    assert_eq!(centered_rect(100, 100, rect(3, 4, 80, 24)), rect(3, 4, 80, 24));
}

#[test]
fn centered_rect_stays_inside() {
    let outers = [
        rect(0, 0, 80, 24),
        rect(5, 7, 33, 11),
        rect(0, 0, 1, 1),
        rect(9, 9, 0, 0),
        rect(65000, 65000, 535, 535),
    ];
    for outer in outers {
        for percent_x in [0u16, 1, 33, 50, 99, 100] {
            for percent_y in [0u16, 10, 50, 77, 100] {
                let inner = centered_rect(percent_x, percent_y, outer);
                assert!(encloses(outer, inner));
            }
        }
    }
}

#[test]
fn centered_rect_of_nothing_is_empty() {
    assert_eq!(centered_rect(0, 50, rect(0, 0, 100, 100)), rect(50, 25, 0, 50));
    assert_eq!(centered_rect(50, 0, rect(0, 0, 100, 100)), rect(25, 50, 50, 0));
    assert_eq!(centered_rect(0, 0, rect(2, 6, 10, 20)), rect(7, 16, 0, 0));
}

#[test]
fn centered_rect_rounds_each_line_to_the_nearest_cell() {
    assert_eq!(centered_rect(60, 25, rect(0, 0, 80, 24)), rect(16, 9, 48, 6));
    assert_eq!(centered_rect(33, 77, rect(5, 7, 33, 11)), rect(16, 8, 11, 9));
    assert_eq!(centered_rect(50, 50, rect(0, 0, 10, 10)), rect(3, 3, 5, 5));
    assert_eq!(centered_rect(50, 50, rect(0, 0, 1, 1)), rect(0, 0, 1, 1));
    assert_eq!(centered_rect(99, 99, rect(0, 0, 200, 200)), rect(0, 0, 198, 198));
}

#[test]
fn centered_rect_is_where_the_shares_put_it() {
    let outers = [
        rect(0, 0, 80, 24),
        rect(0, 0, 100, 100),
        rect(5, 7, 33, 11),
        rect(1, 1, 1, 1),
        rect(9, 9, 0, 0),
        rect(0, 0, 65535, 65535),
        rect(65000, 65000, 535, 535),
        rect(65000, 64000, 1000, 60000),
        rect(12, 34, 177, 51),
    ];
    for outer in outers {
        for percent in 0u16..=100 {
            let other = (percent * 37 + 11) % 101;
            assert_eq!(centered_rect(percent, other, outer), expected(percent, other, outer));
            assert_eq!(centered_rect(other, percent, outer), expected(other, percent, outer));
        }
    }
}
