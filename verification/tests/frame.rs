use squiggly_lines::frame::draw_order;
use squiggly_lines::frame::stacked_frame;
use squiggly_lines::frame::DrawStep;
use squiggly_lines::grid::LINES;
use squiggly_lines::grid::SAMPLES;
use squiggly_lines::line::stacked_line;
use squiggly_lines::window::Window;

fn swell() -> [i32; SAMPLES] {
    let mut sines = [0i32; SAMPLES];
    for i in 0..SAMPLES {
        sines[i] = 1_000_000 - ((i as i32) - 250).abs() * 4000;
    }
    sines
}

fn weather() -> [[i32; SAMPLES]; LINES] {
    let mut noises = [[0i32; SAMPLES]; LINES];
    for line in 0..LINES {
        for i in 0..SAMPLES {
            noises[line][i] = ((i * 7919 + line * 104_729) % 1_400_000) as i32 - 200_000;
        }
    }
    noises
}

#[test]
fn draw_order_clears_first_and_presents_last() {
    let steps = draw_order();
    assert_eq!(steps.len(), 42);
    assert_eq!(steps[0], DrawStep::Clear);
    assert_eq!(steps[41], DrawStep::Present);
    let clears = steps.iter().filter(|s| **s == DrawStep::Clear).count();
    let presents = steps.iter().filter(|s| **s == DrawStep::Present).count();
    assert_eq!(clears, 1);
    assert_eq!(presents, 1);
}

#[test]
fn draw_order_fills_each_line_and_then_strokes_it() {
    let steps = draw_order();
    for line in 0..LINES {
        assert_eq!(steps[2 * line + 1], DrawStep::Fill(line));
        assert_eq!(steps[2 * line + 2], DrawStep::Stroke(line));
    }
}

#[test]
fn draw_order_starts_with_the_top_line() {
    let steps = draw_order();
    assert_eq!(steps[1], DrawStep::Fill(0));
    assert_eq!(steps[2], DrawStep::Stroke(0));
    assert_eq!(steps[3], DrawStep::Fill(1));
    assert_eq!(steps[39], DrawStep::Fill(19));
    assert_eq!(steps[40], DrawStep::Stroke(19));
}

#[test]
fn stacked_frame_has_twenty_lines_of_five_hundred_points() {
    let win = Window { left: -512, right: 512, bottom: -384, top: 384 };
    let lines = stacked_frame(&swell(), &weather(), 150_000, &win);
    assert_eq!(lines.len(), 20);
    for points in &lines {
        assert_eq!(points.len(), 500);
    }
}

#[test]
fn stacked_frame_generates_each_line_from_its_row() {
    let sines = swell();
    let noises = weather();
    let win = Window { left: -51_200, right: 51_200, bottom: -38_400, top: 38_400 };
    let lines = stacked_frame(&sines, &noises, 400_000, &win);
    for line in 0..LINES {
        assert_eq!(lines[line], stacked_line(&sines, &noises[line], line, 400_000, &win));
    }
}

#[test]
fn stacked_frame_with_no_height_is_a_ladder_of_flat_lines() {
    let win = Window { left: -1000, right: 1000, bottom: -1000, top: 1000 };
    let lines = stacked_frame(&swell(), &weather(), 0, &win);
    for line in 0..LINES {
        for point in &lines[line] {
            assert_eq!(point.y, 1000 - (line as i32) * 100);
        }
    }
}

#[test]
fn stacked_frame_lines_never_sink_below_their_resting_place() {
    let win = Window { left: -1000, right: 1000, bottom: -1000, top: 1000 };
    let lines = stacked_frame(&swell(), &weather(), 300_000, &win);
    for line in 0..LINES {
        let rest = 1000 - (line as i32) * 100;
        for point in &lines[line] {
            assert!(rest <= point.y);
            assert!(point.y <= rest + 300);
        }
    }
}
