use smiley::Cmd;
use smiley::apply_resize;
use smiley::decimal_string;
use smiley::decimal_string_u32;
use smiley::draw_commands;
use smiley::handle_view_change;
use smiley::sized_to;

fn expected_commands() -> Vec<Cmd> {
    vec![
        Cmd::BeginPath,
        Cmd::Arc { cx: 75, cy: 75, radius: 50, start_half_turns: 0, end_half_turns: 2 },
        Cmd::MoveTo { x: 110, y: 75 },
        Cmd::Arc { cx: 75, cy: 75, radius: 35, start_half_turns: 0, end_half_turns: 1 },
        Cmd::MoveTo { x: 65, y: 65 },
        Cmd::Arc { cx: 60, cy: 65, radius: 5, start_half_turns: 0, end_half_turns: 2 },
        Cmd::MoveTo { x: 95, y: 65 },
        Cmd::Arc { cx: 90, cy: 65, radius: 5, start_half_turns: 0, end_half_turns: 2 },
        Cmd::Stroke,
    ]
}

#[test]
fn draw_commands_are_the_smiley() {
    assert_eq!(draw_commands(), expected_commands());
}

#[test]
fn draw_issues_four_arcs_and_one_stroke() {
    let cmds = draw_commands();
    let arcs = cmds.iter().filter(|c| matches!(c, Cmd::Arc { .. })).count();
    let strokes = cmds.iter().filter(|c| matches!(c, Cmd::Stroke)).count();
    assert_eq!(arcs, 4);
    assert_eq!(strokes, 1);
}

#[test]
fn draw_twice_gives_identical_path() {
    assert_eq!(draw_commands(), draw_commands());
}

#[test]
fn drawing_is_size_invariant() {
    let small = handle_view_change(1, 1);
    let large = handle_view_change(1920, 1080);
    assert_eq!(small.commands, large.commands);
    assert_eq!(small.commands, expected_commands());
}

#[test]
fn decimal_small_values() {
    assert_eq!(decimal_string(0), "0");
    assert_eq!(decimal_string(7), "7");
    assert_eq!(decimal_string(10), "10");
    assert_eq!(decimal_string(600), "600");
}

#[test]
fn decimal_negative_values() {
    assert_eq!(decimal_string(-1), "-1");
    assert_eq!(decimal_string(-120), "-120");
}

#[test]
fn decimal_extremes() {
    assert_eq!(decimal_string(i32::MAX), "2147483647");
    assert_eq!(decimal_string(i32::MIN), "-2147483648");
}

#[test]
fn decimal_unsigned() {
    assert_eq!(decimal_string_u32(0), "0");
    assert_eq!(decimal_string_u32(42), "42");
    assert_eq!(decimal_string_u32(u32::MAX), "4294967295");
}

#[test]
fn load_sizes_canvas_to_body() {
    let attrs = sized_to(800, 600);
    assert_eq!(attrs.width, "800");
    assert_eq!(attrs.height, "600");
}

#[test]
fn resize_updates_attributes() {
    let mut attrs = sized_to(800, 600);
    apply_resize(&mut attrs, 400, 300);
    assert_eq!(attrs.width, "400");
    assert_eq!(attrs.height, "300");
}

#[test]
fn load_scenario_800_by_600() {
    let act = handle_view_change(800, 600);
    assert_eq!(act.attrs.width, "800");
    assert_eq!(act.attrs.height, "600");
    assert_eq!(act.commands, expected_commands());
}

#[test]
fn resize_scenario_400_by_300() {
    let first = handle_view_change(800, 600);
    let second = handle_view_change(400, 300);
    assert_eq!(second.attrs.width, "400");
    assert_eq!(second.attrs.height, "300");
    assert_eq!(second.commands, first.commands);
}
