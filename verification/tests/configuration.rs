use snake::config::{parse_u32, Config};
use snake::game::{config_playable, SnakeGame};
use snake::geometry::Color;

fn args(list: &[&str]) -> Vec<String> {
    list.iter().map(|s| s.to_string()).collect()
}

#[test]
fn parse_u32_reads_decimal_numbers() {
    assert_eq!(parse_u32("0"), Some(0));
    assert_eq!(parse_u32("400"), Some(400));
    assert_eq!(parse_u32("007"), Some(7));
    assert_eq!(parse_u32("4294967295"), Some(4294967295));
}

#[test]
fn parse_u32_accepts_one_leading_plus() {
    assert_eq!(parse_u32("+400"), Some(400));
    assert_eq!(parse_u32("+0"), Some(0));
    assert_eq!(parse_u32("+4294967295"), Some(4294967295));
    assert_eq!(parse_u32("+"), None);
    assert_eq!(parse_u32("++4"), None);
    assert_eq!(parse_u32("4+0"), None);
}

#[test]
fn parse_u32_rejects_bad_input() {
    assert_eq!(parse_u32(""), None);
    assert_eq!(parse_u32("12a"), None);
    assert_eq!(parse_u32("-4"), None);
    assert_eq!(parse_u32(" 4"), None);
    assert_eq!(parse_u32("4294967296"), None);
    assert_eq!(parse_u32("99999999999999999999"), None);
}

#[test]
fn config_comes_from_the_window_arguments() {
    let config = Config::new(&args(&["snake", "800", "600"])).unwrap();
    assert_eq!(config.window_width, 800);
    assert_eq!(config.window_height, 600);
    assert_eq!(config.entity_size, 40);
    assert_eq!(config.fps, 10);
    assert_eq!(config.text_size, 50);
    assert_eq!(config.snake_color, Color { r: 0, g: 255, b: 0, a: 255 });
    assert_eq!(config.food_color, Color { r: 255, g: 0, b: 0, a: 255 });
    assert_eq!(config.back_color, Color { r: 122, g: 122, b: 122, a: 255 });
}

#[test]
fn missing_arguments_are_reported() {
    let err = Config::new(&args(&["snake"])).unwrap_err();
    assert_eq!(err, "Invalid number of arguments: <width> <height>");
    let err = Config::new(&args(&["snake", "800"])).unwrap_err();
    assert_eq!(err, "Invalid number of arguments: <width> <height>");
}

#[test]
fn non_numeric_arguments_are_reported() {
    let err = Config::new(&args(&["snake", "eight", "600"])).unwrap_err();
    assert_eq!(err, "The window width must be a u32");
    let err = Config::new(&args(&["snake", "800", "6oo"])).unwrap_err();
    assert_eq!(err, "The window height must be a u32");
}

#[test]
fn window_is_rounded_down_to_whole_cells() {
    let config = Config::new(&args(&["snake", "799", "639"])).unwrap();
    let (w, h) = SnakeGame::window_size(&config);
    assert_eq!(w, 760);
    assert_eq!(h, 600);
}

#[test]
fn playability_needs_room_for_the_viewport() {
    let ok = Config::new(&args(&["snake", "400", "400"])).unwrap();
    assert!(config_playable(&ok));
    // a window under three cells wide leaves no viewport
    let narrow = Config::new(&args(&["snake", "80", "400"])).unwrap();
    assert!(!config_playable(&narrow));
    let short = Config::new(&args(&["snake", "400", "120"])).unwrap();
    assert!(!config_playable(&short));
}

#[test]
fn new_game_starts_paused_with_a_clear_food_cell() {
    let config = Config::new(&args(&["snake", "400", "400"])).unwrap();
    let game = SnakeGame::new(&config);
    assert_eq!(game.score, 0);
    assert_eq!(game.state, snake::game::State::Pause);
    assert_eq!(game.viewport.left, 40);
    assert_eq!(game.viewport.top, 80);
    assert_eq!(game.viewport.width, 320);
    assert_eq!(game.viewport.height, 280);
    assert_eq!(game.player.segments.len(), 1);
    let head = game.player.head_position();
    assert_eq!((head.x - 40) % 40, 0);
    assert_eq!((head.y - 80) % 40, 0);
    assert!(head.x >= 40 && head.x < 360);
    assert!(head.y >= 80 && head.y < 360);
    // the food starts on a free, aligned grid cell
    let food = game.food.position;
    assert_eq!((food.x - 40) % 40, 0);
    assert_eq!((food.y - 80) % 40, 0);
    assert!(!game.player.collision(&game.food.area(), 0));
}
