use rustnake::render::{
    build_highlight_row_ansi, menu_option_line_text, rect_union, selected_option_style,
    MenuRegionCache, Rect,
};

#[test]
fn menu_menu_option_line_text_snapshot() {
    let line = menu_option_line_text(0, "Play", 0, 10);
    assert_eq!(line, "> [1] Play      ");
}

#[test]
fn menu_selected_row_ansi_snapshot() {
    let ansi = build_highlight_row_ansi(7, 12, 16, selected_option_style(false), "> [1] Play");
    assert_eq!(
        ansi,
        "\x1b[1;38;2;255;255;255;48;2;89;138;207m\x1b[7;12H                \x1b[0m\x1b[1;38;2;255;255;255;48;2;89;138;207m\x1b[7;12H> [1] Play\x1b[0m"
    );
}

#[test]
fn menu_danger_row_ansi_snapshot() {
    let ansi = build_highlight_row_ansi(5, 3, 14, selected_option_style(true), "> [5] Reset");
    assert_eq!(
        ansi,
        "\x1b[1;97;41m\x1b[5;3H              \x1b[0m\x1b[1;97;41m\x1b[5;3H> [5] Reset\x1b[0m"
    );
}

#[test]
fn transition_sequence_game_menu_high_scores_menu_uses_union() {
    let mut cache = MenuRegionCache::new();
    cache.invalidate();

    let main_region = Rect {
        start_x: 40,
        end_x: 90,
        start_y: 6,
        end_y: 24,
    };
    let high_scores_region = Rect {
        start_x: 20,
        end_x: 110,
        start_y: 5,
        end_y: 25,
    };

    let first = cache.claim_redraw_region(main_region);
    assert_eq!(first, main_region);

    let second = cache.claim_redraw_region(high_scores_region);
    assert_eq!(second, rect_union(main_region, high_scores_region));

    let third = cache.claim_redraw_region(main_region);
    assert_eq!(third, rect_union(high_scores_region, main_region));

    cache.invalidate();
}

#[test]
fn mod_menu_option_line_text_snapshot() {
    let line = menu_option_line_text(0, "Play", 0, 10);
    assert_eq!(line, "> [1] Play      ");
}

#[test]
fn mod_selected_row_ansi_snapshot() {
    let ansi = build_highlight_row_ansi(7, 12, 16, selected_option_style(false), "> [1] Play");
    assert_eq!(
        ansi,
        "\x1b[1;38;2;255;255;255;48;2;89;138;207m\x1b[7;12H                \x1b[0m\x1b[1;38;2;255;255;255;48;2;89;138;207m\x1b[7;12H> [1] Play\x1b[0m"
    );
}

#[test]
fn mod_danger_row_ansi_snapshot() {
    let ansi = build_highlight_row_ansi(5, 3, 14, selected_option_style(true), "> [5] Reset");
    assert_eq!(
        ansi,
        "\x1b[1;97;41m\x1b[5;3H              \x1b[0m\x1b[1;97;41m\x1b[5;3H> [5] Reset\x1b[0m"
    );
}
