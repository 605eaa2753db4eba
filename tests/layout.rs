use rustnake::layout::compute_layout;
use rustnake::utils::Language;

#[test]
fn rejects_too_small_terminal() {
    let result = compute_layout(20, 10, 40, 20, Language::En);
    assert!(result.is_err());
}

#[test]
fn centers_map_on_larger_terminal() {
    let layout = compute_layout(100, 40, 40, 20, Language::En).unwrap();
    assert_eq!(layout.origin_x, 31);
    assert_eq!(layout.origin_y, 8);
    assert_eq!(layout.map_right(), 70);
    assert_eq!(layout.map_bottom(), 27);
}
