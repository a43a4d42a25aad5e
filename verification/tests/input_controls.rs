use render_to_texture::input::{
    camera_follow_offset, camera_pan_delta, camera_zoom_delta, cube_move_delta,
};

#[test]
fn cube_moves_on_numpad_keys() {
    assert_eq!(cube_move_delta('6'), (1, 0));
    assert_eq!(cube_move_delta('4'), (-1, 0));
    assert_eq!(cube_move_delta('2'), (0, 1));
    assert_eq!(cube_move_delta('8'), (0, -1));
    assert_eq!(cube_move_delta('x'), (0, 0));
}

#[test]
fn camera_pans_on_letter_keys() {
    assert_eq!(camera_pan_delta('d'), (1, 0));
    assert_eq!(camera_pan_delta('a'), (-1, 0));
    assert_eq!(camera_pan_delta('s'), (0, 1));
    assert_eq!(camera_pan_delta('w'), (0, -1));
    assert_eq!(camera_pan_delta('6'), (0, 0));
}

#[test]
fn camera_zooms_by_two_units() {
    assert_eq!(camera_zoom_delta('k'), 2);
    assert_eq!(camera_zoom_delta('j'), -2);
    assert_eq!(camera_zoom_delta('a'), 0);
}

#[test]
fn camera_follow_offset_is_twelve() {
    assert_eq!(camera_follow_offset(), 12);
}
