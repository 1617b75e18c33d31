use search_and_destroy_chess_2::color::{to_str, Color};

#[test]
fn black_to_str() {
    let str = to_str(Color::Black);
    assert_eq!(str, String::from("Black"));
}

#[test]
fn white_to_str() {
    let str = to_str(Color::White);
    assert_eq!(str, String::from("White"));
}

#[test]
fn color_is_copied_and_compared() {
    let color = Color::Black;
    let copy = color;
    assert_eq!(color, copy);
    assert_ne!(Color::Black, Color::White);
}
