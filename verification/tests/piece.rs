use search_and_destroy_chess_2::color::Color;
use search_and_destroy_chess_2::piece;
use search_and_destroy_chess_2::piece::Piece;
use search_and_destroy_chess_2::piece_type::PieceType;

#[test]
fn create_a2_pawn() {
    let piece = Piece { color: Color::White, piece_type: PieceType::Pawn };
    assert_eq!(piece.color, Color::White);
    assert_eq!(piece.piece_type, PieceType::Pawn);
}

#[test]
fn create_white_starting_pawns() {
    let pieces = piece::create_white_starting_pawns();
    assert_eq!(pieces.len(), 8);
}

#[test]
fn create_black_starting_pawns() {
    let pieces = piece::create_black_starting_pawns();
    assert_eq!(pieces.len(), 8);
}

#[test]
fn create_black_rook() {
    let piece = piece::create_black_rook();
    assert_eq!(piece.color, Color::Black);
    assert_eq!(piece.piece_type, PieceType::Rook);
}

#[test]
fn create_white_rook() {
    let piece = piece::create_white_rook();
    assert_eq!(piece.color, Color::White);
    assert_eq!(piece.piece_type, PieceType::Rook);
}

#[test]
fn starting_pawns_are_pawns_of_their_colour() {
    for pawn in piece::create_white_starting_pawns() {
        assert_eq!(pawn, Piece { color: Color::White, piece_type: PieceType::Pawn });
    }
    for pawn in piece::create_black_starting_pawns() {
        assert_eq!(pawn, Piece { color: Color::Black, piece_type: PieceType::Pawn });
    }
}

#[test]
fn every_piece_is_created_with_its_colour_and_type() {
    let created = vec![
        (piece::create_black_bishop(), Color::Black, PieceType::Bishop),
        (piece::create_black_king(), Color::Black, PieceType::King),
        (piece::create_black_knight(), Color::Black, PieceType::Knight),
        (piece::create_black_pawn(), Color::Black, PieceType::Pawn),
        (piece::create_black_queen(), Color::Black, PieceType::Queen),
        (piece::create_black_rook(), Color::Black, PieceType::Rook),
        (piece::create_white_bishop(), Color::White, PieceType::Bishop),
        (piece::create_white_king(), Color::White, PieceType::King),
        (piece::create_white_knight(), Color::White, PieceType::Knight),
        (piece::create_white_pawn(), Color::White, PieceType::Pawn),
        (piece::create_white_queen(), Color::White, PieceType::Queen),
        (piece::create_white_rook(), Color::White, PieceType::Rook),
    ];
    for (piece, color, piece_type) in created {
        assert_eq!(piece.get_color(), color);
        assert_eq!(piece.get_type(), piece_type);
    }
}

#[test]
fn a_cloned_piece_equals_the_piece() {
    let piece = piece::create_black_bishop();
    let piece_again = piece.clone();
    assert_eq!(piece, piece_again);
    assert_ne!(piece, piece::create_white_bishop());
    assert_ne!(piece, piece::create_black_king());
}
