use search_and_destroy_chess_2::color::Color;
use search_and_destroy_chess_2::file_index::FileIndex;
use search_and_destroy_chess_2::piece::Piece;
use search_and_destroy_chess_2::piece_type::PieceType;
use search_and_destroy_chess_2::rank::{
    create_pieces_from_rank_index, create_starting_ranks, get_piece, Rank,
};

#[test]
fn rank_create_board() {
    let rank = Rank::new(vec![None; 8]);
    assert_eq!(rank.get().len(), 8);
}

#[test]
fn a_middle_rank_is_empty() {
    let rank = Rank::new(create_pieces_from_rank_index(3));
    let piece = get_piece(&rank, &FileIndex::new(0));
    assert_eq!(piece, None);
    for rank_index in 2..6 {
        assert_eq!(create_pieces_from_rank_index(rank_index), vec![None; 8]);
    }
}

#[test]
fn the_back_ranks_hold_the_pieces_in_their_order() {
    let order = [
        PieceType::Rook,
        PieceType::Knight,
        PieceType::Bishop,
        PieceType::Queen,
        PieceType::King,
        PieceType::Bishop,
        PieceType::Knight,
        PieceType::Rook,
    ];
    let white = create_pieces_from_rank_index(0);
    let black = create_pieces_from_rank_index(7);
    assert_eq!(white.len(), 8);
    assert_eq!(black.len(), 8);
    for file in 0..8 {
        assert_eq!(white[file], Some(Piece { color: Color::White, piece_type: order[file] }));
        assert_eq!(black[file], Some(Piece { color: Color::Black, piece_type: order[file] }));
    }
}

#[test]
fn the_pawn_ranks_hold_pawns() {
    let white_pawn = Some(Piece { color: Color::White, piece_type: PieceType::Pawn });
    let black_pawn = Some(Piece { color: Color::Black, piece_type: PieceType::Pawn });
    assert_eq!(create_pieces_from_rank_index(1), vec![white_pawn; 8]);
    assert_eq!(create_pieces_from_rank_index(6), vec![black_pawn; 8]);
}

#[test]
fn the_starting_ranks_are_the_ranks_by_index() {
    let ranks = create_starting_ranks();
    assert_eq!(ranks.len(), 8);
    for rank_index in 0..8u8 {
        assert_eq!(ranks[rank_index as usize].get(), &create_pieces_from_rank_index(rank_index));
        assert_eq!(ranks[rank_index as usize], Rank::new(create_pieces_from_rank_index(rank_index)));
    }
}

#[test]
fn get_piece_reads_the_slot_of_the_file() {
    let rank = Rank::new(create_pieces_from_rank_index(0));
    assert_eq!(
        get_piece(&rank, &FileIndex::new(3)),
        Some(Piece { color: Color::White, piece_type: PieceType::Queen })
    );
    assert_eq!(
        get_piece(&rank, &FileIndex::new(4)),
        Some(Piece { color: Color::White, piece_type: PieceType::King })
    );
}

#[test]
fn a_cloned_rank_equals_the_rank() {
    let rank = Rank::new(create_pieces_from_rank_index(7));
    let copy = rank.clone();
    assert_eq!(rank, copy);
    assert_eq!(copy.get(), &create_pieces_from_rank_index(7));
}
