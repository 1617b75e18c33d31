use search_and_destroy_chess_2::direction::Direction;
use search_and_destroy_chess_2::error;
use search_and_destroy_chess_2::error::{CoordinateFault, Error};
use search_and_destroy_chess_2::file_index::FileIndex;
use search_and_destroy_chess_2::square;
use search_and_destroy_chess_2::square::{
    create_coordinat_from_indices, create_square_from_indices, get_all_coordinats, get_nth_file,
    get_nth_rank, get_random_coordinat, get_random_square, get_square_above, get_square_at,
    get_square_at_lhs, get_square_at_rhs, get_square_below, Square,
};

const FILES: [&str; 8] = ["a", "b", "c", "d", "e", "f", "g", "h"];
const RANKS: [&str; 8] = ["1", "2", "3", "4", "5", "6", "7", "8"];

fn refused(coordinat: &str) -> Error {
    match Square::new(coordinat) {
        Ok(square) => panic!("{:?} was accepted as {:?}", coordinat, square),
        Err(error) => error,
    }
}

#[test]
fn square_create_square() {
    let str = "a2";
    let square = Square::new(str).unwrap();
    assert_eq!(str, square.get());
}

#[test]
fn square_get() {
    let str = "h3";
    let square = Square::new(str).unwrap();
    assert_eq!(str, square.get());
}

#[test]
fn get_file() {
    let str = "b8";
    let square = Square::new(str).unwrap();
    assert_eq!("b", square.get_file());
}

#[test]
fn get_rank() {
    let str = "c4";
    let square = Square::new(str).unwrap();
    assert_eq!(4, square.get_rank());
}

#[test]
fn test_get_nth_file() {
    // the letter compared to 'a'
    assert_eq!(get_nth_file(&Square::new("a1").unwrap()).get(), 0);
    assert_eq!(get_nth_file(&Square::new("b3").unwrap()).get(), 1);
    assert_eq!(get_nth_file(&Square::new("c5").unwrap()).get(), 2);
}

#[test]
fn test_get_nth_rank() {
    // the number minus 1
    assert_eq!(get_nth_rank(&Square::new("a1").unwrap()), 0);
    assert_eq!(get_nth_rank(&Square::new("b3").unwrap()), 2);
    assert_eq!(get_nth_rank(&Square::new("c5").unwrap()), 4);
}

#[test]
#[should_panic(expected = "A coordinat has two characters")]
fn invalid_square() {
    if let Err(fault) = Square::new("X") {
        panic!("{}", error::to_str(fault));
    }
}

#[test]
#[should_panic(expected = "The file must be 'a..h'")]
fn invalid_file() {
    if let Err(fault) = Square::new("X1") {
        panic!("{}", error::to_str(fault));
    }
}

#[test]
#[should_panic(expected = "The rank must be '1..8'")]
fn invalid_rank() {
    if let Err(fault) = Square::new("a9") {
        panic!("{}", error::to_str(fault));
    }
}

#[test]
fn get_all_squares() {
    assert_eq!(square::get_all_squares().len(), 64);
}

#[test]
fn test_get_square_above() {
    let square_1 = Square::new("d7").unwrap();
    let square_2 = get_square_above(square_1);
    assert_eq!(square_2.get(), String::from("d8"));
    let square_3 = get_square_above(square_2);
    assert_eq!(square_3.get(), String::from("d1"));
}

#[test]
fn test_get_square_at_lhs() {
    let square_1 = Square::new("b7").unwrap();
    let square_2 = get_square_at_lhs(square_1);
    assert_eq!(square_2.get(), String::from("a7"));
    let square_3 = get_square_at_lhs(square_2);
    assert_eq!(square_3.get(), String::from("h7"));
}

#[test]
fn test_get_square_at_rhs() {
    let square_1 = Square::new("g3").unwrap();
    let square_2 = get_square_at_rhs(square_1);
    assert_eq!(square_2.get(), String::from("h3"));
    let square_3 = get_square_at_rhs(square_2);
    assert_eq!(square_3.get(), String::from("a3"));
}

#[test]
fn test_get_square_below() {
    let square_1 = Square::new("f2").unwrap();
    let square_2 = get_square_below(square_1);
    assert_eq!(square_2.get(), String::from("f1"));
    let square_3 = get_square_below(square_2);
    assert_eq!(square_3.get(), String::from("f8"));
}

#[test]
fn every_name_is_accepted_and_given_back() {
    for file in FILES {
        for rank in RANKS {
            let name = format!("{}{}", file, rank);
            let square = Square::new(&name).unwrap();
            assert_eq!(square.get(), name);
            assert_eq!(square.get_file(), file);
        }
    }
}

#[test]
fn squares_of_one_name_are_equal() {
    let square = Square::new("b3").unwrap();
    let square_again = Square::new("b3").unwrap();
    assert_eq!(square, square_again);
    assert_eq!(square, square.clone());
    assert_ne!(square, Square::new("b4").unwrap());
    assert_ne!(square, Square::new("c3").unwrap());
}

#[test]
fn a_text_of_another_length_is_refused_for_its_length() {
    for text in ["", "a", "1", "X", "a1 ", " a1", "a10", "abc", "a1a1", "e2e4"] {
        assert_eq!(refused(text), Error::InvalidCoordinate(CoordinateFault::Length));
    }
}

#[test]
fn the_length_is_counted_in_bytes() {
    // two characters in three bytes and more
    assert_eq!(refused("a\u{e9}"), Error::InvalidCoordinate(CoordinateFault::Length));
    assert_eq!(refused("\u{e9}1"), Error::InvalidCoordinate(CoordinateFault::Length));
    assert_eq!(refused("\u{1f600}"), Error::InvalidCoordinate(CoordinateFault::Length));
    // one character in two bytes
    assert_eq!(refused("\u{e9}"), Error::InvalidCoordinate(CoordinateFault::File));
}

#[test]
fn a_wrong_file_is_refused_for_its_file() {
    for text in ["X1", "A1", "H8", "i1", "`1", "11", " 1", "i9", "A9", "zz", "\n1"] {
        assert_eq!(refused(text), Error::InvalidCoordinate(CoordinateFault::File));
    }
}

#[test]
fn a_wrong_rank_is_refused_for_its_rank() {
    for text in ["a9", "a0", "h9", "aa", "a ", "h/", "a\r", "a\t", "a\0"] {
        assert_eq!(refused(text), Error::InvalidCoordinate(CoordinateFault::Rank));
    }
}

#[test]
fn a_line_feed_after_the_file_counts_against_the_file() {
    assert_eq!(refused("a\n"), Error::InvalidCoordinate(CoordinateFault::File));
    assert_eq!(refused("h\n"), Error::InvalidCoordinate(CoordinateFault::File));
}

#[test]
fn the_file_index_counts_from_a() {
    assert_eq!(get_nth_file(&Square::new("a1").unwrap()).get(), 0);
    assert_eq!(get_nth_file(&Square::new("h1").unwrap()).get(), 7);
    for (index, file) in FILES.iter().enumerate() {
        let square = Square::new(&format!("{}4", file)).unwrap();
        assert_eq!(get_nth_file(&square).get(), index);
    }
}

#[test]
fn the_rank_index_counts_from_one() {
    assert_eq!(get_nth_rank(&Square::new("a1").unwrap()), 0);
    assert_eq!(get_nth_rank(&Square::new("a8").unwrap()), 7);
    for (index, rank) in RANKS.iter().enumerate() {
        let square = Square::new(&format!("d{}", rank)).unwrap();
        assert_eq!(get_nth_rank(&square), index);
        assert_eq!(square.get_rank(), index + 1);
    }
}

#[test]
fn a_coordinat_is_created_from_its_indices() {
    assert_eq!(create_coordinat_from_indices(&FileIndex::new(0), 0), Ok(String::from("a1")));
    assert_eq!(create_coordinat_from_indices(&FileIndex::new(7), 0), Ok(String::from("h1")));
    assert_eq!(create_coordinat_from_indices(&FileIndex::new(7), 3), Ok(String::from("h4")));
    assert_eq!(create_coordinat_from_indices(&FileIndex::new(7), 7), Ok(String::from("h8")));
}

#[test]
fn a_rank_index_beyond_the_board_is_out_of_range() {
    assert_eq!(create_coordinat_from_indices(&FileIndex::new(0), 8), Err(Error::OutOfRange));
    assert_eq!(create_coordinat_from_indices(&FileIndex::new(7), 255), Err(Error::OutOfRange));
    assert_eq!(create_square_from_indices(&FileIndex::new(0), 8), Err(Error::OutOfRange));
    assert_eq!(create_square_from_indices(&FileIndex::new(3), 200), Err(Error::OutOfRange));
}

#[test]
fn indices_and_names_undo_each_other() {
    for file in 0..8usize {
        for rank in 0..8usize {
            let name = create_coordinat_from_indices(&FileIndex::new(file), rank as u8).unwrap();
            assert_eq!(name, format!("{}{}", FILES[file], RANKS[rank]));
            let square = Square::new(&name).unwrap();
            assert_eq!(get_nth_file(&square).get(), file);
            assert_eq!(get_nth_rank(&square), rank);
            assert_eq!(
                create_coordinat_from_indices(&get_nth_file(&square), get_nth_rank(&square) as u8),
                Ok(square.get())
            );
            assert_eq!(create_square_from_indices(&FileIndex::new(file), rank as u8), Ok(square));
        }
    }
}

#[test]
fn all_coordinats_come_file_by_file() {
    let coordinats = get_all_coordinats();
    assert_eq!(coordinats.len(), 64);
    assert_eq!(coordinats[0], "a1");
    assert_eq!(coordinats[1], "a2");
    assert_eq!(coordinats[7], "a8");
    assert_eq!(coordinats[8], "b1");
    assert_eq!(coordinats[63], "h8");
    for (index, coordinat) in coordinats.iter().enumerate() {
        assert_eq!(coordinat, &format!("{}{}", FILES[index / 8], RANKS[index % 8]));
    }
}

#[test]
fn all_squares_are_distinct_and_cover_the_board() {
    let squares = square::get_all_squares();
    assert_eq!(squares.len(), 64);
    let mut seen = [[false; 8]; 8];
    for (index, square) in squares.iter().enumerate() {
        let file = get_nth_file(square).get();
        let rank = get_nth_rank(square);
        assert_eq!(file, index / 8);
        assert_eq!(rank, index % 8);
        assert!(!seen[file][rank]);
        seen[file][rank] = true;
    }
    assert!(seen.iter().all(|file| file.iter().all(|&hit| hit)));
    assert_eq!(squares[0].get(), "a1");
    assert_eq!(squares[63].get(), "h8");
}

#[test]
fn a_random_coordinat_names_a_square_of_the_fifth_rank() {
    for _ in 0..100 {
        let coordinat = get_random_coordinat();
        assert_eq!(coordinat.len(), 2);
        assert!(coordinat.ends_with('5'));
        assert_eq!(Square::new(&coordinat).unwrap().get(), coordinat);
    }
}

#[test]
fn a_random_square_lies_on_the_fifth_rank() {
    for _ in 0..100 {
        let square = get_random_square();
        assert_eq!(get_nth_rank(&square), 4);
        assert!(get_nth_file(&square).get() <= 7);
    }
}

#[test]
fn a_step_keeps_the_other_index() {
    for square in square::get_all_squares() {
        let file = get_nth_file(&square).get();
        let rank = get_nth_rank(&square);
        let above = get_square_above(square);
        assert_eq!(get_nth_file(&above).get(), file);
        assert_eq!(get_nth_rank(&above), (rank + 1) % 8);
        let below = get_square_below(square);
        assert_eq!(get_nth_file(&below).get(), file);
        assert_eq!(get_nth_rank(&below), (rank + 7) % 8);
        let left = get_square_at_lhs(square);
        assert_eq!(get_nth_file(&left).get(), (file + 7) % 8);
        assert_eq!(get_nth_rank(&left), rank);
        let right = get_square_at_rhs(square);
        assert_eq!(get_nth_file(&right).get(), (file + 1) % 8);
        assert_eq!(get_nth_rank(&right), rank);
    }
}

#[test]
fn steps_wrap_at_all_four_edges() {
    assert_eq!(get_square_above(Square::new("h8").unwrap()).get(), "h1");
    assert_eq!(get_square_above(Square::new("a8").unwrap()).get(), "a1");
    assert_eq!(get_square_below(Square::new("a1").unwrap()).get(), "a8");
    assert_eq!(get_square_at_lhs(Square::new("a1").unwrap()).get(), "h1");
    assert_eq!(get_square_at_rhs(Square::new("h8").unwrap()).get(), "a8");
}

#[test]
fn a_step_back_undoes_a_step() {
    for square in square::get_all_squares() {
        assert_eq!(get_square_below(get_square_above(square)), square);
        assert_eq!(get_square_above(get_square_below(square)), square);
        assert_eq!(get_square_at_lhs(get_square_at_rhs(square)), square);
        assert_eq!(get_square_at_rhs(get_square_at_lhs(square)), square);
    }
}

#[test]
fn get_square_at_follows_the_direction() {
    let square_1 = Square::new("d4").unwrap();
    let square_2 = get_square_at(square_1, Direction::Up);
    assert_eq!(square_2.get(), String::from("d5"));
    let square_3 = get_square_at(square_2, Direction::Right);
    assert_eq!(square_3.get(), String::from("e5"));
    let square_4 = get_square_at(square_3, Direction::Down);
    assert_eq!(square_4.get(), String::from("e4"));
    let square_5 = get_square_at(square_4, Direction::Left);
    assert_eq!(square_5.get(), String::from("d4"));
    for square in square::get_all_squares() {
        assert_eq!(get_square_at(square, Direction::Up), get_square_above(square));
        assert_eq!(get_square_at(square, Direction::Right), get_square_at_rhs(square));
        assert_eq!(get_square_at(square, Direction::Down), get_square_below(square));
        assert_eq!(get_square_at(square, Direction::Left), get_square_at_lhs(square));
    }
}
