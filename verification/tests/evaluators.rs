use chessatiel::brain::evaluator::{
    CentipawnScore, Evaluator, PieceCountEvaluator, PieceValueEvaluator,
};
use chessatiel::brain::position_evaluator::PositionEvaluator;
use chessatiel::chess::{Color, Material, PieceCounts};
use chessatiel::engine::centipawn::Centipawn;
use chessatiel::engine::evaluator as engine_evaluator;

fn counts(pawns: u8, knights: u8, bishops: u8, rooks: u8, queens: u8, kings: u8) -> PieceCounts {
    PieceCounts { pawns, knights, bishops, rooks, queens, kings }
}

fn full_side() -> PieceCounts {
    counts(8, 2, 2, 2, 1, 1)
}

#[test]
fn piece_count_evaluator() {
    let position = Material::starting();
    assert_eq!(PieceCountEvaluator::new().evaluate(&position), CentipawnScore::zero())
}

#[test]
fn piece_count_evaluator_2() {
    let evaluator = PieceCountEvaluator::new();

    // rnbqkbnr/pppppppp/8/8/8/8/1PPPPPPP/RNBQKBNR w KQkq - 0 1
    let position = Material {
        active_color: Color::White,
        white: counts(7, 2, 2, 2, 1, 1),
        black: full_side(),
    };
    assert_eq!(evaluator.evaluate(&position), CentipawnScore(-100));

    // rnbqkbnr/pppppppp/8/8/8/8/1PPPPPPP/RNBQKBNR b KQkq - 0 1
    let position = Material {
        active_color: Color::Black,
        white: counts(7, 2, 2, 2, 1, 1),
        black: full_side(),
    };
    assert_eq!(evaluator.evaluate(&position), CentipawnScore(100));
}

#[test]
fn piece_value_piece_value_evaluator() {
    let position = Material::starting();
    assert_eq!(PieceValueEvaluator::new().evaluate(&position), CentipawnScore::zero())
}

#[test]
fn piece_value_piece_value_evaluator_2() {
    let evaluator = PieceValueEvaluator::new();

    // rnbqkbnr/pppppppp/8/8/8/8/PPPPPPPP/1NBQKBNR w KQkq - 0 1
    let position = Material {
        active_color: Color::White,
        white: counts(8, 2, 2, 1, 1, 1),
        black: full_side(),
    };
    assert_eq!(evaluator.evaluate(&position), CentipawnScore(-500));

    // rnbqkbnr/pppppppp/8/8/8/8/PPPPPPPP/1NBQKBNR b KQkq - 0 1
    let position = Material {
        active_color: Color::Black,
        white: counts(8, 2, 2, 1, 1, 1),
        black: full_side(),
    };
    assert_eq!(evaluator.evaluate(&position), CentipawnScore(500));
}

#[test]
fn starting_position() {
    let evaluator = PositionEvaluator::new();
    let position = Material::starting();

    assert_eq!(evaluator.evaluate(&position), Centipawn(0))
}

#[test]
fn more_for_active() {
    let evaluator = PositionEvaluator::new();
    // k7/8/8/8/8/8/8/KQ6 w - - 0 1
    let position = Material {
        active_color: Color::White,
        white: counts(0, 0, 0, 0, 1, 1),
        black: counts(0, 0, 0, 0, 0, 1),
    };

    assert_eq!(evaluator.evaluate(&position), Centipawn(900))
}

#[test]
fn less_for_active() {
    let evaluator = PositionEvaluator::new();
    // kq6/8/8/8/8/8/8/K7 w - - 0 1
    let position = Material {
        active_color: Color::White,
        white: counts(0, 0, 0, 0, 0, 1),
        black: counts(0, 0, 0, 0, 1, 1),
    };

    assert_eq!(evaluator.evaluate(&position), Centipawn(-900))
}

#[test]
fn position_evaluator_weighs_every_kind() {
    let evaluator = PositionEvaluator::new();
    let position = Material {
        active_color: Color::Black,
        white: counts(1, 1, 1, 1, 0, 1),
        black: counts(3, 0, 0, 0, 0, 1),
    };
    assert_eq!(evaluator.evaluate(&position), Centipawn(300 - 1200));
    let position = Material {
        active_color: Color::White,
        white: counts(255, 255, 255, 255, 255, 1),
        black: counts(0, 0, 0, 0, 0, 1),
    };
    assert_eq!(evaluator.evaluate(&position), Centipawn(255 * 2100));
}

fn evaluate(position: &Material) -> engine_evaluator::CentipawnScore {
    let evaluator = engine_evaluator::Evaluator::with_strategy(engine_evaluator::Strategy::PieceCount);
    evaluator.evaluate(position)
}

#[test]
fn default_position_equal() {
    let pos = Material::starting();
    assert_eq!(evaluate(&pos), engine_evaluator::CentipawnScore(0))
}

#[test]
fn one_piece_100_score() {
    // rnbqkbnr/pppp1ppp/8/8/8/8/PPPPPPPP/RNBQKBNR w KQkq - 0 1
    let pos = Material {
        active_color: Color::White,
        white: full_side(),
        black: counts(7, 2, 2, 2, 1, 1),
    };
    assert_eq!(evaluate(&pos), engine_evaluator::CentipawnScore(100));

    // rnbqkbnr/pppppppp/8/8/8/8/PPPP1PPP/RNBQKBNR w KQkq - 0 1
    let pos = Material {
        active_color: Color::White,
        white: counts(7, 2, 2, 2, 1, 1),
        black: full_side(),
    };
    assert_eq!(evaluate(&pos), engine_evaluator::CentipawnScore(-100));
}

#[test]
fn engine_evaluator_is_from_whites_side() {
    let pos = Material {
        active_color: Color::Black,
        white: counts(7, 2, 2, 2, 1, 1),
        black: full_side(),
    };
    assert_eq!(engine_evaluator::Evaluator::new().evaluate(&pos), engine_evaluator::CentipawnScore(-100));
    assert_eq!(engine_evaluator::CentipawnScore(-42).to_text(), "Centipawn score: -42");
}

#[test]
fn scores_negate() {
    assert_eq!(-CentipawnScore(7), CentipawnScore(-7));
    assert_eq!(-(-CentipawnScore::max_value()), CentipawnScore::max_value());
    assert_eq!(-CentipawnScore::min_value(), CentipawnScore::max_value());
    assert_eq!(CentipawnScore::checkmated(), CentipawnScore(-1073741823));
    assert_eq!(-Centipawn(3), Centipawn(-3));
    assert_eq!(Centipawn::win(), Centipawn(i64::MAX / 2));
    assert_eq!(Centipawn::loss(), Centipawn(i64::MIN / 2));
}
