use twist::scramblegeneration::{
    are_opposite_faces, generate_scramble, generate_scramble_string, moves_cancel, moves_repeat,
    render_scramble, Move, MoveVariation, ScrambleMove,
};

#[test]
fn test_scramble_move_to_string() {
    assert_eq!(
        ScrambleMove {
            mv: Move::U,
            variation: MoveVariation::Normal
        }
        .to_string(),
        "U"
    );
    assert_eq!(
        ScrambleMove {
            mv: Move::R,
            variation: MoveVariation::Prime
        }
        .to_string(),
        "R'"
    );
    assert_eq!(
        ScrambleMove {
            mv: Move::F,
            variation: MoveVariation::Double
        }
        .to_string(),
        "F2"
    );
}

#[test]
fn test_moves_cancel() {
    assert!(moves_cancel(
        &ScrambleMove {
            mv: Move::U,
            variation: MoveVariation::Normal
        },
        &ScrambleMove {
            mv: Move::U,
            variation: MoveVariation::Prime
        }
    ));
    assert!(moves_cancel(
        &ScrambleMove {
            mv: Move::R,
            variation: MoveVariation::Double
        },
        &ScrambleMove {
            mv: Move::R,
            variation: MoveVariation::Double
        }
    ));
    assert!(!moves_cancel(
        &ScrambleMove {
            mv: Move::L,
            variation: MoveVariation::Normal
        },
        &ScrambleMove {
            mv: Move::L,
            variation: MoveVariation::Double
        }
    ));
}

#[test]
fn test_moves_repeat() {
    assert!(moves_repeat(
        &ScrambleMove {
            mv: Move::U,
            variation: MoveVariation::Normal
        },
        &ScrambleMove {
            mv: Move::U,
            variation: MoveVariation::Prime
        }
    ));
    assert!(!moves_repeat(
        &ScrambleMove {
            mv: Move::L,
            variation: MoveVariation::Normal
        },
        &ScrambleMove {
            mv: Move::R,
            variation: MoveVariation::Normal
        }
    ));
}

#[test]
fn test_are_opposite_faces() {
    assert!(are_opposite_faces(&Move::U, &Move::D));
    assert!(are_opposite_faces(&Move::L, &Move::R));
    assert!(are_opposite_faces(&Move::F, &Move::B));
    assert!(!are_opposite_faces(&Move::U, &Move::L));
    assert!(!are_opposite_faces(&Move::F, &Move::R));
}

#[test]
fn test_generate_scramble() {
    let scramble = generate_scramble(20);
    assert_eq!(scramble.len(), 20);

    for i in 1..scramble.len() {
        assert!(!moves_repeat(&scramble[i - 1], &scramble[i]));
        assert!(!moves_cancel(&scramble[i - 1], &scramble[i]));

        if i > 1 {
            assert!(
                !are_opposite_faces(&scramble[i - 2].mv, &scramble[i].mv)
                    || !are_opposite_faces(&scramble[i - 1].mv, &scramble[i].mv)
            );
        }
    }
}

#[test]
fn test_generate_scramble_string() {
    let scramble_str = generate_scramble_string(20);
    let moves: Vec<&str> = scramble_str.trim().split_whitespace().collect();
    assert_eq!(moves.len(), 20);
}

#[test]
fn test_generate_scramble_degenerate() {
    assert!(generate_scramble(0).is_empty());
    assert_eq!(generate_scramble(1).len(), 1);
}

#[test]
fn test_generate_scramble_string_tokens() {
    let scramble_str = generate_scramble_string(20);
    let tokens: Vec<&str> = scramble_str.trim().split_whitespace().collect();
    assert_eq!(tokens.len(), 20);
    for token in tokens {
        let mut chars = token.chars();
        let face = chars.next().unwrap();
        assert!(matches!(face, 'U' | 'D' | 'L' | 'R' | 'F' | 'B'));
        match chars.next() {
            None => {}
            Some(suffix) => {
                assert!(suffix == '2' || suffix == '\'');
                assert!(chars.next().is_none());
            }
        }
    }
}

#[test]
fn test_generate_scramble_string_trailing_space() {
    let scramble_str = generate_scramble_string(3);
    assert!(scramble_str.ends_with(' '));
    assert!(generate_scramble_string(0).is_empty());
}

#[test]
fn test_render_scramble_exact() {
    let moves = vec![
        ScrambleMove {
            mv: Move::U,
            variation: MoveVariation::Normal,
        },
        ScrambleMove {
            mv: Move::R,
            variation: MoveVariation::Prime,
        },
        ScrambleMove {
            mv: Move::F,
            variation: MoveVariation::Double,
        },
    ];
    assert_eq!(render_scramble(&moves), "U R' F2 ");
}

#[test]
fn test_to_string_every_move() {
    let faces = [Move::U, Move::D, Move::L, Move::R, Move::F, Move::B];
    let letters = ["U", "D", "L", "R", "F", "B"];
    let variations = [
        MoveVariation::Normal,
        MoveVariation::Prime,
        MoveVariation::Double,
    ];
    let suffixes = ["", "'", "2"];
    for (face, letter) in faces.iter().zip(letters.iter()) {
        for (variation, suffix) in variations.iter().zip(suffixes.iter()) {
            let text = ScrambleMove {
                mv: *face,
                variation: *variation,
            }
            .to_string();
            assert_eq!(text, format!("{}{}", letter, suffix));
        }
    }
}

#[test]
fn test_successive_scrambles_differ() {
    // Two fresh 20-move scrambles agreeing letter for letter would mean the
    // random draws are not reaching the generator (the chance of honest
    // agreement is negligible).
    let first = generate_scramble_string(20);
    let second = generate_scramble_string(20);
    assert_ne!(first, second);
}

#[test]
fn test_long_scramble_valid() {
    let scramble = generate_scramble(200);
    assert_eq!(scramble.len(), 200);
    for i in 1..scramble.len() {
        assert!(scramble[i - 1].mv != scramble[i].mv);
    }
}
