use tetris::piece::{ActivePiece, Movable, Orientation, PieceConfig, PieceType};
use tetris::queue::{auto_generate_new_piece, generate_new_piece, setup_piece_queue, PieceQueue};
use tetris::randomizer::{cycle_from_draws, random_7_pieces};

fn types(cycle: &Vec<PieceConfig>) -> Vec<PieceType> {
    cycle.iter().map(|c| c.piece_type).collect()
}

fn is_bag(cycle: &Vec<PieceConfig>) -> bool {
    let all = [
        PieceType::I,
        PieceType::J,
        PieceType::L,
        PieceType::O,
        PieceType::S,
        PieceType::T,
        PieceType::Z,
    ];
    cycle.len() == 7
        && all.iter().all(|t| cycle.iter().filter(|c| c.piece_type == *t).count() == 1)
        && cycle.iter().all(|c| *c == PieceConfig::spawn(c.piece_type))
}

#[test]
fn draws_of_zero_deal_the_declared_order() {
    let cycle = cycle_from_draws(&vec![0, 0, 0, 0, 0, 0]);
    assert_eq!(
        types(&cycle),
        vec![
            PieceType::I,
            PieceType::J,
            PieceType::L,
            PieceType::O,
            PieceType::S,
            PieceType::T,
            PieceType::Z
        ]
    );
    assert!(is_bag(&cycle));
}

#[test]
fn highest_draws_deal_the_reverse_order() {
    let cycle = cycle_from_draws(&vec![6, 5, 4, 3, 2, 1]);
    assert_eq!(
        types(&cycle),
        vec![
            PieceType::Z,
            PieceType::T,
            PieceType::S,
            PieceType::O,
            PieceType::L,
            PieceType::J,
            PieceType::I
        ]
    );
}

#[test]
fn each_draw_picks_among_the_types_that_are_left() {
    let cycle = cycle_from_draws(&vec![3, 0, 4, 1, 1, 0]);
    assert_eq!(
        types(&cycle),
        vec![
            PieceType::O,
            PieceType::I,
            PieceType::Z,
            PieceType::L,
            PieceType::S,
            PieceType::J,
            PieceType::T
        ]
    );
    assert!(is_bag(&cycle));
}

#[test]
fn draws_wrap_round_and_missing_draws_pick_the_first() {
    // 7 wraps to 0 among seven, 8 wraps to 2 among six
    let cycle = cycle_from_draws(&vec![7, 8]);
    assert_eq!(
        types(&cycle),
        vec![
            PieceType::I,
            PieceType::O,
            PieceType::J,
            PieceType::L,
            PieceType::S,
            PieceType::T,
            PieceType::Z
        ]
    );
    assert!(is_bag(&cycle_from_draws(&vec![])));
    assert!(is_bag(&cycle_from_draws(&vec![u32::MAX; 9])));
}

#[test]
fn every_cycle_holds_each_type_once() {
    for a in 0..7u32 {
        for b in 0..6u32 {
            for c in 0..5u32 {
                assert!(is_bag(&cycle_from_draws(&vec![a, b, c, a % 4, b % 3, c % 2])));
            }
        }
    }
}

#[test]
fn random_cycles_are_fair() {
    for _ in 0..200 {
        assert!(is_bag(&random_7_pieces()));
    }
}

#[test]
fn random_cycles_come_in_different_orders() {
    let first = types(&random_7_pieces());
    let mut differs = false;
    for _ in 0..200 {
        if types(&random_7_pieces()) != first {
            differs = true;
        }
    }
    assert!(differs);
}

#[test]
fn every_type_can_come_first() {
    let mut seen: Vec<PieceType> = Vec::new();
    for _ in 0..2000 {
        let t = random_7_pieces()[0].piece_type;
        if !seen.contains(&t) {
            seen.push(t);
        }
    }
    assert_eq!(seen.len(), 7);
}

#[test]
fn a_new_queue_holds_one_cycle() {
    let queue = setup_piece_queue();
    assert_eq!(queue.len(), 7);
    let cycle: Vec<PieceConfig> = queue.0.iter().copied().collect();
    assert!(is_bag(&cycle));
}

#[test]
fn a_short_queue_is_topped_up_before_the_spawn() {
    let mut queue = PieceQueue::new();
    queue.extend(&vec![PieceConfig::spawn(PieceType::T), PieceConfig::spawn(PieceType::O)]);
    let cycle = cycle_from_draws(&vec![6, 5, 4, 3, 2, 1]);
    let mut piece: Option<ActivePiece> = None;
    generate_new_piece(&mut piece, &mut queue, &cycle);
    let p = piece.unwrap();
    assert_eq!(p.piece_type, PieceType::T);
    assert_eq!(p.orientation, Orientation::Deg0);
    assert_eq!(p.blocks, PieceConfig::spawn(PieceType::T).blocks);
    assert_eq!(p.movable, Movable { can_down: true, can_left: true, can_right: true });
    assert_eq!(queue.len(), 8);
    let rest: Vec<PieceType> = queue.0.iter().map(|c| c.piece_type).collect();
    assert_eq!(
        rest,
        vec![
            PieceType::O,
            PieceType::Z,
            PieceType::T,
            PieceType::S,
            PieceType::O,
            PieceType::L,
            PieceType::J,
            PieceType::I
        ]
    );
}

#[test]
fn a_whole_cycle_stays_in_sight() {
    let mut queue = PieceQueue::new();
    queue.extend(&cycle_from_draws(&vec![]));
    let other = cycle_from_draws(&vec![6, 5, 4, 3, 2, 1]);
    let mut piece: Option<ActivePiece> = None;
    generate_new_piece(&mut piece, &mut queue, &other);
    assert_eq!(piece.unwrap().piece_type, PieceType::I);
    // six are left, which is short of a cycle
    assert_eq!(queue.len(), 13);
    assert_eq!(queue.peek().unwrap().piece_type, PieceType::J);
    assert_eq!(queue.0[6].piece_type, PieceType::Z);
    // with a piece falling nothing enters play
    let falling = piece;
    generate_new_piece(&mut piece, &mut queue, &other);
    assert_eq!(piece, falling);
    assert_eq!(queue.len(), 13);
    // six pieces later the queue is down to a whole cycle and left alone
    for _ in 0..6 {
        piece = None;
        generate_new_piece(&mut piece, &mut queue, &other);
    }
    assert_eq!(piece.unwrap().piece_type, PieceType::Z);
    assert_eq!(queue.len(), 7);
    assert_eq!(queue.peek().unwrap().piece_type, PieceType::Z);
}

#[test]
fn auto_generate_always_leaves_a_piece_and_a_preview() {
    let mut queue = setup_piece_queue();
    let mut piece: Option<ActivePiece> = None;
    let mut taken: Vec<PieceType> = Vec::new();
    for _ in 0..21 {
        piece = None;
        auto_generate_new_piece(&mut piece, &mut queue);
        taken.push(piece.unwrap().piece_type);
        assert!(queue.len() >= 7);
        assert!(queue.peek().is_some());
    }
    // pieces leave the queue cycle by cycle
    for k in 0..3 {
        let cycle: Vec<PieceConfig> =
            taken[7 * k..7 * k + 7].iter().map(|t| PieceConfig::spawn(*t)).collect();
        assert!(is_bag(&cycle));
    }
    let falling = piece;
    auto_generate_new_piece(&mut piece, &mut queue);
    assert_eq!(piece, falling);
}
