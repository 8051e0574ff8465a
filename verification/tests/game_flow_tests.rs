use memory_match::components::{
    CardEntity, CardFaceState, CpuMemory, CpuPickPhase, Phase, Player,
};
use memory_match::cpu_ai::{cpu_pick_first, cpu_pick_second};
use memory_match::events::{CardFlipRequested, FlipAnimationComplete, MatchOutcome, MatchResult};
use memory_match::game_state::{deal, deal_from_indices, GameState};
use memory_match::hanafuda_cards::{HanafudaCard, HanafudaCardType, HanafudaMonth};
use memory_match::playing_cards::{PlayingCard, Rank, Suite};

/// The identity permutation: cell i holds the card with deck index i, so
/// ranks ascend within each suit block and cells 0 and 13 share a rank.
fn identity_deal() -> GameState {
    let indices: Vec<u8> = (0..52).collect();
    deal_from_indices(&indices)
}

fn card(grid_index: usize, rank: Rank, suite: Suite) -> CardEntity {
    CardEntity { rank, suite, grid_index }
}

// ─── scenario: fixed deal, same-rank pair, human scores ──────────────────

#[test]
fn fixed_deal_same_rank_selection_matches() {
    let mut g = identity_deal();
    assert_eq!(g.phase.0, Phase::PlayerTurn);
    assert_eq!(g.whose_turn.current, Player::Human);

    let r = g.handle_player_click(0);
    assert_eq!(r, Some(CardFlipRequested { entity: 0, target_face_up: true }));
    g.handle_flip_complete(FlipAnimationComplete { entity: 0 });
    assert_eq!(g.phase.0, Phase::PlayerTurn);

    let r = g.handle_player_click(13);
    assert_eq!(r, Some(CardFlipRequested { entity: 13, target_face_up: true }));
    g.handle_flip_complete(FlipAnimationComplete { entity: 13 });
    assert_eq!(g.phase.0, Phase::CheckingMatch);

    let m = g.check_match_timing(800).expect("the judging delay elapsed");
    assert!(m.matched, "cells 0 and 13 hold the same rank");
    assert_eq!((m.first, m.second), (0, 13));

    let out = g.handle_match_result(&m);
    assert!(matches!(out, MatchOutcome::Continue));
    assert_eq!(g.game_data.player_score, 1);
    assert_eq!(g.game_data.pairs_found, 1);
    assert_eq!(g.faces[0], CardFaceState::Matched);
    assert_eq!(g.faces[13], CardFaceState::Matched);
    // both matched cells have left the CPU memory
    assert!(g.memory.get(0).is_none());
    assert!(g.memory.get(13).is_none());
    // the selection tracker empties after every resolved judging cycle
    assert!(g.flipped.first.is_none() && g.flipped.second.is_none());
    // a match keeps the turn with the same owner
    assert_eq!(g.whose_turn.current, Player::Human);
    assert_eq!(g.phase.0, Phase::PlayerTurn);
}

// ─── scenario: remembered pair steers both CPU picks ─────────────────────

#[test]
fn cpu_prefers_remembered_pair() {
    let mut memory = CpuMemory::default();
    memory.insert(5, Rank::King, Suite::Spades);
    memory.insert(9, Rank::King, Suite::Hearts);

    let face_down = vec![
        card(1, Rank::Ace, Suite::Clubs),
        card(2, Rank::Two, Suite::Diamonds),
        card(5, Rank::King, Suite::Spades),
        card(9, Rank::King, Suite::Hearts),
        card(30, Rank::Five, Suite::Diamonds),
    ];
    let first = cpu_pick_first(&face_down, &memory);
    assert!(first == 5 || first == 9, "the guaranteed pair must be preferred, got {first}");

    // first pick was cell 5: it is now face up, the rest stays face down
    let remaining = vec![
        card(1, Rank::Ace, Suite::Clubs),
        card(2, Rank::Two, Suite::Diamonds),
        card(9, Rank::King, Suite::Hearts),
        card(30, Rank::Five, Suite::Diamonds),
    ];
    let second = cpu_pick_second(&card(5, Rank::King, Suite::Spades), &remaining, &memory, 5);
    assert_eq!(second, 9, "the remembered partner of the King must be picked");
}

// ─── scenario: mismatch hides both cards and passes the turn once ────────

#[test]
fn mismatch_passes_turn_to_cpu_once() {
    let mut g = identity_deal();
    g.handle_player_click(0);
    g.handle_flip_complete(FlipAnimationComplete { entity: 0 });
    g.handle_player_click(1);
    g.handle_flip_complete(FlipAnimationComplete { entity: 1 });
    assert_eq!(g.phase.0, Phase::CheckingMatch);

    let m = g.check_match_timing(800).expect("the judging delay elapsed");
    assert!(!m.matched, "cells 0 and 1 hold different ranks");

    let out = g.handle_match_result(&m);
    match out {
        MatchOutcome::Mismatch(r1, r2) => {
            assert_eq!(r1, CardFlipRequested { entity: 0, target_face_up: false });
            assert_eq!(r2, CardFlipRequested { entity: 1, target_face_up: false });
        }
        other => panic!("expected a mismatch, got {:?}", other),
    }
    // both hide transitions are outstanding; the owner has not changed yet
    assert_eq!(g.whose_turn.current, Player::Human);
    g.handle_flip_complete(FlipAnimationComplete { entity: 0 });
    assert_eq!(g.whose_turn.current, Player::Human, "still waiting on the second transition");
    g.handle_flip_complete(FlipAnimationComplete { entity: 1 });
    // now the turn passed, exactly once
    assert_eq!(g.whose_turn.current, Player::Cpu);
    assert_eq!(g.phase.0, Phase::CpuTurn);
    assert_eq!(g.cpu_timer.pick_phase, CpuPickPhase::FirstCard);
    assert_eq!(g.cpu_timer.pick_timer_ms, 1200);
    assert_eq!(g.faces[0], CardFaceState::FaceDown);
    assert_eq!(g.faces[1], CardFaceState::FaceDown);
    assert_eq!(g.game_data.pairs_found, 0);
}

// ─── every deal lays out the full deck ───────────────────────────────────

#[test]
fn deal_lays_out_every_card_once() {
    let g = deal();
    let mut counts = [[0usize; 4]; 13];
    for i in 0..52 {
        let c = &g.cards[i];
        assert_eq!(c.grid_index, i);
        counts[c.rank as usize][c.suite as usize] += 1;
        assert_eq!(g.faces[i], CardFaceState::FaceDown);
    }
    for rank_count in counts.iter() {
        let mut per_rank = 0;
        for &n in rank_count.iter() {
            assert_eq!(n, 1, "every rank-suit combination appears exactly once");
            per_rank += n;
        }
        assert_eq!(per_rank, 4, "every rank appears once per suit");
    }
}

// ─── illegal actions are silent no-ops ───────────────────────────────────

#[test]
fn illegal_actions_are_rejected() {
    let mut g = identity_deal();
    // out of the board
    assert!(g.handle_player_click(99).is_none());
    // legal first click
    assert!(g.handle_player_click(0).is_some());
    // clicks are illegal while a transition runs
    assert_eq!(g.phase.0, Phase::Animating);
    assert!(g.handle_player_click(1).is_none());
    g.handle_flip_complete(FlipAnimationComplete { entity: 0 });
    // the first-selected (now face-up) cell cannot be selected again
    assert!(g.handle_player_click(0).is_none());
    // a judged result outside a judging cycle changes nothing
    let bogus = MatchResult { matched: true, first: 4, second: 7 };
    assert!(matches!(g.handle_match_result(&bogus), MatchOutcome::Rejected));
    assert_eq!(g.game_data.pairs_found, 0);
    assert_eq!(g.faces[4], CardFaceState::FaceDown);
    // a completion report for a cell without an outstanding transition
    let phase_before = g.phase.0;
    g.handle_flip_complete(FlipAnimationComplete { entity: 30 });
    assert_eq!(g.phase.0, phase_before);
    // the CPU may not act on the human's turn
    assert!(g.cpu_turn(5000).is_none());
}

// ─── a whole round terminates at exactly 26 pairs ────────────────────────

#[test]
fn full_round_reaches_26_pairs() {
    let mut g = deal();
    let mut saw_round_end = false;
    let mut steps = 0usize;
    while !g.game_over && steps < 100_000 {
        steps += 1;
        // the round is over exactly when the 26th pair is found
        assert_eq!(g.game_over, g.game_data.pairs_found == 26);
        match g.phase.0 {
            Phase::PlayerTurn => {
                let mut clicked = false;
                for c in 0..52 {
                    if g.faces[c] == CardFaceState::FaceDown && g.flipped.first != Some(c) {
                        assert!(g.handle_player_click(c).is_some());
                        clicked = true;
                        break;
                    }
                }
                assert!(clicked, "a running round always has a selectable cell");
            }
            Phase::CpuTurn => {
                let r = g.cpu_turn(2000);
                let req = r.expect("an elapsed think delay always yields a pick");
                assert_eq!(g.faces[req.entity], CardFaceState::FaceUp);
                g.handle_flip_complete(FlipAnimationComplete { entity: req.entity });
            }
            Phase::Animating => {
                let outstanding: Vec<usize> = (0..52).filter(|&c| g.pending[c]).collect();
                assert!(!outstanding.is_empty());
                for c in outstanding {
                    g.handle_flip_complete(FlipAnimationComplete { entity: c });
                }
            }
            Phase::CheckingMatch => {
                let m = g.check_match_timing(800).expect("the judging delay elapsed");
                let out = g.handle_match_result(&m);
                match out {
                    MatchOutcome::Mismatch(r1, r2) => {
                        g.handle_flip_complete(FlipAnimationComplete { entity: r1.entity });
                        g.handle_flip_complete(FlipAnimationComplete { entity: r2.entity });
                    }
                    MatchOutcome::RoundEnded { human_score, cpu_score } => {
                        saw_round_end = true;
                        assert_eq!(human_score + cpu_score, 26);
                        assert!(g.game_over);
                    }
                    MatchOutcome::Continue => {}
                    MatchOutcome::Rejected => panic!("a real judging cycle must not be rejected"),
                }
            }
        }
    }
    assert!(g.game_over, "the round must terminate");
    assert!(saw_round_end, "termination is announced exactly at the 26th pair");
    assert_eq!(g.game_data.pairs_found, 26);
    assert_eq!(g.game_data.player_score + g.game_data.cpu_score, 26);
    for c in 0..52 {
        assert_eq!(g.faces[c], CardFaceState::Matched);
    }
}

// ─── the CPU learns from the human's reveals ─────────────────────────────

#[test]
fn memory_records_completed_reveals() {
    let mut g = identity_deal();
    g.handle_player_click(20);
    assert!(g.memory.get(20).is_none(), "nothing is memorized before the transition finishes");
    g.handle_flip_complete(FlipAnimationComplete { entity: 20 });
    // cell 20 holds deck index 20: Hearts block, rank Eight
    assert_eq!(g.memory.get(20), Some((Rank::Eight, Suite::Hearts)));
}

// ─── hanafuda identities ─────────────────────────────────────────────────

#[test]
fn hanafuda_texture_and_display() {
    let c = HanafudaCard { month: HanafudaMonth::January, card_type: HanafudaCardType::Bright };
    assert_eq!(c.display(), "January - Bright");
    assert_eq!(c.front_texture_path(), "textures/hanafuda/January_Bright_front.png");
    assert_eq!(c.back_texture_path(), "textures/hanafuda/card_back.png");
}

// ─── decode smoke check used by the fixed deal ───────────────────────────

#[test]
fn identity_layout_pairs_by_rank_across_blocks() {
    let g = identity_deal();
    match (PlayingCard::from(0), PlayingCard::from(13)) {
        (PlayingCard::Standard(s0, r0), PlayingCard::Standard(s1, r1)) => {
            assert_eq!(r0, r1);
            assert_ne!(s0, s1);
        }
        _ => panic!("indices below 52 decode to standard cards"),
    }
    assert_eq!(g.cards[0].rank, g.cards[13].rank);
    assert_ne!(g.cards[0].suite, g.cards[13].suite);
}
