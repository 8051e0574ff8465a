use memory_match::components::{CardEntity, CpuMemory};
use memory_match::cpu_ai::{cpu_pick_first, cpu_pick_second, find_known_pair_first};
use memory_match::playing_cards::{Rank, Suite};

fn card(grid_index: usize, rank: Rank, suite: Suite) -> CardEntity {
    CardEntity { rank, suite, grid_index }
}

// ─── find_known_pair_first ───────────────────────────────────────────────

#[test]
fn pair_empty_memory_returns_none() {
    let c0 = card(0, Rank::Ace, Suite::Spades);
    let memory = CpuMemory::default();
    assert!(find_known_pair_first(&vec![c0], &memory).is_none());
}

#[test]
fn pair_single_card_in_memory_returns_none() {
    let c0 = card(0, Rank::Ace, Suite::Spades);
    let mut memory = CpuMemory::default();
    memory.insert(0, Rank::Ace, Suite::Spades);
    // a single card is not a pair
    assert!(find_known_pair_first(&vec![c0], &memory).is_none());
}

#[test]
fn pair_two_same_rank_in_memory_returns_some() {
    let c0 = card(0, Rank::Ace, Suite::Spades);
    let c1 = card(1, Rank::Ace, Suite::Hearts);
    let mut memory = CpuMemory::default();
    memory.insert(0, Rank::Ace, Suite::Spades);
    memory.insert(1, Rank::Ace, Suite::Hearts);
    let result = find_known_pair_first(&vec![c0, c1], &memory);
    assert!(result.is_some(), "two cards of one rank should give Some");
}

#[test]
fn pair_different_ranks_returns_none() {
    let c0 = card(0, Rank::Ace, Suite::Spades);
    let c1 = card(1, Rank::King, Suite::Hearts);
    let mut memory = CpuMemory::default();
    memory.insert(0, Rank::Ace, Suite::Spades);
    memory.insert(1, Rank::King, Suite::Hearts);
    // differing ranks: no pair
    assert!(find_known_pair_first(&vec![c0, c1], &memory).is_none());
}

#[test]
fn pair_one_card_not_in_face_down_returns_none() {
    // two remembered cards, but one is already matched (not face down)
    let c0 = card(0, Rank::Ace, Suite::Spades);
    let mut memory = CpuMemory::default();
    memory.insert(0, Rank::Ace, Suite::Spades);
    memory.insert(99, Rank::Ace, Suite::Hearts); // not among the face-down cells
    assert!(find_known_pair_first(&vec![c0], &memory).is_none());
}

// ─── cpu_pick_second ─────────────────────────────────────────────────────

#[test]
fn pick_second_finds_matching_rank_from_memory() {
    let first = card(0, Rank::King, Suite::Spades);
    let match_card = card(1, Rank::King, Suite::Hearts);
    let mut memory = CpuMemory::default();
    memory.insert(1, Rank::King, Suite::Hearts);
    let face_down = vec![first, match_card];
    let result = cpu_pick_second(&first, &face_down, &memory, 0);
    assert_eq!(result, 1, "the remembered same-rank cell should be picked");
}

#[test]
fn pick_second_skips_first_entity() {
    // without memory, the pick is random among cells other than the first
    let first = card(0, Rank::Ace, Suite::Spades);
    let other = card(1, Rank::Two, Suite::Hearts);
    let memory = CpuMemory::default();
    let face_down = vec![first, other];
    let result = cpu_pick_second(&first, &face_down, &memory, 0);
    assert_ne!(result, 0, "the first card itself must not be picked");
    assert_eq!(result, 1, "the only candidate should be picked");
}

#[test]
fn pick_second_ignores_memory_match_if_its_the_first_entity() {
    // the remembered same-rank cell is the first card itself: pick another
    let first = card(0, Rank::Queen, Suite::Spades);
    let other = card(1, Rank::Three, Suite::Clubs);
    let mut memory = CpuMemory::default();
    memory.insert(0, Rank::Queen, Suite::Spades);
    let face_down = vec![first, other];
    let result = cpu_pick_second(&first, &face_down, &memory, 0);
    assert_ne!(result, 0, "even a remembered first card must not be picked");
}

// ─── cpu_pick_first ──────────────────────────────────────────────────────

#[test]
fn pick_first_with_empty_memory_picks_a_face_down_cell() {
    let cells = vec![
        card(3, Rank::Four, Suite::Clubs),
        card(17, Rank::Nine, Suite::Hearts),
        card(40, Rank::Two, Suite::Diamonds),
    ];
    let memory = CpuMemory::default();
    for _ in 0..20 {
        let picked = cpu_pick_first(&cells, &memory);
        assert!(picked == 3 || picked == 17 || picked == 40);
    }
}
