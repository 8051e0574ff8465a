//! The authoritative game state: the 52-cell board, the selection tracker,
//! the CPU memory, scores, phase and turn owner, and the dealing of a
//! round. Its invariant ties the pair counter to the board and keeps the
//! selection free of matched cells.

use vstd::prelude::*;

use crate::components::{
    CardEntity, CardFaceState, CpuMemory, CpuPickPhase, CpuTurnTimer, FlippedCards, GameData,
    GamePhase, Phase, Player, WhoseTurn, CPU_THINK_DELAY_MS,
};
use crate::playing_cards::{
    spec_card_index, spec_card_of_index, spec_rank_num, spec_rank_of_index, spec_suite_num,
    spec_suite_of_index, PlayingCard, Rank, Suite,
};
use crate::rng::shuffle_indices;

verus! {

/// How many cells of the board are matched.
pub open spec fn count_matched(s: Seq<CardFaceState>) -> int
    decreases s.len(),
{
    if s.len() == 0 {
        0
    } else {
        count_matched(s.drop_last()) + if s.last() is Matched {
            1int
        } else {
            0int
        }
    }
}

pub proof fn lemma_count_matched_none(s: Seq<CardFaceState>)
    requires
        forall|k: int| 0 <= k < s.len() ==> !(s[k] is Matched),
    ensures
        count_matched(s) == 0,
    decreases s.len(),
{
    if s.len() > 0 {
        lemma_count_matched_none(s.drop_last());
    }
}

pub proof fn lemma_count_matched_update(s: Seq<CardFaceState>, i: int, v: CardFaceState)
    requires
        0 <= i < s.len(),
    ensures
        count_matched(s.update(i, v)) == count_matched(s) + (if v is Matched {
            1int
        } else {
            0int
        }) - (if s[i] is Matched {
            1int
        } else {
            0int
        }),
    decreases s.len(),
{
    let su = s.update(i, v);
    if i == s.len() - 1 {
        assert(su.drop_last() =~= s.drop_last());
    } else {
        assert(su.drop_last() =~= s.drop_last().update(i, v));
        lemma_count_matched_update(s.drop_last(), i, v);
    }
}

/// The whole state of one round.
pub struct GameState {
    pub cards: Vec<CardEntity>,
    pub faces: Vec<CardFaceState>,
    pub pending: Vec<bool>,
    pub flipped: FlippedCards,
    pub memory: CpuMemory,
    pub game_data: GameData,
    pub whose_turn: WhoseTurn,
    pub cpu_timer: CpuTurnTimer,
    pub phase: GamePhase,
    pub judge_timer_ms: u32,
    pub game_over: bool,
}

impl GameState {
    /// A selected cell is on the board and face up.
    pub open spec fn spec_sel_ok(self, c: Option<usize>) -> bool {
        match c {
            Some(cell) => cell < 52 && self.faces@[cell as int] is FaceUp,
            None => true,
        }
    }

    /// Invariant of every reachable state.
    pub open spec fn wf(self) -> bool {
        &&& self.cards@.len() == 52
        &&& self.faces@.len() == 52
        &&& self.pending@.len() == 52
        &&& forall|i: int| 0 <= i < 52 ==> (#[trigger] self.cards@[i].grid_index) == i
        &&& self.memory.wf()
        &&& self.spec_sel_ok(self.flipped.first)
        &&& self.spec_sel_ok(self.flipped.second)
        &&& (self.flipped.second is Some ==> self.flipped.first is Some)
        &&& (self.flipped.first is Some && self.flipped.second is Some ==> self.flipped.first
            != self.flipped.second)
        &&& self.game_data.player_score + self.game_data.cpu_score == self.game_data.pairs_found
        &&& self.game_data.pairs_found * 2 == count_matched(self.faces@)
        &&& self.game_data.pairs_found <= 26
        &&& (self.game_over <==> self.game_data.pairs_found == 26)
        &&& (self.phase.0 is CheckingMatch && !self.game_over ==> self.flipped.second is Some)
    }

    /// Some cell holds this card.
    pub open spec fn spec_has_card(self, r: Rank, s: Suite) -> bool {
        exists|i: int|
            0 <= i < 52 && self.cards@[i].rank == r && self.cards@[i].suite == s
    }

    /// The state is freshly dealt: nothing revealed, nothing remembered,
    /// no score, the human to move.
    pub open spec fn spec_fresh(self) -> bool {
        &&& self.phase.0 is PlayerTurn
        &&& self.whose_turn.current is Human
        &&& self.game_data == (GameData { player_score: 0, cpu_score: 0, pairs_found: 0 })
        &&& self.flipped.first is None
        &&& self.flipped.second is None
        &&& (forall|c: int| !self.memory.spec_contains_cell(c))
        &&& (forall|i: int| 0 <= i < 52 ==> (#[trigger] self.faces@[i]) is FaceDown)
        &&& (forall|i: int| 0 <= i < 52 ==> (#[trigger] self.pending@[i]) == false)
        &&& self.game_over == false
        &&& self.cpu_timer.pick_phase is FirstCard
        &&& self.cpu_timer.pick_timer_ms == CPU_THINK_DELAY_MS
    }

    /// Everything but the CPU memory is as before.
    pub open spec fn spec_only_memory_changed(pre: GameState, post: GameState) -> bool {
        &&& post.cards == pre.cards
        &&& post.faces == pre.faces
        &&& post.pending == pre.pending
        &&& post.flipped == pre.flipped
        &&& post.game_data == pre.game_data
        &&& post.whose_turn == pre.whose_turn
        &&& post.cpu_timer == pre.cpu_timer
        &&& post.phase == pre.phase
        &&& post.judge_timer_ms == pre.judge_timer_ms
        &&& post.game_over == pre.game_over
    }

    /// No two cells hold the same card, and every card of the deck is on
    /// the board: each (rank, suit) pair sits in exactly one cell.
    pub open spec fn spec_full_deck(self) -> bool {
        &&& (forall|i: int, j: int|
            0 <= i < 52 && 0 <= j < 52 && i != j ==> !((#[trigger] self.cards@[i]).rank == (
            #[trigger] self.cards@[j]).rank && self.cards@[i].suite == self.cards@[j].suite))
        &&& (forall|r: Rank, s: Suite| #[trigger] self.spec_has_card(r, s))
    }
}

proof fn lemma_index_roundtrip(v: int)
    requires
        0 <= v < 52,
    ensures
        spec_card_index(spec_suite_of_index(v), spec_rank_of_index(v)) == v,
{
    assert(v == 13 * (v / 13) + v % 13) by (nonlinear_arith)
        requires 0 <= v < 52;
    assert(0 <= v / 13 < 4);
    assert(0 <= v % 13 < 13);
}

proof fn lemma_card_index_range(s: Suite, r: Rank)
    ensures
        0 <= spec_card_index(s, r) < 52,
        spec_card_index(s, r) / 13 == spec_suite_num(s),
        spec_card_index(s, r) % 13 == spec_rank_num(r),
{
    let sn = spec_suite_num(s);
    let rn = spec_rank_num(r);
    assert(0 <= sn <= 3 && 0 <= rn <= 12);
    assert((sn * 13 + rn) / 13 == sn && (sn * 13 + rn) % 13 == rn) by (nonlinear_arith)
        requires 0 <= sn <= 3 && 0 <= rn <= 12;
}

/// Deal the 52 cards laid out by a permutation of the deck indices: cell
/// `i` receives the card with deck index `indices[i]`. Everything else is
/// reset for a fresh round.
pub fn deal_from_indices(indices: &Vec<u8>) -> (g: GameState)
    requires
        indices@.len() == 52,
        forall|k: int| 0 <= k < 52 ==> (#[trigger] indices@[k]) < 52,
        indices@.no_duplicates(),
        forall|v: u8| v < 52 ==> indices@.contains(v),
    ensures
        g.wf(),
        g.spec_fresh(),
        g.spec_full_deck(),
        forall|i: int|
            0 <= i < 52 ==> (#[trigger] g.cards@[i]).grid_index == i && g.cards@[i].rank
                == spec_rank_of_index(indices@[i] as int) && g.cards@[i].suite
                == spec_suite_of_index(indices@[i] as int),
{
    let mut cards: Vec<CardEntity> = Vec::new();
    let mut faces: Vec<CardFaceState> = Vec::new();
    let mut pending: Vec<bool> = Vec::new();
    let mut i: usize = 0;
    while i < 52
        invariant
            i <= 52,
            indices@.len() == 52,
            forall|k: int| 0 <= k < 52 ==> (#[trigger] indices@[k]) < 52,
            cards@.len() == i,
            faces@.len() == i,
            pending@.len() == i,
            forall|k: int|
                0 <= k < i ==> (#[trigger] cards@[k]).grid_index == k && cards@[k].rank
                    == spec_rank_of_index(indices@[k] as int) && cards@[k].suite
                    == spec_suite_of_index(indices@[k] as int),
            forall|k: int| 0 <= k < i ==> (#[trigger] faces@[k]) is FaceDown,
            forall|k: int| 0 <= k < i ==> (#[trigger] pending@[k]) == false,
        decreases 52 - i,
    {
        let v = indices[i];
        let card = PlayingCard::from(v as i32);
        let (suite, rank) = match card {
            PlayingCard::Standard(s, r) => (s, r),
            PlayingCard::Joker(_) => {
                proof {
                    assert(spec_card_of_index(v as int) is Standard);
                }
                (Suite::Spades, Rank::Ace)
            },
        };
        cards.push(CardEntity { rank, suite, grid_index: i });
        faces.push(CardFaceState::FaceDown);
        pending.push(false);
        i += 1;
    }
    let g = GameState {
        cards,
        faces,
        pending,
        flipped: FlippedCards { first: None, second: None },
        memory: CpuMemory::new(),
        game_data: GameData { player_score: 0, cpu_score: 0, pairs_found: 0 },
        whose_turn: WhoseTurn { current: Player::Human },
        cpu_timer: CpuTurnTimer {
            pick_timer_ms: CPU_THINK_DELAY_MS,
            pick_phase: CpuPickPhase::FirstCard,
        },
        phase: GamePhase(Phase::PlayerTurn),
        judge_timer_ms: 0,
        game_over: false,
    };
    proof {
        lemma_count_matched_none(g.faces@);
        assert forall|a: int, b: int|
            0 <= a < 52 && 0 <= b < 52 && a != b implies !((#[trigger] g.cards@[a]).rank == (
        #[trigger] g.cards@[b]).rank && g.cards@[a].suite == g.cards@[b].suite) by {
            let va = indices@[a] as int;
            let vb = indices@[b] as int;
            assert(va != vb);
            if g.cards@[a].rank == g.cards@[b].rank && g.cards@[a].suite == g.cards@[b].suite {
                lemma_index_roundtrip(va);
                lemma_index_roundtrip(vb);
            }
        }
        assert forall|r: Rank, s: Suite| #[trigger] g.spec_has_card(r, s) by {
            lemma_card_index_range(s, r);
            let v = spec_card_index(s, r);
            assert(indices@.contains(v as u8));
            let k = choose|k: int| 0 <= k < indices@.len() && indices@[k] == v as u8;
            assert(spec_suite_of_index(v) == s && spec_rank_of_index(v) == r);
            assert(g.cards@[k].rank == r && g.cards@[k].suite == s);
        }
    }
    g
}

/// Deal a fresh round: shuffle the deck uniformly at random and lay one
/// card face down on each of the 52 cells.
pub fn deal() -> (g: GameState)
    ensures
        g.wf(),
        g.spec_fresh(),
        g.spec_full_deck(),
{
    let mut indices: Vec<u8> = Vec::new();
    let mut i: usize = 0;
    while i < 52
        invariant
            i <= 52,
            indices@.len() == i,
            forall|k: int| 0 <= k < i ==> (#[trigger] indices@[k]) == k,
        decreases 52 - i,
    {
        indices.push(i as u8);
        i += 1;
    }
    let ghost orig = indices@;
    proof {
        assert(orig.no_duplicates());
        broadcast use vstd::seq_lib::group_to_multiset_ensures;
        broadcast use vstd::multiset::group_multiset_axioms;

        orig.lemma_multiset_has_no_duplicates();
    }
    shuffle_indices(&mut indices);
    proof {
        broadcast use vstd::seq_lib::group_to_multiset_ensures;
        broadcast use vstd::multiset::group_multiset_axioms;

        let cur = indices@;
        assert(cur.to_multiset() == orig.to_multiset());
        assert(forall|x: u8| cur.to_multiset().contains(x) ==> cur.to_multiset().count(x) == 1);
        cur.lemma_multiset_has_no_duplicates_conv();
        assert forall|k: int| 0 <= k < 52 implies (#[trigger] cur[k]) < 52 by {
            assert(cur.contains(cur[k]));
            assert(cur.to_multiset().count(cur[k]) > 0);
            assert(orig.to_multiset().count(cur[k]) > 0);
            assert(orig.contains(cur[k]));
            let j = choose|j: int| 0 <= j < orig.len() && orig[j] == cur[k];
            assert(orig[j] < 52);
        }
        assert forall|v: u8| v < 52 implies cur.contains(v) by {
            assert(orig[v as int] == v);
            assert(orig.contains(v));
            assert(orig.to_multiset().count(v) > 0);
            assert(cur.to_multiset().count(v) > 0);
        }
    }
    deal_from_indices(&indices)
}

} // verus!
