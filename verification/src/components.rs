//! Data model of the game: cells and their visibility, the selection
//! tracker, the CPU's memory of seen cards, scores, turn owner and phase.

use vstd::prelude::*;

use crate::playing_cards::{Rank, Suite};

verus! {

// Grid constants: 13 columns by 4 rows of cards, sizes in screen units.
pub const CARD_W: i32 = 80;

pub const CARD_H: i32 = 120;

pub const H_GAP: i32 = 8;

pub const V_GAP: i32 = 10;

pub const COLS: usize = 13;

pub const ROWS: usize = 4;

pub open spec fn spec_card_x(col: int) -> int {
    -528 + col * 88
}

pub open spec fn spec_card_y(row: int) -> int {
    220 - row * 130
}

/// World coordinates of a grid cell; the grid is centred horizontally,
/// with the top row at height 220.
pub fn card_position(col: usize, row: usize) -> (pos: (i32, i32))
    requires
        col < COLS,
        row < ROWS,
    ensures
        pos.0 == spec_card_x(col as int),
        pos.1 == spec_card_y(row as int),
{
    let total_w: i32 = (COLS as i32) * CARD_W + (COLS as i32 - 1) * H_GAP;
    assert(total_w == 1136);
    let start_x: i32 = CARD_W / 2 - total_w / 2;
    assert(start_x == -528);
    assert(CARD_W + H_GAP == 88 && CARD_H + V_GAP == 130);
    let ci: i32 = col as i32;
    let ri: i32 = row as i32;
    assert(0 <= ci < 13 && 0 <= ri < 4);
    let x: i32 = start_x + ci * 88;
    let y: i32 = 220 - ri * 130;
    (x, y)
}

/// One card on the board: its identity and its fixed grid cell.
#[derive(Debug, Clone, Copy)]
pub struct CardEntity {
    pub rank: Rank,
    pub suite: Suite,
    pub grid_index: usize,
}

/// Visibility of a cell's card.
#[derive(Debug, PartialEq, Eq, Clone, Copy, Structural)]
pub enum CardFaceState {
    FaceDown,
    FaceUp,
    Matched,
}

/// The at most two currently revealed, unresolved cells of the active
/// matching attempt, in selection order.
#[derive(Debug, Clone, Copy, PartialEq, Eq, Structural)]
pub struct FlippedCards {
    pub first: Option<usize>,
    pub second: Option<usize>,
}

impl Default for FlippedCards {
    /// Empty selection.
    fn default() -> (r: Self)
        ensures
            r.first is None,
            r.second is None,
    {
        FlippedCards { first: None, second: None }
    }
}

/// One remembered sighting: the card identity last seen at a cell.
#[derive(Debug, Clone, Copy)]
pub struct MemoryEntry {
    pub cell: usize,
    pub rank: Rank,
    pub suite: Suite,
}

/// The CPU's partial memory of previously seen cards, keyed by cell index.
#[derive(Debug)]
pub struct CpuMemory {
    pub seen: Vec<MemoryEntry>,
}

/// `post` is `pre` with `cell` now remembered as holding exactly this
/// rank and suit, and no other cell's entry touched.
pub open spec fn spec_mem_inserted(
    post: CpuMemory,
    pre: CpuMemory,
    cell: int,
    rank: Rank,
    suite: Suite,
) -> bool {
    &&& post.spec_has(cell, rank, suite)
    &&& forall|c: int|
        #[trigger] post.spec_contains_cell(c) <==> (pre.spec_contains_cell(c) || c == cell)
    &&& forall|c: int, r: Rank, s: Suite|
        c != cell ==> (#[trigger] post.spec_has(c, r, s) <==> pre.spec_has(c, r, s))
    &&& forall|r: Rank, s: Suite|
        #[trigger] post.spec_has(cell, r, s) <==> (r == rank && s == suite)
}

/// `post` is `pre` with any entry for `cell` forgotten, and no other
/// cell's entry touched.
pub open spec fn spec_mem_removed(post: CpuMemory, pre: CpuMemory, cell: int) -> bool {
    &&& !post.spec_contains_cell(cell)
    &&& forall|c: int|
        c != cell ==> (#[trigger] post.spec_contains_cell(c) <==> pre.spec_contains_cell(c))
    &&& forall|c: int, r: Rank, s: Suite|
        c != cell ==> (#[trigger] post.spec_has(c, r, s) <==> pre.spec_has(c, r, s))
}

impl CpuMemory {
    /// At most one remembered identity per cell.
    pub open spec fn wf(self) -> bool {
        forall|i: int, j: int|
            0 <= i < j < self.seen@.len() ==> self.seen@[i].cell != self.seen@[j].cell
    }

    /// Some identity is remembered for this cell.
    pub open spec fn spec_contains_cell(self, cell: int) -> bool {
        exists|i: int| 0 <= i < self.seen@.len() && self.seen@[i].cell == cell
    }

    /// Exactly this identity is remembered for this cell.
    pub open spec fn spec_has(self, cell: int, rank: Rank, suite: Suite) -> bool {
        exists|i: int|
            0 <= i < self.seen@.len() && self.seen@[i].cell == cell && self.seen@[i].rank == rank
                && self.seen@[i].suite == suite
    }

    pub fn new() -> (r: Self)
        ensures
            r.wf(),
            forall|c: int| !r.spec_contains_cell(c),
    {
        CpuMemory { seen: Vec::new() }
    }

    /// Record the identity seen at a cell, replacing what was remembered
    /// there before.
    pub fn insert(&mut self, cell: usize, rank: Rank, suite: Suite)
        requires
            old(self).wf(),
        ensures
            final(self).wf(),
            spec_mem_inserted(*final(self), *old(self), cell as int, rank, suite),
    {
        self.remove(cell);
        let ghost mid = *self;
        self.seen.push(MemoryEntry { cell, rank, suite });
        proof {
            let sm = mid.seen@;
            let sf = self.seen@;
            let e = MemoryEntry { cell, rank, suite };
            assert(sf == sm.push(e));
            assert(sf[sm.len() as int] == e);
            assert(forall|k: int| 0 <= k < sm.len() ==> sf[k] == sm[k]);
            assert forall|a: int, b: int| 0 <= a < b < sf.len() implies sf[a].cell != sf[b].cell by {
                if b == sm.len() {
                    assert(!mid.spec_contains_cell(cell as int));
                    assert(sf[a] == sm[a]);
                } else {
                    assert(mid.wf());
                }
            }
            assert forall|c: int|
                c != cell && old(self).spec_contains_cell(c) implies self.spec_contains_cell(c) by {
                assert(mid.spec_contains_cell(c));
                let j = choose|j: int| 0 <= j < sm.len() && sm[j].cell == c;
                assert(sf[j].cell == c);
            }
            assert forall|c: int, r: Rank, s: Suite|
                c != cell && old(self).spec_has(c, r, s) implies self.spec_has(c, r, s) by {
                assert(mid.spec_has(c, r, s));
                let j = choose|j: int|
                    0 <= j < sm.len() && sm[j].cell == c && sm[j].rank == r && sm[j].suite == s;
                assert(sf[j].cell == c && sf[j].rank == r && sf[j].suite == s);
            }
            assert forall|c: int|
                c != cell && self.spec_contains_cell(c) implies old(self).spec_contains_cell(c) by {
                let j = choose|j: int| 0 <= j < sf.len() && sf[j].cell == c;
                assert(sm[j].cell == c);
                assert(mid.spec_contains_cell(c));
            }
            assert forall|c: int, r: Rank, s: Suite|
                c != cell && self.spec_has(c, r, s) implies old(self).spec_has(c, r, s) by {
                let j = choose|j: int|
                    0 <= j < sf.len() && sf[j].cell == c && sf[j].rank == r && sf[j].suite == s;
                assert(sm[j].cell == c && sm[j].rank == r && sm[j].suite == s);
                assert(mid.spec_has(c, r, s));
            }
            assert forall|r: Rank, s: Suite|
                self.spec_has(cell as int, r, s) implies (r == rank && s == suite) by {
                let j = choose|j: int|
                    0 <= j < sf.len() && sf[j].cell == cell && sf[j].rank == r && sf[j].suite == s;
                if j < sm.len() {
                    assert(mid.spec_contains_cell(cell as int));
                }
            }
        }
    }

    /// Forget the identity remembered for a cell, if any.
    pub fn remove(&mut self, cell: usize)
        requires
            old(self).wf(),
        ensures
            final(self).wf(),
            spec_mem_removed(*final(self), *old(self), cell as int),
    {
        let n = self.seen.len();
        let mut i: usize = 0;
        while i < n
            invariant
                n == self.seen@.len(),
                i <= n,
                *self == *old(self),
                old(self).wf(),
                forall|k: int| 0 <= k < i ==> self.seen@[k].cell != cell,
            decreases n - i,
        {
            if self.seen[i].cell == cell {
                self.seen.remove(i);
                proof {
                    let s_old = old(self).seen@;
                    let s_new = self.seen@;
                    let pos = i as int;
                    assert(s_new == s_old.remove(pos));
                    assert(s_new.len() == s_old.len() - 1);
                    assert(forall|k: int|
                        0 <= k < s_new.len() ==> s_new[k] == (if k < pos {
                            s_old[k]
                        } else {
                            s_old[k + 1]
                        }));
                    assert forall|k: int| 0 <= k < s_new.len() implies s_new[k].cell != cell by {
                        if k >= pos {
                            assert(s_old[pos].cell == cell);
                            assert(s_old[k + 1].cell != s_old[pos].cell);
                        }
                    }
                    assert forall|a: int, b: int|
                        0 <= a < b < s_new.len() implies s_new[a].cell != s_new[b].cell by {
                        let a_o = if a < pos {
                            a
                        } else {
                            a + 1
                        };
                        let b_o = if b < pos {
                            b
                        } else {
                            b + 1
                        };
                        assert(s_new[a] == s_old[a_o]);
                        assert(s_new[b] == s_old[b_o]);
                        assert(s_old[a_o].cell != s_old[b_o].cell);
                    }
                    assert forall|c: int|
                        c != cell && old(self).spec_contains_cell(c) implies self.spec_contains_cell(
                        c,
                    ) by {
                        let j = choose|j: int| 0 <= j < s_old.len() && s_old[j].cell == c;
                        if j < pos {
                            assert(s_new[j].cell == c);
                        } else {
                            assert(j != pos);
                            assert(s_new[j - 1].cell == c);
                        }
                    }
                    assert forall|c: int, r: Rank, s: Suite|
                        c != cell && old(self).spec_has(c, r, s) implies self.spec_has(c, r, s) by {
                        let j = choose|j: int|
                            0 <= j < s_old.len() && s_old[j].cell == c && s_old[j].rank == r
                                && s_old[j].suite == s;
                        if j < pos {
                            assert(s_new[j].cell == c && s_new[j].rank == r && s_new[j].suite
                                == s);
                        } else {
                            assert(j != pos);
                            assert(s_new[j - 1].cell == c && s_new[j - 1].rank == r && s_new[j
                                - 1].suite == s);
                        }
                    }
                }
                return ;
            }
            i += 1;
        }
    }

    /// The identity remembered for a cell, if any.
    pub fn get(&self, cell: usize) -> (r: Option<(Rank, Suite)>)
        requires
            self.wf(),
        ensures
            match r {
                Some((rank, suite)) => self.spec_has(cell as int, rank, suite),
                None => !self.spec_contains_cell(cell as int),
            },
    {
        let n = self.seen.len();
        let mut i: usize = 0;
        while i < n
            invariant
                n == self.seen@.len(),
                i <= n,
                forall|k: int| 0 <= k < i ==> self.seen@[k].cell != cell,
            decreases n - i,
        {
            if self.seen[i].cell == cell {
                return Some((self.seen[i].rank, self.seen[i].suite));
            }
            i += 1;
        }
        None
    }
}

impl Default for CpuMemory {
    /// Empty memory.
    fn default() -> (r: Self)
        ensures
            r.wf(),
            forall|c: int| !r.spec_contains_cell(c),
            r.seen@.len() == 0,
    {
        CpuMemory { seen: Vec::new() }
    }
}

/// Whose turn it is.
#[derive(Debug, Clone, Copy, PartialEq, Eq, Structural)]
pub enum Player {
    Human,
    Cpu,
}

#[derive(Debug, Clone, Copy, PartialEq, Eq, Structural)]
pub struct WhoseTurn {
    pub current: Player,
}

/// Pair counts of both players and the total of resolved pairs.
#[derive(Debug, Clone, Copy, PartialEq, Eq, Structural)]
pub struct GameData {
    pub player_score: u32,
    pub cpu_score: u32,
    pub pairs_found: u32,
}

/// Outcome of a finished round: the higher pair count wins.
#[derive(Debug, Clone, Copy, PartialEq, Eq, Structural)]
pub enum Winner {
    Human,
    Cpu,
    Tie,
}

impl GameData {
    pub open spec fn spec_winner(self) -> Winner {
        if self.player_score > self.cpu_score {
            Winner::Human
        } else if self.cpu_score > self.player_score {
            Winner::Cpu
        } else {
            Winner::Tie
        }
    }

    /// Whoever holds strictly more pairs wins; equal counts tie.
    pub fn winner(&self) -> (w: Winner)
        ensures
            w == self.spec_winner(),
    {
        if self.player_score > self.cpu_score {
            Winner::Human
        } else if self.cpu_score > self.player_score {
            Winner::Cpu
        } else {
            Winner::Tie
        }
    }
}

/// Which card of its turn the CPU is about to pick.
#[derive(Debug, PartialEq, Eq, Clone, Copy, Structural)]
pub enum CpuPickPhase {
    FirstCard,
    SecondCard,
}

/// Think delay before the CPU's first pick of a turn, in milliseconds.
pub const CPU_THINK_DELAY_MS: u32 = 1200;

/// Think delay before the CPU's second pick, in milliseconds.
pub const CPU_SHORT_DELAY_MS: u32 = 800;

/// Fixed judging delay after two cards are revealed, in milliseconds.
pub const JUDGE_DELAY_MS: u32 = 800;

/// The CPU's remaining think delay and its pick sub-phase.
#[derive(Debug, Clone, Copy, PartialEq, Eq, Structural)]
pub struct CpuTurnTimer {
    pub pick_timer_ms: u32,
    pub pick_phase: CpuPickPhase,
}

impl Default for CpuTurnTimer {
    /// Armed for a first pick with the full think delay.
    fn default() -> (r: Self)
        ensures
            r.pick_timer_ms == CPU_THINK_DELAY_MS,
            r.pick_phase == CpuPickPhase::FirstCard,
    {
        CpuTurnTimer { pick_timer_ms: CPU_THINK_DELAY_MS, pick_phase: CpuPickPhase::FirstCard }
    }
}

/// What the system is currently doing; the sole source of truth for which
/// inputs and events are legal.
#[derive(Debug, PartialEq, Eq, Clone, Copy, Structural)]
pub enum Phase {
    PlayerTurn,
    CpuTurn,
    Animating,
    CheckingMatch,
}

#[derive(Debug, PartialEq, Eq, Clone, Copy, Structural)]
pub struct GamePhase(pub Phase);

} // verus!
