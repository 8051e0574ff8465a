//! The CPU decision engine: pure selection logic over the face-down cells
//! and the CPU's memory. A remembered pair is preferred; otherwise the
//! pick is random among the verified face-down cells.

use vstd::prelude::*;

use crate::components::{
    spec_mem_inserted, CardEntity, CardFaceState, CpuMemory, CpuPickPhase, FlippedCards, Phase,
    Player,
};
use crate::events::CardFlipRequested;
use crate::game_state::{lemma_count_matched_update, GameState};
use crate::playing_cards::Rank;
use crate::rng::random_below;

verus! {

impl GameState {
    /// A reveal transition has completed: if the card now lies face up,
    /// the CPU memorizes its identity, whoever revealed it.
    pub fn record_to_cpu_memory(&mut self, cell: usize)
        requires
            old(self).wf(),
        ensures
            final(self).wf(),
            Self::spec_only_memory_changed(*old(self), *final(self)),
            (cell < 52 && old(self).faces@[cell as int] is FaceUp) ==> spec_mem_inserted(
                final(self).memory,
                old(self).memory,
                cell as int,
                old(self).cards@[cell as int].rank,
                old(self).cards@[cell as int].suite,
            ),
            !(cell < 52 && old(self).faces@[cell as int] is FaceUp) ==> final(self).memory == old(
                self,
            ).memory,
    {
        if cell >= 52 {
            return ;
        }
        if matches!(self.faces[cell], CardFaceState::FaceUp) {
            let card = self.cards[cell];
            self.memory.insert(cell, card.rank, card.suite);
        }
    }

    /// The CPU may act: it owns the turn and the round is running.
    pub open spec fn spec_cpu_active(self) -> bool {
        &&& self.phase.0 is CpuTurn
        &&& self.whose_turn.current is Cpu
        &&& !self.game_over
    }

    /// Everything but the CPU's remaining think delay is as before.
    pub open spec fn spec_only_pick_timer_changed(pre: GameState, post: GameState) -> bool {
        &&& post.cards == pre.cards
        &&& post.faces == pre.faces
        &&& post.pending == pre.pending
        &&& post.flipped == pre.flipped
        &&& post.memory == pre.memory
        &&& post.game_data == pre.game_data
        &&& post.whose_turn == pre.whose_turn
        &&& post.cpu_timer.pick_phase == pre.cpu_timer.pick_phase
        &&& post.phase == pre.phase
        &&& post.judge_timer_ms == pre.judge_timer_ms
        &&& post.game_over == pre.game_over
    }

    /// Run the CPU's think delay down by one tick; when it elapses, the
    /// decision engine picks a face-down cell (never an already revealed
    /// one, and never the first pick again as the second), records it in
    /// the selection and requests its reveal.
    pub fn cpu_turn(&mut self, delta_ms: u32) -> (r: Option<CardFlipRequested>)
        requires
            old(self).wf(),
        ensures
            final(self).wf(),
            !old(self).spec_cpu_active() ==> *final(self) == *old(self) && r is None,
            (old(self).spec_cpu_active() && old(self).cpu_timer.pick_timer_ms > delta_ms) ==> r
                is None && Self::spec_only_pick_timer_changed(*old(self), *final(self))
                && final(self).cpu_timer.pick_timer_ms == old(self).cpu_timer.pick_timer_ms - delta_ms,
            (old(self).spec_cpu_active() && old(self).cpu_timer.pick_timer_ms <= delta_ms && r
                is None) ==> Self::spec_only_pick_timer_changed(*old(self), *final(self))
                && final(self).cpu_timer.pick_timer_ms == 0,
            (old(self).spec_cpu_active() && old(self).cpu_timer.pick_timer_ms <= delta_ms && (
            exists|i: int| 0 <= i < 52 && old(self).faces@[i] is FaceDown)
                && (old(self).cpu_timer.pick_phase is SecondCard ==> old(self).flipped.first
                is Some)) ==> r is Some,
            r matches Some(req) ==> {
                &&& old(self).spec_cpu_active()
                &&& req.target_face_up
                &&& req.entity < 52
                &&& old(self).faces@[req.entity as int] is FaceDown
                &&& final(self).faces@ == old(self).faces@.update(
                    req.entity as int,
                    CardFaceState::FaceUp,
                )
                &&& final(self).pending@ == old(self).pending@.update(req.entity as int, true)
                &&& final(self).phase.0 is Animating
                &&& final(self).cards == old(self).cards
                &&& final(self).memory == old(self).memory
                &&& final(self).game_data == old(self).game_data
                &&& final(self).whose_turn == old(self).whose_turn
                &&& final(self).judge_timer_ms == old(self).judge_timer_ms
                &&& final(self).game_over == old(self).game_over
                &&& final(self).cpu_timer.pick_timer_ms == 0
                &&& final(self).cpu_timer.pick_phase == old(self).cpu_timer.pick_phase
                &&& (old(self).cpu_timer.pick_phase is FirstCard ==> final(self).flipped == (
                FlippedCards { first: Some(req.entity), second: old(self).flipped.second }))
                &&& (old(self).cpu_timer.pick_phase is SecondCard ==> old(self).flipped.first
                    is Some && old(self).flipped.first != Some(req.entity) && final(self).flipped
                    == (FlippedCards {
                    first: old(self).flipped.first,
                    second: Some(req.entity),
                }))
            },
    {
        if !matches!(self.phase.0, Phase::CpuTurn) || !matches!(
            self.whose_turn.current,
            Player::Cpu,
        ) || self.game_over {
            return None;
        }
        let t = self.cpu_timer.pick_timer_ms;
        if t > delta_ms {
            self.cpu_timer.pick_timer_ms = t - delta_ms;
            return None;
        }
        self.cpu_timer.pick_timer_ms = 0;
        let mut face_down: Vec<CardEntity> = Vec::new();
        let mut i: usize = 0;
        while i < 52
            invariant
                i <= 52,
                self.cards@.len() == 52,
                self.faces@.len() == 52,
                forall|k: int| 0 <= k < 52 ==> (#[trigger] self.cards@[k].grid_index) == k,
                forall|q: int|
                    0 <= q < face_down@.len() ==> (#[trigger] face_down@[q]).grid_index < 52
                        && self.faces@[face_down@[q].grid_index as int] is FaceDown,
                forall|c: int|
                    0 <= c < i && (#[trigger] self.faces@[c]) is FaceDown ==> face_down@.len() > 0,
            decreases 52 - i,
        {
            if matches!(self.faces[i], CardFaceState::FaceDown) {
                face_down.push(self.cards[i]);
            }
            i += 1;
        }
        if face_down.len() == 0 {
            return None;
        }
        let ghost pre = *self;
        if matches!(self.cpu_timer.pick_phase, CpuPickPhase::FirstCard) {
            let chosen = cpu_pick_first(&face_down, &self.memory);
            proof {
                let q = choose|q: int|
                    0 <= q < face_down@.len() && face_down@[q].grid_index == chosen;
                assert(self.faces@[chosen as int] is FaceDown);
            }
            self.flipped.first = Some(chosen);
            self.apply_flip(chosen, true);
            proof {
                lemma_count_matched_update(pre.faces@, chosen as int, CardFaceState::FaceUp);
            }
            Some(CardFlipRequested { entity: chosen, target_face_up: true })
        } else {
            let first_entity = match self.flipped.first {
                Some(f) => f,
                None => {
                    return None;
                },
            };
            let first_card = self.cards[first_entity];
            let chosen = cpu_pick_second(&first_card, &face_down, &self.memory, first_entity);
            proof {
                assert(self.faces@[first_entity as int] is FaceUp);
                assert(face_down@[0].grid_index != first_entity);
                let q = choose|q: int|
                    0 <= q < face_down@.len() && face_down@[q].grid_index == chosen;
                assert(self.faces@[chosen as int] is FaceDown);
            }
            self.flipped.second = Some(chosen);
            self.apply_flip(chosen, true);
            proof {
                lemma_count_matched_update(pre.faces@, chosen as int, CardFaceState::FaceUp);
            }
            Some(CardFlipRequested { entity: chosen, target_face_up: true })
        }
    }
}

/// Some card in the face-down list sits at this cell.
pub open spec fn spec_face_down_has(fd: Seq<CardEntity>, cell: int) -> bool {
    exists|k: int| 0 <= k < fd.len() && fd[k].grid_index == cell
}

/// The memory knows two distinct face-down cells of equal rank: revealing
/// them in one turn is a guaranteed match.
pub open spec fn spec_remembered_pair(fd: Seq<CardEntity>, mem: CpuMemory, c1: int, c2: int) -> bool {
    &&& c1 != c2
    &&& spec_face_down_has(fd, c1)
    &&& spec_face_down_has(fd, c2)
    &&& exists|i: int, j: int|
        0 <= i < mem.seen@.len() && 0 <= j < mem.seen@.len() && mem.seen@[i].cell == c1
            && mem.seen@[j].cell == c2 && mem.seen@[i].rank == mem.seen@[j].rank
}

/// The memory knows a face-down cell of the given rank other than the
/// excluded cell.
pub open spec fn spec_remembered_match(
    fd: Seq<CardEntity>,
    mem: CpuMemory,
    rank: Rank,
    exclude: int,
    c: int,
) -> bool {
    &&& c != exclude
    &&& spec_face_down_has(fd, c)
    &&& exists|i: int|
        0 <= i < mem.seen@.len() && mem.seen@[i].cell == c && mem.seen@[i].rank == rank
}

/// The memory knows a face-down pair whose first cell is `c`.
pub open spec fn spec_knows_pair_at(fd: Seq<CardEntity>, mem: CpuMemory, c: int) -> bool {
    exists|c2: int| spec_remembered_pair(fd, mem, c, c2)
}

/// Entries `a` and `b` of the memory witness a remembered face-down pair.
spec fn spec_pair_entries(fd: Seq<CardEntity>, mem: CpuMemory, a: int, b: int) -> bool {
    &&& 0 <= a < mem.seen@.len()
    &&& 0 <= b < mem.seen@.len()
    &&& a != b
    &&& mem.seen@[a].rank == mem.seen@[b].rank
    &&& spec_face_down_has(fd, mem.seen@[a].cell as int)
    &&& spec_face_down_has(fd, mem.seen@[b].cell as int)
}

/// Whether any card of the face-down list sits at this cell.
fn face_down_lookup(face_down: &Vec<CardEntity>, cell: usize) -> (r: bool)
    ensures
        r == spec_face_down_has(face_down@, cell as int),
{
    let n = face_down.len();
    let mut k: usize = 0;
    while k < n
        invariant
            n == face_down@.len(),
            k <= n,
            forall|m: int| 0 <= m < k ==> face_down@[m].grid_index != cell,
        decreases n - k,
    {
        if face_down[k].grid_index == cell {
            return true;
        }
        k += 1;
    }
    false
}

/// First card of a remembered face-down pair, if the memory knows one.
pub fn find_known_pair_first(face_down: &Vec<CardEntity>, memory: &CpuMemory) -> (r: Option<usize>)
    requires
        memory.wf(),
    ensures
        match r {
            Some(c) => spec_knows_pair_at(face_down@, *memory, c as int),
            None => forall|c1: int, c2: int|
                !spec_remembered_pair(face_down@, *memory, c1, c2),
        },
{
    let n = memory.seen.len();
    let mut i: usize = 0;
    while i < n
        invariant
            memory.wf(),
            n == memory.seen@.len(),
            i <= n,
            forall|a: int, b: int|
                0 <= a < i && 0 <= b < n ==> !spec_pair_entries(face_down@, *memory, a, b),
        decreases n - i,
    {
        if face_down_lookup(face_down, memory.seen[i].cell) {
            let mut j: usize = 0;
            while j < n
                invariant
                    memory.wf(),
                    n == memory.seen@.len(),
                    i < n,
                    j <= n,
                    spec_face_down_has(face_down@, memory.seen@[i as int].cell as int),
                    forall|b: int| 0 <= b < j ==> !spec_pair_entries(face_down@, *memory, i as int, b),
                decreases n - j,
            {
                if j != i && memory.seen[j].rank == memory.seen[i].rank {
                    if face_down_lookup(face_down, memory.seen[j].cell) {
                        proof {
                            let s = memory.seen@;
                            let wi = i as int;
                            let wj = j as int;
                            if wi < wj {
                                assert(s[wi].cell != s[wj].cell);
                            } else {
                                assert(s[wj].cell != s[wi].cell);
                            }
                            let c1 = s[wi].cell as int;
                            let c2 = s[wj].cell as int;
                            assert(s[wi].cell == c1 && s[wj].cell == c2 && s[wi].rank == s[wj].rank);
                            assert(spec_remembered_pair(face_down@, *memory, c1, c2));
                            assert(spec_knows_pair_at(face_down@, *memory, c1));
                        }
                        return Some(memory.seen[i].cell);
                    }
                }
                j += 1;
            }
        }
        i += 1;
    }
    proof {
        assert forall|c1: int, c2: int| !spec_remembered_pair(face_down@, *memory, c1, c2) by {
            if spec_remembered_pair(face_down@, *memory, c1, c2) {
                let (wi, wj): (int, int) = choose|wi: int, wj: int|
                    0 <= wi < memory.seen@.len() && 0 <= wj < memory.seen@.len()
                        && memory.seen@[wi].cell == c1 && memory.seen@[wj].cell == c2
                        && memory.seen@[wi].rank == memory.seen@[wj].rank;
                assert(spec_pair_entries(face_down@, *memory, wi, wj));
            }
        }
    }
    None
}

/// The CPU's first pick of a turn: a cell of a remembered face-down pair
/// when the memory knows one, else a random face-down cell.
pub fn cpu_pick_first(face_down: &Vec<CardEntity>, memory: &CpuMemory) -> (r: usize)
    requires
        memory.wf(),
        face_down@.len() > 0,
    ensures
        spec_face_down_has(face_down@, r as int),
        (exists|c1: int| spec_knows_pair_at(face_down@, *memory, c1))
            ==> spec_knows_pair_at(face_down@, *memory, r as int),
{
    if let Some(entity) = find_known_pair_first(face_down, memory) {
        return entity;
    }
    let k = random_below(face_down.len());
    face_down[k].grid_index
}

/// The CPU's second pick: the remembered partner of the first card's rank
/// when the memory knows one that is still face down; else a random
/// face-down cell other than the first; the first cell itself only when
/// no other face-down cell exists.
pub fn cpu_pick_second(
    first_card: &CardEntity,
    face_down: &Vec<CardEntity>,
    memory: &CpuMemory,
    first_entity: usize,
) -> (r: usize)
    requires
        memory.wf(),
    ensures
        spec_face_down_has(face_down@, r as int) || r == first_entity,
        (exists|c: int|
            spec_remembered_match(
                face_down@,
                *memory,
                first_card.rank,
                first_entity as int,
                c,
            )) ==> spec_remembered_match(
            face_down@,
            *memory,
            first_card.rank,
            first_entity as int,
            r as int,
        ),
        (exists|k: int| 0 <= k < face_down@.len() && face_down@[k].grid_index != first_entity) ==> (
        r != first_entity && spec_face_down_has(face_down@, r as int)),
{
    let n = memory.seen.len();
    let mut i: usize = 0;
    while i < n
        invariant
            memory.wf(),
            n == memory.seen@.len(),
            i <= n,
            forall|a: int|
                0 <= a < i ==> !(memory.seen@[a].rank == first_card.rank
                    && memory.seen@[a].cell != first_entity && spec_face_down_has(
                    face_down@,
                    memory.seen@[a].cell as int,
                )),
        decreases n - i,
    {
        if memory.seen[i].rank == first_card.rank && memory.seen[i].cell != first_entity {
            if face_down_lookup(face_down, memory.seen[i].cell) {
                return memory.seen[i].cell;
            }
        }
        i += 1;
    }
    proof {
        assert forall|c: int|
            !spec_remembered_match(
                face_down@,
                *memory,
                first_card.rank,
                first_entity as int,
                c,
            ) by {
            if spec_remembered_match(face_down@, *memory, first_card.rank, first_entity as int, c) {
                let wi = choose|wi: int|
                    0 <= wi < memory.seen@.len() && memory.seen@[wi].cell == c
                        && memory.seen@[wi].rank == first_card.rank;
                assert(!(memory.seen@[wi].rank == first_card.rank && memory.seen@[wi].cell
                    != first_entity && spec_face_down_has(
                    face_down@,
                    memory.seen@[wi].cell as int,
                )));
            }
        }
    }
    let m = face_down.len();
    let mut candidates: Vec<usize> = Vec::new();
    let mut k: usize = 0;
    while k < m
        invariant
            m == face_down@.len(),
            k <= m,
            forall|q: int|
                0 <= q < candidates@.len() ==> candidates@[q] != first_entity
                    && spec_face_down_has(face_down@, candidates@[q] as int),
            forall|p: int|
                0 <= p < k && face_down@[p].grid_index != first_entity ==> candidates@.len() > 0,
        decreases m - k,
    {
        if face_down[k].grid_index != first_entity {
            candidates.push(face_down[k].grid_index);
        }
        k += 1;
    }
    if candidates.len() == 0 {
        return first_entity;
    }
    let idx = random_below(candidates.len());
    candidates[idx]
}

} // verus!
