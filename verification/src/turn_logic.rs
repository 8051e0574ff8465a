//! The phase/turn state machine: selecting cards, the reveal transition
//! protocol, the judging delay, and match resolution. Illegal actions are
//! silently rejected: no state change, no event emitted.

use vstd::prelude::*;

use crate::components::{
    spec_mem_inserted, CardFaceState, CpuPickPhase, CpuTurnTimer, FlippedCards, GamePhase, Phase,
    Player, CPU_THINK_DELAY_MS, CPU_SHORT_DELAY_MS, JUDGE_DELAY_MS,
};
use crate::events::{CardFlipRequested, FlipAnimationComplete, MatchOutcome, MatchResult};
use crate::game_state::{lemma_count_matched_update, GameState};
use crate::playing_cards::{Rank, Suite};

verus! {

impl GameState {
    /// Fields a reveal transition never touches.
    pub open spec fn spec_flip_frame(pre: GameState, post: GameState) -> bool {
        &&& post.cards == pre.cards
        &&& post.memory == pre.memory
        &&& post.game_data == pre.game_data
        &&& post.whose_turn == pre.whose_turn
        &&& post.judge_timer_ms == pre.judge_timer_ms
        &&& post.game_over == pre.game_over
    }

    /// `post` is `pre` with the card at `cell` logically turned, its
    /// transition outstanding, and the machine waiting on transitions.
    pub open spec fn spec_flip_applied(
        pre: GameState,
        post: GameState,
        cell: int,
        face_up: bool,
    ) -> bool {
        &&& post.faces@ == pre.faces@.update(
            cell,
            if face_up {
                CardFaceState::FaceUp
            } else {
                CardFaceState::FaceDown
            },
        )
        &&& post.pending@ == pre.pending@.update(cell, true)
        &&& post.phase.0 is Animating
        &&& Self::spec_flip_frame(pre, post)
    }

    /// Turn the card at `cell` logically, mark its reveal transition
    /// outstanding, and hold the machine in the transition phase.
    pub(crate) fn apply_flip(&mut self, cell: usize, face_up: bool)
        requires
            old(self).faces@.len() == 52,
            old(self).pending@.len() == 52,
            cell < 52,
        ensures
            Self::spec_flip_applied(*old(self), *final(self), cell as int, face_up),
            final(self).flipped == old(self).flipped,
            final(self).cpu_timer == old(self).cpu_timer,
    {
        self.faces[cell] = if face_up {
            CardFaceState::FaceUp
        } else {
            CardFaceState::FaceDown
        };
        self.pending[cell] = true;
        self.phase = GamePhase(Phase::Animating);
    }

    /// A reveal request is honoured only for a board cell that is not
    /// matched; a hide request must not target a selected cell.
    pub open spec fn spec_flip_request_ok(self, ev: CardFlipRequested) -> bool {
        &&& ev.entity < 52
        &&& !(self.faces@[ev.entity as int] is Matched)
        &&& (!ev.target_face_up ==> self.flipped.first != Some(ev.entity) && self.flipped.second
            != Some(ev.entity))
    }

    /// Honour a reveal request: set the logical visibility at once and
    /// hold the phase until the transition is reported finished.
    pub fn handle_flip_request(&mut self, ev: CardFlipRequested)
        requires
            old(self).wf(),
        ensures
            final(self).wf(),
            !old(self).spec_flip_request_ok(ev) ==> *final(self) == *old(self),
            old(self).spec_flip_request_ok(ev) ==> Self::spec_flip_applied(
                *old(self),
                *final(self),
                ev.entity as int,
                ev.target_face_up,
            ) && final(self).flipped == old(self).flipped && final(self).cpu_timer == old(
                self,
            ).cpu_timer,
    {
        if ev.entity >= 52 {
            return ;
        }
        if matches!(self.faces[ev.entity], CardFaceState::Matched) {
            return ;
        }
        if !ev.target_face_up {
            if let Some(f) = self.flipped.first {
                if f == ev.entity {
                    return ;
                }
            }
            if let Some(s) = self.flipped.second {
                if s == ev.entity {
                    return ;
                }
            }
        }
        let ghost pre = *self;
        self.apply_flip(ev.entity, ev.target_face_up);
        proof {
            lemma_count_matched_update(
                pre.faces@,
                ev.entity as int,
                if ev.target_face_up {
                    CardFaceState::FaceUp
                } else {
                    CardFaceState::FaceDown
                },
            );
        }
    }

    /// Some other cell still has an outstanding reveal transition.
    pub open spec fn spec_other_pending(self, cell: int) -> bool {
        exists|k: int| 0 <= k < 52 && k != cell && self.pending@[k]
    }

    /// What processing a completed transition at `cell` does: the
    /// transition is no longer outstanding, a face-up card is memorized,
    /// and once no transition remains outstanding the machine advances:
    /// two cards revealed start the judging delay; one card revealed
    /// keeps the same owner picking; none revealed passes the turn.
    pub open spec fn spec_flip_complete_post(pre: GameState, post: GameState, cell: int) -> bool {
        &&& post.pending@ == pre.pending@.update(cell, false)
        &&& post.cards == pre.cards
        &&& post.faces == pre.faces
        &&& post.flipped == pre.flipped
        &&& post.game_data == pre.game_data
        &&& post.game_over == pre.game_over
        &&& (pre.faces@[cell] is FaceUp ==> spec_mem_inserted(
            post.memory,
            pre.memory,
            cell,
            pre.cards@[cell].rank,
            pre.cards@[cell].suite,
        ))
        &&& (!(pre.faces@[cell] is FaceUp) ==> post.memory == pre.memory)
        &&& ((pre.spec_other_pending(cell) || !(pre.phase.0 is Animating)) ==> post.phase
            == pre.phase && post.whose_turn == pre.whose_turn && post.cpu_timer == pre.cpu_timer
            && post.judge_timer_ms == pre.judge_timer_ms)
        &&& ((!pre.spec_other_pending(cell) && pre.phase.0 is Animating) ==> {
            &&& (pre.flipped.second is Some ==> post.phase.0 is CheckingMatch
                && post.judge_timer_ms == JUDGE_DELAY_MS && post.whose_turn == pre.whose_turn
                && post.cpu_timer == pre.cpu_timer)
            &&& ((pre.flipped.second is None && pre.flipped.first is Some) ==> {
                &&& post.whose_turn == pre.whose_turn
                &&& post.judge_timer_ms == pre.judge_timer_ms
                &&& (pre.whose_turn.current is Human ==> post.phase.0 is PlayerTurn
                    && post.cpu_timer == pre.cpu_timer)
                &&& (pre.whose_turn.current is Cpu ==> post.phase.0 is CpuTurn && post.cpu_timer
                    == (CpuTurnTimer {
                    pick_timer_ms: CPU_SHORT_DELAY_MS,
                    pick_phase: CpuPickPhase::SecondCard,
                }))
            })
            &&& (pre.flipped.first is None ==> {
                &&& post.judge_timer_ms == pre.judge_timer_ms
                &&& (pre.whose_turn.current is Human ==> post.whose_turn.current is Cpu
                    && post.phase.0 is CpuTurn && post.cpu_timer == (CpuTurnTimer {
                    pick_timer_ms: CPU_THINK_DELAY_MS,
                    pick_phase: CpuPickPhase::FirstCard,
                }))
                &&& (pre.whose_turn.current is Cpu ==> post.whose_turn.current is Human
                    && post.phase.0 is PlayerTurn && post.cpu_timer == pre.cpu_timer)
            })
        })
    }

    /// The presentation layer reports the reveal transition of one cell
    /// finished. The state machine only advances once no transition on
    /// the current selection remains outstanding.
    pub fn handle_flip_complete(&mut self, ev: FlipAnimationComplete)
        requires
            old(self).wf(),
        ensures
            final(self).wf(),
            !(ev.entity < 52 && old(self).pending@[ev.entity as int]) ==> *final(self) == *old(
                self,
            ),
            (ev.entity < 52 && old(self).pending@[ev.entity as int])
                ==> Self::spec_flip_complete_post(*old(self), *final(self), ev.entity as int),
    {
        let cell = ev.entity;
        if cell >= 52 {
            return ;
        }
        if !self.pending[cell] {
            return ;
        }
        self.pending[cell] = false;
        self.record_to_cpu_memory(cell);
        let mut any: bool = false;
        let mut k: usize = 0;
        while k < 52
            invariant
                k <= 52,
                self.pending@.len() == 52,
                any == exists|j: int| 0 <= j < k && self.pending@[j],
            decreases 52 - k,
        {
            if self.pending[k] {
                any = true;
            }
            k += 1;
        }
        if any {
            return ;
        }
        proof {
            if old(self).spec_other_pending(cell as int) {
                let kw = choose|kw: int| 0 <= kw < 52 && kw != cell && old(self).pending@[kw];
                assert(self.pending@[kw]);
            }
            assert(!old(self).spec_other_pending(cell as int));
        }
        if !matches!(self.phase.0, Phase::Animating) {
            return ;
        }
        if self.flipped.second.is_some() {
            self.phase = GamePhase(Phase::CheckingMatch);
            self.judge_timer_ms = JUDGE_DELAY_MS;
        } else if self.flipped.first.is_some() {
            match self.whose_turn.current {
                Player::Human => {
                    self.phase = GamePhase(Phase::PlayerTurn);
                },
                Player::Cpu => {
                    self.cpu_timer = CpuTurnTimer {
                        pick_timer_ms: CPU_SHORT_DELAY_MS,
                        pick_phase: CpuPickPhase::SecondCard,
                    };
                    self.phase = GamePhase(Phase::CpuTurn);
                },
            }
        } else {
            match self.whose_turn.current {
                Player::Human => {
                    self.whose_turn.current = Player::Cpu;
                    self.cpu_timer = CpuTurnTimer {
                        pick_timer_ms: CPU_THINK_DELAY_MS,
                        pick_phase: CpuPickPhase::FirstCard,
                    };
                    self.phase = GamePhase(Phase::CpuTurn);
                },
                Player::Cpu => {
                    self.whose_turn.current = Player::Human;
                    self.phase = GamePhase(Phase::PlayerTurn);
                },
            }
        }
    }

    /// Whether a player click on this cell is legal now: the human to
    /// move, the machine idle, the cell face down and not already the
    /// first selection.
    pub open spec fn spec_click_ok(self, cell: usize) -> bool {
        &&& self.phase.0 is PlayerTurn
        &&& !self.game_over
        &&& cell < 52
        &&& self.faces@[cell as int] is FaceDown
        &&& self.flipped.first != Some(cell)
    }

    /// A player selects a face-down cell: it is recorded in the selection
    /// tracker (first slot if empty, else second) and its reveal is
    /// requested. Illegal clicks change nothing and emit nothing.
    pub fn handle_player_click(&mut self, cell: usize) -> (r: Option<CardFlipRequested>)
        requires
            old(self).wf(),
        ensures
            final(self).wf(),
            !old(self).spec_click_ok(cell) ==> *final(self) == *old(self) && r is None,
            old(self).spec_click_ok(cell) ==> {
                &&& r == Some(CardFlipRequested { entity: cell, target_face_up: true })
                &&& Self::spec_flip_applied(*old(self), *final(self), cell as int, true)
                &&& final(self).cpu_timer == old(self).cpu_timer
                &&& final(self).flipped == (if old(self).flipped.first is None {
                    FlippedCards { first: Some(cell), second: old(self).flipped.second }
                } else {
                    FlippedCards { first: old(self).flipped.first, second: Some(cell) }
                })
            },
    {
        if !matches!(self.phase.0, Phase::PlayerTurn) || self.game_over {
            return None;
        }
        if cell >= 52 {
            return None;
        }
        if !matches!(self.faces[cell], CardFaceState::FaceDown) {
            return None;
        }
        if let Some(f) = self.flipped.first {
            if f == cell {
                return None;
            }
        }
        let ghost pre = *self;
        if self.flipped.first.is_none() {
            self.flipped.first = Some(cell);
        } else {
            self.flipped.second = Some(cell);
        }
        self.apply_flip(cell, true);
        proof {
            lemma_count_matched_update(pre.faces@, cell as int, CardFaceState::FaceUp);
        }
        Some(CardFlipRequested { entity: cell, target_face_up: true })
    }

    /// A judging delay is running: two cards are revealed and the round
    /// is not over.
    pub open spec fn spec_judging_active(self) -> bool {
        self.phase.0 is CheckingMatch && !self.game_over
    }

    /// Everything but the judging timer is as before.
    pub open spec fn spec_only_judge_timer_changed(pre: GameState, post: GameState) -> bool {
        &&& post.cards == pre.cards
        &&& post.faces == pre.faces
        &&& post.pending == pre.pending
        &&& post.flipped == pre.flipped
        &&& post.memory == pre.memory
        &&& post.game_data == pre.game_data
        &&& post.whose_turn == pre.whose_turn
        &&& post.cpu_timer == pre.cpu_timer
        &&& post.phase == pre.phase
        &&& post.game_over == pre.game_over
    }

    /// Run the fixed judging delay down by one tick; when it elapses,
    /// judge the two revealed cells: they match exactly when their ranks
    /// are equal, suit ignored.
    pub fn check_match_timing(&mut self, delta_ms: u32) -> (r: Option<MatchResult>)
        requires
            old(self).wf(),
        ensures
            final(self).wf(),
            !old(self).spec_judging_active() ==> *final(self) == *old(self) && r is None,
            old(self).spec_judging_active() ==> Self::spec_only_judge_timer_changed(
                *old(self),
                *final(self),
            ),
            (old(self).spec_judging_active() && old(self).judge_timer_ms > delta_ms) ==> final(self).judge_timer_ms == old(self).judge_timer_ms - delta_ms && r is None,
            (old(self).spec_judging_active() && old(self).judge_timer_ms <= delta_ms) ==> final(self).judge_timer_ms == JUDGE_DELAY_MS && r is Some,
            r matches Some(m) ==> {
                &&& m.first < 52 && m.second < 52 && m.first != m.second
                &&& old(self).flipped.first == Some(m.first)
                &&& old(self).flipped.second == Some(m.second)
                &&& (m.matched <==> old(self).cards@[m.first as int].rank == old(self).cards@[m.second as int].rank)
            },
    {
        if !matches!(self.phase.0, Phase::CheckingMatch) || self.game_over {
            return None;
        }
        let t = self.judge_timer_ms;
        if t > delta_ms {
            self.judge_timer_ms = t - delta_ms;
            return None;
        }
        self.judge_timer_ms = JUDGE_DELAY_MS;
        let first = match self.flipped.first {
            Some(f) => f,
            None => {
                proof {
                    assert(false);
                }
                0
            },
        };
        let second = match self.flipped.second {
            Some(s) => s,
            None => {
                proof {
                    assert(false);
                }
                0
            },
        };
        let matched = self.cards[first].rank == self.cards[second].rank;
        Some(MatchResult { matched, first, second })
    }

    /// A judged result belongs to the current cycle only if it names the
    /// two selected cells while the machine is judging.
    pub open spec fn spec_match_ok(self, ev: MatchResult) -> bool {
        &&& self.phase.0 is CheckingMatch
        &&& !self.game_over
        &&& self.flipped.first == Some(ev.first)
        &&& self.flipped.second == Some(ev.second)
    }

    /// What resolving a match does: both cells become matched and leave
    /// the CPU memory, the owner's pair count and the total rise by one,
    /// and the selection empties. The round ends exactly when the total
    /// reaches 26; otherwise the same owner keeps the turn.
    pub open spec fn spec_match_applied(pre: GameState, post: GameState, f: int, s: int) -> bool {
        &&& post.faces@ == pre.faces@.update(f, CardFaceState::Matched).update(
            s,
            CardFaceState::Matched,
        )
        &&& post.flipped.first is None && post.flipped.second is None
        &&& !post.memory.spec_contains_cell(f)
        &&& !post.memory.spec_contains_cell(s)
        &&& (forall|c: int|
            c != f && c != s ==> (#[trigger] post.memory.spec_contains_cell(c)
                <==> pre.memory.spec_contains_cell(c)))
        &&& (forall|c: int, r: Rank, su: Suite|
            c != f && c != s ==> (#[trigger] post.memory.spec_has(c, r, su)
                <==> pre.memory.spec_has(c, r, su)))
        &&& post.game_data.pairs_found == pre.game_data.pairs_found + 1
        &&& (pre.whose_turn.current is Human ==> post.game_data.player_score
            == pre.game_data.player_score + 1 && post.game_data.cpu_score
            == pre.game_data.cpu_score)
        &&& (pre.whose_turn.current is Cpu ==> post.game_data.cpu_score
            == pre.game_data.cpu_score + 1 && post.game_data.player_score
            == pre.game_data.player_score)
        &&& post.cards == pre.cards
        &&& post.pending == pre.pending
        &&& post.whose_turn == pre.whose_turn
        &&& post.judge_timer_ms == pre.judge_timer_ms
        &&& (post.game_over <==> post.game_data.pairs_found == 26)
        &&& (!post.game_over ==> {
            &&& (pre.whose_turn.current is Human ==> post.phase.0 is PlayerTurn && post.cpu_timer
                == pre.cpu_timer)
            &&& (pre.whose_turn.current is Cpu ==> post.phase.0 is CpuTurn && post.cpu_timer == (
            CpuTurnTimer {
                pick_timer_ms: CPU_SHORT_DELAY_MS,
                pick_phase: CpuPickPhase::FirstCard,
            }))
        })
        &&& (post.game_over ==> post.phase == pre.phase && post.cpu_timer == pre.cpu_timer)
    }

    /// What resolving a mismatch does: the selection empties and both
    /// cards are turned back face down, their hide transitions
    /// outstanding, before the turn passes.
    pub open spec fn spec_mismatch_applied(pre: GameState, post: GameState, f: int, s: int) -> bool {
        &&& post.faces@ == pre.faces@.update(f, CardFaceState::FaceDown).update(
            s,
            CardFaceState::FaceDown,
        )
        &&& post.pending@ == pre.pending@.update(f, true).update(s, true)
        &&& post.flipped.first is None && post.flipped.second is None
        &&& post.phase.0 is Animating
        &&& post.cards == pre.cards
        &&& post.memory == pre.memory
        &&& post.game_data == pre.game_data
        &&& post.whose_turn == pre.whose_turn
        &&& post.cpu_timer == pre.cpu_timer
        &&& post.judge_timer_ms == pre.judge_timer_ms
        &&& post.game_over == pre.game_over
    }

    /// Resolve a judged pair: score and terminate on a match, hide both
    /// cards again on a mismatch. A result that does not belong to the
    /// current judging cycle changes nothing.
    pub fn handle_match_result(&mut self, ev: &MatchResult) -> (out: MatchOutcome)
        requires
            old(self).wf(),
        ensures
            final(self).wf(),
            !old(self).spec_match_ok(*ev) ==> *final(self) == *old(self) && out is Rejected,
            (old(self).spec_match_ok(*ev) && ev.matched) ==> {
                &&& Self::spec_match_applied(*old(self), *final(self), ev.first as int, ev.second as int)
                &&& (out is RoundEnded <==> final(self).game_over)
                &&& (out is RoundEnded <==> final(self).game_data.pairs_found == 26)
                &&& (out is RoundEnded ==> out == (MatchOutcome::RoundEnded {
                    human_score: final(self).game_data.player_score,
                    cpu_score: final(self).game_data.cpu_score,
                }))
                &&& (!final(self).game_over ==> out is Continue)
            },
            (old(self).spec_match_ok(*ev) && !ev.matched) ==> {
                &&& Self::spec_mismatch_applied(*old(self), *final(self), ev.first as int, ev.second as int)
                &&& out == (MatchOutcome::Mismatch(
                    CardFlipRequested { entity: ev.first, target_face_up: false },
                    CardFlipRequested { entity: ev.second, target_face_up: false },
                ))
            },
    {
        if !matches!(self.phase.0, Phase::CheckingMatch) || self.game_over {
            return MatchOutcome::Rejected;
        }
        let sel_ok = match (self.flipped.first, self.flipped.second) {
            (Some(a), Some(b)) => a == ev.first && b == ev.second,
            _ => false,
        };
        if !sel_ok {
            return MatchOutcome::Rejected;
        }
        let first = ev.first;
        let second = ev.second;
        if ev.matched {
            let ghost pre = *self;
            self.faces[first] = CardFaceState::Matched;
            let ghost mid = *self;
            self.faces[second] = CardFaceState::Matched;
            proof {
                lemma_count_matched_update(pre.faces@, first as int, CardFaceState::Matched);
                lemma_count_matched_update(mid.faces@, second as int, CardFaceState::Matched);
            }
            self.memory.remove(first);
            self.memory.remove(second);
            match self.whose_turn.current {
                Player::Human => {
                    self.game_data.player_score = self.game_data.player_score + 1;
                },
                Player::Cpu => {
                    self.game_data.cpu_score = self.game_data.cpu_score + 1;
                },
            }
            self.game_data.pairs_found = self.game_data.pairs_found + 1;
            self.flipped.first = None;
            self.flipped.second = None;
            if self.game_data.pairs_found >= 26 {
                self.game_over = true;
                MatchOutcome::RoundEnded {
                    human_score: self.game_data.player_score,
                    cpu_score: self.game_data.cpu_score,
                }
            } else {
                match self.whose_turn.current {
                    Player::Human => {
                        self.phase = GamePhase(Phase::PlayerTurn);
                    },
                    Player::Cpu => {
                        self.cpu_timer = CpuTurnTimer {
                            pick_timer_ms: CPU_SHORT_DELAY_MS,
                            pick_phase: CpuPickPhase::FirstCard,
                        };
                        self.phase = GamePhase(Phase::CpuTurn);
                    },
                }
                MatchOutcome::Continue
            }
        } else {
            let ghost pre = *self;
            self.flipped.first = None;
            self.flipped.second = None;
            self.apply_flip(first, false);
            self.apply_flip(second, false);
            proof {
                lemma_count_matched_update(pre.faces@, first as int, CardFaceState::FaceDown);
                lemma_count_matched_update(
                    pre.faces@.update(first as int, CardFaceState::FaceDown),
                    second as int,
                    CardFaceState::FaceDown,
                );
            }
            MatchOutcome::Mismatch(
                CardFlipRequested { entity: first, target_face_up: false },
                CardFlipRequested { entity: second, target_face_up: false },
            )
        }
    }
}

} // verus!
