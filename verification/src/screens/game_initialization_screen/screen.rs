use vstd::prelude::*;

use super::player_count_state::PlayerCountState;
use super::player_order_state::PlayerOrderState;
use super::player_order_state::RollState;
use super::player_pawn_color_state::color_at;
use super::player_pawn_color_state::PlayerPawnColorState;
use crate::custom_widgets::button::Button;
use crate::custom_widgets::button::ButtonState;
use crate::entities::pawn::PawnColor;
use crate::entities::player::Player;
use crate::event::KeyInput;
use crate::screens::game_main_screen::screen::is_fresh_roster;
use crate::screens::game_main_screen::restore::lemma_fresh_is_unique;
use crate::screens::game_main_screen::restore::same_player;
use crate::screens::game_main_screen::screen::GameState;
use crate::screens::pause_menu::screen::reselected;
use crate::text::decimal;
use crate::text::number_text;
use crate::utils::has_duplicate_values;
use crate::utils::has_equal_values;
use crate::utils::next_with_wrap;
use crate::utils::previous_with_wrap;
use crate::utils::roll_dice;

verus! {

/// The steps of the wizard, in their order.
#[derive(Debug, Clone, Copy, PartialEq, Eq, PartialOrd, Structural)]
pub enum GameInitializationStep {
    PlayerNumberSelection,
    PlayerPawnColorSelection,
    PlayerOrderSelection,
    Confirmation,
}

impl GameInitializationStep {
    /// Place of the step in the order of the wizard.
    pub open spec fn spec_rank(self) -> int {
        match self {
            GameInitializationStep::PlayerNumberSelection => 0,
            GameInitializationStep::PlayerPawnColorSelection => 1,
            GameInitializationStep::PlayerOrderSelection => 2,
            GameInitializationStep::Confirmation => 3,
        }
    }

    /// Place of the step in the order of the wizard.
    pub fn rank(&self) -> (r: u8)
        ensures
            r == self.spec_rank(),
    {
        match self {
            GameInitializationStep::PlayerNumberSelection => 0,
            GameInitializationStep::PlayerPawnColorSelection => 1,
            GameInitializationStep::PlayerOrderSelection => 2,
            GameInitializationStep::Confirmation => 3,
        }
    }
}

/// The wizard that seats the players before a match.
pub struct GameInitializationScreen {
    pub state: GameState,
    pub players: Vec<Player>,
    pub step: GameInitializationStep,
    pub player_count_state: PlayerCountState,
    pub player_order_state: PlayerOrderState,
    pub pawn_color_state: PlayerPawnColorState,
    pub is_game_initialized: bool,
}

/// The index reached from `from` after `hops` steps round the four colour buttons.
pub open spec fn hop(from: int, hops: int, forward: bool) -> int {
    if forward {
        (from + hops) % 4
    } else {
        (from + 3 * hops) % 4
    }
}

/// The colour of the button `hops` steps from `from` is taken.
pub open spec fn taken_at(taken: Seq<PawnColor>, from: int, hops: int, forward: bool) -> bool {
    taken.contains(color_at(hop(from, hops, forward)))
}

/// The first colour button, from `from` on in the given direction, whose colour is free;
/// the first button of all where every colour is taken or `from` names no button.
pub open spec fn first_free(taken: Seq<PawnColor>, from: int, forward: bool) -> int {
    if taken.len() == 4 || from < 0 || from >= 4 {
        0
    } else if !taken_at(taken, from, 0, forward) {
        hop(from, 0, forward)
    } else if !taken_at(taken, from, 1, forward) {
        hop(from, 1, forward)
    } else if !taken_at(taken, from, 2, forward) {
        hop(from, 2, forward)
    } else if !taken_at(taken, from, 3, forward) {
        hop(from, 3, forward)
    } else {
        0
    }
}

/// The colour buttons after the selection has gone from `from` to `to`: where `to` names
/// a button, that one is selected; the one at `from` is back to normal unless its colour
/// is taken.
pub open spec fn color_reselected(buttons: Seq<Button<PawnColor>>, from: int, to: int) -> Seq<
    Button<PawnColor>,
> {
    let cleared = if 0 <= from < buttons.len() && buttons[from].state != ButtonState::Active {
        buttons.update(from, Button { state: ButtonState::Normal, ..buttons[from] })
    } else {
        buttons
    };
    if 0 <= to < buttons.len() {
        cleared.update(to, Button { state: ButtonState::Selected, ..cleared[to] })
    } else {
        cleared
    }
}

/// The label of the button of a colour that player number `number` has taken.
pub open spec fn player_label(number: usize) -> Seq<char> {
    "Player "@ + decimal(number as nat)
}

/// Player `p` has rolled what another of the four players has rolled too.
pub open spec fn is_tied(rolled: Map<usize, usize>, p: usize) -> bool {
    rolled.contains_key(p) && exists|q: usize|
        q < 4 && q != p && #[trigger] rolled.contains_key(q) && rolled[q] == rolled[p]
}

/// The players below `n` who are tied, in seating order.
pub open spec fn tied_below(rolled: Map<usize, usize>, n: nat) -> Seq<usize>
    decreases n,
{
    if n == 0 {
        Seq::empty()
    } else if is_tied(rolled, (n - 1) as usize) {
        tied_below(rolled, (n - 1) as nat).push((n - 1) as usize)
    } else {
        tied_below(rolled, (n - 1) as nat)
    }
}

impl GameInitializationScreen {
    /// The players seated so far are fresh, sit at their own index and play the colours
    /// taken, in the order in which these were taken.
    pub open spec fn seats_wf(self) -> bool {
        &&& self.players.len() == self.pawn_color_state.taken.len()
        &&& forall|i: int|
            0 <= i < self.players.len() ==> (#[trigger] self.players[i]).id == i
                && self.players[i].is_fresh(
                self.players[i].id,
                0,
                self.pawn_color_state.taken[i],
            )
    }

    /// The rolls for the order belong to players of this match.
    pub open spec fn order_wf(self) -> bool {
        let count = self.player_count_state.selected_player_count;
        let order = self.player_order_state;
        &&& order.curr_id <= count
        &&& forall|k: usize| order.rolled_numbers@.contains_key(k) ==> k < count
        &&& forall|i: int| 0 <= i < order.reroll_buffer.len() ==> order.reroll_buffer[i] < count
    }

    /// The wizard is in a state that its keys can reach.
    pub open spec fn wf(self) -> bool {
        let count = self.player_count_state.selected_player_count;
        &&& self.player_count_state.wf()
        &&& self.pawn_color_state.wf()
        &&& self.seats_wf()
        &&& self.order_wf()
        &&& (self.step != GameInitializationStep::PlayerNumberSelection ==> 2 <= count <= 4)
        &&& (self.step == GameInitializationStep::PlayerNumberSelection
            ==> self.pawn_color_state.taken.len() == 0)
        &&& (self.step.spec_rank() <= 1 ==> {
            &&& self.player_order_state.curr_id == 0
            &&& self.player_order_state.rolled_numbers@ == Map::<usize, usize>::empty()
            &&& self.player_order_state.reroll_buffer.len() == 0
        })
        &&& (self.step == GameInitializationStep::PlayerPawnColorSelection
            ==> self.pawn_color_state.taken.len() < count)
        &&& (self.step.spec_rank() >= 2 ==> self.pawn_color_state.taken.len() == count)
        &&& (self.is_game_initialized ==> self.step == GameInitializationStep::Confirmation)
    }

    /// `after` is `before` but for the choice of the number of players.
    pub open spec fn only_count_differs(before: Self, after: Self) -> bool {
        &&& after.state == before.state
        &&& after.players == before.players
        &&& after.step == before.step
        &&& after.player_order_state == before.player_order_state
        &&& after.pawn_color_state == before.pawn_color_state
        &&& after.is_game_initialized == before.is_game_initialized
    }

    /// `after` is `before` but for the choice of colours.
    pub open spec fn only_colors_differ(before: Self, after: Self) -> bool {
        &&& after.state == before.state
        &&& after.players == before.players
        &&& after.step == before.step
        &&& after.player_order_state == before.player_order_state
        &&& after.player_count_state == before.player_count_state
        &&& after.is_game_initialized == before.is_game_initialized
    }

    /// `after` is `before` but for the rolls for the order and, possibly, the step.
    pub open spec fn only_order_differs(before: Self, after: Self) -> bool {
        &&& after.state == before.state
        &&& after.players == before.players
        &&& after.player_count_state == before.player_count_state
        &&& after.pawn_color_state == before.pawn_color_state
        &&& after.is_game_initialized == before.is_game_initialized
    }

    /// The selection among the buttons for the number of players has gone to `to`.
    pub open spec fn count_moved(before: Self, after: Self, to: int) -> bool {
        &&& Self::only_count_differs(before, after)
        &&& after.player_count_state.selected_player_count
            == before.player_count_state.selected_player_count
        &&& after.player_count_state.options@ == reselected(
            before.player_count_state.options@,
            before.player_count_state.curr_id as int,
            to,
        )
        &&& after.player_count_state.curr_id == (if 0 <= to < 3 {
            to
        } else {
            before.player_count_state.curr_id as int
        })
    }

    /// The selection among the colour buttons has gone to `to`.
    pub open spec fn color_moved(before: Self, after: Self, to: int) -> bool {
        &&& Self::only_colors_differ(before, after)
        &&& after.pawn_color_state.taken == before.pawn_color_state.taken
        &&& after.pawn_color_state.label == before.pawn_color_state.label
        &&& after.pawn_color_state.curr_player_id == before.pawn_color_state.curr_player_id
        &&& after.pawn_color_state.options@ == color_reselected(
            before.pawn_color_state.options@,
            before.pawn_color_state.curr_id as int,
            to,
        )
        &&& after.pawn_color_state.curr_id == (if 0 <= to < 4 {
            to
        } else {
            before.pawn_color_state.curr_id as int
        })
    }

    /// Enter on a colour button: where the colour is free, a fresh player of that colour
    /// is seated at the next index, and the button is marked with the player's number.
    pub open spec fn color_taken(before: Self, after: Self) -> bool {
        let colors = before.pawn_color_state;
        let curr = colors.curr_id as int;
        let color = color_at(curr);
        &&& after.state == before.state
        &&& after.step == before.step
        &&& after.player_order_state == before.player_order_state
        &&& after.player_count_state == before.player_count_state
        &&& after.is_game_initialized == before.is_game_initialized
        &&& after.pawn_color_state.curr_id == colors.curr_id
        &&& if colors.taken@.contains(color) {
            &&& after.players == before.players
            &&& after.pawn_color_state == colors
        } else {
            &&& after.pawn_color_state.taken@ == colors.taken@.push(color)
            &&& after.players@.len() == before.players@.len() + 1
            &&& after.players@.drop_last() == before.players@
            &&& after.players@.last().is_fresh(before.players.len(), 0, color)
            &&& after.pawn_color_state.options@ == colors.options@.update(
                curr,
                Button {
                    state: ButtonState::Active,
                    label: after.pawn_color_state.options[curr].label,
                    ..colors.options[curr]
                },
            )
            &&& after.pawn_color_state.options[curr].label@ == player_label(
                (colors.curr_player_id + 1) as usize,
            )
            &&& after.pawn_color_state.curr_player_id == (if colors.curr_player_id < 3 {
                colors.curr_player_id + 1
            } else {
                colors.curr_player_id as int
            })
            &&& after.pawn_color_state.label == (if colors.label
                < before.player_count_state.selected_player_count {
                colors.label + 1
            } else {
                colors.label as int
            })
        }
    }

    /// The players who are tied roll again, in seating order: the first of them is to roll
    /// next and loses the roll on record; the others wait in the buffer, the next to roll
    /// last.
    pub open spec fn ties_set_up(
        rolled: Map<usize, usize>,
        curr_id: usize,
        after: PlayerOrderState,
    ) -> bool {
        let tied = tied_below(rolled, 4);
        if tied.len() > 0 {
            &&& after.curr_id == tied[0]
            &&& after.rolled_numbers@ == rolled.remove(tied[0])
            &&& after.reroll_buffer@ == tied.subrange(1, tied.len() as int).reverse()
        } else {
            &&& after.curr_id == curr_id
            &&& after.rolled_numbers@ == rolled
            &&& after.reroll_buffer@ == Seq::<usize>::empty()
        }
    }

    /// One roll of a player who has to roll again, showing `dice`. While others wait to
    /// roll again, the next of them is up. After the last of them, ties are looked for
    /// anew; without ties the order is settled.
    pub open spec fn rethrown(before: Self, after: Self, dice: usize) -> bool {
        let order = before.player_order_state;
        let rolled = order.rolled_numbers@.insert(order.curr_id, dice);
        &&& Self::only_order_differs(before, after)
        &&& if order.curr_id == before.player_count_state.selected_player_count {
            &&& Self::ties_set_up(order.rolled_numbers@, order.curr_id, after.player_order_state)
            &&& after.player_order_state.roll_state == order.roll_state
            &&& after.step == before.step
        } else if order.reroll_buffer.len() > 0 {
            &&& after.player_order_state.curr_id == order.reroll_buffer@.last()
            &&& after.player_order_state.rolled_numbers@ == rolled.remove(
                order.reroll_buffer@.last(),
            )
            &&& after.player_order_state.reroll_buffer@ == order.reroll_buffer@.drop_last()
            &&& after.player_order_state.roll_state == order.roll_state
            &&& after.step == before.step
        } else if has_equal_values(rolled) {
            &&& Self::ties_set_up(rolled, order.curr_id, after.player_order_state)
            &&& after.player_order_state.roll_state == order.roll_state
            &&& after.step == before.step
        } else {
            &&& after.player_order_state.curr_id == order.curr_id
            &&& after.player_order_state.rolled_numbers@ == rolled
            &&& after.player_order_state.reroll_buffer@ == order.reroll_buffer@
            &&& after.player_order_state.roll_state == RollState::RethrowFinished
            &&& after.step == GameInitializationStep::Confirmation
        }
    }

    /// The space bar during the rolls for the order, with the dice showing `dice`. The
    /// players roll in seating order; after the last roll either no two players have the
    /// same roll and the order is settled, or the players who are tied roll again.
    pub open spec fn order_rolled(before: Self, after: Self, dice: usize) -> bool {
        let order = before.player_order_state;
        let count = before.player_count_state.selected_player_count;
        match order.roll_state {
            RollState::Initial => {
                let rolls = order.curr_id < count;
                let rolled = if rolls {
                    order.rolled_numbers@.insert(order.curr_id, dice)
                } else {
                    order.rolled_numbers@
                };
                let next: int = if rolls {
                    order.curr_id + 1
                } else {
                    order.curr_id as int
                };
                &&& Self::only_order_differs(before, after)
                &&& after.player_order_state.rolled_numbers@ == rolled
                &&& after.player_order_state.curr_id == next
                &&& after.player_order_state.reroll_buffer == order.reroll_buffer
                &&& after.player_order_state.roll_state == (if next == count && has_equal_values(
                    rolled,
                ) {
                    RollState::Rethrow
                } else {
                    RollState::Initial
                })
                &&& after.step == (if next == count && !has_equal_values(rolled) {
                    GameInitializationStep::Confirmation
                } else {
                    before.step
                })
            },
            RollState::Rethrow => Self::rethrown(before, after, dice),
            RollState::RethrowFinished => after == before,
        }
    }

    /// Backspace: one step back, forgetting what the step left had settled.
    pub open spec fn stepped_back(before: Self, after: Self) -> bool {
        let fresh_order = {
            &&& after.player_order_state.curr_id == 0
            &&& after.player_order_state.rolled_numbers@ == Map::<usize, usize>::empty()
            &&& after.player_order_state.roll_state == RollState::Initial
            &&& after.player_order_state.reroll_buffer@ == Seq::<usize>::empty()
        };
        let fresh_colors = {
            &&& after.pawn_color_state.wf()
            &&& after.pawn_color_state.label == 1
            &&& after.pawn_color_state.curr_id == 0
            &&& after.pawn_color_state.curr_player_id == 0
            &&& after.pawn_color_state.taken@ == Seq::<PawnColor>::empty()
            &&& after.pawn_color_state.options[0].state == ButtonState::Selected
            &&& forall|i: int|
                1 <= i < 4 ==> (#[trigger] after.pawn_color_state.options[i]).state
                    == ButtonState::Normal
        };
        &&& after.state == before.state
        &&& after.is_game_initialized == before.is_game_initialized
        &&& match before.step {
            GameInitializationStep::PlayerNumberSelection => after == before,
            GameInitializationStep::PlayerPawnColorSelection => {
                &&& after.step == GameInitializationStep::PlayerNumberSelection
                &&& after.players@ == Seq::<Player>::empty()
                &&& fresh_colors
                &&& after.player_count_state.wf()
                &&& after.player_count_state.curr_id == 0
                &&& after.player_count_state.selected_player_count == 0
                &&& forall|i: int|
                    0 <= i < 3 ==> (#[trigger] after.player_count_state.options[i]).state
                        == ButtonState::Active
                &&& after.player_order_state == before.player_order_state
            },
            GameInitializationStep::PlayerOrderSelection => {
                &&& after.step == GameInitializationStep::PlayerPawnColorSelection
                &&& after.players@ == Seq::<Player>::empty()
                &&& fresh_colors
                &&& fresh_order
                &&& after.player_count_state == before.player_count_state
            },
            GameInitializationStep::Confirmation => {
                &&& after.step == GameInitializationStep::PlayerOrderSelection
                &&& after.players == before.players
                &&& fresh_order
                &&& after.player_count_state == before.player_count_state
                &&& after.pawn_color_state == before.pawn_color_state
            },
        }
    }

    /// Enter: confirms the step. The number under the selection becomes the number of
    /// players; a free colour is taken, and once every player has one the rolls for the
    /// order begin, while otherwise the selection goes on to the next free colour; the
    /// last step makes the players ready for a match.
    pub open spec fn confirmed(before: Self, after: Self) -> bool {
        match before.step {
            GameInitializationStep::PlayerNumberSelection => {
                let curr = before.player_count_state.curr_id as int;
                &&& Self::only_count_differs(
                    before,
                    GameInitializationScreen { step: before.step, ..after },
                )
                &&& after.step == GameInitializationStep::PlayerPawnColorSelection
                &&& after.player_count_state.curr_id == before.player_count_state.curr_id
                &&& after.player_count_state.selected_player_count
                    == before.player_count_state.options[curr].value
                &&& after.player_count_state.options@ == before.player_count_state.options@.update(
                    curr,
                    Button {
                        state: ButtonState::Active,
                        ..before.player_count_state.options[curr]
                    },
                )
            },
            GameInitializationStep::PlayerPawnColorSelection => exists|seated: Self|
                {
                    &&& #[trigger] Self::color_taken(before, seated)
                    &&& if seated.pawn_color_state.taken.len()
                        == seated.player_count_state.selected_player_count {
                        after == (GameInitializationScreen {
                            step: GameInitializationStep::PlayerOrderSelection,
                            ..seated
                        })
                    } else {
                        Self::color_moved(
                            seated,
                            after,
                            first_free(
                                seated.pawn_color_state.taken@,
                                hop(seated.pawn_color_state.curr_id as int, 1, true),
                                true,
                            ),
                        )
                    }
                },
            GameInitializationStep::PlayerOrderSelection => after == before,
            GameInitializationStep::Confirmation => after == (GameInitializationScreen {
                is_game_initialized: true,
                ..before
            }),
        }
    }

    /// What a key makes of the wizard, where `dice` is what a throw of the dice shows.
    /// Escape pauses and resumes. The arrows move the selection, past colours that are
    /// taken. Enter confirms the step, the space bar rolls for the order, and Backspace
    /// goes back one step. Any other key changes nothing.
    pub open spec fn keyed(before: Self, after: Self, key_event: KeyInput, dice: usize) -> bool {
        match key_event {
            KeyInput::Esc => after == (GameInitializationScreen {
                state: if before.state == GameState::RUNNING {
                    GameState::PAUSED
                } else {
                    GameState::RUNNING
                },
                ..before
            }),
            KeyInput::Left => match before.step {
                GameInitializationStep::PlayerNumberSelection => Self::count_moved(
                    before,
                    after,
                    (before.player_count_state.curr_id + 2) % 3,
                ),
                GameInitializationStep::PlayerPawnColorSelection => Self::color_moved(
                    before,
                    after,
                    first_free(
                        before.pawn_color_state.taken@,
                        hop(before.pawn_color_state.curr_id as int, 1, false),
                        false,
                    ),
                ),
                _ => after == before,
            },
            KeyInput::Right => match before.step {
                GameInitializationStep::PlayerNumberSelection => Self::count_moved(
                    before,
                    after,
                    (before.player_count_state.curr_id + 1) % 3,
                ),
                GameInitializationStep::PlayerPawnColorSelection => Self::color_moved(
                    before,
                    after,
                    first_free(
                        before.pawn_color_state.taken@,
                        hop(before.pawn_color_state.curr_id as int, 1, true),
                        true,
                    ),
                ),
                _ => after == before,
            },
            KeyInput::Enter => Self::confirmed(before, after),
            KeyInput::Char(c) => if c == ' ' && before.step
                == GameInitializationStep::PlayerOrderSelection {
                Self::order_rolled(before, after, dice)
            } else {
                after == before
            },
            KeyInput::Backspace => Self::stepped_back(before, after),
            _ => after == before,
        }
    }

    /// The wizard before any key.
    pub fn new() -> (screen: GameInitializationScreen)
        ensures
            screen.is_opening(),
            screen.wf(),
    {
        GameInitializationScreen {
            state: GameState::RUNNING,
            players: Vec::new(),
            step: GameInitializationStep::PlayerNumberSelection,
            player_count_state: PlayerCountState::new(),
            pawn_color_state: PlayerPawnColorState::new(),
            player_order_state: PlayerOrderState::new(),
            is_game_initialized: false,
        }
    }

    /// The wizard before any key: it runs, nobody is seated, the number of players is to
    /// be chosen first, and each of the three choices is as it is before any key.
    pub open spec fn is_opening(self) -> bool {
        &&& self.state == GameState::RUNNING
        &&& self.players@ == Seq::<Player>::empty()
        &&& self.step == GameInitializationStep::PlayerNumberSelection
        &&& self.player_count_state.is_opening()
        &&& self.pawn_color_state.is_opening()
        &&& self.player_order_state.is_opening()
        &&& !self.is_game_initialized
    }

    /// The players seated so far.
    pub fn get_players(&self) -> (players: &Vec<Player>)
        ensures
            *players == self.players,
    {
        &self.players
    }

    /// Whether `color` is taken.
    fn is_taken(&self, color: PawnColor) -> (taken: bool)
        ensures
            taken == self.pawn_color_state.taken@.contains(color),
    {
        let mut i: usize = 0;
        while i < self.pawn_color_state.taken.len()
            invariant
                i <= self.pawn_color_state.taken.len(),
                forall|j: int| 0 <= j < i ==> self.pawn_color_state.taken[j] != color,
            decreases self.pawn_color_state.taken.len() - i,
        {
            if self.pawn_color_state.taken[i] == color {
                return true;
            }
            i += 1;
        }
        false
    }

    /// The first colour button, from `curr` on in the given direction, whose colour is
    /// free.
    fn find_first_available_button(&self, curr: usize, forward: bool) -> (found: usize)
        requires
            self.pawn_color_state.wf(),
        ensures
            found == first_free(self.pawn_color_state.taken@, curr as int, forward),
            found < 4,
    {
        if self.pawn_color_state.taken.len() == 4 || curr >= 4 {
            return 0;
        }
        let mut at: usize = curr;
        let mut hops: usize = 0;
        while hops < 4
            invariant
                hops <= 4,
                at < 4,
                curr < 4,
                self.pawn_color_state.taken.len() != 4,
                self.pawn_color_state.wf(),
                at == hop(curr as int, hops as int, forward),
                forall|h: int|
                    0 <= h < hops ==> #[trigger] taken_at(
                        self.pawn_color_state.taken@,
                        curr as int,
                        h,
                        forward,
                    ),
            decreases 4 - hops,
        {
            let color: PawnColor = self.pawn_color_state.options[at].value;
            assert(color == color_at(at as int));
            if !self.is_taken(color) {
                assert(!taken_at(self.pawn_color_state.taken@, curr as int, hops as int, forward));
                assert(forall|h: int|
                    0 <= h < hops ==> #[trigger] taken_at(
                        self.pawn_color_state.taken@,
                        curr as int,
                        h,
                        forward,
                    ));
                return at;
            }
            assert(taken_at(self.pawn_color_state.taken@, curr as int, hops as int, forward));
            at = if forward {
                next_with_wrap(at, &self.pawn_color_state.options)
            } else {
                previous_with_wrap(at, &self.pawn_color_state.options)
            };
            hops += 1;
        }
        assert(taken_at(self.pawn_color_state.taken@, curr as int, 0, forward));
        assert(taken_at(self.pawn_color_state.taken@, curr as int, 1, forward));
        assert(taken_at(self.pawn_color_state.taken@, curr as int, 2, forward));
        assert(taken_at(self.pawn_color_state.taken@, curr as int, 3, forward));
        0
    }

    /// Moves the selection among the buttons for the number of players.
    fn handle_player_count_select_change(&mut self, new_button_id: usize)
        requires
            old(self).wf(),
        ensures
            final(self).wf(),
            Self::count_moved(*old(self), *final(self), new_button_id as int),
    {
        if self.player_count_state.curr_id < self.player_count_state.options.len() {
            self.player_count_state.options[self.player_count_state.curr_id].state =
                ButtonState::Normal;
        }
        if new_button_id < self.player_count_state.options.len() {
            self.player_count_state.options[new_button_id].state = ButtonState::Selected;
            self.player_count_state.curr_id = new_button_id;
        }
        assert(self.player_count_state.options@ =~= reselected(
            old(self).player_count_state.options@,
            old(self).player_count_state.curr_id as int,
            new_button_id as int,
        ));
    }

    /// Moves the selection among the colour buttons; a button whose colour is taken keeps
    /// its mark.
    fn handle_player_color_select_change(&mut self, new_button_id: usize)
        requires
            old(self).wf(),
        ensures
            final(self).wf(),
            Self::color_moved(*old(self), *final(self), new_button_id as int),
    {
        if self.pawn_color_state.curr_id < self.pawn_color_state.options.len() {
            if self.pawn_color_state.options[self.pawn_color_state.curr_id].state
                != ButtonState::Active {
                self.pawn_color_state.options[self.pawn_color_state.curr_id].state =
                    ButtonState::Normal;
            }
        }
        if new_button_id < self.pawn_color_state.options.len() {
            self.pawn_color_state.options[new_button_id].state = ButtonState::Selected;
            self.pawn_color_state.curr_id = new_button_id;
        }
        assert(self.pawn_color_state.options@ =~= color_reselected(
            old(self).pawn_color_state.options@,
            old(self).pawn_color_state.curr_id as int,
            new_button_id as int,
        ));
    }

    /// Enter on a colour button: a free colour is taken by a new player, who is seated at
    /// the next index. Succeeds once every player has a colour.
    fn handle_player_pawn_color_confirmation(&mut self) -> (done: Result<&'static str, &'static str>)
        requires
            old(self).wf(),
            old(self).step == GameInitializationStep::PlayerPawnColorSelection,
        ensures
            Self::color_taken(*old(self), *final(self)),
            final(self).seats_wf(),
            final(self).pawn_color_state.wf(),
            done is Ok <==> final(self).pawn_color_state.taken.len()
                == final(self).player_count_state.selected_player_count,
            done is Err ==> final(self).wf(),
            done matches Ok(text) ==> text@ == ""@,
            done matches Err(text) ==> text@ == "All players must pick a color!"@,
    {
        let curr: usize = self.pawn_color_state.curr_id;
        if curr < self.pawn_color_state.options.len() {
            let color: PawnColor = self.pawn_color_state.options[curr].value;
            assert(color == color_at(curr as int));
            if !self.is_taken(color) {
                let ghost before = self.pawn_color_state.taken@;
                self.pawn_color_state.taken.push(color);
                assert(self.pawn_color_state.taken@.no_duplicates()) by {
                    assert forall|i: int, j: int|
                        0 <= i < self.pawn_color_state.taken@.len() && 0 <= j
                            < self.pawn_color_state.taken@.len() && i != j implies self.pawn_color_state.taken@[i]
                        != self.pawn_color_state.taken@[j] by {
                        if i < before.len() {
                            assert(before.contains(before[i]));
                        }
                        if j < before.len() {
                            assert(before.contains(before[j]));
                        }
                    }
                }
                let seat: usize = self.players.len();
                self.players.push(Player::new(seat, 0, color));
                assert(self.players@.drop_last() =~= old(self).players@);

                self.pawn_color_state.options[curr].state = ButtonState::Active;
                let mut label = String::from_str("Player ");
                let number = number_text(self.pawn_color_state.curr_player_id + 1);
                label.append(number.as_str());
                self.pawn_color_state.options[curr].label = label;
                assert(self.pawn_color_state.options@ =~= old(self).pawn_color_state.options@.update(
                    curr as int,
                    Button {
                        state: ButtonState::Active,
                        label: self.pawn_color_state.options[curr as int].label,
                        ..old(self).pawn_color_state.options[curr as int]
                    },
                ));

                if self.pawn_color_state.curr_player_id < self.pawn_color_state.options.len() - 1 {
                    self.pawn_color_state.curr_player_id += 1;
                }
                if self.pawn_color_state.label < self.player_count_state.selected_player_count {
                    self.pawn_color_state.label += 1;
                }
            }
            if self.pawn_color_state.taken.len() > 0 && self.pawn_color_state.taken.len()
                == self.player_count_state.selected_player_count {
                return Ok("");
            }
            return Err("All players must pick a color!");
        } else {
            return Err("Button not found!");
        }
    }

    /// Whether player `player_id` has rolled what another player has rolled too.
    fn rolled_a_tie(&self, player_id: usize) -> (tied: bool)
        requires
            player_id < 4,
        ensures
            tied == is_tied(self.player_order_state.rolled_numbers@, player_id),
    {
        let roll: usize = match self.player_order_state.rolled_numbers.get(&player_id) {
            Some(roll) => *roll,
            None => {
                return false;
            },
        };
        let mut other: usize = 0;
        while other < 4
            invariant
                other <= 4,
                player_id < 4,
                self.player_order_state.rolled_numbers@.contains_key(player_id),
                self.player_order_state.rolled_numbers@[player_id] == roll,
                forall|q: usize|
                    q < other && q != player_id
                        && #[trigger] self.player_order_state.rolled_numbers@.contains_key(q)
                        ==> self.player_order_state.rolled_numbers@[q] != roll,
            decreases 4 - other,
        {
            if other != player_id {
                match self.player_order_state.rolled_numbers.get(&other) {
                    Some(value) => {
                        if *value == roll {
                            assert(self.player_order_state.rolled_numbers@.contains_key(other));
                            return true;
                        }
                    },
                    None => {},
                }
            }
            other += 1;
        }
        false
    }

    /// Works out who has to roll again: every player whose roll another player has rolled
    /// too, in seating order. The first of them is to roll next.
    fn setup_rethrow(&mut self)
        requires
            old(self).wf(),
            old(self).step == GameInitializationStep::PlayerOrderSelection,
        ensures
            final(self).wf(),
            Self::only_order_differs(*old(self), *final(self)),
            final(self).step == old(self).step,
            final(self).player_order_state.roll_state == old(self).player_order_state.roll_state,
            Self::ties_set_up(
                old(self).player_order_state.rolled_numbers@,
                old(self).player_order_state.curr_id,
                final(self).player_order_state,
            ),
    {
        let ghost rolled = self.player_order_state.rolled_numbers@;
        self.player_order_state.reroll_buffer.clear();
        let mut tied: Vec<usize> = Vec::new();
        let mut player_id: usize = 0;
        while player_id < 4
            invariant
                player_id <= 4,
                self.wf(),
                Self::only_order_differs(*old(self), *self),
                self.step == GameInitializationStep::PlayerOrderSelection,
                self.player_order_state.roll_state == old(self).player_order_state.roll_state,
                self.player_order_state.curr_id == old(self).player_order_state.curr_id,
                self.player_order_state.rolled_numbers@ == rolled,
                self.player_order_state.reroll_buffer@ == Seq::<usize>::empty(),
                tied@ == tied_below(rolled, player_id as nat),
                forall|i: int|
                    0 <= i < tied.len() ==> tied[i]
                        < self.player_count_state.selected_player_count,
            decreases 4 - player_id,
        {
            if self.rolled_a_tie(player_id) {
                tied.push(player_id);
            }
            player_id += 1;
        }
        let mut i: usize = tied.len();
        while i > 0
            invariant
                i <= tied.len(),
                self.wf(),
                Self::only_order_differs(*old(self), *self),
                self.step == GameInitializationStep::PlayerOrderSelection,
                self.player_order_state.roll_state == old(self).player_order_state.roll_state,
                self.player_order_state.curr_id == old(self).player_order_state.curr_id,
                self.player_order_state.rolled_numbers@ == rolled,
                self.player_order_state.reroll_buffer@ == tied@.subrange(
                    i as int,
                    tied.len() as int,
                ).reverse(),
                tied@ == tied_below(rolled, 4),
                forall|j: int|
                    0 <= j < tied.len() ==> tied[j]
                        < self.player_count_state.selected_player_count,
            decreases i,
        {
            i -= 1;
            let ghost before = self.player_order_state.reroll_buffer@;
            self.player_order_state.reroll_buffer.push(tied[i]);
            assert(self.player_order_state.reroll_buffer@ =~= tied@.subrange(
                i as int,
                tied.len() as int,
            ).reverse());
            assert forall|j: int|
                0 <= j < self.player_order_state.reroll_buffer.len() implies self.player_order_state.reroll_buffer[j]
                < self.player_count_state.selected_player_count by {
                if j < before.len() {
                    assert(self.player_order_state.reroll_buffer[j] == before[j]);
                }
            }
        }
        assert(tied@.subrange(0, tied.len() as int) =~= tied@);
        let ghost waiting = self.player_order_state.reroll_buffer@;
        if let Some(first_duplicate) = self.player_order_state.reroll_buffer.pop() {
            self.player_order_state.curr_id = first_duplicate;
            self.player_order_state.rolled_numbers.remove(&first_duplicate);
            assert(first_duplicate == tied@[0]);
            assert(self.player_order_state.reroll_buffer@ =~= tied@.subrange(
                1,
                tied.len() as int,
            ).reverse());
        }
    }

    /// One roll of a player who has to roll again, showing `dice`.
    fn handle_rethrow(&mut self, dice: usize)
        requires
            old(self).wf(),
            old(self).step == GameInitializationStep::PlayerOrderSelection,
        ensures
            final(self).wf(),
            Self::rethrown(*old(self), *final(self), dice),
    {
        if self.player_order_state.curr_id == self.player_count_state.selected_player_count {
            self.setup_rethrow();
            return ;
        }
        self.player_order_state.rolled_numbers.insert(self.player_order_state.curr_id, dice);

        if let Some(player_id) = self.player_order_state.reroll_buffer.pop() {
            self.player_order_state.curr_id = player_id;
            self.player_order_state.rolled_numbers.remove(&player_id);
        } else {
            if has_duplicate_values(&self.player_order_state.rolled_numbers) {
                self.setup_rethrow();
            } else {
                self.player_order_state.roll_state = RollState::RethrowFinished;
                self.step = GameInitializationStep::Confirmation;
            }
        }
    }

    /// The space bar during the rolls for the order, with the dice showing `dice`.
    fn handle_player_order_roll(&mut self, dice: usize)
        requires
            old(self).wf(),
            old(self).step == GameInitializationStep::PlayerOrderSelection,
        ensures
            final(self).wf(),
            Self::order_rolled(*old(self), *final(self), dice),
    {
        match self.player_order_state.roll_state {
            RollState::Initial => {
                if self.player_order_state.curr_id + 1
                    <= self.player_count_state.selected_player_count {
                    self.player_order_state.rolled_numbers.insert(
                        self.player_order_state.curr_id,
                        dice,
                    );
                    self.player_order_state.curr_id += 1;
                }
                if self.player_order_state.curr_id
                    == self.player_count_state.selected_player_count {
                    if has_duplicate_values(&self.player_order_state.rolled_numbers) {
                        self.player_order_state.roll_state = RollState::Rethrow;
                    } else {
                        self.step = GameInitializationStep::Confirmation;
                    }
                }
            },
            RollState::Rethrow => {
                self.handle_rethrow(dice);
            },
            RollState::RethrowFinished => {},
        }
    }

    /// Enter: confirms the step.
    fn handle_enter(&mut self)
        requires
            old(self).wf(),
            !old(self).is_game_initialized,
        ensures
            final(self).wf(),
            Self::confirmed(*old(self), *final(self)),
    {
        match self.step {
            GameInitializationStep::PlayerNumberSelection => {
                if self.player_count_state.curr_id < self.player_count_state.options.len() {
                    let curr = self.player_count_state.curr_id;
                    self.player_count_state.options[curr].state = ButtonState::Active;
                    self.player_count_state.selected_player_count =
                        self.player_count_state.options[curr].value;
                    self.step = GameInitializationStep::PlayerPawnColorSelection;
                    assert(self.player_count_state.options@
                        =~= old(self).player_count_state.options@.update(
                        curr as int,
                        Button {
                            state: ButtonState::Active,
                            ..old(self).player_count_state.options[curr as int]
                        },
                    ));
                }
            },
            GameInitializationStep::PlayerPawnColorSelection => {
                match self.handle_player_pawn_color_confirmation() {
                    Ok(_) => {
                        let ghost seated = *self;
                        self.step = GameInitializationStep::PlayerOrderSelection;
                        assert(Self::color_taken(*old(self), seated));
                    },
                    Err(_) => {
                        let ghost seated = *self;
                        let from = next_with_wrap(
                            self.pawn_color_state.curr_id,
                            &self.pawn_color_state.options,
                        );
                        let next = self.find_first_available_button(from, true);
                        self.handle_player_color_select_change(next);
                        assert(Self::color_taken(*old(self), seated));
                    },
                }
            },
            GameInitializationStep::Confirmation => {
                self.is_game_initialized = true;
            },
            _ => {},
        }
    }

    /// Backspace: one step back.
    fn handle_backspace(&mut self)
        requires
            old(self).wf(),
            !old(self).is_game_initialized,
        ensures
            final(self).wf(),
            Self::stepped_back(*old(self), *final(self)),
    {
        match self.step {
            GameInitializationStep::PlayerPawnColorSelection => {
                self.players = Vec::new();
                self.pawn_color_state = PlayerPawnColorState::new();
                self.player_count_state = PlayerCountState::new();
                self.step = GameInitializationStep::PlayerNumberSelection;
            },
            GameInitializationStep::PlayerOrderSelection => {
                self.player_order_state = PlayerOrderState::new();
                self.pawn_color_state = PlayerPawnColorState::new();
                self.players = Vec::new();
                self.step = GameInitializationStep::PlayerPawnColorSelection;
            },
            GameInitializationStep::Confirmation => {
                self.player_order_state = PlayerOrderState::new();
                self.step = GameInitializationStep::PlayerOrderSelection;
            },
            _ => {},
        }
    }

    /// Whether the players seated so far are fresh, sit at their own index and play the
    /// colours taken.
    fn check_seats(&self) -> (ok: bool)
        ensures
            ok == self.seats_wf(),
    {
        if self.players.len() != self.pawn_color_state.taken.len() {
            return false;
        }
        let mut i: usize = 0;
        while i < self.players.len()
            invariant
                i <= self.players.len(),
                self.players.len() == self.pawn_color_state.taken.len(),
                forall|j: int|
                    0 <= j < i ==> (#[trigger] self.players[j]).id == j && self.players[j].is_fresh(
                        self.players[j].id,
                        0,
                        self.pawn_color_state.taken[j],
                    ),
            decreases self.players.len() - i,
        {
            let fresh = Player::new(i, 0, self.pawn_color_state.taken[i]);
            if !same_player(&self.players[i], &fresh) {
                proof {
                    if self.players[i as int].id == i && self.players[i as int].is_fresh(
                        self.players[i as int].id,
                        0,
                        self.pawn_color_state.taken[i as int],
                    ) {
                        lemma_fresh_is_unique(
                            self.players[i as int],
                            fresh,
                            i,
                            0,
                            self.pawn_color_state.taken[i as int],
                        );
                    }
                }
                return false;
            }
            i += 1;
        }
        true
    }

    /// Whether the rolls for the order belong to players of this match.
    fn check_order(&self) -> (ok: bool)
        ensures
            ok == self.order_wf(),
    {
        let count: usize = self.player_count_state.selected_player_count;
        if self.player_order_state.curr_id > count {
            return false;
        }
        for key in it: self.player_order_state.rolled_numbers.keys()
            invariant
                count == self.player_count_state.selected_player_count,
                it.seq().unref().to_set() == self.player_order_state.rolled_numbers@.dom(),
                forall|i: int| 0 <= i < it.index() ==> *(#[trigger] it.seq()[i]) < count,
        {
            if *key >= count {
                assert(self.player_order_state.rolled_numbers@.contains_key(*key)) by {
                    assert(it.seq().unref()[it.index()] == *key);
                    assert(it.seq().unref().to_set().contains(*key));
                    assert(self.player_order_state.rolled_numbers@.dom().contains(*key));
                }
                return false;
            }
        }
        let mut i: usize = 0;
        while i < self.player_order_state.reroll_buffer.len()
            invariant
                i <= self.player_order_state.reroll_buffer.len(),
                count == self.player_count_state.selected_player_count,
                self.player_order_state.curr_id <= count,
                forall|k: usize| self.player_order_state.rolled_numbers@.contains_key(k) ==> k < count,
                forall|j: int| 0 <= j < i ==> self.player_order_state.reroll_buffer[j] < count,
            decreases self.player_order_state.reroll_buffer.len() - i,
        {
            if self.player_order_state.reroll_buffer[i] >= count {
                assert(!(self.player_order_state.reroll_buffer[i as int] < count));
                return false;
            }
            i += 1;
        }
        true
    }

    /// Whether no colour is taken twice.
    fn check_taken(&self) -> (ok: bool)
        ensures
            ok == self.pawn_color_state.taken@.no_duplicates(),
    {
        let taken = &self.pawn_color_state.taken;
        let mut j: usize = 0;
        while j < taken.len()
            invariant
                j <= taken.len(),
                *taken == self.pawn_color_state.taken,
                forall|a: int, b: int| 0 <= a < b < j ==> taken[a] != taken[b],
            decreases taken.len() - j,
        {
            let mut i: usize = 0;
            while i < j
                invariant
                    i <= j,
                    j < taken.len(),
                    *taken == self.pawn_color_state.taken,
                    forall|a: int| 0 <= a < i ==> taken[a] != taken[j as int],
                decreases j - i,
            {
                if taken[i] == taken[j] {
                    assert(taken@[i as int] == taken@[j as int] && i != j);
                    return false;
                }
                i += 1;
            }
            j += 1;
        }
        assert forall|a: int, b: int| 0 <= a < taken.len() && 0 <= b < taken.len() && a
            != b implies taken[a] != taken[b] by {
            if a < b {
                assert(taken[a] != taken[b]);
            } else {
                assert(taken[b] != taken[a]);
            }
        }
        true
    }

    /// Whether the wizard is in a state that its keys can reach.
    pub fn is_consistent(&self) -> (ok: bool)
        ensures
            ok == self.wf(),
    {
        let counts = &self.player_count_state;
        let count: usize = counts.selected_player_count;
        if counts.options.len() != 3 || counts.curr_id >= 3 || !(count == 0 || (2 <= count
            && count <= 4)) {
            return false;
        }
        if counts.options[0].value != 2 || counts.options[1].value != 3 || counts.options[2].value
            != 4 {
            return false;
        }
        let colors = &self.pawn_color_state;
        if colors.options.len() != 4 || colors.curr_id >= 4 || colors.curr_player_id >= 4
            || colors.label == usize::MAX {
            return false;
        }
        if colors.options[0].value != PawnColor::RED || colors.options[1].value != PawnColor::GREEN
            || colors.options[2].value != PawnColor::BLUE || colors.options[3].value
            != PawnColor::YELLOW {
            assert(!super::player_pawn_color_state::offers_all_colors(colors.options@)) by {
                let _ = colors.options[0];
                let _ = colors.options[1];
                let _ = colors.options[2];
                let _ = colors.options[3];
            }
            return false;
        }
        if !self.check_taken() || !self.check_seats() || !self.check_order() {
            return false;
        }
        let rank: u8 = self.step.rank();
        let taken: usize = colors.taken.len();
        let order = &self.player_order_state;
        if rank != 0 && !(2 <= count && count <= 4) {
            return false;
        }
        if rank == 0 && taken != 0 {
            return false;
        }
        if rank <= 1 && (order.curr_id != 0 || !order.rolled_numbers.is_empty()
            || order.reroll_buffer.len() != 0) {
            assert(order.rolled_numbers@.is_empty() <==> order.rolled_numbers@ =~= Map::<
                usize,
                usize,
            >::empty());
            return false;
        }
        if rank <= 1 {
            assert(order.rolled_numbers@ =~= Map::<usize, usize>::empty());
        }
        if rank == 1 && taken >= count {
            return false;
        }
        if rank >= 2 && taken != count {
            return false;
        }
        if self.is_game_initialized && rank != 3 {
            return false;
        }
        true
    }

    /// One key press, where `dice` is what a throw of the dice shows. Once the last step
    /// is confirmed, the players are ready for a match and the wizard takes no more keys.
    pub fn apply_key(&mut self, key_event: KeyInput, dice: usize)
        requires
            old(self).wf(),
            !old(self).is_game_initialized,
        ensures
            final(self).wf(),
            Self::keyed(*old(self), *final(self), key_event, dice),
            final(self).is_game_initialized ==> is_fresh_roster(final(self).players@),
    {
        match key_event {
            KeyInput::Esc => {
                if self.state == GameState::RUNNING {
                    self.state = GameState::PAUSED;
                } else {
                    self.state = GameState::RUNNING;
                }
            },
            KeyInput::Left => match self.step {
                GameInitializationStep::PlayerNumberSelection => {
                    let to = previous_with_wrap(
                        self.player_count_state.curr_id,
                        &self.player_count_state.options,
                    );
                    self.handle_player_count_select_change(to);
                },
                GameInitializationStep::PlayerPawnColorSelection => {
                    let from = previous_with_wrap(
                        self.pawn_color_state.curr_id,
                        &self.pawn_color_state.options,
                    );
                    let previous = self.find_first_available_button(from, false);
                    self.handle_player_color_select_change(previous);
                },
                _ => {},
            },
            KeyInput::Right => match self.step {
                GameInitializationStep::PlayerNumberSelection => {
                    let to = (self.player_count_state.curr_id + 1)
                        % self.player_count_state.options.len();
                    self.handle_player_count_select_change(to);
                },
                GameInitializationStep::PlayerPawnColorSelection => {
                    let from = next_with_wrap(
                        self.pawn_color_state.curr_id,
                        &self.pawn_color_state.options,
                    );
                    let next = self.find_first_available_button(from, true);
                    self.handle_player_color_select_change(next);
                },
                _ => {},
            },
            KeyInput::Enter => self.handle_enter(),
            KeyInput::Char(c) => {
                if c == ' ' && self.step == GameInitializationStep::PlayerOrderSelection {
                    self.handle_player_order_roll(dice);
                }
            },
            KeyInput::Backspace => self.handle_backspace(),
            _ => {},
        }
        proof {
            if self.is_game_initialized {
                lemma_seated_roster(*self);
            }
        }
    }

    /// One key press; the space bar throws the dice where the step calls for a roll.
    pub fn handle_key_event(&mut self, key_event: KeyInput)
        requires
            old(self).wf(),
            !old(self).is_game_initialized,
        ensures
            final(self).wf(),
            exists|dice: usize|
                1 <= dice <= 6 && #[trigger] Self::keyed(*old(self), *final(self), key_event, dice),
            final(self).is_game_initialized ==> is_fresh_roster(final(self).players@),
    {
        let dice: usize = roll_dice();
        self.apply_key(key_event, dice);
    }
}

/// Once every player has a colour, the players seated are ready for a match: each a
/// fresh player at its own index, no colour twice.
pub proof fn lemma_seated_roster(screen: GameInitializationScreen)
    requires
        screen.wf(),
        screen.step.spec_rank() >= 2,
    ensures
        is_fresh_roster(screen.players@),
{
    let taken = screen.pawn_color_state.taken@;
    assert forall|p: int, q: int| 0 <= p < q < screen.players.len() implies (
    #[trigger] screen.players[p]).pawn_color != (#[trigger] screen.players[q]).pawn_color by {
        assert(screen.players[p].pawn_color == taken[p]);
        assert(screen.players[q].pawn_color == taken[q]);
    }
    assert forall|p: int| 0 <= p < screen.players.len() implies (
    #[trigger] screen.players@[p]).id == p && screen.players@[p].is_fresh(
        screen.players@[p].id,
        screen.players@[p].order,
        screen.players@[p].pawn_color,
    ) by {
        assert(screen.players[p].is_fresh(screen.players[p].id, 0, taken[p]));
    }
}

} // verus!
