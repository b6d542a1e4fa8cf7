use vstd::prelude::*;

use crate::input::KeyCommand;
use crate::ui::{color_name, player_color, Ui};

verus! {

/// Cannon power that every player starts with.
pub const INITIAL_CANNON_POWER: u32 = 200;

/// How much one key press raises or lowers the cannon power.
pub const POWER_STEP: u32 = 5;

/// What the game tracks of one player, apart from geometry.
#[derive(Clone, Copy, Debug, PartialEq, Eq, Structural)]
pub struct PlayerState {
    pub is_alive: bool,
    pub cannon_power: u32,
}

/// How a rocket's flight stands after a frame, in order of precedence.
#[derive(PartialEq, Eq, Structural, Clone, Copy, Debug)]
pub enum RocketOutcome {
    /// Still inside the playing field and touching nothing.
    InFlight,
    /// Left the playing field.
    OutOfBounds,
    /// Struck the player with this seat index.
    HitPlayer(usize),
    /// Went below the terrain surface.
    HitTerrain,
}

/// Turn and flight bookkeeping of a match. Players are identified by
/// their seat index in `players`.
#[derive(Debug)]
pub struct GameState {
    pub players: Vec<PlayerState>,
    pub current_player: usize,
    /// The player who fired the rocket that is in the air, if any.
    pub rocket_owner: Option<usize>,
    /// The terrain changed since its mask was last rebuilt.
    pub terrain_dirty: bool,
}

/// The seat `k` places after `from` going round a table of `n` seats
/// (for `0 <= from < n` and `0 <= k <= n`).
pub open spec fn seat_after(from: int, k: int, n: int) -> int {
    if from + k < n {
        from + k
    } else {
        from + k - n
    }
}

/// How many places forward one moves from seat `from` to reach seat `to`,
/// between 1 and `n` (a full round when `to == from`).
pub open spec fn steps_between(from: int, to: int, n: int) -> int {
    if to > from {
        to - from
    } else {
        to + n - from
    }
}

pub open spec fn any_alive(players: Seq<PlayerState>) -> bool {
    exists|i: int| 0 <= i < players.len() && #[trigger] players[i].is_alive
}

/// `to` is whose turn comes after `from`: the first living player after
/// `from` in seat order, wrapping round (possibly `from` itself); when
/// nobody is alive the turn stays at `from`.
pub open spec fn is_next_turn(players: Seq<PlayerState>, from: int, to: int) -> bool {
    let n: int = players.len() as int;
    &&& 0 <= to < n
    &&& if any_alive(players) {
        &&& players[to].is_alive
        &&& forall|k: int|
            1 <= k < steps_between(from, to, n) ==> !(#[trigger] players[seat_after(
                from,
                k,
                n,
            )]).is_alive
    } else {
        to == from
    }
}

/// `p` is a player the rocket fired by `owner` can strike: alive, not the
/// shooter, and touched by the rocket's shape (`hits`).
pub open spec fn can_be_struck(players: Seq<PlayerState>, owner: int, hits: Seq<bool>, p: int) -> bool {
    players[p].is_alive && p != owner && hits[p]
}

/// `p` is the lowest seat that the rocket strikes.
pub open spec fn is_first_struck(
    players: Seq<PlayerState>,
    owner: int,
    hits: Seq<bool>,
    p: int,
) -> bool {
    &&& 0 <= p < players.len()
    &&& can_be_struck(players, owner, hits, p)
    &&& forall|q: int| 0 <= q < p ==> !can_be_struck(players, owner, hits, q)
}

pub open spec fn none_struck(players: Seq<PlayerState>, owner: int, hits: Seq<bool>) -> bool {
    forall|q: int| 0 <= q < players.len() ==> !can_be_struck(players, owner, hits, q)
}

/// The players after the one at seat `p` was destroyed.
pub open spec fn destroyed(players: Seq<PlayerState>, p: int) -> Seq<PlayerState> {
    players.update(p, PlayerState { is_alive: false, cannon_power: players[p].cannon_power })
}

/// The players after the one at seat `p` changed cannon power.
pub open spec fn with_power(players: Seq<PlayerState>, p: int, power: u32) -> Seq<PlayerState> {
    players.update(p, PlayerState { is_alive: players[p].is_alive, cannon_power: power })
}

impl GameState {
    /// There is at least one seat, and the current player and the shooter
    /// of a rocket in the air are seats.
    pub open spec fn wf(&self) -> bool {
        &&& self.players.len() > 0
        &&& self.current_player < self.players.len()
        &&& self.rocket_owner matches Some(p) ==> p < self.players.len()
    }

    /// A match of `player_count` living players at full starting power,
    /// with the first player to move and no rocket in the air.
    pub fn new(player_count: usize) -> (r: GameState)
        requires
            player_count > 0,
        ensures
            r.wf(),
            r.players.len() == player_count,
            forall|i: int|
                0 <= i < player_count ==> #[trigger] r.players[i] == (PlayerState {
                    is_alive: true,
                    cannon_power: INITIAL_CANNON_POWER,
                }),
            r.current_player == 0,
            r.rocket_owner is None,
            !r.terrain_dirty,
    {
        let mut players: Vec<PlayerState> = Vec::new();
        let mut i: usize = 0;
        while i < player_count
            invariant
                i <= player_count,
                players.len() == i,
                forall|j: int|
                    0 <= j < i ==> #[trigger] players[j] == (PlayerState {
                        is_alive: true,
                        cannon_power: INITIAL_CANNON_POWER,
                    }),
            decreases player_count - i,
        {
            players.push(PlayerState { is_alive: true, cannon_power: INITIAL_CANNON_POWER });
            i = i + 1;
        }
        GameState { players, current_player: 0, rocket_owner: None, terrain_dirty: false }
    }

    /// Applies a keyboard command of the current player. Aiming changes
    /// only the cannon's angle, which this state does not hold. Firing
    /// launches a rocket only when none is in the air; the result says
    /// whether one was launched.
    pub fn apply_key(&mut self, command: KeyCommand) -> (launched: bool)
        requires
            old(self).wf(),
            command == KeyCommand::PowerUp ==> old(self).players[old(
                self,
            ).current_player as int].cannon_power + POWER_STEP <= u32::MAX,
            command == KeyCommand::PowerDown ==> old(self).players[old(
                self,
            ).current_player as int].cannon_power >= POWER_STEP,
        ensures
            final(self).wf(),
            final(self).current_player == old(self).current_player,
            final(self).terrain_dirty == old(self).terrain_dirty,
            launched == (command == KeyCommand::Fire && old(self).rocket_owner is None),
            final(self).rocket_owner == if launched {
                Some(old(self).current_player)
            } else {
                old(self).rocket_owner
            },
            final(self).players@ == match command {
                KeyCommand::PowerUp => with_power(
                    old(self).players@,
                    old(self).current_player as int,
                    (old(self).players[old(self).current_player as int].cannon_power
                        + POWER_STEP) as u32,
                ),
                KeyCommand::PowerDown => with_power(
                    old(self).players@,
                    old(self).current_player as int,
                    (old(self).players[old(self).current_player as int].cannon_power
                        - POWER_STEP) as u32,
                ),
                _ => old(self).players@,
            },
    {
        let current: usize = self.current_player;
        match command {
            KeyCommand::AimLeft | KeyCommand::AimRight => false,
            KeyCommand::PowerUp => {
                let player = PlayerState {
                    is_alive: self.players[current].is_alive,
                    cannon_power: self.players[current].cannon_power + POWER_STEP,
                };
                self.players.set(current, player);
                false
            },
            KeyCommand::PowerDown => {
                let player = PlayerState {
                    is_alive: self.players[current].is_alive,
                    cannon_power: self.players[current].cannon_power - POWER_STEP,
                };
                self.players.set(current, player);
                false
            },
            KeyCommand::Fire => {
                if self.rocket_owner.is_none() {
                    self.rocket_owner = Some(current);
                    true
                } else {
                    false
                }
            },
        }
    }

    /// The first player, in seat order, that the rocket in the air strikes,
    /// given for each seat whether the rocket's shape touches that player's.
    /// Destroyed players and the shooter cannot be struck.
    pub fn struck_player(&self, hits: &Vec<bool>) -> (r: Option<usize>)
        requires
            self.wf(),
            self.rocket_owner is Some,
            hits.len() == self.players.len(),
        ensures
            match r {
                Some(p) => is_first_struck(
                    self.players@,
                    self.rocket_owner->Some_0 as int,
                    hits@,
                    p as int,
                ),
                None => none_struck(self.players@, self.rocket_owner->Some_0 as int, hits@),
            },
    {
        let owner: usize = match self.rocket_owner {
            Some(o) => o,
            None => 0,
        };
        let mut p: usize = 0;
        while p < self.players.len()
            invariant
                self.wf(),
                self.rocket_owner == Some(owner),
                hits.len() == self.players.len(),
                p <= self.players.len(),
                forall|q: int| 0 <= q < p ==> !can_be_struck(self.players@, owner as int, hits@, q),
            decreases self.players.len() - p,
        {
            if self.players[p].is_alive && p != owner && hits[p] {
                return Some(p);
            }
            p = p + 1;
        }
        None
    }

    /// Classifies a frame of the rocket's flight. Leaving the field comes
    /// first, then striking a player, then going below the terrain.
    pub fn rocket_outcome(&self, in_bounds: bool, hits: &Vec<bool>, hit_terrain: bool) -> (r:
        RocketOutcome)
        requires
            self.wf(),
            self.rocket_owner is Some,
            hits.len() == self.players.len(),
        ensures
            !in_bounds ==> r == RocketOutcome::OutOfBounds,
            in_bounds ==> match r {
                RocketOutcome::HitPlayer(p) => is_first_struck(
                    self.players@,
                    self.rocket_owner->Some_0 as int,
                    hits@,
                    p as int,
                ),
                RocketOutcome::HitTerrain => hit_terrain && none_struck(
                    self.players@,
                    self.rocket_owner->Some_0 as int,
                    hits@,
                ),
                RocketOutcome::InFlight => !hit_terrain && none_struck(
                    self.players@,
                    self.rocket_owner->Some_0 as int,
                    hits@,
                ),
                RocketOutcome::OutOfBounds => false,
            },
    {
        if !in_bounds {
            RocketOutcome::OutOfBounds
        } else {
            match self.struck_player(hits) {
                Some(p) => RocketOutcome::HitPlayer(p),
                None => if hit_terrain {
                    RocketOutcome::HitTerrain
                } else {
                    RocketOutcome::InFlight
                },
            }
        }
    }

    /// Ends the rocket's flight unless it is still in the air. A struck
    /// player is destroyed; a strike on a player or on the ground leaves a
    /// crater, so the terrain must be redrawn. The turn then passes on.
    pub fn resolve_rocket(&mut self, outcome: RocketOutcome)
        requires
            old(self).wf(),
            old(self).rocket_owner is Some,
            outcome matches RocketOutcome::HitPlayer(p) ==> p < old(self).players.len(),
        ensures
            final(self).wf(),
            outcome == RocketOutcome::InFlight ==> *final(self) == *old(self),
            outcome != RocketOutcome::InFlight ==> {
                &&& final(self).rocket_owner is None
                &&& final(self).players@ == match outcome {
                    RocketOutcome::HitPlayer(p) => destroyed(old(self).players@, p as int),
                    _ => old(self).players@,
                }
                &&& final(self).terrain_dirty == (old(self).terrain_dirty
                    || outcome != RocketOutcome::OutOfBounds)
                &&& is_next_turn(
                    final(self).players@,
                    old(self).current_player as int,
                    final(self).current_player as int,
                )
            },
    {
        match outcome {
            RocketOutcome::InFlight => {},
            RocketOutcome::OutOfBounds => {
                self.rocket_owner = None;
                self.next_turn();
            },
            RocketOutcome::HitPlayer(p) => {
                self.terrain_dirty = true;
                let player = PlayerState {
                    is_alive: false,
                    cannon_power: self.players[p].cannon_power,
                };
                self.players.set(p, player);
                self.rocket_owner = None;
                self.next_turn();
            },
            RocketOutcome::HitTerrain => {
                self.terrain_dirty = true;
                self.rocket_owner = None;
                self.next_turn();
            },
        }
    }

    /// Destroys the players that fell off the bottom of the field
    /// (`fallen`), then passes the turn on if the current player is no
    /// longer alive.
    pub fn settle_players(&mut self, fallen: &Vec<bool>)
        requires
            old(self).wf(),
            fallen.len() == old(self).players.len(),
        ensures
            final(self).wf(),
            final(self).players.len() == old(self).players.len(),
            forall|i: int|
                0 <= i < old(self).players.len() ==> #[trigger] final(self).players[i] == (
                PlayerState {
                    is_alive: old(self).players[i].is_alive && !fallen[i],
                    cannon_power: old(self).players[i].cannon_power,
                }),
            final(self).rocket_owner == old(self).rocket_owner,
            final(self).terrain_dirty == old(self).terrain_dirty,
            if final(self).players[old(self).current_player as int].is_alive {
                final(self).current_player == old(self).current_player
            } else {
                is_next_turn(
                    final(self).players@,
                    old(self).current_player as int,
                    final(self).current_player as int,
                )
            },
    {
        let n: usize = self.players.len();
        let ghost before = self.players@;
        let mut i: usize = 0;
        while i < n
            invariant
                self.wf(),
                self.players.len() == n,
                n == before.len(),
                self.current_player == old(self).current_player,
                self.rocket_owner == old(self).rocket_owner,
                self.terrain_dirty == old(self).terrain_dirty,
                before == old(self).players@,
                fallen.len() == n,
                i <= n,
                forall|j: int|
                    0 <= j < i ==> #[trigger] self.players[j] == (PlayerState {
                        is_alive: before[j].is_alive && !fallen[j],
                        cannon_power: before[j].cannon_power,
                    }),
                forall|j: int| i <= j < n ==> #[trigger] self.players[j] == before[j],
            decreases n - i,
        {
            if fallen[i] {
                let player = PlayerState {
                    is_alive: false,
                    cannon_power: self.players[i].cannon_power,
                };
                self.players.set(i, player);
            }
            i = i + 1;
        }
        if !self.players[self.current_player].is_alive {
            self.next_turn();
        }
    }

    /// The page's view of the current player: seat, color and cannon power.
    pub fn ui_state(&self) -> (r: Ui)
        requires
            self.wf(),
        ensures
            r.current_player == Some(self.current_player),
            r.player_color matches Some(c) && c@ == color_name(self.current_player as int),
            r.cannon_power == Some(self.players[self.current_player as int].cannon_power),
            r.game_over is None,
    {
        let current: usize = self.current_player;
        Ui {
            current_player: Some(current),
            player_color: Some(player_color(current).to_owned()),
            cannon_power: Some(self.players[current].cannon_power),
            game_over: None,
        }
    }

    /// Reports whether the terrain must be redrawn, and clears the flag.
    pub fn take_terrain_dirty(&mut self) -> (was_dirty: bool)
        ensures
            was_dirty == old(self).terrain_dirty,
            !final(self).terrain_dirty,
            final(self).players@ == old(self).players@,
            final(self).current_player == old(self).current_player,
            final(self).rocket_owner == old(self).rocket_owner,
    {
        let was_dirty = self.terrain_dirty;
        self.terrain_dirty = false;
        was_dirty
    }

    /// Passes the turn to the next living player in seat order.
    pub fn next_turn(&mut self)
        requires
            old(self).wf(),
        ensures
            final(self).wf(),
            final(self).players@ == old(self).players@,
            final(self).rocket_owner == old(self).rocket_owner,
            final(self).terrain_dirty == old(self).terrain_dirty,
            is_next_turn(
                old(self).players@,
                old(self).current_player as int,
                final(self).current_player as int,
            ),
    {
        let n: usize = self.players.len();
        let ghost start = self.current_player as int;
        let ghost players = self.players@;
        let mut seat: usize = self.current_player;
        let mut found = false;
        let mut i: usize = 0;
        while i < n && !found
            invariant
                self.players@ == players,
                self.players.len() == n,
                n > 0,
                0 <= start < n,
                i <= n,
                seat < n,
                seat as int == seat_after(start, i as int, n as int),
                i > 0 ==> (found <==> players[seat as int].is_alive),
                found ==> i > 0,
                forall|k: int|
                    1 <= k < i ==> !(#[trigger] players[seat_after(start, k, n as int)]).is_alive,
            decreases n - i,
        {
            seat = if seat + 1 < n {
                seat + 1
            } else {
                0
            };
            i = i + 1;
            found = self.players[seat].is_alive;
        }
        proof {
            if found {
                assert(steps_between(start, seat as int, n as int) == i);
            } else {
                assert(seat as int == start);
                assert(!players[seat_after(start, n as int, n as int)].is_alive);
                if any_alive(players) {
                    let j: int = choose|j: int| 0 <= j < n && #[trigger] players[j].is_alive;
                    let k: int = steps_between(start, j, n as int);
                    assert(seat_after(start, k, n as int) == j);
                }
            }
        }
        self.current_player = seat;
    }
}

} // verus!
