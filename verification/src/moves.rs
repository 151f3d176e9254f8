//! Input vocabulary: the nine directional moves, the shift modifier, and the
//! compass directions used by the physics transition.

use crate::settings::{GameMode, SearchSettings};
use vstd::prelude::*;

verus! {

/// One tick's directional input: idle or one of the eight key combinations.
#[derive(Clone, Copy, Debug, PartialEq, Eq, Structural, Hash)]
pub enum Move {
    NONE,
    A,
    D,
    W,
    WA,
    WD,
    S,
    SA,
    SD,
}

impl Move {
    /// No horizontal component.
    pub open spec fn spec_is_only_vertical(self) -> bool {
        self == Move::NONE || self == Move::S || self == Move::W
    }

    pub open spec fn spec_is_left(self) -> bool {
        self == Move::A || self == Move::WA || self == Move::SA
    }

    pub open spec fn spec_is_right(self) -> bool {
        self == Move::D || self == Move::WD || self == Move::SD
    }

    pub open spec fn spec_is_up(self) -> bool {
        self == Move::W || self == Move::WA || self == Move::WD
    }

    pub open spec fn spec_is_down(self) -> bool {
        self == Move::S || self == Move::SA || self == Move::SD
    }

    /// The moves a game mode offers: all nine in scroller mode, the six
    /// without a down component in platformer mode.
    pub open spec fn spec_all_gm(gamemode: GameMode) -> Seq<Move> {
        if gamemode == GameMode::Scroller {
            seq![
                Move::NONE,
                Move::A,
                Move::D,
                Move::W,
                Move::WA,
                Move::WD,
                Move::S,
                Move::SA,
                Move::SD,
            ]
        } else {
            seq![Move::NONE, Move::A, Move::D, Move::W, Move::WA, Move::WD]
        }
    }

    pub fn all_gm(gamemode: GameMode) -> (r: Vec<Move>)
        ensures
            r@ == Move::spec_all_gm(gamemode),
    {
        let mut r: Vec<Move> = Vec::new();
        r.push(Move::NONE);
        r.push(Move::A);
        r.push(Move::D);
        r.push(Move::W);
        r.push(Move::WA);
        r.push(Move::WD);
        if gamemode == GameMode::Scroller {
            r.push(Move::S);
            r.push(Move::SA);
            r.push(Move::SD);
        }
        proof {
            assert(r@ =~= Move::spec_all_gm(gamemode));
        }
        r
    }

    /// The move set a search draws from: the explicit restriction from the
    /// settings if one is given, otherwise everything the game mode offers.
    pub open spec fn spec_all(settings: SearchSettings) -> Seq<Move> {
        if settings.allowed_moves.len() > 0 {
            settings.allowed_moves@
        } else {
            Move::spec_all_gm(settings.mode)
        }
    }

    pub fn all(settings: &SearchSettings) -> (r: Vec<Move>)
        ensures
            r@ == Move::spec_all(*settings),
    {
        if settings.allowed_moves.len() > 0 {
            let mut r: Vec<Move> = Vec::new();
            let mut i: usize = 0;
            while i < settings.allowed_moves.len()
                invariant
                    i <= settings.allowed_moves.len(),
                    r@ == settings.allowed_moves@.subrange(0, i as int),
                decreases settings.allowed_moves.len() - i,
            {
                r.push(settings.allowed_moves[i]);
                i += 1;
                proof {
                    assert(r@ =~= settings.allowed_moves@.subrange(0, i as int));
                }
            }
            proof {
                assert(r@ =~= settings.allowed_moves@);
            }
            r
        } else {
            Move::all_gm(settings.mode)
        }
    }

    pub fn is_only_vertical(&self) -> (r: bool)
        ensures
            r == self.spec_is_only_vertical(),
    {
        *self == Move::NONE || *self == Move::S || *self == Move::W
    }

    pub fn is_left(&self) -> (r: bool)
        ensures
            r == self.spec_is_left(),
    {
        *self == Move::A || *self == Move::WA || *self == Move::SA
    }

    pub fn is_right(&self) -> (r: bool)
        ensures
            r == self.spec_is_right(),
    {
        *self == Move::D || *self == Move::WD || *self == Move::SD
    }

    pub fn is_up(&self) -> (r: bool)
        ensures
            r == self.spec_is_up(),
    {
        *self == Move::W || *self == Move::WA || *self == Move::WD
    }

    pub fn is_down(&self) -> (r: bool)
        ensures
            r == self.spec_is_down(),
    {
        *self == Move::S || *self == Move::SA || *self == Move::SD
    }
}

/// A full input for one tick: a directional move plus the shift key.
#[derive(Clone, Copy, Debug, PartialEq, Eq, Structural, Hash)]
pub struct Action {
    pub mov: Move,
    pub shift: bool,
}

impl Action {
    /// Every move of the game mode paired with both shift states, shift
    /// first, in move order.
    pub open spec fn spec_all_gm(gamemode: GameMode) -> Seq<Action> {
        Move::spec_all_gm(gamemode).flat_map(
            |m: Move| seq![Action { mov: m, shift: true }, Action { mov: m, shift: false }],
        )
    }

    pub fn all_gm(gamemode: GameMode) -> (r: Vec<Action>)
        ensures
            r@ == Action::spec_all_gm(gamemode),
    {
        let moves = Move::all_gm(gamemode);
        let mut r: Vec<Action> = Vec::new();
        let mut i: usize = 0;
        while i < moves.len()
            invariant
                i <= moves.len(),
                moves@ == Move::spec_all_gm(gamemode),
                r@ == moves@.subrange(0, i as int).flat_map(
                    |m: Move| seq![Action { mov: m, shift: true }, Action { mov: m, shift: false }],
                ),
            decreases moves.len() - i,
        {
            let m = moves[i];
            r.push(Action { mov: m, shift: true });
            r.push(Action { mov: m, shift: false });
            i += 1;
            proof {
                let f = |m: Move|
                    seq![Action { mov: m, shift: true }, Action { mov: m, shift: false }];
                let pre = moves@.subrange(0, i - 1);
                let cur = moves@.subrange(0, i as int);
                assert(cur =~= pre.push(moves@[i - 1]));
                pre.lemma_flat_map_push(f, moves@[i - 1]);
                assert(r@ =~= pre.flat_map(f) + f(moves@[i - 1]));
            }
        }
        proof {
            assert(moves@.subrange(0, moves@.len() as int) =~= moves@);
        }
        r
    }
}

/// A compass direction applied by the movement-intent step.
#[derive(Clone, Copy, Debug, PartialEq, Eq, Structural, Hash)]
pub enum Direction {
    N,
    S,
    E,
    W,
}

} // verus!
