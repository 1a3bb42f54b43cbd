//! Keyboard control of the orbiting camera.
use vstd::prelude::*;

verus! {

/// Which of the camera keys are held down in a frame.
#[derive(Debug, Clone, Copy, PartialEq, Eq, Structural)]
pub struct Keys {
    /// Left arrow.
    pub left: bool,
    /// Right arrow.
    pub right: bool,
    /// Up arrow.
    pub up: bool,
    /// Down arrow.
    pub down: bool,
    /// D.
    pub d: bool,
    /// A.
    pub a: bool,
    /// W.
    pub w: bool,
    /// S.
    pub s: bool,
}

/// A step of camera motion. The caller applies it with its own step sizes.
#[derive(Debug, Clone, Copy, PartialEq, Eq, Structural)]
pub enum CameraMove {
    /// Orbit by a positive yaw step.
    OrbitLeft,
    /// Orbit by a negative yaw step.
    OrbitRight,
    /// Orbit by a negative pitch step.
    OrbitUp,
    /// Orbit by a positive pitch step.
    OrbitDown,
    /// Zoom by a positive step.
    ZoomIn,
    /// Zoom by a negative step.
    ZoomOut,
    /// Raise eye and target together by one vertical step.
    Raise,
    /// Lower eye and target together by one vertical step.
    Lower,
}

/// `m` as a one-element sequence when `held`, else empty.
pub open spec fn when_held(held: bool, m: CameraMove) -> Seq<CameraMove> {
    if held { seq![m] } else { Seq::empty() }
}

/// The camera moves of a frame: one for each held key, in a fixed order:
/// left, right, up, down, D, A, W, S. Opposite keys held together both act.
pub open spec fn moves_for(k: Keys) -> Seq<CameraMove> {
    when_held(k.left, CameraMove::OrbitLeft)
        + when_held(k.right, CameraMove::OrbitRight)
        + when_held(k.up, CameraMove::OrbitUp)
        + when_held(k.down, CameraMove::OrbitDown)
        + when_held(k.d, CameraMove::ZoomIn)
        + when_held(k.a, CameraMove::ZoomOut)
        + when_held(k.w, CameraMove::Raise)
        + when_held(k.s, CameraMove::Lower)
}

/// Whether the key that drives move `m` is held: each move has a key of its
/// own (left arrow orbits left, right arrow right, up arrow up, down arrow
/// down, D zooms in, A zooms out, W raises, S lowers).
pub open spec fn drives(k: Keys, m: CameraMove) -> bool {
    match m {
        CameraMove::OrbitLeft => k.left,
        CameraMove::OrbitRight => k.right,
        CameraMove::OrbitUp => k.up,
        CameraMove::OrbitDown => k.down,
        CameraMove::ZoomIn => k.d,
        CameraMove::ZoomOut => k.a,
        CameraMove::Raise => k.w,
        CameraMove::Lower => k.s,
    }
}

/// The place of a move in the order in which moves are applied.
pub open spec fn apply_order(m: CameraMove) -> nat {
    match m {
        CameraMove::OrbitLeft => 0,
        CameraMove::OrbitRight => 1,
        CameraMove::OrbitUp => 2,
        CameraMove::OrbitDown => 3,
        CameraMove::ZoomIn => 4,
        CameraMove::ZoomOut => 5,
        CameraMove::Raise => 6,
        CameraMove::Lower => 7,
    }
}

/// Each camera move is made exactly when its own key is held, whatever the
/// other keys: a move is in the frame's moves iff its key is held, no move
/// appears twice, and the moves come in the fixed order of [`apply_order`].
pub proof fn lemma_each_move_follows_its_key(k: Keys)
    ensures
        forall|m: CameraMove| #[trigger] moves_for(k).contains(m) <==> drives(k, m),
        forall|i: int, j: int|
            0 <= i < j < moves_for(k).len() ==> apply_order(#[trigger] moves_for(k)[i]) < apply_order(
                #[trigger] moves_for(k)[j],
            ),
        moves_for(k).len() <= 8,
{
    lemma_moves_upto(k, 8);
    assert(moves_upto(k, 8) == moves_for(k)) by {
        reveal_with_fuel(moves_upto, 8);
    }
}

/// The move at place `n` of the order.
pub open spec fn move_at(n: nat) -> CameraMove {
    if n == 0 {
        CameraMove::OrbitLeft
    } else if n == 1 {
        CameraMove::OrbitRight
    } else if n == 2 {
        CameraMove::OrbitUp
    } else if n == 3 {
        CameraMove::OrbitDown
    } else if n == 4 {
        CameraMove::ZoomIn
    } else if n == 5 {
        CameraMove::ZoomOut
    } else if n == 6 {
        CameraMove::Raise
    } else {
        CameraMove::Lower
    }
}

/// The moves of the keys of the first `n` places of the order.
pub open spec fn moves_upto(k: Keys, n: nat) -> Seq<CameraMove>
    decreases n,
{
    if n == 0 {
        Seq::empty()
    } else if n == 1 {
        when_held(drives(k, move_at(0)), move_at(0))
    } else {
        moves_upto(k, (n - 1) as nat) + when_held(drives(k, move_at((n - 1) as nat)), move_at((n - 1) as nat))
    }
}

proof fn lemma_moves_upto(k: Keys, n: nat)
    requires
        n <= 8,
    ensures
        forall|m: CameraMove| #[trigger] moves_upto(k, n).contains(m) <==> (drives(k, m) && apply_order(m) < n),
        forall|i: int| 0 <= i < moves_upto(k, n).len() ==> apply_order(#[trigger] moves_upto(k, n)[i]) < n,
        forall|i: int, j: int|
            0 <= i < j < moves_upto(k, n).len() ==> apply_order(#[trigger] moves_upto(k, n)[i]) < apply_order(
                #[trigger] moves_upto(k, n)[j],
            ),
        moves_upto(k, n).len() <= n,
    decreases n,
{
    if n == 0 {
        assert forall|x: CameraMove| !#[trigger] moves_upto(k, n).contains(x) by {}
    } else {
        let p = (n - 1) as nat;
        lemma_moves_upto(k, p);
        let m = move_at(p);
        let rest = moves_upto(k, p);
        let tail = when_held(drives(k, m), m);
        let s = moves_upto(k, n);
        assert(s =~= rest + tail) by {
            if n == 1 {
                assert(rest =~= Seq::<CameraMove>::empty());
            }
        }
        assert(apply_order(m) == p);
        assert forall|x: CameraMove| #[trigger] s.contains(x) <==> (drives(k, x) && apply_order(x) < n) by {
            if s.contains(x) {
                let i = choose|i: int| 0 <= i < s.len() && s[i] == x;
                if i < rest.len() {
                    assert(rest[i] == x);
                    assert(rest.contains(x));
                } else {
                    assert(tail[i - rest.len()] == x);
                }
            }
            if drives(k, x) && apply_order(x) < n {
                if apply_order(x) == p {
                    assert(x == m) by {
                        match x {
                            CameraMove::OrbitLeft => {},
                            CameraMove::OrbitRight => {},
                            CameraMove::OrbitUp => {},
                            CameraMove::OrbitDown => {},
                            CameraMove::ZoomIn => {},
                            CameraMove::ZoomOut => {},
                            CameraMove::Raise => {},
                            CameraMove::Lower => {},
                        }
                    }
                    assert(s[rest.len() as int] == x);
                } else {
                    assert(rest.contains(x));
                    let i = choose|i: int| 0 <= i < rest.len() && rest[i] == x;
                    assert(s[i] == x);
                }
            }
        }
        assert forall|i: int| 0 <= i < s.len() implies apply_order(#[trigger] s[i]) < n by {
            if i < rest.len() {
                assert(s[i] == rest[i]);
            }
        }
        assert forall|i: int, j: int|
            0 <= i < j < s.len() implies apply_order(#[trigger] s[i]) < apply_order(#[trigger] s[j]) by {
            assert(s[i] == rest[i]);
            if j < rest.len() {
                assert(s[j] == rest[j]);
            }
        }
    }
}

fn push_when(moves: &mut Vec<CameraMove>, held: bool, m: CameraMove)
    ensures
        final(moves)@ == old(moves)@ + when_held(held, m),
{
    if held {
        moves.push(m);
    } else {
        assert(old(moves)@ + when_held(held, m) == old(moves)@);
    }
}

/// The camera moves that the held keys call for in one frame, in the order
/// in which they are applied.
pub fn camera_moves(keys: Keys) -> (moves: Vec<CameraMove>)
    ensures
        moves@ == moves_for(keys),
        forall|m: CameraMove| #[trigger] moves@.contains(m) <==> drives(keys, m),
        forall|i: int, j: int|
            0 <= i < j < moves@.len() ==> apply_order(#[trigger] moves@[i]) < apply_order(#[trigger] moves@[j]),
{
    proof {
        lemma_each_move_follows_its_key(keys);
    }
    let mut moves: Vec<CameraMove> = Vec::new();
    push_when(&mut moves, keys.left, CameraMove::OrbitLeft);
    push_when(&mut moves, keys.right, CameraMove::OrbitRight);
    push_when(&mut moves, keys.up, CameraMove::OrbitUp);
    push_when(&mut moves, keys.down, CameraMove::OrbitDown);
    push_when(&mut moves, keys.d, CameraMove::ZoomIn);
    push_when(&mut moves, keys.a, CameraMove::ZoomOut);
    push_when(&mut moves, keys.w, CameraMove::Raise);
    push_when(&mut moves, keys.s, CameraMove::Lower);
    assert(moves@ == moves_for(keys));
    moves
}

} // verus!
