//! Which contacts turn a moving body around.
//!
//! The host compares coordinates; the functions here decide from the
//! outcomes of those comparisons whether a body touches a screen edge or a
//! paddle, and which components of its velocity are negated for it.

use vstd::prelude::*;

verus! {

/// Where a coordinate stands against a bound. `Apart` is the outcome of a
/// comparison in which one side is not a number.
#[derive(Clone, Copy, Debug, PartialEq, Eq, Structural)]
pub enum Placement {
    Below,
    At,
    Above,
    Apart,
}

/// One coordinate of a point, placed against the two ends of a span.
#[derive(Clone, Copy, Debug, PartialEq, Eq, Structural)]
pub struct Spanned {
    /// The coordinate against the low end of the span.
    pub start: Placement,
    /// The coordinate against the high end of the span.
    pub end: Placement,
}

/// One corner of the ball, placed against the horizontal and the vertical
/// span of a paddle's hit zone.
#[derive(Clone, Copy, Debug, PartialEq, Eq, Structural)]
pub struct Corner {
    pub x: Spanned,
    pub y: Spanned,
}

/// The velocity components that a contact negates.
#[derive(Clone, Copy, Debug, PartialEq, Eq, Structural)]
pub struct Reversal {
    pub x: bool,
    pub y: bool,
}

impl Placement {
    /// Strictly below the bound.
    pub open spec fn is_below(self) -> bool {
        self == Placement::Below
    }

    /// Below the bound or exactly at it.
    pub open spec fn is_at_or_below(self) -> bool {
        self == Placement::Below || self == Placement::At
    }

    /// Above the bound or exactly at it.
    pub open spec fn is_at_or_above(self) -> bool {
        self == Placement::Above || self == Placement::At
    }

    /// Whether the coordinate is strictly below the bound.
    pub fn below(self) -> (b: bool)
        ensures
            b == self.is_below(),
    {
        match self {
            Placement::Below => true,
            _ => false,
        }
    }

    /// Whether the coordinate is below the bound or at it.
    pub fn at_or_below(self) -> (b: bool)
        ensures
            b == self.is_at_or_below(),
    {
        match self {
            Placement::Below | Placement::At => true,
            _ => false,
        }
    }

    /// Whether the coordinate is above the bound or at it.
    pub fn at_or_above(self) -> (b: bool)
        ensures
            b == self.is_at_or_above(),
    {
        match self {
            Placement::Above | Placement::At => true,
            _ => false,
        }
    }
}

impl Spanned {
    /// The coordinate is in the span: the low end belongs to the span, the
    /// high end does not.
    pub open spec fn within(self) -> bool {
        self.start.is_at_or_above() && self.end.is_below()
    }

    /// Whether the coordinate is in the span.
    pub fn contains(self) -> (b: bool)
        ensures
            b == self.within(),
    {
        self.start.at_or_above() && self.end.below()
    }
}

impl Corner {
    /// The corner is inside the hit zone: within both spans at once.
    pub open spec fn inside(self) -> bool {
        self.x.within() && self.y.within()
    }
}

impl Reversal {
    /// No component changes.
    pub open spec fn none() -> Reversal {
        Reversal { x: false, y: false }
    }

    /// Both components are negated together.
    pub open spec fn both() -> Reversal {
        Reversal { x: true, y: true }
    }

    /// The factor on the horizontal component: `-1` if negated, else `1`.
    pub open spec fn factor_x(self) -> int {
        if self.x { -1 } else { 1 }
    }

    /// The factor on the vertical component: `-1` if negated, else `1`.
    pub open spec fn factor_y(self) -> int {
        if self.y { -1 } else { 1 }
    }

    /// This reversal followed by `next`: a component is negated overall
    /// exactly when one of the two negates it and the other does not.
    pub open spec fn followed_by(self, next: Reversal) -> Reversal {
        Reversal { x: self.x != next.x, y: self.y != next.y }
    }

    /// The single reversal that does what this one and then `next` do.
    pub fn then(self, next: Reversal) -> (r: Reversal)
        ensures
            r == self.followed_by(next),
    {
        Reversal { x: self.x != next.x, y: self.y != next.y }
    }
}

/// A body touches a pair of opposite screen edges when its low edge is at or
/// below the low bound, or its high edge is at or above the high bound.
/// Touching counts; a body that has gone past the edge still touches it.
pub open spec fn touches(low_edge: Placement, high_edge: Placement) -> bool {
    low_edge.is_at_or_below() || high_edge.is_at_or_above()
}

/// The ball hits a paddle when its high corner or its low corner is inside
/// the paddle's hit zone. A corner that is within one span only does not
/// count, nor do two corners that are each within a different span.
pub open spec fn hits(high: Corner, low: Corner) -> bool {
    high.inside() || low.inside()
}

/// A ball that hits a paddle bounces back the way it came: both velocity
/// components are negated together. A ball that misses keeps its velocity.
pub open spec fn bounce(hit: bool) -> Reversal {
    if hit {
        Reversal::both()
    } else {
        Reversal::none()
    }
}

/// What the screen does to a paddle. `bottom` places the paddle's lower edge
/// against the bottom of the screen, `top` its upper edge against the top.
/// A paddle that touches either turns around vertically; its horizontal
/// velocity is never changed.
pub fn paddle_border_reversal(bottom: Placement, top: Placement) -> (r: Reversal)
    ensures
        !r.x,
        r.y == touches(bottom, top),
{
    Reversal { x: false, y: bottom.at_or_below() || top.at_or_above() }
}

/// What the screen does to the ball. Each argument places the ball's edge on
/// that side against the screen edge of the same side. A ball that touches
/// the bottom or the top turns around vertically, one that touches the left
/// or the right horizontally; the axes are decided independently, so a ball
/// in a corner of the screen turns around on both.
pub fn ball_border_reversal(
    bottom: Placement,
    top: Placement,
    left: Placement,
    right: Placement,
) -> (r: Reversal)
    ensures
        r.y == touches(bottom, top),
        r.x == touches(left, right),
{
    Reversal {
        x: left.at_or_below() || right.at_or_above(),
        y: bottom.at_or_below() || top.at_or_above(),
    }
}

/// Whether the ball, with its two corners placed against a paddle's hit zone,
/// hits that paddle.
pub fn paddle_hit(high: Corner, low: Corner) -> (hit: bool)
    ensures
        hit == hits(high, low),
{
    (high.x.contains() && high.y.contains()) || (low.x.contains() && low.y.contains())
}

/// What a paddle does to the ball's velocity, given the ball's two corners
/// placed against the paddle's hit zone.
pub fn paddle_reversal(high: Corner, low: Corner) -> (r: Reversal)
    ensures
        r == bounce(hits(high, low)),
{
    let hit = paddle_hit(high, low);
    Reversal { x: hit, y: hit }
}

/// Reversals multiply: the factor of two in a row is the product of their
/// factors.
pub proof fn lemma_factors_multiply(first: Reversal, second: Reversal)
    ensures
        first.followed_by(second).factor_x() == first.factor_x() * second.factor_x(),
        first.followed_by(second).factor_y() == first.factor_y() * second.factor_y(),
{
}

/// The same reversal twice in a row restores the sign of each velocity
/// component: two crossings of one border cancel.
pub proof fn lemma_twice_restores(r: Reversal)
    ensures
        r.followed_by(r) == Reversal::none(),
        r.followed_by(r).factor_x() == 1,
        r.followed_by(r).factor_y() == 1,
{
}

/// A ball with a corner inside a paddle's hit zone has both velocity
/// components negated, wherever its other corner is.
pub proof fn lemma_corner_inside_bounces(high: Corner, low: Corner)
    requires
        high.inside() || low.inside(),
    ensures
        bounce(hits(high, low)) == Reversal::both(),
        bounce(hits(high, low)).factor_x() == -1,
        bounce(hits(high, low)).factor_y() == -1,
{
}

/// A coordinate that cannot be compared touches nothing: it is on neither
/// side of a bound and in no span.
pub proof fn lemma_apart_touches_nothing(other: Placement)
    ensures
        !touches(Placement::Apart, Placement::Apart),
        !(Spanned { start: Placement::Apart, end: other }).within(),
        !(Spanned { start: other, end: Placement::Apart }).within(),
{
}

} // verus!
