use vstd::prelude::*;

verus! {

/// The logic level of a digital pin.
#[derive(Clone, Copy, Debug, PartialEq, Eq, Structural)]
pub enum Level {
    High,
    Low,
}

/// A transition reported by the interrupt-delivery mechanism.
#[derive(Clone, Copy, Debug, PartialEq, Eq, Structural)]
pub enum Edge {
    Rising,
    Falling,
}

/// Which transitions satisfy a wait.
#[derive(Clone, Copy, Debug, PartialEq, Eq, Structural)]
pub enum EdgeKind {
    Rising,
    Falling,
    Either,
}

/// An edge of kind `kind` is seen when `edge` is delivered.
pub open spec fn accepts_spec(kind: EdgeKind, edge: Edge) -> bool {
    match kind {
        EdgeKind::Rising => edge == Edge::Rising,
        EdgeKind::Falling => edge == Edge::Falling,
        EdgeKind::Either => true,
    }
}

/// The edge, if any, of a transition from level `from` to level `to`.
pub open spec fn edge_between_spec(from: Level, to: Level) -> Option<Edge> {
    if from == Level::Low && to == Level::High {
        Some(Edge::Rising)
    } else if from == Level::High && to == Level::Low {
        Some(Edge::Falling)
    } else {
        None
    }
}

impl Level {
    pub fn is_high(&self) -> (r: bool)
        ensures
            r == (*self == Level::High),
    {
        match self {
            Level::High => true,
            Level::Low => false,
        }
    }

    pub fn is_low(&self) -> (r: bool)
        ensures
            r == (*self == Level::Low),
    {
        match self {
            Level::High => false,
            Level::Low => true,
        }
    }

    /// The level opposite to this one.
    pub fn toggled(&self) -> (r: Level)
        ensures
            r != *self,
    {
        match self {
            Level::High => Level::Low,
            Level::Low => Level::High,
        }
    }
}

impl Edge {
    /// The edge that a change of level from `from` to `to` makes, or `None`
    /// where the level does not change.
    pub fn between(from: Level, to: Level) -> (r: Option<Edge>)
        ensures
            r == edge_between_spec(from, to),
    {
        match (from, to) {
            (Level::Low, Level::High) => Some(Edge::Rising),
            (Level::High, Level::Low) => Some(Edge::Falling),
            _ => None,
        }
    }

    /// The level of the pin once this edge has happened.
    pub fn level_after(&self) -> (r: Level)
        ensures
            r == (if *self == Edge::Rising { Level::High } else { Level::Low }),
    {
        match self {
            Edge::Rising => Level::High,
            Edge::Falling => Level::Low,
        }
    }
}

impl EdgeKind {
    /// Whether a delivered `edge` satisfies a wait for this kind.
    pub fn accepts(&self, edge: Edge) -> (r: bool)
        ensures
            r == accepts_spec(*self, edge),
    {
        match self {
            EdgeKind::Rising => match edge {
                Edge::Rising => true,
                Edge::Falling => false,
            },
            EdgeKind::Falling => match edge {
                Edge::Rising => false,
                Edge::Falling => true,
            },
            EdgeKind::Either => true,
        }
    }
}

} // verus!
