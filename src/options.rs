use vstd::prelude::*;

verus! {

/// The largest layer count a run accepts.
pub const MAX_LAYERS: u64 = 255;

/// How far a link is resolved before it is unfolded.
#[derive(Clone, Copy, Debug, PartialEq, Eq, Structural)]
pub enum Bound {
    /// Follow at most this many links of the chain.
    Layers(u8),
    /// Follow the chain until a node that is not a link.
    ToSource,
}

impl Bound {
    /// A run under this bound does nothing at all.
    pub open spec fn spec_is_noop(self) -> bool {
        self == Bound::Layers(0)
    }

    pub fn is_noop(&self) -> (r: bool)
        ensures
            r == self.spec_is_noop(),
    {
        match self {
            Bound::Layers(n) => *n == 0,
            Bound::ToSource => false,
        }
    }
}

/// Why the options of a run were rejected.
#[derive(Clone, Copy, Debug, PartialEq, Eq, Structural)]
pub enum OptionError {
    /// Following to the source and a layer count were both given.
    Conflict,
    /// The layer count lies above `MAX_LAYERS`.
    OutOfRange,
}

/// The bound that the options of a run select, or why they are rejected.
pub open spec fn bound_of(follow_to_source: bool, layers: Option<u64>) -> Result<Bound, OptionError> {
    if follow_to_source && layers.is_some() {
        Err(OptionError::Conflict)
    } else if layers.is_some() && layers.unwrap() > MAX_LAYERS {
        Err(OptionError::OutOfRange)
    } else if follow_to_source {
        Ok(Bound::ToSource)
    } else if layers.is_some() {
        Ok(Bound::Layers(layers.unwrap() as u8))
    } else {
        Ok(Bound::Layers(1))
    }
}

/// Picks the bound of a run from the follow-to-source flag and the layer
/// count, if one was given. Without either, a run follows one layer.
pub fn choose_bound(follow_to_source: bool, layers: Option<u64>) -> (r: Result<Bound, OptionError>)
    ensures
        r == bound_of(follow_to_source, layers),
        r is Err <==> (follow_to_source && layers is Some) || (layers is Some && layers.unwrap()
            > MAX_LAYERS),
        r == Err::<Bound, OptionError>(OptionError::Conflict) <==> follow_to_source && layers is Some,
        r == Ok::<Bound, OptionError>(Bound::ToSource) <==> follow_to_source && layers is None,
{
    match layers {
        Some(n) => {
            if follow_to_source {
                Err(OptionError::Conflict)
            } else if n > MAX_LAYERS {
                Err(OptionError::OutOfRange)
            } else {
                Ok(Bound::Layers(n as u8))
            }
        },
        None => {
            if follow_to_source {
                Ok(Bound::ToSource)
            } else {
                Ok(Bound::Layers(1))
            }
        },
    }
}

} // verus!
