use vstd::prelude::*;

verus! {

/// Whether a cell takes part in the surface.
#[derive(Debug, Clone, Copy, PartialEq, Eq, PartialOrd, Ord, Structural)]
pub enum Visibility {
    Hidden,
    Visible,
}

impl Visibility {
    pub fn is_visible(&self) -> (visible: bool)
        ensures
            visible == (*self == Visibility::Visible),
    {
        match self {
            Visibility::Visible => true,
            Visibility::Hidden => false,
        }
    }
}

/// What the mesher asks of a cell: an identity that can be compared and a
/// visibility. A verified implementation defines both as `spec` functions,
/// and its methods return exactly them.
pub trait Voxel {
    type Id: Eq;

    /// Whether this cell has an identity at all. A cell of padding has none.
    open spec fn has_id(&self) -> bool {
        true
    }

    /// The identity that `id` returns.
    open spec fn spec_id(&self) -> Self::Id {
        arbitrary()
    }

    /// The visibility that `visibility` returns.
    open spec fn spec_visibility(&self) -> Visibility {
        arbitrary()
    }

    fn id(&self) -> (id: Self::Id)
        requires
            self.has_id(),
        ensures
            id == self.spec_id(),
    ;

    fn visibility(&self) -> (visibility: Visibility)
        ensures
            visibility == self.spec_visibility(),
    ;
}

/// An absent cell is hidden and has no identity; a present one is the voxel
/// it holds.
impl<V> Voxel for Option<V> where V: Voxel {
    type Id = V::Id;

    open spec fn has_id(&self) -> bool {
        self matches Some(v) && v.has_id()
    }

    open spec fn spec_id(&self) -> V::Id {
        self->0.spec_id()
    }

    open spec fn spec_visibility(&self) -> Visibility {
        match self {
            None => Visibility::Hidden,
            Some(v) => v.spec_visibility(),
        }
    }

    fn id(&self) -> V::Id {
        match self {
            None => vstd::pervasive::unreached(),
            Some(v) => v.id(),
        }
    }

    fn visibility(&self) -> Visibility {
        match self {
            None => Visibility::Hidden,
            Some(v) => v.visibility(),
        }
    }
}

} // verus!
