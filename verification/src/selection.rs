//! The answer that is currently marked.

use vstd::prelude::*;
use vstd::std_specs::convert::FromSpecImpl;

verus! {

/// The answer that the prompt currently marks.
#[derive(Debug, Clone, Copy, PartialEq, Eq, Structural)]
pub enum Selection {
    Yes,
    No,
}

impl Selection {
    /// The selection that stands for `value`: `Yes` for `true`, `No` for `false`.
    pub open spec fn of_bool(value: bool) -> Selection {
        if value {
            Selection::Yes
        } else {
            Selection::No
        }
    }

    /// `true` for `Yes`, `false` for `No`.
    pub open spec fn spec_as_bool(self) -> bool {
        self == Selection::Yes
    }

    /// The selection as a boolean: `true` exactly for `Yes`. It undoes
    /// `Selection::from`.
    #[verifier::when_used_as_spec(spec_as_bool)]
    pub fn as_bool(self) -> (yes: bool)
        ensures
            yes == (self == Selection::Yes),
            Selection::of_bool(yes) == self,
    {
        matches!(self, Selection::Yes)
    }
}

impl From<bool> for Selection {
    /// `Yes` for `true`, `No` for `false`.
    fn from(value: bool) -> (selection: Selection)
        ensures
            selection == Selection::of_bool(value),
            selection.as_bool() == value,
    {
        if value {
            Selection::Yes
        } else {
            Selection::No
        }
    }
}

impl FromSpecImpl<bool> for Selection {
    open spec fn obeys_from_spec() -> bool {
        true
    }

    open spec fn from_spec(value: bool) -> Selection {
        Selection::of_bool(value)
    }
}

} // verus!
