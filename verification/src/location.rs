//! Locations as the weather service reports them.

use vstd::prelude::*;
use vstd::string::*;

verus! {

/// A place the weather service knows, as returned by a location search.
#[derive(Clone, Debug, PartialEq, Eq)]
pub struct Location {
    pub name: String,
    pub state: String,
    pub country: String,
}

/// The text that separates the parts of a location's display form.
pub open spec fn separator() -> Seq<char> {
    seq![',', ' ']
}

/// The display form of a location: name, state and country, in that order,
/// separated by a comma and a space.
pub open spec fn display_text(location: Location) -> Seq<char> {
    location.name@ + separator() + location.state@ + separator() + location.country@
}

impl Location {
    /// The text under which this location is shown to the user.
    pub fn display_form(&self) -> (text: String)
        ensures
            text@ == display_text(*self),
    {
        proof {
            reveal_strlit(", ");
            assert(", "@ =~= separator());
        }
        let mut text = self.name.clone();
        text.append(", ");
        text.append(self.state.as_str());
        text.append(", ");
        text.append(self.country.as_str());
        text
    }
}

} // verus!
