use vstd::prelude::*;

verus! {

/// The flag that the service manages.
#[derive(Clone, Copy, Debug, PartialEq, Eq, Structural)]
pub enum State {
    Active,
    Inactive,
}

/// The literal name of a state, as it appears in replies.
pub open spec fn state_name(s: State) -> Seq<char> {
    match s {
        State::Active => "Active"@,
        State::Inactive => "Inactive"@,
    }
}

/// The background colour of the status page for a state.
pub open spec fn state_color(s: State) -> Seq<char> {
    match s {
        State::Active => "lightgreen"@,
        State::Inactive => "coral"@,
    }
}

impl State {
    /// The state's name: `Active` or `Inactive`.
    pub fn name(&self) -> (r: String)
        ensures
            r@ == state_name(*self),
    {
        match self {
            State::Active => String::from_str("Active"),
            State::Inactive => String::from_str("Inactive"),
        }
    }

    /// The background colour that the status page uses for this state.
    pub fn color(&self) -> (r: String)
        ensures
            r@ == state_color(*self),
    {
        match self {
            State::Active => String::from_str("lightgreen"),
            State::Inactive => String::from_str("coral"),
        }
    }
}

} // verus!
