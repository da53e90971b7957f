use vstd::prelude::*;

verus! {

/// A command that a chat user can send.
pub enum Command {
    Help,
    Search(String),
    SearchAdvanced(String),
    SearchAdvancedEpisode(String),
    Beta,
    BetaList,
    BetaWaitList,
    BetaAccept(String),
}

impl Command {
    /// Whether only the administrator may issue the command.
    pub open spec fn spec_admin_access(&self) -> bool {
        self is BetaList || self is BetaWaitList || self is BetaAccept
    }

    /// Whether the command is open to users that are not on the whitelist.
    pub open spec fn spec_unrestricted(&self) -> bool {
        self is Beta || self is BetaList || self is BetaWaitList || self is BetaAccept
    }

    #[verifier::when_used_as_spec(spec_admin_access)]
    pub fn admin_access(&self) -> (r: bool)
        ensures
            r == self.spec_admin_access(),
    {
        matches!(self, Self::BetaList | Self::BetaWaitList | Self::BetaAccept(..))
    }

    #[verifier::when_used_as_spec(spec_unrestricted)]
    pub fn unrestricted(&self) -> (r: bool)
        ensures
            r == self.spec_unrestricted(),
    {
        matches!(self, Self::Beta | Self::BetaList | Self::BetaWaitList | Self::BetaAccept(..))
    }
}

} // verus!
