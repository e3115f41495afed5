use vstd::prelude::*;

verus! {

/// Errors of the registry's ownership hand-off protocol.
#[derive(Clone, Copy, Debug, PartialEq, Eq, Structural)]
pub enum RegistryError {
    /// The caller of a propose step is not the registry's current controller.
    Unauthorized,
    /// An accept step with no pending proposal, or with a proposal addressed
    /// to someone else.
    InvalidAcceptance,
}

/// Mathematical model of the registry's control state: the current
/// controlling identity and the pending-transfer slot.
pub ghost struct RegistryOwnershipModel {
    pub owner: Seq<char>,
    pub proposed_new_owner: Option<Seq<char>>,
}

/// The control state of the external account-registry service: who controls
/// it now, and at most one pending transfer proposal.
///
/// The two-party hand-off runs as two independent, atomically committed
/// calls: the current controller proposes a new controller, and later the
/// proposed party accepts. Only after the accept step is it semantically
/// valid to reference this registry in the manager's configuration; the
/// configuration store deliberately does not enforce that ordering.
pub struct RegistryOwnership {
    pub owner: String,
    pub proposed_new_owner: Option<String>,
}

impl View for RegistryOwnership {
    type V = RegistryOwnershipModel;

    open spec fn view(&self) -> RegistryOwnershipModel {
        RegistryOwnershipModel {
            owner: self.owner@,
            proposed_new_owner: match self.proposed_new_owner {
                Some(p) => Some(p@),
                None => None,
            },
        }
    }
}

/// A propose step is allowed exactly when the caller is the current
/// controller.
pub open spec fn propose_allowed(s: RegistryOwnershipModel, caller: Seq<char>) -> bool {
    caller == s.owner
}

/// The state after a propose step: on an authorized call the pending slot
/// holds the newly proposed controller (a later proposal overwrites an
/// earlier one: last proposal wins); an unauthorized call changes nothing.
pub open spec fn step_propose(
    s: RegistryOwnershipModel,
    caller: Seq<char>,
    new_owner: Seq<char>,
) -> RegistryOwnershipModel {
    if propose_allowed(s, caller) {
        RegistryOwnershipModel { owner: s.owner, proposed_new_owner: Some(new_owner) }
    } else {
        s
    }
}

/// An accept step is allowed exactly when the pending slot holds a proposal
/// addressed to the caller.
pub open spec fn accept_allowed(s: RegistryOwnershipModel, caller: Seq<char>) -> bool {
    s.proposed_new_owner == Some(caller)
}

/// The state after an accept step: on a matching proposal control moves to
/// the caller and the pending slot clears; otherwise nothing changes.
pub open spec fn step_accept(s: RegistryOwnershipModel, caller: Seq<char>) -> RegistryOwnershipModel {
    if accept_allowed(s, caller) {
        RegistryOwnershipModel { owner: caller, proposed_new_owner: None }
    } else {
        s
    }
}

impl RegistryOwnership {
    /// A freshly instantiated registry: controlled by the given identity,
    /// with no transfer pending.
    pub fn new(owner: String) -> (s: RegistryOwnership)
        ensures
            s@.owner == owner@,
            s@.proposed_new_owner is None,
    {
        RegistryOwnership { owner, proposed_new_owner: None }
    }

    /// Step 1 of the hand-off: the current controller proposes a new one.
    /// Anyone else fails with `Unauthorized` and changes nothing. A proposal
    /// made while another is pending overwrites it (last proposal wins).
    pub fn propose_new_owner(&mut self, caller: &String, new_owner: String) -> (r: Result<(), RegistryError>)
        ensures
            r is Ok <==> propose_allowed(old(self)@, caller@),
            r is Err ==> r == Err::<(), RegistryError>(RegistryError::Unauthorized),
            final(self)@ == step_propose(old(self)@, caller@, new_owner@),
    {
        if caller.eq(&self.owner) {
            self.proposed_new_owner = Some(new_owner);
            Ok(())
        } else {
            Err(RegistryError::Unauthorized)
        }
    }

    /// Step 2 of the hand-off: the proposed controller accepts. Without a
    /// pending proposal addressed exactly to the caller, the call fails with
    /// `InvalidAcceptance` and changes nothing, whatever the registry's
    /// history. On success the caller becomes the controller and the pending
    /// slot clears.
    pub fn accept_ownership(&mut self, caller: &String) -> (r: Result<(), RegistryError>)
        ensures
            r is Ok <==> accept_allowed(old(self)@, caller@),
            r is Err ==> r == Err::<(), RegistryError>(RegistryError::InvalidAcceptance),
            final(self)@ == step_accept(old(self)@, caller@),
    {
        let matches_caller = match &self.proposed_new_owner {
            Some(p) => caller.eq(p),
            None => false,
        };
        if matches_caller {
            self.owner = caller.clone();
            self.proposed_new_owner = None;
            Ok(())
        } else {
            Err(RegistryError::InvalidAcceptance)
        }
    }
}

/// Accepting without a matching pending proposal never moves control and
/// never clears or fills the pending slot, regardless of how the registry
/// reached its current state.
pub proof fn lemma_accept_without_matching_proposal_is_noop(
    s: RegistryOwnershipModel,
    caller: Seq<char>,
)
    requires
        !accept_allowed(s, caller),
    ensures
        step_accept(s, caller) == s,
{
}

} // verus!
