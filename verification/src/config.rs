use vstd::prelude::*;
use crate::Unauthorized;
use crate::check_authority;

verus! {

/// Mathematical model of a configuration: the owner identity, the optional
/// account-registry (NFT) contract reference, and the required asset-custody
/// (red bank) reference.
pub ghost struct ConfigModel {
    pub owner: Seq<char>,
    pub account_nft: Option<Seq<char>>,
    pub red_bank: Seq<char>,
}

/// The manager's configuration.
///
/// `red_bank` is always present (set at construction); `account_nft` starts
/// absent. Referencing an account-registry here does not itself verify that
/// the ownership hand-off to the manager has happened: that is an external
/// precondition the deploying authority must have completed first (see the
/// `ownership` module).
pub struct Config {
    pub owner: String,
    pub account_nft: Option<String>,
    pub red_bank: String,
}

impl View for Config {
    type V = ConfigModel;

    open spec fn view(&self) -> ConfigModel {
        ConfigModel {
            owner: self.owner@,
            account_nft: match self.account_nft {
                Some(a) => Some(a@),
                None => None,
            },
            red_bank: self.red_bank@,
        }
    }
}

/// Model of a partial update request: each field is independently absent
/// (leave unchanged) or present (replace).
pub ghost struct ConfigUpdatesModel {
    pub owner: Option<Seq<char>>,
    pub account_nft: Option<Seq<char>>,
    pub red_bank: Option<Seq<char>>,
}

/// A partial configuration update: `None` leaves the field unchanged,
/// `Some(v)` replaces it. Passing all three as `None` is a legal no-op.
pub struct ConfigUpdates {
    pub owner: Option<String>,
    pub account_nft: Option<String>,
    pub red_bank: Option<String>,
}

impl View for ConfigUpdates {
    type V = ConfigUpdatesModel;

    open spec fn view(&self) -> ConfigUpdatesModel {
        ConfigUpdatesModel {
            owner: match self.owner {
                Some(o) => Some(o@),
                None => None,
            },
            account_nft: match self.account_nft {
                Some(a) => Some(a@),
                None => None,
            },
            red_bank: match self.red_bank {
                Some(r) => Some(r@),
                None => None,
            },
        }
    }
}

/// An update is allowed exactly when the caller is the current owner.
pub open spec fn update_allowed(c: ConfigModel, caller: Seq<char>) -> bool {
    caller == c.owner
}

/// The result of applying a partial update, field by field: a present field
/// replaces the stored value, an absent field leaves it unchanged.
pub open spec fn apply_updates(c: ConfigModel, u: ConfigUpdatesModel) -> ConfigModel {
    ConfigModel {
        owner: match u.owner {
            Some(o) => o,
            None => c.owner,
        },
        account_nft: match u.account_nft {
            Some(a) => Some(a),
            None => c.account_nft,
        },
        red_bank: match u.red_bank {
            Some(r) => r,
            None => c.red_bank,
        },
    }
}

/// One full update step as observed from outside: the update applies only if
/// the caller is authorized against the configuration as it stood before the
/// call; otherwise the configuration is left untouched.
pub open spec fn step_update(c: ConfigModel, caller: Seq<char>, u: ConfigUpdatesModel) -> ConfigModel {
    if update_allowed(c, caller) {
        apply_updates(c, u)
    } else {
        c
    }
}

impl Config {
    /// Constructs the initial configuration: the given owner and asset-custody
    /// reference, and no account-registry reference yet.
    pub fn new(owner: String, red_bank: String) -> (c: Config)
        ensures
            c@.owner == owner@,
            c@.account_nft is None,
            c@.red_bank == red_bank@,
    {
        Config { owner, account_nft: None, red_bank }
    }

    /// Returns a copy of the current configuration, equal to the stored one.
    pub fn get_config(&self) -> (r: Config)
        ensures
            r@ == self@,
    {
        Config {
            owner: self.owner.clone(),
            account_nft: match &self.account_nft {
                Some(a) => Some(a.clone()),
                None => None,
            },
            red_bank: self.red_bank.clone(),
        }
    }

    /// Applies a partial update. The caller must be the current owner, else
    /// the call fails with `Unauthorized` and the configuration is left
    /// byte-for-byte unchanged. On success each field supplied as `Some` is
    /// replaced and each field supplied as `None` keeps its prior value. A
    /// new owner takes effect only for subsequent calls.
    pub fn update_config(&mut self, caller: &String, updates: ConfigUpdates) -> (r: Result<(), Unauthorized>)
        ensures
            r is Ok <==> update_allowed(old(self)@, caller@),
            final(self)@ == step_update(old(self)@, caller@, updates@),
    {
        check_authority(caller, &self.owner)?;
        if let Some(o) = updates.owner {
            self.owner = o;
        }
        if let Some(a) = updates.account_nft {
            self.account_nft = Some(a);
        }
        if let Some(rb) = updates.red_bank {
            self.red_bank = rb;
        }
        Ok(())
    }
}

/// A field passed as absent leaves that field's prior value unchanged,
/// whatever the other fields and the caller are.
pub proof fn lemma_absent_field_unchanged(c: ConfigModel, caller: Seq<char>, u: ConfigUpdatesModel)
    ensures
        u.owner is None ==> step_update(c, caller, u).owner == c.owner,
        u.account_nft is None ==> step_update(c, caller, u).account_nft == c.account_nft,
        u.red_bank is None ==> step_update(c, caller, u).red_bank == c.red_bank,
{
}

/// An update by anyone but the current owner leaves the configuration
/// exactly as it was.
pub proof fn lemma_unauthorized_update_is_noop(c: ConfigModel, caller: Seq<char>, u: ConfigUpdatesModel)
    requires
        caller != c.owner,
    ensures
        step_update(c, caller, u) == c,
{
}

/// Replacing the owner takes effect for the next call's authorization check,
/// not retroactively: the current call is judged against the owner as it
/// stood before the call, and afterwards only the newly named owner is
/// authorized.
pub proof fn lemma_owner_change_applies_to_next_call(c: ConfigModel, caller: Seq<char>, u: ConfigUpdatesModel)
    requires
        update_allowed(c, caller),
        u.owner is Some,
    ensures
        step_update(c, caller, u).owner == u.owner->0,
        update_allowed(step_update(c, caller, u), caller) <==> caller == u.owner->0,
{
}

/// Issuing the same update twice, as the same caller, yields the same final
/// configuration as issuing it once: either the second call repeats
/// replacements with the same values, or it is unauthorized and changes
/// nothing.
pub proof fn lemma_update_idempotent(c: ConfigModel, caller: Seq<char>, u: ConfigUpdatesModel)
    ensures
        step_update(step_update(c, caller, u), caller, u) == step_update(c, caller, u),
{
}

} // verus!
