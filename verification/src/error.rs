//! The rejections an operation can end with.

use vstd::prelude::*;

verus! {

/// Why an operation was rejected. A rejected operation changes nothing.
#[derive(Clone, Copy, Debug, PartialEq, Eq, Structural)]
pub enum FaucetError {
    /// `initialize` was called on a faucet that already has a configuration.
    AlreadyInitialized,
    /// The faucet has no configuration yet.
    NotInitialized,
    /// The faucet is switched off and grants nothing.
    FaucetInactive,
    /// The identity claimed less than one cooldown period ago.
    CooldownActive,
    /// The caller is not the administrator of the faucet.
    Unauthorized,
}

impl FaucetError {
    /// The text that goes with each rejection.
    pub open spec fn message_text(self) -> Seq<char> {
        match self {
            FaucetError::AlreadyInitialized => "Faucet already initialized"@,
            FaucetError::NotInitialized => "Faucet not initialized"@,
            FaucetError::FaucetInactive => "Faucet is currently inactive"@,
            FaucetError::CooldownActive => "Cooldown period not elapsed yet"@,
            FaucetError::Unauthorized => "Only admin can update configuration"@,
        }
    }

    /// The message shown to the caller for this rejection.
    pub fn message(&self) -> (text: &'static str)
        ensures
            text@ == self.message_text(),
    {
        match self {
            FaucetError::AlreadyInitialized => "Faucet already initialized",
            FaucetError::NotInitialized => "Faucet not initialized",
            FaucetError::FaucetInactive => "Faucet is currently inactive",
            FaucetError::CooldownActive => "Cooldown period not elapsed yet",
            FaucetError::Unauthorized => "Only admin can update configuration",
        }
    }
}

/// Two different rejections never share a message, so the message alone
/// tells the caller which precondition failed.
pub proof fn lemma_messages_distinct(a: FaucetError, b: FaucetError)
    requires
        a != b,
    ensures
        a.message_text() != b.message_text(),
{
    reveal_strlit("Faucet already initialized");
    reveal_strlit("Faucet not initialized");
    reveal_strlit("Faucet is currently inactive");
    reveal_strlit("Cooldown period not elapsed yet");
    reveal_strlit("Only admin can update configuration");
    assert(FaucetError::AlreadyInitialized.message_text().len() == 26);
    assert(FaucetError::NotInitialized.message_text().len() == 22);
    assert(FaucetError::FaucetInactive.message_text().len() == 28);
    assert(FaucetError::CooldownActive.message_text().len() == 31);
    assert(FaucetError::Unauthorized.message_text().len() == 35);
}

} // verus!
