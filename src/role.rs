use vstd::prelude::*;

verus! {

/// Permission of one account reference: bit 0 is writability, bit 1 is signer status.
#[derive(Clone, Copy, Debug, PartialEq, Eq, Structural)]
pub enum AccountRole {
    Readonly,
    Writable,
    ReadonlySigner,
    WritableSigner,
}

/// The role that a (writable, signer) pair of flags stands for.
pub open spec fn role_of(is_writable: bool, is_signer: bool) -> AccountRole {
    match (is_writable, is_signer) {
        (false, false) => AccountRole::Readonly,
        (true, false) => AccountRole::Writable,
        (false, true) => AccountRole::ReadonlySigner,
        (true, true) => AccountRole::WritableSigner,
    }
}

/// The 2-bit numeric code of a role.
pub open spec fn role_code(role: AccountRole) -> u8 {
    match role {
        AccountRole::Readonly => 0,
        AccountRole::Writable => 1,
        AccountRole::ReadonlySigner => 2,
        AccountRole::WritableSigner => 3,
    }
}

impl AccountRole {
    /// Encodes the pair of capability flags as a role.
    pub fn from_flags(is_writable: bool, is_signer: bool) -> (r: AccountRole)
        ensures
            r == role_of(is_writable, is_signer),
    {
        match (is_writable, is_signer) {
            (false, false) => AccountRole::Readonly,
            (true, false) => AccountRole::Writable,
            (false, true) => AccountRole::ReadonlySigner,
            (true, true) => AccountRole::WritableSigner,
        }
    }

    /// The numeric code that the role is serialized as.
    pub fn code(&self) -> (r: u8)
        ensures
            r == role_code(*self),
            r < 4,
    {
        match self {
            AccountRole::Readonly => 0,
            AccountRole::Writable => 1,
            AccountRole::ReadonlySigner => 2,
            AccountRole::WritableSigner => 3,
        }
    }

    /// Whether the account may be written by the instruction.
    pub fn is_writable(&self) -> (r: bool)
        ensures
            r == (role_code(*self) % 2 == 1),
    {
        match self {
            AccountRole::Writable | AccountRole::WritableSigner => true,
            _ => false,
        }
    }

    /// Whether the account must sign the transaction.
    pub fn is_signer(&self) -> (r: bool)
        ensures
            r == (role_code(*self) >= 2),
    {
        match self {
            AccountRole::ReadonlySigner | AccountRole::WritableSigner => true,
            _ => false,
        }
    }
}

impl From<(bool, bool)> for AccountRole {
    fn from(flags: (bool, bool)) -> (r: AccountRole) {
        AccountRole::from_flags(flags.0, flags.1)
    }
}

impl vstd::std_specs::convert::FromSpecImpl<(bool, bool)> for AccountRole {
    open spec fn obeys_from_spec() -> bool {
        true
    }

    open spec fn from_spec(flags: (bool, bool)) -> AccountRole {
        role_of(flags.0, flags.1)
    }
}

/// The four flag pairs map to four distinct roles, and each role's code carries
/// writability in bit 0 and signer status in bit 1.
pub proof fn lemma_role_bijection(w1: bool, s1: bool, w2: bool, s2: bool)
    ensures
        role_of(w1, s1) == role_of(w2, s2) <==> (w1 == w2 && s1 == s2),
        role_code(role_of(w1, s1)) == (if s1 { 2u8 } else { 0u8 }) + (if w1 { 1u8 } else { 0u8 }),
        role_code(role_of(w1, s1)) == role_code(role_of(w2, s2)) ==> (w1 == w2 && s1 == s2),
{
}

/// Every role is the image of exactly the flags that its code spells out.
pub proof fn lemma_role_decodes(role: AccountRole)
    ensures
        role == role_of(role_code(role) % 2 == 1, role_code(role) >= 2),
{
}

} // verus!
