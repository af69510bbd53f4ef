use vstd::prelude::*;

verus! {

/// Response of the FIPS version query.
#[derive(Clone, Copy, Debug, PartialEq, Eq)]
pub struct FipsVersionResp {
    pub mode: u32,
    pub fips_rev: [u32; 3],
    pub name: [u8; 12],
}

/// Response data that a command hands back to the mailbox.
#[derive(Clone, Copy, Debug, PartialEq, Eq)]
pub enum MailboxResp {
    /// A response with no payload beyond its header.
    Empty,
    FipsVersion(FipsVersionResp),
}

} // verus!
