use crate::address::{base58_text, Address};
use crate::role::{role_of, AccountRole};
use vstd::prelude::*;

verus! {

/// An account that an on-chain instruction references, with its capability flags.
#[derive(Clone, Copy, Debug)]
pub struct InstructionAccount {
    pub pubkey: Address,
    pub is_signer: bool,
    pub is_writable: bool,
}

/// An on-chain instruction: target program, ordered accounts and payload.
#[derive(Debug)]
pub struct Instruction {
    pub program_id: Address,
    pub accounts: Vec<InstructionAccount>,
    pub data: Vec<u8>,
}

/// One account reference of a proposal instruction.
#[derive(Debug)]
pub struct AccountMeta {
    pub address: String,
    pub role: AccountRole,
}

/// The portable description of one instruction of a proposal.
#[derive(Debug)]
pub struct ProposalInstruction {
    pub program_address: String,
    pub accounts: Vec<AccountMeta>,
    pub data: Vec<u8>,
}

/// The envelope that one invocation emits.
#[derive(Debug)]
pub struct Response {
    /// The instructions to include in the proposal, in order.
    pub proposal_instructions: Vec<ProposalInstruction>,
}

/// An instruction account as plain values.
pub struct AccountView {
    pub pubkey: Seq<u8>,
    pub is_signer: bool,
    pub is_writable: bool,
}

/// An instruction as plain values.
pub struct InstructionView {
    pub program_id: Seq<u8>,
    pub accounts: Seq<AccountView>,
    pub data: Seq<u8>,
}

impl View for InstructionAccount {
    type V = AccountView;

    open spec fn view(&self) -> AccountView {
        AccountView { pubkey: self.pubkey.bytes@, is_signer: self.is_signer, is_writable: self.is_writable }
    }
}

impl View for Instruction {
    type V = InstructionView;

    open spec fn view(&self) -> InstructionView {
        InstructionView {
            program_id: self.program_id.bytes@,
            accounts: self.accounts@.map_values(|a: InstructionAccount| a@),
            data: self.data@,
        }
    }
}

/// Whether `meta` describes the instruction account `acc`.
pub open spec fn describes_account(acc: AccountView, meta: AccountMeta) -> bool {
    &&& meta.address@ == base58_text(acc.pubkey)
    &&& meta.role == role_of(acc.is_writable, acc.is_signer)
}

/// Whether `p` is the portable description of `ix`: same program, same accounts
/// in the same order with their roles, same payload.
pub open spec fn describes(ix: InstructionView, p: ProposalInstruction) -> bool {
    &&& p.program_address@ == base58_text(ix.program_id)
    &&& p.accounts@.len() == ix.accounts.len()
    &&& forall|i: int| 0 <= i < ix.accounts.len() ==> describes_account(#[trigger] ix.accounts[i], p.accounts@[i])
    &&& p.data@ == ix.data
}

/// The instructions as plain values.
pub open spec fn instructions_view(ixs: Seq<Instruction>) -> Seq<InstructionView> {
    ixs.map_values(|ix: Instruction| ix@)
}

/// Whether `r` lists the descriptions of `ixs`, in order.
pub open spec fn describes_all(ixs: Seq<InstructionView>, r: Response) -> bool {
    &&& r.proposal_instructions@.len() == ixs.len()
    &&& forall|i: int| 0 <= i < ixs.len() ==> describes(#[trigger] ixs[i], r.proposal_instructions@[i])
}

impl AccountMeta {
    /// Describes one instruction account.
    pub fn from_account(acc: &InstructionAccount) -> (r: AccountMeta)
        ensures
            describes_account(acc@, r),
    {
        AccountMeta {
            address: acc.pubkey.to_text(),
            role: AccountRole::from_flags(acc.is_writable, acc.is_signer),
        }
    }
}

impl ProposalInstruction {
    /// Describes an instruction, keeping the order of its accounts.
    pub fn from_instruction(ix: &Instruction) -> (r: ProposalInstruction)
        ensures
            describes(ix@, r),
    {
        let mut accounts: Vec<AccountMeta> = Vec::new();
        let mut i: usize = 0;
        while i < ix.accounts.len()
            invariant
                0 <= i <= ix.accounts@.len(),
                accounts@.len() == i,
                forall|j: int| 0 <= j < i ==> describes_account(#[trigger] ix@.accounts[j], accounts@[j]),
            decreases ix.accounts@.len() - i,
        {
            let meta = AccountMeta::from_account(&ix.accounts[i]);
            accounts.push(meta);
            i = i + 1;
        }
        let data = ix.data.clone();
        ProposalInstruction { program_address: ix.program_id.to_text(), accounts, data }
    }
}

impl Response {
    /// The response that carries the description of a single instruction.
    pub fn from_instruction(ix: &Instruction) -> (r: Response)
        ensures
            describes_all(seq![ix@], r),
    {
        let p = ProposalInstruction::from_instruction(ix);
        let r = Response { proposal_instructions: vec![p] };
        assert(seq![ix@][0] == ix@);
        r
    }

    /// The response that carries the descriptions of `ixs`, in order.
    pub fn from_instructions(ixs: &[Instruction]) -> (r: Response)
        ensures
            describes_all(instructions_view(ixs@), r),
    {
        let mut out: Vec<ProposalInstruction> = Vec::new();
        let mut i: usize = 0;
        while i < ixs.len()
            invariant
                0 <= i <= ixs@.len(),
                out@.len() == i,
                forall|j: int| 0 <= j < i ==> describes(#[trigger] ixs@[j]@, out@[j]),
            decreases ixs@.len() - i,
        {
            let p = ProposalInstruction::from_instruction(&ixs[i]);
            out.push(p);
            i = i + 1;
        }
        let r = Response { proposal_instructions: out };
        assert forall|j: int| 0 <= j < ixs@.len() implies describes(#[trigger] instructions_view(ixs@)[j], r.proposal_instructions@[j]) by {
            assert(describes(ixs@[j]@, out@[j]));
        }
        r
    }
}

} // verus!
