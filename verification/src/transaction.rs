//! Transactions as the entry chain sees them: the signatures that are hashed
//! into an entry, and the signed message that the signatures are checked
//! against.
use vstd::prelude::*;
use solana_sdk::message::MessageHeader;
use solana_sdk::pubkey::Pubkey;
use solana_sdk::signature::Signature;
use solana_sdk::{instruction, message};

verus! {

/// Longest vector that the message encoding can carry.
pub const MAX_SHORT_VEC_LEN: usize = 65535;

/// One instruction of a message, addressing its accounts by index.
#[derive(Clone, Debug, Default, PartialEq, Eq)]
pub struct CompiledInstruction {
    pub program_id_index: u8,
    pub accounts: Vec<u8>,
    pub data: Vec<u8>,
}

/// The signed part of a transaction.
#[derive(Clone, Debug, Default, PartialEq, Eq)]
pub struct Message {
    pub num_required_signatures: u8,
    pub num_readonly_signed_accounts: u8,
    pub num_readonly_unsigned_accounts: u8,
    pub account_keys: Vec<[u8; 32]>,
    pub recent_blockhash: [u8; 32],
    pub instructions: Vec<CompiledInstruction>,
}

/// A transaction: signatures over a message, one for each of the first
/// account keys.
#[derive(Clone, Debug, Default, PartialEq, Eq)]
pub struct Transaction {
    pub signatures: Vec<[u8; 64]>,
    pub message: Message,
}

/// Mathematical value of an instruction.
pub struct InstructionView {
    pub program_id_index: u8,
    pub accounts: Seq<u8>,
    pub data: Seq<u8>,
}

/// Mathematical value of a message.
pub struct MessageView {
    pub num_required_signatures: u8,
    pub num_readonly_signed_accounts: u8,
    pub num_readonly_unsigned_accounts: u8,
    pub account_keys: Seq<Seq<u8>>,
    pub recent_blockhash: Seq<u8>,
    pub instructions: Seq<InstructionView>,
}

/// Mathematical value of a transaction.
pub struct TransactionView {
    pub signatures: Seq<Seq<u8>>,
    pub message: MessageView,
}

impl View for CompiledInstruction {
    type V = InstructionView;

    open spec fn view(&self) -> InstructionView {
        InstructionView {
            program_id_index: self.program_id_index,
            accounts: self.accounts@,
            data: self.data@,
        }
    }
}

impl View for Message {
    type V = MessageView;

    open spec fn view(&self) -> MessageView {
        MessageView {
            num_required_signatures: self.num_required_signatures,
            num_readonly_signed_accounts: self.num_readonly_signed_accounts,
            num_readonly_unsigned_accounts: self.num_readonly_unsigned_accounts,
            account_keys: self.account_keys@.map_values(|k: [u8; 32]| k@),
            recent_blockhash: self.recent_blockhash@,
            instructions: self.instructions@.map_values(|i: CompiledInstruction| i@),
        }
    }
}

impl View for Transaction {
    type V = TransactionView;

    open spec fn view(&self) -> TransactionView {
        TransactionView {
            signatures: self.signatures@.map_values(|s: [u8; 64]| s@),
            message: self.message@,
        }
    }
}

/// Whether every vector of the transaction's message is short enough to be
/// encoded.
pub open spec fn encodable(tx: TransactionView) -> bool {
    &&& tx.message.account_keys.len() <= MAX_SHORT_VEC_LEN
    &&& tx.message.instructions.len() <= MAX_SHORT_VEC_LEN
    &&& forall|i: int|
        0 <= i < tx.message.instructions.len() ==> {
            &&& (#[trigger] tx.message.instructions[i]).accounts.len() <= MAX_SHORT_VEC_LEN
            &&& tx.message.instructions[i].data.len() <= MAX_SHORT_VEC_LEN
        }
}

/// Whether every signature of the transaction is a valid signature of the
/// encoded message under the account key at the same position.
pub uninterp spec fn signatures_valid(tx: TransactionView) -> bool;

/// Whether every instruction of the transaction names an account that the
/// message holds and, where it addresses the secp256k1 program, carries
/// signatures that recover the addresses it states.
pub uninterp spec fn precompiles_valid(tx: TransactionView) -> bool;

/// Calls `solana_sdk::transaction::Transaction::verify` on the same
/// transaction, built field by field, and reports whether it returned `Ok`.
/// That method encodes the message and checks each signature against the
/// account key at its position; the contract names its verdict. It panics
/// where the encoder fails, which it does on a vector of the message longer
/// than `MAX_SHORT_VEC_LEN`; `requires` rules that out.
#[verifier::external_body]
pub(crate) fn sdk_verify(tx: &Transaction) -> (r: bool)
    requires
        encodable(tx@),
    ensures
        r == signatures_valid(tx@),
{
    let m = &tx.message;
    let keys = m.account_keys.iter().map(|k| Pubkey::new_from_array(*k));
    let instructions = m.instructions.iter().map(|i| instruction::CompiledInstruction { program_id_index: i.program_id_index, accounts: i.accounts.clone(), data: i.data.clone() });
    let header = MessageHeader {
        num_required_signatures: m.num_required_signatures,
        num_readonly_signed_accounts: m.num_readonly_signed_accounts,
        num_readonly_unsigned_accounts: m.num_readonly_unsigned_accounts,
    };
    let message = message::Message { header, account_keys: keys.collect(), recent_blockhash: solana_sdk::hash::Hash(m.recent_blockhash), instructions: instructions.collect() };
    let signatures = tx.signatures.iter().map(|s| Signature::new(s)).collect();
    solana_sdk::transaction::Transaction { signatures, message }.verify().is_ok()
}

/// Calls `solana_sdk::transaction::Transaction::verify_precompiles` on the
/// same transaction, built field by field, and reports whether it returned
/// `Ok`. The contract names its verdict.
#[verifier::external_body]
pub(crate) fn sdk_verify_precompiles(tx: &Transaction) -> (r: bool)
    ensures
        r == precompiles_valid(tx@),
{
    let m = &tx.message;
    let keys = m.account_keys.iter().map(|k| Pubkey::new_from_array(*k));
    let instructions = m.instructions.iter().map(|i| instruction::CompiledInstruction { program_id_index: i.program_id_index, accounts: i.accounts.clone(), data: i.data.clone() });
    let header = MessageHeader {
        num_required_signatures: m.num_required_signatures,
        num_readonly_signed_accounts: m.num_readonly_signed_accounts,
        num_readonly_unsigned_accounts: m.num_readonly_unsigned_accounts,
    };
    let message = message::Message { header, account_keys: keys.collect(), recent_blockhash: solana_sdk::hash::Hash(m.recent_blockhash), instructions: instructions.collect() };
    let signatures = tx.signatures.iter().map(|s| Signature::new(s)).collect();
    solana_sdk::transaction::Transaction { signatures, message }.verify_precompiles().is_ok()
}

/// Whether a transaction passes: its message can be encoded, its signatures
/// are valid and, where the secp256k1 program is enabled, so are its
/// instructions to that program.
pub open spec fn transaction_ok(tx: TransactionView, secp256k1_program_enabled: bool) -> bool {
    &&& encodable(tx)
    &&& signatures_valid(tx)
    &&& secp256k1_program_enabled ==> precompiles_valid(tx)
}

impl Transaction {
    /// Whether every vector of the transaction's message is short enough to
    /// be encoded.
    pub fn is_encodable(&self) -> (r: bool)
        ensures
            r == encodable(self@),
    {
        if self.message.account_keys.len() > MAX_SHORT_VEC_LEN || self.message.instructions.len()
            > MAX_SHORT_VEC_LEN {
            return false;
        }
        let mut i: usize = 0;
        while i < self.message.instructions.len()
            invariant
                i <= self.message.instructions@.len(),
                forall|k: int|
                    0 <= k < i ==> {
                        &&& (#[trigger] self@.message.instructions[k]).accounts.len() <= MAX_SHORT_VEC_LEN
                        &&& self@.message.instructions[k].data.len() <= MAX_SHORT_VEC_LEN
                    },
            decreases self.message.instructions@.len() - i,
        {
            let instruction = &self.message.instructions[i];
            if instruction.accounts.len() > MAX_SHORT_VEC_LEN || instruction.data.len() > MAX_SHORT_VEC_LEN {
                assert(self@.message.instructions[i as int] == instruction@);
                return false;
            }
            assert(self@.message.instructions[i as int] == instruction@);
            i += 1;
        }
        true
    }

    /// Checks the signatures of the transaction and, where the secp256k1
    /// program is enabled, its instructions to that program.
    pub fn verify(&self, secp256k1_program_enabled: bool) -> (r: bool)
        ensures
            r == transaction_ok(self@, secp256k1_program_enabled),
    {
        if !self.is_encodable() {
            return false;
        }
        let sig_verify = sdk_verify(self);
        let precompiles = if sig_verify && secp256k1_program_enabled {
            Some(sdk_verify_precompiles(self))
        } else {
            None
        };
        checks_passed(sig_verify, precompiles)
    }
}

/// Whether a transaction passes, given what the check of its signatures
/// said and, where its instructions were checked too, what that check said.
pub fn checks_passed(sig_verify: bool, precompiles: Option<bool>) -> (r: bool)
    ensures
        r == (sig_verify && precompiles != Some(false)),
{
    match precompiles {
        Some(false) => false,
        _ => sig_verify,
    }
}

} // verus!
