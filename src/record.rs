use vstd::prelude::*;

verus! {

/// The mathematical value of a contract record.
pub ghost struct RecordModel {
    pub contract_id: Seq<char>,
    pub secret: Seq<char>,
    pub recipient_wallet: Seq<char>,
    pub contract_wallet: Seq<char>,
    pub address_index: u32,
    pub contract_text: Seq<char>,
    pub released: bool,
}

impl RecordModel {
    /// Every field but `released` is fixed at creation.
    pub open spec fn same_terms(self, other: RecordModel) -> bool {
        &&& self.contract_id == other.contract_id
        &&& self.secret == other.secret
        &&& self.recipient_wallet == other.recipient_wallet
        &&& self.contract_wallet == other.contract_wallet
        &&& self.address_index == other.address_index
        &&& self.contract_text == other.contract_text
    }

    /// The same record after the release transition.
    pub open spec fn mark_released(self) -> RecordModel {
        RecordModel { released: true, ..self }
    }
}

/// One escrow contract.
pub struct ContractRecord {
    pub contract_id: String,
    pub secret: String,
    pub recipient_wallet: String,
    pub contract_wallet: String,
    pub address_index: u32,
    pub contract_text: String,
    pub released: bool,
}

impl View for ContractRecord {
    type V = RecordModel;

    open spec fn view(&self) -> RecordModel {
        RecordModel {
            contract_id: self.contract_id@,
            secret: self.secret@,
            recipient_wallet: self.recipient_wallet@,
            contract_wallet: self.contract_wallet@,
            address_index: self.address_index,
            contract_text: self.contract_text@,
            released: self.released,
        }
    }
}

impl ContractRecord {
    /// A copy with the same value.
    pub fn duplicate(&self) -> (r: ContractRecord)
        ensures
            r@ == self@,
    {
        ContractRecord {
            contract_id: self.contract_id.clone(),
            secret: self.secret.clone(),
            recipient_wallet: self.recipient_wallet.clone(),
            contract_wallet: self.contract_wallet.clone(),
            address_index: self.address_index,
            contract_text: self.contract_text.clone(),
            released: self.released,
        }
    }
}

} // verus!
