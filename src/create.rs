use vstd::prelude::*;
use crate::fresh::{fresh_contract_id, fresh_secret, is_id_form, is_secret_form};
use crate::ledger::Ledger;
use crate::record::{ContractRecord, RecordModel};

verus! {

/// Number of characters in a generated release passphrase.
pub const SECRET_LEN: usize = 12;

/// A receiving address and its index, as the provisioner handed them out.
pub struct Provisioned {
    pub address: String,
    pub index: u32,
}

/// Why a contract was not created.
#[derive(PartialEq, Eq, Structural, Clone, Copy, Debug)]
pub enum CreateError {
    /// No receiving address could be provisioned.
    Provision,
    /// The generated id is already taken.
    DuplicateId,
}

/// The record that creation stores.
pub open spec fn new_record(
    id: Seq<char>,
    secret: Seq<char>,
    text: Seq<char>,
    recipient: Seq<char>,
    address: Seq<char>,
    index: u32,
) -> RecordModel {
    RecordModel {
        contract_id: id,
        secret: secret,
        recipient_wallet: recipient,
        contract_wallet: address,
        address_index: index,
        contract_text: text,
        released: false,
    }
}

impl Ledger {
    /// Creates a contract under the given id and passphrase. Nothing is
    /// stored where provisioning failed or the id is taken.
    pub fn create_with(
        &mut self,
        id: String,
        secret: String,
        text: String,
        recipient: String,
        provisioned: Option<Provisioned>,
    ) -> (r: Result<(String, String), CreateError>)
        requires
            old(self).wf(),
            secret@.len() > 0,
        ensures
            final(self).wf(),
            provisioned is None ==> {
                &&& r == Err::<(String, String), CreateError>(CreateError::Provision)
                &&& final(self)@ == old(self)@
            },
            provisioned is Some && old(self)@.contains_key(id@) ==> {
                &&& r == Err::<(String, String), CreateError>(CreateError::DuplicateId)
                &&& final(self)@ == old(self)@
            },
            provisioned is Some && !old(self)@.contains_key(id@) ==> {
                &&& r matches Ok((rid, rsecret)) && rid@ == id@ && rsecret@ == secret@
                &&& final(self)@ == old(self)@.insert(
                    id@,
                    new_record(id@, secret@, text@, recipient@, provisioned->Some_0.address@, provisioned->Some_0.index),
                )
            },
    {
        let p = match provisioned {
            Some(p) => p,
            None => {
                return Err(CreateError::Provision);
            },
        };
        let record = ContractRecord {
            contract_id: id.clone(),
            secret: secret.clone(),
            recipient_wallet: recipient,
            contract_wallet: p.address,
            address_index: p.index,
            contract_text: text,
            released: false,
        };
        match self.insert(record) {
            Ok(()) => Ok((id, secret)),
            Err(_) => Err(CreateError::DuplicateId),
        }
    }

    /// The record of a new contract with a fresh random id and a fresh
    /// passphrase of `SECRET_LEN` letters and digits, not yet stored.
    /// `DuplicateId` comes only where the store already holds an id of the
    /// generated form.
    pub fn prepare_contract(
        &self,
        text: String,
        recipient: String,
        provisioned: Option<Provisioned>,
    ) -> (r: Result<ContractRecord, CreateError>)
        ensures
            (r == Err::<ContractRecord, CreateError>(CreateError::Provision)) <==> provisioned is None,
            r == Err::<ContractRecord, CreateError>(CreateError::DuplicateId) ==> exists|k: Seq<char>|
                #[trigger] self@.contains_key(k) && is_id_form(k),
            provisioned is Some && !(exists|k: Seq<char>| #[trigger] self@.contains_key(k) && is_id_form(k))
                ==> r is Ok,
            r matches Ok(c) ==> {
                &&& provisioned is Some
                &&& !self@.contains_key(c@.contract_id)
                &&& c@ == new_record(
                    c@.contract_id,
                    c@.secret,
                    text@,
                    recipient@,
                    provisioned->Some_0.address@,
                    provisioned->Some_0.index,
                )
                &&& is_id_form(c@.contract_id)
                &&& is_secret_form(c@.secret, SECRET_LEN as nat)
            },
    {
        let p = match provisioned {
            Some(p) => p,
            None => {
                return Err(CreateError::Provision);
            },
        };
        let id = fresh_contract_id();
        if self.contains(id.as_str()) {
            return Err(CreateError::DuplicateId);
        }
        let secret = fresh_secret(SECRET_LEN);
        Ok(ContractRecord {
            contract_id: id,
            secret,
            recipient_wallet: recipient,
            contract_wallet: p.address,
            address_index: p.index,
            contract_text: text,
            released: false,
        })
    }

    /// Creates a contract with a fresh random id and a fresh passphrase of
    /// `SECRET_LEN` letters and digits, and returns both. `DuplicateId` comes
    /// only where the store already holds an id of the generated form, so a
    /// store without one always gets the new contract.
    pub fn create_contract(
        &mut self,
        text: String,
        recipient: String,
        provisioned: Option<Provisioned>,
    ) -> (r: Result<(String, String), CreateError>)
        requires
            old(self).wf(),
        ensures
            final(self).wf(),
            (r == Err::<(String, String), CreateError>(CreateError::Provision)) <==> provisioned is None,
            r is Err ==> final(self)@ == old(self)@,
            r == Err::<(String, String), CreateError>(CreateError::DuplicateId) ==> exists|k: Seq<char>|
                #[trigger] old(self)@.contains_key(k) && is_id_form(k),
            provisioned is Some && !(exists|k: Seq<char>| #[trigger] old(self)@.contains_key(k) && is_id_form(k))
                ==> r is Ok,
            r matches Ok((id, secret)) ==> {
                &&& provisioned is Some
                &&& !old(self)@.contains_key(id@)
                &&& final(self)@ == old(self)@.insert(
                    id@,
                    new_record(id@, secret@, text@, recipient@, provisioned->Some_0.address@, provisioned->Some_0.index),
                )
                &&& is_id_form(id@)
                &&& is_secret_form(secret@, SECRET_LEN as nat)
            },
    {
        let record = match self.prepare_contract(text, recipient, provisioned) {
            Ok(c) => c,
            Err(e) => {
                return Err(e);
            },
        };
        let id = record.contract_id.clone();
        let secret = record.secret.clone();
        match self.insert(record) {
            Ok(()) => Ok((id, secret)),
            Err(_) => Err(CreateError::DuplicateId),
        }
    }
}

} // verus!
