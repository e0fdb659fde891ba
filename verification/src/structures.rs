//! Wire-level data shapes shared by every operation.
use crate::hash::sha256_hex;
use crate::hash::table_id_of;
use vstd::prelude::*;

verus! {

/// Discriminant carried by every stored record; `NONE` is the sentinel the
/// server returns when no record exists for an identifier.
#[derive(Clone, Copy, Debug, PartialEq, Eq, Structural)]
pub enum TransactionType {
    NONE,
    ACCOUNT,
    CONTRACT,
    TRANSFER,
}

/// The credentials a connection was opened with.
#[derive(Clone, Copy, Debug)]
pub struct Access {
    pub user: &'static str,
    pub password: &'static str,
}

impl Access {
    /// Derives the identifier of a table: the digest of database name,
    /// table name, user and password, concatenated in that order.
    pub fn parse(&self, data_base: String, table_name: String) -> (id: String)
        ensures
            id@ == table_id_of(data_base@, table_name@, self.user@, self.password@),
    {
        let mut access_info = data_base;
        access_info.append(table_name.as_str());
        access_info.append(self.user);
        access_info.append(self.password);
        sha256_hex(access_info.as_str())
    }
}

/// An account as the caller sees it, without the server-assigned id.
#[derive(Debug)]
pub struct UserAccount {
    pub user_name: String,
    pub units: u64,
}

/// An account record as the server returns it.
#[derive(Debug)]
pub struct SignedUserAccount {
    pub id: String,
    pub user_name: String,
    pub units: u64,
}

impl SignedUserAccount {
    /// Drops the server-assigned id, keeping name and balance.
    pub fn to_user(&self) -> (user: UserAccount)
        ensures
            user.user_name == self.user_name,
            user.units == self.units,
    {
        UserAccount { user_name: self.user_name.clone(), units: self.units }
    }
}

/// The uniform wrapper every endpoint answers with: a success flag, an
/// error message, and the payload when there is one.
#[derive(Debug)]
pub struct BasicResponse<D> {
    pub success: bool,
    pub error_msg: String,
    pub data: Option<D>,
}

/// A stored record as it travels to or from the chain: the discriminant,
/// the identifier it is keyed under, and the typed payload.
#[derive(Debug)]
pub struct ContractTransactionData<Model> {
    pub tx_type: TransactionType,
    pub contract_id: String,
    pub timestamp: Option<u64>,
    pub data: Model,
}

/// One recorded transfer of units between two accounts.
#[derive(Debug)]
pub struct TransferUnitsRegistry {
    pub from: String,
    pub to: String,
    pub units: u64,
}

} // verus!
