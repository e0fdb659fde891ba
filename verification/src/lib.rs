//! Client-side logic of a ChainDB connection: access-key derivation,
//! request URLs and JSON bodies, and the table absent/present resolution.
use vstd::prelude::*;

mod hash;
mod json;
mod structures;
mod table;
mod test_table;

pub use hash::access_key_of;
pub use hash::lemma_access_key_deterministic;
pub use hash::lemma_table_id_deterministic;
pub use hash::sha256_hex_of;
pub use hash::table_id_of;
pub use json::dec_str;
pub use json::escape_char;
pub use json::hex_digit;
pub use json::json_escaped;
pub use json::json_quoted;
pub use structures::Access;
pub use structures::BasicResponse;
pub use structures::ContractTransactionData;
pub use structures::SignedUserAccount;
pub use structures::TransactionType;
pub use structures::TransferUnitsRegistry;
pub use structures::UserAccount;
pub use table::history_values;
pub use table::lemma_read_after_write;
pub use table::persist_body_json;
pub use table::resolved_value;
pub use table::Table;
pub use test_table::TestTable;

use hash::sha256_hex;
use json::append_dec;
use json::append_json_quoted;

verus! {

/// The JSON body that asks the server to create an account: the access
/// key and the new account's credentials, with an optional starting
/// balance and an optional password hint (`null` when absent). Keys are
/// in alphabetical order.
pub open spec fn create_account_body_json(
    access_key: Seq<char>,
    user_name: Seq<char>,
    password: Seq<char>,
    units: Option<u64>,
    password_hint: Option<String>,
) -> Seq<char> {
    "{\"db_access_key\":"@ + json_quoted(access_key) + ",\"password\":"@ + json_quoted(password)
        + ",\"password_hint\":"@ + (match password_hint {
        Option::Some(hint) => json_quoted(hint@),
        Option::None => "null"@,
    }) + ",\"units\":"@ + (match units {
        Option::Some(u) => dec_str(u as nat),
        Option::None => "null"@,
    }) + ",\"user_name\":"@ + json_quoted(user_name) + "}"@
}

/// The JSON body that asks the server to move `units` from one account
/// to another. Keys are in alphabetical order.
pub open spec fn transfer_body_json(
    access_key: Seq<char>,
    from: Seq<char>,
    to: Seq<char>,
    units: u64,
) -> Seq<char> {
    "{\"db_access_key\":"@ + json_quoted(access_key) + ",\"from\":"@ + json_quoted(from)
        + ",\"to\":"@ + json_quoted(to) + ",\"units\":"@ + dec_str(units as nat) + "}"@
}

/// A connection to one logical database: server address, database name,
/// credentials, and the access key derived from them. Immutable once built.
#[derive(Debug)]
pub struct ChainDB {
    pub api: &'static str,
    pub name: String,
    pub access: Access,
    pub access_key: String,
}

impl Clone for ChainDB {
    fn clone(&self) -> (other: Self)
        ensures
            other == *self,
    {
        ChainDB {
            api: self.api,
            name: self.name.clone(),
            access: self.access,
            access_key: self.access_key.clone(),
        }
    }
}

impl ChainDB {
    /// Opens a connection description. No request is sent: the access key
    /// is derived locally as the digest of database name, user and
    /// password concatenated in that order. An absent `server` means the
    /// default address `http://localhost:2818`.
    pub fn connect(
        server: Option<&'static str>,
        data_base: &'static str,
        user: &'static str,
        password: &'static str,
    ) -> (db: Self)
        ensures
            db.api@ == match server {
                Option::Some(s) => s@,
                Option::None => "http://localhost:2818"@,
            },
            db.name@ == data_base@,
            db.access.user == user,
            db.access.password == password,
            db.access_key@ == access_key_of(data_base@, user@, password@),
    {
        let mut key_data = String::new();
        key_data.append(data_base);
        key_data.append(user);
        key_data.append(password);
        let key = sha256_hex(key_data.as_str());
        let api = match server {
            Option::Some(s) => s,
            Option::None => "http://localhost:2818",
        };
        proof {
            assert(key_data@ =~= data_base@ + user@ + password@);
        }
        ChainDB {
            api,
            name: data_base.to_owned(),
            access: Access { user, password },
            access_key: key,
        }
    }

    /// The address accounts are created at.
    pub fn create_user_account_url(&self) -> (url: String)
        ensures
            url@ == self.api@ + "/create_user_account"@,
    {
        let mut url = String::new();
        url.append(self.api);
        url.append("/create_user_account");
        url
    }

    /// The body that asks the server to create an account with this
    /// name, password, optional starting balance and optional hint.
    pub fn create_user_account_body(
        &self,
        user_name: &str,
        password: &str,
        units: Option<u64>,
        password_hint: Option<String>,
    ) -> (body: String)
        ensures
            body@ == create_account_body_json(
                self.access_key@,
                user_name@,
                password@,
                units,
                password_hint,
            ),
    {
        let mut body = String::new();
        body.append("{\"db_access_key\":");
        append_json_quoted(&mut body, self.access_key.as_str());
        body.append(",\"password\":");
        append_json_quoted(&mut body, password);
        body.append(",\"password_hint\":");
        match &password_hint {
            Option::Some(hint) => append_json_quoted(&mut body, hint.as_str()),
            Option::None => body.append("null"),
        }
        body.append(",\"units\":");
        match units {
            Option::Some(u) => append_dec(&mut body, u),
            Option::None => body.append("null"),
        }
        body.append(",\"user_name\":");
        append_json_quoted(&mut body, user_name);
        body.append("}");
        proof {
            assert(body@ =~= create_account_body_json(
                self.access_key@,
                user_name@,
                password@,
                units,
                password_hint,
            ));
        }
        body
    }

    /// The address that answers a credential login for this database.
    pub fn get_user_account_url(&self, user_name: &str, password: &str) -> (url: String)
        ensures
            url@ == self.api@ + "/get_user_account/"@ + user_name@ + "/"@ + password@ + "/"@
                + self.access_key@,
    {
        let mut url = String::new();
        url.append(self.api);
        url.append("/get_user_account/");
        url.append(user_name);
        url.append("/");
        url.append(password);
        url.append("/");
        url.append(self.access_key.as_str());
        proof {
            assert(url@ =~= self.api@ + "/get_user_account/"@ + user_name@ + "/"@ + password@
                + "/"@ + self.access_key@);
        }
        url
    }

    /// The address that answers an account lookup by id.
    pub fn get_user_account_by_id_url(&self, user_id: &str) -> (url: String)
        ensures
            url@ == self.api@ + "/get_user_account_by_id/"@ + user_id@ + "/"@ + self.access_key@,
    {
        let mut url = String::new();
        url.append(self.api);
        url.append("/get_user_account_by_id/");
        url.append(user_id);
        url.append("/");
        url.append(self.access_key.as_str());
        proof {
            assert(url@ =~= self.api@ + "/get_user_account_by_id/"@ + user_id@ + "/"@
                + self.access_key@);
        }
        url
    }

    /// The address that answers whether a user name is already taken.
    pub fn check_user_name_url(&self, user_name: &str) -> (url: String)
        ensures
            url@ == self.api@ + "/check_user_name/"@ + user_name@ + "/"@ + self.access_key@,
    {
        let mut url = String::new();
        url.append(self.api);
        url.append("/check_user_name/");
        url.append(user_name);
        url.append("/");
        url.append(self.access_key.as_str());
        proof {
            assert(url@ =~= self.api@ + "/check_user_name/"@ + user_name@ + "/"@
                + self.access_key@);
        }
        url
    }

    /// The address transfers are posted to.
    pub fn transfer_units_url(&self) -> (url: String)
        ensures
            url@ == self.api@ + "/transfer_units"@,
    {
        let mut url = String::new();
        url.append(self.api);
        url.append("/transfer_units");
        url
    }

    /// The body that asks the server to move `units` between accounts.
    /// No balance is checked locally: the server alone decides.
    pub fn transfer_units_body(&self, from: &str, to: &str, units: u64) -> (body: String)
        ensures
            body@ == transfer_body_json(self.access_key@, from@, to@, units),
    {
        let mut body = String::new();
        body.append("{\"db_access_key\":");
        append_json_quoted(&mut body, self.access_key.as_str());
        body.append(",\"from\":");
        append_json_quoted(&mut body, from);
        body.append(",\"to\":");
        append_json_quoted(&mut body, to);
        body.append(",\"units\":");
        append_dec(&mut body, units);
        body.append("}");
        proof {
            assert(body@ =~= transfer_body_json(self.access_key@, from@, to@, units));
        }
        body
    }

    /// The address that answers an account's most recent transfer.
    pub fn get_transfer_by_user_id_url(&self, user_id: &str) -> (url: String)
        ensures
            url@ == self.api@ + "/get_transfer_by_user_id/"@ + user_id@ + "/"@ + self.access_key@,
    {
        let mut url = String::new();
        url.append(self.api);
        url.append("/get_transfer_by_user_id/");
        url.append(user_id);
        url.append("/");
        url.append(self.access_key.as_str());
        proof {
            assert(url@ =~= self.api@ + "/get_transfer_by_user_id/"@ + user_id@ + "/"@
                + self.access_key@);
        }
        url
    }

    /// The address that answers all of an account's transfers.
    pub fn get_all_transfers_by_user_id_url(&self, user_id: &str) -> (url: String)
        ensures
            url@ == self.api@ + "/get_all_transfers_by_user_id/"@ + user_id@ + "/"@
                + self.access_key@,
    {
        let mut url = String::new();
        url.append(self.api);
        url.append("/get_all_transfers_by_user_id/");
        url.append(user_id);
        url.append("/");
        url.append(self.access_key.as_str());
        proof {
            assert(url@ =~= self.api@ + "/get_all_transfers_by_user_id/"@ + user_id@ + "/"@
                + self.access_key@);
        }
        url
    }

    /// The address that answers the latest record stored under a table
    /// identifier.
    pub fn table_payload_url(&self, contract_id: &str) -> (url: String)
        ensures
            url@ == self.api@ + "/get_last_contract_transaction/"@ + contract_id@ + "/"@
                + self.access_key@,
    {
        let mut url = String::new();
        url.append(self.api);
        url.append("/get_last_contract_transaction/");
        url.append(contract_id);
        url.append("/");
        url.append(self.access_key.as_str());
        proof {
            assert(url@ =~= self.api@ + "/get_last_contract_transaction/"@ + contract_id@ + "/"@
                + self.access_key@);
        }
        url
    }

    /// Binds a fetched record to a typed table for `table_name`, exactly
    /// as `Table::get` resolves it.
    pub fn get_table<Model>(
        &self,
        table_name: &str,
        fetched: Option<ContractTransactionData<Model>>,
        default: Model,
    ) -> (t: Table<Model>)
        ensures
            t.id() == table_id_of(self.name@, table_name@, self.access.user@, self.access.password@),
            t.connection() == *self,
            t.value() == resolved_value(t.id(), fetched, default),
            fetched is None ==> t.value() == default,
    {
        Table::get(self, table_name, fetched, default)
    }
}

} // verus!
