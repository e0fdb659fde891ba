//! The table accessor: a typed record keyed by a derived identifier, with
//! two states only — absent (no record stored yet) and present.
use crate::hash::table_id_of;
use crate::json::append_dec;
use crate::json::append_json_quoted;
use crate::json::dec_str;
use crate::json::json_quoted;
use crate::structures::ContractTransactionData;
use crate::structures::TransactionType;
use crate::ChainDB;
use vstd::prelude::*;

verus! {

/// The value a fetch resolves to: the stored payload when the fetched
/// record is a contract record keyed under `id`, the default otherwise
/// (no record, the "none" sentinel, or a record of another kind).
pub open spec fn resolved_value<Model>(
    id: Seq<char>,
    fetched: Option<ContractTransactionData<Model>>,
    default: Model,
) -> Model {
    match fetched {
        Option::Some(rec) => if rec.tx_type == TransactionType::CONTRACT && rec.contract_id@
            == id {
            rec.data
        } else {
            default
        },
        Option::None => default,
    }
}

/// The payloads of a history response: empty when the single entry is the
/// "none" sentinel, otherwise the payload of every entry in the order
/// delivered.
pub open spec fn history_values<Model>(entries: Seq<ContractTransactionData<Model>>) -> Seq<
    Model,
> {
    if entries.len() == 1 && entries[0].tx_type == TransactionType::NONE {
        Seq::empty()
    } else {
        entries.map_values(|rec: ContractTransactionData<Model>| rec.data)
    }
}

/// The JSON body that stores a table value: the serialized value embedded
/// as a string, tagged as a contract record for this identifier.
pub open spec fn persist_body_json(
    contract_id: Seq<char>,
    access_key: Seq<char>,
    data: Seq<char>,
) -> Seq<char> {
    "{\"contract_id\":"@ + json_quoted(contract_id) + ",\"data\":"@ + json_quoted(data)
        + ",\"db_access_key\":"@ + json_quoted(access_key) + ",\"tx_type\":\"CONTRACT\"}"@
}

/// Law: read-after-write — when a fetch hands back exactly the contract
/// record that a persist wrote for this identifier, resolving it returns
/// the persisted value, whatever the default would have been.
pub proof fn lemma_read_after_write<Model>(
    id: Seq<char>,
    rec: ContractTransactionData<Model>,
    default: Model,
)
    requires
        rec.tx_type == TransactionType::CONTRACT,
        rec.contract_id@ == id,
    ensures
        resolved_value(id, Option::Some(rec), default) == rec.data,
{
}

/// A typed table bound to one derived identifier and one connection.
/// `table` is the in-memory value; it only reaches the server on an
/// explicit persist.
#[derive(Debug)]
pub struct Table<Model> {
    pub table: Model,
    contract_id: String,
    db: ChainDB,
}

impl<Model> Table<Model> {
    /// The in-memory value this table currently holds.
    pub closed spec fn value(&self) -> Model {
        self.table
    }

    /// The identifier this table is keyed under.
    pub closed spec fn id(&self) -> Seq<char> {
        self.contract_id@
    }

    /// The connection this table was fetched through.
    pub closed spec fn connection(&self) -> ChainDB {
        self.db
    }

    /// The identifier this table is keyed under, as a string.
    pub fn contract_id(&self) -> (id: &String)
        ensures
            id@ == self.id(),
    {
        &self.contract_id
    }

    /// Resolves a fetched record into a table bound to the identifier
    /// derived from the connection's database name, the table name and
    /// the credentials. A missing record, the "none" sentinel and any
    /// non-contract record all resolve to `default`; a contract record
    /// keyed under this identifier resolves to its payload.
    pub fn get(
        db: &ChainDB,
        table_name: &str,
        fetched: Option<ContractTransactionData<Model>>,
        default: Model,
    ) -> (t: Table<Model>)
        ensures
            t.id() == table_id_of(db.name@, table_name@, db.access.user@, db.access.password@),
            t.connection() == *db,
            t.value() == resolved_value(t.id(), fetched, default),
            fetched is None ==> t.value() == default,
    {
        let contract_id = db.access.parse(db.name.clone(), table_name.to_owned());
        match fetched {
            Option::Some(rec) => {
                if rec.tx_type == TransactionType::CONTRACT && rec.contract_id == contract_id {
                    Table { table: rec.data, contract_id, db: db.clone() }
                } else {
                    Table { table: default, contract_id, db: db.clone() }
                }
            },
            Option::None => Table { table: default, contract_id, db: db.clone() },
        }
    }

    /// The address a stored table value is posted to.
    pub fn persist_url(&self) -> (url: String)
        ensures
            url@ == self.connection().api@ + "/post_contract_transaction"@,
    {
        let mut url = String::new();
        url.append(self.db.api);
        url.append("/post_contract_transaction");
        url
    }

    /// The body that stores the serialized in-memory value under this
    /// table's identifier. Sending it always overwrites: nothing is read
    /// back first, and the last write wins.
    pub fn persist_body(&self, data: &str) -> (body: String)
        ensures
            body@ == persist_body_json(self.id(), self.connection().access_key@, data@),
    {
        let mut body = String::new();
        body.append("{\"contract_id\":");
        append_json_quoted(&mut body, self.contract_id.as_str());
        body.append(",\"data\":");
        append_json_quoted(&mut body, data);
        body.append(",\"db_access_key\":");
        append_json_quoted(&mut body, self.db.access_key.as_str());
        body.append(",\"tx_type\":\"CONTRACT\"}");
        proof {
            assert(body@ =~= persist_body_json(
                self.id(),
                self.connection().access_key@,
                data@,
            ));
        }
        body
    }

    /// The address that lists this table's past records, newest first,
    /// `depth` entries at most.
    pub fn history_url(&self, depth: u64) -> (url: String)
        ensures
            url@ == self.connection().api@ + "/get_contract_transactions/"@ + self.id() + "/"@
                + self.connection().access_key@ + "/"@ + dec_str(depth as nat),
    {
        let mut url = String::new();
        url.append(self.db.api);
        url.append("/get_contract_transactions/");
        url.append(self.contract_id.as_str());
        url.append("/");
        url.append(self.db.access_key.as_str());
        url.append("/");
        append_dec(&mut url, depth);
        proof {
            assert(url@ =~= self.connection().api@ + "/get_contract_transactions/"@ + self.id()
                + "/"@ + self.connection().access_key@ + "/"@ + dec_str(depth as nat));
        }
        url
    }

    /// Keeps only the typed payloads of fetched history entries. A lone
    /// "none" sentinel entry yields the empty history, never a
    /// one-element history holding the sentinel.
    pub fn get_history(entries: Vec<ContractTransactionData<Model>>) -> (out: Vec<Model>)
        ensures
            out@ == history_values(entries@),
            entries@.len() == 1 && entries@[0].tx_type == TransactionType::NONE ==> out@
                =~= Seq::<Model>::empty(),
    {
        let ghost all = entries@;
        let mut rest = entries;
        let mut out: Vec<Model> = Vec::new();
        if rest.len() == 1 {
            let only = &rest[0];
            if only.tx_type == TransactionType::NONE {
                return out;
            }
        }
        while rest.len() > 0
            invariant
                out@.len() + rest@.len() == all.len(),
                rest@ =~= all.skip(out@.len() as int),
                out@ =~= all.take(out@.len() as int).map_values(
                    |rec: ContractTransactionData<Model>| rec.data,
                ),
                !(all.len() == 1 && all[0].tx_type == TransactionType::NONE),
            decreases rest@.len(),
        {
            let ghost done = out@.len() as int;
            let rec = rest.remove(0);
            proof {
                assert(rec == all[done]);
                assert(rest@ =~= all.skip(done + 1));
                assert(all.take(done + 1).map_values(
                    |r: ContractTransactionData<Model>| r.data,
                ) =~= all.take(done).map_values(|r: ContractTransactionData<Model>| r.data).push(
                    rec.data,
                ));
            }
            out.push(rec.data);
        }
        proof {
            assert(all.take(all.len() as int) =~= all);
            assert(out@ =~= history_values(all));
        }
        out
    }
}

} // verus!

