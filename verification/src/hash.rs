//! Identifier derivation: every access key and table identifier is the
//! hex digest of the relevant fields concatenated in a fixed order.
use vstd::prelude::*;

verus! {

/// The hex digest that `sha256::digest` computes for a string with these
/// characters. Left uninterpreted: the contracts only need that equal
/// inputs derive equal identifiers.
pub uninterp spec fn sha256_hex_of(s: Seq<char>) -> Seq<char>;

/// Relies on sha256::digest for &str: it hex-encodes the SHA-256 digest of
/// the string's bytes, so the result depends on the characters alone.
#[verifier::external_body]
pub(crate) fn sha256_hex(s: &str) -> (r: String)
    ensures
        r@ == sha256_hex_of(s@),
{
    sha256::digest(s)
}

/// The access key of a database: digest of name, user and password,
/// concatenated without separators.
pub open spec fn access_key_of(data_base: Seq<char>, user: Seq<char>, password: Seq<char>) -> Seq<
    char,
> {
    sha256_hex_of(data_base + user + password)
}

/// The identifier of a table: digest of database name, table name, user
/// and password, concatenated without separators.
pub open spec fn table_id_of(
    data_base: Seq<char>,
    table_name: Seq<char>,
    user: Seq<char>,
    password: Seq<char>,
) -> Seq<char> {
    sha256_hex_of(data_base + table_name + user + password)
}

/// Law: identifier derivation is deterministic — two derivations from
/// equal database, table and credential strings yield the same identifier,
/// however often and wherever they are repeated.
pub proof fn lemma_table_id_deterministic(
    db1: Seq<char>,
    table1: Seq<char>,
    user1: Seq<char>,
    pass1: Seq<char>,
    db2: Seq<char>,
    table2: Seq<char>,
    user2: Seq<char>,
    pass2: Seq<char>,
)
    requires
        db1 == db2,
        table1 == table2,
        user1 == user2,
        pass1 == pass2,
    ensures
        table_id_of(db1, table1, user1, pass1) == table_id_of(db2, table2, user2, pass2),
{
}

/// Law: access-key derivation is deterministic in the same way.
pub proof fn lemma_access_key_deterministic(
    db1: Seq<char>,
    user1: Seq<char>,
    pass1: Seq<char>,
    db2: Seq<char>,
    user2: Seq<char>,
    pass2: Seq<char>,
)
    requires
        db1 == db2,
        user1 == user2,
        pass1 == pass2,
    ensures
        access_key_of(db1, user1, pass1) == access_key_of(db2, user2, pass2),
{
}

} // verus!
