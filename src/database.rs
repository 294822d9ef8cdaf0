use vstd::prelude::*;
use crate::types::{opt_view, MintRequest, RegistrationInformation};

verus! {

pub open spec fn registration_table_ddl() -> Seq<char> {
    "CREATE TABLE IF NOT EXISTS confirmed_registry_insertions (
        ergoname_registered VARCHAR(64) NOT NULL PRIMARY KEY,
        mint_transaction_id VARCHAR(64) NOT NULL,
        mint_box_id VARCHAR(64) NOT NULL,
        spend_transaction_id VARCHAR(64),
        ergoname_token_id VARCHAR(64) NOT NULL
    );"@
}

pub open spec fn mint_requests_table_ddl() -> Seq<char> {
    "CREATE TABLE IF NOT EXISTS mint_requests (
        box_id VARCHAR(64) NOT NULL PRIMARY KEY,
        transaction_id VARCHAR(64) NOT NULL,
        spent BOOLEAN NOT NULL DEFAULT FALSE
    );"@
}

/// The statement that creates the confirmed registrations table.
pub fn create_registration_information_schema() -> (r: &'static str)
    ensures
        r@ == registration_table_ddl(),
{
    "CREATE TABLE IF NOT EXISTS confirmed_registry_insertions (
        ergoname_registered VARCHAR(64) NOT NULL PRIMARY KEY,
        mint_transaction_id VARCHAR(64) NOT NULL,
        mint_box_id VARCHAR(64) NOT NULL,
        spend_transaction_id VARCHAR(64),
        ergoname_token_id VARCHAR(64) NOT NULL
    );"
}

/// The statement that creates the mint requests table.
pub fn create_mint_requests_schema() -> (r: &'static str)
    ensures
        r@ == mint_requests_table_ddl(),
{
    "CREATE TABLE IF NOT EXISTS mint_requests (
        box_id VARCHAR(64) NOT NULL PRIMARY KEY,
        transaction_id VARCHAR(64) NOT NULL,
        spent BOOLEAN NOT NULL DEFAULT FALSE
    );"
}

/// The statements that create both tables, in the order they are run; each
/// is a no-op on a table that exists.
pub fn create_database_schema() -> (r: Vec<&'static str>)
    ensures
        r@.len() == 2,
        r@[0]@ == registration_table_ddl(),
        r@[1]@ == mint_requests_table_ddl(),
{
    let mut v: Vec<&'static str> = Vec::new();
    v.push(create_registration_information_schema());
    v.push(create_mint_requests_schema());
    v
}

pub open spec fn insert_confirmed_sql() -> Seq<char> {
    "INSERT INTO confirmed_registry_insertions (
        ergoname_registered,
        mint_transaction_id,
        mint_box_id,
        spend_transaction_id,
        ergoname_token_id
    ) VALUES ($1, $2, $3, $4, $5) ON CONFLICT DO NOTHING;"@
}

pub open spec fn insert_mint_request_sql() -> Seq<char> {
    "INSERT INTO mint_requests (
        box_id,
        transaction_id
    ) VALUES ($1, $2) ON CONFLICT DO NOTHING;"@
}

pub open spec fn mark_spent_sql() -> Seq<char> {
    "UPDATE mint_requests SET spent = true WHERE box_id = $1"@
}

pub open spec fn list_pending_sql() -> Seq<char> {
    "SELECT box_id, transaction_id FROM mint_requests WHERE spent = false"@
}

pub open spec fn open_confirmed_sql() -> Seq<char> {
    "SELECT ergoname_registered, mint_transaction_id, mint_box_id, spend_transaction_id, ergoname_token_id FROM confirmed_registry_insertions WHERE spend_transaction_id IS NULL"@
}

/// Inserts a confirmed registration, leaving a known name as it is.
/// `RegistryStore::insert_confirmed` models its effect on the table.
pub fn insert_confirmed_statement() -> (r: &'static str)
    ensures
        r@ == insert_confirmed_sql(),
{
    "INSERT INTO confirmed_registry_insertions (
        ergoname_registered,
        mint_transaction_id,
        mint_box_id,
        spend_transaction_id,
        ergoname_token_id
    ) VALUES ($1, $2, $3, $4, $5) ON CONFLICT DO NOTHING;"
}

/// Inserts a mint request, leaving a known box as it is.
/// `RegistryStore::insert_mint_request` models its effect on the table.
pub fn insert_mint_request_statement() -> (r: &'static str)
    ensures
        r@ == insert_mint_request_sql(),
{
    "INSERT INTO mint_requests (
        box_id,
        transaction_id
    ) VALUES ($1, $2) ON CONFLICT DO NOTHING;"
}

/// Marks the box given as the parameter spent.
/// `RegistryStore::mark_spent` models its effect on the table.
pub fn mark_spent_statement() -> (r: &'static str)
    ensures
        r@ == mark_spent_sql(),
{
    "UPDATE mint_requests SET spent = true WHERE box_id = $1"
}

/// Lists the unspent mint requests.
/// `RegistryStore::list_pending` models its result.
pub fn list_pending_statement() -> (r: &'static str)
    ensures
        r@ == list_pending_sql(),
{
    "SELECT box_id, transaction_id FROM mint_requests WHERE spent = false"
}

/// Lists the confirmed registrations whose mint box has not been seen spent.
/// `RegistryStore::last_open_confirmed` models the choice of one of them.
pub fn open_confirmed_statement() -> (r: &'static str)
    ensures
        r@ == open_confirmed_sql(),
{
    "SELECT ergoname_registered, mint_transaction_id, mint_box_id, spend_transaction_id, ergoname_token_id FROM confirmed_registry_insertions WHERE spend_transaction_id IS NULL"
}

/// The parameters of the confirmed registration insert, in column order.
pub fn registration_parameters(reg: &RegistrationInformation) -> (r: Vec<Option<String>>)
    ensures
        r@.len() == 5,
        opt_view(r@[0]) == Some(reg.ergoname_registered@),
        opt_view(r@[1]) == Some(reg.mint_transaction_id@),
        opt_view(r@[2]) == Some(reg.mint_box_id@),
        opt_view(r@[3]) == opt_view(reg.spend_transaction_id),
        opt_view(r@[4]) == Some(reg.ergoname_token_id@),
{
    let mut v: Vec<Option<String>> = Vec::new();
    v.push(Some(reg.ergoname_registered.clone()));
    v.push(Some(reg.mint_transaction_id.clone()));
    v.push(Some(reg.mint_box_id.clone()));
    v.push(crate::types::copy_opt(&reg.spend_transaction_id));
    v.push(Some(reg.ergoname_token_id.clone()));
    v
}

/// The parameters of the mint request insert, in column order.
pub fn mint_request_parameters(req: &MintRequest) -> (r: Vec<String>)
    ensures
        r@.len() == 2,
        r@[0]@ == req.box_id@,
        r@[1]@ == req.transaction_id@,
{
    let mut v: Vec<String> = Vec::new();
    v.push(req.box_id.clone());
    v.push(req.transaction_id.clone());
    v
}

} // verus!
