use vstd::prelude::*;
use serde_json::Value;
use crate::codec::{decode_r4_name, r4_name};
use crate::types::{opt_view, ExecutorError, IniitalTransactionInformation, MintRequest, MintRequestView, RegistrationInformation, RegistrationView};

verus! {

/// The string at a JSON pointer of a document, as serde_json reads the text.
pub uninterp spec fn json_text_at(body: Seq<char>, pointer: Seq<char>) -> Option<Seq<char>>;

/// The length of the array at a JSON pointer of a document.
pub uninterp spec fn json_array_len_at(body: Seq<char>, pointer: Seq<char>) -> Option<int>;

/// The string at pointer `field` inside element `index` of the array at
/// pointer `array` of a document.
pub uninterp spec fn json_element_text_at(
    body: Seq<char>,
    array: Seq<char>,
    index: int,
    field: Seq<char>,
) -> Option<Seq<char>>;

/// Relies on serde_json::from_str, Value::pointer and Value::as_str: the text
/// is read as a JSON document, the pointer followed, and a string value taken.
#[verifier::external_body]
fn json_text(body: &str, pointer: &str) -> (r: Option<String>)
    ensures
        opt_view(r) == json_text_at(body@, pointer@),
{
    let doc: Value = serde_json::from_str(body).ok()?;
    doc.pointer(pointer)?.as_str().map(|s| s.to_string())
}

/// Relies on serde_json::from_str, Value::pointer and Value::as_array: the
/// length of the array found at the pointer.
#[verifier::external_body]
fn json_array_len(body: &str, pointer: &str) -> (r: Option<usize>)
    ensures
        match r {
            Some(n) => json_array_len_at(body@, pointer@) == Some(n as int),
            None => json_array_len_at(body@, pointer@) is None,
        },
{
    let doc: Value = serde_json::from_str(body).ok()?;
    doc.pointer(pointer)?.as_array().map(|items| items.len())
}

/// Relies on serde_json::from_str, Value::pointer, Value::as_array and
/// Value::as_str: a string field of one element of an array.
#[verifier::external_body]
fn json_element_text(body: &str, array: &str, index: usize, field: &str) -> (r: Option<String>)
    ensures
        opt_view(r) == json_element_text_at(body@, array@, index as int, field@),
{
    let doc: Value = serde_json::from_str(body).ok()?;
    doc.pointer(array)?.as_array()?.get(index)?.pointer(field)?.as_str().map(|s| s.to_string())
}

/// The indexer's answer to a transaction lookup, by its HTTP status: success,
/// an unknown transaction, or a failure of the indexer.
pub fn classify_indexer_status(status: u16) -> (r: Result<(), ExecutorError>)
    ensures
        200 <= status < 300 ==> r is Ok,
        status == 404 ==> r == Err::<(), ExecutorError>(ExecutorError::NotFound),
        !(200 <= status < 300) && status != 404 ==> r == Err::<(), ExecutorError>(
            ExecutorError::IndexerError,
        ),
{
    if 200 <= status && status < 300 {
        Ok(())
    } else if status == 404 {
        Err(ExecutorError::NotFound)
    } else {
        Err(ExecutorError::IndexerError)
    }
}

/// Builds the seed of the walk out of the fields read from a transaction:
/// its id, the box id of output 0 and what spent that box.
pub fn initial_transaction_information_from_fields(
    transaction_id: Option<String>,
    box_id: Option<String>,
    spent_transaction_id: Option<String>,
) -> (r: Result<IniitalTransactionInformation, ExecutorError>)
    ensures
        match r {
            Ok(info) => transaction_id is Some && box_id is Some
                && info.transaction_id@ == transaction_id->0@ && info.box_id@ == box_id->0@
                && opt_view(info.spent_transaction_id) == opt_view(spent_transaction_id),
            Err(e) => (transaction_id is None || box_id is None) && e == ExecutorError::IndexerError,
        },
{
    match (transaction_id, box_id) {
        (Some(transaction_id), Some(box_id)) => Ok(
            IniitalTransactionInformation { transaction_id, box_id, spent_transaction_id },
        ),
        _ => Err(ExecutorError::IndexerError),
    }
}

/// What the fields of a mint transaction make: the name decoded from the R4
/// register of output 0, the transaction id, the box id and first token of
/// output 0, and what spent output 1.
pub open spec fn registration_from_fields(
    r4: Option<Seq<char>>,
    transaction_id: Option<Seq<char>>,
    box_id: Option<Seq<char>>,
    next_spend: Option<Seq<char>>,
    token_id: Option<Seq<char>>,
) -> Result<RegistrationView, ExecutorError> {
    if r4 is None || transaction_id is None || box_id is None || token_id is None {
        Err(ExecutorError::IndexerError)
    } else {
        match r4_name(r4->0) {
            None => Err(ExecutorError::DecodeError),
            Some(name) => Ok(
                RegistrationView {
                    ergoname_registered: name,
                    mint_transaction_id: transaction_id->0,
                    mint_box_id: box_id->0,
                    spend_transaction_id: next_spend,
                    ergoname_token_id: token_id->0,
                },
            ),
        }
    }
}

/// Builds a confirmed registration out of the fields read from a mint
/// transaction.
pub fn registration_information_from_fields(
    r4: Option<String>,
    transaction_id: Option<String>,
    box_id: Option<String>,
    next_spend: Option<String>,
    token_id: Option<String>,
) -> (r: Result<RegistrationInformation, ExecutorError>)
    ensures
        match (r, registration_from_fields(opt_view(r4), opt_view(transaction_id), opt_view(box_id), opt_view(next_spend), opt_view(token_id))) {
            (Ok(reg), Ok(v)) => reg@ == v,
            (Err(e), Err(f)) => e == f,
            _ => false,
        },
{
    match (r4, transaction_id, box_id, token_id) {
        (Some(r4), Some(mint_transaction_id), Some(mint_box_id), Some(ergoname_token_id)) => {
            match decode_r4_name(r4.as_str()) {
                Ok(ergoname_registered) => Ok(
                    RegistrationInformation {
                        ergoname_registered,
                        mint_transaction_id,
                        mint_box_id,
                        spend_transaction_id: next_spend,
                        ergoname_token_id,
                    },
                ),
                Err(e) => Err(e),
            }
        },
        _ => Err(ExecutorError::IndexerError),
    }
}

/// One entry of the unspent boxes at a script, as the indexer lists it.
pub struct UnspentEntry {
    pub box_id: Option<String>,
    pub transaction_id: Option<String>,
}

/// The two fields of an entry, as far as present.
pub open spec fn entry_view(e: UnspentEntry) -> (Option<Seq<char>>, Option<Seq<char>>) {
    (opt_view(e.box_id), opt_view(e.transaction_id))
}

pub open spec fn entry_complete(e: (Option<Seq<char>>, Option<Seq<char>>)) -> bool {
    e.0 is Some && e.1 is Some
}

/// The mint requests that listed entries (box id, transaction id) make: an
/// indexer error when an entry lacks a field, `None` for an empty list.
pub open spec fn requests_from_entries(es: Seq<(Option<Seq<char>>, Option<Seq<char>>)>) -> Result<
    Option<Seq<MintRequestView>>,
    ExecutorError,
> {
    if exists|i: int| 0 <= i < es.len() && !entry_complete(#[trigger] es[i]) {
        Err(ExecutorError::IndexerError)
    } else if es.len() == 0 {
        Ok(None)
    } else {
        Ok(Some(Seq::new(es.len(), |i: int| MintRequestView { transaction_id: es[i].1->0, box_id: es[i].0->0 })))
    }
}

pub open spec fn requests_view(r: Result<Option<Vec<MintRequest>>, ExecutorError>) -> Result<
    Option<Seq<MintRequestView>>,
    ExecutorError,
> {
    match r {
        Ok(Some(v)) => Ok(Some(v@.map_values(|m: MintRequest| m@))),
        Ok(None) => Ok(None),
        Err(e) => Err(e),
    }
}

/// Turns the listed unspent boxes into mint requests.
pub fn mint_requests_from_entries(entries: Vec<UnspentEntry>) -> (r: Result<
    Option<Vec<MintRequest>>,
    ExecutorError,
>)
    ensures
        requests_view(r) == requests_from_entries(entries@.map_values(|e: UnspentEntry| entry_view(e))),
{
    let n = entries.len();
    let ghost ev = entries@.map_values(|e: UnspentEntry| entry_view(e));
    let mut reqs: Vec<MintRequest> = Vec::new();
    let mut rest = entries;
    let mut i: usize = 0;
    while i < n
        invariant
            n == ev.len(),
            ev == entries@.map_values(|e: UnspentEntry| entry_view(e)),
            i <= n,
            rest@.len() == n - i,
            forall|j: int| 0 <= j < rest@.len() ==> #[trigger] entry_view(rest@[j]) == ev[i + j],
            reqs@.len() == i,
            forall|j: int|
                0 <= j < i ==> (#[trigger] reqs@[j])@ == (MintRequestView {
                    transaction_id: ev[j].1->0,
                    box_id: ev[j].0->0,
                }) && entry_complete(ev[j]),
        decreases n - i,
    {
        assert(entry_view(rest@[0]) == ev[i as int]);
        let ghost old_rest = rest@;
        let entry = rest.remove(0);
        assert forall|j: int| 0 <= j < rest@.len() implies #[trigger] entry_view(rest@[j]) == ev[i + 1 + j] by {
            assert(rest@[j] == old_rest[j + 1]);
        }
        match (entry.box_id, entry.transaction_id) {
            (Some(box_id), Some(transaction_id)) => {
                reqs.push(MintRequest { transaction_id, box_id });
            },
            _ => {
                assert(!entry_complete(ev[i as int]));
                return Err(ExecutorError::IndexerError);
            },
        }
        i = i + 1;
    }
    assert forall|j: int| 0 <= j < ev.len() implies entry_complete(#[trigger] ev[j]) by {
        assert(0 <= j < i);
        let x = reqs@[j];
        assert(x@ == (MintRequestView { transaction_id: ev[j].1->0, box_id: ev[j].0->0 }) && entry_complete(ev[j]));
    }
    if n == 0 {
        Ok(None)
    } else {
        assert(reqs@.map_values(|m: MintRequest| m@) =~= Seq::new(
            ev.len(),
            |i: int| MintRequestView { transaction_id: ev[i].1->0, box_id: ev[i].0->0 },
        ));
        Ok(Some(reqs))
    }
}

/// The seed of the walk that a transaction document gives: its id, and the
/// box id of output 0 with what spent it.
pub open spec fn initial_from_body(body: Seq<char>) -> Option<(Seq<char>, Seq<char>, Option<Seq<char>>)> {
    match (json_text_at(body, "/id"@), json_text_at(body, "/outputs/0/boxId"@)) {
        (Some(id), Some(box_id)) => Some((id, box_id, json_text_at(body, "/outputs/0/spentTransactionId"@))),
        _ => None,
    }
}

/// Reads the seed of the walk out of a transaction document.
pub fn parse_initial_transaction_information(body: &str) -> (r: Result<
    IniitalTransactionInformation,
    ExecutorError,
>)
    ensures
        match r {
            Ok(info) => initial_from_body(body@) == Some(
                (info.transaction_id@, info.box_id@, opt_view(info.spent_transaction_id)),
            ),
            Err(e) => initial_from_body(body@) is None && e == ExecutorError::IndexerError,
        },
{
    let transaction_id = json_text(body, "/id");
    let box_id = json_text(body, "/outputs/0/boxId");
    let spent = json_text(body, "/outputs/0/spentTransactionId");
    initial_transaction_information_from_fields(transaction_id, box_id, spent)
}

/// The registration that the document of a mint transaction gives: the
/// name in R4 of output 0, the transaction id, the box id and first token
/// of output 0, and what spent output 1.
pub open spec fn registration_from_body(body: Seq<char>) -> Result<RegistrationView, ExecutorError> {
    registration_from_fields(
        json_text_at(body, "/outputs/0/additionalRegisters/R4"@),
        json_text_at(body, "/id"@),
        json_text_at(body, "/outputs/0/boxId"@),
        json_text_at(body, "/outputs/1/spentTransactionId"@),
        json_text_at(body, "/outputs/0/assets/0/tokenId"@),
    )
}

/// Reads a confirmed registration out of the document of the transaction
/// that spent the previous mint.
pub fn parse_mint_information(body: &str) -> (r: Result<RegistrationInformation, ExecutorError>)
    ensures
        match (r, registration_from_body(body@)) {
            (Ok(reg), Ok(v)) => reg@ == v,
            (Err(e), Err(f)) => e == f,
            _ => false,
        },
{
    let r4 = json_text(body, "/outputs/0/additionalRegisters/R4");
    let transaction_id = json_text(body, "/id");
    let box_id = json_text(body, "/outputs/0/boxId");
    let next_spend = json_text(body, "/outputs/1/spentTransactionId");
    let token_id = json_text(body, "/outputs/0/assets/0/tokenId");
    registration_information_from_fields(r4, transaction_id, box_id, next_spend, token_id)
}

/// What spent output 1 of a mint transaction document: where the walk goes
/// on, also when the record itself cannot be decoded.
pub fn parse_next_spend(body: &str) -> (r: Option<String>)
    ensures
        opt_view(r) == json_text_at(body@, "/outputs/1/spentTransactionId"@),
{
    json_text(body, "/outputs/1/spentTransactionId")
}

/// The entry at a position of the top-level array of unspent boxes.
pub open spec fn unspent_entry_at(body: Seq<char>, i: int) -> (Option<Seq<char>>, Option<Seq<char>>) {
    (json_element_text_at(body, ""@, i, "/boxId"@), json_element_text_at(body, ""@, i, "/transactionId"@))
}

/// The mint requests that the indexer's list of unspent boxes gives.
pub open spec fn requests_from_body(body: Seq<char>) -> Result<Option<Seq<MintRequestView>>, ExecutorError> {
    match json_array_len_at(body, ""@) {
        None => Err(ExecutorError::IndexerError),
        Some(n) => requests_from_entries(Seq::new(n as nat, |i: int| unspent_entry_at(body, i))),
    }
}

/// Reads the unspent boxes at the proxy script out of the indexer's answer.
pub fn parse_mint_requests_at_proxy_address(body: &str) -> (r: Result<
    Option<Vec<MintRequest>>,
    ExecutorError,
>)
    ensures
        requests_view(r) == requests_from_body(body@),
{
    let n = match json_array_len(body, "") {
        Some(n) => n,
        None => return Err(ExecutorError::IndexerError),
    };
    let ghost target = Seq::new(n as nat, |i: int| unspent_entry_at(body@, i));
    let mut entries: Vec<UnspentEntry> = Vec::new();
    let mut i: usize = 0;
    while i < n
        invariant
            i <= n,
            entries@.len() == i,
            target == Seq::new(n as nat, |i: int| unspent_entry_at(body@, i)),
            forall|j: int| 0 <= j < i ==> #[trigger] entry_view(entries@[j]) == target[j],
        decreases n - i,
    {
        let box_id = json_element_text(body, "", i, "/boxId");
        let transaction_id = json_element_text(body, "", i, "/transactionId");
        entries.push(UnspentEntry { box_id, transaction_id });
        i = i + 1;
    }
    assert(entries@.map_values(|e: UnspentEntry| entry_view(e)) =~= target);
    mint_requests_from_entries(entries)
}

} // verus!
