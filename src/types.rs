use vstd::prelude::*;

verus! {

/// The view of an optional string: its characters, when present.
pub open spec fn opt_view(o: Option<String>) -> Option<Seq<char>> {
    match o {
        Some(s) => Some(s@),
        None => None,
    }
}

/// Copies an optional string, keeping its characters.
pub fn copy_opt(o: &Option<String>) -> (r: Option<String>)
    ensures
        opt_view(r) == opt_view(*o),
{
    match o {
        Some(s) => Some(s.clone()),
        None => None,
    }
}

/// The failures that the registration pipeline tells apart.
#[derive(Clone, Copy, Debug, PartialEq, Eq, Structural)]
pub enum ExecutorError {
    /// Transport or decoding failure on the indexer's answer.
    IndexerError,
    /// The indexer does not know the requested item.
    NotFound,
    /// A register payload is not hex, or its bytes are not UTF-8.
    DecodeError,
    /// A statement against the store failed.
    StoreError,
    /// The transaction tool ran and reported a logical failure.
    TxToolError,
    /// The transaction tool could not be launched.
    SpawnError,
}

/// A confirmed registration of a name.
#[derive(Clone, Debug)]
pub struct RegistrationInformation {
    pub ergoname_registered: String,
    pub mint_transaction_id: String,
    pub mint_box_id: String,
    pub spend_transaction_id: Option<String>,
    pub ergoname_token_id: String,
}

pub struct RegistrationView {
    pub ergoname_registered: Seq<char>,
    pub mint_transaction_id: Seq<char>,
    pub mint_box_id: Seq<char>,
    pub spend_transaction_id: Option<Seq<char>>,
    pub ergoname_token_id: Seq<char>,
}

impl View for RegistrationInformation {
    type V = RegistrationView;

    open spec fn view(&self) -> RegistrationView {
        RegistrationView {
            ergoname_registered: self.ergoname_registered@,
            mint_transaction_id: self.mint_transaction_id@,
            mint_box_id: self.mint_box_id@,
            spend_transaction_id: opt_view(self.spend_transaction_id),
            ergoname_token_id: self.ergoname_token_id@,
        }
    }
}

impl RegistrationInformation {
    /// A copy with the same view.
    pub fn copy(&self) -> (r: RegistrationInformation)
        ensures
            r@ == self@,
    {
        RegistrationInformation {
            ergoname_registered: self.ergoname_registered.clone(),
            mint_transaction_id: self.mint_transaction_id.clone(),
            mint_box_id: self.mint_box_id.clone(),
            spend_transaction_id: copy_opt(&self.spend_transaction_id),
            ergoname_token_id: self.ergoname_token_id.clone(),
        }
    }
}

/// What a transaction lookup yields to seed the walk of registrations.
#[derive(Clone, Debug)]
pub struct IniitalTransactionInformation {
    pub transaction_id: String,
    pub box_id: String,
    pub spent_transaction_id: Option<String>,
}

/// A box locked at the proxy address, waiting to be executed.
#[derive(Clone, Debug)]
pub struct MintRequest {
    pub transaction_id: String,
    pub box_id: String,
}

pub struct MintRequestView {
    pub transaction_id: Seq<char>,
    pub box_id: Seq<char>,
}

impl View for MintRequest {
    type V = MintRequestView;

    open spec fn view(&self) -> MintRequestView {
        MintRequestView { transaction_id: self.transaction_id@, box_id: self.box_id@ }
    }
}

/// Lifts a transaction lookup into a registration record whose name and
/// token are still empty; the identifiers are carried over unchanged.
pub fn convert_initial_transaction_information_to_registration_information(
    initial_transaction_information: IniitalTransactionInformation,
) -> (r: RegistrationInformation)
    ensures
        r.ergoname_registered@ == Seq::<char>::empty(),
        r.ergoname_token_id@ == Seq::<char>::empty(),
        r.mint_transaction_id@ == initial_transaction_information.transaction_id@,
        r.mint_box_id@ == initial_transaction_information.box_id@,
        opt_view(r.spend_transaction_id) == opt_view(
            initial_transaction_information.spent_transaction_id,
        ),
{
    RegistrationInformation {
        ergoname_registered: String::new(),
        mint_transaction_id: initial_transaction_information.transaction_id,
        mint_box_id: initial_transaction_information.box_id,
        spend_transaction_id: initial_transaction_information.spent_transaction_id,
        ergoname_token_id: String::new(),
    }
}

} // verus!
