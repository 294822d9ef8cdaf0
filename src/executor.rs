use vstd::prelude::*;
use crate::store::{insert_mint_request_rows, mark_spent_rows, insert_confirmed_rows, RegistryStore, MintRowView};
use crate::types::{convert_initial_transaction_information_to_registration_information, opt_view, ExecutorError, IniitalTransactionInformation, MintRequest, MintRequestView, RegistrationInformation, RegistrationView};

verus! {

/// The bytes of the word `Error`, whose presence in the transaction tool's
/// output marks a failure.
pub open spec fn error_marker() -> Seq<u8> {
    seq![0x45u8, 0x72u8, 0x72u8, 0x6fu8, 0x72u8]
}

/// Whether `pattern` occurs in `s` as a contiguous run.
pub open spec fn occurs_in(pattern: Seq<u8>, s: Seq<u8>) -> bool {
    exists|i: int| 0 <= i && i + pattern.len() <= s.len() && #[trigger] s.subrange(i, i + pattern.len()) == pattern
}

fn marker_at(out: &Vec<u8>, i: usize) -> (r: bool)
    requires
        i + 5 <= out.len(),
    ensures
        r == (out@.subrange(i as int, i + 5) == error_marker()),
{
    let r = out[i] == 0x45 && out[i + 1] == 0x72 && out[i + 2] == 0x72 && out[i + 3] == 0x6f
        && out[i + 4] == 0x72;
    proof {
        let w = out@.subrange(i as int, i + 5);
        if r {
            assert(w =~= error_marker());
        } else if w == error_marker() {
            assert(w[0] == out@[i as int] && w[1] == out@[i + 1] && w[2] == out@[i + 2]);
            assert(w[3] == out@[i + 3] && w[4] == out@[i + 4]);
        }
    }
    r
}

fn holds_error_marker(out: &Vec<u8>) -> (r: bool)
    ensures
        r == occurs_in(error_marker(), out@),
{
    let n = out.len();
    if n < 5 {
        return false;
    }
    let mut i: usize = 0;
    while i < n - 4
        invariant
            n == out@.len(),
            n >= 5,
            i <= n - 4,
            error_marker().len() == 5,
            forall|j: int|
                0 <= j < i ==> #[trigger] out@.subrange(j, j + error_marker().len()) != error_marker(),
        decreases n - i,
    {
        if marker_at(out, i) {
            assert(out@.subrange(i as int, i + error_marker().len()) == error_marker());
            return true;
        }
        i = i + 1;
    }
    false
}

/// Classifies a run of the transaction tool: it succeeded when it exited
/// successfully and its output does not hold `Error`; the output is handed
/// back on success.
pub fn classify_driver_output(exit_success: bool, stdout: Vec<u8>) -> (r: Result<
    Vec<u8>,
    ExecutorError,
>)
    ensures
        r is Ok <==> exit_success && !occurs_in(error_marker(), stdout@),
        r is Ok ==> r->Ok_0@ == stdout@,
        r is Err ==> r->Err_0 == ExecutorError::TxToolError,
{
    if exit_success && !holds_error_marker(&stdout) {
        Ok(stdout)
    } else {
        Err(ExecutorError::TxToolError)
    }
}

/// Where a mint request stands in its execution.
#[derive(Clone, Copy, Debug, PartialEq, Eq, Structural)]
pub enum MintRequestState {
    Discovered,
    Executing,
    Spent,
}

/// What happens to a mint request.
#[derive(Clone, Copy, Debug, PartialEq, Eq, Structural)]
pub enum MintRequestEvent {
    PickedUp,
    DriverSucceeded,
    DriverFailed,
}

pub open spec fn next_state_spec(s: MintRequestState, e: MintRequestEvent) -> MintRequestState {
    match (s, e) {
        (MintRequestState::Discovered, MintRequestEvent::PickedUp) => MintRequestState::Executing,
        (MintRequestState::Executing, MintRequestEvent::DriverSucceeded) => MintRequestState::Spent,
        (MintRequestState::Executing, MintRequestEvent::DriverFailed) => MintRequestState::Discovered,
        _ => s,
    }
}

/// The state a mint request moves to on an event; an event that does not
/// apply to the state leaves it unchanged, and a spent request stays spent.
pub fn next_state(s: MintRequestState, e: MintRequestEvent) -> (r: MintRequestState)
    ensures
        r == next_state_spec(s, e),
        s == MintRequestState::Spent ==> r == MintRequestState::Spent,
{
    match (s, e) {
        (MintRequestState::Discovered, MintRequestEvent::PickedUp) => MintRequestState::Executing,
        (MintRequestState::Executing, MintRequestEvent::DriverSucceeded) => MintRequestState::Spent,
        (MintRequestState::Executing, MintRequestEvent::DriverFailed) => MintRequestState::Discovered,
        _ => s,
    }
}

/// How the loop reacts to a failure.
#[derive(Clone, Copy, Debug, PartialEq, Eq, Structural)]
pub enum ErrorPolicy {
    /// Log it and go on with the next iteration.
    Continue,
    /// End the current walk normally.
    EndWalk,
    /// Skip the record and keep it for the operator.
    SkipRecord,
    /// Leave the request unspent so that the next pass retries it.
    Retry,
    /// Stop the process.
    Exit,
}

/// The reaction owed to each kind of failure.
pub fn error_policy(e: ExecutorError) -> (r: ErrorPolicy)
    ensures
        r == match e {
            ExecutorError::IndexerError | ExecutorError::StoreError => ErrorPolicy::Continue,
            ExecutorError::NotFound => ErrorPolicy::EndWalk,
            ExecutorError::DecodeError => ErrorPolicy::SkipRecord,
            ExecutorError::TxToolError => ErrorPolicy::Retry,
            ExecutorError::SpawnError => ErrorPolicy::Exit,
        },
{
    match e {
        ExecutorError::IndexerError | ExecutorError::StoreError => ErrorPolicy::Continue,
        ExecutorError::NotFound => ErrorPolicy::EndWalk,
        ExecutorError::DecodeError => ErrorPolicy::SkipRecord,
        ExecutorError::TxToolError => ErrorPolicy::Retry,
        ExecutorError::SpawnError => ErrorPolicy::Exit,
    }
}

/// Records the outcome of driving a pending request: the box is marked spent
/// on success and left pending otherwise.
pub fn record_driver_outcome(
    store: &mut RegistryStore,
    box_id: &String,
    outcome: &Result<Vec<u8>, ExecutorError>,
)
    requires
        old(store).wf(),
    ensures
        final(store).wf(),
        outcome is Ok ==> final(store).mint_rows() == mark_spent_rows(old(store).mint_rows(), box_id@),
        outcome is Err ==> final(store).mint_rows() == old(store).mint_rows(),
        final(store).confirmed_rows() == old(store).confirmed_rows(),
{
    if outcome.is_ok() {
        store.mark_spent(box_id);
    }
}

/// The mint requests inserted one after another.
pub open spec fn insert_all_rows(rows: Seq<MintRowView>, reqs: Seq<MintRequestView>) -> Seq<MintRowView>
    decreases reqs.len(),
{
    if reqs.len() == 0 {
        rows
    } else {
        insert_mint_request_rows(insert_all_rows(rows, reqs.drop_last()), reqs.last())
    }
}

/// Records every request found at the proxy address; boxes already known,
/// spent or not, are left as they are.
pub fn record_discovered(store: &mut RegistryStore, reqs: &Vec<MintRequest>)
    requires
        old(store).wf(),
    ensures
        final(store).wf(),
        final(store).mint_rows() == insert_all_rows(
            old(store).mint_rows(),
            reqs@.map_values(|m: MintRequest| m@),
        ),
        final(store).confirmed_rows() == old(store).confirmed_rows(),
{
    let ghost views = reqs@.map_values(|m: MintRequest| m@);
    let mut i: usize = 0;
    while i < reqs.len()
        invariant
            i <= reqs@.len(),
            views == reqs@.map_values(|m: MintRequest| m@),
            store.wf(),
            store.mint_rows() == insert_all_rows(old(store).mint_rows(), views.take(i as int)),
            store.confirmed_rows() == old(store).confirmed_rows(),
        decreases reqs@.len() - i,
    {
        assert(views.take(i + 1).drop_last() =~= views.take(i as int));
        store.insert_mint_request(&reqs[i]);
        i = i + 1;
    }
    assert(views.take(i as int) =~= views);
}

/// The next move of the confirmation walk from a registration.
pub enum WalkStep {
    /// Look up the transaction that spent the current mint.
    Fetch(String),
    /// The walk has reached the tip.
    Stop,
}

pub open spec fn walk_step_of(current: RegistrationView) -> Option<Seq<char>> {
    current.spend_transaction_id
}

pub open spec fn step_view(s: WalkStep) -> Option<Seq<char>> {
    match s {
        WalkStep::Fetch(id) => Some(id@),
        WalkStep::Stop => None,
    }
}

/// The walk goes on to the transaction that spent the current mint, and
/// stops when there is none.
pub fn next_walk_step(current: &RegistrationInformation) -> (r: WalkStep)
    ensures
        step_view(r) == walk_step_of(current@),
{
    match &current.spend_transaction_id {
        Some(id) => WalkStep::Fetch(id.clone()),
        None => WalkStep::Stop,
    }
}

/// Where the walk starts: an open confirmed registration when the store has
/// one, else the genesis transaction lifted to a registration.
pub fn walk_start(store: &RegistryStore, genesis: IniitalTransactionInformation) -> (r:
    RegistrationInformation)
    ensures
        (exists|i: int|
            0 <= i < store.confirmed_rows().len() && (#[trigger] store.confirmed_rows()[i]).spend_transaction_id
                is None) ==> (exists|i: int|
            0 <= i < store.confirmed_rows().len() && #[trigger] store.confirmed_rows()[i] == r@
                && r@.spend_transaction_id is None),
        (forall|i: int|
            0 <= i < store.confirmed_rows().len() ==> (#[trigger] store.confirmed_rows()[i]).spend_transaction_id
                is Some) ==> r.mint_transaction_id@ == genesis.transaction_id@ && r.mint_box_id@
            == genesis.box_id@ && r@.spend_transaction_id == opt_view(genesis.spent_transaction_id)
            && r.ergoname_registered@.len() == 0 && r.ergoname_token_id@.len() == 0,
{
    match store.last_open_confirmed() {
        Some(reg) => reg,
        None => convert_initial_transaction_information_to_registration_information(genesis),
    }
}

/// Takes in a registration that the walk fetched: it is recorded, and the
/// walk goes on from it.
pub fn ingest_confirmed(store: &mut RegistryStore, fetched: &RegistrationInformation) -> (r: WalkStep)
    requires
        old(store).wf(),
    ensures
        final(store).wf(),
        final(store).confirmed_rows() == insert_confirmed_rows(old(store).confirmed_rows(), fetched@),
        final(store).mint_rows() == old(store).mint_rows(),
        step_view(r) == walk_step_of(fetched@),
{
    store.insert_confirmed(fetched);
    next_walk_step(fetched)
}

} // verus!
