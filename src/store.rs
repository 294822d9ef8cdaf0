use vstd::prelude::*;
use crate::types::{MintRequest, MintRequestView, RegistrationInformation, RegistrationView};

verus! {

/// One row of the pending mint requests table.
#[derive(Clone, Debug)]
pub struct MintRow {
    pub box_id: String,
    pub transaction_id: String,
    pub spent: bool,
}

pub struct MintRowView {
    pub box_id: Seq<char>,
    pub transaction_id: Seq<char>,
    pub spent: bool,
}

impl View for MintRow {
    type V = MintRowView;

    open spec fn view(&self) -> MintRowView {
        MintRowView { box_id: self.box_id@, transaction_id: self.transaction_id@, spent: self.spent }
    }
}

/// Whether some row holds the box.
pub open spec fn has_box(rows: Seq<MintRowView>, box_id: Seq<char>) -> bool {
    exists|i: int| 0 <= i < rows.len() && (#[trigger] rows[i]).box_id == box_id
}

/// Inserting a mint request: a new box is appended unspent, a known box
/// leaves the table as it was.
pub open spec fn insert_mint_request_rows(rows: Seq<MintRowView>, req: MintRequestView) -> Seq<
    MintRowView,
> {
    if has_box(rows, req.box_id) {
        rows
    } else {
        rows.push(MintRowView { box_id: req.box_id, transaction_id: req.transaction_id, spent: false })
    }
}

/// Marking a box spent: its row becomes spent, every other row stays.
pub open spec fn mark_spent_rows(rows: Seq<MintRowView>, box_id: Seq<char>) -> Seq<MintRowView> {
    Seq::new(
        rows.len(),
        |i: int|
            if rows[i].box_id == box_id {
                MintRowView { box_id: rows[i].box_id, transaction_id: rows[i].transaction_id, spent: true }
            } else {
                rows[i]
            },
    )
}

pub open spec fn request_of(row: MintRowView) -> MintRequestView {
    MintRequestView { transaction_id: row.transaction_id, box_id: row.box_id }
}

/// The requests of the unspent rows, in table order.
pub open spec fn pending_of(rows: Seq<MintRowView>) -> Seq<MintRequestView>
    decreases rows.len(),
{
    if rows.len() == 0 {
        Seq::empty()
    } else if rows.last().spent {
        pending_of(rows.drop_last())
    } else {
        pending_of(rows.drop_last()).push(request_of(rows.last()))
    }
}

/// Whether some confirmed row holds the name.
pub open spec fn has_name(rows: Seq<RegistrationView>, name: Seq<char>) -> bool {
    exists|i: int| 0 <= i < rows.len() && (#[trigger] rows[i]).ergoname_registered == name
}

/// Inserting a confirmed registration: a new name is appended, a known name
/// leaves the table as it was.
pub open spec fn insert_confirmed_rows(rows: Seq<RegistrationView>, reg: RegistrationView) -> Seq<
    RegistrationView,
> {
    if has_name(rows, reg.ergoname_registered) {
        rows
    } else {
        rows.push(reg)
    }
}

/// Inserting the same mint request twice leaves the table as inserting it
/// once does.
pub proof fn lemma_insert_mint_request_idempotent(rows: Seq<MintRowView>, req: MintRequestView)
    ensures
        insert_mint_request_rows(insert_mint_request_rows(rows, req), req)
            == insert_mint_request_rows(rows, req),
{
    if !has_box(rows, req.box_id) {
        let once = insert_mint_request_rows(rows, req);
        assert(once[rows.len() as int].box_id == req.box_id);
    }
}

/// Marking a box spent twice is marking it once, and no spent row is ever
/// made unspent again.
pub proof fn lemma_mark_spent_idempotent_monotone(rows: Seq<MintRowView>, box_id: Seq<char>)
    ensures
        mark_spent_rows(mark_spent_rows(rows, box_id), box_id) == mark_spent_rows(rows, box_id),
        mark_spent_rows(rows, box_id).len() == rows.len(),
        forall|i: int|
            0 <= i < rows.len() && rows[i].spent ==> (#[trigger] mark_spent_rows(rows, box_id)[i]).spent,
{
    assert(mark_spent_rows(mark_spent_rows(rows, box_id), box_id) =~= mark_spent_rows(rows, box_id));
}

/// Inserting the same confirmed registration twice leaves the table as
/// inserting it once does.
pub proof fn lemma_insert_confirmed_idempotent(rows: Seq<RegistrationView>, reg: RegistrationView)
    ensures
        insert_confirmed_rows(insert_confirmed_rows(rows, reg), reg) == insert_confirmed_rows(rows, reg),
{
    if !has_name(rows, reg.ergoname_registered) {
        let once = insert_confirmed_rows(rows, reg);
        assert(once[rows.len() as int].ergoname_registered == reg.ergoname_registered);
    }
}

/// A walk that meets two registrations of different names, neither of them
/// recorded yet, adds exactly those two rows in the order met; walking the
/// same two again adds nothing.
pub proof fn lemma_walk_records_each_once(
    rows: Seq<RegistrationView>,
    first: RegistrationView,
    second: RegistrationView,
)
    requires
        !has_name(rows, first.ergoname_registered),
        !has_name(rows, second.ergoname_registered),
        first.ergoname_registered != second.ergoname_registered,
    ensures
        insert_confirmed_rows(insert_confirmed_rows(rows, first), second) == rows.push(first).push(
            second,
        ),
        insert_confirmed_rows(
            insert_confirmed_rows(insert_confirmed_rows(insert_confirmed_rows(rows, first), second), first),
            second,
        ) == insert_confirmed_rows(insert_confirmed_rows(rows, first), second),
{
    let one = rows.push(first);
    assert forall|i: int| 0 <= i < one.len() implies (#[trigger] one[i]).ergoname_registered
        != second.ergoname_registered by {
        if i < rows.len() {
            assert(one[i] == rows[i]);
        }
    }
    let two = one.push(second);
    assert(two[rows.len() as int] == first);
    assert(two[rows.len() + 1int] == second);
}

/// The pending list holds a request exactly when some unspent row holds it,
/// whatever sequence of writes built the table.
pub proof fn lemma_pending_exactly_unspent(rows: Seq<MintRowView>)
    ensures
        forall|v: MintRequestView|
            #[trigger] pending_of(rows).contains(v) <==> exists|i: int|
                0 <= i < rows.len() && !rows[i].spent && #[trigger] request_of(rows[i]) == v,
    decreases rows.len(),
{
    if rows.len() > 0 {
        let init = rows.drop_last();
        lemma_pending_exactly_unspent(init);
        assert forall|v: MintRequestView|
            #[trigger] pending_of(rows).contains(v) <==> exists|i: int|
                0 <= i < rows.len() && !rows[i].spent && #[trigger] request_of(rows[i]) == v by {
            let last = rows.len() - 1;
            if pending_of(rows).contains(v) {
                if pending_of(init).contains(v) {
                    let i = choose|i: int|
                        0 <= i < init.len() && !init[i].spent && #[trigger] request_of(init[i]) == v;
                    assert(rows[i] == init[i]);
                } else {
                    let k = choose|k: int| 0 <= k < pending_of(rows).len() && pending_of(rows)[k] == v;
                    assert(!rows.last().spent);
                    assert(k == pending_of(init).len());
                    assert(request_of(rows[last]) == v);
                }
            }
            if exists|i: int| 0 <= i < rows.len() && !rows[i].spent && #[trigger] request_of(rows[i]) == v {
                let i = choose|i: int|
                    0 <= i < rows.len() && !rows[i].spent && #[trigger] request_of(rows[i]) == v;
                if i < last {
                    assert(init[i] == rows[i]);
                    assert(pending_of(init).contains(v));
                    let k = choose|k: int| 0 <= k < pending_of(init).len() && pending_of(init)[k] == v;
                    assert(pending_of(rows)[k] == v);
                } else {
                    assert(pending_of(rows)[pending_of(init).len() as int] == v);
                }
            }
        }
    }
}

/// The registry: pending mint requests keyed by box id and confirmed
/// registrations keyed by name. It is the model of the two tables that the
/// statements of `crate::database` create, fill and read; each method states
/// what the matching statement does to its table.
pub struct RegistryStore {
    mint_requests: Vec<MintRow>,
    confirmed: Vec<RegistrationInformation>,
}

impl RegistryStore {
    pub closed spec fn mint_rows(&self) -> Seq<MintRowView> {
        self.mint_requests@.map_values(|r: MintRow| r@)
    }

    pub closed spec fn confirmed_rows(&self) -> Seq<RegistrationView> {
        self.confirmed@.map_values(|r: RegistrationInformation| r@)
    }

    /// Box ids and names are each held by at most one row.
    pub open spec fn wf(&self) -> bool {
        &&& forall|i: int, j: int|
            0 <= i < j < self.mint_rows().len() ==> (#[trigger] self.mint_rows()[i]).box_id
                != (#[trigger] self.mint_rows()[j]).box_id
        &&& forall|i: int, j: int|
            0 <= i < j < self.confirmed_rows().len()
                ==> (#[trigger] self.confirmed_rows()[i]).ergoname_registered
                != (#[trigger] self.confirmed_rows()[j]).ergoname_registered
    }

    pub fn new() -> (r: RegistryStore)
        ensures
            r.wf(),
            r.mint_rows() == Seq::<MintRowView>::empty(),
            r.confirmed_rows() == Seq::<RegistrationView>::empty(),
    {
        let r = RegistryStore { mint_requests: Vec::new(), confirmed: Vec::new() };
        assert(r.mint_rows() =~= Seq::<MintRowView>::empty());
        assert(r.confirmed_rows() =~= Seq::<RegistrationView>::empty());
        r
    }

    fn find_box(&self, box_id: &String) -> (r: Option<usize>)
        ensures
            match r {
                Some(i) => i < self.mint_rows().len() && self.mint_rows()[i as int].box_id == box_id@,
                None => !has_box(self.mint_rows(), box_id@),
            },
    {
        let mut i: usize = 0;
        while i < self.mint_requests.len()
            invariant
                i <= self.mint_requests@.len(),
                forall|j: int| 0 <= j < i ==> (#[trigger] self.mint_rows()[j]).box_id != box_id@,
            decreases self.mint_requests@.len() - i,
        {
            if self.mint_requests[i].box_id == *box_id {
                return Some(i);
            }
            i = i + 1;
        }
        None
    }

    /// Records a mint request as unspent; a box that is already known is
    /// left as it is.
    pub fn insert_mint_request(&mut self, req: &MintRequest)
        requires
            old(self).wf(),
        ensures
            final(self).wf(),
            final(self).mint_rows() == insert_mint_request_rows(old(self).mint_rows(), req@),
            final(self).confirmed_rows() == old(self).confirmed_rows(),
    {
        match self.find_box(&req.box_id) {
            Some(_) => {},
            None => {
                let row = MintRow {
                    box_id: req.box_id.clone(),
                    transaction_id: req.transaction_id.clone(),
                    spent: false,
                };
                self.mint_requests.push(row);
                assert(self.mint_rows() =~= insert_mint_request_rows(old(self).mint_rows(), req@));
            },
        }
    }

    /// Marks the box spent; a box that is not known is no error.
    pub fn mark_spent(&mut self, box_id: &String)
        requires
            old(self).wf(),
        ensures
            final(self).wf(),
            final(self).mint_rows() == mark_spent_rows(old(self).mint_rows(), box_id@),
            final(self).confirmed_rows() == old(self).confirmed_rows(),
    {
        match self.find_box(box_id) {
            None => {
                assert(self.mint_rows() =~= mark_spent_rows(old(self).mint_rows(), box_id@));
            },
            Some(i) => {
                let row = MintRow {
                    box_id: self.mint_requests[i].box_id.clone(),
                    transaction_id: self.mint_requests[i].transaction_id.clone(),
                    spent: true,
                };
                self.mint_requests.set(i, row);
                assert(self.mint_rows() =~= mark_spent_rows(old(self).mint_rows(), box_id@));
            },
        }
    }

    fn find_name(&self, name: &String) -> (r: bool)
        ensures
            r == has_name(self.confirmed_rows(), name@),
    {
        let mut i: usize = 0;
        while i < self.confirmed.len()
            invariant
                i <= self.confirmed@.len(),
                forall|j: int|
                    0 <= j < i ==> (#[trigger] self.confirmed_rows()[j]).ergoname_registered
                        != name@,
            decreases self.confirmed@.len() - i,
        {
            if self.confirmed[i].ergoname_registered == *name {
                assert(self.confirmed_rows()[i as int].ergoname_registered == name@);
                return true;
            }
            i = i + 1;
        }
        false
    }

    /// Records a confirmed registration; a name that is already known is
    /// left as it is.
    pub fn insert_confirmed(&mut self, reg: &RegistrationInformation)
        requires
            old(self).wf(),
        ensures
            final(self).wf(),
            final(self).confirmed_rows() == insert_confirmed_rows(old(self).confirmed_rows(), reg@),
            final(self).mint_rows() == old(self).mint_rows(),
    {
        if !self.find_name(&reg.ergoname_registered) {
            self.confirmed.push(reg.copy());
            assert(self.confirmed_rows() =~= insert_confirmed_rows(old(self).confirmed_rows(), reg@));
            assert(self.mint_rows() == old(self).mint_rows());
            assert forall|i: int, j: int|
                0 <= i < j < self.confirmed_rows().len() implies (
                #[trigger] self.confirmed_rows()[i]).ergoname_registered != (
                #[trigger] self.confirmed_rows()[j]).ergoname_registered by {
                if j == old(self).confirmed_rows().len() {
                    assert(old(self).confirmed_rows()[i] == self.confirmed_rows()[i]);
                }
            }
        }
    }

    /// The requests whose box is not spent.
    pub fn list_pending(&self) -> (r: Vec<MintRequest>)
        ensures
            r@.map_values(|m: MintRequest| m@) == pending_of(self.mint_rows()),
    {
        let mut out: Vec<MintRequest> = Vec::new();
        let mut i: usize = 0;
        while i < self.mint_requests.len()
            invariant
                i <= self.mint_requests@.len(),
                out@.map_values(|m: MintRequest| m@) == pending_of(self.mint_rows().take(i as int)),
            decreases self.mint_requests@.len() - i,
        {
            assert(self.mint_rows().take(i + 1).drop_last() =~= self.mint_rows().take(i as int));
            if !self.mint_requests[i].spent {
                out.push(
                    MintRequest {
                        transaction_id: self.mint_requests[i].transaction_id.clone(),
                        box_id: self.mint_requests[i].box_id.clone(),
                    },
                );
            }
            assert(out@.map_values(|m: MintRequest| m@) =~= pending_of(self.mint_rows().take(i + 1)));
            i = i + 1;
        }
        assert(self.mint_rows().take(i as int) =~= self.mint_rows());
        out
    }

    /// Some confirmed registration whose mint box has not been seen spent,
    /// or `None` when every one has.
    pub fn last_open_confirmed(&self) -> (r: Option<RegistrationInformation>)
        ensures
            match r {
                Some(reg) => exists|i: int|
                    0 <= i < self.confirmed_rows().len() && #[trigger] self.confirmed_rows()[i]
                        == reg@ && reg@.spend_transaction_id is None,
                None => forall|i: int|
                    0 <= i < self.confirmed_rows().len()
                        ==> (#[trigger] self.confirmed_rows()[i]).spend_transaction_id is Some,
            },
    {
        let mut i: usize = 0;
        while i < self.confirmed.len()
            invariant
                i <= self.confirmed@.len(),
                forall|j: int|
                    0 <= j < i ==> (#[trigger] self.confirmed_rows()[j]).spend_transaction_id is Some,
            decreases self.confirmed@.len() - i,
        {
            if self.confirmed[i].spend_transaction_id.is_none() {
                let reg = self.confirmed[i].copy();
                assert(self.confirmed_rows()[i as int] == reg@);
                return Some(reg);
            }
            i = i + 1;
        }
        None
    }

    /// Whether the box is spent, or `None` when it is not known.
    pub fn is_spent(&self, box_id: &String) -> (r: Option<bool>)
        ensures
            match r {
                Some(b) => exists|i: int|
                    0 <= i < self.mint_rows().len() && (#[trigger] self.mint_rows()[i]).box_id == box_id@
                        && self.mint_rows()[i].spent == b,
                None => !has_box(self.mint_rows(), box_id@),
            },
    {
        match self.find_box(box_id) {
            Some(i) => Some(self.mint_requests[i].spent),
            None => None,
        }
    }

    /// The number of mint request rows.
    pub fn mint_request_count(&self) -> (r: usize)
        ensures
            r == self.mint_rows().len(),
    {
        self.mint_requests.len()
    }

    /// The number of confirmed registrations.
    pub fn confirmed_count(&self) -> (r: usize)
        ensures
            r == self.confirmed_rows().len(),
    {
        self.confirmed.len()
    }

    /// The confirmed registrations, in the order they were recorded.
    pub fn confirmed_registrations(&self) -> (r: Vec<RegistrationInformation>)
        ensures
            r@.len() == self.confirmed_rows().len(),
            forall|j: int| 0 <= j < r@.len() ==> (#[trigger] r@[j])@ == self.confirmed_rows()[j],
    {
        let mut out: Vec<RegistrationInformation> = Vec::new();
        let mut i: usize = 0;
        while i < self.confirmed.len()
            invariant
                i <= self.confirmed@.len(),
                out@.len() == i,
                forall|j: int| 0 <= j < i ==> (#[trigger] out@[j])@ == self.confirmed_rows()[j],
            decreases self.confirmed@.len() - i,
        {
            let reg = self.confirmed[i].copy();
            assert(self.confirmed_rows()[i as int] == reg@);
            out.push(reg);
            i = i + 1;
        }
        out
    }
}

} // verus!
