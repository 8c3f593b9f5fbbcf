//! Matching replies to the requests that are waiting for them.
//!
//! A request waits under its message type: at most one request of a type
//! waits at any time, and a second one of the same type takes the place of
//! the first. Each waiting request has a ticket, which names the single-use
//! slot through which its caller is answered. A ticket leaves the table
//! exactly once: when its reply arrives, when its caller gives up waiting,
//! or when the connection goes down.

use crate::text::same_text;
use vstd::prelude::*;

verus! {

/// The mathematical content of a [`PendingRequest`].
pub struct PendingView {
    pub message_type: Seq<char>,
    pub ticket: u64,
}

/// A request that waits for its reply.
#[derive(Clone, Debug, PartialEq, Eq)]
pub struct PendingRequest {
    pub message_type: String,
    pub ticket: u64,
}

impl View for PendingRequest {
    type V = PendingView;

    open spec fn view(&self) -> PendingView {
        PendingView { message_type: self.message_type@, ticket: self.ticket }
    }
}

/// The mathematical content of a [`ResponseCorrelator`]: the waiting
/// requests, oldest first, and how many tickets were handed out so far.
#[verifier::ext_equal]
pub struct Table {
    pub pending: Seq<PendingView>,
    pub issued: nat,
}

impl Table {
    /// The table in which nothing waits and from which no ticket was taken.
    pub open spec fn empty() -> Table {
        Table { pending: Seq::empty(), issued: 0 }
    }

    /// No two waiting requests share a type, and tickets rise with the order
    /// of registration and lie below the count of tickets handed out.
    pub open spec fn well_formed(self) -> bool {
        &&& forall|i: int, j: int|
            0 <= i < j < self.pending.len() ==> self.pending[i].message_type
                != self.pending[j].message_type
        &&& forall|i: int, j: int|
            0 <= i < j < self.pending.len() ==> self.pending[i].ticket < self.pending[j].ticket
        &&& forall|i: int| 0 <= i < self.pending.len() ==> self.pending[i].ticket < self.issued
    }

    /// Whether a request of type `message_type` waits.
    pub open spec fn waits_for(self, message_type: Seq<char>) -> bool {
        exists|i: int|
            0 <= i < self.pending.len() && (#[trigger] self.pending[i]).message_type
                == message_type
    }

    /// Where the request of type `message_type` waits, if one does.
    pub open spec fn index_of_type(self, message_type: Seq<char>) -> int {
        choose|i: int|
            0 <= i < self.pending.len() && (#[trigger] self.pending[i]).message_type
                == message_type
    }

    /// Whether the request with `ticket` waits.
    pub open spec fn holds_ticket(self, ticket: u64) -> bool {
        exists|i: int| 0 <= i < self.pending.len() && (#[trigger] self.pending[i]).ticket == ticket
    }

    /// Where the request with `ticket` waits, if it does.
    pub open spec fn index_of_ticket(self, ticket: u64) -> int {
        choose|i: int| 0 <= i < self.pending.len() && (#[trigger] self.pending[i]).ticket == ticket
    }

    /// The ticket of the request of type `message_type`, if one waits.
    pub open spec fn ticket_for(self, message_type: Seq<char>) -> Option<u64> {
        if self.waits_for(message_type) {
            Some(self.pending[self.index_of_type(message_type)].ticket)
        } else {
            None
        }
    }

    /// The table without the request of type `message_type`.
    pub open spec fn without_type(self, message_type: Seq<char>) -> Table {
        if self.waits_for(message_type) {
            Table { pending: self.pending.remove(self.index_of_type(message_type)), ..self }
        } else {
            self
        }
    }

    /// The table without the request with `ticket`.
    pub open spec fn without_ticket(self, ticket: u64) -> Table {
        if self.holds_ticket(ticket) {
            Table { pending: self.pending.remove(self.index_of_ticket(ticket)), ..self }
        } else {
            self
        }
    }

    /// The table after a request of type `message_type` was registered: it
    /// waits under the next ticket, in place of any other of its type.
    pub open spec fn register(self, message_type: Seq<char>) -> Table {
        Table {
            pending: self.without_type(message_type).pending.push(
                PendingView { message_type, ticket: self.issued as u64 },
            ),
            issued: self.issued + 1,
        }
    }

    /// The table after the connection went down: nothing waits.
    pub open spec fn drain(self) -> Table {
        Table { pending: Seq::empty(), ..self }
    }

    /// The tickets of the waiting requests, oldest first.
    pub open spec fn tickets(self) -> Seq<u64> {
        self.pending.map_values(|p: PendingView| p.ticket)
    }
}

/// In a well-formed table the request of a type waits at one place only.
pub proof fn lemma_index_of_type(table: Table, message_type: Seq<char>, i: int)
    requires
        table.well_formed(),
        0 <= i < table.pending.len(),
        table.pending[i].message_type == message_type,
    ensures
        table.waits_for(message_type),
        table.index_of_type(message_type) == i,
{
    let j = table.index_of_type(message_type);
    if j < i {
        assert(table.pending[j].message_type != table.pending[i].message_type);
    } else if i < j {
        assert(table.pending[i].message_type != table.pending[j].message_type);
    }
}

/// In a well-formed table the request with a ticket waits at one place only.
pub proof fn lemma_index_of_ticket(table: Table, ticket: u64, i: int)
    requires
        table.well_formed(),
        0 <= i < table.pending.len(),
        table.pending[i].ticket == ticket,
    ensures
        table.holds_ticket(ticket),
        table.index_of_ticket(ticket) == i,
{
    let j = table.index_of_ticket(ticket);
    if j < i {
        assert(table.pending[j].ticket < table.pending[i].ticket);
    } else if i < j {
        assert(table.pending[i].ticket < table.pending[j].ticket);
    }
}

/// Taking one request out of a well-formed table leaves it well formed.
pub proof fn lemma_remove_well_formed(table: Table, i: int)
    requires
        table.well_formed(),
        0 <= i < table.pending.len(),
    ensures
        (Table { pending: table.pending.remove(i), ..table }).well_formed(),
{
    let rest = table.pending.remove(i);
    assert forall|a: int, b: int| 0 <= a < b < rest.len() implies rest[a].message_type
        != rest[b].message_type && rest[a].ticket < rest[b].ticket by {
        let a0 = if a < i {
            a
        } else {
            a + 1
        };
        let b0 = if b < i {
            b
        } else {
            b + 1
        };
        assert(rest[a] == table.pending[a0]);
        assert(rest[b] == table.pending[b0]);
    }
    assert forall|a: int| 0 <= a < rest.len() implies rest[a].ticket < table.issued by {
        let a0 = if a < i {
            a
        } else {
            a + 1
        };
        assert(rest[a] == table.pending[a0]);
    }
}

/// Registering, resolving and expiring keep a table well formed, and after
/// a request was answered or given up it waits no longer.
pub proof fn lemma_operations_well_formed(table: Table, message_type: Seq<char>, ticket: u64)
    requires
        table.well_formed(),
        table.issued < u64::MAX,
    ensures
        table.without_type(message_type).well_formed(),
        !table.without_type(message_type).waits_for(message_type),
        table.without_ticket(ticket).well_formed(),
        !table.without_ticket(ticket).holds_ticket(ticket),
        table.register(message_type).well_formed(),
        table.register(message_type).ticket_for(message_type) == Some(table.issued as u64),
        table.drain().well_formed(),
{
    let by_type = table.without_type(message_type);
    if table.waits_for(message_type) {
        let i = table.index_of_type(message_type);
        lemma_remove_well_formed(table, i);
        assert forall|a: int| 0 <= a < by_type.pending.len() implies (#[trigger] by_type.pending[a]).message_type
            != message_type by {
            let a0 = if a < i {
                a
            } else {
                a + 1
            };
            assert(by_type.pending[a] == table.pending[a0]);
        }
    }
    let by_ticket = table.without_ticket(ticket);
    if table.holds_ticket(ticket) {
        let i = table.index_of_ticket(ticket);
        lemma_remove_well_formed(table, i);
        assert forall|a: int| 0 <= a < by_ticket.pending.len() implies (#[trigger] by_ticket.pending[a]).ticket
            != ticket by {
            let a0 = if a < i {
                a
            } else {
                a + 1
            };
            assert(by_ticket.pending[a] == table.pending[a0]);
        }
    }
    let after = table.register(message_type);
    let last = after.pending.len() - 1;
    assert(after.pending[last].message_type == message_type);
    assert forall|a: int| 0 <= a < last implies after.pending[a] == by_type.pending[a] by {}
    assert(after.well_formed());
    lemma_index_of_type(after, message_type, last);
}

/// A request that is registered while none of its type waits, and that is
/// then given up, leaves the waiting requests as they were before it: the
/// table holds as many entries as before, and the same ones.
pub proof fn lemma_timeout_restores(table: Table, message_type: Seq<char>)
    requires
        table.well_formed(),
        table.issued < u64::MAX,
        !table.waits_for(message_type),
    ensures
        table.register(message_type).holds_ticket(table.issued as u64),
        table.register(message_type).without_ticket(table.issued as u64).pending == table.pending,
        table.register(message_type).without_ticket(table.issued as u64).pending.len()
            == table.pending.len(),
{
    let after = table.register(message_type);
    let last = after.pending.len() - 1;
    lemma_operations_well_formed(table, message_type, 0);
    assert(after.pending[last].ticket == table.issued as u64);
    lemma_index_of_ticket(after, table.issued as u64, last);
    assert(after.pending.remove(last) =~= table.pending);
}

/// When the connection goes down, every waiting request is handed back:
/// each ticket that waits is among the drained ones, and none waits after.
pub proof fn lemma_drain_reaches_all(table: Table, ticket: u64)
    requires
        table.holds_ticket(ticket),
    ensures
        table.tickets().contains(ticket),
        table.tickets().len() == table.pending.len(),
        !table.drain().holds_ticket(ticket),
{
    let i = table.index_of_ticket(ticket);
    assert(table.tickets()[i] == ticket);
}

/// The table of waiting requests.
#[derive(Debug)]
pub struct ResponseCorrelator {
    pending: Vec<PendingRequest>,
    issued: u64,
}

impl View for ResponseCorrelator {
    type V = Table;

    closed spec fn view(&self) -> Table {
        Table {
            pending: self.pending@.map_values(|p: PendingRequest| p@),
            issued: self.issued as nat,
        }
    }
}

impl ResponseCorrelator {
    #[verifier::type_invariant]
    spec fn sound(self) -> bool {
        self@.well_formed()
    }

    /// A table in which nothing waits.
    pub fn new() -> (r: ResponseCorrelator)
        ensures
            r@ == Table::empty(),
    {
        let r = ResponseCorrelator { pending: Vec::new(), issued: 0 };
        assert(r@.pending =~= Seq::<PendingView>::empty());
        r
    }

    /// How many requests wait.
    pub fn len(&self) -> (r: usize)
        ensures
            r == self@.pending.len(),
            self@.well_formed(),
    {
        proof {
            use_type_invariant(self);
        }
        self.pending.len()
    }

    /// Whether tickets are left to hand out.
    pub fn has_tickets(&self) -> (r: bool)
        ensures
            r == (self@.issued < u64::MAX),
            self@.well_formed(),
    {
        proof {
            use_type_invariant(self);
        }
        self.issued < u64::MAX
    }

    fn position_of_type(&self, message_type: &str) -> (r: Option<usize>)
        ensures
            match r {
                Some(i) => i < self@.pending.len() && self@.pending[i as int].message_type
                    == message_type@,
                None => !self@.waits_for(message_type@),
            },
    {
        let mut i: usize = 0;
        while i < self.pending.len()
            invariant
                i <= self.pending.len(),
                forall|j: int| 0 <= j < i ==> self@.pending[j].message_type != message_type@,
            decreases self.pending.len() - i,
        {
            if same_text(self.pending[i].message_type.as_str(), message_type) {
                return Some(i);
            }
            i = i + 1;
        }
        None
    }

    fn position_of_ticket(&self, ticket: u64) -> (r: Option<usize>)
        ensures
            match r {
                Some(i) => i < self@.pending.len() && self@.pending[i as int].ticket == ticket,
                None => !self@.holds_ticket(ticket),
            },
    {
        let mut i: usize = 0;
        while i < self.pending.len()
            invariant
                i <= self.pending.len(),
                forall|j: int| 0 <= j < i ==> self@.pending[j].ticket != ticket,
            decreases self.pending.len() - i,
        {
            if self.pending[i].ticket == ticket {
                return Some(i);
            }
            i = i + 1;
        }
        None
    }

    /// Whether a request of type `message_type` waits.
    pub fn is_waiting_for(&self, message_type: &str) -> (r: bool)
        ensures
            r == self@.waits_for(message_type@),
    {
        self.position_of_type(message_type).is_some()
    }

    /// Registers a request of type `message_type` and returns its ticket.
    /// A request of the same type that still waits loses its place: its
    /// caller is no longer answered and has to give up by itself.
    pub fn register(&mut self, message_type: &str) -> (ticket: u64)
        requires
            old(self)@.issued < u64::MAX,
        ensures
            final(self)@ == old(self)@.register(message_type@),
            ticket == old(self)@.issued,
    {
        proof {
            use_type_invariant(&*self);
            lemma_operations_well_formed(self@, message_type@, 0);
        }
        let ghost before = self@;
        let ticket = self.issued;
        let found = self.position_of_type(message_type);
        let mut pending: Vec<PendingRequest> = Vec::new();
        std::mem::swap(&mut pending, &mut self.pending);
        if let Some(i) = found {
            proof {
                lemma_index_of_type(before, message_type@, i as int);
            }
            pending.remove(i);
        }
        pending.push(PendingRequest { message_type: message_type.to_owned(), ticket });
        assert(pending@.map_values(|p: PendingRequest| p@) =~= before.register(
            message_type@,
        ).pending);
        self.issued = ticket + 1;
        self.pending = pending;
        ticket
    }

    /// Takes the request of type `message_type` out of the table and returns
    /// its ticket, if one waits.
    pub fn resolve(&mut self, message_type: &str) -> (r: Option<u64>)
        ensures
            r == old(self)@.ticket_for(message_type@),
            final(self)@ == old(self)@.without_type(message_type@),
    {
        proof {
            use_type_invariant(&*self);
        }
        let ghost before = self@;
        match self.position_of_type(message_type) {
            Some(i) => {
                proof {
                    lemma_index_of_type(before, message_type@, i as int);
                    lemma_remove_well_formed(before, i as int);
                }
                let ticket = self.pending[i].ticket;
                let mut pending: Vec<PendingRequest> = Vec::new();
                std::mem::swap(&mut pending, &mut self.pending);
                pending.remove(i);
                assert(pending@.map_values(|p: PendingRequest| p@) =~= before.pending.remove(
                    i as int,
                ));
                self.pending = pending;
                Some(ticket)
            },
            None => None,
        }
    }

    /// Takes the request with `ticket` out of the table, if it still waits,
    /// and says whether it did.
    pub fn expire(&mut self, ticket: u64) -> (r: bool)
        ensures
            r == old(self)@.holds_ticket(ticket),
            final(self)@ == old(self)@.without_ticket(ticket),
    {
        proof {
            use_type_invariant(&*self);
        }
        let ghost before = self@;
        match self.position_of_ticket(ticket) {
            Some(i) => {
                proof {
                    lemma_index_of_ticket(before, ticket, i as int);
                    lemma_remove_well_formed(before, i as int);
                }
                let mut pending: Vec<PendingRequest> = Vec::new();
                std::mem::swap(&mut pending, &mut self.pending);
                pending.remove(i);
                assert(pending@.map_values(|p: PendingRequest| p@) =~= before.pending.remove(
                    i as int,
                ));
                self.pending = pending;
                true
            },
            None => false,
        }
    }

    /// Empties the table and returns the tickets of all requests that
    /// waited, oldest first.
    pub fn drain(&mut self) -> (r: Vec<u64>)
        ensures
            r@ == old(self)@.tickets(),
            final(self)@ == old(self)@.drain(),
    {
        let ghost before = self@;
        let mut tickets: Vec<u64> = Vec::new();
        let mut i: usize = 0;
        while i < self.pending.len()
            invariant
                i <= self.pending.len(),
                self@ == before,
                tickets@ == before.tickets().take(i as int),
            decreases self.pending.len() - i,
        {
            tickets.push(self.pending[i].ticket);
            assert(tickets@ =~= before.tickets().take(i + 1));
            i = i + 1;
        }
        assert(tickets@ =~= before.tickets());
        self.pending = Vec::new();
        assert(self@.pending =~= Seq::<PendingView>::empty());
        tickets
    }
}

} // verus!
