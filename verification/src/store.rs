//! The ticket store: sole owner of all ticket records and of identifier
//! allocation.
//!
//! Identifiers are handed out by a counter that starts at 0 and only grows,
//! and nothing is ever removed, so the records live in a vector whose index
//! equals the identifier: the record with id `i` sits at position `i`.

use crate::ticket::{
    byte_len, description_valid, title_valid, Status, Ticket, TicketDescription,
    TicketDescriptionError, TicketDraft, TicketId, TicketTitle, TicketTitleError,
};
use vstd::prelude::*;

verus! {

/// Why a create request was rejected: one of its two fields failed
/// validation.
#[derive(Clone, Copy, Debug, PartialEq, Eq, Structural)]
pub enum CreateTicketError {
    Title(TicketTitleError),
    Description(TicketDescriptionError),
}

/// Why a patch request was rejected: the ticket does not exist, or a
/// provided field failed validation.
#[derive(Clone, Copy, Debug, PartialEq, Eq, Structural)]
pub enum PatchTicketError {
    NotFound,
    Title(TicketTitleError),
    Description(TicketDescriptionError),
}

/// The error a raw title earns: `Empty` below one byte, `TooLong` above the
/// bound. Meaningful only when `!title_valid(s)`.
pub open spec fn title_error(s: Seq<char>) -> TicketTitleError {
    if byte_len(s) == 0 {
        TicketTitleError::Empty
    } else {
        TicketTitleError::TooLong
    }
}

/// The error a raw description earns: `Empty` below one byte, `TooLong`
/// above the bound. Meaningful only when `!description_valid(s)`.
pub open spec fn description_error(s: Seq<char>) -> TicketDescriptionError {
    if byte_len(s) == 0 {
        TicketDescriptionError::Empty
    } else {
        TicketDescriptionError::TooLong
    }
}

/// An ordered collection of tickets keyed by `TicketId`, together with the
/// next identifier to allocate.
pub struct TicketStore {
    tickets: Vec<Ticket>,
    counter: u64,
}

impl TicketStore {
    /// The stored records, in order of insertion (equally: in increasing
    /// order of identifier).
    pub closed spec fn spec_tickets(&self) -> Seq<Ticket> {
        self.tickets@
    }

    /// The next identifier to allocate; equally, how many tickets were ever
    /// added.
    pub closed spec fn spec_counter(&self) -> u64 {
        self.counter
    }

    /// The store's invariant: every identifier ever handed out came from the
    /// counter, in order and without gaps, so the record with id `i` sits at
    /// position `i`.
    pub open spec fn wf(&self) -> bool {
        &&& self.spec_counter() == self.spec_tickets().len()
        &&& forall|i: int|
            0 <= i < self.spec_tickets().len() ==> (#[trigger] self.spec_tickets()[i]).spec_id()
                == TicketId(i as u64)
    }

    /// The record stored under `id`, if any.
    pub open spec fn spec_get(&self, id: TicketId) -> Option<Ticket> {
        if id.0 < self.spec_tickets().len() {
            Some(self.spec_tickets()[id.0 as int])
        } else {
            None
        }
    }

    /// The next identifier to allocate; equally, how many tickets were ever
    /// added.
    pub fn counter(&self) -> (r: u64)
        ensures
            r == self.spec_counter(),
    {
        self.counter
    }

    /// An empty store whose counter starts at 0.
    pub fn new() -> (s: TicketStore)
        ensures
            s.wf(),
            s.spec_counter() == 0,
            s.spec_tickets() == Seq::<Ticket>::empty(),
    {
        TicketStore { tickets: Vec::new(), counter: 0 }
    }

    /// Allocates the next identifier, stores a new ticket built from the
    /// draft with status `ToDo`, and returns the identifier. Never fails:
    /// the draft was validated when its fields were constructed.
    pub fn add_ticket(&mut self, draft: TicketDraft) -> (id: TicketId)
        requires
            old(self).wf(),
            old(self).spec_counter() < u64::MAX,
        ensures
            final(self).wf(),
            id == TicketId(old(self).spec_counter()),
            final(self).spec_counter() == old(self).spec_counter() + 1,
            ({
                let t = final(self).spec_tickets().last();
                &&& final(self).spec_tickets() == old(self).spec_tickets().push(t)
                &&& t.spec_id() == id
                &&& t.spec_title() == draft.title
                &&& t.spec_description() == draft.description
                &&& t.spec_status() == Status::ToDo
            }),
    {
        let id = TicketId(self.counter);
        self.counter = self.counter + 1;
        let t = Ticket::new(id, draft.title, draft.description, Status::ToDo);
        self.tickets.push(t);
        id
    }

    /// Looks a ticket up by its identifier; a read-only view of the record
    /// if present, absent otherwise. No side effects.
    pub fn get(&self, id: TicketId) -> (r: Option<&Ticket>)
        requires
            self.wf(),
        ensures
            r matches Some(t) ==> self.spec_get(id) == Some(*t),
            r is None ==> self.spec_get(id) is None,
            r is Some <==> id.0 < self.spec_counter(),
    {
        let n = self.tickets.len();
        if id.0 < n as u64 {
            let i = id.0 as usize;
            Some(&self.tickets[i])
        } else {
            None
        }
    }

    /// Looks a ticket up by its identifier and hands out an exclusive,
    /// mutable view of the record if present, absent otherwise. Title,
    /// description and status can be replaced through the handle; the
    /// identifier cannot, so the store's invariant survives any use of it.
    pub fn get_mut(&mut self, id: TicketId) -> (r: Option<&mut Ticket>)
        requires
            old(self).wf(),
        ensures
            r is Some <==> id.0 < old(self).spec_counter(),
            id.0 >= old(self).spec_counter() ==> *final(self) == *old(self),
            id.0 < old(self).spec_counter() ==> {
                &&& *r.unwrap() == old(self).spec_tickets()[id.0 as int]
                &&& final(self).spec_counter() == old(self).spec_counter()
                &&& final(self).spec_tickets() == old(self).spec_tickets().update(
                    id.0 as int,
                    *final(r.unwrap()),
                )
                &&& (final(r.unwrap()).spec_id() == TicketId(id.0) ==> final(self).wf())
            },
    {
        let n = self.tickets.len();
        if id.0 < n as u64 {
            let i = id.0 as usize;
            Some(&mut self.tickets[i])
        } else {
            None
        }
    }

    /// The computational core of a create request: validates the two raw
    /// strings, and on success stores a new ticket with status `ToDo` and
    /// returns a copy of the stored record. On failure the store is
    /// untouched and the error names the field that was rejected, title
    /// first.
    pub fn create_ticket(&mut self, title: String, description: String) -> (r: Result<
        Ticket,
        CreateTicketError,
    >)
        requires
            old(self).wf(),
            old(self).spec_counter() < u64::MAX,
        ensures
            final(self).wf(),
            r is Ok <==> title_valid(title@) && description_valid(description@),
            !title_valid(title@) ==> *final(self) == *old(self) && r == Result::<
                Ticket,
                CreateTicketError,
            >::Err(CreateTicketError::Title(title_error(title@))),
            title_valid(title@) && !description_valid(description@) ==> *final(self) == *old(self)
                && r == Result::<Ticket, CreateTicketError>::Err(
                CreateTicketError::Description(description_error(description@)),
            ),
            r is Ok ==> ({
                let t = r.unwrap();
                let st = final(self).spec_tickets().last();
                &&& t.spec_id() == TicketId(old(self).spec_counter())
                &&& t.spec_title()@ == title@
                &&& t.spec_description()@ == description@
                &&& t.spec_status() == Status::ToDo
                &&& final(self).spec_counter() == old(self).spec_counter() + 1
                &&& final(self).spec_tickets() == old(self).spec_tickets().push(st)
                &&& st.spec_id() == t.spec_id()
                &&& st.spec_title()@ == title@
                &&& st.spec_description()@ == description@
                &&& st.spec_status() == Status::ToDo
            }),
    {
        let vt = match TicketTitle::try_from(title) {
            Ok(t) => t,
            Err(e) => {
                return Err(CreateTicketError::Title(e));
            },
        };
        let vd = match TicketDescription::try_from(description) {
            Ok(d) => d,
            Err(e) => {
                return Err(CreateTicketError::Description(e));
            },
        };
        let rt = vt.clone();
        let rd = vd.clone();
        let id = self.add_ticket(TicketDraft { title: vt, description: vd });
        Ok(Ticket::new(id, rt, rd, Status::ToDo))
    }

    /// The computational core of a patch request: looks the ticket up,
    /// validates every provided field, and only when all of them pass
    /// replaces exactly the provided fields, returning a copy of the updated
    /// record. On any failure the stored ticket is entirely unchanged; a
    /// missing ticket is reported before any validation, and a bad title
    /// before a bad description.
    pub fn patch_ticket(
        &mut self,
        id: TicketId,
        new_title: Option<String>,
        new_description: Option<String>,
        new_status: Option<Status>,
    ) -> (r: Result<Ticket, PatchTicketError>)
        requires
            old(self).wf(),
        ensures
            final(self).wf(),
            r is Ok <==> id.0 < old(self).spec_counter() && (new_title matches Some(t)
                ==> title_valid(t@)) && (new_description matches Some(d) ==> description_valid(d@)),
            r is Err ==> *final(self) == *old(self),
            id.0 >= old(self).spec_counter() ==> r == Result::<Ticket, PatchTicketError>::Err(
                PatchTicketError::NotFound,
            ),
            id.0 < old(self).spec_counter() && (new_title matches Some(t) && !title_valid(t@))
                ==> r == Result::<Ticket, PatchTicketError>::Err(
                PatchTicketError::Title(title_error(new_title.unwrap()@)),
            ),
            id.0 < old(self).spec_counter() && (new_title matches Some(t) ==> title_valid(t@)) && (
            new_description matches Some(d) && !description_valid(d@)) ==> r == Result::<
                Ticket,
                PatchTicketError,
            >::Err(PatchTicketError::Description(description_error(new_description.unwrap()@))),
            r is Ok ==> ({
                let old_t = old(self).spec_tickets()[id.0 as int];
                let new_t = final(self).spec_tickets()[id.0 as int];
                let ret = r.unwrap();
                &&& final(self).spec_counter() == old(self).spec_counter()
                &&& final(self).spec_tickets() == old(self).spec_tickets().update(
                    id.0 as int,
                    new_t,
                )
                &&& new_t.spec_id() == old_t.spec_id()
                &&& new_t.spec_title()@ == (if new_title is Some {
                    new_title.unwrap()@
                } else {
                    old_t.spec_title()@
                })
                &&& (new_title is None ==> new_t.spec_title() == old_t.spec_title())
                &&& new_t.spec_description()@ == (if new_description is Some {
                    new_description.unwrap()@
                } else {
                    old_t.spec_description()@
                })
                &&& (new_description is None ==> new_t.spec_description()
                    == old_t.spec_description())
                &&& new_t.spec_status() == (if new_status is Some {
                    new_status.unwrap()
                } else {
                    old_t.spec_status()
                })
                &&& ret.spec_id() == new_t.spec_id()
                &&& ret.spec_title()@ == new_t.spec_title()@
                &&& ret.spec_description()@ == new_t.spec_description()@
                &&& ret.spec_status() == new_t.spec_status()
            }),
    {
        let n = self.tickets.len();
        if !(id.0 < n as u64) {
            return Err(PatchTicketError::NotFound);
        }
        let i = id.0 as usize;
        let vt: Option<TicketTitle> = match new_title {
            None => None,
            Some(raw) => match TicketTitle::try_from(raw) {
                Ok(t) => Some(t),
                Err(e) => {
                    return Err(PatchTicketError::Title(e));
                },
            },
        };
        let vd: Option<TicketDescription> = match new_description {
            None => None,
            Some(raw) => match TicketDescription::try_from(raw) {
                Ok(d) => Some(d),
                Err(e) => {
                    return Err(PatchTicketError::Description(e));
                },
            },
        };
        let t = &mut self.tickets[i];
        match vt {
            Some(v) => t.set_title(v),
            None => {},
        }
        match vd {
            Some(v) => t.set_description(v),
            None => {},
        }
        match new_status {
            Some(v) => t.set_status(v),
            None => {},
        }
        let out = self.tickets[i].clone();
        Ok(out)
    }
}

/// Law: identifier allocation starts at 0 and is strictly increasing: in
/// any reachable store the i-th ticket added holds identifier i, so the
/// identifiers `add_ticket` returned are distinct and strictly increasing,
/// starting at 0 on a fresh store.
pub proof fn lemma_ids_strictly_increasing(s: TicketStore)
    requires
        s.wf(),
    ensures
        forall|i: int|
            0 <= i < s.spec_tickets().len() ==> (#[trigger] s.spec_tickets()[i]).spec_id()
                == TicketId(i as u64),
        forall|i: int, j: int|
            0 <= i < j < s.spec_tickets().len() ==> (#[trigger] s.spec_tickets()[i]).spec_id().0 < (
            #[trigger] s.spec_tickets()[j]).spec_id().0,
{
}

/// Law: `get` on an identifier that `add_ticket` never returned yields
/// absent. Every identifier the store ever returned lies below the counter,
/// so an identifier at or above it was never handed out and is not found.
pub proof fn lemma_get_absent(s: TicketStore, id: TicketId)
    requires
        s.wf(),
        id.0 >= s.spec_counter(),
    ensures
        s.spec_get(id) is None,
{
}

/// Law: after `add_ticket(draft)` returns `id`, `get(id)` finds a ticket
/// with status `ToDo` whose title and description are the draft's. The
/// hypotheses are what `add_ticket` ensures of the stores before and after
/// the call; the conclusion is what `spec_get`, and with it `get`, then
/// returns.
pub proof fn lemma_add_then_get(
    pre: TicketStore,
    post: TicketStore,
    draft: TicketDraft,
    id: TicketId,
)
    requires
        pre.wf(),
        post.wf(),
        id == TicketId(pre.spec_counter()),
        post.spec_counter() == pre.spec_counter() + 1,
        post.spec_tickets() == pre.spec_tickets().push(post.spec_tickets().last()),
        post.spec_tickets().last().spec_id() == id,
        post.spec_tickets().last().spec_title() == draft.title,
        post.spec_tickets().last().spec_description() == draft.description,
        post.spec_tickets().last().spec_status() == Status::ToDo,
    ensures
        post.spec_get(id) matches Some(t) && t.spec_id() == id && t.spec_title() == draft.title
            && t.spec_description() == draft.description && t.spec_status() == Status::ToDo,
{
}

} // verus!
