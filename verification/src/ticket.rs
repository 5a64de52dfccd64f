//! Validated value types for the ticket domain: identifiers, titles,
//! descriptions, workflow status, and the ticket record itself.
//!
//! A `TicketTitle` or `TicketDescription` can only be obtained through its
//! fallible constructor, so every value of these types satisfies its length
//! invariant (measured in UTF-8 bytes, as `str::len` does).

use vstd::prelude::*;

verus! {

/// Largest number of bytes a title may hold.
pub const TITLE_MAX_BYTES: usize = 50;

/// Largest number of bytes a description may hold.
pub const DESCRIPTION_MAX_BYTES: usize = 500;

/// The number of bytes in the UTF-8 encoding of a string.
pub open spec fn byte_len(s: Seq<char>) -> nat {
    vstd::utf8::encode_utf8(s).len()
}

/// A title is valid when it holds between 1 and `TITLE_MAX_BYTES` bytes.
pub open spec fn title_valid(s: Seq<char>) -> bool {
    1 <= byte_len(s) <= TITLE_MAX_BYTES
}

/// A description is valid when it holds between 1 and
/// `DESCRIPTION_MAX_BYTES` bytes.
pub open spec fn description_valid(s: Seq<char>) -> bool {
    1 <= byte_len(s) <= DESCRIPTION_MAX_BYTES
}

/// The identifier of a ticket: an unsigned 64-bit integer handed out by the
/// store, immutable once assigned.
#[derive(Clone, Copy, Debug, PartialEq, Eq, Hash, Structural)]
pub struct TicketId(pub u64);

/// The workflow state of a ticket. Any status may move to any other status.
#[derive(Clone, Copy, Debug, PartialEq, Eq, Structural)]
pub enum Status {
    ToDo,
    InProgress,
    Done,
}

/// Why a raw string was rejected as a title.
#[derive(Clone, Copy, Debug, PartialEq, Eq, Structural)]
pub enum TicketTitleError {
    Empty,
    TooLong,
}

/// Why a raw string was rejected as a description.
#[derive(Clone, Copy, Debug, PartialEq, Eq, Structural)]
pub enum TicketDescriptionError {
    Empty,
    TooLong,
}

impl TicketTitleError {
    /// A human-readable account of the failure, for the boundary layer to
    /// report.
    pub fn message(&self) -> (r: String)
        ensures
            *self == TicketTitleError::Empty ==> r@ == "The title cannot be empty"@,
            *self == TicketTitleError::TooLong ==> r@ == "The title cannot be longer than 50 bytes"@,
    {
        match self {
            TicketTitleError::Empty => "The title cannot be empty".to_owned(),
            TicketTitleError::TooLong => "The title cannot be longer than 50 bytes".to_owned(),
        }
    }
}

impl TicketDescriptionError {
    /// A human-readable account of the failure, for the boundary layer to
    /// report.
    pub fn message(&self) -> (r: String)
        ensures
            *self == TicketDescriptionError::Empty ==> r@ == "The description cannot be empty"@,
            *self == TicketDescriptionError::TooLong ==> r@
                == "The description cannot be longer than 500 bytes"@,
    {
        match self {
            TicketDescriptionError::Empty => "The description cannot be empty".to_owned(),
            TicketDescriptionError::TooLong => "The description cannot be longer than 500 bytes".to_owned(),
        }
    }
}

/// Checks that a raw string is acceptable as a title: non-empty and at most
/// `TITLE_MAX_BYTES` bytes.
pub fn validate_title(title: &str) -> (r: Result<(), TicketTitleError>)
    ensures
        r == (if byte_len(title@) == 0 {
            Result::<(), TicketTitleError>::Err(TicketTitleError::Empty)
        } else if byte_len(title@) > TITLE_MAX_BYTES {
            Result::<(), TicketTitleError>::Err(TicketTitleError::TooLong)
        } else {
            Result::<(), TicketTitleError>::Ok(())
        }),
{
    let n = title.as_bytes().len();
    if n == 0 {
        Err(TicketTitleError::Empty)
    } else if n > TITLE_MAX_BYTES {
        Err(TicketTitleError::TooLong)
    } else {
        Ok(())
    }
}

/// Checks that a raw string is acceptable as a description: non-empty and at
/// most `DESCRIPTION_MAX_BYTES` bytes.
pub fn validate_description(description: &str) -> (r: Result<(), TicketDescriptionError>)
    ensures
        r == (if byte_len(description@) == 0 {
            Result::<(), TicketDescriptionError>::Err(TicketDescriptionError::Empty)
        } else if byte_len(description@) > DESCRIPTION_MAX_BYTES {
            Result::<(), TicketDescriptionError>::Err(TicketDescriptionError::TooLong)
        } else {
            Result::<(), TicketDescriptionError>::Ok(())
        }),
{
    let n = description.as_bytes().len();
    if n == 0 {
        Err(TicketDescriptionError::Empty)
    } else if n > DESCRIPTION_MAX_BYTES {
        Err(TicketDescriptionError::TooLong)
    } else {
        Ok(())
    }
}

/// A ticket title: a string of 1 to `TITLE_MAX_BYTES` bytes, stored exactly
/// as it was given (no trimming or normalisation).
#[derive(Debug)]
pub struct TicketTitle(String);

impl View for TicketTitle {
    type V = Seq<char>;

    closed spec fn view(&self) -> Seq<char> {
        self.0@
    }
}

impl TicketTitle {
    /// Every title that can be constructed satisfies the length invariant.
    #[verifier::type_invariant]
    closed spec fn inv(self) -> bool {
        title_valid(self.0@)
    }

    /// The only way to obtain a `TicketTitle`: validates the raw string and
    /// stores it unchanged.
    pub fn try_from(raw: String) -> (r: Result<TicketTitle, TicketTitleError>)
        ensures
            byte_len(raw@) == 0 ==> r == Result::<TicketTitle, TicketTitleError>::Err(
                TicketTitleError::Empty,
            ),
            byte_len(raw@) > TITLE_MAX_BYTES ==> r == Result::<TicketTitle, TicketTitleError>::Err(
                TicketTitleError::TooLong,
            ),
            title_valid(raw@) ==> r is Ok && r.unwrap()@ == raw@,
    {
        match validate_title(raw.as_str()) {
            Ok(()) => Ok(TicketTitle(raw)),
            Err(e) => Err(e),
        }
    }

    /// Read access to the underlying string.
    pub fn as_str(&self) -> (r: &str)
        ensures
            r@ == self@,
    {
        self.0.as_str()
    }
}

impl Clone for TicketTitle {
    fn clone(&self) -> (r: Self)
        ensures
            r@ == self@,
    {
        proof {
            use_type_invariant(self);
        }
        TicketTitle(self.0.clone())
    }
}

impl PartialEq for TicketTitle {
    /// Titles compare by their underlying string value; no case-folding.
    fn eq(&self, other: &TicketTitle) -> (r: bool) {
        self.0 == other.0
    }
}

impl vstd::std_specs::cmp::PartialEqSpecImpl for TicketTitle {
    open spec fn obeys_eq_spec() -> bool {
        true
    }

    open spec fn eq_spec(&self, other: &TicketTitle) -> bool {
        self@ == other@
    }
}

/// A ticket description: a string of 1 to `DESCRIPTION_MAX_BYTES` bytes,
/// stored exactly as it was given.
#[derive(Debug)]
pub struct TicketDescription(String);

impl View for TicketDescription {
    type V = Seq<char>;

    closed spec fn view(&self) -> Seq<char> {
        self.0@
    }
}

impl TicketDescription {
    /// Every description that can be constructed satisfies the length
    /// invariant.
    #[verifier::type_invariant]
    closed spec fn inv(self) -> bool {
        description_valid(self.0@)
    }

    /// The only way to obtain a `TicketDescription`: validates the raw string
    /// and stores it unchanged.
    pub fn try_from(raw: String) -> (r: Result<TicketDescription, TicketDescriptionError>)
        ensures
            byte_len(raw@) == 0 ==> r == Result::<TicketDescription, TicketDescriptionError>::Err(
                TicketDescriptionError::Empty,
            ),
            byte_len(raw@) > DESCRIPTION_MAX_BYTES ==> r == Result::<
                TicketDescription,
                TicketDescriptionError,
            >::Err(TicketDescriptionError::TooLong),
            description_valid(raw@) ==> r is Ok && r.unwrap()@ == raw@,
    {
        match validate_description(raw.as_str()) {
            Ok(()) => Ok(TicketDescription(raw)),
            Err(e) => Err(e),
        }
    }

    /// Read access to the underlying string.
    pub fn as_str(&self) -> (r: &str)
        ensures
            r@ == self@,
    {
        self.0.as_str()
    }
}

impl Clone for TicketDescription {
    fn clone(&self) -> (r: Self)
        ensures
            r@ == self@,
    {
        proof {
            use_type_invariant(self);
        }
        TicketDescription(self.0.clone())
    }
}

impl PartialEq for TicketDescription {
    /// Descriptions compare by their underlying string value; no
    /// case-folding.
    fn eq(&self, other: &TicketDescription) -> (r: bool) {
        self.0 == other.0
    }
}

impl vstd::std_specs::cmp::PartialEqSpecImpl for TicketDescription {
    open spec fn obeys_eq_spec() -> bool {
        true
    }

    open spec fn eq_spec(&self, other: &TicketDescription) -> bool {
        self@ == other@
    }
}

/// A persisted ticket record. The identifier is fixed when the record is
/// created; title, description and status may be replaced afterwards, and
/// only those three: there is no way to change the identifier of a record.
#[derive(Debug)]
pub struct Ticket {
    id: TicketId,
    title: TicketTitle,
    description: TicketDescription,
    status: Status,
}

impl Ticket {
    /// The identifier this record was created with.
    pub closed spec fn spec_id(&self) -> TicketId {
        self.id
    }

    /// The current title of the record.
    pub closed spec fn spec_title(&self) -> TicketTitle {
        self.title
    }

    /// The current description of the record.
    pub closed spec fn spec_description(&self) -> TicketDescription {
        self.description
    }

    /// The current workflow status of the record.
    pub closed spec fn spec_status(&self) -> Status {
        self.status
    }

    /// Read access to the identifier.
    pub fn id(&self) -> (r: TicketId)
        ensures
            r == self.spec_id(),
    {
        self.id
    }

    /// Read access to the title.
    pub fn title(&self) -> (r: &TicketTitle)
        ensures
            *r == self.spec_title(),
    {
        &self.title
    }

    /// Read access to the description.
    pub fn description(&self) -> (r: &TicketDescription)
        ensures
            *r == self.spec_description(),
    {
        &self.description
    }

    /// Read access to the status.
    pub fn status(&self) -> (r: Status)
        ensures
            r == self.spec_status(),
    {
        self.status
    }

    /// Replaces the title; nothing else changes.
    pub fn set_title(&mut self, title: TicketTitle)
        ensures
            final(self).spec_id() == old(self).spec_id(),
            final(self).spec_title() == title,
            final(self).spec_description() == old(self).spec_description(),
            final(self).spec_status() == old(self).spec_status(),
    {
        self.title = title;
    }

    /// Replaces the description; nothing else changes.
    pub fn set_description(&mut self, description: TicketDescription)
        ensures
            final(self).spec_id() == old(self).spec_id(),
            final(self).spec_title() == old(self).spec_title(),
            final(self).spec_description() == description,
            final(self).spec_status() == old(self).spec_status(),
    {
        self.description = description;
    }

    /// Replaces the status; nothing else changes. Any status may move to any
    /// other status.
    pub fn set_status(&mut self, status: Status)
        ensures
            final(self).spec_id() == old(self).spec_id(),
            final(self).spec_title() == old(self).spec_title(),
            final(self).spec_description() == old(self).spec_description(),
            final(self).spec_status() == status,
    {
        self.status = status;
    }

    /// Builds a record; only the store creates tickets, so this stays inside
    /// the crate.
    pub(crate) fn new(
        id: TicketId,
        title: TicketTitle,
        description: TicketDescription,
        status: Status,
    ) -> (t: Ticket)
        ensures
            t.spec_id() == id,
            t.spec_title() == title,
            t.spec_description() == description,
            t.spec_status() == status,
    {
        Ticket { id, title, description, status }
    }
}

impl Clone for Ticket {
    fn clone(&self) -> (r: Self)
        ensures
            r.spec_id() == self.spec_id(),
            r.spec_title()@ == self.spec_title()@,
            r.spec_description()@ == self.spec_description()@,
            r.spec_status() == self.spec_status(),
    {
        Ticket {
            id: self.id,
            title: self.title.clone(),
            description: self.description.clone(),
            status: self.status,
        }
    }
}

impl PartialEq for Ticket {
    /// Records compare field by field; strings by value.
    fn eq(&self, other: &Ticket) -> (r: bool) {
        self.id == other.id && self.title == other.title && self.description == other.description
            && self.status == other.status
    }
}

impl vstd::std_specs::cmp::PartialEqSpecImpl for Ticket {
    open spec fn obeys_eq_spec() -> bool {
        true
    }

    open spec fn eq_spec(&self, other: &Ticket) -> bool {
        &&& self.spec_id() == other.spec_id()
        &&& self.spec_title()@ == other.spec_title()@
        &&& self.spec_description()@ == other.spec_description()@
        &&& self.spec_status() == other.spec_status()
    }
}

/// Transient input for creating a ticket: an already validated title and
/// description. Consumed by the store, never persisted itself.
#[derive(Debug)]
pub struct TicketDraft {
    pub title: TicketTitle,
    pub description: TicketDescription,
}

impl Clone for TicketDraft {
    fn clone(&self) -> (r: Self)
        ensures
            r.title@ == self.title@,
            r.description@ == self.description@,
    {
        TicketDraft { title: self.title.clone(), description: self.description.clone() }
    }
}

impl PartialEq for TicketDraft {
    /// Drafts compare field by field; strings by value.
    fn eq(&self, other: &TicketDraft) -> (r: bool) {
        self.title == other.title && self.description == other.description
    }
}

impl vstd::std_specs::cmp::PartialEqSpecImpl for TicketDraft {
    open spec fn obeys_eq_spec() -> bool {
        true
    }

    open spec fn eq_spec(&self, other: &TicketDraft) -> bool {
        self.title@ == other.title@ && self.description@ == other.description@
    }
}

} // verus!
