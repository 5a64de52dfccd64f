pub mod store;
pub mod ticket;

pub use store::{CreateTicketError, PatchTicketError, TicketStore};
pub use ticket::{
    Status, Ticket, TicketDescription, TicketDescriptionError, TicketDraft, TicketId, TicketTitle,
    TicketTitleError,
};
