//! A confirmation dialog for a terminal application: the modal that asks
//! whether to quit, to detach or to carry on, and the pieces it is built from.
//!
//! A modal ([`modal`]) reads terminal input ([`input`]), tells the main loop
//! what the user decided over a channel ([`channel`], [`event`],
//! [`loop_action`]) and draws itself into the middle of a frame ([`layout`],
//! [`canvas`]). The dialog itself is [`modal::quit::QuitModal`].

pub mod canvas;
pub mod channel;
pub mod event;
pub mod input;
pub mod layout;
pub mod loop_action;
pub mod modal;
