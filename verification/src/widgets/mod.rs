//! The texts that the screens show apart from the data: the question of
//! the confirmation overlay, the key hints of the footer, and what the
//! input lines offer.

pub mod command_input;
pub mod confirm_modal;
pub mod footer;
