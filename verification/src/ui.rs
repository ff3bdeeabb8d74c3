//! What the user interface decides: which command a key means for a
//! component, and which message the component then sends. The components
//! themselves are drawn and driven outside this library.

pub mod event;
pub mod ke_input;
pub mod msg;
pub mod te_radio_tag;
