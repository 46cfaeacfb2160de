//! A blocking multi-producer, single-consumer channel whose lock-protected
//! state is a verified state machine, a simpler single-handle channel, and a
//! small singly linked stack.
pub mod channel_only_channel;
pub mod laws;
pub mod locking;
pub mod mut_single_linked_list;
pub mod state;
pub mod tx_rx_channel;
