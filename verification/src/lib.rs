//! A UDP relay that disguises datagrams by XOR-ing them with a one-byte
//! token, or by framing them behind a fixed DNS query. The packet
//! transforms, the bookkeeping of the buffer pool, the client-session
//! decisions and the command-line checks are proved in Verus; the sockets,
//! threads, clocks and logging live in the program under `app/`.
pub mod buf_pool;
pub mod config;
pub mod error;
pub mod local;
pub mod methods;
pub mod recv_send;
pub mod shutdown;
pub mod socket;
pub mod xor;
pub mod slots;
