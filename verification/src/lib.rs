//! Host-side protocol engine for the BES boot ROM and its in-RAM programmer.
//!
//! The engine never touches a serial port. Every protocol phase is a state
//! machine that is handed what the transport reported and answers with what
//! the transport has to do next, so the same code drives real hardware and
//! in-memory doubles alike.
//!
//! An operation begins with a function that hands out a state machine and
//! its first [`transport::Action`]. Whoever owns the transport performs the
//! action and hands its outcome to the machine's `step` as a
//! [`transport::Event`], until `step` answers with
//! [`transport::Step::Finished`].
//!
//! - [`message`]: the codec of one framed message and its checksum.
//! - [`packet`]: the table of frame lengths and the reader of single frames.
//! - [`sync`]: the wait for a message of a wanted type.
//! - [`exchange`]: one request and the wait for its reply.
//! - [`handshake`]: loading and starting the programmer.
//! - [`write_flash`]: erase, windowed write of chunks, commit.
//! - [`read_flash`]: reading flash in bursts, with a reset between them.
//! - [`reboot`]: the reboot of the device.

pub mod bytes;
pub mod errors;
pub mod exchange;
pub mod handshake;
pub mod message;
pub mod packet;
pub mod read_flash;
pub mod reboot;
pub mod sync;
pub mod transport;
pub mod write_flash;

pub use errors::BESLinkError;
pub use handshake::helper_sync_and_load_programmer;
pub use message::{BesMessage, MessageTypes, BES_SYNC};
pub use read_flash::{read_flash_data, FLASH_BUFFER_SIZE};
pub use reboot::send_device_reboot;
pub use sync::sync;
pub use transport::BES_PROGRAMMING_BAUDRATE;
pub use write_flash::burn_image_to_flash;
