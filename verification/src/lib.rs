//! Two small synchronization primitives built on atomic flags: a spin lock
//! whose guard releases it on drop, and a channel that carries exactly one
//! message from one thread to another.
//!
//! - [`SpinLockFlag`] is the bare flag, [`SpinLock`] a value behind one, and
//!   [`Guard`] the access to that value.
//! - [`OneshotChannel`] is the one-message channel as one shared object;
//!   [`channel`] makes it as a [`Sender`] and a [`Receiver`] that are each used
//!   up by their one call.
//! - [`SimpleChannel`] is a plain queue of messages for one owner.
//!
//! The flags are `std` atomics, used with acquire and release ordering. The
//! payload of each primitive lives in a storage cell that a thread enters
//! after the flags have let it through. No call waits in the kernel: the
//! lock spins, within a limit, and everything else returns at once.
//!
//! What a call on a shared flag returns depends on what other threads did, so
//! the contracts of the executable functions state which atomic operation a
//! call makes, on which flag and with which ordering, and how the result
//! follows from what that operation returned.
//! What the flags achieve together is stated of the protocols: the modules
//! [`lock_protocol`] and [`channel_protocol`] describe each protocol as a
//! transition system over its atomic operations and prove its properties for
//! every interleaving of the steps.

pub mod channel_protocol;
pub mod flag;
pub mod lock_protocol;
pub mod oneshot;
pub mod simple;
pub mod spin_lock;
pub mod split;
pub mod storage;

pub use flag::Spin;
pub use flag::SpinLockFlag;
pub use flag::SPIN_LIMIT;
pub use oneshot::NotReady;
pub use oneshot::OneshotChannel;
pub use oneshot::SendError;
pub use simple::SimpleChannel;
pub use spin_lock::Guard;
pub use spin_lock::SpinLock;
pub use split::channel;
pub use split::Receiver;
pub use split::Sender;
