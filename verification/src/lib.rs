//! Coordination of mounted environments.
//!
//! An environment is served by a sidecar: a process of its own that mounts it and stays for as long
//! as somebody uses it. Users and sidecar meet through two files beside the mount point.
//!
//! - `{name}.rattler-fs.lock` is locked. Every user holds a share in the lock.
//! - `{name}.rattler-fs.pid` holds the process id of the sidecar.
//!
//! A user takes the lock alone to look for a sidecar and to start one, then keeps a share in it
//! ([`ensure`], [`start`]). The sidecar tries for the lock once a second, and ends when it has had
//! it for a whole grace period ([`managed`]).
//!
//! Whatever touches the operating system is done by the caller. The functions here say what to do
//! next, and are told what came of it as a [`protocol::Reply`] or as plain values. The contract of
//! each says what it decides for every answer, and the laws at the end of a module say what holds
//! of every course that the answers can take.

pub mod coordination;
pub mod ensure;
pub mod managed;
pub mod mount;
pub mod mountpoint;
pub mod path;
pub mod pidfile;
pub mod prefetch;
pub mod protocol;
pub mod start;
pub mod text;
pub mod umount;
