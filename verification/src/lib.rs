//! Authentication broker, enrollment and durable-storage policy for a Touch ID
//! daemon: the decisions of the daemon as verified functions on plain values.
//!
//! Sockets, files, clocks, threads and the sensor belong to the caller. Where a
//! procedure alternates device or storage work with decisions, the procedure is
//! a value that names the next piece of work and takes its outcome.

pub mod active_run;
pub mod auth_client;
pub mod auth_daemon;
pub mod auth_feedback;
pub mod auth_lifecycle;
pub mod auth_operation;
pub mod auth_protocol;
pub mod auth_scheduler;
pub mod auth_session;
pub mod auth_socket;
pub mod biometric;
pub mod bytes;
pub mod catacomb_commit;
pub mod catacomb_image;
pub mod catacomb_names;
pub mod catacomb_recovery;
pub mod catacomb_restore;
pub mod catacomb_session;
pub mod catacomb_store;
pub mod catacomb_transaction;
pub mod decimal;
pub mod enrollment_lifecycle;
pub mod enrollment_owner;
pub mod enrollment_transaction;
pub mod laws;
pub mod legacy_recovery;
pub mod overlay;
pub mod pam_client;
pub mod process_status;
pub mod relay_handoff;
pub mod secret;
pub mod standard_enrollment;
pub mod standard_fingerprint_protocol;
pub mod standard_operation_authority;
pub mod standard_smoke;
pub mod time;
