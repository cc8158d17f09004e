//! A dead man's switch for bitcoin: funds locked under a script that the
//! owner can spend at any time and the redeemer only after a relative
//! timelock has elapsed since the owner last moved them.
pub mod descriptor;
pub mod keychain;
pub mod policy;
pub mod workflow;
