//! Authorization and social-recovery controller for a custody account that an
//! owner and a guardian hold jointly.
//!
//! The account record, the co-signature gates, the time-locked escape state
//! machine and the upgrade gate are executable code with proved contracts.
//! The contracts are stated over the mathematical model in [`model`], and what
//! holds of several operations together is proved in [`theorems`].

pub mod identity;
pub mod error;
pub mod model;
pub mod account;
pub mod signers;
pub mod contexts;
pub mod mutation;
pub mod escape;
pub mod upgrade;
pub mod theorems;

pub use account::ArgentAccount;
pub use account::EscapeType;
pub use account::PendingTransaction;
pub use contexts::CancelEscape;
pub use contexts::ChangeGuardian;
pub use contexts::ChangeGuardianBackup;
pub use contexts::ChangeOwner;
pub use contexts::Create;
pub use contexts::EscapeGuardian;
pub use contexts::EscapeOwner;
pub use contexts::Execute;
pub use contexts::TriggerEscapeGuardian;
pub use contexts::TriggerEscapeOwner;
pub use contexts::Upgrade;
pub use error::ErrorCode;
pub use error::EscapeError;
pub use escape::cancel_escape;
pub use escape::current_time;
pub use escape::escape_guardian;
pub use escape::escape_guardian_at;
pub use escape::escape_owner;
pub use escape::escape_owner_at;
pub use escape::trigger_escape_guardian;
pub use escape::trigger_escape_guardian_at;
pub use escape::trigger_escape_owner;
pub use escape::trigger_escape_owner_at;
pub use identity::Identity;
pub use model::DEFAULT_SECURITY_PERIOD;
pub use mutation::change_guardian;
pub use mutation::change_guardian_backup;
pub use mutation::change_owner;
pub use mutation::create;
pub use mutation::execute;
pub use mutation::signature_provided;
pub use signers::co_signers;
pub use signers::CoSigners;
pub use signers::SignerAccount;
pub use upgrade::upgrade;
pub use upgrade::AccountReference;
pub use upgrade::UpgradeInstruction;
pub use upgrade::UPGRADE_OPCODE;
