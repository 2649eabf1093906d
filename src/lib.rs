//! Account resolution and remote-call framing for tokens whose transfers are
//! gated by a transfer-hook validator.

pub mod address;
pub mod error;
pub mod frame;
pub mod registry;
pub mod setup;
pub mod storage;

pub use address::{Address, DerivedAddress};
pub use error::SetupError;
pub use registry::{AccountDescriptor, ReferenceKind};
pub use frame::{AccountRef, CallFrame, InitializeExtraAccountMetaList, INITIALIZE_EXTRA_ACCOUNT_META_LIST};
pub use storage::Ledger;
pub use setup::{complete_initialization, initialize_hook_for_mint};
