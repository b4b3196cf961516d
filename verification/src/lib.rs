//! A time-gated badge-claiming library.
//!
//! An account starts a countdown of a fixed number of block intervals (its
//! "era"); once the era has elapsed the account may claim a badge, which
//! resets the countdown and increments a per-account badge counter. An
//! account that has accumulated enough badges may trigger the minting of a
//! token in a companion registry.
//!
//! Time is modelled as an externally supplied, monotonically non-decreasing
//! block height, sampled once per operation and passed in as a plain value,
//! together with the caller's account identifier.

pub mod assoc;
pub mod controller;
pub mod laws;
pub mod profile;
pub mod registry;
pub mod store;

pub use controller::Error;
pub use controller::Magink;
pub use controller::REQUIRED_BADGES;
pub use profile::Profile;
pub use registry::RegistryError;
pub use registry::WizardRegistry;
pub use store::AccountId;
pub use store::ProfileStore;
