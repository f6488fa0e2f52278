//! A satirical stand-in for an AWS client. The one piece of real behavior
//! is a configuration builder with optional fields and documented
//! defaults; the run path wires the configuration through a backend and a
//! client, writes a fixed greeting to standard output, and always
//! succeeds. An error taxonomy exists for the shape of the interface but
//! is never produced.

mod client;
mod config;

pub use client::Application;
pub use client::Backend;
pub use client::Client;
pub use client::InifinidashError;
pub use config::BuilderModel;
pub use config::ConfigModel;
pub use config::InfiniConfig;
pub use config::InfiniConfigBuilder;
pub use config::default_account;
pub use config::default_config;
pub use config::default_name;
pub use config::default_region;
pub use config::lemma_account_last_wins;
pub use config::lemma_finalize_defaults;
pub use config::lemma_finalize_explicit;
pub use config::lemma_name_last_wins;
pub use config::lemma_region_last_wins;
pub use config::lemma_setters_commute;
pub use config::opt_view;
