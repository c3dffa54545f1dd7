//! A two-deck stereo summing engine: the parameter channel that carries level
//! updates from a control thread to the audio thread, the bus state those
//! updates act on, and the small rules of the session around it.
//!
//! Levels travel as IEEE 754 binary32 bit patterns; the [`level`] module gives
//! each pattern its exact value, and every rule on levels is stated over it.

pub mod bundle;
pub mod bus;
pub mod channel;
pub mod crash;
pub mod level;
pub mod mix;
pub mod settings;
pub mod text;
pub mod update;
pub mod version;

pub use bundle::BundlePlan;
pub use bus::stereo_frames;
pub use bus::MixPeriod;
pub use bus::SummingBus;
pub use channel::parameter_channel;
pub use channel::ParameterReceiver;
pub use channel::ParameterSender;
pub use crash::crash_record;
pub use level::Level;
pub use mix::MixLevels;
pub use settings::Settings;
pub use update::DeckId;
pub use update::Parameter;
pub use update::ParameterUpdate;
pub use version::current_version;
