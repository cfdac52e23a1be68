//! The device connection and session-orchestration core of a command-line
//! tool that deploys compiled programs to a V5 robot brain over a serial
//! link.
//!
//! The core holds everything that can be stated and proved about the
//! session: radio-channel negotiation as a state machine with a polling
//! deadline, upload-configuration resolution with layered per-field
//! precedence, the terminal relay's decisions and its courtesy shutdown
//! sequence, serial-device selection, and project-template scaffolding.
//! The binary around it performs the actual serial, file and console I/O
//! and drives these state machines event by event.

mod config;
mod device;
mod errors;
mod radio;
mod template;
mod terminal;

pub use config::artifact_plan;
pub use config::is_final_binary;
pub use config::lemma_compression_precedence;
pub use config::lemma_icon_precedence;
pub use config::lemma_out_of_range_slot_rejected;
pub use config::lemma_slot_precedence;
pub use config::parse_icon;
pub use config::resolve_compression;
pub use config::resolve_description;
pub use config::resolve_icon;
pub use config::resolve_name;
pub use config::resolve_slot;
pub use config::resolve_upload_config;
pub use config::select_package;
pub use config::slot_in_range;
pub use config::slot_needs_prompt;
pub use config::spec_bin_suffix;
pub use config::spec_chosen_icon;
pub use config::spec_chosen_slot;
pub use config::spec_default_icon;
pub use config::spec_ext_start;
pub use config::spec_is_final_binary;
pub use config::spec_parse_icon;
pub use config::spec_resolve_compression;
pub use config::spec_resolve_slot;
pub use config::spec_resolved_fields;
pub use config::spec_slot_in_range;
pub use config::with_bin_extension;
pub use config::AfterUpload;
pub use config::ArtifactPlan;
pub use config::PackageFields;
pub use config::ProgramIcon;
pub use config::UploadConfig;
pub use config::UploadMetadata;
pub use config::UploadOpts;
pub use config::DEFAULT_DESCRIPTION;
pub use config::DEFAULT_NAME;
pub use config::PROGRAM_TYPE;
pub use config::SLOT_MAX;
pub use config::SLOT_MIN;
pub use device::select_controller;
pub use device::select_device;
pub use device::DeviceKind;
pub use device::CONNECT_TIMEOUT_MS;
pub use errors::CliError;
pub use radio::is_wireless;
pub use radio::lemma_negotiation_converges;
pub use radio::lemma_negotiation_times_out;
pub use radio::lemma_tethered_is_wired;
pub use radio::lemma_wired_negotiation_is_noop;
pub use radio::spec_is_wireless;
pub use radio::spec_phase_terminal;
pub use radio::spec_poll_step;
pub use radio::spec_run_polls;
pub use radio::Negotiation;
pub use radio::NegotiationPhase;
pub use radio::RadioChannel;
pub use radio::CONVERGENCE_DEADLINE_MS;
pub use radio::POLL_INTERVAL_MS;
pub use radio::SELECT_RETRIES;
pub use radio::SELECT_TIMEOUT_MS;
pub use radio::SETTLE_DELAY_MS;
pub use radio::STATUS_RETRIES;
pub use radio::STATUS_TIMEOUT_MS;
pub use radio::TETHERED_BIT;
pub use template::baked_in_template;
pub use template::project_dir;
pub use template::project_name;
pub use template::replace_all;
pub use template::spec_replace_all;
pub use template::spec_template_wf;
pub use template::template_placeholder;
pub use template::validate_project_dir;
pub use template::TemplateEntry;
pub use terminal::drop_malformed_utf8;
pub use terminal::lemma_shutdown_sequence;
pub use terminal::relay_reaction;
pub use terminal::spec_shutdown_next;
pub use terminal::RelayAction;
pub use terminal::RelayEvent;
pub use terminal::Shutdown;
pub use terminal::ShutdownStep;
pub use terminal::IDLE_DELAY_MS;
pub use terminal::RELAY_BUFFER_SIZE;
pub use terminal::RESTORE_RETRIES;
pub use terminal::RESTORE_TIMEOUT_MS;
pub use terminal::STOP_RETRIES;
pub use terminal::STOP_TIMEOUT_MS;
