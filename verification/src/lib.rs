//! Installation of a declared set of developer tools: which installation record
//! of each tool fits the running platform, the steps that install one tool, and
//! the bookkeeping of a batch of concurrent installations.
//!
//! The library performs no I/O. Whatever touches the disk, the network or a
//! subprocess is described by an [`Action`]; the caller performs it and answers
//! with an [`Event`].

pub mod batch;
pub mod command;
pub mod download_file;
pub mod installation;
pub mod macos;
pub mod manifest;
pub mod protocol;
pub mod report;
pub mod task;
pub mod text;
pub mod toolkit_manifest;
pub mod windows;

pub use manifest::{
    Arch, HostError, InstallStatus, InstallationDetailItem, RawInstallationDetailItem,
    ToolInstallationManifest, ToolkitsManifest, Type, OS,
};
pub use toolkit_manifest::{
    filter_tool_installation_detail, get_tookits_manifest, ManifestSource,
};
pub use protocol::{
    Action, CommandOutput, Event, InstallOutcome, Invocation, Step, VolumeEntry,
};
pub use command::{
    extract_zip, get_default_shell, get_unix_shell_config_path, is_cmd_exists,
    run_command_on_unix, run_command_pipe_on_unix, Shell,
};
pub use download_file::{
    download_file, downloaded_after, file_name_from_capture, get_file_name_from_response,
    Download, DownloadError,
};
pub use task::{Host, Stage, Strategy, Task};
pub use batch::{install, Batch, BatchEntry};
pub use report::{
    final_report, format_report_line, handle_installation_finish_message, manifest_banner,
    status_message, status_prefix,
};
