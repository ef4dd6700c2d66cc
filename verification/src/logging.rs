//! Logging configuration and log-file naming.
//!
//! The interpreter's logging subsystem is a collaborator at the edge:
//! what belongs to the library is the pure part — configuration values,
//! level and format names, the naming of the log files, and the plan of
//! renames a rotation performs. The embedder carries the plan out against
//! the file system.

use vstd::prelude::*;
use vstd::string::StringExecFns;
use vstd::string::StrSliceExecFns;
use vstd::string::StringSliceAdditionalSpecFns;

verus! {

/// Verbosity levels, noisiest first.
#[derive(Debug, Clone, Copy, PartialEq, Eq, Structural)]
pub enum LogLevel {
    Debug,
    Info,
    Warn,
    Error,
}

/// Log record encodings.
#[derive(Debug, Clone, Copy, PartialEq, Eq, Structural)]
pub enum LogFormat {
    Text,
    Json,
}

/// The embedder's logging choices.
#[derive(Debug)]
pub struct LoggingConfig {
    pub level: LogLevel,
    pub console_output: bool,
    pub file_path: Option<String>,
    pub format: LogFormat,
}

impl Default for LoggingConfig {
    /// Info level, text format, file only, default path.
    fn default() -> (r: LoggingConfig)
        ensures
            r.level == LogLevel::Info,
            !r.console_output,
            r.file_path is None,
            r.format == LogFormat::Text,
    {
        LoggingConfig {
            level: LogLevel::Info,
            console_output: false,
            file_path: None,
            format: LogFormat::Text,
        }
    }
}

impl LogLevel {
    /// The level's name, as an environment-filter directive.
    pub fn to_env_filter(&self) -> (r: String)
        ensures
            *self is Debug ==> r@ == "debug"@,
            *self is Info ==> r@ == "info"@,
            *self is Warn ==> r@ == "warn"@,
            *self is Error ==> r@ == "error"@,
    {
        match self {
            LogLevel::Debug => String::from_str("debug"),
            LogLevel::Info => String::from_str("info"),
            LogLevel::Warn => String::from_str("warn"),
            LogLevel::Error => String::from_str("error"),
        }
    }
}

impl core::str::FromStr for LogLevel {
    type Err = String;

    /// Reads a level name.
    fn from_str(s: &str) -> Result<LogLevel, String> {
        let b = s.as_bytes_vec();
        if crate::bytes::bytes_eq(&b, &StrSliceExecFns::as_bytes_vec("debug")) {
            Ok(LogLevel::Debug)
        } else if crate::bytes::bytes_eq(&b, &StrSliceExecFns::as_bytes_vec("info")) {
            Ok(LogLevel::Info)
        } else if crate::bytes::bytes_eq(&b, &StrSliceExecFns::as_bytes_vec("warn")) {
            Ok(LogLevel::Warn)
        } else if crate::bytes::bytes_eq(&b, &StrSliceExecFns::as_bytes_vec("error")) {
            Ok(LogLevel::Error)
        } else {
            Err(<String as StringExecFns>::from_str("Invalid log level"))
        }
    }
}

impl core::str::FromStr for LogFormat {
    type Err = String;

    /// Reads a format name.
    fn from_str(s: &str) -> Result<LogFormat, String> {
        let b = s.as_bytes_vec();
        if crate::bytes::bytes_eq(&b, &StrSliceExecFns::as_bytes_vec("text")) {
            Ok(LogFormat::Text)
        } else if crate::bytes::bytes_eq(&b, &StrSliceExecFns::as_bytes_vec("json")) {
            Ok(LogFormat::Json)
        } else {
            Err(<String as StringExecFns>::from_str("Invalid log format"))
        }
    }
}

/// How a log file can fail the embedder; the paths are byte strings.
#[derive(Debug)]
pub enum LogFileError {
    DirectoryCreationFailed { path: Vec<u8> },
    PermissionDenied { path: Vec<u8> },
    DiskFull { path: Vec<u8> },
    IoError { path: Vec<u8> },
}

/// One file-system step of a log rotation.
#[derive(Debug)]
pub enum RotationStep {
    Remove { path: Vec<u8> },
    Rename { from: Vec<u8>, to: Vec<u8> },
}

/// Names the log files: the live log and its rotated ancestors, up to
/// `MAX_LOG_FILES` of them, each holding at most `MAX_FILE_SIZE` bytes
/// before it rotates.
pub struct FileManager {
    pub log_dir: Vec<u8>,
}

pub const MAX_LOG_FILES: usize = 10;

pub const MAX_FILE_SIZE: u64 = 5242880;

impl FileManager {
    /// The default log directory.
    pub fn new() -> (r: FileManager)
        ensures
            r.log_dir@ == ".weaver/logs".spec_bytes(),
    {
        FileManager { log_dir: StrSliceExecFns::as_bytes_vec(".weaver/logs") }
    }

    /// A manager over a directory of the embedder's choice.
    pub fn with_custom_dir(dir: &str) -> (r: FileManager)
        ensures
            r.log_dir@ == dir.spec_bytes(),
    {
        FileManager { log_dir: StrSliceExecFns::as_bytes_vec(dir) }
    }

    /// The live log file's path: the directory, a separator, the name.
    pub fn get_log_file_path(&self) -> (r: Vec<u8>)
        ensures
            r@ == self.log_dir@ + "/weaver.log".spec_bytes(),
    {
        let mut out = crate::bytes::copy_bytes(&self.log_dir);
        let tail = StrSliceExecFns::as_bytes_vec("/weaver.log");
        crate::bytes::append_bytes(&mut out, &tail);
        out
    }

    /// The path of the `index`-th rotated log; index 0 is the live log
    /// itself.
    pub fn get_rotated_log_path(&self, index: usize) -> (r: Vec<u8>)
        ensures
            index == 0 ==> r@ == self.log_dir@ + "/weaver.log".spec_bytes(),
            index > 0 ==> r@.len() > self.log_dir@.len(),
    {
        let mut out = self.get_log_file_path();
        if index > 0 {
            out.push(0x2E);
            crate::bytes::push_decimal(&mut out, index as u64);
        }
        out
    }

    /// Whether a log of `size` bytes is due for rotation.
    pub fn should_rotate_size(&self, size: u64) -> (r: bool)
        ensures
            r == (size >= MAX_FILE_SIZE),
    {
        size >= MAX_FILE_SIZE
    }

    /// The file-system steps of one rotation, oldest first: drop the
    /// oldest file, shift each survivor one place up, and move the live
    /// log into the first rotated slot. `exists` says which rotated files
    /// are present, indexed like `get_rotated_log_path`.
    pub fn rotation_plan(&self, exists: &Vec<bool>) -> (r: Vec<RotationStep>)
        ensures
            r@.len() <= MAX_LOG_FILES + 1,
    {
        let mut steps: Vec<RotationStep> = Vec::new();
        if MAX_LOG_FILES < exists.len() && exists[MAX_LOG_FILES] {
            steps.push(RotationStep::Remove { path: self.get_rotated_log_path(MAX_LOG_FILES) });
        }
        let mut i: usize = MAX_LOG_FILES - 1;
        let mut steps_left: usize = MAX_LOG_FILES - 1;
        while steps_left > 0
            invariant
                steps_left <= MAX_LOG_FILES - 1,
                i == steps_left,
                steps@.len() <= 1 + (MAX_LOG_FILES - 1 - steps_left),
            decreases steps_left,
        {
            if i < exists.len() && exists[i] {
                steps.push(
                    RotationStep::Rename {
                        from: self.get_rotated_log_path(i),
                        to: self.get_rotated_log_path(i + 1),
                    },
                );
            }
            i = i - 1;
            steps_left = steps_left - 1;
        }
        if 0 < exists.len() && exists[0] {
            steps.push(
                RotationStep::Rename {
                    from: self.get_log_file_path(),
                    to: self.get_rotated_log_path(1),
                },
            );
        }
        steps
    }
}

impl Default for FileManager {
    /// The manager over the default directory.
    fn default() -> (r: FileManager)
        ensures
            r.log_dir@ == ".weaver/logs".spec_bytes(),
    {
        FileManager::new()
    }
}

} // verus!
