//! The wizard's data model: modes, sensitivity levels, candidate items,
//! archive records, restore candidates and run progress.
use vstd::prelude::*;

verus! {

/// Which set of paths a backup covers.
#[derive(Debug, Clone, Copy, PartialEq, Eq, Structural)]
pub enum BackupMode {
    /// Leaves high-sensitivity paths out.
    Secure,
    /// Takes everything and needs a secret.
    Complete,
}

impl BackupMode {
    pub open spec fn spec_name(self) -> Seq<char> {
        match self {
            BackupMode::Secure => "secure"@,
            BackupMode::Complete => "complete"@,
        }
    }

    pub fn as_str(&self) -> (r: &'static str)
        ensures
            r@ == self.spec_name(),
    {
        match self {
            BackupMode::Secure => "secure",
            BackupMode::Complete => "complete",
        }
    }
}

/// How sensitive a candidate item is; it drives default exclusion and warnings.
#[derive(Debug, Clone, Copy, PartialEq, Eq, Structural)]
pub enum SecurityLevel {
    Low,
    Medium,
    High,
}

/// A path that may be put into a backup.
#[derive(Debug, Clone)]
pub struct BackupItem {
    pub name: String,
    pub path: String,
    pub category: String,
    pub description: String,
    pub security_level: SecurityLevel,
    pub warning: Option<String>,
    pub selected: bool,
    pub exists: bool,
    pub size: Option<u64>,
}

impl BackupItem {
    pub fn new(name: String, path: String, category: String, description: String) -> (r: Self)
        ensures
            r.name == name,
            r.path == path,
            r.category == category,
            r.description == description,
            r.security_level == SecurityLevel::Low,
            r.warning is None,
            !r.selected,
            !r.exists,
            r.size is None,
    {
        BackupItem {
            name,
            path,
            category,
            description,
            security_level: SecurityLevel::Low,
            warning: None,
            selected: false,
            exists: false,
            size: None,
        }
    }

    pub fn with_security_level(self, level: SecurityLevel) -> (r: Self)
        ensures
            r == (BackupItem { security_level: level, ..self }),
    {
        let mut item = self;
        item.security_level = level;
        item
    }

    pub fn with_warning(self, warning: String) -> (r: Self)
        ensures
            r == (BackupItem { warning: Some(warning), ..self }),
    {
        let mut item = self;
        item.warning = Some(warning);
        item
    }
}

/// Where a run stands. It only moves forward, up to `Completed` or `Failed`.
#[derive(Debug, Clone, PartialEq)]
pub enum ProgressStatus {
    Preparing,
    Processing,
    Compressing,
    Encrypting,
    Finalizing,
    Completed,
    Failed(String),
}

impl ProgressStatus {
    pub open spec fn spec_label(&self) -> Seq<char> {
        match self {
            ProgressStatus::Preparing => "Preparing"@,
            ProgressStatus::Processing => "Processing"@,
            ProgressStatus::Compressing => "Compressing"@,
            ProgressStatus::Encrypting => "Encrypting"@,
            ProgressStatus::Finalizing => "Finalizing"@,
            ProgressStatus::Completed => "Completed"@,
            ProgressStatus::Failed(_) => "Failed"@,
        }
    }

    /// Position in the forward order of a run; both terminal states share the last rank.
    pub open spec fn rank(&self) -> int {
        match self {
            ProgressStatus::Preparing => 0,
            ProgressStatus::Processing => 1,
            ProgressStatus::Compressing => 2,
            ProgressStatus::Encrypting => 3,
            ProgressStatus::Finalizing => 4,
            ProgressStatus::Completed => 5,
            ProgressStatus::Failed(_) => 5,
        }
    }

    pub open spec fn is_terminal(&self) -> bool {
        self.rank() == 5
    }

    pub fn as_str(&self) -> (r: &'static str)
        ensures
            r@ == self.spec_label(),
    {
        match self {
            ProgressStatus::Preparing => "Preparing",
            ProgressStatus::Processing => "Processing",
            ProgressStatus::Compressing => "Compressing",
            ProgressStatus::Encrypting => "Encrypting",
            ProgressStatus::Finalizing => "Finalizing",
            ProgressStatus::Completed => "Completed",
            ProgressStatus::Failed(_) => "Failed",
        }
    }
}

/// Relies on chrono::Utc::now: the current time as whole seconds since the Unix epoch.
#[verifier::external_body]
pub(crate) fn now_seconds() -> (r: i64) {
    chrono::Utc::now().timestamp()
}

/// Progress of a backup run. Times are seconds since the Unix epoch.
#[derive(Debug, Clone)]
pub struct BackupProgress {
    pub current_item: String,
    pub items_completed: usize,
    pub total_items: usize,
    pub bytes_processed: u64,
    pub total_bytes: u64,
    pub start_time: i64,
    pub estimated_completion: Option<i64>,
    pub status: ProgressStatus,
}

impl Default for BackupProgress {
    /// A run that has not started work yet, stamped with the current time.
    fn default() -> (r: Self)
        ensures
            r.current_item@.len() == 0,
            r.items_completed == 0,
            r.total_items == 0,
            r.bytes_processed == 0,
            r.total_bytes == 0,
            r.estimated_completion is None,
            r.status == ProgressStatus::Preparing,
    {
        BackupProgress {
            current_item: String::new(),
            items_completed: 0,
            total_items: 0,
            bytes_processed: 0,
            total_bytes: 0,
            start_time: now_seconds(),
            estimated_completion: None,
            status: ProgressStatus::Preparing,
        }
    }
}

/// An archive found on disk. `created` is in seconds since the Unix epoch.
#[derive(Debug, Clone)]
pub struct ArchiveInfo {
    pub path: String,
    pub name: String,
    pub created: i64,
    pub size: u64,
    pub mode: BackupMode,
    pub encrypted: bool,
    pub description: String,
    pub items: Vec<String>,
}

/// One entry of an archive that may be restored.
#[derive(Debug, Clone)]
pub struct RestoreItem {
    pub name: String,
    pub original_path: String,
    pub restore_path: String,
    pub size: u64,
    pub selected: bool,
    pub conflicts: bool,
}

/// Progress of a restore run. Times are seconds since the Unix epoch.
#[derive(Debug, Clone)]
pub struct RestoreProgress {
    pub current_item: String,
    pub items_completed: usize,
    pub total_items: usize,
    pub bytes_processed: u64,
    pub total_bytes: u64,
    pub start_time: i64,
    pub status: ProgressStatus,
    pub conflicts_resolved: usize,
}

impl Default for RestoreProgress {
    /// A run that has not started work yet, stamped with the current time.
    fn default() -> (r: Self)
        ensures
            r.current_item@.len() == 0,
            r.items_completed == 0,
            r.total_items == 0,
            r.bytes_processed == 0,
            r.total_bytes == 0,
            r.status == ProgressStatus::Preparing,
            r.conflicts_resolved == 0,
    {
        RestoreProgress {
            current_item: String::new(),
            items_completed: 0,
            total_items: 0,
            bytes_processed: 0,
            total_bytes: 0,
            start_time: now_seconds(),
            status: ProgressStatus::Preparing,
            conflicts_resolved: 0,
        }
    }
}

/// What a check of the selected items found.
#[derive(Debug, Clone)]
pub struct ValidationResult {
    pub success: bool,
    pub errors: Vec<String>,
    pub warnings: Vec<String>,
    pub total_size: u64,
    pub missing_items: Vec<String>,
}

} // verus!
