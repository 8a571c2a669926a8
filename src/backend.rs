//! The execution supervisor's decisions: which backup program to run, the
//! command line and environment handed to it, how a finished run reduces to
//! an outcome, and what its output lines say about progress.
use vstd::prelude::*;
use crate::archives::{build_archive_list, classified, newest_first, ArchiveEntry};
use crate::listing::{listing_records, items_from_records, parse_archive_listing};
use crate::security::{lossy_string, lossy_text, texts, wipe_string, SecurePassword};
use crate::text::{decimal, owned, push_decimal, push_str, to_chars, seq_contains, contains_chars};
use crate::types::{ArchiveInfo, BackupMode, RestoreItem};

verus! {

/// Relies on std::path::Path::exists: whether the path names something on
/// disk right now. Nothing is promised about the answer.
#[verifier::external_body]
pub(crate) fn path_exists(p: &str) -> (r: bool) {
    std::path::Path::new(p).exists()
}

/// Relies on dirs::home_dir: the current user's home directory, if known.
/// It depends on the environment, so nothing is promised about the answer.
#[verifier::external_body]
fn home_dir_text() -> (r: Option<String>) {
    match dirs::home_dir() {
        Some(p) => Some(p.to_string_lossy().into_owned()),
        None => None,
    }
}

/// The program could not be located: a fatal configuration error.
#[derive(Debug, Clone, Copy, PartialEq, Eq, Structural)]
pub enum EngineError {
    ScriptNotFound,
}

/// The views of the name/value pairs of an environment.
pub open spec fn env_view(v: Seq<(String, String)>) -> Seq<(Seq<char>, Seq<char>)> {
    v.map_values(|p: (String, String)| (p.0@, p.1@))
}

/// A process to start: program, arguments, and the variables added to its
/// environment. Whoever starts the process wipes the environment as soon as
/// the process is spawned.
pub struct CommandPlan {
    pub program: String,
    pub args: Vec<String>,
    pub env: Vec<(String, String)>,
}

impl CommandPlan {
    /// Overwrites every environment value with zeros and empties the environment.
    pub fn wipe_environment(&mut self)
        ensures
            final(self).env@.len() == 0,
            final(self).program == old(self).program,
            final(self).args == old(self).args,
    {
        let n = self.env.len();
        let mut i: usize = 0;
        while i < n
            invariant
                n == self.env@.len(),
                i <= n,
                self.program == old(self).program,
                self.args == old(self).args,
            decreases n - i,
        {
            wipe_string(&mut self.env[i].1);
            i = i + 1;
        }
        self.env.clear();
    }
}

/// Where the backup program is looked for, in order of preference.
pub open spec fn engine_candidates() -> Seq<Seq<char>> {
    seq![
        "./backup-profile-secure.sh"@,
        "./backup-profile-enhanced.sh"@,
        "/home/dtaylor/GitHub/custom-tools/backup-profile-secure.sh"@,
        "/home/dtaylor/GitHub/custom-tools/backup-profile-enhanced.sh"@,
    ]
}

/// Where the program for a mode is looked for, in order of preference.
pub open spec fn mode_candidates(mode: BackupMode) -> Seq<Seq<char>> {
    match mode {
        BackupMode::Secure => seq![
            "./backup-profile-secure.sh"@,
            "/home/dtaylor/GitHub/custom-tools/backup-profile-secure.sh"@,
        ],
        BackupMode::Complete => seq![
            "./backup-profile-enhanced.sh"@,
            "/home/dtaylor/GitHub/custom-tools/backup-profile-enhanced.sh"@,
        ],
    }
}

/// `i` is the first index below `n` whose probe came back true.
pub open spec fn is_first_found(found: Seq<bool>, n: int, i: int) -> bool {
    &&& 0 <= i < n
    &&& i < found.len()
    &&& found[i]
    &&& forall|j: int| 0 <= j < i ==> !found[j]
}

pub open spec fn any_found(found: Seq<bool>, n: int) -> bool {
    exists|i: int| 0 <= i < n && i < found.len() && #[trigger] found[i]
}

/// The first candidate whose probe is true, as an index.
fn first_found(found: &Vec<bool>, n: usize) -> (r: Option<usize>)
    ensures
        match r {
            Some(i) => is_first_found(found@, n as int, i as int),
            None => !any_found(found@, n as int),
        },
{
    let mut i: usize = 0;
    while i < n && i < found.len()
        invariant
            i <= n,
            forall|j: int| 0 <= j < i ==> !found@[j],
        decreases n - i,
    {
        if found[i] {
            return Some(i);
        }
        i = i + 1;
    }
    None
}

/// Strings for a literal list.
fn owned_list(a: &str, b: &str) -> (r: Vec<String>)
    ensures
        texts(r@) == seq![a@, b@],
{
    let mut v: Vec<String> = Vec::new();
    v.push(owned(a));
    v.push(owned(b));
    assert(texts(v@) =~= seq![a@, b@]);
    v
}

/// Asks the disk about each candidate, in order.
fn probe_all(candidates: &Vec<String>) -> (r: Vec<bool>)
    ensures
        r@.len() == candidates@.len(),
{
    let mut found: Vec<bool> = Vec::new();
    let mut i: usize = 0;
    while i < candidates.len()
        invariant
            i <= candidates@.len(),
            found@.len() == i,
        decreases candidates.len() - i,
    {
        found.push(path_exists(candidates[i].as_str()));
        i = i + 1;
    }
    found
}

/// Runs the external backup and restore program.
pub struct BackupEngine {
    backup_lib_path: String,
}

impl BackupEngine {
    /// The path of the program this engine runs.
    pub closed spec fn spec_script(&self) -> Seq<char> {
        self.backup_lib_path@
    }

    pub fn script_path(&self) -> (r: &String)
        ensures
            r@ == self.spec_script(),
    {
        &self.backup_lib_path
    }

    /// The fixed search list for the backup program.
    pub fn script_candidates() -> (r: Vec<String>)
        ensures
            texts(r@) == engine_candidates(),
    {
        let mut v: Vec<String> = Vec::new();
        v.push(owned("./backup-profile-secure.sh"));
        v.push(owned("./backup-profile-enhanced.sh"));
        v.push(owned("/home/dtaylor/GitHub/custom-tools/backup-profile-secure.sh"));
        v.push(owned("/home/dtaylor/GitHub/custom-tools/backup-profile-enhanced.sh"));
        assert(texts(v@) =~= engine_candidates());
        v
    }

    /// The engine for the first candidate whose probe is true; with none,
    /// the configuration error. There is no fallback program.
    pub fn locate(candidates: &Vec<String>, found: &Vec<bool>) -> (r: Result<BackupEngine, EngineError>)
        ensures
            any_found(found@, candidates@.len() as int) <==> r is Ok,
            r is Err ==> r == Err::<BackupEngine, EngineError>(EngineError::ScriptNotFound),
            r is Ok ==> exists|i: int|
                is_first_found(found@, candidates@.len() as int, i) && (r->Ok_0).spec_script()
                    == #[trigger] candidates@[i]@,
            forall|i: int|
                is_first_found(found@, candidates@.len() as int, i) ==> r is Ok
                    && (r->Ok_0).spec_script() == candidates@[i]@,
    {
        match first_found(found, candidates.len()) {
            Some(i) => {
                proof {
                    assert forall|k: int| is_first_found(found@, candidates@.len() as int, k) implies k == i by {
                        if k < i {
                            assert(!found@[k]);
                        } else if k > i {
                            assert(!found@[i as int]);
                        }
                    }
                }
                let engine = BackupEngine { backup_lib_path: candidates[i].clone() };
                assert(engine.spec_script() == candidates@[i as int]@);
                assert(is_first_found(found@, candidates@.len() as int, i as int));
                Ok(engine)
            },
            None => Err(EngineError::ScriptNotFound),
        }
    }

    /// Looks on disk for the backup program along the fixed search list.
    pub fn new() -> (r: Result<BackupEngine, EngineError>)
        ensures
            r is Ok ==> engine_candidates().contains((r->Ok_0).spec_script()),
    {
        let candidates = BackupEngine::script_candidates();
        let found = probe_all(&candidates);
        let r = BackupEngine::locate(&candidates, &found);
        proof {
            if r is Ok {
                let i = choose|i: int|
                    is_first_found(found@, candidates@.len() as int, i) && (r->Ok_0).spec_script()
                        == #[trigger] candidates@[i]@;
                assert(texts(candidates@)[i] == candidates@[i]@);
                assert(engine_candidates()[i] == (r->Ok_0).spec_script());
            }
        }
        r
    }

    /// The program for a backup in `mode`: the first of the mode's own
    /// candidates whose probe is true, else the engine's program.
    pub fn script_for_mode(&self, mode: BackupMode, found: &Vec<bool>) -> (r: String)
        ensures
            forall|i: int| is_first_found(found@, 2, i) ==> r@ == mode_candidates(mode)[i],
            !any_found(found@, 2) ==> r@ == self.spec_script(),
    {
        let list = match mode {
            BackupMode::Secure => owned_list(
                "./backup-profile-secure.sh",
                "/home/dtaylor/GitHub/custom-tools/backup-profile-secure.sh",
            ),
            BackupMode::Complete => owned_list(
                "./backup-profile-enhanced.sh",
                "/home/dtaylor/GitHub/custom-tools/backup-profile-enhanced.sh",
            ),
        };
        assert(list@.len() == texts(list@).len());
        match first_found(found, 2) {
            Some(i) => {
                proof {
                    assert forall|k: int| is_first_found(found@, 2, k) implies k == i by {
                        if k < i {
                            assert(!found@[k]);
                        } else if k > i {
                            assert(!found@[i as int]);
                        }
                    }
                    assert(texts(list@)[i as int] == list@[i as int]@);
                }
                list[i].clone()
            },
            None => self.backup_lib_path.clone(),
        }
    }

    /// Looks on disk for the program of `mode`; falls back to the engine's program.
    pub fn choose_script(&self, mode: BackupMode) -> (r: String)
        ensures
            mode_candidates(mode).contains(r@) || r@ == self.spec_script(),
    {
        let list = match mode {
            BackupMode::Secure => owned_list(
                "./backup-profile-secure.sh",
                "/home/dtaylor/GitHub/custom-tools/backup-profile-secure.sh",
            ),
            BackupMode::Complete => owned_list(
                "./backup-profile-enhanced.sh",
                "/home/dtaylor/GitHub/custom-tools/backup-profile-enhanced.sh",
            ),
        };
        let found = probe_all(&list);
        match first_found(&found, 2) {
            Some(i) => {
                let r = self.script_for_mode(mode, &found);
                assert(mode_candidates(mode)[i as int] == r@);
                r
            },
            None => self.script_for_mode(mode, &found),
        }
    }
}


/// The arguments that select items in a restore: `--item name` for each.
pub open spec fn item_args(names: Seq<Seq<char>>) -> Seq<Seq<char>>
    decreases names.len(),
{
    if names.len() == 0 {
        seq![]
    } else {
        item_args(names.drop_last()) + seq!["--item"@, names.last()]
    }
}

pub open spec fn decrypt_arg(decrypt: bool) -> Seq<Seq<char>> {
    if decrypt {
        seq!["--decrypt"@]
    } else {
        seq![]
    }
}

/// The variable that hands a secret to the process, present only when a secret is given.
pub open spec fn secret_env(var: Seq<char>, secret: Option<Seq<u8>>) -> Seq<(Seq<char>, Seq<char>)> {
    match secret {
        Some(p) => seq![(var, lossy_text(p))],
        None => seq![],
    }
}

pub open spec fn secret_of(p: Option<&SecurePassword>) -> Option<Seq<u8>> {
    match p {
        Some(s) => Some(s@),
        None => None,
    }
}

/// The environment of a backup: the output directory (`.` by default) and
/// the request for encryption when a secret was given.
pub open spec fn backup_env(encrypt: bool, output: Option<Seq<char>>) -> Seq<(Seq<char>, Seq<char>)> {
    seq![
        ("BACKUP_DIR"@, match output {
            Some(o) => o,
            None => "."@,
        }),
    ] + if encrypt {
        seq![("BACKUP_ENCRYPT"@, "yes"@)]
    } else {
        seq![]
    }
}

pub open spec fn restore_item_names(items: Seq<&RestoreItem>) -> Seq<Seq<char>> {
    items.map_values(|x: &RestoreItem| x.name@)
}

/// Pushes a name/value pair built from two literals or slices.
fn push_pair(env: &mut Vec<(String, String)>, name: &str, value: String)
    ensures
        env_view(final(env)@) == env_view(old(env)@).push((name@, value@)),
{
    let ghost before = env_view(env@);
    env.push((owned(name), value));
    assert(env_view(env@) =~= before.push((name@, value@)));
}

fn push_text(args: &mut Vec<String>, value: String)
    ensures
        texts(final(args)@) == texts(old(args)@).push(value@),
{
    let ghost before = texts(args@);
    args.push(value);
    assert(texts(args@) =~= before.push(value@));
}

/// The secret as the text handed to the process.
fn secret_text(p: &SecurePassword) -> (r: String)
    ensures
        r@ == lossy_text(p@),
{
    lossy_string(p.as_bytes())
}

/// The command of a backup: `bash <script>`, with the output directory and,
/// when a secret was given, the request for encryption in its environment.
pub fn backup_plan(script: &String, password: Option<&SecurePassword>, output_path: Option<&String>) -> (r: CommandPlan)
    ensures
        r.program@ == "bash"@,
        texts(r.args@) == seq![script@],
        env_view(r.env@) == backup_env(
            password is Some,
            match output_path {
                Some(o) => Some(o@),
                None => None,
            },
        ),
{
    let mut args: Vec<String> = Vec::new();
    push_text(&mut args, script.clone());
    assert(texts(args@) =~= seq![script@]);
    let mut env: Vec<(String, String)> = Vec::new();
    let dir = match output_path {
        Some(o) => o.clone(),
        None => owned("."),
    };
    push_pair(&mut env, "BACKUP_DIR", dir);
    if password.is_some() {
        push_pair(&mut env, "BACKUP_ENCRYPT", owned("yes"));
    }
    assert(env_view(env@) =~= backup_env(
        password is Some,
        match output_path {
            Some(o) => Some(o@),
            None => None,
        },
    ));
    CommandPlan { program: owned("bash"), args, env }
}

impl BackupEngine {
    /// The command of a restore: `bash <script> restore_backup <archive>`,
    /// then `--decrypt` when a secret was given, then `--item <name>` for
    /// each item. The secret goes in `RESTORE_PASSWORD`.
    pub fn start_restore(
        &self,
        archive: &ArchiveInfo,
        items: &Vec<&RestoreItem>,
        password: Option<&SecurePassword>,
    ) -> (r: CommandPlan)
        ensures
            r.program@ == "bash"@,
            texts(r.args@) == seq![self.spec_script(), "restore_backup"@, archive.path@] + decrypt_arg(
                password is Some,
            ) + item_args(restore_item_names(items@)),
            env_view(r.env@) == secret_env("RESTORE_PASSWORD"@, secret_of(password)),
    {
        let mut args: Vec<String> = Vec::new();
        push_text(&mut args, self.backup_lib_path.clone());
        push_text(&mut args, owned("restore_backup"));
        push_text(&mut args, archive.path.clone());
        if password.is_some() {
            push_text(&mut args, owned("--decrypt"));
        }
        let ghost head = texts(args@);
        assert(head =~= seq![self.spec_script(), "restore_backup"@, archive.path@] + decrypt_arg(password is Some));
        let mut i: usize = 0;
        while i < items.len()
            invariant
                i <= items@.len(),
                texts(args@) == head + item_args(restore_item_names(items@.subrange(0, i as int))),
            decreases items.len() - i,
        {
            push_text(&mut args, owned("--item"));
            push_text(&mut args, items[i].name.clone());
            let ghost names = restore_item_names(items@.subrange(0, i + 1));
            assert(names.drop_last() =~= restore_item_names(items@.subrange(0, i as int)));
            assert(names.last() == items@[i as int].name@);
            assert(texts(args@) =~= head + item_args(names));
            i = i + 1;
        }
        assert(items@.subrange(0, i as int) =~= items@);
        let mut env: Vec<(String, String)> = Vec::new();
        match password {
            Some(p) => {
                push_pair(&mut env, "RESTORE_PASSWORD", secret_text(p));
            },
            None => {},
        }
        assert(env_view(env@) =~= secret_env("RESTORE_PASSWORD"@, secret_of(password)));
        CommandPlan { program: owned("bash"), args, env }
    }

    /// The command that lists an archive: `bash <script> list_archive
    /// <archive>`, then `--decrypt` when a secret was given. The secret goes
    /// in `LIST_PASSWORD`.
    pub fn list_archive_contents(&self, archive: &ArchiveInfo, password: Option<&SecurePassword>) -> (r: CommandPlan)
        ensures
            r.program@ == "bash"@,
            texts(r.args@) == seq![self.spec_script(), "list_archive"@, archive.path@] + decrypt_arg(
                password is Some,
            ),
            env_view(r.env@) == secret_env("LIST_PASSWORD"@, secret_of(password)),
    {
        let mut args: Vec<String> = Vec::new();
        push_text(&mut args, self.backup_lib_path.clone());
        push_text(&mut args, owned("list_archive"));
        push_text(&mut args, archive.path.clone());
        if password.is_some() {
            push_text(&mut args, owned("--decrypt"));
        }
        assert(texts(args@) =~= seq![self.spec_script(), "list_archive"@, archive.path@] + decrypt_arg(password is Some));
        let mut env: Vec<(String, String)> = Vec::new();
        match password {
            Some(p) => {
                push_pair(&mut env, "LIST_PASSWORD", secret_text(p));
            },
            None => {},
        }
        assert(env_view(env@) =~= secret_env("LIST_PASSWORD"@, secret_of(password)));
        CommandPlan { program: owned("bash"), args, env }
    }
}

/// How many of the last lines of standard error a failure keeps.
pub const STDERR_TAIL: usize = 20;

/// How a run of the external program ended. There is no retry: a failure is
/// handed to the wizard as it is.
#[derive(Debug)]
pub enum Outcome {
    Success,
    Failure { exit_code: Option<i32>, stderr: Vec<String> },
}

pub open spec fn tail_start(len: int) -> int {
    if len > STDERR_TAIL { len - STDERR_TAIL } else { 0 }
}

/// Reduces a finished run to its outcome: exit code 0 is success; any other
/// code, or none, is a failure that keeps the last lines of standard error.
pub fn outcome_of(exit_code: Option<i32>, stderr_lines: &Vec<String>) -> (r: Outcome)
    ensures
        exit_code == Some(0i32) <==> r is Success,
        r is Failure ==> r->exit_code == exit_code && texts(r->stderr@) == texts(stderr_lines@).subrange(
            tail_start(stderr_lines@.len() as int),
            stderr_lines@.len() as int,
        ),
{
    match exit_code {
        Some(0) => {
            return Outcome::Success;
        },
        _ => {},
    }
    let n = stderr_lines.len();
    let start = if n > STDERR_TAIL { n - STDERR_TAIL } else { 0 };
    let mut kept: Vec<String> = Vec::new();
    let mut i: usize = start;
    while i < n
        invariant
            n == stderr_lines@.len(),
            start <= i <= n,
            start == tail_start(n as int),
            texts(kept@) == texts(stderr_lines@).subrange(start as int, i as int),
        decreases n - i,
    {
        push_text(&mut kept, stderr_lines[i].clone());
        assert(texts(stderr_lines@).subrange(start as int, i + 1) =~= texts(stderr_lines@).subrange(start as int, i as int).push(stderr_lines@[i as int]@));
        i = i + 1;
    }
    Outcome::Failure { exit_code, stderr: kept }
}

/// A signed number in decimal.
pub open spec fn int_text(n: int) -> Seq<char> {
    if n < 0 {
        seq!['-'] + decimal((-n) as nat)
    } else {
        decimal(n as nat)
    }
}

/// An optional exit code as `Some(<code>)` or `None`.
pub open spec fn code_text(c: Option<i32>) -> Seq<char> {
    match c {
        Some(n) => "Some("@ + int_text(n as int) + ")"@,
        None => "None"@,
    }
}

/// Each line on a line of its own, after a line break.
pub open spec fn joined_lines(lines: Seq<Seq<char>>) -> Seq<char>
    decreases lines.len(),
{
    if lines.len() == 0 {
        seq![]
    } else {
        joined_lines(lines.drop_last()) + seq!['\n'] + lines.last()
    }
}

/// The message of a failed run: the exit code, then the kept lines of
/// standard error.
pub open spec fn failure_message(label: Seq<char>, code: Option<i32>, stderr: Seq<Seq<char>>) -> Seq<char> {
    label + " process failed with exit code: "@ + code_text(code) + joined_lines(stderr)
}

/// Builds the message of a failed run of the `label` process.
pub fn failure_text(label: &str, exit_code: Option<i32>, stderr: &Vec<String>) -> (r: String)
    ensures
        r@ == failure_message(label@, exit_code, texts(stderr@)),
{
    let mut s = owned(label);
    push_str(&mut s, " process failed with exit code: ");
    push_code(&mut s, exit_code);
    let ghost head = s@;
    assert(head =~= label@ + " process failed with exit code: "@ + code_text(exit_code));
    let mut i: usize = 0;
    while i < stderr.len()
        invariant
            i <= stderr@.len(),
            s@ == head + joined_lines(texts(stderr@).subrange(0, i as int)),
        decreases stderr.len() - i,
    {
        crate::text::push_char(&mut s, '\n');
        push_str(&mut s, stderr[i].as_str());
        let ghost lines = texts(stderr@).subrange(0, i + 1);
        assert(lines.drop_last() =~= texts(stderr@).subrange(0, i as int));
        assert(s@ =~= head + joined_lines(lines));
        i = i + 1;
    }
    assert(texts(stderr@).subrange(0, i as int) =~= texts(stderr@));
    s
}

/// The home directory, or `/` when it is not known.
pub fn home_or_root() -> (r: String) {
    match home_dir_text() {
        Some(h) => h,
        None => owned("/"),
    }
}

/// The message of a failed listing: the exit code, then the text of standard error.
pub open spec fn listing_failure(code: Option<i32>, stderr: Seq<u8>) -> Seq<char> {
    "Failed to list archive contents (exit code: "@ + code_text(code) + "): "@ + lossy_text(stderr)
}

/// Appends an optional exit code as `Some(<code>)` or `None`.
fn push_code(s: &mut String, exit_code: Option<i32>)
    ensures
        final(s)@ == old(s)@ + code_text(exit_code),
{
    match exit_code {
        Some(n) => {
            push_str(s, "Some(");
            if n < 0 {
                crate::text::push_char(s, '-');
                let m: u64 = (0i64 - n as i64) as u64;
                push_decimal(s, m);
            } else {
                push_decimal(s, n as u64);
            }
            push_str(s, ")");
        },
        None => {
            push_str(s, "None");
        },
    }
}

/// What a listing run gave: unless it exited with code 0, the error with the
/// exit code and the text of standard error; otherwise the restore candidates
/// read from standard output.
pub fn listing_result(exit_code: Option<i32>, stdout: &[u8], stderr: &[u8], home: &str) -> (r: Result<Vec<RestoreItem>, String>)
    ensures
        exit_code != Some(0i32) ==> r is Err && r->Err_0@ == listing_failure(exit_code, stderr@),
        exit_code == Some(0i32) ==> r is Ok && items_from_records(r->Ok_0@, listing_records(lossy_text(stdout@)), home@),
{
    let ok = match exit_code {
        Some(0) => true,
        _ => false,
    };
    if !ok {
        let mut msg = owned("Failed to list archive contents (exit code: ");
        push_code(&mut msg, exit_code);
        push_str(&mut msg, "): ");
        let text = lossy_string(stderr);
        push_str(&mut msg, text.as_str());
        return Err(msg);
    }
    let text = lossy_string(stdout);
    Ok(parse_archive_listing(&to_chars(text.as_str()), &to_chars(home)))
}

/// Records which restore targets already exist: candidate `i` conflicts
/// exactly when `exists[i]` is true. Nothing else changes.
pub fn mark_conflicts(items: &mut Vec<RestoreItem>, exists: &Vec<bool>)
    ensures
        final(items)@.len() == old(items)@.len(),
        forall|i: int| 0 <= i < final(items)@.len() ==> #[trigger] final(items)@[i] == (RestoreItem {
            conflicts: i < exists@.len() && exists@[i],
            ..old(items)@[i]
        }),
{
    let n = items.len();
    let mut i: usize = 0;
    while i < n
        invariant
            n == items@.len(),
            n == old(items)@.len(),
            i <= n,
            forall|j: int| 0 <= j < i ==> #[trigger] items@[j] == (RestoreItem {
                conflicts: j < exists@.len() && exists@[j],
                ..old(items)@[j]
            }),
            forall|j: int| i <= j < n ==> #[trigger] items@[j] == old(items)@[j],
        decreases n - i,
    {
        let flag = i < exists.len() && exists[i];
        items[i].conflicts = flag;
        i = i + 1;
    }
}

/// Asks the disk, once, whether each restore target already exists and
/// records the answers. Only the conflict flags change.
pub fn probe_conflicts(items: &mut Vec<RestoreItem>)
    ensures
        final(items)@.len() == old(items)@.len(),
        forall|i: int| 0 <= i < final(items)@.len() ==> #[trigger] final(items)@[i] == (RestoreItem {
            conflicts: final(items)@[i].conflicts,
            ..old(items)@[i]
        }),
{
    let mut found: Vec<bool> = Vec::new();
    let mut i: usize = 0;
    while i < items.len()
        invariant
            i <= items@.len(),
        decreases items.len() - i,
    {
        found.push(path_exists(items[i].restore_path.as_str()));
        i = i + 1;
    }
    mark_conflicts(items, &found);
}

/// Whether an output line reports progress: it holds `marker`.
pub fn reports_progress(line: &str, marker: &str) -> (r: bool)
    ensures
        r == seq_contains(line@, marker@),
{
    contains_chars(&to_chars(line), &to_chars(marker))
}

impl BackupEngine {
    /// The command of a backup in `mode`: the mode's own program if one is
    /// found on disk, else the engine's, with the environment of `backup_plan`.
    pub fn start_backup(
        &self,
        mode: BackupMode,
        password: Option<&SecurePassword>,
        output_path: Option<&String>,
    ) -> (r: CommandPlan)
        ensures
            r.program@ == "bash"@,
            r.args@.len() == 1,
            mode_candidates(mode).contains(r.args@[0]@) || r.args@[0]@ == self.spec_script(),
            env_view(r.env@) == backup_env(
                password is Some,
                match output_path {
                    Some(o) => Some(o@),
                    None => None,
                },
            ),
    {
        let script = self.choose_script(mode);
        let plan = backup_plan(&script, password, output_path);
        assert(texts(plan.args@).len() == plan.args@.len());
        assert(texts(plan.args@)[0] == plan.args@[0]@);
        plan
    }

    /// The archives among the files found, newest first.
    pub fn list_archives(&self, entries: &Vec<ArchiveEntry>) -> (r: Vec<ArchiveInfo>)
        ensures
            newest_first(r@),
            exists|c: Seq<ArchiveInfo>| classified(entries@, c) && #[trigger] c.to_multiset() == r@.to_multiset(),
    {
        build_archive_list(entries)
    }

    /// Tools the backup program cannot work without.
    pub fn required_tools() -> (r: Vec<String>)
        ensures
            texts(r@) == seq!["tar"@, "gzip"@, "sha256sum"@, "find"@],
    {
        let mut v: Vec<String> = Vec::new();
        push_text(&mut v, owned("tar"));
        push_text(&mut v, owned("gzip"));
        push_text(&mut v, owned("sha256sum"));
        push_text(&mut v, owned("find"));
        assert(texts(v@) =~= seq!["tar"@, "gzip"@, "sha256sum"@, "find"@]);
        v
    }

    /// Tools whose absence only disables some features.
    pub fn optional_tools() -> (r: Vec<String>)
        ensures
            texts(r@) == seq!["gpg"@, "pv"@, "xz"@],
    {
        let mut v: Vec<String> = Vec::new();
        push_text(&mut v, owned("gpg"));
        push_text(&mut v, owned("pv"));
        push_text(&mut v, owned("xz"));
        assert(texts(v@) =~= seq!["gpg"@, "pv"@, "xz"@]);
        v
    }

    /// One message per required tool whose probe came back false, in the
    /// order of `required_tools`. A missing probe counts as absent.
    pub fn validate_tools(&self, available: &Vec<bool>) -> (r: Vec<String>)
        ensures
            texts(r@) == missing_tool_messages(seq!["tar"@, "gzip"@, "sha256sum"@, "find"@], available@),
    {
        let tools = BackupEngine::required_tools();
        let mut out: Vec<String> = Vec::new();
        let mut i: usize = 0;
        while i < tools.len()
            invariant
                i <= tools@.len(),
                texts(tools@) == seq!["tar"@, "gzip"@, "sha256sum"@, "find"@],
                texts(out@) == missing_tool_messages(texts(tools@).subrange(0, i as int), available@),
            decreases tools.len() - i,
        {
            let ghost names = texts(tools@).subrange(0, i + 1);
            assert(names.drop_last() =~= texts(tools@).subrange(0, i as int));
            assert(names.last() == tools@[i as int]@);
            let present = i < available.len() && available[i];
            if !present {
                let mut msg = owned("Required tool missing: ");
                push_str(&mut msg, tools[i].as_str());
                push_text(&mut out, msg);
            }
            i = i + 1;
        }
        assert(texts(tools@).subrange(0, i as int) =~= texts(tools@));
        out
    }
}

/// The messages for the tools of `names` whose probe is not true.
pub open spec fn missing_tool_messages(names: Seq<Seq<char>>, available: Seq<bool>) -> Seq<Seq<char>>
    decreases names.len(),
{
    if names.len() == 0 {
        seq![]
    } else {
        let i = names.len() - 1;
        missing_tool_messages(names.drop_last(), available) + if i < available.len() && available[i] {
            seq![]
        } else {
            seq!["Required tool missing: "@ + names.last()]
        }
    }
}

} // verus!
