//! The backup configuration document, as the wizard reads it: named modes
//! with categories of paths, and per-application entries with a sensitivity
//! level. Maps of the document are held as ordered name/value lists, in the
//! order the document loader produced them; `BackupConfig::wf` states that
//! their names are unique, and `has_unique_names` checks it.
use vstd::prelude::*;
use crate::security::texts;
use crate::text::{contains_chars, owned, push_str, seq_contains, to_chars};
use crate::types::{BackupItem, BackupMode, SecurityLevel};

verus! {

/// The paths of one backup mode, by category, and what it leaves out.
pub struct ModeConfig {
    pub description: String,
    pub excludes_sensitive: bool,
    pub security_warning: Option<String>,
    pub categories: Vec<(String, Vec<String>)>,
    pub exclusions: Vec<String>,
}

/// One application's paths and how sensitive they are.
pub struct ApplicationConfig {
    pub paths: Vec<String>,
    pub description: String,
    pub security_level: String,
    pub category: String,
    pub warning: Option<String>,
    pub exclusions: Option<Vec<String>>,
}

/// Applications grouped by category.
pub struct ModernConfigurations {
    pub description: String,
    pub categories: Vec<(String, Vec<(String, ApplicationConfig)>)>,
}

/// How a kind of data should be stored. `requires_encryption` is kept as
/// the document gives it: a flag or a text.
pub struct SecurityClassification {
    pub description: String,
    pub requires_encryption: String,
    pub storage_warning: String,
    pub examples: Vec<String>,
}

pub struct BackupStrategy {
    pub description: String,
    pub mode: String,
    pub frequency: String,
    pub retention: String,
    pub encryption: Option<bool>,
    pub storage: Option<String>,
}

pub struct ValidationConfig {
    pub required_tools: Vec<String>,
    pub optional_tools: Vec<String>,
    pub minimum_disk_space: String,
    pub supported_compression: Vec<String>,
    pub supported_encryption: Vec<String>,
}

pub struct BackupConfig {
    pub version: String,
    pub description: String,
    pub last_updated: String,
    pub backup_modes: Vec<(String, ModeConfig)>,
    pub modern_configurations: ModernConfigurations,
    pub security_classifications: Vec<(String, SecurityClassification)>,
    pub backup_strategies: Vec<(String, BackupStrategy)>,
    pub validation: ValidationConfig,
}

/// What a candidate item says: name, path, category, description,
/// sensitivity and warning.
pub type ItemView = (Seq<char>, Seq<char>, Seq<char>, Seq<char>, SecurityLevel, Option<Seq<char>>);

pub open spec fn item_view(i: BackupItem) -> ItemView {
    (
        i.name@,
        i.path@,
        i.category@,
        i.description@,
        i.security_level,
        match i.warning {
            Some(w) => Some(w@),
            None => None,
        },
    )
}

/// Candidate items as loaded: not selected, not yet probed on disk.
pub open spec fn fresh(items: Seq<BackupItem>) -> bool {
    forall|i: int| 0 <= i < items.len() ==> !(#[trigger] items[i]).selected && !items[i].exists && items[i].size is None
}

/// Paths holding keys or cloud credentials are high; tool credentials are medium.
pub open spec fn path_level(p: Seq<char>) -> SecurityLevel {
    if seq_contains(p, ".ssh"@) || seq_contains(p, ".gnupg"@) || seq_contains(p, ".aws"@) || seq_contains(
        p,
        ".kube"@,
    ) || seq_contains(p, ".docker/config.json"@) {
        SecurityLevel::High
    } else if seq_contains(p, ".config/gh"@) || seq_contains(p, ".config/docker"@) || seq_contains(
        p,
        ".git-credentials"@,
    ) {
        SecurityLevel::Medium
    } else {
        SecurityLevel::Low
    }
}

/// The warning shown for a sensitive path, if any.
pub open spec fn path_warning(p: Seq<char>) -> Option<Seq<char>> {
    if seq_contains(p, ".ssh"@) {
        Some("Contains SSH private keys and authentication data"@)
    } else if seq_contains(p, ".gnupg"@) {
        Some("Contains GPG private keys and trust database"@)
    } else if seq_contains(p, ".aws"@) {
        Some("Contains AWS credentials and configuration"@)
    } else if seq_contains(p, ".kube"@) {
        Some("Contains Kubernetes cluster credentials"@)
    } else if seq_contains(p, "git-credentials"@) {
        Some("Contains Git repository credentials"@)
    } else {
        None
    }
}

/// Secure mode leaves out paths of high sensitivity.
pub open spec fn path_skipped(mode: BackupMode, p: Seq<char>) -> bool {
    mode == BackupMode::Secure && path_level(p) == SecurityLevel::High
}

/// The items of one mode category: one per path that the mode keeps.
pub open spec fn category_items(mode: BackupMode, category: Seq<char>, paths: Seq<Seq<char>>) -> Seq<ItemView>
    decreases paths.len(),
{
    if paths.len() == 0 {
        seq![]
    } else if path_skipped(mode, paths.last()) {
        category_items(mode, category, paths.drop_last())
    } else {
        category_items(mode, category, paths.drop_last()).push(
            (
                paths.last(),
                paths.last(),
                category,
                "Backup item from "@ + category + " category"@,
                path_level(paths.last()),
                path_warning(paths.last()),
            ),
        )
    }
}

pub open spec fn mode_items(mode: BackupMode, cats: Seq<(String, Vec<String>)>) -> Seq<ItemView>
    decreases cats.len(),
{
    if cats.len() == 0 {
        seq![]
    } else {
        mode_items(mode, cats.drop_last()) + category_items(mode, cats.last().0@, texts(cats.last().1@))
    }
}

/// In secure mode no item is of high sensitivity.
pub open spec fn secure_safe(mode: BackupMode, items: Seq<BackupItem>) -> bool {
    mode == BackupMode::Secure ==> forall|i: int|
        0 <= i < items.len() ==> (#[trigger] items[i]).security_level != SecurityLevel::High
}

/// The names of a name/value list are pairwise different.
pub open spec fn unique_names<T>(v: Seq<(String, T)>) -> bool {
    forall|i: int, j: int| 0 <= i < j < v.len() ==> v[i].0@ != v[j].0@
}

/// The sensitivity a level name stands for.
pub open spec fn level_of_name(l: Seq<char>) -> SecurityLevel {
    if l == "high"@ {
        SecurityLevel::High
    } else if l == "medium"@ {
        SecurityLevel::Medium
    } else {
        SecurityLevel::Low
    }
}

/// The items of one application: one per path, named `app (path)`.
pub open spec fn app_items(app: Seq<char>, c: ApplicationConfig, paths: Seq<Seq<char>>) -> Seq<ItemView>
    decreases paths.len(),
{
    if paths.len() == 0 {
        seq![]
    } else {
        app_items(app, c, paths.drop_last()).push(
            (
                app + " ("@ + paths.last() + ")"@,
                paths.last(),
                c.category@,
                c.description@,
                level_of_name(c.security_level@),
                match c.warning {
                    Some(w) => Some(w@),
                    None => None,
                },
            ),
        )
    }
}

/// Secure mode leaves out applications of high sensitivity.
pub open spec fn app_skipped(mode: BackupMode, c: ApplicationConfig) -> bool {
    mode == BackupMode::Secure && c.security_level@ == "high"@
}

pub open spec fn group_items(mode: BackupMode, apps: Seq<(String, ApplicationConfig)>) -> Seq<ItemView>
    decreases apps.len(),
{
    if apps.len() == 0 {
        seq![]
    } else {
        group_items(mode, apps.drop_last()) + if app_skipped(mode, apps.last().1) {
            seq![]
        } else {
            app_items(apps.last().0@, apps.last().1, texts(apps.last().1.paths@))
        }
    }
}

pub open spec fn modern_items(mode: BackupMode, groups: Seq<(String, Vec<(String, ApplicationConfig)>)>) -> Seq<ItemView>
    decreases groups.len(),
{
    if groups.len() == 0 {
        seq![]
    } else {
        modern_items(mode, groups.drop_last()) + group_items(mode, groups.last().1@)
    }
}

/// Index of the first mode entry named `name`, or the number of entries.
pub open spec fn mode_index(modes: Seq<(String, ModeConfig)>, name: Seq<char>, from: int) -> int
    decreases modes.len() - from,
{
    if from < 0 || from >= modes.len() {
        modes.len() as int
    } else if modes[from].0@ == name {
        from
    } else {
        mode_index(modes, name, from + 1)
    }
}

fn same_seq(a: &Vec<char>, b: &Vec<char>) -> (r: bool)
    ensures
        r == (a@ == b@),
{
    if a.len() != b.len() {
        return false;
    }
    let mut i: usize = 0;
    while i < a.len()
        invariant
            a@.len() == b@.len(),
            i <= a@.len(),
            forall|j: int| 0 <= j < i ==> a@[j] == b@[j],
        decreases a.len() - i,
    {
        if a[i] != b[i] {
            return false;
        }
        i = i + 1;
    }
    assert(a@ =~= b@);
    true
}

fn find_mode(modes: &Vec<(String, ModeConfig)>, name: &str) -> (r: usize)
    ensures
        r == mode_index(modes@, name@, 0),
{
    let wanted = to_chars(name);
    let mut i: usize = 0;
    while i < modes.len()
        invariant
            i <= modes@.len(),
            wanted@ == name@,
            mode_index(modes@, name@, 0) == mode_index(modes@, name@, i as int),
        decreases modes.len() - i,
    {
        if same_seq(&to_chars(modes[i].0.as_str()), &wanted) {
            return i;
        }
        i = i + 1;
    }
    modes.len()
}

/// The sensitivity of a path from its text.
pub fn determine_security_level(path: &str) -> (r: SecurityLevel)
    ensures
        r == path_level(path@),
{
    let p = to_chars(path);
    if contains_chars(&p, &to_chars(".ssh")) || contains_chars(&p, &to_chars(".gnupg"))
        || contains_chars(&p, &to_chars(".aws")) || contains_chars(&p, &to_chars(".kube"))
        || contains_chars(&p, &to_chars(".docker/config.json")) {
        SecurityLevel::High
    } else if contains_chars(&p, &to_chars(".config/gh")) || contains_chars(&p, &to_chars(".config/docker"))
        || contains_chars(&p, &to_chars(".git-credentials")) {
        SecurityLevel::Medium
    } else {
        SecurityLevel::Low
    }
}

/// The warning for a sensitive path, if any.
pub fn get_security_warning(path: &str) -> (r: Option<String>)
    ensures
        match r {
            Some(w) => path_warning(path@) == Some(w@),
            None => path_warning(path@) is None,
        },
{
    let p = to_chars(path);
    if contains_chars(&p, &to_chars(".ssh")) {
        Some(owned("Contains SSH private keys and authentication data"))
    } else if contains_chars(&p, &to_chars(".gnupg")) {
        Some(owned("Contains GPG private keys and trust database"))
    } else if contains_chars(&p, &to_chars(".aws")) {
        Some(owned("Contains AWS credentials and configuration"))
    } else if contains_chars(&p, &to_chars(".kube")) {
        Some(owned("Contains Kubernetes cluster credentials"))
    } else if contains_chars(&p, &to_chars("git-credentials")) {
        Some(owned("Contains Git repository credentials"))
    } else {
        None
    }
}

fn level_from_name(l: &String) -> (r: SecurityLevel)
    ensures
        r == level_of_name(l@),
{
    let c = to_chars(l.as_str());
    if same_seq(&c, &to_chars("high")) {
        SecurityLevel::High
    } else if same_seq(&c, &to_chars("medium")) {
        SecurityLevel::Medium
    } else {
        SecurityLevel::Low
    }
}

fn copy_warning(w: &Option<String>) -> (r: Option<String>)
    ensures
        match r {
            Some(x) => w is Some && x@ == w->0@,
            None => w is None,
        },
{
    match w {
        Some(x) => Some(x.clone()),
        None => None,
    }
}

fn push_item(out: &mut Vec<BackupItem>, item: BackupItem, mode: BackupMode)
    requires
        !item.selected && !item.exists && item.size is None,
        mode == BackupMode::Secure ==> item.security_level != SecurityLevel::High,
        fresh(old(out)@),
        secure_safe(mode, old(out)@),
    ensures
        fresh(final(out)@),
        secure_safe(mode, final(out)@),
        final(out)@.map_values(|i: BackupItem| item_view(i)) == old(out)@.map_values(|i: BackupItem| item_view(i)).push(
            item_view(item),
        ),
{
    let ghost before = out@.map_values(|i: BackupItem| item_view(i));
    out.push(item);
    assert(out@.map_values(|i: BackupItem| item_view(i)) =~= before.push(item_view(item)));
}

impl BackupConfig {
    /// What the candidate items of `mode` say, in order.
    pub open spec fn mode_item_views(&self, mode: BackupMode) -> Seq<ItemView> {
        (if mode_index(self.backup_modes@, mode.spec_name(), 0) < self.backup_modes@.len() {
            mode_items(mode, self.backup_modes@[mode_index(self.backup_modes@, mode.spec_name(), 0)].1.categories@)
        } else {
            seq![]
        }) + modern_items(mode, self.modern_configurations.categories@)
    }

    /// The candidate items of a mode: first those of the mode's categories,
    /// then those of the applications, leaving out applications of high
    /// sensitivity in secure mode. None is selected or probed yet.
    pub fn get_items_for_mode(&self, mode: &BackupMode) -> (r: Vec<BackupItem>)
        ensures
            fresh(r@),
            secure_safe(*mode, r@),
            r@.map_values(|i: BackupItem| item_view(i)) == self.mode_item_views(*mode),
    {
        let mut items: Vec<BackupItem> = Vec::new();
        let m = find_mode(&self.backup_modes, mode.as_str());
        if m < self.backup_modes.len() {
            let cats = &self.backup_modes[m].1.categories;
            let mut c: usize = 0;
            while c < cats.len()
                invariant
                    c <= cats@.len(),
                    fresh(items@),
                secure_safe(*mode, items@),
                    items@.map_values(|i: BackupItem| item_view(i)) == mode_items(*mode, cats@.subrange(0, c as int)),
                decreases cats.len() - c,
            {
                let category = &cats[c].0;
                let paths = &cats[c].1;
                let ghost base = mode_items(*mode, cats@.subrange(0, c as int));
                let mut k: usize = 0;
                while k < paths.len()
                    invariant
                        k <= paths@.len(),
                        fresh(items@),
                secure_safe(*mode, items@),
                        items@.map_values(|i: BackupItem| item_view(i)) == base + category_items(
                            *mode,
                            category@,
                            texts(paths@).subrange(0, k as int),
                        ),
                    decreases paths.len() - k,
                {
                    let path = &paths[k];
                    let level = determine_security_level(path.as_str());
                    let ghost ps = texts(paths@).subrange(0, k + 1);
                    assert(ps.drop_last() =~= texts(paths@).subrange(0, k as int));
                    assert(ps.last() == paths@[k as int]@);
                    if !(*mode == BackupMode::Secure && level == SecurityLevel::High) {
                        let mut description = owned("Backup item from ");
                        push_str(&mut description, category.as_str());
                        push_str(&mut description, " category");
                        let item = BackupItem {
                            name: path.clone(),
                            path: path.clone(),
                            category: category.clone(),
                            description,
                            security_level: level,
                            warning: get_security_warning(path.as_str()),
                            selected: false,
                            exists: false,
                            size: None,
                        };
                        push_item(&mut items, item, *mode);
                    }
                    assert(items@.map_values(|i: BackupItem| item_view(i)) =~= base + category_items(*mode, category@, ps));
                    k = k + 1;
                }
                assert(texts(paths@).subrange(0, k as int) =~= texts(paths@));
                assert(cats@.subrange(0, c + 1).drop_last() =~= cats@.subrange(0, c as int));
                c = c + 1;
            }
            assert(cats@.subrange(0, c as int) =~= cats@);
        }
        let ghost first = items@.map_values(|i: BackupItem| item_view(i));
        let groups = &self.modern_configurations.categories;
        let mut g: usize = 0;
        while g < groups.len()
            invariant
                g <= groups@.len(),
                fresh(items@),
                secure_safe(*mode, items@),
                items@.map_values(|i: BackupItem| item_view(i)) == first + modern_items(*mode, groups@.subrange(0, g as int)),
            decreases groups.len() - g,
        {
            let apps = &groups[g].1;
            let ghost base_g = first + modern_items(*mode, groups@.subrange(0, g as int));
            let mut a: usize = 0;
            while a < apps.len()
                invariant
                    a <= apps@.len(),
                    fresh(items@),
                secure_safe(*mode, items@),
                    items@.map_values(|i: BackupItem| item_view(i)) == base_g + group_items(*mode, apps@.subrange(0, a as int)),
                decreases apps.len() - a,
            {
                let app_name = &apps[a].0;
                let app = &apps[a].1;
                let ghost base_a = base_g + group_items(*mode, apps@.subrange(0, a as int));
                assert(apps@.subrange(0, a + 1).drop_last() =~= apps@.subrange(0, a as int));
                let skip = *mode == BackupMode::Secure && same_seq(&to_chars(app.security_level.as_str()), &to_chars("high"));
                if !skip {
                    let mut k: usize = 0;
                    while k < app.paths.len()
                        invariant
                            k <= app.paths@.len(),
                            !app_skipped(*mode, *app),
                            fresh(items@),
                            secure_safe(*mode, items@),
                            items@.map_values(|i: BackupItem| item_view(i)) == base_a + app_items(
                                app_name@,
                                *app,
                                texts(app.paths@).subrange(0, k as int),
                            ),
                        decreases app.paths.len() - k,
                    {
                        let path = &app.paths[k];
                        let mut name = app_name.clone();
                        push_str(&mut name, " (");
                        push_str(&mut name, path.as_str());
                        push_str(&mut name, ")");
                        let item = BackupItem {
                            name,
                            path: path.clone(),
                            category: app.category.clone(),
                            description: app.description.clone(),
                            security_level: level_from_name(&app.security_level),
                            warning: copy_warning(&app.warning),
                            selected: false,
                            exists: false,
                            size: None,
                        };
                        push_item(&mut items, item, *mode);
                        let ghost ps = texts(app.paths@).subrange(0, k + 1);
                        assert(ps.drop_last() =~= texts(app.paths@).subrange(0, k as int));
                        assert(ps.last() == app.paths@[k as int]@);
                        assert(items@.map_values(|i: BackupItem| item_view(i)) =~= base_a + app_items(app_name@, *app, ps));
                        k = k + 1;
                    }
                    assert(texts(app.paths@).subrange(0, k as int) =~= texts(app.paths@));
                }
                assert(items@.map_values(|i: BackupItem| item_view(i)) =~= base_g + group_items(*mode, apps@.subrange(0, a + 1)));
                a = a + 1;
            }
            assert(apps@.subrange(0, a as int) =~= apps@);
            assert(groups@.subrange(0, g + 1).drop_last() =~= groups@.subrange(0, g as int));
            assert(items@.map_values(|i: BackupItem| item_view(i)) =~= first + modern_items(*mode, groups@.subrange(0, g + 1)));
            g = g + 1;
        }
        assert(groups@.subrange(0, g as int) =~= groups@);
        items
    }

    /// The exclusion patterns of a mode; none for a mode the document lacks.
    pub fn get_exclusions_for_mode(&self, mode: &BackupMode) -> (r: Vec<String>)
        ensures
            mode_index(self.backup_modes@, mode.spec_name(), 0) < self.backup_modes@.len() ==> texts(r@)
                == texts(self.backup_modes@[mode_index(self.backup_modes@, mode.spec_name(), 0)].1.exclusions@),
            mode_index(self.backup_modes@, mode.spec_name(), 0) >= self.backup_modes@.len() ==> r@.len() == 0,
    {
        let m = find_mode(&self.backup_modes, mode.as_str());
        let mut out: Vec<String> = Vec::new();
        if m < self.backup_modes.len() {
            let ex = &self.backup_modes[m].1.exclusions;
            let mut i: usize = 0;
            while i < ex.len()
                invariant
                    i <= ex@.len(),
                    texts(out@) == texts(ex@).subrange(0, i as int),
                decreases ex.len() - i,
            {
                let ghost before = texts(out@);
                out.push(ex[i].clone());
                assert(texts(out@) =~= before.push(ex@[i as int]@));
                assert(texts(ex@).subrange(0, i + 1) =~= texts(ex@).subrange(0, i as int).push(ex@[i as int]@));
                i = i + 1;
            }
            assert(texts(ex@).subrange(0, i as int) =~= texts(ex@));
        }
        out
    }

    /// The warning a mode carries in the document, if any.
    pub fn get_security_warning_for_mode(&self, mode: &BackupMode) -> (r: Option<String>)
        ensures
            mode_index(self.backup_modes@, mode.spec_name(), 0) < self.backup_modes@.len() ==> match r {
                Some(w) => self.backup_modes@[mode_index(self.backup_modes@, mode.spec_name(), 0)].1.security_warning
                    is Some && w@ == self.backup_modes@[mode_index(self.backup_modes@, mode.spec_name(), 0)].1.security_warning->0@,
                None => self.backup_modes@[mode_index(self.backup_modes@, mode.spec_name(), 0)].1.security_warning is None,
            },
            mode_index(self.backup_modes@, mode.spec_name(), 0) >= self.backup_modes@.len() ==> r is None,
    {
        let m = find_mode(&self.backup_modes, mode.as_str());
        if m < self.backup_modes.len() {
            copy_warning(&self.backup_modes[m].1.security_warning)
        } else {
            None
        }
    }
}

/// Whether the names of a name/value list are pairwise different.
pub fn names_unique<T>(v: &Vec<(String, T)>) -> (r: bool)
    ensures
        r == unique_names(v@),
{
    let n = v.len();
    let mut i: usize = 0;
    while i < n
        invariant
            n == v@.len(),
            i <= n,
            forall|a: int, b: int| 0 <= a < i && a < b < n ==> v@[a].0@ != v@[b].0@,
        decreases n - i,
    {
        let name = to_chars(v[i].0.as_str());
        let mut j: usize = i + 1;
        while j < n
            invariant
                n == v@.len(),
                i < n,
                i + 1 <= j <= n,
                name@ == v@[i as int].0@,
                forall|b: int| i < b < j ==> v@[i as int].0@ != v@[b].0@,
            decreases n - j,
        {
            if same_seq(&name, &to_chars(v[j].0.as_str())) {
                return false;
            }
            j = j + 1;
        }
        i = i + 1;
    }
    true
}

impl BackupConfig {
    /// Every name/value list of the document has pairwise different names.
    pub open spec fn wf(&self) -> bool {
        &&& unique_names(self.backup_modes@)
        &&& unique_names(self.modern_configurations.categories@)
        &&& forall|g: int|
            0 <= g < self.modern_configurations.categories@.len() ==> unique_names(
                (#[trigger] self.modern_configurations.categories@[g]).1@,
            )
        &&& unique_names(self.security_classifications@)
        &&& unique_names(self.backup_strategies@)
    }

    /// Whether the document's names are unique where they must be.
    pub fn has_unique_names(&self) -> (r: bool)
        ensures
            r == self.wf(),
    {
        if !names_unique(&self.backup_modes) || !names_unique(&self.modern_configurations.categories)
            || !names_unique(&self.security_classifications) || !names_unique(&self.backup_strategies) {
            return false;
        }
        let groups = &self.modern_configurations.categories;
        let mut g: usize = 0;
        while g < groups.len()
            invariant
                groups@ == self.modern_configurations.categories@,
                g <= groups@.len(),
                forall|k: int| 0 <= k < g ==> unique_names((#[trigger] groups@[k]).1@),
            decreases groups.len() - g,
        {
            if !names_unique(&groups[g].1) {
                assert(!unique_names(self.modern_configurations.categories@[g as int].1@));
                return false;
            }
            g = g + 1;
        }
        true
    }
}

} // verus!
