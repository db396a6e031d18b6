use vstd::prelude::*;

use super::macros::ErrorLevel;

verus! {

/// What is wrong with the configuration of the plugins. Either way no
/// plugin is loaded, and the daemon goes on with what is built in.
#[derive(Clone, Copy, Debug, PartialEq, Eq)]
pub enum ConfigurationError {
    /// The plugin directory is missing and cannot be made.
    PluginDirectory,
    /// The entry that lists the permitted plugins is no list.
    AllowList,
}

impl ConfigurationError {
    /// An error of the configuration is critical.
    pub open spec fn severity(&self) -> ErrorLevel {
        ErrorLevel::Critical
    }

    /// What the error says, in words.
    pub open spec fn text(&self) -> Seq<char> {
        match self {
            ConfigurationError::PluginDirectory => "Failed to read plugin directory"@,
            ConfigurationError::AllowList =>
                "Wrong config, please write plugins entry as array of strings: e.g [\"libyourplugin.so\"]"@,
        }
    }

    pub fn level(&self) -> (level: ErrorLevel)
        ensures
            level == self.severity(),
    {
        ErrorLevel::Critical
    }

    pub fn message(&self) -> (message: &'static str)
        ensures
            message@ == self.text(),
    {
        match self {
            ConfigurationError::PluginDirectory => "Failed to read plugin directory",
            ConfigurationError::AllowList =>
                "Wrong config, please write plugins entry as array of strings: e.g [\"libyourplugin.so\"]",
        }
    }
}

/// Which files of the plugin directory the configuration permits.
pub enum AllowList {
    /// The configuration names no list: every file is permitted.
    Absent,
    /// The configuration's entry is no list of names: no file is permitted.
    Malformed,
    /// The configuration lists the permitted file names.
    Names(Vec<String>),
}

impl AllowList {
    /// Whether a file of this name is to be opened.
    pub open spec fn permits(&self, file_name: Seq<char>) -> bool {
        match self {
            AllowList::Absent => true,
            AllowList::Malformed => false,
            AllowList::Names(names) => exists|i: int|
                0 <= i < names@.len() && (#[trigger] names@[i])@ == file_name,
        }
    }

    /// Whether the configuration has to be reported as wrong.
    pub fn is_malformed(&self) -> (malformed: bool)
        ensures
            malformed == (*self is Malformed),
    {
        match self {
            AllowList::Malformed => true,
            _ => false,
        }
    }

    /// The error to report of the list: one where the entry is no list,
    /// none otherwise.
    pub fn problem(&self) -> (error: Option<ConfigurationError>)
        ensures
            *self is Malformed ==> error == Some(ConfigurationError::AllowList),
            !(*self is Malformed) ==> error is None,
    {
        match self {
            AllowList::Malformed => Some(ConfigurationError::AllowList),
            _ => None,
        }
    }

    pub fn is_allowed(&self, file_name: &String) -> (allowed: bool)
        ensures
            allowed == self.permits(file_name@),
    {
        match self {
            AllowList::Absent => true,
            AllowList::Malformed => false,
            AllowList::Names(names) => {
                let mut i: usize = 0;
                while i < names.len()
                    invariant
                        *self == AllowList::Names(*names),
                        i <= names.len(),
                        forall|j: int| 0 <= j < i ==> (#[trigger] names@[j])@ != file_name@,
                    decreases names.len() - i,
                {
                    if names[i] == *file_name {
                        proof {
                            assert(self->Names_0 == *names);
                            assert(exists|j: int|
                                0 <= j < names@.len() && (#[trigger] names@[j])@ == file_name@);
                        }
                        return true;
                    }
                    i += 1;
                }
                false
            },
        }
    }

    /// The names among `entries` that are to be opened, in the order of
    /// the directory listing.
    pub open spec fn permitted(&self, entries: Seq<String>) -> Seq<Seq<char>>
        decreases entries.len(),
    {
        if entries.len() == 0 {
            Seq::empty()
        } else {
            let earlier = self.permitted(entries.drop_last());
            if self.permits(entries.last()@) {
                earlier.push(entries.last()@)
            } else {
                earlier
            }
        }
    }

    /// Picks from a directory listing the files that are to be opened. The
    /// others are skipped, which is no error.
    pub fn allowed_entries(&self, entries: &Vec<String>) -> (allowed: Vec<String>)
        ensures
            texts(allowed@) == self.permitted(entries@),
    {
        let mut allowed: Vec<String> = Vec::new();
        let mut i: usize = 0;
        proof {
            assert(entries@.subrange(0, 0) =~= Seq::<String>::empty());
            assert(texts(allowed@) =~= self.permitted(entries@.subrange(0, 0)));
        }
        while i < entries.len()
            invariant
                i <= entries.len(),
                texts(allowed@) == self.permitted(entries@.subrange(0, i as int)),
            decreases entries.len() - i,
        {
            proof {
                let now = entries@.subrange(0, i + 1);
                assert(now.drop_last() =~= entries@.subrange(0, i as int));
                assert(now.last() == entries@[i as int]);
            }
            let ghost before = allowed@;
            if self.is_allowed(&entries[i]) {
                allowed.push(entries[i].clone());
                proof {
                    assert(texts(allowed@) =~= texts(before).push(entries@[i as int]@));
                }
            }
            i += 1;
        }
        proof {
            assert(entries@.subrange(0, entries@.len() as int) =~= entries@);
        }
        allowed
    }
}

/// What each text of a list holds.
pub open spec fn texts(list: Seq<String>) -> Seq<Seq<char>> {
    Seq::new(list.len(), |i: int| list[i]@)
}

/// Where the plugin directory is to be taken from.
pub enum DirectoryPlan {
    /// The configured directory is used as it is.
    Configured(String),
    /// The default directory is used, and made where it is missing.
    Default,
}

/// Decides between the configured plugin directory and the default one:
/// the configured path wins where there is one and it is a directory.
pub fn plan_plugin_dir(configured: Option<&str>, is_directory: bool) -> (plan: DirectoryPlan)
    ensures
        configured is Some && is_directory ==> (plan matches DirectoryPlan::Configured(path)
            && path@ == configured.unwrap()@),
        configured is None || !is_directory ==> plan is Default,
{
    match configured {
        Some(path) => {
            if is_directory {
                DirectoryPlan::Configured(String::from_str(path))
            } else {
                DirectoryPlan::Default
            }
        },
        None => DirectoryPlan::Default,
    }
}

/// The path of `name` below the directory `base`.
pub open spec fn joined(base: Seq<char>, name: Seq<char>) -> Seq<char> {
    if base.len() == 0 {
        name
    } else if base.last() == '/' {
        base + name
    } else {
        base + seq!['/'] + name
    }
}

/// Joins a name to a directory's path.
pub fn join_path(base: &str, name: &str) -> (path: String)
    ensures
        path@ == joined(base@, name@),
{
    let length = base.unicode_len();
    if length == 0 {
        return String::from_str(name);
    }
    let mut path = String::from_str(base);
    if base.get_char(length - 1) != '/' {
        proof {
            reveal_strlit("/");
            assert("/"@ =~= seq!['/']);
        }
        path.append("/");
    }
    path.append(name);
    path
}

/// The default plugin directory of an application whose configuration
/// lives in `config_dir`.
pub fn default_plugin_dir(config_dir: &str) -> (path: String)
    ensures
        path@ == joined(config_dir@, "plugins"@),
{
    join_path(config_dir, "plugins")
}

/// How the attempt to make the default plugin directory ended.
#[derive(Clone, Copy, Debug, PartialEq, Eq)]
pub enum CreateOutcome {
    Created,
    AlreadyExists,
    Failed,
}

/// The default plugin directory after the attempt to make it: the
/// directory, unless making it failed for another reason than that it is
/// there already.
pub fn created_plugin_dir(path: String, outcome: CreateOutcome) -> (directory: Option<String>)
    ensures
        outcome is Failed <==> directory is None,
        directory matches Some(found) ==> found == path,
{
    match outcome {
        CreateOutcome::Failed => None,
        _ => Some(path),
    }
}

/// The error to report of the attempt to make the default plugin directory:
/// one where the directory could not be made and is not there, none
/// otherwise.
pub fn directory_problem(outcome: CreateOutcome) -> (error: Option<ConfigurationError>)
    ensures
        outcome is Failed ==> error == Some(ConfigurationError::PluginDirectory),
        !(outcome is Failed) ==> error is None,
{
    match outcome {
        CreateOutcome::Failed => Some(ConfigurationError::PluginDirectory),
        _ => None,
    }
}

/// The directory that is scanned in the end: the one that was given on the
/// command line, where there is one and it is a directory, and otherwise
/// the one that was resolved from the configuration.
pub open spec fn scanned_dir(
    flagged: Option<Seq<char>>,
    flagged_is_directory: bool,
    resolved: Option<Seq<char>>,
) -> Option<Seq<char>> {
    if flagged is Some && flagged_is_directory {
        flagged
    } else {
        resolved
    }
}

/// Decides between the plugin directory of the command line and the
/// resolved one.
pub fn choose_plugin_dir(
    flagged: Option<&str>,
    flagged_is_directory: bool,
    resolved: Option<String>,
) -> (directory: Option<String>)
    ensures
        match scanned_dir(
            match flagged {
                Some(path) => Some(path@),
                None => None,
            },
            flagged_is_directory,
            match resolved {
                Some(path) => Some(path@),
                None => None,
            },
        ) {
            Some(path) => directory matches Some(found) && found@ == path,
            None => directory is None,
        },
{
    match flagged {
        Some(path) => {
            if flagged_is_directory {
                Some(String::from_str(path))
            } else {
                resolved
            }
        },
        None => resolved,
    }
}

/// The directory that is scanned for plugins, from everything the decision
/// rests on: the configured path and whether it is a directory, the
/// application's configuration directory, and how making the default
/// directory ended.
pub open spec fn resolved_plugin_dir(
    configured: Option<Seq<char>>,
    is_directory: bool,
    config_dir: Seq<char>,
    outcome: CreateOutcome,
) -> Option<Seq<char>> {
    if configured is Some && is_directory {
        configured
    } else if outcome is Failed {
        None
    } else {
        Some(joined(config_dir, "plugins"@))
    }
}

/// Resolves the plugin directory in one step, for a caller that has
/// everything at hand.
pub fn resolve_plugin_dir(
    configured: Option<&str>,
    is_directory: bool,
    config_dir: &str,
    outcome: CreateOutcome,
) -> (directory: Option<String>)
    ensures
        match resolved_plugin_dir(
            match configured {
                Some(path) => Some(path@),
                None => None,
            },
            is_directory,
            config_dir@,
            outcome,
        ) {
            Some(path) => directory matches Some(found) && found@ == path,
            None => directory is None,
        },
{
    match plan_plugin_dir(configured, is_directory) {
        DirectoryPlan::Configured(path) => Some(path),
        DirectoryPlan::Default => created_plugin_dir(default_plugin_dir(config_dir), outcome),
    }
}

/// The one object path at which the interfaces of plugins are attached.
pub open spec fn plugin_path() -> Seq<char> {
    "/org/Xebito/ReSet/Plugins"@
}

/// The object path at which a plugin's interfaces and state are attached.
/// It is the daemon's own and the same for every plugin: a plugin has no
/// say in it.
pub fn plugin_object_path() -> (path: String)
    ensures
        path@ == plugin_path(),
{
    String::from_str("/org/Xebito/ReSet/Plugins")
}

} // verus!
