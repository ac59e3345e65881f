//! Application settings and per-container shell settings.
//!
//! The configuration file is TOML. Reading the file and decoding its TOML into
//! the plain values below is done by the program around this library; what the
//! values mean, which of them are acceptable, and which shell a container gets
//! are decided here.
use vstd::prelude::*;
use vstd::string::*;

use crate::text::{contains_char, is_blank, opt_text, owned, text_eq, trim, trimmed};

verus! {

/// The abstract value of a [`ShellConfig`].
pub struct ShellView {
    pub user: Seq<char>,
    pub shell: Seq<char>,
}

/// Who and what to run when entering a container.
#[derive(Debug)]
pub struct ShellConfig {
    pub user: String,
    pub shell: String,
}

impl View for ShellConfig {
    type V = ShellView;

    open spec fn view(&self) -> ShellView {
        ShellView { user: self.user@, shell: self.shell@ }
    }
}

/// `root` and `bash`, for containers the file does not mention.
pub open spec fn default_shell() -> ShellView {
    ShellView { user: "root"@, shell: "bash"@ }
}

impl Default for ShellConfig {
    fn default() -> (r: ShellConfig)
        ensures
            r@ == default_shell(),
    {
        ShellConfig { user: owned("root"), shell: owned("bash") }
    }
}

impl ShellConfig {
    /// The settings a container section gives: each field the section names,
    /// and `root` / `bash` for an omitted `USER` / `SHELL`.
    pub fn with_defaults(user: Option<String>, shell: Option<String>) -> (r: ShellConfig)
        ensures
            r.user@ == match user {
                Some(u) => u@,
                None => default_shell().user,
            },
            r.shell@ == match shell {
                Some(s) => s@,
                None => default_shell().shell,
            },
    {
        let user = match user {
            Some(u) => u,
            None => owned("root"),
        };
        let shell = match shell {
            Some(s) => s,
            None => owned("bash"),
        };
        ShellConfig { user, shell }
    }
}

impl Clone for ShellConfig {
    fn clone(&self) -> (r: Self)
        ensures
            r == *self,
    {
        ShellConfig { user: self.user.clone(), shell: self.shell.clone() }
    }
}

impl PartialEq for ShellConfig {
    fn eq(&self, other: &Self) -> (r: bool) {
        text_eq(self.user.as_str(), other.user.as_str()) && text_eq(
            self.shell.as_str(),
            other.shell.as_str(),
        )
    }
}

impl vstd::std_specs::cmp::PartialEqSpecImpl for ShellConfig {
    open spec fn obeys_eq_spec() -> bool {
        true
    }

    open spec fn eq_spec(&self, other: &ShellConfig) -> bool {
        self@ == other@
    }
}

impl Eq for ShellConfig {

}

/// Application-wide settings.
#[derive(Debug)]
pub struct Settings {
    pub gitlab_image_api: Option<String>,
}

impl Default for Settings {
    /// No GitLab endpoint.
    fn default() -> (r: Settings)
        ensures
            r.gitlab_image_api is None,
    {
        Settings { gitlab_image_api: None }
    }
}

/// What is wrong with a configuration.
#[derive(Debug, PartialEq, Eq)]
pub enum ConfigError {
    /// The GitLab endpoint holds a NUL character.
    NulInEndpoint,
    /// A container section has a blank name.
    EmptyContainerName,
    /// A container's `USER` or `SHELL` is blank or holds a NUL character.
    BadShellValue { name: String, key: &'static str },
}

/// The text of a configuration error.
pub open spec fn config_error_text(e: ConfigError) -> Seq<char> {
    match e {
        ConfigError::NulInEndpoint => "GITLAB_IMAGE_API must contain no NUL characters"@,
        ConfigError::EmptyContainerName => "container name must not be empty"@,
        ConfigError::BadShellValue { name, key } => name@ + ": "@ + key@
            + " must be nonempty and contain no NUL characters"@,
    }
}

impl ConfigError {
    pub fn to_string(&self) -> (r: String)
        ensures
            r@ == config_error_text(*self),
    {
        match self {
            ConfigError::NulInEndpoint => owned("GITLAB_IMAGE_API must contain no NUL characters"),
            ConfigError::EmptyContainerName => owned("container name must not be empty"),
            ConfigError::BadShellValue { name, key } => {
                let mut out = owned(name.as_str());
                out.append(": ");
                out.append(key);
                out.append(" must be nonempty and contain no NUL characters");
                out
            },
        }
    }
}

/// A `USER` or `SHELL` value is usable: not blank and free of NUL characters.
pub open spec fn usable_value(v: Seq<char>) -> bool {
    trimmed(v).len() > 0 && !v.contains('\0')
}

/// A container entry is usable: a non-blank name and usable values.
pub open spec fn usable_entry(name: Seq<char>, s: ShellView) -> bool {
    trimmed(name).len() > 0 && usable_value(s.user) && usable_value(s.shell)
}

/// The error reported for an unusable entry.
pub open spec fn entry_error(name: Seq<char>, s: ShellView) -> Seq<char> {
    if trimmed(name).len() == 0 {
        "container name must not be empty"@
    } else if !usable_value(s.user) {
        name + ": "@ + "USER"@ + " must be nonempty and contain no NUL characters"@
    } else {
        name + ": "@ + "SHELL"@ + " must be nonempty and contain no NUL characters"@
    }
}

/// The views of container entries.
pub open spec fn entry_views(entries: Seq<(String, ShellConfig)>) -> Seq<(Seq<char>, ShellView)> {
    entries.map_values(|e: (String, ShellConfig)| (e.0@, e.1@))
}

/// The GitLab endpoint as kept: trimmed, and absent when blank.
pub open spec fn endpoint_kept(raw: Option<Seq<char>>) -> Option<Seq<char>> {
    match raw {
        Some(e) => if trimmed(e).len() == 0 {
            None
        } else {
            Some(trimmed(e))
        },
        None => None,
    }
}

/// The shell settings for `name` among `entries`: the first entry with that
/// exact name, or the defaults.
pub open spec fn shell_for(entries: Seq<(Seq<char>, ShellView)>, name: Seq<char>) -> ShellView {
    if exists|i: int| 0 <= i < entries.len() && #[trigger] entries[i].0 == name {
        entries[choose|i: int|
            0 <= i < entries.len() && entries[i].0 == name && forall|j: int|
                0 <= j < i ==> #[trigger] entries[j].0 != name].1
    } else {
        default_shell()
    }
}

proof fn lemma_shell_for_first(entries: Seq<(Seq<char>, ShellView)>, name: Seq<char>, i: int)
    requires
        0 <= i < entries.len(),
        entries[i].0 == name,
        forall|j: int| 0 <= j < i ==> #[trigger] entries[j].0 != name,
    ensures
        shell_for(entries, name) == entries[i].1,
{
    let c = choose|c: int|
        0 <= c < entries.len() && entries[c].0 == name && forall|j: int|
            0 <= j < c ==> #[trigger] entries[j].0 != name;
    assert(0 <= c < entries.len() && entries[c].0 == name && forall|j: int|
        0 <= j < c ==> #[trigger] entries[j].0 != name);
    if c < i {
        assert(entries[c].0 != name);
    } else if c > i {
        assert(entries[i].0 != name);
    }
}

/// The abstract value of a [`Config`].
pub struct ConfigView {
    pub gitlab_image_api: Option<Seq<char>>,
    pub containers: Seq<(Seq<char>, ShellView)>,
}

/// Application settings plus per-container shell settings, keyed by exact
/// container name (without a leading slash), in name order.
#[derive(Debug)]
pub struct Config {
    pub settings: Settings,
    containers: Vec<(String, ShellConfig)>,
}

impl Default for Config {
    /// The configuration in force without a file: no GitLab endpoint, and the
    /// default shell for every container.
    fn default() -> (r: Config)
        ensures
            r@.gitlab_image_api is None,
            r@.containers.len() == 0,
    {
        Config { settings: Settings::default(), containers: Vec::new() }
    }
}

impl View for Config {
    type V = ConfigView;

    closed spec fn view(&self) -> ConfigView {
        ConfigView {
            gitlab_image_api: opt_text(self.settings.gitlab_image_api),
            containers: entry_views(self.containers@),
        }
    }
}

/// Count of leading `/` characters.
pub open spec fn leading_slash_count(s: Seq<char>) -> int
    decreases s.len(),
{
    if s.len() > 0 && s[0] == '/' {
        1 + leading_slash_count(s.drop_first())
    } else {
        0
    }
}

fn without_slashes(s: &str) -> (r: &str)
    ensures
        r@ == s@.skip(leading_slash_count(s@)),
{
    let n = s.unicode_len();
    let mut i: usize = 0;
    assert(s@.skip(0) =~= s@);
    while i < n && s.get_char(i) == '/'
        invariant
            n == s@.len(),
            i <= n,
            leading_slash_count(s@) == i + leading_slash_count(s@.skip(i as int)),
        decreases n - i,
    {
        proof {
            let rest = s@.skip(i as int);
            assert(rest.drop_first() =~= s@.skip(i + 1));
        }
        i = i + 1;
    }
    proof {
        let rest = s@.skip(i as int);
        if i < n {
            assert(rest[0] == s@[i as int]);
        }
    }
    s.substring_char(i, n)
}

fn usable(v: &String) -> (r: bool)
    ensures
        r == usable_value(v@),
{
    !is_blank(v.as_str()) && !contains_char(v.as_str(), '\0')
}

impl Config {
    /// The GitLab endpoint setting, if any.
    pub fn gitlab_image_api(&self) -> (r: Option<&str>)
        ensures
            match r {
                Some(s) => self@.gitlab_image_api == Some(s@),
                None => self@.gitlab_image_api is None,
            },
    {
        match &self.settings.gitlab_image_api {
            Some(s) => Some(s.as_str()),
            None => None,
        }
    }

    /// Checks decoded settings and container entries and makes a
    /// configuration of them. The GitLab endpoint is trimmed and dropped when
    /// blank; it must hold no NUL. Every container needs a non-blank name and
    /// a non-blank, NUL-free `USER` and `SHELL`; the first entry that fails is
    /// reported. Entries are taken in the order given (name order, as the
    /// file's tables decode).
    pub fn from_parts(settings: Settings, containers: Vec<(String, ShellConfig)>) -> (r: Result<
        Config,
        ConfigError,
    >)
        ensures
            match r {
                Ok(c) => {
                    &&& (opt_text(settings.gitlab_image_api) matches Some(e) ==> !trimmed(e).contains('\0'))
                    &&& forall|i: int|
                        0 <= i < containers@.len() ==> usable_entry(
                            #[trigger] entry_views(containers@)[i].0,
                            entry_views(containers@)[i].1,
                        )
                    &&& c@.gitlab_image_api == endpoint_kept(opt_text(settings.gitlab_image_api))
                    &&& c@.containers == entry_views(containers@)
                },
                Err(e) => if opt_text(settings.gitlab_image_api) matches Some(raw) && trimmed(
                    raw,
                ).contains('\0') {
                    e == ConfigError::NulInEndpoint
                } else {
                    exists|i: int|
                        0 <= i < containers@.len() && !usable_entry(
                            #[trigger] entry_views(containers@)[i].0,
                            entry_views(containers@)[i].1,
                        ) && (forall|j: int|
                            0 <= j < i ==> usable_entry(
                                #[trigger] entry_views(containers@)[j].0,
                                entry_views(containers@)[j].1,
                            )) && config_error_text(e) == entry_error(
                            entry_views(containers@)[i].0,
                            entry_views(containers@)[i].1,
                        )
                },
            },
    {
        let ghost raw_endpoint = opt_text(settings.gitlab_image_api);
        let endpoint = match &settings.gitlab_image_api {
            Some(e) => {
                let t = trim(e.as_str());
                if contains_char(t, '\0') {
                    return Err(ConfigError::NulInEndpoint);
                }
                if t.unicode_len() == 0 {
                    None
                } else {
                    Some(owned(t))
                }
            },
            None => None,
        };
        let mut i: usize = 0;
        while i < containers.len()
            invariant
                i <= containers@.len(),
                raw_endpoint == opt_text(settings.gitlab_image_api),
                !(raw_endpoint matches Some(raw) && trimmed(raw).contains('\0')),
                opt_text(endpoint) == endpoint_kept(raw_endpoint),
                forall|j: int|
                    0 <= j < i ==> usable_entry(
                        #[trigger] entry_views(containers@)[j].0,
                        entry_views(containers@)[j].1,
                    ),
            decreases containers@.len() - i,
        {
            let name = &containers[i].0;
            let shell = &containers[i].1;
            let ghost v = entry_views(containers@)[i as int];
            assert(v.0 == name@ && v.1 == shell@);
            if is_blank(name.as_str()) {
                return Err(ConfigError::EmptyContainerName);
            }
            if !usable(&shell.user) {
                return Err(ConfigError::BadShellValue { name: name.clone(), key: "USER" });
            }
            if !usable(&shell.shell) {
                return Err(ConfigError::BadShellValue { name: name.clone(), key: "SHELL" });
            }
            i = i + 1;
        }
        Ok(Config { settings: Settings { gitlab_image_api: endpoint }, containers })
    }

    /// The shell settings for a container, by its exact name; a leading `/`
    /// (as the engine reports names) is ignored. Unknown names get the defaults.
    pub fn for_container(&self, name: &str) -> (r: ShellConfig)
        ensures
            r@ == shell_for(self@.containers, name@.skip(leading_slash_count(name@))),
    {
        let key = without_slashes(name);
        let ghost entries = entry_views(self.containers@);
        let mut i: usize = 0;
        while i < self.containers.len()
            invariant
                i <= self.containers@.len(),
                entries == entry_views(self.containers@),
                key@ == name@.skip(leading_slash_count(name@)),
                forall|j: int| 0 <= j < i ==> #[trigger] entries[j].0 != key@,
            decreases self.containers@.len() - i,
        {
            assert(entries[i as int].0 == self.containers@[i as int].0@);
            if text_eq(self.containers[i].0.as_str(), key) {
                proof {
                    lemma_shell_for_first(entries, key@, i as int);
                    assert(entries[i as int].1 == self.containers@[i as int].1@);
                }
                let r = self.containers[i].1.clone();
                assert(r == self.containers@[i as int].1);
                assert(self@.containers == entries);
                return r;
            }
            i = i + 1;
        }
        ShellConfig::default()
    }
}


/// Every shell a checked configuration resolves -- a listed container's or the
/// defaults -- has a usable `USER` and `SHELL`: entering a container never hands
/// `docker exec` a blank argument or one holding a NUL character.
pub proof fn lemma_resolved_shells_are_usable(
    entries: Seq<(Seq<char>, ShellView)>,
    name: Seq<char>,
)
    requires
        forall|i: int| 0 <= i < entries.len() ==> usable_entry(#[trigger] entries[i].0, entries[i].1),
    ensures
        usable_value(shell_for(entries, name).user),
        usable_value(shell_for(entries, name).shell),
{
    if exists|i: int| 0 <= i < entries.len() && #[trigger] entries[i].0 == name {
        let c = choose|i: int|
            0 <= i < entries.len() && entries[i].0 == name && forall|j: int|
                0 <= j < i ==> #[trigger] entries[j].0 != name;
        let w = choose|i: int| 0 <= i < entries.len() && #[trigger] entries[i].0 == name;
        lemma_first_match_exists(entries, name, w);
        assert(usable_entry(entries[c].0, entries[c].1));
    } else {
        reveal_strlit("root");
        reveal_strlit("bash");
        assert(trimmed("root"@) =~= "root"@);
        assert(trimmed("bash"@) =~= "bash"@);
        assert(!"root"@.contains('\0'));
        assert(!"bash"@.contains('\0'));
    }
}

/// Where some entry has `name`, a first such entry exists.
proof fn lemma_first_match_exists(entries: Seq<(Seq<char>, ShellView)>, name: Seq<char>, w: int)
    requires
        0 <= w < entries.len(),
        entries[w].0 == name,
    ensures
        exists|i: int|
            0 <= i < entries.len() && entries[i].0 == name && forall|j: int|
                0 <= j < i ==> #[trigger] entries[j].0 != name,
    decreases w,
{
    if exists|j: int| 0 <= j < w && #[trigger] entries[j].0 == name {
        let j = choose|j: int| 0 <= j < w && #[trigger] entries[j].0 == name;
        lemma_first_match_exists(entries, name, j);
    } else {
        assert(forall|j: int| 0 <= j < w ==> #[trigger] entries[j].0 != name);
    }
}

/// `rel` appended to the path `base` the way a path is joined: with a `/`
/// between them unless `base` is empty or already ends in one.
pub open spec fn joined_path(base: Seq<char>, rel: Seq<char>) -> Seq<char> {
    if base.len() > 0 && base.last() != '/' {
        base + "/"@ + rel
    } else {
        base + rel
    }
}

/// The directory the default file lives under: `$XDG_CONFIG_HOME` when it is
/// an absolute path, otherwise `$HOME/.config` when `$HOME` is non-empty.
pub open spec fn config_base_of(xdg_config_home: Option<Seq<char>>, home: Option<Seq<char>>) -> Option<
    Seq<char>,
> {
    if xdg_config_home matches Some(x) && x.len() > 0 && x[0] == '/' {
        xdg_config_home
    } else {
        match home {
            Some(h) => if h.len() > 0 {
                Some(joined_path(h, ".config"@))
            } else {
                None
            },
            None => None,
        }
    }
}

/// Which file is read: the one named on the command line, else
/// `jikura/config.toml` under the configuration directory, else none.
pub open spec fn config_path_of(
    explicit: Option<Seq<char>>,
    xdg_config_home: Option<Seq<char>>,
    home: Option<Seq<char>>,
) -> Option<Seq<char>> {
    match explicit {
        Some(p) => Some(p),
        None => match config_base_of(xdg_config_home, home) {
            Some(base) => Some(joined_path(base, "jikura/config.toml"@)),
            None => None,
        },
    }
}

fn join_path(base: &str, rel: &str) -> (r: String)
    ensures
        r@ == joined_path(base@, rel@),
{
    let mut out = owned(base);
    let n = base.unicode_len();
    if n > 0 && base.get_char(n - 1) != '/' {
        out.append("/");
    }
    out.append(rel);
    out
}

/// The configuration file to read, given the file named on the command line
/// and the values of `XDG_CONFIG_HOME` and `HOME`; `None` when there is none
/// to look for.
pub fn config_path(
    explicit: Option<String>,
    xdg_config_home: Option<String>,
    home: Option<String>,
) -> (r: Option<String>)
    ensures
        opt_text(r) == config_path_of(opt_text(explicit), opt_text(xdg_config_home), opt_text(home)),
{
    if let Some(p) = explicit {
        return Some(p);
    }
    let base = match xdg_config_home {
        Some(x) if x.unicode_len() > 0 && x.as_str().get_char(0) == '/' => Some(x),
        _ => match home {
            Some(h) if h.unicode_len() > 0 => Some(join_path(h.as_str(), ".config")),
            _ => None,
        },
    };
    match base {
        Some(b) => Some(join_path(b.as_str(), "jikura/config.toml")),
        None => None,
    }
}

/// Whether a file uses the structured layout -- a `settings` table and the
/// containers under `CONTAINERS` -- rather than the flat one, in which every
/// top-level table is a container. Any file with either top-level key is
/// structured, so a file cannot mix the two.
pub fn is_structured_layout(has_settings: bool, has_containers: bool) -> (r: bool)
    ensures
        r == (has_settings || has_containers),
{
    has_settings || has_containers
}

/// What came of reading the configuration file.
#[derive(Debug)]
pub enum ConfigRead {
    /// The file's text.
    Text(String),
    /// No file at that path; `detail` is the system's reason.
    NotFound { detail: String },
    /// The file could not be read; `detail` is the system's reason.
    Failed { detail: String },
}

/// What to do with a read: decode the text, use the defaults, or stop with
/// an error before the interface opens. A failure says what could not be done
/// (`context`) and why (`cause`, the system's reason).
#[derive(Debug, PartialEq, Eq)]
pub enum LoadStep {
    Parse(String),
    Defaults,
    Fail { context: String, cause: String },
}

/// What a failure to read the file at `path` reports it could not do.
pub open spec fn read_failure_text(path: Seq<char>) -> Seq<char> {
    "could not read "@ + path
}

/// Decides what a read of the file at `path` leads to. A missing file is fine
/// when it was only the default location; a file named on the command line
/// must exist; any other failure to read is an error.
pub fn load_step(path: &str, explicit: bool, read: ConfigRead) -> (r: LoadStep)
    ensures
        match read {
            ConfigRead::Text(t) => r matches LoadStep::Parse(u) && u@ == t@,
            ConfigRead::NotFound { detail } => if explicit {
                r matches LoadStep::Fail { context, cause } && context@ == read_failure_text(
                    path@,
                ) && cause@ == detail@
            } else {
                r is Defaults
            },
            ConfigRead::Failed { detail } => r matches LoadStep::Fail { context, cause }
                && context@ == read_failure_text(path@) && cause@ == detail@,
        },
{
    match read {
        ConfigRead::Text(t) => LoadStep::Parse(t),
        ConfigRead::NotFound { detail } => {
            if explicit {
                LoadStep::Fail { context: read_failure(path), cause: detail }
            } else {
                LoadStep::Defaults
            }
        },
        ConfigRead::Failed { detail } => LoadStep::Fail {
            context: read_failure(path),
            cause: detail,
        },
    }
}

fn read_failure(path: &str) -> (r: String)
    ensures
        r@ == read_failure_text(path@),
{
    let mut out = owned("could not read ");
    out.append(path);
    out
}

/// Leading slashes are all that a lookup ignores: the name it looks up begins
/// with no `/`, so `for_container(name)` and `for_container(n)` agree, where
/// `n` is `name` without its leading slashes; nothing else (case, other
/// prefixes) is folded.
pub proof fn lemma_leading_slashes_are_all_a_lookup_ignores(name: Seq<char>)
    ensures
        0 <= leading_slash_count(name) <= name.len(),
        ({
            let n = name.skip(leading_slash_count(name));
            &&& n.len() == 0 || n[0] != '/'
            &&& n.skip(leading_slash_count(n)) == n
            &&& name == Seq::new(leading_slash_count(name) as nat, |i: int| '/') + n
        }),
    decreases name.len(),
{
    if name.len() > 0 && name[0] == '/' {
        let rest = name.drop_first();
        lemma_leading_slashes_are_all_a_lookup_ignores(rest);
        let k = leading_slash_count(rest);
        assert(leading_slash_count(name) == k + 1);
        assert(name.skip(k + 1) =~= rest.skip(k));
        assert(Seq::new((k + 1) as nat, |i: int| '/') =~= seq!['/'] + Seq::new(
            k as nat,
            |i: int| '/',
        ));
        assert(name =~= seq!['/'] + rest);
    } else {
        assert(name.skip(0) =~= name);
        assert(Seq::new(0, |i: int| '/') =~= Seq::<char>::empty());
        assert(name =~= Seq::<char>::empty() + name);
    }
}

} // verus!
