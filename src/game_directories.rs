use vstd::prelude::*;

use crate::filesystem_error::{FileSystemError, FileSystemResult, VarError};

verus! {

/// The separator between the components of a path.
pub open spec fn separator() -> char {
    '/'
}

/// A path is absolute when it starts at the root of the file system.
pub open spec fn is_absolute(p: Seq<char>) -> bool {
    p.len() > 0 && p[0] == separator()
}

/// `rel` appended to `base` as a path: an empty `rel` leaves `base` as it is,
/// an absolute `rel` replaces it, and otherwise one separator stands between
/// them unless `base` is empty or already ends with one.
pub open spec fn join(base: Seq<char>, rel: Seq<char>) -> Seq<char> {
    if rel.len() == 0 {
        base
    } else if is_absolute(rel) {
        rel
    } else if base.len() == 0 || base.last() == separator() {
        base + rel
    } else {
        base + seq![separator()] + rel
    }
}

/// Appends `rel` to `base` as a path.
pub fn join_path(base: &str, rel: &str) -> (r: String)
    ensures
        r@ == join(base@, rel@),
{
    let rel_len = rel.unicode_len();
    if rel_len == 0 {
        return String::from_str(base);
    }
    if rel.get_char(0) == '/' {
        return String::from_str(rel);
    }
    let base_len = base.unicode_len();
    let mut r = String::from_str(base);
    if base_len != 0 && base.get_char(base_len - 1) != '/' {
        r.append("/");
        proof {
            reveal_strlit("/");
        }
    }
    r.append(rel);
    r
}

/// The named base directories of the application.
#[derive(Debug, Clone, Copy, PartialEq, Eq, Hash, Structural)]
pub enum RootDir {
    WorkingDirectory,
    UserDataRoot,
    UserConfigRoot,
    UserEngineConfigurationRoot,
    UserLogRoot,
    UserSaveRoot,
}

/// The host platforms, which place the user directories differently.
#[derive(Debug, Clone, Copy, PartialEq, Eq, Hash, Structural)]
pub enum Platform {
    Windows,
    MacOs,
    UnixLike,
}

impl Platform {
    /// The environment variable that holds the base of the user directories;
    /// none is known for macOS.
    pub open spec fn spec_base_variable(self) -> Option<Seq<char>> {
        match self {
            Platform::Windows => Some("APPDATA"@),
            Platform::MacOs => None,
            Platform::UnixLike => Some("HOME"@),
        }
    }

    pub fn base_variable(self) -> (r: Option<&'static str>)
        ensures
            r matches Some(v) ==> self.spec_base_variable() == Some(v@),
            r is None <==> self.spec_base_variable() is None,
    {
        match self {
            Platform::Windows => Some("APPDATA"),
            Platform::MacOs => None,
            Platform::UnixLike => Some("HOME"),
        }
    }
}

/// The directory under which the logs are kept, inside the user configuration.
pub open spec fn logs_dir_name() -> Seq<char> {
    "maskerad_logs"@
}

/// The directory of the engine configuration, inside the user configuration.
pub open spec fn engine_config_dir_name() -> Seq<char> {
    "maskerad_configuration"@
}

/// The directory of the saved games, inside the user data.
pub open spec fn saves_dir_name() -> Seq<char> {
    "game_saves"@
}

/// The user configuration directory of the application `name` by `author`,
/// `base` being the value of the platform's base variable.
pub open spec fn config_base(platform: Platform, name: Seq<char>, author: Seq<char>, base: Seq<char>) -> Seq<char> {
    match platform {
        Platform::Windows => base + "'"@ + author + "'"@ + name,
        _ => base + "/.config/"@ + name,
    }
}

/// The user data directory of the application `name` by `author`.
pub open spec fn data_base(platform: Platform, name: Seq<char>, author: Seq<char>, base: Seq<char>) -> Seq<char> {
    match platform {
        Platform::Windows => base + "'"@ + author + "'"@ + name,
        _ => base + "/.local/share/"@ + name,
    }
}

/// The directory of each root, for the application `name` by `author`, with
/// `base` the value of the platform's base variable and `cwd` the working
/// directory.
pub open spec fn root_path_for(
    platform: Platform,
    name: Seq<char>,
    author: Seq<char>,
    base: Seq<char>,
    cwd: Seq<char>,
    root: RootDir,
) -> Seq<char> {
    match root {
        RootDir::WorkingDirectory => cwd,
        RootDir::UserDataRoot => data_base(platform, name, author, base),
        RootDir::UserConfigRoot => config_base(platform, name, author, base),
        RootDir::UserEngineConfigurationRoot => join(config_base(platform, name, author, base), engine_config_dir_name()),
        RootDir::UserLogRoot => join(config_base(platform, name, author, base), logs_dir_name()),
        RootDir::UserSaveRoot => join(data_base(platform, name, author, base), saves_dir_name()),
    }
}

proof fn lemma_join_keeps_absolute_base(base: Seq<char>, rel: Seq<char>)
    requires
        is_absolute(base),
        !is_absolute(rel),
    ensures
        is_absolute(join(base, rel)),
{
    if rel.len() > 0 {
        if base.last() == separator() {
            assert((base + rel)[0] == base[0]);
        } else {
            assert((base + seq![separator()] + rel)[0] == base[0]);
        }
    }
}

/// On a Unix-like platform, where the home directory and the working directory
/// are absolute, the directory of every root is absolute, and so not empty.
pub proof fn lemma_unix_roots_are_absolute(
    name: Seq<char>,
    author: Seq<char>,
    home: Seq<char>,
    cwd: Seq<char>,
    root: RootDir,
)
    requires
        is_absolute(home),
        is_absolute(cwd),
    ensures
        is_absolute(root_path_for(Platform::UnixLike, name, author, home, cwd, root)),
        root_path_for(Platform::UnixLike, name, author, home, cwd, root).len() > 0,
{
    reveal_strlit("/.config/");
    reveal_strlit("/.local/share/");
    reveal_strlit("maskerad_logs");
    reveal_strlit("maskerad_configuration");
    reveal_strlit("game_saves");
    let config = config_base(Platform::UnixLike, name, author, home);
    let data = data_base(Platform::UnixLike, name, author, home);
    assert(config[0] == home[0]);
    assert(data[0] == home[0]);
    lemma_join_keeps_absolute_base(config, logs_dir_name());
    lemma_join_keeps_absolute_base(config, engine_config_dir_name());
    lemma_join_keeps_absolute_base(data, saves_dir_name());
}

/// An empty relative path leaves a directory as it is: appending it to the
/// directory of a root gives that directory exactly.
pub proof fn lemma_empty_relative_path(dirs: GameDirectories, root: RootDir)
    ensures
        join(dirs.spec_path(root), ""@) == dirs.spec_path(root),
{
    reveal_strlit("");
}

/// The directory of every root. It is built once and only read afterwards.
#[derive(Debug, Clone)]
pub struct GameDirectories {
    working_directory: String,
    user_data: String,
    user_config: String,
    engine_configuration: String,
    logs: String,
    saves: String,
}

impl GameDirectories {
    /// The directory of `root`.
    pub closed spec fn spec_path(&self, root: RootDir) -> Seq<char> {
        match root {
            RootDir::WorkingDirectory => self.working_directory@,
            RootDir::UserDataRoot => self.user_data@,
            RootDir::UserConfigRoot => self.user_config@,
            RootDir::UserEngineConfigurationRoot => self.engine_configuration@,
            RootDir::UserLogRoot => self.logs@,
            RootDir::UserSaveRoot => self.saves@,
        }
    }

    /// Builds the directories of the application `game_name` by `game_author`
    /// on `platform`. `base` is what reading the platform's base variable gave,
    /// `current_dir` what asking for the working directory gave. A failure to
    /// read the variable is an environment error, and comes first; a failure to
    /// get the working directory is an I/O error. Nothing is created on disk.
    pub fn new(
        game_name: &str,
        game_author: &str,
        platform: Platform,
        base: Result<String, VarError>,
        current_dir: Result<String, std::io::Error>,
    ) -> (r: FileSystemResult<GameDirectories>)
        requires
            platform != Platform::MacOs,
        ensures
            base is Err ==> (r matches Err(e) && e@.wraps_var(base->Err_0)),
            base is Ok && current_dir is Err ==> (r matches Err(e) && e@.wraps_io(current_dir->Err_0)),
            base is Ok && current_dir is Ok ==> (r matches Ok(d) && forall|root: RootDir|
                d.spec_path(root) == root_path_for(
                    platform,
                    game_name@,
                    game_author@,
                    base->Ok_0@,
                    current_dir->Ok_0@,
                    root,
                )),
    {
        let base = match base {
            Ok(b) => b,
            Err(e) => return Err(FileSystemError::from_var_error(e)),
        };
        let (user_config, user_data) = match platform {
            Platform::Windows => {
                let mut p = base.clone();
                p.append("'");
                p.append(game_author);
                p.append("'");
                p.append(game_name);
                (p.clone(), p)
            },
            _ => {
                let mut config = base.clone();
                config.append("/.config/");
                config.append(game_name);
                let mut data = base.clone();
                data.append("/.local/share/");
                data.append(game_name);
                (config, data)
            },
        };
        let logs = join_path(user_config.as_str(), "maskerad_logs");
        let engine_configuration = join_path(user_config.as_str(), "maskerad_configuration");
        let saves = join_path(user_data.as_str(), "game_saves");
        let working_directory = match current_dir {
            Ok(c) => c,
            Err(e) => return Err(FileSystemError::from_io_error(e)),
        };
        Ok(GameDirectories { working_directory, user_data, user_config, engine_configuration, logs, saves })
    }

    /// The directories given one by one, as a stored layout holds them.
    pub fn from_paths(
        working_directory: String,
        user_data: String,
        user_config: String,
        engine_configuration: String,
        logs: String,
        saves: String,
    ) -> (r: GameDirectories)
        ensures
            r.spec_path(RootDir::WorkingDirectory) == working_directory@,
            r.spec_path(RootDir::UserDataRoot) == user_data@,
            r.spec_path(RootDir::UserConfigRoot) == user_config@,
            r.spec_path(RootDir::UserEngineConfigurationRoot) == engine_configuration@,
            r.spec_path(RootDir::UserLogRoot) == logs@,
            r.spec_path(RootDir::UserSaveRoot) == saves@,
    {
        GameDirectories { working_directory, user_data, user_config, engine_configuration, logs, saves }
    }

    /// The directory of `root`. Every root has one, so this always succeeds.
    pub fn path(&self, root_dir: RootDir) -> (r: FileSystemResult<String>)
        ensures
            r matches Ok(p) && p@ == self.spec_path(root_dir),
    {
        let p = match root_dir {
            RootDir::WorkingDirectory => &self.working_directory,
            RootDir::UserDataRoot => &self.user_data,
            RootDir::UserConfigRoot => &self.user_config,
            RootDir::UserEngineConfigurationRoot => &self.engine_configuration,
            RootDir::UserLogRoot => &self.logs,
            RootDir::UserSaveRoot => &self.saves,
        };
        Ok(p.clone())
    }

    /// `path` appended to the directory of `root_dir`; an empty `path` gives
    /// the directory itself.
    pub fn construct_path_from_root(&self, root_dir: RootDir, path: &str) -> (r: FileSystemResult<String>)
        ensures
            r matches Ok(p) && p@ == join(self.spec_path(root_dir), path@),
    {
        let root = self.path(root_dir)?;
        Ok(join_path(root.as_str(), path))
    }
}

} // verus!
