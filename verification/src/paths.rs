//! Where the settings, the data and the cache of the reader live on disk.

use vstd::prelude::*;
use vstd::string::StringExecFns;

verus! {

/// The three directories of an installation, each ending in a separator.
#[derive(Clone, Debug, PartialEq, Eq)]
pub struct PathConfig {
    config: String,
    data: String,
    cache: String,
}

/// What a [`PathConfig`] holds, as plain text.
pub struct PathConfigView {
    pub config: Seq<char>,
    pub data: Seq<char>,
    pub cache: Seq<char>,
}

impl View for PathConfig {
    type V = PathConfigView;

    closed spec fn view(&self) -> PathConfigView {
        PathConfigView { config: self.config@, data: self.data@, cache: self.cache@ }
    }
}

impl Default for PathConfig {
    fn default() -> (r: PathConfig)
        ensures
            r@.config.len() == 0,
            r@.data.len() == 0,
            r@.cache.len() == 0,
    {
        PathConfig { config: String::new(), data: String::new(), cache: String::new() }
    }
}

impl PathConfig {
    pub fn get_config(&self) -> (r: &str)
        ensures
            r@ == self@.config,
    {
        self.config.as_str()
    }

    pub fn set_config(&mut self, path: String)
        ensures
            final(self)@ == (PathConfigView { config: path@, ..old(self)@ }),
    {
        self.config = path;
    }

    pub fn get_data(&self) -> (r: &str)
        ensures
            r@ == self@.data,
    {
        self.data.as_str()
    }

    pub fn set_data(&mut self, path: String)
        ensures
            final(self)@ == (PathConfigView { data: path@, ..old(self)@ }),
    {
        self.data = path;
    }

    pub fn get_cache(&self) -> (r: &str)
        ensures
            r@ == self@.cache,
    {
        self.cache.as_str()
    }

    pub fn set_cache(&mut self, path: String)
        ensures
            final(self)@ == (PathConfigView { cache: path@, ..old(self)@ }),
    {
        self.cache = path;
    }
}

/// `a` followed by `b`.
pub fn join(a: &str, b: &str) -> (r: String)
    ensures
        r@ == a@ + b@,
{
    String::from_str(a).concat(b)
}

/// The systems that the reader knows where to keep its files on.
#[derive(Clone, Copy, Debug, PartialEq, Eq, Structural)]
pub enum Platform {
    Linux,
    MacOs,
    Windows,
}

/// The system that the name `os` stands for.
pub open spec fn platform_named(os: Seq<char>) -> Option<Platform> {
    if os == "linux"@ {
        Some(Platform::Linux)
    } else if os == "macos"@ {
        Some(Platform::MacOs)
    } else if os == "windows"@ {
        Some(Platform::Windows)
    } else {
        None
    }
}

/// The directories on `platform`.  `root` is the user's home directory, on
/// Windows the roaming application data; `local_root` is the local
/// application data, which Windows alone has.
pub open spec fn platform_paths(
    platform: Platform,
    root: Seq<char>,
    local_root: Seq<char>,
) -> PathConfigView {
    match platform {
        Platform::Linux => PathConfigView {
            config: root + "/.config/rsvp/"@,
            data: root + "/.local/share/rsvp/"@,
            cache: root + "/.cache/rsvp/"@,
        },
        Platform::MacOs => PathConfigView {
            config: root + "/Library/Application Support/rsvp/"@,
            data: root + "/Library/Application Support/rsvp/"@,
            cache: root + "/Library/Caches/rsvp/"@,
        },
        Platform::Windows => PathConfigView {
            config: root + "\\rsvp\\"@,
            data: local_root + "\\rsvp\\"@,
            cache: local_root + "\\rsvp\\cache\\"@,
        },
    }
}

/// The system that the name `os` stands for.
pub fn platform_of(os: &str) -> (r: Option<Platform>)
    ensures
        r == platform_named(os@),
{
    let name = String::from_str(os);
    if name == String::from_str("linux") {
        Some(Platform::Linux)
    } else if name == String::from_str("macos") {
        Some(Platform::MacOs)
    } else if name == String::from_str("windows") {
        Some(Platform::Windows)
    } else {
        None
    }
}

impl PathConfigView {
    /// The file that holds the settings.
    pub open spec fn config_file(self) -> Seq<char> {
        self.config + "config.toml"@
    }

    /// The directory of the cached texts.
    pub open spec fn texts_dir(self) -> Seq<char> {
        self.data + "texts/"@
    }

    /// The directory of the fonts.
    pub open spec fn fonts_dir(self) -> Seq<char> {
        self.data + "fonts/"@
    }

    /// The file that caches the text of the document `title`.
    pub open spec fn text_file(self, title: Seq<char>) -> Seq<char> {
        self.texts_dir() + title + ".txt"@
    }

    /// The file that a chosen font of family `name` is saved to.
    pub open spec fn font_file(self, name: Seq<char>) -> Seq<char> {
        self.fonts_dir() + name
    }

    /// The file that the font of the settings is read from at start.
    pub open spec fn startup_font_file(self, name: Seq<char>) -> Seq<char> {
        self.data + "/fonts/"@ + name
    }

    /// The directories of an installation, in the order they are made.
    pub open spec fn directories(self) -> Seq<Seq<char>> {
        seq![self.config, self.data, self.cache, self.fonts_dir(), self.texts_dir()]
    }
}

impl PathConfig {
    /// The directories on `platform` under the given roots.
    pub fn for_platform(platform: Platform, root: &str, local_root: &str) -> (r: PathConfig)
        ensures
            r@ == platform_paths(platform, root@, local_root@),
    {
        match platform {
            Platform::Linux => PathConfig {
                config: join(root, "/.config/rsvp/"),
                data: join(root, "/.local/share/rsvp/"),
                cache: join(root, "/.cache/rsvp/"),
            },
            Platform::MacOs => PathConfig {
                config: join(root, "/Library/Application Support/rsvp/"),
                data: join(root, "/Library/Application Support/rsvp/"),
                cache: join(root, "/Library/Caches/rsvp/"),
            },
            Platform::Windows => PathConfig {
                config: join(root, "\\rsvp\\"),
                data: join(local_root, "\\rsvp\\"),
                cache: join(local_root, "\\rsvp\\cache\\"),
            },
        }
    }

    /// The file that holds the settings.
    pub fn config_file(&self) -> (r: String)
        ensures
            r@ == self@.config_file(),
    {
        join(self.config.as_str(), "config.toml")
    }

    /// The file that caches the text of the document `title`.
    pub fn text_file(&self, title: &str) -> (r: String)
        ensures
            r@ == self@.text_file(title@),
    {
        join(self.data.as_str(), "texts/").concat(title).concat(".txt")
    }

    /// The file that a chosen font of family `name` is saved to.
    pub fn font_file(&self, name: &str) -> (r: String)
        ensures
            r@ == self@.font_file(name@),
    {
        join(self.data.as_str(), "fonts/").concat(name)
    }

    /// The file that the font of the settings is read from at start.
    pub fn startup_font_file(&self, name: &str) -> (r: String)
        ensures
            r@ == self@.startup_font_file(name@),
    {
        join(self.data.as_str(), "/fonts/").concat(name)
    }

    /// The directories of an installation, in the order they are made.
    pub fn directories(&self) -> (r: Vec<String>)
        ensures
            r@.map_values(|d: String| d@) == self@.directories(),
    {
        let mut dirs: Vec<String> = Vec::new();
        dirs.push(self.config.clone());
        dirs.push(self.data.clone());
        dirs.push(self.cache.clone());
        dirs.push(join(self.data.as_str(), "fonts/"));
        dirs.push(join(self.data.as_str(), "texts/"));
        assert(dirs@.map_values(|d: String| d@) =~= self@.directories());
        dirs
    }
}

} // verus!
