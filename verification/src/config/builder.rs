//! Which sources the settings are read from, and in which order.
//!
//! Loading merges layers: the built-in defaults, then an optional custom TOML
//! document (a file or an inline string), then environment variables with a
//! prefix, `__` separating nested keys. Later layers override earlier ones.
use vstd::prelude::*;

verus! {

/// A custom TOML document layered over the defaults.
pub enum MergedData {
    /// A TOML file, by path.
    File(String),
    /// TOML text.
    Content(String),
}

/// Collects the sources settings are loaded from.
pub struct ConfigBuilder {
    merged_data: Option<MergedData>,
    env_prefix: String,
}

/// One source of settings, in merge order.
pub enum ConfigLayer {
    /// The built-in default TOML document.
    Defaults,
    /// A TOML file, by path.
    TomlFile(String),
    /// TOML text.
    TomlString(String),
    /// Environment variables named `prefix` + key, nested keys joined by `separator`.
    Env { prefix: String, separator: &'static str },
}

impl ConfigBuilder {
    /// The custom document layered over the defaults, if any.
    pub closed spec fn custom(&self) -> Option<MergedData> {
        self.merged_data
    }

    /// The prefix environment variables must carry.
    pub closed spec fn prefix(&self) -> Seq<char> {
        self.env_prefix@
    }

    /// A builder with no custom document and the `PROXID__` prefix.
    pub fn new() -> (b: Self)
        ensures
            b.custom() is None,
            b.prefix() == "PROXID__"@,
    {
        Self::default()
    }

    /// Sets (or, with `None`, removes) the custom document.
    pub fn with_custom_config(self, path: Option<MergedData>) -> (b: Self)
        ensures
            b.custom() == path,
            b.prefix() == self.prefix(),
    {
        let mut this = self;
        this.merged_data = path;
        this
    }

    /// Sets the prefix of the environment variables.
    pub fn with_env_prefix(self, prefix: String) -> (b: Self)
        ensures
            b.custom() == self.custom(),
            b.prefix() == prefix@,
    {
        let mut this = self;
        this.env_prefix = prefix;
        this
    }

    /// The layers to merge, lowest precedence first: the defaults, the custom
    /// document if one was set, then the environment.
    pub fn layers(self) -> (r: Vec<ConfigLayer>)
        ensures
            r@.len() == if self.custom() is Some { 3int } else { 2int },
            r@[0] is Defaults,
            match self.custom() {
                Some(MergedData::File(p)) => r@[1] == ConfigLayer::TomlFile(p),
                Some(MergedData::Content(c)) => r@[1] == ConfigLayer::TomlString(c),
                None => true,
            },
            r@.last() matches ConfigLayer::Env { prefix, separator } && prefix@ == self.prefix()
                && separator@ == "__"@,
    {
        let mut layers: Vec<ConfigLayer> = Vec::new();
        layers.push(ConfigLayer::Defaults);
        match self.merged_data {
            Some(MergedData::File(path)) => layers.push(ConfigLayer::TomlFile(path)),
            Some(MergedData::Content(content)) => layers.push(ConfigLayer::TomlString(content)),
            None => {},
        }
        layers.push(ConfigLayer::Env { prefix: self.env_prefix, separator: "__" });
        layers
    }
}

impl Default for ConfigBuilder {
    fn default() -> (b: Self)
        ensures
            b.custom() is None,
            b.prefix() == "PROXID__"@,
    {
        ConfigBuilder { merged_data: None, env_prefix: String::from_str("PROXID__") }
    }
}

} // verus!
