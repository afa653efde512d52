//! The user's settings and the cache that serves them.
//!
//! The settings are read once, parsed, and kept; later reads are answered from
//! the cache until it is cleared.
use vstd::prelude::*;

verus! {

/// The user's settings. Every field is optional: a missing setting takes its
/// default where it is used.
#[derive(Debug, PartialEq, Eq)]
pub struct Config {
    pub hotkey: Option<String>,
    pub display_window_hotkey: Option<String>,
    pub writing_hotkey: Option<String>,
    pub always_show_icons: Option<bool>,
    pub hide_the_icon_in_the_dock: Option<bool>,
}

/// Copies an optional string, keeping its value.
pub(crate) fn copy_opt_string(s: &Option<String>) -> (r: Option<String>)
    ensures
        r == *s,
{
    match s {
        Some(v) => Some(v.clone()),
        None => None,
    }
}

impl Config {
    /// A field-by-field copy of the settings.
    pub fn duplicate(&self) -> (r: Config)
        ensures
            r == *self,
    {
        Config {
            hotkey: copy_opt_string(&self.hotkey),
            display_window_hotkey: copy_opt_string(&self.display_window_hotkey),
            writing_hotkey: copy_opt_string(&self.writing_hotkey),
            always_show_icons: self.always_show_icons,
            hide_the_icon_in_the_dock: self.hide_the_icon_in_the_dock,
        }
    }

    /// Whether the main window is kept out of the task bar / dock.
    /// Unless the settings say otherwise, it is.
    pub fn skip_taskbar(&self) -> (r: bool)
        ensures
            r == match self.hide_the_icon_in_the_dock {
                Some(b) => b,
                None => true,
            },
    {
        match self.hide_the_icon_in_the_dock {
            Some(b) => b,
            None => true,
        }
    }
}

/// Why the settings could not be had.
#[derive(Debug, PartialEq, Eq)]
pub enum ConfigError {
    /// The settings text could not be read.
    Content(String),
    /// The settings text is not a valid settings document.
    Parse(String),
}

/// The settings text that is read when the cache is empty.
pub open spec fn config_content() -> Seq<char> {
    "{}"@
}

/// What a load returns for the parser's answer `parsed`.
pub open spec fn load_outcome(parsed: Result<Config, String>) -> Result<Config, ConfigError> {
    match parsed {
        Ok(c) => Ok(c),
        Err(m) => Err(ConfigError::Parse(m)),
    }
}

/// What a lookup leaves in a cache that held `cached`, when the parser, if it
/// is asked, answers `parsed`: the result and the cache afterwards.
pub open spec fn lookup(cached: Option<Config>, parsed: Result<Config, String>) -> (
    Result<Config, ConfigError>,
    Option<Config>,
) {
    match cached {
        Some(c) => (Ok(c), Some(c)),
        None => match parsed {
            Ok(c) => (Ok(c), Some(c)),
            Err(m) => (Err(ConfigError::Parse(m)), None),
        },
    }
}

/// The settings last loaded, if any.
pub struct ConfigCache {
    cached: Option<Config>,
}

impl ConfigCache {
    /// The settings held, if any.
    pub closed spec fn cached(&self) -> Option<Config> {
        self.cached
    }

    /// An empty cache.
    pub fn new() -> (r: ConfigCache)
        ensures
            r.cached() is None,
    {
        ConfigCache { cached: None }
    }

    /// A copy of the settings held, if any.
    pub fn peek(&self) -> (r: Option<Config>)
        ensures
            r == self.cached(),
    {
        match &self.cached {
            Some(c) => Some(c.duplicate()),
            None => None,
        }
    }
}

/// Drops the cached settings, so that the next lookup reads them again.
pub fn clear_config_cache(cache: &mut ConfigCache)
    ensures
        final(cache).cached() is None,
{
    cache.cached = None;
}

/// The settings text, as the front end is given it. It is the same whether or
/// not the application has finished starting.
pub fn get_config_content(app_ready: bool) -> (r: String)
    ensures
        r@ == config_content(),
        r@ == "{}"@,
{
    if app_ready {
        match get_config_content_by_app() {
            Ok(s) => s,
            Err(_) => "{}".to_owned(),
        }
    } else {
        "{}".to_owned()
    }
}

/// The settings text that a lookup parses: an empty settings document.
pub fn get_config_content_by_app() -> (r: Result<String, String>)
    ensures
        r matches Ok(s) && s@ == config_content(),
        r matches Ok(s) && s@ == "{}"@,
{
    Ok("{}".to_owned())
}

/// The settings: the cached ones if there are any; else the settings text is
/// parsed with `parse`, and on success the result is cached and returned.
/// On failure the cache stays empty and the parser's message is returned.
pub fn get_config_by_app<F: Fn(&str) -> Result<Config, String>>(
    cache: &mut ConfigCache,
    parse: F,
) -> (r: Result<Config, ConfigError>)
    requires
        forall|s: &str| call_requires(parse, (s,)),
    ensures
        old(cache).cached() matches Some(c) ==> r == Ok::<Config, ConfigError>(c)
            && final(cache).cached() == old(cache).cached(),
        old(cache).cached() is None ==> exists|s: &str, p: Result<Config, String>|
            #![trigger call_ensures(parse, (s,), p)]
            s@ == config_content() && call_ensures(parse, (s,), p) && (r, final(cache).cached())
                == lookup(old(cache).cached(), p) && (p matches Ok(c) ==> r == Ok::<
                Config,
                ConfigError,
            >(c) && final(cache).cached() == Some(c)) && (p matches Err(m) ==> r == Err::<
                Config,
                ConfigError,
            >(ConfigError::Parse(m)) && final(cache).cached() is None),
        r matches Ok(c) ==> final(cache).cached() == Some(c),
{
    match cache.peek() {
        Some(c) => Ok(c),
        None => {
            let content = match get_config_content_by_app() {
                Ok(s) => s,
                Err(e) => {
                    return Err(ConfigError::Content(e));
                },
            };
            let parsed = parse(content.as_str());
            match parsed {
                Ok(c) => {
                    cache.cached = Some(c.duplicate());
                    Ok(c)
                },
                Err(m) => Err(ConfigError::Parse(m)),
            }
        },
    }
}

/// The settings of the running application; see [`get_config_by_app`].
pub fn get_config<F: Fn(&str) -> Result<Config, String>>(cache: &mut ConfigCache, parse: F) -> (r:
    Result<Config, ConfigError>)
    requires
        forall|s: &str| call_requires(parse, (s,)),
    ensures
        old(cache).cached() matches Some(c) ==> r == Ok::<Config, ConfigError>(c)
            && final(cache).cached() == old(cache).cached(),
        old(cache).cached() is None ==> exists|s: &str, p: Result<Config, String>|
            #![trigger call_ensures(parse, (s,), p)]
            s@ == config_content() && call_ensures(parse, (s,), p) && (r, final(cache).cached())
                == lookup(old(cache).cached(), p) && (p matches Ok(c) ==> r == Ok::<
                Config,
                ConfigError,
            >(c) && final(cache).cached() == Some(c)) && (p matches Err(m) ==> r == Err::<
                Config,
                ConfigError,
            >(ConfigError::Parse(m)) && final(cache).cached() is None),
        r matches Ok(c) ==> final(cache).cached() == Some(c),
{
    get_config_by_app(cache, parse)
}

/// Once a lookup has returned settings, every later lookup returns the same
/// settings and leaves the cache as it is, whatever the parser would answer.
pub proof fn law_lookup_memoizes(
    cached: Option<Config>,
    first: Result<Config, String>,
    second: Result<Config, String>,
)
    ensures
        lookup(cached, first).0 is Ok ==> lookup(lookup(cached, first).1, second) == lookup(
            cached,
            first,
        ),
{
}

/// A lookup that fails caches nothing: the cache was empty and stays empty,
/// so the next lookup parses again.
pub proof fn law_failed_lookup_caches_nothing(cached: Option<Config>, parsed: Result<Config, String>)
    ensures
        lookup(cached, parsed).0 is Err ==> cached is None && lookup(cached, parsed).1 is None,
{
}

/// On an empty cache, as after [`clear_config_cache`], a lookup returns what
/// the parser made of the settings text.
pub proof fn law_lookup_on_empty_cache_parses(parsed: Result<Config, String>)
    ensures
        lookup(None, parsed).0 == load_outcome(parsed),
{
}

/// What a lookup returns is what the cache holds afterwards: settings that
/// are served are exactly the settings kept, so no later lookup can see other
/// ones.
pub proof fn law_lookup_keeps_what_it_returns(cached: Option<Config>, parsed: Result<Config, String>)
    ensures
        lookup(cached, parsed).0 matches Ok(c) ==> lookup(cached, parsed).1 == Some(c),
        cached matches Some(c) ==> lookup(cached, parsed) == (
            Ok::<Config, ConfigError>(c),
            Some(c),
        ),
        parsed matches Ok(c) ==> lookup(None, parsed) == (Ok::<Config, ConfigError>(c), Some(c)),
        parsed matches Err(m) ==> lookup(None, parsed) == (
            Err::<Config, ConfigError>(ConfigError::Parse(m)),
            None::<Config>,
        ),
{
}

/// Two lookups in a row return the same settings when the first succeeds,
/// whatever the parser answers the second time.
pub proof fn law_second_lookup_returns_first(
    cached: Option<Config>,
    first: Result<Config, String>,
    second: Result<Config, String>,
)
    ensures
        lookup(cached, first).0 matches Ok(c) ==> lookup(lookup(cached, first).1, second).0 == Ok::<
            Config,
            ConfigError,
        >(c),
{
}

} // verus!
