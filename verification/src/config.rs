//! The options a window is created with, and the builder for the script
//! that is injected into a fresh content view.

use vstd::prelude::*;
use vstd::string::StringExecFns;
use crate::conversion::{ConversionError, ConversionTarget, LuaType};

verus! {

/// What was read from the `headers` field of a configuration table.
#[derive(Clone, Debug)]
pub enum HeadersField {
    /// The field is absent or is not a table.
    Absent,
    /// The field is a table of header names and values.
    Pairs(Vec<(String, String)>),
    /// The field is a table, but not one of header names and values; the
    /// text says what is wrong with it.
    Malformed(String),
}

/// Whether no name occurs twice among the protocol handlers `handlers`. The
/// handlers of a configuration are a map from names, kept as a list.
pub open spec fn distinct_names<H>(handlers: Seq<(String, H)>) -> bool {
    forall|i: int, j: int|
        0 <= i < j < handlers.len() ==> (#[trigger] handlers[i]).0@ != (#[trigger] handlers[j]).0@
}

/// Tells whether no name occurs twice among `handlers`.
pub fn names_are_distinct<H>(handlers: &Vec<(String, H)>) -> (distinct: bool)
    ensures
        distinct == distinct_names(handlers@),
{
    let n = handlers.len();
    let mut j: usize = 0;
    while j < n
        invariant
            j <= n,
            n == handlers@.len(),
            forall|a: int, b: int|
                0 <= a < b < j ==> (#[trigger] handlers@[a]).0@ != (#[trigger] handlers@[b]).0@,
        decreases n - j,
    {
        let mut i: usize = 0;
        while i < j
            invariant
                i <= j,
                j < n,
                n == handlers@.len(),
                forall|a: int| 0 <= a < i ==> (#[trigger] handlers@[a]).0@ != handlers@[j as int].0@,
            decreases j - i,
        {
            if handlers[i].0 == handlers[j].0 {
                assert(handlers@[i as int].0@ == handlers@[j as int].0@);
                return false;
            }
            i += 1;
        }
        j += 1;
    }
    true
}

/// What was read from a configuration table. Each field holds the reading of
/// the option of the same name; `None` stands for an option that is absent
/// or has a value of the wrong kind. `H` is the handle of a protocol handler.
pub struct ConfigTable<H> {
    pub with_devtools: Option<bool>,
    pub init_script: Option<String>,
    pub html: Option<String>,
    pub url: Option<String>,
    pub headers: HeadersField,
    pub custom_protocols: Option<Vec<(String, H)>>,
}

impl<H> ConfigTable<H> {
    /// Whether the reading is one of a table: a table has each key once, so
    /// no protocol name occurs twice.
    pub open spec fn well_formed(&self) -> bool {
        match self.custom_protocols {
            Some(handlers) => distinct_names(handlers@),
            None => true,
        }
    }

    /// Tells whether the reading is well formed.
    pub fn is_well_formed(&self) -> (ok: bool)
        ensures
            ok == self.well_formed(),
    {
        match &self.custom_protocols {
            Some(handlers) => names_are_distinct(handlers),
            None => true,
        }
    }
}

/// A script value offered as a window configuration.
pub enum ConfigValue<H> {
    /// A table, with what was read from it.
    Table(ConfigTable<H>),
    /// Any other value, of this type.
    Other(LuaType),
}

impl<H> ConfigValue<H> {
    /// Whether the value is well formed: a table's reading is.
    pub open spec fn well_formed(&self) -> bool {
        match self {
            ConfigValue::Table(table) => table.well_formed(),
            ConfigValue::Other(_) => true,
        }
    }

    /// Tells whether the value is well formed.
    pub fn is_well_formed(&self) -> (ok: bool)
        ensures
            ok == self.well_formed(),
    {
        match self {
            ConfigValue::Table(table) => table.is_well_formed(),
            ConfigValue::Other(_) => true,
        }
    }
}

/// Why a value was refused as a window configuration.
#[derive(Clone, Debug, PartialEq, Eq)]
pub enum ConfigError {
    /// The value is not a table.
    Conversion(ConversionError),
    /// The `headers` option is not a table of header names and values; the
    /// text says what is wrong with it.
    MalformedHeaders(String),
}

/// What a fresh content view shows.
#[derive(Clone, Debug, PartialEq, Eq)]
pub enum InitialContent {
    /// Nothing: neither a document nor an address was given.
    Blank,
    /// The document at this address.
    Url(String),
    /// This HTML document.
    Html(String),
}

/// The options a window is created with. No protocol name occurs twice
/// among its handlers.
pub struct LuaWebViewConfig<H> {
    pub with_devtools: bool,
    pub init_script: Option<String>,
    pub html: Option<String>,
    pub url: Option<String>,
    pub headers: Vec<(String, String)>,
    pub custom_protocols: Vec<(String, H)>,
}

impl<H> LuaWebViewConfig<H> {
    /// Whether the configuration is well formed: no protocol name occurs
    /// twice among its handlers.
    pub open spec fn well_formed(&self) -> bool {
        distinct_names(self.custom_protocols@)
    }

    /// Whether `config` is what [`LuaWebViewConfig::from_lua`] makes of the
    /// readings `table`: every option that was read is taken over unchanged,
    /// the developer tools are off unless asked for, and a missing list is
    /// empty.
    pub open spec fn taken_from(config: LuaWebViewConfig<H>, table: ConfigTable<H>) -> bool {
        &&& config.with_devtools == (table.with_devtools == Some(true))
        &&& config.init_script == table.init_script
        &&& config.html == table.html
        &&& config.url == table.url
        &&& match table.headers {
            HeadersField::Pairs(pairs) => config.headers == pairs,
            _ => config.headers@ == Seq::<(String, String)>::empty(),
        }
        &&& match table.custom_protocols {
            Some(handlers) => config.custom_protocols == handlers,
            None => config.custom_protocols@ == Seq::<(String, H)>::empty(),
        }
    }

    /// Converts a script value into a window configuration.
    ///
    /// Every table converts, except one whose `headers` option is malformed,
    /// which is refused with what is wrong with it. A value that is no table
    /// is refused with its type. The configuration made is well formed.
    pub fn from_lua(value: ConfigValue<H>) -> (converted: Result<LuaWebViewConfig<H>, ConfigError>)
        requires
            value.well_formed(),
        ensures
            match value {
                ConfigValue::Table(table) => match table.headers {
                    HeadersField::Malformed(reason) => converted matches Err(error) && error
                        == ConfigError::MalformedHeaders(reason),
                    _ => converted matches Ok(config) && LuaWebViewConfig::taken_from(config, table)
                        && config.well_formed(),
                },
                ConfigValue::Other(from) => converted matches Err(error) && error
                    == ConfigError::Conversion(
                    ConversionError { from, to: ConversionTarget::Table },
                ),
            },
    {
        match value {
            ConfigValue::Table(table) => {
                let headers = match table.headers {
                    HeadersField::Absent => Vec::new(),
                    HeadersField::Pairs(pairs) => pairs,
                    HeadersField::Malformed(reason) => {
                        return Err(ConfigError::MalformedHeaders(reason));
                    },
                };
                let with_devtools = match table.with_devtools {
                    Some(wanted) => wanted,
                    None => false,
                };
                let custom_protocols = match table.custom_protocols {
                    Some(handlers) => handlers,
                    None => Vec::new(),
                };
                Ok(
                    LuaWebViewConfig {
                        with_devtools,
                        init_script: table.init_script,
                        html: table.html,
                        url: table.url,
                        headers,
                        custom_protocols,
                    },
                )
            },
            ConfigValue::Other(from) => Err(
                ConfigError::Conversion(ConversionError { from, to: ConversionTarget::Table }),
            ),
        }
    }

    /// What the fresh content view shows. An address, if given, decides; an
    /// HTML document is shown only when no address is given.
    pub open spec fn content(&self) -> InitialContent {
        match self.url {
            Some(url) => InitialContent::Url(url),
            None => match self.html {
                Some(html) => InitialContent::Html(html),
                None => InitialContent::Blank,
            },
        }
    }

    /// What the fresh content view shows.
    pub fn initial_content(&self) -> (content: InitialContent)
        ensures
            content == self.content(),
    {
        match &self.url {
            Some(url) => InitialContent::Url(url.clone()),
            None => match &self.html {
                Some(html) => InitialContent::Html(html.clone()),
                None => InitialContent::Blank,
            },
        }
    }
}

/// The script that is injected into a fresh content view, built up from
/// statements. Every piece that is written is closed with a semicolon.
#[derive(Clone, Debug)]
pub struct LuaWebViewScript {
    raw: String,
}

impl View for LuaWebViewScript {
    type V = Seq<char>;

    closed spec fn view(&self) -> Seq<char> {
        self.raw@
    }
}

impl LuaWebViewScript {
    /// An empty script.
    pub fn new() -> (script: LuaWebViewScript)
        ensures
            script@ == Seq::<char>::empty(),
    {
        LuaWebViewScript { raw: String::new() }
    }

    /// The text of the script.
    pub fn read(self) -> (text: String)
        ensures
            text@ == self@,
    {
        self.raw
    }

    /// Appends `string` and a semicolon.
    pub fn write(&mut self, string: &str)
        ensures
            final(self)@ == old(self)@ + string@ + seq![';'],
    {
        proof {
            reveal_strlit(";");
        }
        self.raw.append(string);
        self.raw.append(";");
        assert(";"@ =~= seq![';']);
    }

    /// Appends the text of `option`, or nothing if there is none, and a
    /// semicolon.
    pub fn extract_from_option(&mut self, option: Option<&str>)
        ensures
            final(self)@ == old(self)@ + (match option {
                Some(string) => string@,
                None => Seq::<char>::empty(),
            }) + seq![';'],
    {
        match option {
            Some(string) => {
                self.write(string);
            },
            None => {
                self.write("");
                proof {
                    reveal_strlit("");
                }
                assert(""@ =~= Seq::<char>::empty());
            },
        }
    }
}

} // verus!
