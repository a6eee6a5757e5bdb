use vstd::prelude::*;
use vstd::string::*;

verus! {

/// One header rule: a name and the value to write under it.
#[derive(Clone)]
pub struct HeaderConfig {
    pub header_name: String,
    pub header_value: String,
}

impl View for HeaderConfig {
    type V = (Seq<char>, Seq<char>);

    open spec fn view(&self) -> (Seq<char>, Seq<char>) {
        (self.header_name@, self.header_value@)
    }
}

/// A header injection policy: an optional single header and an optional
/// ordered list of rules.
#[derive(Clone)]
pub struct Config {
    pub header_name: Option<String>,
    pub header_value: Option<String>,
    pub headers: Option<Vec<HeaderConfig>>,
}

/// How a configuration failed to load.
#[derive(Clone, Copy, Debug, PartialEq, Eq, Structural)]
pub enum ErrorKind {
    Syntax,
    Data,
    Unexpected,
}

/// The class that the JSON parser gives to a failure.
#[derive(Clone, Copy, Debug, PartialEq, Eq, Structural)]
pub enum JsonCategory {
    Io,
    Syntax,
    Data,
    Eof,
}

#[derive(Debug)]
pub struct ConfigError {
    kind: ErrorKind,
}

pub open spec fn kind_of_category(c: JsonCategory) -> ErrorKind {
    match c {
        JsonCategory::Syntax => ErrorKind::Syntax,
        JsonCategory::Data => ErrorKind::Data,
        _ => ErrorKind::Unexpected,
    }
}

pub open spec fn message_of(k: ErrorKind) -> Seq<char> {
    match k {
        ErrorKind::Syntax => "Invalid JSON string"@,
        ErrorKind::Data => "Invalid data for this policy"@,
        ErrorKind::Unexpected => "Unexpected JSON error"@,
    }
}

pub open spec fn default_name() -> Seq<char> {
    "x-test-value"@
}

pub open spec fn default_value() -> Seq<char> {
    "my-test-value"@
}

impl ConfigError {
    pub closed spec fn spec_kind(&self) -> ErrorKind {
        self.kind
    }

    pub fn new(kind: ErrorKind) -> (e: ConfigError)
        ensures
            e.spec_kind() == kind,
    {
        ConfigError { kind }
    }

    /// The error for a failure that the JSON parser classified as `category`.
    pub fn from_category(category: JsonCategory) -> (e: ConfigError)
        ensures
            e.spec_kind() == kind_of_category(category),
    {
        let kind = match category {
            JsonCategory::Syntax => ErrorKind::Syntax,
            JsonCategory::Data => ErrorKind::Data,
            _ => ErrorKind::Unexpected,
        };
        ConfigError { kind }
    }

    pub fn kind(&self) -> (k: ErrorKind)
        ensures
            k == self.spec_kind(),
    {
        self.kind
    }

    /// The error's message.
    pub fn to_string(&self) -> (s: String)
        ensures
            s@ == message_of(self.spec_kind()),
    {
        match self.kind {
            ErrorKind::Syntax => String::from_str("Invalid JSON string"),
            ErrorKind::Data => String::from_str("Invalid data for this policy"),
            ErrorKind::Unexpected => String::from_str("Unexpected JSON error"),
        }
    }
}

impl Config {
    /// The single header name and value are both present or both absent.
    pub open spec fn wf(&self) -> bool {
        self.header_name.is_some() == self.header_value.is_some()
    }

    pub fn new(header_name: String, header_value: String, headers: Vec<HeaderConfig>) -> (c: Config)
        ensures
            c.header_name == Some(header_name),
            c.header_value == Some(header_value),
            c.headers == Some(headers),
            c.wf(),
    {
        Config { header_name: Some(header_name), header_value: Some(header_value), headers: Some(headers) }
    }

    /// Checks a decoded policy: it is accepted exactly when its single header
    /// name and value are both present or both absent, whatever its list holds.
    pub fn validate(self) -> (r: Result<Config, ConfigError>)
        ensures
            self.wf() ==> r == Ok::<Config, ConfigError>(self),
            !self.wf() ==> (r matches Err(e) && e.spec_kind() == ErrorKind::Data),
    {
        let name_present = self.header_name.is_some();
        let value_present = self.header_value.is_some();
        if name_present != value_present {
            Err(ConfigError { kind: ErrorKind::Data })
        } else {
            Ok(self)
        }
    }

    /// Loads a policy from what the JSON parser made of the payload: the
    /// decoded policy, or the class of the parse failure.
    pub fn from_parsed(parsed: Result<Config, JsonCategory>) -> (r: Result<Config, ConfigError>)
        ensures
            match parsed {
                Ok(c) => if c.wf() {
                    r == Ok::<Config, ConfigError>(c)
                } else {
                    r matches Err(e) && e.spec_kind() == ErrorKind::Data
                },
                Err(cat) => r matches Err(e) && e.spec_kind() == kind_of_category(cat),
            },
    {
        match parsed {
            Ok(c) => c.validate(),
            Err(cat) => Err(ConfigError::from_category(cat)),
        }
    }
}

impl Default for Config {
    /// The built-in policy: one fixed header and an empty rule list.
    fn default() -> (c: Config)
        ensures
            c.header_name matches Some(n) && n@ == default_name(),
            c.header_value matches Some(v) && v@ == default_value(),
            c.headers matches Some(h) && h@.len() == 0,
    {
        Config::new(String::from_str("x-test-value"), String::from_str("my-test-value"), Vec::new())
    }
}

} // verus!
