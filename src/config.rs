use vstd::prelude::*;

use crate::error::AppError;
use crate::vectors::pairs_view;

verus! {

broadcast use {vstd::std_specs::vec::group_vec_axioms, vstd::seq::group_seq_axioms};

/// A text written as a JSON string literal, quotes and escapes included.
pub uninterp spec fn json_string_literal(s: Seq<char>) -> Seq<char>;

/// The entries, in key order, of a JSON object whose values are all strings.
pub uninterp spec fn json_string_object(text: Seq<char>) -> Seq<(Seq<char>, Seq<char>)>;

#[verifier::external_type_specification]
#[verifier::external_body]
pub struct ExJsonError(serde_json::Error);

/// Relies on serde_json::to_string on a `str`: the text as a JSON string
/// literal.
#[verifier::external_body]
fn json_quote(s: &str) -> (r: Result<String, serde_json::Error>)
    ensures
        r matches Ok(t) ==> t@ == json_string_literal(s@),
{
    serde_json::to_string(s)
}

/// Relies on serde_json::from_str into a `BTreeMap<String, String>`: the
/// entries of a JSON object whose values are all strings, in key order.
#[verifier::external_body]
fn parse_string_object(text: &str) -> (r: Result<Vec<(String, String)>, serde_json::Error>)
    ensures
        r matches Ok(v) ==> pairs_view(v@) == json_string_object(text@),
{
    match serde_json::from_str::<std::collections::BTreeMap<String, String>>(text) {
        Ok(m) => Ok(m.into_iter().collect()),
        Err(e) => Err(e),
    }
}

/// The configuration file's text for a scan path: a JSON object with the
/// one field `scan_path`, laid out over three lines.
pub open spec fn config_text(scan_path: Seq<char>) -> Seq<char> {
    "{\n  \"scan_path\": "@ + json_string_literal(scan_path) + "\n}"@
}

/// The value of the first entry with the given key.
pub open spec fn entry_lookup(p: Seq<(Seq<char>, Seq<char>)>, key: Seq<char>) -> Option<Seq<char>>
    decreases p.len(),
{
    if p.len() == 0 {
        None
    } else if p[0].0 == key {
        Some(p[0].1)
    } else {
        entry_lookup(p.drop_first(), key)
    }
}

/// Where the notes are: the root directory that a scan starts from.
#[derive(Debug, PartialEq, Eq)]
pub struct AppConfiguration {
    pub scan_path: String,
}

impl AppConfiguration {
    /// A configuration that scans the given directory.
    pub fn new(scan_path: &str) -> (r: Self)
        ensures
            r.scan_path@ == scan_path@,
    {
        AppConfiguration { scan_path: scan_path.to_owned() }
    }

    /// The text of the configuration file.
    pub fn save(&self) -> (r: Result<String, AppError>)
        ensures
            r matches Ok(t) ==> t@ == config_text(self.scan_path@),
            r matches Err(e) ==> e is SerializationError,
    {
        match json_quote(self.scan_path.as_str()) {
            Ok(quoted) => {
                let mut t = "{\n  \"scan_path\": ".to_owned();
                t.append(quoted.as_str());
                t.append("\n}");
                Ok(t)
            },
            Err(e) => Err(AppError::SerializationError(e.to_string())),
        }
    }

    /// The configuration held by the entries of a configuration file: the
    /// value under `scan_path`, which must be there.
    pub fn from_entries(entries: &Vec<(String, String)>) -> (r: Result<Self, AppError>)
        ensures
            match entry_lookup(pairs_view(entries@), "scan_path"@) {
                Some(p) => r matches Ok(c) && c.scan_path@ == p,
                None => r matches Err(AppError::ConfigError(m)) && m@
                    == "missing field `scan_path`"@,
            },
    {
        let wanted = "scan_path".to_owned();
        let ghost whole = pairs_view(entries@);
        let mut i: usize = 0;
        proof {
            assert(whole.subrange(0, whole.len() as int) =~= whole);
        }
        while i < entries.len()
            invariant
                i <= entries@.len(),
                wanted@ == "scan_path"@,
                whole == pairs_view(entries@),
                entry_lookup(whole, "scan_path"@) == entry_lookup(
                    whole.subrange(i as int, whole.len() as int),
                    "scan_path"@,
                ),
            decreases entries.len() - i,
        {
            proof {
                assert(whole.subrange(i as int, whole.len() as int).drop_first() =~= whole.subrange(
                    i + 1,
                    whole.len() as int,
                ));
            }
            if entries[i].0 == wanted {
                return Ok(AppConfiguration { scan_path: entries[i].1.clone() });
            }
            i = i + 1;
        }
        Err(AppError::ConfigError("missing field `scan_path`".to_owned()))
    }

    /// Reads the configuration from the file's text, if the file was found.
    /// No file is a configuration error; text that is not a JSON object of
    /// strings is a serialization error.
    pub fn load(content: Option<&str>) -> (r: Result<Self, AppError>)
        ensures
            content is None ==> (r matches Err(AppError::ConfigError(m)) && m@
                == "Config file not found"@),
            content matches Some(t) ==> match r {
                Ok(c) => entry_lookup(json_string_object(t@), "scan_path"@) == Some(c.scan_path@),
                Err(AppError::ConfigError(m)) => entry_lookup(json_string_object(t@), "scan_path"@)
                    is None && m@ == "missing field `scan_path`"@,
                Err(e) => e is SerializationError,
            },
    {
        match content {
            None => Err(AppError::ConfigError("Config file not found".to_owned())),
            Some(text) => match parse_string_object(text) {
                Ok(entries) => AppConfiguration::from_entries(&entries),
                Err(e) => Err(AppError::SerializationError(e.to_string())),
            },
        }
    }
}

} // verus!
