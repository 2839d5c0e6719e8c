//! Loading the display colors from a TOML configuration document. The
//! document is parsed by the `toml` crate behind trusted wrappers; everything
//! decided about the parsed values — which keys are recognized, the fallback
//! to defaults, the validation of the color strings — is verified here.

use vstd::prelude::*;
use vstd::string::*;

use crate::color::{hex_to_rgb, valid_hex_color, Config};

verus! {

#[verifier::external_type_specification]
#[verifier::external_body]
pub struct ExTomlValue(toml::Value);

#[verifier::external_type_specification]
#[verifier::external_body]
#[verifier::reject_recursive_types(K)]
#[verifier::reject_recursive_types(V)]
pub struct ExTomlMap<K, V>(toml::map::Map<K, V>);

/// Whether the `toml` crate parses the document `s` as a table.
pub uninterp spec fn toml_parses(s: Seq<char>) -> bool;

/// The lookup of `key` in the table parsed from the document `s`: `None`
/// where the key is absent, `Some(None)` where it holds no string, and
/// `Some(Some(v))` where it holds the string `v`.
pub uninterp spec fn toml_str_entry(s: Seq<char>, key: Seq<char>) -> Option<Option<Seq<char>>>;

/// The lookup of `key` in the parsed table `t`, as in [`toml_str_entry`].
pub uninterp spec fn table_str_entry(
    t: toml::map::Map<String, toml::Value>,
    key: Seq<char>,
) -> Option<Option<Seq<char>>>;

/// Relies on `toml::Table`'s `FromStr`: whether a document parses, and what
/// its table holds, are functions of the document text alone.
#[verifier::external_body]
fn parse_table(s: &str) -> (r: Option<toml::Table>)
    ensures
        r is Some <==> toml_parses(s@),
        r matches Some(t) ==> forall|k: Seq<char>| table_str_entry(t, k) == toml_str_entry(s@, k),
{
    s.parse::<toml::Table>().ok()
}

/// The outcome of looking one key up in a parsed table.
pub enum StrLookup {
    /// The key is absent.
    Missing,
    /// The key is present but holds no string.
    NotText,
    /// The key holds this string.
    Text(String),
}

/// Relies on `toml::map::Map::get` and `toml::Value::as_str`: `get` returns
/// the value under the key if any, and `as_str` returns the `String`
/// variant's content and nothing of the other variants.
#[verifier::external_body]
fn table_str_value(t: &toml::Table, key: &str) -> (r: StrLookup)
    ensures
        r is Missing <==> table_str_entry(*t, key@) is None,
        r is NotText <==> table_str_entry(*t, key@) == Some(Option::<Seq<char>>::None),
        r matches StrLookup::Text(s) ==> table_str_entry(*t, key@) == Some(Some(s@)),
{
    match t.get(key) {
        Option::None => StrLookup::Missing,
        Option::Some(v) => match v.as_str() {
            Option::None => StrLookup::NotText,
            Option::Some(s) => StrLookup::Text(s.to_owned()),
        },
    }
}

/// A configuration failure, fatal at startup.
#[derive(PartialEq, Eq, Structural, Clone, Copy, Debug)]
pub enum ConfigError {
    /// The document does not parse as TOML.
    Document,
    /// A recognized key holds no string.
    Value,
    /// A recognized key holds a malformed color string.
    Color,
}

/// Whether one looked-up entry is acceptable: absent, or a well-formed color
/// string.
pub open spec fn spec_entry_ok(e: Option<Option<Seq<char>>>) -> bool {
    match e {
        Option::None => true,
        Some(inner) => match inner {
            Option::None => false,
            Some(s) => valid_hex_color(s),
        },
    }
}

/// The error one looked-up entry gives, if any.
pub open spec fn spec_entry_err(e: Option<Option<Seq<char>>>) -> Option<ConfigError> {
    match e {
        Option::None => Option::None,
        Some(inner) => match inner {
            Option::None => Some(ConfigError::Value),
            Some(s) => if valid_hex_color(s) {
                Option::None
            } else {
                Some(ConfigError::Color)
            },
        },
    }
}

/// The color one looked-up entry settles on: the provided string, or the
/// default where the key is absent.
pub open spec fn spec_chosen(e: Option<Option<Seq<char>>>, dflt: Seq<char>) -> Seq<char> {
    match e {
        Some(inner) => match inner {
            Some(s) => s,
            Option::None => dflt,
        },
        Option::None => dflt,
    }
}

/// Resolves one recognized key against the table: the default where absent,
/// an error where it holds no string or no well-formed color.
fn pick_color(t: &toml::Table, key: &str, dflt: String) -> (r: Result<String, ConfigError>)
    requires
        valid_hex_color(dflt@),
    ensures
        r is Ok <==> spec_entry_ok(table_str_entry(*t, key@)),
        r matches Ok(s) ==> s@ == spec_chosen(table_str_entry(*t, key@), dflt@) && valid_hex_color(
            s@,
        ),
        r matches Err(e) ==> Some(e) == spec_entry_err(table_str_entry(*t, key@)),
{
    match table_str_value(t, key) {
        StrLookup::Missing => Ok(dflt),
        StrLookup::NotText => Err(ConfigError::Value),
        StrLookup::Text(s) => match hex_to_rgb(s.as_str()) {
            Ok(_) => Ok(s),
            Err(_) => Err(ConfigError::Color),
        },
    }
}

/// The first error among the four recognized keys of the table, in the order
/// they are resolved.
pub open spec fn spec_table_err(t: toml::map::Map<String, toml::Value>) -> Option<ConfigError> {
    if spec_entry_err(table_str_entry(t, "main_color"@)) is Some {
        spec_entry_err(table_str_entry(t, "main_color"@))
    } else if spec_entry_err(table_str_entry(t, "background_color"@)) is Some {
        spec_entry_err(table_str_entry(t, "background_color"@))
    } else if spec_entry_err(table_str_entry(t, "timeline_color"@)) is Some {
        spec_entry_err(table_str_entry(t, "timeline_color"@))
    } else {
        spec_entry_err(table_str_entry(t, "hover_background"@))
    }
}

/// The configuration the parsed table settles on: every recognized key
/// overrides its default; every provided value must be a well-formed color.
pub fn config_from_table(t: &toml::Table) -> (r: Result<Config, ConfigError>)
    ensures
        r is Ok <==> spec_table_err(*t) is None,
        r matches Ok(c) ==> {
            &&& c.main_color@ == spec_chosen(table_str_entry(*t, "main_color"@), "#B287A1"@)
            &&& c.background_color@ == spec_chosen(
                table_str_entry(*t, "background_color"@),
                "#111111"@,
            )
            &&& c.timeline_color@ == spec_chosen(
                table_str_entry(*t, "timeline_color"@),
                "#829f62"@,
            )
            &&& c.hover_background@ == spec_chosen(
                table_str_entry(*t, "hover_background"@),
                "#0E0E0E"@,
            )
            &&& c.wf()
        },
        r matches Err(e) ==> Some(e) == spec_table_err(*t),
{
    proof {
        lemma_default_colors_valid();
    }
    let main_color = match pick_color(t, "main_color", String::from_str("#B287A1")) {
        Ok(s) => s,
        Err(e) => {
            return Err(e);
        },
    };
    let background_color = match pick_color(t, "background_color", String::from_str("#111111")) {
        Ok(s) => s,
        Err(e) => {
            return Err(e);
        },
    };
    let timeline_color = match pick_color(t, "timeline_color", String::from_str("#829f62")) {
        Ok(s) => s,
        Err(e) => {
            return Err(e);
        },
    };
    let hover_background = match pick_color(t, "hover_background", String::from_str("#0E0E0E")) {
        Ok(s) => s,
        Err(e) => {
            return Err(e);
        },
    };
    Ok(Config { main_color, background_color, timeline_color, hover_background })
}

/// The default color strings are themselves well-formed colors.
proof fn lemma_default_colors_valid()
    ensures
        valid_hex_color("#B287A1"@),
        valid_hex_color("#111111"@),
        valid_hex_color("#829f62"@),
        valid_hex_color("#0E0E0E"@),
{
    reveal_strlit("#B287A1");
    reveal_strlit("#111111");
    reveal_strlit("#829f62");
    reveal_strlit("#0E0E0E");
}

/// Loads the configuration from a document's text: an unparsable document, a
/// recognized key holding no string, and a malformed color string are each a
/// distinct fatal error; recognized keys that are absent fall back to their
/// defaults.
pub fn load_config(text: &str) -> (r: Result<Config, ConfigError>)
    ensures
        r == Result::<Config, ConfigError>::Err(ConfigError::Document) <==> !toml_parses(text@),
        toml_parses(text@) ==> (r is Ok <==> spec_text_err(text@) is None),
        r matches Ok(c) ==> {
            &&& c.main_color@ == spec_chosen(toml_str_entry(text@, "main_color"@), "#B287A1"@)
            &&& c.background_color@ == spec_chosen(
                toml_str_entry(text@, "background_color"@),
                "#111111"@,
            )
            &&& c.timeline_color@ == spec_chosen(
                toml_str_entry(text@, "timeline_color"@),
                "#829f62"@,
            )
            &&& c.hover_background@ == spec_chosen(
                toml_str_entry(text@, "hover_background"@),
                "#0E0E0E"@,
            )
            &&& c.wf()
        },
        toml_parses(text@) && r is Err ==> Some(r->Err_0) == spec_text_err(text@),
{
    match parse_table(text) {
        Option::None => Err(ConfigError::Document),
        Some(t) => {
            let r = config_from_table(&t);
            proof {
                assert(spec_table_err(t) == spec_text_err(text@));
            }
            r
        },
    }
}

/// The first error among the four recognized keys of the document, in the
/// order they are resolved.
pub open spec fn spec_text_err(s: Seq<char>) -> Option<ConfigError> {
    if spec_entry_err(toml_str_entry(s, "main_color"@)) is Some {
        spec_entry_err(toml_str_entry(s, "main_color"@))
    } else if spec_entry_err(toml_str_entry(s, "background_color"@)) is Some {
        spec_entry_err(toml_str_entry(s, "background_color"@))
    } else if spec_entry_err(toml_str_entry(s, "timeline_color"@)) is Some {
        spec_entry_err(toml_str_entry(s, "timeline_color"@))
    } else {
        spec_entry_err(toml_str_entry(s, "hover_background"@))
    }
}

} // verus!
