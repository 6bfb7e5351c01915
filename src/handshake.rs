use vstd::prelude::*;
use vstd::string::StringExecFns;

use crate::config::{ConfigModel, ConfigValue};
use crate::destination::DestCrate;

verus! {

/// The JSON string literal that encodes `text`, as serde_json writes it.
pub uninterp spec fn json_string(text: Seq<char>) -> Seq<char>;

/// Text that JSON quoting leaves as it is: no quote, backslash or control
/// character.
pub open spec fn plain_json_text(text: Seq<char>) -> bool {
    forall|i: int| 0 <= i < text.len() ==> #[trigger] text[i] != '"' && text[i] != '\\' && text[i]
        >= ' '
}

/// Relies on serde_json's `Display` for `Value::String`: the quoted and
/// escaped JSON form of `text`; text without characters to escape is only
/// put between quotes.
#[verifier::external_body]
fn quote_json(text: &str) -> (r: String)
    ensures
        r@ == json_string(text@),
        plain_json_text(text@) ==> r@ == seq!['"'] + text@ + seq!['"'],
{
    serde_json::Value::String(text.to_owned()).to_string()
}

/// The compact JSON text of a configuration tree, as serde_json writes it.
pub uninterp spec fn config_json(m: ConfigModel) -> Seq<char>;

#[verifier::external_type_specification]
#[verifier::external_body]
pub struct ExJsonValue(serde_json::Value);

/// Relies on serde_json's `Value` variants: the JSON value holding the same
/// tree, node for node; number text that serde_json cannot read as a number
/// becomes null.
#[verifier::external_body]
fn json_value(v: &ConfigValue) -> serde_json::Value {
    match v {
        ConfigValue::Null => serde_json::Value::Null,
        ConfigValue::Bool(b) => serde_json::Value::Bool(*b),
        ConfigValue::Number(n) => n.parse().map_or(serde_json::Value::Null, serde_json::Value::Number),
        ConfigValue::String(s) => serde_json::Value::String(s.clone()),
        ConfigValue::Array(items) => serde_json::Value::Array(items.iter().map(json_value).collect()),
        ConfigValue::Object(entries) => serde_json::Value::Object(
            entries.iter().map(|(k, x)| (k.clone(), json_value(x))).collect(),
        ),
    }
}

/// Relies on serde_json's `Display` for `Value`: the compact JSON text of
/// the tree, a function of the tree alone.
#[verifier::external_body]
pub(crate) fn encode_config(v: &ConfigValue) -> (r: String)
    ensures
        r@ == config_json(v@),
{
    json_value(v).to_string()
}

/// The handshake document handed to a plugin: the interface description,
/// the plugin's configuration (both already JSON text) and the destination
/// crate, under the keys `idl`, `metadata` and `dest_crate`, in that order.
pub open spec fn handshake_text(
    idl_json: Seq<char>,
    metadata_json: Seq<char>,
    crate_name: Seq<char>,
    path: Seq<char>,
) -> Seq<char> {
    "{\n  \"idl\": "@ + idl_json + ",\n  \"metadata\": "@ + metadata_json
        + ",\n  \"dest_crate\": {\n    \"crate_name\": "@ + json_string(crate_name)
        + ",\n    \"path\": "@ + json_string(path) + "\n  }\n}\n"@
}

/// Writes the handshake document for one plugin run.
pub fn handshake(idl_json: &str, metadata_json: &str, dest: &DestCrate) -> (r: String)
    ensures
        r@ == handshake_text(idl_json@, metadata_json@, dest.crate_name@, dest.path@),
{
    let mut out = "{\n  \"idl\": ".to_owned();
    out.append(idl_json);
    out.append(",\n  \"metadata\": ");
    out.append(metadata_json);
    out.append(",\n  \"dest_crate\": {\n    \"crate_name\": ");
    out.append(quote_json(dest.crate_name.as_str()).as_str());
    out.append(",\n    \"path\": ");
    out.append(quote_json(dest.path.as_str()).as_str());
    out.append("\n  }\n}\n");
    out
}

} // verus!
