//! The configuration that outlives a run: which provider to ask, and where
//! the weather service is reached.
//!
//! The configuration is an [`ini::Ini`] document. Its general section, the
//! keys and values that stand before any section header, holds the two
//! settings. Loading the document and writing it back are left to the caller.

use vstd::prelude::*;
use vstd::string::*;

verus! {

/// The INI document of the `ini` crate. Verus sees nothing inside a value of
/// it; what this library reads and writes of it is named by
/// [`general_section`].
#[verifier::external_type_specification]
#[verifier::external_body]
pub struct ExIni(ini::Ini);

/// What the general section of a document holds: every key that occurs in it,
/// with the first value stored under that key. Where a document was given
/// several general sections, this is the first of them; one without a
/// general section holds nothing.
pub uninterp spec fn general_section(conf: ini::Ini) -> Map<Seq<char>, Seq<char>>;

/// The key under which the chosen provider is stored.
pub const PROVIDER_NAME_KEY: &'static str = "provider_name";

/// The key under which the address of the weather service is stored.
pub const SERVER_ADDRESS_KEY: &'static str = "server_address";

/// The address of the weather service where the configuration names none.
pub const DEFAULT_SERVER_ADDRESS: &'static str = "http://[::1]:50051";

/// The value stored under `key` in the general section, if there is one.
pub open spec fn stored(conf: ini::Ini, key: Seq<char>) -> Option<Seq<char>> {
    if general_section(conf).contains_key(key) {
        Some(general_section(conf)[key])
    } else {
        None
    }
}

/// The text of a string that may be absent.
pub open spec fn text_of(value: Option<String>) -> Option<Seq<char>> {
    match value {
        Some(text) => Some(text@),
        None => None,
    }
}

/// Calls `Ini::get_from` for the general section. Trusted: the call returns
/// the first value stored under `key` in the general section, and nothing
/// where the key or the whole section is missing.
#[verifier::external_body]
fn general_get(conf: &ini::Ini, key: &str) -> (value: Option<String>)
    ensures
        text_of(value) == stored(*conf, key@),
{
    conf.get_from(None::<String>, key).map(|text| text.to_string())
}

/// Calls `Ini::set_to` for the general section. Trusted: the call creates
/// the general section where there is none, and replaces whatever was stored
/// under `key` by the one `value`; every other key keeps its first value.
#[verifier::external_body]
fn general_set(conf: &mut ini::Ini, key: &str, value: &str)
    ensures
        general_section(*final(conf)) == general_section(*old(conf)).insert(key@, value@),
{
    conf.set_to(None::<String>, key.to_string(), value.to_string());
}

/// The provider that the configuration names, if it names one.
pub fn provider_name(conf: &ini::Ini) -> (name: Option<String>)
    ensures
        text_of(name) == stored(*conf, PROVIDER_NAME_KEY@),
{
    general_get(conf, PROVIDER_NAME_KEY)
}

/// The address at which the weather service is reached: the one that the
/// configuration names, else [`DEFAULT_SERVER_ADDRESS`].
pub fn server_address(conf: &ini::Ini) -> (address: String)
    ensures
        address@ == match stored(*conf, SERVER_ADDRESS_KEY@) {
            Some(text) => text,
            None => DEFAULT_SERVER_ADDRESS@,
        },
{
    match general_get(conf, SERVER_ADDRESS_KEY) {
        Some(address) => address,
        None => String::from_str(DEFAULT_SERVER_ADDRESS),
    }
}

/// Stores `provider` as the provider to ask. Nothing else in the general
/// section changes.
pub fn set_provider_name(conf: &mut ini::Ini, provider: &str)
    ensures
        general_section(*final(conf)) == general_section(*old(conf)).insert(
            PROVIDER_NAME_KEY@,
            provider@,
        ),
{
    general_set(conf, PROVIDER_NAME_KEY, provider);
}

/// Once a provider has been stored, it is the one that the configuration
/// names, whatever it held before; the stored server address is untouched.
pub proof fn lemma_stored_provider_is_read_back(
    before: ini::Ini,
    after: ini::Ini,
    provider: Seq<char>,
)
    requires
        general_section(after) == general_section(before).insert(PROVIDER_NAME_KEY@, provider),
    ensures
        stored(after, PROVIDER_NAME_KEY@) == Some(provider),
        stored(after, SERVER_ADDRESS_KEY@) == stored(before, SERVER_ADDRESS_KEY@),
{
    reveal_strlit("provider_name");
    reveal_strlit("server_address");
    assert(PROVIDER_NAME_KEY@.len() != SERVER_ADDRESS_KEY@.len());
}

} // verus!
