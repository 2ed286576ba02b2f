use vstd::prelude::*;

verus! {

/// What the configuration says of one device.
#[derive(Clone, Debug, PartialEq, Eq)]
pub struct DeviceConfig {
    pub name: String,
    pub mac_address: String,
    /// The one sender allowed to wake the device; `0` lets anyone.
    pub owner_id: i64,
}

/// The device is unknown, or its entry lacks the address or the owner.
#[derive(Clone, Copy, Debug, PartialEq, Eq)]
pub enum RegistryError {
    NotConfigured,
}

/// Dotted key of a device's hardware address.
pub open spec fn mac_key(name: Seq<char>) -> Seq<char> {
    "devices."@ + name + ".mac"@
}

/// Dotted key of a device's owner id.
pub open spec fn owner_key(name: Seq<char>) -> Seq<char> {
    "devices."@ + name + ".telegram_id"@
}

/// A loaded configuration, carried opaquely; its entries are read through
/// `config_string` and `config_int`.
#[verifier::external_type_specification]
#[verifier::external_body]
pub struct ExConfig(config::Config);

/// The string readings of a loaded configuration: each dotted key at which
/// `get_string` succeeds, with the text it gives. config converts scalar
/// values to text itself, so a number stored at a key reads as its digits.
pub uninterp spec fn config_strings(c: config::Config) -> Map<Seq<char>, Seq<char>>;

/// The integer readings of a loaded configuration: each dotted key at which
/// `get_int` succeeds, with the integer it gives, after config's own
/// conversions (a numeric string reads as its number).
pub uninterp spec fn config_ints(c: config::Config) -> Map<Seq<char>, i64>;

/// Relies on config::Config::get_string, which reads the already loaded
/// configuration (its cached tree) at a dotted key; its error is mapped to
/// `None`.
#[verifier::external_body]
fn config_string(settings: &config::Config, key: &str) -> (r: Option<String>)
    ensures
        r is Some <==> config_strings(*settings).dom().contains(key@),
        r matches Some(s) ==> s@ == config_strings(*settings)[key@],
{
    settings.get_string(key).ok()
}

/// Relies on config::Config::get_int, which reads the already loaded
/// configuration (its cached tree) at a dotted key; its error is mapped to
/// `None`.
#[verifier::external_body]
fn config_int(settings: &config::Config, key: &str) -> (r: Option<i64>)
    ensures
        r is Some <==> config_ints(*settings).dom().contains(key@),
        r matches Some(v) ==> v == config_ints(*settings)[key@],
{
    settings.get_int(key).ok()
}

/// The entry of device `name` in `settings`: its address text and owner id,
/// or `None` when either is missing or of a type that cannot be read as such.
pub open spec fn configured(settings: config::Config, name: Seq<char>) -> Option<(Seq<char>, int)> {
    let strings = config_strings(settings);
    let ints = config_ints(settings);
    if strings.dom().contains(mac_key(name)) && ints.dom().contains(owner_key(name)) {
        Some((strings[mac_key(name)], ints[owner_key(name)] as int))
    } else {
        None
    }
}

/// The separator that `settings` gives: the first character of its
/// `mac_separator` setting, if that is present and not empty.
pub open spec fn separator_setting(settings: config::Config) -> Option<char> {
    let strings = config_strings(settings);
    if strings.dom().contains("mac_separator"@) && strings["mac_separator"@].len() > 0 {
        Some(strings["mac_separator"@][0])
    } else {
        None
    }
}

pub fn mac_key_of(name: &str) -> (r: String)
    ensures
        r@ == mac_key(name@),
{
    let mut key = String::from_str("devices.");
    key.append(name);
    key.append(".mac");
    key
}

pub fn owner_key_of(name: &str) -> (r: String)
    ensures
        r@ == owner_key(name@),
{
    let mut key = String::from_str("devices.");
    key.append(name);
    key.append(".telegram_id");
    key
}

/// Builds the device record from the two configuration entries; either one
/// missing makes the device not configured, without saying which.
pub fn device_from_entries(name: &str, mac: Option<String>, owner: Option<i64>) -> (r: Result<
    DeviceConfig,
    RegistryError,
>)
    ensures
        r is Ok <==> (mac is Some && owner is Some),
        r matches Ok(d) ==> d.name@ == name@ && d.mac_address@ == mac->0@ && d.owner_id
            == owner->0,
{
    match (mac, owner) {
        (Some(mac_address), Some(owner_id)) => Ok(
            DeviceConfig { name: String::from_str(name), mac_address, owner_id },
        ),
        _ => Err(RegistryError::NotConfigured),
    }
}

/// Looks the device up afresh in `settings`, under its address and owner keys.
pub fn lookup(settings: &config::Config, name: &str) -> (r: Result<DeviceConfig, RegistryError>)
    ensures
        r is Ok <==> configured(*settings, name@) is Some,
        r matches Ok(d) ==> d.name@ == name@ && configured(*settings, name@) == Some(
            (d.mac_address@, d.owner_id as int),
        ),
{
    let mac = config_string(settings, mac_key_of(name).as_str());
    let owner = config_int(settings, owner_key_of(name).as_str());
    device_from_entries(name, mac, owner)
}

/// The separator is the first character of its setting; an empty setting gives none.
pub fn separator_of(setting: &str) -> (r: Option<char>)
    ensures
        r is None <==> setting@.len() == 0,
        r matches Some(c) ==> c == setting@[0],
{
    if setting.unicode_len() == 0 {
        None
    } else {
        Some(setting.get_char(0))
    }
}

/// Reads the `mac_separator` setting of `settings`.
pub fn load_separator(settings: &config::Config) -> (r: Option<char>)
    ensures
        r == separator_setting(*settings),
{
    match config_string(settings, "mac_separator") {
        Some(s) => separator_of(s.as_str()),
        None => None,
    }
}

} // verus!
