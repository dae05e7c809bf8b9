//! Persistent WiFi configuration: what is written to the NVS namespace
//! when credentials are saved or cleared, and how the stored values are
//! read back into a configuration.

use vstd::prelude::*;
use crate::utils::{utf8_len, wifi_credentials_valid};

verus! {

/// NVS namespace holding the device configuration.
pub const NVS_NAMESPACE: &'static str = "nysa_cfg";

/// NVS key of the stored SSID.
pub const KEY_WIFI_SSID: &'static str = "wifi_ssid";

/// NVS key of the stored password.
pub const KEY_WIFI_PASS: &'static str = "wifi_pass";

/// Persistent WiFi network credentials.
#[derive(Debug, Clone)]
pub struct WifiConfig {
    pub ssid: String,
    pub password: String,
}

/// Why credentials were refused before anything was written.
#[derive(Debug, Clone, Copy, PartialEq, Eq, Structural)]
pub enum StorageError {
    InvalidSsidLength,
    InvalidPasswordLength,
}

impl StorageError {
    /// The text of the error.
    pub fn message(&self) -> (r: &'static str)
        ensures
            *self == StorageError::InvalidSsidLength ==> r@ == "Invalid SSID length"@,
            *self == StorageError::InvalidPasswordLength ==> r@ == "Invalid password length"@,
    {
        match self {
            StorageError::InvalidSsidLength => "Invalid SSID length",
            StorageError::InvalidPasswordLength => "Invalid password length",
        }
    }
}

/// One string value to be stored under a key of the namespace.
pub struct NvsWrite {
    pub key: &'static str,
    pub value: String,
}

/// The (key, value) pairs of a list of writes, in order.
pub open spec fn writes_view(w: Seq<NvsWrite>) -> Seq<(Seq<char>, Seq<char>)> {
    w.map_values(|x: NvsWrite| (x.key@, x.value@))
}

/// The writes that store the credentials `ssid` and `password`.
pub open spec fn save_plan(ssid: Seq<char>, password: Seq<char>) -> Seq<(Seq<char>, Seq<char>)> {
    seq![(KEY_WIFI_SSID@, ssid), (KEY_WIFI_PASS@, password)]
}

/// The writes that forget the stored credentials.
pub open spec fn clear_plan() -> Seq<(Seq<char>, Seq<char>)> {
    seq![(KEY_WIFI_SSID@, Seq::<char>::empty()), (KEY_WIFI_PASS@, Seq::<char>::empty())]
}

/// The namespace `m` after the writes `w`, applied in order.
pub open spec fn nvs_after(m: Map<Seq<char>, Seq<char>>, w: Seq<(Seq<char>, Seq<char>)>) -> Map<
    Seq<char>,
    Seq<char>,
>
    decreases w.len(),
{
    if w.len() == 0 {
        m
    } else {
        nvs_after(m.insert(w[0].0, w[0].1), w.drop_first())
    }
}

/// The value stored under `key` in `m`, if any.
pub open spec fn nvs_get(m: Map<Seq<char>, Seq<char>>, key: Seq<char>) -> Option<Seq<char>> {
    if m.contains_key(key) {
        Some(m[key])
    } else {
        None
    }
}

/// The credentials that the stored values give: none when the SSID is
/// missing or empty, or when the password is missing.
pub open spec fn stored_credentials(ssid: Option<Seq<char>>, password: Option<Seq<char>>) -> Option<
    (Seq<char>, Seq<char>),
> {
    match (ssid, password) {
        (Some(s), Some(p)) => if s.len() > 0 {
            Some((s, p))
        } else {
            None
        },
        _ => None,
    }
}

/// The credentials read back from the namespace `m`.
pub open spec fn load_credentials(m: Map<Seq<char>, Seq<char>>) -> Option<(Seq<char>, Seq<char>)> {
    stored_credentials(nvs_get(m, KEY_WIFI_SSID@), nvs_get(m, KEY_WIFI_PASS@))
}

/// The view of an optional string.
pub open spec fn opt_view(s: Option<String>) -> Option<Seq<char>> {
    match s {
        Some(x) => Some(x@),
        None => None,
    }
}

/// The view of an optional configuration.
pub open spec fn config_view(c: Option<WifiConfig>) -> Option<(Seq<char>, Seq<char>)> {
    match c {
        Some(x) => Some((x.ssid@, x.password@)),
        None => None,
    }
}

/// What [`check_wifi_config`] returns for the characters `ssid` and
/// `password`.
pub open spec fn storage_verdict(ssid: Seq<char>, password: Seq<char>) -> Result<(), StorageError> {
    if ssid.len() == 0 || utf8_len(ssid) > 32 {
        Err(StorageError::InvalidSsidLength)
    } else if !wifi_credentials_valid(ssid, password) {
        Err(StorageError::InvalidPasswordLength)
    } else {
        Ok(())
    }
}

/// Length check done before anything is stored; it accepts exactly the
/// credentials that the web form accepts.
pub fn check_wifi_config(ssid: &str, password: &str) -> (r: Result<(), StorageError>)
    ensures
        r == storage_verdict(ssid@, password@),
        r is Ok <==> wifi_credentials_valid(ssid@, password@),
{
    if ssid.is_empty() || ssid.as_bytes().len() > 32 {
        return Err(StorageError::InvalidSsidLength);
    }
    if !password.is_empty() && (password.as_bytes().len() < 8 || password.as_bytes().len() > 63) {
        return Err(StorageError::InvalidPasswordLength);
    }
    Ok(())
}

/// The writes that save WiFi credentials, after the same length check as
/// [`check_wifi_config`]; nothing is to be written when it fails.
pub fn wifi_config_writes(ssid: &str, password: &str) -> (r: Result<Vec<NvsWrite>, StorageError>)
    ensures
        r is Ok <==> wifi_credentials_valid(ssid@, password@),
        r matches Err(e) ==> Err::<(), StorageError>(e) == storage_verdict(ssid@, password@),
        r matches Ok(w) ==> writes_view(w@) == save_plan(ssid@, password@),
{
    match check_wifi_config(ssid, password) {
        Err(e) => Err(e),
        Ok(()) => {
            let mut w: Vec<NvsWrite> = Vec::new();
            w.push(NvsWrite { key: KEY_WIFI_SSID, value: ssid.to_owned() });
            w.push(NvsWrite { key: KEY_WIFI_PASS, value: password.to_owned() });
            assert(writes_view(w@) =~= save_plan(ssid@, password@));
            Ok(w)
        },
    }
}

/// The writes that clear the stored credentials (both values become empty).
pub fn clear_writes() -> (w: Vec<NvsWrite>)
    ensures
        writes_view(w@) == clear_plan(),
{
    let mut w: Vec<NvsWrite> = Vec::new();
    w.push(NvsWrite { key: KEY_WIFI_SSID, value: "".to_owned() });
    w.push(NvsWrite { key: KEY_WIFI_PASS, value: "".to_owned() });
    proof {
        reveal_strlit("");
        assert(""@ =~= Seq::<char>::empty());
    }
    assert(writes_view(w@) =~= clear_plan());
    w
}

/// Whether a stored SSID value names a network, so that the password is
/// worth reading.
pub fn stored_ssid_usable(ssid: Option<&str>) -> (r: bool)
    ensures
        r == (ssid matches Some(s) && s@.len() > 0),
{
    match ssid {
        Some(s) => !s.is_empty(),
        None => false,
    }
}

/// Builds the configuration from the values read under the SSID and
/// password keys.
pub fn wifi_config_from_stored(ssid: Option<String>, password: Option<String>) -> (r: Option<
    WifiConfig,
>)
    ensures
        config_view(r) == stored_credentials(opt_view(ssid), opt_view(password)),
{
    match ssid {
        Some(s) => {
            if s.as_str().is_empty() {
                return None;
            }
            match password {
                Some(p) => Some(WifiConfig { ssid: s, password: p }),
                None => None,
            }
        },
        None => None,
    }
}

/// The two configuration keys are distinct.
proof fn lemma_keys_distinct()
    ensures
        KEY_WIFI_SSID@ != KEY_WIFI_PASS@,
{
    reveal_strlit("wifi_ssid");
    reveal_strlit("wifi_pass");
    assert(KEY_WIFI_SSID@[5] != KEY_WIFI_PASS@[5]);
}

/// Credentials that pass the length check are read back unchanged after
/// they are saved, whatever the namespace held before.
pub proof fn lemma_saved_credentials_read_back(
    m: Map<Seq<char>, Seq<char>>,
    ssid: Seq<char>,
    password: Seq<char>,
)
    requires
        wifi_credentials_valid(ssid, password),
    ensures
        load_credentials(nvs_after(m, save_plan(ssid, password))) == Some((ssid, password)),
{
    lemma_keys_distinct();
    let w = save_plan(ssid, password);
    assert(w.drop_first().drop_first() =~= Seq::<(Seq<char>, Seq<char>)>::empty());
    let m2 = m.insert(KEY_WIFI_SSID@, ssid).insert(KEY_WIFI_PASS@, password);
    reveal_with_fuel(nvs_after, 3);
    assert(nvs_after(m, w) == m2);
}

/// After the credentials are cleared, none are read back.
pub proof fn lemma_cleared_credentials_absent(m: Map<Seq<char>, Seq<char>>)
    ensures
        load_credentials(nvs_after(m, clear_plan())) is None,
{
    lemma_keys_distinct();
    let w = clear_plan();
    assert(w.drop_first().drop_first() =~= Seq::<(Seq<char>, Seq<char>)>::empty());
    let m2 = m.insert(KEY_WIFI_SSID@, Seq::<char>::empty()).insert(
        KEY_WIFI_PASS@,
        Seq::<char>::empty(),
    );
    reveal_with_fuel(nvs_after, 3);
    assert(nvs_after(m, w) == m2);
}

/// Before saving, an SSID must hold 1 to 32 bytes and a password must be
/// empty or hold 8 to 63 bytes; the error names the field at fault, the
/// SSID first.
pub proof fn lemma_storage_bounds(ssid: Seq<char>, password: Seq<char>)
    ensures
        (utf8_len(ssid) == 0 || utf8_len(ssid) > 32) ==> storage_verdict(ssid, password) == Err::<
            (),
            StorageError,
        >(StorageError::InvalidSsidLength),
        1 <= utf8_len(ssid) <= 32 && (0 < utf8_len(password) < 8 || utf8_len(password) > 63)
            ==> storage_verdict(ssid, password) == Err::<(), StorageError>(
            StorageError::InvalidPasswordLength,
        ),
        1 <= utf8_len(ssid) <= 32 && (utf8_len(password) == 0 || 8 <= utf8_len(password) <= 63)
            ==> storage_verdict(ssid, password) == Ok::<(), StorageError>(()),
{
    crate::utils::lemma_empty_iff_no_bytes(ssid);
    crate::utils::lemma_empty_iff_no_bytes(password);
}

/// Stored values give credentials exactly when both are present and the
/// SSID is not empty, and then they are those values unchanged.
pub proof fn lemma_stored_values(ssid: Option<Seq<char>>, password: Option<Seq<char>>)
    ensures
        ssid is None ==> stored_credentials(ssid, password) is None,
        password is None ==> stored_credentials(ssid, password) is None,
        ssid == Some(Seq::<char>::empty()) ==> stored_credentials(ssid, password) is None,
        ssid matches Some(s) ==> (s.len() > 0 ==> (password matches Some(p)
            ==> stored_credentials(ssid, password) == Some((s, p)))),
{
}

} // verus!
