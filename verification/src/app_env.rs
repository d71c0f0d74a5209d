use crate::app_error::AppError;
use crate::digits::{digits_value, is_digit_byte, parse_u8, parse_u8_spec, unsigned_digits};
use crate::env_map::EnvHashMap;
use crate::tz::{
    max_offset_seconds, max_unix_seconds, min_unix_seconds, now_unix_seconds, representable_instant, tz_known,
    tz_name_known, tz_offset_at, tz_offset_seconds,
};
use std::time::SystemTime;
use vstd::prelude::*;
use vstd::string::StringExecFns;
use vstd::utf8::{
    encode_utf8, encode_utf8_valid_utf8, is_ascii_chars, is_ascii_chars_encode_utf8, is_char_boundary,
    is_leading_byte_width_1, pop_first_scalar,
};

verus! {

/// The moment the configuration was read.
#[verifier::external_type_specification]
#[verifier::external_body]
pub struct ExSystemTime(SystemTime);

/// The zone that a zone name stands for: itself when the tz database knows
/// it, else UTC.
pub open spec fn zone_or_utc(name: Seq<char>) -> Seq<char> {
    if tz_name_known(name) {
        name
    } else {
        "Etc/UTC"@
    }
}

/// The name of a time zone of the tz database, used to find the local time.
#[derive(Debug, PartialEq, Eq, PartialOrd, Ord)]
pub struct EnvTimeZone(String);

impl Clone for EnvTimeZone {
    /// The same zone.
    fn clone(&self) -> (zone: Self)
        ensures
            zone@ == self@,
    {
        proof { use_type_invariant(self); }
        EnvTimeZone(self.0.clone())
    }
}

impl View for EnvTimeZone {
    type V = Seq<char>;

    closed spec fn view(&self) -> Seq<char> {
        self.0@
    }
}

impl EnvTimeZone {
    /// The zone is one that the tz database knows, or UTC.
    #[verifier::type_invariant]
    closed spec fn known_or_utc(self) -> bool {
        tz_name_known(self.0@) || self.0@ == "Etc/UTC"@
    }

    /// The zone named `name` when the tz database knows it, else UTC.
    pub fn new(name: &str) -> (zone: Self)
        ensures
            zone@ == zone_or_utc(name@),
            tz_name_known(name@) ==> zone@ == name@,
            !tz_name_known(name@) ==> zone@ == "Etc/UTC"@,
    {
        if tz_known(name) {
            EnvTimeZone(name.to_owned())
        } else {
            EnvTimeZone(String::from_str("Etc/UTC"))
        }
    }

    /// The name of the zone: one that the tz database knows, or UTC.
    pub fn name(&self) -> (name: &str)
        ensures
            name@ == self@,
            tz_name_known(name@) || name@ == "Etc/UTC"@,
    {
        proof { use_type_invariant(self); }
        self.0.as_str()
    }

    /// The offset from UTC, in seconds, of this zone at the instant
    /// `unix_seconds`; zero for a name that the tz database does not know.
    pub fn offset_at(&self, unix_seconds: i64) -> (offset: i32)
        requires
            min_unix_seconds() <= unix_seconds <= max_unix_seconds(),
        ensures
            offset == (if tz_name_known(self@) { tz_offset_seconds(self@, unix_seconds) } else { 0 }),
            -max_offset_seconds() <= offset <= max_offset_seconds(),
    {
        match tz_offset_at(self.0.as_str(), unix_seconds) {
            Some(seconds) => seconds,
            None => 0,
        }
    }

    /// The offset from UTC, in seconds, of this zone now.
    pub fn get_offset(&self) -> (offset: i32)
        ensures
            exists|now: i64|
                #[trigger] representable_instant(now) && offset == (if tz_name_known(self@) {
                    tz_offset_seconds(self@, now)
                } else {
                    0
                }),
    {
        let now = now_unix_seconds();
        let offset = self.offset_at(now);
        assert(representable_instant(now));
        offset
    }
}

/// How much the client logs.
#[derive(Debug, Clone, Copy, PartialEq, Eq, Structural)]
pub enum LogLevel {
    Trace,
    Debug,
    Info,
}

/// The configuration of the client.
#[derive(Debug)]
pub struct AppEnv {
    /// Hour and minute of the local time at which a backup is requested.
    pub download_time: (u8, u8),
    /// Directory where backups are stored.
    pub location_backup: String,
    pub log_level: LogLevel,
    pub start_time: SystemTime,
    pub timezone: EnvTimeZone,
    pub ws_address: String,
    pub ws_apikey: String,
    pub ws_password: String,
    pub ws_token_address: String,
}

/// The variable `key` is set to exactly `true`.
pub open spec fn flag_set(map: Map<Seq<char>, Seq<char>>, key: Seq<char>) -> bool {
    map.contains_key(key) && map[key] == "true"@
}

/// The log level that the flags `LOG_TRACE` and `LOG_DEBUG` select; tracing wins.
pub open spec fn log_level_of(map: Map<Seq<char>, Seq<char>>) -> LogLevel {
    if flag_set(map, "LOG_TRACE"@) {
        LogLevel::Trace
    } else if flag_set(map, "LOG_DEBUG"@) {
        LogLevel::Debug
    } else {
        LogLevel::Info
    }
}

/// The text of the download time: `DL_TIME`, or `0300` when it is not set.
pub open spec fn download_time_text(map: Map<Seq<char>, Seq<char>>) -> Seq<char> {
    if map.contains_key("DL_TIME"@) {
        map["DL_TIME"@]
    } else {
        "0300"@
    }
}

/// The UTF-8 text `bytes` can be cut after its second byte.
pub open spec fn cuttable_after_two(bytes: Seq<u8>) -> bool {
    bytes.len() >= 2 && is_char_boundary(bytes, 2)
}

/// The hour and minute that the UTF-8 text `bytes` gives: the first two bytes
/// are the hour (3 when they are not a number), the rest the minute (0 when it
/// is not a number); a time past 24 hours or 59 minutes falls back to 03:00.
pub open spec fn download_time_of(bytes: Seq<u8>) -> (u8, u8) {
    let hour: u8 = match parse_u8_spec(bytes.take(2)) {
        Some(h) => h,
        None => 3,
    };
    let minute: u8 = match parse_u8_spec(bytes.skip(2)) {
        Some(m) => m,
        None => 0,
    };
    if hour > 24 || minute > 59 {
        (3, 0)
    } else {
        (hour, minute)
    }
}

impl AppEnv {
    /// Whether the variable `key` is set to exactly `true`.
    pub fn parse_boolean(key: &str, map: &EnvHashMap) -> (set: bool)
        ensures
            set == flag_set(map@, key@),
    {
        match map.get(key) {
            Some(value) => *value == String::from_str("true"),
            None => false,
        }
    }

    /// `filename`, when `found` says that it names an existing file or directory.
    pub fn check_file_exists(filename: String, found: bool) -> (r: Result<String, AppError>)
        ensures
            match r {
                Ok(name) => found && name@ == filename@,
                Err(AppError::FileNotFound(name)) => !found && name@ == filename@,
                Err(_) => false,
            },
    {
        if found {
            Ok(filename)
        } else {
            Err(AppError::FileNotFound(filename))
        }
    }

    /// The value of the variable `key`, which must be set.
    pub fn parse_string(key: &str, map: &EnvHashMap) -> (r: Result<String, AppError>)
        ensures
            match r {
                Ok(value) => map@.contains_key(key@) && value@ == map@[key@],
                Err(AppError::MissingEnv(name)) => !map@.contains_key(key@) && name@ == key@,
                Err(_) => false,
            },
    {
        match map.get(key) {
            Some(value) => Ok(value.clone()),
            None => Err(AppError::MissingEnv(key.to_owned())),
        }
    }

    /// The zone named by `TIMEZONE`; UTC when it is not set or not known.
    pub fn parse_timezone(map: &EnvHashMap) -> (zone: EnvTimeZone)
        ensures
            zone@ == zone_or_utc(if map@.contains_key("TIMEZONE"@) { map@["TIMEZONE"@] } else { Seq::empty() }),
            map@.contains_key("TIMEZONE"@) && tz_name_known(map@["TIMEZONE"@]) ==> zone@ == map@["TIMEZONE"@],
            map@.contains_key("TIMEZONE"@) && !tz_name_known(map@["TIMEZONE"@]) ==> zone@ == "Etc/UTC"@,
    {
        match map.get("TIMEZONE") {
            Some(name) => EnvTimeZone::new(name.as_str()),
            None => {
                proof { reveal_strlit(""); }
                assert(""@ =~= Seq::<char>::empty());
                EnvTimeZone::new("")
            },
        }
    }

    /// The local hour and minute at which a backup is requested, read from
    /// `DL_TIME` (four digits `hhmm`); 03:00 when it is not set or not valid.
    pub fn parse_download_time(map: &EnvHashMap) -> (time: (u8, u8))
        requires
            map@.contains_key("DL_TIME"@) ==> cuttable_after_two(encode_utf8(map@["DL_TIME"@])),
        ensures
            time == download_time_of(encode_utf8(download_time_text(map@))),
            time.0 <= 24 && time.1 <= 59,
            !map@.contains_key("DL_TIME"@) ==> time == (3u8, 0u8),
            map@.contains_key("DL_TIME"@) && clock_digits(map@["DL_TIME"@]) ==> time == (
                two_digit_value(map@["DL_TIME"@][0], map@["DL_TIME"@][1]) as u8,
                two_digit_value(map@["DL_TIME"@][2], map@["DL_TIME"@][3]) as u8,
            ),
    {
        proof {
            if map@.contains_key("DL_TIME"@) && clock_digits(map@["DL_TIME"@]) {
                lemma_clock_digits_read_as_written(map@["DL_TIME"@]);
            }
        }
        let value = match Self::parse_string("DL_TIME", map) {
            Ok(value) => value,
            Err(_) => String::from_str("0300"),
        };
        let bytes = value.as_str().as_bytes();
        let ghost text = encode_utf8(download_time_text(map@));
        proof {
            if !map@.contains_key("DL_TIME"@) {
                reveal_strlit("0300");
                lemma_default_download_time();
            }
        }
        assert(bytes@ == text);
        let hour = match parse_u8(bytes, 0, 2) {
            Some(h) => h,
            None => 3,
        };
        let minute = match parse_u8(bytes, 2, bytes.len()) {
            Some(m) => m,
            None => 0,
        };
        assert(bytes@.subrange(0, 2) =~= text.take(2));
        assert(bytes@.subrange(2, bytes@.len() as int) =~= text.skip(2));
        if hour > 24 || minute > 59 {
            (3, 0)
        } else {
            (hour, minute)
        }
    }

    /// The log level that `LOG_TRACE` and `LOG_DEBUG` select.
    pub fn parse_log(map: &EnvHashMap) -> (level: LogLevel)
        ensures
            level == log_level_of(map@),
    {
        if Self::parse_boolean("LOG_TRACE", map) {
            LogLevel::Trace
        } else if Self::parse_boolean("LOG_DEBUG", map) {
            LogLevel::Debug
        } else {
            LogLevel::Info
        }
    }
}

/// The first of the websocket variables that is not set, in the order in
/// which they are read: `WS_ADDRESS`, `WS_APIKEY`, `WS_PASSWORD`, `WS_TOKEN_ADDRESS`.
pub open spec fn first_missing_ws_variable(map: Map<Seq<char>, Seq<char>>) -> Option<Seq<char>> {
    if !map.contains_key("WS_ADDRESS"@) {
        Some("WS_ADDRESS"@)
    } else if !map.contains_key("WS_APIKEY"@) {
        Some("WS_APIKEY"@)
    } else if !map.contains_key("WS_PASSWORD"@) {
        Some("WS_PASSWORD"@)
    } else if !map.contains_key("WS_TOKEN_ADDRESS"@) {
        Some("WS_TOKEN_ADDRESS"@)
    } else {
        None
    }
}

impl AppEnv {
    /// The configuration that the environment `map` describes.
    ///
    /// `location_exists` tells whether the directory that `LOCATION_BACKUP`
    /// names exists. The backup location is checked first, then the websocket
    /// variables in turn; the first problem found is reported.
    pub fn generate(map: &EnvHashMap, start_time: SystemTime, location_exists: bool) -> (r: Result<Self, AppError>)
        requires
            map@.contains_key("DL_TIME"@) ==> cuttable_after_two(encode_utf8(map@["DL_TIME"@])),
        ensures
            match r {
                Ok(env) => {
                    &&& map@.contains_key("LOCATION_BACKUP"@)
                    &&& location_exists
                    &&& first_missing_ws_variable(map@) is None
                    &&& env.download_time == download_time_of(encode_utf8(download_time_text(map@)))
                    &&& env.location_backup@ == map@["LOCATION_BACKUP"@]
                    &&& env.start_time == start_time
                    &&& env.timezone@ == zone_or_utc(if map@.contains_key("TIMEZONE"@) { map@["TIMEZONE"@] } else { Seq::empty() })
                    &&& env.log_level == log_level_of(map@)
                    &&& env.ws_address@ == map@["WS_ADDRESS"@]
                    &&& env.ws_apikey@ == map@["WS_APIKEY"@]
                    &&& env.ws_password@ == map@["WS_PASSWORD"@]
                    &&& env.ws_token_address@ == map@["WS_TOKEN_ADDRESS"@]
                },
                Err(AppError::MissingEnv(name)) => {
                    ||| !map@.contains_key("LOCATION_BACKUP"@) && name@ == "LOCATION_BACKUP"@
                    ||| map@.contains_key("LOCATION_BACKUP"@) && location_exists
                        && first_missing_ws_variable(map@) == Some(name@)
                },
                Err(AppError::FileNotFound(name)) => {
                    &&& map@.contains_key("LOCATION_BACKUP"@)
                    &&& !location_exists
                    &&& name@ == map@["LOCATION_BACKUP"@]
                },
                Err(_) => false,
            },
    {
        let download_time = Self::parse_download_time(map);
        let location = match Self::parse_string("LOCATION_BACKUP", map) {
            Ok(location) => location,
            Err(e) => return Err(e),
        };
        let location_backup = match Self::check_file_exists(location, location_exists) {
            Ok(location) => location,
            Err(e) => return Err(e),
        };
        let timezone = Self::parse_timezone(map);
        let log_level = Self::parse_log(map);
        let ws_address = match Self::parse_string("WS_ADDRESS", map) {
            Ok(value) => value,
            Err(e) => return Err(e),
        };
        let ws_apikey = match Self::parse_string("WS_APIKEY", map) {
            Ok(value) => value,
            Err(e) => return Err(e),
        };
        let ws_password = match Self::parse_string("WS_PASSWORD", map) {
            Ok(value) => value,
            Err(e) => return Err(e),
        };
        let ws_token_address = match Self::parse_string("WS_TOKEN_ADDRESS", map) {
            Ok(value) => value,
            Err(e) => return Err(e),
        };
        Ok(AppEnv {
            download_time,
            location_backup,
            log_level,
            start_time,
            timezone,
            ws_address,
            ws_apikey,
            ws_password,
            ws_token_address,
        })
    }
}

/// A zone name that the tz database knows is kept whole, whatever it is;
/// only an unknown name falls back to `Etc/UTC`.
pub proof fn lemma_known_zone_kept(name: Seq<char>)
    ensures
        tz_name_known(name) ==> zone_or_utc(name) == name,
        !tz_name_known(name) ==> zone_or_utc(name) == "Etc/UTC"@,
{
}

/// `c` is an ASCII decimal digit.
pub open spec fn is_digit_char(c: char) -> bool {
    '0' <= c <= '9'
}

/// The number that the two decimal digits `tens`, `ones` write.
pub open spec fn two_digit_value(tens: char, ones: char) -> int {
    10 * (tens as int - '0' as int) + (ones as int - '0' as int)
}

/// `text` is four ASCII digits `hhmm` naming a time the client accepts: an
/// hour from 00 to 24 and a minute from 00 to 59.
pub open spec fn clock_digits(text: Seq<char>) -> bool {
    &&& text.len() == 4
    &&& forall|i: int| 0 <= i < 4 ==> #[trigger] is_digit_char(text[i])
    &&& two_digit_value(text[0], text[1]) <= 24
    &&& two_digit_value(text[2], text[3]) <= 59
}

/// A download time written as four digits `hhmm` with an hour of at most 24
/// and a minute of at most 59 is read as written, the hour 00 included: it is
/// cuttable after two bytes and reads as `(hh, mm)`.
pub proof fn lemma_clock_digits_read_as_written(text: Seq<char>)
    requires
        clock_digits(text),
    ensures
        cuttable_after_two(encode_utf8(text)),
        download_time_of(encode_utf8(text)) == (two_digit_value(text[0], text[1]) as u8, two_digit_value(text[2], text[3]) as u8),
{
    assert(is_digit_char(text[0]) && is_digit_char(text[1]) && is_digit_char(text[2]) && is_digit_char(text[3]));
    assert(is_ascii_chars(text));
    is_ascii_chars_encode_utf8(text);
    let b = encode_utf8(text);
    assert(b.len() == 4);
    let b0 = b[0];
    let b1 = b[1];
    let b2 = b[2];
    let b3 = b[3];
    assert(b0 == text[0] as u8 && b1 == text[1] as u8 && b2 == text[2] as u8 && b3 == text[3] as u8);
    assert(b =~= seq![b0, b1, b2, b3]);
    lemma_two_digit_bytes(b.take(2), b0, b1);
    lemma_two_digit_bytes(b.skip(2), b2, b3);
    lemma_ascii_boundary(text, 2);
}

/// Two ASCII digit bytes parse as the number they write.
proof fn lemma_two_digit_bytes(d: Seq<u8>, t: u8, o: u8)
    requires
        d =~= seq![t, o],
        48 <= t <= 57,
        48 <= o <= 57,
    ensures
        parse_u8_spec(d) == Some((10 * (t - 48) + (o - 48)) as u8),
{
    assert(unsigned_digits(d) == d);
    assert(d.drop_last() =~= seq![t]);
    assert(seq![t].drop_last() =~= Seq::<u8>::empty());
    assert(digits_value(Seq::<u8>::empty()) == 0);
    assert(digits_value(seq![t]) == t - 48);
    assert(digits_value(d) == 10 * (t - 48) + (o - 48));
    assert(forall|i: int| 0 <= i < d.len() ==> #[trigger] is_digit_byte(d[i]));
}

/// In the UTF-8 encoding of an ASCII text every position is a character boundary.
proof fn lemma_ascii_boundary(text: Seq<char>, k: int)
    requires
        is_ascii_chars(text),
        0 <= k <= text.len(),
    ensures
        is_char_boundary(encode_utf8(text), k),
    decreases k,
{
    let b = encode_utf8(text);
    encode_utf8_valid_utf8(text);
    is_ascii_chars_encode_utf8(text);
    if k > 0 {
        let rest = text.drop_first();
        assert(is_ascii_chars(rest));
        is_ascii_chars_encode_utf8(rest);
        encode_utf8_valid_utf8(rest);
        assert(text[0] as u8 == b[0]);
        assert(is_leading_byte_width_1(b[0]));
        assert(pop_first_scalar(b) =~= encode_utf8(rest)) by {
            assert forall|i: int| 0 <= i < rest.len() implies #[trigger] encode_utf8(rest)[i] == b[i + 1] by {
                assert(rest[i] == text[i + 1]);
            }
        }
        lemma_ascii_boundary(rest, k - 1);
    }
}

/// Whatever text `DL_TIME` holds, the download time read from it is a time of
/// day: the hour is at most 24 and the minute at most 59.
pub proof fn lemma_download_time_is_time_of_day(bytes: Seq<u8>)
    ensures
        download_time_of(bytes).0 <= 24,
        download_time_of(bytes).1 <= 59,
{
}

/// Tracing wins over debugging: with `LOG_TRACE` set to `true` the level is
/// `Trace` whatever `LOG_DEBUG` says, and the level is `Info` exactly when
/// neither flag is set to `true`.
pub proof fn lemma_log_level_precedence(map: Map<Seq<char>, Seq<char>>)
    ensures
        flag_set(map, "LOG_TRACE"@) ==> log_level_of(map) == LogLevel::Trace,
        log_level_of(map) == LogLevel::Info <==> !flag_set(map, "LOG_TRACE"@) && !flag_set(map, "LOG_DEBUG"@),
{
}

/// The default download time `0300` is four ASCII bytes and reads as 03:00.
proof fn lemma_default_download_time()
    ensures
        encode_utf8("0300"@) == seq![48u8, 51u8, 48u8, 48u8],
        download_time_of(seq![48u8, 51u8, 48u8, 48u8]) == (3u8, 0u8),
{
    reveal_strlit("0300");
    let chars = "0300"@;
    assert(is_ascii_chars(chars));
    is_ascii_chars_encode_utf8(chars);
    assert(encode_utf8(chars) =~= seq![48u8, 51u8, 48u8, 48u8]);
    let b = seq![48u8, 51u8, 48u8, 48u8];
    let h = b.take(2);
    let m = b.skip(2);
    assert(h =~= seq![48u8, 51u8]);
    assert(m =~= seq![48u8, 48u8]);
    assert(unsigned_digits(h) == h);
    assert(unsigned_digits(m) == m);
    assert(h.drop_last() =~= seq![48u8]);
    assert(seq![48u8].drop_last() =~= Seq::<u8>::empty());
    assert(digits_value(Seq::<u8>::empty()) == 0);
    assert(digits_value(seq![48u8]) == 0);
    assert(digits_value(h) == 3);
    assert(m.drop_last() =~= seq![48u8]);
    assert(digits_value(m) == 0);
    assert(parse_u8_spec(h) == Some(3u8));
    assert(parse_u8_spec(m) == Some(0u8));
}

} // verus!
