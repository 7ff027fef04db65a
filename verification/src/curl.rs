//! Decisions of the curl bindings: which setting a `CURLOPT_*` option with
//! a given value makes, and which result field a `CURLINFO_*` id reads.

use vstd::prelude::*;

verus! {

/// An option value as PHP hands it over.
#[derive(Debug)]
pub enum CurlOptionValue {
    String(String),
    Long(i64),
    Bool(bool),
    StringArray(Vec<String>),
}

/// What applying an option does to a transfer.
#[derive(Debug)]
pub enum CurlSetting {
    /// `CURLOPT_URL`.
    Url(String),
    /// `CURLOPT_FOLLOWLOCATION`.
    FollowLocation(bool),
    /// `CURLOPT_MAXREDIRS`.
    MaxRedirections(u32),
    /// `CURLOPT_TIMEOUT`, in seconds.
    TimeoutSecs(u64),
    /// `CURLOPT_CONNECTTIMEOUT`, in seconds.
    ConnectTimeoutSecs(u64),
    /// `CURLOPT_USERAGENT`.
    UserAgent(String),
    /// `CURLOPT_SSL_VERIFYPEER`.
    SslVerifyPeer(bool),
    /// `CURLOPT_SSL_VERIFYHOST`.
    SslVerifyHost(bool),
    /// `CURLOPT_POST` set to true.
    Post,
    /// `CURLOPT_CUSTOMREQUEST`.
    CustomRequest(String),
    /// `CURLOPT_POSTFIELDS`, the body sent as the string's bytes.
    PostFields(String),
    /// `CURLOPT_HTTPHEADER`.
    HttpHeaders(Vec<String>),
    /// A known option whose value has another type (or `POST` false): no effect.
    NoEffect,
    /// An option these bindings do not support: ignored.
    Unsupported,
}

pub const CURLOPT_URL: i64 = 10002;
pub const CURLOPT_FOLLOWLOCATION: i64 = 52;
pub const CURLOPT_MAXREDIRS: i64 = 68;
pub const CURLOPT_TIMEOUT: i64 = 13;
pub const CURLOPT_CONNECTTIMEOUT: i64 = 78;
pub const CURLOPT_USERAGENT: i64 = 10018;
pub const CURLOPT_SSL_VERIFYPEER: i64 = 64;
pub const CURLOPT_SSL_VERIFYHOST: i64 = 81;
pub const CURLOPT_POST: i64 = 47;
pub const CURLOPT_CUSTOMREQUEST: i64 = 10036;
pub const CURLOPT_POSTFIELDS: i64 = 10015;
pub const CURLOPT_HTTPHEADER: i64 = 10023;

/// The setting an option makes: each supported option takes effect only
/// with a value of its own type; numbers are converted as Rust's `as`
/// converts them.
pub open spec fn curl_setting_spec(option: i64, value: CurlOptionValue) -> CurlSetting {
    if option == CURLOPT_URL {
        match value {
            CurlOptionValue::String(s) => CurlSetting::Url(s),
            _ => CurlSetting::NoEffect,
        }
    } else if option == CURLOPT_FOLLOWLOCATION {
        match value {
            CurlOptionValue::Bool(b) => CurlSetting::FollowLocation(b),
            _ => CurlSetting::NoEffect,
        }
    } else if option == CURLOPT_MAXREDIRS {
        match value {
            CurlOptionValue::Long(n) => CurlSetting::MaxRedirections(n as u32),
            _ => CurlSetting::NoEffect,
        }
    } else if option == CURLOPT_TIMEOUT {
        match value {
            CurlOptionValue::Long(n) => CurlSetting::TimeoutSecs(n as u64),
            _ => CurlSetting::NoEffect,
        }
    } else if option == CURLOPT_CONNECTTIMEOUT {
        match value {
            CurlOptionValue::Long(n) => CurlSetting::ConnectTimeoutSecs(n as u64),
            _ => CurlSetting::NoEffect,
        }
    } else if option == CURLOPT_USERAGENT {
        match value {
            CurlOptionValue::String(s) => CurlSetting::UserAgent(s),
            _ => CurlSetting::NoEffect,
        }
    } else if option == CURLOPT_SSL_VERIFYPEER {
        match value {
            CurlOptionValue::Bool(b) => CurlSetting::SslVerifyPeer(b),
            _ => CurlSetting::NoEffect,
        }
    } else if option == CURLOPT_SSL_VERIFYHOST {
        match value {
            CurlOptionValue::Long(n) => CurlSetting::SslVerifyHost(n != 0),
            _ => CurlSetting::NoEffect,
        }
    } else if option == CURLOPT_POST {
        match value {
            CurlOptionValue::Bool(true) => CurlSetting::Post,
            _ => CurlSetting::NoEffect,
        }
    } else if option == CURLOPT_CUSTOMREQUEST {
        match value {
            CurlOptionValue::String(s) => CurlSetting::CustomRequest(s),
            _ => CurlSetting::NoEffect,
        }
    } else if option == CURLOPT_POSTFIELDS {
        match value {
            CurlOptionValue::String(s) => CurlSetting::PostFields(s),
            _ => CurlSetting::NoEffect,
        }
    } else if option == CURLOPT_HTTPHEADER {
        match value {
            CurlOptionValue::StringArray(h) => CurlSetting::HttpHeaders(h),
            _ => CurlSetting::NoEffect,
        }
    } else {
        CurlSetting::Unsupported
    }
}

/// Decides what setting `option` with `value` makes.
pub fn curl_setting(option: i64, value: CurlOptionValue) -> (r: CurlSetting)
    ensures
        r == curl_setting_spec(option, value),
{
    if option == CURLOPT_URL {
        match value {
            CurlOptionValue::String(s) => CurlSetting::Url(s),
            _ => CurlSetting::NoEffect,
        }
    } else if option == CURLOPT_FOLLOWLOCATION {
        match value {
            CurlOptionValue::Bool(b) => CurlSetting::FollowLocation(b),
            _ => CurlSetting::NoEffect,
        }
    } else if option == CURLOPT_MAXREDIRS {
        match value {
            CurlOptionValue::Long(n) => CurlSetting::MaxRedirections(n as u32),
            _ => CurlSetting::NoEffect,
        }
    } else if option == CURLOPT_TIMEOUT {
        match value {
            CurlOptionValue::Long(n) => CurlSetting::TimeoutSecs(n as u64),
            _ => CurlSetting::NoEffect,
        }
    } else if option == CURLOPT_CONNECTTIMEOUT {
        match value {
            CurlOptionValue::Long(n) => CurlSetting::ConnectTimeoutSecs(n as u64),
            _ => CurlSetting::NoEffect,
        }
    } else if option == CURLOPT_USERAGENT {
        match value {
            CurlOptionValue::String(s) => CurlSetting::UserAgent(s),
            _ => CurlSetting::NoEffect,
        }
    } else if option == CURLOPT_SSL_VERIFYPEER {
        match value {
            CurlOptionValue::Bool(b) => CurlSetting::SslVerifyPeer(b),
            _ => CurlSetting::NoEffect,
        }
    } else if option == CURLOPT_SSL_VERIFYHOST {
        match value {
            CurlOptionValue::Long(n) => CurlSetting::SslVerifyHost(n != 0),
            _ => CurlSetting::NoEffect,
        }
    } else if option == CURLOPT_POST {
        match value {
            CurlOptionValue::Bool(true) => CurlSetting::Post,
            _ => CurlSetting::NoEffect,
        }
    } else if option == CURLOPT_CUSTOMREQUEST {
        match value {
            CurlOptionValue::String(s) => CurlSetting::CustomRequest(s),
            _ => CurlSetting::NoEffect,
        }
    } else if option == CURLOPT_POSTFIELDS {
        match value {
            CurlOptionValue::String(s) => CurlSetting::PostFields(s),
            _ => CurlSetting::NoEffect,
        }
    } else if option == CURLOPT_HTTPHEADER {
        match value {
            CurlOptionValue::StringArray(h) => CurlSetting::HttpHeaders(h),
            _ => CurlSetting::NoEffect,
        }
    } else {
        CurlSetting::Unsupported
    }
}

/// The settings a transfer is made with: one for each option that was
/// set on the handle, in the order they were set.
pub fn curl_plan(options: Vec<(i64, CurlOptionValue)>) -> (r: Vec<CurlSetting>)
    ensures
        r@.len() == options@.len(),
        forall|i: int|
            0 <= i < r@.len() ==> r@[i] == curl_setting_spec(options@[i].0, options@[i].1),
{
    let ghost orig = options@;
    let mut rest = options;
    let mut out: Vec<CurlSetting> = Vec::new();
    while rest.len() > 0
        invariant
            out@.len() + rest@.len() == orig.len(),
            rest@ == orig.skip(out@.len() as int),
            forall|i: int|
                0 <= i < out@.len() ==> out@[i] == curl_setting_spec(orig[i].0, orig[i].1),
        decreases rest@.len(),
    {
        let (opt, val) = rest.remove(0);
        let setting = curl_setting(opt, val);
        out.push(setting);
        assert(rest@ =~= orig.skip(out@.len() as int));
    }
    out
}

/// A field of the result of a transfer.
#[derive(Debug, Clone, Copy, PartialEq, Eq)]
pub enum CurlInfoField {
    EffectiveUrl,
    ResponseCode,
    TotalTime,
    NamelookupTime,
    ConnectTime,
    PretransferTime,
    StarttransferTime,
    RedirectCount,
    SizeUpload,
    SizeDownload,
    SpeedDownload,
    SpeedUpload,
    HeaderSize,
    ContentType,
}

/// The result field a `CURLINFO_*` id reads, if it is one of those kept.
pub open spec fn curl_info_field_spec(info_id: i64) -> Option<CurlInfoField> {
    if info_id == 1048577 {
        Some(CurlInfoField::EffectiveUrl)
    } else if info_id == 2097154 {
        Some(CurlInfoField::ResponseCode)
    } else if info_id == 3145731 {
        Some(CurlInfoField::TotalTime)
    } else if info_id == 3145732 {
        Some(CurlInfoField::NamelookupTime)
    } else if info_id == 3145733 {
        Some(CurlInfoField::ConnectTime)
    } else if info_id == 3145734 {
        Some(CurlInfoField::PretransferTime)
    } else if info_id == 3145735 {
        Some(CurlInfoField::StarttransferTime)
    } else if info_id == 2097172 {
        Some(CurlInfoField::RedirectCount)
    } else if info_id == 3145744 {
        Some(CurlInfoField::SizeUpload)
    } else if info_id == 3145736 {
        Some(CurlInfoField::SizeDownload)
    } else if info_id == 3145737 {
        Some(CurlInfoField::SpeedDownload)
    } else if info_id == 3145738 {
        Some(CurlInfoField::SpeedUpload)
    } else if info_id == 2097163 {
        Some(CurlInfoField::HeaderSize)
    } else if info_id == 1048594 {
        Some(CurlInfoField::ContentType)
    } else {
        None
    }
}

/// Which result field `getinfo(info_id)` reads (`None`: it answers null).
pub fn curl_info_field(info_id: i64) -> (r: Option<CurlInfoField>)
    ensures
        r == curl_info_field_spec(info_id),
{
    match info_id {
        1048577 => Some(CurlInfoField::EffectiveUrl),
        2097154 => Some(CurlInfoField::ResponseCode),
        3145731 => Some(CurlInfoField::TotalTime),
        3145732 => Some(CurlInfoField::NamelookupTime),
        3145733 => Some(CurlInfoField::ConnectTime),
        3145734 => Some(CurlInfoField::PretransferTime),
        3145735 => Some(CurlInfoField::StarttransferTime),
        2097172 => Some(CurlInfoField::RedirectCount),
        3145744 => Some(CurlInfoField::SizeUpload),
        3145736 => Some(CurlInfoField::SizeDownload),
        3145737 => Some(CurlInfoField::SpeedDownload),
        3145738 => Some(CurlInfoField::SpeedUpload),
        2097163 => Some(CurlInfoField::HeaderSize),
        1048594 => Some(CurlInfoField::ContentType),
        _ => None,
    }
}

/// Where the results of transfers run together are taken up to: the index
/// of the first transfer that failed, whose handle gets the error and stops
/// the run, or none when all succeeded. `succeeded[i]` tells whether
/// transfer `i` succeeded; every handle before the returned index gets its
/// result.
pub fn first_failed_transfer(succeeded: &Vec<bool>) -> (r: Option<usize>)
    ensures
        match r {
            Some(i) => i < succeeded@.len() && !succeeded@[i as int] && forall|j: int|
                0 <= j < i ==> succeeded@[j],
            None => forall|j: int| 0 <= j < succeeded@.len() ==> succeeded@[j],
        },
{
    let mut i: usize = 0;
    while i < succeeded.len()
        invariant
            i <= succeeded@.len(),
            forall|j: int| 0 <= j < i ==> succeeded@[j],
        decreases succeeded@.len() - i,
    {
        if !succeeded[i] {
            return Some(i);
        }
        i = i + 1;
    }
    None
}

/// The `CURLOPT_*` option a setting comes from (none for `NoEffect` and
/// `Unsupported`).
pub open spec fn setting_option(s: CurlSetting) -> Option<i64> {
    match s {
        CurlSetting::Url(_) => Some(10002),
        CurlSetting::FollowLocation(_) => Some(52),
        CurlSetting::MaxRedirections(_) => Some(68),
        CurlSetting::TimeoutSecs(_) => Some(13),
        CurlSetting::ConnectTimeoutSecs(_) => Some(78),
        CurlSetting::UserAgent(_) => Some(10018),
        CurlSetting::SslVerifyPeer(_) => Some(64),
        CurlSetting::SslVerifyHost(_) => Some(81),
        CurlSetting::Post => Some(47),
        CurlSetting::CustomRequest(_) => Some(10036),
        CurlSetting::PostFields(_) => Some(10015),
        CurlSetting::HttpHeaders(_) => Some(10023),
        CurlSetting::NoEffect => None,
        CurlSetting::Unsupported => None,
    }
}

/// Whether a setting carries exactly the value it was set with: the same
/// string, flag or header list, a number converted as Rust's `as` converts
/// it, `SSL_VERIFYHOST` on for a non-zero number, `POST` for `true`.
pub open spec fn setting_carries(s: CurlSetting, v: CurlOptionValue) -> bool {
    match s {
        CurlSetting::Url(x) => v == CurlOptionValue::String(x),
        CurlSetting::UserAgent(x) => v == CurlOptionValue::String(x),
        CurlSetting::CustomRequest(x) => v == CurlOptionValue::String(x),
        CurlSetting::PostFields(x) => v == CurlOptionValue::String(x),
        CurlSetting::FollowLocation(b) => v == CurlOptionValue::Bool(b),
        CurlSetting::SslVerifyPeer(b) => v == CurlOptionValue::Bool(b),
        CurlSetting::MaxRedirections(m) => v matches CurlOptionValue::Long(n) && m == n as u32,
        CurlSetting::TimeoutSecs(m) => v matches CurlOptionValue::Long(n) && m == n as u64,
        CurlSetting::ConnectTimeoutSecs(m) => v matches CurlOptionValue::Long(n) && m == n as u64,
        CurlSetting::SslVerifyHost(b) => v matches CurlOptionValue::Long(n) && b == (n != 0),
        CurlSetting::Post => v == CurlOptionValue::Bool(true),
        CurlSetting::HttpHeaders(h) => v == CurlOptionValue::StringArray(h),
        _ => false,
    }
}

/// The twelve options these bindings support.
pub open spec fn supported_option(option: i64) -> bool {
    option == 10002 || option == 52 || option == 68 || option == 13 || option == 78 || option
        == 10018 || option == 64 || option == 81 || option == 47 || option == 10036 || option
        == 10015 || option == 10023
}

/// Every setting is the one of the option it was asked for, carrying the
/// value it was given: a setting for `CURLOPT_TIMEOUT` (13) is the
/// whole-transfer timeout, and only `CURLOPT_CONNECTTIMEOUT` (78) limits
/// the connect phase. An unsupported option is ignored, and a supported
/// one whose value it cannot take has no effect.
pub proof fn law_setting_matches_option(option: i64, value: CurlOptionValue)
    ensures
        !supported_option(option) <==> curl_setting_spec(option, value) is Unsupported,
        supported_option(option) && !(curl_setting_spec(option, value) is NoEffect) ==> {
            &&& setting_option(curl_setting_spec(option, value)) == Some(option)
            &&& setting_carries(curl_setting_spec(option, value), value)
        },
        option == CURLOPT_TIMEOUT && value is Long ==> curl_setting_spec(option, value)
            == CurlSetting::TimeoutSecs(value->Long_0 as u64),
        curl_setting_spec(option, value) is ConnectTimeoutSecs ==> option == CURLOPT_CONNECTTIMEOUT,
{
}

/// The `CURLINFO_*` id that reads a result field.
pub open spec fn info_id(f: CurlInfoField) -> i64 {
    match f {
        CurlInfoField::EffectiveUrl => 1048577,
        CurlInfoField::ResponseCode => 2097154,
        CurlInfoField::TotalTime => 3145731,
        CurlInfoField::NamelookupTime => 3145732,
        CurlInfoField::ConnectTime => 3145733,
        CurlInfoField::PretransferTime => 3145734,
        CurlInfoField::StarttransferTime => 3145735,
        CurlInfoField::RedirectCount => 2097172,
        CurlInfoField::SizeUpload => 3145744,
        CurlInfoField::SizeDownload => 3145736,
        CurlInfoField::SpeedDownload => 3145737,
        CurlInfoField::SpeedUpload => 3145738,
        CurlInfoField::HeaderSize => 2097163,
        CurlInfoField::ContentType => 1048594,
    }
}

/// Each kept `CURLINFO_*` id reads its own field and no other: the field
/// an id reads is the one that id names, so two ids never read the same
/// field, and every field is read by its id.
pub proof fn law_info_ids_read_their_fields(id: i64, other: i64, f: CurlInfoField)
    ensures
        curl_info_field_spec(id) matches Some(g) ==> info_id(g) == id,
        curl_info_field_spec(info_id(f)) == Some(f),
        curl_info_field_spec(id) is Some && curl_info_field_spec(id) == curl_info_field_spec(
            other,
        ) ==> id == other,
{
}

} // verus!
