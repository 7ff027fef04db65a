use async_php::curl::{
    curl_info_field, curl_plan, first_failed_transfer, curl_setting, CurlInfoField, CurlOptionValue, CurlSetting,
    CURLOPT_MAXREDIRS, CURLOPT_POST, CURLOPT_SSL_VERIFYHOST, CURLOPT_URL,
};

#[test]
fn settings_by_option_and_value() {
    assert!(matches!(
        curl_setting(CURLOPT_URL, CurlOptionValue::String("http://x".to_string())),
        CurlSetting::Url(u) if u == "http://x"
    ));
    assert!(matches!(curl_setting(CURLOPT_URL, CurlOptionValue::Long(1)), CurlSetting::NoEffect));
    assert!(matches!(
        curl_setting(CURLOPT_MAXREDIRS, CurlOptionValue::Long(5)),
        CurlSetting::MaxRedirections(5)
    ));
    assert!(matches!(
        curl_setting(CURLOPT_SSL_VERIFYHOST, CurlOptionValue::Long(2)),
        CurlSetting::SslVerifyHost(true)
    ));
    assert!(matches!(curl_setting(CURLOPT_POST, CurlOptionValue::Bool(true)), CurlSetting::Post));
    assert!(matches!(curl_setting(CURLOPT_POST, CurlOptionValue::Bool(false)), CurlSetting::NoEffect));
    assert!(matches!(curl_setting(99999, CurlOptionValue::Bool(true)), CurlSetting::Unsupported));
}

#[test]
fn plan_keeps_order() {
    let plan = curl_plan(vec![
        (CURLOPT_URL, CurlOptionValue::String("http://a".to_string())),
        (12345, CurlOptionValue::Long(1)),
        (CURLOPT_POST, CurlOptionValue::Bool(true)),
    ]);
    assert_eq!(plan.len(), 3);
    assert!(matches!(&plan[0], CurlSetting::Url(u) if u == "http://a"));
    assert!(matches!(plan[1], CurlSetting::Unsupported));
    assert!(matches!(plan[2], CurlSetting::Post));
}

#[test]
fn info_fields() {
    assert_eq!(curl_info_field(1048577), Some(CurlInfoField::EffectiveUrl));
    assert_eq!(curl_info_field(2097154), Some(CurlInfoField::ResponseCode));
    assert_eq!(curl_info_field(1048594), Some(CurlInfoField::ContentType));
    assert_eq!(curl_info_field(7), None);
}

#[test]
fn first_failed_transfer_stops_the_run() {
    assert_eq!(first_failed_transfer(&vec![true, true, false, false]), Some(2));
    assert_eq!(first_failed_transfer(&vec![false]), Some(0));
    assert_eq!(first_failed_transfer(&vec![true, true]), None);
    assert_eq!(first_failed_transfer(&vec![]), None);
}
