use azure_speech::config::{
    AudioFormat, Auth, Headers, LanguageDetectMode, OutputFormat, Profanity, RecognitionMode,
    ResolverConfig, Source,
};
use azure_speech::json::{json_string, member, Json};
use azure_speech::message::Message;
use azure_speech::payload::{speech_config_value, speech_context_value};
use azure_speech::clock::unix_timestamp;
use azure_speech::utils::{
    create_speech_audio_message, generate_uri_for_stt_speech_azure,
    get_azure_hostname_from_region, speech_audio_message, speech_config_message, stt_host,
    stt_query_pairs,
};
use serde_json::Value;

fn config(region: &str) -> ResolverConfig {
    let source = Source::stream(Headers {
        sample_rate: 16000,
        bits_per_sample: 16,
        channels: 1,
        format: AudioFormat::PCM,
    });
    ResolverConfig::new(Auth::from_subscription(region, "key"), source)
}

fn pairs(config: &ResolverConfig) -> Vec<(String, String)> {
    stt_query_pairs(config)
}

fn value(j: &Json) -> Value {
    match j {
        Json::Null => Value::Null,
        Json::Bool(b) => Value::Bool(*b),
        Json::Number(n) => Value::from(*n),
        Json::Str(s) => Value::String(s.clone()),
        Json::Array(items) => Value::Array(items.iter().map(value).collect()),
        Json::Object(members) => {
            Value::Object(members.iter().map(|(k, v)| (k.clone(), value(v))).collect())
        }
    }
}

fn keys(j: &Json) -> Vec<String> {
    match j {
        Json::Object(members) => members.iter().map(|(k, _)| k.clone()).collect(),
        _ => panic!("Expected an object"),
    }
}

#[test]
fn json_builders() {
    let v = Json::Object(vec![member("a", json_string("x\"y")), member("b", Json::Number(7))]);
    assert_eq!(keys(&v), vec!["a".to_string(), "b".to_string()]);
    assert_eq!(value(&v), serde_json::from_str::<Value>(r#"{"a":"x\"y","b":7}"#).unwrap());
}

#[test]
fn hostname_follows_the_cloud_of_the_region() {
    assert_eq!(get_azure_hostname_from_region("westus"), ".microsoft.com");
    assert_eq!(get_azure_hostname_from_region("chinaeast2"), ".azure.cn");
    assert_eq!(get_azure_hostname_from_region("northchina"), ".azure.cn");
    assert_eq!(get_azure_hostname_from_region("usgovvirginia"), ".azure.us");
    assert_eq!(get_azure_hostname_from_region("eastusgov"), ".microsoft.com");
    assert_eq!(get_azure_hostname_from_region(""), ".microsoft.com");
}

#[test]
fn endpoint_of_each_mode() {
    let mut c = config("westeurope");
    assert_eq!(stt_host(&c), "wss://westeurope.stt.speech.microsoft.com");
    let uri = generate_uri_for_stt_speech_azure(&c).unwrap();
    assert!(uri.starts_with(
        "wss://westeurope.stt.speech.microsoft.com/speech/recognition/conversation/cognitiveservices/v1?"
    ));
    c.set_mode(RecognitionMode::Interactive);
    let uri = url::Url::parse(&generate_uri_for_stt_speech_azure(&c).unwrap()).unwrap();
    assert_eq!(uri.path(), "/speech/recognition/interactive/cognitiveservices/v1");
    c.set_mode(RecognitionMode::Dictation);
    let uri = url::Url::parse(&generate_uri_for_stt_speech_azure(&c).unwrap()).unwrap();
    assert_eq!(uri.path(), "/speech/recognition/dictation/cognitiveservices/v1");
}

#[test]
fn the_mode_path_replaces_any_path_the_region_brings() {
    let c = config("a/b");
    let uri = url::Url::parse(&generate_uri_for_stt_speech_azure(&c).unwrap()).unwrap();
    assert_eq!(uri.host_str(), Some("a"));
    assert_eq!(uri.path(), "/speech/recognition/conversation/cognitiveservices/v1");
}

#[test]
fn query_of_a_default_configuration() {
    let c = config("westus");
    let q = pairs(&c);
    let expected: Vec<(String, String)> = vec![
        ("Ocp-Apim-Subscription-Key".to_string(), "key".to_string()),
        ("language".to_string(), "en-us".to_string()),
        ("format".to_string(), "simple".to_string()),
        ("profanity".to_string(), "masked".to_string()),
        ("storeAudio".to_string(), "false".to_string()),
    ];
    assert_eq!(q, expected);
}

#[test]
fn query_asks_for_word_timestamps_in_detailed_single_language_output() {
    let mut c = config("westus");
    c.set_output_format(OutputFormat::Detailed);
    c.set_profanity(Profanity::Raw);
    c.set_connection_id("conn-1".to_string());
    let q = pairs(&c);
    assert_eq!(q.len(), 7);
    assert_eq!(q[2], ("format".to_string(), "detailed".to_string()));
    assert_eq!(q[3], ("profanity".to_string(), "raw".to_string()));
    assert_eq!(q[5], ("wordLevelTimestamps".to_string(), "true".to_string()));
    assert_eq!(q[6], ("X-ConnectionId".to_string(), "conn-1".to_string()));
}

#[test]
fn language_identification_only_with_several_languages() {
    let mut c = config("westus");
    assert!(!pairs(&c).iter().any(|p| p.0 == "lidEnabled"));
    c.set_detect_languages(vec!["de-de".to_string(), "fr-fr".to_string()], LanguageDetectMode::AtStart);
    let q = pairs(&c);
    assert!(q.iter().any(|p| p.0 == "lidEnabled" && p.1 == "true"));
    assert_eq!(q[1], ("language".to_string(), "de-de".to_string()));
    let body = value(&speech_context_value(&c));
    assert_eq!(body["languageId"]["mode"], "DetectAtAudioStart");
    assert_eq!(body["phraseDetection"]["customModels"], Value::Null);
}

#[test]
fn uri_encodes_query_values() {
    let mut c = config("westus");
    c.set_connection_id("a b&c=d".to_string());
    let uri = generate_uri_for_stt_speech_azure(&c).unwrap();
    assert!(uri.contains("X-ConnectionId=a+b%26c%3Dd"));
    let parsed = url::Url::parse(&uri).unwrap();
    assert_eq!(parsed.query_pairs().find(|x| x.0 == "X-ConnectionId").unwrap().1, "a b&c=d");
}

#[test]
fn uri_is_refused_for_a_region_that_makes_no_host() {
    let c = config("west us");
    assert_eq!(generate_uri_for_stt_speech_azure(&c), None);
}

#[test]
fn context_body_is_empty_without_phrases_or_languages() {
    let c = config("westus");
    assert_eq!(value(&speech_context_value(&c)), Value::Object(serde_json::Map::new()));
}

#[test]
fn config_body_keeps_member_order() {
    let c = config("westus");
    let body = speech_config_value(&c);
    assert_eq!(keys(&body), vec!["context".to_string(), "recognition".to_string()]);
    match &body {
        Json::Object(members) => {
            assert_eq!(keys(&members[0].1), vec!["system".to_string(), "os".to_string(), "audio".to_string()]);
        }
        _ => panic!("Expected an object"),
    }
}

#[test]
fn frames_carry_the_given_request_id_and_time() {
    let c = config("westus");
    match speech_config_message("req", "2024-01-01T00:00:00.000Z", &c) {
        Message::Text { headers, .. } => {
            assert_eq!(headers[1], ("X-RequestId".to_string(), "req".to_string()));
            assert_eq!(headers[3], ("X-Timestamp".to_string(), "2024-01-01T00:00:00.000Z".to_string()));
        }
        _ => panic!("Expected Text message"),
    }
    match speech_audio_message("req", "t", Some(vec![9])) {
        Message::Binary { headers, data } => {
            assert_eq!(headers.len(), 3);
            assert_eq!(headers[2], ("X-Timestamp".to_string(), "t".to_string()));
            assert_eq!(data, Some(vec![9]));
        }
        _ => panic!("Expected Binary message"),
    }
}

#[test]
fn request_id_is_the_hyphenated_session_id() {
    let bytes: [u8; 16] = [
        0x67, 0xe5, 0x50, 0x44, 0x10, 0xb1, 0x42, 0x6f, 0x92, 0x47, 0xbb, 0x68, 0x0e, 0x5f, 0xe0, 0xc8,
    ];
    match create_speech_audio_message(bytes, None).unwrap() {
        Message::Binary { headers, .. } => {
            assert_eq!(headers[1].1, "67e55044-10b1-426f-9247-bb680e5fe0c8");
            assert!(headers[2].1.ends_with('Z'));
            assert_eq!(headers[2].1.len(), 24);
            assert!(chrono::DateTime::parse_from_rfc3339(&headers[2].1).is_ok());
        }
        _ => panic!("Expected Binary message"),
    }
}

#[test]
fn wave_header_bytes() {
    let h = Headers { sample_rate: 16000, bits_per_sample: 16, channels: 1, format: AudioFormat::PCM };
    let mut expected: Vec<u8> = Vec::new();
    expected.extend_from_slice(b"RIFF");
    expected.extend_from_slice(&0u32.to_le_bytes());
    expected.extend_from_slice(b"WAVE");
    expected.extend_from_slice(b"fmt ");
    expected.extend_from_slice(&16u32.to_le_bytes());
    expected.extend_from_slice(&1u16.to_le_bytes());
    expected.extend_from_slice(&1u16.to_le_bytes());
    expected.extend_from_slice(&16000u32.to_le_bytes());
    expected.extend_from_slice(&32000u32.to_le_bytes());
    expected.extend_from_slice(&2u16.to_le_bytes());
    expected.extend_from_slice(&16u16.to_le_bytes());
    expected.extend_from_slice(b"data");
    expected.extend_from_slice(&0u32.to_le_bytes());
    assert_eq!(h.to_wave_header(), expected);
    assert_eq!(expected.len(), 44);
    let stereo = Headers { sample_rate: 44100, bits_per_sample: 24, channels: 2, format: AudioFormat::PCM };
    let w = stereo.to_wave_header();
    assert_eq!(&w[28..32], &264600u32.to_le_bytes());
    assert_eq!(&w[32..34], &6u16.to_le_bytes());
}

#[test]
fn clock_readings_become_unix_times() {
    assert_eq!(unix_timestamp(Ok((1_700_000_000, 5))), Some((1_700_000_000, 5)));
    assert_eq!(unix_timestamp(Err((3, 0))), Some((-3, 0)));
    assert_eq!(unix_timestamp(Err((3, 250_000_000))), Some((-4, 750_000_000)));
    assert_eq!(unix_timestamp(Ok((u64::MAX, 0))), None);
    assert_eq!(unix_timestamp(Err((u64::MAX, 1))), None);
}

#[test]
fn subscription_key_with_special_characters_comes_back_whole() {
    let plain = config("westus");
    let source = Source::stream(Headers {
        sample_rate: 16000,
        bits_per_sample: 16,
        channels: 1,
        format: AudioFormat::PCM,
    });
    let special = ResolverConfig::new(Auth::from_subscription("westus", "a&b=c d#+%"), source);
    let plain_uri = url::Url::parse(&generate_uri_for_stt_speech_azure(&plain).unwrap()).unwrap();
    let uri = url::Url::parse(&generate_uri_for_stt_speech_azure(&special).unwrap()).unwrap();
    let keys: Vec<String> = uri
        .query_pairs()
        .filter(|x| x.0 == "Ocp-Apim-Subscription-Key")
        .map(|x| x.1.into_owned())
        .collect();
    assert_eq!(keys, vec!["a&b=c d#+%".to_string()]);
    assert_eq!(uri.query_pairs().count(), plain_uri.query_pairs().count());
}
