use azure_speech::config::{
    AudioFormat, Auth, Headers, LanguageDetectMode, Os, OutputFormat, Profanity, RecognitionMode,
    ResolverConfig, Source, System,
};
use azure_speech::json::Json;
use azure_speech::message::Message;
use azure_speech::utils::{
    create_speech_audio_headers_message, create_speech_audio_message,
    create_speech_config_message, create_speech_context_message, generate_uri_for_stt_speech_azure,
};
use serde_json::Value;
use uuid::Uuid;

fn stream_source() -> Source {
    Source::stream(Headers { sample_rate: 16000, bits_per_sample: 16, channels: 1, format: AudioFormat::PCM })
}

fn value(j: &Json) -> Value {
    match j {
        Json::Null => Value::Null,
        Json::Bool(b) => Value::Bool(*b),
        Json::Number(n) => Value::from(*n),
        Json::Str(s) => Value::String(s.clone()),
        Json::Array(items) => Value::Array(items.iter().map(value).collect()),
        Json::Object(members) => {
            Value::Object(members.iter().map(|(k, v)| (k.clone(), value(v))).collect())
        }
    }
}

fn body(data: Option<Json>) -> Value {
    value(&data.unwrap())
}

#[test]
fn test_create_speech_config_message() {
    let source = stream_source();

    let mut config = ResolverConfig::new(Auth::from_subscription("westus", "my_subscription"), source);
    config.set_mode(RecognitionMode::Conversation);
    config.set_os(Os::unknown());
    config.set_system(System::unknown());

    let session_id = Uuid::new_v4();

    let message = create_speech_config_message(*session_id.as_bytes(), &config).unwrap();
    match message {
        Message::Text { headers, data } => {
            assert_eq!(headers.len(), 4);
            assert_eq!(headers[0].0, "Path");
            assert_eq!(headers[0].1, "speech.config");
            assert_eq!(headers[1].0, "X-RequestId");
            assert_eq!(headers[1].1, session_id.to_string());
            assert_eq!(headers[2].0, "Content-Type");
            assert_eq!(headers[2].1, "application/json");
            assert_eq!(headers[3].0, "X-Timestamp");
            assert_eq!(data.is_some(), true);

            // test data
            assert_eq!(serde_json::from_str::<Value>(r#"{"context":{"audio":{"source":{"bitspersample":16,"channelcount":1,"connectivity":"Unknown","manufacturer":"Unknown","model":"Stream","samplerate":16000,"type":"Stream"}},"os":{"name":"Unknown","platform":"Unknown","version":"Unknown"},"system":{"build":"Unknown","lang":"Unknown","name":"Unknown","version":"Unknown"}},"recognition":"conversation"}"#).unwrap(), body(data));
        }
        _ => panic!("Expected Text message"),
    }
}

#[test]
fn test_create_speech_context_message() {
    let source = stream_source();

    let mut config = ResolverConfig::new(Auth::from_subscription("westus", "my_subscription"), source);

    config.set_detect_languages(vec![String::from("en-us"), String::from("it-it")], LanguageDetectMode::Continuous);
    config.set_output_format(OutputFormat::Detailed);
    config.set_phrases(vec![String::from("hello world")]);
    config.set_custom_models(vec![("en-us".to_string(), "https://custom-model.com".to_string())]);

    let session_id = Uuid::new_v4();
    let message = create_speech_context_message(*session_id.as_bytes(), &config).unwrap();
    match message {
        Message::Text { headers, data } => {
            assert_eq!(headers.len(), 4);
            assert_eq!(headers[0].0, "Path");
            assert_eq!(headers[0].1, "speech.context");
            assert_eq!(headers[1].0, "X-RequestId");
            assert_eq!(headers[1].1, session_id.to_string());
            assert_eq!(headers[2].0, "Content-Type");
            assert_eq!(headers[2].1, "application/json");
            assert_eq!(headers[3].0, "X-Timestamp");
            assert_eq!(data.is_some(), true);

            // test data
            assert_eq!(serde_json::from_str::<Value>(r#"{"dgi":{"Groups":[{"Items":[{"Text":"hello world"}],"Type":"Generic"}]},"languageId":{"Priority":"PrioritizeLatency","languages":["en-us","it-it"],"mode":"DetectContinuous","onSuccess":{"action":"Recognize"},"onUnknown":{"action":"None"}},"phraseDetection":{"customModels":[{"endpoint":"https://custom-model.com","language":"en-us"}],"onInterim":null,"onSuccess":null},"phraseOutput":{"interimResults":{"resultType":"Auto"},"phraseResults":{"resultType":"Always"}}}"#).unwrap(), body(data));
        }
        _ => panic!("Expected Text message"),
    }
}

#[test]
fn test_create_speech_audio_headers_message() {
    let session_id = Uuid::new_v4();

    let audio_headers = Headers { sample_rate: 16000, bits_per_sample: 16, channels: 1, format: AudioFormat::PCM };

    let message = create_speech_audio_headers_message(*session_id.as_bytes(), "audio/x-wav".to_string(), audio_headers.clone()).unwrap();
    match message {
        Message::Binary { headers, data } => {
            assert_eq!(headers.len(), 4);
            assert_eq!(headers[0].0, "Path");
            assert_eq!(headers[0].1, "audio");
            assert_eq!(headers[1].0, "X-RequestId");
            assert_eq!(headers[1].1, session_id.to_string());
            assert_eq!(headers[2].0, "Content-Type");
            assert_eq!(headers[2].1, "audio/x-wav");
            assert_eq!(headers[3].0, "X-Timestamp");
            assert_eq!(data.is_some(), true);

            // test data
            let audio_headers_vec: Vec<u8> = audio_headers.to_wave_header();
            assert_eq!(data.unwrap(), audio_headers_vec);
        }
        _ => panic!("Expected Binary message"),
    }
}

#[test]
fn test_create_speech_audio_message() {
    let session_id = Uuid::new_v4();

    let audio = vec![0, 1, 2, 3, 4, 5];

    let message = create_speech_audio_message(*session_id.as_bytes(), Some(audio.clone())).unwrap();
    match message {
        Message::Binary { headers, data } => {
            assert_eq!(headers.len(), 3);
            assert_eq!(headers[0].0, "Path");
            assert_eq!(headers[0].1, "audio");
            assert_eq!(headers[1].0, "X-RequestId");
            assert_eq!(headers[1].1, session_id.to_string());
            assert_eq!(headers[2].0, "X-Timestamp");
            assert_eq!(data.is_some(), true);

            // test data
            assert_eq!(data.unwrap(), audio);
        }
        _ => panic!("Expected Binary message"),
    }

    let message = create_speech_audio_message(*session_id.as_bytes(), None).unwrap();
    match message {
        Message::Binary { headers, data } => {
            assert_eq!(headers.len(), 3);
            assert_eq!(headers[0].0, "Path");
            assert_eq!(headers[0].1, "audio");
            assert_eq!(headers[1].0, "X-RequestId");
            assert_eq!(headers[1].1, session_id.to_string());
            assert_eq!(headers[2].0, "X-Timestamp");
            assert_eq!(data.is_some(), false);
        }
        _ => panic!("Expected Binary message"),
    }
}

#[test]
fn generate_uri_for_stt_speech_azure_generates_correct_uri_for_us_region() {
    let source = stream_source();
    let mut config = ResolverConfig::new(Auth::from_subscription("westus", "my_subscription"), source);
    config.set_detect_languages(vec![String::from("en-us"), String::from("it-it")], LanguageDetectMode::Continuous);
    config.set_output_format(OutputFormat::Detailed);
    config.set_phrases(vec![String::from("hello world")]);
    config.set_profanity(Profanity::Masked);
    config.set_store_audio(true);

    let uri = generate_uri_for_stt_speech_azure(&config).unwrap();

    let uri = url::Url::parse(uri.as_str()).unwrap();
    // tests path
    assert_eq!(uri.path(), "/speech/recognition/conversation/cognitiveservices/v1");
    // tests query parameters
    assert_eq!(uri.query_pairs().count(), 6);
    assert_eq!(uri.query_pairs().find(|x| x.0 == "Ocp-Apim-Subscription-Key").unwrap().1, "my_subscription");
    assert_eq!(uri.query_pairs().find(|x| x.0 == "language").unwrap().1, "en-us");
    assert_eq!(uri.query_pairs().find(|x| x.0 == "format").unwrap().1, "detailed");
    assert_eq!(uri.query_pairs().find(|x| x.0 == "profanity").unwrap().1, "masked");
    assert_eq!(uri.query_pairs().find(|x| x.0 == "storeAudio").unwrap().1, "true");
    assert_eq!(uri.query_pairs().find(|x| x.0 == "lidEnabled").unwrap().1, "true");
}

#[test]
fn generate_uri_for_stt_speech_azure_generates_correct_uri_for_china_region() {
    let source = stream_source();
    let config = ResolverConfig::new(Auth::from_subscription("chinaeast", "my_subscription"), source);
    let uri = generate_uri_for_stt_speech_azure(&config).unwrap();
    assert!(uri.starts_with("wss://chinaeast.stt.speech.azure.cn"));
}

#[test]
fn generate_uri_for_stt_speech_azure_generates_correct_uri_for_usgov_region() {
    let source = stream_source();
    let config = ResolverConfig::new(Auth::from_subscription("usgovwest", "my_subscription"), source);

    let uri = generate_uri_for_stt_speech_azure(&config).unwrap();
    assert!(uri.starts_with("wss://usgovwest.stt.speech.azure.us"));
}

#[test]
fn generate_uri_for_stt_speech_azure_generates_correct_uri_for_multiple_languages() {
    let source = stream_source();
    let mut config = ResolverConfig::new(Auth::from_subscription("westus", "my_subscription"), source);
    config.set_detect_languages(vec![String::from("en-us"), String::from("es-es")], LanguageDetectMode::Continuous);
    let uri = generate_uri_for_stt_speech_azure(&config).unwrap();
    assert!(uri.contains("lidEnabled=true"));
}
