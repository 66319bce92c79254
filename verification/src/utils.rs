use vstd::prelude::*;

use crate::config::{
    pairs_view, strings_view, Auth, Headers, OutputFormat, Profanity, ResolverConfig,
};
use crate::message::{Message, MessageV};
use crate::payload::{
    context_ready, speech_config_json, speech_config_value, speech_context_json,
    speech_context_value,
};
use crate::clock::{clock_text, rfc3339_millis_form, utc_timestamp_now};
use crate::text::{contains_str, contains_text, option_text, starts_with_str};
use crate::wave::wave_header;

verus! {

// ---------------------------------------------------------------------------------------------
// What the outside crates compute
// ---------------------------------------------------------------------------------------------

/// The serialization of the URL that `url::Url::parse_with_params` makes of `input` and the
/// query pairs `params`, or `None` where `input` is no valid URL.
pub uninterp spec fn url_with_params(
    input: Seq<char>,
    params: Seq<(Seq<char>, Seq<char>)>,
) -> Option<Seq<char>>;

/// The serialization of the URL that `url::Url::parse` makes of `input` once
/// `url::Url::set_path` has given it the path `path`, or `None` where `input` is no valid URL.
pub uninterp spec fn url_path_set(input: Seq<char>, path: Seq<char>) -> Option<Seq<char>>;

/// `url::Url::parse_with_params`, serialized by `String::from(Url)`: parses `input` as a URL
/// and appends each pair of `params`, form-urlencoded, to its query. The contract names the
/// result and ties it to both arguments; the URL grammar and the encoding are left unsaid.
#[verifier::external_body]
fn parse_url_with_params(input: &str, params: &Vec<(String, String)>) -> (r: Option<String>)
    ensures
        option_text(r) == url_with_params(input@, pairs_view(params@)),
{
    match url::Url::parse_with_params(input, params.iter()) {
        Ok(url) => Some(String::from(url)),
        Err(_) => None,
    }
}

/// The hexadecimal digit of `n` (0 to 15), in lower case.
pub open spec fn hex_char(n: int) -> char {
    if n < 10 {
        (48 + n) as char
    } else {
        (87 + n) as char
    }
}

/// `url::Url::set_path`, on the URL that `url::Url::parse` makes of `input`, serialized by
/// `String::from(Url)`. The contract names the result and ties it to both arguments; the URL
/// grammar and the path encoding are left unsaid.
#[verifier::external_body]
fn set_url_path(input: &str, path: &str) -> (r: Option<String>)
    ensures
        option_text(r) == url_path_set(input@, path@),
{
    match url::Url::parse(input) {
        Ok(mut url) => {
            url.set_path(path);
            Some(String::from(url))
        },
        Err(_) => None,
    }
}

/// The lower-case hexadecimal digits of each byte of `bytes`, high digit first.
pub open spec fn hex_text(bytes: Seq<u8>) -> Seq<char>
    decreases bytes.len(),
{
    if bytes.len() == 0 {
        Seq::empty()
    } else {
        hex_text(bytes.drop_last()) + seq![
            hex_char((bytes.last() / 16) as int),
            hex_char((bytes.last() % 16) as int),
        ]
    }
}

/// The hyphenated form of a UUID: its bytes in hexadecimal, grouped 4-2-2-2-6.
pub open spec fn hyphenated_uuid(bytes: Seq<u8>) -> Seq<char> {
    hex_text(bytes.subrange(0, 4)) + seq!['-'] + hex_text(bytes.subrange(4, 6)) + seq!['-']
        + hex_text(bytes.subrange(6, 8)) + seq!['-'] + hex_text(bytes.subrange(8, 10)) + seq!['-']
        + hex_text(bytes.subrange(10, 16))
}

/// `String::from(uuid::Uuid::from_bytes(bytes))`: uuid's `Display`, the hyphenated lower-case
/// form of the 16 bytes in their order.
#[verifier::external_body]
fn uuid_string(bytes: [u8; 16]) -> (r: String)
    ensures
        r@ == hyphenated_uuid(bytes@),
{
    String::from(uuid::Uuid::from_bytes(bytes))
}

// ---------------------------------------------------------------------------------------------
// The endpoint
// ---------------------------------------------------------------------------------------------

/// The host suffix of the cloud that serves `region`: Azure China for regions that name
/// China, Azure Government for the `usgov` regions, the public cloud otherwise.
pub open spec fn azure_host_suffix(region: Seq<char>) -> Seq<char> {
    if contains_text(region, "china"@) {
        ".azure.cn"@
    } else if "usgov"@.is_prefix_of(region) {
        ".azure.us"@
    } else {
        ".microsoft.com"@
    }
}

pub fn get_azure_hostname_from_region(region: &str) -> (r: String)
    ensures
        r@ == azure_host_suffix(region@),
{
    if contains_str(region, "china") {
        String::from_str(".azure.cn")
    } else if starts_with_str(region, "usgov") {
        String::from_str(".azure.us")
    } else {
        String::from_str(".microsoft.com")
    }
}

/// The WebSocket address of the speech service of `c`'s region, before its path and query.
pub open spec fn stt_host_text(c: ResolverConfig) -> Seq<char> {
    "wss://"@ + c.auth.region@ + ".stt.speech"@ + azure_host_suffix(c.auth.region@)
}

pub fn stt_host(config: &ResolverConfig) -> (r: String)
    ensures
        r@ == stt_host_text(*config),
{
    let mut url = String::from_str("wss://");
    url.append(config.auth.region.as_str());
    url.append(".stt.speech");
    let host = get_azure_hostname_from_region(config.auth.region.as_str());
    url.append(host.as_str());
    url
}

/// How a `bool` is written: `true` or `false`.
pub open spec fn bool_text(b: bool) -> Seq<char> {
    if b {
        "true"@
    } else {
        "false"@
    }
}

/// The query of the endpoint, pair by pair: the subscription key, the first language, the
/// output format, the profanity mode and whether audio is stored; word-level timestamps for
/// detailed output in one language; language identification where more than one language is
/// configured; the connection id where there is one.
pub open spec fn stt_query(c: ResolverConfig) -> Seq<(Seq<char>, Seq<char>)> {
    let languages = strings_view(c.languages@);
    seq![
        ("Ocp-Apim-Subscription-Key"@, c.auth.subscription@),
        ("language"@, languages[0]),
        ("format"@, c.output_format.name_text()),
        ("profanity"@, c.profanity.name_text()),
        ("storeAudio"@, bool_text(c.store_audio)),
    ] + (if c.output_format == OutputFormat::Detailed && languages.len() <= 1 {
        seq![("wordLevelTimestamps"@, "true"@)]
    } else {
        Seq::empty()
    }) + (if languages.len() > 1 {
        seq![("lidEnabled"@, "true"@)]
    } else {
        Seq::empty()
    }) + (match c.connection_id {
        Some(id) => seq![("X-ConnectionId"@, id@)],
        None => Seq::empty(),
    })
}

fn pair(key: &str, value: &str) -> (r: (String, String))
    ensures
        r.0@ == key@,
        r.1@ == value@,
{
    (String::from_str(key), String::from_str(value))
}

pub fn stt_query_pairs(config: &ResolverConfig) -> (r: Vec<(String, String)>)
    requires
        config.languages@.len() >= 1,
    ensures
        pairs_view(r@) == stt_query(*config),
{
    let mut q: Vec<(String, String)> = Vec::new();
    q.push(pair("Ocp-Apim-Subscription-Key", config.auth.subscription.as_str()));
    q.push(pair("language", config.languages[0].as_str()));
    q.push(pair("format", config.output_format.as_str()));
    q.push(pair("profanity", config.profanity.as_str()));
    q.push(pair("storeAudio", if config.store_audio { "true" } else { "false" }));
    let multiple = config.languages.len() > 1;
    if config.output_format == OutputFormat::Detailed && !multiple {
        q.push(pair("wordLevelTimestamps", "true"));
    }
    if multiple {
        q.push(pair("lidEnabled", "true"));
    }
    if let Some(id) = &config.connection_id {
        q.push(pair("X-ConnectionId", id.as_str()));
    }
    assert(pairs_view(q@) =~= stt_query(*config));
    q
}

/// The URL of the recognition endpoint of `c`: the service address of its region, given the
/// path of its mode and then its query pairs; `None` where the region makes no valid URL.
pub open spec fn stt_uri(c: ResolverConfig) -> Option<Seq<char>> {
    match url_path_set(stt_host_text(c), c.mode.uri_path_text()) {
        Some(u) => url_with_params(u, stt_query(c)),
        None => None,
    }
}

/// The URL of the recognition endpoint for `config`, with its query; `None` where the region
/// makes no valid URL.
pub fn generate_uri_for_stt_speech_azure(config: &ResolverConfig) -> (r: Option<String>)
    requires
        config.languages@.len() >= 1,
    ensures
        option_text(r) == stt_uri(*config),
{
    let host = stt_host(config);
    let path = config.mode.to_uri_path();
    match set_url_path(host.as_str(), path.as_str()) {
        Some(url) => {
            let query = stt_query_pairs(config);
            parse_url_with_params(url.as_str(), &query)
        },
        None => None,
    }
}

// ---------------------------------------------------------------------------------------------
// The frames
// ---------------------------------------------------------------------------------------------

/// The headers of a frame: its path, the request id, its content type where it has one, and
/// the time it was made, in that order.
pub open spec fn frame_headers(
    path: Seq<char>,
    request_id: Seq<char>,
    content_type: Option<Seq<char>>,
    timestamp: Seq<char>,
) -> Seq<(Seq<char>, Seq<char>)> {
    seq![("Path"@, path), ("X-RequestId"@, request_id)] + (match content_type {
        Some(t) => seq![("Content-Type"@, t)],
        None => Seq::empty(),
    }) + seq![("X-Timestamp"@, timestamp)]
}

fn frame_header_vec(
    path: &str,
    request_id: &str,
    content_type: Option<&str>,
    timestamp: &str,
) -> (r: Vec<(String, String)>)
    ensures
        pairs_view(r@) == frame_headers(
            path@,
            request_id@,
            match content_type {
                Some(t) => Some(t@),
                None => None,
            },
            timestamp@,
        ),
{
    let mut h: Vec<(String, String)> = Vec::new();
    h.push(pair("Path", path));
    h.push(pair("X-RequestId", request_id));
    if let Some(t) = content_type {
        h.push(pair("Content-Type", t));
    }
    h.push(pair("X-Timestamp", timestamp));
    assert(pairs_view(h@) =~= frame_headers(
        path@,
        request_id@,
        match content_type {
            Some(t) => Some(t@),
            None => None,
        },
        timestamp@,
    ));
    h
}

/// The `speech.config` frame: the client, its platform and its audio source, and the
/// recognition mode.
pub open spec fn speech_config_frame(
    request_id: Seq<char>,
    timestamp: Seq<char>,
    c: ResolverConfig,
) -> MessageV {
    MessageV::Text {
        headers: frame_headers("speech.config"@, request_id, Some("application/json"@), timestamp),
        data: Some(speech_config_json(c)),
    }
}

/// The `speech.context` frame: phrases and language identification.
pub open spec fn speech_context_frame(
    request_id: Seq<char>,
    timestamp: Seq<char>,
    c: ResolverConfig,
) -> MessageV {
    MessageV::Text {
        headers: frame_headers("speech.context"@, request_id, Some("application/json"@), timestamp),
        data: Some(speech_context_json(c)),
    }
}

/// The first `audio` frame: the WAVE header of the audio that follows.
pub open spec fn speech_audio_headers_frame(
    request_id: Seq<char>,
    timestamp: Seq<char>,
    content_type: Seq<char>,
    h: Headers,
) -> MessageV {
    MessageV::Binary {
        headers: frame_headers("audio"@, request_id, Some(content_type), timestamp),
        data: Some(wave_header(h)),
    }
}

/// An `audio` frame carrying a chunk of audio, or none at the end of the audio.
pub open spec fn speech_audio_frame(
    request_id: Seq<char>,
    timestamp: Seq<char>,
    data: Option<Seq<u8>>,
) -> MessageV {
    MessageV::Binary { headers: frame_headers("audio"@, request_id, None, timestamp), data }
}

pub fn speech_config_message(request_id: &str, timestamp: &str, config: &ResolverConfig) -> (r:
    Message)
    ensures
        r.model() == speech_config_frame(request_id@, timestamp@, *config),
{
    let headers = frame_header_vec("speech.config", request_id, Some("application/json"), timestamp);
    Message::Text { headers, data: Some(speech_config_value(config)) }
}

pub fn speech_context_message(request_id: &str, timestamp: &str, config: &ResolverConfig) -> (r:
    Message)
    requires
        context_ready(*config),
    ensures
        r.model() == speech_context_frame(request_id@, timestamp@, *config),
{
    let headers = frame_header_vec("speech.context", request_id, Some("application/json"), timestamp);
    Message::Text { headers, data: Some(speech_context_value(config)) }
}

pub fn speech_audio_headers_message(
    request_id: &str,
    timestamp: &str,
    content_type: String,
    audio_headers: Headers,
) -> (r: Message)
    ensures
        r.model() == speech_audio_headers_frame(request_id@, timestamp@, content_type@, audio_headers),
{
    let headers = frame_header_vec("audio", request_id, Some(content_type.as_str()), timestamp);
    Message::Binary { headers, data: Some(audio_headers.to_wave_header()) }
}

pub fn speech_audio_message(request_id: &str, timestamp: &str, data: Option<Vec<u8>>) -> (r:
    Message)
    ensures
        r.model() == speech_audio_frame(
            request_id@,
            timestamp@,
            match data {
                Some(d) => Some(d@),
                None => None,
            },
        ),
{
    let headers = frame_header_vec("audio", request_id, None, timestamp);
    Message::Binary { headers, data }
}

/// The time a frame was made: the value of its last header.
pub open spec fn frame_timestamp(m: MessageV) -> Seq<char> {
    m.headers().last().1
}

/// The `speech.config` frame of session `session_id`, stamped with the current time; `None`
/// where the clock reads a time that chrono cannot represent.
pub fn create_speech_config_message(session_id: [u8; 16], config: &ResolverConfig) -> (r: Option<
    Message,
>)
    ensures
        r matches Some(m) ==> {
            &&& rfc3339_millis_form(frame_timestamp(m.model()))
            &&& clock_text(frame_timestamp(m.model()))
            &&& m.model() == speech_config_frame(
                hyphenated_uuid(session_id@),
                frame_timestamp(m.model()),
                *config,
            )
        },
{
    let request_id = uuid_string(session_id);
    match utc_timestamp_now() {
        Some(timestamp) => Some(speech_config_message(request_id.as_str(), timestamp.as_str(), config)),
        None => None,
    }
}

/// The `speech.context` frame of session `session_id`, stamped with the current time; `None`
/// where the clock reads a time that chrono cannot represent.
pub fn create_speech_context_message(session_id: [u8; 16], config: &ResolverConfig) -> (r: Option<
    Message,
>)
    requires
        context_ready(*config),
    ensures
        r matches Some(m) ==> {
            &&& rfc3339_millis_form(frame_timestamp(m.model()))
            &&& clock_text(frame_timestamp(m.model()))
            &&& m.model() == speech_context_frame(
                hyphenated_uuid(session_id@),
                frame_timestamp(m.model()),
                *config,
            )
        },
{
    let request_id = uuid_string(session_id);
    match utc_timestamp_now() {
        Some(timestamp) => Some(speech_context_message(request_id.as_str(), timestamp.as_str(), config)),
        None => None,
    }
}

/// The frame that announces the audio of session `session_id`, stamped with the current time;
/// `None` where the clock reads a time that chrono cannot represent.
pub fn create_speech_audio_headers_message(
    session_id: [u8; 16],
    content_type: String,
    audio_headers: Headers,
) -> (r: Option<Message>)
    ensures
        r matches Some(m) ==> {
            &&& rfc3339_millis_form(frame_timestamp(m.model()))
            &&& clock_text(frame_timestamp(m.model()))
            &&& m.model() == speech_audio_headers_frame(
                hyphenated_uuid(session_id@),
                frame_timestamp(m.model()),
                content_type@,
                audio_headers,
            )
        },
{
    let request_id = uuid_string(session_id);
    match utc_timestamp_now() {
        Some(timestamp) => Some(
            speech_audio_headers_message(request_id.as_str(), timestamp.as_str(), content_type, audio_headers),
        ),
        None => None,
    }
}

/// A frame of audio of session `session_id`, stamped with the current time; `None` where the
/// clock reads a time that chrono cannot represent.
pub fn create_speech_audio_message(session_id: [u8; 16], data: Option<Vec<u8>>) -> (r: Option<
    Message,
>)
    ensures
        r matches Some(m) ==> {
            &&& rfc3339_millis_form(frame_timestamp(m.model()))
            &&& clock_text(frame_timestamp(m.model()))
            &&& m.model() == speech_audio_frame(
                hyphenated_uuid(session_id@),
                frame_timestamp(m.model()),
                match data {
                    Some(d) => Some(d@),
                    None => None,
                },
            )
        },
{
    let request_id = uuid_string(session_id);
    match utc_timestamp_now() {
        Some(timestamp) => Some(speech_audio_message(request_id.as_str(), timestamp.as_str(), data)),
        None => None,
    }
}

// ---------------------------------------------------------------------------------------------
// Laws
// ---------------------------------------------------------------------------------------------

/// Every frame opens with its path and then the request id, and ends with the time it was
/// made; only a frame with a body type names it, in third place.
pub proof fn lemma_frame_headers_layout(
    path: Seq<char>,
    request_id: Seq<char>,
    content_type: Option<Seq<char>>,
    timestamp: Seq<char>,
)
    ensures
        ({
            let h = frame_headers(path, request_id, content_type, timestamp);
            &&& h.len() == if content_type is Some { 4int } else { 3int }
            &&& h[0] == ("Path"@, path)
            &&& h[1] == ("X-RequestId"@, request_id)
            &&& h.last() == ("X-Timestamp"@, timestamp)
            &&& content_type matches Some(t) ==> h[2] == ("Content-Type"@, t)
        }),
{
}

/// Every frame of a session carries the session's id as its request id, and the time it was
/// made as its last header.
pub proof fn lemma_frames_carry_session(
    request_id: Seq<char>,
    timestamp: Seq<char>,
    c: ResolverConfig,
    content_type: Seq<char>,
    h: Headers,
    data: Option<Seq<u8>>,
)
    ensures
        speech_config_frame(request_id, timestamp, c).headers()[1] == ("X-RequestId"@, request_id),
        speech_context_frame(request_id, timestamp, c).headers()[1] == ("X-RequestId"@, request_id),
        speech_audio_headers_frame(request_id, timestamp, content_type, h).headers()[1] == (
            "X-RequestId"@,
            request_id,
        ),
        speech_audio_frame(request_id, timestamp, data).headers()[1] == ("X-RequestId"@, request_id),
        frame_timestamp(speech_config_frame(request_id, timestamp, c)) == timestamp,
        frame_timestamp(speech_context_frame(request_id, timestamp, c)) == timestamp,
        frame_timestamp(speech_audio_headers_frame(request_id, timestamp, content_type, h))
            == timestamp,
        frame_timestamp(speech_audio_frame(request_id, timestamp, data)) == timestamp,
{
    lemma_frame_headers_layout("speech.config"@, request_id, Some("application/json"@), timestamp);
    lemma_frame_headers_layout("speech.context"@, request_id, Some("application/json"@), timestamp);
    lemma_frame_headers_layout("audio"@, request_id, Some(content_type), timestamp);
    lemma_frame_headers_layout("audio"@, request_id, None, timestamp);
}

/// The query holds a `lidEnabled` pair exactly when more than one language is configured, and
/// its `language` pair always names the first language.
pub proof fn lemma_query_language_identification(c: ResolverConfig)
    requires
        c.languages@.len() >= 1,
    ensures
        (exists|i: int| 0 <= i < stt_query(c).len() && #[trigger] stt_query(c)[i].0 == "lidEnabled"@)
            <==> c.languages@.len() > 1,
        stt_query(c)[1] == ("language"@, c.languages@[0]@),
{
    reveal_strlit("lidEnabled");
    reveal_strlit("Ocp-Apim-Subscription-Key");
    reveal_strlit("language");
    reveal_strlit("format");
    reveal_strlit("profanity");
    reveal_strlit("storeAudio");
    reveal_strlit("wordLevelTimestamps");
    reveal_strlit("X-ConnectionId");
    let q = stt_query(c);
    if c.languages@.len() > 1 {
        assert(q[5].0 == "lidEnabled"@);
    } else {
        assert forall|i: int| 0 <= i < q.len() implies #[trigger] q[i].0 != "lidEnabled"@ by {
            if 1 <= i <= 3 {
                assert(q[i].0.len() != "lidEnabled"@.len());
            } else {
                assert(q[i].0[0] != "lidEnabled"@[0]);
            }
        }
    }
}

/// The subscription key is handed to the query verbatim, as its first pair, and the pairs that
/// the query holds do not depend on it: two configurations that differ only in their key give
/// queries of the same length whose pairs differ only in the first value.
pub proof fn lemma_query_subscription_key(c1: ResolverConfig, c2: ResolverConfig)
    requires
        c1.languages@.len() >= 1,
        c2 == (ResolverConfig { auth: Auth { subscription: c2.auth.subscription, ..c1.auth }, ..c1 }),
    ensures
        stt_query(c1)[0] == ("Ocp-Apim-Subscription-Key"@, c1.auth.subscription@),
        stt_query(c2)[0] == ("Ocp-Apim-Subscription-Key"@, c2.auth.subscription@),
        stt_query(c1).len() == stt_query(c2).len(),
        forall|i: int| 1 <= i < stt_query(c1).len() ==> #[trigger] stt_query(c1)[i] == stt_query(c2)[i],
{
}

/// The query, pair by pair: the subscription key, the first language, the output format
/// (`simple` or `detailed`), the profanity mode (`masked`, `removed` or `raw`) and whether audio
/// is stored (`true` or `false`); then `wordLevelTimestamps=true` for detailed output in a single
/// language, `lidEnabled=true` for several languages, and last the connection id wherever one is
/// configured, whatever the number of languages. Without a connection id no pair names one.
pub proof fn lemma_query_pairs(c: ResolverConfig)
    requires
        c.languages@.len() >= 1,
    ensures
        ({
            let q = stt_query(c);
            let single = c.languages@.len() == 1;
            let words = c.output_format == OutputFormat::Detailed && single;
            &&& q.len() == 5 + (if words { 1int } else { 0int }) + (if single { 0int } else { 1int }) + (
            if c.connection_id is Some {
                1int
            } else {
                0int
            })
            &&& q[0] == ("Ocp-Apim-Subscription-Key"@, c.auth.subscription@)
            &&& q[1] == ("language"@, c.languages@[0]@)
            &&& c.output_format == OutputFormat::Simple ==> q[2] == ("format"@, "simple"@)
            &&& c.output_format == OutputFormat::Detailed ==> q[2] == ("format"@, "detailed"@)
            &&& c.profanity == Profanity::Masked ==> q[3] == ("profanity"@, "masked"@)
            &&& c.profanity == Profanity::Removed ==> q[3] == ("profanity"@, "removed"@)
            &&& c.profanity == Profanity::Raw ==> q[3] == ("profanity"@, "raw"@)
            &&& q[4] == ("storeAudio"@, if c.store_audio { "true"@ } else { "false"@ })
            &&& words ==> q[5] == ("wordLevelTimestamps"@, "true"@)
            &&& !single ==> q[5] == ("lidEnabled"@, "true"@)
            &&& c.connection_id matches Some(id) ==> q.last() == ("X-ConnectionId"@, id@)
            &&& c.connection_id is None ==> forall|i: int|
                0 <= i < q.len() ==> #[trigger] q[i].0 != "X-ConnectionId"@
        }),
{
    reveal_strlit("X-ConnectionId");
    reveal_strlit("Ocp-Apim-Subscription-Key");
    reveal_strlit("language");
    reveal_strlit("format");
    reveal_strlit("profanity");
    reveal_strlit("storeAudio");
    reveal_strlit("wordLevelTimestamps");
    reveal_strlit("lidEnabled");
    let q = stt_query(c);
    if c.connection_id is None {
        assert forall|i: int| 0 <= i < q.len() implies #[trigger] q[i].0 != "X-ConnectionId"@ by {
            assert(q[i].0[0] != "X-ConnectionId"@[0]);
        }
    }
}

/// Regions whose name holds `china` are served from Azure China, regions whose name begins
/// with `usgov` from Azure Government, all others from the public cloud; the service address is
/// `wss://`, the region, `.stt.speech` and that cloud's suffix.
pub proof fn lemma_host_of_region(c: ResolverConfig)
    ensures
        contains_text(c.auth.region@, "china"@) ==> azure_host_suffix(c.auth.region@)
            == ".azure.cn"@,
        !contains_text(c.auth.region@, "china"@) && "usgov"@.is_prefix_of(c.auth.region@)
            ==> azure_host_suffix(c.auth.region@) == ".azure.us"@,
        !contains_text(c.auth.region@, "china"@) && !"usgov"@.is_prefix_of(c.auth.region@)
            ==> azure_host_suffix(c.auth.region@) == ".microsoft.com"@,
        stt_host_text(c) == "wss://"@ + c.auth.region@ + ".stt.speech"@ + azure_host_suffix(
            c.auth.region@,
        ),
{
}

/// Each frame names its kind in its `Path` header and its body type in `Content-Type`: the
/// configuration and context frames are JSON and carry their bodies; the frame announcing the
/// audio carries the WAVE header of the audio's shape under the given content type; an audio
/// frame carries exactly the audio it is given, or nothing.
pub proof fn lemma_frame_kinds(
    request_id: Seq<char>,
    timestamp: Seq<char>,
    c: ResolverConfig,
    content_type: Seq<char>,
    h: Headers,
    data: Option<Seq<u8>>,
)
    ensures
        speech_config_frame(request_id, timestamp, c) matches MessageV::Text { headers, data: body }
            && headers.len() == 4 && headers[0] == ("Path"@, "speech.config"@) && headers[2] == (
            "Content-Type"@,
            "application/json"@,
        ) && body == Some(speech_config_json(c)),
        speech_context_frame(request_id, timestamp, c) matches MessageV::Text {
            headers,
            data: body,
        } && headers.len() == 4 && headers[0] == ("Path"@, "speech.context"@) && headers[2] == (
            "Content-Type"@,
            "application/json"@,
        ) && body == Some(speech_context_json(c)),
        speech_audio_headers_frame(request_id, timestamp, content_type, h) matches MessageV::Binary {
            headers,
            data: body,
        } && headers.len() == 4 && headers[0] == ("Path"@, "audio"@) && headers[2] == (
            "Content-Type"@,
            content_type,
        ) && body == Some(wave_header(h)),
        speech_audio_frame(request_id, timestamp, data) matches MessageV::Binary {
            headers,
            data: body,
        } && headers.len() == 3 && headers[0] == ("Path"@, "audio"@) && body == data,
{
    lemma_frame_headers_layout("speech.config"@, request_id, Some("application/json"@), timestamp);
    lemma_frame_headers_layout("speech.context"@, request_id, Some("application/json"@), timestamp);
    lemma_frame_headers_layout("audio"@, request_id, Some(content_type), timestamp);
    lemma_frame_headers_layout("audio"@, request_id, None, timestamp);
}

} // verus!
