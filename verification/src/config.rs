use vstd::prelude::*;

verus! {

/// The credentials of a speech resource: its region and subscription key.
pub struct Auth {
    pub region: String,
    pub subscription: String,
}

impl Auth {
    /// Credentials from a region and a subscription key.
    pub fn from_subscription(region: &str, subscription: &str) -> (r: Auth)
        ensures
            r.region@ == region@,
            r.subscription@ == subscription@,
    {
        Auth { region: String::from_str(region), subscription: String::from_str(subscription) }
    }
}

/// The recognition mode of the service.
#[derive(Clone, Copy, Debug, PartialEq, Eq, Structural)]
pub enum RecognitionMode {
    Interactive,
    Conversation,
    Dictation,
}

impl RecognitionMode {
    /// The mode's name, as it stands in the endpoint path and in JSON payloads.
    pub open spec fn name_text(self) -> Seq<char> {
        match self {
            RecognitionMode::Interactive => "interactive"@,
            RecognitionMode::Conversation => "conversation"@,
            RecognitionMode::Dictation => "dictation"@,
        }
    }

    /// The path of the recognition endpoint for this mode.
    pub open spec fn uri_path_text(self) -> Seq<char> {
        "/speech/recognition/"@ + self.name_text() + "/cognitiveservices/v1"@
    }

    pub fn as_str(&self) -> (r: &'static str)
        ensures
            r@ == self.name_text(),
    {
        match self {
            RecognitionMode::Interactive => "interactive",
            RecognitionMode::Conversation => "conversation",
            RecognitionMode::Dictation => "dictation",
        }
    }

    pub fn to_uri_path(&self) -> (r: String)
        ensures
            r@ == self.uri_path_text(),
    {
        let mut path = String::from_str("/speech/recognition/");
        path.append(self.as_str());
        path.append("/cognitiveservices/v1");
        path
    }
}

/// How much the service reports of each result.
#[derive(Clone, Copy, Debug, PartialEq, Eq, Structural)]
pub enum OutputFormat {
    Simple,
    Detailed,
}

impl OutputFormat {
    pub open spec fn name_text(self) -> Seq<char> {
        match self {
            OutputFormat::Simple => "simple"@,
            OutputFormat::Detailed => "detailed"@,
        }
    }

    pub fn as_str(&self) -> (r: &'static str)
        ensures
            r@ == self.name_text(),
    {
        match self {
            OutputFormat::Simple => "simple",
            OutputFormat::Detailed => "detailed",
        }
    }
}

/// What the service does with profanity in results.
#[derive(Clone, Copy, Debug, PartialEq, Eq, Structural)]
pub enum Profanity {
    Masked,
    Removed,
    Raw,
}

impl Profanity {
    pub open spec fn name_text(self) -> Seq<char> {
        match self {
            Profanity::Masked => "masked"@,
            Profanity::Removed => "removed"@,
            Profanity::Raw => "raw"@,
        }
    }

    pub fn as_str(&self) -> (r: &'static str)
        ensures
            r@ == self.name_text(),
    {
        match self {
            Profanity::Masked => "masked",
            Profanity::Removed => "removed",
            Profanity::Raw => "raw",
        }
    }
}

/// When the service identifies the spoken language.
#[derive(Clone, Copy, Debug, PartialEq, Eq, Structural)]
pub enum LanguageDetectMode {
    AtStart,
    Continuous,
}

impl LanguageDetectMode {
    pub open spec fn name_text(self) -> Seq<char> {
        match self {
            LanguageDetectMode::AtStart => "DetectAtAudioStart"@,
            LanguageDetectMode::Continuous => "DetectContinuous"@,
        }
    }

    pub fn as_str(&self) -> (r: &'static str)
        ensures
            r@ == self.name_text(),
    {
        match self {
            LanguageDetectMode::AtStart => "DetectAtAudioStart",
            LanguageDetectMode::Continuous => "DetectContinuous",
        }
    }
}

/// The operating system that the client reports.
pub struct Os {
    pub platform: String,
    pub name: String,
    pub version: String,
}

impl Os {
    pub fn unknown() -> (r: Os)
        ensures
            r.platform@ == "Unknown"@,
            r.name@ == "Unknown"@,
            r.version@ == "Unknown"@,
    {
        Os {
            platform: String::from_str("Unknown"),
            name: String::from_str("Unknown"),
            version: String::from_str("Unknown"),
        }
    }
}

/// The client software that the client reports.
pub struct System {
    pub name: String,
    pub version: String,
    pub build: String,
    pub lang: String,
}

impl System {
    pub fn unknown() -> (r: System)
        ensures
            r.name@ == "Unknown"@,
            r.version@ == "Unknown"@,
            r.build@ == "Unknown"@,
            r.lang@ == "Unknown"@,
    {
        System {
            name: String::from_str("Unknown"),
            version: String::from_str("Unknown"),
            build: String::from_str("Unknown"),
            lang: String::from_str("Unknown"),
        }
    }
}

/// The sample encoding of the audio.
#[derive(Clone, Copy, Debug, PartialEq, Eq, Structural)]
pub enum AudioFormat {
    PCM,
}

impl AudioFormat {
    /// The format tag that a WAVE header gives this encoding.
    pub open spec fn wave_tag(self) -> u16 {
        match self {
            AudioFormat::PCM => 1,
        }
    }

    pub fn to_wave_tag(&self) -> (r: u16)
        ensures
            r == self.wave_tag(),
    {
        match self {
            AudioFormat::PCM => 1,
        }
    }
}

/// The shape of the audio samples.
#[derive(Clone, Copy, Debug, PartialEq, Eq, Structural)]
pub struct Headers {
    pub sample_rate: u32,
    pub bits_per_sample: u16,
    pub channels: u16,
    pub format: AudioFormat,
}

/// Where the audio comes from.
pub struct Details {
    pub name: String,
    pub model: String,
    pub manufacturer: String,
    pub connectivity: String,
}

impl Details {
    /// The description of an audio stream handed over by the caller.
    pub fn stream() -> (r: Details)
        ensures
            r.name@ == "Stream"@,
            r.model@ == "Stream"@,
            r.manufacturer@ == "Unknown"@,
            r.connectivity@ == "Unknown"@,
    {
        Details {
            name: String::from_str("Stream"),
            model: String::from_str("Stream"),
            manufacturer: String::from_str("Unknown"),
            connectivity: String::from_str("Unknown"),
        }
    }
}

/// An audio source: the shape of its samples and its description.
pub struct Source {
    pub headers: Headers,
    pub details: Details,
}

impl Source {
    /// A source for an audio stream with the given sample shape.
    pub fn stream(headers: Headers) -> (r: Source)
        ensures
            r.headers == headers,
            r.details.name@ == "Stream"@,
            r.details.model@ == "Stream"@,
            r.details.manufacturer@ == "Unknown"@,
            r.details.connectivity@ == "Unknown"@,
    {
        Source { headers, details: Details::stream() }
    }
}

/// Everything a recognition session is opened with.
pub struct ResolverConfig {
    pub auth: Auth,
    pub source: Source,
    pub mode: RecognitionMode,
    pub languages: Vec<String>,
    pub language_detect_mode: Option<LanguageDetectMode>,
    pub output_format: OutputFormat,
    pub profanity: Profanity,
    pub store_audio: bool,
    pub phrases: Option<Vec<String>>,
    pub custom_models: Option<Vec<(String, String)>>,
    pub connection_id: Option<String>,
    pub os: Os,
    pub system: System,
}

/// The views of a vector of strings.
pub open spec fn strings_view(v: Seq<String>) -> Seq<Seq<char>> {
    v.map_values(|s: String| s@)
}

/// The views of a vector of string pairs.
pub open spec fn pairs_view(v: Seq<(String, String)>) -> Seq<(Seq<char>, Seq<char>)> {
    v.map_values(|p: (String, String)| (p.0@, p.1@))
}

impl ResolverConfig {
    /// A configuration in conversation mode for American English, with simple output,
    /// masked profanity, no stored audio, no phrases, no custom models and no connection id.
    pub fn new(auth: Auth, source: Source) -> (r: ResolverConfig)
        ensures
            r.auth == auth,
            r.source == source,
            r.mode == RecognitionMode::Conversation,
            strings_view(r.languages@) == seq!["en-us"@],
            r.language_detect_mode is None,
            r.output_format == OutputFormat::Simple,
            r.profanity == Profanity::Masked,
            !r.store_audio,
            r.phrases is None,
            r.custom_models is None,
            r.connection_id is None,
            r.os.platform@ == "Unknown"@,
            r.os.name@ == "Unknown"@,
            r.os.version@ == "Unknown"@,
            r.system.name@ == "Unknown"@,
            r.system.version@ == "Unknown"@,
            r.system.build@ == "Unknown"@,
            r.system.lang@ == "Unknown"@,
    {
        let mut languages: Vec<String> = Vec::new();
        languages.push(String::from_str("en-us"));
        assert(strings_view(languages@) =~= seq!["en-us"@]);
        ResolverConfig {
            auth,
            source,
            mode: RecognitionMode::Conversation,
            languages,
            language_detect_mode: None,
            output_format: OutputFormat::Simple,
            profanity: Profanity::Masked,
            store_audio: false,
            phrases: None,
            custom_models: None,
            connection_id: None,
            os: Os::unknown(),
            system: System::unknown(),
        }
    }

    pub fn set_mode(&mut self, mode: RecognitionMode)
        ensures
            *final(self) == (ResolverConfig { mode: mode, ..*old(self) }),
    {
        self.mode = mode;
    }

    pub fn set_output_format(&mut self, format: OutputFormat)
        ensures
            *final(self) == (ResolverConfig { output_format: format, ..*old(self) }),
    {
        self.output_format = format;
    }

    pub fn set_profanity(&mut self, profanity: Profanity)
        ensures
            *final(self) == (ResolverConfig { profanity: profanity, ..*old(self) }),
    {
        self.profanity = profanity;
    }

    pub fn set_store_audio(&mut self, store_audio: bool)
        ensures
            *final(self) == (ResolverConfig { store_audio: store_audio, ..*old(self) }),
    {
        self.store_audio = store_audio;
    }

    pub fn set_os(&mut self, os: Os)
        ensures
            *final(self) == (ResolverConfig { os: os, ..*old(self) }),
    {
        self.os = os;
    }

    pub fn set_system(&mut self, system: System)
        ensures
            *final(self) == (ResolverConfig { system: system, ..*old(self) }),
    {
        self.system = system;
    }

    /// Asks the service to identify the spoken language among `languages`.
    pub fn set_detect_languages(&mut self, languages: Vec<String>, mode: LanguageDetectMode)
        ensures
            *final(self) == (ResolverConfig {
                languages: languages,
                language_detect_mode: Some(mode),
                ..*old(self)
            }),
    {
        self.languages = languages;
        self.language_detect_mode = Some(mode);
    }

    /// Phrases that the service should expect to hear.
    pub fn set_phrases(&mut self, phrases: Vec<String>)
        ensures
            *final(self) == (ResolverConfig { phrases: Some(phrases), ..*old(self) }),
    {
        self.phrases = Some(phrases);
    }

    /// Custom models, each as a language and the endpoint of its model.
    pub fn set_custom_models(&mut self, custom_models: Vec<(String, String)>)
        ensures
            *final(self) == (ResolverConfig { custom_models: Some(custom_models), ..*old(self) }),
    {
        self.custom_models = Some(custom_models);
    }

    pub fn set_connection_id(&mut self, connection_id: String)
        ensures
            *final(self) == (ResolverConfig { connection_id: Some(connection_id), ..*old(self) }),
    {
        self.connection_id = Some(connection_id);
    }
}

} // verus!
