use vstd::prelude::*;

use crate::config::{
    pairs_view, strings_view, LanguageDetectMode, Os, RecognitionMode, ResolverConfig, Source,
    System,
};
use crate::json::{
    json_string, json_wf, keys_distinct, lemma_items_model, lemma_items_wf, lemma_members_model,
    lemma_members_wf, member, items_model, members_model, Json, JsonV,
};

verus! {

/// The client software as the `speech.config` payload describes it.
pub open spec fn system_json(s: System) -> JsonV {
    JsonV::Object(
        seq![
            ("name"@, JsonV::Str(s.name@)),
            ("version"@, JsonV::Str(s.version@)),
            ("build"@, JsonV::Str(s.build@)),
            ("lang"@, JsonV::Str(s.lang@)),
        ],
    )
}

/// The operating system as the `speech.config` payload describes it.
pub open spec fn os_json(o: Os) -> JsonV {
    JsonV::Object(
        seq![
            ("platform"@, JsonV::Str(o.platform@)),
            ("name"@, JsonV::Str(o.name@)),
            ("version"@, JsonV::Str(o.version@)),
        ],
    )
}

/// The audio source as the `speech.config` payload describes it.
pub open spec fn audio_json(src: Source) -> JsonV {
    JsonV::Object(
        seq![
            (
                "source"@,
                JsonV::Object(
                    seq![
                        ("connectivity"@, JsonV::Str(src.details.connectivity@)),
                        ("manufacturer"@, JsonV::Str(src.details.manufacturer@)),
                        ("model"@, JsonV::Str(src.details.model@)),
                        ("type"@, JsonV::Str(src.details.name@)),
                        ("samplerate"@, JsonV::Number(src.headers.sample_rate as u64)),
                        ("bitspersample"@, JsonV::Number(src.headers.bits_per_sample as u64)),
                        ("channelcount"@, JsonV::Number(src.headers.channels as u64)),
                    ],
                ),
            ),
        ],
    )
}

/// The body of the `speech.config` frame.
pub open spec fn speech_config_json(c: ResolverConfig) -> JsonV {
    JsonV::Object(
        seq![
            (
                "context"@,
                JsonV::Object(
                    seq![
                        ("system"@, system_json(c.system)),
                        ("os"@, os_json(c.os)),
                        ("audio"@, audio_json(c.source)),
                    ],
                ),
            ),
            ("recognition"@, JsonV::Str(c.mode.name_text())),
        ],
    )
}

/// One phrase of the phrase list.
pub open spec fn phrase_item_json(p: Seq<char>) -> JsonV {
    JsonV::Object(seq![("Text"@, JsonV::Str(p))])
}

/// The phrase list: one generic group that holds every phrase, in order.
pub open spec fn dgi_json(phrases: Seq<Seq<char>>) -> JsonV {
    JsonV::Object(
        seq![
            (
                "Groups"@,
                JsonV::Array(
                    seq![
                        JsonV::Object(
                            seq![
                                ("Type"@, JsonV::Str("Generic"@)),
                                (
                                    "Items"@,
                                    JsonV::Array(phrases.map_values(|p: Seq<char>| phrase_item_json(p))),
                                ),
                            ],
                        ),
                    ],
                ),
            ),
        ],
    )
}

/// An array of JSON strings.
pub open spec fn string_array_json(items: Seq<Seq<char>>) -> JsonV {
    JsonV::Array(items.map_values(|s: Seq<char>| JsonV::Str(s)))
}

/// A JSON object with the single member `"key": value`.
pub open spec fn single_json(key: Seq<char>, value: Seq<char>) -> JsonV {
    JsonV::Object(seq![(key, JsonV::Str(value))])
}

/// Language identification among `languages`, favouring latency.
pub open spec fn language_id_json(mode: LanguageDetectMode, languages: Seq<Seq<char>>) -> JsonV {
    JsonV::Object(
        seq![
            ("mode"@, JsonV::Str(mode.name_text())),
            ("Priority"@, JsonV::Str("PrioritizeLatency"@)),
            ("languages"@, string_array_json(languages)),
            ("onSuccess"@, single_json("action"@, "Recognize"@)),
            ("onUnknown"@, single_json("action"@, "None"@)),
        ],
    )
}

/// One custom model: a language and the endpoint of its model.
pub open spec fn custom_model_json(m: (Seq<char>, Seq<char>)) -> JsonV {
    JsonV::Object(seq![("language"@, JsonV::Str(m.0)), ("endpoint"@, JsonV::Str(m.1))])
}

/// Phrase detection: the custom models, or `null` where there are none.
pub open spec fn phrase_detection_json(models: Option<Seq<(Seq<char>, Seq<char>)>>) -> JsonV {
    JsonV::Object(
        seq![
            (
                "customModels"@,
                match models {
                    Some(m) => JsonV::Array(
                        m.map_values(|x: (Seq<char>, Seq<char>)| custom_model_json(x)),
                    ),
                    None => JsonV::Null,
                },
            ),
            ("onInterim"@, JsonV::Null),
            ("onSuccess"@, JsonV::Null),
        ],
    )
}

/// Phrase output: interim results as the service chooses, every final result.
pub open spec fn phrase_output_json() -> JsonV {
    JsonV::Object(
        seq![
            ("interimResults"@, single_json("resultType"@, "Auto"@)),
            ("phraseResults"@, single_json("resultType"@, "Always"@)),
        ],
    )
}

/// The members that the phrase list contributes to the `speech.context` body.
pub open spec fn phrase_members(c: ResolverConfig) -> Seq<(Seq<char>, JsonV)> {
    match c.phrases {
        Some(p) => seq![("dgi"@, dgi_json(strings_view(p@)))],
        None => Seq::empty(),
    }
}

/// The members that language identification contributes to the `speech.context` body:
/// present only where more than one language is configured.
pub open spec fn language_members(c: ResolverConfig) -> Seq<(Seq<char>, JsonV)> {
    if c.languages@.len() > 1 {
        seq![
            ("languageId"@, language_id_json(c.language_detect_mode.unwrap(), strings_view(c.languages@))),
            (
                "phraseDetection"@,
                phrase_detection_json(
                    match c.custom_models {
                        Some(m) => Some(pairs_view(m@)),
                        None => None,
                    },
                ),
            ),
            ("phraseOutput"@, phrase_output_json()),
        ]
    } else {
        Seq::empty()
    }
}

/// The body of the `speech.context` frame.
pub open spec fn speech_context_json(c: ResolverConfig) -> JsonV {
    JsonV::Object(phrase_members(c) + language_members(c))
}

/// What `speech.context` needs of a configuration: a detection mode wherever more than one
/// language is configured.
pub open spec fn context_ready(c: ResolverConfig) -> bool {
    c.languages@.len() > 1 ==> c.language_detect_mode is Some
}

fn system_value(s: &System) -> (r: Json)
    ensures
        r.model() == system_json(*s),
{
    let mut m: Vec<(String, Json)> = Vec::new();
    m.push(member("name", json_string(s.name.as_str())));
    m.push(member("version", json_string(s.version.as_str())));
    m.push(member("build", json_string(s.build.as_str())));
    m.push(member("lang", json_string(s.lang.as_str())));
    proof {
        lemma_members_model(m@);
        assert(members_model(m@) =~= system_json(*s)->Object_0);
    }
    Json::Object(m)
}

fn os_value(o: &Os) -> (r: Json)
    ensures
        r.model() == os_json(*o),
{
    let mut m: Vec<(String, Json)> = Vec::new();
    m.push(member("platform", json_string(o.platform.as_str())));
    m.push(member("name", json_string(o.name.as_str())));
    m.push(member("version", json_string(o.version.as_str())));
    proof {
        lemma_members_model(m@);
        assert(members_model(m@) =~= os_json(*o)->Object_0);
    }
    Json::Object(m)
}

fn audio_value(src: &Source) -> (r: Json)
    ensures
        r.model() == audio_json(*src),
{
    let mut inner: Vec<(String, Json)> = Vec::new();
    inner.push(member("connectivity", json_string(src.details.connectivity.as_str())));
    inner.push(member("manufacturer", json_string(src.details.manufacturer.as_str())));
    inner.push(member("model", json_string(src.details.model.as_str())));
    inner.push(member("type", json_string(src.details.name.as_str())));
    inner.push(member("samplerate", Json::Number(src.headers.sample_rate as u64)));
    inner.push(member("bitspersample", Json::Number(src.headers.bits_per_sample as u64)));
    inner.push(member("channelcount", Json::Number(src.headers.channels as u64)));
    let ghost inner_model = audio_json(*src)->Object_0[0].1;
    proof {
        lemma_members_model(inner@);
        assert(members_model(inner@) =~= inner_model->Object_0);
    }
    let mut m: Vec<(String, Json)> = Vec::new();
    m.push(member("source", Json::Object(inner)));
    proof {
        lemma_members_model(m@);
        assert(members_model(m@) =~= audio_json(*src)->Object_0);
    }
    Json::Object(m)
}

/// The body of the `speech.config` frame for `config`.
pub fn speech_config_value(config: &ResolverConfig) -> (r: Json)
    ensures
        r.model() == speech_config_json(*config),
        json_wf(r.model()),
{
    proof {
        lemma_speech_config_json_wf(*config);
    }
    let mut context: Vec<(String, Json)> = Vec::new();
    context.push(member("system", system_value(&config.system)));
    context.push(member("os", os_value(&config.os)));
    context.push(member("audio", audio_value(&config.source)));
    let ghost context_model = speech_config_json(*config)->Object_0[0].1;
    proof {
        lemma_members_model(context@);
        assert(members_model(context@) =~= context_model->Object_0);
    }
    let mut m: Vec<(String, Json)> = Vec::new();
    m.push(member("context", Json::Object(context)));
    m.push(member("recognition", json_string(config.mode.as_str())));
    proof {
        lemma_members_model(m@);
        assert(members_model(m@) =~= speech_config_json(*config)->Object_0);
    }
    Json::Object(m)
}

fn string_array_value(items: &Vec<String>) -> (r: Json)
    ensures
        r.model() == string_array_json(strings_view(items@)),
{
    let mut out: Vec<Json> = Vec::new();
    let n = items.len();
    for i in 0..n
        invariant
            n == items@.len(),
            out@.len() == i,
            forall|j: int| 0 <= j < i ==> #[trigger] out@[j].model() == JsonV::Str(items@[j]@),
    {
        out.push(json_string(items[i].as_str()));
    }
    proof {
        lemma_items_model(out@);
        assert(items_model(out@) =~= string_array_json(strings_view(items@))->Array_0);
    }
    Json::Array(out)
}

fn single_value(key: &str, value: &str) -> (r: Json)
    ensures
        r.model() == single_json(key@, value@),
{
    let mut m: Vec<(String, Json)> = Vec::new();
    m.push(member(key, json_string(value)));
    proof {
        lemma_members_model(m@);
        assert(members_model(m@) =~= single_json(key@, value@)->Object_0);
    }
    Json::Object(m)
}

fn dgi_value(phrases: &Vec<String>) -> (r: Json)
    ensures
        r.model() == dgi_json(strings_view(phrases@)),
{
    let ghost target = dgi_json(strings_view(phrases@));
    let mut items: Vec<Json> = Vec::new();
    let n = phrases.len();
    for i in 0..n
        invariant
            n == phrases@.len(),
            items@.len() == i,
            forall|j: int|
                0 <= j < i ==> #[trigger] items@[j].model() == phrase_item_json(phrases@[j]@),
    {
        let mut text: Vec<(String, Json)> = Vec::new();
        text.push(member("Text", json_string(phrases[i].as_str())));
        proof {
            lemma_members_model(text@);
            assert(members_model(text@) =~= phrase_item_json(phrases@[i as int]@)->Object_0);
        }
        items.push(Json::Object(text));
    }
    let ghost group_model = target->Object_0[0].1->Array_0[0];
    proof {
        lemma_items_model(items@);
        assert(items_model(items@) =~= group_model->Object_0[1].1->Array_0);
    }
    let mut group: Vec<(String, Json)> = Vec::new();
    group.push(member("Type", json_string("Generic")));
    group.push(member("Items", Json::Array(items)));
    proof {
        lemma_members_model(group@);
        assert(members_model(group@) =~= group_model->Object_0);
    }
    let mut groups: Vec<Json> = Vec::new();
    groups.push(Json::Object(group));
    proof {
        lemma_items_model(groups@);
        assert(items_model(groups@) =~= target->Object_0[0].1->Array_0);
    }
    let mut m: Vec<(String, Json)> = Vec::new();
    m.push(member("Groups", Json::Array(groups)));
    proof {
        lemma_members_model(m@);
        assert(members_model(m@) =~= target->Object_0);
    }
    Json::Object(m)
}

fn language_id_value(mode: LanguageDetectMode, languages: &Vec<String>) -> (r: Json)
    ensures
        r.model() == language_id_json(mode, strings_view(languages@)),
{
    let mut m: Vec<(String, Json)> = Vec::new();
    m.push(member("mode", json_string(mode.as_str())));
    m.push(member("Priority", json_string("PrioritizeLatency")));
    m.push(member("languages", string_array_value(languages)));
    m.push(member("onSuccess", single_value("action", "Recognize")));
    m.push(member("onUnknown", single_value("action", "None")));
    proof {
        lemma_members_model(m@);
        assert(members_model(m@) =~= language_id_json(mode, strings_view(languages@))->Object_0);
    }
    Json::Object(m)
}

fn phrase_detection_value(models: &Option<Vec<(String, String)>>) -> (r: Json)
    ensures
        r.model() == phrase_detection_json(
            match models {
                Some(m) => Some(pairs_view(m@)),
                None => None,
            },
        ),
{
    let ghost target = phrase_detection_json(
        match models {
            Some(m) => Some(pairs_view(m@)),
            None => None,
        },
    );
    let custom = match models {
        Some(list) => {
            let mut items: Vec<Json> = Vec::new();
            let n = list.len();
            for i in 0..n
                invariant
                    n == list@.len(),
                    items@.len() == i,
                    forall|j: int|
                        0 <= j < i ==> #[trigger] items@[j].model() == custom_model_json(
                            (list@[j].0@, list@[j].1@),
                        ),
            {
                let mut pair: Vec<(String, Json)> = Vec::new();
                pair.push(member("language", json_string(list[i].0.as_str())));
                pair.push(member("endpoint", json_string(list[i].1.as_str())));
                proof {
                    lemma_members_model(pair@);
                    assert(members_model(pair@) =~= custom_model_json(
                        (list@[i as int].0@, list@[i as int].1@),
                    )->Object_0);
                }
                items.push(Json::Object(pair));
            }
            proof {
                lemma_items_model(items@);
                assert(items_model(items@) =~= target->Object_0[0].1->Array_0);
            }
            Json::Array(items)
        },
        None => Json::Null,
    };
    let mut m: Vec<(String, Json)> = Vec::new();
    m.push(member("customModels", custom));
    m.push(member("onInterim", Json::Null));
    m.push(member("onSuccess", Json::Null));
    proof {
        lemma_members_model(m@);
        assert(members_model(m@) =~= target->Object_0);
    }
    Json::Object(m)
}

fn phrase_output_value() -> (r: Json)
    ensures
        r.model() == phrase_output_json(),
{
    let mut m: Vec<(String, Json)> = Vec::new();
    m.push(member("interimResults", single_value("resultType", "Auto")));
    m.push(member("phraseResults", single_value("resultType", "Always")));
    proof {
        lemma_members_model(m@);
        assert(members_model(m@) =~= phrase_output_json()->Object_0);
    }
    Json::Object(m)
}

/// The body of the `speech.context` frame for `config`.
pub fn speech_context_value(config: &ResolverConfig) -> (r: Json)
    requires
        context_ready(*config),
    ensures
        r.model() == speech_context_json(*config),
        json_wf(r.model()),
{
    proof {
        lemma_speech_context_json_wf(*config);
    }
    let mut m: Vec<(String, Json)> = Vec::new();
    if let Some(phrases) = &config.phrases {
        m.push(member("dgi", dgi_value(phrases)));
    }
    proof {
        lemma_members_model(m@);
        assert(members_model(m@) =~= phrase_members(*config));
    }
    if config.languages.len() > 1 {
        let mode = config.language_detect_mode.unwrap();
        m.push(member("languageId", language_id_value(mode, &config.languages)));
        m.push(member("phraseDetection", phrase_detection_value(&config.custom_models)));
        m.push(member("phraseOutput", phrase_output_value()));
    }
    proof {
        lemma_members_model(m@);
        assert(members_model(m@) =~= phrase_members(*config) + language_members(*config));
    }
    Json::Object(m)
}

/// The `speech.context` body asks for language identification exactly when more than one
/// language is configured, and holds a phrase list exactly when phrases are configured.
pub proof fn lemma_context_members(c: ResolverConfig)
    ensures
        ({
            let m = speech_context_json(c)->Object_0;
            &&& (exists|i: int| 0 <= i < m.len() && #[trigger] m[i].0 == "languageId"@) <==> c.languages@.len() > 1
            &&& (exists|i: int| 0 <= i < m.len() && #[trigger] m[i].0 == "dgi"@) <==> c.phrases is Some
        }),
{
    reveal_strlit("dgi");
    reveal_strlit("languageId");
    reveal_strlit("phraseDetection");
    reveal_strlit("phraseOutput");
    let m = speech_context_json(c)->Object_0;
    let p = phrase_members(c);
    let l = language_members(c);
    assert(m == p + l);
    if c.languages@.len() > 1 {
        assert(m[p.len() as int].0 == "languageId"@);
    }
    if c.phrases is Some {
        assert(m[0].0 == "dgi"@);
    }
    assert forall|i: int| 0 <= i < m.len() && #[trigger] m[i].0 == "languageId"@ implies c.languages@.len() > 1 by {
        if i < p.len() {
            assert(m[i].0[0] != "languageId"@[0]);
        }
    }
    assert forall|i: int| 0 <= i < m.len() && #[trigger] m[i].0 == "dgi"@ implies c.phrases is Some by {
        if i < p.len() {
        } else {
            assert(m[i] == l[i - p.len()]);
            assert(m[i].0.len() != "dgi"@.len());
        }
    }
}

proof fn lemma_system_wf(s: System)
    ensures
        json_wf(system_json(s)),
{
    reveal_strlit("name");
    reveal_strlit("version");
    reveal_strlit("build");
    reveal_strlit("lang");
    let m = system_json(s)->Object_0;
    lemma_members_wf(m);
    assert("name"@.len() != "version"@.len());
    assert("name"@.len() != "build"@.len());
    assert("name"@[0] != "lang"@[0]);
    assert("version"@.len() != "build"@.len());
    assert("version"@.len() != "lang"@.len());
    assert("build"@.len() != "lang"@.len());
    assert(keys_distinct(m));
}

proof fn lemma_os_wf(o: Os)
    ensures
        json_wf(os_json(o)),
{
    reveal_strlit("platform");
    reveal_strlit("name");
    reveal_strlit("version");
    let m = os_json(o)->Object_0;
    lemma_members_wf(m);
    assert("platform"@.len() != "name"@.len());
    assert("platform"@.len() != "version"@.len());
    assert("name"@.len() != "version"@.len());
    assert(keys_distinct(m));
}

proof fn lemma_audio_wf(src: Source)
    ensures
        json_wf(audio_json(src)),
{
    reveal_strlit("connectivity");
    reveal_strlit("manufacturer");
    reveal_strlit("model");
    reveal_strlit("type");
    reveal_strlit("samplerate");
    reveal_strlit("bitspersample");
    reveal_strlit("channelcount");
    let inner = audio_json(src)->Object_0[0].1->Object_0;
    lemma_members_wf(inner);
    assert("connectivity"@[0] != "manufacturer"@[0]);
    assert("connectivity"@.len() != "model"@.len());
    assert("connectivity"@.len() != "type"@.len());
    assert("connectivity"@.len() != "samplerate"@.len());
    assert("connectivity"@.len() != "bitspersample"@.len());
    assert("connectivity"@[1] != "channelcount"@[1]);
    assert("manufacturer"@.len() != "model"@.len());
    assert("manufacturer"@.len() != "type"@.len());
    assert("manufacturer"@.len() != "samplerate"@.len());
    assert("manufacturer"@.len() != "bitspersample"@.len());
    assert("manufacturer"@[0] != "channelcount"@[0]);
    assert("model"@.len() != "type"@.len());
    assert("model"@.len() != "samplerate"@.len());
    assert("model"@.len() != "bitspersample"@.len());
    assert("model"@.len() != "channelcount"@.len());
    assert("type"@.len() != "samplerate"@.len());
    assert("type"@.len() != "bitspersample"@.len());
    assert("type"@.len() != "channelcount"@.len());
    assert("samplerate"@.len() != "bitspersample"@.len());
    assert("samplerate"@.len() != "channelcount"@.len());
    assert("bitspersample"@.len() != "channelcount"@.len());
    assert(keys_distinct(inner));
    let m = audio_json(src)->Object_0;
    lemma_members_wf(m);
}

proof fn lemma_single_wf(key: Seq<char>, value: Seq<char>)
    ensures
        json_wf(single_json(key, value)),
{
    lemma_members_wf(single_json(key, value)->Object_0);
}

proof fn lemma_dgi_wf(phrases: Seq<Seq<char>>)
    ensures
        json_wf(dgi_json(phrases)),
{
    reveal_strlit("Type");
    reveal_strlit("Items");
    let items = phrases.map_values(|p: Seq<char>| phrase_item_json(p));
    assert forall|i: int| 0 <= i < items.len() implies #[trigger] json_wf(items[i]) by {
        lemma_members_wf(items[i]->Object_0);
    }
    lemma_items_wf(items);
    let group = dgi_json(phrases)->Object_0[0].1->Array_0[0];
    lemma_members_wf(group->Object_0);
    assert("Type"@.len() != "Items"@.len());
    assert(keys_distinct(group->Object_0));
    let groups = dgi_json(phrases)->Object_0[0].1->Array_0;
    lemma_items_wf(groups);
    lemma_members_wf(dgi_json(phrases)->Object_0);
}

proof fn lemma_language_id_wf(mode: LanguageDetectMode, languages: Seq<Seq<char>>)
    ensures
        json_wf(language_id_json(mode, languages)),
{
    reveal_strlit("mode");
    reveal_strlit("Priority");
    reveal_strlit("languages");
    reveal_strlit("onSuccess");
    reveal_strlit("onUnknown");
    lemma_items_wf(string_array_json(languages)->Array_0);
    lemma_single_wf("action"@, "Recognize"@);
    lemma_single_wf("action"@, "None"@);
    let m = language_id_json(mode, languages)->Object_0;
    lemma_members_wf(m);
    assert("mode"@.len() != "Priority"@.len());
    assert("mode"@.len() != "languages"@.len());
    assert("mode"@.len() != "onSuccess"@.len());
    assert("mode"@.len() != "onUnknown"@.len());
    assert("Priority"@.len() != "languages"@.len());
    assert("Priority"@.len() != "onSuccess"@.len());
    assert("Priority"@.len() != "onUnknown"@.len());
    assert("languages"@[0] != "onSuccess"@[0]);
    assert("languages"@[0] != "onUnknown"@[0]);
    assert("onSuccess"@[2] != "onUnknown"@[2]);
    assert(keys_distinct(m));
}

proof fn lemma_phrase_detection_wf(models: Option<Seq<(Seq<char>, Seq<char>)>>)
    ensures
        json_wf(phrase_detection_json(models)),
{
    reveal_strlit("customModels");
    reveal_strlit("onInterim");
    reveal_strlit("onSuccess");
    reveal_strlit("language");
    reveal_strlit("endpoint");
    if let Some(list) = models {
        let items = list.map_values(|x: (Seq<char>, Seq<char>)| custom_model_json(x));
        assert forall|i: int| 0 <= i < items.len() implies #[trigger] json_wf(items[i]) by {
            lemma_members_wf(items[i]->Object_0);
            assert("language"@[0] != "endpoint"@[0]);
            assert(keys_distinct(items[i]->Object_0));
        }
        lemma_items_wf(items);
    }
    let m = phrase_detection_json(models)->Object_0;
    lemma_members_wf(m);
    assert("customModels"@.len() != "onInterim"@.len());
    assert("customModels"@.len() != "onSuccess"@.len());
    assert("onInterim"@[2] != "onSuccess"@[2]);
    assert(keys_distinct(m));
}

proof fn lemma_phrase_output_wf()
    ensures
        json_wf(phrase_output_json()),
{
    reveal_strlit("interimResults");
    reveal_strlit("phraseResults");
    assert("interimResults"@.len() != "phraseResults"@.len());
    lemma_single_wf("resultType"@, "Auto"@);
    lemma_single_wf("resultType"@, "Always"@);
    let m = phrase_output_json()->Object_0;
    lemma_members_wf(m);
    assert(keys_distinct(m));
}

/// The `speech.config` body holds no key twice in any of its objects.
pub proof fn lemma_speech_config_json_wf(c: ResolverConfig)
    ensures
        json_wf(speech_config_json(c)),
{
    reveal_strlit("system");
    reveal_strlit("os");
    reveal_strlit("audio");
    reveal_strlit("context");
    reveal_strlit("recognition");
    lemma_system_wf(c.system);
    lemma_os_wf(c.os);
    lemma_audio_wf(c.source);
    let context = speech_config_json(c)->Object_0[0].1->Object_0;
    lemma_members_wf(context);
    assert("system"@.len() != "os"@.len());
    assert("system"@.len() != "audio"@.len());
    assert("os"@.len() != "audio"@.len());
    assert(keys_distinct(context));
    let m = speech_config_json(c)->Object_0;
    lemma_members_wf(m);
    assert("context"@.len() != "recognition"@.len());
    assert(keys_distinct(m));
}

/// The `speech.context` body holds no key twice in any of its objects.
pub proof fn lemma_speech_context_json_wf(c: ResolverConfig)
    requires
        context_ready(c),
    ensures
        json_wf(speech_context_json(c)),
{
    reveal_strlit("dgi");
    reveal_strlit("languageId");
    reveal_strlit("phraseDetection");
    reveal_strlit("phraseOutput");
    if let Some(p) = c.phrases {
        lemma_dgi_wf(strings_view(p@));
    }
    if c.languages@.len() > 1 {
        lemma_language_id_wf(c.language_detect_mode.unwrap(), strings_view(c.languages@));
        lemma_phrase_detection_wf(
            match c.custom_models {
                Some(m) => Some(pairs_view(m@)),
                None => None,
            },
        );
        lemma_phrase_output_wf();
    }
    let m = speech_context_json(c)->Object_0;
    lemma_members_wf(m);
    assert("dgi"@.len() != "languageId"@.len());
    assert("dgi"@.len() != "phraseDetection"@.len());
    assert("dgi"@.len() != "phraseOutput"@.len());
    assert("languageId"@.len() != "phraseDetection"@.len());
    assert("languageId"@.len() != "phraseOutput"@.len());
    assert("phraseDetection"@.len() != "phraseOutput"@.len());
    assert(keys_distinct(m));
}

/// The `speech.config` body reports what the configuration holds: under `context`, the client
/// software's name, version, build and language, the platform's name, version and kind, and
/// the audio source's description and sample shape; under `recognition`, the name of the
/// configured recognition mode.
pub proof fn lemma_speech_config_body(c: ResolverConfig)
    ensures
        ({
            let b = speech_config_json(c)->Object_0;
            let context = b[0].1->Object_0;
            let system = context[0].1->Object_0;
            let os = context[1].1->Object_0;
            let source = context[2].1->Object_0[0].1->Object_0;
            &&& b.len() == 2 && b[0].0 == "context"@ && b[1].0 == "recognition"@
            &&& c.mode == RecognitionMode::Interactive ==> b[1].1 == JsonV::Str("interactive"@)
            &&& c.mode == RecognitionMode::Conversation ==> b[1].1 == JsonV::Str("conversation"@)
            &&& c.mode == RecognitionMode::Dictation ==> b[1].1 == JsonV::Str("dictation"@)
            &&& context.len() == 3
            &&& context[0].0 == "system"@ && context[1].0 == "os"@ && context[2].0 == "audio"@
            &&& system == seq![
                ("name"@, JsonV::Str(c.system.name@)),
                ("version"@, JsonV::Str(c.system.version@)),
                ("build"@, JsonV::Str(c.system.build@)),
                ("lang"@, JsonV::Str(c.system.lang@)),
            ]
            &&& os == seq![
                ("platform"@, JsonV::Str(c.os.platform@)),
                ("name"@, JsonV::Str(c.os.name@)),
                ("version"@, JsonV::Str(c.os.version@)),
            ]
            &&& context[2].1->Object_0.len() == 1 && context[2].1->Object_0[0].0 == "source"@
            &&& source == seq![
                ("connectivity"@, JsonV::Str(c.source.details.connectivity@)),
                ("manufacturer"@, JsonV::Str(c.source.details.manufacturer@)),
                ("model"@, JsonV::Str(c.source.details.model@)),
                ("type"@, JsonV::Str(c.source.details.name@)),
                ("samplerate"@, JsonV::Number(c.source.headers.sample_rate as u64)),
                ("bitspersample"@, JsonV::Number(c.source.headers.bits_per_sample as u64)),
                ("channelcount"@, JsonV::Number(c.source.headers.channels as u64)),
            ]
        }),
{
}

/// Where phrases are configured, the `speech.context` body opens with the phrase list: one
/// generic group whose items are the phrases, one `{"Text": phrase}` object per configured
/// phrase, in their order.
pub proof fn lemma_speech_context_phrases(c: ResolverConfig)
    requires
        c.phrases is Some,
    ensures
        ({
            let phrases = c.phrases.unwrap()@;
            let b = speech_context_json(c)->Object_0;
            let groups = b[0].1->Object_0;
            let group = groups[0].1->Array_0[0]->Object_0;
            let items = group[1].1->Array_0;
            &&& b.len() >= 1 && b[0].0 == "dgi"@
            &&& groups.len() == 1 && groups[0].0 == "Groups"@
            &&& groups[0].1->Array_0.len() == 1
            &&& group.len() == 2
            &&& group[0] == ("Type"@, JsonV::Str("Generic"@))
            &&& group[1].0 == "Items"@
            &&& items.len() == phrases.len()
            &&& forall|i: int|
                0 <= i < phrases.len() ==> #[trigger] items[i] == JsonV::Object(
                    seq![("Text"@, JsonV::Str(phrases[i]@))],
                )
        }),
{
}

/// Where more than one language is configured, the `speech.context` body asks for language
/// identification in the configured detection mode among every configured language, in order,
/// and lists the configured custom models, each with its language and endpoint, or `null`
/// where there are none.
pub proof fn lemma_speech_context_languages(c: ResolverConfig)
    requires
        c.languages@.len() > 1,
        context_ready(c),
    ensures
        ({
            let b = speech_context_json(c)->Object_0;
            let k = if c.phrases is Some { 1int } else { 0int };
            let lid = b[k].1->Object_0;
            let langs = lid[2].1->Array_0;
            let detection = b[k + 1].1->Object_0;
            &&& b.len() == k + 3
            &&& b[k].0 == "languageId"@ && b[k + 1].0 == "phraseDetection"@
            &&& b[k + 2].0 == "phraseOutput"@
            &&& lid[0].0 == "mode"@
            &&& c.language_detect_mode == Some(LanguageDetectMode::AtStart) ==> lid[0].1
                == JsonV::Str("DetectAtAudioStart"@)
            &&& c.language_detect_mode == Some(LanguageDetectMode::Continuous) ==> lid[0].1
                == JsonV::Str("DetectContinuous"@)
            &&& lid[2].0 == "languages"@
            &&& langs.len() == c.languages@.len()
            &&& forall|i: int|
                0 <= i < langs.len() ==> #[trigger] langs[i] == JsonV::Str(c.languages@[i]@)
            &&& detection[0].0 == "customModels"@
            &&& c.custom_models is None ==> detection[0].1 == JsonV::Null
            &&& c.custom_models matches Some(m) ==> {
                &&& detection[0].1->Array_0.len() == m@.len()
                &&& forall|i: int|
                    0 <= i < m@.len() ==> #[trigger] detection[0].1->Array_0[i] == JsonV::Object(
                        seq![
                            ("language"@, JsonV::Str(m@[i].0@)),
                            ("endpoint"@, JsonV::Str(m@[i].1@)),
                        ],
                    )
            }
        }),
{
}

} // verus!
