use xml_ai_core::common::prompt::FrequencyPenalty;
use xml_ai_core::common::prompt::InvalidAttribute;
use xml_ai_core::common::prompt::InvalidFrequencyPenaltyAttribute;
use xml_ai_core::common::prompt::InvalidLogprobsAttribute;
use xml_ai_core::common::prompt::InvalidMaxTokensAttribute;
use xml_ai_core::common::prompt::InvalidModelAttribute;
use xml_ai_core::common::prompt::InvalidNAttribute;
use xml_ai_core::common::prompt::InvalidPresencePenaltyAttribute;
use xml_ai_core::common::prompt::InvalidResponseFormatAttribute;
use xml_ai_core::common::prompt::InvalidStreamAttribute;
use xml_ai_core::common::prompt::InvalidTemperatureAttribute;
use xml_ai_core::common::prompt::InvalidTopLogprobsAttribute;
use xml_ai_core::common::prompt::InvalidTopPAttribute;
use xml_ai_core::common::prompt::Logprobs;
use xml_ai_core::common::prompt::MaxTokens;
use xml_ai_core::common::prompt::Model;
use xml_ai_core::common::prompt::PresencePenalty;
use xml_ai_core::common::prompt::PromptAttributeEntry;
use xml_ai_core::common::prompt::PromptSettings;
use xml_ai_core::common::prompt::ResponseFormat;
use xml_ai_core::common::prompt::ResponseFormatType;
use xml_ai_core::common::prompt::Temperature;
use xml_ai_core::common::prompt::TopLogprobs;
use xml_ai_core::common::prompt::TopP;
use xml_ai_core::common::prompt::N;
use xml_ai_core::common::prompt::setting_keys;
use xml_ai_core::markup::AttributeMap;

fn settings(pairs: &[(&str, &str)]) -> PromptSettings {
    let mut settings = PromptSettings::default();
    for (key, value) in pairs {
        assert!(matches!(settings.try_merge(key, value), Some(Ok(()))), "on {:?}", key);
    }
    settings
}

/// The settings as plain values, so that two of them can be compared.
fn values(s: &PromptSettings) -> Vec<Option<String>> {
    vec![
        s.name.clone(),
        s.model.as_ref().map(|x| x.0.clone()),
        s.temperature.as_ref().map(|x| x.0.as_str().to_string()),
        s.n.map(|x| x.0.to_string()),
        s.max_tokens.map(|x| x.0.to_string()),
        s.top_p.as_ref().map(|x| x.0.as_str().to_string()),
        s.frequency_penalty.as_ref().map(|x| x.0.as_str().to_string()),
        s.presence_penalty.as_ref().map(|x| x.0.as_str().to_string()),
        s.logprobs.map(|x| x.0.to_string()),
        s.top_logprobs.map(|x| x.0.to_string()),
        s.response_format.map(|x| format!("{:?}", x.0)),
    ]
}

#[test]
fn attribute_types_parse_their_values() {
    assert_eq!(Model::from_str("gpt-4").unwrap().0, "gpt-4");
    assert_eq!(Model::from_str("").unwrap().0, "");
    assert_eq!(Temperature::from_str("0.2").unwrap().0.as_str(), "0.2");
    assert_eq!(TopP::from_str("1").unwrap().0.as_str(), "1");
    assert_eq!(FrequencyPenalty::from_str("-0.5").unwrap().0.as_str(), "-0.5");
    assert_eq!(PresencePenalty::from_str("1e-1").unwrap().0.as_str(), "1e-1");
    assert_eq!(N::from_str("3").unwrap(), N(3));
    assert_eq!(MaxTokens::from_str("256").unwrap(), MaxTokens(256));
    assert_eq!(TopLogprobs::from_str("-1").unwrap(), TopLogprobs(-1));
    assert_eq!(Logprobs::from_str("true").unwrap(), Logprobs(true));
    assert_eq!(Logprobs::from_str("false").unwrap(), Logprobs(false));
    assert_eq!(ResponseFormat::from_str("json-object").unwrap(), ResponseFormat(ResponseFormatType::JsonObject));
    assert_eq!("7".parse::<N>().unwrap(), N(7));
    assert_eq!("text".parse::<ResponseFormat>().unwrap(), ResponseFormat(ResponseFormatType::Text));
    assert_eq!("0.5".parse::<Temperature>().unwrap().0.as_str(), "0.5");
}

#[test]
fn attribute_types_reject_malformed_values() {
    assert_eq!(Temperature::from_str("warm").unwrap_err(), InvalidTemperatureAttribute);
    assert_eq!(TopP::from_str("").unwrap_err(), InvalidTopPAttribute);
    assert_eq!(FrequencyPenalty::from_str("1,5").unwrap_err(), InvalidFrequencyPenaltyAttribute);
    assert_eq!(PresencePenalty::from_str(" 1").unwrap_err(), InvalidPresencePenaltyAttribute);
    assert_eq!(N::from_str("1.5").unwrap_err(), InvalidNAttribute);
    assert_eq!(MaxTokens::from_str("many").unwrap_err(), InvalidMaxTokensAttribute);
    assert_eq!(TopLogprobs::from_str("").unwrap_err(), InvalidTopLogprobsAttribute);
    assert_eq!(Logprobs::from_str("yes").unwrap_err(), InvalidLogprobsAttribute);
    assert_eq!(ResponseFormat::from_str("yaml").unwrap_err(), InvalidResponseFormatAttribute);
}

#[test]
fn attribute_errors_show_their_names() {
    assert_eq!(InvalidModelAttribute.to_string(), "InvalidModelAttribute");
    assert_eq!(InvalidStreamAttribute.to_string(), "InvalidStreamAttribute");
    assert_eq!(InvalidTemperatureAttribute.to_string(), "InvalidTemperatureAttribute");
    assert_eq!(InvalidNAttribute.to_string(), "InvalidNAttribute");
    assert_eq!(InvalidMaxTokensAttribute.to_string(), "InvalidMaxTokensAttribute");
    assert_eq!(InvalidTopPAttribute.to_string(), "InvalidTopPAttribute");
    assert_eq!(InvalidFrequencyPenaltyAttribute.to_string(), "InvalidFrequencyPenaltyAttribute");
    assert_eq!(InvalidPresencePenaltyAttribute.to_string(), "InvalidPresencePenaltyAttribute");
    assert_eq!(InvalidLogprobsAttribute.to_string(), "InvalidLogprobsAttribute");
    assert_eq!(InvalidTopLogprobsAttribute.to_string(), "InvalidTopLogprobsAttribute");
    assert_eq!(InvalidResponseFormatAttribute.to_string(), "InvalidResponseFormatAttribute");
}

#[test]
fn invalid_attribute_names_the_field() {
    assert_eq!(InvalidAttribute::Name.to_string(), "invalid `Name` attribute");
    assert_eq!(InvalidAttribute::Model.to_string(), "invalid `Model` attribute");
    assert_eq!(InvalidAttribute::Stream.to_string(), "invalid `Stream` attribute");
    assert_eq!(InvalidAttribute::Temperature.to_string(), "invalid `Temperature` attribute");
    assert_eq!(InvalidAttribute::N.to_string(), "invalid `N` attribute");
    assert_eq!(InvalidAttribute::MaxTokens.to_string(), "invalid `MaxTokens` attribute");
    assert_eq!(InvalidAttribute::TopP.to_string(), "invalid `TopP` attribute");
    assert_eq!(InvalidAttribute::FrequencyPenalty.to_string(), "invalid `FrequencyPenalty` attribute");
    assert_eq!(InvalidAttribute::PresencePenalty.to_string(), "invalid `PresencePenalty` attribute");
    assert_eq!(InvalidAttribute::Logprobs.to_string(), "invalid `Logprobs` attribute");
    assert_eq!(InvalidAttribute::TopLogprobs.to_string(), "invalid `TopLogprobs` attribute");
    assert_eq!(InvalidAttribute::ResponseFormat.to_string(), "invalid `ResponseFormat` attribute");
}

#[test]
fn try_from_reads_every_key_of_the_table() {
    assert!(matches!(PromptAttributeEntry::try_from("name", "q1"), Some(Ok(PromptAttributeEntry::Name(x))) if x == "q1"));
    assert!(matches!(PromptAttributeEntry::try_from("model", "m"), Some(Ok(PromptAttributeEntry::Model(x))) if x.0 == "m"));
    assert!(matches!(PromptAttributeEntry::try_from("temperature", "0.2"), Some(Ok(PromptAttributeEntry::Temperature(x))) if x.0.as_str() == "0.2"));
    assert!(matches!(PromptAttributeEntry::try_from("n", "2"), Some(Ok(PromptAttributeEntry::N(N(2))))));
    assert!(matches!(PromptAttributeEntry::try_from("max-tokens", "10"), Some(Ok(PromptAttributeEntry::MaxTokens(MaxTokens(10))))));
    assert!(matches!(PromptAttributeEntry::try_from("top-p", "0.9"), Some(Ok(PromptAttributeEntry::TopP(x))) if x.0.as_str() == "0.9"));
    assert!(matches!(PromptAttributeEntry::try_from("frequency-penalty", "1"), Some(Ok(PromptAttributeEntry::FrequencyPenalty(x))) if x.0.as_str() == "1"));
    assert!(matches!(PromptAttributeEntry::try_from("presence-penalty", "2"), Some(Ok(PromptAttributeEntry::PresencePenalty(x))) if x.0.as_str() == "2"));
    assert!(matches!(PromptAttributeEntry::try_from("logprobs", "true"), Some(Ok(PromptAttributeEntry::Logprobs(Logprobs(true))))));
    assert!(matches!(PromptAttributeEntry::try_from("top-logprobs", "5"), Some(Ok(PromptAttributeEntry::TopLogprobs(TopLogprobs(5))))));
    assert!(matches!(PromptAttributeEntry::try_from("response-format", "TEXT"), Some(Ok(PromptAttributeEntry::ResponseFormat(ResponseFormat(ResponseFormatType::Text))))));
}

#[test]
fn try_from_names_the_field_of_a_malformed_value() {
    assert!(matches!(PromptAttributeEntry::try_from("temperature", "hot"), Some(Err(InvalidAttribute::Temperature))));
    assert!(matches!(PromptAttributeEntry::try_from("n", "two"), Some(Err(InvalidAttribute::N))));
    assert!(matches!(PromptAttributeEntry::try_from("max-tokens", ""), Some(Err(InvalidAttribute::MaxTokens))));
    assert!(matches!(PromptAttributeEntry::try_from("top-p", "p"), Some(Err(InvalidAttribute::TopP))));
    assert!(matches!(PromptAttributeEntry::try_from("frequency-penalty", "f"), Some(Err(InvalidAttribute::FrequencyPenalty))));
    assert!(matches!(PromptAttributeEntry::try_from("presence-penalty", "p"), Some(Err(InvalidAttribute::PresencePenalty))));
    assert!(matches!(PromptAttributeEntry::try_from("logprobs", "1"), Some(Err(InvalidAttribute::Logprobs))));
    assert!(matches!(PromptAttributeEntry::try_from("top-logprobs", "x"), Some(Err(InvalidAttribute::TopLogprobs))));
    assert!(matches!(PromptAttributeEntry::try_from("response-format", "yaml"), Some(Err(InvalidAttribute::ResponseFormat))));
}

#[test]
fn try_from_passes_over_unknown_keys() {
    for key in ["", "Name", "NAME", "max_tokens", "maxtokens", "stream", "role", "temperature ", "top_p"] {
        assert!(PromptAttributeEntry::try_from(key, "1").is_none(), "on {:?}", key);
    }
}

#[test]
fn try_merge_has_three_outcomes() {
    let mut s = PromptSettings::default();
    assert!(matches!(s.try_merge("temperature", "0.2"), Some(Ok(()))));
    assert_eq!(s.temperature.as_ref().unwrap().0.as_str(), "0.2");
    let before = values(&s);
    assert!(matches!(s.try_merge("temperature", "warm"), Some(Err(InvalidAttribute::Temperature))));
    assert_eq!(values(&s), before);
    assert!(s.try_merge("colour", "red").is_none());
    assert_eq!(values(&s), before);
    assert!(matches!(s.try_merge("temperature", "0.7"), Some(Ok(()))));
    assert_eq!(s.temperature.as_ref().unwrap().0.as_str(), "0.7");
}

#[test]
fn default_settings_are_all_absent() {
    assert_eq!(values(&PromptSettings::default()), vec![None; 11]);
}

#[test]
fn merge_is_right_biased_per_field() {
    let base = settings(&[("model", "a"), ("n", "1"), ("temperature", "0.1")]);
    let over = settings(&[("n", "2"), ("logprobs", "true")]);
    let merged = base.merge(over);
    assert_eq!(merged.model.as_ref().unwrap().0, "a");
    assert_eq!(merged.n, Some(N(2)));
    assert_eq!(merged.temperature.as_ref().unwrap().0.as_str(), "0.1");
    assert_eq!(merged.logprobs, Some(Logprobs(true)));
    assert!(merged.name.is_none());
    assert!(merged.max_tokens.is_none());
}

#[test]
fn merge_mut_agrees_with_merge() {
    let mut a = settings(&[("name", "x"), ("top-p", "0.5"), ("max-tokens", "5")]);
    let b = settings(&[("name", "y"), ("response-format", "text"), ("max-tokens", "6")]);
    let expected = values(&a.clone().merge(b.clone()));
    a.merge_mut(b);
    assert_eq!(values(&a), expected);
    assert_eq!(a.name.as_deref(), Some("y"));
    assert_eq!(a.max_tokens, Some(MaxTokens(6)));
}

#[test]
fn merging_three_settings_lets_the_last_writer_win() {
    let keys = ["name", "model", "temperature", "n", "max-tokens", "top-p", "frequency-penalty", "presence-penalty", "logprobs", "top-logprobs", "response-format"];
    let value = |key: &str, who: usize| -> String {
        match key {
            "name" | "model" => format!("v{}", who),
            "n" | "max-tokens" | "top-logprobs" => format!("{}", who),
            "logprobs" => if who == 1 { "false".to_string() } else { "true".to_string() },
            "response-format" => if who == 1 { "text".to_string() } else { "json-object".to_string() },
            _ => format!("0.{}", who),
        }
    };
    // Every choice of which of the three settings has which field.
    let mut mask = 0usize;
    while mask < 8 {
        let mut parts = vec![PromptSettings::default(), PromptSettings::default(), PromptSettings::default()];
        let mut expected = PromptSettings::default();
        for (at, key) in keys.iter().enumerate() {
            let present = (mask + at) % 8;
            for who in 0..3 {
                if present & (1 << who) != 0 {
                    assert!(matches!(parts[who].try_merge(key, &value(key, who)), Some(Ok(()))));
                    assert!(matches!(expected.try_merge(key, &value(key, who)), Some(Ok(()))));
                }
            }
        }
        let c = parts.pop().unwrap();
        let b = parts.pop().unwrap();
        let a = parts.pop().unwrap();
        let left = a.clone().merge(b.clone()).merge(c.clone());
        let right = a.merge(b.merge(c));
        assert_eq!(values(&left), values(&expected));
        assert_eq!(values(&right), values(&expected));
        mask += 1;
    }
}

#[test]
fn build_to_prompt_arguments_needs_a_name() {
    assert!(settings(&[("model", "m")]).build_to_prompt_arguments().is_none());
    let arguments = settings(&[("name", "q1"), ("model", "m"), ("n", "2"), ("temperature", "0.3")])
        .build_to_prompt_arguments()
        .unwrap();
    assert_eq!(arguments.name, "q1");
    assert_eq!(arguments.model.as_ref().unwrap().0, "m");
    assert_eq!(arguments.n, Some(N(2)));
    assert_eq!(arguments.temperature.as_ref().unwrap().0.as_str(), "0.3");
    assert!(arguments.top_p.is_none());
    let back = arguments.to_settings();
    assert_eq!(back.name.as_deref(), Some("q1"));
    assert_eq!(back.n, Some(N(2)));
    assert_eq!(arguments.clone().name, "q1");
}

#[test]
fn setting_keys_list_the_table() {
    assert_eq!(
        setting_keys(),
        vec!["name", "model", "temperature", "n", "max-tokens", "top-p", "frequency-penalty", "presence-penalty", "logprobs", "top-logprobs", "response-format"]
    );
}

#[test]
fn from_attributes_reads_known_keys_and_reports_every_bad_value() {
    let mut attributes = AttributeMap::new();
    attributes.insert("top-logprobs".to_string(), "x".to_string());
    attributes.insert("colour".to_string(), "red".to_string());
    attributes.insert("n".to_string(), "two".to_string());
    attributes.insert("model".to_string(), "m".to_string());
    attributes.insert("temperature".to_string(), "0.2".to_string());
    let (settings, errors) = PromptSettings::from_attributes(&attributes);
    assert_eq!(settings.model.as_ref().unwrap().0, "m");
    assert_eq!(settings.temperature.as_ref().unwrap().0.as_str(), "0.2");
    assert!(settings.n.is_none());
    assert!(settings.top_logprobs.is_none());
    assert_eq!(errors, vec![InvalidAttribute::N, InvalidAttribute::TopLogprobs]);
}

#[test]
fn from_attributes_does_not_depend_on_insertion_order() {
    let pairs = [("n", "x"), ("temperature", "y"), ("model", "m"), ("logprobs", "maybe")];
    let mut forward = AttributeMap::new();
    for (k, v) in pairs.iter() {
        forward.insert(k.to_string(), v.to_string());
    }
    let mut backward = AttributeMap::new();
    for (k, v) in pairs.iter().rev() {
        backward.insert(k.to_string(), v.to_string());
    }
    let (a, ea) = PromptSettings::from_attributes(&forward);
    let (b, eb) = PromptSettings::from_attributes(&backward);
    assert_eq!(values(&a), values(&b));
    assert_eq!(ea, eb);
    assert_eq!(ea, vec![InvalidAttribute::Temperature, InvalidAttribute::N, InvalidAttribute::Logprobs]);
}
