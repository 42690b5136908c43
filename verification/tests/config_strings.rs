use transcript_relay::config::TranscriptionConfig;
use transcript_relay::config::auth_header_value;
use transcript_relay::config::endpoint_url;
use transcript_relay::config::query_string;
use transcript_relay::config::u32_decimal;

#[test]
fn decimal_writing_is_exact() {
    assert_eq!(u32_decimal(0), "0");
    assert_eq!(u32_decimal(7), "7");
    assert_eq!(u32_decimal(10), "10");
    assert_eq!(u32_decimal(300), "300");
    assert_eq!(u32_decimal(48000), "48000");
    assert_eq!(u32_decimal(u32::MAX), "4294967295");
}

#[test]
fn default_config_composes_the_expected_url() {
    let config = TranscriptionConfig::default();
    let url = endpoint_url("wss://api.deepgram.com/v1/listen", &config);
    assert_eq!(
        url,
        "wss://api.deepgram.com/v1/listen?model=nova-2&encoding=linear16&sample_rate=48000&channels=1&interim_results=true&endpointing=300&smart_format=true&punctuate=true&numerals=true&vad_events=true"
    );
}

#[test]
fn parameters_pass_through_to_the_query() {
    let config = TranscriptionConfig {
        model: "other-model".to_string(),
        encoding: "mulaw".to_string(),
        sample_rate: 8000,
        channels: 2,
        interim_results: false,
        endpointing_ms: 150,
        smart_format: false,
        punctuate: false,
        numerals: false,
        vad_events: false,
    };
    assert_eq!(
        query_string(&config),
        "?model=other-model&encoding=mulaw&sample_rate=8000&channels=2&interim_results=false&endpointing=150&smart_format=false&punctuate=false&numerals=false&vad_events=false"
    );
}

#[test]
fn auth_header_prefixes_the_scheme() {
    assert_eq!(auth_header_value("abc123"), "Token abc123");
    assert_eq!(auth_header_value(""), "Token ");
}
