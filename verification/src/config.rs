//! Connection configuration: the transcription parameters that ride on the
//! endpoint URL's query string, and the authorization header.
//!
//! The parameters are pass-through configuration, not behaviour: the relay
//! composes them into a URL and otherwise never looks at them.

use vstd::prelude::*;

verus! {

/// The decimal digit `d` stands for, as a character.
pub open spec fn digit_char(d: nat) -> char {
    if d == 0 {
        '0'
    } else if d == 1 {
        '1'
    } else if d == 2 {
        '2'
    } else if d == 3 {
        '3'
    } else if d == 4 {
        '4'
    } else if d == 5 {
        '5'
    } else if d == 6 {
        '6'
    } else if d == 7 {
        '7'
    } else if d == 8 {
        '8'
    } else {
        '9'
    }
}

/// The decimal writing of `n`, most significant digit first, no sign and no
/// leading zero (except for `n == 0` itself).
pub open spec fn dec_rep(n: nat) -> Seq<char>
    decreases n,
{
    if n < 10 {
        seq![digit_char(n)]
    } else {
        dec_rep(n / 10).push(digit_char(n % 10))
    }
}

/// The text `true` or `false`.
pub open spec fn bool_rep(b: bool) -> Seq<char> {
    if b {
        "true"@
    } else {
        "false"@
    }
}

/// The single-digit piece of text for `d`.
fn digit_str(d: u32) -> (r: &'static str)
    requires
        d < 10,
    ensures
        r@ == seq![digit_char(d as nat)],
{
    proof {
        reveal_strlit("0");
        reveal_strlit("1");
        reveal_strlit("2");
        reveal_strlit("3");
        reveal_strlit("4");
        reveal_strlit("5");
        reveal_strlit("6");
        reveal_strlit("7");
        reveal_strlit("8");
        reveal_strlit("9");
    }
    let r = match d {
        0 => "0",
        1 => "1",
        2 => "2",
        3 => "3",
        4 => "4",
        5 => "5",
        6 => "6",
        7 => "7",
        8 => "8",
        _ => "9",
    };
    proof {
        assert(r@ =~= seq![digit_char(d as nat)]);
    }
    r
}

/// Appends the decimal writing of `n` to `out`.
fn push_decimal(n: u32, out: &mut String)
    ensures
        final(out)@ == old(out)@ + dec_rep(n as nat),
    decreases n,
{
    if n >= 10 {
        push_decimal(n / 10, out);
    }
    out.append(digit_str(n % 10));
    proof {
        assert(final(out)@ =~= old(out)@ + dec_rep(n as nat));
    }
}

/// The decimal writing of `n`.
pub fn u32_decimal(n: u32) -> (s: String)
    ensures
        s@ == dec_rep(n as nat),
{
    let mut s = String::new();
    push_decimal(n, &mut s);
    proof {
        assert(s@ =~= dec_rep(n as nat));
    }
    s
}

/// The transcription parameters carried to the remote service on the endpoint
/// URL. Each field maps to one query parameter, in the order they appear in
/// `spec_query`.
pub struct TranscriptionConfig {
    /// The transcription model to use.
    pub model: String,
    /// The audio sample encoding the caller will submit.
    pub encoding: String,
    /// Samples per second of the submitted audio.
    pub sample_rate: u32,
    /// Number of audio channels.
    pub channels: u32,
    /// Whether provisional (non-final) transcripts are wanted.
    pub interim_results: bool,
    /// Silence, in milliseconds, after which an utterance is finalized.
    pub endpointing_ms: u32,
    /// Whether the service should apply smart formatting.
    pub smart_format: bool,
    /// Whether the service should punctuate.
    pub punctuate: bool,
    /// Whether the service should write numbers as numerals.
    pub numerals: bool,
    /// Whether voice-activity events are wanted.
    pub vad_events: bool,
}

impl TranscriptionConfig {
    /// The query string these parameters compose to, `?` included.
    pub open spec fn spec_query(self) -> Seq<char> {
        "?model="@ + self.model@ + "&encoding="@ + self.encoding@ + "&sample_rate="@ + dec_rep(
            self.sample_rate as nat,
        ) + "&channels="@ + dec_rep(self.channels as nat) + "&interim_results="@ + bool_rep(
            self.interim_results,
        ) + "&endpointing="@ + dec_rep(self.endpointing_ms as nat) + "&smart_format="@ + bool_rep(
            self.smart_format,
        ) + "&punctuate="@ + bool_rep(self.punctuate) + "&numerals="@ + bool_rep(self.numerals)
            + "&vad_events="@ + bool_rep(self.vad_events)
    }
}

impl Default for TranscriptionConfig {
    /// The parameters the relay was tuned for: the `nova-2` model over
    /// 48 kHz single-channel linear PCM, interim results on, utterances
    /// finalized after 300 ms of silence, and formatting aids on.
    fn default() -> (c: Self)
        ensures
            c.model@ == "nova-2"@,
            c.encoding@ == "linear16"@,
            c.sample_rate == 48000u32,
            c.channels == 1u32,
            c.interim_results,
            c.endpointing_ms == 300u32,
            c.smart_format,
            c.punctuate,
            c.numerals,
            c.vad_events,
    {
        TranscriptionConfig {
            model: "nova-2".to_owned(),
            encoding: "linear16".to_owned(),
            sample_rate: 48000,
            channels: 1,
            interim_results: true,
            endpointing_ms: 300,
            smart_format: true,
            punctuate: true,
            numerals: true,
            vad_events: true,
        }
    }
}

/// The text `true` or `false` for `b`.
fn bool_str(b: bool) -> (r: &'static str)
    ensures
        r@ == bool_rep(b),
{
    if b {
        "true"
    } else {
        "false"
    }
}

/// Composes the full endpoint URL: the base endpoint followed by the query
/// string that carries every transcription parameter.
/// Composes the query string that carries every transcription parameter.
pub fn query_string(config: &TranscriptionConfig) -> (r: String)
    ensures
        r@ == config.spec_query(),
{
    let mut s = String::new();
    s.append("?model=");
    s.append(config.model.as_str());
    s.append("&encoding=");
    s.append(config.encoding.as_str());
    s.append("&sample_rate=");
    s.append(u32_decimal(config.sample_rate).as_str());
    s.append("&channels=");
    s.append(u32_decimal(config.channels).as_str());
    s.append("&interim_results=");
    s.append(bool_str(config.interim_results));
    s.append("&endpointing=");
    s.append(u32_decimal(config.endpointing_ms).as_str());
    s.append("&smart_format=");
    s.append(bool_str(config.smart_format));
    s.append("&punctuate=");
    s.append(bool_str(config.punctuate));
    s.append("&numerals=");
    s.append(bool_str(config.numerals));
    s.append("&vad_events=");
    s.append(bool_str(config.vad_events));
    proof {
        assert(s@ =~= config.spec_query());
    }
    s
}

/// Composes the full endpoint URL: the base endpoint followed by the query
/// string that carries every transcription parameter.
pub fn endpoint_url(base: &str, config: &TranscriptionConfig) -> (r: String)
    ensures
        r@ == base@ + config.spec_query(),
{
    let mut s = String::new();
    s.append(base);
    let query = query_string(config);
    s.append(query.as_str());
    s
}

/// Builds the value of the `Authorization` header sent on the connection
/// handshake: the scheme word `Token`, a space, then the credential. The
/// credential is composed into the header and never kept by the relay.
pub fn auth_header_value(credential: &str) -> (r: String)
    ensures
        r@ == "Token "@ + credential@,
{
    let mut s = String::new();
    s.append("Token ");
    s.append(credential);
    proof {
        assert(s@ =~= "Token "@ + credential@);
    }
    s
}

} // verus!
