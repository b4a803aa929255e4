//! Content analysis used by moderation: a stand-in classifier whose
//! rules are fixed and fully specified, together with the verified
//! byte-string searching it is built on.

use vstd::prelude::*;
use vstd::string::StringSliceAdditionalSpecFns;
use vstd::utf8::encode_utf8;

verus! {

/// Failures of content analysis.
#[derive(Debug)]
pub enum AnalysisError {
    DatabaseError,
    MlServiceError(String),
    InvalidContent,
    ModelNotFound,
    ConfigurationError,
}

/// Whether `pat` occurs contiguously inside `hay`.
pub open spec fn contains_seq(hay: Seq<u8>, pat: Seq<u8>) -> bool {
    exists|i: int|
        0 <= i <= hay.len() - pat.len() && #[trigger] hay.subrange(i, i + pat.len()) == pat
}

/// Whether `pat` matches `hay` at offset `i`.
fn match_at(hay: &[u8], pat: &[u8], i: usize) -> (r: bool)
    requires
        i + pat@.len() <= hay@.len(),
    ensures
        r == (hay@.subrange(i as int, i + pat@.len()) == pat@),
{
    let hlen = hay.len();
    let m = pat.len();
    let mut j: usize = 0;
    while j < m
        invariant
            hlen == hay@.len(),
            i + m <= hlen,
            m == pat@.len(),
            0 <= j <= m,
            forall|k: int| 0 <= k < j ==> hay@[i + k] == pat@[k],
        decreases m - j,
    {
        if hay[i + j] != pat[j] {
            assert(hay@.subrange(i as int, i + pat@.len())[j as int] != pat@[j as int]);
            return false;
        }
        j += 1;
    }
    assert(hay@.subrange(i as int, i + pat@.len()) =~= pat@);
    true
}

/// Naive substring search over bytes.
pub fn contains_bytes(hay: &[u8], pat: &[u8]) -> (r: bool)
    ensures
        r == contains_seq(hay@, pat@),
{
    if pat.len() > hay.len() {
        return false;
    }
    let n = hay.len() - pat.len();
    let mut i: usize = 0;
    while i <= n
        invariant
            pat@.len() <= hay@.len(),
            n == hay@.len() - pat@.len(),
            0 <= i <= n,
            forall|k: int| 0 <= k < i ==> #[trigger] hay@.subrange(k, k + pat@.len()) != pat@,
        decreases n - i,
    {
        if match_at(hay, pat, i) {
            assert(contains_seq(hay@, pat@));
            return true;
        }
        if i == n {
            assert(!contains_seq(hay@, pat@));
            return false;
        }
        i += 1;
    }
    assert(!contains_seq(hay@, pat@));
    false
}

/// The ASCII lowering of one byte.
pub open spec fn lower_byte(b: u8) -> u8 {
    if 65 <= b <= 90 {
        (b + 32) as u8
    } else {
        b
    }
}

/// The ASCII lowering of a byte string; bytes outside A-Z, and in
/// particular every byte of a multi-byte character, pass unchanged.
pub open spec fn lower_bytes(s: Seq<u8>) -> Seq<u8> {
    s.map_values(|b: u8| lower_byte(b))
}

/// ASCII-lowercases a byte string.
pub fn to_ascii_lower(s: &[u8]) -> (r: Vec<u8>)
    ensures
        r@ == lower_bytes(s@),
{
    let n = s.len();
    let mut out: Vec<u8> = Vec::new();
    let mut i: usize = 0;
    while i < n
        invariant
            0 <= i <= n,
            n == s@.len(),
            out@ == lower_bytes(s@.subrange(0, i as int)),
        decreases n - i,
    {
        let b = s[i];
        if 65 <= b && b <= 90 {
            out.push(b + 32);
        } else {
            out.push(b);
        }
        proof {
            assert(out@ =~= lower_bytes(s@.subrange(0, i + 1)));
        }
        i += 1;
    }
    proof {
        assert(s@.subrange(0, n as int) =~= s@);
    }
    out
}

/// Whether the two-byte sequence C3 `second` — the UTF-8 encoding of
/// one marker character — occurs in the text.
pub open spec fn has_marker(bytes: Seq<u8>, second: u8) -> bool {
    contains_seq(bytes, seq![0xC3u8, second])
}

/// Marker characters of Spanish text.
pub open spec fn spec_is_spanish(bytes: Seq<u8>) -> bool {
    ||| has_marker(bytes, 0xA1)  // a acute
    ||| has_marker(bytes, 0xA9)  // e acute
    ||| has_marker(bytes, 0xAD)  // i acute
    ||| has_marker(bytes, 0xB3)  // o acute
    ||| has_marker(bytes, 0xBA)  // u acute
    ||| has_marker(bytes, 0xB1)  // n tilde
    ||| has_marker(bytes, 0xBC)  // u diaeresis
    ||| has_marker(bytes, 0xA7)  // c cedilla
}

/// Marker characters of French text.
pub open spec fn spec_is_french(bytes: Seq<u8>) -> bool {
    ||| has_marker(bytes, 0xA0)  // a grave
    ||| has_marker(bytes, 0xA2)  // a circumflex
    ||| has_marker(bytes, 0xA4)  // a diaeresis
    ||| has_marker(bytes, 0xA9)  // e acute
    ||| has_marker(bytes, 0xA8)  // e grave
    ||| has_marker(bytes, 0xAA)  // e circumflex
    ||| has_marker(bytes, 0xAB)  // e diaeresis
    ||| has_marker(bytes, 0xAF)  // i diaeresis
    ||| has_marker(bytes, 0xAE)  // i circumflex
    ||| has_marker(bytes, 0xB4)  // o circumflex
    ||| has_marker(bytes, 0xB9)  // u grave
    ||| has_marker(bytes, 0xBB)  // u circumflex
    ||| has_marker(bytes, 0xBC)  // u diaeresis
    ||| has_marker(bytes, 0xBF)  // y diaeresis
    ||| has_marker(bytes, 0xA7)  // c cedilla
}

/// Marker characters of German text.
pub open spec fn spec_is_german(bytes: Seq<u8>) -> bool {
    ||| has_marker(bytes, 0xA4)  // a diaeresis
    ||| has_marker(bytes, 0xB6)  // o diaeresis
    ||| has_marker(bytes, 0xBC)  // u diaeresis
    ||| has_marker(bytes, 0x9F)  // sharp s
}

/// The language tag the classifier assigns to a text.
pub open spec fn spec_language(bytes: Seq<u8>) -> Seq<char> {
    if spec_is_spanish(bytes) {
        "es"@
    } else if spec_is_french(bytes) {
        "fr"@
    } else if spec_is_german(bytes) {
        "de"@
    } else {
        "en"@
    }
}

/// Whether the lowered text names the security topic.
pub open spec fn spec_topic_security(bytes: Seq<u8>) -> bool {
    ||| contains_seq(lower_bytes(bytes), encode_utf8("security"@))
    ||| contains_seq(lower_bytes(bytes), encode_utf8("privacy"@))
    ||| contains_seq(lower_bytes(bytes), encode_utf8("encryption"@))
}

/// Whether the lowered text names the governance topic.
pub open spec fn spec_topic_governance(bytes: Seq<u8>) -> bool {
    ||| contains_seq(lower_bytes(bytes), encode_utf8("governance"@))
    ||| contains_seq(lower_bytes(bytes), encode_utf8("voting"@))
    ||| contains_seq(lower_bytes(bytes), encode_utf8("proposal"@))
}

/// Whether the lowered text names the technology topic.
pub open spec fn spec_topic_technology(bytes: Seq<u8>) -> bool {
    ||| contains_seq(lower_bytes(bytes), encode_utf8("technology"@))
    ||| contains_seq(lower_bytes(bytes), encode_utf8("ai"@))
    ||| contains_seq(lower_bytes(bytes), encode_utf8("machine learning"@))
}

/// Whether the lowered text names the community topic.
pub open spec fn spec_topic_community(bytes: Seq<u8>) -> bool {
    ||| contains_seq(lower_bytes(bytes), encode_utf8("community"@))
    ||| contains_seq(lower_bytes(bytes), encode_utf8("social"@))
    ||| contains_seq(lower_bytes(bytes), encode_utf8("friendship"@))
}

/// The topic tags the classifier assigns to a text, in their fixed
/// order.
pub open spec fn spec_topics(bytes: Seq<u8>) -> Seq<Seq<char>> {
    let s0 = Seq::<Seq<char>>::empty();
    let s1 = if spec_topic_security(bytes) {
        s0.push("security"@)
    } else {
        s0
    };
    let s2 = if spec_topic_governance(bytes) {
        s1.push("governance"@)
    } else {
        s1
    };
    let s3 = if spec_topic_technology(bytes) {
        s2.push("technology"@)
    } else {
        s2
    };
    if spec_topic_community(bytes) {
        s3.push("community"@)
    } else {
        s3
    }
}

/// Stand-in text classifier used while no real analysis service is
/// wired in. Its behavior is a fixed, fully specified rule set.
#[derive(Debug, Clone, Copy)]
pub struct MockMlClient {
    _private: (),
}

fn contains_marker(b: &[u8], second: u8) -> (r: bool)
    ensures
        r == has_marker(b@, second),
{
    let mut pat: Vec<u8> = Vec::new();
    pat.push(0xC3);
    pat.push(second);
    proof {
        assert(pat@ =~= seq![0xC3u8, second]);
    }
    contains_bytes(b, pat.as_slice())
}

impl MockMlClient {
    pub fn new() -> (r: MockMlClient) {
        MockMlClient { _private: () }
    }

    /// Assigns a language tag from fixed marker characters, checking
    /// Spanish, then French, then German markers, and falling back
    /// to English.
    pub fn detect_language(&self, text: &str) -> (r: Result<String, AnalysisError>)
        ensures
            r matches Ok(s) && s@ == spec_language(text.spec_bytes()),
    {
        let b = text.as_bytes();
        if contains_marker(b, 0xA1) || contains_marker(b, 0xA9) || contains_marker(b, 0xAD)
            || contains_marker(b, 0xB3) || contains_marker(b, 0xBA) || contains_marker(b, 0xB1)
            || contains_marker(b, 0xBC) || contains_marker(b, 0xA7) {
            Ok(("es").to_owned())
        } else if contains_marker(b, 0xA0) || contains_marker(b, 0xA2) || contains_marker(b, 0xA4)
            || contains_marker(b, 0xA9) || contains_marker(b, 0xA8) || contains_marker(b, 0xAA)
            || contains_marker(b, 0xAB) || contains_marker(b, 0xAF) || contains_marker(b, 0xAE)
            || contains_marker(b, 0xB4) || contains_marker(b, 0xB9) || contains_marker(b, 0xBB)
            || contains_marker(b, 0xBC) || contains_marker(b, 0xBF) || contains_marker(b, 0xA7) {
            Ok(("fr").to_owned())
        } else if contains_marker(b, 0xA4) || contains_marker(b, 0xB6) || contains_marker(b, 0xBC)
            || contains_marker(b, 0x9F) {
            Ok(("de").to_owned())
        } else {
            Ok(("en").to_owned())
        }
    }

    /// Assigns topic tags by keyword search over the ASCII-lowered
    /// text, in the fixed order security, governance, technology,
    /// community.
    pub fn extract_topics(&self, text: &str) -> (r: Result<Vec<String>, AnalysisError>)
        ensures
            r matches Ok(v) && v.deep_view() == spec_topics(text.spec_bytes()),
    {
        let lower = to_ascii_lower(text.as_bytes());
        let hay = lower.as_slice();
        let mut topics: Vec<String> = Vec::new();
        if contains_bytes(hay, ("security").as_bytes()) || contains_bytes(
            hay,
            ("privacy").as_bytes(),
        ) || contains_bytes(hay, ("encryption").as_bytes()) {
            topics.push(("security").to_owned());
        }
        let ghost g1 = topics.deep_view();
        if contains_bytes(hay, ("governance").as_bytes()) || contains_bytes(
            hay,
            ("voting").as_bytes(),
        ) || contains_bytes(hay, ("proposal").as_bytes()) {
            topics.push(("governance").to_owned());
        }
        let ghost g2 = topics.deep_view();
        if contains_bytes(hay, ("technology").as_bytes()) || contains_bytes(
            hay,
            ("ai").as_bytes(),
        ) || contains_bytes(hay, ("machine learning").as_bytes()) {
            topics.push(("technology").to_owned());
        }
        let ghost g3 = topics.deep_view();
        if contains_bytes(hay, ("community").as_bytes()) || contains_bytes(
            hay,
            ("social").as_bytes(),
        ) || contains_bytes(hay, ("friendship").as_bytes()) {
            topics.push(("community").to_owned());
        }
        proof {
            let bytes = text.spec_bytes();
            let s0 = Seq::<Seq<char>>::empty();
            let s1 = if spec_topic_security(bytes) {
                s0.push("security"@)
            } else {
                s0
            };
            let s2 = if spec_topic_governance(bytes) {
                s1.push("governance"@)
            } else {
                s1
            };
            let s3 = if spec_topic_technology(bytes) {
                s2.push("technology"@)
            } else {
                s2
            };
            assert(g1 =~= s1);
            assert(g2 =~= s2);
            assert(g3 =~= s3);
            assert(topics.deep_view() =~= spec_topics(bytes));
        }
        Ok(topics)
    }
}

} // verus!
