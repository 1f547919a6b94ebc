//! Stream profiles: a declared intent with two weights, compiled into an
//! immutable runtime configuration that is identified by a digest.

use sha2::{Digest, Sha256};
use vstd::prelude::*;
use vstd::string::StringExecFns;

verus! {

/// Declares intent for streaming behavior.
#[derive(Debug, Clone, Copy, PartialEq, Eq, Structural)]
pub enum StreamIntent {
    /// Safe default balancing latency and resilience.
    Auto,
    /// Low-latency intent; favors quick delivery over smoothing.
    Realtime,
    /// Install/resilience intent; favors smoothness over instant updates.
    Install,
}

/// Error produced when stream profile parameters fail validation.
#[derive(Debug, Clone, Copy, PartialEq, Eq, Structural)]
pub enum ProfileError {
    /// The latency weight is above 100.
    LatencyWeightOutOfRange,
    /// The resilience weight is above 100.
    ResilienceWeightOutOfRange,
    /// Both weights are zero.
    ZeroTotalWeight,
}

/// What a profile declares, as plain values.
pub struct ProfileSpec {
    pub intent: StreamIntent,
    pub latency_weight: u8,
    pub resilience_weight: u8,
}

/// What a compiled profile holds, as plain values.
pub struct CompiledSpec {
    pub intent: StreamIntent,
    pub latency_weight: u8,
    pub resilience_weight: u8,
    pub config_id: Seq<char>,
}

/// The SHA-256 digest of a message.
pub uninterp spec fn sha256(message: Seq<u8>) -> Seq<u8>;

/// The byte that stands for an intent in the digest input.
pub open spec fn intent_byte(intent: StreamIntent) -> u8 {
    match intent {
        StreamIntent::Auto => 0,
        StreamIntent::Realtime => 1,
        StreamIntent::Install => 2,
    }
}

/// The lower-case hexadecimal digit of a value below sixteen.
pub open spec fn hex_digit(nibble: u8) -> char {
    if nibble == 0 {
        '0'
    } else if nibble == 1 {
        '1'
    } else if nibble == 2 {
        '2'
    } else if nibble == 3 {
        '3'
    } else if nibble == 4 {
        '4'
    } else if nibble == 5 {
        '5'
    } else if nibble == 6 {
        '6'
    } else if nibble == 7 {
        '7'
    } else if nibble == 8 {
        '8'
    } else if nibble == 9 {
        '9'
    } else if nibble == 10 {
        'a'
    } else if nibble == 11 {
        'b'
    } else if nibble == 12 {
        'c'
    } else if nibble == 13 {
        'd'
    } else if nibble == 14 {
        'e'
    } else {
        'f'
    }
}

/// Two lower-case hexadecimal digits per byte, high nibble first.
pub open spec fn hex_string(bytes: Seq<u8>) -> Seq<char>
    decreases bytes.len(),
{
    if bytes.len() == 0 {
        Seq::empty()
    } else {
        hex_string(bytes.drop_last()).push(hex_digit(bytes.last() / 16)).push(
            hex_digit(bytes.last() % 16),
        )
    }
}

/// A hexadecimal string has two digits for each byte.
pub proof fn hex_string_has_two_digits_per_byte(bytes: Seq<u8>)
    ensures
        hex_string(bytes).len() == 2 * bytes.len(),
    decreases bytes.len(),
{
    if bytes.len() > 0 {
        hex_string_has_two_digits_per_byte(bytes.drop_last());
    }
}

/// The bytes that are hashed for a profile: both weights, then the intent.
pub open spec fn digest_input(profile: ProfileSpec) -> Seq<u8> {
    seq![profile.latency_weight, profile.resilience_weight, intent_byte(profile.intent)]
}

/// The configuration identifier of a profile: the digest of its weights and
/// intent in hexadecimal.
pub open spec fn config_id_of(profile: ProfileSpec) -> Seq<char> {
    hex_string(sha256(digest_input(profile)))
}

/// Why a profile is refused, if it is: the first failing test of the
/// latency range, the resilience range and the total.
pub open spec fn rejection(profile: ProfileSpec) -> Option<ProfileError> {
    if profile.latency_weight > 100 {
        Some(ProfileError::LatencyWeightOutOfRange)
    } else if profile.resilience_weight > 100 {
        Some(ProfileError::ResilienceWeightOutOfRange)
    } else if profile.latency_weight == 0 && profile.resilience_weight == 0 {
        Some(ProfileError::ZeroTotalWeight)
    } else {
        None
    }
}

/// What compiling a profile yields.
pub open spec fn compiled(profile: ProfileSpec) -> Result<CompiledSpec, ProfileError> {
    match rejection(profile) {
        Some(error) => Err(error),
        None => Ok(
            CompiledSpec {
                intent: profile.intent,
                latency_weight: profile.latency_weight,
                resilience_weight: profile.resilience_weight,
                config_id: config_id_of(profile),
            },
        ),
    }
}

/// Two profiles that declare the same intent and weights compile to the same
/// result, and so to the same configuration identifier.
pub proof fn config_id_is_determined_by_declaration(a: ProfileSpec, b: ProfileSpec)
    requires
        a.intent == b.intent,
        a.latency_weight == b.latency_weight,
        a.resilience_weight == b.resilience_weight,
    ensures
        compiled(a) == compiled(b),
        config_id_of(a) == config_id_of(b),
{
}

/// Calls `sha2::Sha256::digest` on the message. The result is taken to be
/// the SHA-256 digest of exactly these bytes, which is 32 bytes long.
#[verifier::external_body]
fn sha256_digest(message: &Vec<u8>) -> (digest: Vec<u8>)
    ensures
        digest@ == sha256(message@),
        digest@.len() == 32,
{
    Sha256::digest(message.as_slice()).to_vec()
}

/// The one-character string of a hexadecimal digit.
fn hex_digit_str(nibble: u8) -> (digit: &'static str)
    requires
        nibble < 16,
    ensures
        digit@ == seq![hex_digit(nibble)],
{
    proof {
        reveal_strlit("0");
        reveal_strlit("1");
        reveal_strlit("2");
        reveal_strlit("3");
        reveal_strlit("4");
        reveal_strlit("5");
        reveal_strlit("6");
        reveal_strlit("7");
        reveal_strlit("8");
        reveal_strlit("9");
        reveal_strlit("a");
        reveal_strlit("b");
        reveal_strlit("c");
        reveal_strlit("d");
        reveal_strlit("e");
        reveal_strlit("f");
    }
    let digit = match nibble {
        0 => "0",
        1 => "1",
        2 => "2",
        3 => "3",
        4 => "4",
        5 => "5",
        6 => "6",
        7 => "7",
        8 => "8",
        9 => "9",
        10 => "a",
        11 => "b",
        12 => "c",
        13 => "d",
        14 => "e",
        _ => "f",
    };
    assert(digit@ =~= seq![hex_digit(nibble)]);
    digit
}

/// Writes bytes as lower-case hexadecimal, two digits per byte.
pub fn hex_encode(bytes: &Vec<u8>) -> (text: String)
    ensures
        text@ == hex_string(bytes@),
        text@.len() == 2 * bytes@.len(),
{
    let mut text = String::new();
    let mut i: usize = 0;
    while i < bytes.len()
        invariant
            i <= bytes.len(),
            text@ == hex_string(bytes@.take(i as int)),
        decreases bytes.len() - i,
    {
        let byte: u8 = bytes[i];
        let ghost before = text@;
        text.append(hex_digit_str(byte / 16));
        text.append(hex_digit_str(byte % 16));
        proof {
            let grown = bytes@.take(i + 1);
            assert(grown.drop_last() =~= bytes@.take(i as int));
            assert(grown.last() == byte);
            assert(text@ =~= before.push(hex_digit(byte / 16)).push(hex_digit(byte % 16)));
        }
        i = i + 1;
    }
    proof {
        assert(bytes@.take(i as int) =~= bytes@);
        hex_string_has_two_digits_per_byte(bytes@);
    }
    text
}

/// High-level description of stream behavior selected by callers.
///
/// The profile is immutable and compiles into a concrete runtime configuration.
#[derive(Debug, Clone, Copy)]
pub struct StreamProfile {
    intent: StreamIntent,
    latency_weight: u8,
    resilience_weight: u8,
}

impl View for StreamProfile {
    type V = ProfileSpec;

    closed spec fn view(&self) -> ProfileSpec {
        ProfileSpec {
            intent: self.intent,
            latency_weight: self.latency_weight,
            resilience_weight: self.resilience_weight,
        }
    }
}

impl StreamProfile {
    /// Returns the safe default profile (Auto).
    pub fn auto() -> (profile: Self)
        ensures
            profile@ == (ProfileSpec {
                intent: StreamIntent::Auto,
                latency_weight: 50,
                resilience_weight: 50,
            }),
    {
        Self { intent: StreamIntent::Auto, latency_weight: 50, resilience_weight: 50 }
    }

    /// Low-latency profile that prioritizes speedy delivery over smoothing.
    pub fn realtime() -> (profile: Self)
        ensures
            profile@ == (ProfileSpec {
                intent: StreamIntent::Realtime,
                latency_weight: 80,
                resilience_weight: 20,
            }),
    {
        Self { intent: StreamIntent::Realtime, latency_weight: 80, resilience_weight: 20 }
    }

    /// Install profile that prioritizes smoothness and resilience.
    pub fn install() -> (profile: Self)
        ensures
            profile@ == (ProfileSpec {
                intent: StreamIntent::Install,
                latency_weight: 25,
                resilience_weight: 75,
            }),
    {
        Self { intent: StreamIntent::Install, latency_weight: 25, resilience_weight: 75 }
    }

    /// Creates a profile with explicit weights. Nothing is validated before
    /// the profile is compiled.
    pub fn with_weights(intent: StreamIntent, latency_weight: u8, resilience_weight: u8) -> (profile: Self)
        ensures
            profile@ == (ProfileSpec { intent, latency_weight, resilience_weight }),
    {
        Self { intent, latency_weight, resilience_weight }
    }

    /// Validates the profile and compiles it into a runtime configuration.
    ///
    /// A weight above 100 and a zero total are refused, the latency weight
    /// being tested first. Otherwise the result carries the declared values
    /// and the configuration identifier derived from them alone: the 64
    /// hexadecimal digits of the digest.
    pub fn compile(self) -> (result: Result<CompiledStreamProfile, ProfileError>)
        ensures
            match (result, compiled(self@)) {
                (Ok(profile), Ok(expected)) => profile@ == expected && profile.wf()
                    && profile@.config_id.len() == 64,
                (Err(error), Err(expected)) => error == expected,
                _ => false,
            },
    {
        if self.latency_weight > 100 {
            return Err(ProfileError::LatencyWeightOutOfRange);
        }
        if self.resilience_weight > 100 {
            return Err(ProfileError::ResilienceWeightOutOfRange);
        }
        if self.latency_weight == 0 && self.resilience_weight == 0 {
            return Err(ProfileError::ZeroTotalWeight);
        }
        let intent_code: u8 = match self.intent {
            StreamIntent::Auto => 0,
            StreamIntent::Realtime => 1,
            StreamIntent::Install => 2,
        };
        let mut message: Vec<u8> = Vec::new();
        message.push(self.latency_weight);
        message.push(self.resilience_weight);
        message.push(intent_code);
        assert(message@ =~= digest_input(self@));
        let digest = sha256_digest(&message);
        let config_id = hex_encode(&digest);
        Ok(
            CompiledStreamProfile {
                intent: self.intent,
                latency_weight: self.latency_weight,
                resilience_weight: self.resilience_weight,
                config_id,
            },
        )
    }

    /// Returns the declared intent of the profile.
    pub fn intent(&self) -> (intent: StreamIntent)
        ensures
            intent == self@.intent,
    {
        self.intent
    }
}

impl Default for StreamProfile {
    /// The default profile is the Auto profile.
    fn default() -> (profile: Self)
        ensures
            profile@ == (ProfileSpec {
                intent: StreamIntent::Auto,
                latency_weight: 50,
                resilience_weight: 50,
            }),
    {
        Self::auto()
    }
}

/// Deterministic representation of a validated stream profile.
#[derive(Debug, Clone)]
pub struct CompiledStreamProfile {
    intent: StreamIntent,
    latency_weight: u8,
    resilience_weight: u8,
    config_id: String,
}

impl View for CompiledStreamProfile {
    type V = CompiledSpec;

    closed spec fn view(&self) -> CompiledSpec {
        CompiledSpec {
            intent: self.intent,
            latency_weight: self.latency_weight,
            resilience_weight: self.resilience_weight,
            config_id: self.config_id@,
        }
    }
}

impl CompiledStreamProfile {
    /// The profile passed validation and its identifier is the one derived
    /// from its intent and weights, in 64 hexadecimal digits.
    pub open spec fn wf(&self) -> bool {
        &&& compiled(
            ProfileSpec {
                intent: self@.intent,
                latency_weight: self@.latency_weight,
                resilience_weight: self@.resilience_weight,
            },
        ) == Ok::<CompiledSpec, ProfileError>(self@)
        &&& self@.config_id.len() == 64
    }

    /// Returns the stable config ID representing this profile.
    pub fn config_id(&self) -> (id: &str)
        ensures
            id@ == self@.config_id,
    {
        self.config_id.as_str()
    }

    /// Latency weight applied by the runtime.
    pub fn latency_weight(&self) -> (weight: u8)
        ensures
            weight == self@.latency_weight,
    {
        self.latency_weight
    }

    /// Resilience weight applied by the runtime.
    pub fn resilience_weight(&self) -> (weight: u8)
        ensures
            weight == self@.resilience_weight,
    {
        self.resilience_weight
    }

    /// The intent that the profile was compiled from.
    pub fn intent(&self) -> (intent: StreamIntent)
        ensures
            intent == self@.intent,
    {
        self.intent
    }

    /// A copy of the profile.
    pub fn duplicate(&self) -> (copy: Self)
        ensures
            copy@ == self@,
    {
        Self {
            intent: self.intent,
            latency_weight: self.latency_weight,
            resilience_weight: self.resilience_weight,
            config_id: self.config_id.clone(),
        }
    }
}

} // verus!
