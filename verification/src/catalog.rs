//! The variant catalog: a pure lookup from (language, precision) to the
//! remote repository identifier and the four asset file names.
//!
//! Every asset file name is the role's stem — which the language alone
//! decides, through the training epoch count embedded in it — followed by a
//! quantization suffix, which the precision alone decides for that role. The
//! tokens file is the same for every variant.

use vstd::prelude::*;
use crate::variant::Language;
use crate::variant::Precision;

verus! {

/// The four asset file names of one model variant: the encoder, decoder and
/// joiner weights and the vocabulary file.
pub struct AssetFileSet {
    pub encoder: String,
    pub decoder: String,
    pub joiner: String,
    pub tokens: String,
}

/// The remote repository that holds a language's assets.
pub open spec fn spec_repo_id(l: Language) -> Seq<char> {
    match l {
        Language::Ja => "reazon-research/reazonspeech-k2-v2"@,
        Language::JaEn => "reazon-research/reazonspeech-k2-v2-ja-en"@,
        Language::JaEnMls5k => "reazon-research/reazonspeech-k2-v2-ja-en-mls-5k-corrected"@,
    }
}

/// The decimal digits of a language's training epoch count. The count is a
/// training artifact of each model family and must match the remote file
/// names exactly.
pub open spec fn spec_epoch_digits(l: Language) -> Seq<char> {
    match l {
        Language::Ja => "99"@,
        Language::JaEn => "35"@,
        Language::JaEnMls5k => "21"@,
    }
}

/// The encoder file name without its quantization suffix.
pub open spec fn spec_encoder_stem(l: Language) -> Seq<char> {
    "encoder-epoch-"@ + spec_epoch_digits(l) + "-avg-1"@
}

/// The decoder file name without its quantization suffix.
pub open spec fn spec_decoder_stem(l: Language) -> Seq<char> {
    "decoder-epoch-"@ + spec_epoch_digits(l) + "-avg-1"@
}

/// The joiner file name without its quantization suffix.
pub open spec fn spec_joiner_stem(l: Language) -> Seq<char> {
    "joiner-epoch-"@ + spec_epoch_digits(l) + "-avg-1"@
}

/// The encoder's suffix: quantized except at full precision.
pub open spec fn spec_encoder_suffix(p: Precision) -> Seq<char> {
    match p {
        Precision::Fp32 => ".onnx"@,
        Precision::Int8 => ".int8.onnx"@,
        Precision::Int8Fp32 => ".int8.onnx"@,
    }
}

/// The decoder's suffix: quantized only at full Int8 precision — under
/// `Int8Fp32` the decoder stays at full precision.
pub open spec fn spec_decoder_suffix(p: Precision) -> Seq<char> {
    match p {
        Precision::Fp32 => ".onnx"@,
        Precision::Int8 => ".int8.onnx"@,
        Precision::Int8Fp32 => ".onnx"@,
    }
}

/// The joiner's suffix: quantized except at full precision.
pub open spec fn spec_joiner_suffix(p: Precision) -> Seq<char> {
    match p {
        Precision::Fp32 => ".onnx"@,
        Precision::Int8 => ".int8.onnx"@,
        Precision::Int8Fp32 => ".int8.onnx"@,
    }
}

/// The vocabulary file name, the same for every variant.
pub open spec fn spec_tokens_name() -> Seq<char> {
    "tokens.txt"@
}

pub open spec fn spec_encoder_name(l: Language, p: Precision) -> Seq<char> {
    spec_encoder_stem(l) + spec_encoder_suffix(p)
}

pub open spec fn spec_decoder_name(l: Language, p: Precision) -> Seq<char> {
    spec_decoder_stem(l) + spec_decoder_suffix(p)
}

pub open spec fn spec_joiner_name(l: Language, p: Precision) -> Seq<char> {
    spec_joiner_stem(l) + spec_joiner_suffix(p)
}

/// The epoch digits of a language, as a string slice.
fn epoch_digits(l: Language) -> (r: &'static str)
    ensures
        r@ == spec_epoch_digits(l),
{
    match l {
        Language::Ja => "99",
        Language::JaEn => "35",
        Language::JaEnMls5k => "21",
    }
}

/// One asset file name: the role's prefix, the epoch digits, the averaging
/// tag, and the role's quantization suffix.
fn file_name(prefix: &str, l: Language, suffix: &str) -> (r: String)
    ensures
        r@ == prefix@ + spec_epoch_digits(l) + "-avg-1"@ + suffix@,
{
    String::from_str(prefix).concat(epoch_digits(l)).concat("-avg-1").concat(suffix)
}

/// Resolves a variant to its repository identifier and its four asset file
/// names. Total over both enumerations: every variant resolves, and the
/// result is a function of the variant alone.
pub fn resolve(language: Language, precision: Precision) -> (r: (String, AssetFileSet))
    ensures
        r.0@ == spec_repo_id(language),
        r.1.encoder@ == spec_encoder_name(language, precision),
        r.1.decoder@ == spec_decoder_name(language, precision),
        r.1.joiner@ == spec_joiner_name(language, precision),
        r.1.tokens@ == spec_tokens_name(),
{
    let repo_id = match language {
        Language::Ja => String::from_str("reazon-research/reazonspeech-k2-v2"),
        Language::JaEn => String::from_str("reazon-research/reazonspeech-k2-v2-ja-en"),
        Language::JaEnMls5k => String::from_str(
            "reazon-research/reazonspeech-k2-v2-ja-en-mls-5k-corrected",
        ),
    };
    let encoder_suffix = match precision {
        Precision::Fp32 => ".onnx",
        Precision::Int8 => ".int8.onnx",
        Precision::Int8Fp32 => ".int8.onnx",
    };
    let decoder_suffix = match precision {
        Precision::Fp32 => ".onnx",
        Precision::Int8 => ".int8.onnx",
        Precision::Int8Fp32 => ".onnx",
    };
    let joiner_suffix = match precision {
        Precision::Fp32 => ".onnx",
        Precision::Int8 => ".int8.onnx",
        Precision::Int8Fp32 => ".int8.onnx",
    };
    let files = AssetFileSet {
        encoder: file_name("encoder-epoch-", language, encoder_suffix),
        decoder: file_name("decoder-epoch-", language, decoder_suffix),
        joiner: file_name("joiner-epoch-", language, joiner_suffix),
        tokens: String::from_str("tokens.txt"),
    };
    (repo_id, files)
}

/// Precision touches only the quantization suffixes: the repository
/// identifier, the epoch digits and every file-name stem are functions of
/// the language alone, and the vocabulary file name is constant; two
/// precisions differ only in the suffix appended to each stem.
pub proof fn lemma_precision_affects_only_suffix(l: Language, p1: Precision, p2: Precision)
    ensures
        spec_encoder_name(l, p1) == spec_encoder_stem(l) + spec_encoder_suffix(p1),
        spec_encoder_name(l, p2) == spec_encoder_stem(l) + spec_encoder_suffix(p2),
        spec_decoder_name(l, p1) == spec_decoder_stem(l) + spec_decoder_suffix(p1),
        spec_decoder_name(l, p2) == spec_decoder_stem(l) + spec_decoder_suffix(p2),
        spec_joiner_name(l, p1) == spec_joiner_stem(l) + spec_joiner_suffix(p1),
        spec_joiner_name(l, p2) == spec_joiner_stem(l) + spec_joiner_suffix(p2),
{
}

/// Language touches only the repository identifier and the epoch digits in
/// the stems: two languages at one precision share every quantization suffix
/// and the vocabulary file name.
pub proof fn lemma_language_affects_only_stem(l1: Language, l2: Language, p: Precision)
    ensures
        spec_encoder_name(l1, p) == spec_encoder_stem(l1) + spec_encoder_suffix(p),
        spec_encoder_name(l2, p) == spec_encoder_stem(l2) + spec_encoder_suffix(p),
        spec_decoder_name(l1, p) == spec_decoder_stem(l1) + spec_decoder_suffix(p),
        spec_decoder_name(l2, p) == spec_decoder_stem(l2) + spec_decoder_suffix(p),
        spec_joiner_name(l1, p) == spec_joiner_stem(l1) + spec_joiner_suffix(p),
        spec_joiner_name(l2, p) == spec_joiner_stem(l2) + spec_joiner_suffix(p),
{
}

} // verus!
