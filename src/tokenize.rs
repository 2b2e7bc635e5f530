//! The text side: loading the tokenizer and turning text into token ids.
use vstd::prelude::*;

use tokenizers::Tokenizer;

use crate::error::ClipError;

verus! {

#[verifier::external_type_specification]
#[verifier::external_body]
pub struct ExTokenizer(tokenizers::Tokenizer);

/// Whether `Tokenizer::from_bytes` accepts a tokenizer definition.
pub uninterp spec fn parses_as_tokenizer(json: Seq<u8>) -> bool;

/// The ids that `Tokenizer::encode` gives for a text under the tokenizer
/// parsed from `json`, or `None` where it fails.
pub uninterp spec fn encoding_of(json: Seq<u8>, text: Seq<char>, add_special_tokens: bool) -> Option<
    Seq<u32>,
>;

/// Whether the tokenizer parsed from `json` has a byte-pair model with a
/// dropout, under which `encode` draws random numbers.
pub uninterp spec fn uses_dropout(json: Seq<u8>) -> bool;

/// A tokenizer together with the definition it was parsed from.
struct Parsed {
    inner: Tokenizer,
    definition: Vec<u8>,
}

/// A tokenizer whose encoding depends on its definition and the text alone:
/// its definition draws no dropout.
pub struct ClipTokenizer {
    parsed: Parsed,
}

impl ClipTokenizer {
    #[verifier::type_invariant]
    spec fn inv(&self) -> bool {
        !uses_dropout(self.parsed.definition@)
    }

    /// The JSON definition the tokenizer was parsed from.
    pub closed spec fn definition(&self) -> Seq<u8> {
        self.parsed.definition@
    }
}

/// Relies on `Tokenizer::get_model`: whether the model is a byte-pair model
/// whose `dropout` is set.
#[verifier::external_body]
fn draws_dropout(parsed: &Parsed) -> (r: bool)
    ensures
        r == uses_dropout(parsed.definition@),
{
    match parsed.inner.get_model() {
        tokenizers::models::ModelWrapper::BPE(bpe) => bpe.dropout.is_some(),
        tokenizers::models::ModelWrapper::WordPiece(_) => false,
        tokenizers::models::ModelWrapper::WordLevel(_) => false,
        tokenizers::models::ModelWrapper::Unigram(_) => false,
    }
}

/// Relies on `Tokenizer::from_bytes`, which parses a tokenizer definition in
/// JSON; its error is handed on as its message.
#[verifier::external_body]
fn parse_tokenizer(json: &[u8]) -> (r: Result<Tokenizer, String>)
    ensures
        r is Ok <==> parses_as_tokenizer(json@),
{
    Tokenizer::from_bytes(json).map_err(|e| e.to_string())
}

/// Relies on `Tokenizer::encode` on a single sequence, read back through
/// `Encoding::get_ids`: without dropout the ids depend on the definition and
/// the text alone; its error is handed on as its message.
#[verifier::external_body]
fn encode_ids(tokenizer: &ClipTokenizer, text: &str, add_special_tokens: bool) -> (r: Result<
    Vec<u32>,
    String,
>)
    requires
        !uses_dropout(tokenizer.definition()),
    ensures
        r is Ok <==> encoding_of(tokenizer.definition(), text@, add_special_tokens) is Some,
        r matches Ok(ids) ==> encoding_of(tokenizer.definition(), text@, add_special_tokens)
            == Some(ids@),
{
    tokenizer.parsed.inner.encode(text, add_special_tokens).map(|enc| enc.get_ids().to_vec()).map_err(
        |e| e.to_string(),
    )
}

/// Loads a tokenizer from its JSON definition. A definition that does not
/// parse, or whose byte-pair model draws dropout (its encodings would be
/// random), is a `Construction` error.
pub fn get_tokenizer(json: Vec<u8>) -> (r: Result<ClipTokenizer, ClipError>)
    ensures
        r is Ok <==> parses_as_tokenizer(json@) && !uses_dropout(json@),
        r matches Ok(t) ==> t.definition() == json@,
        r matches Err(e) ==> e is Construction,
{
    let parsed = match parse_tokenizer(json.as_slice()) {
        Ok(t) => Parsed { inner: t, definition: json },
        Err(m) => return Err(ClipError::Construction(m)),
    };
    if draws_dropout(&parsed) {
        return Err(ClipError::Construction("the tokenizer draws dropout".to_string()));
    }
    Ok(ClipTokenizer { parsed })
}

/// The token ids of a text, with the tokenizer's special boundary tokens
/// added; a text the tokenizer rejects is a `Tokenization` error.
pub fn tokenize(tokenizer: &ClipTokenizer, text: &str) -> (r: Result<Vec<u32>, ClipError>)
    ensures
        r is Ok <==> encoding_of(tokenizer.definition(), text@, true) is Some,
        r matches Ok(ids) ==> encoding_of(tokenizer.definition(), text@, true) == Some(ids@),
        r matches Err(e) ==> e is Tokenization,
{
    proof {
        use_type_invariant(tokenizer);
    }
    match encode_ids(tokenizer, text, true) {
        Ok(ids) => Ok(ids),
        Err(m) => Err(ClipError::Tokenization(m)),
    }
}

/// Wraps a sequence of token ids as a batch of one row.
pub fn single_row_batch(ids: Vec<u32>) -> (r: Vec<Vec<u32>>)
    ensures
        r@.len() == 1,
        r@[0] == ids,
{
    let mut batch: Vec<Vec<u32>> = Vec::new();
    batch.push(ids);
    batch
}

} // verus!
