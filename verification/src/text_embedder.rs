//! Input preparation of the text embedding model: each text becomes a row of
//! token ids framed by `[CLS]` and `[SEP]`, with its attention mask.
//!
//! Words are split at white space and given ids by a multiplicative hash of
//! their UTF-8 bytes, mapped into the vocabulary range.

use vstd::prelude::*;
use vstd::string::StringSliceAdditionalSpecFns;
use vstd::wrapping::u64_specs::{wrapping_add, wrapping_mul};
use crate::diluted::{words_of, split_words};

verus! {

/// Id of the `[CLS]` token that opens every row.
pub const CLS_TOKEN_ID: i64 = 101;

/// Id of the `[SEP]` token that closes the words of a row.
pub const SEP_TOKEN_ID: i64 = 102;

/// Number of ids that word hashes are mapped onto.
pub const VOCAB_RANGE: u64 = 30000;

/// Smallest id given to a word.
pub const FIRST_WORD_ID: i64 = 1000;

/// The model inputs of a batch of texts, one row per text.
#[derive(Debug, Clone)]
pub struct TokenizedBatch {
    /// Token ids, `max_seq_length` per row.
    pub input_ids: Vec<Vec<i64>>,
    /// 1 where a token stands, 0 on padding.
    pub attention_mask: Vec<Vec<i64>>,
    /// Segment ids: all 0.
    pub token_type_ids: Vec<Vec<i64>>,
}

/// The hash of a word's bytes: `h * 31 + b` over the bytes, wrapping at 2^64.
pub open spec fn token_hash(b: Seq<u8>) -> u64
    decreases b.len(),
{
    if b.len() == 0 {
        0
    } else {
        wrapping_add(wrapping_mul(token_hash(b.drop_last()), 31), b.last() as u64)
    }
}

/// The id of a word: its hash mapped into `[1000, 31000)`.
pub open spec fn token_id(w: Seq<char>) -> i64 {
    ((token_hash(vstd::utf8::encode_utf8(w)) % (VOCAB_RANGE as u64)) + FIRST_WORD_ID) as i64
}

/// How many words of a text fit in a row of `max_len` ids.
pub open spec fn kept_words(n_words: int, max_len: int) -> int {
    if n_words < max_len - 2 {
        n_words
    } else {
        max_len - 2
    }
}

/// The id row of a text with words `ws`: `[CLS]`, the ids of the words that
/// fit, `[SEP]`, then zeros up to `max_len`.
pub open spec fn id_row(ws: Seq<Seq<char>>, max_len: int) -> Seq<i64> {
    let n = kept_words(ws.len() as int, max_len);
    Seq::new(max_len as nat, |j: int|
        if j == 0 {
            CLS_TOKEN_ID
        } else if j <= n {
            token_id(ws[j - 1])
        } else if j == n + 1 {
            SEP_TOKEN_ID
        } else {
            0i64
        })
}

/// The attention mask of a text with `n_words` words: 1 on `[CLS]`, the kept
/// words and `[SEP]`, 0 after.
pub open spec fn mask_row(n_words: int, max_len: int) -> Seq<i64> {
    let n = kept_words(n_words, max_len);
    Seq::new(max_len as nat, |j: int| if j <= n + 1 { 1i64 } else { 0i64 })
}

/// The id of one word (`[1000, 31000)`).
pub fn simple_token_id(token: &str) -> (id: i64)
    ensures
        id == token_id(token@),
        FIRST_WORD_ID <= id < FIRST_WORD_ID + VOCAB_RANGE,
{
    let bytes = token.as_bytes();
    let mut h: u64 = 0;
    let mut i: usize = 0;
    proof {
        assert(bytes@.take(0) =~= Seq::<u8>::empty());
    }
    while i < bytes.len()
        invariant
            bytes@ == token.spec_bytes(),
            i <= bytes@.len(),
            h == token_hash(bytes@.take(i as int)),
        decreases bytes@.len() - i,
    {
        proof {
            assert(bytes@.take(i + 1).drop_last() =~= bytes@.take(i as int));
            assert(bytes@.take(i + 1).last() == bytes@[i as int]);
        }
        h = h.wrapping_mul(31).wrapping_add(bytes[i] as u64);
        i = i + 1;
    }
    proof {
        assert(bytes@.take(bytes@.len() as int) =~= bytes@);
    }
    let r = (h % VOCAB_RANGE) as i64;
    r + FIRST_WORD_ID
}

/// The rows of one text: ids, attention mask and segment ids.
fn tokenize_one(text: &str, max_len: usize) -> (r: (Vec<i64>, Vec<i64>, Vec<i64>))
    requires
        text.spec_bytes().len() <= usize::MAX,
        max_len >= 2,
    ensures
        r.0@ == id_row(words_of(text@), max_len as int),
        r.1@ == mask_row(words_of(text@).len() as int, max_len as int),
        r.2@ == Seq::new(max_len as nat, |j: int| 0i64),
{
    let words = split_words(text);
    let n: usize = if words.len() < max_len - 2 { words.len() } else { max_len - 2 };
    let ghost ws = words_of(text@);
    let mut ids: Vec<i64> = Vec::new();
    let mut mask: Vec<i64> = Vec::new();
    let mut types: Vec<i64> = Vec::new();
    let mut j: usize = 0;
    while j < max_len
        invariant
            words@.len() == ws.len(),
            forall|k: int| 0 <= k < words@.len() ==> (#[trigger] words@[k])@ == ws[k],
            n == kept_words(ws.len() as int, max_len as int),
            n <= words@.len(),
            j <= max_len,
            ids@.len() == j,
            mask@.len() == j,
            types@.len() == j,
            forall|k: int| 0 <= k < j ==> #[trigger] ids@[k] == id_row(ws, max_len as int)[k],
            forall|k: int| 0 <= k < j ==> #[trigger] mask@[k] == mask_row(ws.len() as int, max_len as int)[k],
            forall|k: int| 0 <= k < j ==> #[trigger] types@[k] == 0i64,
        decreases max_len - j,
    {
        if j == 0 {
            ids.push(CLS_TOKEN_ID);
            mask.push(1);
        } else if j <= n {
            let id = simple_token_id(words[j - 1].as_str());
            ids.push(id);
            mask.push(1);
        } else if j == n + 1 {
            ids.push(SEP_TOKEN_ID);
            mask.push(1);
        } else {
            ids.push(0);
            mask.push(0);
        }
        types.push(0);
        j = j + 1;
    }
    proof {
        assert(ids@ =~= id_row(ws, max_len as int));
        assert(mask@ =~= mask_row(ws.len() as int, max_len as int));
        assert(types@ =~= Seq::new(max_len as nat, |j: int| 0i64));
    }
    (ids, mask, types)
}

/// The model inputs of a batch of texts, each row `max_seq_length` long.
pub fn tokenize_batch(texts: &[&str], max_seq_length: usize) -> (b: TokenizedBatch)
    requires
        texts@.len() == 0 || max_seq_length >= 2,
        forall|i: int| 0 <= i < texts@.len() ==> (#[trigger] texts@[i]).spec_bytes().len() <= usize::MAX,
    ensures
        b.input_ids@.len() == texts@.len(),
        b.attention_mask@.len() == texts@.len(),
        b.token_type_ids@.len() == texts@.len(),
        forall|i: int| 0 <= i < texts@.len() ==> (#[trigger] b.input_ids@[i])@ == id_row(words_of(texts@[i]@), max_seq_length as int),
        forall|i: int| 0 <= i < texts@.len() ==> (#[trigger] b.attention_mask@[i])@ == mask_row(words_of(texts@[i]@).len() as int, max_seq_length as int),
        forall|i: int| 0 <= i < texts@.len() ==> (#[trigger] b.token_type_ids@[i])@ == Seq::new(max_seq_length as nat, |j: int| 0i64),
{
    let mut input_ids: Vec<Vec<i64>> = Vec::new();
    let mut attention_mask: Vec<Vec<i64>> = Vec::new();
    let mut token_type_ids: Vec<Vec<i64>> = Vec::new();
    let mut i: usize = 0;
    while i < texts.len()
        invariant
            texts@.len() == 0 || max_seq_length >= 2,
            forall|k: int| 0 <= k < texts@.len() ==> (#[trigger] texts@[k]).spec_bytes().len() <= usize::MAX,
            i <= texts@.len(),
            input_ids@.len() == i,
            attention_mask@.len() == i,
            token_type_ids@.len() == i,
            forall|k: int| 0 <= k < i ==> (#[trigger] input_ids@[k])@ == id_row(words_of(texts@[k]@), max_seq_length as int),
            forall|k: int| 0 <= k < i ==> (#[trigger] attention_mask@[k])@ == mask_row(words_of(texts@[k]@).len() as int, max_seq_length as int),
            forall|k: int| 0 <= k < i ==> (#[trigger] token_type_ids@[k])@ == Seq::new(max_seq_length as nat, |j: int| 0i64),
        decreases texts@.len() - i,
    {
        let (ids, mask, types) = tokenize_one(texts[i], max_seq_length);
        input_ids.push(ids);
        attention_mask.push(mask);
        token_type_ids.push(types);
        i = i + 1;
    }
    TokenizedBatch { input_ids, attention_mask, token_type_ids }
}

} // verus!
