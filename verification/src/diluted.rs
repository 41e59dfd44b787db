//! Diluted attention for long documents: a document longer than the model's
//! sequence limit is cut into overlapping windows of words, and each window is
//! given a sample of the whole document as global context.
//!
//! The overlap between windows is held in thousandths of a window
//! (`overlap_permille`), so that the window arithmetic is exact.

use vstd::prelude::*;
use vstd::string::StringSliceAdditionalSpecFns;
use crate::text::{is_ws, is_whitespace, chars_of, string_from_chars, byte_len, utf8_len, char_len};

verus! {

/// Settings of the diluted attention processor.
#[derive(Debug, Clone, Copy)]
pub struct DilutedAttentionConfig {
    /// Words per window.
    pub window_size: usize,
    /// Every `dilution_factor`-th word is sampled for the global context.
    pub dilution_factor: usize,
    /// The longest document, in words, that is processed as a single window
    /// (when it also fits in `window_size` words).
    pub max_seq_length: usize,
    /// Overlap of consecutive windows, in thousandths of a window (500 is half).
    pub overlap_permille: u32,
    /// The most words of global context.
    pub max_global_context: usize,
}

impl Default for DilutedAttentionConfig {
    fn default() -> (c: Self)
        ensures
            c.window_size == 256,
            c.dilution_factor == 8,
            c.max_seq_length == 512,
            c.overlap_permille == 500,
            c.max_global_context == 128,
    {
        DilutedAttentionConfig {
            window_size: 256,
            dilution_factor: 8,
            max_seq_length: 512,
            overlap_permille: 500,
            max_global_context: 128,
        }
    }
}

/// A token of a processed window.
#[derive(Debug, PartialEq, Eq)]
pub enum Token {
    /// Start of sequence.
    CLS,
    /// Separator.
    SEP,
    /// A word.
    Word(String),
    /// Padding.
    PAD,
}

/// A token as a mathematical value.
pub enum TokenV {
    Cls,
    Sep,
    Word(Seq<char>),
    Pad,
}

/// The value of a token.
pub open spec fn tv(t: Token) -> TokenV {
    match t {
        Token::CLS => TokenV::Cls,
        Token::SEP => TokenV::Sep,
        Token::Word(s) => TokenV::Word(s@),
        Token::PAD => TokenV::Pad,
    }
}

/// The values of a list of tokens.
pub open spec fn tvs(s: Seq<Token>) -> Seq<TokenV> {
    s.map_values(|t: Token| tv(t))
}

/// The text a token stands for.
pub open spec fn token_text(t: TokenV) -> Seq<char> {
    match t {
        TokenV::Cls => seq!['[', 'C', 'L', 'S', ']'],
        TokenV::Sep => seq!['[', 'S', 'E', 'P', ']'],
        TokenV::Word(s) => s,
        TokenV::Pad => seq!['[', 'P', 'A', 'D', ']'],
    }
}

impl Clone for Token {
    fn clone(&self) -> (r: Self)
        ensures
            tv(r) == tv(*self),
    {
        match self {
            Token::CLS => Token::CLS,
            Token::SEP => Token::SEP,
            Token::Word(s) => Token::Word(s.clone()),
            Token::PAD => Token::PAD,
        }
    }
}

impl Token {
    /// The token's text: the word, or `[CLS]`, `[SEP]`, `[PAD]`.
    pub fn as_str(&self) -> (r: &str)
        ensures
            r@ == token_text(tv(*self)),
    {
        proof {
            reveal_strlit("[CLS]");
            reveal_strlit("[SEP]");
            reveal_strlit("[PAD]");
        }
        match self {
            Token::CLS => "[CLS]",
            Token::SEP => "[SEP]",
            Token::Word(s) => s.as_str(),
            Token::PAD => "[PAD]",
        }
    }
}

/// The character ranges `[start, end)` of the words of `s`: the maximal runs
/// of non-white-space characters, in order (what `str::split_whitespace`
/// yields).
pub open spec fn word_spans(s: Seq<char>) -> Seq<(int, int)>
    decreases s.len(),
{
    if s.len() == 0 {
        Seq::empty()
    } else {
        let w = word_spans(s.drop_last());
        let i = s.len() - 1;
        if is_ws(s[i]) {
            w
        } else if i > 0 && !is_ws(s[i - 1]) {
            w.drop_last().push((w.last().0, s.len() as int))
        } else {
            w.push((i, s.len() as int))
        }
    }
}

/// The words of `s`.
pub open spec fn words_of(s: Seq<char>) -> Seq<Seq<char>> {
    word_spans(s).map_values(|p: (int, int)| s.subrange(p.0, p.1))
}

/// The byte ranges `[start, end)` of the words of `s` in its UTF-8 text.
pub open spec fn byte_spans(s: Seq<char>) -> Seq<(int, int)> {
    word_spans(s).map_values(|p: (int, int)| (byte_len(s.take(p.0)) as int, byte_len(s.take(p.1)) as int))
}

/// The tokens of `s`: one word token per word.
pub open spec fn word_tokens(s: Seq<char>) -> Seq<TokenV> {
    words_of(s).map_values(|w: Seq<char>| TokenV::Word(w))
}

/// A list of index pairs as integers.
pub open spec fn pairs(v: Seq<(usize, usize)>) -> Seq<(int, int)> {
    v.map_values(|p: (usize, usize)| (p.0 as int, p.1 as int))
}

/// The spans of a text lie inside it, in increasing order, apart from each
/// other, and each covers only non-white-space characters; when the text
/// ends in a word, the last span ends there.
pub proof fn lemma_word_spans(s: Seq<char>)
    ensures
        forall|k: int| 0 <= k < word_spans(s).len() ==> 0 <= #[trigger] word_spans(s)[k].0 < word_spans(s)[k].1 <= s.len(),
        forall|k: int, l: int| 0 <= k < l < word_spans(s).len() ==> #[trigger] word_spans(s)[k].1 < #[trigger] word_spans(s)[l].0,
        s.len() > 0 && !is_ws(s.last()) ==> word_spans(s).len() > 0 && word_spans(s).last().1 == s.len(),
        s.len() > 0 && is_ws(s.last()) ==> word_spans(s).len() == 0 || word_spans(s).last().1 < s.len(),
    decreases s.len(),
{
    if s.len() > 0 {
        let p = s.drop_last();
        lemma_word_spans(p);
        if p.len() > 0 {
            assert(p.last() == s[s.len() - 2]);
        }
    }
}

/// Scans `content` once: its characters, the character ranges of its words and
/// their byte ranges.
fn scan(content: &str) -> (r: (Vec<char>, Vec<(usize, usize)>, Vec<(usize, usize)>))
    requires
        content.spec_bytes().len() <= usize::MAX,
    ensures
        r.0@ == content@,
        pairs(r.1@) == word_spans(content@),
        pairs(r.2@) == byte_spans(content@),
{
    let v = chars_of(content);
    let mut sc: Vec<(usize, usize)> = Vec::new();
    let mut sb: Vec<(usize, usize)> = Vec::new();
    let mut b: usize = 0;
    let mut i: usize = 0;
    proof {
        crate::text::lemma_byte_len_encode(content@);
        assert(v@.take(0) =~= Seq::<char>::empty());
    }
    while i < v.len()
        invariant
            v@ == content@,
            byte_len(v@) <= usize::MAX,
            i <= v@.len(),
            b == byte_len(v@.take(i as int)),
            pairs(sc@) == word_spans(v@.take(i as int)),
            sb@.len() == sc@.len(),
            forall|k: int| 0 <= k < sb@.len() ==> (#[trigger] sb@[k]).0 == byte_len(v@.take(sc@[k].0 as int)) && sb@[k].1 == byte_len(v@.take(sc@[k].1 as int)),
        decreases v@.len() - i,
    {
        let c = v[i];
        let n = char_len(c);
        let ghost pre = v@.take(i as int);
        let ghost post = v@.take(i + 1);
        proof {
            assert(post.drop_last() =~= pre);
            assert(post.last() == c);
            crate::text::lemma_byte_len_bounds(v@, i + 1);
            lemma_word_spans(pre);
            if i > 0 {
                assert(pre.last() == v@[i - 1]);
            }
        }
        if !is_whitespace(c) {
            if i > 0 && !is_whitespace(v[i - 1]) {
                let last = sc.len() - 1;
                let (a, _e) = sc[last];
                let (ba, _be) = sb[last];
                sc.set(last, (a, i + 1));
                sb.set(last, (ba, b + n));
                proof {
                    assert(pairs(sc@) =~= word_spans(post));
                }
            } else {
                sc.push((i, i + 1));
                sb.push((b, b + n));
                proof {
                    assert(pairs(sc@) =~= word_spans(post));
                }
            }
        } else {
            proof {
                assert(pairs(sc@) =~= word_spans(post));
            }
        }
        b = b + n;
        i = i + 1;
    }
    proof {
        assert(v@.take(v@.len() as int) =~= v@);
        assert(pairs(sb@) =~= byte_spans(content@));
    }
    (v, sc, sb)
}


/// The words of `content`, split at white space (`str::split_whitespace`).
pub(crate) fn split_words(content: &str) -> (r: Vec<String>)
    requires
        content.spec_bytes().len() <= usize::MAX,
    ensures
        r@.len() == words_of(content@).len(),
        forall|j: int| 0 <= j < r@.len() ==> (#[trigger] r@[j])@ == words_of(content@)[j],
{
    let (v, sc, _sb) = scan(content);
    let mut r: Vec<String> = Vec::new();
    let mut k: usize = 0;
    proof {
        lemma_word_spans(content@);
    }
    while k < sc.len()
        invariant
            v@ == content@,
            pairs(sc@) == word_spans(content@),
            forall|j: int| 0 <= j < word_spans(content@).len() ==> 0 <= #[trigger] word_spans(content@)[j].0 < word_spans(content@)[j].1 <= content@.len(),
            k <= sc@.len(),
            r@.len() == k,
            forall|j: int| 0 <= j < k ==> (#[trigger] r@[j])@ == words_of(content@)[j],
        decreases sc@.len() - k,
    {
        let (a, e) = sc[k];
        proof {
            assert(pairs(sc@)[k as int] == word_spans(content@)[k as int]);
        }
        let w = string_from_chars(vstd::slice::slice_subrange(v.as_slice(), a, e));
        r.push(w);
        k = k + 1;
    }
    r
}

/// `n / d` rounded up.
pub open spec fn ceil_div(n: int, d: int) -> int {
    (n + d - 1) / d
}

/// `k * d < n <= (k + 1) * d` places `k + 1` as the rounded-up quotient.
pub proof fn lemma_ceil_div(n: int, d: int, k: int)
    requires
        d > 0,
        k >= 0,
        n >= 0,
    ensures
        k * d < n ==> k + 1 <= ceil_div(n, d),
        n <= (k + 1) * d ==> ceil_div(n, d) <= k + 1,
        n <= k * d ==> ceil_div(n, d) <= k,
{
    assert(k * d < n ==> k + 1 <= (n + d - 1) / d) by (nonlinear_arith)
        requires d > 0, k >= 0, n >= 0;
    assert(n <= (k + 1) * d ==> (n + d - 1) / d <= k + 1) by (nonlinear_arith)
        requires d > 0, k >= 0, n >= 0;
    assert(n <= k * d ==> (n + d - 1) / d <= k) by (nonlinear_arith)
        requires d > 0, k >= 0, n >= 0;
}

/// The words kept as global context: every `d`-th token from the first, at
/// most `m` of them.
pub open spec fn global_sample(ts: Seq<TokenV>, d: int, m: int) -> Seq<TokenV> {
    let count = if m < ceil_div(ts.len() as int, d) { m } else { ceil_div(ts.len() as int, d) };
    Seq::new(count as nat, |j: int| ts[j * d])
}

/// `[CLS]`, at most `m` global tokens, `[SEP]`, the window, `[SEP]`.
pub open spec fn combined(local: Seq<TokenV>, global: Seq<TokenV>, m: int) -> Seq<TokenV> {
    let g = if global.len() <= m { global } else { global.take(m) };
    seq![TokenV::Cls] + g + seq![TokenV::Sep] + local + seq![TokenV::Sep]
}

/// Texts joined with one space between them.
pub open spec fn join_space(ws: Seq<Seq<char>>) -> Seq<char>
    decreases ws.len(),
{
    if ws.len() == 0 {
        Seq::empty()
    } else if ws.len() == 1 {
        ws[0]
    } else {
        join_space(ws.drop_last()) + seq![' '] + ws.last()
    }
}

/// The words among the tokens, in order.
pub open spec fn word_texts(ts: Seq<TokenV>) -> Seq<Seq<char>>
    decreases ts.len(),
{
    if ts.len() == 0 {
        Seq::empty()
    } else {
        match ts.last() {
            TokenV::Word(w) => word_texts(ts.drop_last()).push(w),
            _ => word_texts(ts.drop_last()),
        }
    }
}

/// The words of the tokens joined with spaces; other tokens are left out.
pub open spec fn detokenized(ts: Seq<TokenV>) -> Seq<char> {
    join_space(word_texts(ts))
}

/// The text of every token joined with spaces.
pub open spec fn token_line(ts: Seq<TokenV>) -> Seq<char> {
    join_space(ts.map_values(|t: TokenV| token_text(t)))
}

/// How far a window moves: the window size less the overlap, at least one.
pub open spec fn step_of(c: DilutedAttentionConfig) -> int {
    let overlap = (c.window_size as int) * (c.overlap_permille as int) / 1000;
    if c.window_size > overlap {
        c.window_size - overlap
    } else {
        1
    }
}

/// Appends the characters of `s`.
pub(crate) fn append_text(out: &mut Vec<char>, s: &str)
    ensures
        final(out)@ == old(out)@ + s@,
{
    append_str(out, s)
}

/// Appends the characters of `s`.
fn append_str(out: &mut Vec<char>, s: &str)
    ensures
        final(out)@ == old(out)@ + s@,
{
    let v = chars_of(s);
    let ghost start = out@;
    let mut i: usize = 0;
    while i < v.len()
        invariant
            v@ == s@,
            i <= v@.len(),
            out@ == start + v@.take(i as int),
        decreases v@.len() - i,
    {
        out.push(v[i]);
        proof {
            assert(v@.take(i + 1) =~= v@.take(i as int).push(v@[i as int]));
        }
        i = i + 1;
    }
    proof {
        assert(v@.take(v@.len() as int) =~= v@);
    }
}

/// Appends copies of the first `limit` tokens of `src` (all of them when
/// there are fewer).
fn push_clones(r: &mut Vec<Token>, src: &[Token], limit: usize)
    ensures
        tvs(final(r)@) == tvs(old(r)@) + tvs(src@).take(
            if src@.len() <= limit { src@.len() as int } else { limit as int },
        ),
{
    let ghost start = r@;
    let mut i: usize = 0;
    while i < src.len() && i < limit
        invariant
            i <= src@.len(),
            i <= limit,
            r@.len() == start.len() + i,
            forall|j: int| 0 <= j < start.len() ==> r@[j] == start[j],
            forall|j: int| 0 <= j < i ==> tv(#[trigger] r@[start.len() + j]) == tv(src@[j]),
        decreases src@.len() - i,
    {
        let t = src[i].clone();
        r.push(t);
        i = i + 1;
    }
    proof {
        let cnt = if src@.len() <= limit { src@.len() as int } else { limit as int };
        assert(i == cnt);
        assert forall|k: int| 0 <= k < r@.len() implies tvs(r@)[k] == (tvs(start) + tvs(src@).take(cnt))[k] by {
            if k >= start.len() {
                let j = k - start.len();
                assert(tv(r@[start.len() + j]) == tv(src@[j]));
            }
        }
        assert(tvs(r@) =~= tvs(start) + tvs(src@).take(cnt));
    }
}

/// Copies of the tokens.
fn clone_tokens(s: &[Token]) -> (r: Vec<Token>)
    ensures
        tvs(r@) == tvs(s@),
{
    let mut r: Vec<Token> = Vec::new();
    push_clones(&mut r, s, s.len());
    proof {
        assert(tvs(s@).take(s@.len() as int) =~= tvs(s@));
        assert(tvs(Seq::<Token>::empty()) =~= Seq::<TokenV>::empty());
        assert(tvs(r@) =~= tvs(s@));
    }
    r
}

/// The processor: cuts documents into windows with global context.
pub struct DilutedAttentionProcessor {
    config: DilutedAttentionConfig,
}

impl DilutedAttentionProcessor {
    /// The processor's settings.
    pub closed spec fn spec_config(&self) -> DilutedAttentionConfig {
        self.config
    }

    /// A processor with the given settings.
    pub fn new(config: DilutedAttentionConfig) -> (p: Self)
        ensures
            p.spec_config() == config,
    {
        DilutedAttentionProcessor { config }
    }

    /// A processor with the default settings.
    pub fn with_defaults() -> (p: Self)
        ensures
            p.spec_config().window_size == 256,
            p.spec_config().dilution_factor == 8,
            p.spec_config().max_seq_length == 512,
            p.spec_config().overlap_permille == 500,
            p.spec_config().max_global_context == 128,
    {
        Self::new(DilutedAttentionConfig::default())
    }

    /// The settings.
    pub fn config(&self) -> (c: &DilutedAttentionConfig)
        ensures
            *c == self.spec_config(),
    {
        &self.config
    }

    /// The words of `content`, split at white space, as word tokens.
    pub fn tokenize(&self, content: &str) -> (r: Vec<Token>)
        requires
            content.spec_bytes().len() <= usize::MAX,
        ensures
            tvs(r@) == word_tokens(content@),
    {
        let (v, sc, _sb) = scan(content);
        let mut r: Vec<Token> = Vec::new();
        let mut k: usize = 0;
        proof {
            lemma_word_spans(content@);
        }
        while k < sc.len()
            invariant
                v@ == content@,
                pairs(sc@) == word_spans(content@),
                forall|j: int| 0 <= j < word_spans(content@).len() ==> 0 <= #[trigger] word_spans(content@)[j].0 < word_spans(content@)[j].1 <= content@.len(),
                k <= sc@.len(),
                r@.len() == k,
                forall|j: int| 0 <= j < k ==> tv(#[trigger] r@[j]) == word_tokens(content@)[j],
            decreases sc@.len() - k,
        {
            let (a, e) = sc[k];
            proof {
                assert(pairs(sc@)[k as int] == word_spans(content@)[k as int]);
            }
            let w = string_from_chars(vstd::slice::slice_subrange(v.as_slice(), a, e));
            proof {
                assert(w@ == words_of(content@)[k as int]);
            }
            r.push(Token::Word(w));
            k = k + 1;
        }
        proof {
            assert(tvs(r@) =~= word_tokens(content@));
        }
        r
    }

    /// The words among `tokens`, joined with single spaces.
    pub fn detokenize(&self, tokens: &[Token]) -> (r: String)
        ensures
            r@ == detokenized(tvs(tokens@)),
    {
        let mut out: Vec<char> = Vec::new();
        let mut count: usize = 0;
        let mut i: usize = 0;
        while i < tokens.len()
            invariant
                i <= tokens@.len(),
                count <= i,
                count == word_texts(tvs(tokens@.take(i as int))).len(),
                out@ == join_space(word_texts(tvs(tokens@.take(i as int)))),
            decreases tokens@.len() - i,
        {
            let ghost pre = tvs(tokens@.take(i as int));
            proof {
                assert(tvs(tokens@.take(i + 1)).drop_last() =~= pre);
                assert(tvs(tokens@.take(i + 1)).last() == tv(tokens@[i as int]));
            }
            match &tokens[i] {
                Token::Word(s) => {
                    if count > 0 {
                        out.push(' ');
                    }
                    append_str(&mut out, s.as_str());
                    count = count + 1;
                    proof {
                        let ws = word_texts(pre).push(s@);
                        assert(ws.drop_last() =~= word_texts(pre));
                    }
                },
                _ => {},
            }
            i = i + 1;
        }
        proof {
            assert(tokens@.take(tokens@.len() as int) =~= tokens@);
        }
        string_from_chars(out.as_slice())
    }

    /// Whether `content` has more words than one window may hold.
    pub fn needs_diluted_processing(&self, content: &str) -> (r: bool)
        requires
            content.spec_bytes().len() <= usize::MAX,
        ensures
            r == (words_of(content@).len() > self.spec_config().max_seq_length),
    {
        let tokens = self.tokenize(content);
        proof {
            assert(tvs(tokens@).len() == tokens@.len());
        }
        tokens.len() > self.config.max_seq_length
    }

    /// The number of words a window moves by.
    fn calculate_step_size(&self) -> (s: usize)
        ensures
            s == step_of(self.spec_config()),
            1 <= s,
            s <= self.spec_config().window_size || s == 1,
    {
        let ws = self.config.window_size as u128;
        let pm = self.config.overlap_permille as u128;
        proof {
            assert(ws * pm <= 0xffff_ffff_ffff_ffff * 0xffff_ffff) by (nonlinear_arith)
                requires ws <= 0xffff_ffff_ffff_ffff, pm <= 0xffff_ffff;
        }
        let overlap: u128 = ws * pm / 1000;
        if ws > overlap {
            (ws - overlap) as usize
        } else {
            1
        }
    }

    /// Every `dilution_factor`-th token from the first, at most
    /// `max_global_context` of them.
    fn sample_global_context(&self, tokens: &[Token]) -> (r: Vec<Token>)
        requires
            self.spec_config().dilution_factor > 0,
        ensures
            tvs(r@) == global_sample(tvs(tokens@), self.spec_config().dilution_factor as int, self.spec_config().max_global_context as int),
    {
        let d = self.config.dilution_factor;
        let m = self.config.max_global_context;
        let n = tokens.len();
        let ghost ts = tvs(tokens@);
        let mut r: Vec<Token> = Vec::new();
        if n == 0 {
            proof {
                lemma_ceil_div(0, d as int, 0);
                assert(tvs(r@) =~= global_sample(ts, d as int, m as int));
            }
            return r;
        }
        let mut i: usize = 0;
        proof {
            assert(r@.len() * d == 0) by (nonlinear_arith)
                requires r@.len() == 0;
            lemma_ceil_div(n as int, d as int, 0);
        }
        loop
            invariant_except_break
                i < n,
                i == r@.len() * d,
            invariant
                d > 0,
                n > 0,
                n == tokens@.len(),
                ts == tvs(tokens@),
                r@.len() <= m,
                r@.len() <= ceil_div(n as int, d as int),
                forall|j: int| 0 <= j < r@.len() ==> tv(#[trigger] r@[j]) == ts[j * d],
            ensures
                r@.len() == m || n <= r@.len() * d,
                r@.len() <= m,
                r@.len() <= ceil_div(n as int, d as int),
                forall|j: int| 0 <= j < r@.len() ==> tv(#[trigger] r@[j]) == ts[j * d],
            decreases n - i,
        {
            if r.len() >= m {
                break;
            }
            let ghost len0 = r@.len() as int;
            proof {
                lemma_ceil_div(n as int, d as int, len0);
                assert(0 <= i < tokens@.len());
                assert(ts[len0 * d] == tv(tokens@[i as int]));
            }
            let t = tokens[i].clone();
            r.push(t);
            proof {
                assert((len0 + 1) * d == len0 * d + d) by (nonlinear_arith);
            }
            if d >= n - i {
                break;
            }
            i = i + d;
        }
        proof {
            let len = r@.len() as int;
            lemma_ceil_div(n as int, d as int, len);
            assert(tvs(r@) =~= global_sample(ts, d as int, m as int));
        }
        r
    }

    /// `[CLS]`, the global tokens (at most `max_global_context`), `[SEP]`,
    /// the local tokens, `[SEP]`.
    pub fn combine_context(&self, local: &[Token], global: &[Token]) -> (r: Vec<Token>)
        ensures
            tvs(r@) == combined(tvs(local@), tvs(global@), self.spec_config().max_global_context as int),
    {
        let m = self.config.max_global_context;
        let mut r: Vec<Token> = Vec::new();
        r.push(Token::CLS);
        proof {
            assert(tvs(r@) =~= seq![TokenV::Cls]);
        }
        push_clones(&mut r, global, m);
        let ghost r2 = tvs(r@);
        r.push(Token::SEP);
        proof {
            assert(tvs(r@) =~= r2.push(TokenV::Sep));
        }
        push_clones(&mut r, local, local.len());
        let ghost r4 = tvs(r@);
        r.push(Token::SEP);
        proof {
            assert(tvs(r@) =~= r4.push(TokenV::Sep));
            assert(tvs(local@).take(local@.len() as int) =~= tvs(local@));
            if global@.len() <= m {
                assert(tvs(global@).take(global@.len() as int) =~= tvs(global@));
            }
        }
        proof {
            assert(tvs(local@).take(local@.len() as int) =~= tvs(local@));
            if global@.len() <= m {
                assert(tvs(global@).take(global@.len() as int) =~= tvs(global@));
            }
            assert(tvs(r@) =~= combined(tvs(local@), tvs(global@), m as int));
        }
        r
    }

    /// The byte ranges of the words of `content`.
    fn calculate_word_offsets(&self, content: &str) -> (r: Vec<(usize, usize)>)
        requires
            content.spec_bytes().len() <= usize::MAX,
        ensures
            pairs(r@) == byte_spans(content@),
    {
        let (_v, _sc, sb) = scan(content);
        sb
    }
}


/// One window of a processed document.
#[derive(Debug)]
pub struct ProcessedWindow {
    /// The window's words.
    pub local_tokens: Vec<Token>,
    /// The global context sampled from the whole document.
    pub global_tokens: Vec<Token>,
    /// `[CLS]`, global context, `[SEP]`, the window's words, `[SEP]`.
    pub combined_tokens: Vec<Token>,
    /// Byte offset of the window's first word.
    pub start_offset: usize,
    /// Byte offset just past the window's last word.
    pub end_offset: usize,
    /// The window's position among the document's windows.
    pub window_index: usize,
}

/// Whether a document of `n` words is one window over all of it: it fits both
/// the longest single sequence and one window.
pub open spec fn one_window(n: int, c: DilutedAttentionConfig) -> bool {
    n <= c.max_seq_length && n <= c.window_size
}

/// The number of windows of `s`: one when its words fit in one window,
/// otherwise one per step until the words run out, at most 1001.
pub open spec fn window_count(s: Seq<char>, c: DilutedAttentionConfig) -> int {
    let n = word_spans(s).len() as int;
    if one_window(n, c) {
        1
    } else {
        let k = ceil_div(n, step_of(c));
        if k < 1001 {
            k
        } else {
            1001
        }
    }
}

/// The index of the first word of window `k`.
pub open spec fn window_first(s: Seq<char>, c: DilutedAttentionConfig, k: int) -> int {
    let n = word_spans(s).len() as int;
    if one_window(n, c) {
        0
    } else {
        k * step_of(c)
    }
}

/// The index just past the last word of window `k`.
pub open spec fn window_last(s: Seq<char>, c: DilutedAttentionConfig, k: int) -> int {
    let n = word_spans(s).len() as int;
    let f = window_first(s, c, k);
    if one_window(n, c) {
        n
    } else if f + c.window_size < n {
        f + c.window_size
    } else {
        n
    }
}

/// The byte offset where window `k` starts.
pub open spec fn window_start(s: Seq<char>, c: DilutedAttentionConfig, k: int) -> int {
    let n = word_spans(s).len() as int;
    if one_window(n, c) {
        0
    } else {
        byte_spans(s)[window_first(s, c, k)].0
    }
}

/// The byte offset where window `k` ends.
pub open spec fn window_end(s: Seq<char>, c: DilutedAttentionConfig, k: int) -> int {
    let n = word_spans(s).len() as int;
    let e = window_last(s, c, k);
    if one_window(n, c) {
        byte_len(s) as int
    } else {
        byte_spans(s)[if e >= 1 { e - 1 } else { 0 }].1
    }
}

/// Window `k` of `s` is `w`.
pub open spec fn window_is(w: ProcessedWindow, s: Seq<char>, c: DilutedAttentionConfig, k: int) -> bool {
    let local = word_tokens(s).subrange(window_first(s, c, k), window_last(s, c, k));
    let global = global_sample(word_tokens(s), c.dilution_factor as int, c.max_global_context as int);
    &&& tvs(w.local_tokens@) == local
    &&& tvs(w.global_tokens@) == global
    &&& tvs(w.combined_tokens@) == combined(local, global, c.max_global_context as int)
    &&& w.start_offset == window_start(s, c, k)
    &&& w.end_offset == window_end(s, c, k)
    &&& w.window_index == k
}

impl DilutedAttentionProcessor {
    /// Cuts `content` into windows of words with global context; no window
    /// holds more than `window_size` words. A document of at most
    /// `max_seq_length` words that fits one window is one window over all of
    /// it; any other gets windows of `window_size` words, each starting
    /// `step_of` words after the one before, until the words run out (at
    /// most 1001 windows). Every window carries the same global sample.
    pub fn process_document(&self, content: &str) -> (r: Vec<ProcessedWindow>)
        requires
            self.spec_config().dilution_factor > 0,
            content.spec_bytes().len() <= usize::MAX,
        ensures
            r@.len() == window_count(content@, self.spec_config()),
            forall|k: int| 0 <= k < r@.len() ==> window_is(#[trigger] r@[k], content@, self.spec_config(), k),
            forall|k: int| 0 <= k < r@.len() ==> (#[trigger] r@[k]).window_index == k,
            forall|k: int| 0 <= k < r@.len() ==> (#[trigger] r@[k]).global_tokens@.len() <= self.spec_config().max_global_context,
            forall|k: int| 0 <= k < r@.len() ==> (#[trigger] r@[k]).local_tokens@.len() <= self.spec_config().window_size,
    {
        let ghost s = content@;
        let ghost c = self.config;
        let tokens = self.tokenize(content);
        let n = tokens.len();
        proof {
            assert(tvs(tokens@).len() == n);
            assert(word_tokens(s).len() == word_spans(s).len());
            crate::text::lemma_byte_len_encode(s);
        }
        if n <= self.config.max_seq_length && n <= self.config.window_size {
            let global = self.sample_global_context(tokens.as_slice());
            let combined_tokens = self.combine_context(tokens.as_slice(), global.as_slice());
            let mut r: Vec<ProcessedWindow> = Vec::new();
            let w = ProcessedWindow {
                local_tokens: tokens,
                global_tokens: global,
                combined_tokens,
                start_offset: 0,
                end_offset: content.len(),
                window_index: 0,
            };
            proof {
                assert(word_tokens(s).subrange(0, n as int) =~= word_tokens(s));
                assert(window_is(w, s, c, 0));
            }
            r.push(w);
            return r;
        }
        let step_size = self.calculate_step_size();
        let global_context = self.sample_global_context(tokens.as_slice());
        let word_offsets = self.calculate_word_offsets(content);
        let ghost g = global_sample(word_tokens(s), c.dilution_factor as int, c.max_global_context as int);
        proof {
            assert(pairs(word_offsets@).len() == word_offsets@.len());
            assert(byte_spans(s).len() == word_spans(s).len());
            crate::diluted::lemma_ceil_div(n as int, step_size as int, 0);
        }
        let ws = self.config.window_size;
        let mut windows: Vec<ProcessedWindow> = Vec::new();
        let mut position: usize = 0;
        let mut window_index: usize = 0;
        proof {
            assert(window_index * step_size == 0) by (nonlinear_arith)
                requires window_index == 0;
        }
        loop
            invariant_except_break
                position < n,
                position == window_index * step_size,
                window_index <= 1000,
                window_index < ceil_div(n as int, step_size as int),
            invariant
                s == content@,
                c == self.spec_config(),
                n == tokens@.len(),
                !one_window(n as int, c),
                n >= 1,
                n == word_spans(s).len(),
                ws == c.window_size,
                tvs(tokens@) == word_tokens(s),
                tvs(global_context@) == g,
                g == global_sample(word_tokens(s), c.dilution_factor as int, c.max_global_context as int),
                pairs(word_offsets@) == byte_spans(s),
                word_offsets@.len() == n,
                step_size == step_of(c),
                step_size >= 1,
                windows@.len() == window_index,
                forall|k: int| 0 <= k < window_index ==> window_is(#[trigger] windows@[k], s, c, k),
            ensures
                windows@.len() == window_count(s, c),
                forall|k: int| 0 <= k < windows@.len() ==> window_is(#[trigger] windows@[k], s, c, k),
            decreases n - position,
        {
            let window_end = if ws >= n - position {
                n
            } else {
                position + ws
            };
            let mut local: Vec<Token> = Vec::new();
            let part = vstd::slice::slice_subrange(tokens.as_slice(), position, window_end);
            push_clones(&mut local, part, part.len());
            let combined_tokens = self.combine_context(local.as_slice(), global_context.as_slice());
            let start_offset = word_offsets[position].0;
            let last = if window_end >= 1 {
                window_end - 1
            } else {
                0
            };
            let end_offset = word_offsets[last].1;
            let global = clone_tokens(global_context.as_slice());
            let w = ProcessedWindow {
                local_tokens: local,
                global_tokens: global,
                combined_tokens,
                start_offset,
                end_offset,
                window_index,
            };
            proof {
                let k = window_index as int;
                assert(window_first(s, c, k) == position);
                assert(window_last(s, c, k) == window_end);
                assert(tvs(part@).take(part@.len() as int) =~= word_tokens(s).subrange(position as int, window_end as int));
                assert(tvs(Seq::<Token>::empty()) =~= Seq::<TokenV>::empty());
                assert(tvs(w.local_tokens@) =~= word_tokens(s).subrange(position as int, window_end as int));
                assert(pairs(word_offsets@)[position as int] == byte_spans(s)[position as int]);
                assert(pairs(word_offsets@)[last as int] == byte_spans(s)[last as int]);
                assert(window_is(w, s, c, k));
            }
            windows.push(w);
            window_index = window_index + 1;
            proof {
                assert(window_index * step_size == position + step_size) by (nonlinear_arith)
                    requires window_index == (window_index - 1) + 1, position == (window_index - 1) * step_size;
            }
            if step_size >= n - position {
                proof {
                    crate::diluted::lemma_ceil_div(n as int, step_size as int, (window_index - 1) as int);
                }
                break;
            }
            position = position + step_size;
            if window_index > 1000 {
                break;
            }
            proof {
                crate::diluted::lemma_ceil_div(n as int, step_size as int, window_index as int);
            }
        }
        proof {
            assert(words_of(s).len() == n);
            assert forall|k: int| 0 <= k < windows@.len() implies (#[trigger] windows@[k]).local_tokens@.len() <= ws by {
                lemma_ceil_div(n as int, step_size as int, k);
                assert(window_is(windows@[k], s, c, k));
                assert(tvs(windows@[k].local_tokens@).len() == windows@[k].local_tokens@.len());
            }
        }
        windows
    }
}


/// How much of a document its windows cover.
#[derive(Debug, Clone, Copy)]
pub struct CoverageStats {
    /// Bytes of the document.
    pub total_chars: usize,
    /// Bytes inside at least one window.
    pub covered_chars: usize,
    /// Number of windows.
    pub window_count: usize,
    /// Bytes of all windows together, overlaps counted again.
    pub total_window_chars: usize,
    /// Bytes counted more than once: `total_window_chars - covered_chars`, or 0.
    pub overlap_chars: usize,
}

impl CoverageStats {
    /// Whether every byte of the document is covered.
    pub fn is_complete(&self) -> (r: bool)
        ensures
            r == (self.covered_chars >= self.total_chars),
    {
        self.covered_chars >= self.total_chars
    }
}

/// Byte `i` of a document of `total` bytes lies inside one of the windows.
pub open spec fn covered_by(ws: Seq<ProcessedWindow>, total: int, i: int) -> bool {
    exists|k: int| 0 <= k < ws.len() && (#[trigger] ws[k]).start_offset <= i && i < ws[k].end_offset && i < total
}

/// How many of the first `t` bytes lie inside a window.
pub open spec fn covered_count(ws: Seq<ProcessedWindow>, total: int, t: int) -> int
    decreases t,
{
    if t <= 0 {
        0
    } else {
        covered_count(ws, total, t - 1) + if covered_by(ws, total, t - 1) { 1int } else { 0int }
    }
}

/// The bytes of all windows added up (`end - start`, or 0 when the end comes
/// first).
pub open spec fn window_bytes(ws: Seq<ProcessedWindow>) -> int
    decreases ws.len(),
{
    if ws.len() == 0 {
        0
    } else {
        window_bytes(ws.drop_last()) + if ws.last().end_offset >= ws.last().start_offset {
            ws.last().end_offset - ws.last().start_offset
        } else {
            0int
        }
    }
}

/// The view of a chunk made from a window of `file_id`: its index, kind, text
/// and place.
pub open spec fn chunk_of(ch: crate::chunk::ContentChunk, w: ProcessedWindow, file_id: u128) -> bool {
    &&& ch.file_id == file_id
    &&& ch.chunk_index == w.window_index as u32
    &&& ch.chunk_type == crate::chunk::ChunkType::Paragraph
    &&& ch.content@ == detokenized(tvs(w.local_tokens@))
    &&& ch.location.start_offset == w.start_offset as u64
    &&& ch.location.end_offset == w.end_offset as u64
    &&& ch.location.start_line is None
    &&& ch.location.end_line is None
    &&& ch.location.page_number is None
    &&& ch.location.bounding_box is None
    &&& ch.vector_id == 0
}

impl DilutedAttentionProcessor {
    /// One chunk per window, in order: a paragraph holding the window's words,
    /// at the window's byte range, with a fresh identifier and the current
    /// time.
    pub fn windows_to_chunks(&self, windows: &[ProcessedWindow], file_id: u128) -> (r: Vec<crate::chunk::ContentChunk>)
        ensures
            r@.len() == windows@.len(),
            forall|k: int| 0 <= k < r@.len() ==> chunk_of(#[trigger] r@[k], windows@[k], file_id),
    {
        let mut r: Vec<crate::chunk::ContentChunk> = Vec::new();
        let mut i: usize = 0;
        while i < windows.len()
            invariant
                i <= windows@.len(),
                r@.len() == i,
                forall|k: int| 0 <= k < i ==> chunk_of(#[trigger] r@[k], windows@[k], file_id),
            decreases windows@.len() - i,
        {
            let w = &windows[i];
            let content = self.detokenize(w.local_tokens.as_slice());
            let ch = crate::chunk::ContentChunk {
                id: crate::clock::new_uuid_v7(),
                file_id,
                chunk_index: w.window_index as u32,
                chunk_type: crate::chunk::ChunkType::Paragraph,
                content,
                location: crate::chunk::ChunkLocation {
                    start_offset: w.start_offset as u64,
                    end_offset: w.end_offset as u64,
                    start_line: None,
                    end_line: None,
                    page_number: None,
                    bounding_box: None,
                },
                vector_id: 0,
                created_at: crate::clock::now_millis(),
            };
            r.push(ch);
            i = i + 1;
        }
        r
    }

    /// The document's windows as chunks of `file_id`; chunk `k` comes from
    /// window `k`, so the chunk indices count up from 0.
    pub fn process_to_chunks(&self, content: &str, file_id: u128) -> (r: Vec<crate::chunk::ContentChunk>)
        requires
            self.spec_config().dilution_factor > 0,
            content.spec_bytes().len() <= usize::MAX,
        ensures
            r@.len() == window_count(content@, self.spec_config()),
            forall|k: int| 0 <= k < r@.len() ==> (#[trigger] r@[k]).chunk_index == k as u32,
            forall|k: int| 0 <= k < r@.len() ==> (#[trigger] r@[k]).file_id == file_id,
            forall|k: int| 0 <= k < r@.len() ==> (#[trigger] r@[k]).chunk_type == crate::chunk::ChunkType::Paragraph,
            forall|k: int| 0 <= k < r@.len() ==> (#[trigger] r@[k]).content@ == detokenized(
                word_tokens(content@).subrange(
                    window_first(content@, self.spec_config(), k),
                    window_last(content@, self.spec_config(), k),
                ),
            ),
    {
        let windows = self.process_document(content);
        let r = self.windows_to_chunks(windows.as_slice(), file_id);
        proof {
            assert forall|k: int| 0 <= k < r@.len() implies (#[trigger] r@[k]).chunk_index == k as u32 by {
                assert(chunk_of(r@[k], windows@[k], file_id));
                assert(window_is(windows@[k], content@, self.spec_config(), k));
            }
            assert forall|k: int| 0 <= k < r@.len() implies (#[trigger] r@[k]).content@ == detokenized(
                word_tokens(content@).subrange(
                    window_first(content@, self.spec_config(), k),
                    window_last(content@, self.spec_config(), k),
                ),
            ) by {
                assert(chunk_of(r@[k], windows@[k], file_id));
                assert(window_is(windows@[k], content@, self.spec_config(), k));
            }
            assert forall|k: int| 0 <= k < r@.len() implies (#[trigger] r@[k]).file_id == file_id && r@[k].chunk_type == crate::chunk::ChunkType::Paragraph by {
                assert(chunk_of(r@[k], windows@[k], file_id));
            }
        }
        r
    }

    /// For each window, the text of all its combined tokens joined with
    /// single spaces, ready for the embedding model.
    pub fn get_embedding_texts(&self, windows: &[ProcessedWindow]) -> (r: Vec<String>)
        ensures
            r@.len() == windows@.len(),
            forall|k: int| 0 <= k < r@.len() ==> (#[trigger] r@[k])@ == token_line(tvs(windows@[k].combined_tokens@)),
    {
        let mut r: Vec<String> = Vec::new();
        let mut i: usize = 0;
        while i < windows.len()
            invariant
                i <= windows@.len(),
                r@.len() == i,
                forall|k: int| 0 <= k < i ==> (#[trigger] r@[k])@ == token_line(tvs(windows@[k].combined_tokens@)),
            decreases windows@.len() - i,
        {
            let line = join_token_texts(windows[i].combined_tokens.as_slice());
            r.push(line);
            i = i + 1;
        }
        r
    }

    /// How much of `content` the windows cover, in bytes.
    pub fn calculate_coverage(&self, content: &str, windows: &[ProcessedWindow]) -> (r: CoverageStats)
        requires
            content.spec_bytes().len() <= usize::MAX,
            window_bytes(windows@) <= usize::MAX,
        ensures
            r.total_chars == byte_len(content@),
            r.covered_chars == covered_count(windows@, byte_len(content@) as int, byte_len(content@) as int),
            r.window_count == windows@.len(),
            r.total_window_chars == window_bytes(windows@),
            r.overlap_chars == if window_bytes(windows@) >= r.covered_chars {
                window_bytes(windows@) - r.covered_chars
            } else {
                0
            },
    {
        proof {
            crate::text::lemma_byte_len_encode(content@);
        }
        let total = content.len();
        let ghost ws = windows@;
        let ghost tot = total as int;
        if windows.len() == 0 {
            proof {
                lemma_covered_count_empty(ws, tot, tot);
            }
            return CoverageStats {
                total_chars: total,
                covered_chars: 0,
                window_count: 0,
                total_window_chars: 0,
                overlap_chars: 0,
            };
        }
        let mut covered: Vec<bool> = Vec::new();
        let mut j: usize = 0;
        while j < total
            invariant
                j <= total,
                covered@.len() == j,
                forall|i: int| 0 <= i < j ==> !(#[trigger] covered@[i]),
            decreases total - j,
        {
            covered.push(false);
            j = j + 1;
        }
        let mut k: usize = 0;
        while k < windows.len()
            invariant
                ws == windows@,
                tot == total,
                k <= ws.len(),
                covered@.len() == total,
                forall|i: int| 0 <= i < total ==> (#[trigger] covered@[i]) == covered_by(ws.take(k as int), tot, i),
            decreases ws.len() - k,
        {
            let a = windows[k].start_offset;
            let e = windows[k].end_offset;
            let b = if e < total {
                e
            } else {
                total
            };
            let mut p: usize = a;
            while p < b
                invariant
                    ws == windows@,
                    tot == total,
                    k < ws.len(),
                    a == ws[k as int].start_offset,
                    b <= total,
                    b == (if ws[k as int].end_offset < total { ws[k as int].end_offset } else { total }),
                    a <= p,
                    p <= b || p == a,
                    covered@.len() == total,
                    forall|i: int| 0 <= i < total ==> (#[trigger] covered@[i]) == (covered_by(ws.take(k as int), tot, i) || (a <= i < p)),
                decreases b - p,
            {
                covered.set(p, true);
                p = p + 1;
            }
            proof {
                assert forall|i: int| 0 <= i < total implies (#[trigger] covered@[i]) == covered_by(ws.take(k + 1), tot, i) by {
                    let t = ws.take(k + 1);
                    if covered_by(ws.take(k as int), tot, i) {
                        let q = choose|q: int| 0 <= q < ws.take(k as int).len() && (#[trigger] ws.take(k as int)[q]).start_offset <= i && i < ws.take(k as int)[q].end_offset && i < tot;
                        assert(t[q] == ws.take(k as int)[q]);
                    }
                    if a <= i < p {
                        assert(t[k as int] == ws[k as int]);
                    }
                    if covered_by(t, tot, i) {
                        let q = choose|q: int| 0 <= q < t.len() && (#[trigger] t[q]).start_offset <= i && i < t[q].end_offset && i < tot;
                        if q < k {
                            assert(ws.take(k as int)[q] == t[q]);
                        }
                    }
                }
            }
            k = k + 1;
        }
        proof {
            assert(ws.take(ws.len() as int) =~= ws);
        }
        let mut count: usize = 0;
        let mut i: usize = 0;
        while i < total
            invariant
                tot == total,
                i <= total,
                covered@.len() == total,
                forall|q: int| 0 <= q < total ==> (#[trigger] covered@[q]) == covered_by(ws, tot, q),
                count == covered_count(ws, tot, i as int),
                count <= i,
            decreases total - i,
        {
            if covered[i] {
                count = count + 1;
            }
            i = i + 1;
        }
        let mut sum: usize = 0;
        let mut m: usize = 0;
        while m < windows.len()
            invariant
                ws == windows@,
                m <= ws.len(),
                window_bytes(ws) <= usize::MAX,
                sum == window_bytes(ws.take(m as int)),
            decreases ws.len() - m,
        {
            proof {
                assert(ws.take(m + 1).drop_last() =~= ws.take(m as int));
                lemma_window_bytes_prefix(ws, m + 1);
            }
            let w = &windows[m];
            let d = if w.end_offset >= w.start_offset {
                w.end_offset - w.start_offset
            } else {
                0
            };
            sum = sum + d;
            m = m + 1;
        }
        proof {
            assert(ws.take(ws.len() as int) =~= ws);
        }
        let overlap = if sum >= count {
            sum - count
        } else {
            0
        };
        CoverageStats {
            total_chars: total,
            covered_chars: count,
            window_count: windows.len(),
            total_window_chars: sum,
            overlap_chars: overlap,
        }
    }
}

/// The text of every token joined with single spaces.
fn join_token_texts(tokens: &[Token]) -> (r: String)
    ensures
        r@ == token_line(tvs(tokens@)),
{
    let mut out: Vec<char> = Vec::new();
    let mut i: usize = 0;
    while i < tokens.len()
        invariant
            i <= tokens@.len(),
            out@ == join_space(tvs(tokens@.take(i as int)).map_values(|t: TokenV| token_text(t))),
        decreases tokens@.len() - i,
    {
        let ghost pre = tvs(tokens@.take(i as int)).map_values(|t: TokenV| token_text(t));
        let ghost post = tvs(tokens@.take(i + 1)).map_values(|t: TokenV| token_text(t));
        proof {
            assert(post.drop_last() =~= pre);
            assert(post.last() == token_text(tv(tokens@[i as int])));
        }
        if i > 0 {
            out.push(' ');
        }
        append_str(&mut out, tokens[i].as_str());
        i = i + 1;
    }
    proof {
        assert(tokens@.take(tokens@.len() as int) =~= tokens@);
    }
    string_from_chars(out.as_slice())
}

/// No window covers anything when there are none.
proof fn lemma_covered_count_empty(ws: Seq<ProcessedWindow>, total: int, t: int)
    requires
        ws.len() == 0,
    ensures
        covered_count(ws, total, t) == 0,
    decreases t,
{
    if t > 0 {
        lemma_covered_count_empty(ws, total, t - 1);
    }
}

/// The bytes of a prefix of the windows are at most those of all of them.
proof fn lemma_window_bytes_prefix(ws: Seq<ProcessedWindow>, m: int)
    requires
        0 <= m <= ws.len(),
    ensures
        window_bytes(ws.take(m)) <= window_bytes(ws),
    decreases ws.len() - m,
{
    if m < ws.len() {
        lemma_window_bytes_prefix(ws, m + 1);
        assert(ws.take(m + 1).drop_last() =~= ws.take(m));
    } else {
        assert(ws.take(m) =~= ws);
    }
}


/// A text that starts with a word has its first word at character 0.
proof fn lemma_first_span(s: Seq<char>)
    requires
        s.len() > 0,
        !is_ws(s[0]),
    ensures
        word_spans(s).len() > 0,
        word_spans(s)[0].0 == 0,
    decreases s.len(),
{
    if s.len() > 1 {
        let p = s.drop_last();
        assert(p[0] == s[0]);
        lemma_first_span(p);
        lemma_word_spans(p);
        assert(p.last() == s[s.len() - 2]);
        let w = word_spans(p);
        let i = s.len() - 1;
        if is_ws(s[i]) {
        } else if i > 0 && !is_ws(s[i - 1]) {
            if w.len() == 1 {
                assert(w.last() == w[0]);
            } else {
                assert(w.drop_last().push((w.last().0, s.len() as int))[0] == w[0]);
            }
        } else {
            assert(w.push((i, s.len() as int))[0] == w[0]);
        }
    } else {
        assert(s.drop_last().len() == 0);
        assert(word_spans(s.drop_last()).len() == 0);
    }
}

/// The byte ranges of the words are in order: a later word starts no earlier,
/// and every word has at least one byte.
proof fn lemma_byte_spans_order(s: Seq<char>, j: int, j2: int)
    requires
        0 <= j <= j2 < word_spans(s).len(),
    ensures
        byte_spans(s)[j].0 <= byte_spans(s)[j2].0,
        byte_spans(s)[j2].0 < byte_spans(s)[j2].1,
{
    lemma_word_spans(s);
    let sp = word_spans(s);
    if j < j2 {
        assert(sp[j].1 < sp[j2].0);
    }
    crate::text::lemma_byte_len_grows(s, sp[j].0, sp[j2].0);
    crate::text::lemma_byte_len_grows(s, sp[j2].0, sp[j2].1);
}

/// When windows overlap by at least one word (the step is shorter than the
/// window), each window starts before the one before it ends: there is no
/// gap between consecutive windows.
pub proof fn lemma_windows_without_gaps(s: Seq<char>, c: DilutedAttentionConfig)
    requires
        step_of(c) < c.window_size,
    ensures
        forall|k: int| 0 <= k && k + 1 < window_count(s, c) ==> window_start(s, c, k + 1) < #[trigger] window_end(s, c, k),
{
    let n = word_spans(s).len() as int;
    let st = step_of(c);
    assert forall|k: int| 0 <= k && k + 1 < window_count(s, c) implies window_start(s, c, k + 1) < #[trigger] window_end(s, c, k) by {
        lemma_ceil_div(n, st, k + 1);
        let f = k * st;
        let f2 = (k + 1) * st;
        assert(f2 == f + st) by (nonlinear_arith)
            requires f == k * st, f2 == (k + 1) * st;
        assert(f >= 0) by (nonlinear_arith)
            requires k >= 0, st >= 1, f == k * st;
        let l = window_last(s, c, k);
        assert(f2 <= l - 1);
        lemma_byte_spans_order(s, f2, l - 1);
    }
}

/// The last of the windows reaches the last word when the windows were not
/// cut short and they overlap.
proof fn lemma_last_window(s: Seq<char>, c: DilutedAttentionConfig)
    requires
        !one_window(word_spans(s).len() as int, c),
        step_of(c) < c.window_size,
        ceil_div(word_spans(s).len() as int, step_of(c)) <= 1001,
    ensures
        window_last(s, c, window_count(s, c) - 1) == word_spans(s).len(),
        window_count(s, c) >= 1,
{
    let n = word_spans(s).len() as int;
    let st = step_of(c);
    let k = window_count(s, c) - 1;
    lemma_ceil_div(n, st, 0);
    assert(k + 1 == ceil_div(n, st));
    assert((n + st - 1) / st * st >= n) by (nonlinear_arith)
        requires st >= 1, n >= 0;
    assert((k + 1) * st == k * st + st) by (nonlinear_arith);
}

/// `t` bytes, all covered, count as `t` covered bytes.
proof fn lemma_covered_count_all(ws: Seq<ProcessedWindow>, total: int, t: int)
    requires
        t >= 0,
        forall|i: int| 0 <= i < t ==> covered_by(ws, total, i),
    ensures
        covered_count(ws, total, t) == t,
    decreases t,
{
    if t > 0 {
        assert(covered_by(ws, total, t - 1));
        lemma_covered_count_all(ws, total, t - 1);
    }
}

/// The windows of a document cover every byte of it when it is a single
/// window, and otherwise when the document starts and ends with a word, the
/// windows overlap by at least one word and their number was not capped.
pub proof fn lemma_windows_cover_document(s: Seq<char>, c: DilutedAttentionConfig, windows: Seq<ProcessedWindow>)
    requires
        windows.len() == window_count(s, c),
        forall|k: int| 0 <= k < windows.len() ==> window_is(#[trigger] windows[k], s, c, k),
        one_window(word_spans(s).len() as int, c) || (
            s.len() > 0
            && !is_ws(s[0])
            && !is_ws(s.last())
            && step_of(c) < c.window_size
            && ceil_div(word_spans(s).len() as int, step_of(c)) <= 1001
        ),
    ensures
        covered_count(windows, byte_len(s) as int, byte_len(s) as int) == byte_len(s),
{
    let total = byte_len(s) as int;
    let n = word_spans(s).len() as int;
    if one_window(n, c) {
        assert(window_is(windows[0], s, c, 0));
        assert forall|i: int| 0 <= i < total implies covered_by(windows, total, i) by {
            assert(windows[0].start_offset <= i && i < windows[0].end_offset);
        }
    } else {
        let count = window_count(s, c);
        lemma_last_window(s, c);
        lemma_windows_without_gaps(s, c);
        lemma_first_span(s);
        lemma_word_spans(s);
        assert(s.take(0) =~= Seq::<char>::empty());
        assert(s.take(s.len() as int) =~= s);
        lemma_cover_prefix(s, c, windows, count - 1);
        assert(window_end(s, c, count - 1) == total);
    }
    lemma_covered_count_all(windows, total, total);
}

/// Windows `0..=k` cover every byte before the end of window `k`.
proof fn lemma_cover_prefix(s: Seq<char>, c: DilutedAttentionConfig, windows: Seq<ProcessedWindow>, k: int)
    requires
        0 <= k < windows.len(),
        windows.len() == window_count(s, c),
        forall|q: int| 0 <= q < windows.len() ==> window_is(#[trigger] windows[q], s, c, q),
        !one_window(word_spans(s).len() as int, c),
        s.len() > 0,
        !is_ws(s[0]),
        step_of(c) < c.window_size,
        forall|q: int| 0 <= q && q + 1 < window_count(s, c) ==> window_start(s, c, q + 1) < #[trigger] window_end(s, c, q),
        word_spans(s).len() > 0,
        word_spans(s)[0].0 == 0,
    ensures
        forall|i: int| 0 <= i < window_end(s, c, k) && i < byte_len(s) ==> covered_by(windows, byte_len(s) as int, i),
    decreases k,
{
    let total = byte_len(s) as int;
    assert(window_is(windows[k], s, c, k));
    if k == 0 {
        assert(window_first(s, c, 0) == 0) by (nonlinear_arith)
            requires window_first(s, c, 0) == 0 * step_of(c);
        assert(s.take(0) =~= Seq::<char>::empty());
        assert forall|i: int| 0 <= i < window_end(s, c, k) && i < total implies covered_by(windows, total, i) by {
            assert(windows[0].start_offset <= i && i < windows[0].end_offset);
        }
    } else {
        lemma_cover_prefix(s, c, windows, k - 1);
        assert(window_start(s, c, k) < window_end(s, c, k - 1));
        assert forall|i: int| 0 <= i < window_end(s, c, k) && i < total implies covered_by(windows, total, i) by {
            if i >= window_start(s, c, k) {
                assert(windows[k].start_offset <= i && i < windows[k].end_offset);
            }
        }
    }
}

} // verus!
