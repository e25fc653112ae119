//! A small closed-vocabulary tokenizer producing fixed-length id sequences.
use vstd::prelude::*;

use crate::text::{chars_of, fragments, lower_of, lowercase, split_fragments, string_of, views_of_chars};

verus! {

/// Id of the padding token.
pub const PAD_ID: u32 = 0;

/// Id given to a fragment that the vocabulary does not hold.
pub const UNK_ID: u32 = 1;

/// Id of the start marker.
pub const CLS_ID: u32 = 2;

/// Id of the separator marker.
pub const SEP_ID: u32 = 3;

/// Length of every token sequence a fresh tokenizer produces.
pub const MAX_LENGTH: usize = 512;

/// The vocabulary: the word at position `i` has id `i`.
pub open spec fn vocab_words() -> Seq<Seq<char>> {
    seq![
        "[PAD]"@, "[UNK]"@, "[CLS]"@, "[SEP]"@,
        "и"@, "в"@, "не"@, "на"@, "с"@, "по"@, "для"@, "от"@, "до"@, "из"@, "к"@, "о"@, "у"@,
        "за"@, "при"@,
        "обслуживание"@, "банк"@, "карта"@, "кредит"@, "ипотека"@, "вклад"@, "мобильный"@,
        "приложение"@, "онлайн"@, "сайт"@, "терминал"@, "поддержка"@, "хорошо"@, "плохо"@,
        "быстро"@, "медленно"@, "понравилось"@, "непонравилось"@, "рекомендую"@, "удобно"@,
        "зависает"@, "работает"@,
    ]
}

/// Position of the first occurrence of `w` in `words`.
pub open spec fn find_word(words: Seq<Seq<char>>, w: Seq<char>) -> Option<int>
    decreases words.len(),
{
    if words.len() == 0 {
        None
    } else {
        match find_word(words.drop_last(), w) {
            Some(i) => Some(i),
            None => if words.last() == w {
                Some(words.len() - 1)
            } else {
                None
            },
        }
    }
}

/// A word found in a prefix of the list is found at the same place in the whole list.
proof fn lemma_find_word_prefix(words: Seq<Seq<char>>, w: Seq<char>, k: int)
    requires
        0 <= k <= words.len(),
        find_word(words.take(k), w) is Some,
    ensures
        find_word(words, w) == find_word(words.take(k), w),
    decreases words.len(),
{
    if k == words.len() {
        assert(words.take(k) =~= words);
    } else {
        assert(words.drop_last().take(k) =~= words.take(k));
        lemma_find_word_prefix(words.drop_last(), w, k);
    }
}

/// Id of one fragment: its lowercase form is looked up first, then the
/// fragment as written, and the unknown id is the fallback.
pub open spec fn token_id_of(frag: Seq<char>) -> u32 {
    match find_word(vocab_words(), lower_of(frag)) {
        Some(i) => i as u32,
        None => match find_word(vocab_words(), frag) {
            Some(i) => i as u32,
            None => UNK_ID,
        },
    }
}

/// Number of fragments of `text` that a sequence of length `max` keeps.
pub open spec fn content_count(text: Seq<char>, max: nat) -> nat {
    let n = fragments(text).len();
    if n < max - 2 {
        n
    } else {
        (max - 2) as nat
    }
}

/// Start marker, the ids of the kept fragments, separator, then padding up to `max`.
pub open spec fn token_sequence(text: Seq<char>, max: nat) -> Seq<u32> {
    let body = seq![CLS_ID] + fragments(text).take(content_count(text, max) as int).map_values(
        |f: Seq<char>| token_id_of(f),
    ) + seq![SEP_ID];
    body + Seq::new((max - body.len()) as nat, |i: int| PAD_ID)
}

/// The mask of a token sequence: 0 at padding, 1 elsewhere.
pub open spec fn mask_of(tokens: Seq<u32>) -> Seq<u32> {
    tokens.map_values(|t: u32| if t == PAD_ID { 0u32 } else { 1u32 })
}

pub open spec fn views_of_strings(v: Seq<String>) -> Seq<Seq<char>> {
    v.map_values(|s: String| s@)
}

pub struct SimpleTokenizer {
    vocab: Vec<String>,
    max_length: usize,
}

fn vocabulary() -> (r: Vec<String>)
    ensures
        views_of_strings(r@) == vocab_words(),
{
    let mut v: Vec<String> = Vec::new();
    v.push("[PAD]".to_owned());
    v.push("[UNK]".to_owned());
    v.push("[CLS]".to_owned());
    v.push("[SEP]".to_owned());
    v.push("и".to_owned());
    v.push("в".to_owned());
    v.push("не".to_owned());
    v.push("на".to_owned());
    v.push("с".to_owned());
    v.push("по".to_owned());
    v.push("для".to_owned());
    v.push("от".to_owned());
    v.push("до".to_owned());
    v.push("из".to_owned());
    v.push("к".to_owned());
    v.push("о".to_owned());
    v.push("у".to_owned());
    v.push("за".to_owned());
    v.push("при".to_owned());
    v.push("обслуживание".to_owned());
    v.push("банк".to_owned());
    v.push("карта".to_owned());
    v.push("кредит".to_owned());
    v.push("ипотека".to_owned());
    v.push("вклад".to_owned());
    v.push("мобильный".to_owned());
    v.push("приложение".to_owned());
    v.push("онлайн".to_owned());
    v.push("сайт".to_owned());
    v.push("терминал".to_owned());
    v.push("поддержка".to_owned());
    v.push("хорошо".to_owned());
    v.push("плохо".to_owned());
    v.push("быстро".to_owned());
    v.push("медленно".to_owned());
    v.push("понравилось".to_owned());
    v.push("непонравилось".to_owned());
    v.push("рекомендую".to_owned());
    v.push("удобно".to_owned());
    v.push("зависает".to_owned());
    v.push("работает".to_owned());
    assert(views_of_strings(v@) =~= vocab_words());
    v
}

impl SimpleTokenizer {
    /// The vocabulary is the fixed word list and the length leaves room for
    /// both markers.
    pub closed spec fn wf(&self) -> bool {
        views_of_strings(self.vocab@) == vocab_words() && self.max_length >= 2
    }

    pub closed spec fn max_len(&self) -> nat {
        self.max_length as nat
    }

    pub fn new() -> (r: Self)
        ensures
            r.wf(),
            r.max_len() == MAX_LENGTH,
    {
        SimpleTokenizer { vocab: vocabulary(), max_length: MAX_LENGTH }
    }

    pub fn max_length(&self) -> (r: usize)
        ensures
            r == self.max_len(),
    {
        self.max_length
    }

    /// Id of a word of the vocabulary, matched exactly as written.
    pub fn word_id(&self, w: &String) -> (r: Option<u32>)
        requires
            self.wf(),
        ensures
            match find_word(vocab_words(), w@) {
                Some(i) => r == Some(i as u32),
                None => r is None,
            },
    {
        let ghost words = views_of_strings(self.vocab@);
        assert(words.len() == 41);
        let mut i: usize = 0;
        while i < self.vocab.len()
            invariant
                self.wf(),
                words == views_of_strings(self.vocab@),
                i <= self.vocab.len(),
                find_word(words.take(i as int), w@) is None,
            decreases self.vocab.len() - i,
        {
            assert(words.take(i + 1).drop_last() =~= words.take(i as int));
            if self.vocab[i] == *w {
                proof {
                    lemma_find_word_prefix(words, w@, i + 1);
                }
                return Some(i as u32);
            }
            i += 1;
        }
        assert(words.take(i as int) =~= words);
        None
    }

    fn token_id(&self, frag: &Vec<char>) -> (r: u32)
        requires
            self.wf(),
        ensures
            r == token_id_of(frag@),
    {
        let written = string_of(frag);
        let lower = lowercase(written.as_str());
        match self.word_id(&lower) {
            Some(id) => id,
            None => match self.word_id(&written) {
                Some(id) => id,
                None => UNK_ID,
            },
        }
    }

    /// Start marker, one id per fragment (at most `max_length - 2` of them),
    /// separator, and padding up to exactly `max_length`.
    pub fn tokenize(&self, text: &str) -> (r: Vec<u32>)
        requires
            self.wf(),
        ensures
            r@ == token_sequence(text@, self.max_len()),
            r@.len() == self.max_len(),
            r@[0] == CLS_ID,
            r@[content_count(text@, self.max_len()) as int + 1] == SEP_ID,
            forall|j: int|
                content_count(text@, self.max_len()) + 1 < j < r@.len() ==> r@[j] == PAD_ID,
    {
        let chars = chars_of(text);
        let frags = split_fragments(&chars);
        let ghost fv = views_of_chars(frags@);
        let ghost max = self.max_len();
        let ghost n = content_count(text@, max);
        let limit: usize = self.max_length - 2;
        let mut tokens: Vec<u32> = Vec::new();
        tokens.push(CLS_ID);
        let mut i: usize = 0;
        while i < frags.len() && i < limit
            invariant
                self.wf(),
                fv == fragments(text@),
                fv == views_of_chars(frags@),
                limit == max - 2,
                n == content_count(text@, max),
                i <= frags.len(),
                i <= limit,
                tokens@ == seq![CLS_ID] + fv.take(i as int).map_values(
                    |f: Seq<char>| token_id_of(f),
                ),
            decreases frags.len() - i,
        {
            let id = self.token_id(&frags[i]);
            assert(fv[i as int] == frags@[i as int]@);
            assert(fv.take(i + 1).map_values(|f: Seq<char>| token_id_of(f)) =~= fv.take(
                i as int,
            ).map_values(|f: Seq<char>| token_id_of(f)).push(id));
            tokens.push(id);
            i += 1;
        }
        assert(i == n);
        tokens.push(SEP_ID);
        let ghost body = tokens@;
        assert(body == seq![CLS_ID] + fv.take(n as int).map_values(|f: Seq<char>| token_id_of(f))
            + seq![SEP_ID]);
        while tokens.len() < self.max_length
            invariant
                self.wf(),
                max == self.max_length as nat,
                body.len() == n + 2,
                n + 2 <= max,
                body.len() <= tokens.len() <= max,
                tokens@ == body + Seq::new((tokens.len() - body.len()) as nat, |j: int| PAD_ID),
            decreases self.max_length - tokens.len(),
        {
            tokens.push(PAD_ID);
            assert(tokens@ =~= body + Seq::new((tokens.len() - body.len()) as nat, |j: int| PAD_ID));
        }
        assert(tokens@ =~= token_sequence(text@, max));
        tokens
    }

    /// 1 where the token is not the padding id, 0 where it is.
    pub fn create_attention_mask(&self, tokens: &[u32]) -> (r: Vec<u32>)
        ensures
            r@ == mask_of(tokens@),
            r@.len() == tokens@.len(),
            forall|i: int| 0 <= i < tokens@.len() ==> (r@[i] == 1) == (tokens@[i] != PAD_ID),
            forall|i: int| 0 <= i < tokens@.len() ==> (r@[i] == 0) == (tokens@[i] == PAD_ID),
    {
        let mut mask: Vec<u32> = Vec::new();
        let mut i: usize = 0;
        while i < tokens.len()
            invariant
                i <= tokens@.len(),
                mask@ == mask_of(tokens@.take(i as int)),
            decreases tokens@.len() - i,
        {
            let m: u32 = if tokens[i] == PAD_ID {
                0
            } else {
                1
            };
            assert(mask_of(tokens@.take(i + 1)) =~= mask_of(tokens@.take(i as int)).push(m));
            mask.push(m);
            i += 1;
        }
        assert(tokens@.take(i as int) =~= tokens@);
        mask
    }
}

impl Default for SimpleTokenizer {
    fn default() -> (r: Self)
        ensures
            r.wf(),
            r.max_len() == MAX_LENGTH,
    {
        SimpleTokenizer::new()
    }
}

} // verus!
