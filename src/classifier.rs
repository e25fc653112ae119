//! Keyword rules that assign topics and a sentiment to a text.
use vstd::prelude::*;

use crate::domain::Sentiment;
use crate::text::{chars_of, contains_chars, has_sub, lower_of, lowercase};
use crate::tokenizer::views_of_strings;

verus! {

/// The topic given to a text that no rule matches.
pub open spec fn default_topic() -> Seq<char> {
    "Обслуживание"@
}

/// Ordered (keyword, topic) rules.
pub open spec fn topic_rules() -> Seq<(Seq<char>, Seq<char>)> {
    seq![
        ("обслужив"@, "Обслуживание"@),
        ("мобильное прилож"@, "Мобильное приложение"@),
        ("онлайн-банк"@, "Онлайн-банк"@),
        ("сайт"@, "Сайт"@),
        ("ипотек"@, "Ипотека"@),
        ("кредит"@, "Кредит"@),
        ("карт"@, "Карта"@),
        ("терминал"@, "Терминал"@),
        ("поддержк"@, "Поддержка"@),
    ]
}

/// Explicit negative marker followed by the negative keywords.
pub open spec fn negative_cues() -> Seq<Seq<char>> {
    seq![
        "отрицательно"@, "непонрав"@, "не понрав"@, "зависает"@, "зависа"@, "долго"@, "плохо"@,
        "ужасн"@, "медлен"@, "лома"@, "обман"@,
    ]
}

/// Explicit positive marker followed by the positive keywords.
pub open spec fn positive_cues() -> Seq<Seq<char>> {
    seq!["положительно"@, "понрав"@, "нрав"@, "быстро"@, "отлично"@, "хорошо"@, "рекоменд"@, "удоб"@]
}

/// Topics of the first `n` rules whose keyword occurs in `t`, in rule order,
/// each topic at most once.
pub open spec fn matched_topics(t: Seq<char>, n: nat) -> Seq<Seq<char>>
    decreases n,
{
    if n == 0 || n > topic_rules().len() {
        seq![]
    } else {
        let prev = matched_topics(t, (n - 1) as nat);
        let rule = topic_rules()[n - 1];
        if has_sub(t, rule.0) && !prev.contains(rule.1) {
            prev.push(rule.1)
        } else {
            prev
        }
    }
}

/// Topics of a lowercased text: the matched ones, or the default topic alone.
pub open spec fn topics_for(t: Seq<char>) -> Seq<Seq<char>> {
    let m = matched_topics(t, topic_rules().len());
    if m.len() == 0 {
        seq![default_topic()]
    } else {
        m
    }
}

/// Some cue of `cues` occurs in `t`.
pub open spec fn has_any(t: Seq<char>, cues: Seq<Seq<char>>) -> bool {
    exists|i: int| 0 <= i < cues.len() && has_sub(t, cues[i])
}

/// Sentiment of a lowercased text: negative cues win over positive ones;
/// with neither (explicitly neutral or not) the text is neutral.
pub open spec fn sentiment_for(t: Seq<char>) -> Sentiment {
    if has_any(t, negative_cues()) {
        Sentiment::Negative
    } else if has_any(t, positive_cues()) {
        Sentiment::Positive
    } else {
        Sentiment::Neutral
    }
}

/// The label written for a sentiment.
pub open spec fn sentiment_label(s: Sentiment) -> Seq<char> {
    match s {
        Sentiment::Positive => "положительно"@,
        Sentiment::Neutral => "нейтрально"@,
        Sentiment::Negative => "отрицательно"@,
    }
}

impl Sentiment {
    pub fn label(&self) -> (r: String)
        ensures
            r@ == sentiment_label(*self),
    {
        match self {
            Sentiment::Positive => "положительно".to_owned(),
            Sentiment::Neutral => "нейтрально".to_owned(),
            Sentiment::Negative => "отрицательно".to_owned(),
        }
    }
}

fn topic_rule(i: usize) -> (r: (&'static str, &'static str))
    requires
        i < topic_rules().len(),
    ensures
        (r.0@, r.1@) == topic_rules()[i as int],
{
    if i == 0 {
        ("обслужив", "Обслуживание")
    } else if i == 1 {
        ("мобильное прилож", "Мобильное приложение")
    } else if i == 2 {
        ("онлайн-банк", "Онлайн-банк")
    } else if i == 3 {
        ("сайт", "Сайт")
    } else if i == 4 {
        ("ипотек", "Ипотека")
    } else if i == 5 {
        ("кредит", "Кредит")
    } else if i == 6 {
        ("карт", "Карта")
    } else if i == 7 {
        ("терминал", "Терминал")
    } else {
        ("поддержк", "Поддержка")
    }
}

fn negative_cue(i: usize) -> (r: &'static str)
    requires
        i < negative_cues().len(),
    ensures
        r@ == negative_cues()[i as int],
{
    if i == 0 {
        "отрицательно"
    } else if i == 1 {
        "непонрав"
    } else if i == 2 {
        "не понрав"
    } else if i == 3 {
        "зависает"
    } else if i == 4 {
        "зависа"
    } else if i == 5 {
        "долго"
    } else if i == 6 {
        "плохо"
    } else if i == 7 {
        "ужасн"
    } else if i == 8 {
        "медлен"
    } else if i == 9 {
        "лома"
    } else {
        "обман"
    }
}

fn positive_cue(i: usize) -> (r: &'static str)
    requires
        i < positive_cues().len(),
    ensures
        r@ == positive_cues()[i as int],
{
    if i == 0 {
        "положительно"
    } else if i == 1 {
        "понрав"
    } else if i == 2 {
        "нрав"
    } else if i == 3 {
        "быстро"
    } else if i == 4 {
        "отлично"
    } else if i == 5 {
        "хорошо"
    } else if i == 6 {
        "рекоменд"
    } else {
        "удоб"
    }
}

fn has_negative_cue(t: &Vec<char>) -> (r: bool)
    ensures
        r == has_any(t@, negative_cues()),
{
    let n: usize = 11;
    assert(negative_cues().len() == n);
    let mut i: usize = 0;
    while i < n
        invariant
            i <= n,
            n == negative_cues().len(),
            forall|j: int| 0 <= j < i ==> !has_sub(t@, #[trigger] negative_cues()[j]),
        decreases n - i,
    {
        let cue = chars_of(negative_cue(i));
        if contains_chars(t, &cue) {
            return true;
        }
        i += 1;
    }
    false
}

fn has_positive_cue(t: &Vec<char>) -> (r: bool)
    ensures
        r == has_any(t@, positive_cues()),
{
    let n: usize = 8;
    assert(positive_cues().len() == n);
    let mut i: usize = 0;
    while i < n
        invariant
            i <= n,
            n == positive_cues().len(),
            forall|j: int| 0 <= j < i ==> !has_sub(t@, #[trigger] positive_cues()[j]),
        decreases n - i,
    {
        let cue = chars_of(positive_cue(i));
        if contains_chars(t, &cue) {
            return true;
        }
        i += 1;
    }
    false
}

fn contains_string(v: &Vec<String>, s: &String) -> (r: bool)
    ensures
        r == views_of_strings(v@).contains(s@),
{
    let mut i: usize = 0;
    while i < v.len()
        invariant
            i <= v.len(),
            forall|j: int| 0 <= j < i ==> v@[j]@ != s@,
        decreases v.len() - i,
    {
        if v[i] == *s {
            assert(views_of_strings(v@)[i as int] == s@);
            return true;
        }
        i += 1;
    }
    proof {
        if views_of_strings(v@).contains(s@) {
            let j = choose|j: int| 0 <= j < v@.len() && views_of_strings(v@)[j] == s@;
            assert(v@[j]@ == s@);
        }
    }
    false
}

/// Nothing but the empty sequence occurs in the empty text.
proof fn lemma_empty_has_no_cue(k: Seq<char>)
    requires
        k.len() > 0,
    ensures
        !has_sub(seq![], k),
{
}

/// The empty text matches no rule and no cue: it gets the default topic
/// alone and is neutral.
pub proof fn lemma_empty_text()
    ensures
        topics_for(seq![]) == seq![default_topic()],
        sentiment_for(seq![]) == Sentiment::Neutral,
{
    reveal_strlit("обслужив");
    reveal_strlit("мобильное прилож");
    reveal_strlit("онлайн-банк");
    reveal_strlit("сайт");
    reveal_strlit("ипотек");
    reveal_strlit("кредит");
    reveal_strlit("карт");
    reveal_strlit("терминал");
    reveal_strlit("поддержк");
    reveal_strlit("отрицательно");
    reveal_strlit("непонрав");
    reveal_strlit("не понрав");
    reveal_strlit("зависает");
    reveal_strlit("зависа");
    reveal_strlit("долго");
    reveal_strlit("плохо");
    reveal_strlit("ужасн");
    reveal_strlit("медлен");
    reveal_strlit("лома");
    reveal_strlit("обман");
    reveal_strlit("положительно");
    reveal_strlit("понрав");
    reveal_strlit("нрав");
    reveal_strlit("быстро");
    reveal_strlit("отлично");
    reveal_strlit("хорошо");
    reveal_strlit("рекоменд");
    reveal_strlit("удоб");
    let e: Seq<char> = seq![];
    assert forall|i: int| 0 <= i < topic_rules().len() implies !has_sub(
        e,
        #[trigger] topic_rules()[i].0,
    ) by {
        lemma_empty_has_no_cue(topic_rules()[i].0);
    }
    assert forall|i: int| 0 <= i < negative_cues().len() implies !has_sub(
        e,
        #[trigger] negative_cues()[i],
    ) by {
        lemma_empty_has_no_cue(negative_cues()[i]);
    }
    assert forall|i: int| 0 <= i < positive_cues().len() implies !has_sub(
        e,
        #[trigger] positive_cues()[i],
    ) by {
        lemma_empty_has_no_cue(positive_cues()[i]);
    }
    assert(matched_topics(e, 9) =~= seq![]) by {
        reveal_with_fuel(matched_topics, 10);
    }
}

/// Topics and sentiment of a text that is already lowercase.
pub fn classify_lowercased(lower: &str) -> (r: (Vec<String>, Sentiment))
    ensures
        views_of_strings(r.0@) == topics_for(lower@),
        r.1 == sentiment_for(lower@),
        r.0@.len() > 0,
{
    let t = chars_of(lower);
    let n: usize = 9;
    assert(topic_rules().len() == n);
    let mut topics: Vec<String> = Vec::new();
    let mut i: usize = 0;
    while i < n
        invariant
            i <= n,
            n == topic_rules().len(),
            t@ == lower@,
            views_of_strings(topics@) == matched_topics(t@, i as nat),
        decreases n - i,
    {
        let (keyword, topic) = topic_rule(i);
        let kw = chars_of(keyword);
        let label = topic.to_owned();
        if contains_chars(&t, &kw) && !contains_string(&topics, &label) {
            let ghost before = topics@;
            topics.push(label);
            assert(views_of_strings(topics@) =~= views_of_strings(before).push(label@));
        }
        i += 1;
    }
    if topics.len() == 0 {
        topics.push("Обслуживание".to_owned());
        assert(views_of_strings(topics@) =~= seq![default_topic()]);
    }
    let sentiment = if has_negative_cue(&t) {
        Sentiment::Negative
    } else if has_positive_cue(&t) {
        Sentiment::Positive
    } else {
        Sentiment::Neutral
    };
    (topics, sentiment)
}

/// Topics and sentiment of a text: the rules are applied to its lowercase form.
pub fn classify(text: &str) -> (r: (Vec<String>, Sentiment))
    ensures
        views_of_strings(r.0@) == topics_for(lower_of(text@)),
        r.1 == sentiment_for(lower_of(text@)),
        r.0@.len() > 0,
        text@.len() == 0 ==> views_of_strings(r.0@) == seq![default_topic()] && r.1
            == Sentiment::Neutral,
{
    let lower = lowercase(text);
    proof {
        if text@.len() == 0 {
            assert(lower@ =~= seq![]);
            lemma_empty_text();
        }
    }
    classify_lowercased(lower.as_str())
}

} // verus!
