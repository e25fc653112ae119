use kabanchiki::classifier::{classify, classify_lowercased};
use kabanchiki::domain::Sentiment;

#[test]
fn mobile_app_that_hangs_is_negative() {
    let (topics, sentiment) = classify("Мобильное приложение зависает");
    assert!(topics.contains(&"Мобильное приложение".to_string()));
    assert_eq!(sentiment, Sentiment::Negative);
}

#[test]
fn convenient_fast_site_is_positive() {
    let (topics, sentiment) = classify("Очень удобный сайт, быстро работает");
    assert!(topics.contains(&"Сайт".to_string()));
    assert_eq!(sentiment, Sentiment::Positive);
}

#[test]
fn empty_text_gets_default_topic_and_neutral() {
    let (topics, sentiment) = classify("");
    assert_eq!(topics, vec!["Обслуживание".to_string()]);
    assert_eq!(sentiment, Sentiment::Neutral);
}

#[test]
fn negative_cues_win_over_positive() {
    let (_, sentiment) = classify("Хорошо, но долго");
    assert_eq!(sentiment, Sentiment::Negative);
}

#[test]
fn explicit_markers() {
    assert_eq!(classify("Отзыв: положительно").1, Sentiment::Positive);
    assert_eq!(classify("отзыв отрицательно").1, Sentiment::Negative);
    assert_eq!(classify("нейтрально").1, Sentiment::Neutral);
}

#[test]
fn topics_follow_rule_order() {
    let (topics, _) = classify("Карта и кредит, терминал в отделении, поддержка");
    assert_eq!(topics, vec!["Кредит", "Карта", "Терминал", "Поддержка"]);
}

#[test]
fn all_topics_in_rule_order() {
    let (topics, _) = classify(
        "поддержка терминал карта кредит ипотека сайт онлайн-банк мобильное приложение обслуживание",
    );
    assert_eq!(
        topics,
        vec![
            "Обслуживание",
            "Мобильное приложение",
            "Онлайн-банк",
            "Сайт",
            "Ипотека",
            "Кредит",
            "Карта",
            "Терминал",
            "Поддержка"
        ]
    );
}

#[test]
fn uppercase_text_is_lowercased() {
    let (topics, sentiment) = classify("ИПОТЕКА ОТЛИЧНО");
    assert_eq!(topics, vec!["Ипотека"]);
    assert_eq!(sentiment, Sentiment::Positive);
}

#[test]
fn lowercased_classification_is_case_sensitive() {
    let (topics, sentiment) = classify_lowercased("ИПОТЕКА ОТЛИЧНО");
    assert_eq!(topics, vec!["Обслуживание"]);
    assert_eq!(sentiment, Sentiment::Neutral);
    let (topics, sentiment) = classify_lowercased("ипотека отлично");
    assert_eq!(topics, vec!["Ипотека"]);
    assert_eq!(sentiment, Sentiment::Positive);
}

#[test]
fn sentiment_labels() {
    assert_eq!(Sentiment::Positive.label(), "положительно");
    assert_eq!(Sentiment::Neutral.label(), "нейтрально");
    assert_eq!(Sentiment::Negative.label(), "отрицательно");
}
