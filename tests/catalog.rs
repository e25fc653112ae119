use kabanchiki::catalog::{reviews_page, topic, topic_catalog, topic_timeline, topics_stats};
use kabanchiki::domain::{ReviewsQuery, StatsQuery, TimelineQuery};

#[test]
fn catalog_has_four_topics() {
    let t = topic_catalog();
    let pairs: Vec<(i32, String)> = t.into_iter().map(|t| (t.id, t.name)).collect();
    assert_eq!(
        pairs,
        vec![
            (1, "Ипотека".to_string()),
            (2, "Карты".to_string()),
            (3, "Кредиты".to_string()),
            (4, "Вклады".to_string())
        ]
    );
}

#[test]
fn unknown_topic_gets_synthesized_name() {
    assert_eq!(topic(7).name, "Топик 7");
    assert_eq!(topic(-12).name, "Топик -12");
    assert_eq!(topic(2147483647).name, "Топик 2147483647");
}

#[test]
fn stats_echo_period() {
    let q = StatsQuery { date_from: "2024-01-01".to_string(), date_to: "2024-02-01".to_string(), region: None };
    let r = topics_stats(&q);
    assert_eq!(r.period.from, "2024-01-01");
    assert_eq!(r.period.to, "2024-02-01");
    assert_eq!(r.topics.len(), 2);
    assert_eq!(r.topics[0].name, "Ипотека");
    assert_eq!(r.topics[0].stats.positive, 120);
    assert_eq!(r.topics[1].stats.negative, 60);
}

#[test]
fn timeline_has_three_days() {
    let q = TimelineQuery {
        date_from: String::new(),
        date_to: String::new(),
        group_by: "day".to_string(),
        region: None,
    };
    let r = topic_timeline(3, &q);
    assert_eq!(r.topic.name, "Кредиты");
    assert_eq!(r.timeline.len(), 3);
    assert_eq!(r.timeline[2].date, "2024-01-03");
    assert_eq!(r.timeline[2].positive, 12);
}

#[test]
fn reviews_defaults_and_filters() {
    let q = ReviewsQuery {
        topic_id: Some(1),
        date_from: Some("2024-01-01".to_string()),
        date_to: None,
        sentiment: Some("negative".to_string()),
        region: None,
        page: None,
        limit: None,
    };
    let r = reviews_page(&q);
    assert_eq!(r.pagination.page, 1);
    assert_eq!(r.pagination.limit, 20);
    assert_eq!(r.pagination.total, 247);
    assert!(r.filters.period.is_none());
    assert_eq!(r.filters.topic_id, Some(1));
    assert_eq!(r.filters.sentiment.as_deref(), Some("negative"));
    assert_eq!(r.reviews.len(), 2);
    assert_eq!(r.reviews[0].id, 9321);
}

#[test]
fn reviews_period_when_both_dates_given() {
    let q = ReviewsQuery {
        topic_id: None,
        date_from: Some("a".to_string()),
        date_to: Some("b".to_string()),
        sentiment: None,
        region: None,
        page: Some(3),
        limit: Some(5),
    };
    let r = reviews_page(&q);
    let p = r.filters.period.unwrap();
    assert_eq!((p.from.as_str(), p.to.as_str()), ("a", "b"));
    assert_eq!((r.pagination.page, r.pagination.limit), (3, 5));
}
