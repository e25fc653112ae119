//! The fixed sample data served by the dashboard endpoints.
use vstd::prelude::*;

use crate::domain::{
    Pagination, Period, ReviewItem, ReviewsFilters, ReviewsQuery, ReviewsResponse, SentimentStats,
    StatsQuery, TimelinePoint, TimelineQuery, TimelineResponse, Topic, TopicsStatsItem,
    TopicsStatsResponse,
};

verus! {

/// Page shown when the query names none.
pub const DEFAULT_PAGE: i64 = 1;

/// Page size used when the query names none.
pub const DEFAULT_LIMIT: i64 = 20;

/// Number of reviews the sample data reports in total.
pub const SAMPLE_TOTAL: i64 = 247;

pub open spec fn digit_char(d: int) -> char {
    seq!['0', '1', '2', '3', '4', '5', '6', '7', '8', '9'][d]
}

/// Decimal digits of `n`, most significant first.
pub open spec fn nat_digits(n: nat) -> Seq<char>
    decreases n,
{
    if n < 10 {
        seq![digit_char(n as int)]
    } else {
        nat_digits(n / 10).push(digit_char((n % 10) as int))
    }
}

/// `n` written in decimal, with a leading `-` when negative.
pub open spec fn decimal_text(n: int) -> Seq<char> {
    if n < 0 {
        seq!['-'] + nat_digits((-n) as nat)
    } else {
        nat_digits(n as nat)
    }
}

/// Relies on `<i32 as Display>` through `ToString`: decimal digits with a
/// leading `-` for negative values.
#[verifier::external_body]
fn decimal_of(n: i32) -> (r: String)
    ensures
        r@ == decimal_text(n as int),
{
    n.to_string()
}

/// Name of a topic of the catalog; other ids get a synthesized name.
pub open spec fn topic_name(id: i32) -> Seq<char> {
    if id == 1 {
        "Ипотека"@
    } else if id == 2 {
        "Карты"@
    } else if id == 3 {
        "Кредиты"@
    } else if id == 4 {
        "Вклады"@
    } else {
        "Топик "@ + decimal_text(id as int)
    }
}

pub fn topic(id: i32) -> (r: Topic)
    ensures
        r.id == id,
        r.name@ == topic_name(id),
{
    let name = if id == 1 {
        "Ипотека".to_owned()
    } else if id == 2 {
        "Карты".to_owned()
    } else if id == 3 {
        "Кредиты".to_owned()
    } else if id == 4 {
        "Вклады".to_owned()
    } else {
        let digits = decimal_of(id);
        "Топик ".to_owned().concat(digits.as_str())
    };
    Topic { id, name }
}

/// The four topics of the catalog, ids 1 to 4.
pub fn topic_catalog() -> (r: Vec<Topic>)
    ensures
        r@.len() == 4,
        forall|i: int| 0 <= i < 4 ==> r@[i].id == i + 1 && r@[i].name@ == topic_name((i + 1) as i32),
{
    let mut v: Vec<Topic> = Vec::new();
    v.push(topic(1));
    v.push(topic(2));
    v.push(topic(3));
    v.push(topic(4));
    v
}

fn stats_item(id: i32, positive: i64, neutral: i64, negative: i64) -> (r: TopicsStatsItem)
    ensures
        r.id == id,
        r.name@ == topic_name(id),
        r.stats == (SentimentStats { positive, neutral, negative }),
{
    let t = topic(id);
    TopicsStatsItem { id, name: t.name, stats: SentimentStats { positive, neutral, negative } }
}

/// Sentiment counts per topic over the queried period.
pub fn topics_stats(query: &StatsQuery) -> (r: TopicsStatsResponse)
    ensures
        r.period.from@ == query.date_from@,
        r.period.to@ == query.date_to@,
        r.topics@.len() == 2,
        r.topics@[0].id == 1 && r.topics@[0].name@ == topic_name(1),
        r.topics@[0].stats == (SentimentStats { positive: 120, neutral: 45, negative: 35 }),
        r.topics@[1].id == 2 && r.topics@[1].name@ == topic_name(2),
        r.topics@[1].stats == (SentimentStats { positive: 200, neutral: 80, negative: 60 }),
{
    let period = Period { from: query.date_from.clone(), to: query.date_to.clone() };
    let mut topics: Vec<TopicsStatsItem> = Vec::new();
    topics.push(stats_item(1, 120, 45, 35));
    topics.push(stats_item(2, 200, 80, 60));
    TopicsStatsResponse { period, topics }
}

fn point(date: &str, positive: i64, neutral: i64, negative: i64) -> (r: TimelinePoint)
    ensures
        r.date@ == date@,
        r.positive == positive && r.neutral == neutral && r.negative == negative,
{
    TimelinePoint { date: date.to_owned(), positive, neutral, negative }
}

/// Daily sentiment counts of one topic.
pub fn topic_timeline(topic_id: i32, query: &TimelineQuery) -> (r: TimelineResponse)
    ensures
        r.topic.id == topic_id,
        r.topic.name@ == topic_name(topic_id),
        r.timeline@.len() == 3,
        r.timeline@[0].date@ == "2024-01-01"@ && r.timeline@[0].positive == 5
            && r.timeline@[0].neutral == 2 && r.timeline@[0].negative == 1,
        r.timeline@[1].date@ == "2024-01-02"@ && r.timeline@[1].positive == 8
            && r.timeline@[1].neutral == 3 && r.timeline@[1].negative == 4,
        r.timeline@[2].date@ == "2024-01-03"@ && r.timeline@[2].positive == 12
            && r.timeline@[2].neutral == 5 && r.timeline@[2].negative == 2,
{
    let mut timeline: Vec<TimelinePoint> = Vec::new();
    timeline.push(point("2024-01-01", 5, 2, 1));
    timeline.push(point("2024-01-02", 8, 3, 4));
    timeline.push(point("2024-01-03", 12, 5, 2));
    TimelineResponse { topic: topic(topic_id), timeline }
}

fn review(id: i64, text: &str, region: &str) -> (r: ReviewItem)
    ensures
        r.id == id,
        r.date@ == "2024-01-03"@,
        r.sentiment@ == "negative"@,
        r.text@ == text@,
        r.region@ == region@,
{
    ReviewItem {
        id,
        date: "2024-01-03".to_owned(),
        sentiment: "negative".to_owned(),
        text: text.to_owned(),
        region: region.to_owned(),
    }
}

fn copy_opt(v: &Option<String>) -> (r: Option<String>)
    ensures
        r == *v,
{
    match v {
        Some(s) => Some(s.clone()),
        None => None,
    }
}

/// One page of reviews. The filters echo the query, with a period only when
/// both of its dates are given; page and limit take their defaults when absent.
pub fn reviews_page(query: &ReviewsQuery) -> (r: ReviewsResponse)
    ensures
        r.filters.topic_id == query.topic_id,
        r.filters.sentiment == query.sentiment,
        (query.date_from is Some && query.date_to is Some) <==> r.filters.period is Some,
        r.filters.period matches Some(p) ==> p.from@ == query.date_from->Some_0@,
        r.filters.period matches Some(p) ==> p.to@ == query.date_to->Some_0@,
        r.pagination.page == (match query.page {
            Some(p) => p,
            None => DEFAULT_PAGE,
        }),
        r.pagination.limit == (match query.limit {
            Some(l) => l,
            None => DEFAULT_LIMIT,
        }),
        r.pagination.total == SAMPLE_TOTAL,
        r.reviews@.len() == 2,
        r.reviews@[0].id == 9321 && r.reviews@[1].id == 9322,
{
    let period = match (&query.date_from, &query.date_to) {
        (Some(from), Some(to)) => Some(Period { from: from.clone(), to: to.clone() }),
        _ => None,
    };
    let filters = ReviewsFilters {
        topic_id: query.topic_id,
        sentiment: copy_opt(&query.sentiment),
        period,
    };
    let page = match query.page {
        Some(p) => p,
        None => DEFAULT_PAGE,
    };
    let limit = match query.limit {
        Some(l) => l,
        None => DEFAULT_LIMIT,
    };
    let pagination = Pagination { page, limit, total: SAMPLE_TOTAL };
    let mut reviews: Vec<ReviewItem> = Vec::new();
    reviews.push(review(9321, "Очень долго оформляется ипотека!", "Москва"));
    reviews.push(review(9322, "Банк затянул с одобрением заявки.", "Санкт-Петербург"));
    ReviewsResponse { filters, pagination, reviews }
}

} // verus!
