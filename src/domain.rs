//! Data carried between the serving layer and the predictors.
use vstd::prelude::*;

use crate::tokenizer::views_of_strings;

verus! {

pub struct Topic {
    pub id: i32,
    pub name: String,
}

pub struct SentimentStats {
    pub positive: i64,
    pub neutral: i64,
    pub negative: i64,
}

pub struct TopicsStatsItem {
    pub id: i32,
    pub name: String,
    pub stats: SentimentStats,
}

pub struct Period {
    pub from: String,
    pub to: String,
}

pub struct TopicsStatsResponse {
    pub period: Period,
    pub topics: Vec<TopicsStatsItem>,
}

pub struct TimelinePoint {
    pub date: String,
    pub positive: i64,
    pub neutral: i64,
    pub negative: i64,
}

pub struct TimelineResponse {
    pub topic: Topic,
    pub timeline: Vec<TimelinePoint>,
}

/// The sentiment attached to a classified text.
#[derive(PartialEq, Eq, Structural, Clone, Copy, Debug)]
pub enum Sentiment {
    Positive,
    Neutral,
    Negative,
}

pub struct ReviewItem {
    pub id: i64,
    pub date: String,
    pub sentiment: String,
    pub text: String,
    pub region: String,
}

pub struct ReviewsFilters {
    pub topic_id: Option<i32>,
    pub sentiment: Option<String>,
    pub period: Option<Period>,
}

pub struct Pagination {
    pub page: i64,
    pub limit: i64,
    pub total: i64,
}

pub struct ReviewsResponse {
    pub filters: ReviewsFilters,
    pub pagination: Pagination,
    pub reviews: Vec<ReviewItem>,
}

pub struct StatsQuery {
    pub date_from: String,
    pub date_to: String,
    pub region: Option<String>,
}

pub struct TimelineQuery {
    pub date_from: String,
    pub date_to: String,
    pub group_by: String,
    pub region: Option<String>,
}

pub struct ReviewsQuery {
    pub topic_id: Option<i32>,
    pub date_from: Option<String>,
    pub date_to: Option<String>,
    pub sentiment: Option<String>,
    pub region: Option<String>,
    pub page: Option<i64>,
    pub limit: Option<i64>,
}

/// A batch of texts to classify.
pub struct PredictRequest {
    pub data: Vec<PredictSample>,
}

/// One text to classify, with the caller's id.
pub struct PredictSample {
    pub id: i64,
    pub text: String,
}

pub struct PredictResponse {
    pub predictions: Vec<PredictItem>,
}

/// The classification of one sample: its topics, and one sentiment label
/// per topic.
pub struct PredictItem {
    pub id: i64,
    pub topics: Vec<String>,
    pub sentiments: Vec<String>,
}

impl View for PredictItem {
    type V = (i64, Seq<Seq<char>>, Seq<Seq<char>>);

    open spec fn view(&self) -> Self::V {
        (self.id, views_of_strings(self.topics@), views_of_strings(self.sentiments@))
    }
}

impl PredictItem {
    /// As many sentiment labels as topics.
    pub open spec fn wf(&self) -> bool {
        self.sentiments@.len() == self.topics@.len()
    }
}

pub open spec fn items_view(v: Seq<PredictItem>) -> Seq<(i64, Seq<Seq<char>>, Seq<Seq<char>>)> {
    v.map_values(|p: PredictItem| p@)
}

} // verus!
