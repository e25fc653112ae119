//! The prediction capability and its local and remote strategies.
use vstd::prelude::*;

use crate::classifier::{classify, sentiment_for, sentiment_label, topics_for};
use crate::domain::{items_view, PredictItem, PredictSample, Sentiment};
use crate::json::{decode_response, response_items, JsonValue};
use crate::text::lower_of;
use crate::tokenizer::views_of_strings;

verus! {

/// The result the keyword rules give for one sample: its id, its topics, and
/// the text's sentiment label once per topic.
pub open spec fn heuristic_view(s: PredictSample) -> (i64, Seq<Seq<char>>, Seq<Seq<char>>) {
    let t = lower_of(s.text@);
    (s.id, topics_for(t), Seq::new(topics_for(t).len(), |i: int| sentiment_label(sentiment_for(t))))
}

/// `n` copies of the label of `s`.
pub fn repeat_label(s: Sentiment, n: usize) -> (r: Vec<String>)
    ensures
        views_of_strings(r@) == Seq::new(n as nat, |i: int| sentiment_label(s)),
        r@.len() == n,
{
    let mut out: Vec<String> = Vec::new();
    let mut i: usize = 0;
    while i < n
        invariant
            i <= n,
            out@.len() == i,
            views_of_strings(out@) == Seq::new(i as nat, |j: int| sentiment_label(s)),
        decreases n - i,
    {
        let ghost before = out@;
        out.push(s.label());
        assert(views_of_strings(out@) =~= views_of_strings(before).push(sentiment_label(s)));
        assert(views_of_strings(out@) =~= Seq::new((i + 1) as nat, |j: int| sentiment_label(s)));
        i += 1;
    }
    out
}

/// Classifies one sample with the keyword rules.
pub fn heuristic_item(sample: &PredictSample) -> (r: PredictItem)
    ensures
        r@ == heuristic_view(*sample),
        r.wf(),
{
    let (topics, sentiment) = classify(sample.text.as_str());
    let sentiments = repeat_label(sentiment, topics.len());
    PredictItem { id: sample.id, topics, sentiments }
}

/// A classification strategy over a batch of samples.
pub trait Predictor {
    /// What the strategy returns for a batch.
    spec fn predicts(&self, samples: Seq<PredictSample>, out: Seq<PredictItem>) -> bool;

    /// At most one result per sample, each with one sentiment per topic.
    fn predict(&self, samples: &Vec<PredictSample>) -> (r: Vec<PredictItem>)
        ensures
            self.predicts(samples@, r@),
            r@.len() <= samples@.len(),
            forall|i: int| 0 <= i < r@.len() ==> (#[trigger] r@[i]).wf(),
    ;
}

/// Classifies every sample with the keyword rules; never fails.
pub struct MockPredictor {
    model_dir: String,
}

impl MockPredictor {
    pub fn new(model_dir: String) -> (r: Self)
        ensures
            r.model_dir() == model_dir@,
    {
        MockPredictor { model_dir }
    }

    pub closed spec fn model_dir(&self) -> Seq<char> {
        self.model_dir@
    }
}

impl Predictor for MockPredictor {
    /// One result per sample, in input order, each the keyword rules' result.
    open spec fn predicts(&self, samples: Seq<PredictSample>, out: Seq<PredictItem>) -> bool {
        items_view(out) == samples.map_values(|s: PredictSample| heuristic_view(s))
    }

    fn predict(&self, samples: &Vec<PredictSample>) -> (r: Vec<PredictItem>) {
        let mut out: Vec<PredictItem> = Vec::new();
        let mut i: usize = 0;
        while i < samples.len()
            invariant
                i <= samples@.len(),
                items_view(out@) == samples@.take(i as int).map_values(
                    |s: PredictSample| heuristic_view(s),
                ),
                forall|j: int| 0 <= j < out@.len() ==> (#[trigger] out@[j]).wf(),
            decreases samples@.len() - i,
        {
            let item = heuristic_item(&samples[i]);
            let ghost before = out@;
            out.push(item);
            assert(items_view(out@) =~= items_view(before).push(item@));
            assert(samples@.take(i + 1).map_values(|s: PredictSample| heuristic_view(s))
                =~= samples@.take(i as int).map_values(|s: PredictSample| heuristic_view(s)).push(
                heuristic_view(samples@[i as int]),
            ));
            i += 1;
        }
        assert(samples@.take(i as int) =~= samples@);
        out
    }
}

/// The local strategy returns one result per sample, and the ids of the
/// results are the ids of the samples, in the same order.
pub proof fn lemma_local_keeps_ids(
    p: MockPredictor,
    samples: Seq<PredictSample>,
    out: Seq<PredictItem>,
)
    requires
        p.predicts(samples, out),
    ensures
        out.len() == samples.len(),
        forall|i: int| 0 <= i < out.len() ==> (#[trigger] out[i]).id == samples[i].id,
{
    assert(items_view(out).len() == out.len());
    assert forall|i: int| 0 <= i < out.len() implies (#[trigger] out[i]).id == samples[i].id by {
        assert(items_view(out)[i] == out[i]@);
    }
}

/// Forwards batches to a remote classification service at a fixed URL.
pub struct ProxyPredictor {
    url: String,
}

impl ProxyPredictor {
    pub fn new(url: String) -> (r: Self)
        ensures
            r.url() == url@,
    {
        ProxyPredictor { url }
    }

    pub closed spec fn url(&self) -> Seq<char> {
        self.url@
    }

    pub fn target(&self) -> (r: &String)
        ensures
            r@ == self.url(),
    {
        &self.url
    }

    /// The results of one call to the service: those the JSON answer carries,
    /// and none when the call failed or its body was not JSON.
    pub fn results_from(&self, response: &Option<JsonValue>) -> (r: Vec<PredictItem>)
        ensures
            items_view(r@) == response_items(*response),
            response is None ==> r@.len() == 0,
            forall|i: int| 0 <= i < r@.len() ==> (#[trigger] r@[i]).wf(),
    {
        decode_response(response)
    }
}

} // verus!
