//! The strategy backed by a loaded model artifact.
use vstd::prelude::*;

use crate::classifier::{default_topic, sentiment_label};
use crate::domain::{PredictItem, PredictSample, Sentiment};
use crate::predict::{heuristic_item, heuristic_view};
use crate::tokenizer::{mask_of, token_sequence, SimpleTokenizer, MAX_LENGTH};

verus! {

/// Why a model artifact could not be taken into use.
pub struct ModelLoadError {
    pub reason: String,
}

/// The result substituted for a sample whose inference failed.
pub open spec fn fallback_view(id: i64) -> (i64, Seq<Seq<char>>, Seq<Seq<char>>) {
    (id, seq![default_topic()], seq![sentiment_label(Sentiment::Neutral)])
}

/// What the strategy returns for a sample: the keyword rules' result when its
/// inference succeeded, the fixed fallback otherwise.
pub open spec fn inference_view(s: PredictSample, ok: bool) -> (
    i64,
    Seq<Seq<char>>,
    Seq<Seq<char>>,
) {
    if ok {
        heuristic_view(s)
    } else {
        fallback_view(s.id)
    }
}

pub fn fallback_item(id: i64) -> (r: PredictItem)
    ensures
        r@ == fallback_view(id),
        r.wf(),
{
    let mut topics: Vec<String> = Vec::new();
    topics.push("Обслуживание".to_owned());
    let mut sentiments: Vec<String> = Vec::new();
    sentiments.push(Sentiment::Neutral.label());
    let r = PredictItem { id, topics, sentiments };
    assert(r@.1 =~= seq![default_topic()]);
    assert(r@.2 =~= seq![sentiment_label(Sentiment::Neutral)]);
    r
}

/// Holds the model artifact's path and the tokenizer that prepares its input.
/// The model's output is not decoded: results come from the keyword rules.
pub struct OnnxPredictor {
    tokenizer: SimpleTokenizer,
    model_path: String,
}

impl OnnxPredictor {
    pub closed spec fn wf(&self) -> bool {
        self.tokenizer.wf()
    }

    pub closed spec fn path(&self) -> Seq<char> {
        self.model_path@
    }

    pub closed spec fn max_len(&self) -> nat {
        self.tokenizer.max_len()
    }

    /// Builds the predictor once the artifact at `model_path` was loaded;
    /// `load` is the outcome of that loading.
    pub fn try_new(model_path: &str, load: Result<(), String>) -> (r: Result<
        OnnxPredictor,
        ModelLoadError,
    >)
        ensures
            load is Ok <==> r is Ok,
            r matches Ok(p) ==> p.wf() && p.path() == model_path@ && p.max_len() == MAX_LENGTH,
            load matches Err(e) ==> r matches Err(x) && x.reason == e,
    {
        match load {
            Ok(()) => Ok(OnnxPredictor { tokenizer: SimpleTokenizer::new(), model_path: model_path.to_owned() }),
            Err(reason) => Err(ModelLoadError { reason }),
        }
    }

    pub fn model_path(&self) -> (r: &String)
        ensures
            r@ == self.path(),
    {
        &self.model_path
    }

    /// The model's two inputs for a text: token ids and attention mask.
    pub fn encode(&self, text: &str) -> (r: (Vec<u32>, Vec<u32>))
        requires
            self.wf(),
        ensures
            r.0@ == token_sequence(text@, self.max_len()),
            r.1@ == mask_of(r.0@),
            r.0@.len() == self.max_len(),
            r.1@.len() == self.max_len(),
    {
        let tokens = self.tokenizer.tokenize(text);
        let mask = self.tokenizer.create_attention_mask(tokens.as_slice());
        (tokens, mask)
    }

    /// One sample's attempt: a result when its inference succeeded.
    fn predict_single(&self, sample: &PredictSample, inference_ok: bool) -> (r: Option<PredictItem>)
        ensures
            inference_ok <==> r is Some,
            r matches Some(p) ==> p@ == heuristic_view(*sample) && p.wf(),
    {
        if inference_ok {
            Some(heuristic_item(sample))
        } else {
            None
        }
    }

    /// One result per sample, in input order; `inference_ok[i]` tells whether
    /// inference on sample `i` succeeded. A failed sample gets the fallback
    /// result and the rest of the batch goes on.
    pub fn predict(&self, samples: &Vec<PredictSample>, inference_ok: &Vec<bool>) -> (r: Vec<
        PredictItem,
    >)
        requires
            inference_ok@.len() == samples@.len(),
        ensures
            r@.len() == samples@.len(),
            forall|i: int|
                0 <= i < r@.len() ==> (#[trigger] r@[i])@ == inference_view(
                    samples@[i],
                    inference_ok@[i],
                ),
            forall|i: int| 0 <= i < r@.len() ==> (#[trigger] r@[i]).wf(),
    {
        let mut out: Vec<PredictItem> = Vec::new();
        let mut i: usize = 0;
        while i < samples.len()
            invariant
                i <= samples@.len(),
                inference_ok@.len() == samples@.len(),
                out@.len() == i,
                forall|j: int|
                    0 <= j < i ==> (#[trigger] out@[j])@ == inference_view(
                        samples@[j],
                        inference_ok@[j],
                    ),
                forall|j: int| 0 <= j < out@.len() ==> (#[trigger] out@[j]).wf(),
            decreases samples@.len() - i,
        {
            let item = match self.predict_single(&samples[i], inference_ok[i]) {
                Some(p) => p,
                None => fallback_item(samples[i].id),
            };
            out.push(item);
            i += 1;
        }
        out
    }
}

} // verus!
