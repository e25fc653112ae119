//! The one-time choice of a prediction strategy at startup.
use vstd::prelude::*;

use crate::config::{has_visible, non_blank, Config};
use crate::onnx_predictor::OnnxPredictor;
use crate::predict::{MockPredictor, ProxyPredictor};
use crate::tokenizer::MAX_LENGTH;

verus! {

/// File name of the model artifact inside the model directory.
pub const MODEL_FILE_NAME: &'static str = "v42_model.onnx";

#[derive(PartialEq, Eq, Structural, Clone, Copy, Debug)]
pub enum PredictorKind {
    Proxy,
    Onnx,
    Mock,
}

/// A proxy URL is configured and is not blank.
pub open spec fn proxy_wanted(config: Config) -> bool {
    config.proxy_url matches Some(u) && has_visible(u@)
}

/// The strategy to try first: the proxy when one is configured, else the
/// model when its artifact is present, else the local rules.
pub open spec fn planned(config: Config, model_present: bool) -> PredictorKind {
    if proxy_wanted(config) {
        PredictorKind::Proxy
    } else if model_present {
        PredictorKind::Onnx
    } else {
        PredictorKind::Mock
    }
}

pub fn planned_kind(config: &Config, model_present: bool) -> (r: PredictorKind)
    ensures
        r == planned(*config, model_present),
{
    let wants_proxy = match &config.proxy_url {
        Some(u) => non_blank(u.as_str()),
        None => false,
    };
    if wants_proxy {
        PredictorKind::Proxy
    } else if model_present {
        PredictorKind::Onnx
    } else {
        PredictorKind::Mock
    }
}

/// The strategy chosen for the process.
pub enum SelectedPredictor {
    Proxy(ProxyPredictor),
    Onnx(OnnxPredictor),
    Mock(MockPredictor),
}

/// Chooses the strategy. `model_present` tells whether the artifact exists at
/// `model_path`, and `load` is the outcome of loading it (only looked at when
/// the model is the planned strategy). A failed load falls back to the local
/// rules.
pub fn initialize_predictor(
    config: &Config,
    model_path: &str,
    model_present: bool,
    load: Result<(), String>,
) -> (r: SelectedPredictor)
    ensures
        proxy_wanted(*config) ==> (r matches SelectedPredictor::Proxy(p) && config.proxy_url
            matches Some(u) && p.url() == u@),
        !proxy_wanted(*config) && model_present && load is Ok ==> (r matches SelectedPredictor::Onnx(
            p,
        ) && p.wf() && p.path() == model_path@ && p.max_len() == MAX_LENGTH),
        !proxy_wanted(*config) && (!model_present || load is Err) ==> (r matches SelectedPredictor::Mock(
            p,
        ) && p.model_dir() == config.model_dir@),
{
    match planned_kind(config, model_present) {
        PredictorKind::Proxy => {
            let url = match &config.proxy_url {
                Some(u) => u.clone(),
                None => String::new(),
            };
            SelectedPredictor::Proxy(ProxyPredictor::new(url))
        },
        PredictorKind::Onnx => match OnnxPredictor::try_new(model_path, load) {
            Ok(p) => SelectedPredictor::Onnx(p),
            Err(_) => SelectedPredictor::Mock(MockPredictor::new(config.model_dir.clone())),
        },
        PredictorKind::Mock => SelectedPredictor::Mock(MockPredictor::new(config.model_dir.clone())),
    }
}

} // verus!
