use kabanchiki::domain::{PredictItem, PredictSample};
use kabanchiki::json::JsonValue;
use kabanchiki::onnx_predictor::{fallback_item, OnnxPredictor};
use kabanchiki::predict::{heuristic_item, MockPredictor, Predictor, ProxyPredictor};

fn sample(id: i64, text: &str) -> PredictSample {
    PredictSample { id, text: text.to_string() }
}

fn strs(v: &[&str]) -> Vec<String> {
    v.iter().map(|s| s.to_string()).collect()
}

fn obj(fields: Vec<(&str, JsonValue)>) -> JsonValue {
    JsonValue::Object(fields.into_iter().map(|(k, v)| (k.to_string(), v)).collect())
}

fn str_array(v: &[&str]) -> JsonValue {
    JsonValue::Array(v.iter().map(|s| JsonValue::Str(s.to_string())).collect())
}

#[test]
fn local_predictor_keeps_ids_and_order() {
    let p = MockPredictor::new("ai_model".to_string());
    let samples = vec![
        sample(7, "Мобильное приложение зависает"),
        sample(3, ""),
        sample(11, "Кредит и карта, всё отлично"),
    ];
    let out = p.predict(&samples);
    assert_eq!(out.len(), 3);
    assert_eq!(out.iter().map(|r| r.id).collect::<Vec<_>>(), vec![7, 3, 11]);
    assert_eq!(out[0].topics, strs(&["Мобильное приложение"]));
    assert_eq!(out[0].sentiments, strs(&["отрицательно"]));
    assert_eq!(out[1].topics, strs(&["Обслуживание"]));
    assert_eq!(out[1].sentiments, strs(&["нейтрально"]));
    assert_eq!(out[2].topics, strs(&["Кредит", "Карта"]));
    assert_eq!(out[2].sentiments, strs(&["положительно", "положительно"]));
    for r in &out {
        assert_eq!(r.topics.len(), r.sentiments.len());
    }
}

#[test]
fn local_predictor_on_empty_batch() {
    let p = MockPredictor::new(String::new());
    assert!(p.predict(&vec![]).is_empty());
}

#[test]
fn heuristic_item_replicates_sentiment_per_topic() {
    let r = heuristic_item(&sample(1, "Ипотека и кредит: плохо"));
    assert_eq!(r.topics, strs(&["Ипотека", "Кредит"]));
    assert_eq!(r.sentiments, strs(&["отрицательно", "отрицательно"]));
}

#[test]
fn inference_failure_gives_fallback_for_that_sample_only() {
    let p = OnnxPredictor::try_new("ai_model/v42_model.onnx", Ok(())).ok().unwrap();
    let samples = vec![
        sample(1, "Сайт удобный"),
        sample(2, "Мобильное приложение зависает"),
        sample(3, "Ипотека долго"),
    ];
    let out = p.predict(&samples, &vec![true, false, true]);
    assert_eq!(out.len(), 3);
    assert_eq!(out[0].id, 1);
    assert_eq!(out[0].topics, strs(&["Сайт"]));
    assert_eq!(out[0].sentiments, strs(&["положительно"]));
    assert_eq!(out[1].id, 2);
    assert_eq!(out[1].topics, strs(&["Обслуживание"]));
    assert_eq!(out[1].sentiments, strs(&["нейтрально"]));
    assert_eq!(out[2].id, 3);
    assert_eq!(out[2].topics, strs(&["Ипотека"]));
    assert_eq!(out[2].sentiments, strs(&["отрицательно"]));
}

#[test]
fn fallback_item_is_default_topic_and_neutral() {
    let r = fallback_item(42);
    assert_eq!(r.id, 42);
    assert_eq!(r.topics, strs(&["Обслуживание"]));
    assert_eq!(r.sentiments, strs(&["нейтрально"]));
}

#[test]
fn onnx_construction_failure_is_reported() {
    match OnnxPredictor::try_new("missing.onnx", Err("no such file".to_string())) {
        Err(e) => assert_eq!(e.reason, "no such file"),
        Ok(_) => panic!("construction should fail"),
    }
}

#[test]
fn onnx_encode_gives_ids_and_mask() {
    let p = OnnxPredictor::try_new("m.onnx", Ok(())).ok().unwrap();
    assert_eq!(p.model_path(), "m.onnx");
    let (ids, mask) = p.encode("банк");
    assert_eq!(ids.len(), 512);
    assert_eq!(&ids[..3], &[2, 20, 3]);
    assert_eq!(&mask[..4], &[1, 1, 1, 0]);
}

#[test]
fn remote_unreachable_gives_empty_result() {
    let p = ProxyPredictor::new("http://127.0.0.1:9/predict".to_string());
    assert_eq!(p.target(), "http://127.0.0.1:9/predict");
    assert!(p.results_from(&None).is_empty());
}

#[test]
fn remote_response_is_decoded() {
    let p = ProxyPredictor::new("http://service/predict".to_string());
    let good = obj(vec![
        ("id", JsonValue::Number(Some(5))),
        ("topics", str_array(&["Карта", "Сайт"])),
        ("sentiments", str_array(&["положительно", "нейтрально"])),
    ]);
    let response = obj(vec![("predictions", JsonValue::Array(vec![good]))]);
    let out: Vec<PredictItem> = p.results_from(&Some(response));
    assert_eq!(out.len(), 1);
    assert_eq!(out[0].id, 5);
    assert_eq!(out[0].topics, strs(&["Карта", "Сайт"]));
    assert_eq!(out[0].sentiments, strs(&["положительно", "нейтрально"]));
}

#[test]
fn remote_malformed_elements_are_dropped() {
    let p = ProxyPredictor::new("u".to_string());
    let no_id = obj(vec![("topics", str_array(&["a"])), ("sentiments", str_array(&["b"]))]);
    let float_id = obj(vec![
        ("id", JsonValue::Number(None)),
        ("topics", str_array(&["a"])),
        ("sentiments", str_array(&["b"])),
    ]);
    let uneven = obj(vec![
        ("id", JsonValue::Number(Some(2))),
        ("topics", str_array(&["a", "b"])),
        ("sentiments", str_array(&["c"])),
    ]);
    let mixed = obj(vec![
        ("id", JsonValue::Number(Some(3))),
        ("topics", JsonValue::Array(vec![JsonValue::Str("a".to_string()), JsonValue::Null])),
        ("sentiments", JsonValue::Array(vec![JsonValue::Bool(true), JsonValue::Str("b".to_string())])),
    ]);
    let response = obj(vec![(
        "predictions",
        JsonValue::Array(vec![no_id, float_id, uneven, JsonValue::Null, mixed]),
    )]);
    let out = p.results_from(&Some(response));
    assert_eq!(out.len(), 1);
    assert_eq!(out[0].id, 3);
    assert_eq!(out[0].topics, strs(&["a"]));
    assert_eq!(out[0].sentiments, strs(&["b"]));
}

#[test]
fn remote_wrong_top_level_shape_gives_empty_result() {
    let p = ProxyPredictor::new("u".to_string());
    assert!(p.results_from(&Some(JsonValue::Array(vec![]))).is_empty());
    assert!(p.results_from(&Some(obj(vec![("data", JsonValue::Array(vec![]))]))).is_empty());
    assert!(p
        .results_from(&Some(obj(vec![("predictions", JsonValue::Str("x".to_string()))])))
        .is_empty());
}
