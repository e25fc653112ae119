use kabanchiki::text::{contains_chars, split_fragments};
use kabanchiki::tokenizer::{SimpleTokenizer, CLS_ID, MAX_LENGTH, PAD_ID, SEP_ID, UNK_ID};

fn chars(s: &str) -> Vec<char> {
    s.chars().collect()
}

#[test]
fn tokenize_has_fixed_length_and_markers() {
    let t = SimpleTokenizer::new();
    let ids = t.tokenize("Банк работает хорошо");
    assert_eq!(ids.len(), MAX_LENGTH);
    assert_eq!(&ids[..5], &[CLS_ID, 20, 40, 31, SEP_ID]);
    assert!(ids[5..].iter().all(|&x| x == PAD_ID));
}

#[test]
fn tokenize_empty_text_is_markers_and_padding() {
    let t = SimpleTokenizer::new();
    let ids = t.tokenize("");
    assert_eq!(ids.len(), 512);
    assert_eq!(ids[0], CLS_ID);
    assert_eq!(ids[1], SEP_ID);
    assert!(ids[2..].iter().all(|&x| x == PAD_ID));
}

#[test]
fn tokenize_lowercases_before_lookup() {
    let t = SimpleTokenizer::new();
    let ids = t.tokenize("БАНК Сайт");
    assert_eq!(&ids[..4], &[CLS_ID, 20, 28, SEP_ID]);
}

#[test]
fn tokenize_splits_punctuation_into_fragments() {
    let t = SimpleTokenizer::new();
    let ids = t.tokenize("сайт,зависает!");
    assert_eq!(&ids[..6], &[CLS_ID, 28, UNK_ID, 39, UNK_ID, SEP_ID]);
}

#[test]
fn tokenize_unknown_words_get_unknown_id() {
    let t = SimpleTokenizer::new();
    let ids = t.tokenize("абракадабра");
    assert_eq!(&ids[..3], &[CLS_ID, UNK_ID, SEP_ID]);
}

#[test]
fn tokenize_truncates_long_text() {
    let t = SimpleTokenizer::new();
    let text = vec!["банк"; 600].join(" ");
    let ids = t.tokenize(&text);
    assert_eq!(ids.len(), 512);
    assert_eq!(ids[0], CLS_ID);
    assert!(ids[1..511].iter().all(|&x| x == 20));
    assert_eq!(ids[511], SEP_ID);
}

#[test]
fn tokenize_exactly_filling_text_has_no_padding() {
    let t = SimpleTokenizer::new();
    let text = vec!["и"; 510].join(" ");
    let ids = t.tokenize(&text);
    assert_eq!(ids.len(), 512);
    assert_eq!(ids[510], 4);
    assert_eq!(ids[511], SEP_ID);
}

#[test]
fn default_tokenizer_matches_new() {
    let t = SimpleTokenizer::default();
    assert_eq!(t.max_length(), 512);
    assert_eq!(t.tokenize("банк"), SimpleTokenizer::new().tokenize("банк"));
}

#[test]
fn attention_mask_marks_non_padding() {
    let t = SimpleTokenizer::new();
    let mask = t.create_attention_mask(&[2, 20, 3, 0, 0, 1]);
    assert_eq!(mask, vec![1, 1, 1, 0, 0, 1]);
}

#[test]
fn attention_mask_of_tokenized_text() {
    let t = SimpleTokenizer::new();
    let ids = t.tokenize("банк работает");
    let mask = t.create_attention_mask(&ids);
    assert_eq!(mask.len(), 512);
    assert_eq!(mask.iter().filter(|&&m| m == 1).count(), 4);
    assert!(mask[4..].iter().all(|&m| m == 0));
}

#[test]
fn attention_mask_of_empty_sequence() {
    let t = SimpleTokenizer::new();
    assert!(t.create_attention_mask(&[]).is_empty());
}

#[test]
fn fragments_split_on_space_and_punctuation() {
    let f = split_fragments(&chars("  привет,мир!  ok\tда"));
    let f: Vec<String> = f.into_iter().map(|v| v.into_iter().collect()).collect();
    assert_eq!(f, vec!["привет", ",", "мир", "!", "ok", "да"]);
}

#[test]
fn substring_search() {
    assert!(contains_chars(&chars("мобильное приложение"), &chars("прилож")));
    assert!(contains_chars(&chars("abc"), &chars("")));
    assert!(!contains_chars(&chars("ab"), &chars("abc")));
    assert!(!contains_chars(&chars("сайт"), &chars("сайт!")));
}

#[test]
fn word_id_matches_exact_words() {
    let t = SimpleTokenizer::new();
    assert_eq!(t.word_id(&"банк".to_string()), Some(20));
    assert_eq!(t.word_id(&"[SEP]".to_string()), Some(SEP_ID));
    assert_eq!(t.word_id(&"работает".to_string()), Some(40));
    assert_eq!(t.word_id(&"Банк".to_string()), None);
    assert_eq!(t.word_id(&String::new()), None);
}
