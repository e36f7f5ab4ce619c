use quick_translate::catalog::{
    default_model,    index_of, language_code, language_code_table, language_name, language_name_table, model_id,
    model_id_table, model_index, model_name, model_name_table, target_language_code,
    target_language_code_table, target_language_name, target_language_name_table,
    LANGUAGE_COUNT, MODEL_COUNT, TARGET_LANGUAGE_COUNT,
};

#[test]
fn model_catalog_lists_six_models() {
    assert_eq!(MODEL_COUNT, 6);
    assert_eq!(model_id_table().len(), 6);
    assert_eq!(model_name_table().len(), 6);
    assert_eq!(model_id(0), "openai/gpt-oss-20b");
    assert_eq!(model_name(0), "GPT-OSS 20B (veloce)");
    assert_eq!(model_id(5), "deepseek-r1-distill-llama-70b");
    assert_eq!(model_name(2), "Llama 3.1 8B (velocissimo)");
}

#[test]
fn model_lookup_finds_each_model() {
    for i in 0..MODEL_COUNT {
        assert_eq!(model_index(model_id(i)), Some(i));
    }
    assert_eq!(model_index("gpt-4"), None);
    assert_eq!(model_index(""), None);
}

#[test]
fn targets_follow_sources() {
    assert_eq!(LANGUAGE_COUNT, 16);
    assert_eq!(TARGET_LANGUAGE_COUNT, 15);
    assert_eq!(language_code(0), "auto");
    assert_eq!(language_name(0), "Rileva lingua");
    for i in 0..TARGET_LANGUAGE_COUNT {
        assert_eq!(language_code(i + 1), target_language_code(i));
        assert_eq!(language_name(i + 1), target_language_name(i));
    }
    assert_eq!(target_language_code(14), "tr");
    assert_eq!(target_language_name(6), "Русский");
    assert_eq!(language_code_table().len(), 16);
    assert_eq!(language_name_table().len(), 16);
    assert_eq!(target_language_code_table().len(), 15);
    assert_eq!(target_language_name_table().len(), 15);
}

#[test]
fn index_of_takes_first_match() {
    let keys = vec!["a", "b", "a"];
    assert_eq!(index_of(&keys, "a"), Some(0));
    assert_eq!(index_of(&keys, "b"), Some(1));
    assert_eq!(index_of(&keys, "c"), None);
    assert_eq!(index_of(&Vec::new(), "a"), None);
}

#[test]
fn default_model_is_first_in_list() {
    assert_eq!(default_model(), "openai/gpt-oss-20b");
    assert_eq!(default_model(), model_id(0));
}
