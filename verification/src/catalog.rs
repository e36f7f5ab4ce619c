//! The catalogs the translator offers: the chat models, the languages a text
//! may be written in, and the languages it may be translated to.
use vstd::prelude::*;

use crate::text::str_equal;

verus! {

broadcast use vstd::string::group_string_axioms;

/// The contents of a table of string slices.
pub open spec fn views(v: Seq<&str>) -> Seq<Seq<char>> {
    v.map_values(|k: &str| k@)
}

/// `r` is the position of the first entry of `table` equal to `key`, or
/// `None` where no entry is.
pub open spec fn first_match(table: Seq<Seq<char>>, key: Seq<char>, r: Option<usize>) -> bool {
    match r {
        Some(i) => i < table.len() && table[i as int] == key && forall|j: int|
            0 <= j < i ==> table[j] != key,
        None => forall|j: int| 0 <= j < table.len() ==> table[j] != key,
    }
}

/// The position of the first entry of `table` equal to `key`.
pub open spec fn find_first(table: Seq<Seq<char>>, key: Seq<char>) -> Option<int>
    decreases table.len(),
{
    if table.len() == 0 {
        None
    } else if table[0] == key {
        Some(0)
    } else {
        match find_first(table.drop_first(), key) {
            Some(i) => Some(i + 1),
            None => None,
        }
    }
}

/// A position as an integer.
pub open spec fn position_of(r: Option<usize>) -> Option<int> {
    match r {
        Some(i) => Some(i as int),
        None => None,
    }
}

/// A first match is what `find_first` names.
pub proof fn lemma_first_match_is_find_first(table: Seq<Seq<char>>, key: Seq<char>, r: Option<usize>)
    requires
        first_match(table, key, r),
    ensures
        find_first(table, key) == position_of(r),
    decreases table.len(),
{
    if table.len() > 0 && table[0] != key {
        let rest = table.drop_first();
        let r2: Option<usize> = match r {
            Some(i) => Some((i - 1) as usize),
            None => None,
        };
        if let Some(i) = r {
            assert(i > 0);
            assert forall|j: int| 0 <= j < i - 1 implies rest[j] != key by {
                assert(rest[j] == table[j + 1]);
            }
        } else {
            assert forall|j: int| 0 <= j < rest.len() implies rest[j] != key by {
                assert(rest[j] == table[j + 1]);
            }
        }
        lemma_first_match_is_find_first(rest, key, r2);
    } else if table.len() > 0 {
        if let Some(i) = r {
            assert(i == 0);
        }
    }
}

/// The position of the first entry of `keys` equal to `key`.
pub fn index_of(keys: &Vec<&str>, key: &str) -> (r: Option<usize>)
    ensures
        first_match(views(keys@), key@, r),
        position_of(r) == find_first(views(keys@), key@),
{
    let r = index_of_loop(keys, key);
    proof {
        lemma_first_match_is_find_first(views(keys@), key@, r);
    }
    r
}

fn index_of_loop(keys: &Vec<&str>, key: &str) -> (r: Option<usize>)
    ensures
        first_match(views(keys@), key@, r),
{
    let n = keys.len();
    for i in 0..n
        invariant
            n == keys@.len(),
            forall|j: int| 0 <= j < i ==> views(keys@)[j] != key@,
    {
        if str_equal(keys[i], key) {
            return Some(i);
        }
    }
    None
}

/// The identifiers of the chat models, in the order the settings list them.
pub open spec fn model_ids() -> Seq<Seq<char>> {
    seq![
        "openai/gpt-oss-20b"@,
        "llama-3.3-70b-versatile"@,
        "llama-3.1-8b-instant"@,
        "gemma2-9b-it"@,
        "mixtral-8x7b-32768"@,
        "deepseek-r1-distill-llama-70b"@,
    ]
}

/// The display names of the chat models, position by position with `model_ids`.
pub open spec fn model_names() -> Seq<Seq<char>> {
    seq![
        "GPT-OSS 20B (veloce)"@,
        "Llama 3.3 70B"@,
        "Llama 3.1 8B (velocissimo)"@,
        "Gemma 2 9B"@,
        "Mixtral 8x7B"@,
        "DeepSeek R1 70B"@,
    ]
}

/// The number of chat models.
pub const MODEL_COUNT: usize = 6;

/// The model used where none is configured.
pub open spec fn default_model_spec() -> Seq<char> {
    "openai/gpt-oss-20b"@
}

/// The identifier of the model used where none is configured.
pub fn default_model() -> (r: &'static str)
    ensures
        r@ == default_model_spec(),
        r@ == model_ids()[0],
{
    "openai/gpt-oss-20b"
}

/// The identifiers of the chat models.
pub fn model_id_table() -> (v: Vec<&'static str>)
    ensures
        views(v@) == model_ids(),
        v@.len() == MODEL_COUNT,
{
    let v = vec![
        "openai/gpt-oss-20b",
        "llama-3.3-70b-versatile",
        "llama-3.1-8b-instant",
        "gemma2-9b-it",
        "mixtral-8x7b-32768",
        "deepseek-r1-distill-llama-70b",
    ];
    assert(views(v@) =~= model_ids());
    v
}

/// The display names of the chat models.
pub fn model_name_table() -> (v: Vec<&'static str>)
    ensures
        views(v@) == model_names(),
        v@.len() == MODEL_COUNT,
{
    let v = vec![
        "GPT-OSS 20B (veloce)",
        "Llama 3.3 70B",
        "Llama 3.1 8B (velocissimo)",
        "Gemma 2 9B",
        "Mixtral 8x7B",
        "DeepSeek R1 70B",
    ];
    assert(views(v@) =~= model_names());
    v
}

/// The identifier of the model at position `i`.
pub fn model_id(i: usize) -> (r: &'static str)
    requires
        i < MODEL_COUNT,
    ensures
        r@ == model_ids()[i as int],
{
    let t = model_id_table();
    t[i]
}

/// The display name of the model at position `i`.
pub fn model_name(i: usize) -> (r: &'static str)
    requires
        i < MODEL_COUNT,
    ensures
        r@ == model_names()[i as int],
{
    let t = model_name_table();
    t[i]
}

/// The position of the model with identifier `id`.
pub fn model_index(id: &str) -> (r: Option<usize>)
    ensures
        first_match(model_ids(), id@, r),
        position_of(r) == find_first(model_ids(), id@),
{
    index_of(&model_id_table(), id)
}

/// The codes of the languages a text may be written in; the first stands for
/// detecting the language.
pub open spec fn language_codes() -> Seq<Seq<char>> {
    seq![
        "auto"@,
        "it"@,
        "en"@,
        "es"@,
        "fr"@,
        "de"@,
        "pt"@,
        "ru"@,
        "zh"@,
        "ja"@,
        "ko"@,
        "nl"@,
        "pl"@,
        "sv"@,
        "ar"@,
        "tr"@,
    ]
}

/// The names of the source languages, position by position with `language_codes`.
pub open spec fn language_names() -> Seq<Seq<char>> {
    seq![
        "Rileva lingua"@,
        "Italiano"@,
        "English"@,
        "Español"@,
        "Français"@,
        "Deutsch"@,
        "Português"@,
        "Русский"@,
        "中文"@,
        "日本語"@,
        "한국어"@,
        "Nederlands"@,
        "Polski"@,
        "Svenska"@,
        "العربية"@,
        "Türkçe"@,
    ]
}

/// The number of source languages.
pub const LANGUAGE_COUNT: usize = 16;

/// The codes of the languages a text may be translated to.
pub open spec fn target_language_codes() -> Seq<Seq<char>> {
    seq![
        "it"@,
        "en"@,
        "es"@,
        "fr"@,
        "de"@,
        "pt"@,
        "ru"@,
        "zh"@,
        "ja"@,
        "ko"@,
        "nl"@,
        "pl"@,
        "sv"@,
        "ar"@,
        "tr"@,
    ]
}

/// The names of the target languages, position by position with
/// `target_language_codes`.
pub open spec fn target_language_names() -> Seq<Seq<char>> {
    seq![
        "Italiano"@,
        "English"@,
        "Español"@,
        "Français"@,
        "Deutsch"@,
        "Português"@,
        "Русский"@,
        "中文"@,
        "日本語"@,
        "한국어"@,
        "Nederlands"@,
        "Polski"@,
        "Svenska"@,
        "العربية"@,
        "Türkçe"@,
    ]
}

/// The number of target languages.
pub const TARGET_LANGUAGE_COUNT: usize = 15;

/// The source language codes.
pub fn language_code_table() -> (v: Vec<&'static str>)
    ensures
        views(v@) == language_codes(),
        v@.len() == LANGUAGE_COUNT,
{
    let v = vec![
        "auto",
        "it",
        "en",
        "es",
        "fr",
        "de",
        "pt",
        "ru",
        "zh",
        "ja",
        "ko",
        "nl",
        "pl",
        "sv",
        "ar",
        "tr",
    ];
    assert(views(v@) =~= language_codes());
    v
}

/// The source language names.
pub fn language_name_table() -> (v: Vec<&'static str>)
    ensures
        views(v@) == language_names(),
        v@.len() == LANGUAGE_COUNT,
{
    let v = vec![
        "Rileva lingua",
        "Italiano",
        "English",
        "Español",
        "Français",
        "Deutsch",
        "Português",
        "Русский",
        "中文",
        "日本語",
        "한국어",
        "Nederlands",
        "Polski",
        "Svenska",
        "العربية",
        "Türkçe",
    ];
    assert(views(v@) =~= language_names());
    v
}

/// The target language codes.
pub fn target_language_code_table() -> (v: Vec<&'static str>)
    ensures
        views(v@) == target_language_codes(),
        v@.len() == TARGET_LANGUAGE_COUNT,
{
    let v = vec![
        "it",
        "en",
        "es",
        "fr",
        "de",
        "pt",
        "ru",
        "zh",
        "ja",
        "ko",
        "nl",
        "pl",
        "sv",
        "ar",
        "tr",
    ];
    assert(views(v@) =~= target_language_codes());
    v
}

/// The target language names.
pub fn target_language_name_table() -> (v: Vec<&'static str>)
    ensures
        views(v@) == target_language_names(),
        v@.len() == TARGET_LANGUAGE_COUNT,
{
    let v = vec![
        "Italiano",
        "English",
        "Español",
        "Français",
        "Deutsch",
        "Português",
        "Русский",
        "中文",
        "日本語",
        "한국어",
        "Nederlands",
        "Polski",
        "Svenska",
        "العربية",
        "Türkçe",
    ];
    assert(views(v@) =~= target_language_names());
    v
}

/// The code of the source language at position `i`.
pub fn language_code(i: usize) -> (r: &'static str)
    requires
        i < LANGUAGE_COUNT,
    ensures
        r@ == language_codes()[i as int],
{
    let t = language_code_table();
    t[i]
}

/// The name of the source language at position `i`.
pub fn language_name(i: usize) -> (r: &'static str)
    requires
        i < LANGUAGE_COUNT,
    ensures
        r@ == language_names()[i as int],
{
    let t = language_name_table();
    t[i]
}

/// The code of the target language at position `i`.
pub fn target_language_code(i: usize) -> (r: &'static str)
    requires
        i < TARGET_LANGUAGE_COUNT,
    ensures
        r@ == target_language_codes()[i as int],
{
    let t = target_language_code_table();
    t[i]
}

/// The name of the target language at position `i`.
pub fn target_language_name(i: usize) -> (r: &'static str)
    requires
        i < TARGET_LANGUAGE_COUNT,
    ensures
        r@ == target_language_names()[i as int],
{
    let t = target_language_name_table();
    t[i]
}

/// The target languages are the source languages after the first, entry by
/// entry: source position `i + 1` is target position `i`, code and name.
pub proof fn lemma_targets_follow_sources()
    ensures
        language_codes().len() == target_language_codes().len() + 1,
        language_names().len() == target_language_names().len() + 1,
        forall|i: int|
            0 <= i < target_language_codes().len() ==> #[trigger] language_codes()[i + 1]
                == target_language_codes()[i] && language_names()[i + 1]
                == target_language_names()[i],
{
    assert(language_codes().drop_first() =~= target_language_codes());
    assert(language_names().drop_first() =~= target_language_names());
    assert forall|i: int| 0 <= i < target_language_codes().len() implies #[trigger] language_codes()[
        i + 1] == target_language_codes()[i] && language_names()[i + 1]
        == target_language_names()[i] by {
        assert(language_codes().drop_first()[i] == language_codes()[i + 1]);
        assert(language_names().drop_first()[i] == language_names()[i + 1]);
    }
}

/// No two models share an identifier, so looking a model's identifier up
/// finds that model.
pub proof fn lemma_model_lookup_finds_model(i: int)
    requires
        0 <= i < MODEL_COUNT,
    ensures
        first_match(model_ids(), model_ids()[i], Some(i as usize)),
{
    reveal_strlit("openai/gpt-oss-20b");
    reveal_strlit("llama-3.3-70b-versatile");
    reveal_strlit("llama-3.1-8b-instant");
    reveal_strlit("gemma2-9b-it");
    reveal_strlit("mixtral-8x7b-32768");
    reveal_strlit("deepseek-r1-distill-llama-70b");
    let ids = model_ids();
    assert(ids[0][0] != ids[4][0]);
    assert forall|j: int| 0 <= j < i implies ids[j] != ids[i] by {
        if ids[j] == ids[i] {
            assert(ids[j].len() == ids[i].len());
            if j == 0 && i == 4 {
                assert(ids[j][0] == ids[i][0]);
            }
        }
    }
}

/// In a table, an entry that no earlier entry equals is found at its own
/// position.
pub proof fn lemma_find_first_own_entry(table: Seq<Seq<char>>, i: int)
    requires
        0 <= i < table.len() <= usize::MAX,
        forall|j: int| 0 <= j < i ==> table[j] != table[i],
    ensures
        find_first(table, table[i]) == Some(i),
{
    assert(position_of(Some(i as usize)) == Some(i));
    lemma_first_match_is_find_first(table, table[i], Some(i as usize));
}

/// A key that no entry equals is not found.
pub proof fn lemma_find_first_absent(table: Seq<Seq<char>>, key: Seq<char>)
    requires
        forall|j: int| 0 <= j < table.len() ==> table[j] != key,
    ensures
        find_first(table, key) is None,
{
    lemma_first_match_is_find_first(table, key, None);
}

/// No two target languages share a code.
pub proof fn lemma_target_codes_distinct()
    ensures
        forall|i: int, j: int|
            0 <= i < j < TARGET_LANGUAGE_COUNT ==> target_language_codes()[i]
                != target_language_codes()[j],
{
    reveal_strlit("it");
    reveal_strlit("en");
    reveal_strlit("es");
    reveal_strlit("fr");
    reveal_strlit("de");
    reveal_strlit("pt");
    reveal_strlit("ru");
    reveal_strlit("zh");
    reveal_strlit("ja");
    reveal_strlit("ko");
    reveal_strlit("nl");
    reveal_strlit("pl");
    reveal_strlit("sv");
    reveal_strlit("ar");
    reveal_strlit("tr");
    let c = target_language_codes();
    assert forall|i: int, j: int| 0 <= i < j < TARGET_LANGUAGE_COUNT implies c[i] != c[j] by {
        if c[i] == c[j] {
            assert(c[i][0] == c[j][0]);
            assert(c[i][1] == c[j][1]);
        }
    }
}

/// No two source languages share a code.
pub proof fn lemma_language_codes_distinct()
    ensures
        forall|i: int, j: int|
            0 <= i < j < LANGUAGE_COUNT ==> language_codes()[i] != language_codes()[j],
{
    lemma_target_codes_distinct();
    lemma_targets_follow_sources();
    reveal_strlit("auto");
    reveal_strlit("it");
    reveal_strlit("en");
    reveal_strlit("es");
    reveal_strlit("fr");
    reveal_strlit("de");
    reveal_strlit("pt");
    reveal_strlit("ru");
    reveal_strlit("zh");
    reveal_strlit("ja");
    reveal_strlit("ko");
    reveal_strlit("nl");
    reveal_strlit("pl");
    reveal_strlit("sv");
    reveal_strlit("ar");
    reveal_strlit("tr");
    let c = language_codes();
    let t = target_language_codes();
    assert forall|i: int, j: int| 0 <= i < j < LANGUAGE_COUNT implies c[i] != c[j] by {
        if i == 0 {
            assert(c[0].len() == 4);
            assert(c[j] == t[j - 1]);
            assert(t[j - 1].len() == 2);
        } else {
            assert(c[i] == t[i - 1]);
            assert(c[j] == t[j - 1]);
        }
    }
}

/// Every target language is found under its own code, and a code that no
/// target language has is not found.
pub proof fn lemma_target_lookup(key: Seq<char>)
    ensures
        forall|i: int|
            0 <= i < TARGET_LANGUAGE_COUNT ==> find_first(target_language_codes(), #[trigger] target_language_codes()[i]) == Some(i),
        (forall|i: int| 0 <= i < TARGET_LANGUAGE_COUNT ==> target_language_codes()[i] != key)
            ==> find_first(target_language_codes(), key) is None,
{
    lemma_target_codes_distinct();
    assert forall|i: int| 0 <= i < TARGET_LANGUAGE_COUNT implies find_first(
        target_language_codes(),
        #[trigger] target_language_codes()[i],
    ) == Some(i) by {
        lemma_find_first_own_entry(target_language_codes(), i);
    }
    if forall|i: int| 0 <= i < TARGET_LANGUAGE_COUNT ==> target_language_codes()[i] != key {
        lemma_find_first_absent(target_language_codes(), key);
    }
}

/// Every source language is found under its own code, and a code that no
/// source language has is not found.
pub proof fn lemma_language_lookup(key: Seq<char>)
    ensures
        forall|i: int|
            0 <= i < LANGUAGE_COUNT ==> find_first(language_codes(), #[trigger] language_codes()[i]) == Some(i),
        (forall|i: int| 0 <= i < LANGUAGE_COUNT ==> language_codes()[i] != key)
            ==> find_first(language_codes(), key) is None,
{
    lemma_language_codes_distinct();
    assert forall|i: int| 0 <= i < LANGUAGE_COUNT implies find_first(
        language_codes(),
        #[trigger] language_codes()[i],
    ) == Some(i) by {
        lemma_find_first_own_entry(language_codes(), i);
    }
    if forall|i: int| 0 <= i < LANGUAGE_COUNT ==> language_codes()[i] != key {
        lemma_find_first_absent(language_codes(), key);
    }
}

} // verus!
