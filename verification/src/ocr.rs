//! Text recognition: the supported languages, how a configured or system language is
//! resolved, and how recognized lines are put together.

use vstd::prelude::*;

use crate::chars::{append_chars, chars_of, copy_text, same_text, string_from_chars};
use crate::text::{
    ascii_lowercase_chars, join_lines, spec_ascii_lowercase, spec_char_vecs, spec_join_lines,
};

verus! {

/// Why recognition failed, with the underlying message.
#[derive(Debug, Clone)]
pub enum OcrError {
    EngineInit { message: String },
    ImageConversion { message: String },
    Recognition { message: String },
    InvalidRegion { message: String },
}

fn prefixed(prefix: &str, rest: &String) -> (s: String)
    ensures
        s@ == prefix@ + rest@,
{
    let mut v = chars_of(prefix);
    crate::chars::append_chars(&mut v, &chars_of(rest.as_str()));
    string_from_chars(&v)
}

impl OcrError {
    /// The error as shown to the user.
    pub fn describe(&self) -> (s: String)
        ensures
            s@ == match self {
                OcrError::EngineInit { message } => "engine initialization failed: "@ + message@,
                OcrError::ImageConversion { message } => "image conversion failed: "@ + message@,
                OcrError::Recognition { message } => "recognition failed: "@ + message@,
                OcrError::InvalidRegion { message } => "invalid region: "@ + message@,
            },
    {
        match self {
            OcrError::EngineInit { message } => prefixed("engine initialization failed: ", message),
            OcrError::ImageConversion { message } => prefixed("image conversion failed: ", message),
            OcrError::Recognition { message } => prefixed("recognition failed: ", message),
            OcrError::InvalidRegion { message } => prefixed("invalid region: ", message),
        }
    }
}

/// Supported recognition languages; each has its own recognition model and character set.
#[derive(Debug, Clone, Copy, PartialEq, Eq, Structural)]
pub enum OcrLanguage {
    Korean,
    English,
    Chinese,
    Latin,
    Cyrillic,
    Arabic,
    Thai,
    Greek,
    Devanagari,
    Tamil,
    Telugu,
}

/// Name of the text-detection model shared by every language.
pub const DETECTION_MODEL_FILENAME: &'static str = "PP-OCRv5_mobile_det.mnn";

pub open spec fn spec_rec_model_filename(l: OcrLanguage) -> &'static str {
    match l {
        OcrLanguage::Korean => "korean_PP-OCRv5_mobile_rec_infer.mnn",
        OcrLanguage::English => "en_PP-OCRv5_mobile_rec_infer.mnn",
        OcrLanguage::Chinese => "PP-OCRv5_mobile_rec.mnn",
        OcrLanguage::Latin => "latin_PP-OCRv5_mobile_rec_infer.mnn",
        OcrLanguage::Cyrillic => "cyrillic_PP-OCRv5_mobile_rec_infer.mnn",
        OcrLanguage::Arabic => "arabic_PP-OCRv5_mobile_rec_infer.mnn",
        OcrLanguage::Thai => "th_PP-OCRv5_mobile_rec_infer.mnn",
        OcrLanguage::Greek => "el_PP-OCRv5_mobile_rec_infer.mnn",
        OcrLanguage::Devanagari => "devanagari_PP-OCRv5_mobile_rec_infer.mnn",
        OcrLanguage::Tamil => "ta_PP-OCRv5_mobile_rec_infer.mnn",
        OcrLanguage::Telugu => "te_PP-OCRv5_mobile_rec_infer.mnn",
    }
}

pub open spec fn spec_keys_filename(l: OcrLanguage) -> &'static str {
    match l {
        OcrLanguage::Korean => "ppocr_keys_korean.txt",
        OcrLanguage::English => "ppocr_keys_en.txt",
        OcrLanguage::Chinese => "ppocr_keys_v5.txt",
        OcrLanguage::Latin => "ppocr_keys_latin.txt",
        OcrLanguage::Cyrillic => "ppocr_keys_cyrillic.txt",
        OcrLanguage::Arabic => "ppocr_keys_arabic.txt",
        OcrLanguage::Thai => "ppocr_keys_th.txt",
        OcrLanguage::Greek => "ppocr_keys_el.txt",
        OcrLanguage::Devanagari => "ppocr_keys_devanagari.txt",
        OcrLanguage::Tamil => "ppocr_keys_ta.txt",
        OcrLanguage::Telugu => "ppocr_keys_te.txt",
    }
}

pub open spec fn spec_display_name(l: OcrLanguage) -> &'static str {
    match l {
        OcrLanguage::Korean => "Korean",
        OcrLanguage::English => "English",
        OcrLanguage::Chinese => "Chinese",
        OcrLanguage::Latin => "Latin",
        OcrLanguage::Cyrillic => "Cyrillic",
        OcrLanguage::Arabic => "Arabic",
        OcrLanguage::Thai => "Thai",
        OcrLanguage::Greek => "Greek",
        OcrLanguage::Devanagari => "Devanagari",
        OcrLanguage::Tamil => "Tamil",
        OcrLanguage::Telugu => "Telugu",
    }
}

pub open spec fn spec_language_code(l: OcrLanguage) -> &'static str {
    match l {
        OcrLanguage::Korean => "korean",
        OcrLanguage::English => "en",
        OcrLanguage::Chinese => "chinese",
        OcrLanguage::Latin => "latin",
        OcrLanguage::Cyrillic => "cyrillic",
        OcrLanguage::Arabic => "arabic",
        OcrLanguage::Thai => "th",
        OcrLanguage::Greek => "el",
        OcrLanguage::Devanagari => "devanagari",
        OcrLanguage::Tamil => "ta",
        OcrLanguage::Telugu => "te",
    }
}

impl OcrLanguage {
    /// Recognition-model file name inside the model directory.
    pub fn rec_model_filename(self) -> (r: &'static str)
        ensures
            r == spec_rec_model_filename(self),
    {
        match self {
            OcrLanguage::Korean => "korean_PP-OCRv5_mobile_rec_infer.mnn",
            OcrLanguage::English => "en_PP-OCRv5_mobile_rec_infer.mnn",
            OcrLanguage::Chinese => "PP-OCRv5_mobile_rec.mnn",
            OcrLanguage::Latin => "latin_PP-OCRv5_mobile_rec_infer.mnn",
            OcrLanguage::Cyrillic => "cyrillic_PP-OCRv5_mobile_rec_infer.mnn",
            OcrLanguage::Arabic => "arabic_PP-OCRv5_mobile_rec_infer.mnn",
            OcrLanguage::Thai => "th_PP-OCRv5_mobile_rec_infer.mnn",
            OcrLanguage::Greek => "el_PP-OCRv5_mobile_rec_infer.mnn",
            OcrLanguage::Devanagari => "devanagari_PP-OCRv5_mobile_rec_infer.mnn",
            OcrLanguage::Tamil => "ta_PP-OCRv5_mobile_rec_infer.mnn",
            OcrLanguage::Telugu => "te_PP-OCRv5_mobile_rec_infer.mnn",
        }
    }

    /// Character-set file name inside the model directory.
    pub fn keys_filename(self) -> (r: &'static str)
        ensures
            r == spec_keys_filename(self),
    {
        match self {
            OcrLanguage::Korean => "ppocr_keys_korean.txt",
            OcrLanguage::English => "ppocr_keys_en.txt",
            OcrLanguage::Chinese => "ppocr_keys_v5.txt",
            OcrLanguage::Latin => "ppocr_keys_latin.txt",
            OcrLanguage::Cyrillic => "ppocr_keys_cyrillic.txt",
            OcrLanguage::Arabic => "ppocr_keys_arabic.txt",
            OcrLanguage::Thai => "ppocr_keys_th.txt",
            OcrLanguage::Greek => "ppocr_keys_el.txt",
            OcrLanguage::Devanagari => "ppocr_keys_devanagari.txt",
            OcrLanguage::Tamil => "ppocr_keys_ta.txt",
            OcrLanguage::Telugu => "ppocr_keys_te.txt",
        }
    }

    /// Human-readable language name.
    pub fn display_name(self) -> (r: &'static str)
        ensures
            r == spec_display_name(self),
    {
        match self {
            OcrLanguage::Korean => "Korean",
            OcrLanguage::English => "English",
            OcrLanguage::Chinese => "Chinese",
            OcrLanguage::Latin => "Latin",
            OcrLanguage::Cyrillic => "Cyrillic",
            OcrLanguage::Arabic => "Arabic",
            OcrLanguage::Thai => "Thai",
            OcrLanguage::Greek => "Greek",
            OcrLanguage::Devanagari => "Devanagari",
            OcrLanguage::Tamil => "Tamil",
            OcrLanguage::Telugu => "Telugu",
        }
    }

    /// The value naming this language in the configuration.
    pub fn as_str(self) -> (r: &'static str)
        ensures
            r == spec_language_code(self),
    {
        match self {
            OcrLanguage::Korean => "korean",
            OcrLanguage::English => "en",
            OcrLanguage::Chinese => "chinese",
            OcrLanguage::Latin => "latin",
            OcrLanguage::Cyrillic => "cyrillic",
            OcrLanguage::Arabic => "arabic",
            OcrLanguage::Thai => "th",
            OcrLanguage::Greek => "el",
            OcrLanguage::Devanagari => "devanagari",
            OcrLanguage::Tamil => "ta",
            OcrLanguage::Telugu => "te",
        }
    }
}

/// The language a lower-cased configuration value names.
pub open spec fn spec_language_named(v: Seq<char>) -> Option<OcrLanguage> {
    if v == "korean"@ || v == "ko"@ {
        Some(OcrLanguage::Korean)
    } else if v == "en"@ || v == "english"@ {
        Some(OcrLanguage::English)
    } else if v == "chinese"@ || v == "zh"@ || v == "ch"@ {
        Some(OcrLanguage::Chinese)
    } else if v == "latin"@ {
        Some(OcrLanguage::Latin)
    } else if v == "cyrillic"@ || v == "ru"@ {
        Some(OcrLanguage::Cyrillic)
    } else if v == "arabic"@ || v == "ar"@ {
        Some(OcrLanguage::Arabic)
    } else if v == "th"@ || v == "thai"@ {
        Some(OcrLanguage::Thai)
    } else if v == "el"@ || v == "greek"@ {
        Some(OcrLanguage::Greek)
    } else if v == "devanagari"@ || v == "hi"@ {
        Some(OcrLanguage::Devanagari)
    } else if v == "ta"@ || v == "tamil"@ {
        Some(OcrLanguage::Tamil)
    } else if v == "te"@ || v == "telugu"@ {
        Some(OcrLanguage::Telugu)
    } else {
        None
    }
}

/// Reads a configuration value, case-insensitively for ASCII, as a language; `None` for an
/// unknown value.
pub fn parse_ocr_language(value: &str) -> (r: Option<OcrLanguage>)
    ensures
        r == spec_language_named(spec_ascii_lowercase(value@)),
{
    let lowered = string_from_chars(&ascii_lowercase_chars(&chars_of(value)));
    let v: &str = lowered.as_str();
    if same_text(v, "korean") || same_text(v, "ko") {
        Some(OcrLanguage::Korean)
    } else if same_text(v, "en") || same_text(v, "english") {
        Some(OcrLanguage::English)
    } else if same_text(v, "chinese") || same_text(v, "zh") || same_text(v, "ch") {
        Some(OcrLanguage::Chinese)
    } else if same_text(v, "latin") {
        Some(OcrLanguage::Latin)
    } else if same_text(v, "cyrillic") || same_text(v, "ru") {
        Some(OcrLanguage::Cyrillic)
    } else if same_text(v, "arabic") || same_text(v, "ar") {
        Some(OcrLanguage::Arabic)
    } else if same_text(v, "th") || same_text(v, "thai") {
        Some(OcrLanguage::Thai)
    } else if same_text(v, "el") || same_text(v, "greek") {
        Some(OcrLanguage::Greek)
    } else if same_text(v, "devanagari") || same_text(v, "hi") {
        Some(OcrLanguage::Devanagari)
    } else if same_text(v, "ta") || same_text(v, "tamil") {
        Some(OcrLanguage::Tamil)
    } else if same_text(v, "te") || same_text(v, "telugu") {
        Some(OcrLanguage::Telugu)
    } else {
        None
    }
}

/// The part of a locale value before its first `_`.
pub open spec fn spec_locale_language(lang: Seq<char>) -> Seq<char>
    decreases lang.len(),
{
    if lang.len() == 0 {
        lang
    } else if lang[0] == '_' {
        Seq::empty()
    } else {
        seq![lang[0]] + spec_locale_language(lang.drop_first())
    }
}

/// The language of a locale's language code.
pub open spec fn spec_language_of_code(code: Seq<char>) -> OcrLanguage {
    if code == "ko"@ {
        OcrLanguage::Korean
    } else if code == "zh"@ {
        OcrLanguage::Chinese
    } else if code == "ru"@ || code == "uk"@ || code == "be"@ {
        OcrLanguage::Cyrillic
    } else if code == "ar"@ {
        OcrLanguage::Arabic
    } else if code == "th"@ {
        OcrLanguage::Thai
    } else if code == "el"@ {
        OcrLanguage::Greek
    } else if code == "hi"@ || code == "mr"@ || code == "ne"@ {
        OcrLanguage::Devanagari
    } else if code == "ta"@ {
        OcrLanguage::Tamil
    } else if code == "te"@ {
        OcrLanguage::Telugu
    } else {
        OcrLanguage::English
    }
}

/// The recognition language for a system locale value such as `ko_KR.UTF-8`: by the
/// language code before the first `_`, English where the code is not one of a model.
pub fn ocr_language_for_locale(lang: &str) -> (r: OcrLanguage)
    ensures
        r == spec_language_of_code(spec_locale_language(lang@)),
{
    let chars = chars_of(lang);
    let mut code: Vec<char> = Vec::new();
    let mut i: usize = 0;
    assert(chars@.skip(0) =~= chars@);
    assert(code@ + spec_locale_language(chars@) =~= spec_locale_language(chars@));
    while i < chars.len() && chars[i] != '_'
        invariant
            0 <= i <= chars.len(),
            chars@ == lang@,
            forall|j: int| 0 <= j < i ==> chars@[j] != '_',
            code@ == chars@.subrange(0, i as int),
            spec_locale_language(lang@) == code@ + spec_locale_language(chars@.skip(i as int)),
        decreases chars.len() - i,
    {
        code.push(chars[i]);
        proof {
            let rest = chars@.skip(i as int);
            assert(rest.drop_first() =~= chars@.skip(i + 1));
            assert(code@ =~= chars@.subrange(0, i + 1));
        }
        i = i + 1;
    }
    proof {
        assert(chars@.skip(0) =~= chars@);
        let rest = chars@.skip(i as int);
        if i < chars.len() {
            assert(rest[0] == '_');
        }
        assert(code@ + spec_locale_language(rest) =~= code@);
    }
    let s = string_from_chars(&code);
    let c: &str = s.as_str();
    if same_text(c, "ko") {
        OcrLanguage::Korean
    } else if same_text(c, "zh") {
        OcrLanguage::Chinese
    } else if same_text(c, "ru") || same_text(c, "uk") || same_text(c, "be") {
        OcrLanguage::Cyrillic
    } else if same_text(c, "ar") {
        OcrLanguage::Arabic
    } else if same_text(c, "th") {
        OcrLanguage::Thai
    } else if same_text(c, "el") {
        OcrLanguage::Greek
    } else if same_text(c, "hi") || same_text(c, "mr") || same_text(c, "ne") {
        OcrLanguage::Devanagari
    } else if same_text(c, "ta") {
        OcrLanguage::Tamil
    } else if same_text(c, "te") {
        OcrLanguage::Telugu
    } else {
        OcrLanguage::English
    }
}

/// The language in use: the configured one where it names a language, else that of the
/// system locale `system_lang`.
pub fn resolve_ocr_language(config_value: Option<&str>, system_lang: &str) -> (r: OcrLanguage)
    ensures
        r == (match config_value {
            Some(v) => match spec_language_named(spec_ascii_lowercase(v@)) {
                Some(l) => l,
                None => spec_language_of_code(spec_locale_language(system_lang@)),
            },
            None => spec_language_of_code(spec_locale_language(system_lang@)),
        }),
{
    let configured = match config_value {
        Some(v) => parse_ocr_language(v),
        None => None,
    };
    match configured {
        Some(l) => l,
        None => ocr_language_for_locale(system_lang),
    }
}

/// A locale value made of a language code without `_`, then nothing or a part that starts
/// with `_`, has that code as its language.
pub proof fn lemma_locale_language_of_code(code: Seq<char>, rest: Seq<char>)
    requires
        forall|k: int| 0 <= k < code.len() ==> code[k] != '_',
        rest.len() == 0 || rest[0] == '_',
    ensures
        spec_locale_language(code + rest) == code,
    decreases code.len(),
{
    if code.len() == 0 {
        assert(code + rest =~= rest);
    } else {
        lemma_locale_language_of_code(code.drop_first(), rest);
        assert((code + rest).drop_first() =~= code.drop_first() + rest);
        assert(seq![code[0]] + code.drop_first() =~= code);
    }
}

/// The recognition language of a system locale such as `ru_RU.UTF-8`, by its language code
/// before the first `_`: Russian, Ukrainian and Belarusian read Cyrillic; Korean, Chinese,
/// Arabic, Thai, Greek, Tamil and Telugu their own script; Hindi, Marathi and Nepali
/// Devanagari; English stays English.
proof fn lemma_two_letter_codes_differ()
    ensures
        "ta"@ != "th"@,
        "te"@ != "th"@,
        "te"@ != "ta"@,
        "en"@ != "el"@,
{
    reveal_strlit("en");
    reveal_strlit("el");
    assert("en"@[1] != "el"@[1]);
    reveal_strlit("ta");
    reveal_strlit("te");
    reveal_strlit("th");
    assert("ta"@[1] != "th"@[1]);
    assert("te"@[1] != "th"@[1]);
    assert("te"@[1] != "ta"@[1]);
}

pub proof fn lemma_locale_languages(rest: Seq<char>)
    requires
        rest.len() == 0 || rest[0] == '_',
    ensures
        spec_language_of_code(spec_locale_language("ru"@ + rest)) == OcrLanguage::Cyrillic,
        spec_language_of_code(spec_locale_language("uk"@ + rest)) == OcrLanguage::Cyrillic,
        spec_language_of_code(spec_locale_language("be"@ + rest)) == OcrLanguage::Cyrillic,
        spec_language_of_code(spec_locale_language("ko"@ + rest)) == OcrLanguage::Korean,
        spec_language_of_code(spec_locale_language("zh"@ + rest)) == OcrLanguage::Chinese,
        spec_language_of_code(spec_locale_language("ar"@ + rest)) == OcrLanguage::Arabic,
        spec_language_of_code(spec_locale_language("th"@ + rest)) == OcrLanguage::Thai,
        spec_language_of_code(spec_locale_language("el"@ + rest)) == OcrLanguage::Greek,
        spec_language_of_code(spec_locale_language("hi"@ + rest)) == OcrLanguage::Devanagari,
        spec_language_of_code(spec_locale_language("mr"@ + rest)) == OcrLanguage::Devanagari,
        spec_language_of_code(spec_locale_language("ne"@ + rest)) == OcrLanguage::Devanagari,
        spec_language_of_code(spec_locale_language("ta"@ + rest)) == OcrLanguage::Tamil,
        spec_language_of_code(spec_locale_language("te"@ + rest)) == OcrLanguage::Telugu,
        spec_language_of_code(spec_locale_language("en"@ + rest)) == OcrLanguage::English,
{
    reveal_strlit("ru");
    reveal_strlit("uk");
    reveal_strlit("be");
    reveal_strlit("ko");
    reveal_strlit("zh");
    reveal_strlit("ar");
    reveal_strlit("th");
    reveal_strlit("el");
    reveal_strlit("hi");
    reveal_strlit("mr");
    reveal_strlit("ne");
    reveal_strlit("ta");
    reveal_strlit("te");
    reveal_strlit("en");
    lemma_two_letter_codes_differ();
    lemma_locale_language_of_code("ru"@, rest);
    lemma_locale_language_of_code("uk"@, rest);
    lemma_locale_language_of_code("be"@, rest);
    lemma_locale_language_of_code("ko"@, rest);
    lemma_locale_language_of_code("zh"@, rest);
    lemma_locale_language_of_code("ar"@, rest);
    lemma_locale_language_of_code("th"@, rest);
    lemma_locale_language_of_code("el"@, rest);
    lemma_locale_language_of_code("hi"@, rest);
    lemma_locale_language_of_code("mr"@, rest);
    lemma_locale_language_of_code("ne"@, rest);
    lemma_locale_language_of_code("ta"@, rest);
    lemma_locale_language_of_code("te"@, rest);
    lemma_locale_language_of_code("en"@, rest);
}

/// A locale's two-letter language code that is also a configuration name gives the same
/// language either way (`ru_RU` and `ru` both read Cyrillic), `ch` aside, which only the
/// configuration knows.
pub proof fn lemma_locale_code_agrees_with_config_name(code: Seq<char>, rest: Seq<char>)
    requires
        code.len() == 2,
        code != "ch"@,
        spec_language_named(code) is Some,
        rest.len() == 0 || rest[0] == '_',
    ensures
        spec_language_of_code(spec_locale_language(code + rest)) == spec_language_named(code)->0,
{
    reveal_strlit("ch");
    reveal_strlit("uk");
    reveal_strlit("be");
    reveal_strlit("mr");
    reveal_strlit("ne");
    reveal_strlit("ru");
    reveal_strlit("ko");
    reveal_strlit("zh");
    reveal_strlit("ar");
    reveal_strlit("th");
    reveal_strlit("el");
    reveal_strlit("hi");
    reveal_strlit("ta");
    reveal_strlit("te");
    reveal_strlit("en");
    reveal_strlit("korean");
    reveal_strlit("english");
    reveal_strlit("chinese");
    reveal_strlit("latin");
    reveal_strlit("cyrillic");
    reveal_strlit("arabic");
    reveal_strlit("thai");
    reveal_strlit("greek");
    reveal_strlit("devanagari");
    reveal_strlit("tamil");
    reveal_strlit("telugu");
    lemma_two_letter_codes_differ();
    assert(code =~= "ru"@ || code =~= "ko"@ || code =~= "zh"@ || code =~= "ar"@ || code =~= "th"@
        || code =~= "el"@ || code =~= "hi"@ || code =~= "ta"@ || code =~= "te"@ || code =~= "en"@);
    assert(code[0] != '_' && code[1] != '_');
    lemma_locale_language_of_code(code, rest);
}

/// `x` placed into `sorted` after every line whose top is not below its own.
pub open spec fn spec_insert_line(sorted: Seq<(i32, Seq<char>)>, x: (i32, Seq<char>)) -> Seq<
    (i32, Seq<char>),
>
    decreases sorted.len(),
{
    if sorted.len() == 0 {
        seq![x]
    } else if sorted[0].0 > x.0 {
        seq![x] + sorted
    } else {
        seq![sorted[0]] + spec_insert_line(sorted.drop_first(), x)
    }
}

/// The lines ordered by their tops, lines with equal tops kept in recognition order.
pub open spec fn spec_sort_lines(lines: Seq<(i32, Seq<char>)>) -> Seq<(i32, Seq<char>)>
    decreases lines.len(),
{
    if lines.len() == 0 {
        Seq::empty()
    } else {
        spec_insert_line(spec_sort_lines(lines.drop_last()), lines.last())
    }
}

pub open spec fn spec_lines_view(lines: Seq<(i32, String)>) -> Seq<(i32, Seq<char>)> {
    lines.map_values(|l: (i32, String)| (l.0, l.1@))
}

/// The text read from recognized lines: their texts from top to bottom, one per line.
pub open spec fn spec_recognized_text(lines: Seq<(i32, Seq<char>)>) -> Seq<char> {
    spec_join_lines(spec_sort_lines(lines).map_values(|l: (i32, Seq<char>)| l.1))
}

proof fn lemma_insert_at(sorted: Seq<(i32, Seq<char>)>, x: (i32, Seq<char>), j: int)
    requires
        0 <= j <= sorted.len(),
        forall|k: int| 0 <= k < j ==> sorted[k].0 <= x.0,
        j < sorted.len() ==> sorted[j].0 > x.0,
    ensures
        spec_insert_line(sorted, x) == sorted.insert(j, x),
    decreases j,
{
    if sorted.len() == 0 {
        assert(sorted.insert(j, x) =~= seq![x]);
    } else if j == 0 {
        assert(sorted.insert(j, x) =~= seq![x] + sorted);
    } else {
        let rest = sorted.drop_first();
        assert forall|k: int| 0 <= k < j - 1 implies rest[k].0 <= x.0 by {
            assert(rest[k] == sorted[k + 1]);
        }
        lemma_insert_at(rest, x, j - 1);
        assert(sorted.insert(j, x) =~= seq![sorted[0]] + rest.insert(j - 1, x));
    }
}

/// Puts recognized lines, each given by the top of its box and its text, into one text:
/// ordered from top to bottom (equal tops in the order given) and joined by line breaks.
pub fn join_recognized_lines(lines: &Vec<(i32, String)>) -> (text: String)
    ensures
        text@ == spec_recognized_text(spec_lines_view(lines@)),
{
    let ghost input = spec_lines_view(lines@);
    let mut sorted: Vec<(i32, String)> = Vec::new();
    let mut i: usize = 0;
    while i < lines.len()
        invariant
            0 <= i <= lines.len(),
            input == spec_lines_view(lines@),
            spec_lines_view(sorted@) == spec_sort_lines(input.take(i as int)),
        decreases lines.len() - i,
    {
        let y = lines[i].0;
        let t = copy_text(lines[i].1.as_str());
        let ghost x = (y, t@);
        let mut j: usize = 0;
        while j < sorted.len() && sorted[j].0 <= y
            invariant
                0 <= j <= sorted.len(),
                forall|k: int| 0 <= k < j ==> (#[trigger] sorted@[k]).0 <= y,
            decreases sorted.len() - j,
        {
            j = j + 1;
        }
        proof {
            let sv = spec_lines_view(sorted@);
            assert forall|k: int| 0 <= k < j implies sv[k].0 <= x.0 by {
                assert(sorted@[k].0 <= y);
            }
            lemma_insert_at(sv, x, j as int);
            assert(input.take(i + 1).drop_last() =~= input.take(i as int));
            assert(input.take(i + 1).last() == x);
        }
        let ghost before = spec_lines_view(sorted@);
        sorted.insert(j, (y, t));
        assert(spec_lines_view(sorted@) =~= before.insert(j as int, x));
        i = i + 1;
    }
    assert(input.take(i as int) =~= input);
    let mut pieces: Vec<Vec<char>> = Vec::new();
    let mut k: usize = 0;
    while k < sorted.len()
        invariant
            0 <= k <= sorted.len(),
            spec_lines_view(sorted@) == spec_sort_lines(input),
            spec_char_vecs(pieces@) == spec_sort_lines(input).take(k as int).map_values(
                |l: (i32, Seq<char>)| l.1,
            ),
        decreases sorted.len() - k,
    {
        let ghost prev = spec_char_vecs(pieces@);
        let piece = chars_of(sorted[k].1.as_str());
        pieces.push(piece);
        proof {
            let sv = spec_lines_view(sorted@);
            let ss = spec_sort_lines(input);
            assert(sv[k as int].1 == sorted@[k as int].1@);
            assert(spec_char_vecs(pieces@) =~= prev.push(piece@));
            assert(ss.take(k + 1).map_values(|l: (i32, Seq<char>)| l.1) =~= ss.take(
                k as int,
            ).map_values(|l: (i32, Seq<char>)| l.1).push(ss[k as int].1));
        }
        k = k + 1;
    }
    assert(spec_sort_lines(input).take(k as int) =~= spec_sort_lines(input));
    let out = join_lines(&pieces);
    string_from_chars(&out)
}

/// Position of the first line at or after `i` whose top is below `key`, else the length.
pub open spec fn spec_first_below(s: Seq<(i32, Seq<char>)>, key: i32, i: int) -> int
    decreases s.len() - i,
{
    if i < 0 || i >= s.len() {
        s.len() as int
    } else if s[i].0 > key {
        i
    } else {
        spec_first_below(s, key, i + 1)
    }
}

proof fn lemma_first_below(s: Seq<(i32, Seq<char>)>, key: i32, i: int)
    requires
        0 <= i <= s.len(),
        forall|k: int| 0 <= k < i ==> s[k].0 <= key,
    ensures
        i <= spec_first_below(s, key, i) <= s.len(),
        forall|k: int| 0 <= k < spec_first_below(s, key, i) ==> s[k].0 <= key,
        spec_first_below(s, key, i) < s.len() ==> s[spec_first_below(s, key, i)].0 > key,
    decreases s.len() - i,
{
    if i < s.len() && s[i].0 <= key {
        lemma_first_below(s, key, i + 1);
    }
}

/// Whether the lines run from top to bottom.
pub open spec fn spec_lines_ordered(s: Seq<(i32, Seq<char>)>) -> bool {
    forall|a: int, b: int| 0 <= a < b < s.len() ==> s[a].0 <= s[b].0
}

/// The recognized lines are put in order from top to bottom, and none is lost or added:
/// the ordered lines are the given ones, rearranged.
pub proof fn lemma_recognized_lines_ordered(lines: Seq<(i32, Seq<char>)>)
    ensures
        spec_lines_ordered(spec_sort_lines(lines)),
        spec_sort_lines(lines).to_multiset() == lines.to_multiset(),
    decreases lines.len(),
{
    broadcast use vstd::seq_lib::to_multiset_insert, vstd::seq_lib::to_multiset_build;

    if lines.len() == 0 {
        assert(spec_sort_lines(lines) =~= lines);
    } else {
        let prev = lines.drop_last();
        let x = lines.last();
        lemma_recognized_lines_ordered(prev);
        let s = spec_sort_lines(prev);
        lemma_first_below(s, x.0, 0);
        let j = spec_first_below(s, x.0, 0);
        lemma_insert_at(s, x, j);
        let r = s.insert(j, x);
        assert(spec_sort_lines(lines) == r);
        assert forall|a: int, b: int| 0 <= a < b < r.len() implies r[a].0 <= r[b].0 by {
            if b < j {
                assert(r[a] == s[a] && r[b] == s[b]);
            } else if b == j {
                assert(r[a] == s[a]);
            } else if a < j {
                assert(r[a] == s[a] && r[b] == s[b - 1]);
            } else if a == j {
                assert(r[b] == s[b - 1]);
                assert(s[j].0 > x.0);
                assert(s[j].0 <= s[b - 1].0 || j == b - 1);
            } else {
                assert(r[a] == s[a - 1] && r[b] == s[b - 1]);
            }
        }
        assert(lines == prev.push(x));
    }
}

/// Where the models are installed for every user.
pub const SYSTEM_MODEL_DIR: &'static str = "/usr/share/chalkak/models";

/// `rel` joined onto the path `base` as `Path::join` does for a relative `rel`: with a `/`
/// between them unless `base` is empty or already ends in one.
pub open spec fn spec_path_join(base: Seq<char>, rel: Seq<char>) -> Seq<char> {
    if base.len() == 0 || base.last() == '/' {
        base + rel
    } else {
        base + seq!['/'] + rel
    }
}

fn path_join(base: &str, rel: &str) -> (s: String)
    ensures
        s@ == spec_path_join(base@, rel@),
{
    let mut v = chars_of(base);
    if v.len() > 0 && v[v.len() - 1] != '/' {
        v.push('/');
    }
    append_chars(&mut v, &chars_of(rel));
    string_from_chars(&v)
}

/// The user's model directory: `chalkak/models` under `XDG_DATA_HOME` when it is set and
/// not empty, else under `$HOME/.local/share`, else none.
pub open spec fn spec_user_model_dir(xdg_data_home: Option<Seq<char>>, home: Option<Seq<char>>) -> Option<Seq<char>> {
    match xdg_data_home {
        Some(x) if x.len() > 0 => Some(spec_path_join(x, "chalkak/models"@)),
        _ => match home {
            Some(h) => Some(spec_path_join(spec_path_join(h, ".local/share"@), "chalkak/models"@)),
            None => None,
        },
    }
}

/// The text of an optional string.
pub open spec fn spec_opt_text(o: Option<&str>) -> Option<Seq<char>> {
    match o {
        Some(t) => Some(t@),
        None => None,
    }
}

pub fn user_model_dir(xdg_data_home: Option<&str>, home: Option<&str>) -> (d: Option<String>)
    ensures
        spec_user_model_dir(spec_opt_text(xdg_data_home), spec_opt_text(home)) == match d {
            Some(dir) => Some(dir@),
            None => None,
        },
{
    match xdg_data_home {
        Some(x) => {
            if x.unicode_len() > 0 {
                return Some(path_join(x, "chalkak/models"));
            }
        },
        None => {},
    }
    match home {
        Some(h) => {
            let base = path_join(h, ".local/share");
            Some(path_join(base.as_str(), "chalkak/models"))
        },
        None => None,
    }
}

/// The model directory chosen: the user's where it exists, else the system one where it
/// exists, else none.
pub fn select_model_dir(user_dir: Option<String>, user_dir_exists: bool, system_dir_exists: bool) -> (d: Option<String>)
    ensures
        match user_dir {
            Some(u) if user_dir_exists => d == Some(u),
            _ => if system_dir_exists {
                d matches Some(s) && s@ == SYSTEM_MODEL_DIR@
            } else {
                d is None
            },
        },
{
    match user_dir {
        Some(u) => {
            if user_dir_exists {
                return Some(u);
            }
        },
        None => {},
    }
    if system_dir_exists {
        Some(copy_text(SYSTEM_MODEL_DIR))
    } else {
        None
    }
}

} // verus!
