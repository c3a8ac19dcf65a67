//! The translation catalogue offered by the pickers, grouped by language.
use vstd::prelude::*;
use crate::text::{self, eq_ignore_ascii_case};

verus! {

/// A translation the reader can show.
#[derive(Clone, Copy, Debug)]
pub struct TranslationInfo {
    pub code: &'static str,
    pub name: &'static str,
    pub lang: &'static str,
    pub offline: bool,
}

/// Number of entries in the catalogue.
pub const TRANSLATION_COUNT: usize = 33;

/// Code of catalogue entry `i`.
pub open spec fn translation_code_spec(i: int) -> Seq<char> {
    if i == 0 {
        "KJV"@
    } else if i == 1 {
        "WEB"@
    } else if i == 2 {
        "NKJV"@
    } else if i == 3 {
        "MEV"@
    } else if i == 4 {
        "ESV"@
    } else if i == 5 {
        "NIV"@
    } else if i == 6 {
        "NLT"@
    } else if i == 7 {
        "NASB"@
    } else if i == 8 {
        "BSB"@
    } else if i == 9 {
        "NET"@
    } else if i == 10 {
        "MSG"@
    } else if i == 11 {
        "YLT"@
    } else if i == 12 {
        "UBIO"@
    } else if i == 13 {
        "UKRK"@
    } else if i == 14 {
        "RV1960"@
    } else if i == 15 {
        "NVI"@
    } else if i == 16 {
        "NAA"@
    } else if i == 17 {
        "ARA"@
    } else if i == 18 {
        "ACF11"@
    } else if i == 19 {
        "NVIPT"@
    } else if i == 20 {
        "NVT"@
    } else if i == 21 {
        "FRLSG"@
    } else if i == 22 {
        "NBS"@
    } else if i == 23 {
        "LUT"@
    } else if i == 24 {
        "ELB"@
    } else if i == 25 {
        "SYNOD"@
    } else if i == 26 {
        "NRT"@
    } else if i == 27 {
        "CUV"@
    } else if i == 28 {
        "CUNPS"@
    } else if i == 29 {
        "KRV"@
    } else if i == 30 {
        "JPKJV"@
    } else if i == 31 {
        "NR06"@
    } else {
        "HSV17"@
    }
}

/// Full name of catalogue entry `i`.
pub open spec fn translation_name_spec(i: int) -> Seq<char> {
    if i == 0 {
        "King James Version"@
    } else if i == 1 {
        "World English Bible"@
    } else if i == 2 {
        "New King James Version"@
    } else if i == 3 {
        "Modern English Version"@
    } else if i == 4 {
        "English Standard Version"@
    } else if i == 5 {
        "New International Version"@
    } else if i == 6 {
        "New Living Translation"@
    } else if i == 7 {
        "New American Standard Bible"@
    } else if i == 8 {
        "Berean Standard Bible"@
    } else if i == 9 {
        "New English Translation"@
    } else if i == 10 {
        "The Message"@
    } else if i == 11 {
        "Young's Literal Translation"@
    } else if i == 12 {
        "Переклад Огієнка"@
    } else if i == 13 {
        "Переклад Куліша"@
    } else if i == 14 {
        "Reina-Valera 1960"@
    } else if i == 15 {
        "Nueva Versión Internacional"@
    } else if i == 16 {
        "Nova Almeida Atualizada (2017)"@
    } else if i == 17 {
        "Almeida Revista e Atualizada (1993)"@
    } else if i == 18 {
        "Almeida Corrigida Fiel (2011)"@
    } else if i == 19 {
        "Nova Versão Internacional"@
    } else if i == 20 {
        "Nova Versão Transformadora (2016)"@
    } else if i == 21 {
        "Louis Segond 1910"@
    } else if i == 22 {
        "Nouvelle Bible Segond"@
    } else if i == 23 {
        "Luther Bibel"@
    } else if i == 24 {
        "Elberfelder Bibel"@
    } else if i == 25 {
        "Синодальный перевод"@
    } else if i == 26 {
        "Новый Русский Перевод"@
    } else if i == 27 {
        "和合本 (Traditional)"@
    } else if i == 28 {
        "和合本 (Simplified)"@
    } else if i == 29 {
        "개역한글판"@
    } else if i == 30 {
        "口語訳聖書"@
    } else if i == 31 {
        "Nuova Riveduta 2006"@
    } else {
        "Herziene Statenvertaling"@
    }
}

/// Language heading of catalogue entry `i`.
pub open spec fn translation_lang_spec(i: int) -> Seq<char> {
    if i == 0 {
        "English"@
    } else if i == 1 {
        "English"@
    } else if i == 2 {
        "English"@
    } else if i == 3 {
        "English"@
    } else if i == 4 {
        "English"@
    } else if i == 5 {
        "English"@
    } else if i == 6 {
        "English"@
    } else if i == 7 {
        "English"@
    } else if i == 8 {
        "English"@
    } else if i == 9 {
        "English"@
    } else if i == 10 {
        "English"@
    } else if i == 11 {
        "English"@
    } else if i == 12 {
        "Українська"@
    } else if i == 13 {
        "Українська"@
    } else if i == 14 {
        "Español"@
    } else if i == 15 {
        "Español"@
    } else if i == 16 {
        "Português"@
    } else if i == 17 {
        "Português"@
    } else if i == 18 {
        "Português"@
    } else if i == 19 {
        "Português"@
    } else if i == 20 {
        "Português"@
    } else if i == 21 {
        "Français"@
    } else if i == 22 {
        "Français"@
    } else if i == 23 {
        "Deutsch"@
    } else if i == 24 {
        "Deutsch"@
    } else if i == 25 {
        "Русский"@
    } else if i == 26 {
        "Русский"@
    } else if i == 27 {
        "中文"@
    } else if i == 28 {
        "中文"@
    } else if i == 29 {
        "한국어"@
    } else if i == 30 {
        "日本語"@
    } else if i == 31 {
        "Italiano"@
    } else {
        "Nederlands"@
    }
}

/// Whether catalogue entry `i` ships with the program.
pub open spec fn translation_offline_spec(i: int) -> bool {
    if i == 0 {
        true
    } else if i == 1 {
        false
    } else if i == 2 {
        false
    } else if i == 3 {
        false
    } else if i == 4 {
        false
    } else if i == 5 {
        false
    } else if i == 6 {
        false
    } else if i == 7 {
        false
    } else if i == 8 {
        false
    } else if i == 9 {
        false
    } else if i == 10 {
        false
    } else if i == 11 {
        false
    } else if i == 12 {
        false
    } else if i == 13 {
        false
    } else if i == 14 {
        false
    } else if i == 15 {
        false
    } else if i == 16 {
        false
    } else if i == 17 {
        false
    } else if i == 18 {
        false
    } else if i == 19 {
        false
    } else if i == 20 {
        false
    } else if i == 21 {
        false
    } else if i == 22 {
        false
    } else if i == 23 {
        false
    } else if i == 24 {
        false
    } else if i == 25 {
        false
    } else if i == 26 {
        false
    } else if i == 27 {
        false
    } else if i == 28 {
        false
    } else if i == 29 {
        false
    } else if i == 30 {
        false
    } else if i == 31 {
        false
    } else {
        false
    }
}

/// Entry `t` is catalogue entry `i`.
pub open spec fn is_entry(t: TranslationInfo, i: int) -> bool {
    &&& t.code@ == translation_code_spec(i)
    &&& t.name@ == translation_name_spec(i)
    &&& t.lang@ == translation_lang_spec(i)
    &&& t.offline == translation_offline_spec(i)
}

/// The first catalogue entry at or after `i` whose code matches `code`
/// ignoring ASCII case.
pub open spec fn first_code_from(code: Seq<char>, i: int) -> Option<int>
    decreases TRANSLATION_COUNT - i,
{
    if i < 0 || i >= TRANSLATION_COUNT {
        None
    } else if text::eq_ignore_ascii_case_spec(translation_code_spec(i), code) {
        Some(i)
    } else {
        first_code_from(code, i + 1)
    }
}

/// The first catalogue entry whose code matches `code` ignoring ASCII case.
pub open spec fn translation_index_spec(code: Seq<char>) -> Option<int> {
    first_code_from(code, 0)
}

/// Catalogue entry `i`.
pub fn translation_info(i: usize) -> (t: TranslationInfo)
    requires
        i < TRANSLATION_COUNT,
    ensures
        is_entry(t, i as int),
{
    match i {
        0 => TranslationInfo { code: "KJV", name: "King James Version", lang: "English", offline: true },
        1 => TranslationInfo { code: "WEB", name: "World English Bible", lang: "English", offline: false },
        2 => TranslationInfo { code: "NKJV", name: "New King James Version", lang: "English", offline: false },
        3 => TranslationInfo { code: "MEV", name: "Modern English Version", lang: "English", offline: false },
        4 => TranslationInfo { code: "ESV", name: "English Standard Version", lang: "English", offline: false },
        5 => TranslationInfo { code: "NIV", name: "New International Version", lang: "English", offline: false },
        6 => TranslationInfo { code: "NLT", name: "New Living Translation", lang: "English", offline: false },
        7 => TranslationInfo { code: "NASB", name: "New American Standard Bible", lang: "English", offline: false },
        8 => TranslationInfo { code: "BSB", name: "Berean Standard Bible", lang: "English", offline: false },
        9 => TranslationInfo { code: "NET", name: "New English Translation", lang: "English", offline: false },
        10 => TranslationInfo { code: "MSG", name: "The Message", lang: "English", offline: false },
        11 => TranslationInfo { code: "YLT", name: "Young's Literal Translation", lang: "English", offline: false },
        12 => TranslationInfo { code: "UBIO", name: "Переклад Огієнка", lang: "Українська", offline: false },
        13 => TranslationInfo { code: "UKRK", name: "Переклад Куліша", lang: "Українська", offline: false },
        14 => TranslationInfo { code: "RV1960", name: "Reina-Valera 1960", lang: "Español", offline: false },
        15 => TranslationInfo { code: "NVI", name: "Nueva Versión Internacional", lang: "Español", offline: false },
        16 => TranslationInfo { code: "NAA", name: "Nova Almeida Atualizada (2017)", lang: "Português", offline: false },
        17 => TranslationInfo { code: "ARA", name: "Almeida Revista e Atualizada (1993)", lang: "Português", offline: false },
        18 => TranslationInfo { code: "ACF11", name: "Almeida Corrigida Fiel (2011)", lang: "Português", offline: false },
        19 => TranslationInfo { code: "NVIPT", name: "Nova Versão Internacional", lang: "Português", offline: false },
        20 => TranslationInfo { code: "NVT", name: "Nova Versão Transformadora (2016)", lang: "Português", offline: false },
        21 => TranslationInfo { code: "FRLSG", name: "Louis Segond 1910", lang: "Français", offline: false },
        22 => TranslationInfo { code: "NBS", name: "Nouvelle Bible Segond", lang: "Français", offline: false },
        23 => TranslationInfo { code: "LUT", name: "Luther Bibel", lang: "Deutsch", offline: false },
        24 => TranslationInfo { code: "ELB", name: "Elberfelder Bibel", lang: "Deutsch", offline: false },
        25 => TranslationInfo { code: "SYNOD", name: "Синодальный перевод", lang: "Русский", offline: false },
        26 => TranslationInfo { code: "NRT", name: "Новый Русский Перевод", lang: "Русский", offline: false },
        27 => TranslationInfo { code: "CUV", name: "和合本 (Traditional)", lang: "中文", offline: false },
        28 => TranslationInfo { code: "CUNPS", name: "和合本 (Simplified)", lang: "中文", offline: false },
        29 => TranslationInfo { code: "KRV", name: "개역한글판", lang: "한국어", offline: false },
        30 => TranslationInfo { code: "JPKJV", name: "口語訳聖書", lang: "日本語", offline: false },
        31 => TranslationInfo { code: "NR06", name: "Nuova Riveduta 2006", lang: "Italiano", offline: false },
        _ => TranslationInfo { code: "HSV17", name: "Herziene Statenvertaling", lang: "Nederlands", offline: false },
    }
}

/// The whole catalogue in display order.
pub fn translations() -> (v: Vec<TranslationInfo>)
    ensures
        v@.len() == TRANSLATION_COUNT,
        forall|i: int| 0 <= i < TRANSLATION_COUNT ==> is_entry(#[trigger] v@[i], i),
{
    let mut v: Vec<TranslationInfo> = Vec::new();
    let mut i: usize = 0;
    while i < TRANSLATION_COUNT
        invariant
            i <= TRANSLATION_COUNT,
            v@.len() == i,
            forall|j: int| 0 <= j < i ==> is_entry(#[trigger] v@[j], j),
        decreases TRANSLATION_COUNT - i,
    {
        v.push(translation_info(i));
        i = i + 1;
    }
    v
}

/// Code of catalogue entry `i`.
pub fn translation_code(i: usize) -> (c: &'static str)
    requires
        i < TRANSLATION_COUNT,
    ensures
        c@ == translation_code_spec(i as int),
{
    translation_info(i).code
}

/// The position of the first catalogue entry whose code matches `code`
/// ignoring ASCII case.
pub fn translation_index(code: &str) -> (r: Option<usize>)
    ensures
        match r {
            Some(i) => translation_index_spec(code@) == Some(i as int) && i < TRANSLATION_COUNT,
            None => translation_index_spec(code@) is None,
        },
{
    let mut i: usize = 0;
    while i < TRANSLATION_COUNT
        invariant
            i <= TRANSLATION_COUNT,
            translation_index_spec(code@) == first_code_from(code@, i as int),
        decreases TRANSLATION_COUNT - i,
    {
        if eq_ignore_ascii_case(translation_code(i), code) {
            return Some(i);
        }
        i = i + 1;
    }
    None
}

} // verus!
