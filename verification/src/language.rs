//! The locale tags that a transcription job can be asked for.

use vstd::prelude::*;
use vstd::string::*;

use crate::error::{InputError, InputErrorModel};
use crate::text::str_eq;

verus! {

/// The supported locale tags.
pub open spec fn supported_language_codes() -> Seq<Seq<char>> {
    seq![
        "ab-GE"@, "af-ZA"@, "ar-AE"@, "ar-SA"@, "hy-AM"@, "ast-ES"@, "az-AZ"@, "ba-RU"@,
        "eu-ES"@, "be-BY"@, "bn-IN"@, "bs-BA"@, "bg-BG"@, "ca-ES"@, "ckb-IR"@, "ckb-IQ"@,
        "zh-CN"@, "zh-TW"@, "hr-HR"@, "cs-CZ"@, "da-DK"@, "nl-NL"@, "en-AU"@, "en-GB"@,
        "en-IN"@, "en-IE"@, "en-NZ"@, "en-AB"@, "en-ZA"@, "en-US"@, "en-WL"@, "et-ET"@,
        "fa-IR"@, "fi-FI"@, "fr-FR"@, "fr-CA"@, "gl-ES"@, "ka-GE"@, "de-DE"@, "de-CH"@,
        "el-GR"@, "gu-IN"@, "ha-NG"@, "he-IL"@, "hi-IN"@, "hu-HU"@, "is-IS"@, "id-ID"@,
        "it-IT"@, "ja-JP"@, "kab-DZ"@, "kn-IN"@, "kk-KZ"@, "rw-RW"@, "ko-KR"@, "ky-KG"@,
        "lv-LV"@, "lt-LT"@, "lg-IN"@, "mk-MK"@, "ms-MY"@, "ml-IN"@, "mt-MT"@, "mr-IN"@,
        "mhr-RU"@, "mn-MN"@, "no-NO"@, "or-IN"@, "ps-AF"@, "pl-PL"@, "pt-PT"@, "pt-BR"@,
        "pa-IN"@, "ro-RO"@, "ru-RU"@, "sr-RS"@, "si-LK"@, "sk-SK"@, "sl-SI"@, "so-SO"@,
        "es-ES"@, "es-US"@, "su-ID"@, "sw-KE"@, "sw-BI"@, "sw-RW"@, "sw-TZ"@, "sw-UG"@,
        "sv-SE"@, "tl-PH"@, "ta-IN"@, "tt-RU"@, "te-IN"@, "th-TH"@, "tr-TR"@, "uk-UA"@,
        "ug-CN"@, "uz-UZ"@, "vi-VN"@, "cy-WL"@, "wo-SN"@, "zu-ZA"@,
    ]
}

/// Whether a text is one of the supported locale tags.
pub open spec fn is_supported_language(code: Seq<char>) -> bool {
    supported_language_codes().contains(code)
}

/// The table of supported locale tags.
pub fn language_table() -> (table: [&'static str; 102])
    ensures
        table@.map_values(|tag: &'static str| tag@) == supported_language_codes(),
{
    let table = [
        "ab-GE", "af-ZA", "ar-AE", "ar-SA", "hy-AM", "ast-ES", "az-AZ", "ba-RU",
        "eu-ES", "be-BY", "bn-IN", "bs-BA", "bg-BG", "ca-ES", "ckb-IR", "ckb-IQ",
        "zh-CN", "zh-TW", "hr-HR", "cs-CZ", "da-DK", "nl-NL", "en-AU", "en-GB",
        "en-IN", "en-IE", "en-NZ", "en-AB", "en-ZA", "en-US", "en-WL", "et-ET",
        "fa-IR", "fi-FI", "fr-FR", "fr-CA", "gl-ES", "ka-GE", "de-DE", "de-CH",
        "el-GR", "gu-IN", "ha-NG", "he-IL", "hi-IN", "hu-HU", "is-IS", "id-ID",
        "it-IT", "ja-JP", "kab-DZ", "kn-IN", "kk-KZ", "rw-RW", "ko-KR", "ky-KG",
        "lv-LV", "lt-LT", "lg-IN", "mk-MK", "ms-MY", "ml-IN", "mt-MT", "mr-IN",
        "mhr-RU", "mn-MN", "no-NO", "or-IN", "ps-AF", "pl-PL", "pt-PT", "pt-BR",
        "pa-IN", "ro-RO", "ru-RU", "sr-RS", "si-LK", "sk-SK", "sl-SI", "so-SO",
        "es-ES", "es-US", "su-ID", "sw-KE", "sw-BI", "sw-RW", "sw-TZ", "sw-UG",
        "sv-SE", "tl-PH", "ta-IN", "tt-RU", "te-IN", "th-TH", "tr-TR", "uk-UA",
        "ug-CN", "uz-UZ", "vi-VN", "cy-WL", "wo-SN", "zu-ZA",
    ];
    assert(table@.map_values(|tag: &'static str| tag@) =~= supported_language_codes());
    table
}

/// A locale tag that is known to be supported.
#[derive(Debug)]
pub struct LanguageCode {
    tag: String,
}

impl View for LanguageCode {
    type V = Seq<char>;

    closed spec fn view(&self) -> Seq<char> {
        self.tag@
    }
}

impl LanguageCode {
    #[verifier::type_invariant]
    closed spec fn supported(self) -> bool {
        is_supported_language(self.tag@)
    }

    /// Accepts a locale tag where it is one of the supported ones, letter for
    /// letter, and rejects every other text.
    pub fn parse(code: &str) -> (outcome: Result<LanguageCode, InputError>)
        ensures
            match outcome {
                Ok(language) => is_supported_language(code@) && language@ == code@,
                Err(error) => !is_supported_language(code@) && error@
                    == (InputErrorModel::UnsupportedLanguage { code: code@ }),
            },
    {
        let table = language_table();
        let ghost tags = table@.map_values(|tag: &'static str| tag@);
        let mut index: usize = 0;
        while index < 102
            invariant
                index <= 102,
                table@.len() == 102,
                tags == table@.map_values(|tag: &'static str| tag@),
                tags == supported_language_codes(),
                forall|i: int| 0 <= i < index ==> tags[i] != code@,
            decreases 102 - index,
        {
            if str_eq(table[index], code) {
                assert(tags[index as int] == code@);
                return Ok(LanguageCode { tag: code.to_owned() });
            }
            index += 1;
        }
        Err(InputError::UnsupportedLanguage { code: code.to_owned() })
    }

    /// The tag as text.
    pub fn as_str(&self) -> (tag: &str)
        ensures
            tag@ == self@,
            is_supported_language(tag@),
    {
        proof {
            use_type_invariant(self);
        }
        self.tag.as_str()
    }
}

} // verus!
