//! The closed set of locale codes the service accepts for localized results.

use vstd::prelude::*;

verus! {

/// A response language supported by the service.
///
/// Each variant serializes to a fixed wire code: the lowercase variant name,
/// except for the two region-qualified codes `pt-BR` and `zh-CN`.
#[derive(Debug, Copy, Clone, PartialEq, Eq, Structural)]
#[allow(non_camel_case_types)]
pub enum Lang {
    EN,
    DE,
    ES,
    PT_BR,
    FR,
    JA,
    ZH_CN,
    RU,
}

/// The wire code of a language.
pub open spec fn lang_code(l: Lang) -> Seq<char> {
    match l {
        Lang::EN => "en"@,
        Lang::DE => "de"@,
        Lang::ES => "es"@,
        Lang::PT_BR => "pt-BR"@,
        Lang::FR => "fr"@,
        Lang::JA => "ja"@,
        Lang::ZH_CN => "zh-CN"@,
        Lang::RU => "ru"@,
    }
}

/// The language a wire code stands for, if any.
pub open spec fn lang_of_code(s: Seq<char>) -> Option<Lang> {
    if s == "en"@ {
        Some(Lang::EN)
    } else if s == "de"@ {
        Some(Lang::DE)
    } else if s == "es"@ {
        Some(Lang::ES)
    } else if s == "pt-BR"@ {
        Some(Lang::PT_BR)
    } else if s == "fr"@ {
        Some(Lang::FR)
    } else if s == "ja"@ {
        Some(Lang::JA)
    } else if s == "zh-CN"@ {
        Some(Lang::ZH_CN)
    } else if s == "ru"@ {
        Some(Lang::RU)
    } else {
        None
    }
}

impl Lang {
    /// The wire code of this language, as a borrowed string.
    pub fn as_code(&self) -> (r: &'static str)
        ensures
            r@ == lang_code(*self),
    {
        match self {
            Lang::EN => "en",
            Lang::DE => "de",
            Lang::ES => "es",
            Lang::PT_BR => "pt-BR",
            Lang::FR => "fr",
            Lang::JA => "ja",
            Lang::ZH_CN => "zh-CN",
            Lang::RU => "ru",
        }
    }

    /// The wire code of this language, as an owned string.
    pub fn to_string(&self) -> (r: String)
        ensures
            r@ == lang_code(*self),
    {
        self.as_code().to_owned()
    }

    /// Parses a wire code back into a language; `None` for any other string.
    pub fn from_code(s: &str) -> (r: Option<Lang>)
        ensures
            r == lang_of_code(s@),
    {
        let c = s.to_owned();
        if c == "en".to_owned() {
            Some(Lang::EN)
        } else if c == "de".to_owned() {
            Some(Lang::DE)
        } else if c == "es".to_owned() {
            Some(Lang::ES)
        } else if c == "pt-BR".to_owned() {
            Some(Lang::PT_BR)
        } else if c == "fr".to_owned() {
            Some(Lang::FR)
        } else if c == "ja".to_owned() {
            Some(Lang::JA)
        } else if c == "zh-CN".to_owned() {
            Some(Lang::ZH_CN)
        } else if c == "ru".to_owned() {
            Some(Lang::RU)
        } else {
            None
        }
    }
}

/// Serializing any supported language and parsing the code back yields the
/// same language.
pub proof fn lemma_lang_code_round_trip(l: Lang)
    ensures
        lang_of_code(lang_code(l)) == Some(l),
{
    reveal_strlit("en");
    reveal_strlit("de");
    reveal_strlit("es");
    reveal_strlit("pt-BR");
    reveal_strlit("fr");
    reveal_strlit("ja");
    reveal_strlit("zh-CN");
    reveal_strlit("ru");
    assert("en"@.len() == 2 && "en"@[0] == 'e' && "en"@[1] == 'n');
    assert("de"@.len() == 2 && "de"@[0] == 'd');
    assert("es"@.len() == 2 && "es"@[0] == 'e' && "es"@[1] == 's');
    assert("fr"@.len() == 2 && "fr"@[0] == 'f');
    assert("ja"@.len() == 2 && "ja"@[0] == 'j');
    assert("ru"@.len() == 2 && "ru"@[0] == 'r');
    assert("pt-BR"@.len() == 5 && "pt-BR"@[0] == 'p');
    assert("zh-CN"@.len() == 5 && "zh-CN"@[0] == 'z');
}

} // verus!
