use ip_api_api::lang::Lang;

#[test]
fn to_string() {
    assert_eq!(Lang::EN.to_string(), "en");
    assert_eq!(Lang::DE.to_string(), "de");
    assert_eq!(Lang::ES.to_string(), "es");
    assert_eq!(Lang::PT_BR.to_string(), "pt-BR");
    assert_eq!(Lang::FR.to_string(), "fr");
    assert_eq!(Lang::JA.to_string(), "ja");
    assert_eq!(Lang::ZH_CN.to_string(), "zh-CN");
    assert_eq!(Lang::RU.to_string(), "ru");
}

#[test]
fn lang_code_round_trip() {
    let all = [
        Lang::EN,
        Lang::DE,
        Lang::ES,
        Lang::PT_BR,
        Lang::FR,
        Lang::JA,
        Lang::ZH_CN,
        Lang::RU,
    ];
    for lang in all {
        let code = lang.to_string();
        assert_eq!(Lang::from_code(&code), Some(lang));
    }
    assert_eq!(Lang::from_code("en"), Some(Lang::EN));
    assert_eq!(Lang::from_code("pt-BR"), Some(Lang::PT_BR));
    assert_eq!(Lang::from_code("zh-CN"), Some(Lang::ZH_CN));
}

#[test]
fn lang_from_code_rejects_unknown() {
    assert_eq!(Lang::from_code(""), None);
    assert_eq!(Lang::from_code("EN"), None);
    assert_eq!(Lang::from_code("pt-br"), None);
    assert_eq!(Lang::from_code("xx"), None);
}
