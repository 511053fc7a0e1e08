use housingplanner::i18n::{tr, Lang};

#[test]
fn english_is_the_source_text() {
    assert_eq!(tr(Lang::English, "📊 Overview"), "📊 Overview");
    assert_eq!(tr(Lang::English, "not in any table"), "not in any table");
}

#[test]
fn every_language_translates_a_known_string() {
    assert_eq!(tr(Lang::Swedish, "Cancel"), "Avbryt");
    assert_eq!(tr(Lang::German, "📊 Overview"), "📊 Übersicht");
    assert_eq!(tr(Lang::Greek, "Cancel"), "Άκυρο");
    assert_eq!(tr(Lang::Swedish, "(group)"), "(grupp)");
    for lang in Lang::ALL {
        assert!(!tr(lang, "Cancel").is_empty());
    }
}

#[test]
fn unknown_strings_fall_back_to_english() {
    for lang in Lang::ALL {
        assert_eq!(tr(lang, "no such entry"), "no such entry");
    }
}

#[test]
fn labels_are_native_names() {
    assert_eq!(Lang::Swedish.label(), "Svenska");
    assert_eq!(Lang::Greek.label(), "Ελληνικά");
    assert_eq!(Lang::ALL.len(), 17);
    assert_eq!(Lang::default(), Lang::English);
}

#[test]
fn locale_settings_pick_a_language() {
    assert_eq!(Lang::from_locale("sv_SE.UTF-8"), Lang::Swedish);
    assert_eq!(Lang::from_locale("NB_NO"), Lang::Norwegian);
    assert_eq!(Lang::from_locale("no"), Lang::Norwegian);
    assert_eq!(Lang::from_locale("nn_NO"), Lang::NorwegianNynorsk);
    assert_eq!(Lang::from_locale("is_IS"), Lang::Icelandic);
    assert_eq!(Lang::from_locale("el_GR.UTF-8"), Lang::Greek);
    assert_eq!(Lang::from_locale("en_US.UTF-8"), Lang::English);
    assert_eq!(Lang::from_locale(""), Lang::English);
    assert_eq!(Lang::from_locale("s"), Lang::English);
}
