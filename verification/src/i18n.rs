//! Minimal, dependency-free localization.
//!
//! UI code wraps English source strings in [`tr`]; for [`Lang::Swedish`] the
//! source is looked up in [`sv`] and any string without a translation falls back
//! to English, so partial coverage is always safe.
use vstd::prelude::*;
use vstd::string::StrSliceExecFns;

verus! {

/// Supported interface languages.
#[derive(Debug, Clone, Copy, PartialEq, Eq, Structural, Hash)]
pub enum Lang {
    English,
    Swedish,
    Norwegian,
    NorwegianNynorsk,
    NorthernSami,
    Danish,
    Ukrainian,
    German,
    French,
    Italian,
    Spanish,
    Dutch,
    Russian,
    Icelandic,
    Greenlandic,
    Faroese,
    Greek,
}

impl Default for Lang {
    fn default() -> (r: Self)
        ensures
            r == Lang::English,
    {
        Lang::English
    }
}

/// Calls `<str as PartialEq>::eq`. Claimed: true exactly when the two texts are equal.
#[verifier::external_body]
fn str_eq(a: &str, b: &str) -> (r: bool)
    ensures
        r == (a@ == b@),
{
    a == b
}

/// The native name of a language, as shown in the language picker.
pub open spec fn lang_name(lang: Lang) -> Seq<char> {
    match lang {
        Lang::English => "English"@,
        Lang::Swedish => "Svenska"@,
        Lang::Norwegian => "Norsk bokmål"@,
        Lang::NorwegianNynorsk => "Norsk nynorsk"@,
        Lang::NorthernSami => "Davvisámegiella"@,
        Lang::Danish => "Dansk"@,
        Lang::Ukrainian => "Українська"@,
        Lang::German => "Deutsch"@,
        Lang::French => "Français"@,
        Lang::Italian => "Italiano"@,
        Lang::Spanish => "Español"@,
        Lang::Dutch => "Nederlands"@,
        Lang::Russian => "Русский"@,
        Lang::Icelandic => "Íslenska"@,
        Lang::Greenlandic => "Kalaallisut"@,
        Lang::Faroese => "Føroyskt"@,
        Lang::Greek => "Ελληνικά"@,
    }
}

/// The text `en` reads in `lang`: the language's table entry, or `en` itself
/// when the table has none.
pub open spec fn translation(lang: Lang, en: Seq<char>) -> Seq<char> {
    match lang {
        Lang::English => en,
        Lang::Swedish => swedish_text(en),
        Lang::Norwegian => norwegian_bokmal_text(en),
        Lang::NorwegianNynorsk => norwegian_nynorsk_text(en),
        Lang::NorthernSami => northern_sami_text(en),
        Lang::Danish => danish_text(en),
        Lang::Ukrainian => ukrainian_text(en),
        Lang::German => german_text(en),
        Lang::French => french_text(en),
        Lang::Italian => italian_text(en),
        Lang::Spanish => spanish_text(en),
        Lang::Dutch => dutch_text(en),
        Lang::Russian => russian_text(en),
        Lang::Icelandic => icelandic_text(en),
        Lang::Greenlandic => greenlandic_text(en),
        Lang::Faroese => faroese_text(en),
        Lang::Greek => greek_text(en),
    }
}

/// `c` with an ASCII capital letter mapped to its lower-case form.
pub open spec fn ascii_lower(c: char) -> char {
    if 'A' <= c <= 'Z' {
        ((c as u32) + 32) as char
    } else {
        c
    }
}

/// `v` begins with the letters `a` and `b`, ignoring ASCII case.
pub open spec fn starts_with_letters(v: Seq<char>, a: char, b: char) -> bool {
    v.len() >= 2 && ascii_lower(v[0]) == a && ascii_lower(v[1]) == b
}

/// True if `c` is the lower-case letter `lower`, ignoring ASCII case.
fn lower_is(c: char, lower: char) -> (r: bool)
    requires
        'a' <= lower <= 'z',
    ensures
        r == (ascii_lower(c) == lower),
{
    c == lower || (c as u32) + 32 == lower as u32
}

/// The language a locale setting such as `sv_SE.UTF-8` selects: decided by its
/// first two letters, compared ignoring ASCII case; English when none matches.
pub open spec fn locale_lang(v: Seq<char>) -> Lang {
    if starts_with_letters(v, 's', 'v') {
        Lang::Swedish
    } else if starts_with_letters(v, 'n', 'n') {
        Lang::NorwegianNynorsk
    } else if starts_with_letters(v, 'n', 'b') {
        Lang::Norwegian
    } else if starts_with_letters(v, 'n', 'o') {
        Lang::Norwegian
    } else if starts_with_letters(v, 's', 'e') {
        Lang::NorthernSami
    } else if starts_with_letters(v, 'd', 'a') {
        Lang::Danish
    } else if starts_with_letters(v, 'u', 'k') {
        Lang::Ukrainian
    } else if starts_with_letters(v, 'd', 'e') {
        Lang::German
    } else if starts_with_letters(v, 'f', 'r') {
        Lang::French
    } else if starts_with_letters(v, 'i', 't') {
        Lang::Italian
    } else if starts_with_letters(v, 'e', 's') {
        Lang::Spanish
    } else if starts_with_letters(v, 'n', 'l') {
        Lang::Dutch
    } else if starts_with_letters(v, 'r', 'u') {
        Lang::Russian
    } else if starts_with_letters(v, 'i', 's') {
        Lang::Icelandic
    } else if starts_with_letters(v, 'k', 'l') {
        Lang::Greenlandic
    } else if starts_with_letters(v, 'f', 'o') {
        Lang::Faroese
    } else if starts_with_letters(v, 'e', 'l') {
        Lang::Greek
    } else {
        Lang::English
    }
}

impl Lang {
    /// All languages, for building a selector.
    pub const ALL: [Lang; 17] = [
        Lang::English,
        Lang::Swedish,
        Lang::Norwegian,
        Lang::NorwegianNynorsk,
        Lang::NorthernSami,
        Lang::Danish,
        Lang::Ukrainian,
        Lang::German,
        Lang::French,
        Lang::Italian,
        Lang::Spanish,
        Lang::Dutch,
        Lang::Russian,
        Lang::Icelandic,
        Lang::Greenlandic,
        Lang::Faroese,
        Lang::Greek,
    ];

    /// The language a locale setting such as `sv_SE.UTF-8` selects (the value of
    /// `LC_ALL`, `LC_MESSAGES` or `LANG`); English when none matches.
    pub fn from_locale(v: &str) -> (r: Lang)
        ensures
            r == locale_lang(v@),
    {
        let n = v.unicode_len();
        if n < 2 {
            return Lang::English;
        }
        let a = v.get_char(0);
        let b = v.get_char(1);
        if lower_is(a, 's') && lower_is(b, 'v') {
            Lang::Swedish
        } else if lower_is(a, 'n') && lower_is(b, 'n') {
            Lang::NorwegianNynorsk
        } else if lower_is(a, 'n') && lower_is(b, 'b') {
            Lang::Norwegian
        } else if lower_is(a, 'n') && lower_is(b, 'o') {
            Lang::Norwegian
        } else if lower_is(a, 's') && lower_is(b, 'e') {
            Lang::NorthernSami
        } else if lower_is(a, 'd') && lower_is(b, 'a') {
            Lang::Danish
        } else if lower_is(a, 'u') && lower_is(b, 'k') {
            Lang::Ukrainian
        } else if lower_is(a, 'd') && lower_is(b, 'e') {
            Lang::German
        } else if lower_is(a, 'f') && lower_is(b, 'r') {
            Lang::French
        } else if lower_is(a, 'i') && lower_is(b, 't') {
            Lang::Italian
        } else if lower_is(a, 'e') && lower_is(b, 's') {
            Lang::Spanish
        } else if lower_is(a, 'n') && lower_is(b, 'l') {
            Lang::Dutch
        } else if lower_is(a, 'r') && lower_is(b, 'u') {
            Lang::Russian
        } else if lower_is(a, 'i') && lower_is(b, 's') {
            Lang::Icelandic
        } else if lower_is(a, 'k') && lower_is(b, 'l') {
            Lang::Greenlandic
        } else if lower_is(a, 'f') && lower_is(b, 'o') {
            Lang::Faroese
        } else if lower_is(a, 'e') && lower_is(b, 'l') {
            Lang::Greek
        } else {
            Lang::English
        }
    }

    /// Native name shown in the language picker.
    pub fn label(self) -> (r: &'static str)
        ensures
            r@ == lang_name(self),
    {
        match self {
            Lang::English => "English",
            Lang::Swedish => "Svenska",
            Lang::Norwegian => "Norsk bokmål",
            Lang::NorwegianNynorsk => "Norsk nynorsk",
            Lang::NorthernSami => "Davvisámegiella",
            Lang::Danish => "Dansk",
            Lang::Ukrainian => "Українська",
            Lang::German => "Deutsch",
            Lang::French => "Français",
            Lang::Italian => "Italiano",
            Lang::Spanish => "Español",
            Lang::Dutch => "Nederlands",
            Lang::Russian => "Русский",
            Lang::Icelandic => "Íslenska",
            Lang::Greenlandic => "Kalaallisut",
            Lang::Faroese => "Føroyskt",
            Lang::Greek => "Ελληνικά",
        }
    }
}

/// Translate an English source string for the given language.
pub fn tr(lang: Lang, en: &'static str) -> (r: &'static str)
    ensures
        r@ == translation(lang, en@),
{
    match lang {
        Lang::English => en,
        Lang::Swedish => sv(en),
        Lang::Norwegian => nb(en),
        Lang::NorwegianNynorsk => nn(en),
        Lang::NorthernSami => se(en),
        Lang::Danish => da(en),
        Lang::Ukrainian => uk(en),
        Lang::German => de(en),
        Lang::French => fr(en),
        Lang::Italian => it(en),
        Lang::Spanish => es(en),
        Lang::Dutch => nl(en),
        Lang::Russian => ru(en),
        Lang::Icelandic => isl(en),
        Lang::Greenlandic => kl(en),
        Lang::Faroese => fo(en),
        Lang::Greek => el(en),
    }
}

/// The Swedish table: the entry for `en`, or `en` itself when there is none.
pub open spec fn swedish_text(en: Seq<char>) -> Seq<char> {
    if en == "📊 Overview"@ {
        "📊 Översikt"@
    } else if en == "👥 Groups"@ {
        "👥 Grupper"@
    } else if en == "🧍 Persons"@ {
        "🧍 Personer"@
    } else if en == "🏠 Housings"@ {
        "🏠 Boenden"@
    } else if en == "From:"@ {
        "Från:"@
    } else if en == "Days:"@ {
        "Dagar:"@
    } else if en == "Zoom:"@ {
        "Zoom:"@
    } else if en == "Or Ctrl/Cmd + scroll (pinch on trackpad) over the timeline"@ {
        "Eller Ctrl/Cmd + scroll (nyp på styrplatta) över tidslinjen"@
    } else if en == "Today"@ {
        "Idag"@
    } else if en == "Fit to stays"@ {
        "Anpassa till vistelser"@
    } else if en == "📂 Load…"@ {
        "📂 Öppna…"@
    } else if en == "ℹ About"@ {
        "ℹ Om"@
    } else if en == "Language"@ {
        "Språk"@
    } else if en == "Saved →"@ {
        "Sparad →"@
    } else if en == "Loaded ←"@ {
        "Öppnad ←"@
    } else if en == "Save failed:"@ {
        "Kunde inte spara:"@
    } else if en == "Encode failed:"@ {
        "Kunde inte koda:"@
    } else if en == "Read failed:"@ {
        "Kunde inte läsa:"@
    } else if en == "Parse failed:"@ {
        "Kunde inte tolka:"@
    } else if en == "File save is not available on Android yet."@ {
        "Filsparning är inte tillgänglig på Android ännu."@
    } else if en == "File load is not available on Android yet."@ {
        "Filöppning är inte tillgänglig på Android ännu."@
    } else if en == "Housing Planner plan"@ {
        "Housing Planner-plan"@
    } else if en == "About / Licenses"@ {
        "Om / Licenser"@
    } else if en == "Version"@ {
        "Version"@
    } else if en == "Plan who stays where, and when."@ {
        "Planera vem som bor var, och när."@
    } else if en == "📋 Copy dependency licenses"@ {
        "📋 Kopiera beroendelicenser"@
    } else if en == "This application"@ {
        "Den här applikationen"@
    } else if en == "Third-party dependencies"@ {
        "Tredjepartsberoenden"@
    } else if en == "Welcome to Housing Planner"@ {
        "Välkommen till Housing Planner"@
    } else if en == "Add housings, groups and people in the tabs above —"@ {
        "Lägg till boenden, grupper och personer i flikarna ovan —"@
    } else if en == "📋 Load example data"@ {
        "📋 Ladda exempeldata"@
    } else if en == "Add a housing in the Housings tab to start planning."@ {
        "Lägg till ett boende i fliken Boenden för att börja planera."@
    } else if en == "Group"@ {
        "Grupp"@
    } else if en == "Person"@ {
        "Person"@
    } else if en == "Housing"@ {
        "Boende"@
    } else if en == "➕ New"@ {
        "➕ Ny"@
    } else if en == "Stays:"@ {
        "Vistelser:"@
    } else if en == "Stays (individual):"@ {
        "Vistelser (individuella):"@
    } else if en == "➕ Add stay"@ {
        "➕ Lägg till vistelse"@
    } else if en == "Add a housing and a person/group first."@ {
        "Lägg till ett boende och en person/grupp först."@
    } else if en == "(no stays)"@ {
        "(inga vistelser)"@
    } else if en == "(group)"@ {
        "(grupp)"@
    } else if en == "No groups yet — add one."@ {
        "Inga grupper än — lägg till en."@
    } else if en == "🗑 Delete group"@ {
        "🗑 Ta bort grupp"@
    } else if en == "Members:"@ {
        "Medlemmar:"@
    } else if en == "(no members)"@ {
        "(inga medlemmar)"@
    } else if en == "➕ Add existing…"@ {
        "➕ Lägg till befintlig…"@
    } else if en == "➕ New person"@ {
        "➕ Ny person"@
    } else if en == "Select or create a group."@ {
        "Välj eller skapa en grupp."@
    } else if en == "No stays for this group yet."@ {
        "Inga vistelser för den här gruppen än."@
    } else if en == "No persons yet — add one."@ {
        "Inga personer än — lägg till en."@
    } else if en == "— no group —"@ {
        "— ingen grupp —"@
    } else if en == "🗑 Delete person"@ {
        "🗑 Ta bort person"@
    } else if en == "Select or create a person."@ {
        "Välj eller skapa en person."@
    } else if en == "No stays for this person yet."@ {
        "Inga vistelser för den här personen än."@
    } else if en == "No housings yet — add one."@ {
        "Inga boenden än — lägg till ett."@
    } else if en == "Capacity"@ {
        "Kapacitet"@
    } else if en == "Notes:"@ {
        "Anteckningar:"@
    } else if en == "🗑 Delete housing"@ {
        "🗑 Ta bort boende"@
    } else if en == "Select or create a housing."@ {
        "Välj eller skapa ett boende."@
    } else if en == "No stays in this housing yet."@ {
        "Inga vistelser i det här boendet än."@
    } else if en == "cap"@ {
        "kap"@
    } else if en == "To:"@ {
        "Till:"@
    } else if en == "Nights:"@ {
        "Nätter:"@
    } else if en == "People:"@ {
        "Personer:"@
    } else if en == "⚠ Also booked elsewhere at the same time"@ {
        "⚠ Även bokad någon annanstans samtidigt"@
    } else if en == "<deleted person>"@ {
        "<borttagen person>"@
    } else if en == "<deleted group>"@ {
        "<borttagen grupp>"@
    } else if en == "📜 Changelog"@ {
        "📜 Ändringslogg"@
    } else if en == "↩ Undo last change"@ {
        "↩ Ångra senaste ändring"@
    } else if en == "entries"@ {
        "poster"@
    } else if en == "No changes yet."@ {
        "Inga ändringar än."@
    } else if en == "(no group)"@ {
        "(ingen grupp)"@
    } else if en == "Created housing"@ {
        "Skapade boende"@
    } else if en == "Deleted housing"@ {
        "Tog bort boende"@
    } else if en == "Renamed housing"@ {
        "Bytte namn på boende"@
    } else if en == "Changed capacity of"@ {
        "Ändrade kapacitet för"@
    } else if en == "Edited notes of"@ {
        "Redigerade anteckningar för"@
    } else if en == "Created group"@ {
        "Skapade grupp"@
    } else if en == "Deleted group"@ {
        "Tog bort grupp"@
    } else if en == "Renamed group"@ {
        "Bytte namn på grupp"@
    } else if en == "Changed colour of"@ {
        "Ändrade färg för"@
    } else if en == "Added person"@ {
        "La till person"@
    } else if en == "Deleted person"@ {
        "Tog bort person"@
    } else if en == "Renamed person"@ {
        "Bytte namn på person"@
    } else if en == "Changed group of"@ {
        "Ändrade grupp för"@
    } else if en == "Added stay"@ {
        "La till vistelse"@
    } else if en == "Removed stay"@ {
        "Tog bort vistelse"@
    } else if en == "Moved stay"@ {
        "Flyttade vistelse"@
    } else if en == "Changed occupant of stay"@ {
        "Ändrade person för vistelse"@
    } else if en == "Changed dates of stay"@ {
        "Ändrade datum för vistelse"@
    } else if en == "Loaded example data"@ {
        "Laddade exempeldata"@
    } else if en == "Loaded plan from file"@ {
        "Öppnade plan från fil"@
    } else if en == "Loaded a plan with no change history"@ {
        "Öppnade en plan utan ändringshistorik"@
    } else if en == "Undid"@ {
        "Ångrade"@
    } else if en == "💾 Save"@ {
        "💾 Spara"@
    } else if en == "Save As…"@ {
        "Spara som…"@
    } else if en == "Unsaved changes"@ {
        "Osparade ändringar"@
    } else if en == "You have unsaved changes. Save before closing?"@ {
        "Du har osparade ändringar. Spara innan du stänger?"@
    } else if en == "Save"@ {
        "Spara"@
    } else if en == "Discard"@ {
        "Förkasta"@
    } else if en == "Cancel"@ {
        "Avbryt"@
    } else if en == "untitled"@ {
        "namnlös"@
    } else if en == "File is open in another instance."@ {
        "Filen är öppen i en annan instans."@
    } else {
        en
    }
}

/// Swedish translations, keyed by the English source string. Unknown strings
/// fall back to English.
fn sv(en: &'static str) -> (r: &'static str)
    ensures
        r@ == swedish_text(en@),
{
    if str_eq(en, "📊 Overview") {
        "📊 Översikt"
    } else if str_eq(en, "👥 Groups") {
        "👥 Grupper"
    } else if str_eq(en, "🧍 Persons") {
        "🧍 Personer"
    } else if str_eq(en, "🏠 Housings") {
        "🏠 Boenden"
    } else if str_eq(en, "From:") {
        "Från:"
    } else if str_eq(en, "Days:") {
        "Dagar:"
    } else if str_eq(en, "Zoom:") {
        "Zoom:"
    } else if str_eq(en, "Or Ctrl/Cmd + scroll (pinch on trackpad) over the timeline") {
        "Eller Ctrl/Cmd + scroll (nyp på styrplatta) över tidslinjen"
    } else if str_eq(en, "Today") {
        "Idag"
    } else if str_eq(en, "Fit to stays") {
        "Anpassa till vistelser"
    } else if str_eq(en, "📂 Load…") {
        "📂 Öppna…"
    } else if str_eq(en, "ℹ About") {
        "ℹ Om"
    } else if str_eq(en, "Language") {
        "Språk"
    } else if str_eq(en, "Saved →") {
        "Sparad →"
    } else if str_eq(en, "Loaded ←") {
        "Öppnad ←"
    } else if str_eq(en, "Save failed:") {
        "Kunde inte spara:"
    } else if str_eq(en, "Encode failed:") {
        "Kunde inte koda:"
    } else if str_eq(en, "Read failed:") {
        "Kunde inte läsa:"
    } else if str_eq(en, "Parse failed:") {
        "Kunde inte tolka:"
    } else if str_eq(en, "File save is not available on Android yet.") {
        "Filsparning är inte tillgänglig på Android ännu."
    } else if str_eq(en, "File load is not available on Android yet.") {
        "Filöppning är inte tillgänglig på Android ännu."
    } else if str_eq(en, "Housing Planner plan") {
        "Housing Planner-plan"
    } else if str_eq(en, "About / Licenses") {
        "Om / Licenser"
    } else if str_eq(en, "Version") {
        "Version"
    } else if str_eq(en, "Plan who stays where, and when.") {
        "Planera vem som bor var, och när."
    } else if str_eq(en, "📋 Copy dependency licenses") {
        "📋 Kopiera beroendelicenser"
    } else if str_eq(en, "This application") {
        "Den här applikationen"
    } else if str_eq(en, "Third-party dependencies") {
        "Tredjepartsberoenden"
    } else if str_eq(en, "Welcome to Housing Planner") {
        "Välkommen till Housing Planner"
    } else if str_eq(en, "Add housings, groups and people in the tabs above —") {
        "Lägg till boenden, grupper och personer i flikarna ovan —"
    } else if str_eq(en, "📋 Load example data") {
        "📋 Ladda exempeldata"
    } else if str_eq(en, "Add a housing in the Housings tab to start planning.") {
        "Lägg till ett boende i fliken Boenden för att börja planera."
    } else if str_eq(en, "Group") {
        "Grupp"
    } else if str_eq(en, "Person") {
        "Person"
    } else if str_eq(en, "Housing") {
        "Boende"
    } else if str_eq(en, "➕ New") {
        "➕ Ny"
    } else if str_eq(en, "Stays:") {
        "Vistelser:"
    } else if str_eq(en, "Stays (individual):") {
        "Vistelser (individuella):"
    } else if str_eq(en, "➕ Add stay") {
        "➕ Lägg till vistelse"
    } else if str_eq(en, "Add a housing and a person/group first.") {
        "Lägg till ett boende och en person/grupp först."
    } else if str_eq(en, "(no stays)") {
        "(inga vistelser)"
    } else if str_eq(en, "(group)") {
        "(grupp)"
    } else if str_eq(en, "No groups yet — add one.") {
        "Inga grupper än — lägg till en."
    } else if str_eq(en, "🗑 Delete group") {
        "🗑 Ta bort grupp"
    } else if str_eq(en, "Members:") {
        "Medlemmar:"
    } else if str_eq(en, "(no members)") {
        "(inga medlemmar)"
    } else if str_eq(en, "➕ Add existing…") {
        "➕ Lägg till befintlig…"
    } else if str_eq(en, "➕ New person") {
        "➕ Ny person"
    } else if str_eq(en, "Select or create a group.") {
        "Välj eller skapa en grupp."
    } else if str_eq(en, "No stays for this group yet.") {
        "Inga vistelser för den här gruppen än."
    } else if str_eq(en, "No persons yet — add one.") {
        "Inga personer än — lägg till en."
    } else if str_eq(en, "— no group —") {
        "— ingen grupp —"
    } else if str_eq(en, "🗑 Delete person") {
        "🗑 Ta bort person"
    } else if str_eq(en, "Select or create a person.") {
        "Välj eller skapa en person."
    } else if str_eq(en, "No stays for this person yet.") {
        "Inga vistelser för den här personen än."
    } else if str_eq(en, "No housings yet — add one.") {
        "Inga boenden än — lägg till ett."
    } else if str_eq(en, "Capacity") {
        "Kapacitet"
    } else if str_eq(en, "Notes:") {
        "Anteckningar:"
    } else if str_eq(en, "🗑 Delete housing") {
        "🗑 Ta bort boende"
    } else if str_eq(en, "Select or create a housing.") {
        "Välj eller skapa ett boende."
    } else if str_eq(en, "No stays in this housing yet.") {
        "Inga vistelser i det här boendet än."
    } else if str_eq(en, "cap") {
        "kap"
    } else if str_eq(en, "To:") {
        "Till:"
    } else if str_eq(en, "Nights:") {
        "Nätter:"
    } else if str_eq(en, "People:") {
        "Personer:"
    } else if str_eq(en, "⚠ Also booked elsewhere at the same time") {
        "⚠ Även bokad någon annanstans samtidigt"
    } else if str_eq(en, "<deleted person>") {
        "<borttagen person>"
    } else if str_eq(en, "<deleted group>") {
        "<borttagen grupp>"
    } else if str_eq(en, "📜 Changelog") {
        "📜 Ändringslogg"
    } else if str_eq(en, "↩ Undo last change") {
        "↩ Ångra senaste ändring"
    } else if str_eq(en, "entries") {
        "poster"
    } else if str_eq(en, "No changes yet.") {
        "Inga ändringar än."
    } else if str_eq(en, "(no group)") {
        "(ingen grupp)"
    } else if str_eq(en, "Created housing") {
        "Skapade boende"
    } else if str_eq(en, "Deleted housing") {
        "Tog bort boende"
    } else if str_eq(en, "Renamed housing") {
        "Bytte namn på boende"
    } else if str_eq(en, "Changed capacity of") {
        "Ändrade kapacitet för"
    } else if str_eq(en, "Edited notes of") {
        "Redigerade anteckningar för"
    } else if str_eq(en, "Created group") {
        "Skapade grupp"
    } else if str_eq(en, "Deleted group") {
        "Tog bort grupp"
    } else if str_eq(en, "Renamed group") {
        "Bytte namn på grupp"
    } else if str_eq(en, "Changed colour of") {
        "Ändrade färg för"
    } else if str_eq(en, "Added person") {
        "La till person"
    } else if str_eq(en, "Deleted person") {
        "Tog bort person"
    } else if str_eq(en, "Renamed person") {
        "Bytte namn på person"
    } else if str_eq(en, "Changed group of") {
        "Ändrade grupp för"
    } else if str_eq(en, "Added stay") {
        "La till vistelse"
    } else if str_eq(en, "Removed stay") {
        "Tog bort vistelse"
    } else if str_eq(en, "Moved stay") {
        "Flyttade vistelse"
    } else if str_eq(en, "Changed occupant of stay") {
        "Ändrade person för vistelse"
    } else if str_eq(en, "Changed dates of stay") {
        "Ändrade datum för vistelse"
    } else if str_eq(en, "Loaded example data") {
        "Laddade exempeldata"
    } else if str_eq(en, "Loaded plan from file") {
        "Öppnade plan från fil"
    } else if str_eq(en, "Loaded a plan with no change history") {
        "Öppnade en plan utan ändringshistorik"
    } else if str_eq(en, "Undid") {
        "Ångrade"
    } else if str_eq(en, "💾 Save") {
        "💾 Spara"
    } else if str_eq(en, "Save As…") {
        "Spara som…"
    } else if str_eq(en, "Unsaved changes") {
        "Osparade ändringar"
    } else if str_eq(en, "You have unsaved changes. Save before closing?") {
        "Du har osparade ändringar. Spara innan du stänger?"
    } else if str_eq(en, "Save") {
        "Spara"
    } else if str_eq(en, "Discard") {
        "Förkasta"
    } else if str_eq(en, "Cancel") {
        "Avbryt"
    } else if str_eq(en, "untitled") {
        "namnlös"
    } else if str_eq(en, "File is open in another instance.") {
        "Filen är öppen i en annan instans."
    } else {
        en
    }
}

/// The Norwegian table: the entry for `en`, or `en` itself when there is none.
pub open spec fn norwegian_bokmal_text(en: Seq<char>) -> Seq<char> {
    if en == "📊 Overview"@ {
        "📊 Oversikt"@
    } else if en == "👥 Groups"@ {
        "👥 Grupper"@
    } else if en == "🧍 Persons"@ {
        "🧍 Personer"@
    } else if en == "🏠 Housings"@ {
        "🏠 Boliger"@
    } else if en == "From:"@ {
        "Fra:"@
    } else if en == "Days:"@ {
        "Dager:"@
    } else if en == "Zoom:"@ {
        "Zoom:"@
    } else if en == "Or Ctrl/Cmd + scroll (pinch on trackpad) over the timeline"@ {
        "Eller Ctrl/Cmd + rull (knip på styreplate) over tidslinjen"@
    } else if en == "Today"@ {
        "I dag"@
    } else if en == "Fit to stays"@ {
        "Tilpass til opphold"@
    } else if en == "📂 Load…"@ {
        "📂 Åpne…"@
    } else if en == "ℹ About"@ {
        "ℹ Om"@
    } else if en == "Language"@ {
        "Språk"@
    } else if en == "Saved →"@ {
        "Lagret →"@
    } else if en == "Loaded ←"@ {
        "Åpnet ←"@
    } else if en == "Save failed:"@ {
        "Kunne ikke lagre:"@
    } else if en == "Encode failed:"@ {
        "Kunne ikke kode:"@
    } else if en == "Read failed:"@ {
        "Kunne ikke lese:"@
    } else if en == "Parse failed:"@ {
        "Kunne ikke tolke:"@
    } else if en == "File save is not available on Android yet."@ {
        "Fillagring er ikke tilgjengelig på Android ennå."@
    } else if en == "File load is not available on Android yet."@ {
        "Filåpning er ikke tilgjengelig på Android ennå."@
    } else if en == "Housing Planner plan"@ {
        "Housing Planner-plan"@
    } else if en == "About / Licenses"@ {
        "Om / Lisenser"@
    } else if en == "Version"@ {
        "Versjon"@
    } else if en == "Plan who stays where, and when."@ {
        "Planlegg hvem som bor hvor, og når."@
    } else if en == "📋 Copy dependency licenses"@ {
        "📋 Kopier avhengighetslisenser"@
    } else if en == "This application"@ {
        "Denne applikasjonen"@
    } else if en == "Third-party dependencies"@ {
        "Tredjepartsavhengigheter"@
    } else if en == "Welcome to Housing Planner"@ {
        "Velkommen til Housing Planner"@
    } else if en == "Add housings, groups and people in the tabs above —"@ {
        "Legg til boliger, grupper og personer i fanene over —"@
    } else if en == "📋 Load example data"@ {
        "📋 Last inn eksempeldata"@
    } else if en == "Add a housing in the Housings tab to start planning."@ {
        "Legg til en bolig i fanen Boliger for å begynne å planlegge."@
    } else if en == "Group"@ {
        "Gruppe"@
    } else if en == "Person"@ {
        "Person"@
    } else if en == "Housing"@ {
        "Bolig"@
    } else if en == "➕ New"@ {
        "➕ Ny"@
    } else if en == "Stays:"@ {
        "Opphold:"@
    } else if en == "Stays (individual):"@ {
        "Opphold (individuelle):"@
    } else if en == "➕ Add stay"@ {
        "➕ Legg til opphold"@
    } else if en == "Add a housing and a person/group first."@ {
        "Legg til en bolig og en person/gruppe først."@
    } else if en == "(no stays)"@ {
        "(ingen opphold)"@
    } else if en == "(group)"@ {
        "(gruppe)"@
    } else if en == "No groups yet — add one."@ {
        "Ingen grupper ennå — legg til en."@
    } else if en == "🗑 Delete group"@ {
        "🗑 Slett gruppe"@
    } else if en == "Members:"@ {
        "Medlemmer:"@
    } else if en == "(no members)"@ {
        "(ingen medlemmer)"@
    } else if en == "➕ Add existing…"@ {
        "➕ Legg til eksisterende…"@
    } else if en == "➕ New person"@ {
        "➕ Ny person"@
    } else if en == "Select or create a group."@ {
        "Velg eller opprett en gruppe."@
    } else if en == "No stays for this group yet."@ {
        "Ingen opphold for denne gruppen ennå."@
    } else if en == "No persons yet — add one."@ {
        "Ingen personer ennå — legg til en."@
    } else if en == "— no group —"@ {
        "— ingen gruppe —"@
    } else if en == "🗑 Delete person"@ {
        "🗑 Slett person"@
    } else if en == "Select or create a person."@ {
        "Velg eller opprett en person."@
    } else if en == "No stays for this person yet."@ {
        "Ingen opphold for denne personen ennå."@
    } else if en == "No housings yet — add one."@ {
        "Ingen boliger ennå — legg til en."@
    } else if en == "Capacity"@ {
        "Kapasitet"@
    } else if en == "Notes:"@ {
        "Notater:"@
    } else if en == "🗑 Delete housing"@ {
        "🗑 Slett bolig"@
    } else if en == "Select or create a housing."@ {
        "Velg eller opprett en bolig."@
    } else if en == "No stays in this housing yet."@ {
        "Ingen opphold i denne boligen ennå."@
    } else if en == "cap"@ {
        "kap"@
    } else if en == "To:"@ {
        "Til:"@
    } else if en == "Nights:"@ {
        "Netter:"@
    } else if en == "People:"@ {
        "Personer:"@
    } else if en == "⚠ Also booked elsewhere at the same time"@ {
        "⚠ Også booket et annet sted samtidig"@
    } else if en == "<deleted person>"@ {
        "<slettet person>"@
    } else if en == "<deleted group>"@ {
        "<slettet gruppe>"@
    } else if en == "📜 Changelog"@ {
        "📜 Endringslogg"@
    } else if en == "↩ Undo last change"@ {
        "↩ Angre siste endring"@
    } else if en == "entries"@ {
        "oppføringer"@
    } else if en == "No changes yet."@ {
        "Ingen endringer ennå."@
    } else if en == "(no group)"@ {
        "(ingen gruppe)"@
    } else if en == "Created housing"@ {
        "Opprettet bolig"@
    } else if en == "Deleted housing"@ {
        "Slettet bolig"@
    } else if en == "Renamed housing"@ {
        "Ga nytt navn til bolig"@
    } else if en == "Changed capacity of"@ {
        "Endret kapasitet for"@
    } else if en == "Edited notes of"@ {
        "Redigerte notater for"@
    } else if en == "Created group"@ {
        "Opprettet gruppe"@
    } else if en == "Deleted group"@ {
        "Slettet gruppe"@
    } else if en == "Renamed group"@ {
        "Ga nytt navn til gruppe"@
    } else if en == "Changed colour of"@ {
        "Endret farge for"@
    } else if en == "Added person"@ {
        "La til person"@
    } else if en == "Deleted person"@ {
        "Slettet person"@
    } else if en == "Renamed person"@ {
        "Ga nytt navn til person"@
    } else if en == "Changed group of"@ {
        "Endret gruppe for"@
    } else if en == "Added stay"@ {
        "La til opphold"@
    } else if en == "Removed stay"@ {
        "Fjernet opphold"@
    } else if en == "Moved stay"@ {
        "Flyttet opphold"@
    } else if en == "Changed occupant of stay"@ {
        "Endret person for opphold"@
    } else if en == "Changed dates of stay"@ {
        "Endret datoer for opphold"@
    } else if en == "Loaded example data"@ {
        "Lastet inn eksempeldata"@
    } else if en == "Loaded plan from file"@ {
        "Åpnet plan fra fil"@
    } else if en == "Loaded a plan with no change history"@ {
        "Åpnet en plan uten endringshistorikk"@
    } else if en == "Undid"@ {
        "Angret"@
    } else if en == "💾 Save"@ {
        "💾 Lagre"@
    } else if en == "Save As…"@ {
        "Lagre som…"@
    } else if en == "Unsaved changes"@ {
        "Ulagrede endringer"@
    } else if en == "You have unsaved changes. Save before closing?"@ {
        "Du har ulagrede endringer. Lagre før du lukker?"@
    } else if en == "Save"@ {
        "Lagre"@
    } else if en == "Discard"@ {
        "Forkast"@
    } else if en == "Cancel"@ {
        "Avbryt"@
    } else if en == "untitled"@ {
        "uten navn"@
    } else if en == "File is open in another instance."@ {
        "Filen er åpen i en annen instans."@
    } else {
        en
    }
}

/// Norwegian Bokmål translations, keyed by the English source string. Unknown
/// strings fall back to English.
fn nb(en: &'static str) -> (r: &'static str)
    ensures
        r@ == norwegian_bokmal_text(en@),
{
    if str_eq(en, "📊 Overview") {
        "📊 Oversikt"
    } else if str_eq(en, "👥 Groups") {
        "👥 Grupper"
    } else if str_eq(en, "🧍 Persons") {
        "🧍 Personer"
    } else if str_eq(en, "🏠 Housings") {
        "🏠 Boliger"
    } else if str_eq(en, "From:") {
        "Fra:"
    } else if str_eq(en, "Days:") {
        "Dager:"
    } else if str_eq(en, "Zoom:") {
        "Zoom:"
    } else if str_eq(en, "Or Ctrl/Cmd + scroll (pinch on trackpad) over the timeline") {
        "Eller Ctrl/Cmd + rull (knip på styreplate) over tidslinjen"
    } else if str_eq(en, "Today") {
        "I dag"
    } else if str_eq(en, "Fit to stays") {
        "Tilpass til opphold"
    } else if str_eq(en, "📂 Load…") {
        "📂 Åpne…"
    } else if str_eq(en, "ℹ About") {
        "ℹ Om"
    } else if str_eq(en, "Language") {
        "Språk"
    } else if str_eq(en, "Saved →") {
        "Lagret →"
    } else if str_eq(en, "Loaded ←") {
        "Åpnet ←"
    } else if str_eq(en, "Save failed:") {
        "Kunne ikke lagre:"
    } else if str_eq(en, "Encode failed:") {
        "Kunne ikke kode:"
    } else if str_eq(en, "Read failed:") {
        "Kunne ikke lese:"
    } else if str_eq(en, "Parse failed:") {
        "Kunne ikke tolke:"
    } else if str_eq(en, "File save is not available on Android yet.") {
        "Fillagring er ikke tilgjengelig på Android ennå."
    } else if str_eq(en, "File load is not available on Android yet.") {
        "Filåpning er ikke tilgjengelig på Android ennå."
    } else if str_eq(en, "Housing Planner plan") {
        "Housing Planner-plan"
    } else if str_eq(en, "About / Licenses") {
        "Om / Lisenser"
    } else if str_eq(en, "Version") {
        "Versjon"
    } else if str_eq(en, "Plan who stays where, and when.") {
        "Planlegg hvem som bor hvor, og når."
    } else if str_eq(en, "📋 Copy dependency licenses") {
        "📋 Kopier avhengighetslisenser"
    } else if str_eq(en, "This application") {
        "Denne applikasjonen"
    } else if str_eq(en, "Third-party dependencies") {
        "Tredjepartsavhengigheter"
    } else if str_eq(en, "Welcome to Housing Planner") {
        "Velkommen til Housing Planner"
    } else if str_eq(en, "Add housings, groups and people in the tabs above —") {
        "Legg til boliger, grupper og personer i fanene over —"
    } else if str_eq(en, "📋 Load example data") {
        "📋 Last inn eksempeldata"
    } else if str_eq(en, "Add a housing in the Housings tab to start planning.") {
        "Legg til en bolig i fanen Boliger for å begynne å planlegge."
    } else if str_eq(en, "Group") {
        "Gruppe"
    } else if str_eq(en, "Person") {
        "Person"
    } else if str_eq(en, "Housing") {
        "Bolig"
    } else if str_eq(en, "➕ New") {
        "➕ Ny"
    } else if str_eq(en, "Stays:") {
        "Opphold:"
    } else if str_eq(en, "Stays (individual):") {
        "Opphold (individuelle):"
    } else if str_eq(en, "➕ Add stay") {
        "➕ Legg til opphold"
    } else if str_eq(en, "Add a housing and a person/group first.") {
        "Legg til en bolig og en person/gruppe først."
    } else if str_eq(en, "(no stays)") {
        "(ingen opphold)"
    } else if str_eq(en, "(group)") {
        "(gruppe)"
    } else if str_eq(en, "No groups yet — add one.") {
        "Ingen grupper ennå — legg til en."
    } else if str_eq(en, "🗑 Delete group") {
        "🗑 Slett gruppe"
    } else if str_eq(en, "Members:") {
        "Medlemmer:"
    } else if str_eq(en, "(no members)") {
        "(ingen medlemmer)"
    } else if str_eq(en, "➕ Add existing…") {
        "➕ Legg til eksisterende…"
    } else if str_eq(en, "➕ New person") {
        "➕ Ny person"
    } else if str_eq(en, "Select or create a group.") {
        "Velg eller opprett en gruppe."
    } else if str_eq(en, "No stays for this group yet.") {
        "Ingen opphold for denne gruppen ennå."
    } else if str_eq(en, "No persons yet — add one.") {
        "Ingen personer ennå — legg til en."
    } else if str_eq(en, "— no group —") {
        "— ingen gruppe —"
    } else if str_eq(en, "🗑 Delete person") {
        "🗑 Slett person"
    } else if str_eq(en, "Select or create a person.") {
        "Velg eller opprett en person."
    } else if str_eq(en, "No stays for this person yet.") {
        "Ingen opphold for denne personen ennå."
    } else if str_eq(en, "No housings yet — add one.") {
        "Ingen boliger ennå — legg til en."
    } else if str_eq(en, "Capacity") {
        "Kapasitet"
    } else if str_eq(en, "Notes:") {
        "Notater:"
    } else if str_eq(en, "🗑 Delete housing") {
        "🗑 Slett bolig"
    } else if str_eq(en, "Select or create a housing.") {
        "Velg eller opprett en bolig."
    } else if str_eq(en, "No stays in this housing yet.") {
        "Ingen opphold i denne boligen ennå."
    } else if str_eq(en, "cap") {
        "kap"
    } else if str_eq(en, "To:") {
        "Til:"
    } else if str_eq(en, "Nights:") {
        "Netter:"
    } else if str_eq(en, "People:") {
        "Personer:"
    } else if str_eq(en, "⚠ Also booked elsewhere at the same time") {
        "⚠ Også booket et annet sted samtidig"
    } else if str_eq(en, "<deleted person>") {
        "<slettet person>"
    } else if str_eq(en, "<deleted group>") {
        "<slettet gruppe>"
    } else if str_eq(en, "📜 Changelog") {
        "📜 Endringslogg"
    } else if str_eq(en, "↩ Undo last change") {
        "↩ Angre siste endring"
    } else if str_eq(en, "entries") {
        "oppføringer"
    } else if str_eq(en, "No changes yet.") {
        "Ingen endringer ennå."
    } else if str_eq(en, "(no group)") {
        "(ingen gruppe)"
    } else if str_eq(en, "Created housing") {
        "Opprettet bolig"
    } else if str_eq(en, "Deleted housing") {
        "Slettet bolig"
    } else if str_eq(en, "Renamed housing") {
        "Ga nytt navn til bolig"
    } else if str_eq(en, "Changed capacity of") {
        "Endret kapasitet for"
    } else if str_eq(en, "Edited notes of") {
        "Redigerte notater for"
    } else if str_eq(en, "Created group") {
        "Opprettet gruppe"
    } else if str_eq(en, "Deleted group") {
        "Slettet gruppe"
    } else if str_eq(en, "Renamed group") {
        "Ga nytt navn til gruppe"
    } else if str_eq(en, "Changed colour of") {
        "Endret farge for"
    } else if str_eq(en, "Added person") {
        "La til person"
    } else if str_eq(en, "Deleted person") {
        "Slettet person"
    } else if str_eq(en, "Renamed person") {
        "Ga nytt navn til person"
    } else if str_eq(en, "Changed group of") {
        "Endret gruppe for"
    } else if str_eq(en, "Added stay") {
        "La til opphold"
    } else if str_eq(en, "Removed stay") {
        "Fjernet opphold"
    } else if str_eq(en, "Moved stay") {
        "Flyttet opphold"
    } else if str_eq(en, "Changed occupant of stay") {
        "Endret person for opphold"
    } else if str_eq(en, "Changed dates of stay") {
        "Endret datoer for opphold"
    } else if str_eq(en, "Loaded example data") {
        "Lastet inn eksempeldata"
    } else if str_eq(en, "Loaded plan from file") {
        "Åpnet plan fra fil"
    } else if str_eq(en, "Loaded a plan with no change history") {
        "Åpnet en plan uten endringshistorikk"
    } else if str_eq(en, "Undid") {
        "Angret"
    } else if str_eq(en, "💾 Save") {
        "💾 Lagre"
    } else if str_eq(en, "Save As…") {
        "Lagre som…"
    } else if str_eq(en, "Unsaved changes") {
        "Ulagrede endringer"
    } else if str_eq(en, "You have unsaved changes. Save before closing?") {
        "Du har ulagrede endringer. Lagre før du lukker?"
    } else if str_eq(en, "Save") {
        "Lagre"
    } else if str_eq(en, "Discard") {
        "Forkast"
    } else if str_eq(en, "Cancel") {
        "Avbryt"
    } else if str_eq(en, "untitled") {
        "uten navn"
    } else if str_eq(en, "File is open in another instance.") {
        "Filen er åpen i en annen instans."
    } else {
        en
    }
}

/// The NorwegianNynorsk table: the entry for `en`, or `en` itself when there is none.
pub open spec fn norwegian_nynorsk_text(en: Seq<char>) -> Seq<char> {
    if en == "📊 Overview"@ {
        "📊 Oversikt"@
    } else if en == "👥 Groups"@ {
        "👥 Grupper"@
    } else if en == "🧍 Persons"@ {
        "🧍 Personar"@
    } else if en == "🏠 Housings"@ {
        "🏠 Bustader"@
    } else if en == "From:"@ {
        "Frå:"@
    } else if en == "Days:"@ {
        "Dagar:"@
    } else if en == "Zoom:"@ {
        "Zoom:"@
    } else if en == "Or Ctrl/Cmd + scroll (pinch on trackpad) over the timeline"@ {
        "Eller Ctrl/Cmd + rull (knip på styreplate) over tidslinja"@
    } else if en == "Today"@ {
        "I dag"@
    } else if en == "Fit to stays"@ {
        "Tilpass til opphald"@
    } else if en == "📂 Load…"@ {
        "📂 Opne…"@
    } else if en == "ℹ About"@ {
        "ℹ Om"@
    } else if en == "Language"@ {
        "Språk"@
    } else if en == "Saved →"@ {
        "Lagra →"@
    } else if en == "Loaded ←"@ {
        "Opna ←"@
    } else if en == "Save failed:"@ {
        "Kunne ikkje lagre:"@
    } else if en == "Encode failed:"@ {
        "Kunne ikkje kode:"@
    } else if en == "Read failed:"@ {
        "Kunne ikkje lese:"@
    } else if en == "Parse failed:"@ {
        "Kunne ikkje tolke:"@
    } else if en == "File save is not available on Android yet."@ {
        "Fillagring er ikkje tilgjengeleg på Android enno."@
    } else if en == "File load is not available on Android yet."@ {
        "Filopning er ikkje tilgjengeleg på Android enno."@
    } else if en == "Housing Planner plan"@ {
        "Housing Planner-plan"@
    } else if en == "About / Licenses"@ {
        "Om / Lisensar"@
    } else if en == "Version"@ {
        "Versjon"@
    } else if en == "Plan who stays where, and when."@ {
        "Planlegg kven som bur kvar, og når."@
    } else if en == "📋 Copy dependency licenses"@ {
        "📋 Kopier avhengnadslisensar"@
    } else if en == "This application"@ {
        "Denne applikasjonen"@
    } else if en == "Third-party dependencies"@ {
        "Tredjepartsavhengnader"@
    } else if en == "Welcome to Housing Planner"@ {
        "Velkomen til Housing Planner"@
    } else if en == "Add housings, groups and people in the tabs above —"@ {
        "Legg til bustader, grupper og personar i fanene over —"@
    } else if en == "📋 Load example data"@ {
        "📋 Last inn eksempeldata"@
    } else if en == "Add a housing in the Housings tab to start planning."@ {
        "Legg til ein bustad i fana Bustader for å byrje å planleggje."@
    } else if en == "Group"@ {
        "Gruppe"@
    } else if en == "Person"@ {
        "Person"@
    } else if en == "Housing"@ {
        "Bustad"@
    } else if en == "➕ New"@ {
        "➕ Ny"@
    } else if en == "Stays:"@ {
        "Opphald:"@
    } else if en == "Stays (individual):"@ {
        "Opphald (individuelle):"@
    } else if en == "➕ Add stay"@ {
        "➕ Legg til opphald"@
    } else if en == "Add a housing and a person/group first."@ {
        "Legg til ein bustad og ein person/gruppe først."@
    } else if en == "(no stays)"@ {
        "(ingen opphald)"@
    } else if en == "(group)"@ {
        "(gruppe)"@
    } else if en == "No groups yet — add one."@ {
        "Ingen grupper enno — legg til ei."@
    } else if en == "🗑 Delete group"@ {
        "🗑 Slett gruppe"@
    } else if en == "Members:"@ {
        "Medlemmer:"@
    } else if en == "(no members)"@ {
        "(ingen medlemmer)"@
    } else if en == "➕ Add existing…"@ {
        "➕ Legg til eksisterande…"@
    } else if en == "➕ New person"@ {
        "➕ Ny person"@
    } else if en == "Select or create a group."@ {
        "Vel eller opprett ei gruppe."@
    } else if en == "No stays for this group yet."@ {
        "Ingen opphald for denne gruppa enno."@
    } else if en == "No persons yet — add one."@ {
        "Ingen personar enno — legg til ein."@
    } else if en == "— no group —"@ {
        "— inga gruppe —"@
    } else if en == "🗑 Delete person"@ {
        "🗑 Slett person"@
    } else if en == "Select or create a person."@ {
        "Vel eller opprett ein person."@
    } else if en == "No stays for this person yet."@ {
        "Ingen opphald for denne personen enno."@
    } else if en == "No housings yet — add one."@ {
        "Ingen bustader enno — legg til ein."@
    } else if en == "Capacity"@ {
        "Kapasitet"@
    } else if en == "Notes:"@ {
        "Notat:"@
    } else if en == "🗑 Delete housing"@ {
        "🗑 Slett bustad"@
    } else if en == "Select or create a housing."@ {
        "Vel eller opprett ein bustad."@
    } else if en == "No stays in this housing yet."@ {
        "Ingen opphald i denne bustaden enno."@
    } else if en == "cap"@ {
        "kap"@
    } else if en == "To:"@ {
        "Til:"@
    } else if en == "Nights:"@ {
        "Netter:"@
    } else if en == "People:"@ {
        "Personar:"@
    } else if en == "⚠ Also booked elsewhere at the same time"@ {
        "⚠ Også booka ein annan stad samstundes"@
    } else if en == "<deleted person>"@ {
        "<sletta person>"@
    } else if en == "<deleted group>"@ {
        "<sletta gruppe>"@
    } else if en == "📜 Changelog"@ {
        "📜 Endringslogg"@
    } else if en == "↩ Undo last change"@ {
        "↩ Angre siste endring"@
    } else if en == "entries"@ {
        "oppføringar"@
    } else if en == "No changes yet."@ {
        "Ingen endringar enno."@
    } else if en == "(no group)"@ {
        "(inga gruppe)"@
    } else if en == "Created housing"@ {
        "Oppretta bustad"@
    } else if en == "Deleted housing"@ {
        "Sletta bustad"@
    } else if en == "Renamed housing"@ {
        "Gav nytt namn til bustad"@
    } else if en == "Changed capacity of"@ {
        "Endra kapasitet for"@
    } else if en == "Edited notes of"@ {
        "Redigerte notat for"@
    } else if en == "Created group"@ {
        "Oppretta gruppe"@
    } else if en == "Deleted group"@ {
        "Sletta gruppe"@
    } else if en == "Renamed group"@ {
        "Gav nytt namn til gruppe"@
    } else if en == "Changed colour of"@ {
        "Endra farge for"@
    } else if en == "Added person"@ {
        "La til person"@
    } else if en == "Deleted person"@ {
        "Sletta person"@
    } else if en == "Renamed person"@ {
        "Gav nytt namn til person"@
    } else if en == "Changed group of"@ {
        "Endra gruppe for"@
    } else if en == "Added stay"@ {
        "La til opphald"@
    } else if en == "Removed stay"@ {
        "Fjerna opphald"@
    } else if en == "Moved stay"@ {
        "Flytta opphald"@
    } else if en == "Changed occupant of stay"@ {
        "Endra person for opphald"@
    } else if en == "Changed dates of stay"@ {
        "Endra datoar for opphald"@
    } else if en == "Loaded example data"@ {
        "Lasta inn eksempeldata"@
    } else if en == "Loaded plan from file"@ {
        "Opna plan frå fil"@
    } else if en == "Loaded a plan with no change history"@ {
        "Opna ein plan utan endringshistorikk"@
    } else if en == "Undid"@ {
        "Angra"@
    } else if en == "💾 Save"@ {
        "💾 Lagre"@
    } else if en == "Save As…"@ {
        "Lagre som…"@
    } else if en == "Unsaved changes"@ {
        "Ulagra endringar"@
    } else if en == "You have unsaved changes. Save before closing?"@ {
        "Du har ulagra endringar. Lagre før du lukkar?"@
    } else if en == "Save"@ {
        "Lagre"@
    } else if en == "Discard"@ {
        "Forkast"@
    } else if en == "Cancel"@ {
        "Avbryt"@
    } else if en == "untitled"@ {
        "utan namn"@
    } else if en == "File is open in another instance."@ {
        "Fila er open i ei anna instans."@
    } else {
        en
    }
}

/// Norwegian Nynorsk translations, keyed by the English source string. Unknown
/// strings fall back to English.
fn nn(en: &'static str) -> (r: &'static str)
    ensures
        r@ == norwegian_nynorsk_text(en@),
{
    if str_eq(en, "📊 Overview") {
        "📊 Oversikt"
    } else if str_eq(en, "👥 Groups") {
        "👥 Grupper"
    } else if str_eq(en, "🧍 Persons") {
        "🧍 Personar"
    } else if str_eq(en, "🏠 Housings") {
        "🏠 Bustader"
    } else if str_eq(en, "From:") {
        "Frå:"
    } else if str_eq(en, "Days:") {
        "Dagar:"
    } else if str_eq(en, "Zoom:") {
        "Zoom:"
    } else if str_eq(en, "Or Ctrl/Cmd + scroll (pinch on trackpad) over the timeline") {
        "Eller Ctrl/Cmd + rull (knip på styreplate) over tidslinja"
    } else if str_eq(en, "Today") {
        "I dag"
    } else if str_eq(en, "Fit to stays") {
        "Tilpass til opphald"
    } else if str_eq(en, "📂 Load…") {
        "📂 Opne…"
    } else if str_eq(en, "ℹ About") {
        "ℹ Om"
    } else if str_eq(en, "Language") {
        "Språk"
    } else if str_eq(en, "Saved →") {
        "Lagra →"
    } else if str_eq(en, "Loaded ←") {
        "Opna ←"
    } else if str_eq(en, "Save failed:") {
        "Kunne ikkje lagre:"
    } else if str_eq(en, "Encode failed:") {
        "Kunne ikkje kode:"
    } else if str_eq(en, "Read failed:") {
        "Kunne ikkje lese:"
    } else if str_eq(en, "Parse failed:") {
        "Kunne ikkje tolke:"
    } else if str_eq(en, "File save is not available on Android yet.") {
        "Fillagring er ikkje tilgjengeleg på Android enno."
    } else if str_eq(en, "File load is not available on Android yet.") {
        "Filopning er ikkje tilgjengeleg på Android enno."
    } else if str_eq(en, "Housing Planner plan") {
        "Housing Planner-plan"
    } else if str_eq(en, "About / Licenses") {
        "Om / Lisensar"
    } else if str_eq(en, "Version") {
        "Versjon"
    } else if str_eq(en, "Plan who stays where, and when.") {
        "Planlegg kven som bur kvar, og når."
    } else if str_eq(en, "📋 Copy dependency licenses") {
        "📋 Kopier avhengnadslisensar"
    } else if str_eq(en, "This application") {
        "Denne applikasjonen"
    } else if str_eq(en, "Third-party dependencies") {
        "Tredjepartsavhengnader"
    } else if str_eq(en, "Welcome to Housing Planner") {
        "Velkomen til Housing Planner"
    } else if str_eq(en, "Add housings, groups and people in the tabs above —") {
        "Legg til bustader, grupper og personar i fanene over —"
    } else if str_eq(en, "📋 Load example data") {
        "📋 Last inn eksempeldata"
    } else if str_eq(en, "Add a housing in the Housings tab to start planning.") {
        "Legg til ein bustad i fana Bustader for å byrje å planleggje."
    } else if str_eq(en, "Group") {
        "Gruppe"
    } else if str_eq(en, "Person") {
        "Person"
    } else if str_eq(en, "Housing") {
        "Bustad"
    } else if str_eq(en, "➕ New") {
        "➕ Ny"
    } else if str_eq(en, "Stays:") {
        "Opphald:"
    } else if str_eq(en, "Stays (individual):") {
        "Opphald (individuelle):"
    } else if str_eq(en, "➕ Add stay") {
        "➕ Legg til opphald"
    } else if str_eq(en, "Add a housing and a person/group first.") {
        "Legg til ein bustad og ein person/gruppe først."
    } else if str_eq(en, "(no stays)") {
        "(ingen opphald)"
    } else if str_eq(en, "(group)") {
        "(gruppe)"
    } else if str_eq(en, "No groups yet — add one.") {
        "Ingen grupper enno — legg til ei."
    } else if str_eq(en, "🗑 Delete group") {
        "🗑 Slett gruppe"
    } else if str_eq(en, "Members:") {
        "Medlemmer:"
    } else if str_eq(en, "(no members)") {
        "(ingen medlemmer)"
    } else if str_eq(en, "➕ Add existing…") {
        "➕ Legg til eksisterande…"
    } else if str_eq(en, "➕ New person") {
        "➕ Ny person"
    } else if str_eq(en, "Select or create a group.") {
        "Vel eller opprett ei gruppe."
    } else if str_eq(en, "No stays for this group yet.") {
        "Ingen opphald for denne gruppa enno."
    } else if str_eq(en, "No persons yet — add one.") {
        "Ingen personar enno — legg til ein."
    } else if str_eq(en, "— no group —") {
        "— inga gruppe —"
    } else if str_eq(en, "🗑 Delete person") {
        "🗑 Slett person"
    } else if str_eq(en, "Select or create a person.") {
        "Vel eller opprett ein person."
    } else if str_eq(en, "No stays for this person yet.") {
        "Ingen opphald for denne personen enno."
    } else if str_eq(en, "No housings yet — add one.") {
        "Ingen bustader enno — legg til ein."
    } else if str_eq(en, "Capacity") {
        "Kapasitet"
    } else if str_eq(en, "Notes:") {
        "Notat:"
    } else if str_eq(en, "🗑 Delete housing") {
        "🗑 Slett bustad"
    } else if str_eq(en, "Select or create a housing.") {
        "Vel eller opprett ein bustad."
    } else if str_eq(en, "No stays in this housing yet.") {
        "Ingen opphald i denne bustaden enno."
    } else if str_eq(en, "cap") {
        "kap"
    } else if str_eq(en, "To:") {
        "Til:"
    } else if str_eq(en, "Nights:") {
        "Netter:"
    } else if str_eq(en, "People:") {
        "Personar:"
    } else if str_eq(en, "⚠ Also booked elsewhere at the same time") {
        "⚠ Også booka ein annan stad samstundes"
    } else if str_eq(en, "<deleted person>") {
        "<sletta person>"
    } else if str_eq(en, "<deleted group>") {
        "<sletta gruppe>"
    } else if str_eq(en, "📜 Changelog") {
        "📜 Endringslogg"
    } else if str_eq(en, "↩ Undo last change") {
        "↩ Angre siste endring"
    } else if str_eq(en, "entries") {
        "oppføringar"
    } else if str_eq(en, "No changes yet.") {
        "Ingen endringar enno."
    } else if str_eq(en, "(no group)") {
        "(inga gruppe)"
    } else if str_eq(en, "Created housing") {
        "Oppretta bustad"
    } else if str_eq(en, "Deleted housing") {
        "Sletta bustad"
    } else if str_eq(en, "Renamed housing") {
        "Gav nytt namn til bustad"
    } else if str_eq(en, "Changed capacity of") {
        "Endra kapasitet for"
    } else if str_eq(en, "Edited notes of") {
        "Redigerte notat for"
    } else if str_eq(en, "Created group") {
        "Oppretta gruppe"
    } else if str_eq(en, "Deleted group") {
        "Sletta gruppe"
    } else if str_eq(en, "Renamed group") {
        "Gav nytt namn til gruppe"
    } else if str_eq(en, "Changed colour of") {
        "Endra farge for"
    } else if str_eq(en, "Added person") {
        "La til person"
    } else if str_eq(en, "Deleted person") {
        "Sletta person"
    } else if str_eq(en, "Renamed person") {
        "Gav nytt namn til person"
    } else if str_eq(en, "Changed group of") {
        "Endra gruppe for"
    } else if str_eq(en, "Added stay") {
        "La til opphald"
    } else if str_eq(en, "Removed stay") {
        "Fjerna opphald"
    } else if str_eq(en, "Moved stay") {
        "Flytta opphald"
    } else if str_eq(en, "Changed occupant of stay") {
        "Endra person for opphald"
    } else if str_eq(en, "Changed dates of stay") {
        "Endra datoar for opphald"
    } else if str_eq(en, "Loaded example data") {
        "Lasta inn eksempeldata"
    } else if str_eq(en, "Loaded plan from file") {
        "Opna plan frå fil"
    } else if str_eq(en, "Loaded a plan with no change history") {
        "Opna ein plan utan endringshistorikk"
    } else if str_eq(en, "Undid") {
        "Angra"
    } else if str_eq(en, "💾 Save") {
        "💾 Lagre"
    } else if str_eq(en, "Save As…") {
        "Lagre som…"
    } else if str_eq(en, "Unsaved changes") {
        "Ulagra endringar"
    } else if str_eq(en, "You have unsaved changes. Save before closing?") {
        "Du har ulagra endringar. Lagre før du lukkar?"
    } else if str_eq(en, "Save") {
        "Lagre"
    } else if str_eq(en, "Discard") {
        "Forkast"
    } else if str_eq(en, "Cancel") {
        "Avbryt"
    } else if str_eq(en, "untitled") {
        "utan namn"
    } else if str_eq(en, "File is open in another instance.") {
        "Fila er open i ei anna instans."
    } else {
        en
    }
}

/// The NorthernSami table: the entry for `en`, or `en` itself when there is none.
pub open spec fn northern_sami_text(en: Seq<char>) -> Seq<char> {
    if en == "📊 Overview"@ {
        "📊 Geahčastat"@
    } else if en == "👥 Groups"@ {
        "👥 Joavkkut"@
    } else if en == "🧍 Persons"@ {
        "🧍 Olbmot"@
    } else if en == "🏠 Housings"@ {
        "🏠 Orrunsajit"@
    } else if en == "From:"@ {
        "Rájes:"@
    } else if en == "Days:"@ {
        "Beaivvit:"@
    } else if en == "Zoom:"@ {
        "Zoom:"@
    } else if en == "Or Ctrl/Cmd + scroll (pinch on trackpad) over the timeline"@ {
        "Dahje Ctrl/Cmd + rulle (njeaikkas touchpad) áigelinnjá badjel"@
    } else if en == "Today"@ {
        "Odne"@
    } else if en == "Fit to stays"@ {
        "Heivet orrumiidda"@
    } else if en == "📂 Load…"@ {
        "📂 Raba…"@
    } else if en == "ℹ About"@ {
        "ℹ Birra"@
    } else if en == "Language"@ {
        "Giella"@
    } else if en == "Saved →"@ {
        "Vurkejuvvon →"@
    } else if en == "Loaded ←"@ {
        "Viežžojuvvon ←"@
    } else if en == "Save failed:"@ {
        "Ii sáhttán vurket:"@
    } else if en == "Encode failed:"@ {
        "Ii sáhttán kodet:"@
    } else if en == "Read failed:"@ {
        "Ii sáhttán lohkat:"@
    } else if en == "Parse failed:"@ {
        "Ii sáhttán dulkot:"@
    } else if en == "File save is not available on Android yet."@ {
        "Fiilavurken ii leat vel olamuttus Android:as."@
    } else if en == "File load is not available on Android yet."@ {
        "Fiilaviežžan ii leat vel olamuttus Android:as."@
    } else if en == "Housing Planner plan"@ {
        "Housing Planner-plána"@
    } else if en == "About / Licenses"@ {
        "Birra / Liseanssat"@
    } else if en == "Version"@ {
        "Veršuvdna"@
    } else if en == "Plan who stays where, and when."@ {
        "Plánes gii orru gos, ja goas."@
    } else if en == "📋 Copy dependency licenses"@ {
        "📋 Máŋge sorjjasvuođaliseanssaid"@
    } else if en == "This application"@ {
        "Dát prográmma"@
    } else if en == "Third-party dependencies"@ {
        "Goalmmát beali sorjjasvuođat"@
    } else if en == "Welcome to Housing Planner"@ {
        "Bures boahtin Housing Planner:ii"@
    } else if en == "Add housings, groups and people in the tabs above —"@ {
        "Lasit orrunsajiid, joavkkuid ja olbmuid bajábeale gilkoriin —"@
    } else if en == "📋 Load example data"@ {
        "📋 Viečča ovdamearkadáhtaid"@
    } else if en == "Add a housing in the Housings tab to start planning."@ {
        "Lasit orrunsaji Orrunsajit-gilkoris vai sáhtát álgit plánet."@
    } else if en == "Group"@ {
        "Joavku"@
    } else if en == "Person"@ {
        "Olmmoš"@
    } else if en == "Housing"@ {
        "Orrunsadji"@
    } else if en == "➕ New"@ {
        "➕ Ođas"@
    } else if en == "Stays:"@ {
        "Orrumat:"@
    } else if en == "Stays (individual):"@ {
        "Orrumat (ovttaskas):"@
    } else if en == "➕ Add stay"@ {
        "➕ Lasit orruma"@
    } else if en == "Add a housing and a person/group first."@ {
        "Lasit vuos orrunsaji ja olbmo/joavkku."@
    } else if en == "(no stays)"@ {
        "(eai orrumat)"@
    } else if en == "(group)"@ {
        "(joavku)"@
    } else if en == "No groups yet — add one."@ {
        "Eai joavkkut velá — lasit ovtta."@
    } else if en == "🗑 Delete group"@ {
        "🗑 Sihko joavkku"@
    } else if en == "Members:"@ {
        "Lahtut:"@
    } else if en == "(no members)"@ {
        "(eai lahtut)"@
    } else if en == "➕ Add existing…"@ {
        "➕ Lasit dálá…"@
    } else if en == "➕ New person"@ {
        "➕ Ođđa olmmoš"@
    } else if en == "Select or create a group."@ {
        "Vállje dahje ráhkat joavkku."@
    } else if en == "No stays for this group yet."@ {
        "Eai orrumat dán joavkkus velá."@
    } else if en == "No persons yet — add one."@ {
        "Eai olbmot velá — lasit ovtta."@
    } else if en == "— no group —"@ {
        "— ii joavku —"@
    } else if en == "🗑 Delete person"@ {
        "🗑 Sihko olbmo"@
    } else if en == "Select or create a person."@ {
        "Vállje dahje ráhkat olbmo."@
    } else if en == "No stays for this person yet."@ {
        "Eai orrumat dán olbmui velá."@
    } else if en == "No housings yet — add one."@ {
        "Eai orrunsajit velá — lasit ovtta."@
    } else if en == "Capacity"@ {
        "Kapasitehta"@
    } else if en == "Notes:"@ {
        "Mearkkašumit:"@
    } else if en == "🗑 Delete housing"@ {
        "🗑 Sihko orrunsaji"@
    } else if en == "Select or create a housing."@ {
        "Vállje dahje ráhkat orrunsaji."@
    } else if en == "No stays in this housing yet."@ {
        "Eai orrumat dán orrunsajis velá."@
    } else if en == "cap"@ {
        "kap"@
    } else if en == "To:"@ {
        "Gitta:"@
    } else if en == "Nights:"@ {
        "Ijat:"@
    } else if en == "People:"@ {
        "Olbmot:"@
    } else if en == "⚠ Also booked elsewhere at the same time"@ {
        "⚠ Maiddái diŋgojuvvon eará sajis seamma áigge"@
    } else if en == "<deleted person>"@ {
        "<sihkkojuvvon olmmoš>"@
    } else if en == "<deleted group>"@ {
        "<sihkkojuvvon joavku>"@
    } else if en == "📜 Changelog"@ {
        "📜 Rievdadanlogga"@
    } else if en == "↩ Undo last change"@ {
        "↩ Máhcat maŋimuš rievdadusa"@
    } else if en == "entries"@ {
        "merkošumit"@
    } else if en == "No changes yet."@ {
        "Ii leat vel rievdadusaid."@
    } else if en == "(no group)"@ {
        "(ii joavku)"@
    } else if en == "Created housing"@ {
        "Ráhkadii orrunsaji"@
    } else if en == "Deleted housing"@ {
        "Sihkui orrunsaji"@
    } else if en == "Renamed housing"@ {
        "Rievdadii orrunsaji nama"@
    } else if en == "Changed capacity of"@ {
        "Rievdadii kapasitehta"@
    } else if en == "Edited notes of"@ {
        "Doaimmahii notáhtaid"@
    } else if en == "Created group"@ {
        "Ráhkadii joavkku"@
    } else if en == "Deleted group"@ {
        "Sihkui joavkku"@
    } else if en == "Renamed group"@ {
        "Rievdadii joavkku nama"@
    } else if en == "Changed colour of"@ {
        "Rievdadii ivnni"@
    } else if en == "Added person"@ {
        "Lasihii olbmo"@
    } else if en == "Deleted person"@ {
        "Sihkui olbmo"@
    } else if en == "Renamed person"@ {
        "Rievdadii olbmo nama"@
    } else if en == "Changed group of"@ {
        "Rievdadii olbmo joavkku"@
    } else if en == "Added stay"@ {
        "Lasihii orruma"@
    } else if en == "Removed stay"@ {
        "Sihkui orruma"@
    } else if en == "Moved stay"@ {
        "Sirddii orruma"@
    } else if en == "Changed occupant of stay"@ {
        "Rievdadii orruma olbmo"@
    } else if en == "Changed dates of stay"@ {
        "Rievdadii orruma beivviid"@
    } else if en == "Loaded example data"@ {
        "Viežžai ovdamearkadáhtaid"@
    } else if en == "Loaded plan from file"@ {
        "Viežžai plána fiillas"@
    } else if en == "Loaded a plan with no change history"@ {
        "Viežžai plána mas ii lean rievdadanhistorjá"@
    } else if en == "Undid"@ {
        "Máhcahii"@
    } else if en == "💾 Save"@ {
        "💾 Vurke"@
    } else if en == "Save As…"@ {
        "Vurke nugo…"@
    } else if en == "Unsaved changes"@ {
        "Vurkekeahtes rievdadusat"@
    } else if en == "You have unsaved changes. Save before closing?"@ {
        "Dus leat vurkekeahtes rievdadusat. Háliidatgo vurket ovdal go giddet?"@
    } else if en == "Save"@ {
        "Vurke"@
    } else if en == "Discard"@ {
        "Hilgo"@
    } else if en == "Cancel"@ {
        "Gaskkalduhte"@
    } else if en == "untitled"@ {
        "namahis"@
    } else if en == "File is open in another instance."@ {
        "Fiila lea rabas eará instánssas."@
    } else {
        en
    }
}

/// Northern Sami (davvisámegiella) translations, keyed by the English source
/// string. Unknown strings fall back to English.
///
/// NOTE: best-effort translation — should be reviewed by a fluent speaker.
fn se(en: &'static str) -> (r: &'static str)
    ensures
        r@ == northern_sami_text(en@),
{
    if str_eq(en, "📊 Overview") {
        "📊 Geahčastat"
    } else if str_eq(en, "👥 Groups") {
        "👥 Joavkkut"
    } else if str_eq(en, "🧍 Persons") {
        "🧍 Olbmot"
    } else if str_eq(en, "🏠 Housings") {
        "🏠 Orrunsajit"
    } else if str_eq(en, "From:") {
        "Rájes:"
    } else if str_eq(en, "Days:") {
        "Beaivvit:"
    } else if str_eq(en, "Zoom:") {
        "Zoom:"
    } else if str_eq(en, "Or Ctrl/Cmd + scroll (pinch on trackpad) over the timeline") {
        "Dahje Ctrl/Cmd + rulle (njeaikkas touchpad) áigelinnjá badjel"
    } else if str_eq(en, "Today") {
        "Odne"
    } else if str_eq(en, "Fit to stays") {
        "Heivet orrumiidda"
    } else if str_eq(en, "📂 Load…") {
        "📂 Raba…"
    } else if str_eq(en, "ℹ About") {
        "ℹ Birra"
    } else if str_eq(en, "Language") {
        "Giella"
    } else if str_eq(en, "Saved →") {
        "Vurkejuvvon →"
    } else if str_eq(en, "Loaded ←") {
        "Viežžojuvvon ←"
    } else if str_eq(en, "Save failed:") {
        "Ii sáhttán vurket:"
    } else if str_eq(en, "Encode failed:") {
        "Ii sáhttán kodet:"
    } else if str_eq(en, "Read failed:") {
        "Ii sáhttán lohkat:"
    } else if str_eq(en, "Parse failed:") {
        "Ii sáhttán dulkot:"
    } else if str_eq(en, "File save is not available on Android yet.") {
        "Fiilavurken ii leat vel olamuttus Android:as."
    } else if str_eq(en, "File load is not available on Android yet.") {
        "Fiilaviežžan ii leat vel olamuttus Android:as."
    } else if str_eq(en, "Housing Planner plan") {
        "Housing Planner-plána"
    } else if str_eq(en, "About / Licenses") {
        "Birra / Liseanssat"
    } else if str_eq(en, "Version") {
        "Veršuvdna"
    } else if str_eq(en, "Plan who stays where, and when.") {
        "Plánes gii orru gos, ja goas."
    } else if str_eq(en, "📋 Copy dependency licenses") {
        "📋 Máŋge sorjjasvuođaliseanssaid"
    } else if str_eq(en, "This application") {
        "Dát prográmma"
    } else if str_eq(en, "Third-party dependencies") {
        "Goalmmát beali sorjjasvuođat"
    } else if str_eq(en, "Welcome to Housing Planner") {
        "Bures boahtin Housing Planner:ii"
    } else if str_eq(en, "Add housings, groups and people in the tabs above —") {
        "Lasit orrunsajiid, joavkkuid ja olbmuid bajábeale gilkoriin —"
    } else if str_eq(en, "📋 Load example data") {
        "📋 Viečča ovdamearkadáhtaid"
    } else if str_eq(en, "Add a housing in the Housings tab to start planning.") {
        "Lasit orrunsaji Orrunsajit-gilkoris vai sáhtát álgit plánet."
    } else if str_eq(en, "Group") {
        "Joavku"
    } else if str_eq(en, "Person") {
        "Olmmoš"
    } else if str_eq(en, "Housing") {
        "Orrunsadji"
    } else if str_eq(en, "➕ New") {
        "➕ Ođas"
    } else if str_eq(en, "Stays:") {
        "Orrumat:"
    } else if str_eq(en, "Stays (individual):") {
        "Orrumat (ovttaskas):"
    } else if str_eq(en, "➕ Add stay") {
        "➕ Lasit orruma"
    } else if str_eq(en, "Add a housing and a person/group first.") {
        "Lasit vuos orrunsaji ja olbmo/joavkku."
    } else if str_eq(en, "(no stays)") {
        "(eai orrumat)"
    } else if str_eq(en, "(group)") {
        "(joavku)"
    } else if str_eq(en, "No groups yet — add one.") {
        "Eai joavkkut velá — lasit ovtta."
    } else if str_eq(en, "🗑 Delete group") {
        "🗑 Sihko joavkku"
    } else if str_eq(en, "Members:") {
        "Lahtut:"
    } else if str_eq(en, "(no members)") {
        "(eai lahtut)"
    } else if str_eq(en, "➕ Add existing…") {
        "➕ Lasit dálá…"
    } else if str_eq(en, "➕ New person") {
        "➕ Ođđa olmmoš"
    } else if str_eq(en, "Select or create a group.") {
        "Vállje dahje ráhkat joavkku."
    } else if str_eq(en, "No stays for this group yet.") {
        "Eai orrumat dán joavkkus velá."
    } else if str_eq(en, "No persons yet — add one.") {
        "Eai olbmot velá — lasit ovtta."
    } else if str_eq(en, "— no group —") {
        "— ii joavku —"
    } else if str_eq(en, "🗑 Delete person") {
        "🗑 Sihko olbmo"
    } else if str_eq(en, "Select or create a person.") {
        "Vállje dahje ráhkat olbmo."
    } else if str_eq(en, "No stays for this person yet.") {
        "Eai orrumat dán olbmui velá."
    } else if str_eq(en, "No housings yet — add one.") {
        "Eai orrunsajit velá — lasit ovtta."
    } else if str_eq(en, "Capacity") {
        "Kapasitehta"
    } else if str_eq(en, "Notes:") {
        "Mearkkašumit:"
    } else if str_eq(en, "🗑 Delete housing") {
        "🗑 Sihko orrunsaji"
    } else if str_eq(en, "Select or create a housing.") {
        "Vállje dahje ráhkat orrunsaji."
    } else if str_eq(en, "No stays in this housing yet.") {
        "Eai orrumat dán orrunsajis velá."
    } else if str_eq(en, "cap") {
        "kap"
    } else if str_eq(en, "To:") {
        "Gitta:"
    } else if str_eq(en, "Nights:") {
        "Ijat:"
    } else if str_eq(en, "People:") {
        "Olbmot:"
    } else if str_eq(en, "⚠ Also booked elsewhere at the same time") {
        "⚠ Maiddái diŋgojuvvon eará sajis seamma áigge"
    } else if str_eq(en, "<deleted person>") {
        "<sihkkojuvvon olmmoš>"
    } else if str_eq(en, "<deleted group>") {
        "<sihkkojuvvon joavku>"
    } else if str_eq(en, "📜 Changelog") {
        "📜 Rievdadanlogga"
    } else if str_eq(en, "↩ Undo last change") {
        "↩ Máhcat maŋimuš rievdadusa"
    } else if str_eq(en, "entries") {
        "merkošumit"
    } else if str_eq(en, "No changes yet.") {
        "Ii leat vel rievdadusaid."
    } else if str_eq(en, "(no group)") {
        "(ii joavku)"
    } else if str_eq(en, "Created housing") {
        "Ráhkadii orrunsaji"
    } else if str_eq(en, "Deleted housing") {
        "Sihkui orrunsaji"
    } else if str_eq(en, "Renamed housing") {
        "Rievdadii orrunsaji nama"
    } else if str_eq(en, "Changed capacity of") {
        "Rievdadii kapasitehta"
    } else if str_eq(en, "Edited notes of") {
        "Doaimmahii notáhtaid"
    } else if str_eq(en, "Created group") {
        "Ráhkadii joavkku"
    } else if str_eq(en, "Deleted group") {
        "Sihkui joavkku"
    } else if str_eq(en, "Renamed group") {
        "Rievdadii joavkku nama"
    } else if str_eq(en, "Changed colour of") {
        "Rievdadii ivnni"
    } else if str_eq(en, "Added person") {
        "Lasihii olbmo"
    } else if str_eq(en, "Deleted person") {
        "Sihkui olbmo"
    } else if str_eq(en, "Renamed person") {
        "Rievdadii olbmo nama"
    } else if str_eq(en, "Changed group of") {
        "Rievdadii olbmo joavkku"
    } else if str_eq(en, "Added stay") {
        "Lasihii orruma"
    } else if str_eq(en, "Removed stay") {
        "Sihkui orruma"
    } else if str_eq(en, "Moved stay") {
        "Sirddii orruma"
    } else if str_eq(en, "Changed occupant of stay") {
        "Rievdadii orruma olbmo"
    } else if str_eq(en, "Changed dates of stay") {
        "Rievdadii orruma beivviid"
    } else if str_eq(en, "Loaded example data") {
        "Viežžai ovdamearkadáhtaid"
    } else if str_eq(en, "Loaded plan from file") {
        "Viežžai plána fiillas"
    } else if str_eq(en, "Loaded a plan with no change history") {
        "Viežžai plána mas ii lean rievdadanhistorjá"
    } else if str_eq(en, "Undid") {
        "Máhcahii"
    } else if str_eq(en, "💾 Save") {
        "💾 Vurke"
    } else if str_eq(en, "Save As…") {
        "Vurke nugo…"
    } else if str_eq(en, "Unsaved changes") {
        "Vurkekeahtes rievdadusat"
    } else if str_eq(en, "You have unsaved changes. Save before closing?") {
        "Dus leat vurkekeahtes rievdadusat. Háliidatgo vurket ovdal go giddet?"
    } else if str_eq(en, "Save") {
        "Vurke"
    } else if str_eq(en, "Discard") {
        "Hilgo"
    } else if str_eq(en, "Cancel") {
        "Gaskkalduhte"
    } else if str_eq(en, "untitled") {
        "namahis"
    } else if str_eq(en, "File is open in another instance.") {
        "Fiila lea rabas eará instánssas."
    } else {
        en
    }
}

/// The Danish table: the entry for `en`, or `en` itself when there is none.
pub open spec fn danish_text(en: Seq<char>) -> Seq<char> {
    if en == "📊 Overview"@ {
        "📊 Oversigt"@
    } else if en == "👥 Groups"@ {
        "👥 Grupper"@
    } else if en == "🧍 Persons"@ {
        "🧍 Personer"@
    } else if en == "🏠 Housings"@ {
        "🏠 Boliger"@
    } else if en == "From:"@ {
        "Fra:"@
    } else if en == "Days:"@ {
        "Dage:"@
    } else if en == "Zoom:"@ {
        "Zoom:"@
    } else if en == "Or Ctrl/Cmd + scroll (pinch on trackpad) over the timeline"@ {
        "Eller Ctrl/Cmd + rul (knib på pegefelt) over tidslinjen"@
    } else if en == "Today"@ {
        "I dag"@
    } else if en == "Fit to stays"@ {
        "Tilpas til ophold"@
    } else if en == "📂 Load…"@ {
        "📂 Åbn…"@
    } else if en == "ℹ About"@ {
        "ℹ Om"@
    } else if en == "Language"@ {
        "Sprog"@
    } else if en == "Saved →"@ {
        "Gemt →"@
    } else if en == "Loaded ←"@ {
        "Indlæst ←"@
    } else if en == "Save failed:"@ {
        "Kunne ikke gemme:"@
    } else if en == "Encode failed:"@ {
        "Kunne ikke kode:"@
    } else if en == "Read failed:"@ {
        "Kunne ikke læse:"@
    } else if en == "Parse failed:"@ {
        "Kunne ikke fortolke:"@
    } else if en == "File save is not available on Android yet."@ {
        "Det er endnu ikke muligt at gemme til fil på Android."@
    } else if en == "File load is not available on Android yet."@ {
        "Det er endnu ikke muligt at indlæse fra fil på Android."@
    } else if en == "Housing Planner plan"@ {
        "Housing Planner-plan"@
    } else if en == "About / Licenses"@ {
        "Om / Licenser"@
    } else if en == "Version"@ {
        "Version"@
    } else if en == "Plan who stays where, and when."@ {
        "Planlæg hvem der bor hvor, og hvornår."@
    } else if en == "📋 Copy dependency licenses"@ {
        "📋 Kopiér afhængighedslicenser"@
    } else if en == "This application"@ {
        "Denne applikation"@
    } else if en == "Third-party dependencies"@ {
        "Tredjepartsafhængigheder"@
    } else if en == "Welcome to Housing Planner"@ {
        "Velkommen til Housing Planner"@
    } else if en == "Add housings, groups and people in the tabs above —"@ {
        "Tilføj boliger, grupper og personer i fanerne ovenfor —"@
    } else if en == "📋 Load example data"@ {
        "📋 Indlæs eksempeldata"@
    } else if en == "Add a housing in the Housings tab to start planning."@ {
        "Tilføj en bolig under fanen Boliger for at begynde at planlægge."@
    } else if en == "Group"@ {
        "Gruppe"@
    } else if en == "Person"@ {
        "Person"@
    } else if en == "Housing"@ {
        "Bolig"@
    } else if en == "➕ New"@ {
        "➕ Ny"@
    } else if en == "Stays:"@ {
        "Ophold:"@
    } else if en == "Stays (individual):"@ {
        "Ophold (individuelle):"@
    } else if en == "➕ Add stay"@ {
        "➕ Tilføj ophold"@
    } else if en == "Add a housing and a person/group first."@ {
        "Tilføj en bolig og en person/gruppe først."@
    } else if en == "(no stays)"@ {
        "(ingen ophold)"@
    } else if en == "(group)"@ {
        "(gruppe)"@
    } else if en == "No groups yet — add one."@ {
        "Ingen grupper endnu — tilføj en."@
    } else if en == "🗑 Delete group"@ {
        "🗑 Slet gruppe"@
    } else if en == "Members:"@ {
        "Medlemmer:"@
    } else if en == "(no members)"@ {
        "(ingen medlemmer)"@
    } else if en == "➕ Add existing…"@ {
        "➕ Tilføj eksisterende…"@
    } else if en == "➕ New person"@ {
        "➕ Ny person"@
    } else if en == "Select or create a group."@ {
        "Vælg eller opret en gruppe."@
    } else if en == "No stays for this group yet."@ {
        "Ingen ophold for denne gruppe endnu."@
    } else if en == "No persons yet — add one."@ {
        "Ingen personer endnu — tilføj en."@
    } else if en == "— no group —"@ {
        "— ingen gruppe —"@
    } else if en == "🗑 Delete person"@ {
        "🗑 Slet person"@
    } else if en == "Select or create a person."@ {
        "Vælg eller opret en person."@
    } else if en == "No stays for this person yet."@ {
        "Ingen ophold for denne person endnu."@
    } else if en == "No housings yet — add one."@ {
        "Ingen boliger endnu — tilføj en."@
    } else if en == "Capacity"@ {
        "Kapacitet"@
    } else if en == "Notes:"@ {
        "Noter:"@
    } else if en == "🗑 Delete housing"@ {
        "🗑 Slet bolig"@
    } else if en == "Select or create a housing."@ {
        "Vælg eller opret en bolig."@
    } else if en == "No stays in this housing yet."@ {
        "Ingen ophold i denne bolig endnu."@
    } else if en == "cap"@ {
        "kap"@
    } else if en == "To:"@ {
        "Til:"@
    } else if en == "Nights:"@ {
        "Nætter:"@
    } else if en == "People:"@ {
        "Personer:"@
    } else if en == "⚠ Also booked elsewhere at the same time"@ {
        "⚠ Også booket et andet sted samtidig"@
    } else if en == "<deleted person>"@ {
        "<slettet person>"@
    } else if en == "<deleted group>"@ {
        "<slettet gruppe>"@
    } else if en == "📜 Changelog"@ {
        "📜 Ændringslog"@
    } else if en == "↩ Undo last change"@ {
        "↩ Fortryd seneste ændring"@
    } else if en == "entries"@ {
        "poster"@
    } else if en == "No changes yet."@ {
        "Ingen ændringer endnu."@
    } else if en == "(no group)"@ {
        "(ingen gruppe)"@
    } else if en == "Created housing"@ {
        "Oprettede bolig"@
    } else if en == "Deleted housing"@ {
        "Slettede bolig"@
    } else if en == "Renamed housing"@ {
        "Omdøbte bolig"@
    } else if en == "Changed capacity of"@ {
        "Ændrede kapacitet for"@
    } else if en == "Edited notes of"@ {
        "Redigerede noter for"@
    } else if en == "Created group"@ {
        "Oprettede gruppe"@
    } else if en == "Deleted group"@ {
        "Slettede gruppe"@
    } else if en == "Renamed group"@ {
        "Omdøbte gruppe"@
    } else if en == "Changed colour of"@ {
        "Ændrede farve for"@
    } else if en == "Added person"@ {
        "Tilføjede person"@
    } else if en == "Deleted person"@ {
        "Slettede person"@
    } else if en == "Renamed person"@ {
        "Omdøbte person"@
    } else if en == "Changed group of"@ {
        "Ændrede gruppe for"@
    } else if en == "Added stay"@ {
        "Tilføjede ophold"@
    } else if en == "Removed stay"@ {
        "Fjernede ophold"@
    } else if en == "Moved stay"@ {
        "Flyttede ophold"@
    } else if en == "Changed occupant of stay"@ {
        "Ændrede person for ophold"@
    } else if en == "Changed dates of stay"@ {
        "Ændrede datoer for ophold"@
    } else if en == "Loaded example data"@ {
        "Indlæste eksempeldata"@
    } else if en == "Loaded plan from file"@ {
        "Åbnede plan fra fil"@
    } else if en == "Loaded a plan with no change history"@ {
        "Åbnede en plan uden ændringshistorik"@
    } else if en == "Undid"@ {
        "Fortrød"@
    } else if en == "💾 Save"@ {
        "💾 Gem"@
    } else if en == "Save As…"@ {
        "Gem som…"@
    } else if en == "Unsaved changes"@ {
        "Ugemte ændringer"@
    } else if en == "You have unsaved changes. Save before closing?"@ {
        "Du har ugemte ændringer. Vil du gemme før du lukker?"@
    } else if en == "Save"@ {
        "Gem"@
    } else if en == "Discard"@ {
        "Kassér"@
    } else if en == "Cancel"@ {
        "Annuller"@
    } else if en == "untitled"@ {
        "unavngivet"@
    } else if en == "File is open in another instance."@ {
        "Filen er åben i en anden instans."@
    } else {
        en
    }
}

/// Danish translations, keyed by the English source string. Unknown strings fall
/// back to English.
fn da(en: &'static str) -> (r: &'static str)
    ensures
        r@ == danish_text(en@),
{
    if str_eq(en, "📊 Overview") {
        "📊 Oversigt"
    } else if str_eq(en, "👥 Groups") {
        "👥 Grupper"
    } else if str_eq(en, "🧍 Persons") {
        "🧍 Personer"
    } else if str_eq(en, "🏠 Housings") {
        "🏠 Boliger"
    } else if str_eq(en, "From:") {
        "Fra:"
    } else if str_eq(en, "Days:") {
        "Dage:"
    } else if str_eq(en, "Zoom:") {
        "Zoom:"
    } else if str_eq(en, "Or Ctrl/Cmd + scroll (pinch on trackpad) over the timeline") {
        "Eller Ctrl/Cmd + rul (knib på pegefelt) over tidslinjen"
    } else if str_eq(en, "Today") {
        "I dag"
    } else if str_eq(en, "Fit to stays") {
        "Tilpas til ophold"
    } else if str_eq(en, "📂 Load…") {
        "📂 Åbn…"
    } else if str_eq(en, "ℹ About") {
        "ℹ Om"
    } else if str_eq(en, "Language") {
        "Sprog"
    } else if str_eq(en, "Saved →") {
        "Gemt →"
    } else if str_eq(en, "Loaded ←") {
        "Indlæst ←"
    } else if str_eq(en, "Save failed:") {
        "Kunne ikke gemme:"
    } else if str_eq(en, "Encode failed:") {
        "Kunne ikke kode:"
    } else if str_eq(en, "Read failed:") {
        "Kunne ikke læse:"
    } else if str_eq(en, "Parse failed:") {
        "Kunne ikke fortolke:"
    } else if str_eq(en, "File save is not available on Android yet.") {
        "Det er endnu ikke muligt at gemme til fil på Android."
    } else if str_eq(en, "File load is not available on Android yet.") {
        "Det er endnu ikke muligt at indlæse fra fil på Android."
    } else if str_eq(en, "Housing Planner plan") {
        "Housing Planner-plan"
    } else if str_eq(en, "About / Licenses") {
        "Om / Licenser"
    } else if str_eq(en, "Version") {
        "Version"
    } else if str_eq(en, "Plan who stays where, and when.") {
        "Planlæg hvem der bor hvor, og hvornår."
    } else if str_eq(en, "📋 Copy dependency licenses") {
        "📋 Kopiér afhængighedslicenser"
    } else if str_eq(en, "This application") {
        "Denne applikation"
    } else if str_eq(en, "Third-party dependencies") {
        "Tredjepartsafhængigheder"
    } else if str_eq(en, "Welcome to Housing Planner") {
        "Velkommen til Housing Planner"
    } else if str_eq(en, "Add housings, groups and people in the tabs above —") {
        "Tilføj boliger, grupper og personer i fanerne ovenfor —"
    } else if str_eq(en, "📋 Load example data") {
        "📋 Indlæs eksempeldata"
    } else if str_eq(en, "Add a housing in the Housings tab to start planning.") {
        "Tilføj en bolig under fanen Boliger for at begynde at planlægge."
    } else if str_eq(en, "Group") {
        "Gruppe"
    } else if str_eq(en, "Person") {
        "Person"
    } else if str_eq(en, "Housing") {
        "Bolig"
    } else if str_eq(en, "➕ New") {
        "➕ Ny"
    } else if str_eq(en, "Stays:") {
        "Ophold:"
    } else if str_eq(en, "Stays (individual):") {
        "Ophold (individuelle):"
    } else if str_eq(en, "➕ Add stay") {
        "➕ Tilføj ophold"
    } else if str_eq(en, "Add a housing and a person/group first.") {
        "Tilføj en bolig og en person/gruppe først."
    } else if str_eq(en, "(no stays)") {
        "(ingen ophold)"
    } else if str_eq(en, "(group)") {
        "(gruppe)"
    } else if str_eq(en, "No groups yet — add one.") {
        "Ingen grupper endnu — tilføj en."
    } else if str_eq(en, "🗑 Delete group") {
        "🗑 Slet gruppe"
    } else if str_eq(en, "Members:") {
        "Medlemmer:"
    } else if str_eq(en, "(no members)") {
        "(ingen medlemmer)"
    } else if str_eq(en, "➕ Add existing…") {
        "➕ Tilføj eksisterende…"
    } else if str_eq(en, "➕ New person") {
        "➕ Ny person"
    } else if str_eq(en, "Select or create a group.") {
        "Vælg eller opret en gruppe."
    } else if str_eq(en, "No stays for this group yet.") {
        "Ingen ophold for denne gruppe endnu."
    } else if str_eq(en, "No persons yet — add one.") {
        "Ingen personer endnu — tilføj en."
    } else if str_eq(en, "— no group —") {
        "— ingen gruppe —"
    } else if str_eq(en, "🗑 Delete person") {
        "🗑 Slet person"
    } else if str_eq(en, "Select or create a person.") {
        "Vælg eller opret en person."
    } else if str_eq(en, "No stays for this person yet.") {
        "Ingen ophold for denne person endnu."
    } else if str_eq(en, "No housings yet — add one.") {
        "Ingen boliger endnu — tilføj en."
    } else if str_eq(en, "Capacity") {
        "Kapacitet"
    } else if str_eq(en, "Notes:") {
        "Noter:"
    } else if str_eq(en, "🗑 Delete housing") {
        "🗑 Slet bolig"
    } else if str_eq(en, "Select or create a housing.") {
        "Vælg eller opret en bolig."
    } else if str_eq(en, "No stays in this housing yet.") {
        "Ingen ophold i denne bolig endnu."
    } else if str_eq(en, "cap") {
        "kap"
    } else if str_eq(en, "To:") {
        "Til:"
    } else if str_eq(en, "Nights:") {
        "Nætter:"
    } else if str_eq(en, "People:") {
        "Personer:"
    } else if str_eq(en, "⚠ Also booked elsewhere at the same time") {
        "⚠ Også booket et andet sted samtidig"
    } else if str_eq(en, "<deleted person>") {
        "<slettet person>"
    } else if str_eq(en, "<deleted group>") {
        "<slettet gruppe>"
    } else if str_eq(en, "📜 Changelog") {
        "📜 Ændringslog"
    } else if str_eq(en, "↩ Undo last change") {
        "↩ Fortryd seneste ændring"
    } else if str_eq(en, "entries") {
        "poster"
    } else if str_eq(en, "No changes yet.") {
        "Ingen ændringer endnu."
    } else if str_eq(en, "(no group)") {
        "(ingen gruppe)"
    } else if str_eq(en, "Created housing") {
        "Oprettede bolig"
    } else if str_eq(en, "Deleted housing") {
        "Slettede bolig"
    } else if str_eq(en, "Renamed housing") {
        "Omdøbte bolig"
    } else if str_eq(en, "Changed capacity of") {
        "Ændrede kapacitet for"
    } else if str_eq(en, "Edited notes of") {
        "Redigerede noter for"
    } else if str_eq(en, "Created group") {
        "Oprettede gruppe"
    } else if str_eq(en, "Deleted group") {
        "Slettede gruppe"
    } else if str_eq(en, "Renamed group") {
        "Omdøbte gruppe"
    } else if str_eq(en, "Changed colour of") {
        "Ændrede farve for"
    } else if str_eq(en, "Added person") {
        "Tilføjede person"
    } else if str_eq(en, "Deleted person") {
        "Slettede person"
    } else if str_eq(en, "Renamed person") {
        "Omdøbte person"
    } else if str_eq(en, "Changed group of") {
        "Ændrede gruppe for"
    } else if str_eq(en, "Added stay") {
        "Tilføjede ophold"
    } else if str_eq(en, "Removed stay") {
        "Fjernede ophold"
    } else if str_eq(en, "Moved stay") {
        "Flyttede ophold"
    } else if str_eq(en, "Changed occupant of stay") {
        "Ændrede person for ophold"
    } else if str_eq(en, "Changed dates of stay") {
        "Ændrede datoer for ophold"
    } else if str_eq(en, "Loaded example data") {
        "Indlæste eksempeldata"
    } else if str_eq(en, "Loaded plan from file") {
        "Åbnede plan fra fil"
    } else if str_eq(en, "Loaded a plan with no change history") {
        "Åbnede en plan uden ændringshistorik"
    } else if str_eq(en, "Undid") {
        "Fortrød"
    } else if str_eq(en, "💾 Save") {
        "💾 Gem"
    } else if str_eq(en, "Save As…") {
        "Gem som…"
    } else if str_eq(en, "Unsaved changes") {
        "Ugemte ændringer"
    } else if str_eq(en, "You have unsaved changes. Save before closing?") {
        "Du har ugemte ændringer. Vil du gemme før du lukker?"
    } else if str_eq(en, "Save") {
        "Gem"
    } else if str_eq(en, "Discard") {
        "Kassér"
    } else if str_eq(en, "Cancel") {
        "Annuller"
    } else if str_eq(en, "untitled") {
        "unavngivet"
    } else if str_eq(en, "File is open in another instance.") {
        "Filen er åben i en anden instans."
    } else {
        en
    }
}

/// The Ukrainian table: the entry for `en`, or `en` itself when there is none.
pub open spec fn ukrainian_text(en: Seq<char>) -> Seq<char> {
    if en == "📊 Overview"@ {
        "📊 Огляд"@
    } else if en == "👥 Groups"@ {
        "👥 Групи"@
    } else if en == "🧍 Persons"@ {
        "🧍 Особи"@
    } else if en == "🏠 Housings"@ {
        "🏠 Помешкання"@
    } else if en == "From:"@ {
        "Від:"@
    } else if en == "Days:"@ {
        "Дні:"@
    } else if en == "Zoom:"@ {
        "Масштаб:"@
    } else if en == "Or Ctrl/Cmd + scroll (pinch on trackpad) over the timeline"@ {
        "Або Ctrl/Cmd + прокручування (щипок на тачпаді) над шкалою часу"@
    } else if en == "Today"@ {
        "Сьогодні"@
    } else if en == "Fit to stays"@ {
        "Підлаштувати під перебування"@
    } else if en == "📂 Load…"@ {
        "📂 Відкрити…"@
    } else if en == "ℹ About"@ {
        "ℹ Про програму"@
    } else if en == "Language"@ {
        "Мова"@
    } else if en == "Saved →"@ {
        "Збережено →"@
    } else if en == "Loaded ←"@ {
        "Завантажено ←"@
    } else if en == "Save failed:"@ {
        "Не вдалося зберегти:"@
    } else if en == "Encode failed:"@ {
        "Не вдалося закодувати:"@
    } else if en == "Read failed:"@ {
        "Не вдалося прочитати:"@
    } else if en == "Parse failed:"@ {
        "Не вдалося розібрати:"@
    } else if en == "File save is not available on Android yet."@ {
        "Збереження у файл поки що недоступне на Android."@
    } else if en == "File load is not available on Android yet."@ {
        "Завантаження з файлу поки що недоступне на Android."@
    } else if en == "Housing Planner plan"@ {
        "План Housing Planner"@
    } else if en == "About / Licenses"@ {
        "Про програму / Ліцензії"@
    } else if en == "Version"@ {
        "Версія"@
    } else if en == "Plan who stays where, and when."@ {
        "Плануйте, хто де живе і коли."@
    } else if en == "📋 Copy dependency licenses"@ {
        "📋 Копіювати ліцензії залежностей"@
    } else if en == "This application"@ {
        "Ця програма"@
    } else if en == "Third-party dependencies"@ {
        "Сторонні залежності"@
    } else if en == "Welcome to Housing Planner"@ {
        "Ласкаво просимо до Housing Planner"@
    } else if en == "Add housings, groups and people in the tabs above —"@ {
        "Додавайте помешкання, групи та людей у вкладках вище —"@
    } else if en == "📋 Load example data"@ {
        "📋 Завантажити приклад даних"@
    } else if en == "Add a housing in the Housings tab to start planning."@ {
        "Додайте помешкання у вкладці «Помешкання», щоб почати планувати."@
    } else if en == "Group"@ {
        "Група"@
    } else if en == "Person"@ {
        "Особа"@
    } else if en == "Housing"@ {
        "Помешкання"@
    } else if en == "➕ New"@ {
        "➕ Створити"@
    } else if en == "Stays:"@ {
        "Перебування:"@
    } else if en == "Stays (individual):"@ {
        "Перебування (індивідуальні):"@
    } else if en == "➕ Add stay"@ {
        "➕ Додати перебування"@
    } else if en == "Add a housing and a person/group first."@ {
        "Спершу додайте помешкання та особу/групу."@
    } else if en == "(no stays)"@ {
        "(немає перебувань)"@
    } else if en == "(group)"@ {
        "(група)"@
    } else if en == "No groups yet — add one."@ {
        "Груп ще немає — додайте одну."@
    } else if en == "🗑 Delete group"@ {
        "🗑 Видалити групу"@
    } else if en == "Members:"@ {
        "Учасники:"@
    } else if en == "(no members)"@ {
        "(немає учасників)"@
    } else if en == "➕ Add existing…"@ {
        "➕ Додати наявного…"@
    } else if en == "➕ New person"@ {
        "➕ Нова особа"@
    } else if en == "Select or create a group."@ {
        "Виберіть або створіть групу."@
    } else if en == "No stays for this group yet."@ {
        "Для цієї групи ще немає перебувань."@
    } else if en == "No persons yet — add one."@ {
        "Осіб ще немає — додайте одну."@
    } else if en == "— no group —"@ {
        "— без групи —"@
    } else if en == "🗑 Delete person"@ {
        "🗑 Видалити особу"@
    } else if en == "Select or create a person."@ {
        "Виберіть або створіть особу."@
    } else if en == "No stays for this person yet."@ {
        "Для цієї особи ще немає перебувань."@
    } else if en == "No housings yet — add one."@ {
        "Помешкань ще немає — додайте одне."@
    } else if en == "Capacity"@ {
        "Місткість"@
    } else if en == "Notes:"@ {
        "Нотатки:"@
    } else if en == "🗑 Delete housing"@ {
        "🗑 Видалити помешкання"@
    } else if en == "Select or create a housing."@ {
        "Виберіть або створіть помешкання."@
    } else if en == "No stays in this housing yet."@ {
        "У цьому помешканні ще немає перебувань."@
    } else if en == "cap"@ {
        "міст."@
    } else if en == "To:"@ {
        "До:"@
    } else if en == "Nights:"@ {
        "Ночей:"@
    } else if en == "People:"@ {
        "Людей:"@
    } else if en == "⚠ Also booked elsewhere at the same time"@ {
        "⚠ Також заброньовано в іншому місці в той самий час"@
    } else if en == "<deleted person>"@ {
        "<видалена особа>"@
    } else if en == "<deleted group>"@ {
        "<видалена група>"@
    } else if en == "📜 Changelog"@ {
        "📜 Журнал змін"@
    } else if en == "↩ Undo last change"@ {
        "↩ Скасувати останню зміну"@
    } else if en == "entries"@ {
        "записів"@
    } else if en == "No changes yet."@ {
        "Ще немає змін."@
    } else if en == "(no group)"@ {
        "(без групи)"@
    } else if en == "Created housing"@ {
        "Створено помешкання"@
    } else if en == "Deleted housing"@ {
        "Видалено помешкання"@
    } else if en == "Renamed housing"@ {
        "Перейменовано помешкання"@
    } else if en == "Changed capacity of"@ {
        "Змінено місткість для"@
    } else if en == "Edited notes of"@ {
        "Відредаговано нотатки для"@
    } else if en == "Created group"@ {
        "Створено групу"@
    } else if en == "Deleted group"@ {
        "Видалено групу"@
    } else if en == "Renamed group"@ {
        "Перейменовано групу"@
    } else if en == "Changed colour of"@ {
        "Змінено колір для"@
    } else if en == "Added person"@ {
        "Додано особу"@
    } else if en == "Deleted person"@ {
        "Видалено особу"@
    } else if en == "Renamed person"@ {
        "Перейменовано особу"@
    } else if en == "Changed group of"@ {
        "Змінено групу для"@
    } else if en == "Added stay"@ {
        "Додано перебування"@
    } else if en == "Removed stay"@ {
        "Видалено перебування"@
    } else if en == "Moved stay"@ {
        "Переміщено перебування"@
    } else if en == "Changed occupant of stay"@ {
        "Змінено мешканця перебування"@
    } else if en == "Changed dates of stay"@ {
        "Змінено дати перебування"@
    } else if en == "Loaded example data"@ {
        "Завантажено приклад даних"@
    } else if en == "Loaded plan from file"@ {
        "Відкрито план з файлу"@
    } else if en == "Loaded a plan with no change history"@ {
        "Відкрито план без історії змін"@
    } else if en == "Undid"@ {
        "Скасовано"@
    } else if en == "💾 Save"@ {
        "💾 Зберегти"@
    } else if en == "Save As…"@ {
        "Зберегти як…"@
    } else if en == "Unsaved changes"@ {
        "Незбережені зміни"@
    } else if en == "You have unsaved changes. Save before closing?"@ {
        "У вас є незбережені зміни. Зберегти перед закриттям?"@
    } else if en == "Save"@ {
        "Зберегти"@
    } else if en == "Discard"@ {
        "Відхилити"@
    } else if en == "Cancel"@ {
        "Скасувати"@
    } else if en == "untitled"@ {
        "без назви"@
    } else if en == "File is open in another instance."@ {
        "Файл відкрито в іншому екземплярі."@
    } else {
        en
    }
}

/// Ukrainian translations, keyed by the English source string. Unknown strings
/// fall back to English.
fn uk(en: &'static str) -> (r: &'static str)
    ensures
        r@ == ukrainian_text(en@),
{
    if str_eq(en, "📊 Overview") {
        "📊 Огляд"
    } else if str_eq(en, "👥 Groups") {
        "👥 Групи"
    } else if str_eq(en, "🧍 Persons") {
        "🧍 Особи"
    } else if str_eq(en, "🏠 Housings") {
        "🏠 Помешкання"
    } else if str_eq(en, "From:") {
        "Від:"
    } else if str_eq(en, "Days:") {
        "Дні:"
    } else if str_eq(en, "Zoom:") {
        "Масштаб:"
    } else if str_eq(en, "Or Ctrl/Cmd + scroll (pinch on trackpad) over the timeline") {
        "Або Ctrl/Cmd + прокручування (щипок на тачпаді) над шкалою часу"
    } else if str_eq(en, "Today") {
        "Сьогодні"
    } else if str_eq(en, "Fit to stays") {
        "Підлаштувати під перебування"
    } else if str_eq(en, "📂 Load…") {
        "📂 Відкрити…"
    } else if str_eq(en, "ℹ About") {
        "ℹ Про програму"
    } else if str_eq(en, "Language") {
        "Мова"
    } else if str_eq(en, "Saved →") {
        "Збережено →"
    } else if str_eq(en, "Loaded ←") {
        "Завантажено ←"
    } else if str_eq(en, "Save failed:") {
        "Не вдалося зберегти:"
    } else if str_eq(en, "Encode failed:") {
        "Не вдалося закодувати:"
    } else if str_eq(en, "Read failed:") {
        "Не вдалося прочитати:"
    } else if str_eq(en, "Parse failed:") {
        "Не вдалося розібрати:"
    } else if str_eq(en, "File save is not available on Android yet.") {
        "Збереження у файл поки що недоступне на Android."
    } else if str_eq(en, "File load is not available on Android yet.") {
        "Завантаження з файлу поки що недоступне на Android."
    } else if str_eq(en, "Housing Planner plan") {
        "План Housing Planner"
    } else if str_eq(en, "About / Licenses") {
        "Про програму / Ліцензії"
    } else if str_eq(en, "Version") {
        "Версія"
    } else if str_eq(en, "Plan who stays where, and when.") {
        "Плануйте, хто де живе і коли."
    } else if str_eq(en, "📋 Copy dependency licenses") {
        "📋 Копіювати ліцензії залежностей"
    } else if str_eq(en, "This application") {
        "Ця програма"
    } else if str_eq(en, "Third-party dependencies") {
        "Сторонні залежності"
    } else if str_eq(en, "Welcome to Housing Planner") {
        "Ласкаво просимо до Housing Planner"
    } else if str_eq(en, "Add housings, groups and people in the tabs above —") {
        "Додавайте помешкання, групи та людей у вкладках вище —"
    } else if str_eq(en, "📋 Load example data") {
        "📋 Завантажити приклад даних"
    } else if str_eq(en, "Add a housing in the Housings tab to start planning.") {
        "Додайте помешкання у вкладці «Помешкання», щоб почати планувати."
    } else if str_eq(en, "Group") {
        "Група"
    } else if str_eq(en, "Person") {
        "Особа"
    } else if str_eq(en, "Housing") {
        "Помешкання"
    } else if str_eq(en, "➕ New") {
        "➕ Створити"
    } else if str_eq(en, "Stays:") {
        "Перебування:"
    } else if str_eq(en, "Stays (individual):") {
        "Перебування (індивідуальні):"
    } else if str_eq(en, "➕ Add stay") {
        "➕ Додати перебування"
    } else if str_eq(en, "Add a housing and a person/group first.") {
        "Спершу додайте помешкання та особу/групу."
    } else if str_eq(en, "(no stays)") {
        "(немає перебувань)"
    } else if str_eq(en, "(group)") {
        "(група)"
    } else if str_eq(en, "No groups yet — add one.") {
        "Груп ще немає — додайте одну."
    } else if str_eq(en, "🗑 Delete group") {
        "🗑 Видалити групу"
    } else if str_eq(en, "Members:") {
        "Учасники:"
    } else if str_eq(en, "(no members)") {
        "(немає учасників)"
    } else if str_eq(en, "➕ Add existing…") {
        "➕ Додати наявного…"
    } else if str_eq(en, "➕ New person") {
        "➕ Нова особа"
    } else if str_eq(en, "Select or create a group.") {
        "Виберіть або створіть групу."
    } else if str_eq(en, "No stays for this group yet.") {
        "Для цієї групи ще немає перебувань."
    } else if str_eq(en, "No persons yet — add one.") {
        "Осіб ще немає — додайте одну."
    } else if str_eq(en, "— no group —") {
        "— без групи —"
    } else if str_eq(en, "🗑 Delete person") {
        "🗑 Видалити особу"
    } else if str_eq(en, "Select or create a person.") {
        "Виберіть або створіть особу."
    } else if str_eq(en, "No stays for this person yet.") {
        "Для цієї особи ще немає перебувань."
    } else if str_eq(en, "No housings yet — add one.") {
        "Помешкань ще немає — додайте одне."
    } else if str_eq(en, "Capacity") {
        "Місткість"
    } else if str_eq(en, "Notes:") {
        "Нотатки:"
    } else if str_eq(en, "🗑 Delete housing") {
        "🗑 Видалити помешкання"
    } else if str_eq(en, "Select or create a housing.") {
        "Виберіть або створіть помешкання."
    } else if str_eq(en, "No stays in this housing yet.") {
        "У цьому помешканні ще немає перебувань."
    } else if str_eq(en, "cap") {
        "міст."
    } else if str_eq(en, "To:") {
        "До:"
    } else if str_eq(en, "Nights:") {
        "Ночей:"
    } else if str_eq(en, "People:") {
        "Людей:"
    } else if str_eq(en, "⚠ Also booked elsewhere at the same time") {
        "⚠ Також заброньовано в іншому місці в той самий час"
    } else if str_eq(en, "<deleted person>") {
        "<видалена особа>"
    } else if str_eq(en, "<deleted group>") {
        "<видалена група>"
    } else if str_eq(en, "📜 Changelog") {
        "📜 Журнал змін"
    } else if str_eq(en, "↩ Undo last change") {
        "↩ Скасувати останню зміну"
    } else if str_eq(en, "entries") {
        "записів"
    } else if str_eq(en, "No changes yet.") {
        "Ще немає змін."
    } else if str_eq(en, "(no group)") {
        "(без групи)"
    } else if str_eq(en, "Created housing") {
        "Створено помешкання"
    } else if str_eq(en, "Deleted housing") {
        "Видалено помешкання"
    } else if str_eq(en, "Renamed housing") {
        "Перейменовано помешкання"
    } else if str_eq(en, "Changed capacity of") {
        "Змінено місткість для"
    } else if str_eq(en, "Edited notes of") {
        "Відредаговано нотатки для"
    } else if str_eq(en, "Created group") {
        "Створено групу"
    } else if str_eq(en, "Deleted group") {
        "Видалено групу"
    } else if str_eq(en, "Renamed group") {
        "Перейменовано групу"
    } else if str_eq(en, "Changed colour of") {
        "Змінено колір для"
    } else if str_eq(en, "Added person") {
        "Додано особу"
    } else if str_eq(en, "Deleted person") {
        "Видалено особу"
    } else if str_eq(en, "Renamed person") {
        "Перейменовано особу"
    } else if str_eq(en, "Changed group of") {
        "Змінено групу для"
    } else if str_eq(en, "Added stay") {
        "Додано перебування"
    } else if str_eq(en, "Removed stay") {
        "Видалено перебування"
    } else if str_eq(en, "Moved stay") {
        "Переміщено перебування"
    } else if str_eq(en, "Changed occupant of stay") {
        "Змінено мешканця перебування"
    } else if str_eq(en, "Changed dates of stay") {
        "Змінено дати перебування"
    } else if str_eq(en, "Loaded example data") {
        "Завантажено приклад даних"
    } else if str_eq(en, "Loaded plan from file") {
        "Відкрито план з файлу"
    } else if str_eq(en, "Loaded a plan with no change history") {
        "Відкрито план без історії змін"
    } else if str_eq(en, "Undid") {
        "Скасовано"
    } else if str_eq(en, "💾 Save") {
        "💾 Зберегти"
    } else if str_eq(en, "Save As…") {
        "Зберегти як…"
    } else if str_eq(en, "Unsaved changes") {
        "Незбережені зміни"
    } else if str_eq(en, "You have unsaved changes. Save before closing?") {
        "У вас є незбережені зміни. Зберегти перед закриттям?"
    } else if str_eq(en, "Save") {
        "Зберегти"
    } else if str_eq(en, "Discard") {
        "Відхилити"
    } else if str_eq(en, "Cancel") {
        "Скасувати"
    } else if str_eq(en, "untitled") {
        "без назви"
    } else if str_eq(en, "File is open in another instance.") {
        "Файл відкрито в іншому екземплярі."
    } else {
        en
    }
}

/// The German table: the entry for `en`, or `en` itself when there is none.
pub open spec fn german_text(en: Seq<char>) -> Seq<char> {
    if en == "📊 Overview"@ {
        "📊 Übersicht"@
    } else if en == "👥 Groups"@ {
        "👥 Gruppen"@
    } else if en == "🧍 Persons"@ {
        "🧍 Personen"@
    } else if en == "🏠 Housings"@ {
        "🏠 Unterkünfte"@
    } else if en == "From:"@ {
        "Von:"@
    } else if en == "Days:"@ {
        "Tage:"@
    } else if en == "Zoom:"@ {
        "Zoom:"@
    } else if en == "Or Ctrl/Cmd + scroll (pinch on trackpad) over the timeline"@ {
        "Oder Strg/Cmd + Scrollen (Zwei-Finger-Zoom auf dem Trackpad) über der Zeitleiste"@
    } else if en == "Today"@ {
        "Heute"@
    } else if en == "Fit to stays"@ {
        "An Aufenthalte anpassen"@
    } else if en == "📂 Load…"@ {
        "📂 Öffnen…"@
    } else if en == "ℹ About"@ {
        "ℹ Über"@
    } else if en == "Language"@ {
        "Sprache"@
    } else if en == "Saved →"@ {
        "Gespeichert →"@
    } else if en == "Loaded ←"@ {
        "Geladen ←"@
    } else if en == "Save failed:"@ {
        "Speichern fehlgeschlagen:"@
    } else if en == "Encode failed:"@ {
        "Kodierung fehlgeschlagen:"@
    } else if en == "Read failed:"@ {
        "Lesen fehlgeschlagen:"@
    } else if en == "Parse failed:"@ {
        "Analyse fehlgeschlagen:"@
    } else if en == "File save is not available on Android yet."@ {
        "Das Speichern in Dateien ist unter Android noch nicht verfügbar."@
    } else if en == "File load is not available on Android yet."@ {
        "Das Laden aus Dateien ist unter Android noch nicht verfügbar."@
    } else if en == "Housing Planner plan"@ {
        "Housing-Planner-Plan"@
    } else if en == "About / Licenses"@ {
        "Über / Lizenzen"@
    } else if en == "Version"@ {
        "Version"@
    } else if en == "Plan who stays where, and when."@ {
        "Planen Sie, wer wann wo wohnt."@
    } else if en == "📋 Copy dependency licenses"@ {
        "📋 Abhängigkeitslizenzen kopieren"@
    } else if en == "This application"@ {
        "Diese Anwendung"@
    } else if en == "Third-party dependencies"@ {
        "Drittanbieter-Abhängigkeiten"@
    } else if en == "Welcome to Housing Planner"@ {
        "Willkommen bei Housing Planner"@
    } else if en == "Add housings, groups and people in the tabs above —"@ {
        "Fügen Sie Unterkünfte, Gruppen und Personen in den Tabs oben hinzu —"@
    } else if en == "📋 Load example data"@ {
        "📋 Beispieldaten laden"@
    } else if en == "Add a housing in the Housings tab to start planning."@ {
        "Fügen Sie im Tab „Unterkünfte“ eine Unterkunft hinzu, um mit der Planung zu beginnen."@
    } else if en == "Group"@ {
        "Gruppe"@
    } else if en == "Person"@ {
        "Person"@
    } else if en == "Housing"@ {
        "Unterkunft"@
    } else if en == "➕ New"@ {
        "➕ Neu"@
    } else if en == "Stays:"@ {
        "Aufenthalte:"@
    } else if en == "Stays (individual):"@ {
        "Aufenthalte (einzeln):"@
    } else if en == "➕ Add stay"@ {
        "➕ Aufenthalt hinzufügen"@
    } else if en == "Add a housing and a person/group first."@ {
        "Fügen Sie zuerst eine Unterkunft und eine Person/Gruppe hinzu."@
    } else if en == "(no stays)"@ {
        "(keine Aufenthalte)"@
    } else if en == "(group)"@ {
        "(Gruppe)"@
    } else if en == "No groups yet — add one."@ {
        "Noch keine Gruppen — fügen Sie eine hinzu."@
    } else if en == "🗑 Delete group"@ {
        "🗑 Gruppe löschen"@
    } else if en == "Members:"@ {
        "Mitglieder:"@
    } else if en == "(no members)"@ {
        "(keine Mitglieder)"@
    } else if en == "➕ Add existing…"@ {
        "➕ Vorhandene hinzufügen…"@
    } else if en == "➕ New person"@ {
        "➕ Neue Person"@
    } else if en == "Select or create a group."@ {
        "Wählen oder erstellen Sie eine Gruppe."@
    } else if en == "No stays for this group yet."@ {
        "Noch keine Aufenthalte für diese Gruppe."@
    } else if en == "No persons yet — add one."@ {
        "Noch keine Personen — fügen Sie eine hinzu."@
    } else if en == "— no group —"@ {
        "— keine Gruppe —"@
    } else if en == "🗑 Delete person"@ {
        "🗑 Person löschen"@
    } else if en == "Select or create a person."@ {
        "Wählen oder erstellen Sie eine Person."@
    } else if en == "No stays for this person yet."@ {
        "Noch keine Aufenthalte für diese Person."@
    } else if en == "No housings yet — add one."@ {
        "Noch keine Unterkünfte — fügen Sie eine hinzu."@
    } else if en == "Capacity"@ {
        "Kapazität"@
    } else if en == "Notes:"@ {
        "Notizen:"@
    } else if en == "🗑 Delete housing"@ {
        "🗑 Unterkunft löschen"@
    } else if en == "Select or create a housing."@ {
        "Wählen oder erstellen Sie eine Unterkunft."@
    } else if en == "No stays in this housing yet."@ {
        "Noch keine Aufenthalte in dieser Unterkunft."@
    } else if en == "cap"@ {
        "Kap."@
    } else if en == "To:"@ {
        "Bis:"@
    } else if en == "Nights:"@ {
        "Nächte:"@
    } else if en == "People:"@ {
        "Personen:"@
    } else if en == "⚠ Also booked elsewhere at the same time"@ {
        "⚠ Gleichzeitig auch anderswo gebucht"@
    } else if en == "<deleted person>"@ {
        "<gelöschte Person>"@
    } else if en == "<deleted group>"@ {
        "<gelöschte Gruppe>"@
    } else if en == "📜 Changelog"@ {
        "📜 Änderungsprotokoll"@
    } else if en == "↩ Undo last change"@ {
        "↩ Letzte Änderung rückgängig"@
    } else if en == "entries"@ {
        "Einträge"@
    } else if en == "No changes yet."@ {
        "Noch keine Änderungen."@
    } else if en == "(no group)"@ {
        "(keine Gruppe)"@
    } else if en == "Created housing"@ {
        "Unterkunft erstellt"@
    } else if en == "Deleted housing"@ {
        "Unterkunft gelöscht"@
    } else if en == "Renamed housing"@ {
        "Unterkunft umbenannt"@
    } else if en == "Changed capacity of"@ {
        "Kapazität geändert von"@
    } else if en == "Edited notes of"@ {
        "Notizen bearbeitet von"@
    } else if en == "Created group"@ {
        "Gruppe erstellt"@
    } else if en == "Deleted group"@ {
        "Gruppe gelöscht"@
    } else if en == "Renamed group"@ {
        "Gruppe umbenannt"@
    } else if en == "Changed colour of"@ {
        "Farbe geändert von"@
    } else if en == "Added person"@ {
        "Person hinzugefügt"@
    } else if en == "Deleted person"@ {
        "Person gelöscht"@
    } else if en == "Renamed person"@ {
        "Person umbenannt"@
    } else if en == "Changed group of"@ {
        "Gruppe geändert von"@
    } else if en == "Added stay"@ {
        "Aufenthalt hinzugefügt"@
    } else if en == "Removed stay"@ {
        "Aufenthalt entfernt"@
    } else if en == "Moved stay"@ {
        "Aufenthalt verschoben"@
    } else if en == "Changed occupant of stay"@ {
        "Belegung des Aufenthalts geändert"@
    } else if en == "Changed dates of stay"@ {
        "Daten des Aufenthalts geändert"@
    } else if en == "Loaded example data"@ {
        "Beispieldaten geladen"@
    } else if en == "Loaded plan from file"@ {
        "Plan aus Datei geladen"@
    } else if en == "Loaded a plan with no change history"@ {
        "Plan ohne Änderungsverlauf geladen"@
    } else if en == "Undid"@ {
        "Rückgängig gemacht"@
    } else if en == "💾 Save"@ {
        "💾 Speichern"@
    } else if en == "Save As…"@ {
        "Speichern unter…"@
    } else if en == "Unsaved changes"@ {
        "Ungespeicherte Änderungen"@
    } else if en == "You have unsaved changes. Save before closing?"@ {
        "Sie haben ungespeicherte Änderungen. Vor dem Schließen speichern?"@
    } else if en == "Save"@ {
        "Speichern"@
    } else if en == "Discard"@ {
        "Verwerfen"@
    } else if en == "Cancel"@ {
        "Abbrechen"@
    } else if en == "untitled"@ {
        "unbenannt"@
    } else if en == "File is open in another instance."@ {
        "Die Datei ist in einer anderen Instanz geöffnet."@
    } else {
        en
    }
}

/// German translations, keyed by the English source string. Unknown strings fall
/// back to English.
fn de(en: &'static str) -> (r: &'static str)
    ensures
        r@ == german_text(en@),
{
    if str_eq(en, "📊 Overview") {
        "📊 Übersicht"
    } else if str_eq(en, "👥 Groups") {
        "👥 Gruppen"
    } else if str_eq(en, "🧍 Persons") {
        "🧍 Personen"
    } else if str_eq(en, "🏠 Housings") {
        "🏠 Unterkünfte"
    } else if str_eq(en, "From:") {
        "Von:"
    } else if str_eq(en, "Days:") {
        "Tage:"
    } else if str_eq(en, "Zoom:") {
        "Zoom:"
    } else if str_eq(en, "Or Ctrl/Cmd + scroll (pinch on trackpad) over the timeline") {
        "Oder Strg/Cmd + Scrollen (Zwei-Finger-Zoom auf dem Trackpad) über der Zeitleiste"
    } else if str_eq(en, "Today") {
        "Heute"
    } else if str_eq(en, "Fit to stays") {
        "An Aufenthalte anpassen"
    } else if str_eq(en, "📂 Load…") {
        "📂 Öffnen…"
    } else if str_eq(en, "ℹ About") {
        "ℹ Über"
    } else if str_eq(en, "Language") {
        "Sprache"
    } else if str_eq(en, "Saved →") {
        "Gespeichert →"
    } else if str_eq(en, "Loaded ←") {
        "Geladen ←"
    } else if str_eq(en, "Save failed:") {
        "Speichern fehlgeschlagen:"
    } else if str_eq(en, "Encode failed:") {
        "Kodierung fehlgeschlagen:"
    } else if str_eq(en, "Read failed:") {
        "Lesen fehlgeschlagen:"
    } else if str_eq(en, "Parse failed:") {
        "Analyse fehlgeschlagen:"
    } else if str_eq(en, "File save is not available on Android yet.") {
        "Das Speichern in Dateien ist unter Android noch nicht verfügbar."
    } else if str_eq(en, "File load is not available on Android yet.") {
        "Das Laden aus Dateien ist unter Android noch nicht verfügbar."
    } else if str_eq(en, "Housing Planner plan") {
        "Housing-Planner-Plan"
    } else if str_eq(en, "About / Licenses") {
        "Über / Lizenzen"
    } else if str_eq(en, "Version") {
        "Version"
    } else if str_eq(en, "Plan who stays where, and when.") {
        "Planen Sie, wer wann wo wohnt."
    } else if str_eq(en, "📋 Copy dependency licenses") {
        "📋 Abhängigkeitslizenzen kopieren"
    } else if str_eq(en, "This application") {
        "Diese Anwendung"
    } else if str_eq(en, "Third-party dependencies") {
        "Drittanbieter-Abhängigkeiten"
    } else if str_eq(en, "Welcome to Housing Planner") {
        "Willkommen bei Housing Planner"
    } else if str_eq(en, "Add housings, groups and people in the tabs above —") {
        "Fügen Sie Unterkünfte, Gruppen und Personen in den Tabs oben hinzu —"
    } else if str_eq(en, "📋 Load example data") {
        "📋 Beispieldaten laden"
    } else if str_eq(en, "Add a housing in the Housings tab to start planning.") {
        "Fügen Sie im Tab „Unterkünfte“ eine Unterkunft hinzu, um mit der Planung zu beginnen."
    } else if str_eq(en, "Group") {
        "Gruppe"
    } else if str_eq(en, "Person") {
        "Person"
    } else if str_eq(en, "Housing") {
        "Unterkunft"
    } else if str_eq(en, "➕ New") {
        "➕ Neu"
    } else if str_eq(en, "Stays:") {
        "Aufenthalte:"
    } else if str_eq(en, "Stays (individual):") {
        "Aufenthalte (einzeln):"
    } else if str_eq(en, "➕ Add stay") {
        "➕ Aufenthalt hinzufügen"
    } else if str_eq(en, "Add a housing and a person/group first.") {
        "Fügen Sie zuerst eine Unterkunft und eine Person/Gruppe hinzu."
    } else if str_eq(en, "(no stays)") {
        "(keine Aufenthalte)"
    } else if str_eq(en, "(group)") {
        "(Gruppe)"
    } else if str_eq(en, "No groups yet — add one.") {
        "Noch keine Gruppen — fügen Sie eine hinzu."
    } else if str_eq(en, "🗑 Delete group") {
        "🗑 Gruppe löschen"
    } else if str_eq(en, "Members:") {
        "Mitglieder:"
    } else if str_eq(en, "(no members)") {
        "(keine Mitglieder)"
    } else if str_eq(en, "➕ Add existing…") {
        "➕ Vorhandene hinzufügen…"
    } else if str_eq(en, "➕ New person") {
        "➕ Neue Person"
    } else if str_eq(en, "Select or create a group.") {
        "Wählen oder erstellen Sie eine Gruppe."
    } else if str_eq(en, "No stays for this group yet.") {
        "Noch keine Aufenthalte für diese Gruppe."
    } else if str_eq(en, "No persons yet — add one.") {
        "Noch keine Personen — fügen Sie eine hinzu."
    } else if str_eq(en, "— no group —") {
        "— keine Gruppe —"
    } else if str_eq(en, "🗑 Delete person") {
        "🗑 Person löschen"
    } else if str_eq(en, "Select or create a person.") {
        "Wählen oder erstellen Sie eine Person."
    } else if str_eq(en, "No stays for this person yet.") {
        "Noch keine Aufenthalte für diese Person."
    } else if str_eq(en, "No housings yet — add one.") {
        "Noch keine Unterkünfte — fügen Sie eine hinzu."
    } else if str_eq(en, "Capacity") {
        "Kapazität"
    } else if str_eq(en, "Notes:") {
        "Notizen:"
    } else if str_eq(en, "🗑 Delete housing") {
        "🗑 Unterkunft löschen"
    } else if str_eq(en, "Select or create a housing.") {
        "Wählen oder erstellen Sie eine Unterkunft."
    } else if str_eq(en, "No stays in this housing yet.") {
        "Noch keine Aufenthalte in dieser Unterkunft."
    } else if str_eq(en, "cap") {
        "Kap."
    } else if str_eq(en, "To:") {
        "Bis:"
    } else if str_eq(en, "Nights:") {
        "Nächte:"
    } else if str_eq(en, "People:") {
        "Personen:"
    } else if str_eq(en, "⚠ Also booked elsewhere at the same time") {
        "⚠ Gleichzeitig auch anderswo gebucht"
    } else if str_eq(en, "<deleted person>") {
        "<gelöschte Person>"
    } else if str_eq(en, "<deleted group>") {
        "<gelöschte Gruppe>"
    } else if str_eq(en, "📜 Changelog") {
        "📜 Änderungsprotokoll"
    } else if str_eq(en, "↩ Undo last change") {
        "↩ Letzte Änderung rückgängig"
    } else if str_eq(en, "entries") {
        "Einträge"
    } else if str_eq(en, "No changes yet.") {
        "Noch keine Änderungen."
    } else if str_eq(en, "(no group)") {
        "(keine Gruppe)"
    } else if str_eq(en, "Created housing") {
        "Unterkunft erstellt"
    } else if str_eq(en, "Deleted housing") {
        "Unterkunft gelöscht"
    } else if str_eq(en, "Renamed housing") {
        "Unterkunft umbenannt"
    } else if str_eq(en, "Changed capacity of") {
        "Kapazität geändert von"
    } else if str_eq(en, "Edited notes of") {
        "Notizen bearbeitet von"
    } else if str_eq(en, "Created group") {
        "Gruppe erstellt"
    } else if str_eq(en, "Deleted group") {
        "Gruppe gelöscht"
    } else if str_eq(en, "Renamed group") {
        "Gruppe umbenannt"
    } else if str_eq(en, "Changed colour of") {
        "Farbe geändert von"
    } else if str_eq(en, "Added person") {
        "Person hinzugefügt"
    } else if str_eq(en, "Deleted person") {
        "Person gelöscht"
    } else if str_eq(en, "Renamed person") {
        "Person umbenannt"
    } else if str_eq(en, "Changed group of") {
        "Gruppe geändert von"
    } else if str_eq(en, "Added stay") {
        "Aufenthalt hinzugefügt"
    } else if str_eq(en, "Removed stay") {
        "Aufenthalt entfernt"
    } else if str_eq(en, "Moved stay") {
        "Aufenthalt verschoben"
    } else if str_eq(en, "Changed occupant of stay") {
        "Belegung des Aufenthalts geändert"
    } else if str_eq(en, "Changed dates of stay") {
        "Daten des Aufenthalts geändert"
    } else if str_eq(en, "Loaded example data") {
        "Beispieldaten geladen"
    } else if str_eq(en, "Loaded plan from file") {
        "Plan aus Datei geladen"
    } else if str_eq(en, "Loaded a plan with no change history") {
        "Plan ohne Änderungsverlauf geladen"
    } else if str_eq(en, "Undid") {
        "Rückgängig gemacht"
    } else if str_eq(en, "💾 Save") {
        "💾 Speichern"
    } else if str_eq(en, "Save As…") {
        "Speichern unter…"
    } else if str_eq(en, "Unsaved changes") {
        "Ungespeicherte Änderungen"
    } else if str_eq(en, "You have unsaved changes. Save before closing?") {
        "Sie haben ungespeicherte Änderungen. Vor dem Schließen speichern?"
    } else if str_eq(en, "Save") {
        "Speichern"
    } else if str_eq(en, "Discard") {
        "Verwerfen"
    } else if str_eq(en, "Cancel") {
        "Abbrechen"
    } else if str_eq(en, "untitled") {
        "unbenannt"
    } else if str_eq(en, "File is open in another instance.") {
        "Die Datei ist in einer anderen Instanz geöffnet."
    } else {
        en
    }
}

/// The French table: the entry for `en`, or `en` itself when there is none.
pub open spec fn french_text(en: Seq<char>) -> Seq<char> {
    if en == "📊 Overview"@ {
        "📊 Vue d'ensemble"@
    } else if en == "👥 Groups"@ {
        "👥 Groupes"@
    } else if en == "🧍 Persons"@ {
        "🧍 Personnes"@
    } else if en == "🏠 Housings"@ {
        "🏠 Logements"@
    } else if en == "From:"@ {
        "Du :"@
    } else if en == "Days:"@ {
        "Jours :"@
    } else if en == "Zoom:"@ {
        "Zoom :"@
    } else if en == "Or Ctrl/Cmd + scroll (pinch on trackpad) over the timeline"@ {
        "Ou Ctrl/Cmd + défilement (pincement sur le pavé tactile) au-dessus de la chronologie"@
    } else if en == "Today"@ {
        "Aujourd'hui"@
    } else if en == "Fit to stays"@ {
        "Ajuster aux séjours"@
    } else if en == "📂 Load…"@ {
        "📂 Ouvrir…"@
    } else if en == "ℹ About"@ {
        "ℹ À propos"@
    } else if en == "Language"@ {
        "Langue"@
    } else if en == "Saved →"@ {
        "Enregistré →"@
    } else if en == "Loaded ←"@ {
        "Chargé ←"@
    } else if en == "Save failed:"@ {
        "Échec de l'enregistrement :"@
    } else if en == "Encode failed:"@ {
        "Échec de l'encodage :"@
    } else if en == "Read failed:"@ {
        "Échec de la lecture :"@
    } else if en == "Parse failed:"@ {
        "Échec de l'analyse :"@
    } else if en == "File save is not available on Android yet."@ {
        "L'enregistrement de fichiers n'est pas encore disponible sur Android."@
    } else if en == "File load is not available on Android yet."@ {
        "Le chargement de fichiers n'est pas encore disponible sur Android."@
    } else if en == "Housing Planner plan"@ {
        "Plan Housing Planner"@
    } else if en == "About / Licenses"@ {
        "À propos / Licences"@
    } else if en == "Version"@ {
        "Version"@
    } else if en == "Plan who stays where, and when."@ {
        "Planifiez qui loge où, et quand."@
    } else if en == "📋 Copy dependency licenses"@ {
        "📋 Copier les licences des dépendances"@
    } else if en == "This application"@ {
        "Cette application"@
    } else if en == "Third-party dependencies"@ {
        "Dépendances tierces"@
    } else if en == "Welcome to Housing Planner"@ {
        "Bienvenue dans Housing Planner"@
    } else if en == "Add housings, groups and people in the tabs above —"@ {
        "Ajoutez des logements, des groupes et des personnes dans les onglets ci-dessus —"@
    } else if en == "📋 Load example data"@ {
        "📋 Charger des données d'exemple"@
    } else if en == "Add a housing in the Housings tab to start planning."@ {
        "Ajoutez un logement dans l'onglet Logements pour commencer à planifier."@
    } else if en == "Group"@ {
        "Groupe"@
    } else if en == "Person"@ {
        "Personne"@
    } else if en == "Housing"@ {
        "Logement"@
    } else if en == "➕ New"@ {
        "➕ Nouveau"@
    } else if en == "Stays:"@ {
        "Séjours :"@
    } else if en == "Stays (individual):"@ {
        "Séjours (individuels) :"@
    } else if en == "➕ Add stay"@ {
        "➕ Ajouter un séjour"@
    } else if en == "Add a housing and a person/group first."@ {
        "Ajoutez d'abord un logement et une personne/un groupe."@
    } else if en == "(no stays)"@ {
        "(aucun séjour)"@
    } else if en == "(group)"@ {
        "(groupe)"@
    } else if en == "No groups yet — add one."@ {
        "Aucun groupe pour l'instant — ajoutez-en un."@
    } else if en == "🗑 Delete group"@ {
        "🗑 Supprimer le groupe"@
    } else if en == "Members:"@ {
        "Membres :"@
    } else if en == "(no members)"@ {
        "(aucun membre)"@
    } else if en == "➕ Add existing…"@ {
        "➕ Ajouter un existant…"@
    } else if en == "➕ New person"@ {
        "➕ Nouvelle personne"@
    } else if en == "Select or create a group."@ {
        "Sélectionnez ou créez un groupe."@
    } else if en == "No stays for this group yet."@ {
        "Aucun séjour pour ce groupe pour l'instant."@
    } else if en == "No persons yet — add one."@ {
        "Aucune personne pour l'instant — ajoutez-en une."@
    } else if en == "— no group —"@ {
        "— aucun groupe —"@
    } else if en == "🗑 Delete person"@ {
        "🗑 Supprimer la personne"@
    } else if en == "Select or create a person."@ {
        "Sélectionnez ou créez une personne."@
    } else if en == "No stays for this person yet."@ {
        "Aucun séjour pour cette personne pour l'instant."@
    } else if en == "No housings yet — add one."@ {
        "Aucun logement pour l'instant — ajoutez-en un."@
    } else if en == "Capacity"@ {
        "Capacité"@
    } else if en == "Notes:"@ {
        "Notes :"@
    } else if en == "🗑 Delete housing"@ {
        "🗑 Supprimer le logement"@
    } else if en == "Select or create a housing."@ {
        "Sélectionnez ou créez un logement."@
    } else if en == "No stays in this housing yet."@ {
        "Aucun séjour dans ce logement pour l'instant."@
    } else if en == "cap"@ {
        "cap."@
    } else if en == "To:"@ {
        "Au :"@
    } else if en == "Nights:"@ {
        "Nuits :"@
    } else if en == "People:"@ {
        "Personnes :"@
    } else if en == "⚠ Also booked elsewhere at the same time"@ {
        "⚠ Également réservé ailleurs au même moment"@
    } else if en == "<deleted person>"@ {
        "<personne supprimée>"@
    } else if en == "<deleted group>"@ {
        "<groupe supprimé>"@
    } else if en == "📜 Changelog"@ {
        "📜 Journal des modifications"@
    } else if en == "↩ Undo last change"@ {
        "↩ Annuler la dernière modification"@
    } else if en == "entries"@ {
        "entrées"@
    } else if en == "No changes yet."@ {
        "Aucune modification pour l'instant."@
    } else if en == "(no group)"@ {
        "(aucun groupe)"@
    } else if en == "Created housing"@ {
        "Logement créé"@
    } else if en == "Deleted housing"@ {
        "Logement supprimé"@
    } else if en == "Renamed housing"@ {
        "Logement renommé"@
    } else if en == "Changed capacity of"@ {
        "Capacité modifiée pour"@
    } else if en == "Edited notes of"@ {
        "Notes modifiées pour"@
    } else if en == "Created group"@ {
        "Groupe créé"@
    } else if en == "Deleted group"@ {
        "Groupe supprimé"@
    } else if en == "Renamed group"@ {
        "Groupe renommé"@
    } else if en == "Changed colour of"@ {
        "Couleur modifiée pour"@
    } else if en == "Added person"@ {
        "Personne ajoutée"@
    } else if en == "Deleted person"@ {
        "Personne supprimée"@
    } else if en == "Renamed person"@ {
        "Personne renommée"@
    } else if en == "Changed group of"@ {
        "Groupe modifié pour"@
    } else if en == "Added stay"@ {
        "Séjour ajouté"@
    } else if en == "Removed stay"@ {
        "Séjour supprimé"@
    } else if en == "Moved stay"@ {
        "Séjour déplacé"@
    } else if en == "Changed occupant of stay"@ {
        "Occupant du séjour modifié"@
    } else if en == "Changed dates of stay"@ {
        "Dates du séjour modifiées"@
    } else if en == "Loaded example data"@ {
        "Données d'exemple chargées"@
    } else if en == "Loaded plan from file"@ {
        "Plan chargé depuis un fichier"@
    } else if en == "Loaded a plan with no change history"@ {
        "Plan chargé sans historique des modifications"@
    } else if en == "Undid"@ {
        "Annulé"@
    } else if en == "💾 Save"@ {
        "💾 Enregistrer"@
    } else if en == "Save As…"@ {
        "Enregistrer sous…"@
    } else if en == "Unsaved changes"@ {
        "Modifications non enregistrées"@
    } else if en == "You have unsaved changes. Save before closing?"@ {
        "Vous avez des modifications non enregistrées. Enregistrer avant de fermer ?"@
    } else if en == "Save"@ {
        "Enregistrer"@
    } else if en == "Discard"@ {
        "Abandonner"@
    } else if en == "Cancel"@ {
        "Annuler"@
    } else if en == "untitled"@ {
        "sans titre"@
    } else if en == "File is open in another instance."@ {
        "Le fichier est ouvert dans une autre instance."@
    } else {
        en
    }
}

/// French translations, keyed by the English source string. Unknown strings fall
/// back to English.
fn fr(en: &'static str) -> (r: &'static str)
    ensures
        r@ == french_text(en@),
{
    if str_eq(en, "📊 Overview") {
        "📊 Vue d'ensemble"
    } else if str_eq(en, "👥 Groups") {
        "👥 Groupes"
    } else if str_eq(en, "🧍 Persons") {
        "🧍 Personnes"
    } else if str_eq(en, "🏠 Housings") {
        "🏠 Logements"
    } else if str_eq(en, "From:") {
        "Du :"
    } else if str_eq(en, "Days:") {
        "Jours :"
    } else if str_eq(en, "Zoom:") {
        "Zoom :"
    } else if str_eq(en, "Or Ctrl/Cmd + scroll (pinch on trackpad) over the timeline") {
        "Ou Ctrl/Cmd + défilement (pincement sur le pavé tactile) au-dessus de la chronologie"
    } else if str_eq(en, "Today") {
        "Aujourd'hui"
    } else if str_eq(en, "Fit to stays") {
        "Ajuster aux séjours"
    } else if str_eq(en, "📂 Load…") {
        "📂 Ouvrir…"
    } else if str_eq(en, "ℹ About") {
        "ℹ À propos"
    } else if str_eq(en, "Language") {
        "Langue"
    } else if str_eq(en, "Saved →") {
        "Enregistré →"
    } else if str_eq(en, "Loaded ←") {
        "Chargé ←"
    } else if str_eq(en, "Save failed:") {
        "Échec de l'enregistrement :"
    } else if str_eq(en, "Encode failed:") {
        "Échec de l'encodage :"
    } else if str_eq(en, "Read failed:") {
        "Échec de la lecture :"
    } else if str_eq(en, "Parse failed:") {
        "Échec de l'analyse :"
    } else if str_eq(en, "File save is not available on Android yet.") {
        "L'enregistrement de fichiers n'est pas encore disponible sur Android."
    } else if str_eq(en, "File load is not available on Android yet.") {
        "Le chargement de fichiers n'est pas encore disponible sur Android."
    } else if str_eq(en, "Housing Planner plan") {
        "Plan Housing Planner"
    } else if str_eq(en, "About / Licenses") {
        "À propos / Licences"
    } else if str_eq(en, "Version") {
        "Version"
    } else if str_eq(en, "Plan who stays where, and when.") {
        "Planifiez qui loge où, et quand."
    } else if str_eq(en, "📋 Copy dependency licenses") {
        "📋 Copier les licences des dépendances"
    } else if str_eq(en, "This application") {
        "Cette application"
    } else if str_eq(en, "Third-party dependencies") {
        "Dépendances tierces"
    } else if str_eq(en, "Welcome to Housing Planner") {
        "Bienvenue dans Housing Planner"
    } else if str_eq(en, "Add housings, groups and people in the tabs above —") {
        "Ajoutez des logements, des groupes et des personnes dans les onglets ci-dessus —"
    } else if str_eq(en, "📋 Load example data") {
        "📋 Charger des données d'exemple"
    } else if str_eq(en, "Add a housing in the Housings tab to start planning.") {
        "Ajoutez un logement dans l'onglet Logements pour commencer à planifier."
    } else if str_eq(en, "Group") {
        "Groupe"
    } else if str_eq(en, "Person") {
        "Personne"
    } else if str_eq(en, "Housing") {
        "Logement"
    } else if str_eq(en, "➕ New") {
        "➕ Nouveau"
    } else if str_eq(en, "Stays:") {
        "Séjours :"
    } else if str_eq(en, "Stays (individual):") {
        "Séjours (individuels) :"
    } else if str_eq(en, "➕ Add stay") {
        "➕ Ajouter un séjour"
    } else if str_eq(en, "Add a housing and a person/group first.") {
        "Ajoutez d'abord un logement et une personne/un groupe."
    } else if str_eq(en, "(no stays)") {
        "(aucun séjour)"
    } else if str_eq(en, "(group)") {
        "(groupe)"
    } else if str_eq(en, "No groups yet — add one.") {
        "Aucun groupe pour l'instant — ajoutez-en un."
    } else if str_eq(en, "🗑 Delete group") {
        "🗑 Supprimer le groupe"
    } else if str_eq(en, "Members:") {
        "Membres :"
    } else if str_eq(en, "(no members)") {
        "(aucun membre)"
    } else if str_eq(en, "➕ Add existing…") {
        "➕ Ajouter un existant…"
    } else if str_eq(en, "➕ New person") {
        "➕ Nouvelle personne"
    } else if str_eq(en, "Select or create a group.") {
        "Sélectionnez ou créez un groupe."
    } else if str_eq(en, "No stays for this group yet.") {
        "Aucun séjour pour ce groupe pour l'instant."
    } else if str_eq(en, "No persons yet — add one.") {
        "Aucune personne pour l'instant — ajoutez-en une."
    } else if str_eq(en, "— no group —") {
        "— aucun groupe —"
    } else if str_eq(en, "🗑 Delete person") {
        "🗑 Supprimer la personne"
    } else if str_eq(en, "Select or create a person.") {
        "Sélectionnez ou créez une personne."
    } else if str_eq(en, "No stays for this person yet.") {
        "Aucun séjour pour cette personne pour l'instant."
    } else if str_eq(en, "No housings yet — add one.") {
        "Aucun logement pour l'instant — ajoutez-en un."
    } else if str_eq(en, "Capacity") {
        "Capacité"
    } else if str_eq(en, "Notes:") {
        "Notes :"
    } else if str_eq(en, "🗑 Delete housing") {
        "🗑 Supprimer le logement"
    } else if str_eq(en, "Select or create a housing.") {
        "Sélectionnez ou créez un logement."
    } else if str_eq(en, "No stays in this housing yet.") {
        "Aucun séjour dans ce logement pour l'instant."
    } else if str_eq(en, "cap") {
        "cap."
    } else if str_eq(en, "To:") {
        "Au :"
    } else if str_eq(en, "Nights:") {
        "Nuits :"
    } else if str_eq(en, "People:") {
        "Personnes :"
    } else if str_eq(en, "⚠ Also booked elsewhere at the same time") {
        "⚠ Également réservé ailleurs au même moment"
    } else if str_eq(en, "<deleted person>") {
        "<personne supprimée>"
    } else if str_eq(en, "<deleted group>") {
        "<groupe supprimé>"
    } else if str_eq(en, "📜 Changelog") {
        "📜 Journal des modifications"
    } else if str_eq(en, "↩ Undo last change") {
        "↩ Annuler la dernière modification"
    } else if str_eq(en, "entries") {
        "entrées"
    } else if str_eq(en, "No changes yet.") {
        "Aucune modification pour l'instant."
    } else if str_eq(en, "(no group)") {
        "(aucun groupe)"
    } else if str_eq(en, "Created housing") {
        "Logement créé"
    } else if str_eq(en, "Deleted housing") {
        "Logement supprimé"
    } else if str_eq(en, "Renamed housing") {
        "Logement renommé"
    } else if str_eq(en, "Changed capacity of") {
        "Capacité modifiée pour"
    } else if str_eq(en, "Edited notes of") {
        "Notes modifiées pour"
    } else if str_eq(en, "Created group") {
        "Groupe créé"
    } else if str_eq(en, "Deleted group") {
        "Groupe supprimé"
    } else if str_eq(en, "Renamed group") {
        "Groupe renommé"
    } else if str_eq(en, "Changed colour of") {
        "Couleur modifiée pour"
    } else if str_eq(en, "Added person") {
        "Personne ajoutée"
    } else if str_eq(en, "Deleted person") {
        "Personne supprimée"
    } else if str_eq(en, "Renamed person") {
        "Personne renommée"
    } else if str_eq(en, "Changed group of") {
        "Groupe modifié pour"
    } else if str_eq(en, "Added stay") {
        "Séjour ajouté"
    } else if str_eq(en, "Removed stay") {
        "Séjour supprimé"
    } else if str_eq(en, "Moved stay") {
        "Séjour déplacé"
    } else if str_eq(en, "Changed occupant of stay") {
        "Occupant du séjour modifié"
    } else if str_eq(en, "Changed dates of stay") {
        "Dates du séjour modifiées"
    } else if str_eq(en, "Loaded example data") {
        "Données d'exemple chargées"
    } else if str_eq(en, "Loaded plan from file") {
        "Plan chargé depuis un fichier"
    } else if str_eq(en, "Loaded a plan with no change history") {
        "Plan chargé sans historique des modifications"
    } else if str_eq(en, "Undid") {
        "Annulé"
    } else if str_eq(en, "💾 Save") {
        "💾 Enregistrer"
    } else if str_eq(en, "Save As…") {
        "Enregistrer sous…"
    } else if str_eq(en, "Unsaved changes") {
        "Modifications non enregistrées"
    } else if str_eq(en, "You have unsaved changes. Save before closing?") {
        "Vous avez des modifications non enregistrées. Enregistrer avant de fermer ?"
    } else if str_eq(en, "Save") {
        "Enregistrer"
    } else if str_eq(en, "Discard") {
        "Abandonner"
    } else if str_eq(en, "Cancel") {
        "Annuler"
    } else if str_eq(en, "untitled") {
        "sans titre"
    } else if str_eq(en, "File is open in another instance.") {
        "Le fichier est ouvert dans une autre instance."
    } else {
        en
    }
}

/// The Italian table: the entry for `en`, or `en` itself when there is none.
pub open spec fn italian_text(en: Seq<char>) -> Seq<char> {
    if en == "📊 Overview"@ {
        "📊 Panoramica"@
    } else if en == "👥 Groups"@ {
        "👥 Gruppi"@
    } else if en == "🧍 Persons"@ {
        "🧍 Persone"@
    } else if en == "🏠 Housings"@ {
        "🏠 Alloggi"@
    } else if en == "From:"@ {
        "Da:"@
    } else if en == "Days:"@ {
        "Giorni:"@
    } else if en == "Zoom:"@ {
        "Zoom:"@
    } else if en == "Or Ctrl/Cmd + scroll (pinch on trackpad) over the timeline"@ {
        "Oppure Ctrl/Cmd + scorrimento (pizzica sul trackpad) sulla cronologia"@
    } else if en == "Today"@ {
        "Oggi"@
    } else if en == "Fit to stays"@ {
        "Adatta ai soggiorni"@
    } else if en == "📂 Load…"@ {
        "📂 Apri…"@
    } else if en == "ℹ About"@ {
        "ℹ Informazioni"@
    } else if en == "Language"@ {
        "Lingua"@
    } else if en == "Saved →"@ {
        "Salvato →"@
    } else if en == "Loaded ←"@ {
        "Caricato ←"@
    } else if en == "Save failed:"@ {
        "Salvataggio non riuscito:"@
    } else if en == "Encode failed:"@ {
        "Codifica non riuscita:"@
    } else if en == "Read failed:"@ {
        "Lettura non riuscita:"@
    } else if en == "Parse failed:"@ {
        "Analisi non riuscita:"@
    } else if en == "File save is not available on Android yet."@ {
        "Il salvataggio su file non è ancora disponibile su Android."@
    } else if en == "File load is not available on Android yet."@ {
        "Il caricamento da file non è ancora disponibile su Android."@
    } else if en == "Housing Planner plan"@ {
        "Piano di Housing Planner"@
    } else if en == "About / Licenses"@ {
        "Informazioni / Licenze"@
    } else if en == "Version"@ {
        "Versione"@
    } else if en == "Plan who stays where, and when."@ {
        "Pianifica chi alloggia dove e quando."@
    } else if en == "📋 Copy dependency licenses"@ {
        "📋 Copia le licenze delle dipendenze"@
    } else if en == "This application"@ {
        "Questa applicazione"@
    } else if en == "Third-party dependencies"@ {
        "Dipendenze di terze parti"@
    } else if en == "Welcome to Housing Planner"@ {
        "Benvenuto in Housing Planner"@
    } else if en == "Add housings, groups and people in the tabs above —"@ {
        "Aggiungi alloggi, gruppi e persone nelle schede in alto —"@
    } else if en == "📋 Load example data"@ {
        "📋 Carica dati di esempio"@
    } else if en == "Add a housing in the Housings tab to start planning."@ {
        "Aggiungi un alloggio nella scheda Alloggi per iniziare a pianificare."@
    } else if en == "Group"@ {
        "Gruppo"@
    } else if en == "Person"@ {
        "Persona"@
    } else if en == "Housing"@ {
        "Alloggio"@
    } else if en == "➕ New"@ {
        "➕ Nuovo"@
    } else if en == "Stays:"@ {
        "Soggiorni:"@
    } else if en == "Stays (individual):"@ {
        "Soggiorni (individuali):"@
    } else if en == "➕ Add stay"@ {
        "➕ Aggiungi soggiorno"@
    } else if en == "Add a housing and a person/group first."@ {
        "Aggiungi prima un alloggio e una persona/un gruppo."@
    } else if en == "(no stays)"@ {
        "(nessun soggiorno)"@
    } else if en == "(group)"@ {
        "(gruppo)"@
    } else if en == "No groups yet — add one."@ {
        "Ancora nessun gruppo — aggiungine uno."@
    } else if en == "🗑 Delete group"@ {
        "🗑 Elimina gruppo"@
    } else if en == "Members:"@ {
        "Membri:"@
    } else if en == "(no members)"@ {
        "(nessun membro)"@
    } else if en == "➕ Add existing…"@ {
        "➕ Aggiungi esistente…"@
    } else if en == "➕ New person"@ {
        "➕ Nuova persona"@
    } else if en == "Select or create a group."@ {
        "Seleziona o crea un gruppo."@
    } else if en == "No stays for this group yet."@ {
        "Ancora nessun soggiorno per questo gruppo."@
    } else if en == "No persons yet — add one."@ {
        "Ancora nessuna persona — aggiungine una."@
    } else if en == "— no group —"@ {
        "— nessun gruppo —"@
    } else if en == "🗑 Delete person"@ {
        "🗑 Elimina persona"@
    } else if en == "Select or create a person."@ {
        "Seleziona o crea una persona."@
    } else if en == "No stays for this person yet."@ {
        "Ancora nessun soggiorno per questa persona."@
    } else if en == "No housings yet — add one."@ {
        "Ancora nessun alloggio — aggiungine uno."@
    } else if en == "Capacity"@ {
        "Capienza"@
    } else if en == "Notes:"@ {
        "Note:"@
    } else if en == "🗑 Delete housing"@ {
        "🗑 Elimina alloggio"@
    } else if en == "Select or create a housing."@ {
        "Seleziona o crea un alloggio."@
    } else if en == "No stays in this housing yet."@ {
        "Ancora nessun soggiorno in questo alloggio."@
    } else if en == "cap"@ {
        "cap"@
    } else if en == "To:"@ {
        "A:"@
    } else if en == "Nights:"@ {
        "Notti:"@
    } else if en == "People:"@ {
        "Persone:"@
    } else if en == "⚠ Also booked elsewhere at the same time"@ {
        "⚠ Prenotato anche altrove nello stesso periodo"@
    } else if en == "<deleted person>"@ {
        "<persona eliminata>"@
    } else if en == "<deleted group>"@ {
        "<gruppo eliminato>"@
    } else if en == "📜 Changelog"@ {
        "📜 Registro modifiche"@
    } else if en == "↩ Undo last change"@ {
        "↩ Annulla ultima modifica"@
    } else if en == "entries"@ {
        "voci"@
    } else if en == "No changes yet."@ {
        "Ancora nessuna modifica."@
    } else if en == "(no group)"@ {
        "(nessun gruppo)"@
    } else if en == "Created housing"@ {
        "Alloggio creato"@
    } else if en == "Deleted housing"@ {
        "Alloggio eliminato"@
    } else if en == "Renamed housing"@ {
        "Alloggio rinominato"@
    } else if en == "Changed capacity of"@ {
        "Capienza modificata per"@
    } else if en == "Edited notes of"@ {
        "Note modificate per"@
    } else if en == "Created group"@ {
        "Gruppo creato"@
    } else if en == "Deleted group"@ {
        "Gruppo eliminato"@
    } else if en == "Renamed group"@ {
        "Gruppo rinominato"@
    } else if en == "Changed colour of"@ {
        "Colore modificato per"@
    } else if en == "Added person"@ {
        "Persona aggiunta"@
    } else if en == "Deleted person"@ {
        "Persona eliminata"@
    } else if en == "Renamed person"@ {
        "Persona rinominata"@
    } else if en == "Changed group of"@ {
        "Gruppo modificato per"@
    } else if en == "Added stay"@ {
        "Soggiorno aggiunto"@
    } else if en == "Removed stay"@ {
        "Soggiorno rimosso"@
    } else if en == "Moved stay"@ {
        "Soggiorno spostato"@
    } else if en == "Changed occupant of stay"@ {
        "Occupante del soggiorno modificato"@
    } else if en == "Changed dates of stay"@ {
        "Date del soggiorno modificate"@
    } else if en == "Loaded example data"@ {
        "Dati di esempio caricati"@
    } else if en == "Loaded plan from file"@ {
        "Piano caricato da file"@
    } else if en == "Loaded a plan with no change history"@ {
        "Caricato un piano senza cronologia delle modifiche"@
    } else if en == "Undid"@ {
        "Annullato"@
    } else if en == "💾 Save"@ {
        "💾 Salva"@
    } else if en == "Save As…"@ {
        "Salva con nome…"@
    } else if en == "Unsaved changes"@ {
        "Modifiche non salvate"@
    } else if en == "You have unsaved changes. Save before closing?"@ {
        "Ci sono modifiche non salvate. Salvare prima di chiudere?"@
    } else if en == "Save"@ {
        "Salva"@
    } else if en == "Discard"@ {
        "Scarta"@
    } else if en == "Cancel"@ {
        "Annulla"@
    } else if en == "untitled"@ {
        "senza nome"@
    } else if en == "File is open in another instance."@ {
        "Il file è aperto in un'altra istanza."@
    } else {
        en
    }
}

/// Italian translations, keyed by the English source string. Unknown strings
/// fall back to English.
fn it(en: &'static str) -> (r: &'static str)
    ensures
        r@ == italian_text(en@),
{
    if str_eq(en, "📊 Overview") {
        "📊 Panoramica"
    } else if str_eq(en, "👥 Groups") {
        "👥 Gruppi"
    } else if str_eq(en, "🧍 Persons") {
        "🧍 Persone"
    } else if str_eq(en, "🏠 Housings") {
        "🏠 Alloggi"
    } else if str_eq(en, "From:") {
        "Da:"
    } else if str_eq(en, "Days:") {
        "Giorni:"
    } else if str_eq(en, "Zoom:") {
        "Zoom:"
    } else if str_eq(en, "Or Ctrl/Cmd + scroll (pinch on trackpad) over the timeline") {
        "Oppure Ctrl/Cmd + scorrimento (pizzica sul trackpad) sulla cronologia"
    } else if str_eq(en, "Today") {
        "Oggi"
    } else if str_eq(en, "Fit to stays") {
        "Adatta ai soggiorni"
    } else if str_eq(en, "📂 Load…") {
        "📂 Apri…"
    } else if str_eq(en, "ℹ About") {
        "ℹ Informazioni"
    } else if str_eq(en, "Language") {
        "Lingua"
    } else if str_eq(en, "Saved →") {
        "Salvato →"
    } else if str_eq(en, "Loaded ←") {
        "Caricato ←"
    } else if str_eq(en, "Save failed:") {
        "Salvataggio non riuscito:"
    } else if str_eq(en, "Encode failed:") {
        "Codifica non riuscita:"
    } else if str_eq(en, "Read failed:") {
        "Lettura non riuscita:"
    } else if str_eq(en, "Parse failed:") {
        "Analisi non riuscita:"
    } else if str_eq(en, "File save is not available on Android yet.") {
        "Il salvataggio su file non è ancora disponibile su Android."
    } else if str_eq(en, "File load is not available on Android yet.") {
        "Il caricamento da file non è ancora disponibile su Android."
    } else if str_eq(en, "Housing Planner plan") {
        "Piano di Housing Planner"
    } else if str_eq(en, "About / Licenses") {
        "Informazioni / Licenze"
    } else if str_eq(en, "Version") {
        "Versione"
    } else if str_eq(en, "Plan who stays where, and when.") {
        "Pianifica chi alloggia dove e quando."
    } else if str_eq(en, "📋 Copy dependency licenses") {
        "📋 Copia le licenze delle dipendenze"
    } else if str_eq(en, "This application") {
        "Questa applicazione"
    } else if str_eq(en, "Third-party dependencies") {
        "Dipendenze di terze parti"
    } else if str_eq(en, "Welcome to Housing Planner") {
        "Benvenuto in Housing Planner"
    } else if str_eq(en, "Add housings, groups and people in the tabs above —") {
        "Aggiungi alloggi, gruppi e persone nelle schede in alto —"
    } else if str_eq(en, "📋 Load example data") {
        "📋 Carica dati di esempio"
    } else if str_eq(en, "Add a housing in the Housings tab to start planning.") {
        "Aggiungi un alloggio nella scheda Alloggi per iniziare a pianificare."
    } else if str_eq(en, "Group") {
        "Gruppo"
    } else if str_eq(en, "Person") {
        "Persona"
    } else if str_eq(en, "Housing") {
        "Alloggio"
    } else if str_eq(en, "➕ New") {
        "➕ Nuovo"
    } else if str_eq(en, "Stays:") {
        "Soggiorni:"
    } else if str_eq(en, "Stays (individual):") {
        "Soggiorni (individuali):"
    } else if str_eq(en, "➕ Add stay") {
        "➕ Aggiungi soggiorno"
    } else if str_eq(en, "Add a housing and a person/group first.") {
        "Aggiungi prima un alloggio e una persona/un gruppo."
    } else if str_eq(en, "(no stays)") {
        "(nessun soggiorno)"
    } else if str_eq(en, "(group)") {
        "(gruppo)"
    } else if str_eq(en, "No groups yet — add one.") {
        "Ancora nessun gruppo — aggiungine uno."
    } else if str_eq(en, "🗑 Delete group") {
        "🗑 Elimina gruppo"
    } else if str_eq(en, "Members:") {
        "Membri:"
    } else if str_eq(en, "(no members)") {
        "(nessun membro)"
    } else if str_eq(en, "➕ Add existing…") {
        "➕ Aggiungi esistente…"
    } else if str_eq(en, "➕ New person") {
        "➕ Nuova persona"
    } else if str_eq(en, "Select or create a group.") {
        "Seleziona o crea un gruppo."
    } else if str_eq(en, "No stays for this group yet.") {
        "Ancora nessun soggiorno per questo gruppo."
    } else if str_eq(en, "No persons yet — add one.") {
        "Ancora nessuna persona — aggiungine una."
    } else if str_eq(en, "— no group —") {
        "— nessun gruppo —"
    } else if str_eq(en, "🗑 Delete person") {
        "🗑 Elimina persona"
    } else if str_eq(en, "Select or create a person.") {
        "Seleziona o crea una persona."
    } else if str_eq(en, "No stays for this person yet.") {
        "Ancora nessun soggiorno per questa persona."
    } else if str_eq(en, "No housings yet — add one.") {
        "Ancora nessun alloggio — aggiungine uno."
    } else if str_eq(en, "Capacity") {
        "Capienza"
    } else if str_eq(en, "Notes:") {
        "Note:"
    } else if str_eq(en, "🗑 Delete housing") {
        "🗑 Elimina alloggio"
    } else if str_eq(en, "Select or create a housing.") {
        "Seleziona o crea un alloggio."
    } else if str_eq(en, "No stays in this housing yet.") {
        "Ancora nessun soggiorno in questo alloggio."
    } else if str_eq(en, "cap") {
        "cap"
    } else if str_eq(en, "To:") {
        "A:"
    } else if str_eq(en, "Nights:") {
        "Notti:"
    } else if str_eq(en, "People:") {
        "Persone:"
    } else if str_eq(en, "⚠ Also booked elsewhere at the same time") {
        "⚠ Prenotato anche altrove nello stesso periodo"
    } else if str_eq(en, "<deleted person>") {
        "<persona eliminata>"
    } else if str_eq(en, "<deleted group>") {
        "<gruppo eliminato>"
    } else if str_eq(en, "📜 Changelog") {
        "📜 Registro modifiche"
    } else if str_eq(en, "↩ Undo last change") {
        "↩ Annulla ultima modifica"
    } else if str_eq(en, "entries") {
        "voci"
    } else if str_eq(en, "No changes yet.") {
        "Ancora nessuna modifica."
    } else if str_eq(en, "(no group)") {
        "(nessun gruppo)"
    } else if str_eq(en, "Created housing") {
        "Alloggio creato"
    } else if str_eq(en, "Deleted housing") {
        "Alloggio eliminato"
    } else if str_eq(en, "Renamed housing") {
        "Alloggio rinominato"
    } else if str_eq(en, "Changed capacity of") {
        "Capienza modificata per"
    } else if str_eq(en, "Edited notes of") {
        "Note modificate per"
    } else if str_eq(en, "Created group") {
        "Gruppo creato"
    } else if str_eq(en, "Deleted group") {
        "Gruppo eliminato"
    } else if str_eq(en, "Renamed group") {
        "Gruppo rinominato"
    } else if str_eq(en, "Changed colour of") {
        "Colore modificato per"
    } else if str_eq(en, "Added person") {
        "Persona aggiunta"
    } else if str_eq(en, "Deleted person") {
        "Persona eliminata"
    } else if str_eq(en, "Renamed person") {
        "Persona rinominata"
    } else if str_eq(en, "Changed group of") {
        "Gruppo modificato per"
    } else if str_eq(en, "Added stay") {
        "Soggiorno aggiunto"
    } else if str_eq(en, "Removed stay") {
        "Soggiorno rimosso"
    } else if str_eq(en, "Moved stay") {
        "Soggiorno spostato"
    } else if str_eq(en, "Changed occupant of stay") {
        "Occupante del soggiorno modificato"
    } else if str_eq(en, "Changed dates of stay") {
        "Date del soggiorno modificate"
    } else if str_eq(en, "Loaded example data") {
        "Dati di esempio caricati"
    } else if str_eq(en, "Loaded plan from file") {
        "Piano caricato da file"
    } else if str_eq(en, "Loaded a plan with no change history") {
        "Caricato un piano senza cronologia delle modifiche"
    } else if str_eq(en, "Undid") {
        "Annullato"
    } else if str_eq(en, "💾 Save") {
        "💾 Salva"
    } else if str_eq(en, "Save As…") {
        "Salva con nome…"
    } else if str_eq(en, "Unsaved changes") {
        "Modifiche non salvate"
    } else if str_eq(en, "You have unsaved changes. Save before closing?") {
        "Ci sono modifiche non salvate. Salvare prima di chiudere?"
    } else if str_eq(en, "Save") {
        "Salva"
    } else if str_eq(en, "Discard") {
        "Scarta"
    } else if str_eq(en, "Cancel") {
        "Annulla"
    } else if str_eq(en, "untitled") {
        "senza nome"
    } else if str_eq(en, "File is open in another instance.") {
        "Il file è aperto in un'altra istanza."
    } else {
        en
    }
}

/// The Spanish table: the entry for `en`, or `en` itself when there is none.
pub open spec fn spanish_text(en: Seq<char>) -> Seq<char> {
    if en == "📊 Overview"@ {
        "📊 Resumen"@
    } else if en == "👥 Groups"@ {
        "👥 Grupos"@
    } else if en == "🧍 Persons"@ {
        "🧍 Personas"@
    } else if en == "🏠 Housings"@ {
        "🏠 Alojamientos"@
    } else if en == "From:"@ {
        "Desde:"@
    } else if en == "Days:"@ {
        "Días:"@
    } else if en == "Zoom:"@ {
        "Zoom:"@
    } else if en == "Or Ctrl/Cmd + scroll (pinch on trackpad) over the timeline"@ {
        "O Ctrl/Cmd + desplazamiento (pellizco en el panel táctil) sobre la línea de tiempo"@
    } else if en == "Today"@ {
        "Hoy"@
    } else if en == "Fit to stays"@ {
        "Ajustar a las estancias"@
    } else if en == "📂 Load…"@ {
        "📂 Abrir…"@
    } else if en == "ℹ About"@ {
        "ℹ Acerca de"@
    } else if en == "Language"@ {
        "Idioma"@
    } else if en == "Saved →"@ {
        "Guardado →"@
    } else if en == "Loaded ←"@ {
        "Cargado ←"@
    } else if en == "Save failed:"@ {
        "Error al guardar:"@
    } else if en == "Encode failed:"@ {
        "Error al codificar:"@
    } else if en == "Read failed:"@ {
        "Error al leer:"@
    } else if en == "Parse failed:"@ {
        "Error al analizar:"@
    } else if en == "File save is not available on Android yet."@ {
        "Guardar en archivo aún no está disponible en Android."@
    } else if en == "File load is not available on Android yet."@ {
        "Cargar desde archivo aún no está disponible en Android."@
    } else if en == "Housing Planner plan"@ {
        "Plan de Housing Planner"@
    } else if en == "About / Licenses"@ {
        "Acerca de / Licencias"@
    } else if en == "Version"@ {
        "Versión"@
    } else if en == "Plan who stays where, and when."@ {
        "Planifica quién se aloja dónde y cuándo."@
    } else if en == "📋 Copy dependency licenses"@ {
        "📋 Copiar licencias de dependencias"@
    } else if en == "This application"@ {
        "Esta aplicación"@
    } else if en == "Third-party dependencies"@ {
        "Dependencias de terceros"@
    } else if en == "Welcome to Housing Planner"@ {
        "Bienvenido a Housing Planner"@
    } else if en == "Add housings, groups and people in the tabs above —"@ {
        "Añade alojamientos, grupos y personas en las pestañas de arriba —"@
    } else if en == "📋 Load example data"@ {
        "📋 Cargar datos de ejemplo"@
    } else if en == "Add a housing in the Housings tab to start planning."@ {
        "Añade un alojamiento en la pestaña Alojamientos para empezar a planificar."@
    } else if en == "Group"@ {
        "Grupo"@
    } else if en == "Person"@ {
        "Persona"@
    } else if en == "Housing"@ {
        "Alojamiento"@
    } else if en == "➕ New"@ {
        "➕ Nuevo"@
    } else if en == "Stays:"@ {
        "Estancias:"@
    } else if en == "Stays (individual):"@ {
        "Estancias (individuales):"@
    } else if en == "➕ Add stay"@ {
        "➕ Añadir estancia"@
    } else if en == "Add a housing and a person/group first."@ {
        "Añade primero un alojamiento y una persona/un grupo."@
    } else if en == "(no stays)"@ {
        "(sin estancias)"@
    } else if en == "(group)"@ {
        "(grupo)"@
    } else if en == "No groups yet — add one."@ {
        "Aún no hay grupos — añade uno."@
    } else if en == "🗑 Delete group"@ {
        "🗑 Eliminar grupo"@
    } else if en == "Members:"@ {
        "Miembros:"@
    } else if en == "(no members)"@ {
        "(sin miembros)"@
    } else if en == "➕ Add existing…"@ {
        "➕ Añadir existente…"@
    } else if en == "➕ New person"@ {
        "➕ Nueva persona"@
    } else if en == "Select or create a group."@ {
        "Selecciona o crea un grupo."@
    } else if en == "No stays for this group yet."@ {
        "Aún no hay estancias para este grupo."@
    } else if en == "No persons yet — add one."@ {
        "Aún no hay personas — añade una."@
    } else if en == "— no group —"@ {
        "— sin grupo —"@
    } else if en == "🗑 Delete person"@ {
        "🗑 Eliminar persona"@
    } else if en == "Select or create a person."@ {
        "Selecciona o crea una persona."@
    } else if en == "No stays for this person yet."@ {
        "Aún no hay estancias para esta persona."@
    } else if en == "No housings yet — add one."@ {
        "Aún no hay alojamientos — añade uno."@
    } else if en == "Capacity"@ {
        "Capacidad"@
    } else if en == "Notes:"@ {
        "Notas:"@
    } else if en == "🗑 Delete housing"@ {
        "🗑 Eliminar alojamiento"@
    } else if en == "Select or create a housing."@ {
        "Selecciona o crea un alojamiento."@
    } else if en == "No stays in this housing yet."@ {
        "Aún no hay estancias en este alojamiento."@
    } else if en == "cap"@ {
        "cap"@
    } else if en == "To:"@ {
        "Hasta:"@
    } else if en == "Nights:"@ {
        "Noches:"@
    } else if en == "People:"@ {
        "Personas:"@
    } else if en == "⚠ Also booked elsewhere at the same time"@ {
        "⚠ También reservado en otro lugar al mismo tiempo"@
    } else if en == "<deleted person>"@ {
        "<persona eliminada>"@
    } else if en == "<deleted group>"@ {
        "<grupo eliminado>"@
    } else if en == "📜 Changelog"@ {
        "📜 Registro de cambios"@
    } else if en == "↩ Undo last change"@ {
        "↩ Deshacer último cambio"@
    } else if en == "entries"@ {
        "entradas"@
    } else if en == "No changes yet."@ {
        "Aún no hay cambios."@
    } else if en == "(no group)"@ {
        "(sin grupo)"@
    } else if en == "Created housing"@ {
        "Alojamiento creado"@
    } else if en == "Deleted housing"@ {
        "Alojamiento eliminado"@
    } else if en == "Renamed housing"@ {
        "Alojamiento renombrado"@
    } else if en == "Changed capacity of"@ {
        "Capacidad modificada de"@
    } else if en == "Edited notes of"@ {
        "Notas editadas de"@
    } else if en == "Created group"@ {
        "Grupo creado"@
    } else if en == "Deleted group"@ {
        "Grupo eliminado"@
    } else if en == "Renamed group"@ {
        "Grupo renombrado"@
    } else if en == "Changed colour of"@ {
        "Color modificado de"@
    } else if en == "Added person"@ {
        "Persona añadida"@
    } else if en == "Deleted person"@ {
        "Persona eliminada"@
    } else if en == "Renamed person"@ {
        "Persona renombrada"@
    } else if en == "Changed group of"@ {
        "Grupo modificado de"@
    } else if en == "Added stay"@ {
        "Estancia añadida"@
    } else if en == "Removed stay"@ {
        "Estancia eliminada"@
    } else if en == "Moved stay"@ {
        "Estancia movida"@
    } else if en == "Changed occupant of stay"@ {
        "Ocupante de la estancia modificado"@
    } else if en == "Changed dates of stay"@ {
        "Fechas de la estancia modificadas"@
    } else if en == "Loaded example data"@ {
        "Datos de ejemplo cargados"@
    } else if en == "Loaded plan from file"@ {
        "Plan cargado desde archivo"@
    } else if en == "Loaded a plan with no change history"@ {
        "Se cargó un plan sin historial de cambios"@
    } else if en == "Undid"@ {
        "Deshecho"@
    } else if en == "💾 Save"@ {
        "💾 Guardar"@
    } else if en == "Save As…"@ {
        "Guardar como…"@
    } else if en == "Unsaved changes"@ {
        "Cambios sin guardar"@
    } else if en == "You have unsaved changes. Save before closing?"@ {
        "Tienes cambios sin guardar. ¿Guardar antes de cerrar?"@
    } else if en == "Save"@ {
        "Guardar"@
    } else if en == "Discard"@ {
        "Descartar"@
    } else if en == "Cancel"@ {
        "Cancelar"@
    } else if en == "untitled"@ {
        "sin título"@
    } else if en == "File is open in another instance."@ {
        "El archivo está abierto en otra instancia."@
    } else {
        en
    }
}

/// Spanish translations, keyed by the English source string. Unknown strings
/// fall back to English.
fn es(en: &'static str) -> (r: &'static str)
    ensures
        r@ == spanish_text(en@),
{
    if str_eq(en, "📊 Overview") {
        "📊 Resumen"
    } else if str_eq(en, "👥 Groups") {
        "👥 Grupos"
    } else if str_eq(en, "🧍 Persons") {
        "🧍 Personas"
    } else if str_eq(en, "🏠 Housings") {
        "🏠 Alojamientos"
    } else if str_eq(en, "From:") {
        "Desde:"
    } else if str_eq(en, "Days:") {
        "Días:"
    } else if str_eq(en, "Zoom:") {
        "Zoom:"
    } else if str_eq(en, "Or Ctrl/Cmd + scroll (pinch on trackpad) over the timeline") {
        "O Ctrl/Cmd + desplazamiento (pellizco en el panel táctil) sobre la línea de tiempo"
    } else if str_eq(en, "Today") {
        "Hoy"
    } else if str_eq(en, "Fit to stays") {
        "Ajustar a las estancias"
    } else if str_eq(en, "📂 Load…") {
        "📂 Abrir…"
    } else if str_eq(en, "ℹ About") {
        "ℹ Acerca de"
    } else if str_eq(en, "Language") {
        "Idioma"
    } else if str_eq(en, "Saved →") {
        "Guardado →"
    } else if str_eq(en, "Loaded ←") {
        "Cargado ←"
    } else if str_eq(en, "Save failed:") {
        "Error al guardar:"
    } else if str_eq(en, "Encode failed:") {
        "Error al codificar:"
    } else if str_eq(en, "Read failed:") {
        "Error al leer:"
    } else if str_eq(en, "Parse failed:") {
        "Error al analizar:"
    } else if str_eq(en, "File save is not available on Android yet.") {
        "Guardar en archivo aún no está disponible en Android."
    } else if str_eq(en, "File load is not available on Android yet.") {
        "Cargar desde archivo aún no está disponible en Android."
    } else if str_eq(en, "Housing Planner plan") {
        "Plan de Housing Planner"
    } else if str_eq(en, "About / Licenses") {
        "Acerca de / Licencias"
    } else if str_eq(en, "Version") {
        "Versión"
    } else if str_eq(en, "Plan who stays where, and when.") {
        "Planifica quién se aloja dónde y cuándo."
    } else if str_eq(en, "📋 Copy dependency licenses") {
        "📋 Copiar licencias de dependencias"
    } else if str_eq(en, "This application") {
        "Esta aplicación"
    } else if str_eq(en, "Third-party dependencies") {
        "Dependencias de terceros"
    } else if str_eq(en, "Welcome to Housing Planner") {
        "Bienvenido a Housing Planner"
    } else if str_eq(en, "Add housings, groups and people in the tabs above —") {
        "Añade alojamientos, grupos y personas en las pestañas de arriba —"
    } else if str_eq(en, "📋 Load example data") {
        "📋 Cargar datos de ejemplo"
    } else if str_eq(en, "Add a housing in the Housings tab to start planning.") {
        "Añade un alojamiento en la pestaña Alojamientos para empezar a planificar."
    } else if str_eq(en, "Group") {
        "Grupo"
    } else if str_eq(en, "Person") {
        "Persona"
    } else if str_eq(en, "Housing") {
        "Alojamiento"
    } else if str_eq(en, "➕ New") {
        "➕ Nuevo"
    } else if str_eq(en, "Stays:") {
        "Estancias:"
    } else if str_eq(en, "Stays (individual):") {
        "Estancias (individuales):"
    } else if str_eq(en, "➕ Add stay") {
        "➕ Añadir estancia"
    } else if str_eq(en, "Add a housing and a person/group first.") {
        "Añade primero un alojamiento y una persona/un grupo."
    } else if str_eq(en, "(no stays)") {
        "(sin estancias)"
    } else if str_eq(en, "(group)") {
        "(grupo)"
    } else if str_eq(en, "No groups yet — add one.") {
        "Aún no hay grupos — añade uno."
    } else if str_eq(en, "🗑 Delete group") {
        "🗑 Eliminar grupo"
    } else if str_eq(en, "Members:") {
        "Miembros:"
    } else if str_eq(en, "(no members)") {
        "(sin miembros)"
    } else if str_eq(en, "➕ Add existing…") {
        "➕ Añadir existente…"
    } else if str_eq(en, "➕ New person") {
        "➕ Nueva persona"
    } else if str_eq(en, "Select or create a group.") {
        "Selecciona o crea un grupo."
    } else if str_eq(en, "No stays for this group yet.") {
        "Aún no hay estancias para este grupo."
    } else if str_eq(en, "No persons yet — add one.") {
        "Aún no hay personas — añade una."
    } else if str_eq(en, "— no group —") {
        "— sin grupo —"
    } else if str_eq(en, "🗑 Delete person") {
        "🗑 Eliminar persona"
    } else if str_eq(en, "Select or create a person.") {
        "Selecciona o crea una persona."
    } else if str_eq(en, "No stays for this person yet.") {
        "Aún no hay estancias para esta persona."
    } else if str_eq(en, "No housings yet — add one.") {
        "Aún no hay alojamientos — añade uno."
    } else if str_eq(en, "Capacity") {
        "Capacidad"
    } else if str_eq(en, "Notes:") {
        "Notas:"
    } else if str_eq(en, "🗑 Delete housing") {
        "🗑 Eliminar alojamiento"
    } else if str_eq(en, "Select or create a housing.") {
        "Selecciona o crea un alojamiento."
    } else if str_eq(en, "No stays in this housing yet.") {
        "Aún no hay estancias en este alojamiento."
    } else if str_eq(en, "cap") {
        "cap"
    } else if str_eq(en, "To:") {
        "Hasta:"
    } else if str_eq(en, "Nights:") {
        "Noches:"
    } else if str_eq(en, "People:") {
        "Personas:"
    } else if str_eq(en, "⚠ Also booked elsewhere at the same time") {
        "⚠ También reservado en otro lugar al mismo tiempo"
    } else if str_eq(en, "<deleted person>") {
        "<persona eliminada>"
    } else if str_eq(en, "<deleted group>") {
        "<grupo eliminado>"
    } else if str_eq(en, "📜 Changelog") {
        "📜 Registro de cambios"
    } else if str_eq(en, "↩ Undo last change") {
        "↩ Deshacer último cambio"
    } else if str_eq(en, "entries") {
        "entradas"
    } else if str_eq(en, "No changes yet.") {
        "Aún no hay cambios."
    } else if str_eq(en, "(no group)") {
        "(sin grupo)"
    } else if str_eq(en, "Created housing") {
        "Alojamiento creado"
    } else if str_eq(en, "Deleted housing") {
        "Alojamiento eliminado"
    } else if str_eq(en, "Renamed housing") {
        "Alojamiento renombrado"
    } else if str_eq(en, "Changed capacity of") {
        "Capacidad modificada de"
    } else if str_eq(en, "Edited notes of") {
        "Notas editadas de"
    } else if str_eq(en, "Created group") {
        "Grupo creado"
    } else if str_eq(en, "Deleted group") {
        "Grupo eliminado"
    } else if str_eq(en, "Renamed group") {
        "Grupo renombrado"
    } else if str_eq(en, "Changed colour of") {
        "Color modificado de"
    } else if str_eq(en, "Added person") {
        "Persona añadida"
    } else if str_eq(en, "Deleted person") {
        "Persona eliminada"
    } else if str_eq(en, "Renamed person") {
        "Persona renombrada"
    } else if str_eq(en, "Changed group of") {
        "Grupo modificado de"
    } else if str_eq(en, "Added stay") {
        "Estancia añadida"
    } else if str_eq(en, "Removed stay") {
        "Estancia eliminada"
    } else if str_eq(en, "Moved stay") {
        "Estancia movida"
    } else if str_eq(en, "Changed occupant of stay") {
        "Ocupante de la estancia modificado"
    } else if str_eq(en, "Changed dates of stay") {
        "Fechas de la estancia modificadas"
    } else if str_eq(en, "Loaded example data") {
        "Datos de ejemplo cargados"
    } else if str_eq(en, "Loaded plan from file") {
        "Plan cargado desde archivo"
    } else if str_eq(en, "Loaded a plan with no change history") {
        "Se cargó un plan sin historial de cambios"
    } else if str_eq(en, "Undid") {
        "Deshecho"
    } else if str_eq(en, "💾 Save") {
        "💾 Guardar"
    } else if str_eq(en, "Save As…") {
        "Guardar como…"
    } else if str_eq(en, "Unsaved changes") {
        "Cambios sin guardar"
    } else if str_eq(en, "You have unsaved changes. Save before closing?") {
        "Tienes cambios sin guardar. ¿Guardar antes de cerrar?"
    } else if str_eq(en, "Save") {
        "Guardar"
    } else if str_eq(en, "Discard") {
        "Descartar"
    } else if str_eq(en, "Cancel") {
        "Cancelar"
    } else if str_eq(en, "untitled") {
        "sin título"
    } else if str_eq(en, "File is open in another instance.") {
        "El archivo está abierto en otra instancia."
    } else {
        en
    }
}

/// The Dutch table: the entry for `en`, or `en` itself when there is none.
pub open spec fn dutch_text(en: Seq<char>) -> Seq<char> {
    if en == "📊 Overview"@ {
        "📊 Overzicht"@
    } else if en == "👥 Groups"@ {
        "👥 Groepen"@
    } else if en == "🧍 Persons"@ {
        "🧍 Personen"@
    } else if en == "🏠 Housings"@ {
        "🏠 Accommodaties"@
    } else if en == "From:"@ {
        "Van:"@
    } else if en == "Days:"@ {
        "Dagen:"@
    } else if en == "Zoom:"@ {
        "Zoom:"@
    } else if en == "Or Ctrl/Cmd + scroll (pinch on trackpad) over the timeline"@ {
        "Of Ctrl/Cmd + scrollen (knijpen op trackpad) over de tijdlijn"@
    } else if en == "Today"@ {
        "Vandaag"@
    } else if en == "Fit to stays"@ {
        "Aanpassen aan verblijven"@
    } else if en == "📂 Load…"@ {
        "📂 Openen…"@
    } else if en == "ℹ About"@ {
        "ℹ Over"@
    } else if en == "Language"@ {
        "Taal"@
    } else if en == "Saved →"@ {
        "Opgeslagen →"@
    } else if en == "Loaded ←"@ {
        "Geladen ←"@
    } else if en == "Save failed:"@ {
        "Opslaan mislukt:"@
    } else if en == "Encode failed:"@ {
        "Coderen mislukt:"@
    } else if en == "Read failed:"@ {
        "Lezen mislukt:"@
    } else if en == "Parse failed:"@ {
        "Verwerken mislukt:"@
    } else if en == "File save is not available on Android yet."@ {
        "Opslaan naar bestand is nog niet beschikbaar op Android."@
    } else if en == "File load is not available on Android yet."@ {
        "Laden uit bestand is nog niet beschikbaar op Android."@
    } else if en == "Housing Planner plan"@ {
        "Housing Planner-plan"@
    } else if en == "About / Licenses"@ {
        "Over / Licenties"@
    } else if en == "Version"@ {
        "Versie"@
    } else if en == "Plan who stays where, and when."@ {
        "Plan wie waar verblijft, en wanneer."@
    } else if en == "📋 Copy dependency licenses"@ {
        "📋 Afhankelijkheidslicenties kopiëren"@
    } else if en == "This application"@ {
        "Deze applicatie"@
    } else if en == "Third-party dependencies"@ {
        "Afhankelijkheden van derden"@
    } else if en == "Welcome to Housing Planner"@ {
        "Welkom bij Housing Planner"@
    } else if en == "Add housings, groups and people in the tabs above —"@ {
        "Voeg accommodaties, groepen en personen toe in de tabbladen hierboven —"@
    } else if en == "📋 Load example data"@ {
        "📋 Voorbeeldgegevens laden"@
    } else if en == "Add a housing in the Housings tab to start planning."@ {
        "Voeg een accommodatie toe op het tabblad Accommodaties om te beginnen met plannen."@
    } else if en == "Group"@ {
        "Groep"@
    } else if en == "Person"@ {
        "Persoon"@
    } else if en == "Housing"@ {
        "Accommodatie"@
    } else if en == "➕ New"@ {
        "➕ Nieuw"@
    } else if en == "Stays:"@ {
        "Verblijven:"@
    } else if en == "Stays (individual):"@ {
        "Verblijven (individueel):"@
    } else if en == "➕ Add stay"@ {
        "➕ Verblijf toevoegen"@
    } else if en == "Add a housing and a person/group first."@ {
        "Voeg eerst een accommodatie en een persoon/groep toe."@
    } else if en == "(no stays)"@ {
        "(geen verblijven)"@
    } else if en == "(group)"@ {
        "(groep)"@
    } else if en == "No groups yet — add one."@ {
        "Nog geen groepen — voeg er een toe."@
    } else if en == "🗑 Delete group"@ {
        "🗑 Groep verwijderen"@
    } else if en == "Members:"@ {
        "Leden:"@
    } else if en == "(no members)"@ {
        "(geen leden)"@
    } else if en == "➕ Add existing…"@ {
        "➕ Bestaande toevoegen…"@
    } else if en == "➕ New person"@ {
        "➕ Nieuwe persoon"@
    } else if en == "Select or create a group."@ {
        "Selecteer of maak een groep."@
    } else if en == "No stays for this group yet."@ {
        "Nog geen verblijven voor deze groep."@
    } else if en == "No persons yet — add one."@ {
        "Nog geen personen — voeg er een toe."@
    } else if en == "— no group —"@ {
        "— geen groep —"@
    } else if en == "🗑 Delete person"@ {
        "🗑 Persoon verwijderen"@
    } else if en == "Select or create a person."@ {
        "Selecteer of maak een persoon."@
    } else if en == "No stays for this person yet."@ {
        "Nog geen verblijven voor deze persoon."@
    } else if en == "No housings yet — add one."@ {
        "Nog geen accommodaties — voeg er een toe."@
    } else if en == "Capacity"@ {
        "Capaciteit"@
    } else if en == "Notes:"@ {
        "Notities:"@
    } else if en == "🗑 Delete housing"@ {
        "🗑 Accommodatie verwijderen"@
    } else if en == "Select or create a housing."@ {
        "Selecteer of maak een accommodatie."@
    } else if en == "No stays in this housing yet."@ {
        "Nog geen verblijven in deze accommodatie."@
    } else if en == "cap"@ {
        "cap"@
    } else if en == "To:"@ {
        "Tot:"@
    } else if en == "Nights:"@ {
        "Nachten:"@
    } else if en == "People:"@ {
        "Personen:"@
    } else if en == "⚠ Also booked elsewhere at the same time"@ {
        "⚠ Tegelijkertijd ook elders geboekt"@
    } else if en == "<deleted person>"@ {
        "<verwijderde persoon>"@
    } else if en == "<deleted group>"@ {
        "<verwijderde groep>"@
    } else if en == "📜 Changelog"@ {
        "📜 Wijzigingslogboek"@
    } else if en == "↩ Undo last change"@ {
        "↩ Laatste wijziging ongedaan maken"@
    } else if en == "entries"@ {
        "items"@
    } else if en == "No changes yet."@ {
        "Nog geen wijzigingen."@
    } else if en == "(no group)"@ {
        "(geen groep)"@
    } else if en == "Created housing"@ {
        "Accommodatie aangemaakt"@
    } else if en == "Deleted housing"@ {
        "Accommodatie verwijderd"@
    } else if en == "Renamed housing"@ {
        "Accommodatie hernoemd"@
    } else if en == "Changed capacity of"@ {
        "Capaciteit gewijzigd van"@
    } else if en == "Edited notes of"@ {
        "Notities bewerkt van"@
    } else if en == "Created group"@ {
        "Groep aangemaakt"@
    } else if en == "Deleted group"@ {
        "Groep verwijderd"@
    } else if en == "Renamed group"@ {
        "Groep hernoemd"@
    } else if en == "Changed colour of"@ {
        "Kleur gewijzigd van"@
    } else if en == "Added person"@ {
        "Persoon toegevoegd"@
    } else if en == "Deleted person"@ {
        "Persoon verwijderd"@
    } else if en == "Renamed person"@ {
        "Persoon hernoemd"@
    } else if en == "Changed group of"@ {
        "Groep gewijzigd van"@
    } else if en == "Added stay"@ {
        "Verblijf toegevoegd"@
    } else if en == "Removed stay"@ {
        "Verblijf verwijderd"@
    } else if en == "Moved stay"@ {
        "Verblijf verplaatst"@
    } else if en == "Changed occupant of stay"@ {
        "Bewoner van verblijf gewijzigd"@
    } else if en == "Changed dates of stay"@ {
        "Datums van verblijf gewijzigd"@
    } else if en == "Loaded example data"@ {
        "Voorbeeldgegevens geladen"@
    } else if en == "Loaded plan from file"@ {
        "Plan geladen uit bestand"@
    } else if en == "Loaded a plan with no change history"@ {
        "Een plan zonder wijzigingsgeschiedenis geladen"@
    } else if en == "Undid"@ {
        "Ongedaan gemaakt"@
    } else if en == "💾 Save"@ {
        "💾 Opslaan"@
    } else if en == "Save As…"@ {
        "Opslaan als…"@
    } else if en == "Unsaved changes"@ {
        "Niet-opgeslagen wijzigingen"@
    } else if en == "You have unsaved changes. Save before closing?"@ {
        "Je hebt niet-opgeslagen wijzigingen. Opslaan voordat je sluit?"@
    } else if en == "Save"@ {
        "Opslaan"@
    } else if en == "Discard"@ {
        "Verwerpen"@
    } else if en == "Cancel"@ {
        "Annuleren"@
    } else if en == "untitled"@ {
        "naamloos"@
    } else if en == "File is open in another instance."@ {
        "Het bestand is geopend in een ander exemplaar."@
    } else {
        en
    }
}

/// Dutch translations, keyed by the English source string. Unknown strings
/// fall back to English.
fn nl(en: &'static str) -> (r: &'static str)
    ensures
        r@ == dutch_text(en@),
{
    if str_eq(en, "📊 Overview") {
        "📊 Overzicht"
    } else if str_eq(en, "👥 Groups") {
        "👥 Groepen"
    } else if str_eq(en, "🧍 Persons") {
        "🧍 Personen"
    } else if str_eq(en, "🏠 Housings") {
        "🏠 Accommodaties"
    } else if str_eq(en, "From:") {
        "Van:"
    } else if str_eq(en, "Days:") {
        "Dagen:"
    } else if str_eq(en, "Zoom:") {
        "Zoom:"
    } else if str_eq(en, "Or Ctrl/Cmd + scroll (pinch on trackpad) over the timeline") {
        "Of Ctrl/Cmd + scrollen (knijpen op trackpad) over de tijdlijn"
    } else if str_eq(en, "Today") {
        "Vandaag"
    } else if str_eq(en, "Fit to stays") {
        "Aanpassen aan verblijven"
    } else if str_eq(en, "📂 Load…") {
        "📂 Openen…"
    } else if str_eq(en, "ℹ About") {
        "ℹ Over"
    } else if str_eq(en, "Language") {
        "Taal"
    } else if str_eq(en, "Saved →") {
        "Opgeslagen →"
    } else if str_eq(en, "Loaded ←") {
        "Geladen ←"
    } else if str_eq(en, "Save failed:") {
        "Opslaan mislukt:"
    } else if str_eq(en, "Encode failed:") {
        "Coderen mislukt:"
    } else if str_eq(en, "Read failed:") {
        "Lezen mislukt:"
    } else if str_eq(en, "Parse failed:") {
        "Verwerken mislukt:"
    } else if str_eq(en, "File save is not available on Android yet.") {
        "Opslaan naar bestand is nog niet beschikbaar op Android."
    } else if str_eq(en, "File load is not available on Android yet.") {
        "Laden uit bestand is nog niet beschikbaar op Android."
    } else if str_eq(en, "Housing Planner plan") {
        "Housing Planner-plan"
    } else if str_eq(en, "About / Licenses") {
        "Over / Licenties"
    } else if str_eq(en, "Version") {
        "Versie"
    } else if str_eq(en, "Plan who stays where, and when.") {
        "Plan wie waar verblijft, en wanneer."
    } else if str_eq(en, "📋 Copy dependency licenses") {
        "📋 Afhankelijkheidslicenties kopiëren"
    } else if str_eq(en, "This application") {
        "Deze applicatie"
    } else if str_eq(en, "Third-party dependencies") {
        "Afhankelijkheden van derden"
    } else if str_eq(en, "Welcome to Housing Planner") {
        "Welkom bij Housing Planner"
    } else if str_eq(en, "Add housings, groups and people in the tabs above —") {
        "Voeg accommodaties, groepen en personen toe in de tabbladen hierboven —"
    } else if str_eq(en, "📋 Load example data") {
        "📋 Voorbeeldgegevens laden"
    } else if str_eq(en, "Add a housing in the Housings tab to start planning.") {
        "Voeg een accommodatie toe op het tabblad Accommodaties om te beginnen met plannen."
    } else if str_eq(en, "Group") {
        "Groep"
    } else if str_eq(en, "Person") {
        "Persoon"
    } else if str_eq(en, "Housing") {
        "Accommodatie"
    } else if str_eq(en, "➕ New") {
        "➕ Nieuw"
    } else if str_eq(en, "Stays:") {
        "Verblijven:"
    } else if str_eq(en, "Stays (individual):") {
        "Verblijven (individueel):"
    } else if str_eq(en, "➕ Add stay") {
        "➕ Verblijf toevoegen"
    } else if str_eq(en, "Add a housing and a person/group first.") {
        "Voeg eerst een accommodatie en een persoon/groep toe."
    } else if str_eq(en, "(no stays)") {
        "(geen verblijven)"
    } else if str_eq(en, "(group)") {
        "(groep)"
    } else if str_eq(en, "No groups yet — add one.") {
        "Nog geen groepen — voeg er een toe."
    } else if str_eq(en, "🗑 Delete group") {
        "🗑 Groep verwijderen"
    } else if str_eq(en, "Members:") {
        "Leden:"
    } else if str_eq(en, "(no members)") {
        "(geen leden)"
    } else if str_eq(en, "➕ Add existing…") {
        "➕ Bestaande toevoegen…"
    } else if str_eq(en, "➕ New person") {
        "➕ Nieuwe persoon"
    } else if str_eq(en, "Select or create a group.") {
        "Selecteer of maak een groep."
    } else if str_eq(en, "No stays for this group yet.") {
        "Nog geen verblijven voor deze groep."
    } else if str_eq(en, "No persons yet — add one.") {
        "Nog geen personen — voeg er een toe."
    } else if str_eq(en, "— no group —") {
        "— geen groep —"
    } else if str_eq(en, "🗑 Delete person") {
        "🗑 Persoon verwijderen"
    } else if str_eq(en, "Select or create a person.") {
        "Selecteer of maak een persoon."
    } else if str_eq(en, "No stays for this person yet.") {
        "Nog geen verblijven voor deze persoon."
    } else if str_eq(en, "No housings yet — add one.") {
        "Nog geen accommodaties — voeg er een toe."
    } else if str_eq(en, "Capacity") {
        "Capaciteit"
    } else if str_eq(en, "Notes:") {
        "Notities:"
    } else if str_eq(en, "🗑 Delete housing") {
        "🗑 Accommodatie verwijderen"
    } else if str_eq(en, "Select or create a housing.") {
        "Selecteer of maak een accommodatie."
    } else if str_eq(en, "No stays in this housing yet.") {
        "Nog geen verblijven in deze accommodatie."
    } else if str_eq(en, "cap") {
        "cap"
    } else if str_eq(en, "To:") {
        "Tot:"
    } else if str_eq(en, "Nights:") {
        "Nachten:"
    } else if str_eq(en, "People:") {
        "Personen:"
    } else if str_eq(en, "⚠ Also booked elsewhere at the same time") {
        "⚠ Tegelijkertijd ook elders geboekt"
    } else if str_eq(en, "<deleted person>") {
        "<verwijderde persoon>"
    } else if str_eq(en, "<deleted group>") {
        "<verwijderde groep>"
    } else if str_eq(en, "📜 Changelog") {
        "📜 Wijzigingslogboek"
    } else if str_eq(en, "↩ Undo last change") {
        "↩ Laatste wijziging ongedaan maken"
    } else if str_eq(en, "entries") {
        "items"
    } else if str_eq(en, "No changes yet.") {
        "Nog geen wijzigingen."
    } else if str_eq(en, "(no group)") {
        "(geen groep)"
    } else if str_eq(en, "Created housing") {
        "Accommodatie aangemaakt"
    } else if str_eq(en, "Deleted housing") {
        "Accommodatie verwijderd"
    } else if str_eq(en, "Renamed housing") {
        "Accommodatie hernoemd"
    } else if str_eq(en, "Changed capacity of") {
        "Capaciteit gewijzigd van"
    } else if str_eq(en, "Edited notes of") {
        "Notities bewerkt van"
    } else if str_eq(en, "Created group") {
        "Groep aangemaakt"
    } else if str_eq(en, "Deleted group") {
        "Groep verwijderd"
    } else if str_eq(en, "Renamed group") {
        "Groep hernoemd"
    } else if str_eq(en, "Changed colour of") {
        "Kleur gewijzigd van"
    } else if str_eq(en, "Added person") {
        "Persoon toegevoegd"
    } else if str_eq(en, "Deleted person") {
        "Persoon verwijderd"
    } else if str_eq(en, "Renamed person") {
        "Persoon hernoemd"
    } else if str_eq(en, "Changed group of") {
        "Groep gewijzigd van"
    } else if str_eq(en, "Added stay") {
        "Verblijf toegevoegd"
    } else if str_eq(en, "Removed stay") {
        "Verblijf verwijderd"
    } else if str_eq(en, "Moved stay") {
        "Verblijf verplaatst"
    } else if str_eq(en, "Changed occupant of stay") {
        "Bewoner van verblijf gewijzigd"
    } else if str_eq(en, "Changed dates of stay") {
        "Datums van verblijf gewijzigd"
    } else if str_eq(en, "Loaded example data") {
        "Voorbeeldgegevens geladen"
    } else if str_eq(en, "Loaded plan from file") {
        "Plan geladen uit bestand"
    } else if str_eq(en, "Loaded a plan with no change history") {
        "Een plan zonder wijzigingsgeschiedenis geladen"
    } else if str_eq(en, "Undid") {
        "Ongedaan gemaakt"
    } else if str_eq(en, "💾 Save") {
        "💾 Opslaan"
    } else if str_eq(en, "Save As…") {
        "Opslaan als…"
    } else if str_eq(en, "Unsaved changes") {
        "Niet-opgeslagen wijzigingen"
    } else if str_eq(en, "You have unsaved changes. Save before closing?") {
        "Je hebt niet-opgeslagen wijzigingen. Opslaan voordat je sluit?"
    } else if str_eq(en, "Save") {
        "Opslaan"
    } else if str_eq(en, "Discard") {
        "Verwerpen"
    } else if str_eq(en, "Cancel") {
        "Annuleren"
    } else if str_eq(en, "untitled") {
        "naamloos"
    } else if str_eq(en, "File is open in another instance.") {
        "Het bestand is geopend in een ander exemplaar."
    } else {
        en
    }
}

/// The Russian table: the entry for `en`, or `en` itself when there is none.
pub open spec fn russian_text(en: Seq<char>) -> Seq<char> {
    if en == "📊 Overview"@ {
        "📊 Обзор"@
    } else if en == "👥 Groups"@ {
        "👥 Группы"@
    } else if en == "🧍 Persons"@ {
        "🧍 Люди"@
    } else if en == "🏠 Housings"@ {
        "🏠 Жильё"@
    } else if en == "From:"@ {
        "С:"@
    } else if en == "Days:"@ {
        "Дни:"@
    } else if en == "Zoom:"@ {
        "Масштаб:"@
    } else if en == "Or Ctrl/Cmd + scroll (pinch on trackpad) over the timeline"@ {
        "Или Ctrl/Cmd + прокрутка (щипок на тачпаде) над шкалой времени"@
    } else if en == "Today"@ {
        "Сегодня"@
    } else if en == "Fit to stays"@ {
        "Подогнать под проживания"@
    } else if en == "📂 Load…"@ {
        "📂 Открыть…"@
    } else if en == "ℹ About"@ {
        "ℹ О программе"@
    } else if en == "Language"@ {
        "Язык"@
    } else if en == "Saved →"@ {
        "Сохранено →"@
    } else if en == "Loaded ←"@ {
        "Загружено ←"@
    } else if en == "Save failed:"@ {
        "Не удалось сохранить:"@
    } else if en == "Encode failed:"@ {
        "Не удалось закодировать:"@
    } else if en == "Read failed:"@ {
        "Не удалось прочитать:"@
    } else if en == "Parse failed:"@ {
        "Не удалось разобрать:"@
    } else if en == "File save is not available on Android yet."@ {
        "Сохранение в файл пока недоступно на Android."@
    } else if en == "File load is not available on Android yet."@ {
        "Загрузка из файла пока недоступна на Android."@
    } else if en == "Housing Planner plan"@ {
        "План Housing Planner"@
    } else if en == "About / Licenses"@ {
        "О программе / Лицензии"@
    } else if en == "Version"@ {
        "Версия"@
    } else if en == "Plan who stays where, and when."@ {
        "Планируйте, кто где живёт и когда."@
    } else if en == "📋 Copy dependency licenses"@ {
        "📋 Скопировать лицензии зависимостей"@
    } else if en == "This application"@ {
        "Это приложение"@
    } else if en == "Third-party dependencies"@ {
        "Сторонние зависимости"@
    } else if en == "Welcome to Housing Planner"@ {
        "Добро пожаловать в Housing Planner"@
    } else if en == "Add housings, groups and people in the tabs above —"@ {
        "Добавляйте жильё, группы и людей на вкладках выше —"@
    } else if en == "📋 Load example data"@ {
        "📋 Загрузить пример данных"@
    } else if en == "Add a housing in the Housings tab to start planning."@ {
        "Добавьте жильё на вкладке «Жильё», чтобы начать планирование."@
    } else if en == "Group"@ {
        "Группа"@
    } else if en == "Person"@ {
        "Человек"@
    } else if en == "Housing"@ {
        "Жильё"@
    } else if en == "➕ New"@ {
        "➕ Создать"@
    } else if en == "Stays:"@ {
        "Проживания:"@
    } else if en == "Stays (individual):"@ {
        "Проживания (индивидуальные):"@
    } else if en == "➕ Add stay"@ {
        "➕ Добавить проживание"@
    } else if en == "Add a housing and a person/group first."@ {
        "Сначала добавьте жильё и человека/группу."@
    } else if en == "(no stays)"@ {
        "(нет проживаний)"@
    } else if en == "(group)"@ {
        "(группа)"@
    } else if en == "No groups yet — add one."@ {
        "Групп пока нет — добавьте одну."@
    } else if en == "🗑 Delete group"@ {
        "🗑 Удалить группу"@
    } else if en == "Members:"@ {
        "Участники:"@
    } else if en == "(no members)"@ {
        "(нет участников)"@
    } else if en == "➕ Add existing…"@ {
        "➕ Добавить существующего…"@
    } else if en == "➕ New person"@ {
        "➕ Новый человек"@
    } else if en == "Select or create a group."@ {
        "Выберите или создайте группу."@
    } else if en == "No stays for this group yet."@ {
        "Для этой группы пока нет проживаний."@
    } else if en == "No persons yet — add one."@ {
        "Людей пока нет — добавьте одного."@
    } else if en == "— no group —"@ {
        "— без группы —"@
    } else if en == "🗑 Delete person"@ {
        "🗑 Удалить человека"@
    } else if en == "Select or create a person."@ {
        "Выберите или создайте человека."@
    } else if en == "No stays for this person yet."@ {
        "Для этого человека пока нет проживаний."@
    } else if en == "No housings yet — add one."@ {
        "Жилья пока нет — добавьте."@
    } else if en == "Capacity"@ {
        "Вместимость"@
    } else if en == "Notes:"@ {
        "Заметки:"@
    } else if en == "🗑 Delete housing"@ {
        "🗑 Удалить жильё"@
    } else if en == "Select or create a housing."@ {
        "Выберите или создайте жильё."@
    } else if en == "No stays in this housing yet."@ {
        "В этом жилье пока нет проживаний."@
    } else if en == "cap"@ {
        "вмест."@
    } else if en == "To:"@ {
        "По:"@
    } else if en == "Nights:"@ {
        "Ночей:"@
    } else if en == "People:"@ {
        "Людей:"@
    } else if en == "⚠ Also booked elsewhere at the same time"@ {
        "⚠ Также забронировано в другом месте в это же время"@
    } else if en == "<deleted person>"@ {
        "<удалённый человек>"@
    } else if en == "<deleted group>"@ {
        "<удалённая группа>"@
    } else if en == "📜 Changelog"@ {
        "📜 Журнал изменений"@
    } else if en == "↩ Undo last change"@ {
        "↩ Отменить последнее изменение"@
    } else if en == "entries"@ {
        "записей"@
    } else if en == "No changes yet."@ {
        "Изменений пока нет."@
    } else if en == "(no group)"@ {
        "(без группы)"@
    } else if en == "Created housing"@ {
        "Создано жильё"@
    } else if en == "Deleted housing"@ {
        "Удалено жильё"@
    } else if en == "Renamed housing"@ {
        "Переименовано жильё"@
    } else if en == "Changed capacity of"@ {
        "Изменена вместимость для"@
    } else if en == "Edited notes of"@ {
        "Отредактированы заметки для"@
    } else if en == "Created group"@ {
        "Создана группа"@
    } else if en == "Deleted group"@ {
        "Удалена группа"@
    } else if en == "Renamed group"@ {
        "Переименована группа"@
    } else if en == "Changed colour of"@ {
        "Изменён цвет для"@
    } else if en == "Added person"@ {
        "Добавлен человек"@
    } else if en == "Deleted person"@ {
        "Удалён человек"@
    } else if en == "Renamed person"@ {
        "Переименован человек"@
    } else if en == "Changed group of"@ {
        "Изменена группа для"@
    } else if en == "Added stay"@ {
        "Добавлено проживание"@
    } else if en == "Removed stay"@ {
        "Удалено проживание"@
    } else if en == "Moved stay"@ {
        "Перемещено проживание"@
    } else if en == "Changed occupant of stay"@ {
        "Изменён жилец проживания"@
    } else if en == "Changed dates of stay"@ {
        "Изменены даты проживания"@
    } else if en == "Loaded example data"@ {
        "Загружен пример данных"@
    } else if en == "Loaded plan from file"@ {
        "План загружен из файла"@
    } else if en == "Loaded a plan with no change history"@ {
        "Загружен план без истории изменений"@
    } else if en == "Undid"@ {
        "Отменено"@
    } else if en == "💾 Save"@ {
        "💾 Сохранить"@
    } else if en == "Save As…"@ {
        "Сохранить как…"@
    } else if en == "Unsaved changes"@ {
        "Несохранённые изменения"@
    } else if en == "You have unsaved changes. Save before closing?"@ {
        "У вас есть несохранённые изменения. Сохранить перед закрытием?"@
    } else if en == "Save"@ {
        "Сохранить"@
    } else if en == "Discard"@ {
        "Не сохранять"@
    } else if en == "Cancel"@ {
        "Отмена"@
    } else if en == "untitled"@ {
        "без названия"@
    } else if en == "File is open in another instance."@ {
        "Файл открыт в другом экземпляре."@
    } else {
        en
    }
}

/// Russian translations, keyed by the English source string. Unknown strings
/// fall back to English.
fn ru(en: &'static str) -> (r: &'static str)
    ensures
        r@ == russian_text(en@),
{
    if str_eq(en, "📊 Overview") {
        "📊 Обзор"
    } else if str_eq(en, "👥 Groups") {
        "👥 Группы"
    } else if str_eq(en, "🧍 Persons") {
        "🧍 Люди"
    } else if str_eq(en, "🏠 Housings") {
        "🏠 Жильё"
    } else if str_eq(en, "From:") {
        "С:"
    } else if str_eq(en, "Days:") {
        "Дни:"
    } else if str_eq(en, "Zoom:") {
        "Масштаб:"
    } else if str_eq(en, "Or Ctrl/Cmd + scroll (pinch on trackpad) over the timeline") {
        "Или Ctrl/Cmd + прокрутка (щипок на тачпаде) над шкалой времени"
    } else if str_eq(en, "Today") {
        "Сегодня"
    } else if str_eq(en, "Fit to stays") {
        "Подогнать под проживания"
    } else if str_eq(en, "📂 Load…") {
        "📂 Открыть…"
    } else if str_eq(en, "ℹ About") {
        "ℹ О программе"
    } else if str_eq(en, "Language") {
        "Язык"
    } else if str_eq(en, "Saved →") {
        "Сохранено →"
    } else if str_eq(en, "Loaded ←") {
        "Загружено ←"
    } else if str_eq(en, "Save failed:") {
        "Не удалось сохранить:"
    } else if str_eq(en, "Encode failed:") {
        "Не удалось закодировать:"
    } else if str_eq(en, "Read failed:") {
        "Не удалось прочитать:"
    } else if str_eq(en, "Parse failed:") {
        "Не удалось разобрать:"
    } else if str_eq(en, "File save is not available on Android yet.") {
        "Сохранение в файл пока недоступно на Android."
    } else if str_eq(en, "File load is not available on Android yet.") {
        "Загрузка из файла пока недоступна на Android."
    } else if str_eq(en, "Housing Planner plan") {
        "План Housing Planner"
    } else if str_eq(en, "About / Licenses") {
        "О программе / Лицензии"
    } else if str_eq(en, "Version") {
        "Версия"
    } else if str_eq(en, "Plan who stays where, and when.") {
        "Планируйте, кто где живёт и когда."
    } else if str_eq(en, "📋 Copy dependency licenses") {
        "📋 Скопировать лицензии зависимостей"
    } else if str_eq(en, "This application") {
        "Это приложение"
    } else if str_eq(en, "Third-party dependencies") {
        "Сторонние зависимости"
    } else if str_eq(en, "Welcome to Housing Planner") {
        "Добро пожаловать в Housing Planner"
    } else if str_eq(en, "Add housings, groups and people in the tabs above —") {
        "Добавляйте жильё, группы и людей на вкладках выше —"
    } else if str_eq(en, "📋 Load example data") {
        "📋 Загрузить пример данных"
    } else if str_eq(en, "Add a housing in the Housings tab to start planning.") {
        "Добавьте жильё на вкладке «Жильё», чтобы начать планирование."
    } else if str_eq(en, "Group") {
        "Группа"
    } else if str_eq(en, "Person") {
        "Человек"
    } else if str_eq(en, "Housing") {
        "Жильё"
    } else if str_eq(en, "➕ New") {
        "➕ Создать"
    } else if str_eq(en, "Stays:") {
        "Проживания:"
    } else if str_eq(en, "Stays (individual):") {
        "Проживания (индивидуальные):"
    } else if str_eq(en, "➕ Add stay") {
        "➕ Добавить проживание"
    } else if str_eq(en, "Add a housing and a person/group first.") {
        "Сначала добавьте жильё и человека/группу."
    } else if str_eq(en, "(no stays)") {
        "(нет проживаний)"
    } else if str_eq(en, "(group)") {
        "(группа)"
    } else if str_eq(en, "No groups yet — add one.") {
        "Групп пока нет — добавьте одну."
    } else if str_eq(en, "🗑 Delete group") {
        "🗑 Удалить группу"
    } else if str_eq(en, "Members:") {
        "Участники:"
    } else if str_eq(en, "(no members)") {
        "(нет участников)"
    } else if str_eq(en, "➕ Add existing…") {
        "➕ Добавить существующего…"
    } else if str_eq(en, "➕ New person") {
        "➕ Новый человек"
    } else if str_eq(en, "Select or create a group.") {
        "Выберите или создайте группу."
    } else if str_eq(en, "No stays for this group yet.") {
        "Для этой группы пока нет проживаний."
    } else if str_eq(en, "No persons yet — add one.") {
        "Людей пока нет — добавьте одного."
    } else if str_eq(en, "— no group —") {
        "— без группы —"
    } else if str_eq(en, "🗑 Delete person") {
        "🗑 Удалить человека"
    } else if str_eq(en, "Select or create a person.") {
        "Выберите или создайте человека."
    } else if str_eq(en, "No stays for this person yet.") {
        "Для этого человека пока нет проживаний."
    } else if str_eq(en, "No housings yet — add one.") {
        "Жилья пока нет — добавьте."
    } else if str_eq(en, "Capacity") {
        "Вместимость"
    } else if str_eq(en, "Notes:") {
        "Заметки:"
    } else if str_eq(en, "🗑 Delete housing") {
        "🗑 Удалить жильё"
    } else if str_eq(en, "Select or create a housing.") {
        "Выберите или создайте жильё."
    } else if str_eq(en, "No stays in this housing yet.") {
        "В этом жилье пока нет проживаний."
    } else if str_eq(en, "cap") {
        "вмест."
    } else if str_eq(en, "To:") {
        "По:"
    } else if str_eq(en, "Nights:") {
        "Ночей:"
    } else if str_eq(en, "People:") {
        "Людей:"
    } else if str_eq(en, "⚠ Also booked elsewhere at the same time") {
        "⚠ Также забронировано в другом месте в это же время"
    } else if str_eq(en, "<deleted person>") {
        "<удалённый человек>"
    } else if str_eq(en, "<deleted group>") {
        "<удалённая группа>"
    } else if str_eq(en, "📜 Changelog") {
        "📜 Журнал изменений"
    } else if str_eq(en, "↩ Undo last change") {
        "↩ Отменить последнее изменение"
    } else if str_eq(en, "entries") {
        "записей"
    } else if str_eq(en, "No changes yet.") {
        "Изменений пока нет."
    } else if str_eq(en, "(no group)") {
        "(без группы)"
    } else if str_eq(en, "Created housing") {
        "Создано жильё"
    } else if str_eq(en, "Deleted housing") {
        "Удалено жильё"
    } else if str_eq(en, "Renamed housing") {
        "Переименовано жильё"
    } else if str_eq(en, "Changed capacity of") {
        "Изменена вместимость для"
    } else if str_eq(en, "Edited notes of") {
        "Отредактированы заметки для"
    } else if str_eq(en, "Created group") {
        "Создана группа"
    } else if str_eq(en, "Deleted group") {
        "Удалена группа"
    } else if str_eq(en, "Renamed group") {
        "Переименована группа"
    } else if str_eq(en, "Changed colour of") {
        "Изменён цвет для"
    } else if str_eq(en, "Added person") {
        "Добавлен человек"
    } else if str_eq(en, "Deleted person") {
        "Удалён человек"
    } else if str_eq(en, "Renamed person") {
        "Переименован человек"
    } else if str_eq(en, "Changed group of") {
        "Изменена группа для"
    } else if str_eq(en, "Added stay") {
        "Добавлено проживание"
    } else if str_eq(en, "Removed stay") {
        "Удалено проживание"
    } else if str_eq(en, "Moved stay") {
        "Перемещено проживание"
    } else if str_eq(en, "Changed occupant of stay") {
        "Изменён жилец проживания"
    } else if str_eq(en, "Changed dates of stay") {
        "Изменены даты проживания"
    } else if str_eq(en, "Loaded example data") {
        "Загружен пример данных"
    } else if str_eq(en, "Loaded plan from file") {
        "План загружен из файла"
    } else if str_eq(en, "Loaded a plan with no change history") {
        "Загружен план без истории изменений"
    } else if str_eq(en, "Undid") {
        "Отменено"
    } else if str_eq(en, "💾 Save") {
        "💾 Сохранить"
    } else if str_eq(en, "Save As…") {
        "Сохранить как…"
    } else if str_eq(en, "Unsaved changes") {
        "Несохранённые изменения"
    } else if str_eq(en, "You have unsaved changes. Save before closing?") {
        "У вас есть несохранённые изменения. Сохранить перед закрытием?"
    } else if str_eq(en, "Save") {
        "Сохранить"
    } else if str_eq(en, "Discard") {
        "Не сохранять"
    } else if str_eq(en, "Cancel") {
        "Отмена"
    } else if str_eq(en, "untitled") {
        "без названия"
    } else if str_eq(en, "File is open in another instance.") {
        "Файл открыт в другом экземпляре."
    } else {
        en
    }
}

/// The Icelandic table: the entry for `en`, or `en` itself when there is none.
pub open spec fn icelandic_text(en: Seq<char>) -> Seq<char> {
    if en == "📊 Overview"@ {
        "📊 Yfirlit"@
    } else if en == "👥 Groups"@ {
        "👥 Hópar"@
    } else if en == "🧍 Persons"@ {
        "🧍 Einstaklingar"@
    } else if en == "🏠 Housings"@ {
        "🏠 Húsnæði"@
    } else if en == "From:"@ {
        "Frá:"@
    } else if en == "Days:"@ {
        "Dagar:"@
    } else if en == "Zoom:"@ {
        "Aðdráttur:"@
    } else if en == "Or Ctrl/Cmd + scroll (pinch on trackpad) over the timeline"@ {
        "Eða Ctrl/Cmd + skrun (klíptu á snertiplatta) yfir tímalínuna"@
    } else if en == "Today"@ {
        "Í dag"@
    } else if en == "Fit to stays"@ {
        "Laga að dvölum"@
    } else if en == "📂 Load…"@ {
        "📂 Opna…"@
    } else if en == "ℹ About"@ {
        "ℹ Um"@
    } else if en == "Language"@ {
        "Tungumál"@
    } else if en == "Saved →"@ {
        "Vistað →"@
    } else if en == "Loaded ←"@ {
        "Hlaðið ←"@
    } else if en == "Save failed:"@ {
        "Vistun mistókst:"@
    } else if en == "Encode failed:"@ {
        "Kóðun mistókst:"@
    } else if en == "Read failed:"@ {
        "Lestur mistókst:"@
    } else if en == "Parse failed:"@ {
        "Þáttun mistókst:"@
    } else if en == "File save is not available on Android yet."@ {
        "Vistun í skrá er ekki enn í boði á Android."@
    } else if en == "File load is not available on Android yet."@ {
        "Hleðsla úr skrá er ekki enn í boði á Android."@
    } else if en == "Housing Planner plan"@ {
        "Housing Planner-áætlun"@
    } else if en == "About / Licenses"@ {
        "Um / Leyfi"@
    } else if en == "Version"@ {
        "Útgáfa"@
    } else if en == "Plan who stays where, and when."@ {
        "Skipuleggðu hver dvelur hvar og hvenær."@
    } else if en == "📋 Copy dependency licenses"@ {
        "📋 Afrita leyfi háðra pakka"@
    } else if en == "This application"@ {
        "Þetta forrit"@
    } else if en == "Third-party dependencies"@ {
        "Pakkar þriðja aðila"@
    } else if en == "Welcome to Housing Planner"@ {
        "Velkomin í Housing Planner"@
    } else if en == "Add housings, groups and people in the tabs above —"@ {
        "Bættu við húsnæði, hópum og fólki í flipunum að ofan —"@
    } else if en == "📋 Load example data"@ {
        "📋 Hlaða dæmigögnum"@
    } else if en == "Add a housing in the Housings tab to start planning."@ {
        "Bættu við húsnæði í Húsnæði-flipanum til að byrja að skipuleggja."@
    } else if en == "Group"@ {
        "Hópur"@
    } else if en == "Person"@ {
        "Einstaklingur"@
    } else if en == "Housing"@ {
        "Húsnæði"@
    } else if en == "➕ New"@ {
        "➕ Nýtt"@
    } else if en == "Stays:"@ {
        "Dvalir:"@
    } else if en == "Stays (individual):"@ {
        "Dvalir (einstakar):"@
    } else if en == "➕ Add stay"@ {
        "➕ Bæta við dvöl"@
    } else if en == "Add a housing and a person/group first."@ {
        "Bættu fyrst við húsnæði og einstaklingi/hópi."@
    } else if en == "(no stays)"@ {
        "(engar dvalir)"@
    } else if en == "(group)"@ {
        "(hópur)"@
    } else if en == "No groups yet — add one."@ {
        "Engir hópar enn — bættu við einum."@
    } else if en == "🗑 Delete group"@ {
        "🗑 Eyða hópi"@
    } else if en == "Members:"@ {
        "Meðlimir:"@
    } else if en == "(no members)"@ {
        "(engir meðlimir)"@
    } else if en == "➕ Add existing…"@ {
        "➕ Bæta við fyrirliggjandi…"@
    } else if en == "➕ New person"@ {
        "➕ Nýr einstaklingur"@
    } else if en == "Select or create a group."@ {
        "Veldu eða búðu til hóp."@
    } else if en == "No stays for this group yet."@ {
        "Engar dvalir fyrir þennan hóp enn."@
    } else if en == "No persons yet — add one."@ {
        "Engir einstaklingar enn — bættu við einum."@
    } else if en == "— no group —"@ {
        "— enginn hópur —"@
    } else if en == "🗑 Delete person"@ {
        "🗑 Eyða einstaklingi"@
    } else if en == "Select or create a person."@ {
        "Veldu eða búðu til einstakling."@
    } else if en == "No stays for this person yet."@ {
        "Engar dvalir fyrir þennan einstakling enn."@
    } else if en == "No housings yet — add one."@ {
        "Ekkert húsnæði enn — bættu við einu."@
    } else if en == "Capacity"@ {
        "Rými"@
    } else if en == "Notes:"@ {
        "Athugasemdir:"@
    } else if en == "🗑 Delete housing"@ {
        "🗑 Eyða húsnæði"@
    } else if en == "Select or create a housing."@ {
        "Veldu eða búðu til húsnæði."@
    } else if en == "No stays in this housing yet."@ {
        "Engar dvalir í þessu húsnæði enn."@
    } else if en == "cap"@ {
        "rými"@
    } else if en == "To:"@ {
        "Til:"@
    } else if en == "Nights:"@ {
        "Nætur:"@
    } else if en == "People:"@ {
        "Fólk:"@
    } else if en == "⚠ Also booked elsewhere at the same time"@ {
        "⚠ Einnig bókað annars staðar á sama tíma"@
    } else if en == "<deleted person>"@ {
        "<eyddur einstaklingur>"@
    } else if en == "<deleted group>"@ {
        "<eyddur hópur>"@
    } else if en == "📜 Changelog"@ {
        "📜 Breytingaskrá"@
    } else if en == "↩ Undo last change"@ {
        "↩ Afturkalla síðustu breytingu"@
    } else if en == "entries"@ {
        "færslur"@
    } else if en == "No changes yet."@ {
        "Engar breytingar enn."@
    } else if en == "(no group)"@ {
        "(enginn hópur)"@
    } else if en == "Created housing"@ {
        "Húsnæði búið til"@
    } else if en == "Deleted housing"@ {
        "Húsnæði eytt"@
    } else if en == "Renamed housing"@ {
        "Húsnæði endurnefnt"@
    } else if en == "Changed capacity of"@ {
        "Rými breytt fyrir"@
    } else if en == "Edited notes of"@ {
        "Athugasemdir breyttar fyrir"@
    } else if en == "Created group"@ {
        "Hópur búinn til"@
    } else if en == "Deleted group"@ {
        "Hópi eytt"@
    } else if en == "Renamed group"@ {
        "Hópur endurnefndur"@
    } else if en == "Changed colour of"@ {
        "Litur breyttur fyrir"@
    } else if en == "Added person"@ {
        "Einstaklingi bætt við"@
    } else if en == "Deleted person"@ {
        "Einstaklingi eytt"@
    } else if en == "Renamed person"@ {
        "Einstaklingur endurnefndur"@
    } else if en == "Changed group of"@ {
        "Hópi breytt fyrir"@
    } else if en == "Added stay"@ {
        "Dvöl bætt við"@
    } else if en == "Removed stay"@ {
        "Dvöl fjarlægð"@
    } else if en == "Moved stay"@ {
        "Dvöl færð"@
    } else if en == "Changed occupant of stay"@ {
        "Íbúa dvalar breytt"@
    } else if en == "Changed dates of stay"@ {
        "Dagsetningum dvalar breytt"@
    } else if en == "Loaded example data"@ {
        "Dæmigögn hlaðin"@
    } else if en == "Loaded plan from file"@ {
        "Áætlun hlaðin úr skrá"@
    } else if en == "Loaded a plan with no change history"@ {
        "Hlóð áætlun án breytingasögu"@
    } else if en == "Undid"@ {
        "Afturkallað"@
    } else if en == "💾 Save"@ {
        "💾 Vista"@
    } else if en == "Save As…"@ {
        "Vista sem…"@
    } else if en == "Unsaved changes"@ {
        "Óvistaðar breytingar"@
    } else if en == "You have unsaved changes. Save before closing?"@ {
        "Þú ert með óvistaðar breytingar. Vista áður en lokað er?"@
    } else if en == "Save"@ {
        "Vista"@
    } else if en == "Discard"@ {
        "Henda"@
    } else if en == "Cancel"@ {
        "Hætta við"@
    } else if en == "untitled"@ {
        "ónefnt"@
    } else if en == "File is open in another instance."@ {
        "Skráin er opin í öðru tilviki."@
    } else {
        en
    }
}

/// Icelandic translations, keyed by the English source string. Unknown strings
/// fall back to English.
fn isl(en: &'static str) -> (r: &'static str)
    ensures
        r@ == icelandic_text(en@),
{
    if str_eq(en, "📊 Overview") {
        "📊 Yfirlit"
    } else if str_eq(en, "👥 Groups") {
        "👥 Hópar"
    } else if str_eq(en, "🧍 Persons") {
        "🧍 Einstaklingar"
    } else if str_eq(en, "🏠 Housings") {
        "🏠 Húsnæði"
    } else if str_eq(en, "From:") {
        "Frá:"
    } else if str_eq(en, "Days:") {
        "Dagar:"
    } else if str_eq(en, "Zoom:") {
        "Aðdráttur:"
    } else if str_eq(en, "Or Ctrl/Cmd + scroll (pinch on trackpad) over the timeline") {
        "Eða Ctrl/Cmd + skrun (klíptu á snertiplatta) yfir tímalínuna"
    } else if str_eq(en, "Today") {
        "Í dag"
    } else if str_eq(en, "Fit to stays") {
        "Laga að dvölum"
    } else if str_eq(en, "📂 Load…") {
        "📂 Opna…"
    } else if str_eq(en, "ℹ About") {
        "ℹ Um"
    } else if str_eq(en, "Language") {
        "Tungumál"
    } else if str_eq(en, "Saved →") {
        "Vistað →"
    } else if str_eq(en, "Loaded ←") {
        "Hlaðið ←"
    } else if str_eq(en, "Save failed:") {
        "Vistun mistókst:"
    } else if str_eq(en, "Encode failed:") {
        "Kóðun mistókst:"
    } else if str_eq(en, "Read failed:") {
        "Lestur mistókst:"
    } else if str_eq(en, "Parse failed:") {
        "Þáttun mistókst:"
    } else if str_eq(en, "File save is not available on Android yet.") {
        "Vistun í skrá er ekki enn í boði á Android."
    } else if str_eq(en, "File load is not available on Android yet.") {
        "Hleðsla úr skrá er ekki enn í boði á Android."
    } else if str_eq(en, "Housing Planner plan") {
        "Housing Planner-áætlun"
    } else if str_eq(en, "About / Licenses") {
        "Um / Leyfi"
    } else if str_eq(en, "Version") {
        "Útgáfa"
    } else if str_eq(en, "Plan who stays where, and when.") {
        "Skipuleggðu hver dvelur hvar og hvenær."
    } else if str_eq(en, "📋 Copy dependency licenses") {
        "📋 Afrita leyfi háðra pakka"
    } else if str_eq(en, "This application") {
        "Þetta forrit"
    } else if str_eq(en, "Third-party dependencies") {
        "Pakkar þriðja aðila"
    } else if str_eq(en, "Welcome to Housing Planner") {
        "Velkomin í Housing Planner"
    } else if str_eq(en, "Add housings, groups and people in the tabs above —") {
        "Bættu við húsnæði, hópum og fólki í flipunum að ofan —"
    } else if str_eq(en, "📋 Load example data") {
        "📋 Hlaða dæmigögnum"
    } else if str_eq(en, "Add a housing in the Housings tab to start planning.") {
        "Bættu við húsnæði í Húsnæði-flipanum til að byrja að skipuleggja."
    } else if str_eq(en, "Group") {
        "Hópur"
    } else if str_eq(en, "Person") {
        "Einstaklingur"
    } else if str_eq(en, "Housing") {
        "Húsnæði"
    } else if str_eq(en, "➕ New") {
        "➕ Nýtt"
    } else if str_eq(en, "Stays:") {
        "Dvalir:"
    } else if str_eq(en, "Stays (individual):") {
        "Dvalir (einstakar):"
    } else if str_eq(en, "➕ Add stay") {
        "➕ Bæta við dvöl"
    } else if str_eq(en, "Add a housing and a person/group first.") {
        "Bættu fyrst við húsnæði og einstaklingi/hópi."
    } else if str_eq(en, "(no stays)") {
        "(engar dvalir)"
    } else if str_eq(en, "(group)") {
        "(hópur)"
    } else if str_eq(en, "No groups yet — add one.") {
        "Engir hópar enn — bættu við einum."
    } else if str_eq(en, "🗑 Delete group") {
        "🗑 Eyða hópi"
    } else if str_eq(en, "Members:") {
        "Meðlimir:"
    } else if str_eq(en, "(no members)") {
        "(engir meðlimir)"
    } else if str_eq(en, "➕ Add existing…") {
        "➕ Bæta við fyrirliggjandi…"
    } else if str_eq(en, "➕ New person") {
        "➕ Nýr einstaklingur"
    } else if str_eq(en, "Select or create a group.") {
        "Veldu eða búðu til hóp."
    } else if str_eq(en, "No stays for this group yet.") {
        "Engar dvalir fyrir þennan hóp enn."
    } else if str_eq(en, "No persons yet — add one.") {
        "Engir einstaklingar enn — bættu við einum."
    } else if str_eq(en, "— no group —") {
        "— enginn hópur —"
    } else if str_eq(en, "🗑 Delete person") {
        "🗑 Eyða einstaklingi"
    } else if str_eq(en, "Select or create a person.") {
        "Veldu eða búðu til einstakling."
    } else if str_eq(en, "No stays for this person yet.") {
        "Engar dvalir fyrir þennan einstakling enn."
    } else if str_eq(en, "No housings yet — add one.") {
        "Ekkert húsnæði enn — bættu við einu."
    } else if str_eq(en, "Capacity") {
        "Rými"
    } else if str_eq(en, "Notes:") {
        "Athugasemdir:"
    } else if str_eq(en, "🗑 Delete housing") {
        "🗑 Eyða húsnæði"
    } else if str_eq(en, "Select or create a housing.") {
        "Veldu eða búðu til húsnæði."
    } else if str_eq(en, "No stays in this housing yet.") {
        "Engar dvalir í þessu húsnæði enn."
    } else if str_eq(en, "cap") {
        "rými"
    } else if str_eq(en, "To:") {
        "Til:"
    } else if str_eq(en, "Nights:") {
        "Nætur:"
    } else if str_eq(en, "People:") {
        "Fólk:"
    } else if str_eq(en, "⚠ Also booked elsewhere at the same time") {
        "⚠ Einnig bókað annars staðar á sama tíma"
    } else if str_eq(en, "<deleted person>") {
        "<eyddur einstaklingur>"
    } else if str_eq(en, "<deleted group>") {
        "<eyddur hópur>"
    } else if str_eq(en, "📜 Changelog") {
        "📜 Breytingaskrá"
    } else if str_eq(en, "↩ Undo last change") {
        "↩ Afturkalla síðustu breytingu"
    } else if str_eq(en, "entries") {
        "færslur"
    } else if str_eq(en, "No changes yet.") {
        "Engar breytingar enn."
    } else if str_eq(en, "(no group)") {
        "(enginn hópur)"
    } else if str_eq(en, "Created housing") {
        "Húsnæði búið til"
    } else if str_eq(en, "Deleted housing") {
        "Húsnæði eytt"
    } else if str_eq(en, "Renamed housing") {
        "Húsnæði endurnefnt"
    } else if str_eq(en, "Changed capacity of") {
        "Rými breytt fyrir"
    } else if str_eq(en, "Edited notes of") {
        "Athugasemdir breyttar fyrir"
    } else if str_eq(en, "Created group") {
        "Hópur búinn til"
    } else if str_eq(en, "Deleted group") {
        "Hópi eytt"
    } else if str_eq(en, "Renamed group") {
        "Hópur endurnefndur"
    } else if str_eq(en, "Changed colour of") {
        "Litur breyttur fyrir"
    } else if str_eq(en, "Added person") {
        "Einstaklingi bætt við"
    } else if str_eq(en, "Deleted person") {
        "Einstaklingi eytt"
    } else if str_eq(en, "Renamed person") {
        "Einstaklingur endurnefndur"
    } else if str_eq(en, "Changed group of") {
        "Hópi breytt fyrir"
    } else if str_eq(en, "Added stay") {
        "Dvöl bætt við"
    } else if str_eq(en, "Removed stay") {
        "Dvöl fjarlægð"
    } else if str_eq(en, "Moved stay") {
        "Dvöl færð"
    } else if str_eq(en, "Changed occupant of stay") {
        "Íbúa dvalar breytt"
    } else if str_eq(en, "Changed dates of stay") {
        "Dagsetningum dvalar breytt"
    } else if str_eq(en, "Loaded example data") {
        "Dæmigögn hlaðin"
    } else if str_eq(en, "Loaded plan from file") {
        "Áætlun hlaðin úr skrá"
    } else if str_eq(en, "Loaded a plan with no change history") {
        "Hlóð áætlun án breytingasögu"
    } else if str_eq(en, "Undid") {
        "Afturkallað"
    } else if str_eq(en, "💾 Save") {
        "💾 Vista"
    } else if str_eq(en, "Save As…") {
        "Vista sem…"
    } else if str_eq(en, "Unsaved changes") {
        "Óvistaðar breytingar"
    } else if str_eq(en, "You have unsaved changes. Save before closing?") {
        "Þú ert með óvistaðar breytingar. Vista áður en lokað er?"
    } else if str_eq(en, "Save") {
        "Vista"
    } else if str_eq(en, "Discard") {
        "Henda"
    } else if str_eq(en, "Cancel") {
        "Hætta við"
    } else if str_eq(en, "untitled") {
        "ónefnt"
    } else if str_eq(en, "File is open in another instance.") {
        "Skráin er opin í öðru tilviki."
    } else {
        en
    }
}

/// The Greenlandic table: the entry for `en`, or `en` itself when there is none.
pub open spec fn greenlandic_text(en: Seq<char>) -> Seq<char> {
    if en == "📊 Overview"@ {
        "📊 Overview"@
    } else if en == "👥 Groups"@ {
        "👥 Groups"@
    } else if en == "🧍 Persons"@ {
        "🧍 Inuit"@
    } else if en == "🏠 Housings"@ {
        "🏠 Illut"@
    } else if en == "From:"@ {
        "From:"@
    } else if en == "Days:"@ {
        "Ullut:"@
    } else if en == "Zoom:"@ {
        "Zoom:"@
    } else if en == "Or Ctrl/Cmd + scroll (pinch on trackpad) over the timeline"@ {
        "Or Ctrl/Cmd + scroll (pinch on trackpad) over the timeline"@
    } else if en == "Today"@ {
        "Ullumi"@
    } else if en == "Fit to stays"@ {
        "Fit to stays"@
    } else if en == "📂 Load…"@ {
        "📂 Load…"@
    } else if en == "ℹ About"@ {
        "ℹ Pillugu"@
    } else if en == "Language"@ {
        "Oqaatsit"@
    } else if en == "Saved →"@ {
        "Saved →"@
    } else if en == "Loaded ←"@ {
        "Loaded ←"@
    } else if en == "Save failed:"@ {
        "Save failed:"@
    } else if en == "Encode failed:"@ {
        "Encode failed:"@
    } else if en == "Read failed:"@ {
        "Read failed:"@
    } else if en == "Parse failed:"@ {
        "Parse failed:"@
    } else if en == "File save is not available on Android yet."@ {
        "File save is not available on Android yet."@
    } else if en == "File load is not available on Android yet."@ {
        "File load is not available on Android yet."@
    } else if en == "Housing Planner plan"@ {
        "Housing Planner plan"@
    } else if en == "About / Licenses"@ {
        "About / Licenses"@
    } else if en == "Version"@ {
        "Version"@
    } else if en == "Plan who stays where, and when."@ {
        "Plan who stays where, and when."@
    } else if en == "📋 Copy dependency licenses"@ {
        "📋 Copy dependency licenses"@
    } else if en == "This application"@ {
        "This application"@
    } else if en == "Third-party dependencies"@ {
        "Third-party dependencies"@
    } else if en == "Welcome to Housing Planner"@ {
        "Tikilluarit Housing Planner-mut"@
    } else if en == "Add housings, groups and people in the tabs above —"@ {
        "Add housings, groups and people in the tabs above —"@
    } else if en == "📋 Load example data"@ {
        "📋 Load example data"@
    } else if en == "Add a housing in the Housings tab to start planning."@ {
        "Add a housing in the Housings tab to start planning."@
    } else if en == "Group"@ {
        "Group"@
    } else if en == "Person"@ {
        "Inuk"@
    } else if en == "Housing"@ {
        "Illu"@
    } else if en == "➕ New"@ {
        "➕ New"@
    } else if en == "Stays:"@ {
        "Stays:"@
    } else if en == "Stays (individual):"@ {
        "Stays (individual):"@
    } else if en == "➕ Add stay"@ {
        "➕ Add stay"@
    } else if en == "Add a housing and a person/group first."@ {
        "Add a housing and a person/group first."@
    } else if en == "(no stays)"@ {
        "(no stays)"@
    } else if en == "(group)"@ {
        "(group)"@
    } else if en == "No groups yet — add one."@ {
        "No groups yet — add one."@
    } else if en == "🗑 Delete group"@ {
        "🗑 Delete group"@
    } else if en == "Members:"@ {
        "Members:"@
    } else if en == "(no members)"@ {
        "(no members)"@
    } else if en == "➕ Add existing…"@ {
        "➕ Add existing…"@
    } else if en == "➕ New person"@ {
        "➕ New person"@
    } else if en == "Select or create a group."@ {
        "Select or create a group."@
    } else if en == "No stays for this group yet."@ {
        "No stays for this group yet."@
    } else if en == "No persons yet — add one."@ {
        "No persons yet — add one."@
    } else if en == "— no group —"@ {
        "— no group —"@
    } else if en == "🗑 Delete person"@ {
        "🗑 Delete person"@
    } else if en == "Select or create a person."@ {
        "Select or create a person."@
    } else if en == "No stays for this person yet."@ {
        "No stays for this person yet."@
    } else if en == "No housings yet — add one."@ {
        "No housings yet — add one."@
    } else if en == "Capacity"@ {
        "Capacity"@
    } else if en == "Notes:"@ {
        "Notes:"@
    } else if en == "🗑 Delete housing"@ {
        "🗑 Delete housing"@
    } else if en == "Select or create a housing."@ {
        "Select or create a housing."@
    } else if en == "No stays in this housing yet."@ {
        "No stays in this housing yet."@
    } else if en == "cap"@ {
        "cap"@
    } else if en == "To:"@ {
        "To:"@
    } else if en == "Nights:"@ {
        "Unnuat:"@
    } else if en == "People:"@ {
        "Inuit:"@
    } else if en == "⚠ Also booked elsewhere at the same time"@ {
        "⚠ Also booked elsewhere at the same time"@
    } else if en == "<deleted person>"@ {
        "<deleted person>"@
    } else if en == "<deleted group>"@ {
        "<deleted group>"@
    } else if en == "📜 Changelog"@ {
        "📜 Changelog"@
    } else if en == "↩ Undo last change"@ {
        "↩ Undo last change"@
    } else if en == "entries"@ {
        "entries"@
    } else if en == "No changes yet."@ {
        "No changes yet."@
    } else if en == "(no group)"@ {
        "(no group)"@
    } else if en == "Created housing"@ {
        "Created housing"@
    } else if en == "Deleted housing"@ {
        "Deleted housing"@
    } else if en == "Renamed housing"@ {
        "Renamed housing"@
    } else if en == "Changed capacity of"@ {
        "Changed capacity of"@
    } else if en == "Edited notes of"@ {
        "Edited notes of"@
    } else if en == "Created group"@ {
        "Created group"@
    } else if en == "Deleted group"@ {
        "Deleted group"@
    } else if en == "Renamed group"@ {
        "Renamed group"@
    } else if en == "Changed colour of"@ {
        "Changed colour of"@
    } else if en == "Added person"@ {
        "Added person"@
    } else if en == "Deleted person"@ {
        "Deleted person"@
    } else if en == "Renamed person"@ {
        "Renamed person"@
    } else if en == "Changed group of"@ {
        "Changed group of"@
    } else if en == "Added stay"@ {
        "Added stay"@
    } else if en == "Removed stay"@ {
        "Removed stay"@
    } else if en == "Moved stay"@ {
        "Moved stay"@
    } else if en == "Changed occupant of stay"@ {
        "Changed occupant of stay"@
    } else if en == "Changed dates of stay"@ {
        "Changed dates of stay"@
    } else if en == "Loaded example data"@ {
        "Loaded example data"@
    } else if en == "Loaded plan from file"@ {
        "Loaded plan from file"@
    } else if en == "Loaded a plan with no change history"@ {
        "Loaded a plan with no change history"@
    } else if en == "Undid"@ {
        "Undid"@
    } else if en == "💾 Save"@ {
        "💾 Save"@
    } else if en == "Save As…"@ {
        "Save As…"@
    } else if en == "Unsaved changes"@ {
        "Unsaved changes"@
    } else if en == "You have unsaved changes. Save before closing?"@ {
        "You have unsaved changes. Save before closing?"@
    } else if en == "Save"@ {
        "Save"@
    } else if en == "Discard"@ {
        "Discard"@
    } else if en == "Cancel"@ {
        "Cancel"@
    } else if en == "untitled"@ {
        "untitled"@
    } else if en == "File is open in another instance."@ {
        "File is open in another instance."@
    } else {
        en
    }
}

/// Greenlandic (Kalaallisut) translations.
///
/// STUB / best-effort: only a few high-confidence strings are translated; the
/// rest intentionally equal English. Needs review/completion by a Kalaallisut
/// speaker.
fn kl(en: &'static str) -> (r: &'static str)
    ensures
        r@ == greenlandic_text(en@),
{
    if str_eq(en, "📊 Overview") {
        "📊 Overview"
    } else if str_eq(en, "👥 Groups") {
        "👥 Groups"
    } else if str_eq(en, "🧍 Persons") {
        "🧍 Inuit"
    } else if str_eq(en, "🏠 Housings") {
        "🏠 Illut"
    } else if str_eq(en, "From:") {
        "From:"
    } else if str_eq(en, "Days:") {
        "Ullut:"
    } else if str_eq(en, "Zoom:") {
        "Zoom:"
    } else if str_eq(en, "Or Ctrl/Cmd + scroll (pinch on trackpad) over the timeline") {
        "Or Ctrl/Cmd + scroll (pinch on trackpad) over the timeline"
    } else if str_eq(en, "Today") {
        "Ullumi"
    } else if str_eq(en, "Fit to stays") {
        "Fit to stays"
    } else if str_eq(en, "📂 Load…") {
        "📂 Load…"
    } else if str_eq(en, "ℹ About") {
        "ℹ Pillugu"
    } else if str_eq(en, "Language") {
        "Oqaatsit"
    } else if str_eq(en, "Saved →") {
        "Saved →"
    } else if str_eq(en, "Loaded ←") {
        "Loaded ←"
    } else if str_eq(en, "Save failed:") {
        "Save failed:"
    } else if str_eq(en, "Encode failed:") {
        "Encode failed:"
    } else if str_eq(en, "Read failed:") {
        "Read failed:"
    } else if str_eq(en, "Parse failed:") {
        "Parse failed:"
    } else if str_eq(en, "File save is not available on Android yet.") {
        "File save is not available on Android yet."
    } else if str_eq(en, "File load is not available on Android yet.") {
        "File load is not available on Android yet."
    } else if str_eq(en, "Housing Planner plan") {
        "Housing Planner plan"
    } else if str_eq(en, "About / Licenses") {
        "About / Licenses"
    } else if str_eq(en, "Version") {
        "Version"
    } else if str_eq(en, "Plan who stays where, and when.") {
        "Plan who stays where, and when."
    } else if str_eq(en, "📋 Copy dependency licenses") {
        "📋 Copy dependency licenses"
    } else if str_eq(en, "This application") {
        "This application"
    } else if str_eq(en, "Third-party dependencies") {
        "Third-party dependencies"
    } else if str_eq(en, "Welcome to Housing Planner") {
        "Tikilluarit Housing Planner-mut"
    } else if str_eq(en, "Add housings, groups and people in the tabs above —") {
        "Add housings, groups and people in the tabs above —"
    } else if str_eq(en, "📋 Load example data") {
        "📋 Load example data"
    } else if str_eq(en, "Add a housing in the Housings tab to start planning.") {
        "Add a housing in the Housings tab to start planning."
    } else if str_eq(en, "Group") {
        "Group"
    } else if str_eq(en, "Person") {
        "Inuk"
    } else if str_eq(en, "Housing") {
        "Illu"
    } else if str_eq(en, "➕ New") {
        "➕ New"
    } else if str_eq(en, "Stays:") {
        "Stays:"
    } else if str_eq(en, "Stays (individual):") {
        "Stays (individual):"
    } else if str_eq(en, "➕ Add stay") {
        "➕ Add stay"
    } else if str_eq(en, "Add a housing and a person/group first.") {
        "Add a housing and a person/group first."
    } else if str_eq(en, "(no stays)") {
        "(no stays)"
    } else if str_eq(en, "(group)") {
        "(group)"
    } else if str_eq(en, "No groups yet — add one.") {
        "No groups yet — add one."
    } else if str_eq(en, "🗑 Delete group") {
        "🗑 Delete group"
    } else if str_eq(en, "Members:") {
        "Members:"
    } else if str_eq(en, "(no members)") {
        "(no members)"
    } else if str_eq(en, "➕ Add existing…") {
        "➕ Add existing…"
    } else if str_eq(en, "➕ New person") {
        "➕ New person"
    } else if str_eq(en, "Select or create a group.") {
        "Select or create a group."
    } else if str_eq(en, "No stays for this group yet.") {
        "No stays for this group yet."
    } else if str_eq(en, "No persons yet — add one.") {
        "No persons yet — add one."
    } else if str_eq(en, "— no group —") {
        "— no group —"
    } else if str_eq(en, "🗑 Delete person") {
        "🗑 Delete person"
    } else if str_eq(en, "Select or create a person.") {
        "Select or create a person."
    } else if str_eq(en, "No stays for this person yet.") {
        "No stays for this person yet."
    } else if str_eq(en, "No housings yet — add one.") {
        "No housings yet — add one."
    } else if str_eq(en, "Capacity") {
        "Capacity"
    } else if str_eq(en, "Notes:") {
        "Notes:"
    } else if str_eq(en, "🗑 Delete housing") {
        "🗑 Delete housing"
    } else if str_eq(en, "Select or create a housing.") {
        "Select or create a housing."
    } else if str_eq(en, "No stays in this housing yet.") {
        "No stays in this housing yet."
    } else if str_eq(en, "cap") {
        "cap"
    } else if str_eq(en, "To:") {
        "To:"
    } else if str_eq(en, "Nights:") {
        "Unnuat:"
    } else if str_eq(en, "People:") {
        "Inuit:"
    } else if str_eq(en, "⚠ Also booked elsewhere at the same time") {
        "⚠ Also booked elsewhere at the same time"
    } else if str_eq(en, "<deleted person>") {
        "<deleted person>"
    } else if str_eq(en, "<deleted group>") {
        "<deleted group>"
    } else if str_eq(en, "📜 Changelog") {
        "📜 Changelog"
    } else if str_eq(en, "↩ Undo last change") {
        "↩ Undo last change"
    } else if str_eq(en, "entries") {
        "entries"
    } else if str_eq(en, "No changes yet.") {
        "No changes yet."
    } else if str_eq(en, "(no group)") {
        "(no group)"
    } else if str_eq(en, "Created housing") {
        "Created housing"
    } else if str_eq(en, "Deleted housing") {
        "Deleted housing"
    } else if str_eq(en, "Renamed housing") {
        "Renamed housing"
    } else if str_eq(en, "Changed capacity of") {
        "Changed capacity of"
    } else if str_eq(en, "Edited notes of") {
        "Edited notes of"
    } else if str_eq(en, "Created group") {
        "Created group"
    } else if str_eq(en, "Deleted group") {
        "Deleted group"
    } else if str_eq(en, "Renamed group") {
        "Renamed group"
    } else if str_eq(en, "Changed colour of") {
        "Changed colour of"
    } else if str_eq(en, "Added person") {
        "Added person"
    } else if str_eq(en, "Deleted person") {
        "Deleted person"
    } else if str_eq(en, "Renamed person") {
        "Renamed person"
    } else if str_eq(en, "Changed group of") {
        "Changed group of"
    } else if str_eq(en, "Added stay") {
        "Added stay"
    } else if str_eq(en, "Removed stay") {
        "Removed stay"
    } else if str_eq(en, "Moved stay") {
        "Moved stay"
    } else if str_eq(en, "Changed occupant of stay") {
        "Changed occupant of stay"
    } else if str_eq(en, "Changed dates of stay") {
        "Changed dates of stay"
    } else if str_eq(en, "Loaded example data") {
        "Loaded example data"
    } else if str_eq(en, "Loaded plan from file") {
        "Loaded plan from file"
    } else if str_eq(en, "Loaded a plan with no change history") {
        "Loaded a plan with no change history"
    } else if str_eq(en, "Undid") {
        "Undid"
    } else if str_eq(en, "💾 Save") {
        "💾 Save"
    } else if str_eq(en, "Save As…") {
        "Save As…"
    } else if str_eq(en, "Unsaved changes") {
        "Unsaved changes"
    } else if str_eq(en, "You have unsaved changes. Save before closing?") {
        "You have unsaved changes. Save before closing?"
    } else if str_eq(en, "Save") {
        "Save"
    } else if str_eq(en, "Discard") {
        "Discard"
    } else if str_eq(en, "Cancel") {
        "Cancel"
    } else if str_eq(en, "untitled") {
        "untitled"
    } else if str_eq(en, "File is open in another instance.") {
        "File is open in another instance."
    } else {
        en
    }
}

/// The Faroese table: the entry for `en`, or `en` itself when there is none.
pub open spec fn faroese_text(en: Seq<char>) -> Seq<char> {
    if en == "📊 Overview"@ {
        "📊 Yvirlit"@
    } else if en == "👥 Groups"@ {
        "👥 Bólkar"@
    } else if en == "🧍 Persons"@ {
        "🧍 Persónar"@
    } else if en == "🏠 Housings"@ {
        "🏠 Bústaðir"@
    } else if en == "From:"@ {
        "Frá:"@
    } else if en == "Days:"@ {
        "Dagar:"@
    } else if en == "Zoom:"@ {
        "Atdráttur:"@
    } else if en == "Or Ctrl/Cmd + scroll (pinch on trackpad) over the timeline"@ {
        "Ella Ctrl/Cmd + rulling (kníp á flatuni) yvir tíðarlinjuni"@
    } else if en == "Today"@ {
        "Í dag"@
    } else if en == "Fit to stays"@ {
        "Tillaga til uppihald"@
    } else if en == "📂 Load…"@ {
        "📂 Opna…"@
    } else if en == "ℹ About"@ {
        "ℹ Um"@
    } else if en == "Language"@ {
        "Mál"@
    } else if en == "Saved →"@ {
        "Goymt →"@
    } else if en == "Loaded ←"@ {
        "Innlisið ←"@
    } else if en == "Save failed:"@ {
        "Goyming miseydnaðist:"@
    } else if en == "Encode failed:"@ {
        "Koding miseydnaðist:"@
    } else if en == "Read failed:"@ {
        "Lesing miseydnaðist:"@
    } else if en == "Parse failed:"@ {
        "Tulking miseydnaðist:"@
    } else if en == "File save is not available on Android yet."@ {
        "Goyming til fílu er enn ikki tøk á Android."@
    } else if en == "File load is not available on Android yet."@ {
        "Innlesing úr fílu er enn ikki tøk á Android."@
    } else if en == "Housing Planner plan"@ {
        "Housing Planner-ætlan"@
    } else if en == "About / Licenses"@ {
        "Um / Loyvir"@
    } else if en == "Version"@ {
        "Útgáva"@
    } else if en == "Plan who stays where, and when."@ {
        "Ætla hvør býr hvar, og nær."@
    } else if en == "📋 Copy dependency licenses"@ {
        "📋 Avrita loyvir fyri avhongdar pakkar"@
    } else if en == "This application"@ {
        "Hetta forritið"@
    } else if en == "Third-party dependencies"@ {
        "Triðjaparts-avhongd"@
    } else if en == "Welcome to Housing Planner"@ {
        "Vælkomin til Housing Planner"@
    } else if en == "Add housings, groups and people in the tabs above —"@ {
        "Legg afturat bústøðum, bólkum og fólki í teigunum omanfyri —"@
    } else if en == "📋 Load example data"@ {
        "📋 Innles dømisdátur"@
    } else if en == "Add a housing in the Housings tab to start planning."@ {
        "Legg ein bústað afturat í Bústaðir-teiginum fyri at byrja at ætla."@
    } else if en == "Group"@ {
        "Bólkur"@
    } else if en == "Person"@ {
        "Persónur"@
    } else if en == "Housing"@ {
        "Bústaður"@
    } else if en == "➕ New"@ {
        "➕ Nýtt"@
    } else if en == "Stays:"@ {
        "Uppihøld:"@
    } else if en == "Stays (individual):"@ {
        "Uppihøld (einstøk):"@
    } else if en == "➕ Add stay"@ {
        "➕ Legg uppihald afturat"@
    } else if en == "Add a housing and a person/group first."@ {
        "Legg fyrst ein bústað og ein persón/bólk afturat."@
    } else if en == "(no stays)"@ {
        "(eingi uppihøld)"@
    } else if en == "(group)"@ {
        "(bólkur)"@
    } else if en == "No groups yet — add one."@ {
        "Eingir bólkar enn — legg ein afturat."@
    } else if en == "🗑 Delete group"@ {
        "🗑 Strika bólk"@
    } else if en == "Members:"@ {
        "Limir:"@
    } else if en == "(no members)"@ {
        "(eingir limir)"@
    } else if en == "➕ Add existing…"@ {
        "➕ Legg verandi afturat…"@
    } else if en == "➕ New person"@ {
        "➕ Nýggjur persónur"@
    } else if en == "Select or create a group."@ {
        "Vel ella stovna ein bólk."@
    } else if en == "No stays for this group yet."@ {
        "Eingi uppihøld fyri henda bólk enn."@
    } else if en == "No persons yet — add one."@ {
        "Eingir persónar enn — legg ein afturat."@
    } else if en == "— no group —"@ {
        "— eingin bólkur —"@
    } else if en == "🗑 Delete person"@ {
        "🗑 Strika persón"@
    } else if en == "Select or create a person."@ {
        "Vel ella stovna ein persón."@
    } else if en == "No stays for this person yet."@ {
        "Eingi uppihøld fyri henda persón enn."@
    } else if en == "No housings yet — add one."@ {
        "Eingir bústaðir enn — legg ein afturat."@
    } else if en == "Capacity"@ {
        "Pláss"@
    } else if en == "Notes:"@ {
        "Viðmerkingar:"@
    } else if en == "🗑 Delete housing"@ {
        "🗑 Strika bústað"@
    } else if en == "Select or create a housing."@ {
        "Vel ella stovna ein bústað."@
    } else if en == "No stays in this housing yet."@ {
        "Eingi uppihøld í hesum bústaði enn."@
    } else if en == "cap"@ {
        "pláss"@
    } else if en == "To:"@ {
        "Til:"@
    } else if en == "Nights:"@ {
        "Nætur:"@
    } else if en == "People:"@ {
        "Fólk:"@
    } else if en == "⚠ Also booked elsewhere at the same time"@ {
        "⚠ Eisini bílagt aðrastaðni á sama tíð"@
    } else if en == "<deleted person>"@ {
        "<strikaður persónur>"@
    } else if en == "<deleted group>"@ {
        "<strikaður bólkur>"@
    } else if en == "📜 Changelog"@ {
        "📜 Broytingarlogg"@
    } else if en == "↩ Undo last change"@ {
        "↩ Angra seinastu broyting"@
    } else if en == "entries"@ {
        "innføringar"@
    } else if en == "No changes yet."@ {
        "Ongar broytingar enn."@
    } else if en == "(no group)"@ {
        "(eingin bólkur)"@
    } else if en == "Created housing"@ {
        "Bústaður stovnaður"@
    } else if en == "Deleted housing"@ {
        "Bústaður strikaður"@
    } else if en == "Renamed housing"@ {
        "Bústaður umnevndur"@
    } else if en == "Changed capacity of"@ {
        "Pláss broytt fyri"@
    } else if en == "Edited notes of"@ {
        "Viðmerkingar broyttar fyri"@
    } else if en == "Created group"@ {
        "Bólkur stovnaður"@
    } else if en == "Deleted group"@ {
        "Bólkur strikaður"@
    } else if en == "Renamed group"@ {
        "Bólkur umnevndur"@
    } else if en == "Changed colour of"@ {
        "Litur broyttur fyri"@
    } else if en == "Added person"@ {
        "Persónur lagdur afturat"@
    } else if en == "Deleted person"@ {
        "Persónur strikaður"@
    } else if en == "Renamed person"@ {
        "Persónur umnevndur"@
    } else if en == "Changed group of"@ {
        "Bólkur broyttur fyri"@
    } else if en == "Added stay"@ {
        "Uppihald lagt afturat"@
    } else if en == "Removed stay"@ {
        "Uppihald strikað"@
    } else if en == "Moved stay"@ {
        "Uppihald flutt"@
    } else if en == "Changed occupant of stay"@ {
        "Íbúgvi í uppihaldi broyttur"@
    } else if en == "Changed dates of stay"@ {
        "Dagfestingar í uppihaldi broyttar"@
    } else if en == "Loaded example data"@ {
        "Dømisdátur innlisnar"@
    } else if en == "Loaded plan from file"@ {
        "Ætlan innlisin úr fílu"@
    } else if en == "Loaded a plan with no change history"@ {
        "Innlas eina ætlan uttan broytingarsøgu"@
    } else if en == "Undid"@ {
        "Angrað"@
    } else if en == "💾 Save"@ {
        "💾 Goym"@
    } else if en == "Save As…"@ {
        "Goym sum…"@
    } else if en == "Unsaved changes"@ {
        "Ógoymdar broytingar"@
    } else if en == "You have unsaved changes. Save before closing?"@ {
        "Tú hevur ógoymdar broytingar. Goyma áðrenn tú letur aftur?"@
    } else if en == "Save"@ {
        "Goym"@
    } else if en == "Discard"@ {
        "Vraka"@
    } else if en == "Cancel"@ {
        "Angra"@
    } else if en == "untitled"@ {
        "ónevnt"@
    } else if en == "File is open in another instance."@ {
        "Fílan er opin í øðrum tilviki."@
    } else {
        en
    }
}

/// Faroese (Føroyskt) translations, keyed by the English source string.
/// Best-effort; should be reviewed by a fluent speaker. Unknown strings fall
/// back to English.
fn fo(en: &'static str) -> (r: &'static str)
    ensures
        r@ == faroese_text(en@),
{
    if str_eq(en, "📊 Overview") {
        "📊 Yvirlit"
    } else if str_eq(en, "👥 Groups") {
        "👥 Bólkar"
    } else if str_eq(en, "🧍 Persons") {
        "🧍 Persónar"
    } else if str_eq(en, "🏠 Housings") {
        "🏠 Bústaðir"
    } else if str_eq(en, "From:") {
        "Frá:"
    } else if str_eq(en, "Days:") {
        "Dagar:"
    } else if str_eq(en, "Zoom:") {
        "Atdráttur:"
    } else if str_eq(en, "Or Ctrl/Cmd + scroll (pinch on trackpad) over the timeline") {
        "Ella Ctrl/Cmd + rulling (kníp á flatuni) yvir tíðarlinjuni"
    } else if str_eq(en, "Today") {
        "Í dag"
    } else if str_eq(en, "Fit to stays") {
        "Tillaga til uppihald"
    } else if str_eq(en, "📂 Load…") {
        "📂 Opna…"
    } else if str_eq(en, "ℹ About") {
        "ℹ Um"
    } else if str_eq(en, "Language") {
        "Mál"
    } else if str_eq(en, "Saved →") {
        "Goymt →"
    } else if str_eq(en, "Loaded ←") {
        "Innlisið ←"
    } else if str_eq(en, "Save failed:") {
        "Goyming miseydnaðist:"
    } else if str_eq(en, "Encode failed:") {
        "Koding miseydnaðist:"
    } else if str_eq(en, "Read failed:") {
        "Lesing miseydnaðist:"
    } else if str_eq(en, "Parse failed:") {
        "Tulking miseydnaðist:"
    } else if str_eq(en, "File save is not available on Android yet.") {
        "Goyming til fílu er enn ikki tøk á Android."
    } else if str_eq(en, "File load is not available on Android yet.") {
        "Innlesing úr fílu er enn ikki tøk á Android."
    } else if str_eq(en, "Housing Planner plan") {
        "Housing Planner-ætlan"
    } else if str_eq(en, "About / Licenses") {
        "Um / Loyvir"
    } else if str_eq(en, "Version") {
        "Útgáva"
    } else if str_eq(en, "Plan who stays where, and when.") {
        "Ætla hvør býr hvar, og nær."
    } else if str_eq(en, "📋 Copy dependency licenses") {
        "📋 Avrita loyvir fyri avhongdar pakkar"
    } else if str_eq(en, "This application") {
        "Hetta forritið"
    } else if str_eq(en, "Third-party dependencies") {
        "Triðjaparts-avhongd"
    } else if str_eq(en, "Welcome to Housing Planner") {
        "Vælkomin til Housing Planner"
    } else if str_eq(en, "Add housings, groups and people in the tabs above —") {
        "Legg afturat bústøðum, bólkum og fólki í teigunum omanfyri —"
    } else if str_eq(en, "📋 Load example data") {
        "📋 Innles dømisdátur"
    } else if str_eq(en, "Add a housing in the Housings tab to start planning.") {
        "Legg ein bústað afturat í Bústaðir-teiginum fyri at byrja at ætla."
    } else if str_eq(en, "Group") {
        "Bólkur"
    } else if str_eq(en, "Person") {
        "Persónur"
    } else if str_eq(en, "Housing") {
        "Bústaður"
    } else if str_eq(en, "➕ New") {
        "➕ Nýtt"
    } else if str_eq(en, "Stays:") {
        "Uppihøld:"
    } else if str_eq(en, "Stays (individual):") {
        "Uppihøld (einstøk):"
    } else if str_eq(en, "➕ Add stay") {
        "➕ Legg uppihald afturat"
    } else if str_eq(en, "Add a housing and a person/group first.") {
        "Legg fyrst ein bústað og ein persón/bólk afturat."
    } else if str_eq(en, "(no stays)") {
        "(eingi uppihøld)"
    } else if str_eq(en, "(group)") {
        "(bólkur)"
    } else if str_eq(en, "No groups yet — add one.") {
        "Eingir bólkar enn — legg ein afturat."
    } else if str_eq(en, "🗑 Delete group") {
        "🗑 Strika bólk"
    } else if str_eq(en, "Members:") {
        "Limir:"
    } else if str_eq(en, "(no members)") {
        "(eingir limir)"
    } else if str_eq(en, "➕ Add existing…") {
        "➕ Legg verandi afturat…"
    } else if str_eq(en, "➕ New person") {
        "➕ Nýggjur persónur"
    } else if str_eq(en, "Select or create a group.") {
        "Vel ella stovna ein bólk."
    } else if str_eq(en, "No stays for this group yet.") {
        "Eingi uppihøld fyri henda bólk enn."
    } else if str_eq(en, "No persons yet — add one.") {
        "Eingir persónar enn — legg ein afturat."
    } else if str_eq(en, "— no group —") {
        "— eingin bólkur —"
    } else if str_eq(en, "🗑 Delete person") {
        "🗑 Strika persón"
    } else if str_eq(en, "Select or create a person.") {
        "Vel ella stovna ein persón."
    } else if str_eq(en, "No stays for this person yet.") {
        "Eingi uppihøld fyri henda persón enn."
    } else if str_eq(en, "No housings yet — add one.") {
        "Eingir bústaðir enn — legg ein afturat."
    } else if str_eq(en, "Capacity") {
        "Pláss"
    } else if str_eq(en, "Notes:") {
        "Viðmerkingar:"
    } else if str_eq(en, "🗑 Delete housing") {
        "🗑 Strika bústað"
    } else if str_eq(en, "Select or create a housing.") {
        "Vel ella stovna ein bústað."
    } else if str_eq(en, "No stays in this housing yet.") {
        "Eingi uppihøld í hesum bústaði enn."
    } else if str_eq(en, "cap") {
        "pláss"
    } else if str_eq(en, "To:") {
        "Til:"
    } else if str_eq(en, "Nights:") {
        "Nætur:"
    } else if str_eq(en, "People:") {
        "Fólk:"
    } else if str_eq(en, "⚠ Also booked elsewhere at the same time") {
        "⚠ Eisini bílagt aðrastaðni á sama tíð"
    } else if str_eq(en, "<deleted person>") {
        "<strikaður persónur>"
    } else if str_eq(en, "<deleted group>") {
        "<strikaður bólkur>"
    } else if str_eq(en, "📜 Changelog") {
        "📜 Broytingarlogg"
    } else if str_eq(en, "↩ Undo last change") {
        "↩ Angra seinastu broyting"
    } else if str_eq(en, "entries") {
        "innføringar"
    } else if str_eq(en, "No changes yet.") {
        "Ongar broytingar enn."
    } else if str_eq(en, "(no group)") {
        "(eingin bólkur)"
    } else if str_eq(en, "Created housing") {
        "Bústaður stovnaður"
    } else if str_eq(en, "Deleted housing") {
        "Bústaður strikaður"
    } else if str_eq(en, "Renamed housing") {
        "Bústaður umnevndur"
    } else if str_eq(en, "Changed capacity of") {
        "Pláss broytt fyri"
    } else if str_eq(en, "Edited notes of") {
        "Viðmerkingar broyttar fyri"
    } else if str_eq(en, "Created group") {
        "Bólkur stovnaður"
    } else if str_eq(en, "Deleted group") {
        "Bólkur strikaður"
    } else if str_eq(en, "Renamed group") {
        "Bólkur umnevndur"
    } else if str_eq(en, "Changed colour of") {
        "Litur broyttur fyri"
    } else if str_eq(en, "Added person") {
        "Persónur lagdur afturat"
    } else if str_eq(en, "Deleted person") {
        "Persónur strikaður"
    } else if str_eq(en, "Renamed person") {
        "Persónur umnevndur"
    } else if str_eq(en, "Changed group of") {
        "Bólkur broyttur fyri"
    } else if str_eq(en, "Added stay") {
        "Uppihald lagt afturat"
    } else if str_eq(en, "Removed stay") {
        "Uppihald strikað"
    } else if str_eq(en, "Moved stay") {
        "Uppihald flutt"
    } else if str_eq(en, "Changed occupant of stay") {
        "Íbúgvi í uppihaldi broyttur"
    } else if str_eq(en, "Changed dates of stay") {
        "Dagfestingar í uppihaldi broyttar"
    } else if str_eq(en, "Loaded example data") {
        "Dømisdátur innlisnar"
    } else if str_eq(en, "Loaded plan from file") {
        "Ætlan innlisin úr fílu"
    } else if str_eq(en, "Loaded a plan with no change history") {
        "Innlas eina ætlan uttan broytingarsøgu"
    } else if str_eq(en, "Undid") {
        "Angrað"
    } else if str_eq(en, "💾 Save") {
        "💾 Goym"
    } else if str_eq(en, "Save As…") {
        "Goym sum…"
    } else if str_eq(en, "Unsaved changes") {
        "Ógoymdar broytingar"
    } else if str_eq(en, "You have unsaved changes. Save before closing?") {
        "Tú hevur ógoymdar broytingar. Goyma áðrenn tú letur aftur?"
    } else if str_eq(en, "Save") {
        "Goym"
    } else if str_eq(en, "Discard") {
        "Vraka"
    } else if str_eq(en, "Cancel") {
        "Angra"
    } else if str_eq(en, "untitled") {
        "ónevnt"
    } else if str_eq(en, "File is open in another instance.") {
        "Fílan er opin í øðrum tilviki."
    } else {
        en
    }
}

/// The Greek table: the entry for `en`, or `en` itself when there is none.
pub open spec fn greek_text(en: Seq<char>) -> Seq<char> {
    if en == "📊 Overview"@ {
        "📊 Επισκόπηση"@
    } else if en == "👥 Groups"@ {
        "👥 Ομάδες"@
    } else if en == "🧍 Persons"@ {
        "🧍 Άτομα"@
    } else if en == "🏠 Housings"@ {
        "🏠 Καταλύματα"@
    } else if en == "From:"@ {
        "Από:"@
    } else if en == "Days:"@ {
        "Ημέρες:"@
    } else if en == "Zoom:"@ {
        "Ζουμ:"@
    } else if en == "Or Ctrl/Cmd + scroll (pinch on trackpad) over the timeline"@ {
        "Ή Ctrl/Cmd + κύλιση (τσίμπημα στην επιφάνεια αφής) πάνω από τη γραμμή χρόνου"@
    } else if en == "Today"@ {
        "Σήμερα"@
    } else if en == "Fit to stays"@ {
        "Προσαρμογή στις διαμονές"@
    } else if en == "📂 Load…"@ {
        "📂 Άνοιγμα…"@
    } else if en == "ℹ About"@ {
        "ℹ Σχετικά"@
    } else if en == "Language"@ {
        "Γλώσσα"@
    } else if en == "Saved →"@ {
        "Αποθηκεύτηκε →"@
    } else if en == "Loaded ←"@ {
        "Φορτώθηκε ←"@
    } else if en == "Save failed:"@ {
        "Η αποθήκευση απέτυχε:"@
    } else if en == "Encode failed:"@ {
        "Η κωδικοποίηση απέτυχε:"@
    } else if en == "Read failed:"@ {
        "Η ανάγνωση απέτυχε:"@
    } else if en == "Parse failed:"@ {
        "Η ανάλυση απέτυχε:"@
    } else if en == "File save is not available on Android yet."@ {
        "Η αποθήκευση σε αρχείο δεν είναι ακόμη διαθέσιμη στο Android."@
    } else if en == "File load is not available on Android yet."@ {
        "Η φόρτωση από αρχείο δεν είναι ακόμη διαθέσιμη στο Android."@
    } else if en == "Housing Planner plan"@ {
        "Σχέδιο Housing Planner"@
    } else if en == "About / Licenses"@ {
        "Σχετικά / Άδειες"@
    } else if en == "Version"@ {
        "Έκδοση"@
    } else if en == "Plan who stays where, and when."@ {
        "Σχεδιάστε ποιος μένει πού και πότε."@
    } else if en == "📋 Copy dependency licenses"@ {
        "📋 Αντιγραφή αδειών εξαρτήσεων"@
    } else if en == "This application"@ {
        "Αυτή η εφαρμογή"@
    } else if en == "Third-party dependencies"@ {
        "Εξαρτήσεις τρίτων"@
    } else if en == "Welcome to Housing Planner"@ {
        "Καλώς ορίσατε στο Housing Planner"@
    } else if en == "Add housings, groups and people in the tabs above —"@ {
        "Προσθέστε καταλύματα, ομάδες και άτομα στις παραπάνω καρτέλες —"@
    } else if en == "📋 Load example data"@ {
        "📋 Φόρτωση δεδομένων παραδείγματος"@
    } else if en == "Add a housing in the Housings tab to start planning."@ {
        "Προσθέστε ένα κατάλυμα στην καρτέλα Καταλύματα για να ξεκινήσετε τον σχεδιασμό."@
    } else if en == "Group"@ {
        "Ομάδα"@
    } else if en == "Person"@ {
        "Άτομο"@
    } else if en == "Housing"@ {
        "Κατάλυμα"@
    } else if en == "➕ New"@ {
        "➕ Νέο"@
    } else if en == "Stays:"@ {
        "Διαμονές:"@
    } else if en == "Stays (individual):"@ {
        "Διαμονές (ατομικές):"@
    } else if en == "➕ Add stay"@ {
        "➕ Προσθήκη διαμονής"@
    } else if en == "Add a housing and a person/group first."@ {
        "Προσθέστε πρώτα ένα κατάλυμα και ένα άτομο/μια ομάδα."@
    } else if en == "(no stays)"@ {
        "(καμία διαμονή)"@
    } else if en == "(group)"@ {
        "(ομάδα)"@
    } else if en == "No groups yet — add one."@ {
        "Καμία ομάδα ακόμη — προσθέστε μία."@
    } else if en == "🗑 Delete group"@ {
        "🗑 Διαγραφή ομάδας"@
    } else if en == "Members:"@ {
        "Μέλη:"@
    } else if en == "(no members)"@ {
        "(κανένα μέλος)"@
    } else if en == "➕ Add existing…"@ {
        "➕ Προσθήκη υπάρχοντος…"@
    } else if en == "➕ New person"@ {
        "➕ Νέο άτομο"@
    } else if en == "Select or create a group."@ {
        "Επιλέξτε ή δημιουργήστε μια ομάδα."@
    } else if en == "No stays for this group yet."@ {
        "Καμία διαμονή για αυτή την ομάδα ακόμη."@
    } else if en == "No persons yet — add one."@ {
        "Κανένα άτομο ακόμη — προσθέστε ένα."@
    } else if en == "— no group —"@ {
        "— καμία ομάδα —"@
    } else if en == "🗑 Delete person"@ {
        "🗑 Διαγραφή ατόμου"@
    } else if en == "Select or create a person."@ {
        "Επιλέξτε ή δημιουργήστε ένα άτομο."@
    } else if en == "No stays for this person yet."@ {
        "Καμία διαμονή για αυτό το άτομο ακόμη."@
    } else if en == "No housings yet — add one."@ {
        "Κανένα κατάλυμα ακόμη — προσθέστε ένα."@
    } else if en == "Capacity"@ {
        "Χωρητικότητα"@
    } else if en == "Notes:"@ {
        "Σημειώσεις:"@
    } else if en == "🗑 Delete housing"@ {
        "🗑 Διαγραφή καταλύματος"@
    } else if en == "Select or create a housing."@ {
        "Επιλέξτε ή δημιουργήστε ένα κατάλυμα."@
    } else if en == "No stays in this housing yet."@ {
        "Καμία διαμονή σε αυτό το κατάλυμα ακόμη."@
    } else if en == "cap"@ {
        "χωρ."@
    } else if en == "To:"@ {
        "Έως:"@
    } else if en == "Nights:"@ {
        "Νύχτες:"@
    } else if en == "People:"@ {
        "Άτομα:"@
    } else if en == "⚠ Also booked elsewhere at the same time"@ {
        "⚠ Κρατημένο και αλλού την ίδια περίοδο"@
    } else if en == "<deleted person>"@ {
        "<διαγραμμένο άτομο>"@
    } else if en == "<deleted group>"@ {
        "<διαγραμμένη ομάδα>"@
    } else if en == "📜 Changelog"@ {
        "📜 Ιστορικό αλλαγών"@
    } else if en == "↩ Undo last change"@ {
        "↩ Αναίρεση τελευταίας αλλαγής"@
    } else if en == "entries"@ {
        "καταχωρίσεις"@
    } else if en == "No changes yet."@ {
        "Καμία αλλαγή ακόμη."@
    } else if en == "(no group)"@ {
        "(καμία ομάδα)"@
    } else if en == "Created housing"@ {
        "Δημιουργήθηκε κατάλυμα"@
    } else if en == "Deleted housing"@ {
        "Διαγράφηκε κατάλυμα"@
    } else if en == "Renamed housing"@ {
        "Μετονομάστηκε κατάλυμα"@
    } else if en == "Changed capacity of"@ {
        "Αλλαγή χωρητικότητας για"@
    } else if en == "Edited notes of"@ {
        "Επεξεργασία σημειώσεων για"@
    } else if en == "Created group"@ {
        "Δημιουργήθηκε ομάδα"@
    } else if en == "Deleted group"@ {
        "Διαγράφηκε ομάδα"@
    } else if en == "Renamed group"@ {
        "Μετονομάστηκε ομάδα"@
    } else if en == "Changed colour of"@ {
        "Αλλαγή χρώματος για"@
    } else if en == "Added person"@ {
        "Προστέθηκε άτομο"@
    } else if en == "Deleted person"@ {
        "Διαγράφηκε άτομο"@
    } else if en == "Renamed person"@ {
        "Μετονομάστηκε άτομο"@
    } else if en == "Changed group of"@ {
        "Αλλαγή ομάδας για"@
    } else if en == "Added stay"@ {
        "Προστέθηκε διαμονή"@
    } else if en == "Removed stay"@ {
        "Αφαιρέθηκε διαμονή"@
    } else if en == "Moved stay"@ {
        "Μετακινήθηκε διαμονή"@
    } else if en == "Changed occupant of stay"@ {
        "Αλλαγή ενοίκου της διαμονής"@
    } else if en == "Changed dates of stay"@ {
        "Αλλαγή ημερομηνιών της διαμονής"@
    } else if en == "Loaded example data"@ {
        "Φορτώθηκαν δεδομένα παραδείγματος"@
    } else if en == "Loaded plan from file"@ {
        "Φορτώθηκε σχέδιο από αρχείο"@
    } else if en == "Loaded a plan with no change history"@ {
        "Φορτώθηκε σχέδιο χωρίς ιστορικό αλλαγών"@
    } else if en == "Undid"@ {
        "Αναιρέθηκε"@
    } else if en == "💾 Save"@ {
        "💾 Αποθήκευση"@
    } else if en == "Save As…"@ {
        "Αποθήκευση ως…"@
    } else if en == "Unsaved changes"@ {
        "Μη αποθηκευμένες αλλαγές"@
    } else if en == "You have unsaved changes. Save before closing?"@ {
        "Έχετε μη αποθηκευμένες αλλαγές. Αποθήκευση πριν το κλείσιμο;"@
    } else if en == "Save"@ {
        "Αποθήκευση"@
    } else if en == "Discard"@ {
        "Απόρριψη"@
    } else if en == "Cancel"@ {
        "Άκυρο"@
    } else if en == "untitled"@ {
        "χωρίς τίτλο"@
    } else if en == "File is open in another instance."@ {
        "Το αρχείο είναι ανοιχτό σε άλλο στιγμιότυπο."@
    } else {
        en
    }
}

/// Greek translations, keyed by the English source string. Unknown strings
/// fall back to English.
fn el(en: &'static str) -> (r: &'static str)
    ensures
        r@ == greek_text(en@),
{
    if str_eq(en, "📊 Overview") {
        "📊 Επισκόπηση"
    } else if str_eq(en, "👥 Groups") {
        "👥 Ομάδες"
    } else if str_eq(en, "🧍 Persons") {
        "🧍 Άτομα"
    } else if str_eq(en, "🏠 Housings") {
        "🏠 Καταλύματα"
    } else if str_eq(en, "From:") {
        "Από:"
    } else if str_eq(en, "Days:") {
        "Ημέρες:"
    } else if str_eq(en, "Zoom:") {
        "Ζουμ:"
    } else if str_eq(en, "Or Ctrl/Cmd + scroll (pinch on trackpad) over the timeline") {
        "Ή Ctrl/Cmd + κύλιση (τσίμπημα στην επιφάνεια αφής) πάνω από τη γραμμή χρόνου"
    } else if str_eq(en, "Today") {
        "Σήμερα"
    } else if str_eq(en, "Fit to stays") {
        "Προσαρμογή στις διαμονές"
    } else if str_eq(en, "📂 Load…") {
        "📂 Άνοιγμα…"
    } else if str_eq(en, "ℹ About") {
        "ℹ Σχετικά"
    } else if str_eq(en, "Language") {
        "Γλώσσα"
    } else if str_eq(en, "Saved →") {
        "Αποθηκεύτηκε →"
    } else if str_eq(en, "Loaded ←") {
        "Φορτώθηκε ←"
    } else if str_eq(en, "Save failed:") {
        "Η αποθήκευση απέτυχε:"
    } else if str_eq(en, "Encode failed:") {
        "Η κωδικοποίηση απέτυχε:"
    } else if str_eq(en, "Read failed:") {
        "Η ανάγνωση απέτυχε:"
    } else if str_eq(en, "Parse failed:") {
        "Η ανάλυση απέτυχε:"
    } else if str_eq(en, "File save is not available on Android yet.") {
        "Η αποθήκευση σε αρχείο δεν είναι ακόμη διαθέσιμη στο Android."
    } else if str_eq(en, "File load is not available on Android yet.") {
        "Η φόρτωση από αρχείο δεν είναι ακόμη διαθέσιμη στο Android."
    } else if str_eq(en, "Housing Planner plan") {
        "Σχέδιο Housing Planner"
    } else if str_eq(en, "About / Licenses") {
        "Σχετικά / Άδειες"
    } else if str_eq(en, "Version") {
        "Έκδοση"
    } else if str_eq(en, "Plan who stays where, and when.") {
        "Σχεδιάστε ποιος μένει πού και πότε."
    } else if str_eq(en, "📋 Copy dependency licenses") {
        "📋 Αντιγραφή αδειών εξαρτήσεων"
    } else if str_eq(en, "This application") {
        "Αυτή η εφαρμογή"
    } else if str_eq(en, "Third-party dependencies") {
        "Εξαρτήσεις τρίτων"
    } else if str_eq(en, "Welcome to Housing Planner") {
        "Καλώς ορίσατε στο Housing Planner"
    } else if str_eq(en, "Add housings, groups and people in the tabs above —") {
        "Προσθέστε καταλύματα, ομάδες και άτομα στις παραπάνω καρτέλες —"
    } else if str_eq(en, "📋 Load example data") {
        "📋 Φόρτωση δεδομένων παραδείγματος"
    } else if str_eq(en, "Add a housing in the Housings tab to start planning.") {
        "Προσθέστε ένα κατάλυμα στην καρτέλα Καταλύματα για να ξεκινήσετε τον σχεδιασμό."
    } else if str_eq(en, "Group") {
        "Ομάδα"
    } else if str_eq(en, "Person") {
        "Άτομο"
    } else if str_eq(en, "Housing") {
        "Κατάλυμα"
    } else if str_eq(en, "➕ New") {
        "➕ Νέο"
    } else if str_eq(en, "Stays:") {
        "Διαμονές:"
    } else if str_eq(en, "Stays (individual):") {
        "Διαμονές (ατομικές):"
    } else if str_eq(en, "➕ Add stay") {
        "➕ Προσθήκη διαμονής"
    } else if str_eq(en, "Add a housing and a person/group first.") {
        "Προσθέστε πρώτα ένα κατάλυμα και ένα άτομο/μια ομάδα."
    } else if str_eq(en, "(no stays)") {
        "(καμία διαμονή)"
    } else if str_eq(en, "(group)") {
        "(ομάδα)"
    } else if str_eq(en, "No groups yet — add one.") {
        "Καμία ομάδα ακόμη — προσθέστε μία."
    } else if str_eq(en, "🗑 Delete group") {
        "🗑 Διαγραφή ομάδας"
    } else if str_eq(en, "Members:") {
        "Μέλη:"
    } else if str_eq(en, "(no members)") {
        "(κανένα μέλος)"
    } else if str_eq(en, "➕ Add existing…") {
        "➕ Προσθήκη υπάρχοντος…"
    } else if str_eq(en, "➕ New person") {
        "➕ Νέο άτομο"
    } else if str_eq(en, "Select or create a group.") {
        "Επιλέξτε ή δημιουργήστε μια ομάδα."
    } else if str_eq(en, "No stays for this group yet.") {
        "Καμία διαμονή για αυτή την ομάδα ακόμη."
    } else if str_eq(en, "No persons yet — add one.") {
        "Κανένα άτομο ακόμη — προσθέστε ένα."
    } else if str_eq(en, "— no group —") {
        "— καμία ομάδα —"
    } else if str_eq(en, "🗑 Delete person") {
        "🗑 Διαγραφή ατόμου"
    } else if str_eq(en, "Select or create a person.") {
        "Επιλέξτε ή δημιουργήστε ένα άτομο."
    } else if str_eq(en, "No stays for this person yet.") {
        "Καμία διαμονή για αυτό το άτομο ακόμη."
    } else if str_eq(en, "No housings yet — add one.") {
        "Κανένα κατάλυμα ακόμη — προσθέστε ένα."
    } else if str_eq(en, "Capacity") {
        "Χωρητικότητα"
    } else if str_eq(en, "Notes:") {
        "Σημειώσεις:"
    } else if str_eq(en, "🗑 Delete housing") {
        "🗑 Διαγραφή καταλύματος"
    } else if str_eq(en, "Select or create a housing.") {
        "Επιλέξτε ή δημιουργήστε ένα κατάλυμα."
    } else if str_eq(en, "No stays in this housing yet.") {
        "Καμία διαμονή σε αυτό το κατάλυμα ακόμη."
    } else if str_eq(en, "cap") {
        "χωρ."
    } else if str_eq(en, "To:") {
        "Έως:"
    } else if str_eq(en, "Nights:") {
        "Νύχτες:"
    } else if str_eq(en, "People:") {
        "Άτομα:"
    } else if str_eq(en, "⚠ Also booked elsewhere at the same time") {
        "⚠ Κρατημένο και αλλού την ίδια περίοδο"
    } else if str_eq(en, "<deleted person>") {
        "<διαγραμμένο άτομο>"
    } else if str_eq(en, "<deleted group>") {
        "<διαγραμμένη ομάδα>"
    } else if str_eq(en, "📜 Changelog") {
        "📜 Ιστορικό αλλαγών"
    } else if str_eq(en, "↩ Undo last change") {
        "↩ Αναίρεση τελευταίας αλλαγής"
    } else if str_eq(en, "entries") {
        "καταχωρίσεις"
    } else if str_eq(en, "No changes yet.") {
        "Καμία αλλαγή ακόμη."
    } else if str_eq(en, "(no group)") {
        "(καμία ομάδα)"
    } else if str_eq(en, "Created housing") {
        "Δημιουργήθηκε κατάλυμα"
    } else if str_eq(en, "Deleted housing") {
        "Διαγράφηκε κατάλυμα"
    } else if str_eq(en, "Renamed housing") {
        "Μετονομάστηκε κατάλυμα"
    } else if str_eq(en, "Changed capacity of") {
        "Αλλαγή χωρητικότητας για"
    } else if str_eq(en, "Edited notes of") {
        "Επεξεργασία σημειώσεων για"
    } else if str_eq(en, "Created group") {
        "Δημιουργήθηκε ομάδα"
    } else if str_eq(en, "Deleted group") {
        "Διαγράφηκε ομάδα"
    } else if str_eq(en, "Renamed group") {
        "Μετονομάστηκε ομάδα"
    } else if str_eq(en, "Changed colour of") {
        "Αλλαγή χρώματος για"
    } else if str_eq(en, "Added person") {
        "Προστέθηκε άτομο"
    } else if str_eq(en, "Deleted person") {
        "Διαγράφηκε άτομο"
    } else if str_eq(en, "Renamed person") {
        "Μετονομάστηκε άτομο"
    } else if str_eq(en, "Changed group of") {
        "Αλλαγή ομάδας για"
    } else if str_eq(en, "Added stay") {
        "Προστέθηκε διαμονή"
    } else if str_eq(en, "Removed stay") {
        "Αφαιρέθηκε διαμονή"
    } else if str_eq(en, "Moved stay") {
        "Μετακινήθηκε διαμονή"
    } else if str_eq(en, "Changed occupant of stay") {
        "Αλλαγή ενοίκου της διαμονής"
    } else if str_eq(en, "Changed dates of stay") {
        "Αλλαγή ημερομηνιών της διαμονής"
    } else if str_eq(en, "Loaded example data") {
        "Φορτώθηκαν δεδομένα παραδείγματος"
    } else if str_eq(en, "Loaded plan from file") {
        "Φορτώθηκε σχέδιο από αρχείο"
    } else if str_eq(en, "Loaded a plan with no change history") {
        "Φορτώθηκε σχέδιο χωρίς ιστορικό αλλαγών"
    } else if str_eq(en, "Undid") {
        "Αναιρέθηκε"
    } else if str_eq(en, "💾 Save") {
        "💾 Αποθήκευση"
    } else if str_eq(en, "Save As…") {
        "Αποθήκευση ως…"
    } else if str_eq(en, "Unsaved changes") {
        "Μη αποθηκευμένες αλλαγές"
    } else if str_eq(en, "You have unsaved changes. Save before closing?") {
        "Έχετε μη αποθηκευμένες αλλαγές. Αποθήκευση πριν το κλείσιμο;"
    } else if str_eq(en, "Save") {
        "Αποθήκευση"
    } else if str_eq(en, "Discard") {
        "Απόρριψη"
    } else if str_eq(en, "Cancel") {
        "Άκυρο"
    } else if str_eq(en, "untitled") {
        "χωρίς τίτλο"
    } else if str_eq(en, "File is open in another instance.") {
        "Το αρχείο είναι ανοιχτό σε άλλο στιγμιότυπο."
    } else {
        en
    }
}

} // verus!
