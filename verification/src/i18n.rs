//! Internationalization: the interface languages and the translation of
//! catalog keys. English is the default language.

use vstd::prelude::*;

use crate::catalog::{catalog, msg_for_key, text, Msg};
use crate::text::{
    ascii_lower, ascii_lowercase, chars_of, chars_eq, lowercase, replace_all, str_replace, to_lowercase, views,
};

verus! {

/// The interface languages.
#[derive(Debug, Clone, Copy, PartialEq, Eq, Hash, Structural)]
pub enum Language {
    English,
    Chinese,
    Spanish,
    Hindi,
    Arabic,
    Portuguese,
    Russian,
}

impl Default for Language {
    fn default() -> (r: Self)
        ensures
            r == Language::English,
    {
        Language::English
    }
}

pub open spec fn language_code(l: Language) -> Seq<char> {
    match l {
        Language::English => "en"@,
        Language::Chinese => "zh"@,
        Language::Spanish => "es"@,
        Language::Hindi => "hi"@,
        Language::Arabic => "ar"@,
        Language::Portuguese => "pt"@,
        Language::Russian => "ru"@,
    }
}

pub open spec fn language_native_name(l: Language) -> Seq<char> {
    match l {
        Language::English => "English"@,
        Language::Chinese => "中文"@,
        Language::Spanish => "Español"@,
        Language::Hindi => "हिन्दी"@,
        Language::Arabic => "العربية"@,
        Language::Portuguese => "Português"@,
        Language::Russian => "Русский"@,
    }
}

/// The language picked for an already lowercased language code; anything
/// unknown is English.
pub open spec fn language_for_code(c: Seq<char>) -> Language {
    if c == "zh"@ || c == "zh-cn"@ || c == "zh_cn"@ || c == "chinese"@ {
        Language::Chinese
    } else if c == "es"@ || c == "es-es"@ || c == "spanish"@ {
        Language::Spanish
    } else if c == "hi"@ || c == "hi-in"@ || c == "hindi"@ {
        Language::Hindi
    } else if c == "ar"@ || c == "ar-sa"@ || c == "arabic"@ {
        Language::Arabic
    } else if c == "pt"@ || c == "pt-br"@ || c == "pt_br"@ || c == "portuguese"@ {
        Language::Portuguese
    } else if c == "ru"@ || c == "ru-ru"@ || c == "ru_ru"@ || c == "russian"@ {
        Language::Russian
    } else {
        Language::English
    }
}

pub open spec fn all_languages() -> Seq<Language> {
    seq![
        Language::English,
        Language::Chinese,
        Language::Spanish,
        Language::Hindi,
        Language::Arabic,
        Language::Portuguese,
        Language::Russian,
    ]
}

fn is_one_of(c: &Vec<char>, options: &[&str]) -> (r: bool)
    ensures
        r == (exists|i: int| 0 <= i < options@.len() && c@ == (#[trigger] options@[i])@),
{
    let n = options.len();
    for i in 0..n
        invariant
            n == options@.len(),
            forall|j: int| 0 <= j < i ==> c@ != (#[trigger] options@[j])@,
    {
        if chars_eq(c, &chars_of(options[i])) {
            assert(c@ == options@[i as int]@);
            return true;
        }
    }
    false
}

impl Language {
    /// The two-letter code of the language.
    pub fn code(self) -> (r: &'static str)
        ensures
            r@ == language_code(self),
    {
        match self {
            Language::English => "en",
            Language::Chinese => "zh",
            Language::Spanish => "es",
            Language::Hindi => "hi",
            Language::Arabic => "ar",
            Language::Portuguese => "pt",
            Language::Russian => "ru",
        }
    }

    /// The name of the language in the language itself, for the picker.
    pub fn native_name(self) -> (r: &'static str)
        ensures
            r@ == language_native_name(self),
    {
        match self {
            Language::English => "English",
            Language::Chinese => "中文",
            Language::Spanish => "Español",
            Language::Hindi => "हिन्दी",
            Language::Arabic => "العربية",
            Language::Portuguese => "Português",
            Language::Russian => "Русский",
        }
    }

    /// Every supported language, English first.
    pub fn all() -> (r: Vec<Language>)
        ensures
            r@ == all_languages(),
    {
        vec![
            Language::English,
            Language::Chinese,
            Language::Spanish,
            Language::Hindi,
            Language::Arabic,
            Language::Portuguese,
            Language::Russian,
        ]
    }

    /// The language named by a code, case-insensitively; unknown codes give
    /// English.
    pub fn from_code(code: &str) -> (r: Language)
        ensures
            r == language_for_code(lowercase(code@)),
            vstd::utf8::is_ascii_chars(code@) ==> r == language_for_code(ascii_lowercase(code@)),
    {
        let lower = to_lowercase(code);
        let c = chars_of(lower.as_str());
        if is_one_of(&c, &["zh", "zh-cn", "zh_cn", "chinese"]) {
            Language::Chinese
        } else if is_one_of(&c, &["es", "es-es", "spanish"]) {
            Language::Spanish
        } else if is_one_of(&c, &["hi", "hi-in", "hindi"]) {
            Language::Hindi
        } else if is_one_of(&c, &["ar", "ar-sa", "arabic"]) {
            Language::Arabic
        } else if is_one_of(&c, &["pt", "pt-br", "pt_br", "portuguese"]) {
            Language::Portuguese
        } else if is_one_of(&c, &["ru", "ru-ru", "ru_ru", "russian"]) {
            Language::Russian
        } else {
            Language::English
        }
    }
}

/// The translation of a catalog key: its text in the language, or the key
/// itself when the catalog has no such key.
pub open spec fn translate(lang: Language, key: Seq<char>) -> Seq<char> {
    match msg_for_key(key) {
        Some(m) => catalog(lang, m),
        None => key,
    }
}

/// The placeholder `{name}` of a template argument.
pub open spec fn placeholder(name: Seq<char>) -> Seq<char> {
    seq!['{'] + name + seq!['}']
}

/// A template with each `{name}` replaced by its value, arguments applied in
/// order.
pub open spec fn fill(s: Seq<char>, args: Seq<(Seq<char>, Seq<char>)>) -> Seq<char>
    decreases args.len(),
{
    if args.len() == 0 {
        s
    } else {
        let a = args.last();
        replace_all(fill(s, args.drop_last()), placeholder(a.0), a.1)
    }
}

pub open spec fn arg_views(args: Seq<(&str, &str)>) -> Seq<(Seq<char>, Seq<char>)> {
    args.map_values(|a: (&str, &str)| (a.0@, a.1@))
}

/// Translates a catalog key into the given language.
pub fn t(lang: Language, key: &str) -> (r: String)
    ensures
        r@ == translate(lang, key@),
{
    match Msg::from_key(key) {
        Some(m) => crate::text::copy_string(text(lang, m)),
        None => crate::text::copy_string(key),
    }
}

/// The text of a message, owned.
pub fn message(lang: Language, m: Msg) -> (r: String)
    ensures
        r@ == catalog(lang, m),
{
    crate::text::copy_string(text(lang, m))
}

/// Fills the placeholders of a template with the arguments, in order.
pub fn fill_template(template: String, args: &[(&str, &str)]) -> (r: String)
    ensures
        r@ == fill(template@, arg_views(args@)),
{
    let mut s = template;
    let n = args.len();
    for i in 0..n
        invariant
            n == args@.len(),
            s@ == fill(template@, arg_views(args@).take(i as int)),
    {
        let (k, v) = args[i];
        let mut pattern = String::new();
        crate::text::push_char(&mut pattern, '{');
        pattern.append(k);
        crate::text::push_char(&mut pattern, '}');
        assert(pattern@ =~= placeholder(k@));
        let next = str_replace(s.as_str(), pattern.as_str(), v);
        s = next;
        assert(arg_views(args@).take(i + 1).drop_last() =~= arg_views(args@).take(i as int));
        assert(arg_views(args@).take(i + 1).last() == (k@, v@));
    }
    assert(arg_views(args@).take(n as int) =~= arg_views(args@));
    s
}

/// Translates a catalog key and fills the placeholders of the text.
pub fn tf(lang: Language, key: &str, args: &[(&str, &str)]) -> (r: String)
    ensures
        r@ == fill(translate(lang, key@), arg_views(args@)),
{
    fill_template(t(lang, key), args)
}

/// A message of the catalog with its placeholders filled.
pub fn message_with(lang: Language, m: Msg, args: &[(&str, &str)]) -> (r: String)
    ensures
        r@ == fill(catalog(lang, m), arg_views(args@)),
{
    fill_template(message(lang, m), args)
}

// ---------------------------------------------------------------------------
// The language in use. The application holds one setting for the whole
// process and passes it here; the functions below read and change it.
// ---------------------------------------------------------------------------

/// Sets the language at start-up.
pub fn init(setting: &mut Language, lang: Language)
    ensures
        *final(setting) == lang,
{
    *setting = lang;
}

/// The language in use.
pub fn current(setting: &Language) -> (r: Language)
    ensures
        r == *setting,
{
    *setting
}

/// Changes the language in use.
pub fn set_language(setting: &mut Language, lang: Language)
    ensures
        *final(setting) == lang,
{
    init(setting, lang);
}

// ---------------------------------------------------------------------------
// Laws.
// ---------------------------------------------------------------------------

/// Two texts that differ at a position are different.
proof fn lemma_differs_at(a: Seq<char>, b: Seq<char>, i: int)
    requires
        0 <= i < a.len(),
        i < b.len(),
        a[i] != b[i],
    ensures
        a != b,
{
}

/// Case does not matter in an ASCII code: its lowercase form is ASCII and
/// names the same language as the code itself.
pub proof fn lemma_from_code_ignores_case(code: Seq<char>)
    requires
        vstd::utf8::is_ascii_chars(code),
    ensures
        vstd::utf8::is_ascii_chars(ascii_lowercase(code)),
        language_for_code(ascii_lowercase(ascii_lowercase(code))) == language_for_code(
            ascii_lowercase(code),
        ),
{
    let l = ascii_lowercase(code);
    assert(ascii_lowercase(l) =~= l);
}

/// Every language is found again from its own code: the code is ASCII and
/// names that language once lowercased.
pub proof fn lemma_code_round_trip(l: Language)
    ensures
        vstd::utf8::is_ascii_chars(language_code(l)),
        language_for_code(ascii_lowercase(language_code(l))) == l,
{
    reveal_strlit("en");
    reveal_strlit("zh");
    reveal_strlit("es");
    reveal_strlit("hi");
    reveal_strlit("ar");
    reveal_strlit("pt");
    reveal_strlit("ru");
    reveal_strlit("zh-cn");
    reveal_strlit("zh_cn");
    reveal_strlit("chinese");
    reveal_strlit("es-es");
    reveal_strlit("spanish");
    reveal_strlit("hi-in");
    reveal_strlit("hindi");
    reveal_strlit("ar-sa");
    reveal_strlit("arabic");
    reveal_strlit("pt-br");
    reveal_strlit("pt_br");
    reveal_strlit("portuguese");
    reveal_strlit("ru-ru");
    reveal_strlit("ru_ru");
    reveal_strlit("russian");
    let code = language_code(l);
    assert(ascii_lowercase(code) =~= code);
    match l {
        Language::English => {
            lemma_differs_at(code, "zh"@, 0);
            lemma_differs_at(code, "es"@, 1);
            lemma_differs_at(code, "hi"@, 0);
            lemma_differs_at(code, "ar"@, 0);
            lemma_differs_at(code, "pt"@, 0);
            lemma_differs_at(code, "ru"@, 0);
        },
        Language::Chinese => {

        },
        Language::Spanish => {
            lemma_differs_at(code, "zh"@, 0);
        },
        Language::Hindi => {
            lemma_differs_at(code, "zh"@, 0);
            lemma_differs_at(code, "es"@, 0);
        },
        Language::Arabic => {
            lemma_differs_at(code, "zh"@, 0);
            lemma_differs_at(code, "es"@, 0);
            lemma_differs_at(code, "hi"@, 0);
        },
        Language::Portuguese => {
            lemma_differs_at(code, "zh"@, 0);
            lemma_differs_at(code, "es"@, 0);
            lemma_differs_at(code, "hi"@, 0);
            lemma_differs_at(code, "ar"@, 0);
        },
        Language::Russian => {
            lemma_differs_at(code, "zh"@, 0);
            lemma_differs_at(code, "es"@, 0);
            lemma_differs_at(code, "hi"@, 0);
            lemma_differs_at(code, "ar"@, 0);
            lemma_differs_at(code, "pt"@, 0);
        },
    }
}

/// A key the catalog does not know is shown as the key itself, in every
/// language.
pub proof fn lemma_unknown_key(lang: Language, key: Seq<char>)
    requires
        msg_for_key(key) is None,
    ensures
        translate(lang, key) == key,
{
}

/// Filling a template with no arguments leaves the translation unchanged.
pub proof fn lemma_tf_without_args(lang: Language, key: Seq<char>)
    ensures
        fill(translate(lang, key), Seq::empty()) == translate(lang, key),
{
}

} // verus!
