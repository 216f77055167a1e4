use vstd::prelude::*;
use vstd::string::StringExecFns;

use crate::paths::{join_path, joined_path};

verus! {

/// The text with every match of `pat` replaced by `rep`, matches taken from the left
/// without overlap.
pub open spec fn replace_all(s: Seq<char>, pat: Seq<char>, rep: Seq<char>) -> Seq<char>
    decreases s.len(),
{
    if pat.len() == 0 || s.len() < pat.len() {
        s
    } else if s.subrange(0, pat.len() as int) == pat {
        rep + replace_all(s.subrange(pat.len() as int, s.len() as int), pat, rep)
    } else {
        seq![s[0]] + replace_all(s.subrange(1, s.len() as int), pat, rep)
    }
}

/// The lowercase form that `str::to_lowercase` gives.
pub uninterp spec fn lower_of(s: Seq<char>) -> Seq<char>;

/// Relies on `str::replace`: every match of `pat`, taken from the left without overlap,
/// replaced by `rep`.
#[verifier::external_body]
fn replace_text(s: &str, pat: &str, rep: &str) -> (r: String)
    requires
        pat@.len() > 0,
    ensures
        r@ == replace_all(s@, pat@, rep@),
{
    s.replace(pat, rep)
}

/// Relies on `str::to_lowercase`: the result depends on the characters alone.
#[verifier::external_body]
fn lowercase(s: &str) -> (r: String)
    ensures
        r@ == lower_of(s@),
{
    s.to_lowercase()
}

/// A language code, such as `en`.
#[derive(Clone, Debug)]
pub struct Language(pub String);

impl Language {
    pub fn new(code: &str) -> (l: Language)
        ensures
            l.0@ == code@,
    {
        Language(String::from_str(code))
    }

    pub fn en() -> (l: Language)
        ensures
            l.0@ == "en"@,
    {
        Language::new("en")
    }

    pub fn de() -> (l: Language)
        ensures
            l.0@ == "de"@,
    {
        Language::new("de")
    }

    pub fn it() -> (l: Language)
        ensures
            l.0@ == "it"@,
    {
        Language::new("it")
    }

    pub fn fr() -> (l: Language)
        ensures
            l.0@ == "fr"@,
    {
        Language::new("fr")
    }
}

/// A translation executed by the server.
#[derive(Clone, Debug)]
pub struct Translation {
    /// the translated content in `dest_lang`
    pub content: String,
    /// the source language where one was given; `None` where it was detected
    pub src_lang: Option<Language>,
    /// the language translated to
    pub dest_lang: Language,
}

/// The package of the server's translator classes.
pub const TRANSLATOR_PACKAGE: &'static str = "org.apache.tika.language.translate.";

/// The translators the server offers.
#[derive(Clone, Debug)]
pub enum Translator {
    Lingo24,
    Google,
    Yandex,
    /// another translator, named by its full class name, like
    /// `org.apache.tika.language.translate.MicrosoftTranslator`
    Other(String),
}

/// The full class name of a translator.
pub open spec fn class_name(t: Translator) -> Seq<char> {
    match t {
        Translator::Lingo24 => "org.apache.tika.language.translate.Lingo24Translator"@,
        Translator::Google => "org.apache.tika.language.translate.GoogleTranslator"@,
        Translator::Yandex => "org.apache.tika.language.translate.YandexTranslator"@,
        Translator::Other(s) => s@,
    }
}

/// The identifier of an `Other` translator's class name, once lowercased: the name
/// without the word `translator`.
pub open spec fn id_of_lowered(lowered: Seq<char>) -> Seq<char> {
    replace_all(lowered, "translator"@, ""@)
}

/// The identifier of a translator: its lowercase class name without package and without
/// `translator`.
pub open spec fn translator_id(t: Translator) -> Seq<char> {
    match t {
        Translator::Lingo24 => "lingo24"@,
        Translator::Google => "google"@,
        Translator::Yandex => "yandex"@,
        Translator::Other(s) => id_of_lowered(
            lower_of(replace_all(s@, TRANSLATOR_PACKAGE@, ""@)),
        ),
    }
}

/// The name of a translator's key in its property file.
pub open spec fn property_key_of(t: Translator) -> Seq<char> {
    match t {
        Translator::Lingo24 => "user-key"@,
        Translator::Google => "client-secret"@,
        Translator::Yandex => "api-key"@,
        Translator::Other(_) => "user-key"@,
    }
}

impl Translator {
    /// A translator named by its full class name.
    pub fn other(jvm_pkg_name: &str) -> (t: Translator)
        ensures
            t is Other,
            t->Other_0@ == jvm_pkg_name@,
    {
        Translator::Other(String::from_str(jvm_pkg_name))
    }

    /// The full class name of the translator.
    pub fn as_str(&self) -> (s: &str)
        ensures
            s@ == class_name(*self),
    {
        match self {
            Translator::Lingo24 => "org.apache.tika.language.translate.Lingo24Translator",
            Translator::Other(s) => s.as_str(),
            Translator::Google => "org.apache.tika.language.translate.GoogleTranslator",
            Translator::Yandex => "org.apache.tika.language.translate.YandexTranslator",
        }
    }

    /// The identifier taken from a class name that has been stripped of its package and
    /// lowercased.
    pub fn id_from_lowered(lowered: &str) -> (s: String)
        ensures
            s@ == id_of_lowered(lowered@),
    {
        proof {
            reveal_strlit("translator");
        }
        replace_text(lowered, "translator", "")
    }

    /// Unique identifier: the lowercase class name without package and `translator`.
    pub fn id(&self) -> (s: String)
        ensures
            s@ == translator_id(*self),
    {
        match self {
            Translator::Lingo24 => String::from_str("lingo24"),
            Translator::Other(s) => {
                proof {
                    reveal_strlit("org.apache.tika.language.translate.");
                }
                let stripped = replace_text(s.as_str(), TRANSLATOR_PACKAGE, "");
                let lowered = lowercase(stripped.as_str());
                Translator::id_from_lowered(lowered.as_str())
            },
            Translator::Google => String::from_str("google"),
            Translator::Yandex => String::from_str("yandex"),
        }
    }

    /// The name of the translator's key in its property file.
    pub fn property_key(&self) -> (s: &str)
        ensures
            s@ == property_key_of(*self),
    {
        match self {
            Translator::Lingo24 => "user-key",
            Translator::Other(_) => "user-key",
            Translator::Google => "client-secret",
            Translator::Yandex => "api-key",
        }
    }
}

impl Default for Translator {
    fn default() -> (t: Translator)
        ensures
            t is Lingo24,
    {
        Translator::Lingo24
    }
}

/// A translator with the API key of its translation service.
#[derive(Clone, Debug)]
pub struct TranslatorKey {
    pub translator: Translator,
    /// API key of the translation service
    pub api_key: String,
}

/// The line of a translator's property file: `translator.<key>=<api key>`.
pub open spec fn property_entry_of(k: TranslatorKey) -> Seq<char> {
    "translator."@ + property_key_of(k.translator) + "="@ + k.api_key@
}

impl TranslatorKey {
    /// The entry of the property file: the translator's key name and the API key.
    pub fn property_entry(&self) -> (s: String)
        ensures
            s@ == property_entry_of(*self),
    {
        String::from_str("translator.")
            .concat(self.translator.property_key())
            .concat("=")
            .concat(self.api_key.as_str())
    }

    pub fn google(api_key: &str) -> (k: TranslatorKey)
        ensures
            k.translator is Google,
            k.api_key@ == api_key@,
    {
        TranslatorKey { translator: Translator::Google, api_key: String::from_str(api_key) }
    }

    pub fn lingo24(api_key: &str) -> (k: TranslatorKey)
        ensures
            k.translator is Lingo24,
            k.api_key@ == api_key@,
    {
        TranslatorKey { translator: Translator::Lingo24, api_key: String::from_str(api_key) }
    }

    pub fn yandex(api_key: &str) -> (k: TranslatorKey)
        ensures
            k.translator is Yandex,
            k.api_key@ == api_key@,
    {
        TranslatorKey { translator: Translator::Yandex, api_key: String::from_str(api_key) }
    }
}

/// A property file to write: its path and its content.
#[derive(Clone, Debug)]
pub struct PropertyFile {
    pub path: String,
    pub content: String,
}

/// Where the translator property files live, and what must be created for them.
#[derive(Clone, Debug)]
pub struct PropertyLayout {
    /// the directory to hand to the server
    pub root: String,
    /// a directory to create, with its parents, before the files are written
    pub create_dir: Option<String>,
    /// the files to write into `create_dir`
    pub files: Vec<PropertyFile>,
}

/// How the API keys of translators reach the server.
#[derive(Clone, Debug)]
pub enum TranslatorProperties {
    /// a directory where the property files already are
    Dir(String),
    /// keys whose property files are written on demand
    Keys(Vec<TranslatorKey>),
}

/// The root of the written property files under the storage directory.
pub open spec fn keys_root(tika_path: Seq<char>) -> Seq<char> {
    joined_path(tika_path, "language-keys"@)
}

/// The directory of the written property files, below their root.
pub open spec fn keys_dir(tika_path: Seq<char>) -> Seq<char> {
    joined_path(keys_root(tika_path), "org/apache/tika/language/translate"@)
}

/// The path of the property file of a translator.
pub open spec fn property_file_path(dir: Seq<char>, t: Translator) -> Seq<char> {
    joined_path(dir, "translator."@ + translator_id(t) + ".properties"@)
}

impl TranslatorProperties {
    /// The folder where the property files are, with the directory and files to create
    /// first where only keys were given.
    pub fn property_layout(&self, tika_path: &str) -> (l: PropertyLayout)
        ensures
            match *self {
                TranslatorProperties::Dir(dir) => {
                    &&& l.root@ == dir@
                    &&& l.create_dir is None
                    &&& l.files@.len() == 0
                },
                TranslatorProperties::Keys(keys) => {
                    &&& l.root@ == keys_root(tika_path@)
                    &&& l.create_dir is Some
                    &&& l.create_dir->0@ == keys_dir(tika_path@)
                    &&& l.files@.len() == keys@.len()
                    &&& forall|i: int|
                        0 <= i < keys@.len() ==> {
                            &&& (#[trigger] l.files@[i]).path@ == property_file_path(
                                keys_dir(tika_path@),
                                keys@[i].translator,
                            )
                            &&& l.files@[i].content@ == property_entry_of(keys@[i])
                        }
                },
            },
    {
        match self {
            TranslatorProperties::Dir(dir) => PropertyLayout {
                root: dir.clone(),
                create_dir: None,
                files: Vec::new(),
            },
            TranslatorProperties::Keys(keys) => {
                let root = join_path(tika_path, "language-keys");
                let dir = join_path(root.as_str(), "org/apache/tika/language/translate");
                let mut files: Vec<PropertyFile> = Vec::new();
                let mut i: usize = 0;
                while i < keys.len()
                    invariant
                        i <= keys@.len(),
                        dir@ == keys_dir(tika_path@),
                        files@.len() == i,
                        forall|j: int|
                            0 <= j < i ==> {
                                &&& (#[trigger] files@[j]).path@ == property_file_path(
                                    dir@,
                                    keys@[j].translator,
                                )
                                &&& files@[j].content@ == property_entry_of(keys@[j])
                            },
                    decreases keys@.len() - i,
                {
                    let key = &keys[i];
                    let name = String::from_str("translator.")
                        .concat(key.translator.id().as_str())
                        .concat(".properties");
                    let path = join_path(dir.as_str(), name.as_str());
                    files.push(PropertyFile { path, content: key.property_entry() });
                    i = i + 1;
                }
                PropertyLayout { root, create_dir: Some(dir), files }
            },
        }
    }
}

} // verus!
