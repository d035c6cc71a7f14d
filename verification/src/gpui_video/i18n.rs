//! The texts of the controls, in two languages.

use crate::text::{folds_to, starts_folded};
use vstd::prelude::*;
use vstd::string::StrSliceExecFns;

verus! {

/// The languages.
#[derive(Debug, Clone, Copy, PartialEq, Eq, Hash, Structural)]
pub enum Lang {
    /// Chinese.
    Zh,
    /// English.
    En,
}

/// The character ends the name of the language in the name of a locale.
pub open spec fn ends_language(c: char) -> bool {
    c == '.' || c == '_' || c == '-'
}

/// `n` is the length of the language at the front of the name of a locale.
pub open spec fn language_len(locale: Seq<char>, n: int) -> bool {
    &&& 0 <= n <= locale.len()
    &&& forall|i: int| 0 <= i < n ==> !ends_language(#[trigger] locale[i])
    &&& n < locale.len() ==> ends_language(locale[n])
}

/// The language that the name of a locale decides on; nothing where it names no language.
pub open spec fn names_lang(locale: Seq<char>, lang: Option<Lang>) -> bool {
    exists|n: int|
        {
            &&& #[trigger] language_len(locale, n)
            &&& lang == (if n == 0 {
                None
            } else if n >= 2 && folds_to(locale.take(2), "en"@) {
                Some(Lang::En)
            } else {
                Some(Lang::Zh)
            })
        }
}

/// The language that the name of a locale decides on: English where the language begins with `en`,
/// Chinese where it is any other one, and nothing where the name begins without a language.
pub fn lang_of(locale: &str) -> (r: Option<Lang>)
    ensures
        names_lang(locale@, r),
{
    let len: usize = locale.unicode_len();
    let mut n: usize = 0;
    let mut open = true;
    while n < len && open
        invariant
            n <= len,
            len == locale@.len(),
            forall|i: int| 0 <= i < n ==> !ends_language(#[trigger] locale@[i]),
            !open ==> n < len && ends_language(locale@[n as int]),
        decreases len - n + (if open { 1int } else { 0 }),
    {
        let c: char = locale.get_char(n);
        if c == '.' || c == '_' || c == '-' {
            open = false;
        } else {
            n = n + 1;
        }
    }
    assert(language_len(locale@, n as int));
    proof {
        reveal_strlit("en");
    }
    if n == 0 {
        None
    } else if n >= 2 && starts_folded(locale, "en") {
        Some(Lang::En)
    } else {
        Some(Lang::Zh)
    }
}

impl Lang {
    /// The other language.
    pub open spec fn other(self) -> Lang {
        match self {
            Lang::Zh => Lang::En,
            Lang::En => Lang::Zh,
        }
    }

    /// The language after this one.
    pub fn cycle(self) -> (r: Lang)
        ensures
            r == self.other(),
    {
        match self {
            Lang::Zh => Lang::En,
            Lang::En => Lang::Zh,
        }
    }

    /// What the language calls itself.
    pub fn label(self) -> (r: &'static str)
        ensures
            r@ == (match self {
                Lang::Zh => "中文"@,
                Lang::En => "English"@,
            }),
    {
        match self {
            Lang::Zh => "中文",
            Lang::En => "English",
        }
    }

    /// The language of the system. `vars` holds the values of the variables that name the locale,
    /// in the order of their weight, as far as they are set: the first one that names a language
    /// decides; where none does, it is Chinese.
    pub fn detect(vars: &Vec<Option<String>>) -> (r: Lang)
        ensures
            (forall|i: int|
                0 <= i < vars@.len() ==> ((#[trigger] vars@[i]) matches Some(v) ==> names_lang(
                    v@,
                    None,
                ))) && r == Lang::Zh || exists|k: int|
                {
                    &&& 0 <= k < vars@.len()
                    &&& (#[trigger] vars@[k]) matches Some(v)
                    &&& names_lang(v@, Some(r))
                    &&& forall|i: int|
                        0 <= i < k ==> ((#[trigger] vars@[i]) matches Some(w) ==> names_lang(
                            w@,
                            None,
                        ))
                },
    {
        let mut i: usize = 0;
        while i < vars.len()
            invariant
                i <= vars@.len(),
                forall|j: int|
                    0 <= j < i ==> ((#[trigger] vars@[j]) matches Some(v) ==> names_lang(v@, None)),
            decreases vars@.len() - i,
        {
            match &vars[i] {
                Some(v) => {
                    match lang_of(v.as_str()) {
                        Some(lang) => {
                            assert(vars@[i as int] matches Some(w) && names_lang(w@, Some(lang)));
                            return lang;
                        },
                        None => {},
                    }
                },
                None => {},
            }
            i = i + 1;
        }
        Lang::Zh
    }
}

/// The texts that are translated.
#[derive(Debug, Clone, Copy, PartialEq, Eq, Hash, Structural)]
pub enum StrKey {
    /// The menu item for the speed.
    Speed,
    /// The menu item for the information panel.
    Info,
    /// The menu item for the length of a step.
    Step,
    /// The menu item for the language.
    Language,
    /// The size of the picture, in the information panel.
    Resolution,
    /// The frames per second, in the information panel.
    Fps,
}

/// The text for `key` in the given language.
pub open spec fn translated(lang: Lang, key: StrKey) -> Seq<char> {
    match lang {
        Lang::Zh => match key {
            StrKey::Speed => "倍速"@,
            StrKey::Info => "info"@,
            StrKey::Step => "步长"@,
            StrKey::Language => "语言"@,
            StrKey::Resolution => "分辨率"@,
            StrKey::Fps => "帧率"@,
        },
        Lang::En => match key {
            StrKey::Speed => "Speed"@,
            StrKey::Info => "Info"@,
            StrKey::Step => "Step"@,
            StrKey::Language => "Language"@,
            StrKey::Resolution => "Resolution"@,
            StrKey::Fps => "FPS"@,
        },
    }
}

/// The texts in the language of the user.
#[derive(Debug, Clone, Copy, PartialEq, Eq, Structural)]
pub struct I18n {
    pub lang: Lang,
}

impl I18n {
    /// The texts in the given language.
    pub fn new(lang: Lang) -> (r: I18n)
        ensures
            r.lang == lang,
    {
        I18n { lang }
    }

    /// The language.
    pub fn lang(&self) -> (r: Lang)
        ensures
            r == self.lang,
    {
        self.lang
    }

    /// Sets the language.
    pub fn set_lang(&mut self, lang: Lang)
        ensures
            final(self).lang == lang,
    {
        self.lang = lang;
    }

    /// Goes on to the next language.
    pub fn cycle(&mut self)
        ensures
            final(self).lang == old(self).lang.other(),
    {
        self.lang = self.lang.cycle();
    }

    /// The text for `key`.
    pub fn get(&self, key: StrKey) -> (r: &'static str)
        ensures
            r@ == translated(self.lang, key),
    {
        match self.lang {
            Lang::Zh => match key {
                StrKey::Speed => "倍速",
                StrKey::Info => "info",
                StrKey::Step => "步长",
                StrKey::Language => "语言",
                StrKey::Resolution => "分辨率",
                StrKey::Fps => "帧率",
            },
            Lang::En => match key {
                StrKey::Speed => "Speed",
                StrKey::Info => "Info",
                StrKey::Step => "Step",
                StrKey::Language => "Language",
                StrKey::Resolution => "Resolution",
                StrKey::Fps => "FPS",
            },
        }
    }
}

/// Going through the languages leads back to the first one, and never skips one.
pub proof fn law_languages_come_around(lang: Lang)
    ensures
        lang.other() != lang,
        lang.other().other() == lang,
{
}

/// The name of a locale decides on at most one language.
pub proof fn law_locale_is_unambiguous(locale: Seq<char>, a: Option<Lang>, b: Option<Lang>)
    requires
        names_lang(locale, a),
        names_lang(locale, b),
    ensures
        a == b,
{
    let n = choose|n: int|
        {
            &&& #[trigger] language_len(locale, n)
            &&& a == (if n == 0 {
                None
            } else if n >= 2 && folds_to(locale.take(2), "en"@) {
                Some(Lang::En)
            } else {
                Some(Lang::Zh)
            })
        };
    let m = choose|m: int|
        {
            &&& #[trigger] language_len(locale, m)
            &&& b == (if m == 0 {
                None
            } else if m >= 2 && folds_to(locale.take(2), "en"@) {
                Some(Lang::En)
            } else {
                Some(Lang::Zh)
            })
        };
    if n < m {
        assert(!ends_language(locale[n]));
    }
    if m < n {
        assert(!ends_language(locale[m]));
    }
}

/// The name of a locale that begins with the two letters of English, capital or small, names English;
/// any other name that begins with a language names Chinese; one that is empty, or begins with one of
/// the characters that end a language, names none.
pub proof fn law_locale_names_its_language(locale: Seq<char>, lang: Option<Lang>)
    requires
        names_lang(locale, lang),
    ensures
        locale.len() >= 2 && (locale[0] == 'e' || locale[0] == 'E') && (locale[1] == 'n'
            || locale[1] == 'N') ==> lang == Some(Lang::En),
        locale.len() == 0 || locale[0] == '.' || locale[0] == '_' || locale[0] == '-' ==> lang
            is None,
        locale.len() == 1 && locale[0] != '.' && locale[0] != '_' && locale[0] != '-' ==> lang
            == Some(Lang::Zh),
        locale.len() >= 2 && locale[0] != '.' && locale[0] != '_' && locale[0] != '-' && !((locale[0]
            == 'e' || locale[0] == 'E') && (locale[1] == 'n' || locale[1] == 'N')) ==> lang == Some(
            Lang::Zh,
        ),
{
    reveal_strlit("en");
    let n = choose|n: int|
        {
            &&& #[trigger] language_len(locale, n)
            &&& lang == (if n == 0 {
                None
            } else if n >= 2 && folds_to(locale.take(2), "en"@) {
                Some(Lang::En)
            } else {
                Some(Lang::Zh)
            })
        };
    if locale.len() >= 2 {
        let head = locale.take(2);
        assert(head[0] == locale[0] && head[1] == locale[1]);
        if folds_to(head, "en"@) {
            assert(crate::text::folded(head[0]) == "en"@[0] as int);
            assert(crate::text::folded(head[1]) == "en"@[1] as int);
        }
    }
    if n > 0 {
        assert(!ends_language(locale[0]));
    }
    if n > 1 {
        assert(!ends_language(locale[1]));
    }
}

/// The English texts, letter by letter.
pub proof fn law_english_texts()
    ensures
        translated(Lang::En, StrKey::Speed) == seq!['S', 'p', 'e', 'e', 'd'],
        translated(Lang::En, StrKey::Info) == seq!['I', 'n', 'f', 'o'],
        translated(Lang::En, StrKey::Step) == seq!['S', 't', 'e', 'p'],
        translated(Lang::En, StrKey::Language) == seq!['L', 'a', 'n', 'g', 'u', 'a', 'g', 'e'],
        translated(Lang::En, StrKey::Resolution) == seq![
            'R',
            'e',
            's',
            'o',
            'l',
            'u',
            't',
            'i',
            'o',
            'n',
        ],
        translated(Lang::En, StrKey::Fps) == seq!['F', 'P', 'S'],
{
    reveal_strlit("Speed");
    reveal_strlit("Info");
    reveal_strlit("Step");
    reveal_strlit("Language");
    reveal_strlit("Resolution");
    reveal_strlit("FPS");
    assert(translated(Lang::En, StrKey::Speed) =~= seq!['S', 'p', 'e', 'e', 'd']);
    assert(translated(Lang::En, StrKey::Info) =~= seq!['I', 'n', 'f', 'o']);
    assert(translated(Lang::En, StrKey::Step) =~= seq!['S', 't', 'e', 'p']);
    assert(translated(Lang::En, StrKey::Language) =~= seq!['L', 'a', 'n', 'g', 'u', 'a', 'g', 'e']);
    assert(translated(Lang::En, StrKey::Resolution) =~= seq![
        'R',
        'e',
        's',
        'o',
        'l',
        'u',
        't',
        'i',
        'o',
        'n',
    ]);
    assert(translated(Lang::En, StrKey::Fps) =~= seq!['F', 'P', 'S']);
}

/// The Chinese texts, character by character.
pub proof fn law_chinese_texts()
    ensures
        translated(Lang::Zh, StrKey::Speed) == seq!['倍', '速'],
        translated(Lang::Zh, StrKey::Info) == seq!['i', 'n', 'f', 'o'],
        translated(Lang::Zh, StrKey::Step) == seq!['步', '长'],
        translated(Lang::Zh, StrKey::Language) == seq!['语', '言'],
        translated(Lang::Zh, StrKey::Resolution) == seq!['分', '辨', '率'],
        translated(Lang::Zh, StrKey::Fps) == seq!['帧', '率'],
{
    reveal_strlit("倍速");
    reveal_strlit("info");
    reveal_strlit("步长");
    reveal_strlit("语言");
    reveal_strlit("分辨率");
    reveal_strlit("帧率");
    assert(translated(Lang::Zh, StrKey::Speed) =~= seq!['倍', '速']);
    assert(translated(Lang::Zh, StrKey::Info) =~= seq!['i', 'n', 'f', 'o']);
    assert(translated(Lang::Zh, StrKey::Step) =~= seq!['步', '长']);
    assert(translated(Lang::Zh, StrKey::Language) =~= seq!['语', '言']);
    assert(translated(Lang::Zh, StrKey::Resolution) =~= seq!['分', '辨', '率']);
    assert(translated(Lang::Zh, StrKey::Fps) =~= seq!['帧', '率']);
}

} // verus!
