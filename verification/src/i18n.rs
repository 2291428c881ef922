//! Translations with a fallback to English.
use vstd::prelude::*;

use crate::text::string_views;

verus! {

/// One translated text: the locale, the key and the text.
#[derive(Debug, Clone)]
pub struct Translation {
    pub locale: String,
    pub key: String,
    pub value: String,
}

/// A translation as plain values.
pub type TranslationView = (Seq<char>, Seq<char>, Seq<char>);

/// The plain values of a translation.
pub open spec fn translation_view(t: Translation) -> TranslationView {
    (t.locale@, t.key@, t.value@)
}

/// The first text in `table` for `locale` and `key`.
pub open spec fn lookup(table: Seq<TranslationView>, locale: Seq<char>, key: Seq<char>) -> Option<
    Seq<char>,
>
    decreases table.len(),
{
    if table.len() == 0 {
        None
    } else if table[0].0 == locale && table[0].1 == key {
        Some(table[0].2)
    } else {
        lookup(table.subrange(1, table.len() as int), locale, key)
    }
}

/// The text for `key` in `locale`, or else its English text.
pub open spec fn translate_spec(table: Seq<TranslationView>, locale: Seq<char>, key: Seq<char>) -> Option<
    Seq<char>,
> {
    match lookup(table, locale, key) {
        Some(v) => Some(v),
        None => lookup(table, "en"@, key),
    }
}

/// Some translation in the first `n` entries of `table` is for `locale`.
pub open spec fn has_locale(table: Seq<TranslationView>, n: int, locale: Seq<char>) -> bool {
    exists|i: int| 0 <= i < n && (#[trigger] table[i]).0 == locale
}

/// A translation backend that falls back to English.
#[derive(Debug)]
pub struct I18nBackend {
    table: Vec<Translation>,
}

impl View for I18nBackend {
    type V = Seq<TranslationView>;

    closed spec fn view(&self) -> Seq<TranslationView> {
        self.table@.map_values(|t: Translation| translation_view(t))
    }
}

impl I18nBackend {
    /// A backend over the given translations, searched in order.
    pub fn new(table: Vec<Translation>) -> (r: I18nBackend)
        ensures
            r@ == table@.map_values(|t: Translation| translation_view(t)),
    {
        I18nBackend { table }
    }

    fn find(&self, locale: &str, key: &str) -> (r: Option<String>)
        ensures
            match r {
                Some(v) => lookup(self@, locale@, key@) == Some(v@),
                None => lookup(self@, locale@, key@) is None,
            },
    {
        let l = String::from_str(locale);
        let k = String::from_str(key);
        let ghost t = self@;
        let mut i: usize = 0;
        assert(t.subrange(0, t.len() as int) =~= t);
        while i < self.table.len()
            invariant
                t == self@,
                t.len() == self.table.len(),
                i <= self.table.len(),
                l@ == locale@,
                k@ == key@,
                lookup(t, locale@, key@) == lookup(
                    t.subrange(i as int, t.len() as int),
                    locale@,
                    key@,
                ),
            decreases self.table.len() - i,
        {
            let ghost rest = t.subrange(i as int, t.len() as int);
            assert(rest[0] == translation_view(self.table@[i as int]));
            assert(rest.subrange(1, rest.len() as int) =~= t.subrange(i + 1, t.len() as int));
            if self.table[i].locale == l && self.table[i].key == k {
                return Some(self.table[i].value.clone());
            }
            i = i + 1;
        }
        None
    }

    /// Returns the text for `key` in `locale`, or its English text when
    /// `locale` has none.
    pub fn translate(&self, locale: &str, key: &str) -> (r: Option<String>)
        ensures
            match r {
                Some(v) => translate_spec(self@, locale@, key@) == Some(v@),
                None => translate_spec(self@, locale@, key@) is None,
            },
    {
        let val = self.find(locale, key);
        if val.is_none() {
            self.find("en", key)
        } else {
            val
        }
    }

    /// Returns the locales that have translations, each once.
    pub fn available_locales(&self) -> (r: Vec<String>)
        ensures
            string_views(r@).no_duplicates(),
            forall|l: Seq<char>|
                #[trigger] string_views(r@).contains(l) <==> has_locale(
                    self@,
                    self@.len() as int,
                    l,
                ),
    {
        let ghost t = self@;
        let mut out: Vec<String> = Vec::new();
        let mut i: usize = 0;
        while i < self.table.len()
            invariant
                t == self@,
                t.len() == self.table.len(),
                i <= self.table.len(),
                string_views(out@).no_duplicates(),
                forall|l: Seq<char>|
                    #[trigger] string_views(out@).contains(l) <==> has_locale(
                        t,
                        i as int,
                        l,
                    ),
            decreases self.table.len() - i,
        {
            let ghost before = string_views(out@);
            assert(t[i as int] == translation_view(self.table@[i as int]));
            let mut seen = false;
            let mut j: usize = 0;
            while j < out.len()
                invariant
                    j <= out.len(),
                    before == string_views(out@),
                    seen <==> exists|k: int| 0 <= k < j && before[k] == t[i as int].0,
                    t[i as int] == translation_view(self.table@[i as int]),
                    i < self.table.len(),
                decreases out.len() - j,
            {
                assert(before[j as int] == out@[j as int]@);
                if out[j] == self.table[i].locale {
                    seen = true;
                }
                j = j + 1;
            }
            if !seen {
                out.push(self.table[i].locale.clone());
                proof {
                    let after = string_views(out@);
                    assert(after =~= before.push(t[i as int].0));
                    assert forall|a: int, b: int|
                        0 <= a < after.len() && 0 <= b < after.len() && a != b implies after[a]
                        != after[b] by {
                        if a < before.len() && b < before.len() {
                        } else if a < before.len() {
                            assert(before[a] != t[i as int].0);
                        } else {
                            assert(before[b] != t[i as int].0);
                        }
                    }
                    assert forall|l: Seq<char>| #[trigger] after.contains(l) <==> has_locale(
                        t,
                        i + 1,
                        l,
                    ) by {
                        if after.contains(l) {
                            let p = choose|p: int| 0 <= p < after.len() && after[p] == l;
                            if p < before.len() {
                                assert(before[p] == l);
                                assert(before.contains(l));
                            } else {
                                assert(t[i as int].0 == l);
                            }
                        }
                        if has_locale(t, i + 1, l) {
                            let k = choose|k: int| 0 <= k < i + 1 && (#[trigger] t[k]).0 == l;
                            if k < i {
                                assert(has_locale(t, i as int, l));
                                assert(before.contains(l));
                                let p = choose|p: int| 0 <= p < before.len() && before[p] == l;
                                assert(after[p] == l);
                            } else {
                                assert(after[before.len() as int] == l);
                            }
                        }
                    }
                }
            } else {
                proof {
                    let k = choose|k: int| 0 <= k < out.len() && before[k] == t[i as int].0;
                    assert(before.contains(t[i as int].0));
                    assert forall|l: Seq<char>| #[trigger] before.contains(l) <==> has_locale(
                        t,
                        i + 1,
                        l,
                    ) by {
                        if has_locale(t, i + 1, l) {
                            let k = choose|k: int| 0 <= k < i + 1 && (#[trigger] t[k]).0 == l;
                            if k < i {
                                assert(has_locale(t, i as int, l));
                            }
                        }
                        if has_locale(t, i as int, l) {
                            let k = choose|k: int| 0 <= k < i && (#[trigger] t[k]).0 == l;
                            assert(t[k].0 == l);
                        }
                    }
                }
            }
            i = i + 1;
        }
        out
    }
}

} // verus!
