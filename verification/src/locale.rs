use vstd::prelude::*;
use vstd::string::*;
use crate::fmt::str_eq;

verus! {

/// The text of an optional string.
pub open spec fn opt_text(o: Option<String>) -> Option<Seq<char>> {
    match o {
        Some(s) => Some(s@),
        None => None,
    }
}

/// The text of an optional string slice.
pub open spec fn opt_str_text(o: Option<&str>) -> Option<Seq<char>> {
    match o {
        Some(s) => Some(s@),
        None => None,
    }
}

/// The texts per locale, as pairs in the order they were set; a later pair wins.
pub open spec fn pairs_map(s: Seq<(String, String)>) -> Map<Seq<char>, Seq<char>>
    decreases s.len(),
{
    if s.len() == 0 {
        Map::empty()
    } else {
        pairs_map(s.drop_last()).insert(s.last().0@, s.last().1@)
    }
}

/// Texts by locale name, such as the localized names of a command.
pub struct Localizations {
    entries: Vec<(String, String)>,
}

impl View for Localizations {
    type V = Map<Seq<char>, Seq<char>>;

    closed spec fn view(&self) -> Map<Seq<char>, Seq<char>> {
        pairs_map(self.entries@)
    }
}

proof fn lemma_pairs_suffix(s: Seq<(String, String)>, i: int, k: Seq<char>)
    requires
        0 <= i <= s.len(),
        forall|j: int| i <= j < s.len() ==> s[j].0@ != k,
    ensures
        pairs_map(s).contains_key(k) == pairs_map(s.take(i)).contains_key(k),
        pairs_map(s).contains_key(k) ==> pairs_map(s)[k] == pairs_map(s.take(i))[k],
    decreases s.len() - i,
{
    if i < s.len() {
        assert(s.drop_last().take(i) =~= s.take(i));
        lemma_pairs_suffix(s.drop_last(), i, k);
    } else {
        assert(s.take(i) =~= s);
    }
}

impl Localizations {
    /// No texts.
    pub fn new() -> (r: Localizations)
        ensures r@ == Map::<Seq<char>, Seq<char>>::empty(),
    {
        Localizations { entries: Vec::new() }
    }

    /// Sets the text of `locale`, in place of any text it had.
    pub fn insert(&mut self, locale: String, text: String)
        ensures final(self)@ == old(self)@.insert(locale@, text@),
    {
        let ghost before = self.entries@;
        self.entries.push((locale, text));
        assert(self.entries@.drop_last() =~= before);
    }

    /// The locale and text pairs, in the order they were set; a later pair for a locale
    /// replaces an earlier one.
    pub fn pairs(&self) -> (r: &Vec<(String, String)>)
        ensures pairs_map(r@) == self@,
    {
        &self.entries
    }

    /// The text of `locale`, if it has one.
    pub fn get(&self, locale: &str) -> (r: Option<&String>)
        ensures
            match r {
                Some(t) => self@.contains_key(locale@) && t@ == self@[locale@],
                None => !self@.contains_key(locale@),
            },
    {
        let mut i = self.entries.len();
        while i > 0
            invariant
                i <= self.entries.len(),
                forall|j: int| i <= j < self.entries@.len() ==> self.entries@[j].0@ != locale@,
            decreases i,
        {
            if str_eq(self.entries[i - 1].0.as_str(), locale) {
                proof {
                    let s = self.entries@;
                    lemma_pairs_suffix(s, i as int, locale@);
                    assert(s.take(i as int).drop_last() =~= s.take(i - 1));
                    assert(s.take(i as int).last() == s[i - 1]);
                }
                return Some(&self.entries[i - 1].1);
            }
            i -= 1;
        }
        proof {
            lemma_pairs_suffix(self.entries@, 0, locale@);
            assert(self.entries@.take(0) =~= Seq::<(String, String)>::empty());
        }
        None
    }
}

/// A message text of a catalog: the value of the message `id` when `attr` is `None`, else the
/// value of its attribute `attr`.
pub struct CatalogEntry {
    pub id: String,
    pub attr: Option<String>,
    pub text: String,
}

/// The formatted messages of one locale's resources.
pub struct Catalog {
    entries: Vec<CatalogEntry>,
}

/// The text of the first entry of `s` for `id` and `attr`.
pub open spec fn entries_lookup(s: Seq<CatalogEntry>, id: Seq<char>, attr: Option<Seq<char>>) -> Option<Seq<char>>
    decreases s.len(),
{
    if s.len() == 0 {
        None
    } else if s[0].id@ == id && opt_text(s[0].attr) == attr {
        Some(s[0].text@)
    } else {
        entries_lookup(s.skip(1), id, attr)
    }
}

impl Catalog {
    pub closed spec fn spec_lookup(&self, id: Seq<char>, attr: Option<Seq<char>>) -> Option<Seq<char>> {
        entries_lookup(self.entries@, id, attr)
    }

    /// A catalog without messages.
    pub fn new() -> (r: Catalog)
        ensures forall|id: Seq<char>, attr: Option<Seq<char>>| r.spec_lookup(id, attr) is None,
    {
        Catalog { entries: Vec::new() }
    }

    /// Adds a text after those already held; an earlier text for the same `id` and `attr`
    /// stays the one found.
    pub fn add(&mut self, id: String, attr: Option<String>, text: String)
        ensures
            forall|i: Seq<char>, a: Option<Seq<char>>| #[trigger] final(self).spec_lookup(i, a) == match old(self).spec_lookup(i, a) {
                Some(t) => Some(t),
                None => if i == id@ && a == opt_text(attr) { Some(text@) } else { None },
            },
    {
        let ghost before = self.entries@;
        let ghost e = CatalogEntry { id, attr, text };
        self.entries.push(CatalogEntry { id, attr, text });
        proof {
            assert forall|i: Seq<char>, a: Option<Seq<char>>| #[trigger] entries_lookup(self.entries@, i, a) == match entries_lookup(before, i, a) {
                Some(t) => Some(t),
                None => if i == e.id@ && a == opt_text(e.attr) { Some(e.text@) } else { None },
            } by {
                lemma_lookup_push(before, e, i, a);
            }
        }
    }

    /// The text for `id` and `attr`, if the catalog has one.
    pub fn lookup(&self, id: &str, attr: Option<&str>) -> (r: Option<String>)
        ensures opt_text(r) == self.spec_lookup(id@, opt_str_text(attr)),
    {
        let mut i: usize = 0;
        assert(self.entries@.skip(0) =~= self.entries@);
        while i < self.entries.len()
            invariant
                i <= self.entries.len(),
                entries_lookup(self.entries@, id@, opt_str_text(attr))
                    == entries_lookup(self.entries@.skip(i as int), id@, opt_str_text(attr)),
            decreases self.entries.len() - i,
        {
            let e = &self.entries[i];
            let attr_matches = match (&e.attr, attr) {
                (Some(a), Some(b)) => str_eq(a.as_str(), b),
                (None, None) => true,
                _ => false,
            };
            let ghost rest = self.entries@.skip(i as int);
            assert(rest[0] == self.entries@[i as int]);
            if str_eq(e.id.as_str(), id) && attr_matches {
                return Some(e.text.clone());
            }
            assert(rest.skip(1) =~= self.entries@.skip(i + 1));
            i += 1;
        }
        None
    }
}

proof fn lemma_lookup_push(s: Seq<CatalogEntry>, e: CatalogEntry, id: Seq<char>, attr: Option<Seq<char>>)
    ensures
        entries_lookup(s.push(e), id, attr) == match entries_lookup(s, id, attr) {
            Some(t) => Some(t),
            None => if id == e.id@ && attr == opt_text(e.attr) { Some(e.text@) } else { None },
        },
    decreases s.len(),
{
    if s.len() > 0 {
        assert(s.push(e)[0] == s[0]);
        assert(s.push(e).skip(1) =~= s.skip(1).push(e));
        lemma_lookup_push(s.skip(1), e, id, attr);
    } else {
        assert(s.push(e)[0] == e);
        assert(s.push(e).skip(1) =~= Seq::<CatalogEntry>::empty());
        assert(entries_lookup(Seq::<CatalogEntry>::empty(), id, attr) is None);
    }
}

} // verus!
