use vstd::prelude::*;
use vstd::string::*;
use fluent::bundle::FluentBundle;
use fluent::FluentResource;
use fluent_syntax::ast::Entry;
use fluent_syntax::ast::Pattern;
use intl_memoizer::concurrent::IntlLangMemoizer;
use unic_langid::LanguageIdentifier;
use crate::error::Error;
use crate::error::Res;
use crate::error::R;
use crate::fluent_plugin::FluentSources;
use crate::fluent_plugin::SourcesSpec;
use crate::fmt::str_eq;
use crate::locale::Catalog;
use crate::locale::opt_str_text;
use crate::locale::opt_text;
use crate::state::State;

verus! {

/// fluent's `FluentResource`, a parsed message source; opaque to Verus.
#[verifier::external_type_specification]
#[verifier::external_body]
pub struct ExFluentResource(FluentResource);

/// intl-memoizer's thread-safe `IntlLangMemoizer`; opaque to Verus.
#[verifier::external_type_specification]
#[verifier::external_body]
pub struct ExIntlLangMemoizer(IntlLangMemoizer);

/// fluent's `FluentBundle`, the messages of one locale; opaque to Verus.
#[verifier::external_type_specification]
#[verifier::external_body]
#[verifier::reject_recursive_types(Rs)]
#[verifier::reject_recursive_types(Mz)]
pub struct ExFluentBundle<Rs, Mz>(FluentBundle<Rs, Mz>);

/// The message bundle of one locale, safe to share between threads.
pub type Bundle = FluentBundle<FluentResource, IntlLangMemoizer>;

/// Whether fluent's parser reads `text` without an error. Its grammar is fluent's own; the
/// parser is deterministic, so this depends on the text alone.
pub uninterp spec fn fluent_parses(text: Seq<char>) -> bool;

/// The source text that a parsed message source holds, as `FluentResource::source` of fluent
/// gives it back.
pub uninterp spec fn resource_source(res: FluentResource) -> Seq<char>;

/// `FluentResource::try_new` of fluent: the parsed message source `text`, which holds `text`,
/// or, when it does not parse, the parser's errors as `{:?}` writes them; which of the two,
/// [`fluent_parses`] names. Nothing is stated of the errors' text.
#[verifier::external_body]
pub(crate) fn parse_resource(text: String) -> (r: Result<FluentResource, String>)
    ensures
        r is Ok == fluent_parses(text@),
        r matches Ok(res) ==> resource_source(res) == text@,
{
    match FluentResource::try_new(text) {
        Ok(res) => Ok(res),
        Err((_, errors)) => Err(format!("{:?}", errors)),
    }
}

/// An entry of a message source, as values.
pub enum EntrySpec {
    /// A message: its id and the ids of its attributes, in order.
    Message(Seq<char>, Seq<Seq<char>>),
    /// A term: its id, without the leading `-`.
    Term(Seq<char>),
    /// A comment or junk.
    Other,
}

/// An entry of a message source.
pub enum EntryInfo {
    /// A message: its id and the ids of its attributes, in order.
    Message(String, Vec<String>),
    /// A term: its id, without the leading `-`.
    Term(String),
    /// A comment or junk.
    Other,
}

/// The entry `e` as values.
pub open spec fn entry_view(e: EntryInfo) -> EntrySpec {
    match e {
        EntryInfo::Message(id, attrs) => EntrySpec::Message(id@, attrs@.map_values(|a: String| a@)),
        EntryInfo::Term(id) => EntrySpec::Term(id@),
        EntryInfo::Other => EntrySpec::Other,
    }
}

/// The entries that fluent's parser reads from `text`, in order. The parser is
/// deterministic, so this depends on the text alone.
pub uninterp spec fn source_entries(text: Seq<char>) -> Seq<EntrySpec>;

/// `FluentResource::entries` of fluent: the entries of `r`, in order, as [`source_entries`]
/// names them for the source that `r` holds.
#[verifier::external_body]
fn resource_entries(r: &FluentResource) -> (v: Vec<EntryInfo>)
    ensures v@.map_values(|e: EntryInfo| entry_view(e)) == source_entries(resource_source(*r)),
{
    r.entries()
        .map(|e| match e {
            Entry::Message(m) => EntryInfo::Message(m.id.name.to_string(), m.attributes.iter().map(|a| a.id.name.to_string()).collect()),
            Entry::Term(t) => EntryInfo::Term(t.id.name.to_string()),
            Entry::Comment(_) => EntryInfo::Other,
            Entry::GroupComment(_) => EntryInfo::Other,
            Entry::ResourceComment(_) => EntryInfo::Other,
            Entry::Junk { .. } => EntryInfo::Other,
        })
        .collect()
}

/// Whether unic-langid reads `loc` as a language tag; this depends on the text alone.
pub uninterp spec fn valid_locale_tag(loc: Seq<char>) -> bool;

/// The language that unic-langid reads from the tag `loc`, written in its canonical form
/// (`LanguageIdentifier::to_string`); this depends on the text alone.
pub uninterp spec fn locale_lang(loc: Seq<char>) -> Seq<char>;

/// The source texts added to `fb`, in order.
pub uninterp spec fn bundle_sources(fb: Bundle) -> Seq<Seq<char>>;

/// The language of `fb`, in its canonical form.
pub uninterp spec fn bundle_lang(fb: Bundle) -> Seq<char>;

/// The messages that a bundle of the language `lang` (canonical form) made of the message
/// sources `sources`, added in order, holds, by id: the text that
/// `FluentBundle::format_pattern` of fluent gives, without arguments, for the message's value
/// when it has one, and, in order, each attribute's id and text. Fluent's formatting reads
/// only the bundle's language and the entries of its sources, so this depends on them alone.
pub uninterp spec fn formatted(lang: Seq<char>, sources: Seq<Seq<char>>) -> Map<Seq<char>, (Option<Seq<char>>, Seq<(Seq<char>, Seq<char>)>)>;

/// The `FromStr` of unic-langid's `LanguageIdentifier`, then `FluentBundle::new_concurrent`
/// of fluent: an empty bundle for the language of the tag `loc`; or, when it is no valid tag,
/// the text of the error, of which nothing is stated.
#[verifier::external_body]
fn new_bundle(loc: &str) -> (r: Result<Bundle, String>)
    ensures
        r is Ok == valid_locale_tag(loc@),
        r matches Ok(fb) ==> bundle_sources(fb) == Seq::<Seq<char>>::empty() && bundle_lang(fb) == locale_lang(loc@),
{
    match loc.parse::<LanguageIdentifier>() {
        Ok(lang) => Ok(FluentBundle::new_concurrent(vec![lang])),
        Err(e) => Err(e.to_string()),
    }
}

/// The id of the entry `e`, if it is a message or a term.
pub open spec fn entry_id(e: EntrySpec) -> Option<Seq<char>> {
    match e {
        EntrySpec::Message(id, _) => Some(id),
        EntrySpec::Term(id) => Some(id),
        EntrySpec::Other => None,
    }
}

/// The ids of the messages and terms of `es`, in order.
pub open spec fn entry_ids(es: Seq<EntrySpec>) -> Seq<Seq<char>>
    decreases es.len(),
{
    if es.len() == 0 {
        Seq::empty()
    } else {
        match entry_id(es.last()) {
            Some(id) => entry_ids(es.drop_last()).push(id),
            None => entry_ids(es.drop_last()),
        }
    }
}

/// The ids of the messages and terms of the sources `texts`, text after text.
pub open spec fn sources_ids(texts: Seq<Seq<char>>) -> Seq<Seq<char>>
    decreases texts.len(),
{
    if texts.len() == 0 {
        Seq::empty()
    } else {
        sources_ids(texts.drop_last()) + entry_ids(source_entries(texts.last()))
    }
}

/// Whether an id of `added` is among `held` or comes earlier in `added`.
pub open spec fn clashes(held: Seq<Seq<char>>, added: Seq<Seq<char>>) -> bool {
    exists|j: int| 0 <= j < added.len() && (held.contains(#[trigger] added[j]) || added.take(j).contains(added[j]))
}

/// Whether an id occurs twice in `ids`.
pub open spec fn has_repeat(ids: Seq<Seq<char>>) -> bool {
    exists|i: int, j: int| 0 <= i < j < ids.len() && #[trigger] ids[i] == #[trigger] ids[j]
}

/// `FluentBundle::add_resource` of fluent: adds `r` to the sources of `fb`, and each of its
/// messages and terms whose id the bundle does not hold yet to the bundle; fails, with the
/// errors as `{:?}` writes them, exactly when an id of `r` was held already (by an earlier
/// source or earlier in `r`). Nothing is stated of the errors' text.
#[verifier::external_body]
fn bundle_add(fb: &mut Bundle, r: FluentResource) -> (res: Result<(), String>)
    ensures
        bundle_sources(*final(fb)) == bundle_sources(*old(fb)).push(resource_source(r)),
        bundle_lang(*final(fb)) == bundle_lang(*old(fb)),
        res is Err == clashes(sources_ids(bundle_sources(*old(fb))), entry_ids(source_entries(resource_source(r)))),
{
    match fb.add_resource(r) {
        Ok(()) => Ok(()),
        Err(errors) => Err(format!("{:?}", errors)),
    }
}

/// A message as values: the text of its value, if any, and each attribute's id and text.
pub open spec fn message_view(m: (Option<String>, Vec<(String, String)>)) -> (Option<Seq<char>>, Seq<(Seq<char>, Seq<char>)>) {
    (opt_text(m.0), m.1@.map_values(|p: (String, String)| (p.0@, p.1@)))
}

/// `FluentBundle::get_message` of fluent, with the message handed out as values: the text
/// that `FluentBundle::format_pattern`, without arguments, gives for its value
/// (`FluentMessage::value`) and for each of its attributes (`FluentMessage::attributes`), in
/// order; `None` when `fb` has no message `id`. As [`formatted`] names them for the bundle's
/// language and sources.
#[verifier::external_body]
fn message_texts(fb: &Bundle, id: &str) -> (r: Option<(Option<String>, Vec<(String, String)>)>)
    ensures
        r is Some == formatted(bundle_lang(*fb), bundle_sources(*fb)).contains_key(id@),
        r matches Some(m) ==> formatted(bundle_lang(*fb), bundle_sources(*fb))[id@] == message_view(m),
{
    let m = fb.get_message(id)?;
    let text = |p: &Pattern<&str>| fb.format_pattern(p, None, &mut vec![]).to_string();
    let value = m.value().map(text);
    let attrs = m.attributes().map(|a| (a.id().to_string(), text(a.value()))).collect();
    Some((value, attrs))
}

/// The text of the first attribute named `a` among `attrs`.
pub open spec fn first_attr(attrs: Seq<(Seq<char>, Seq<char>)>, a: Seq<char>) -> Option<Seq<char>>
    decreases attrs.len(),
{
    if attrs.len() == 0 {
        None
    } else if attrs[0].0 == a {
        Some(attrs[0].1)
    } else {
        first_attr(attrs.skip(1), a)
    }
}

/// The text of the message `id` of `msgs`, or of its first attribute named `attr`; `None`
/// when the message, the attribute or the message's value is missing.
pub open spec fn message_text(msgs: Map<Seq<char>, (Option<Seq<char>>, Seq<(Seq<char>, Seq<char>)>)>, id: Seq<char>, attr: Option<Seq<char>>) -> Option<Seq<char>> {
    if msgs.contains_key(id) {
        match attr {
            None => msgs[id].0,
            Some(a) => first_attr(msgs[id].1, a),
        }
    } else {
        None
    }
}

/// The text of the message `id` of `fb`, or of its attribute `attr`, as [`message_text`] says
/// of the messages of its language and sources.
pub open spec fn bundle_text(fb: Bundle, id: Seq<char>, attr: Option<Seq<char>>) -> Option<Seq<char>> {
    message_text(formatted(bundle_lang(fb), bundle_sources(fb)), id, attr)
}

/// The formatted text of the message `id` of `fb`, or of its attribute `attr`, as
/// [`bundle_text`] says.
pub fn localize(fb: &Bundle, id: &str, attr: Option<&str>) -> (r: Option<String>)
    ensures opt_text(r) == bundle_text(*fb, id@, opt_str_text(attr)),
{
    let m = match message_texts(fb, id) {
        Some(m) => m,
        None => {
            return None;
        },
    };
    let ghost mv = message_view(m);
    let (value, attrs) = m;
    assert(mv == (opt_text(value), attrs@.map_values(|p: (String, String)| (p.0@, p.1@))));
    match attr {
        None => value,
        Some(a) => {
            let ghost av = attrs@.map_values(|p: (String, String)| (p.0@, p.1@));
            let mut j: usize = 0;
            assert(av.skip(0) =~= av);
            while j < attrs.len()
                invariant
                    j <= attrs.len(),
                    av == attrs@.map_values(|p: (String, String)| (p.0@, p.1@)),
                    bundle_text(*fb, id@, opt_str_text(attr)) == first_attr(av, a@),
                    first_attr(av, a@) == first_attr(av.skip(j as int), a@),
                decreases attrs.len() - j,
            {
                assert(av.skip(j as int)[0] == av[j as int]);
                assert(av[j as int] == (attrs@[j as int].0@, attrs@[j as int].1@));
                if str_eq(attrs[j].0.as_str(), a) {
                    return Some(attrs[j].1.clone());
                }
                assert(av.skip(j as int).skip(1) =~= av.skip(j + 1));
                j += 1;
            }
            None
        },
    }
}

/// How the error of a message source that does not parse begins; the parser's errors follow.
pub open spec fn invalid_source_text() -> Seq<char> {
    "failed to parse "@
}

/// How the error of a message source whose messages clash with earlier ones begins; the
/// bundle's errors follow.
pub open spec fn clashing_source_text() -> Seq<char> {
    "failed to add resource to bundle: "@
}

/// Whether `m` begins with `prefix`.
pub open spec fn is_prefixed(m: Seq<char>, prefix: Seq<char>) -> bool {
    prefix.len() <= m.len() && m.subrange(0, prefix.len() as int) == prefix
}

/// The text `prefix` followed by `detail`.
pub(crate) fn prefixed(prefix: &str, detail: &str) -> (r: String)
    ensures
        r@ == prefix@ + detail@,
        is_prefixed(r@, prefix@),
{
    let mut m = String::from_str(prefix);
    m.append(detail);
    assert((prefix@ + detail@).subrange(0, prefix@.len() as int) =~= prefix@);
    m
}

/// Whether `e` is one of the errors of building a catalog: all of them are messages.
pub open spec fn is_build_error(e: Error) -> bool {
    e is Message
}

/// Whether every source text of `s` for the locale `locale` parses.
pub open spec fn locale_texts_parse(s: SourcesSpec, locale: Seq<char>) -> bool {
    forall|k: int| 0 <= k < s.texts.len() && #[trigger] s.texts[k].0 == locale ==> fluent_parses(s.texts[k].1)
}

/// The source texts of `texts` for the locale `locale`, in order.
pub open spec fn locale_texts(texts: Seq<(Seq<char>, Seq<char>)>, locale: Seq<char>) -> Seq<Seq<char>>
    decreases texts.len(),
{
    if texts.len() == 0 {
        Seq::empty()
    } else if texts.last().0 == locale {
        locale_texts(texts.drop_last(), locale).push(texts.last().1)
    } else {
        locale_texts(texts.drop_last(), locale)
    }
}

/// Whether two messages or terms of the source texts of the locale `locale` of `s` have one
/// id, so that adding them to one bundle clashes.
pub open spec fn locale_clash(s: SourcesSpec, locale: Seq<char>) -> bool {
    has_repeat(sources_ids(locale_texts(s.texts, locale)))
}

/// Whether the catalog of the locale `locale` of `s` can be built: the locale is a valid tag,
/// its sources parse, and no two of their messages and terms have one id.
pub open spec fn catalog_owed(s: SourcesSpec, locale: Seq<char>) -> bool {
    valid_locale_tag(locale) && locale_texts_parse(s, locale) && !locale_clash(s, locale)
}

/// Whether `e` is an error that building the catalog of `locale` from `s` can end with: the
/// error of an invalid locale tag; that of a source of the locale that does not parse; or that
/// of sources whose messages or terms clash.
pub open spec fn build_error_fits(e: Error, s: SourcesSpec, locale: Seq<char>) -> bool {
    e matches Error::Message(m) && (
        !valid_locale_tag(locale)
        || (is_prefixed(m@, invalid_source_text()) && !locale_texts_parse(s, locale))
        || (is_prefixed(m@, clashing_source_text()) && locale_clash(s, locale))
    )
}

/// The entries of the source texts of `texts` for the locale `locale`, text after text, as
/// [`source_entries`] names them.
pub open spec fn locale_entries(texts: Seq<(Seq<char>, Seq<char>)>, locale: Seq<char>) -> Seq<EntrySpec>
    decreases texts.len(),
{
    if texts.len() == 0 {
        Seq::empty()
    } else if texts.last().0 == locale {
        locale_entries(texts.drop_last(), locale) + source_entries(texts.last().1)
    } else {
        locale_entries(texts.drop_last(), locale)
    }
}

/// Whether the entry `e` is the message `id`, and, when `attr` is given, the message has an
/// attribute named so.
pub open spec fn entry_lists(e: EntrySpec, id: Seq<char>, attr: Option<Seq<char>>) -> bool {
    match e {
        EntrySpec::Message(i, attrs) => i == id && match attr {
            Some(a) => attrs.contains(a),
            None => true,
        },
        _ => false,
    }
}

/// Whether one of `entries` is the message `id` (with an attribute `attr`, when given).
pub open spec fn lists(entries: Seq<EntrySpec>, id: Seq<char>, attr: Option<Seq<char>>) -> bool {
    exists|e: int| 0 <= e < entries.len() && entry_lists(#[trigger] entries[e], id, attr)
}

/// The catalog `c` holds, for each message and attribute that `entries` list, its text among
/// `msgs`, if any, and nothing else.
pub open spec fn catalog_matches(c: Catalog, msgs: Map<Seq<char>, (Option<Seq<char>>, Seq<(Seq<char>, Seq<char>)>)>, entries: Seq<EntrySpec>) -> bool {
    forall|id: Seq<char>, attr: Option<Seq<char>>| #[trigger] c.spec_lookup(id, attr)
        == if lists(entries, id, attr) { message_text(msgs, id, attr) } else { None }
}

/// The catalog `c` is that of the locale `locale` of `s`: for each message and attribute
/// that the locale's sources list, the text that a bundle of the locale's language made of
/// those sources, in order, gives for it, if any, and nothing else.
pub open spec fn catalog_from(c: Catalog, s: SourcesSpec, locale: Seq<char>) -> bool {
    catalog_matches(c, formatted(locale_lang(locale), locale_texts(s.texts, locale)), locale_entries(s.texts, locale))
}

proof fn lemma_lists_push(s: Seq<EntrySpec>, e: EntrySpec, id: Seq<char>, attr: Option<Seq<char>>)
    ensures lists(s.push(e), id, attr) == (lists(s, id, attr) || entry_lists(e, id, attr)),
{
    let t = s.push(e);
    if lists(s, id, attr) {
        let k = choose|k: int| 0 <= k < s.len() && entry_lists(#[trigger] s[k], id, attr);
        assert(t[k] == s[k]);
    }
    if entry_lists(e, id, attr) {
        assert(t[s.len() as int] == e);
    }
    if lists(t, id, attr) {
        let k = choose|k: int| 0 <= k < t.len() && entry_lists(#[trigger] t[k], id, attr);
        if k < s.len() {
            assert(s[k] == t[k]);
        }
    }
}

proof fn lemma_repeat_append(a: Seq<Seq<char>>, b: Seq<Seq<char>>)
    ensures
        has_repeat(a) ==> has_repeat(a + b),
        clashes(a, b) ==> has_repeat(a + b),
        !has_repeat(a) && has_repeat(a + b) ==> clashes(a, b),
{
    let c = a + b;
    if has_repeat(a) {
        let (i, j) = choose|i: int, j: int| 0 <= i < j < a.len() && #[trigger] a[i] == #[trigger] a[j];
        assert(c[i] == a[i] && c[j] == a[j]);
    }
    if clashes(a, b) {
        let j = choose|j: int| 0 <= j < b.len() && (a.contains(#[trigger] b[j]) || b.take(j).contains(b[j]));
        assert(c[a.len() + j] == b[j]);
        if a.contains(b[j]) {
            let i = choose|i: int| 0 <= i < a.len() && a[i] == b[j];
            assert(c[i] == b[j]);
        } else {
            let i = choose|i: int| 0 <= i < j && b.take(j)[i] == b[j];
            assert(c[a.len() + i] == b[j]);
        }
    }
    if !has_repeat(a) && has_repeat(c) {
        let (i, j) = choose|i: int, j: int| 0 <= i < j < c.len() && #[trigger] c[i] == #[trigger] c[j];
        if j < a.len() {
            assert(a[i] == a[j]);
        } else if i < a.len() {
            assert(a.contains(b[j - a.len()]));
            assert(clashes(a, b));
        } else {
            assert(b.take(j - a.len())[i - a.len()] == b[j - a.len()]);
            assert(b.take(j - a.len()).contains(b[j - a.len()]));
            assert(clashes(a, b));
        }
    }
}

proof fn lemma_ids_push(p: Seq<Seq<char>>, t: Seq<char>)
    ensures sources_ids(p.push(t)) == sources_ids(p) + entry_ids(source_entries(t)),
{
    assert(p.push(t).drop_last() =~= p);
}

proof fn lemma_prefix_repeat(texts: Seq<(Seq<char>, Seq<char>)>, locale: Seq<char>, k: int)
    requires
        0 <= k <= texts.len(),
        has_repeat(sources_ids(locale_texts(texts.take(k), locale))),
    ensures has_repeat(sources_ids(locale_texts(texts, locale))),
    decreases texts.len() - k,
{
    if k == texts.len() {
        assert(texts.take(k) =~= texts);
    } else {
        let p = locale_texts(texts.take(k), locale);
        assert(texts.take(k + 1).drop_last() =~= texts.take(k));
        if texts[k].0 == locale {
            lemma_ids_push(p, texts[k].1);
            lemma_repeat_append(sources_ids(p), entry_ids(source_entries(texts[k].1)));
        }
        lemma_prefix_repeat(texts, locale, k + 1);
    }
}

/// The bundle of the locale `locale`, with the sources of `sources` for that locale, in
/// order, and the entries of those sources, text after text.
fn bundle_of(sources: &FluentSources, locale: &str) -> (r: Res<(Bundle, Vec<EntryInfo>)>)
    ensures
        r is Ok == catalog_owed(sources@, locale@),
        r is Err ==> is_build_error(r->Err_0) && build_error_fits(r->Err_0, sources@, locale@),
        r matches Ok(p) ==> bundle_sources(p.0) == locale_texts(sources@.texts, locale@)
            && bundle_lang(p.0) == locale_lang(locale@)
            && p.1@.map_values(|e: EntryInfo| entry_view(e)) == locale_entries(sources@.texts, locale@),
{
    let mut fb = match new_bundle(locale) {
        Ok(b) => b,
        Err(m) => {
            return Err(Error::Message(m));
        },
    };
    let mut entries: Vec<EntryInfo> = Vec::new();
    let ghost texts = sources@.texts;
    let mut k: usize = 0;
    assert(texts.take(0) =~= Seq::<(Seq<char>, Seq<char>)>::empty());
    assert(entries@.map_values(|e: EntryInfo| entry_view(e)) =~= Seq::<EntrySpec>::empty());
    while k < sources.texts.len()
        invariant
            k <= sources.texts.len(),
            texts == sources@.texts,
            texts.len() == sources.texts.len(),
            valid_locale_tag(locale@),
            forall|j: int| 0 <= j < k && #[trigger] texts[j].0 == locale@ ==> fluent_parses(texts[j].1),
            bundle_sources(fb) == locale_texts(texts.take(k as int), locale@),
            bundle_lang(fb) == locale_lang(locale@),
            !has_repeat(sources_ids(bundle_sources(fb))),
            entries@.map_values(|e: EntryInfo| entry_view(e)) == locale_entries(texts.take(k as int), locale@),
        decreases sources.texts.len() - k,
    {
        assert(texts[k as int] == (sources.texts@[k as int].0@, sources.texts@[k as int].1@));
        assert(texts.take(k + 1).drop_last() =~= texts.take(k as int));
        assert(texts.take(k + 1).last() == texts[k as int]);
        if str_eq(sources.texts[k].0.as_str(), locale) {
            let res = match parse_resource(sources.texts[k].1.clone()) {
                Ok(r) => r,
                Err(d) => {
                    assert(texts[k as int].0 == locale@);
                    return Err(Error::Message(prefixed("failed to parse ", d.as_str())));
                },
            };
            let mut found = resource_entries(&res);
            let ghost before = entries@;
            let ghost added = found@;
            entries.append(&mut found);
            assert(entries@.map_values(|e: EntryInfo| entry_view(e))
                =~= before.map_values(|e: EntryInfo| entry_view(e))
                + added.map_values(|e: EntryInfo| entry_view(e)));
            let ghost held = bundle_sources(fb);
            proof {
                lemma_ids_push(held, texts[k as int].1);
                lemma_repeat_append(sources_ids(held), entry_ids(source_entries(texts[k as int].1)));
            }
            if let Err(d) = bundle_add(&mut fb, res) {
                proof { lemma_prefix_repeat(texts, locale@, k + 1); }
                return Err(Error::Message(prefixed("failed to add resource to bundle: ", d.as_str())));
            }
        }
        k += 1;
    }
    assert(texts.take(k as int) =~= texts);
    Ok((fb, entries))
}

/// The catalog of the locale `locale`: the formatted value and attributes of every message
/// of its sources, as a bundle of the locale's language made of those sources formats them
/// ([`catalog_from`]); built exactly when [`catalog_owed`] says.
pub fn build_catalog(sources: &FluentSources, locale: &str) -> (r: Res<Catalog>)
    ensures
        r is Ok == catalog_owed(sources@, locale@),
        r is Err ==> is_build_error(r->Err_0) && build_error_fits(r->Err_0, sources@, locale@),
        r matches Ok(c) ==> catalog_from(c, sources@, locale@),
{
    let (fb, entries) = match bundle_of(sources, locale) {
        Ok(p) => p,
        Err(e) => {
            return Err(e);
        },
    };
    let ghost msgs = formatted(bundle_lang(fb), bundle_sources(fb));
    let ghost ev = entries@.map_values(|e: EntryInfo| entry_view(e));
    let mut cat = Catalog::new();
    let mut i: usize = 0;
    assert(ev.take(0) =~= Seq::<EntrySpec>::empty());
    while i < entries.len()
        invariant
            i <= entries.len(),
            ev == entries@.map_values(|e: EntryInfo| entry_view(e)),
            msgs == formatted(bundle_lang(fb), bundle_sources(fb)),
            catalog_matches(cat, msgs, ev.take(i as int)),
        decreases entries.len() - i,
    {
        let ghost next = ev.take(i + 1);
        assert(next =~= ev.take(i as int).push(ev[i as int]));
        proof {
            assert forall|x: Seq<char>, y: Option<Seq<char>>| lists(next, x, y) == (lists(ev.take(i as int), x, y) || entry_lists(ev[i as int], x, y)) by {
                lemma_lists_push(ev.take(i as int), ev[i as int], x, y);
            }
        }
        match &entries[i] {
            EntryInfo::Message(id, attrs) => {
                let ghost done = ev.take(i as int);
                let ghost av = attrs@.map_values(|n: String| n@);
                assert(ev[i as int] == EntrySpec::Message(id@, av));
                if let Some(text) = localize(&fb, id.as_str(), None) {
                    cat.add(id.clone(), None, text);
                }
                let mut a: usize = 0;
                while a < attrs.len()
                    invariant
                        a <= attrs.len(),
                        av == attrs@.map_values(|n: String| n@),
                        msgs == formatted(bundle_lang(fb), bundle_sources(fb)),
                        forall|x: Seq<char>, y: Option<Seq<char>>| lists(next, x, y) == (lists(done, x, y) || entry_lists(EntrySpec::Message(id@, av), x, y)),
                        forall|x: Seq<char>, y: Option<Seq<char>>| #[trigger] cat.spec_lookup(x, y)
                            == if lists(done, x, y) || (x == id@ && match y {
                                Some(n) => av.take(a as int).contains(n),
                                None => true,
                            }) { message_text(msgs, x, y) } else { None },
                    decreases attrs.len() - a,
                {
                    proof {
                        let t = av.take(a + 1);
                        assert(t =~= av.take(a as int).push(av[a as int]));
                        assert forall|n: Seq<char>| t.contains(n) == (av.take(a as int).contains(n) || n == av[a as int]) by {
                            if t.contains(n) {
                                let k = choose|k: int| 0 <= k < t.len() && t[k] == n;
                                if k < a {
                                    assert(av.take(a as int)[k] == n);
                                }
                            }
                            if av.take(a as int).contains(n) {
                                let k = choose|k: int| 0 <= k < a && av.take(a as int)[k] == n;
                                assert(t[k] == n);
                            }
                            if n == av[a as int] {
                                assert(t[a as int] == n);
                            }
                        }
                    }
                    if let Some(text) = localize(&fb, id.as_str(), Some(attrs[a].as_str())) {
                        cat.add(id.clone(), Some(attrs[a].clone()), text);
                    }
                    a += 1;
                }
                assert(av.take(a as int) =~= av);
            },
            _ => {},
        }
        i += 1;
    }
    assert(ev.take(i as int) =~= ev);
    Ok(cat)
}

/// The catalog of every locale of `sources`, in the order the locales were added; built
/// exactly when each locale's catalog can be ([`catalog_owed`]).
pub fn build_catalogs(sources: &FluentSources) -> (r: Res<Vec<(String, Catalog)>>)
    ensures
        r is Ok == forall|i: int| 0 <= i < sources@.locales.len() ==> catalog_owed(sources@, #[trigger] sources@.locales[i]),
        r matches Ok(c) ==> c@.map_values(|p: (String, Catalog)| p.0@) == sources@.locales,
        r matches Ok(c) ==> forall|i: int| 0 <= i < c@.len() ==> catalog_from(#[trigger] c@[i].1, sources@, sources@.locales[i]),
        r is Err ==> is_build_error(r->Err_0),
        r is Err ==> exists|i: int| 0 <= i < sources@.locales.len()
            && build_error_fits(r->Err_0, sources@, #[trigger] sources@.locales[i]),
{
    let mut out: Vec<(String, Catalog)> = Vec::new();
    let mut i: usize = 0;
    while i < sources.locales.len()
        invariant
            i <= sources.locales.len(),
            forall|j: int| 0 <= j < i ==> catalog_owed(sources@, #[trigger] sources@.locales[j]),
            out.len() == i,
            out@.map_values(|p: (String, Catalog)| p.0@) == sources@.locales.take(i as int),
            forall|j: int| 0 <= j < i ==> catalog_from(#[trigger] out@[j].1, sources@, sources@.locales[j]),
        decreases sources.locales.len() - i,
    {
        let loc = &sources.locales[i];
        assert(sources@.locales[i as int] == loc@);
        let cat = match build_catalog(sources, loc.as_str()) {
            Ok(c) => c,
            Err(e) => {
                return Err(e);
            },
        };
        let ghost before = out@;
        out.push((loc.clone(), cat));
        assert(out@.map_values(|p: (String, Catalog)| p.0@) =~= sources@.locales.take(i + 1)) by {
            assert(out@ == before.push(out@[i as int]));
        }
        i += 1;
    }
    assert(sources@.locales.take(sources.locales.len() as int) =~= sources@.locales);
    Ok(out)
}

/// Of the kept state, replaces the message sources with the catalog of every locale, as
/// [`build_catalogs`] builds them.
pub fn build_state_catalogs(state: &mut State) -> (r: R)
    ensures
        r is Err ==> r == Err::<(), Error>(Error::NotPresentToTake) || is_build_error(r->Err_0),
{
    let sources = state.take::<FluentSources>()?;
    let catalogs = build_catalogs(&sources)?;
    state.put(catalogs);
    Ok(())
}

} // verus!
