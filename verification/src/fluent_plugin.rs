use vstd::prelude::*;
use vstd::string::*;
use crate::error::Error;
use crate::error::Res;
use crate::error::R;
use crate::framework::Framework;
use crate::fmt::str_eq;
use crate::lifecycle::Hook;
use crate::lifecycle::LifecycleFramework;
use crate::plugins::Plugin;
use crate::bundles::invalid_source_text;
use crate::bundles::is_prefixed;
use crate::bundles::prefixed;
use crate::bundles::parse_resource;
use crate::bundles::fluent_parses;

verus! {

/// `s` with every occurrence of `p`, found from left to right, taken out, as
/// `str::replace(p, "")` leaves it.
pub open spec fn strip_all(s: Seq<char>, p: Seq<char>) -> Seq<char>
    decreases s.len(),
{
    if s.len() == 0 {
        Seq::empty()
    } else if p.len() > 0 && s.len() >= p.len() && s.take(p.len() as int) == p {
        strip_all(s.skip(p.len() as int), p)
    } else {
        seq![s[0]] + strip_all(s.skip(1), p)
    }
}

/// Whether `s` ends with `.ftl`.
pub open spec fn is_ftl_name(s: Seq<char>) -> bool {
    s.len() >= 4 && s.skip(s.len() - 4) == ".ftl"@
}

/// Whether the file name `name` ends with `.ftl`.
pub fn ends_with_ftl(name: &str) -> (r: bool)
    ensures r == is_ftl_name(name@),
{
    proof { reveal_strlit(".ftl"); }
    let n = name.unicode_len();
    if n < 4 {
        return false;
    }
    let r = name.get_char(n - 4) == '.' && name.get_char(n - 3) == 'f' && name.get_char(n - 2) == 't'
        && name.get_char(n - 1) == 'l';
    proof {
        let t = name@.skip(n - 4);
        if r {
            assert(t =~= ".ftl"@);
        } else {
            if t == ".ftl"@ {
                assert(t[0] == '.' && t[1] == 'f' && t[2] == 't' && t[3] == 'l');
            }
        }
    }
    r
}

/// `name` with every `.ftl` taken out.
pub fn strip_ftl(name: &str) -> (r: String)
    ensures r@ == strip_all(name@, ".ftl"@),
{
    proof { reveal_strlit(".ftl"); }
    let n = name.unicode_len();
    let mut out = String::new();
    let mut i: usize = 0;
    let ghost p = ".ftl"@;
    assert(p =~= seq!['.', 'f', 't', 'l']);
    assert(name@.skip(0) =~= name@);
    while i < n
        invariant
            n == name@.len(),
            i <= n,
            p == ".ftl"@,
            p == seq!['.', 'f', 't', 'l'],
            out@ + strip_all(name@.skip(i as int), p) == strip_all(name@, p),
        decreases n - i,
    {
        let ghost rest = name@.skip(i as int);
        if n - i >= 4 && name.get_char(i) == '.' && name.get_char(i + 1) == 'f' && name.get_char(i + 2) == 't'
            && name.get_char(i + 3) == 'l' {
            assert(rest.take(4) =~= p);
            assert(rest.skip(4) =~= name@.skip(i + 4));
            i += 4;
        } else {
            proof {
                if rest.len() >= 4 && rest.take(4) == p {
                    assert(rest.take(4)[0] == '.' && rest.take(4)[1] == 'f');
                    assert(rest.take(4)[2] == 't' && rest.take(4)[3] == 'l');
                }
                assert(rest.skip(1) =~= name@.skip(i + 1));
                assert(rest[0] == name@[i as int]);
            }
            let c = name.substring_char(i, i + 1);
            assert(c@ =~= seq![rest[0]]);
            let ghost before = out@;
            out.append(c);
            assert(out@ + strip_all(name@.skip(i + 1), p) =~= before + strip_all(rest, p));
            i += 1;
        }
    }
    assert(name@.skip(n as int) =~= Seq::<char>::empty());
    assert(out@ =~= strip_all(name@, p));
    out
}

/// The message sources of every locale: the locales in the order they were added, and the
/// sources of each, in the order they were added.
pub struct FluentSources {
    pub locales: Vec<String>,
    pub texts: Vec<(String, String)>,
}

/// The sources, as values.
pub struct SourcesSpec {
    pub locales: Seq<Seq<char>>,
    pub texts: Seq<(Seq<char>, Seq<char>)>,
}

impl View for FluentSources {
    type V = SourcesSpec;

    open spec fn view(&self) -> SourcesSpec {
        SourcesSpec {
            locales: self.locales@.map_values(|l: String| l@),
            texts: self.texts@.map_values(|t: (String, String)| (t.0@, t.1@)),
        }
    }
}

/// The text of the first file named `name` among `files`.
pub open spec fn file_text(files: Seq<(String, String)>, name: Seq<char>) -> Option<Seq<char>> {
    if exists|k: int| 0 <= k < files.len() && #[trigger] files[k].0@ == name {
        let k = choose|k: int| 0 <= k < files.len() && #[trigger] files[k].0@ == name
            && forall|j: int| 0 <= j < k ==> files[j].0@ != name;
        Some(files[k].1@)
    } else {
        None
    }
}

/// The sources after the file `name` of `files` is seen: a `.ftl` file adds its locale (its
/// name without `.ftl`) when new, and the text of the file of that locale when there is one.
pub open spec fn source_step(s: SourcesSpec, name: Seq<char>, files: Seq<(String, String)>) -> SourcesSpec {
    if is_ftl_name(name) {
        let loc = strip_all(name, ".ftl"@);
        let locales = if s.locales.contains(loc) { s.locales } else { s.locales.push(loc) };
        let texts = match file_text(files, loc + ".ftl"@) {
            Some(t) => s.texts.push((loc, t)),
            None => s.texts,
        };
        SourcesSpec { locales, texts }
    } else {
        s
    }
}

/// The sources after the files of `files`, up to `k`, are seen in order.
pub open spec fn sources_after(s: SourcesSpec, files: Seq<(String, String)>, k: int) -> SourcesSpec
    decreases k,
{
    if k <= 0 {
        s
    } else {
        source_step(sources_after(s, files, k - 1), files[k - 1].0@, files)
    }
}

fn find_file(files: &Vec<(String, String)>, name: &str) -> (r: Option<usize>)
    ensures
        match file_text(files@, name@) {
            Some(t) => r matches Some(k) && k < files.len() && files@[k as int].1@ == t,
            None => r is None,
        },
{
    let mut k: usize = 0;
    while k < files.len()
        invariant
            k <= files.len(),
            forall|j: int| 0 <= j < k ==> files@[j].0@ != name@,
        decreases files.len() - k,
    {
        if str_eq(files[k].0.as_str(), name) {
            proof {
                let c = choose|c: int| 0 <= c < files@.len() && #[trigger] files@[c].0@ == name@
                    && forall|j: int| 0 <= j < c ==> files@[j].0@ != name@;
                assert(files@[k as int].0@ == name@);
                if c < k {
                } else if c > k {
                    assert(files@[k as int].0@ != name@);
                }
            }
            return Some(k);
        }
        k += 1;
    }
    None
}

fn has_locale(locales: &Vec<String>, loc: &str) -> (r: bool)
    ensures r == locales@.map_values(|l: String| l@).contains(loc@),
{
    let ghost v = locales@.map_values(|l: String| l@);
    let mut k: usize = 0;
    while k < locales.len()
        invariant
            k <= locales.len(),
            v == locales@.map_values(|l: String| l@),
            forall|j: int| 0 <= j < k ==> v[j] != loc@,
        decreases locales.len() - k,
    {
        if str_eq(locales[k].as_str(), loc) {
            assert(v[k as int] == loc@);
            return true;
        }
        k += 1;
    }
    false
}

/// Whether `e` is the error of a message source that does not parse.
pub open spec fn is_parse_error(e: Error) -> bool {
    e matches Error::Message(m) && is_prefixed(m@, invalid_source_text())
}

/// Whether the file `name` of `files` gives no message source that fails to parse: it is no
/// `.ftl` file, or there is no file of its locale, or that file's text parses.
pub open spec fn source_parses(files: Seq<(String, String)>, name: Seq<char>) -> bool {
    is_ftl_name(name) ==> match file_text(files, strip_all(name, ".ftl"@) + ".ftl"@) {
        Some(t) => fluent_parses(t),
        None => true,
    }
}

/// Adds the sources of the file `name` of `files` as [`source_step`] says; fails, with the
/// locale added but not the text, when the text does not parse as a message source.
pub fn add_source(sources: &mut FluentSources, name: &str, files: &Vec<(String, String)>) -> (r: R)
    ensures
        r is Ok == source_parses(files@, name@),
        r is Ok ==> final(sources)@ == source_step(old(sources)@, name@, files@),
        r is Err ==> is_parse_error(r->Err_0)
            && final(sources)@.locales == source_step(old(sources)@, name@, files@).locales
            && final(sources)@.texts == old(sources)@.texts,
{
    if ends_with_ftl(name) {
        let loc = strip_ftl(name);
        if !has_locale(&sources.locales, loc.as_str()) {
            let ghost before = sources.locales@;
            sources.locales.push(loc.clone());
            assert(sources.locales@.map_values(|l: String| l@) =~= before.map_values(|l: String| l@).push(loc@));
        }
        let mut file = loc.clone();
        file.append(".ftl");
        if let Some(k) = find_file(files, file.as_str()) {
            if let Err(d) = parse_resource(files[k].1.clone()) {
                return Err(Error::Message(prefixed("failed to parse ", d.as_str())));
            }
            let ghost before = sources.texts@;
            sources.texts.push((loc, files[k].1.clone()));
            assert(sources.texts@.map_values(|t: (String, String)| (t.0@, t.1@))
                =~= before.map_values(|t: (String, String)| (t.0@, t.1@)).push((strip_all(name@, ".ftl"@), files@[k as int].1@)));
        }
    }
    Ok(())
}

/// Adds the sources of every file of `files`, in order; the first source that does not parse
/// ends it with an error.
pub fn add_sources(sources: &mut FluentSources, files: &Vec<(String, String)>) -> (r: R)
    ensures
        r is Ok == forall|k: int| 0 <= k < files@.len() ==> source_parses(files@, #[trigger] files@[k].0@),
        r is Ok ==> final(sources)@ == sources_after(old(sources)@, files@, files@.len() as int),
        r is Err ==> is_parse_error(r->Err_0),
        r is Err ==> exists|k: int| 0 <= k < files@.len()
            && (forall|j: int| 0 <= j < k ==> source_parses(files@, #[trigger] files@[j].0@))
            && !source_parses(files@, #[trigger] files@[k].0@)
            && final(sources)@.locales == sources_after(old(sources)@, files@, k + 1).locales
            && final(sources)@.texts == sources_after(old(sources)@, files@, k).texts,
{
    let mut k: usize = 0;
    while k < files.len()
        invariant
            k <= files.len(),
            sources@ == sources_after(old(sources)@, files@, k as int),
            forall|j: int| 0 <= j < k ==> source_parses(files@, #[trigger] files@[j].0@),
        decreases files.len() - k,
    {
        let ghost before = sources@;
        if let Err(e) = add_source(sources, files[k].0.as_str(), files) {
            assert(sources_after(old(sources)@, files@, k + 1) == source_step(before, files@[k as int].0@, files@));
            return Err(e);
        }
        k += 1;
    }
    Ok(())
}

/// Registration of message sources on a framework.
pub trait FluentFramework {
    fn add_fluent_resources(&mut self, files: &Vec<(String, String)>) -> Res<&mut Framework>;
}

impl FluentFramework for Framework {
    /// Adds the sources of the embedded `files` (name and text) to the stored sources, as
    /// [`add_sources`] does; fails when the fluent plugin is not initialized, or when a source
    /// does not parse.
    fn add_fluent_resources(&mut self, files: &Vec<(String, String)>) -> (r: Res<&mut Framework>)
        ensures
            r matches Ok(fw) ==> *final(self) == *final(fw),
            r matches Ok(fw) ==> fw.state@.dom() == old(self).state@.dom(),
            r is Err ==> final(self).state@.dom() == old(self).state@.dom(),
            r is Err ==> r == Err::<&mut Framework, Error>(Error::NotPresent) || is_parse_error(r->Err_0),
    {
        let sources = self.state.borrow_mut::<FluentSources>()?;
        add_sources(sources, files)?;
        Ok(self)
    }
}

/// The plugin that localizes the bot from message sources.
pub struct FluentPlugin;

impl Default for FluentPlugin {
    fn default() -> (r: Self) {
        FluentPlugin
    }
}

impl Plugin for FluentPlugin {
    /// Stores empty sources, and registers the building of the message bundles and the
    /// localization of the commands, in that order, to run before the main hooks.
    fn init(self, fw: &mut Framework) -> (r: R)
        ensures r is Err ==> r == Err::<(), Error>(Error::NotPresent),
    {
        fw.state.put(FluentSources { locales: Vec::new(), texts: Vec::new() });
        fw.pre_hook(Hook::BuildFluentBundles)?;
        fw.pre_hook(Hook::LocalizeCommands)?;
        Ok(())
    }
}

} // verus!
