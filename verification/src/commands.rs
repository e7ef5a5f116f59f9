use vstd::prelude::*;
use vstd::string::*;
use crate::fmt::str_eq;
use crate::error::Error;
use crate::error::R;
use crate::state::State;
use crate::locale::opt_str_text;
use crate::locale::opt_text;
use crate::locale::Catalog;
use crate::locale::Localizations;

verus! {

/// A choice of a command parameter.
pub struct Choice {
    pub name: String,
    pub localizations: Localizations,
}

/// A parameter of a command.
pub struct Parameter {
    pub name: String,
    pub description: Option<String>,
    pub name_localizations: Localizations,
    pub description_localizations: Localizations,
    pub choices: Vec<Choice>,
}

/// A bot command, with its parameters and subcommands.
pub struct Cmd {
    /// The name that the command is known by in the code; localization leaves it alone.
    pub identifying_name: String,
    pub name: String,
    pub description: Option<String>,
    pub subcommand_required: bool,
    pub name_localizations: Localizations,
    pub description_localizations: Localizations,
    pub parameters: Vec<Parameter>,
    pub subcommands: Vec<Cmd>,
}

/// Whether `c` has the Unicode property Lowercase, as std's `char::is_lowercase` says.
pub uninterp spec fn is_lowercase(c: char) -> bool;

/// `char::is_lowercase` of std: whether `c` has the Unicode property Lowercase; the ASCII
/// letters `a` to `z` have it, and `A` to `Z` do not.
#[verifier::external_body]
fn char_is_lowercase(c: char) -> (r: bool)
    ensures
        r == is_lowercase(c),
        'a' <= c <= 'z' ==> r,
        'A' <= c <= 'Z' ==> !r,
{
    c.is_lowercase()
}

/// Every character of `s` is lowercase.
pub open spec fn all_lowercase(s: Seq<char>) -> bool {
    forall|i: int| 0 <= i < s.len() ==> is_lowercase(#[trigger] s[i])
}

/// Whether every character of `s` is lowercase.
pub fn is_all_lowercase(s: &str) -> (r: bool)
    ensures r == all_lowercase(s@),
{
    let n = s.unicode_len();
    let mut i: usize = 0;
    while i < n
        invariant
            n == s@.len(),
            i <= n,
            forall|j: int| 0 <= j < i ==> is_lowercase(#[trigger] s@[j]),
        decreases n - i,
    {
        if !char_is_lowercase(s.get_char(i)) {
            return false;
        }
        i += 1;
    }
    true
}

/// The localized text at `path` (and `attr`), kept only when `lc` does not ask for an
/// all-lowercase text or the text is all lowercase.
pub open spec fn localized(cat: &Catalog, path: Seq<char>, attr: Option<Seq<char>>, lc: bool) -> Option<Seq<char>> {
    match cat.spec_lookup(path, attr) {
        Some(t) => if !lc || all_lowercase(t) { Some(t) } else { None },
        None => None,
    }
}

/// The localized text at `path` (and `attr`) as [`localized`] says.
pub fn try_cmd_loc(cat: &Catalog, path: &str, attr: Option<&str>, lc: bool) -> (r: Option<String>)
    ensures opt_text(r) == localized(cat, path@, opt_str_text(attr), lc),
{
    match cat.lookup(path, attr) {
        Some(t) => {
            if !lc || is_all_lowercase(t.as_str()) {
                Some(t)
            } else {
                None
            }
        },
        None => None,
    }
}

/// A name and its localizations after a lookup found `found`: with `default` the name becomes
/// the text, else the text is the name's localization for `loc`.
pub open spec fn name_update(default: bool, found: Option<Seq<char>>, name: Seq<char>, locs: Map<Seq<char>, Seq<char>>, loc: Seq<char>) -> (Seq<char>, Map<Seq<char>, Seq<char>>) {
    match found {
        Some(t) => if default { (t, locs) } else { (name, locs.insert(loc, t)) },
        None => (name, locs),
    }
}

/// A description and its localizations after a lookup found `found`.
pub open spec fn description_update(default: bool, found: Option<Seq<char>>, desc: Option<Seq<char>>, locs: Map<Seq<char>, Seq<char>>, loc: Seq<char>) -> (Option<Seq<char>>, Map<Seq<char>, Seq<char>>) {
    match found {
        Some(t) => if default { (Some(t), locs) } else { (desc, locs.insert(loc, t)) },
        None => (desc, locs),
    }
}

/// `after` is the choice `before` localized from the messages at `path`.
pub open spec fn choice_localized(before: Choice, after: Choice, loc: Seq<char>, cat: &Catalog, path: Seq<char>, default: bool) -> bool {
    let n = name_update(default, localized(cat, path, Some(before.name@), false), before.name@, before.localizations@, loc);
    after.name@ == n.0 && after.localizations@ == n.1
}

/// `after` is the parameter `before` localized from the messages of the command at `path`;
/// its choices use the messages at `cho_` and the parameter's new name.
pub open spec fn param_localized(before: Parameter, after: Parameter, loc: Seq<char>, cat: &Catalog, path: Seq<char>, default: bool) -> bool {
    let prm_path = "prm_"@ + before.name@;
    let n = name_update(default, localized(cat, path, Some(prm_path), true), before.name@, before.name_localizations@, loc);
    let d = description_update(default, localized(cat, path, Some(prm_path + "_desc"@), false), opt_text(before.description), before.description_localizations@, loc);
    &&& after.name@ == n.0
    &&& after.name_localizations@ == n.1
    &&& opt_text(after.description) == d.0
    &&& after.description_localizations@ == d.1
    &&& after.choices.len() == before.choices.len()
    &&& forall|j: int| 0 <= j < before.choices.len() ==>
        choice_localized(#[trigger] before.choices@[j], after.choices@[j], loc, cat, "cho_"@ + n.0, default)
}

/// `after` is the command `before`, below the command at `parent`, localized for `loc`:
/// unless it only groups subcommands, its name, description and parameters take the texts
/// found at `{parent}_{name}`; its subcommands are localized below that path.
pub open spec fn cmd_localized(before: Cmd, after: Cmd, loc: Seq<char>, cat: &Catalog, parent: Seq<char>, default: bool) -> bool
    decreases before,
{
    let path = parent + "_"@ + before.name@;
    &&& after.identifying_name@ == before.identifying_name@
    &&& after.subcommand_required == before.subcommand_required
    &&& if before.subcommand_required {
        &&& after.name@ == before.name@
        &&& after.name_localizations@ == before.name_localizations@
        &&& opt_text(after.description) == opt_text(before.description)
        &&& after.description_localizations@ == before.description_localizations@
        &&& after.parameters@ == before.parameters@
    } else {
        let n = name_update(default, localized(cat, path, None, true), before.name@, before.name_localizations@, loc);
        let d = description_update(default, localized(cat, path, Some("desc"@), false), opt_text(before.description), before.description_localizations@, loc);
        &&& after.name@ == n.0
        &&& after.name_localizations@ == n.1
        &&& opt_text(after.description) == d.0
        &&& after.description_localizations@ == d.1
        &&& after.parameters.len() == before.parameters.len()
        &&& forall|j: int| 0 <= j < before.parameters.len() ==>
            param_localized(#[trigger] before.parameters@[j], after.parameters@[j], loc, cat, path, default)
    }
    &&& after.subcommands.len() == before.subcommands.len()
    &&& forall|j: int| 0 <= j < before.subcommands.len() ==>
        cmd_localized(#[trigger] before.subcommands@[j], after.subcommands@[j], loc, cat, path, default)
}

/// The path of a top-level command's parent.
pub open spec fn parent_text(parent_path: Option<&str>) -> Seq<char> {
    match parent_path {
        Some(p) => p@,
        None => "cmd"@,
    }
}

fn apply_choice_loc(cho: &mut Choice, loc: &str, cat: &Catalog, path: &str, default: bool)
    ensures choice_localized(*old(cho), *final(cho), loc@, cat, path@, default),
{
    if let Some(name) = try_cmd_loc(cat, path, Some(cho.name.as_str()), false) {
        if default {
            cho.name = name;
        } else {
            cho.localizations.insert(String::from_str(loc), name);
        }
    }
}

fn apply_param_loc(prm: &mut Parameter, loc: &str, cat: &Catalog, path: &str, default: bool)
    ensures param_localized(*old(prm), *final(prm), loc@, cat, path@, default),
{
    let mut prm_path = String::from_str("prm_");
    prm_path.append(prm.name.as_str());
    if let Some(name) = try_cmd_loc(cat, path, Some(prm_path.as_str()), true) {
        if default {
            prm.name = name;
        } else {
            prm.name_localizations.insert(String::from_str(loc), name);
        }
    }
    let mut desc_path = prm_path.clone();
    desc_path.append("_desc");
    if let Some(desc) = try_cmd_loc(cat, path, Some(desc_path.as_str()), false) {
        if default {
            prm.description = Some(desc);
        } else {
            prm.description_localizations.insert(String::from_str(loc), desc);
        }
    }
    let mut cho_path = String::from_str("cho_");
    cho_path.append(prm.name.as_str());
    let ghost mid = *prm;
    let mut j: usize = 0;
    while j < prm.choices.len()
        invariant
            j <= prm.choices.len(),
            prm.choices.len() == mid.choices.len(),
            prm.name == mid.name,
            prm.description == mid.description,
            prm.name_localizations == mid.name_localizations,
            prm.description_localizations == mid.description_localizations,
            cho_path@ == "cho_"@ + mid.name@,
            forall|k: int| 0 <= k < j ==>
                choice_localized(#[trigger] mid.choices@[k], prm.choices@[k], loc@, cat, cho_path@, default),
            forall|k: int| j <= k < prm.choices.len() ==> prm.choices@[k] == mid.choices@[k],
        decreases prm.choices.len() - j,
    {
        apply_choice_loc(&mut prm.choices[j], loc, cat, cho_path.as_str(), default);
        j += 1;
    }
    assert(prm_path@ == "prm_"@ + old(prm).name@);
    assert(desc_path@ == "prm_"@ + old(prm).name@ + "_desc"@);
}

/// Localizes `cmd` and its subcommands for `loc` from the messages in `cat`, as
/// [`cmd_localized`] says; with `default` the texts replace the command's own.
pub fn apply_cmd_loc(cmd: &mut Cmd, loc: &str, cat: &Catalog, parent_path: Option<&str>, default: bool)
    ensures cmd_localized(*old(cmd), *final(cmd), loc@, cat, parent_text(parent_path), default),
    decreases *old(cmd),
{
    let mut path = match parent_path {
        Some(p) => String::from_str(p),
        None => String::from_str("cmd"),
    };
    path.append("_");
    path.append(cmd.name.as_str());
    if !cmd.subcommand_required {
        if let Some(name) = try_cmd_loc(cat, path.as_str(), None, true) {
            if default {
                cmd.name = name;
            } else {
                cmd.name_localizations.insert(String::from_str(loc), name);
            }
        }
        if let Some(desc) = try_cmd_loc(cat, path.as_str(), Some("desc"), false) {
            if default {
                cmd.description = Some(desc);
            } else {
                cmd.description_localizations.insert(String::from_str(loc), desc);
            }
        }
        let ghost mid = *cmd;
        let mut j: usize = 0;
        while j < cmd.parameters.len()
            invariant
                j <= cmd.parameters.len(),
                cmd.parameters.len() == mid.parameters.len(),
                cmd.identifying_name == mid.identifying_name,
                cmd.name == mid.name,
                cmd.description == mid.description,
                cmd.subcommand_required == mid.subcommand_required,
                cmd.name_localizations == mid.name_localizations,
                cmd.description_localizations == mid.description_localizations,
                cmd.subcommands == mid.subcommands,
                forall|k: int| 0 <= k < j ==>
                    param_localized(#[trigger] mid.parameters@[k], cmd.parameters@[k], loc@, cat, path@, default),
                forall|k: int| j <= k < cmd.parameters.len() ==> cmd.parameters@[k] == mid.parameters@[k],
            decreases cmd.parameters.len() - j,
        {
            apply_param_loc(&mut cmd.parameters[j], loc, cat, path.as_str(), default);
            j += 1;
        }
    }
    let ghost mid2 = *cmd;
    let mut i: usize = 0;
    while i < cmd.subcommands.len()
        invariant
            i <= cmd.subcommands.len(),
            cmd.subcommands.len() == mid2.subcommands.len(),
            mid2.subcommands == old(cmd).subcommands,
            mid2.identifying_name == old(cmd).identifying_name,
            cmd.identifying_name == mid2.identifying_name,
            cmd.name == mid2.name,
            cmd.description == mid2.description,
            cmd.subcommand_required == mid2.subcommand_required,
            cmd.name_localizations == mid2.name_localizations,
            cmd.description_localizations == mid2.description_localizations,
            cmd.parameters == mid2.parameters,
            forall|k: int| 0 <= k < i ==>
                cmd_localized(#[trigger] mid2.subcommands@[k], cmd.subcommands@[k], loc@, cat, path@, default),
            forall|k: int| i <= k < cmd.subcommands.len() ==> cmd.subcommands@[k] == mid2.subcommands@[k],
        decreases cmd.subcommands.len() - i,
    {
        proof {
            let o = *old(cmd);
            assert(decreases_to!(o => o.subcommands));
            assert(decreases_to!(o.subcommands => o.subcommands@));
            assert(decreases_to!(o.subcommands@ => o.subcommands@[i as int]));
            assert(decreases_to!(o => o.subcommands@[i as int]));
        }
        apply_cmd_loc(&mut cmd.subcommands[i], loc, cat, Some(path.as_str()), default);
        i += 1;
    }
    assert(path@ == parent_text(parent_path) + "_"@ + old(cmd).name@);
}


/// Whether the commands can be localized for `loc`: one of the locales that Discord offers.
pub open spec fn is_supported_locale(loc: Seq<char>) -> bool {
    loc == "id"@ ||
        loc == "da"@ ||
        loc == "de"@ ||
        loc == "en-GB"@ ||
        loc == "en-US"@ ||
        loc == "es-ES"@ ||
        loc == "fr"@ ||
        loc == "hr"@ ||
        loc == "it"@ ||
        loc == "lt"@ ||
        loc == "hu"@ ||
        loc == "nl"@ ||
        loc == "no"@ ||
        loc == "pl"@ ||
        loc == "pt-BR"@ ||
        loc == "ro"@ ||
        loc == "fi"@ ||
        loc == "sv-SE"@ ||
        loc == "vi"@ ||
        loc == "tr"@ ||
        loc == "cs"@ ||
        loc == "el"@ ||
        loc == "bg"@ ||
        loc == "ru"@ ||
        loc == "uk"@ ||
        loc == "hi"@ ||
        loc == "th"@ ||
        loc == "zh-CN"@ ||
        loc == "ja"@ ||
        loc == "zh-TW"@ ||
        loc == "ko"@
}

/// Whether the commands can be localized for `loc`.
pub fn supported_locale(loc: &str) -> (r: bool)
    ensures r == is_supported_locale(loc@),
{
    str_eq(loc, "id") ||
        str_eq(loc, "da") ||
        str_eq(loc, "de") ||
        str_eq(loc, "en-GB") ||
        str_eq(loc, "en-US") ||
        str_eq(loc, "es-ES") ||
        str_eq(loc, "fr") ||
        str_eq(loc, "hr") ||
        str_eq(loc, "it") ||
        str_eq(loc, "lt") ||
        str_eq(loc, "hu") ||
        str_eq(loc, "nl") ||
        str_eq(loc, "no") ||
        str_eq(loc, "pl") ||
        str_eq(loc, "pt-BR") ||
        str_eq(loc, "ro") ||
        str_eq(loc, "fi") ||
        str_eq(loc, "sv-SE") ||
        str_eq(loc, "vi") ||
        str_eq(loc, "tr") ||
        str_eq(loc, "cs") ||
        str_eq(loc, "el") ||
        str_eq(loc, "bg") ||
        str_eq(loc, "ru") ||
        str_eq(loc, "uk") ||
        str_eq(loc, "hi") ||
        str_eq(loc, "th") ||
        str_eq(loc, "zh-CN") ||
        str_eq(loc, "ja") ||
        str_eq(loc, "zh-TW") ||
        str_eq(loc, "ko")
}

/// Each command of `after` is the one of `before` localized for `loc`.
pub open spec fn cmds_localized(before: Seq<Cmd>, after: Seq<Cmd>, loc: Seq<char>, cat: &Catalog, default: bool) -> bool {
    &&& after.len() == before.len()
    &&& forall|i: int| 0 <= i < before.len() ==>
        cmd_localized(#[trigger] before[i], after[i], loc, cat, "cmd"@, default)
}

/// `stages[k + 1]` is `stages[k]` localized for the `k`-th locale when it is supported, else
/// unchanged.
pub open spec fn localization_stages(stages: Seq<Seq<Cmd>>, bundles: Seq<(String, Catalog)>) -> bool {
    &&& stages.len() == bundles.len() + 1
    &&& forall|k: int| 0 <= k < bundles.len() ==> if is_supported_locale(#[trigger] bundles[k].0@) {
        cmds_localized(stages[k], stages[k + 1], bundles[k].0@, &bundles[k].1, false)
    } else {
        stages[k + 1] == stages[k]
    }
}

/// The index of the catalog of `loc`, if there is one.
pub open spec fn bundle_index(bundles: Seq<(String, Catalog)>, loc: Seq<char>) -> Option<int> {
    if exists|k: int| 0 <= k < bundles.len() && #[trigger] bundles[k].0@ == loc {
        Some(choose|k: int| 0 <= k < bundles.len() && #[trigger] bundles[k].0@ == loc)
    } else {
        None
    }
}

/// No two catalogs are for the same locale.
pub open spec fn distinct_locales(bundles: Seq<(String, Catalog)>) -> bool {
    forall|a: int, b: int| 0 <= a < bundles.len() && 0 <= b < bundles.len()
        && bundles[a].0@ == bundles[b].0@ ==> a == b
}

fn localize_all(cmds: &mut Vec<Cmd>, loc: &str, cat: &Catalog, default: bool)
    ensures cmds_localized(old(cmds)@, final(cmds)@, loc@, cat, default),
{
    let ghost before = cmds@;
    let mut i: usize = 0;
    while i < cmds.len()
        invariant
            i <= cmds.len(),
            cmds.len() == before.len(),
            forall|k: int| 0 <= k < i ==> cmd_localized(#[trigger] before[k], cmds@[k], loc@, cat, "cmd"@, default),
            forall|k: int| i <= k < cmds.len() ==> cmds@[k] == before[k],
        decreases cmds.len() - i,
    {
        apply_cmd_loc(&mut cmds[i], loc, cat, None, default);
        i += 1;
    }
}

/// Localizes the commands for every supported locale of `bundles`, in order, then makes the
/// `en-US` texts the commands' own when there is an `en-US` catalog.
pub fn localize_commands(cmds: &mut Vec<Cmd>, bundles: &Vec<(String, Catalog)>)
    requires distinct_locales(bundles@),
    ensures
        exists|stages: Seq<Seq<Cmd>>| {
            &&& localization_stages(stages, bundles@)
            &&& stages[0] == old(cmds)@
            &&& match bundle_index(bundles@, "en-US"@) {
                Some(k) => cmds_localized(stages.last(), final(cmds)@, "en-US"@, &bundles@[k].1, true),
                None => final(cmds)@ == stages.last(),
            }
        },
{
    let ghost mut stages: Seq<Seq<Cmd>> = seq![cmds@];
    let mut k: usize = 0;
    while k < bundles.len()
        invariant
            k <= bundles.len(),
            stages.len() == k + 1,
            stages[0] == old(cmds)@,
            stages.last() == cmds@,
            forall|j: int| 0 <= j < k ==> if is_supported_locale(#[trigger] bundles@[j].0@) {
                cmds_localized(stages[j], stages[j + 1], bundles@[j].0@, &bundles@[j].1, false)
            } else {
                stages[j + 1] == stages[j]
            },
        decreases bundles.len() - k,
    {
        let loc = bundles[k].0.as_str();
        if supported_locale(loc) {
            localize_all(cmds, loc, &bundles[k].1, false);
        }
        proof { stages = stages.push(cmds@); }
        k += 1;
    }
    let mut found: Option<usize> = None;
    let mut j: usize = 0;
    while j < bundles.len()
        invariant
            j <= bundles.len(),
            found is None ==> forall|m: int| 0 <= m < j ==> bundles@[m].0@ != "en-US"@,
            found matches Some(f) ==> f < bundles.len() && bundles@[f as int].0@ == "en-US"@,
        decreases bundles.len() - j,
    {
        if found.is_none() && str_eq(bundles[j].0.as_str(), "en-US") {
            found = Some(j);
        }
        j += 1;
    }
    match found {
        Some(f) => {
            proof {
                assert(bundles@[f as int].0@ == "en-US"@);
                let c = choose|m: int| 0 <= m < bundles@.len() && #[trigger] bundles@[m].0@ == "en-US"@;
                assert(c == f);
            }
            localize_all(cmds, "en-US", &bundles[f].1, true);
        },
        None => {},
    }
    assert(localization_stages(stages, bundles@));
}

/// Whether a catalog after the first one of `s` is for the first one's locale.
pub open spec fn locale_later(s: Seq<(String, Catalog)>) -> bool {
    exists|j: int| 1 <= j < s.len() && #[trigger] s[j].0@ == s[0].0@
}

/// The catalogs of `s`, in order, without those for a locale that a later one is for: of each
/// locale, the last catalog is kept, as when each is stored in a map by its locale.
pub open spec fn keep_last(s: Seq<(String, Catalog)>) -> Seq<(String, Catalog)>
    decreases s.len(),
{
    if s.len() == 0 {
        s
    } else if locale_later(s) {
        keep_last(s.skip(1))
    } else {
        seq![s[0]] + keep_last(s.skip(1))
    }
}

proof fn lemma_keep_last(s: Seq<(String, Catalog)>)
    ensures
        distinct_locales(keep_last(s)),
        forall|i: int| 0 <= i < keep_last(s).len() ==> s.contains(#[trigger] keep_last(s)[i]),
    decreases s.len(),
{
    if s.len() > 0 {
        let t = s.skip(1);
        lemma_keep_last(t);
        let k = keep_last(t);
        assert forall|i: int| 0 <= i < k.len() implies s.contains(#[trigger] k[i]) by {
            let j = choose|j: int| 0 <= j < t.len() && #[trigger] t[j] == k[i];
            assert(s[j + 1] == k[i]);
        }
        if !locale_later(s) {
            let r = keep_last(s);
            assert(r == seq![s[0]] + k);
            assert forall|a: int, b: int| 0 <= a < r.len() && 0 <= b < r.len() && r[a].0@ == r[b].0@ implies a == b by {
                if a == 0 && b > 0 {
                    assert(s.contains(k[b - 1]));
                    let j = choose|j: int| 0 <= j < s.len() && #[trigger] s[j] == k[b - 1];
                    if j == 0 {
                        assert(t.contains(k[b - 1]));
                        let m = choose|m: int| 0 <= m < t.len() && #[trigger] t[m] == k[b - 1];
                        assert(s[m + 1].0@ == s[0].0@);
                    } else {
                        assert(s[j].0@ == s[0].0@);
                    }
                } else if b == 0 && a > 0 {
                    assert(t.contains(k[a - 1]));
                    let m = choose|m: int| 0 <= m < t.len() && #[trigger] t[m] == k[a - 1];
                    assert(s[m + 1].0@ == s[0].0@);
                } else if a > 0 && b > 0 {
                    assert(k[a - 1].0@ == k[b - 1].0@);
                }
            }
            assert forall|i: int| 0 <= i < r.len() implies s.contains(#[trigger] r[i]) by {
                if i == 0 {
                    assert(s[0] == r[0]);
                } else {
                    assert(r[i] == k[i - 1]);
                }
            }
        }
    }
}

/// Whether a catalog after the `i`-th one of `v` is for the same locale.
fn has_later(v: &Vec<(String, Catalog)>, i: usize) -> (r: bool)
    requires i < v.len(),
    ensures r == locale_later(v@.skip(i as int)),
{
    let mut j: usize = i + 1;
    while j < v.len()
        invariant
            i < j <= v.len(),
            forall|m: int| i < m < j ==> v@[m].0@ != v@[i as int].0@,
        decreases v.len() - j,
    {
        if str_eq(v[j].0.as_str(), v[i].0.as_str()) {
            assert(v@.skip(i as int)[j - i].0@ == v@.skip(i as int)[0].0@);
            return true;
        }
        j += 1;
    }
    proof {
        let s = v@.skip(i as int);
        assert forall|m: int| 1 <= m < s.len() implies #[trigger] s[m].0@ != s[0].0@ by {
            assert(s[m] == v@[i + m]);
        }
    }
    false
}

/// Keeps, of each locale, the last catalog of `v`, as [`keep_last`] says.
pub fn keep_last_per_locale(v: &mut Vec<(String, Catalog)>)
    ensures
        final(v)@ == keep_last(old(v)@),
        distinct_locales(final(v)@),
{
    let mut i: usize = 0;
    assert(v@.skip(0) =~= v@);
    assert(v@.take(0) + keep_last(v@.skip(0)) =~= keep_last(v@));
    while i < v.len()
        invariant
            i <= v.len(),
            keep_last(old(v)@) == v@.take(i as int) + keep_last(v@.skip(i as int)),
        decreases v.len() - i,
    {
        let ghost s = v@;
        assert(s.skip(i as int).skip(1) =~= s.skip(i + 1));
        if has_later(v, i) {
            v.remove(i);
            assert(v@.take(i as int) =~= s.take(i as int));
            assert(v@.skip(i as int) =~= s.skip(i + 1));
        } else {
            assert(s.take(i + 1) =~= s.take(i as int).push(s[i as int]));
            assert(s.skip(i as int)[0] == s[i as int]);
            assert(s.take(i as int) + keep_last(s.skip(i as int)) =~= s.take(i + 1) + keep_last(s.skip(i + 1)));
            i += 1;
        }
    }
    assert(v@.take(i as int) =~= v@);
    assert(v@.skip(i as int) =~= Seq::<(String, Catalog)>::empty());
    proof { lemma_keep_last(old(v)@); }
}

/// Of the kept state, the commands and the catalogs by locale: keeps the last catalog of each
/// locale, as [`keep_last_per_locale`] does, then localizes the commands as
/// [`localize_commands`] does and puts both back.
pub fn localize_state_commands(state: &mut State) -> (r: R)
    ensures
        r is Err ==> r == Err::<(), Error>(Error::NotPresentToTake) || r == Err::<(), Error>(Error::NotPresent),
{
    let mut cmds = state.take::<Vec<Cmd>>()?;
    let mut bundles = match state.take::<Vec<(String, Catalog)>>() {
        Ok(b) => b,
        Err(_) => {
            return Err(Error::NotPresent);
        },
    };
    keep_last_per_locale(&mut bundles);
    localize_commands(&mut cmds, &bundles);
    state.put(bundles);
    state.put(cmds);
    Ok(())
}

/// Whether no two catalogs of `bundles` are for the same locale.
pub fn check_distinct(bundles: &Vec<(String, Catalog)>) -> (r: bool)
    ensures r == distinct_locales(bundles@),
{
    let mut a: usize = 0;
    while a < bundles.len()
        invariant
            a <= bundles.len(),
            forall|x: int, y: int| 0 <= x < a && 0 <= y < bundles@.len() && bundles@[x].0@ == bundles@[y].0@ ==> x == y,
        decreases bundles.len() - a,
    {
        let mut b: usize = 0;
        while b < bundles.len()
            invariant
                a < bundles.len(),
                b <= bundles.len(),
                forall|x: int, y: int| 0 <= x < a && 0 <= y < bundles@.len() && bundles@[x].0@ == bundles@[y].0@ ==> x == y,
                forall|y: int| 0 <= y < b && bundles@[a as int].0@ == bundles@[y].0@ ==> a == y,
            decreases bundles.len() - b,
        {
            if a != b && str_eq(bundles[a].0.as_str(), bundles[b].0.as_str()) {
                return false;
            }
            b += 1;
        }
        a += 1;
    }
    true
}

} // verus!
