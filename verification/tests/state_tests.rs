use nbf::error::Error;
use nbf::framework::Framework;
use nbf::plugins::index_contains;
use nbf::plugins::Plugin;
use nbf::plugins::PluginIndex;
use nbf::plugins::PluginLoader;
use std::any::TypeId;
use nbf::state::State;
use nbf::commands::localize_state_commands;
use nbf::locale::Catalog;
use nbf::poise::register;

#[derive(Default, Debug, PartialEq)]
struct Counter(u32);

#[derive(Default, Debug, PartialEq)]
struct Name(String);

#[test]
fn put_then_borrow_reads_value() {
    let mut s = State::new();
    assert!(!s.has::<Counter>());
    s.put(Counter(7));
    assert!(s.has::<Counter>());
    assert_eq!(s.borrow::<Counter>().ok(), Some(&Counter(7)));
    assert_eq!(s.try_get::<Counter>(), Some(&Counter(7)));
    assert_eq!(s.get::<Counter>().ok(), Some(&Counter(7)));
}

#[test]
fn put_replaces_and_keeps_other_types() {
    let mut s = State::new();
    s.put(Counter(1));
    s.put(Name("a".to_string()));
    s.put(Counter(2));
    assert_eq!(s.try_borrow::<Counter>(), Some(&Counter(2)));
    assert_eq!(s.try_borrow::<Name>(), Some(&Name("a".to_string())));
}

#[test]
fn borrow_of_missing_type_fails() {
    let s = State::new();
    assert!(s.try_borrow::<Counter>().is_none());
    match s.borrow::<Counter>() {
        Err(Error::NotPresent) => {}
        _ => panic!("expected NotPresent"),
    }
    assert_eq!(Error::NotPresent.message(), "Required type is not present in State container");
}

#[test]
fn borrow_mut_changes_in_place() {
    let mut s = State::new();
    s.put(Counter(1));
    s.borrow_mut::<Counter>().ok().unwrap().0 += 5;
    assert_eq!(s.borrow::<Counter>().ok(), Some(&Counter(6)));
    s.try_get_mut::<Counter>().unwrap().0 = 10;
    assert_eq!(s.get_mut::<Counter>().ok().map(|c| c.0), Some(10));
    assert!(matches!(s.borrow_mut::<Name>(), Err(Error::NotPresent)));
}

#[test]
fn or_default_inserts_only_when_missing() {
    let mut s = State::new();
    assert_eq!(s.borrow_or_default::<Counter>().ok(), Some(&Counter(0)));
    s.get_mut_or_default::<Counter>().ok().unwrap().0 = 3;
    assert_eq!(s.get_or_default::<Counter>().ok(), Some(&Counter(3)));
    assert_eq!(s.get_mut_or_default::<Counter>().ok().map(|c| c.0), Some(3));
}

#[test]
fn take_removes_value() {
    let mut s = State::new();
    s.put(Counter(4));
    assert_eq!(s.take::<Counter>().ok(), Some(Counter(4)));
    assert!(!s.has::<Counter>());
    assert!(matches!(s.take::<Counter>(), Err(Error::NotPresentToTake)));
    assert_eq!(s.try_take::<Counter>(), None);
    assert_eq!(Error::NotPresentToTake.message(), "required type is not present in State container");
}

#[test]
fn key_level_presence() {
    let mut s = State::new();
    let k = TypeId::of::<Counter>();
    assert!(!s.contains_key(&k));
    s.put(Counter(9));
    assert!(s.contains_key(&k));
    assert!(!s.contains_key(&TypeId::of::<Name>()));
    s.take::<Counter>().ok().unwrap();
    assert!(!s.contains_key(&k));
}

struct Recorder;

impl Plugin for Recorder {
    fn init(self, fw: &mut Framework) -> nbf::error::R {
        let c = fw.state.get_mut_or_default::<Counter>()?;
        c.0 += 1;
        Ok(())
    }
}

impl Default for Recorder {
    fn default() -> Self {
        Recorder
    }
}

struct Failing;

impl Plugin for Failing {
    fn init(self, _fw: &mut Framework) -> nbf::error::R {
        Err(Error::Message("no".to_string()))
    }
}

#[test]
fn require_plugin_initializes_once() {
    let mut fw = Framework::new();
    assert_eq!(fw.has_plugin::<Recorder>().ok(), Some(false));
    fw.require_plugin::<Recorder>().ok().unwrap();
    fw.require_plugin::<Recorder>().ok().unwrap();
    assert_eq!(fw.has_plugin::<Recorder>().ok(), Some(true));
    assert_eq!(fw.state.borrow::<Counter>().ok(), Some(&Counter(1)));
    let idx = fw.state.borrow::<PluginIndex>().ok().unwrap();
    assert_eq!(idx.len(), 1);
    assert!(index_contains(idx, &TypeId::of::<Recorder>()));
    assert!(!index_contains(idx, &TypeId::of::<Failing>()));
}

#[test]
fn failing_plugin_is_not_recorded() {
    let mut fw = Framework::new();
    match fw.init_plugin(Failing) {
        Err(Error::Message(m)) => assert_eq!(m, "no"),
        _ => panic!("expected the plugin's error"),
    }
    assert_eq!(fw.has_plugin::<Failing>().ok(), Some(false));
}

#[test]
fn repeated_locale_keeps_the_last_catalog() {
    let mut s = State::new();
    s.put(vec![register()]);
    let mut first = Catalog::new();
    first.add("cmd_register".to_string(), None, "erstes".to_string());
    let mut second = Catalog::new();
    second.add("cmd_register".to_string(), None, "zweites".to_string());
    s.put(vec![(String::from("de"), first), (String::from("de"), second)]);
    assert!(localize_state_commands(&mut s).is_ok());
    let cmds = s.borrow::<Vec<nbf::commands::Cmd>>().ok().unwrap();
    assert_eq!(cmds.len(), 1);
    assert_eq!(cmds[0].name, "register");
    assert_eq!(cmds[0].name_localizations.get("de").map(|t| t.as_str()), Some("zweites"));
    let kept = s.borrow::<Vec<(String, Catalog)>>().ok().unwrap();
    assert_eq!(kept.len(), 1);
    assert_eq!(kept[0].1.lookup("cmd_register", None), Some("zweites".to_string()));
}

#[test]
fn new_framework_has_no_plugin() {
    let mut fw = Framework::new();
    assert_eq!(fw.has_plugin::<nbf::poise::PoisePlugin>().ok(), Some(false));
    assert!(fw.state.borrow::<PluginIndex>().ok().unwrap().is_empty());
}

#[test]
fn localization_keeps_the_tree_shape() {
    let mut cmd = nbf::poise::bare_command("top");
    cmd.parameters.push(nbf::poise::bare_parameter("global"));
    cmd.subcommands.push(nbf::poise::bare_command("apps"));
    let mut cat = Catalog::new();
    cat.add("cmd_top".to_string(), None, "spitze".to_string());
    cat.add("cmd_top".to_string(), Some("prm_global".to_string()), "global".to_string());
    cat.add("cmd_top_apps".to_string(), None, "spiele".to_string());
    let mut cmds = vec![cmd];
    nbf::commands::localize_commands(&mut cmds, &vec![("de".to_string(), cat)]);
    let c = &cmds[0];
    assert_eq!(c.name, "top");
    assert_eq!(c.name_localizations.get("de").map(|t| t.as_str()), Some("spitze"));
    assert_eq!(c.parameters.len(), 1);
    assert_eq!(c.parameters[0].name, "global");
    assert_eq!(c.parameters[0].name_localizations.get("de").map(|t| t.as_str()), Some("global"));
    assert_eq!(c.subcommands.len(), 1);
    assert_eq!(c.subcommands[0].name, "apps");
    assert_eq!(c.subcommands[0].name_localizations.get("de").map(|t| t.as_str()), Some("spiele"));
    assert_eq!(c.subcommands[0].name_localizations.get("fr"), None);
}
