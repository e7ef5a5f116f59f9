use vstd::prelude::*;
use std::any::TypeId;
use crate::error::Error;
use crate::error::Res;
use crate::error::R;
use crate::framework::Framework;
use crate::state::adds_at_most_one;
use crate::state::keeps_keys;
use crate::state::same_key;
use crate::state::type_key;
use crate::state::SharedData;

verus! {

/// The record of the plugins that were initialized, by type.
pub type PluginIndex = Vec<TypeId>;

/// A part of the application that sets itself up on a framework.
pub trait Plugin {
    /// Sets the plugin up on `fw`; a plugin adds values to the state and removes none.
    fn init(self, fw: &mut Framework) -> (r: R)
        ensures keeps_keys(old(fw).state@, final(fw).state@);
}

/// Whether `key` is recorded in `index`.
pub fn index_contains(index: &PluginIndex, key: &TypeId) -> (r: bool)
    ensures r == index@.contains(*key),
{
    let mut i: usize = 0;
    while i < index.len()
        invariant
            i <= index.len(),
            forall|j: int| 0 <= j < i ==> index@[j] != *key,
        decreases index.len() - i,
    {
        if same_key(&index[i], key) {
            assert(index@[i as int] == *key);
            return true;
        }
        i += 1;
    }
    false
}

/// Loading of plugins onto a framework, each at most once when required.
pub trait PluginLoader: Sized {
    fn has_plugin<T: SharedData>(&mut self) -> Res<bool>;

    fn init_plugin<T: Plugin + SharedData>(&mut self, plugin: T) -> Res<&mut Self>;

    fn require_plugin<T: Plugin + SharedData + Default>(&mut self) -> Res<&mut Self>;
}

impl PluginLoader for Framework {
    /// Whether a plugin of type `T` was initialized; the plugin index is created empty when
    /// there is none.
    fn has_plugin<T: SharedData>(&mut self) -> (r: Res<bool>)
        ensures
            adds_at_most_one(old(self).state@, final(self).state@),
            keeps_keys(old(self).state@, final(self).state@),
            final(self).state@.len() > 0,
            old(self).state@.len() == 0 ==> r == Ok::<bool, Error>(false),
            r is Err ==> r == Err::<bool, Error>(Error::NotPresent),
    {
        if !self.state.has::<PluginIndex>() {
            self.state.fill_default::<PluginIndex>();
            return Ok(false);
        }
        let index = self.state.get_or_default::<PluginIndex>()?;
        let k = type_key::<T>();
        Ok(index_contains(index, &k))
    }

    /// Initializes `plugin` on this framework, then records its type in the plugin index.
    fn init_plugin<T: Plugin + SharedData>(&mut self, plugin: T) -> (r: Res<&mut Self>)
        ensures
            r matches Ok(fw) ==> *final(self) == *final(fw),
            r matches Ok(fw) ==> keeps_keys(old(self).state@, fw.state@) && fw.state@.len() > 0,
            r is Err ==> keeps_keys(old(self).state@, final(self).state@),
    {
        plugin.init(self)?;
        let k = type_key::<T>();
        let index = self.state.get_mut_or_default::<PluginIndex>()?;
        index.push(k);
        Ok(self)
    }

    /// Initializes a default plugin of type `T` unless one was initialized before.
    fn require_plugin<T: Plugin + SharedData + Default>(&mut self) -> (r: Res<&mut Self>)
        ensures
            r matches Ok(fw) ==> *final(self) == *final(fw),
            r matches Ok(fw) ==> keeps_keys(old(self).state@, fw.state@) && fw.state@.len() > 0,
            r is Err ==> keeps_keys(old(self).state@, final(self).state@),
    {
        if !self.has_plugin::<T>()? {
            return self.init_plugin(T::default());
        }
        Ok(self)
    }
}

} // verus!
