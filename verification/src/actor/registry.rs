use crate::actor::runner::ActorID;
use crate::actor::text::{decimal, decimal_string, push_decimal};
use crate::utils::table::{
    entries, label_of, labels, names_get, names_insert, names_new, table_insert, table_is_empty,
    table_new, table_remove, Names, Table,
};
use vstd::prelude::*;
use vstd::string::StringExecFns;

verus! {

/// The mathematical content of a [`Registry`].
pub ghost struct RegistryView {
    /// The actors that were registered, each with its name if it has one.
    pub names: Map<ActorID, Option<Seq<char>>>,
    /// The actors whose event loop runs.
    pub running: Set<ActorID>,
}

impl RegistryView {
    /// The name of the actor `id`, if it is registered and has one.
    pub open spec fn name_of(self, id: ActorID) -> Option<Seq<char>> {
        if self.names.contains_key(id) {
            self.names[id]
        } else {
            None
        }
    }

    /// The name of the actor, or else the decimal numeral of its identity.
    pub open spec fn name_or_id(self, id: ActorID) -> Seq<char> {
        match self.name_of(id) {
            Some(name) => name,
            None => decimal(id as nat),
        }
    }

    /// The actor as log lines show it: `<name:id>`, or `<anonymous actor:id>`.
    pub open spec fn tagged_name_or_id(self, id: ActorID) -> Seq<char> {
        match self.name_of(id) {
            Some(name) => "<"@ + name + ":"@ + decimal(id as nat) + ">"@,
            None => "<anonymous actor:"@ + decimal(id as nat) + ">"@,
        }
    }
}

/// The names of the actors of a process and the set of those that run.
///
/// Names serve diagnostics only and never affect where a message goes. The
/// set of running actors tells when every actor is done.
pub struct Registry {
    names: Names,
    running: Table,
}

impl View for Registry {
    type V = RegistryView;

    closed spec fn view(&self) -> RegistryView {
        RegistryView { names: labels(self.names), running: entries(self.running).dom() }
    }
}

impl Registry {
    /// A registry without actors.
    pub fn new() -> (registry: Self)
        ensures
            registry@ == (RegistryView { names: Map::empty(), running: Set::empty() }),
    {
        Registry { names: names_new(), running: table_new() }
    }

    /// Enters a new actor, without a name.
    pub fn register(&mut self, id: ActorID)
        ensures
            final(self)@ == (RegistryView {
                names: old(self)@.names.insert(id, None),
                ..old(self)@
            }),
    {
        names_insert(&mut self.names, id, None);
    }

    /// Notes that the event loop of the actor was launched.
    pub fn launched(&mut self, id: ActorID)
        ensures
            final(self)@ == (RegistryView {
                running: old(self)@.running.insert(id),
                ..old(self)@
            }),
    {
        let _ = table_insert(&mut self.running, id, id);
    }

    /// Notes that the event loop of the actor has ended.
    pub fn exited(&mut self, id: ActorID)
        ensures
            final(self)@ == (RegistryView {
                running: old(self)@.running.remove(id),
                ..old(self)@
            }),
    {
        let _ = table_remove(&mut self.running, id);
    }

    /// Whether no event loop runs: every actor that was launched has ended.
    pub fn is_drained(&self) -> (drained: bool)
        ensures
            drained <==> self@.running == Set::<ActorID>::empty(),
    {
        let drained = table_is_empty(&self.running);
        assert(drained <==> self@.running =~= Set::<ActorID>::empty());
        drained
    }

    /// Gives the actor a name, or another one.
    pub fn set_name(&mut self, id: ActorID, name: String)
        ensures
            final(self)@ == (RegistryView {
                names: old(self)@.names.insert(id, Some(name@)),
                ..old(self)@
            }),
    {
        names_insert(&mut self.names, id, Some(name));
    }

    /// The name of the actor, if it is registered and has one.
    pub fn get_name(&self, id: ActorID) -> (name: Option<String>)
        ensures
            label_of(name) == self@.name_of(id),
    {
        match names_get(&self.names, id) {
            Some(name) => name,
            None => None,
        }
    }

    /// The name of the actor, or else the decimal numeral of its identity.
    pub fn get_name_or_id_string(&self, id: ActorID) -> (text: String)
        ensures
            text@ == self@.name_or_id(id),
    {
        match self.get_name(id) {
            Some(name) => name,
            None => decimal_string(id),
        }
    }

    /// The actor as log lines show it: `<name:id>`, or `<anonymous actor:id>`
    /// for an actor without a name.
    pub fn get_tagged_name_or_id_string(&self, id: ActorID) -> (text: String)
        ensures
            text@ == self@.tagged_name_or_id(id),
    {
        match self.get_name(id) {
            Some(name) => {
                let mut text = String::from_str("<");
                text.append(name.as_str());
                text.append(":");
                push_decimal(&mut text, id);
                text.append(">");
                text
            },
            None => {
                let mut text = String::from_str("<anonymous actor:");
                push_decimal(&mut text, id);
                text.append(">");
                text
            },
        }
    }
}

} // verus!
