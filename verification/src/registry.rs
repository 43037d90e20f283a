use vstd::prelude::*;

use crate::manifest::{command_specs, command_table, commands_view, CommandModel, CommandSpec};

verus! {

/// The position of the first command named `name`, if any.
pub open spec fn first_named(cmds: Seq<CommandModel>, name: Seq<char>) -> Option<int> {
    if exists|i: int| 0 <= i < cmds.len() && (#[trigger] cmds[i]).name == name
        && forall|j: int| 0 <= j < i ==> (#[trigger] cmds[j]).name != name {
        Some(choose|i: int| 0 <= i < cmds.len() && (#[trigger] cmds[i]).name == name
            && forall|j: int| 0 <= j < i ==> (#[trigger] cmds[j]).name != name)
    } else {
        None
    }
}

/// A lookup finds a command wherever one carries the name; so a lookup that
/// finds none means that no command carries it.
pub proof fn lemma_first_named_finds(cmds: Seq<CommandModel>, name: Seq<char>, i: int)
    requires
        0 <= i < cmds.len(),
        cmds[i].name == name,
    ensures
        first_named(cmds, name) matches Some(k) && 0 <= k <= i && cmds[k].name == name,
    decreases i,
{
    if forall|j: int| 0 <= j < i ==> (#[trigger] cmds[j]).name != name {
        assert(0 <= i < cmds.len() && cmds[i].name == name && forall|j: int| 0 <= j < i ==> (#[trigger] cmds[j]).name != name);
        let k = first_named(cmds, name)->0;
        assert(k == i) by {
            if k < i {
                assert(cmds[k].name != name);
            } else if k > i {
                assert(cmds[i].name != name);
            }
        }
    } else {
        let j = choose|j: int| 0 <= j < i && (#[trigger] cmds[j]).name == name;
        lemma_first_named_finds(cmds, name, j);
    }
}

/// The commands that can be executed, looked up by name.
pub struct CommandRegistry {
    pub commands: Vec<CommandSpec>,
}

impl CommandRegistry {
    /// A registry of the given commands.
    pub fn new(commands: Vec<CommandSpec>) -> (r: CommandRegistry)
        ensures
            r.commands == commands,
    {
        CommandRegistry { commands }
    }

    /// The registry of the commands of the manifest.
    pub fn from_manifest() -> (r: CommandRegistry)
        ensures
            commands_view(r.commands@) == command_table(),
    {
        CommandRegistry { commands: command_specs() }
    }

    /// The first command named `name`.
    pub fn get(&self, name: &str) -> (r: Option<&CommandSpec>)
        ensures
            match r {
                Some(c) => first_named(commands_view(self.commands@), name@) matches Some(i) && *c
                    == self.commands@[i],
                None => first_named(commands_view(self.commands@), name@) is None,
            },
    {
        let ghost cmds = commands_view(self.commands@);
        let wanted = name.to_string();
        let mut i: usize = 0;
        while i < self.commands.len()
            invariant
                i <= self.commands@.len(),
                cmds == commands_view(self.commands@),
                wanted@ == name@,
                forall|j: int| 0 <= j < i ==> (#[trigger] cmds[j]).name != name@,
            decreases self.commands@.len() - i,
        {
            if self.commands[i].name.to_string() == wanted {
                proof {
                    assert(cmds[i as int].name == name@);
                    assert(forall|j: int| 0 <= j < i ==> (#[trigger] cmds[j]).name != name@);
                    let k = choose|k: int| 0 <= k < cmds.len() && (#[trigger] cmds[k]).name == name@
                        && forall|j: int| 0 <= j < k ==> (#[trigger] cmds[j]).name != name@;
                    assert(k == i) by {
                        if k < i {
                            assert(cmds[k].name != name@);
                        } else if k > i {
                            assert(cmds[i as int].name != name@);
                        }
                    }
                }
                return Some(&self.commands[i]);
            }
            i = i + 1;
        }
        None
    }
}

} // verus!
