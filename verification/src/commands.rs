//! Command definitions and the registry that holds them.

use vstd::prelude::*;
use crate::role::Role;
use crate::text::str_eq;

verus! {

/// A message as the dispatcher sees it.
#[derive(Debug)]
pub struct MessageEvent {
    pub content: String,
    pub author_id: u64,
    pub channel_id: u64,
    pub message_id: u64,
}

/// What a handler is called with: the tokens of the message, command name first, and
/// the message itself.
pub struct CallBackParams<'a> {
    pub args: &'a Vec<String>,
    pub message: &'a MessageEvent,
}

/// What a handler hands back: nothing to say, a text, or an error.
pub type CallbackReturn = Result<Option<String>, String>;

/// The code that runs a command. Nothing is assumed of what it returns.
pub trait Handler {
    fn execute(&self, params: CallBackParams<'_>) -> CallbackReturn;
}

/// One command: how it is called and who may call it.
pub struct Command<H> {
    pub name: String,
    pub handler: H,
    pub argument_min: usize,
    pub argument_max: usize,
    pub channel: Option<u64>,
    pub usage: String,
    pub permission: Role,
}

/// A command without its handler, as the contracts speak of it.
pub struct CommandView {
    pub name: Seq<char>,
    pub argument_min: nat,
    pub argument_max: nat,
    pub channel: Option<u64>,
    pub usage: Seq<char>,
    pub permission: Role,
}

impl<H> View for Command<H> {
    type V = CommandView;

    open spec fn view(&self) -> CommandView {
        CommandView {
            name: self.name@,
            argument_min: self.argument_min as nat,
            argument_max: self.argument_max as nat,
            channel: self.channel,
            usage: self.usage@,
            permission: self.permission,
        }
    }
}

impl CommandView {
    /// A definition is valid when it has a name and its bounds are in order.
    pub open spec fn valid(self) -> bool {
        self.name.len() > 0 && self.argument_min <= self.argument_max
    }
}

/// Why a list of definitions is no registry.
#[derive(Copy, Clone, Debug, PartialEq, Eq, Structural)]
pub enum RegistryError {
    /// The definition at this position has no name.
    EmptyName(usize),
    /// The definition at this position asks for more arguments at least than at most.
    InvalidBounds(usize),
    /// The definition at this position has the name of an earlier one.
    DuplicateName(usize),
}

/// The position of the first definition named `name`, if there is one.
pub open spec fn position_of(commands: Seq<CommandView>, name: Seq<char>) -> Option<int>
    decreases commands.len(),
{
    if commands.len() == 0 {
        None
    } else if commands[0].name == name {
        Some(0)
    } else {
        match position_of(commands.drop_first(), name) {
            Some(i) => Some(i + 1),
            None => None,
        }
    }
}

/// `position_of` finds a definition of that name, the first one, exactly when there is
/// one.
pub proof fn lemma_position_of(commands: Seq<CommandView>, name: Seq<char>)
    ensures
        match position_of(commands, name) {
            Some(i) => 0 <= i < commands.len() && commands[i].name == name && forall|j: int|
                0 <= j < i ==> (#[trigger] commands[j]).name != name,
            None => forall|j: int| 0 <= j < commands.len() ==> (#[trigger] commands[j]).name != name,
        },
    decreases commands.len(),
{
    if commands.len() > 0 && commands[0].name != name {
        let rest = commands.drop_first();
        lemma_position_of(rest, name);
        match position_of(rest, name) {
            Some(i) => {
                assert forall|j: int| 0 <= j < i + 1 implies (#[trigger] commands[j]).name
                    != name by {
                    if j > 0 {
                        assert(rest[j - 1] == commands[j]);
                    }
                }
            },
            None => {
                assert forall|j: int| 0 <= j < commands.len() implies (
                #[trigger] commands[j]).name != name by {
                    if j > 0 {
                        assert(rest[j - 1] == commands[j]);
                    }
                }
            },
        }
    }
}

/// Whether no two definitions share a name.
pub open spec fn names_unique(commands: Seq<CommandView>) -> bool {
    forall|i: int, j: int|
        0 <= i < j < commands.len() ==> (#[trigger] commands[i]).name != (
        #[trigger] commands[j]).name
}

/// Whether every definition is valid and no two share a name.
pub open spec fn valid_definitions(commands: Seq<CommandView>) -> bool {
    &&& forall|i: int| 0 <= i < commands.len() ==> (#[trigger] commands[i]).valid()
    &&& names_unique(commands)
}

/// The first fault in a list of definitions, where there is one: faults are looked for
/// position by position, and at each position in the order no name, bounds out of
/// order, name taken by an earlier definition.
pub open spec fn first_fault(commands: Seq<CommandView>, upto: int) -> Option<RegistryError>
    decreases upto,
{
    if upto <= 0 {
        None
    } else {
        match first_fault(commands, upto - 1) {
            Some(e) => Some(e),
            None => fault_at(commands, upto - 1),
        }
    }
}

/// The fault of the definition at position `i`, if it has one.
pub open spec fn fault_at(commands: Seq<CommandView>, i: int) -> Option<RegistryError> {
    if commands[i].name.len() == 0 {
        Some(RegistryError::EmptyName(i as usize))
    } else if commands[i].argument_min > commands[i].argument_max {
        Some(RegistryError::InvalidBounds(i as usize))
    } else if position_of(commands.take(i), commands[i].name) is Some {
        Some(RegistryError::DuplicateName(i as usize))
    } else {
        None
    }
}

/// A list of definitions has no fault exactly when it is valid.
pub proof fn lemma_no_fault_iff_valid(commands: Seq<CommandView>, upto: int)
    requires
        0 <= upto <= commands.len(),
    ensures
        first_fault(commands, upto) is None <==> valid_definitions(commands.take(upto)),
    decreases upto,
{
    let here = commands.take(upto);
    if upto > 0 {
        let before = commands.take(upto - 1);
        lemma_no_fault_iff_valid(commands, upto - 1);
        lemma_position_of(before, commands[upto - 1].name);
        assert(here[upto - 1] == commands[upto - 1]);
        assert forall|i: int| 0 <= i < upto - 1 implies #[trigger] here[i] == before[i] by {}
        if first_fault(commands, upto) is None {
            assert(valid_definitions(before));
            assert forall|i: int| 0 <= i < here.len() implies (#[trigger] here[i]).valid() by {
                if i < upto - 1 {
                    assert(before[i].valid());
                }
            }
            assert forall|i: int, j: int| 0 <= i < j < here.len() implies (
            #[trigger] here[i]).name != (#[trigger] here[j]).name by {
                if j < upto - 1 {
                    assert(before[i].name != before[j].name);
                } else {
                    assert(before[i].name != commands[upto - 1].name);
                }
            }
        }
        if valid_definitions(here) {
            assert forall|i: int| 0 <= i < before.len() implies (#[trigger] before[i]).valid() by {
                assert(here[i].valid());
            }
            assert forall|i: int, j: int| 0 <= i < j < before.len() implies (
            #[trigger] before[i]).name != (#[trigger] before[j]).name by {
                assert(here[i].name != here[j].name);
            }
            assert(here[upto - 1].valid());
            match position_of(before, commands[upto - 1].name) {
                Some(k) => {
                    assert(here[k].name != here[upto - 1].name);
                },
                None => {},
            }
        }
    }
}

/// The table of commands. It is built once from a list of definitions and only read
/// afterwards.
pub struct Registry<H> {
    commands: Vec<Command<H>>,
}

impl<H> View for Registry<H> {
    type V = Seq<CommandView>;

    closed spec fn view(&self) -> Seq<CommandView> {
        Seq::new(self.commands@.len(), |i: int| self.commands@[i]@)
    }
}

impl<H> Registry<H> {
    /// What every registry satisfies: each definition is valid and names are unique.
    pub open spec fn wf(&self) -> bool {
        valid_definitions(self@)
    }

    /// Builds the registry, or reports the first fault among the definitions.
    pub fn build(commands: Vec<Command<H>>) -> (r: Result<Registry<H>, RegistryError>)
        ensures
            match r {
                Ok(registry) => registry.wf() && registry@ == Seq::new(
                    commands@.len(),
                    |i: int| commands@[i]@,
                ),
                Err(e) => Some(e) == first_fault(
                    Seq::new(commands@.len(), |i: int| commands@[i]@),
                    commands@.len() as int,
                ),
            },
            r is Ok <==> valid_definitions(Seq::new(commands@.len(), |i: int| commands@[i]@)),
    {
        let ghost views = Seq::new(commands@.len(), |i: int| commands@[i]@);
        let mut i: usize = 0;
        while i < commands.len()
            invariant
                i <= commands.len(),
                views == Seq::new(commands@.len(), |k: int| commands@[k]@),
                first_fault(views, i as int) is None,
            decreases commands.len() - i,
        {
            let command = &commands[i];
            assert(views[i as int] == command@);
            if command.name.as_str().is_empty() {
                proof {
                    lemma_no_fault_iff_valid(views, i as int + 1);
                    lemma_first_fault_stays(views, i as int + 1, views.len() as int);
                    lemma_no_fault_iff_valid(views, views.len() as int);
                    assert(views.take(views.len() as int) =~= views);
                }
                return Err(RegistryError::EmptyName(i));
            }
            if command.argument_min > command.argument_max {
                proof {
                    lemma_first_fault_stays(views, i as int + 1, views.len() as int);
                    lemma_no_fault_iff_valid(views, views.len() as int);
                    assert(views.take(views.len() as int) =~= views);
                }
                return Err(RegistryError::InvalidBounds(i));
            }
            if find_in(&commands, i, command.name.as_str()).is_some() {
                proof {
                    lemma_first_fault_stays(views, i as int + 1, views.len() as int);
                    lemma_no_fault_iff_valid(views, views.len() as int);
                    assert(views.take(views.len() as int) =~= views);
                }
                return Err(RegistryError::DuplicateName(i));
            }
            i = i + 1;
        }
        proof {
            lemma_no_fault_iff_valid(views, views.len() as int);
            assert(views.take(views.len() as int) =~= views);
        }
        let registry = Registry { commands };
        assert(registry@ =~= views);
        Ok(registry)
    }

    /// The number of commands.
    pub fn len(&self) -> (r: usize)
        ensures
            r == self@.len(),
    {
        self.commands.len()
    }

    /// The command at position `i`.
    pub fn get(&self, i: usize) -> (r: &Command<H>)
        requires
            i < self@.len(),
        ensures
            r@ == self@[i as int],
    {
        &self.commands[i]
    }

    /// Looks a command up by its exact name.
    pub fn find(&self, name: &str) -> (r: Option<usize>)
        ensures
            match r {
                Some(i) => position_of(self@, name@) == Some(i as int) && i < self@.len(),
                None => position_of(self@, name@) is None,
            },
    {
        let r = find_in(&self.commands, self.commands.len(), name);
        proof {
            let views = Seq::new(self.commands@.len(), |i: int| self.commands@[i]@);
            assert(views.take(views.len() as int) =~= views);
            lemma_position_of(self@, name@);
        }
        r
    }
}

/// Once a list of definitions has a fault, looking further reports the same one.
pub proof fn lemma_first_fault_stays(commands: Seq<CommandView>, from: int, upto: int)
    requires
        0 <= from <= upto,
        first_fault(commands, from) is Some,
    ensures
        first_fault(commands, upto) == first_fault(commands, from),
    decreases upto - from,
{
    if from < upto {
        lemma_first_fault_stays(commands, from, upto - 1);
    }
}

/// Looks for `name` among the first `upto` definitions.
fn find_in<H>(commands: &Vec<Command<H>>, upto: usize, name: &str) -> (r: Option<usize>)
    requires
        upto <= commands.len(),
    ensures
        match r {
            Some(i) => Some(i as int) == position_of(
                Seq::new(commands@.len(), |k: int| commands@[k]@).take(upto as int),
                name@,
            ),
            None => position_of(
                Seq::new(commands@.len(), |k: int| commands@[k]@).take(upto as int),
                name@,
            ) is None,
        },
{
    let ghost views = Seq::new(commands@.len(), |k: int| commands@[k]@).take(upto as int);
    let mut i: usize = 0;
    while i < upto
        invariant
            i <= upto <= commands.len(),
            views == Seq::new(commands@.len(), |k: int| commands@[k]@).take(upto as int),
            forall|j: int| 0 <= j < i ==> (#[trigger] views[j]).name != name@,
        decreases upto - i,
    {
        assert(views[i as int] == commands@[i as int]@);
        if str_eq(commands[i].name.as_str(), name) {
            proof {
                lemma_position_of(views, name@);
            }
            return Some(i);
        }
        i = i + 1;
    }
    proof {
        lemma_position_of(views, name@);
    }
    None
}

} // verus!
