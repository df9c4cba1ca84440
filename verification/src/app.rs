//! What an app declares besides its parameters: the commands its panel offers.
use vstd::prelude::*;

verus! {

/// A button or a select in the panel that triggers something the app cannot express as
/// a parameter — anything that reallocates buffers or reseeds state.
#[derive(Clone, Copy, Debug)]
pub struct CommandDef {
    pub name: &'static str,
    pub label: &'static str,
    pub group: &'static str,
    /// If non-empty, the interface renders a select instead of a button and dispatches
    /// the command with the chosen option's index.
    pub options: &'static [&'static str],
    /// Which option the select starts on, so the control agrees with the state the app
    /// actually set up with.
    pub initial: u32,
}

/// `c` declares exactly this: its name, label and group by their characters, its options
/// by their list, and the option its select starts on.
pub open spec fn declares_command(
    c: CommandDef,
    name: &str,
    label: &str,
    group: &str,
    options: Seq<&'static str>,
    initial: u32,
) -> bool {
    &&& c.name@ == name@
    &&& c.label@ == label@
    &&& c.group@ == group@
    &&& c.options@ =~= options
    &&& c.initial == initial
}

/// The group a command is filed under until it says otherwise.
pub open spec fn actions_group() -> Seq<char> {
    seq!['A', 'c', 't', 'i', 'o', 'n', 's']
}

impl CommandDef {
    /// A button.
    pub fn button(name: &'static str, label: &'static str) -> (r: Self)
        ensures
            r.name == name,
            r.label == label,
            r.group@ == actions_group(),
            r.options@.len() == 0,
            r.initial == 0,
    {
        proof {
            reveal_strlit("Actions");
        }
        Self { name, label, group: "Actions", options: &[], initial: 0 }
    }

    /// A select over `options`, starting on the first.
    pub fn choice(name: &'static str, label: &'static str, options: &'static [&'static str]) -> (r:
        Self)
        ensures
            r.name == name,
            r.label == label,
            r.group@ == actions_group(),
            r.options == options,
            r.initial == 0,
    {
        proof {
            reveal_strlit("Actions");
        }
        Self { name, label, group: "Actions", options, initial: 0 }
    }

    /// File this command under a named panel section.
    pub fn group(self, group: &'static str) -> (r: Self)
        ensures
            r == (Self { group, ..self }),
    {
        let mut r = self;
        r.group = group;
        r
    }

    /// Set the option the select starts on.
    pub fn initial(self, initial: u32) -> (r: Self)
        ensures
            r == (Self { initial, ..self }),
    {
        let mut r = self;
        r.initial = initial;
        r
    }
}

/// The option index a command carries, given the unsigned integer found in its `value`
/// field, if there was one: `0` when there is none, and the low 32 bits otherwise.
pub fn index_from(value: Option<u64>) -> (r: u32)
    ensures
        r == (match value {
            Some(v) => (v % 0x1_0000_0000) as u32,
            None => 0u32,
        }),
{
    match value {
        Some(v) => (v % 0x1_0000_0000) as u32,
        None => 0,
    }
}

} // verus!
