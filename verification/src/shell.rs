//! The decisions behind the panel: how it groups an app's controls, what each select is
//! showing, what the transport sends, and how pointer buttons are reported.
//!
//! The panel itself is drawn by egui in the host. What it draws is decided here, from
//! the app's declared schema and commands, so the parts of the panel that are actually
//! *wrong* when it misbehaves are the parts a proof can reach.
use vstd::prelude::*;

use crate::app::CommandDef;
use crate::params::ParamDef;
use crate::runner::{after_builtin, builtin_name, Builtin, InputKind, Transport, CMD_PREFIX};
use crate::text::str_eq;

verus! {

/// `s` with every repeat of an earlier element left out, first appearances in order.
pub open spec fn first_appearances(s: Seq<Seq<char>>) -> Seq<Seq<char>>
    decreases s.len(),
{
    if s.len() == 0 {
        seq![]
    } else {
        let d = first_appearances(s.drop_last());
        if d.contains(s.last()) {
            d
        } else {
            d.push(s.last())
        }
    }
}

/// The group of each parameter, then the group of each command, in declaration order.
pub open spec fn declared_groups(params: Seq<ParamDef>, commands: Seq<CommandDef>) -> Seq<
    Seq<char>,
> {
    params.map_values(|p: ParamDef| p.group@) + commands.map_values(|c: CommandDef| c.group@)
}

/// Whether `group` is already among `groups`.
fn has_group(groups: &Vec<&'static str>, group: &str) -> (r: bool)
    ensures
        r == groups@.map_values(|g: &'static str| g@).contains(group@),
{
    let ghost v = groups@.map_values(|g: &'static str| g@);
    let mut i: usize = 0;
    while i < groups.len()
        invariant
            v == groups@.map_values(|g: &'static str| g@),
            0 <= i <= groups@.len(),
            forall|j: int| 0 <= j < i ==> v[j] != group@,
        decreases groups@.len() - i,
    {
        if str_eq(groups[i], group) {
            assert(v[i as int] == group@);
            return true;
        }
        i = i + 1;
    }
    false
}

/// Add `group` unless it is already there.
fn add_group(groups: &mut Vec<&'static str>, group: &'static str)
    ensures
        final(groups)@.map_values(|g: &'static str| g@) == (if old(groups)@.map_values(
            |g: &'static str| g@,
        ).contains(group@) {
            old(groups)@.map_values(|g: &'static str| g@)
        } else {
            old(groups)@.map_values(|g: &'static str| g@).push(group@)
        }),
{
    if !has_group(groups, group) {
        groups.push(group);
        assert(groups@.map_values(|g: &'static str| g@) =~= old(groups)@.map_values(
            |g: &'static str| g@,
        ).push(group@));
    }
}

/// The panel's sections: every group a parameter or a command is filed under, each
/// once, in declaration order, parameters' groups before commands'.
pub fn panel_groups(params: &[ParamDef], commands: &[CommandDef]) -> (r: Vec<&'static str>)
    ensures
        r@.map_values(|g: &'static str| g@) == first_appearances(
            declared_groups(params@, commands@),
        ),
{
    let ghost all = declared_groups(params@, commands@);
    let ghost np: int = params@.len() as int;
    let mut groups: Vec<&'static str> = Vec::new();
    let mut i: usize = 0;
    while i < params.len()
        invariant
            all == declared_groups(params@, commands@),
            np == params@.len(),
            0 <= i <= params@.len(),
            groups@.map_values(|g: &'static str| g@) == first_appearances(all.take(i as int)),
        decreases params@.len() - i,
    {
        add_group(&mut groups, params[i].group);
        assert(all.take(i + 1).drop_last() =~= all.take(i as int));
        assert(all.take(i + 1).last() == params@[i as int].group@);
        i = i + 1;
    }
    let mut k: usize = 0;
    while k < commands.len()
        invariant
            all == declared_groups(params@, commands@),
            np == params@.len(),
            0 <= k <= commands@.len(),
            groups@.map_values(|g: &'static str| g@) == first_appearances(all.take(np + k)),
        decreases commands@.len() - k,
    {
        add_group(&mut groups, commands[k].group);
        assert(all.take(np + k + 1).drop_last() =~= all.take(np + k));
        assert(all.take(np + k + 1).last() == commands@[k as int].group@);
        k = k + 1;
    }
    assert(all.take(np + commands@.len() as int) =~= all);
    groups
}

/// The indices of the parameters filed under `group`, in declaration order, whose
/// `advanced` flag is `advanced`.
pub open spec fn filed_under(params: Seq<ParamDef>, group: Seq<char>, advanced: bool) -> Seq<int>
    decreases params.len(),
{
    if params.len() == 0 {
        seq![]
    } else {
        let rest = filed_under(params.drop_last(), group, advanced);
        let p = params.last();
        if p.group@ == group && p.advanced == advanced {
            rest.push(params.len() - 1)
        } else {
            rest
        }
    }
}

/// The parameters a group shows, by index: the plain controls first, then the tail
/// filed behind the group's disclosure.
pub fn group_controls(params: &[ParamDef], group: &str) -> (r: (Vec<usize>, Vec<usize>))
    ensures
        r.0@.map_values(|i: usize| i as int) == filed_under(params@, group@, false),
        r.1@.map_values(|i: usize| i as int) == filed_under(params@, group@, true),
{
    let mut plain: Vec<usize> = Vec::new();
    let mut advanced: Vec<usize> = Vec::new();
    let mut i: usize = 0;
    while i < params.len()
        invariant
            0 <= i <= params@.len(),
            plain@.map_values(|j: usize| j as int) == filed_under(
                params@.take(i as int),
                group@,
                false,
            ),
            advanced@.map_values(|j: usize| j as int) == filed_under(
                params@.take(i as int),
                group@,
                true,
            ),
        decreases params@.len() - i,
    {
        let ghost before = params@.take(i as int);
        assert(params@.take(i + 1).drop_last() =~= before);
        assert(params@.take(i + 1).last() == params@[i as int]);
        if str_eq(params[i].group, group) {
            if params[i].advanced {
                advanced.push(i);
                assert(advanced@.map_values(|j: usize| j as int) =~= filed_under(
                    before,
                    group@,
                    true,
                ).push(i as int));
            } else {
                plain.push(i);
                assert(plain@.map_values(|j: usize| j as int) =~= filed_under(
                    before,
                    group@,
                    false,
                ).push(i as int));
            }
        }
        i = i + 1;
    }
    assert(params@.take(params@.len() as int) =~= params@);
    (plain, advanced)
}

/// The indices of the commands filed under `group`, in declaration order, that carry
/// options (`selects`) or carry none.
pub open spec fn commands_under(commands: Seq<CommandDef>, group: Seq<char>, selects: bool) -> Seq<int>
    decreases commands.len(),
{
    if commands.len() == 0 {
        seq![]
    } else {
        let rest = commands_under(commands.drop_last(), group, selects);
        let c = commands.last();
        if c.group@ == group && (c.options@.len() > 0) == selects {
            rest.push(commands.len() - 1)
        } else {
            rest
        }
    }
}

/// The commands a group shows, by index: its selects first, then its buttons, which
/// share one row.
pub fn group_commands(commands: &[CommandDef], group: &str) -> (r: (Vec<usize>, Vec<usize>))
    ensures
        r.0@.map_values(|i: usize| i as int) == commands_under(commands@, group@, true),
        r.1@.map_values(|i: usize| i as int) == commands_under(commands@, group@, false),
{
    let mut selects: Vec<usize> = Vec::new();
    let mut buttons: Vec<usize> = Vec::new();
    let mut i: usize = 0;
    while i < commands.len()
        invariant
            0 <= i <= commands@.len(),
            selects@.map_values(|j: usize| j as int) == commands_under(
                commands@.take(i as int),
                group@,
                true,
            ),
            buttons@.map_values(|j: usize| j as int) == commands_under(
                commands@.take(i as int),
                group@,
                false,
            ),
        decreases commands@.len() - i,
    {
        let ghost before = commands@.take(i as int);
        assert(commands@.take(i + 1).drop_last() =~= before);
        assert(commands@.take(i + 1).last() == commands@[i as int]);
        if str_eq(commands[i].group, group) {
            if commands[i].options.len() > 0 {
                selects.push(i);
                assert(selects@.map_values(|j: usize| j as int) =~= commands_under(
                    before,
                    group@,
                    true,
                ).push(i as int));
            } else {
                buttons.push(i);
                assert(buttons@.map_values(|j: usize| j as int) =~= commands_under(
                    before,
                    group@,
                    false,
                ).push(i as int));
            }
        }
        i = i + 1;
    }
    assert(commands@.take(commands@.len() as int) =~= commands@);
    (selects, buttons)
}

/// The panel's sections are the declared groups with repeats left out: a group is a
/// section exactly when something is filed under it, and no section appears twice.
pub proof fn lemma_sections_are_the_groups_once(s: Seq<Seq<char>>)
    ensures
        forall|x: Seq<char>| first_appearances(s).contains(x) <==> s.contains(x),
        forall|j: int, k: int|
            0 <= j < k < first_appearances(s).len() ==> first_appearances(s)[j] != first_appearances(
                s,
            )[k],
    decreases s.len(),
{
    if s.len() > 0 {
        let init = s.drop_last();
        lemma_sections_are_the_groups_once(init);
        assert forall|x: Seq<char>| s.contains(x) <==> init.contains(x) || x == s.last() by {
            if s.contains(x) {
                let i = choose|i: int| 0 <= i < s.len() && s[i] == x;
                if i < s.len() - 1 {
                    assert(init[i] == x);
                }
            }
            if init.contains(x) {
                let i = choose|i: int| 0 <= i < init.len() && init[i] == x;
                assert(s[i] == x);
            }
            if x == s.last() {
                assert(s[s.len() - 1] == x);
            }
        }
        let d = first_appearances(init);
        if !d.contains(s.last()) {
            assert forall|x: Seq<char>| d.push(s.last()).contains(x) <==> d.contains(x) || x == s.last() by {
                if d.push(s.last()).contains(x) {
                    let i = choose|i: int| 0 <= i < d.push(s.last()).len() && d.push(s.last())[i] == x;
                    if i < d.len() {
                        assert(d[i] == x);
                    }
                }
                if d.contains(x) {
                    let i = choose|i: int| 0 <= i < d.len() && d[i] == x;
                    assert(d.push(s.last())[i] == x);
                }
                if x == s.last() {
                    assert(d.push(s.last())[d.len() as int] == x);
                }
            }
        }
    }
}

/// A group's list of controls holds exactly the parameters filed under it with that
/// `advanced` flag, each once, in declaration order.
pub proof fn lemma_group_lists_exactly_its_controls(params: Seq<ParamDef>, group: Seq<char>, advanced: bool)
    ensures
        forall|k: int|
            0 <= k < filed_under(params, group, advanced).len() ==> {
                let i = #[trigger] filed_under(params, group, advanced)[k];
                &&& 0 <= i < params.len()
                &&& params[i].group@ == group
                &&& params[i].advanced == advanced
            },
        forall|i: int|
            0 <= i < params.len() && (#[trigger] params[i]).group@ == group && params[i].advanced
                == advanced ==> filed_under(params, group, advanced).contains(i),
        forall|j: int, k: int|
            0 <= j < k < filed_under(params, group, advanced).len() ==> filed_under(
                params,
                group,
                advanced,
            )[j] < filed_under(params, group, advanced)[k],
    decreases params.len(),
{
    if params.len() > 0 {
        let init = params.drop_last();
        lemma_group_lists_exactly_its_controls(init, group, advanced);
        let f = filed_under(init, group, advanced);
        assert forall|i: int|
            0 <= i < params.len() && (#[trigger] params[i]).group@ == group && params[i].advanced
                == advanced implies filed_under(params, group, advanced).contains(i) by {
            if i < params.len() - 1 {
                assert(init[i] == params[i]);
                let k = choose|k: int| 0 <= k < f.len() && f[k] == i;
                if params.last().group@ == group && params.last().advanced == advanced {
                    assert(f.push(params.len() - 1)[k] == i);
                }
            } else {
                assert(f.push(params.len() - 1)[f.len() as int] == i);
            }
        }
        assert forall|k: int| 0 <= k < f.len() implies f[k] < params.len() - 1 by {
            assert(0 <= f[k] < init.len());
        }
    }
}

/// A group's selects are exactly the commands filed under it that carry options, and its
/// buttons exactly those that carry none, each once, in declaration order.
pub proof fn lemma_group_lists_exactly_its_commands(commands: Seq<CommandDef>, group: Seq<char>, selects: bool)
    ensures
        forall|k: int|
            0 <= k < commands_under(commands, group, selects).len() ==> {
                let i = #[trigger] commands_under(commands, group, selects)[k];
                &&& 0 <= i < commands.len()
                &&& commands[i].group@ == group
                &&& (commands[i].options@.len() > 0) == selects
            },
        forall|i: int|
            0 <= i < commands.len() && (#[trigger] commands[i]).group@ == group && (
            commands[i].options@.len() > 0) == selects ==> commands_under(commands, group, selects).contains(i),
        forall|j: int, k: int|
            0 <= j < k < commands_under(commands, group, selects).len() ==> commands_under(
                commands,
                group,
                selects,
            )[j] < commands_under(commands, group, selects)[k],
    decreases commands.len(),
{
    if commands.len() > 0 {
        let init = commands.drop_last();
        lemma_group_lists_exactly_its_commands(init, group, selects);
        let f = commands_under(init, group, selects);
        assert forall|i: int|
            0 <= i < commands.len() && (#[trigger] commands[i]).group@ == group && (
            commands[i].options@.len() > 0) == selects implies commands_under(commands, group, selects).contains(i) by {
            if i < commands.len() - 1 {
                assert(init[i] == commands[i]);
                let k = choose|k: int| 0 <= k < f.len() && f[k] == i;
                if commands.last().group@ == group && (commands.last().options@.len() > 0) == selects {
                    assert(f.push(commands.len() - 1)[k] == i);
                }
            } else {
                assert(f.push(commands.len() - 1)[f.len() as int] == i);
            }
        }
        assert forall|k: int| 0 <= k < f.len() implies f[k] < commands.len() - 1 by {
            assert(0 <= f[k] < init.len());
        }
    }
}

/// The option each command-select is showing. Commands are fire-and-forget, so unlike
/// parameters they have no stored value to read back; the panel remembers the last pick.
#[derive(Clone, Debug)]
pub struct CommandChoices {
    entries: Vec<(&'static str, usize)>,
}

/// The option remembered for `name` among `entries`: the first entry with that name.
pub open spec fn remembered(entries: Seq<(&'static str, usize)>, name: Seq<char>) -> Option<
    usize,
>
    decreases entries.len(),
{
    if entries.len() == 0 {
        None
    } else if entries[0].0@ == name {
        Some(entries[0].1)
    } else {
        remembered(entries.drop_first(), name)
    }
}

/// Appending an entry changes what is remembered only for a name that had nothing yet.
proof fn lemma_remembered_push(
    entries: Seq<(&'static str, usize)>,
    x: (&'static str, usize),
    name: Seq<char>,
)
    ensures
        remembered(entries.push(x), name) == (match remembered(entries, name) {
            Some(v) => Some(v),
            None => if x.0@ == name {
                Some(x.1)
            } else {
                None
            },
        }),
    decreases entries.len(),
{
    if entries.len() > 0 {
        assert(entries.push(x)[0] == entries[0]);
        assert(entries.push(x).drop_first() =~= entries.drop_first().push(x));
        lemma_remembered_push(entries.drop_first(), x, name);
    } else {
        assert(entries.push(x)[0] == x);
        assert(entries.push(x).drop_first() =~= Seq::<(&'static str, usize)>::empty());
        assert(remembered(entries.push(x).drop_first(), name) is None);
    }
}

/// Overwriting the first entry for a name changes what is remembered for that name
/// only.
proof fn lemma_remembered_update(
    entries: Seq<(&'static str, usize)>,
    k: int,
    index: usize,
    name: Seq<char>,
)
    requires
        0 <= k < entries.len(),
        forall|j: int| 0 <= j < k ==> (#[trigger] entries[j]).0@ != entries[k].0@,
    ensures
        remembered(entries.update(k, (entries[k].0, index)), name) == (if name == entries[k].0@ {
            Some(index)
        } else {
            remembered(entries, name)
        }),
    decreases k,
{
    let updated = entries.update(k, (entries[k].0, index));
    if k > 0 {
        assert(updated.drop_first() =~= entries.drop_first().update(k - 1, (entries[k].0, index)));
        assert forall|j: int| 0 <= j < k - 1 implies (#[trigger] entries.drop_first()[j]).0@
            != entries.drop_first()[k - 1].0@ by {
            assert(entries.drop_first()[j] == entries[j + 1]);
        }
        lemma_remembered_update(entries.drop_first(), k - 1, index, name);
    } else {
        assert(updated.drop_first() =~= entries.drop_first());
    }
}

impl CommandChoices {
    /// What is remembered, by command name.
    pub closed spec fn choice(&self, name: Seq<char>) -> Option<usize> {
        remembered(self.entries@, name)
    }

    /// Nothing remembered yet.
    pub fn new() -> (r: Self)
        ensures
            forall|name: Seq<char>| r.choice(name) is None,
    {
        CommandChoices { entries: Vec::new() }
    }

    /// The first entry that holds `name`, if there is one.
    fn find(&self, name: &str) -> (r: Option<usize>)
        ensures
            match r {
                Some(k) => {
                    &&& k < self.entries@.len()
                    &&& self.entries@[k as int].0@ == name@
                    &&& forall|j: int| 0 <= j < k ==> self.entries@[j].0@ != name@
                    &&& remembered(self.entries@, name@) == Some(self.entries@[k as int].1)
                },
                None => remembered(self.entries@, name@) is None,
            },
    {
        let n = self.entries.len();
        let ghost e = self.entries@;
        let mut i: usize = 0;
        assert(e.subrange(0, n as int) =~= e);
        while i < n
            invariant
                e == self.entries@,
                n == e.len(),
                0 <= i <= n,
                forall|j: int| 0 <= j < i ==> e[j].0@ != name@,
                remembered(e, name@) == remembered(e.subrange(i as int, n as int), name@),
            decreases n - i,
        {
            let ghost rest = e.subrange(i as int, n as int);
            assert(rest[0] == e[i as int]);
            if str_eq(self.entries[i].0, name) {
                return Some(i);
            }
            assert(rest.drop_first() =~= e.subrange(i + 1, n as int));
            i = i + 1;
        }
        None
    }

    /// The option the select for `name` shows: the one last picked, or `fallback` if it
    /// was never picked.
    pub fn choice_of(&self, name: &str, fallback: usize) -> (r: usize)
        ensures
            r == (match self.choice(name@) {
                Some(i) => i,
                None => fallback,
            }),
    {
        match self.find(name) {
            Some(k) => self.entries[k].1,
            None => fallback,
        }
    }

    /// Remember that the select for `name` now shows `index`.
    pub fn remember_choice(&mut self, name: &'static str, index: usize)
        ensures
            final(self).choice(name@) == Some(index),
            forall|other: Seq<char>| other != name@ ==> final(self).choice(other) == old(self).choice(
                other,
            ),
    {
        match self.find(name) {
            Some(k) => {
                let ghost before = self.entries@;
                let entry = self.entries[k].0;
                self.entries.set(k, (entry, index));
                proof {
                    assert forall|other: Seq<char>|
                        #![auto]
                        remembered(self.entries@, other) == (if other == before[k as int].0@ {
                            Some(index)
                        } else {
                            remembered(before, other)
                        }) by {
                        lemma_remembered_update(before, k as int, index, other);
                    }
                }
            },
            None => {
                let ghost before = self.entries@;
                self.entries.push((name, index));
                proof {
                    assert forall|other: Seq<char>|
                        #![auto]
                        remembered(self.entries@, other) == (match remembered(before, other) {
                            Some(v) => Some(v),
                            None => if name@ == other {
                                Some(index)
                            } else {
                                None
                            },
                        }) by {
                        lemma_remembered_push(before, (name, index), other);
                    }
                }
            },
        }
    }
}

/// The DOM's bitmask for a held button, from its index: left is 1, right is 2 and
/// middle is 4.
pub fn button_mask(button: u8) -> (r: u8)
    ensures
        r == (if button == 1 {
            0b100u8
        } else if button == 2 {
            0b010u8
        } else {
            0b001u8
        }),
{
    if button == 1 {
        0b100
    } else if button == 2 {
        0b010
    } else {
        0b001
    }
}

/// The button that began a drag, as the interface reports it.
#[derive(Clone, Copy, Debug, PartialEq, Eq, Structural)]
pub enum DragButton {
    Primary,
    Secondary,
    Middle,
}

/// The DOM's index for a button: left is 0, middle is 1 and right is 2.
pub open spec fn button_index(b: DragButton) -> u8 {
    match b {
        DragButton::Primary => 0,
        DragButton::Middle => 1,
        DragButton::Secondary => 2,
    }
}

/// The DOM's held-buttons mask for a button index.
pub open spec fn mask_of(button: u8) -> u8 {
    if button == 1 {
        0b100
    } else if button == 2 {
        0b010
    } else {
        0b001
    }
}

/// What the pointer did over the simulation this frame, checked in this order: a drag
/// beginning, a drag going on, a drag ending, a plain hover, or none of these.
#[derive(Clone, Copy, Debug, PartialEq, Eq, Structural)]
pub enum PointerPhase {
    DragStarted(DragButton),
    Dragged,
    DragStopped,
    Hovered,
    Away,
}

/// The pointer event handed on to the runner: its kind, the button it names, and the
/// mask of buttons held.
#[derive(Clone, Copy, Debug, PartialEq, Eq, Structural)]
pub struct PointerReport {
    pub kind: InputKind,
    pub button: u8,
    pub buttons: u8,
}

/// Which drag, if any, is under way. A drag is reported with the button that began it
/// for as long as it lasts, whatever the interface says about buttons meanwhile.
#[derive(Clone, Copy, Debug, PartialEq, Eq, Structural)]
pub struct DragTracker {
    pub dragging: bool,
    pub drag_button: u8,
}

/// The tracker after a phase, and what the phase reports.
pub open spec fn pointer_step(t: DragTracker, phase: PointerPhase) -> (DragTracker, Option<PointerReport>) {
    match phase {
        PointerPhase::DragStarted(b) => (
            DragTracker { dragging: true, drag_button: button_index(b) },
            Some(PointerReport { kind: InputKind::MousePressed, button: button_index(b), buttons: mask_of(button_index(b)) }),
        ),
        PointerPhase::Dragged => (
            t,
            Some(PointerReport { kind: InputKind::MouseDragged, button: t.drag_button, buttons: mask_of(t.drag_button) }),
        ),
        PointerPhase::DragStopped => (
            DragTracker { dragging: false, ..t },
            Some(PointerReport { kind: InputKind::MouseReleased, button: t.drag_button, buttons: 0 }),
        ),
        PointerPhase::Hovered => (t, Some(PointerReport { kind: InputKind::MouseMoved, button: 0, buttons: 0 })),
        PointerPhase::Away => (t, None),
    }
}

/// The tracker after a run of phases.
pub open spec fn pointer_run(t: DragTracker, phases: Seq<PointerPhase>) -> DragTracker
    decreases phases.len(),
{
    if phases.len() == 0 {
        t
    } else {
        pointer_step(pointer_run(t, phases.drop_last()), phases.last()).0
    }
}

impl DragTracker {
    /// No drag under way.
    pub fn new() -> (r: Self)
        ensures
            r == (DragTracker { dragging: false, drag_button: 0 }),
    {
        DragTracker { dragging: false, drag_button: 0 }
    }

    /// Turn the pointer's phase into the event the runner receives, remembering which
    /// button a drag began with.
    pub fn forward(&mut self, phase: PointerPhase) -> (r: Option<PointerReport>)
        ensures
            (*final(self), r) == pointer_step(*old(self), phase),
    {
        match phase {
            PointerPhase::DragStarted(b) => {
                let button: u8 = match b {
                    DragButton::Primary => 0,
                    DragButton::Middle => 1,
                    DragButton::Secondary => 2,
                };
                self.dragging = true;
                self.drag_button = button;
                Some(PointerReport { kind: InputKind::MousePressed, button, buttons: button_mask(button) })
            },
            PointerPhase::Dragged => {
                let button = self.drag_button;
                Some(PointerReport { kind: InputKind::MouseDragged, button, buttons: button_mask(button) })
            },
            PointerPhase::DragStopped => {
                self.dragging = false;
                Some(PointerReport { kind: InputKind::MouseReleased, button: self.drag_button, buttons: 0 })
            },
            PointerPhase::Hovered => Some(PointerReport { kind: InputKind::MouseMoved, button: 0, buttons: 0 }),
            PointerPhase::Away => None,
        }
    }
}

/// A drag keeps the button it began with: through any run of phases that begins no new
/// drag, the tracker's button is unchanged, and every drag and release in the run is
/// reported with it, a drag holding that button's mask and a release holding none.
pub proof fn lemma_drag_keeps_its_button(t: DragTracker, phases: Seq<PointerPhase>)
    requires
        forall|i: int| 0 <= i < phases.len() ==> !(#[trigger] phases[i] is DragStarted),
    ensures
        pointer_run(t, phases).drag_button == t.drag_button,
        forall|i: int|
            0 <= i < phases.len() && #[trigger] phases[i] == PointerPhase::Dragged ==> pointer_step(
                pointer_run(t, phases.take(i)),
                phases[i],
            ).1 == Some(PointerReport { kind: InputKind::MouseDragged, button: t.drag_button, buttons: mask_of(t.drag_button) }),
        forall|i: int|
            0 <= i < phases.len() && #[trigger] phases[i] == PointerPhase::DragStopped ==> pointer_step(
                pointer_run(t, phases.take(i)),
                phases[i],
            ).1 == Some(PointerReport { kind: InputKind::MouseReleased, button: t.drag_button, buttons: 0 }),
    decreases phases.len(),
{
    if phases.len() > 0 {
        let init = phases.drop_last();
        lemma_drag_keeps_its_button(t, init);
        assert forall|i: int| 0 <= i < phases.len() implies #[trigger] pointer_run(t, phases.take(i)).drag_button == t.drag_button by {
            lemma_drag_keeps_its_button(t, phases.take(i));
        }
    }
}

/// Something that opens or closes the panel's drawer.
#[derive(Clone, Copy, Debug, PartialEq, Eq, Structural)]
pub enum DrawerEvent {
    /// The floating Controls button, shown while the drawer is closed.
    ControlsPressed,
    /// The drawer's own Close button.
    ClosePressed,
    /// A tap on the dimmed simulation behind the drawer.
    ScrimTapped,
    /// The Escape key.
    Escape,
}

/// On a narrow screen the panel is a drawer that slides in over the simulation; on a
/// wide one it docks beside it and the drawer stays shut.
#[derive(Clone, Copy, Debug, PartialEq, Eq, Structural)]
pub struct Drawer {
    pub open: bool,
}

impl Drawer {
    /// Shut.
    pub fn new() -> (r: Self)
        ensures
            !r.open,
    {
        Drawer { open: false }
    }

    /// A frame begins, on a narrow (`compact`) screen or a wide one. A wide screen shuts
    /// the drawer, so narrowing the window later never finds it already open.
    pub fn fit_screen(&mut self, compact: bool)
        ensures
            final(self).open == (compact && old(self).open),
    {
        if !compact {
            self.open = false;
        }
    }

    /// The Controls button opens the drawer; everything else closes it.
    pub fn event(&mut self, e: DrawerEvent)
        ensures
            final(self).open == (e == DrawerEvent::ControlsPressed),
    {
        self.open = match e {
            DrawerEvent::ControlsPressed => true,
            _ => false,
        };
    }

    /// Whether the floating Controls button is offered: only on a narrow screen, and only
    /// while the drawer is shut, since the open drawer covers its corner and carries its
    /// own ways out.
    pub fn toggle_shown(&self, compact: bool) -> (r: bool)
        ensures
            r == (compact && !self.open),
    {
        compact && !self.open
    }
}

/// The transport's run/pause button was pressed while the shell showed `paused`.
/// Returns what the shell shows now and the framework command that tells the runner.
pub fn toggle_pause(paused: bool) -> (r: (bool, &'static str))
    ensures
        r.0 == !paused,
        r.1@ == CMD_PREFIX@ + (if r.0 { "pause"@ } else { "resume"@ }),
{
    proof {
        reveal_strlit("fathom.pause");
        reveal_strlit("fathom.resume");
        reveal_strlit("fathom.");
        reveal_strlit("pause");
        reveal_strlit("resume");
        assert("fathom.pause"@ =~= "fathom."@ + "pause"@);
        assert("fathom.resume"@ =~= "fathom."@ + "resume"@);
    }
    if paused {
        (false, "fathom.resume")
    } else {
        (true, "fathom.pause")
    }
}

/// The transport button and the runner agree: whichever builtin the button's command
/// routes to, carrying it out leaves the runner paused exactly when the button now shows
/// it paused.
pub proof fn lemma_transport_agrees_with_runner(now_paused: bool, b: Builtin, t: Transport)
    requires
        CMD_PREFIX@ + builtin_name(b) == CMD_PREFIX@ + (if now_paused { "pause"@ } else { "resume"@ }),
    ensures
        after_builtin(t, b).paused == now_paused,
{
    let p = CMD_PREFIX@;
    let name = builtin_name(b);
    let target: Seq<char> = if now_paused { "pause"@ } else { "resume"@ };
    assert(name =~= (p + name).skip(p.len() as int));
    assert(target =~= (p + target).skip(p.len() as int));
    reveal_strlit("pause");
    reveal_strlit("resume");
    reveal_strlit("toggle_pause");
    reveal_strlit("step");
    reveal_strlit("reset_camera");
    match b {
        Builtin::Pause => {
            if !now_paused {
                assert(name.len() != target.len());
            }
        },
        Builtin::Resume => {
            if now_paused {
                assert(name.len() != target.len());
            }
        },
        Builtin::TogglePause => {
            assert(name.len() != target.len());
        },
        Builtin::Step => {
            if now_paused {
                assert(name[1] != target[1]);
            } else {
                assert(name.len() != target.len());
            }
        },
        Builtin::ResetCamera => {
            assert(name.len() != target.len());
        },
    }
}

} // verus!
