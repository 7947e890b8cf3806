//! The grab table: which key or button, with which modifiers, stands for
//! which action.

use vstd::prelude::*;
use crate::error::GrabConflictError;
use crate::protocol::MODKEY;

verus! {

/// The kind of input event that a binding answers to.
#[derive(Clone, Copy, Debug, PartialEq, Eq, Structural, Hash)]
pub enum EventKind {
    KeyPress,
    ButtonPress,
}

/// What a binding stands for.
#[derive(Clone, Copy, Debug, PartialEq, Eq, Structural, Hash)]
pub enum Action {
    /// Drag the window under the pointer to a new position.
    Move,
    /// Drag the window under the pointer to a new size.
    Resize,
    /// Launch the default client program.
    Spawn,
    /// End the event loop.
    Quit,
    /// Nothing: the grab keeps the press from the clients, and the manager
    /// lets it pass.
    Ignore,
}

/// The input that a binding is looked up by.
#[derive(Clone, Copy, Debug, PartialEq, Eq, Structural, Hash)]
pub struct Trigger {
    pub kind: EventKind,
    pub modifiers: u16,
    /// Key code for a key press, button index for a button press.
    pub code: u8,
}

/// One entry of the grab table.
#[derive(Clone, Copy, Debug, PartialEq, Eq, Structural, Hash)]
pub struct Binding {
    pub trigger: Trigger,
    pub action: Action,
}

/// Key code of the keyboard shortcut that the standard table reserves.
pub const RESERVED_KEY: u8 = 24;

/// Button that the standard table binds to moving a window.
pub const MOVE_BUTTON: u8 = 1;

/// Button that the standard table binds to resizing a window.
pub const RESIZE_BUTTON: u8 = 3;

/// No trigger occurs in two bindings.
pub open spec fn distinct_triggers(bindings: Seq<Binding>) -> bool {
    forall|i: int, j: int|
        0 <= i < j < bindings.len() ==> (#[trigger] bindings[i]).trigger != (
        #[trigger] bindings[j]).trigger
}

/// The action of the first binding with the given trigger, if there is one.
/// The match is exact: no binding stands in for another.
pub open spec fn spec_lookup(bindings: Seq<Binding>, trigger: Trigger) -> Option<Action>
    decreases bindings.len(),
{
    if bindings.len() == 0 {
        None
    } else if bindings[0].trigger == trigger {
        Some(bindings[0].action)
    } else {
        spec_lookup(bindings.drop_first(), trigger)
    }
}

/// The bindings of the standard table: one keyboard shortcut, which is
/// reserved and does nothing yet, and the two pointer buttons that move and
/// resize.
pub open spec fn standard_bindings() -> Seq<Binding> {
    seq![
        Binding {
            trigger: Trigger { kind: EventKind::KeyPress, modifiers: MODKEY, code: RESERVED_KEY },
            action: Action::Ignore,
        },
        Binding {
            trigger: Trigger { kind: EventKind::ButtonPress, modifiers: MODKEY, code: MOVE_BUTTON },
            action: Action::Move,
        },
        Binding {
            trigger: Trigger {
                kind: EventKind::ButtonPress,
                modifiers: MODKEY,
                code: RESIZE_BUTTON,
            },
            action: Action::Resize,
        },
    ]
}

/// A lookup finds the first binding with the trigger, and finds nothing only
/// where no binding has it.
pub proof fn lemma_lookup_first_match(bindings: Seq<Binding>, trigger: Trigger)
    ensures
        match spec_lookup(bindings, trigger) {
            Some(action) => exists|i: int|
                0 <= i < bindings.len() && (#[trigger] bindings[i]).trigger == trigger
                    && bindings[i].action == action && forall|j: int|
                    0 <= j < i ==> (#[trigger] bindings[j]).trigger != trigger,
            None => forall|i: int|
                0 <= i < bindings.len() ==> (#[trigger] bindings[i]).trigger != trigger,
        },
    decreases bindings.len(),
{
    if bindings.len() > 0 && bindings[0].trigger != trigger {
        let rest = bindings.drop_first();
        lemma_lookup_first_match(rest, trigger);
        assert(forall|i: int| 0 <= i < rest.len() ==> rest[i] == bindings[i + 1]);
        match spec_lookup(rest, trigger) {
            Some(action) => {
                let i = choose|i: int|
                    0 <= i < rest.len() && (#[trigger] rest[i]).trigger == trigger
                        && rest[i].action == action && forall|j: int|
                        0 <= j < i ==> (#[trigger] rest[j]).trigger != trigger;
                assert forall|j: int| 0 <= j < i + 1 implies (#[trigger] bindings[j]).trigger
                    != trigger by {
                    if j > 0 {
                        assert(rest[j - 1].trigger != trigger);
                    }
                }
                assert(bindings[i + 1].trigger == trigger && bindings[i + 1].action == action);
            },
            None => {
                assert forall|i: int| 0 <= i < bindings.len() implies (
                #[trigger] bindings[i]).trigger != trigger by {
                    if i > 0 {
                        assert(rest[i - 1].trigger != trigger);
                    }
                }
            },
        }
    } else if bindings.len() > 0 {
        assert(bindings[0].trigger == trigger);
    }
}

/// What the standard table answers to every trigger.
pub proof fn lemma_standard_lookup(trigger: Trigger)
    ensures
        distinct_triggers(standard_bindings()),
        spec_lookup(standard_bindings(), trigger) == (if trigger.modifiers != MODKEY {
            None
        } else if trigger.kind == EventKind::KeyPress && trigger.code == RESERVED_KEY {
            Some(Action::Ignore)
        } else if trigger.kind == EventKind::ButtonPress && trigger.code == MOVE_BUTTON {
            Some(Action::Move)
        } else if trigger.kind == EventKind::ButtonPress && trigger.code == RESIZE_BUTTON {
            Some(Action::Resize)
        } else {
            None
        }),
{
    let b = standard_bindings();
    let b1 = b.drop_first();
    let b2 = b1.drop_first();
    let b3 = b2.drop_first();
    assert(b.len() == 3 && b1.len() == 2 && b2.len() == 1 && b3.len() == 0);
    assert(b1[0] == b[1] && b2[0] == b[2]);
    assert(spec_lookup(b3, trigger) is None);
    assert(spec_lookup(b2, trigger) == if b[2].trigger == trigger {
        Some(b[2].action)
    } else {
        None
    });
    assert(spec_lookup(b1, trigger) == if b[1].trigger == trigger {
        Some(b[1].action)
    } else {
        spec_lookup(b2, trigger)
    });
}

/// The table of bindings that are installed on the root window at startup.
/// No trigger is bound twice.
pub struct GrabTable {
    bindings: Vec<Binding>,
}

impl View for GrabTable {
    type V = Seq<Binding>;

    closed spec fn view(&self) -> Seq<Binding> {
        self.bindings@
    }
}

impl GrabTable {
    #[verifier::type_invariant]
    spec fn bound_once(self) -> bool {
        distinct_triggers(self.bindings@)
    }

    /// Every table binds each trigger at most once. The call does nothing at
    /// run time: it hands the fact to the caller's proof.
    pub fn triggers_are_distinct(&self)
        ensures
            distinct_triggers(self@),
    {
        proof {
            use_type_invariant(self);
        }
    }

    /// A table without bindings.
    pub fn new() -> (table: Self)
        ensures
            table@ == Seq::<Binding>::empty(),
            distinct_triggers(table@),
    {
        GrabTable { bindings: Vec::new() }
    }

    /// The standard table.
    pub fn standard() -> (table: Self)
        ensures
            table@ == standard_bindings(),
            distinct_triggers(table@),
    {
        let mut bindings: Vec<Binding> = Vec::new();
        bindings.push(
            Binding {
                trigger: Trigger {
                    kind: EventKind::KeyPress,
                    modifiers: MODKEY,
                    code: RESERVED_KEY,
                },
                action: Action::Ignore,
            },
        );
        bindings.push(
            Binding {
                trigger: Trigger {
                    kind: EventKind::ButtonPress,
                    modifiers: MODKEY,
                    code: MOVE_BUTTON,
                },
                action: Action::Move,
            },
        );
        bindings.push(
            Binding {
                trigger: Trigger {
                    kind: EventKind::ButtonPress,
                    modifiers: MODKEY,
                    code: RESIZE_BUTTON,
                },
                action: Action::Resize,
            },
        );
        proof {
            assert(bindings@ =~= standard_bindings());
            lemma_standard_lookup(bindings@[0].trigger);
        }
        GrabTable { bindings }
    }

    /// Adds a binding at the end of the table, unless its trigger is bound
    /// already: then the table stays as it is and the conflict is reported.
    pub fn bind(&mut self, binding: Binding) -> (outcome: Result<(), GrabConflictError>)
        ensures
            spec_lookup(old(self)@, binding.trigger) is None ==> outcome is Ok && final(self)@
                == old(self)@.push(binding),
            spec_lookup(old(self)@, binding.trigger) is Some ==> outcome == Err::<
                (),
                GrabConflictError,
            >(GrabConflictError { trigger: binding.trigger }) && final(self)@ == old(self)@,
            distinct_triggers(final(self)@),
    {
        proof {
            use_type_invariant(&*self);
            lemma_lookup_first_match(self.bindings@, binding.trigger);
        }
        match self.lookup(binding.trigger) {
            Some(_) => Err(GrabConflictError { trigger: binding.trigger }),
            None => {
                // The bindings are taken out and a new table is made of them:
                // the invariant is checked where a table is made.
                let mut taken = GrabTable::new();
                std::mem::swap(self, &mut taken);
                let GrabTable { bindings: mut bindings } = taken;
                bindings.push(binding);
                *self = GrabTable { bindings };
                Ok(())
            },
        }
    }

    /// Looks a trigger up. Only a binding with exactly this trigger answers.
    pub fn lookup(&self, trigger: Trigger) -> (action: Option<Action>)
        ensures
            action == spec_lookup(self@, trigger),
    {
        let mut i: usize = 0;
        proof {
            assert(self.bindings@.skip(0) =~= self.bindings@);
        }
        while i < self.bindings.len()
            invariant
                0 <= i <= self.bindings.len(),
                spec_lookup(self.bindings@, trigger) == spec_lookup(
                    self.bindings@.skip(i as int),
                    trigger,
                ),
            decreases self.bindings.len() - i,
        {
            let binding = self.bindings[i];
            if same_trigger(binding.trigger, trigger) {
                return Some(binding.action);
            }
            proof {
                assert(self.bindings@.skip(i as int).drop_first() =~= self.bindings@.skip(
                    i as int + 1,
                ));
            }
            i += 1;
        }
        None
    }

    /// The number of bindings.
    pub fn len(&self) -> (n: usize)
        ensures
            n == self@.len(),
    {
        self.bindings.len()
    }

    /// The binding at position `index`, in the order in which the bindings
    /// were added.
    pub fn binding(&self, index: usize) -> (binding: Option<Binding>)
        ensures
            binding == (if index < self@.len() {
                Some(self@[index as int])
            } else {
                None
            }),
    {
        if index < self.bindings.len() {
            Some(self.bindings[index])
        } else {
            None
        }
    }
}

/// Tells whether two triggers are the same.
pub fn same_trigger(a: Trigger, b: Trigger) -> (same: bool)
    ensures
        same == (a == b),
{
    let same_kind = match (a.kind, b.kind) {
        (EventKind::KeyPress, EventKind::KeyPress) => true,
        (EventKind::ButtonPress, EventKind::ButtonPress) => true,
        _ => false,
    };
    same_kind && a.modifiers == b.modifiers && a.code == b.code
}

} // verus!
