//! The setting store: one current value per kind of setting, changed only
//! through the selection protocol.

use crate::interaction::Interaction;
use vstd::prelude::*;
use vstd::std_specs::cmp::PartialEqSpec;
use vstd::std_specs::cmp::PartialEqSpecImpl;

verus! {

/// How hard the game is going to be.
#[derive(Clone, Copy, Debug, Eq, Hash)]
pub enum Difficulty {
    Easy,
    Normal,
    Hard,
}

impl PartialEq for Difficulty {
    fn eq(&self, other: &Self) -> (r: bool) {
        match (*self, *other) {
            (Difficulty::Easy, Difficulty::Easy) => true,
            (Difficulty::Normal, Difficulty::Normal) => true,
            (Difficulty::Hard, Difficulty::Hard) => true,
            _ => false,
        }
    }
}

impl PartialEqSpecImpl for Difficulty {
    open spec fn obeys_eq_spec() -> bool {
        true
    }

    open spec fn eq_spec(&self, other: &Self) -> bool {
        *self == *other
    }
}

impl Difficulty {
    /// The name under which a difficulty is shown.
    pub open spec fn spec_label(self) -> &'static str {
        match self {
            Difficulty::Easy => "Easy",
            Difficulty::Normal => "Normal",
            Difficulty::Hard => "Hard",
        }
    }

    /// The name under which a difficulty is shown.
    #[verifier::when_used_as_spec(spec_label)]
    pub fn label(self) -> (label: &'static str)
        ensures
            label == self.spec_label(),
    {
        match self {
            Difficulty::Easy => "Easy",
            Difficulty::Normal => "Normal",
            Difficulty::Hard => "Hard",
        }
    }

    /// Every difficulty, from the easiest to the hardest.
    pub fn all() -> (all: [Difficulty; 3])
        ensures
            all@ == difficulties(),
    {
        [Difficulty::Easy, Difficulty::Normal, Difficulty::Hard]
    }
}

/// Every difficulty, from the easiest to the hardest.
pub open spec fn difficulties() -> Seq<Difficulty> {
    seq![Difficulty::Easy, Difficulty::Normal, Difficulty::Hard]
}

/// The name of the player.
#[derive(Clone, Debug, PartialEq, Eq)]
pub struct Nick(pub String);

/// A kind of setting is comparable when its `==` tells exactly whether two
/// values are the same.
pub open spec fn comparable<T: PartialEq>() -> bool {
    &&& T::obeys_eq_spec()
    &&& forall|a: T, b: T| #[trigger] a.eq_spec(&b) <==> a == b
}

/// The current value of one kind of setting. There is always exactly one.
pub struct Setting<T> {
    current: T,
}

impl<T> View for Setting<T> {
    type V = T;

    /// The current value.
    closed spec fn view(&self) -> T {
        self.current
    }
}

impl<T: Copy + PartialEq> Setting<T> {
    pub fn new(initial: T) -> (setting: Self)
        ensures
            setting@ == initial,
    {
        Setting { current: initial }
    }

    /// Reads the current value.
    pub fn get(&self) -> (value: T)
        ensures
            value == self@,
    {
        self.current
    }

    /// Makes `new_value` the current value. The store is written only where
    /// the value differs from the current one, and the result says whether it
    /// was: selecting the current value again writes nothing.
    pub fn select(&mut self, new_value: T) -> (written: bool)
        requires
            comparable::<T>(),
        ensures
            final(self)@ == new_value,
            written == (old(self)@ != new_value),
            !written ==> *final(self) == *old(self),
    {
        if self.current != new_value {
            self.current = new_value;
            true
        } else {
            false
        }
    }
}

/// The value a setting holds after the selectable elements of one tick were
/// looked at in order: the candidate of the last clicked one, or `current`
/// where none was clicked.
pub open spec fn selected<T>(current: T, options: Seq<(Interaction, T)>) -> T
    decreases options.len(),
{
    if options.len() == 0 {
        current
    } else if options.last().0 == Interaction::Clicked {
        options.last().1
    } else {
        selected(current, options.drop_last())
    }
}

/// The number of writes that the selectable elements of one tick cause: one
/// for each clicked element whose candidate differs from the value that is
/// current when its turn comes.
pub open spec fn writes<T>(current: T, options: Seq<(Interaction, T)>) -> nat
    decreases options.len(),
{
    if options.len() == 0 {
        0
    } else {
        let earlier = options.drop_last();
        let write: nat = if options.last().0 == Interaction::Clicked && options.last().1
            != selected(current, earlier) {
            1
        } else {
            0
        };
        writes(current, earlier) + write
    }
}

/// The selection protocol, for any kind of setting: of the selectable
/// elements that the host reported in this tick, each clicked one whose
/// candidate differs from the current value is committed through
/// [`Setting::select`]. Returns whether the store was written at all.
pub fn difficulty_button<T: Copy + PartialEq>(
    options: &Vec<(Interaction, T)>,
    setting: &mut Setting<T>,
) -> (written: bool)
    requires
        comparable::<T>(),
    ensures
        final(setting)@ == selected(old(setting)@, options@),
        written == (writes(old(setting)@, options@) > 0),
{
    let ghost before = setting@;
    let mut written = false;
    let mut i: usize = 0;
    while i < options.len()
        invariant
            i <= options.len(),
            comparable::<T>(),
            setting@ == selected(before, options@.take(i as int)),
            written == (writes(before, options@.take(i as int)) > 0),
        decreases options.len() - i,
    {
        let (interaction, candidate) = options[i];
        proof {
            assert(options@.take(i + 1).drop_last() == options@.take(i as int));
        }
        if interaction == Interaction::Clicked {
            if setting.select(candidate) {
                written = true;
            }
        }
        i += 1;
    }
    proof {
        assert(options@.take(options.len() as int) == options@);
    }
    written
}

/// Selecting the current value, however often, leaves the value as it is and
/// writes nothing.
pub proof fn lemma_select_current_is_idle<T>(current: T, options: Seq<(Interaction, T)>)
    requires
        forall|i: int|
            0 <= i < options.len() && (#[trigger] options[i]).0 == Interaction::Clicked
                ==> options[i].1 == current,
    ensures
        selected(current, options) == current,
        writes(current, options) == 0,
    decreases options.len(),
{
    if options.len() > 0 {
        lemma_select_current_is_idle(current, options.drop_last());
    }
}

/// Elements that are not clicked select nothing.
pub proof fn lemma_no_click_selects_nothing<T>(current: T, options: Seq<(Interaction, T)>)
    requires
        forall|i: int| 0 <= i < options.len() ==> (#[trigger] options[i]).0 != Interaction::Clicked,
    ensures
        selected(current, options) == current,
        writes(current, options) == 0,
    decreases options.len(),
{
    if options.len() > 0 {
        lemma_no_click_selects_nothing(current, options.drop_last());
    }
}

} // verus!
