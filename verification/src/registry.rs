//! The preset registry: presets in the order in which they were added.

use crate::preset::{Preset, PresetModel};
use crate::text::same_text;
use vstd::prelude::*;

verus! {

/// The first preset of `presets` that bears `name`, if there is one.
pub open spec fn lookup(presets: Seq<PresetModel>, name: Seq<char>) -> Option<PresetModel>
    decreases presets.len(),
{
    if presets.len() == 0 {
        None
    } else if presets[0].name == name {
        Some(presets[0])
    } else {
        lookup(presets.drop_first(), name)
    }
}

/// True when `presets[i]` bears `name` and no earlier preset does.
pub open spec fn is_first_named(presets: Seq<PresetModel>, name: Seq<char>, i: int) -> bool {
    &&& 0 <= i < presets.len()
    &&& presets[i].name == name
    &&& forall|j: int| 0 <= j < i ==> (#[trigger] presets[j]).name != name
}

/// A lookup finds the preset at the first position that bears the name.
pub proof fn lemma_lookup_first(presets: Seq<PresetModel>, name: Seq<char>, i: int)
    requires
        is_first_named(presets, name, i),
    ensures
        lookup(presets, name) == Some(presets[i]),
    decreases presets.len(),
{
    if i > 0 {
        let rest = presets.drop_first();
        assert(is_first_named(rest, name, i - 1)) by {
            assert forall|j: int| 0 <= j < i - 1 implies (#[trigger] rest[j]).name != name by {
                assert(rest[j] == presets[j + 1]);
            }
        }
        lemma_lookup_first(rest, name, i - 1);
    }
}

/// A lookup finds nothing exactly when no preset bears the name.
pub proof fn lemma_lookup_none(presets: Seq<PresetModel>, name: Seq<char>)
    ensures
        lookup(presets, name) is None <==> forall|j: int|
            0 <= j < presets.len() ==> (#[trigger] presets[j]).name != name,
    decreases presets.len(),
{
    if presets.len() > 0 {
        let rest = presets.drop_first();
        lemma_lookup_none(rest, name);
        if presets[0].name != name {
            if lookup(rest, name) is None {
                assert forall|j: int| 0 <= j < presets.len() implies (#[trigger] presets[j]).name
                    != name by {
                    if j > 0 {
                        assert(presets[j] == rest[j - 1]);
                    }
                }
            } else {
                let j = choose|j: int| 0 <= j < rest.len() && (#[trigger] rest[j]).name == name;
                assert(presets[j + 1] == rest[j]);
            }
        }
    }
}

/// What a lookup finds is a preset of the sequence, it bears the name, and it
/// stands before every other preset that bears it.
pub proof fn lemma_lookup_found(presets: Seq<PresetModel>, name: Seq<char>)
    requires
        lookup(presets, name) is Some,
    ensures
        exists|i: int| #[trigger]
            is_first_named(presets, name, i) && lookup(presets, name) == Some(presets[i]),
    decreases presets.len(),
{
    if presets[0].name == name {
        assert(is_first_named(presets, name, 0));
    } else {
        let rest = presets.drop_first();
        lemma_lookup_found(rest, name);
        let i = choose|i: int| #[trigger]
            is_first_named(rest, name, i) && lookup(rest, name) == Some(rest[i]);
        assert(is_first_named(presets, name, i + 1)) by {
            assert(presets[i + 1] == rest[i]);
            assert forall|j: int| 0 <= j < i + 1 implies (#[trigger] presets[j]).name != name by {
                if j > 0 {
                    assert(presets[j] == rest[j - 1]);
                }
            }
        }
    }
}

/// Looking a name up after one more preset was added: what was found before is
/// still found; otherwise the new preset is found if it bears the name.
pub proof fn lemma_lookup_push(presets: Seq<PresetModel>, added: PresetModel, name: Seq<char>)
    ensures
        lookup(presets.push(added), name) == if lookup(presets, name) is Some {
            lookup(presets, name)
        } else if added.name == name {
            Some(added)
        } else {
            None
        },
    decreases presets.len(),
{
    let grown = presets.push(added);
    if presets.len() == 0 {
        assert(grown.drop_first() =~= Seq::<PresetModel>::empty());
    } else {
        assert(grown.drop_first() =~= presets.drop_first().push(added));
        if presets[0].name != name {
            lemma_lookup_push(presets.drop_first(), added, name);
        }
    }
}

/// Two presets added one after the other to an empty registry are held in
/// that order.
pub proof fn lemma_appends_keep_order(a: PresetModel, b: PresetModel)
    ensures
        Seq::<PresetModel>::empty().push(a).push(b) == seq![a, b],
{
}

/// In a registry of two presets the name of the second finds the second,
/// unless the first bears the same name and says something else: then the
/// first is found.
pub proof fn lemma_second_is_found(a: PresetModel, b: PresetModel)
    requires
        a.name != b.name || a == b,
    ensures
        lookup(seq![a, b], b.name) == Some(b),
{
    let both = seq![a, b];
    if a.name == b.name {
        lemma_lookup_first(both, b.name, 0);
    } else {
        assert(is_first_named(both, b.name, 1));
        lemma_lookup_first(both, b.name, 1);
    }
}

/// In a registry of two presets a name that neither bears finds nothing.
pub proof fn lemma_absent_name_not_found(a: PresetModel, b: PresetModel, name: Seq<char>)
    requires
        name != a.name,
        name != b.name,
    ensures
        lookup(seq![a, b], name) is None,
{
    lemma_lookup_none(seq![a, b], name);
}

/// An ordered, append-only collection of presets. It starts empty; the only
/// change it knows is the addition of a preset at its end.
#[derive(Debug)]
pub struct Registry {
    presets: Vec<Preset>,
}

impl View for Registry {
    type V = Seq<PresetModel>;

    closed spec fn view(&self) -> Seq<PresetModel> {
        self.presets.deep_view()
    }
}

impl Registry {
    /// A registry with no preset.
    pub fn new() -> (registry: Registry)
        ensures
            registry@ == Seq::<PresetModel>::empty(),
    {
        let registry = Registry { presets: Vec::new() };
        registry
    }

    /// How many presets the registry holds.
    pub fn len(&self) -> (count: usize)
        ensures
            count == self@.len(),
    {
        self.presets.len()
    }

    /// Whether the registry holds no preset.
    pub fn is_empty(&self) -> (empty: bool)
        ensures
            empty == (self@.len() == 0),
    {
        self.presets.len() == 0
    }

    /// Adds `preset` at the end. Nothing is checked: a name may occur twice.
    pub fn append(&mut self, preset: Preset)
        ensures
            final(self)@ == old(self)@.push(preset@),
    {
        self.presets.push(preset);
    }

    /// A copy of the presets, in the order in which they were added.
    pub fn snapshot(&self) -> (presets: Vec<Preset>)
        ensures
            presets.deep_view() == self@,
    {
        let mut presets: Vec<Preset> = Vec::new();
        let mut i: usize = 0;
        while i < self.presets.len()
            invariant
                i <= self.presets@.len(),
                presets@.len() == i,
                forall|j: int| 0 <= j < i ==> presets@[j] == self.presets@[j],
            decreases self.presets@.len() - i,
        {
            presets.push(self.presets[i].clone());
            i += 1;
        }
        presets
    }

    /// The first preset that bears `name`, if there is one.
    pub fn find_by_name(&self, name: &str) -> (found: Option<&Preset>)
        ensures
            found.deep_view() == lookup(self@, name@),
    {
        let mut i: usize = 0;
        while i < self.presets.len()
            invariant
                i <= self.presets@.len(),
                forall|j: int| 0 <= j < i ==> (#[trigger] self@[j]).name != name@,
            decreases self.presets@.len() - i,
        {
            if same_text(self.presets[i].name.as_str(), name) {
                proof {
                    lemma_lookup_first(self@, name@, i as int);
                }
                return Some(&self.presets[i]);
            }
            i += 1;
        }
        proof {
            lemma_lookup_none(self@, name@);
        }
        None
    }
}

} // verus!
