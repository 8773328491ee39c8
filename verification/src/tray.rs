//! The tray menu: a projection of the registry, and the meaning of a
//! selection in it.

use crate::applier::{
    apply, planned, result_view, verdict, ApplyError, ApplyErrorModel, ProcessOutcome,
};
use crate::command::{invocation_for, Invocation, InvocationModel};
use crate::preset::{Preset, PresetModel};
use crate::registry::{lemma_lookup_found, lemma_lookup_none, lookup, Registry};
use crate::text::same_text;
use vstd::prelude::*;
use vstd::string::*;

verus! {

/// One line of the tray menu.
#[derive(Debug)]
pub enum MenuEntry {
    /// A line that can be chosen when it is enabled. Choosing it reports `id`.
    Item { id: String, label: String, enabled: bool },
    /// A dividing line.
    Separator,
}

/// A [`MenuEntry`], with its texts as sequences of characters.
pub enum MenuEntryModel {
    Item { id: Seq<char>, label: Seq<char>, enabled: bool },
    Separator,
}

impl View for MenuEntry {
    type V = MenuEntryModel;

    open spec fn view(&self) -> MenuEntryModel {
        match self {
            MenuEntry::Item { id, label, enabled } => MenuEntryModel::Item {
                id: id@,
                label: label@,
                enabled: *enabled,
            },
            MenuEntry::Separator => MenuEntryModel::Separator,
        }
    }
}

impl DeepView for MenuEntry {
    type V = MenuEntryModel;

    open spec fn deep_view(&self) -> MenuEntryModel {
        self@
    }
}

/// The line shown in place of the presets when there are none. It cannot be
/// chosen.
pub open spec fn placeholder_item() -> MenuEntryModel {
    MenuEntryModel::Item { id: "no_presets"@, label: "No Presets"@, enabled: false }
}

/// The line of a preset: its name is both what is shown and what is reported
/// when the line is chosen.
pub open spec fn preset_item(preset: PresetModel) -> MenuEntryModel {
    MenuEntryModel::Item { id: preset.name, label: preset.name, enabled: true }
}

/// The line that opens the main window.
pub open spec fn configure_item() -> MenuEntryModel {
    MenuEntryModel::Item { id: "open"@, label: "Configure"@, enabled: true }
}

/// The line that ends the program.
pub open spec fn quit_item() -> MenuEntryModel {
    MenuEntryModel::Item { id: "quit"@, label: "Quit"@, enabled: true }
}

/// The upper part of the menu: one line per preset, in the order of the
/// presets, or the placeholder when there is no preset.
pub open spec fn preset_section(presets: Seq<PresetModel>) -> Seq<MenuEntryModel> {
    if presets.len() == 0 {
        seq![placeholder_item()]
    } else {
        Seq::new(presets.len(), |i: int| preset_item(presets[i]))
    }
}

/// The lower part of the menu, the same whatever the presets are.
pub open spec fn fixed_section() -> Seq<MenuEntryModel> {
    seq![MenuEntryModel::Separator, configure_item(), quit_item()]
}

/// The whole menu for the given presets.
pub open spec fn tray_menu(presets: Seq<PresetModel>) -> Seq<MenuEntryModel> {
    preset_section(presets) + fixed_section()
}

/// What the choice of a menu line asks for.
#[derive(Debug)]
pub enum MenuAction {
    /// End the program.
    Quit,
    /// Show the main window and give it the focus.
    OpenConfigure,
    /// Nothing: the placeholder was chosen.
    NoPresets,
    /// Apply the preset of this name.
    SelectPreset(String),
}

/// A [`MenuAction`], with its text as a sequence of characters.
pub enum MenuActionModel {
    Quit,
    OpenConfigure,
    NoPresets,
    SelectPreset(Seq<char>),
}

impl View for MenuAction {
    type V = MenuActionModel;

    open spec fn view(&self) -> MenuActionModel {
        match self {
            MenuAction::Quit => MenuActionModel::Quit,
            MenuAction::OpenConfigure => MenuActionModel::OpenConfigure,
            MenuAction::NoPresets => MenuActionModel::NoPresets,
            MenuAction::SelectPreset(name) => MenuActionModel::SelectPreset(name@),
        }
    }
}

/// Whether `id` is one of the three identities that the menu keeps for
/// itself. A preset that bears such a name cannot be chosen from the menu.
pub open spec fn is_reserved(id: Seq<char>) -> bool {
    id == "quit"@ || id == "open"@ || id == "no_presets"@
}

/// The action that the identity of a chosen line stands for. The three
/// reserved identities come first; every other identity is a preset's name.
pub open spec fn action_for(id: Seq<char>) -> MenuActionModel {
    if id == "quit"@ {
        MenuActionModel::Quit
    } else if id == "open"@ {
        MenuActionModel::OpenConfigure
    } else if id == "no_presets"@ {
        MenuActionModel::NoPresets
    } else {
        MenuActionModel::SelectPreset(id)
    }
}

/// The menu of an empty registry: the placeholder, which cannot be chosen,
/// then the separator, "Configure" and "Quit".
pub proof fn lemma_menu_without_presets()
    ensures
        preset_section(Seq::<PresetModel>::empty()) == seq![
            MenuEntryModel::Item { id: "no_presets"@, label: "No Presets"@, enabled: false },
        ],
        tray_menu(Seq::<PresetModel>::empty()) == seq![
            placeholder_item(),
            MenuEntryModel::Separator,
            configure_item(),
            quit_item(),
        ],
{
    assert(tray_menu(Seq::<PresetModel>::empty()) =~= seq![
        placeholder_item(),
        MenuEntryModel::Separator,
        configure_item(),
        quit_item(),
    ]);
}

/// The menu of a registry of two presets: one enabled line for each, labelled
/// with its name, in their order, then the separator, "Configure" and "Quit".
pub proof fn lemma_menu_of_two(a: PresetModel, b: PresetModel)
    ensures
        preset_section(seq![a, b]) == seq![
            MenuEntryModel::Item { id: a.name, label: a.name, enabled: true },
            MenuEntryModel::Item { id: b.name, label: b.name, enabled: true },
        ],
        tray_menu(seq![a, b]) == seq![
            preset_item(a),
            preset_item(b),
            MenuEntryModel::Separator,
            configure_item(),
            quit_item(),
        ],
{
    assert(tray_menu(seq![a, b]) =~= seq![
        preset_item(a),
        preset_item(b),
        MenuEntryModel::Separator,
        configure_item(),
        quit_item(),
    ]);
}

/// The menu of a registry that holds presets: line `i` is the line of preset
/// `i`, and the three fixed lines follow the last preset.
pub proof fn lemma_menu_mirrors_presets(presets: Seq<PresetModel>)
    requires
        presets.len() > 0,
    ensures
        tray_menu(presets).len() == presets.len() + 3,
        forall|i: int| 0 <= i < presets.len() ==> #[trigger] tray_menu(presets)[i] == preset_item(
            presets[i],
        ),
        tray_menu(presets).subrange(presets.len() as int, presets.len() as int + 3)
            == fixed_section(),
{
}

/// The three fixed identities stand for their own actions.
pub proof fn lemma_reserved_actions()
    ensures
        action_for("quit"@) == MenuActionModel::Quit,
        action_for("open"@) == MenuActionModel::OpenConfigure,
        action_for("no_presets"@) == MenuActionModel::NoPresets,
{
    reveal_strlit("quit");
    reveal_strlit("open");
    reveal_strlit("no_presets");
    assert("quit"@.len() != "open"@.len() || "quit"@[0] != "open"@[0]);
}

/// Choosing the line of a preset whose name is not reserved asks for that
/// name to be applied, and the request then runs the tool for the first
/// preset of the registry that bears the name.
pub proof fn lemma_selection_reaches_preset(presets: Seq<PresetModel>, i: int)
    requires
        0 <= i < presets.len(),
        !is_reserved(presets[i].name),
    ensures
        tray_menu(presets)[i] == preset_item(presets[i]),
        action_for(presets[i].name) == MenuActionModel::SelectPreset(presets[i].name),
        lookup(presets, presets[i].name) is Some,
        lookup(presets, presets[i].name)->0.name == presets[i].name,
        planned(presets, presets[i].name) == Ok::<InvocationModel, ApplyErrorModel>(
            invocation_for(lookup(presets, presets[i].name)->0),
        ),
{
    let name = presets[i].name;
    lemma_lookup_none(presets, name);
    lemma_lookup_found(presets, name);
}

/// The menu for a snapshot of the registry.
pub fn build_menu(presets: &Vec<Preset>) -> (menu: Vec<MenuEntry>)
    ensures
        menu.deep_view() == tray_menu(presets.deep_view()),
{
    let mut menu: Vec<MenuEntry> = Vec::new();
    if presets.len() == 0 {
        menu.push(
            MenuEntry::Item {
                id: String::from_str("no_presets"),
                label: String::from_str("No Presets"),
                enabled: false,
            },
        );
    } else {
        let mut i: usize = 0;
        while i < presets.len()
            invariant
                i <= presets@.len(),
                menu@.len() == i,
                forall|j: int| 0 <= j < i ==> (#[trigger] menu@[j])@ == preset_item(presets@[j]@),
            decreases presets@.len() - i,
        {
            let name = &presets[i].name;
            menu.push(MenuEntry::Item { id: name.clone(), label: name.clone(), enabled: true });
            i += 1;
        }
    }
    assert(menu.deep_view() =~= preset_section(presets.deep_view()));
    menu.push(MenuEntry::Separator);
    menu.push(
        MenuEntry::Item {
            id: String::from_str("open"),
            label: String::from_str("Configure"),
            enabled: true,
        },
    );
    menu.push(
        MenuEntry::Item {
            id: String::from_str("quit"),
            label: String::from_str("Quit"),
            enabled: true,
        },
    );
    menu
}

/// The menu for the presets that the registry holds now. The menu is not
/// kept up to date: it shows a preset added later only when it is built anew.
pub fn registry_menu(registry: &Registry) -> (menu: Vec<MenuEntry>)
    ensures
        menu.deep_view() == tray_menu(registry@),
{
    let snapshot = registry.snapshot();
    build_menu(&snapshot)
}

/// Reads the identity of a chosen menu line.
pub fn parse_selection(id: &str) -> (action: MenuAction)
    ensures
        action@ == action_for(id@),
{
    if same_text(id, "quit") {
        MenuAction::Quit
    } else if same_text(id, "open") {
        MenuAction::OpenConfigure
    } else if same_text(id, "no_presets") {
        MenuAction::NoPresets
    } else {
        MenuAction::SelectPreset(String::from_str(id))
    }
}

/// What the choice of a menu line led to.
#[derive(Debug)]
pub enum Dispatched {
    /// The program is to end.
    Quit,
    /// The main window is to be shown and given the focus.
    OpenConfigure,
    /// Nothing is to be done.
    Ignored,
    /// The preset of this name was asked for, and this is how applying it
    /// went. A failure is reported here and ends nothing.
    Applied(String, Result<(), ApplyError>),
}

/// A [`Dispatched`], with its texts as sequences of characters.
pub enum DispatchedModel {
    Quit,
    OpenConfigure,
    Ignored,
    Applied(Seq<char>, Result<(), ApplyErrorModel>),
}

impl View for Dispatched {
    type V = DispatchedModel;

    open spec fn view(&self) -> DispatchedModel {
        match self {
            Dispatched::Quit => DispatchedModel::Quit,
            Dispatched::OpenConfigure => DispatchedModel::OpenConfigure,
            Dispatched::Ignored => DispatchedModel::Ignored,
            Dispatched::Applied(name, result) => DispatchedModel::Applied(
                name@,
                result_view(*result),
            ),
        }
    }
}

/// Handles the choice of the menu line with identity `id`. The three fixed
/// identities are handed back for the caller to act on; any other identity is
/// taken for the name of a preset, which is applied as [`apply`] does, with
/// `run` to start the tool.
pub fn dispatch<F: FnOnce(Invocation) -> ProcessOutcome>(
    registry: &Registry,
    id: &str,
    run: F,
) -> (done: Dispatched)
    requires
        forall|call: Invocation|
            !is_reserved(id@) && planned(registry@, id@) == Ok::<InvocationModel, ApplyErrorModel>(
                call@,
            ) ==> run.requires((call,)),
    ensures
        match action_for(id@) {
            MenuActionModel::Quit => done@ == DispatchedModel::Quit,
            MenuActionModel::OpenConfigure => done@ == DispatchedModel::OpenConfigure,
            MenuActionModel::NoPresets => done@ == DispatchedModel::Ignored,
            MenuActionModel::SelectPreset(name) => match planned(registry@, name) {
                Err(error) => done@ == DispatchedModel::Applied(name, Err(error)),
                Ok(planned_call) => exists|call: Invocation, outcome: ProcessOutcome|
                    call@ == planned_call && run.ensures((call,), outcome) && done@
                        == DispatchedModel::Applied(name, verdict(outcome@)),
            },
        },
{
    match parse_selection(id) {
        MenuAction::Quit => Dispatched::Quit,
        MenuAction::OpenConfigure => Dispatched::OpenConfigure,
        MenuAction::NoPresets => Dispatched::Ignored,
        MenuAction::SelectPreset(name) => {
            let result = apply(registry, name.as_str(), run);
            Dispatched::Applied(name, result)
        },
    }
}

} // verus!
