//! Saved ability inputs: the committed selection of every ability
//! controller, with the parameters that say who may use it and how it
//! resets between phases.

use vstd::prelude::*;

use crate::kira::KiraGuess;
use crate::phase::PhaseType;
use crate::role::Role;
use crate::visit::PlayerIndex;

verus! {

/// Identifies one ability controller: the player owning it and the slot
/// the ability occupies for their role.
#[derive(Clone, Copy, Debug, PartialEq, Eq, Structural)]
pub struct ControllerID {
    pub player: PlayerIndex,
    pub id: u8,
}

/// A choice of at most one player.
#[derive(Clone, Copy, Debug, PartialEq, Eq, Structural)]
pub struct OnePlayerOptionSelection(pub Option<PlayerIndex>);

/// A choice of at most one role.
#[derive(Clone, Copy, Debug, PartialEq, Eq, Structural)]
pub struct RoleOptionSelection(pub Option<Role>);

/// A choice of up to two role outlines, by outline index.
#[derive(Clone, Copy, Debug, PartialEq, Eq, Structural)]
pub struct TwoRoleOutlineOptionSelection(pub Option<u8>, pub Option<u8>);

/// Kira's sheet of guesses as an input selection.
#[derive(Debug)]
pub struct KiraSelection(pub Vec<(PlayerIndex, KiraGuess)>);

/// What a controller currently selects.
#[derive(Debug)]
pub enum AbilitySelection {
    Unit,
    OnePlayerOption { player_selection: OnePlayerOptionSelection },
    RoleOption { role_selection: RoleOptionSelection },
    TwoRoleOutlineOption { outline_selection: TwoRoleOutlineOptionSelection },
    Kira { kira_selection: KiraSelection },
}

/// Two selections carry the same choice.
pub open spec fn selection_eq(a: AbilitySelection, b: AbilitySelection) -> bool {
    match (a, b) {
        (AbilitySelection::Unit, AbilitySelection::Unit) => true,
        (
            AbilitySelection::OnePlayerOption { player_selection: x },
            AbilitySelection::OnePlayerOption { player_selection: y },
        ) => x == y,
        (
            AbilitySelection::RoleOption { role_selection: x },
            AbilitySelection::RoleOption { role_selection: y },
        ) => x == y,
        (
            AbilitySelection::TwoRoleOutlineOption { outline_selection: x },
            AbilitySelection::TwoRoleOutlineOption { outline_selection: y },
        ) => x == y,
        (
            AbilitySelection::Kira { kira_selection: x },
            AbilitySelection::Kira { kira_selection: y },
        ) => x.0@ == y.0@,
        _ => false,
    }
}

impl AbilitySelection {
    /// Whether this selection carries the same choice as the other.
    pub fn same_as(&self, other: &AbilitySelection) -> (r: bool)
        ensures
            r == selection_eq(*self, *other),
    {
        match self {
            AbilitySelection::Unit => matches!(other, AbilitySelection::Unit),
            AbilitySelection::OnePlayerOption { player_selection: x } => match other {
                AbilitySelection::OnePlayerOption { player_selection: y } => match (x.0, y.0) {
                    (None, None) => true,
                    (Some(a), Some(b)) => a == b,
                    _ => false,
                },
                _ => false,
            },
            AbilitySelection::RoleOption { role_selection: x } => match other {
                AbilitySelection::RoleOption { role_selection: y } => match (x.0, y.0) {
                    (None, None) => true,
                    (Some(a), Some(b)) => a == b,
                    _ => false,
                },
                _ => false,
            },
            AbilitySelection::TwoRoleOutlineOption { outline_selection: x } => match other {
                AbilitySelection::TwoRoleOutlineOption { outline_selection: y } => {
                    let first = match (x.0, y.0) {
                        (None, None) => true,
                        (Some(a), Some(b)) => a == b,
                        _ => false,
                    };
                    let second = match (x.1, y.1) {
                        (None, None) => true,
                        (Some(a), Some(b)) => a == b,
                        _ => false,
                    };
                    first && second
                },
                _ => false,
            },
            AbilitySelection::Kira { kira_selection: x } => match other {
                AbilitySelection::Kira { kira_selection: y } => {
                    proof {
                        assert(selection_eq(*self, *other) == (x.0@ == y.0@));
                    }
                    if x.0.len() != y.0.len() {
                        return false;
                    }
                    let mut k: usize = 0;
                    while k < x.0.len()
                        invariant
                            k <= x.0@.len(),
                            x.0@.len() == y.0@.len(),
                            selection_eq(*self, *other) == (x.0@ == y.0@),
                            forall|m: int| 0 <= m < k ==> x.0@[m] == y.0@[m],
                        decreases x.0@.len() - k,
                    {
                        if !(x.0[k].0 == y.0[k].0 && x.0[k].1 == y.0[k].1) {
                            proof {
                                assert(x.0@[k as int] != y.0@[k as int]);
                            }
                            return false;
                        }
                        k = k + 1;
                    }
                    proof {
                        assert(x.0@ =~= y.0@);
                    }
                    true
                },
                _ => false,
            },
        }
    }

    /// A fresh value carrying the same choice.
    pub fn duplicate(&self) -> (r: AbilitySelection)
        ensures
            selection_eq(r, *self),
    {
        match self {
            AbilitySelection::Unit => AbilitySelection::Unit,
            AbilitySelection::OnePlayerOption { player_selection: selection } => AbilitySelection::OnePlayerOption {
                player_selection: *selection,
            },
            AbilitySelection::RoleOption { role_selection: selection } => AbilitySelection::RoleOption {
                role_selection: *selection,
            },
            AbilitySelection::TwoRoleOutlineOption { outline_selection: selection } => {
                AbilitySelection::TwoRoleOutlineOption { outline_selection: *selection }
            },
            AbilitySelection::Kira { kira_selection: selection } => AbilitySelection::Kira {
                kira_selection: KiraSelection(crate::actions::copy_vec(&selection.0)),
            },
        }
    }
}

/// The shape of one controller: who may use it, whether it is disabled,
/// what it selects by default, and when it resets.
#[derive(Debug)]
pub struct ControllerParameters {
    pub grayed_out: bool,
    pub reset_on_phase_start: Option<PhaseType>,
    pub dont_save: bool,
    pub default_selection: AbilitySelection,
    pub allowed_players: Vec<PlayerIndex>,
}

impl ControllerParameters {
    /// Whether the controller is currently disabled.
    pub fn grayed_out(&self) -> (r: bool)
        ensures
            r == self.grayed_out,
    {
        self.grayed_out
    }

    /// Whether incoming selections are acted on without being saved.
    pub fn dont_save(&self) -> (r: bool)
        ensures
            r == self.dont_save,
    {
        self.dont_save
    }

    /// The phase, if any, whose start resets the saved selection.
    pub fn reset_on_phase_start(&self) -> (r: Option<PhaseType>)
        ensures
            r == self.reset_on_phase_start,
    {
        self.reset_on_phase_start
    }

    /// The selection the controller falls back to.
    pub fn default_selection(&self) -> (r: &AbilitySelection)
        ensures
            *r == self.default_selection,
    {
        &self.default_selection
    }

    /// The players allowed to use the controller.
    pub fn allowed_players(&self) -> (r: &Vec<PlayerIndex>)
        ensures
            *r == self.allowed_players,
    {
        &self.allowed_players
    }

    /// Whether the given player may use the controller.
    pub fn allows(&self, player: PlayerIndex) -> (r: bool)
        ensures
            r == self.allowed_players@.contains(player),
    {
        let mut k: usize = 0;
        while k < self.allowed_players.len()
            invariant
                k <= self.allowed_players@.len(),
                forall|m: int| 0 <= m < k ==> self.allowed_players@[m] != player,
            decreases self.allowed_players@.len() - k,
        {
            if self.allowed_players[k] == player {
                return true;
            }
            k = k + 1;
        }
        false
    }

    /// A fresh value carrying the same parameters.
    pub fn duplicate(&self) -> (r: ControllerParameters)
        ensures
            r.grayed_out == self.grayed_out,
            r.reset_on_phase_start == self.reset_on_phase_start,
            r.dont_save == self.dont_save,
            selection_eq(r.default_selection, self.default_selection),
            r.allowed_players@ == self.allowed_players@,
    {
        ControllerParameters {
            grayed_out: self.grayed_out,
            reset_on_phase_start: self.reset_on_phase_start,
            dont_save: self.dont_save,
            default_selection: self.default_selection.duplicate(),
            allowed_players: crate::actions::copy_vec(&self.allowed_players),
        }
    }
}

/// One controller as saved between inputs: its current selection and its
/// parameters.
#[derive(Debug)]
pub struct SavedController {
    selection: AbilitySelection,
    available_ability_data: ControllerParameters,
}

impl SavedController {
    pub fn new(selection: AbilitySelection, available_ability_data: ControllerParameters) -> (r:
        SavedController)
        ensures
            r.selection() == selection,
            r.parameters() == available_ability_data,
    {
        SavedController { selection, available_ability_data }
    }

    /// The saved selection.
    pub closed spec fn selection(self) -> AbilitySelection {
        self.selection
    }

    /// The controller's parameters.
    pub closed spec fn parameters(self) -> ControllerParameters {
        self.available_ability_data
    }

    /// The saved selection.
    pub fn current_selection(&self) -> (r: &AbilitySelection)
        ensures
            *r == self.selection(),
    {
        &self.selection
    }

    /// Overwrite the saved selection; the parameters stand.
    pub fn set_selection(&mut self, selection: AbilitySelection)
        ensures
            final(self).selection() == selection,
            final(self).parameters() == old(self).parameters(),
    {
        self.selection = selection;
    }

    /// As a phase begins, fall back to the default selection when this is
    /// the controller's reset phase; otherwise nothing changes.
    pub fn reset_on_phase_start(&mut self, phase: PhaseType)
        ensures
            old(self).parameters().reset_on_phase_start == Some(phase) ==> selection_eq(
                final(self).selection(),
                old(self).parameters().default_selection,
            ),
            old(self).parameters().reset_on_phase_start != Some(phase) ==> *final(self) == *old(
                self,
            ),
            final(self).parameters() == old(self).parameters(),
    {
        let reset = match self.available_ability_data.reset_on_phase_start {
            Some(p) => p == phase,
            None => false,
        };
        if reset {
            self.selection = self.available_ability_data.default_selection.duplicate();
        }
    }
}

/// The first value stored under the identifier, if any.
pub open spec fn spec_assoc_get<V>(s: Seq<(ControllerID, V)>, id: ControllerID) -> Option<V>
    decreases s.len(),
{
    if s.len() == 0 {
        None
    } else if s[0].0 == id {
        Some(s[0].1)
    } else {
        spec_assoc_get(s.skip(1), id)
    }
}

/// Two controllers carry the same saved selection and the same parameters.
pub open spec fn controller_like(a: SavedController, b: SavedController) -> bool {
    &&& selection_eq(a.selection(), b.selection())
    &&& a.parameters().grayed_out == b.parameters().grayed_out
    &&& a.parameters().reset_on_phase_start == b.parameters().reset_on_phase_start
    &&& a.parameters().dont_save == b.parameters().dont_save
    &&& selection_eq(a.parameters().default_selection, b.parameters().default_selection)
    &&& a.parameters().allowed_players@ == b.parameters().allowed_players@
}

/// The entries whose allowed players include the given one, in order.
pub open spec fn spec_allowed_entries(
    s: Seq<(ControllerID, SavedController)>,
    player: PlayerIndex,
) -> Seq<(ControllerID, SavedController)>
    decreases s.len(),
{
    if s.len() == 0 {
        Seq::empty()
    } else {
        let rest = spec_allowed_entries(s.drop_last(), player);
        if s.last().1.parameters().allowed_players@.contains(player) {
            rest.push(s.last())
        } else {
            rest
        }
    }
}

/// Every saved controller of a game, keyed by controller identifier.
#[derive(Debug)]
pub struct SavedControllersMap {
    saved_controllers: Vec<(ControllerID, SavedController)>,
}

/// An accepted ability input was committed at slot `k`: that slot is the
/// first one keyed by the identifier, its selection is now the incoming one
/// with its parameters untouched, and every other slot stands as it was.
pub open spec fn selection_committed_at(
    before: SavedControllersMap,
    after: SavedControllersMap,
    id: ControllerID,
    selection: AbilitySelection,
    k: int,
) -> bool {
    &&& 0 <= k < before.entries().len()
    &&& (forall|j: int| 0 <= j < k ==> (#[trigger] before.entries()[j]).0 != id)
    &&& before.entries()[k].0 == id
    &&& after.entries().len() == before.entries().len()
    &&& (forall|j: int|
        0 <= j < before.entries().len() && j != k ==> (#[trigger] after.entries()[j])
            == before.entries()[j])
    &&& after.entries()[k].0 == id
    &&& after.entries()[k].1.selection() == selection
    &&& after.entries()[k].1.parameters() == before.entries()[k].1.parameters()
}

/// The parameters of every controller, keyed by controller identifier.
#[derive(Debug)]
pub struct ControllerParametersMap {
    pub controller_parameters: Vec<(ControllerID, ControllerParameters)>,
}

impl SavedControllersMap {
    pub fn new(saved_controllers: Vec<(ControllerID, SavedController)>) -> (r:
        SavedControllersMap)
        ensures
            r.entries() == saved_controllers@,
    {
        SavedControllersMap { saved_controllers }
    }

    /// The stored entries, in insertion order.
    pub closed spec fn entries(self) -> Seq<(ControllerID, SavedController)> {
        self.saved_controllers@
    }

    /// The controller saved under the identifier, if any.
    pub fn get_controller(&self, id: ControllerID) -> (r: Option<&SavedController>)
        ensures
            match r {
                Some(c) => spec_assoc_get(self.entries(), id) == Some(*c),
                None => spec_assoc_get(self.entries(), id) is None,
            },
    {
        let mut k: usize = 0;
        proof {
            assert(self.entries().skip(0) =~= self.entries());
        }
        while k < self.saved_controllers.len()
            invariant
                k <= self.entries().len(),
                spec_assoc_get(self.entries(), id) == spec_assoc_get(
                    self.entries().skip(k as int),
                    id,
                ),
            decreases self.entries().len() - k,
        {
            proof {
                assert(self.entries().skip(k as int).skip(1) =~= self.entries().skip(k + 1 as int));
                assert(self.entries().skip(k as int)[0] == self.entries()[k as int]);
            }
            if self.saved_controllers[k].0 == id {
                return Some(&self.saved_controllers[k].1);
            }
            k = k + 1;
        }
        None
    }

    /// The selection currently saved under the identifier, if any.
    pub fn get_controller_current_selection(&self, id: ControllerID) -> (r: Option<
        AbilitySelection,
    >)
        ensures
            match r {
                Some(s) => {
                    &&& spec_assoc_get(self.entries(), id) is Some
                    &&& selection_eq(s, spec_assoc_get(self.entries(), id)->0.selection())
                },
                None => spec_assoc_get(self.entries(), id) is None,
            },
    {
        match self.get_controller(id) {
            Some(c) => Some(c.current_selection().duplicate()),
            None => None,
        }
    }

    /// The saved one-player selection under the identifier, if it is one:
    /// `Some` exactly when the identifier is present and its saved selection
    /// is a one-player choice, and `None` when the identifier is absent or
    /// the selection is any other kind.
    pub fn get_controller_current_selection_player_option(&self, id: ControllerID) -> (r: Option<
        OnePlayerOptionSelection,
    >)
        ensures
            r == match spec_assoc_get(self.entries(), id) {
                Some(c) => match c.selection() {
                    AbilitySelection::OnePlayerOption { player_selection: selection } => Some(selection),
                    _ => None::<OnePlayerOptionSelection>,
                },
                None => None::<OnePlayerOptionSelection>,
            },
    {
        match self.get_controller(id) {
            Some(c) => match c.current_selection() {
                AbilitySelection::OnePlayerOption { player_selection: selection } => Some(*selection),
                _ => None,
            },
            None => None,
        }
    }

    /// The saved role selection under the identifier, if it is one: `Some`
    /// exactly when the identifier is present with a role choice saved.
    pub fn get_controller_current_selection_role_option(&self, id: ControllerID) -> (r: Option<
        RoleOptionSelection,
    >)
        ensures
            r == match spec_assoc_get(self.entries(), id) {
                Some(c) => match c.selection() {
                    AbilitySelection::RoleOption { role_selection: selection } => Some(selection),
                    _ => None::<RoleOptionSelection>,
                },
                None => None::<RoleOptionSelection>,
            },
    {
        match self.get_controller(id) {
            Some(c) => match c.current_selection() {
                AbilitySelection::RoleOption { role_selection: selection } => Some(*selection),
                _ => None,
            },
            None => None,
        }
    }

    /// The saved two-outline selection under the identifier, if it is one:
    /// `Some` exactly when the identifier is present with a two-outline
    /// choice saved.
    pub fn get_controller_current_selection_two_role_outline_option(
        &self,
        id: ControllerID,
    ) -> (r: Option<TwoRoleOutlineOptionSelection>)
        ensures
            r == match spec_assoc_get(self.entries(), id) {
                Some(c) => match c.selection() {
                    AbilitySelection::TwoRoleOutlineOption { outline_selection: selection } => Some(selection),
                    _ => None::<TwoRoleOutlineOptionSelection>,
                },
                None => None::<TwoRoleOutlineOptionSelection>,
            },
    {
        match self.get_controller(id) {
            Some(c) => match c.current_selection() {
                AbilitySelection::TwoRoleOutlineOption { outline_selection: selection } => Some(*selection),
                _ => None,
            },
            None => None,
        }
    }

    /// The saved Kira sheet under the identifier, if it is one: `Some`
    /// exactly when the identifier is present with a Kira sheet saved, and
    /// then a copy of that sheet.
    pub fn get_controller_current_selection_kira(&self, id: ControllerID) -> (r: Option<
        KiraSelection,
    >)
        ensures
            (r is Some) == (spec_assoc_get(self.entries(), id) matches Some(c) && c.selection()
                is Kira),
            r matches Some(s) ==> spec_assoc_get(self.entries(), id)->0.selection() matches
                AbilitySelection::Kira { kira_selection: selection } && selection.0@ == s.0@,
    {
        match self.get_controller(id) {
            Some(c) => match c.current_selection() {
                AbilitySelection::Kira { kira_selection: selection } => Some(
                    KiraSelection(crate::actions::copy_vec(&selection.0)),
                ),
                _ => None,
            },
            None => None,
        }
    }

    /// The controllers the player is allowed to use, as a map of their own:
    /// exactly the entries whose allowed players include the given one, with
    /// their identifiers and order preserved and each controller a faithful
    /// copy of the original.
    pub fn controllers_allowed_to_player(&self, player: PlayerIndex) -> (r: SavedControllersMap)
        ensures
            r.entries().len() == spec_allowed_entries(self.entries(), player).len(),
            forall|k: int|
                0 <= k < r.entries().len() ==> {
                    let kept = spec_allowed_entries(self.entries(), player);
                    &&& (#[trigger] r.entries()[k]).0 == kept[k].0
                    &&& controller_like(r.entries()[k].1, kept[k].1)
                },
    {
        let ghost all = self.entries();
        let mut kept: Vec<(ControllerID, SavedController)> = Vec::new();
        let mut k: usize = 0;
        while k < self.saved_controllers.len()
            invariant
                k <= all.len(),
                all == self.entries(),
                kept@.len() == spec_allowed_entries(all.take(k as int), player).len(),
                forall|m: int|
                    0 <= m < kept@.len() ==> {
                        let pre = spec_allowed_entries(all.take(k as int), player);
                        &&& (#[trigger] kept@[m]).0 == pre[m].0
                        &&& controller_like(kept@[m].1, pre[m].1)
                    },
            decreases self.saved_controllers.len() - k,
        {
            proof {
                assert(all.take(k + 1 as int).drop_last() =~= all.take(k as int));
                assert(all.take(k + 1 as int).last() == all[k as int]);
            }
            let entry = &self.saved_controllers[k];
            if entry.1.available_ability_data.allows(player) {
                let dup = SavedController {
                    selection: entry.1.selection.duplicate(),
                    available_ability_data: entry.1.available_ability_data.duplicate(),
                };
                kept.push((entry.0, dup));
            }
            k = k + 1;
        }
        proof {
            assert(all.take(all.len() as int) =~= all);
        }
        SavedControllersMap { saved_controllers: kept }
    }

    /// The parameters of every controller, keyed as this map is.
    pub fn controller_parameters(&self) -> (r: ControllerParametersMap)
        ensures
            r.controller_parameters@.len() == self.entries().len(),
            forall|k: int|
                0 <= k < self.entries().len() ==> (#[trigger] r.controller_parameters@[k]).0
                    == self.entries()[k].0,
    {
        let mut out: Vec<(ControllerID, ControllerParameters)> = Vec::new();
        let mut k: usize = 0;
        while k < self.saved_controllers.len()
            invariant
                k <= self.entries().len(),
                out@.len() == k,
                forall|m: int|
                    0 <= m < k ==> (#[trigger] out@[m]).0 == self.entries()[m].0,
            decreases self.entries().len() - k,
        {
            let entry = &self.saved_controllers[k];
            out.push((entry.0, entry.1.available_ability_data.duplicate()));
            k = k + 1;
        }
        ControllerParametersMap { controller_parameters: out }
    }

    /// The parameters of the controllers the player may use.
    pub fn controller_parameters_allowed_to_player(&self, player: PlayerIndex) -> (r:
        ControllerParametersMap)
        ensures
            forall|k: int|
                0 <= k < r.controller_parameters@.len() ==> (
                #[trigger] r.controller_parameters@[k]).1.allowed_players@.contains(player),
    {
        let mut out: Vec<(ControllerID, ControllerParameters)> = Vec::new();
        let mut k: usize = 0;
        while k < self.saved_controllers.len()
            invariant
                forall|m: int|
                    0 <= m < out@.len() ==> (#[trigger] out@[m]).1.allowed_players@.contains(
                        player,
                    ),
            decreases self.saved_controllers.len() - k,
        {
            let entry = &self.saved_controllers[k];
            if entry.1.available_ability_data.allows(player) {
                out.push((entry.0, entry.1.available_ability_data.duplicate()));
            }
            k = k + 1;
        }
        ControllerParametersMap { controller_parameters: out }
    }

    /// Commit an incoming ability input: the input is accepted exactly when
    /// the controller exists, is not grayed out, lists the actor among its
    /// allowed players, and the incoming selection differs from the saved
    /// one.  An accepted input overwrites the saved selection unless the
    /// controller is marked not to save; a rejected input changes nothing.
    pub fn on_ability_input_received(
        &mut self,
        actor: PlayerIndex,
        id: ControllerID,
        selection: AbilitySelection,
    ) -> (accepted: bool)
        ensures
            accepted == (spec_assoc_get(old(self).entries(), id) matches Some(c) && {
                &&& !c.parameters().grayed_out
                &&& c.parameters().allowed_players@.contains(actor)
                &&& !selection_eq(c.selection(), selection)
            }),
            (!accepted || spec_assoc_get(old(self).entries(), id)->0.parameters().dont_save)
                ==> final(self).entries() == old(self).entries(),
            accepted && !spec_assoc_get(old(self).entries(), id)->0.parameters().dont_save
                ==> exists|k: int| #[trigger] selection_committed_at(
                *old(self),
                *final(self),
                id,
                selection,
                k,
            ),
    {
        let ghost pre = *self;
        let ghost all = self.entries();
        let n = self.saved_controllers.len();
        let mut k: usize = 0;
        proof {
            assert(all.skip(0) =~= all);
        }
        while k < n
            invariant
                k <= n,
                n == all.len(),
                pre == *old(self),
                all == old(self).entries(),
                self.entries() == all,
                spec_assoc_get(all, id) == spec_assoc_get(all.skip(k as int), id),
                forall|j: int| 0 <= j < k ==> (#[trigger] all[j]).0 != id,
            decreases n - k,
        {
            proof {
                assert(all.skip(k as int).skip(1) =~= all.skip(k + 1 as int));
                assert(all.skip(k as int)[0] == all[k as int]);
            }
            if self.saved_controllers[k].0 == id {
                proof {
                    assert(spec_assoc_get(all, id) == Some(all[k as int].1));
                    assert(self.saved_controllers@[k as int] == all[k as int]);
                }
                let entry = &self.saved_controllers[k].1;
                let ok = !entry.available_ability_data.grayed_out
                    && entry.available_ability_data.allows(actor) && !entry.selection.same_as(
                    &selection,
                );
                if !ok {
                    return false;
                }
                if !self.saved_controllers[k].1.available_ability_data.dont_save {
                    self.saved_controllers[k].1.set_selection(selection);
                    proof {
                        assert(selection_committed_at(pre, *self, id, selection, k as int));
                    }
                }
                return true;
            }
            k = k + 1;
        }
        proof {
            assert(all.skip(n as int) =~= Seq::<(ControllerID, SavedController)>::empty());
        }
        false
    }

    /// As a phase begins, reset every controller whose reset phase it is.
    pub fn reset_on_phase_start_all(&mut self, phase: PhaseType)
        ensures
            final(self).entries().len() == old(self).entries().len(),
    {
        let mut k: usize = 0;
        let n = self.saved_controllers.len();
        while k < n
            invariant
                n == self.saved_controllers.len(),
            decreases n - k,
        {
            self.saved_controllers[k].1.reset_on_phase_start(phase);
            k = k + 1;
        }
    }
}

} // verus!
