//! Chat groups, night information events, and chat messages.

use vstd::prelude::*;

use crate::grave::Grave;
use crate::kira::KiraResult;
use crate::role::Role;
use crate::role_state::{SpyBug, TrapState};
use crate::phase::PhaseType;
use crate::player::Verdict;
use crate::visit::PlayerIndex;

verus! {

/// A group of players that a message can be addressed to.
#[derive(Clone, Copy, Debug, PartialEq, Eq, Structural)]
pub enum PlayerGroup {
    All,
    Mafia,
    Cult,
    Dead,
    Jail,
}

/// One piece of information a player learns during the night.  These
/// accumulate on the player's night state and are flushed to chat when the
/// night resolves.
#[derive(Debug)]
pub enum NightInformation {
    RoleBlocked { immune: bool },
    YouSurvivedAttack,
    SomeoneSurvivedYourAttack,
    YouDied,
    TargetWasAttacked,
    YouWereProtected,
    Transported,
    YouWerePossessed { immune: bool },
    TargetIsPossessionImmune,
    PossessionTargetsRole { role: Role },
    TargetsMessage { message: Box<NightInformation> },
    Silenced,
    JailedTarget { player_index: PlayerIndex },
    JailedSomeone { player_index: PlayerIndex },
    SheriffResult { suspicious: bool },
    SeerResult { enemies: bool },
    SnoopResult { townie: bool },
    SpyMafiaVisit { players: Vec<PlayerIndex> },
    SpyBug { bug: SpyBug },
    SpyCultistCount { count: u8 },
    TrapState { state: TrapState },
    TrapStateEndOfNight { state: TrapState },
    EngineerVisitorsRole { role: Role },
    KiraResult { result: KiraResult },
    PlayerRoleAndWill { role: Role, will: String },
    DeathCollectedSouls,
    MarksmanChosenMarks { marks: Vec<PlayerIndex> },
    GodfatherBackup { backup: Option<PlayerIndex> },
    GodfatherBackupKilled { backup: PlayerIndex },
}

/// What a chat message says.
#[derive(Debug)]
pub enum ChatMessageVariant {
    PhaseChange { phase_type: PhaseType, day_number: u8 },
    PlayerDied { grave: Grave },
    TrialInformation { required_votes: usize, trials_left: u8 },
    Voted { voter: PlayerIndex, votee: Option<PlayerIndex> },
    JudgementVote { voter_player_index: PlayerIndex },
    JudgementVerdict { voter_player_index: PlayerIndex, verdict: Verdict },
    TrialVerdict { player_on_trial: PlayerIndex, innocent: usize, guilty: usize },
    PlayerOnTrial { player_index: PlayerIndex },
    RoleAssignment { role: Role },
    NightInformation { night_information: NightInformation },
    JesterWon,
    MartyrRevealed { martyr: PlayerIndex },
    MartyrWon,
    MartyrFailed,
}

/// A chat message: its content, and the group it was sent to, if any.
#[derive(Debug)]
pub struct ChatMessage {
    pub variant: ChatMessageVariant,
    pub chat_group: Option<PlayerGroup>,
}

impl ChatMessage {
    pub fn new(variant: ChatMessageVariant, chat_group: Option<PlayerGroup>) -> (r: ChatMessage)
        ensures
            r.variant == variant,
            r.chat_group == chat_group,
    {
        ChatMessage { variant, chat_group }
    }

    /// A message delivered to one player only.
    pub fn new_private(variant: ChatMessageVariant) -> (r: ChatMessage)
        ensures
            r.variant == variant,
            r.chat_group is None,
    {
        ChatMessage { variant, chat_group: None }
    }

    /// A message delivered to a whole group.
    pub fn new_non_private(variant: ChatMessageVariant, chat_group: PlayerGroup) -> (r: ChatMessage)
        ensures
            r.variant == variant,
            r.chat_group == Some(chat_group),
    {
        ChatMessage { variant, chat_group: Some(chat_group) }
    }

    pub fn get_variant(&self) -> (r: &ChatMessageVariant)
        ensures
            *r == self.variant,
    {
        &self.variant
    }
}

impl NightInformation {
    /// A fresh value carrying the same information.
    pub fn duplicate(&self) -> (r: NightInformation)
        decreases *self,
    {
        match self {
            NightInformation::RoleBlocked { immune } => NightInformation::RoleBlocked {
                immune: *immune,
            },
            NightInformation::YouSurvivedAttack => NightInformation::YouSurvivedAttack,
            NightInformation::SomeoneSurvivedYourAttack => {
                NightInformation::SomeoneSurvivedYourAttack
            },
            NightInformation::YouDied => NightInformation::YouDied,
            NightInformation::TargetWasAttacked => NightInformation::TargetWasAttacked,
            NightInformation::YouWereProtected => NightInformation::YouWereProtected,
            NightInformation::Transported => NightInformation::Transported,
            NightInformation::YouWerePossessed { immune } => NightInformation::YouWerePossessed {
                immune: *immune,
            },
            NightInformation::TargetIsPossessionImmune => {
                NightInformation::TargetIsPossessionImmune
            },
            NightInformation::PossessionTargetsRole { role } => {
                NightInformation::PossessionTargetsRole { role: *role }
            },
            NightInformation::TargetsMessage { message } => NightInformation::TargetsMessage {
                message: Box::new((**message).duplicate()),
            },
            NightInformation::Silenced => NightInformation::Silenced,
            NightInformation::JailedTarget { player_index } => NightInformation::JailedTarget {
                player_index: *player_index,
            },
            NightInformation::JailedSomeone { player_index } => NightInformation::JailedSomeone {
                player_index: *player_index,
            },
            NightInformation::SheriffResult { suspicious } => NightInformation::SheriffResult {
                suspicious: *suspicious,
            },
            NightInformation::SeerResult { enemies } => NightInformation::SeerResult {
                enemies: *enemies,
            },
            NightInformation::SnoopResult { townie } => NightInformation::SnoopResult {
                townie: *townie,
            },
            NightInformation::SpyMafiaVisit { players } => NightInformation::SpyMafiaVisit {
                players: crate::actions::copy_vec(players),
            },
            NightInformation::SpyBug { bug } => NightInformation::SpyBug { bug: *bug },
            NightInformation::SpyCultistCount { count } => NightInformation::SpyCultistCount {
                count: *count,
            },
            NightInformation::TrapState { state } => NightInformation::TrapState {
                state: *state,
            },
            NightInformation::TrapStateEndOfNight { state } => {
                NightInformation::TrapStateEndOfNight { state: *state }
            },
            NightInformation::EngineerVisitorsRole { role } => {
                NightInformation::EngineerVisitorsRole { role: *role }
            },
            NightInformation::KiraResult { result } => NightInformation::KiraResult {
                result: KiraResult { guesses: crate::actions::copy_vec(&result.guesses) },
            },
            NightInformation::PlayerRoleAndWill { role, will } => {
                NightInformation::PlayerRoleAndWill {
                    role: *role,
                    will: crate::game::clone_string(will),
                }
            },
            NightInformation::DeathCollectedSouls => NightInformation::DeathCollectedSouls,
            NightInformation::MarksmanChosenMarks { marks } => {
                NightInformation::MarksmanChosenMarks { marks: crate::actions::copy_vec(marks) }
            },
            NightInformation::GodfatherBackup { backup } => NightInformation::GodfatherBackup {
                backup: *backup,
            },
            NightInformation::GodfatherBackupKilled { backup } => {
                NightInformation::GodfatherBackupKilled { backup: *backup }
            },
        }
    }
}

/// Wraps each night information event into a private chat message, keeping
/// the order in which the events happened.
pub fn night_information_to_chat_messages(infos: Vec<NightInformation>) -> (r: Vec<ChatMessage>)
    ensures
        r@.len() == infos@.len(),
        forall|i: int|
            0 <= i < infos@.len() ==> (#[trigger] r@[i]) == (ChatMessage {
                variant: ChatMessageVariant::NightInformation { night_information: infos@[i] },
                chat_group: None,
            }),
{
    let ghost orig = infos@;
    let mut rest = infos;
    let mut out: Vec<ChatMessage> = Vec::new();
    while rest.len() > 0
        invariant
            out@.len() + rest@.len() == orig.len(),
            rest@ == orig.skip(out@.len() as int),
            forall|i: int|
                0 <= i < out@.len() ==> (#[trigger] out@[i]) == (ChatMessage {
                    variant: ChatMessageVariant::NightInformation { night_information: orig[i] },
                    chat_group: None,
                }),
        decreases rest@.len(),
    {
        let info = rest.remove(0);
        assert(info == orig[out@.len() as int]);
        out.push(ChatMessage::new_private(ChatMessageVariant::NightInformation {
            night_information: info,
        }));
        assert(rest@ =~= orig.skip(out@.len() as int));
    }
    out
}

} // verus!
