//! Per-player mutable role state: the data a role carries across nights.

use vstd::prelude::*;

use crate::kira::Kira;
use crate::role::Role;
use crate::visit::PlayerIndex;

verus! {

/// Doctor: a limited number of self-heals, and the target healed tonight.
#[derive(Clone, Copy, Debug)]
pub struct Doctor {
    pub self_heals_remaining: u8,
    pub target_healed_ref: Option<PlayerIndex>,
}

/// Bodyguard: a limited self-shield, plus bookkeeping for tonight's
/// redirected attackers and protected target.
#[derive(Clone, Debug)]
pub struct Bodyguard {
    pub self_shields_remaining: u8,
    pub target_protected_ref: Option<PlayerIndex>,
    pub redirected_player_refs: Vec<PlayerIndex>,
}

/// Engineer's trap through its life cycle.
#[derive(Clone, Copy, Debug)]
pub enum Trap {
    Dismantled,
    Ready,
    Armed { target: PlayerIndex },
}

/// Outward view of a trap, without the target.
#[derive(Clone, Copy, Debug, PartialEq, Eq, Structural)]
pub enum TrapState {
    Dismantled,
    Ready,
    Armed,
}

impl Trap {
    /// The trap's outward state, hiding who it is set on.
    pub fn state(&self) -> (r: TrapState)
        ensures
            (r is Dismantled) <==> (*self is Dismantled),
            (r is Ready) <==> (*self is Ready),
            (r is Armed) <==> (*self is Armed),
    {
        match self {
            Trap::Dismantled => TrapState::Dismantled,
            Trap::Ready => TrapState::Ready,
            Trap::Armed { .. } => TrapState::Armed,
        }
    }
}

#[derive(Clone, Copy, Debug)]
pub struct Engineer {
    pub trap: Trap,
}

/// Marksman's marked targets: up to two.
#[derive(Clone, Copy, Debug, PartialEq, Eq, Structural)]
pub enum MarksmanMarks {
    Empty,
    One { a: PlayerIndex },
    Two { a: PlayerIndex, b: PlayerIndex },
}

impl MarksmanMarks {
    /// The marked players, in the order they were marked.
    pub fn marks(&self) -> (r: Vec<PlayerIndex>)
        ensures
            r@ == spec_marks(*self),
    {
        match self {
            MarksmanMarks::Empty => Vec::new(),
            MarksmanMarks::One { a } => {
                let mut v = Vec::new();
                v.push(*a);
                v
            },
            MarksmanMarks::Two { a, b } => {
                let mut v = Vec::new();
                v.push(*a);
                v.push(*b);
                v
            },
        }
    }
}

/// The marked players of a set of marks.
pub open spec fn spec_marks(m: MarksmanMarks) -> Seq<PlayerIndex> {
    match m {
        MarksmanMarks::Empty => Seq::empty(),
        MarksmanMarks::One { a } => seq![a],
        MarksmanMarks::Two { a, b } => seq![a, b],
    }
}

/// Marksman: loads on the second day, marks targets, and retires after
/// shooting a townie.
#[derive(Clone, Copy, Debug, PartialEq, Eq, Structural)]
pub enum MarksmanState {
    NotLoaded,
    Marks { marks: MarksmanMarks },
    ShotTownie,
}

impl MarksmanState {
    /// True when no player is currently marked.
    pub fn no_marks(&self) -> (r: bool)
        ensures
            r == (spec_state_marks(*self).len() == 0),
    {
        match self {
            MarksmanState::Marks { marks: MarksmanMarks::One { .. } } => false,
            MarksmanState::Marks { marks: MarksmanMarks::Two { .. } } => false,
            _ => true,
        }
    }

    /// The marked players, or none outside the marking state.
    pub fn marks(&self) -> (r: Vec<PlayerIndex>)
        ensures
            r@ == spec_state_marks(*self),
    {
        match self {
            MarksmanState::Marks { marks } => marks.marks(),
            _ => Vec::new(),
        }
    }

    /// Marks an unmarked player, or unmarks a marked one; does nothing
    /// outside the marking state.
    pub fn toggle_mark(&mut self, p: PlayerIndex)
        ensures
            !(*old(self) is Marks) ==> *final(self) == *old(self),
            *old(self) matches MarksmanState::Marks { marks: MarksmanMarks::Empty }
                ==> *final(self) == (MarksmanState::Marks { marks: MarksmanMarks::One { a: p } }),
            *old(self) matches MarksmanState::Marks { marks: MarksmanMarks::One { a } }
                ==> *final(self) == if a == p {
                    MarksmanState::Marks { marks: MarksmanMarks::Empty }
                } else {
                    MarksmanState::Marks { marks: MarksmanMarks::Two { a, b: p } }
                },
            *old(self) matches MarksmanState::Marks { marks: MarksmanMarks::Two { a, b } }
                ==> *final(self) == if a == p {
                    MarksmanState::Marks { marks: MarksmanMarks::One { a: b } }
                } else if b == p {
                    MarksmanState::Marks { marks: MarksmanMarks::One { a } }
                } else {
                    *old(self)
                },
    {
        let marks = match self {
            MarksmanState::Marks { marks } => *marks,
            _ => {
                return ;
            },
        };
        let new_marks = match marks {
            MarksmanMarks::Empty => MarksmanMarks::One { a: p },
            MarksmanMarks::One { a } => {
                if a != p {
                    MarksmanMarks::Two { a, b: p }
                } else {
                    MarksmanMarks::Empty
                }
            },
            MarksmanMarks::Two { a, b } => {
                if p == a {
                    MarksmanMarks::One { a: b }
                } else if p == b {
                    MarksmanMarks::One { a }
                } else {
                    MarksmanMarks::Two { a, b }
                }
            },
        };
        *self = MarksmanState::Marks { marks: new_marks };
    }
}

/// The marked players of a marksman state.
pub open spec fn spec_state_marks(s: MarksmanState) -> Seq<PlayerIndex> {
    match s {
        MarksmanState::Marks { marks } => spec_marks(marks),
        _ => Seq::empty(),
    }
}

#[derive(Clone, Copy, Debug)]
pub struct Marksman {
    pub state: MarksmanState,
}

/// Martyr: tries to get itself killed, spending a limited stock of bullets.
#[derive(Clone, Copy, Debug, PartialEq, Eq, Structural)]
pub enum MartyrState {
    Won,
    StillPlaying { bullets: u8, should_shoot: bool },
    LeftTown,
}

impl MartyrState {
    /// Bullets remaining; zero outside of play.
    pub fn bullets(&self) -> (r: u8)
        ensures
            *self matches MartyrState::StillPlaying { bullets, .. } ==> r == bullets,
            !(*self is StillPlaying) ==> r == 0,
    {
        match self {
            MartyrState::StillPlaying { bullets, .. } => *bullets,
            _ => 0,
        }
    }

    /// Whether the martyr shoots itself tonight; false outside of play.
    pub fn should_shoot(&self) -> (r: bool)
        ensures
            *self matches MartyrState::StillPlaying { should_shoot, .. } ==> r == should_shoot,
            !(*self is StillPlaying) ==> r == false,
    {
        match self {
            MartyrState::StillPlaying { should_shoot, .. } => *should_shoot,
            _ => false,
        }
    }
}

#[derive(Clone, Copy, Debug, PartialEq, Eq, Structural)]
pub struct Martyr {
    pub state: MartyrState,
}

impl Martyr {
    /// Whether the martyr has already won by dying to another's hand.
    pub fn won(&self) -> (r: bool)
        ensures
            r == (self.state is Won),
    {
        match self.state {
            MartyrState::Won => true,
            _ => false,
        }
    }
}

/// Eros either love-links two targets or attacks one.
#[derive(Clone, Copy, Debug, PartialEq, Eq, Structural)]
pub enum ErosAction {
    LoveLink,
    Kill,
}

#[derive(Clone, Copy, Debug)]
pub struct Eros {
    pub action: ErosAction,
}

/// Ojo sweeps every holder of a chosen role, to kill or to see.
#[derive(Clone, Copy, Debug, PartialEq, Eq, Structural)]
pub enum OjoAction {
    Kill { role: Role },
    See { role: Role },
    Idle,
}

#[derive(Clone, Copy, Debug)]
pub struct Ojo {
    pub chosen_action: OjoAction,
}

/// The action choice Ojo submits for the night.
#[derive(Clone, Copy, Debug, PartialEq, Eq, Structural)]
pub struct RoleActionChoice {
    pub action: OjoAction,
}

/// Puppeteer either strings a new marionette or poisons a target.
#[derive(Clone, Copy, Debug, PartialEq, Eq, Structural)]
pub enum PuppeteerAction {
    String,
    Poison,
}

#[derive(Clone, Copy, Debug)]
pub struct Puppeteer {
    pub marionettes_remaining: u8,
    pub action: PuppeteerAction,
}

/// Events a spy's bug can overhear at a target.
#[derive(Clone, Copy, Debug, PartialEq, Eq, Structural)]
pub enum SpyBug {
    Silenced,
    Roleblocked,
    Protected,
    Transported,
    Possessed,
}

#[derive(Clone, Copy, Debug)]
pub struct Spy;

#[derive(Clone, Copy, Debug)]
pub struct Villager;

#[derive(Clone, Copy, Debug)]
pub struct Detective;

#[derive(Clone, Copy, Debug)]
pub struct Philosopher;

#[derive(Clone, Copy, Debug)]
pub struct Snoop;

#[derive(Clone, Copy, Debug)]
pub struct Deputy {
    pub bullets_remaining: u8,
}

#[derive(Clone, Copy, Debug)]
pub struct Medium {
    pub seanced_target: Option<PlayerIndex>,
}

#[derive(Clone, Debug)]
pub struct Retributionist {
    pub currently_used_player: Option<PlayerIndex>,
    pub used_bodies: Vec<PlayerIndex>,
}

#[derive(Clone, Copy, Debug)]
pub struct Transporter;

#[derive(Clone, Copy, Debug)]
pub struct Jailor {
    pub jailed_target_ref: Option<PlayerIndex>,
    pub executions_remaining: u8,
}

#[derive(Clone, Copy, Debug)]
pub struct Godfather {
    pub backup: Option<PlayerIndex>,
}

#[derive(Clone, Copy, Debug)]
pub struct Mafioso;

#[derive(Clone, Copy, Debug)]
pub struct MadeMan;

#[derive(Clone, Debug)]
pub struct Mortician {
    pub obscured_players: Vec<PlayerIndex>,
}

#[derive(Clone, Copy, Debug)]
pub struct Janitor {
    pub cleans_remaining: u8,
    pub cleaned_ref: Option<PlayerIndex>,
}

#[derive(Clone, Copy, Debug)]
pub struct MafiaSupportWildcard {
    pub chosen_role: Option<Role>,
}

#[derive(Clone, Copy, Debug)]
pub struct Jester {
    pub lynched_yesterday: bool,
    pub won: bool,
    pub night_selection: Option<PlayerIndex>,
}

impl Jester {
    /// Whether the jester was lynched and so has won.
    pub fn won(&self) -> (r: bool)
        ensures
            r == self.won,
    {
        self.won
    }
}

#[derive(Clone, Copy, Debug)]
pub struct Minion {
    pub currently_used_player: Option<PlayerIndex>,
}

#[derive(Clone, Copy, Debug)]
pub struct Death {
    pub souls: u8,
    pub won: bool,
}

#[derive(Clone, Copy, Debug)]
pub struct Kidnapper {
    pub jailed_target_ref: Option<PlayerIndex>,
    pub executions_remaining: u8,
}

#[derive(Clone, Copy, Debug)]
pub struct TrueWildcard {
    pub chosen_role: Option<Role>,
}

#[derive(Clone, Copy, Debug)]
pub struct FiendsWildcard {
    pub chosen_role: Option<Role>,
}

#[derive(Clone, Copy, Debug)]
pub struct Apostle;

#[derive(Clone, Copy, Debug)]
pub struct Arsonist;

/// The state a player's role currently holds, one variant per role.
#[derive(Clone, Debug)]
pub enum RoleState {
    Jailor(Jailor),
    Villager(Villager),
    Detective(Detective),
    Philosopher(Philosopher),
    Snoop(Snoop),
    Spy(Spy),
    Doctor(Doctor),
    Bodyguard(Bodyguard),
    Engineer(Engineer),
    Marksman(Marksman),
    Deputy(Deputy),
    Medium(Medium),
    Retributionist(Retributionist),
    Transporter(Transporter),
    Godfather(Godfather),
    Mafioso(Mafioso),
    MadeMan(MadeMan),
    Mortician(Mortician),
    Janitor(Janitor),
    Eros(Eros),
    MafiaSupportWildcard(MafiaSupportWildcard),
    Jester(Jester),
    Minion(Minion),
    Death(Death),
    Martyr(Martyr),
    Kidnapper(Kidnapper),
    TrueWildcard(TrueWildcard),
    Ojo(Ojo),
    Puppeteer(Puppeteer),
    Kira(Kira),
    FiendsWildcard(FiendsWildcard),
    Arsonist(Arsonist),
    Apostle(Apostle),
}

/// The role a state belongs to.
pub open spec fn spec_role_of(s: RoleState) -> Role {
    match s {
        RoleState::Jailor(..) => Role::Jailor,
        RoleState::Villager(..) => Role::Villager,
        RoleState::Detective(..) => Role::Detective,
        RoleState::Philosopher(..) => Role::Philosopher,
        RoleState::Snoop(..) => Role::Snoop,
        RoleState::Spy(..) => Role::Spy,
        RoleState::Doctor(..) => Role::Doctor,
        RoleState::Bodyguard(..) => Role::Bodyguard,
        RoleState::Engineer(..) => Role::Engineer,
        RoleState::Marksman(..) => Role::Marksman,
        RoleState::Deputy(..) => Role::Deputy,
        RoleState::Medium(..) => Role::Medium,
        RoleState::Retributionist(..) => Role::Retributionist,
        RoleState::Transporter(..) => Role::Transporter,
        RoleState::Godfather(..) => Role::Godfather,
        RoleState::Mafioso(..) => Role::Mafioso,
        RoleState::MadeMan(..) => Role::MadeMan,
        RoleState::Mortician(..) => Role::Mortician,
        RoleState::Janitor(..) => Role::Janitor,
        RoleState::Eros(..) => Role::Eros,
        RoleState::MafiaSupportWildcard(..) => Role::MafiaSupportWildcard,
        RoleState::Jester(..) => Role::Jester,
        RoleState::Minion(..) => Role::Minion,
        RoleState::Death(..) => Role::Death,
        RoleState::Martyr(..) => Role::Martyr,
        RoleState::Kidnapper(..) => Role::Kidnapper,
        RoleState::TrueWildcard(..) => Role::TrueWildcard,
        RoleState::Ojo(..) => Role::Ojo,
        RoleState::Puppeteer(..) => Role::Puppeteer,
        RoleState::Kira(..) => Role::Kira,
        RoleState::FiendsWildcard(..) => Role::FiendsWildcard,
        RoleState::Arsonist(..) => Role::Arsonist,
        RoleState::Apostle(..) => Role::Apostle,
    }
}

impl RoleState {
    /// The role this state belongs to.
    pub fn role(&self) -> (r: Role)
        ensures
            r == spec_role_of(*self),
    {
        match self {
            RoleState::Jailor(..) => Role::Jailor,
            RoleState::Villager(..) => Role::Villager,
            RoleState::Detective(..) => Role::Detective,
            RoleState::Philosopher(..) => Role::Philosopher,
            RoleState::Snoop(..) => Role::Snoop,
            RoleState::Spy(..) => Role::Spy,
            RoleState::Doctor(..) => Role::Doctor,
            RoleState::Bodyguard(..) => Role::Bodyguard,
            RoleState::Engineer(..) => Role::Engineer,
            RoleState::Marksman(..) => Role::Marksman,
            RoleState::Deputy(..) => Role::Deputy,
            RoleState::Medium(..) => Role::Medium,
            RoleState::Retributionist(..) => Role::Retributionist,
            RoleState::Transporter(..) => Role::Transporter,
            RoleState::Godfather(..) => Role::Godfather,
            RoleState::Mafioso(..) => Role::Mafioso,
            RoleState::MadeMan(..) => Role::MadeMan,
            RoleState::Mortician(..) => Role::Mortician,
            RoleState::Janitor(..) => Role::Janitor,
            RoleState::Eros(..) => Role::Eros,
            RoleState::MafiaSupportWildcard(..) => Role::MafiaSupportWildcard,
            RoleState::Jester(..) => Role::Jester,
            RoleState::Minion(..) => Role::Minion,
            RoleState::Death(..) => Role::Death,
            RoleState::Martyr(..) => Role::Martyr,
            RoleState::Kidnapper(..) => Role::Kidnapper,
            RoleState::TrueWildcard(..) => Role::TrueWildcard,
            RoleState::Ojo(..) => Role::Ojo,
            RoleState::Puppeteer(..) => Role::Puppeteer,
            RoleState::Kira(..) => Role::Kira,
            RoleState::FiendsWildcard(..) => Role::FiendsWildcard,
            RoleState::Arsonist(..) => Role::Arsonist,
            RoleState::Apostle(..) => Role::Apostle,
        }
    }
}

/// The state a role starts with when first assigned.
pub fn default_state(role: Role) -> (r: RoleState)
    ensures
        spec_role_of(r) == role,
        forall|n: int| #[trigger] crate::game::role_state_in_bounds(r, n),
{
    match role {
        Role::Jailor => RoleState::Jailor(
            Jailor { jailed_target_ref: None, executions_remaining: 3 },
        ),
        Role::Villager => RoleState::Villager(Villager),
        Role::Detective => RoleState::Detective(Detective),
        Role::Philosopher => RoleState::Philosopher(Philosopher),
        Role::Snoop => RoleState::Snoop(Snoop),
        Role::Spy => RoleState::Spy(Spy),
        Role::Doctor => RoleState::Doctor(
            Doctor { self_heals_remaining: 1, target_healed_ref: None },
        ),
        Role::Bodyguard => RoleState::Bodyguard(
            Bodyguard {
                self_shields_remaining: 1,
                target_protected_ref: None,
                redirected_player_refs: Vec::new(),
            },
        ),
        Role::Engineer => RoleState::Engineer(Engineer { trap: Trap::Dismantled }),
        Role::Marksman => RoleState::Marksman(Marksman { state: MarksmanState::NotLoaded }),
        Role::Deputy => RoleState::Deputy(Deputy { bullets_remaining: 1 }),
        Role::Medium => RoleState::Medium(Medium { seanced_target: None }),
        Role::Retributionist => RoleState::Retributionist(
            Retributionist { currently_used_player: None, used_bodies: Vec::new() },
        ),
        Role::Transporter => RoleState::Transporter(Transporter),
        Role::Godfather => RoleState::Godfather(Godfather { backup: None }),
        Role::Mafioso => RoleState::Mafioso(Mafioso),
        Role::MadeMan => RoleState::MadeMan(MadeMan),
        Role::Mortician => RoleState::Mortician(Mortician { obscured_players: Vec::new() }),
        Role::Janitor => RoleState::Janitor(Janitor { cleans_remaining: 3, cleaned_ref: None }),
        Role::Eros => RoleState::Eros(Eros { action: ErosAction::LoveLink }),
        Role::MafiaSupportWildcard => RoleState::MafiaSupportWildcard(
            MafiaSupportWildcard { chosen_role: None },
        ),
        Role::Jester => RoleState::Jester(
            Jester { lynched_yesterday: false, won: false, night_selection: None },
        ),
        Role::Minion => RoleState::Minion(Minion { currently_used_player: None }),
        Role::Death => RoleState::Death(Death { souls: 0, won: false }),
        Role::Martyr => RoleState::Martyr(
            Martyr { state: MartyrState::StillPlaying { bullets: 2, should_shoot: false } },
        ),
        Role::Kidnapper => RoleState::Kidnapper(
            Kidnapper { jailed_target_ref: None, executions_remaining: 1 },
        ),
        Role::TrueWildcard => RoleState::TrueWildcard(TrueWildcard { chosen_role: None }),
        Role::Ojo => RoleState::Ojo(Ojo { chosen_action: OjoAction::Idle }),
        Role::Puppeteer => RoleState::Puppeteer(
            Puppeteer { marionettes_remaining: 3, action: PuppeteerAction::Poison },
        ),
        Role::Kira => RoleState::Kira(Kira { guesses: Vec::new() }),
        Role::FiendsWildcard => RoleState::FiendsWildcard(FiendsWildcard { chosen_role: None }),
        Role::Arsonist => RoleState::Arsonist(Arsonist),
        Role::Apostle => RoleState::Apostle(Apostle),
    }
}

} // verus!
